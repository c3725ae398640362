use indexmap::IndexMap;
use proto_seeder::module::get_modules;
use proto_seeder::parser::{Attribute, RouteVariant, RoutesEnum, VariantShape};
use proto_seeder::route::{SeedModule, SeedRoute};
use proto_seeder::templates::{inject_variant_payload_in_function_call, INIT_COMMENT};

const SIMPLE_INIT: &str = r###"
 pub fn init(url:Url, previous_state: Model, orders: &mut impl Orders<Msg,> ) {
       log!("init for Login");
       }
"###;

const INIT_WITH_NESTED: &str = r###"
 pub fn init(url:Url, previous_state: Model, nested: &Routes, orders: &mut impl Orders<Msg,> ) {
       log!("init for Login");
       }
"###;

const INIT_WITH_ID_PARAM: &str = r###"
 pub fn init(url:Url, previous_state: Model, id: &str, orders: &mut impl Orders<Msg,> ) {
       log!("init for Login");
       }
"###;

const INIT_WITH_ID_PARAM_AND_QUERY: &str = r###"
 pub fn init(url:Url, previous_state: Model, id: &str, query: &IndexMap<String, String>, orders: &mut impl Orders<Msg,> ) {
       log!("init for Login");
       }
"###;

const INIT_WITH_ID_PARAM_AND_QUERY_AND_CHILDREN: &str = r###"
 pub fn init(url:Url, previous_state: Model, id: &str, query: &IndexMap<String, String>, children: &Routes, orders: &mut impl Orders<Msg,> ) {
       log!("init for Login");
       }
"###;

const INIT_WITH_ID_PARAM_AND_CHILDREN: &str = r###"
 pub fn init(url:Url, previous_state: Model, id: &str, children: &Routes, orders: &mut impl Orders<Msg,> ) {
       log!("init for Login");
       }
"###;

const INIT_WITH_QUERY: &str = r###"
 pub fn init(url:Url, previous_state: Model, query: &IndexMap<String, String>, orders: &mut impl Orders<Msg,> ) {
       log!("init for Login");
       }
"###;

const INIT_WITH_QUERY_AND_CHILDREN: &str = r###"
 pub fn init(url:Url, previous_state: Model, query: &IndexMap<String, String>, children: &Routes, orders: &mut impl Orders<Msg,> ) {
       log!("init for Login");
       }
"###;

const INIT_WITH_CHILDREN: &str = r###"
 pub fn init(url:Url, previous_state: Model, children: &Routes, orders: &mut impl Orders<Msg,> ) {
       log!("init for Login");
       }
"###;

/// A route enum with the single variant `Login` of the given shape.
fn get_routes(shape: VariantShape, modules_path: bool) -> RoutesEnum {
    let mut attrs = vec![Attribute { key: "derive".to_string(), value: None }];
    if modules_path {
        attrs.push(Attribute {
            key: "modules_path".to_string(),
            value: Some("pages".to_string()),
        });
    }
    RoutesEnum {
        attrs,
        variants: vec![RouteVariant { name: "Login".to_string(), shape, attrs: vec![] }],
    }
}

fn fields(names: &[&str]) -> VariantShape {
    VariantShape::Named(names.iter().map(|n| n.to_string()).collect())
}

fn get_result(expected_template: &str) -> String {
    format!("{} {}", INIT_COMMENT, expected_template)
}

fn route(nested: bool, children: bool, id_param: bool, query: bool) -> SeedRoute {
    SeedRoute {
        name: "Login".to_string(),
        nested,
        children,
        id_param,
        query,
        content_to_load: "".to_string(),
    }
}

fn login(routes: RoutesEnum) -> SeedModule {
    let map: IndexMap<String, SeedModule> = get_modules(&routes, None, "", "").0;
    map.get("login").unwrap().clone()
}

#[test]
fn write_init() {
    let result = login(get_routes(VariantShape::Unit, true));
    assert_eq!(result.init(), get_result(SIMPLE_INIT));
    assert_eq!(result.origin_route().as_ref().unwrap().clone(), route(false, false, false, false));
}

#[test]
fn write_init_with_nested() {
    let result = login(get_routes(VariantShape::Tuple, false));
    assert_eq!(result.init(), get_result(INIT_WITH_NESTED));
    assert_eq!(result.origin_route().as_ref().unwrap().clone(), route(true, false, false, false));
}

#[test]
fn write_init_with_id_param() {
    let result = login(get_routes(fields(&["id"]), false));
    assert_eq!(result.init(), get_result(INIT_WITH_ID_PARAM));
    assert_eq!(result.origin_route().as_ref().unwrap().clone(), route(false, false, true, false));
}

#[test]
fn write_init_with_id_param_and_query() {
    let result = login(get_routes(fields(&["id", "query"]), false));
    assert_eq!(result.init(), get_result(INIT_WITH_ID_PARAM_AND_QUERY));
    assert_eq!(result.origin_route().as_ref().unwrap().clone(), route(false, false, true, true));
}

#[test]
fn write_init_with_id_param_and_query_and_children() {
    let result = login(get_routes(fields(&["id", "query", "children"]), false));
    assert_eq!(result.init(), get_result(INIT_WITH_ID_PARAM_AND_QUERY_AND_CHILDREN));
    assert_eq!(result.origin_route().as_ref().unwrap().clone(), route(false, true, true, true));
}

#[test]
fn write_init_with_id_param_and_children() {
    let result = login(get_routes(fields(&["id", "children"]), false));
    assert_eq!(result.init(), get_result(INIT_WITH_ID_PARAM_AND_CHILDREN));
    assert_eq!(result.origin_route().as_ref().unwrap().clone(), route(false, true, true, false));
}

#[test]
fn write_init_with_query() {
    let result = login(get_routes(fields(&["query"]), false));
    assert_eq!(result.init(), get_result(INIT_WITH_QUERY));
    assert_eq!(result.origin_route().as_ref().unwrap().clone(), route(false, false, false, true));
}

#[test]
fn write_init_with_query_and_children() {
    let result = login(get_routes(fields(&["query", "children"]), false));
    assert_eq!(result.init(), get_result(INIT_WITH_QUERY_AND_CHILDREN));
    assert_eq!(result.origin_route().as_ref().unwrap().clone(), route(false, true, false, true));
}

#[test]
fn write_init_with_children() {
    let result = login(get_routes(fields(&["children"]), false));
    assert_eq!(result.init(), get_result(INIT_WITH_CHILDREN));
    assert_eq!(result.origin_route().as_ref().unwrap().clone(), route(false, true, false, false));
}

#[test]
fn init_without_recognised_fields_is_the_simple_one() {
    let result = login(get_routes(fields(&["name"]), false));
    assert_eq!(result.init(), get_result(SIMPLE_INIT));
    assert_eq!(result.origin_route().as_ref().unwrap().clone(), route(false, false, false, false));
}

#[test]
fn payload_follows_id_query_children_order() {
    assert_eq!(inject_variant_payload_in_function_call(false, false, false), "");
    assert_eq!(
        inject_variant_payload_in_function_call(true, false, true),
        "id: &str, children: &Routes"
    );
    assert_eq!(
        inject_variant_payload_in_function_call(false, true, true),
        "query: &IndexMap<String, String>, children: &Routes"
    );
    // Field order in the variant does not matter.
    let result = login(get_routes(fields(&["children", "query", "id"]), false));
    assert_eq!(result.init(), get_result(INIT_WITH_ID_PARAM_AND_QUERY_AND_CHILDREN));
}

#[test]
fn module_fragments_and_view_shapes() {
    let nested = login(get_routes(VariantShape::Tuple, false));
    assert!(nested.view().ends_with(" pub fn view(model_: &Model, nested: &Routes) -> Node<Msg> {\n div![\"\"]\n }\n"));
    let plain = login(get_routes(fields(&["id"]), false));
    assert!(plain.view().ends_with(" pub fn view(model_: &Model) -> Node<Msg> {\n div![\"\"]\n }\n"));
    let children = login(get_routes(fields(&["children"]), false));
    assert!(children.view().contains("nested: &Routes"));
    assert!(plain.model().ends_with("\n pub struct Model {}\n"));
    assert!(plain.msg().ends_with("\n pub enum Msg {}\n"));
    assert!(plain.routes().contains("pub enum Routes {"));
    assert!(plain.update().contains("fn update(msg: Msg, model: &mut Model"));
    assert_eq!(plain.meta().filepath(), "/login.rs");
    assert_eq!(plain.meta().mod_import(), "mod login;");
}
