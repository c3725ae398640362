//! One generated module per route variant without a `view` attribute: the
//! variant's descriptor, its init and view functions chosen by its shape, and
//! the import that wires it into its parent.
use crate::import::{
    ERROR_WHEN_MULTIPLE_FOLDERS_NOT_SUPPORTED, ERROR_WHEN_PATH_EMPTY, folder_module_spec, generate_module_meta, module_meta_spec, target_module_spec, ImportModel,
    ImportModule,
};
use crate::maps::{
    insert_entry, insert_module, module_entries, new_module_map, snake_case_of, to_snake_case,
};
use crate::parser::{
    get_view_attribute, value_view, view_attribute_spec, AttributeError, RouteVariant,
    RoutesEnum, VariantShape,
};
use crate::route::{MetaModel, ModuleModel, RouteModel, SeedModule, SeedRoute};
use crate::templates::{
    module_view, named_init, named_init_text, nested_init, simple_init, with_banner, init_text,
    InitShape, INIT_COMMENT, MESSAGE_COMMENT, MESSAGE_TEMPLATE, MODEL_COMMENT, MODEL_TEMPLATE,
    ROUTES_COMMENT, ROUTES_TEMPLATE, UPDATE_COMMENT, UPDATE_TEMPLATE, VIEW_COMMENT, VIEW_TEMPLATE,
    VIEW_TEMPLATE_WITH_ROUTES,
};
use crate::text::{ascii_text, same_text};
use indexmap::IndexMap;
use vstd::prelude::*;

verus! {

/// Why generation cannot go on.
#[derive(Debug, Clone, PartialEq)]
pub enum GenerationError {
    /// A malformed attribute on the route enum or on a variant.
    Attribute(AttributeError),
    /// A `modules_path` that is not one directory name.
    ModulesPath(String),
    /// A variant that becomes a module but whose name is not ASCII, which
    /// the snake-case conversion cannot take.
    NonAsciiName(String),
}


/// `name` is one of `fields`.
pub open spec fn has_field_spec(fields: Seq<String>, name: Seq<char>) -> bool {
    exists|i: int| 0 <= i < fields.len() && fields[i]@ == name
}

/// The descriptor of variant `v`.
pub open spec fn variant_route(v: RouteVariant) -> RouteModel {
    match v.shape {
        VariantShape::Unit => RouteModel {
            name: v.name@,
            nested: false,
            children: false,
            id_param: false,
            query: false,
            content_to_load: Seq::empty(),
        },
        VariantShape::Tuple => RouteModel {
            name: v.name@,
            nested: true,
            children: false,
            id_param: false,
            query: false,
            content_to_load: Seq::empty(),
        },
        VariantShape::Named(fields) => RouteModel {
            name: v.name@,
            nested: false,
            children: has_field_spec(fields@, "children"@),
            id_param: has_field_spec(fields@, "id"@),
            query: has_field_spec(fields@, "query"@),
            content_to_load: Seq::empty(),
        },
    }
}

/// The init function of variant `v`, by its shape.
pub open spec fn variant_init(v: RouteVariant) -> Seq<char> {
    match v.shape {
        VariantShape::Unit => init_text(InitShape::Simple, v.name@),
        VariantShape::Tuple => init_text(InitShape::Nested, v.name@),
        VariantShape::Named(fields) => named_init_text(
            has_field_spec(fields@, "id"@),
            has_field_spec(fields@, "query"@),
            has_field_spec(fields@, "children"@),
            v.name@,
        ),
    }
}

/// The view of a module takes the nested routes for a tuple variant and for
/// one with a `children` field.
pub open spec fn variant_view_has_routes(v: RouteVariant) -> bool {
    match v.shape {
        VariantShape::Unit => false,
        VariantShape::Tuple => true,
        VariantShape::Named(fields) => has_field_spec(fields@, "children"@),
    }
}

pub open spec fn banner(comment: Seq<char>, body: Seq<char>) -> Seq<char> {
    comment + " "@ + body
}

/// The module generated for variant `v`, written as `meta` says.
pub open spec fn module_spec(v: RouteVariant, meta: MetaModel) -> ModuleModel {
    ModuleModel {
        view: banner(
            VIEW_COMMENT@,
            if variant_view_has_routes(v) {
                VIEW_TEMPLATE_WITH_ROUTES@
            } else {
                VIEW_TEMPLATE@
            },
        ),
        init: banner(INIT_COMMENT@, variant_init(v)),
        update: banner(UPDATE_COMMENT@, UPDATE_TEMPLATE@),
        model: banner(MODEL_COMMENT@, MODEL_TEMPLATE@),
        msg: banner(MESSAGE_COMMENT@, MESSAGE_TEMPLATE@),
        routes: banner(ROUTES_COMMENT@, ROUTES_TEMPLATE@),
        origin_route: Some(variant_route(v)),
        meta,
    }
}

/// The modules of the variants `vs` and the parent that imports them,
/// starting from `parent`: one per variant without a `view` attribute.
pub open spec fn modules_fold(
    vs: Seq<RouteVariant>,
    parent: ImportModel,
    root_path_file: Seq<char>,
    target_file_path: Seq<char>,
) -> (Seq<(Seq<char>, ModuleModel)>, ImportModel)
    decreases vs.len(),
{
    if vs.len() == 0 {
        (Seq::empty(), parent)
    } else {
        let (entries, p) = modules_fold(vs.drop_last(), parent, root_path_file, target_file_path);
        let v = vs.last();
        if view_attribute_spec(v.attrs@) matches Ok(None) {
            let name = snake_case_of(v.name@);
            let (meta, next_parent) = module_meta_spec(p, name, root_path_file, target_file_path);
            (insert_entry(entries, name, module_spec(v, meta)), next_parent)
        } else {
            (entries, p)
        }
    }
}

/// Every `view` attribute of `vs` is well formed.
pub open spec fn views_ok(vs: Seq<RouteVariant>) -> bool {
    forall|i: int| 0 <= i < vs.len() ==> (#[trigger] view_attribute_spec(vs[i].attrs@)) is Ok
}

/// Every variant of `vs` that becomes a module has an ASCII name, which the
/// snake-case conversion needs.
pub open spec fn module_names_ascii(vs: Seq<RouteVariant>) -> bool {
    forall|i: int|
        0 <= i < vs.len() && ((#[trigger] view_attribute_spec(vs[i].attrs@)) matches Ok(None))
            ==> ascii_text(vs[i].name@)
}

/// The parent of the modules: the folder that `modules_path` names, or the
/// target file; `Err` for a path that is empty or has a `/`.
pub open spec fn parent_spec(
    path: Option<Seq<char>>,
    root_path_file: Seq<char>,
    target_file_path: Seq<char>,
) -> Result<ImportModel, ()> {
    match path {
        Some(dir) => if dir.contains('/') || dir.len() == 0 {
            Err(())
        } else {
            Ok(folder_module_spec(dir, root_path_file, target_file_path))
        },
        None => Ok(target_module_spec(root_path_file, target_file_path)),
    }
}

/// The message with which `modules_path` is refused, if it is: `multiple`
/// for a path with a `/`, else `empty` for an empty one.
pub open spec fn path_error(path: Option<Seq<char>>, multiple: Seq<char>, empty: Seq<char>) -> Option<
    Seq<char>,
> {
    match path {
        Some(dir) => if dir.contains('/') {
            Some(multiple)
        } else if dir.len() == 0 {
            Some(empty)
        } else {
            None
        },
        None => None,
    }
}

/// `name` is one of `fields`.
pub fn has_field(fields: &Vec<String>, name: &str) -> (r: bool)
    ensures
        r == has_field_spec(fields@, name@),
{
    let mut i: usize = 0;
    while i < fields.len()
        invariant
            i <= fields.len(),
            forall|j: int| 0 <= j < i ==> fields@[j]@ != name@,
        decreases fields.len() - i,
    {
        if same_text(fields[i].as_str(), name) {
            return true;
        }
        i = i + 1;
    }
    false
}

/// Init function and descriptor of a variant without payload.
pub fn get_init_for_unit_variant(name: &str) -> (r: (String, SeedRoute))
    ensures
        r.0@ == init_text(InitShape::Simple, name@),
        r.1@ == (RouteModel {
            name: name@,
            nested: false,
            children: false,
            id_param: false,
            query: false,
            content_to_load: Seq::empty(),
        }),
{
    (
        simple_init(name),
        SeedRoute {
            name: String::from_str(name),
            nested: false,
            children: false,
            id_param: false,
            query: false,
            content_to_load: String::new(),
        },
    )
}

/// Init function and descriptor of a variant holding a nested route enum.
pub fn get_init_for_tuple_variant(name: &str) -> (r: (String, SeedRoute))
    ensures
        r.0@ == init_text(InitShape::Nested, name@),
        r.1@ == (RouteModel {
            name: name@,
            nested: true,
            children: false,
            id_param: false,
            query: false,
            content_to_load: Seq::empty(),
        }),
{
    (
        nested_init(name),
        SeedRoute {
            name: String::from_str(name),
            nested: true,
            children: false,
            id_param: false,
            query: false,
            content_to_load: String::new(),
        },
    )
}

/// Init function and descriptor of a variant with named fields: each flag
/// says whether its field is present, and the init function takes `id`,
/// `query` and `children`, in that order, as far as they are present.
pub fn get_init_for_init_struct_variant(name: &str, fields: &Vec<String>) -> (r: (
    String,
    SeedRoute,
))
    ensures
        r.1@ == (RouteModel {
            name: name@,
            nested: false,
            children: has_field_spec(fields@, "children"@),
            id_param: has_field_spec(fields@, "id"@),
            query: has_field_spec(fields@, "query"@),
            content_to_load: Seq::empty(),
        }),
        r.0@ == named_init_text(r.1.id_param, r.1.query, r.1.children, name@),
{
    let id = has_field(fields, "id");
    let query = has_field(fields, "query");
    let children = has_field(fields, "children");
    (
        named_init(id, query, children, name),
        SeedRoute {
            name: String::from_str(name),
            nested: false,
            children,
            id_param: id,
            query,
            content_to_load: String::new(),
        },
    )
}

/// Init function and descriptor of variant `v`, by its shape.
pub fn init_for_variant(v: &RouteVariant) -> (r: (String, SeedRoute))
    ensures
        r.0@ == variant_init(*v),
        r.1@ == variant_route(*v),
{
    match &v.shape {
        VariantShape::Unit => get_init_for_unit_variant(v.name.as_str()),
        VariantShape::Tuple => get_init_for_tuple_variant(v.name.as_str()),
        VariantShape::Named(fields) => get_init_for_init_struct_variant(v.name.as_str(), fields),
    }
}

/// The module of variant `v` under the snake-case name `name`, and `parent`
/// with the module's import added.
pub fn build_module(
    v: &RouteVariant,
    name: &str,
    parent: ImportModule,
    root_path_file: &str,
    target_file_path: &str,
) -> (r: (SeedModule, ImportModule))
    requires
        parent.wf(),
    ensures
        r.1.wf(),
        (r.0.meta@, r.1@) == module_meta_spec(parent@, name@, root_path_file@, target_file_path@),
        r.0.contents() == module_spec(*v, r.0.meta@),
{
    let (meta, parent) = generate_module_meta(parent, name, root_path_file, target_file_path);
    let (init, route) = init_for_variant(v);
    let with_routes = match &v.shape {
        VariantShape::Unit => false,
        VariantShape::Tuple => true,
        VariantShape::Named(fields) => has_field(fields, "children"),
    };
    let mut module = SeedModule::empty();
    module.set_meta(meta);
    module.set_origin_route(Some(route));
    module.set_init(with_banner(INIT_COMMENT, init.as_str()));
    module.set_model(with_banner(MODEL_COMMENT, MODEL_TEMPLATE));
    module.set_msg(with_banner(MESSAGE_COMMENT, MESSAGE_TEMPLATE));
    module.set_update(with_banner(UPDATE_COMMENT, UPDATE_TEMPLATE));
    module.set_view(module_view(with_routes));
    module.set_routes(with_banner(ROUTES_COMMENT, ROUTES_TEMPLATE));
    (module, parent)
}

/// The parent module named by `modules_path`, or the target file.
pub fn parent_module_for(
    modules_path: Option<String>,
    root_path_file: &str,
    target_file_path: &str,
) -> (r: Result<ImportModule, GenerationError>)
    ensures
        match parent_spec(
            value_view(modules_path),
            root_path_file@,
            target_file_path@,
        ) {
            Err(_) => r matches Err(GenerationError::ModulesPath(_)),
            Ok(p) => r is Ok && r->Ok_0.wf() && r->Ok_0@ == p,
        },
        path_error(value_view(modules_path), ERROR_WHEN_MULTIPLE_FOLDERS_NOT_SUPPORTED@, ERROR_WHEN_PATH_EMPTY@)
            matches Some(m) ==> r matches Err(GenerationError::ModulesPath(e)) && e@ == m,
{
    match modules_path {
        Some(dir) => match ImportModule::new_folder_module(
            dir.as_str(),
            root_path_file,
            target_file_path,
        ) {
            Ok(m) => Ok(m),
            Err(e) => Err(GenerationError::ModulesPath(e)),
        },
        None => match ImportModule::new_target_file_module(root_path_file, target_file_path) {
            Ok(m) => Ok(m),
            Err(e) => Err(GenerationError::ModulesPath(e)),
        },
    }
}

/// One module per variant without a `view` attribute, keyed by the
/// variant's name in snake case, and the parent that imports them all.
pub fn get_modules(
    routes_enum: &RoutesEnum,
    modules_path: Option<String>,
    root_path_file: &str,
    target_file_path: &str,
) -> (r: (IndexMap<String, SeedModule>, ImportModule))
    requires
        path_error(
            value_view(modules_path),
            ERROR_WHEN_MULTIPLE_FOLDERS_NOT_SUPPORTED@,
            ERROR_WHEN_PATH_EMPTY@,
        ) is None,
        views_ok(routes_enum.variants@),
        module_names_ascii(routes_enum.variants@),
    ensures
        r.1.wf(),
        parent_spec(value_view(modules_path), root_path_file@, target_file_path@) matches Ok(start)
            && modules_fold(routes_enum.variants@, start, root_path_file@, target_file_path@) == (
            module_entries(r.0),
            r.1@,
        ),
{
    let ghost path_view = value_view(modules_path);
    let mut parent = match parent_module_for(modules_path, root_path_file, target_file_path) {
        Ok(p) => p,
        Err(_) => unreached(),
    };
    let ghost start = parent@;
    let mut map = new_module_map();
    let vs = &routes_enum.variants;
    let mut i: usize = 0;
    while i < vs.len()
        invariant
            i <= vs.len(),
            parent.wf(),
            vs@ == routes_enum.variants@,
            views_ok(vs@),
            module_names_ascii(vs@),
            parent_spec(path_view, root_path_file@, target_file_path@) == Ok::<ImportModel, ()>(start),
            path_view == value_view(modules_path),
            modules_fold(vs@.subrange(0, i as int), start, root_path_file@, target_file_path@) == (
                module_entries(map),
                parent@,
            ),
        decreases vs.len() - i,
    {
        let v = &vs[i];
        assert(vs@.subrange(0, i + 1).drop_last() =~= vs@.subrange(0, i as int));
        assert(vs@.subrange(0, i + 1).last() == vs@[i as int]);
        assert(view_attribute_spec(vs@[i as int].attrs@) is Ok);
        match get_view_attribute(&v.attrs) {
            Some(_) => {},
            None => {
                assert(ascii_text(vs@[i as int].name@));
                let name = to_snake_case(v.name.as_str());
                let (module, next) = build_module(
                    v,
                    name.as_str(),
                    parent,
                    root_path_file,
                    target_file_path,
                );
                parent = next;
                insert_module(&mut map, name, module);
            },
        }
        i = i + 1;
    }
    assert(vs@.subrange(0, i as int) =~= vs@);
    (map, parent)
}

} // verus!
