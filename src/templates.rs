//! The code fragments that generation writes: section banners, the module
//! skeletons, and the init, view and guard functions built from a variant's
//! shape and from the model's fields.
use crate::parser::{ModelField, ModelStruct};
use crate::text::{same_text, strip_whitespace, strip_ws_spec};
use vstd::prelude::*;

verus! {

pub const INIT_COMMENT: &'static str = "\n// ------ ------\n//     Init\n// ------ ------\n\n";

pub const MODEL_COMMENT: &'static str = "\n// ------ ------\n//     Model\n// ------ ------\n\n";

pub const MESSAGE_COMMENT: &'static str = "\n// ------ ------\n//     Message\n// ------ ------\n\n";

pub const UPDATE_COMMENT: &'static str = "\n// ------ ------\n//     UPDATE\n// ------ ------\n\n";

pub const VIEW_COMMENT: &'static str = "\n// ------ ------\n//     VIEW\n// ------ ------\n\n";

pub const ROUTES_COMMENT: &'static str = "\n// ------ ------\n//     Routes\n// ------ ------\n\n";

pub const MODEL_TEMPLATE: &'static str = "\n pub struct Model {}\n";

pub const MESSAGE_TEMPLATE: &'static str = "\n pub enum Msg {}\n";

pub const UPDATE_TEMPLATE: &'static str =
    "\nfn update(msg: Msg, model: &mut Model, orders: &mut impl Orders<Msg,>,)\n{\n\n}\n";

pub const VIEW_TEMPLATE: &'static str = "\n pub fn view(model_: &Model) -> Node<Msg> {\n div![\"\"]\n }\n";

pub const VIEW_TEMPLATE_WITH_ROUTES: &'static str =
    "\n pub fn view(model_: &Model, nested: &Routes) -> Node<Msg> {\n div![\"\"]\n }\n";

pub const ROUTES_TEMPLATE: &'static str =
    "\n#[derive(Debug, PartialEq, Clone, RoutingModules)]\n pub enum Routes {\n\n }\n";

/// Opening of every init function, up to its extra parameters.
pub const INIT_HEAD: &'static str = "\n pub fn init(url:Url, previous_state: Model, ";

/// Extra parameter of the init function of a variant with a nested route enum.
pub const NESTED_PARAM: &'static str = "nested: &Routes, ";

/// Rest of the init function's signature, up to the variant's name.
pub const INIT_MIDDLE: &'static str = "orders: &mut impl Orders<Msg,> ) {\n       log!(\"init for ";

pub const INIT_TAIL: &'static str = "\");\n       }\n";

pub const ID_PARAM: &'static str = "id: &str";

pub const QUERY_PARAM: &'static str = "query: &IndexMap<String, String>";

pub const CHILDREN_PARAM: &'static str = "children: &Routes";

pub const PARAM_SEPARATOR: &'static str = ", ";

/// Parameter of a generated view or guard that takes the whole model.
pub const MODEL_PARAM: &'static str = "model : &Model";

pub const SCOPED_PARAM_SEPARATOR: &'static str = " : &";

pub const FN_KEYWORD: &'static str = "fn ";

pub const VIEW_SIGNATURE_END: &'static str = ") -> Node<Msg>{div![\"";

pub const VIEW_BODY_END: &'static str = "\"]}";

pub const GUARD_SIGNATURE_END: &'static str = ") -> Option<bool> {log!(\"Write condition\")}";

/// The parameters of an init function for a variant with named fields:
/// `id`, `query`, `children`, each only when present, always in that order.
pub open spec fn payload_params(id: bool, query: bool, children: bool) -> Seq<Seq<char>> {
    (if id {
        seq![ID_PARAM@]
    } else {
        Seq::empty()
    }) + (if query {
        seq![QUERY_PARAM@]
    } else {
        Seq::empty()
    }) + (if children {
        seq![CHILDREN_PARAM@]
    } else {
        Seq::empty()
    })
}

/// `ps` joined by `", "`.
pub open spec fn join_params(ps: Seq<Seq<char>>) -> Seq<char>
    decreases ps.len(),
{
    if ps.len() == 0 {
        Seq::empty()
    } else if ps.len() == 1 {
        ps[0]
    } else {
        join_params(ps.drop_last()) + PARAM_SEPARATOR@ + ps.last()
    }
}

pub open spec fn payload_spec(id: bool, query: bool, children: bool) -> Seq<char> {
    join_params(payload_params(id, query, children))
}

/// The form of an init function.
pub enum InitShape {
    /// No parameter besides url, previous state and orders.
    Simple,
    /// One more parameter for the nested route enum.
    Nested,
    /// The given parameter list, which is not empty.
    Payload(Seq<char>),
}

/// The init function of variant `name` in the given form.
pub open spec fn init_text(shape: InitShape, name: Seq<char>) -> Seq<char> {
    let extra = match shape {
        InitShape::Simple => Seq::empty(),
        InitShape::Nested => NESTED_PARAM@,
        InitShape::Payload(p) => p + PARAM_SEPARATOR@,
    };
    INIT_HEAD@ + extra + INIT_MIDDLE@ + name + INIT_TAIL@
}

/// The init function for a variant with named fields.
pub open spec fn named_init_text(id: bool, query: bool, children: bool, name: Seq<char>) -> Seq<
    char,
> {
    if !id && !query && !children {
        init_text(InitShape::Simple, name)
    } else {
        init_text(InitShape::Payload(payload_spec(id, query, children)), name)
    }
}

/// The parameter of a generated view or guard for `scope`, searched in `fields`.
pub open spec fn field_param(fields: Seq<ModelField>, scope: Seq<char>) -> Seq<char>
    decreases fields.len(),
{
    if fields.len() == 0 {
        MODEL_PARAM@
    } else if fields[0].name@ == scope {
        fields[0].name@ + SCOPED_PARAM_SEPARATOR@ + strip_ws_spec(fields[0].ty@)
    } else {
        field_param(fields.drop_first(), scope)
    }
}

/// The parameter of a generated view or guard: the whole model for an empty
/// scope or one that names no field, else the field by reference.
pub open spec fn scope_param(fields: Seq<ModelField>, scope: Seq<char>) -> Seq<char> {
    if scope.len() == 0 {
        MODEL_PARAM@
    } else {
        field_param(fields, scope)
    }
}

pub open spec fn view_function_text(fields: Seq<ModelField>, scope: Seq<char>, view: Seq<char>) -> Seq<
    char,
> {
    FN_KEYWORD@ + view + "("@ + scope_param(fields, scope) + VIEW_SIGNATURE_END@ + view
        + VIEW_BODY_END@
}

pub open spec fn guard_function_text(
    fields: Seq<ModelField>,
    scope: Seq<char>,
    guard: Seq<char>,
) -> Seq<char> {
    FN_KEYWORD@ + guard + "("@ + scope_param(fields, scope) + GUARD_SIGNATURE_END@
}

/// Appends `b` to `a`.
pub fn concat(a: String, b: &str) -> (r: String)
    ensures
        r@ == a@ + b@,
{
    let mut r = a;
    r.append(b);
    r
}

/// The parameter list of an init function, from the recognised fields present.
pub fn inject_variant_payload_in_function_call(id: bool, query: bool, children: bool) -> (r: String)
    ensures
        r@ == payload_spec(id, query, children),
{
    let ghost ps = payload_params(id, query, children);
    let mut r = String::new();
    let mut n: usize = 0;
    if id {
        r.append(ID_PARAM);
        n = 1;
    }
    assert(r@ == join_params(ps.subrange(0, n as int))) by {
        reveal_with_fuel(join_params, 2);
    }
    if query {
        let ghost prev = ps.subrange(0, n as int);
        if n > 0 {
            r.append(PARAM_SEPARATOR);
        }
        r.append(QUERY_PARAM);
        n = n + 1;
        assert(ps.subrange(0, n as int).drop_last() =~= prev);
        assert(r@ == join_params(ps.subrange(0, n as int))) by {
            reveal_with_fuel(join_params, 2);
        }
    }
    if children {
        let ghost prev = ps.subrange(0, n as int);
        if n > 0 {
            r.append(PARAM_SEPARATOR);
        }
        r.append(CHILDREN_PARAM);
        n = n + 1;
        assert(ps.subrange(0, n as int).drop_last() =~= prev);
        assert(r@ == join_params(ps.subrange(0, n as int))) by {
            reveal_with_fuel(join_params, 2);
        }
    }
    assert(ps.subrange(0, n as int) =~= ps);
    r
}

/// Renders an init function for variant `name`: `extra` is inserted before
/// the orders parameter.
fn render_init(extra: &str, name: &str) -> (r: String)
    ensures
        r@ == INIT_HEAD@ + extra@ + INIT_MIDDLE@ + name@ + INIT_TAIL@,
{
    let r = String::from_str(INIT_HEAD);
    let r = concat(r, extra);
    let r = concat(r, INIT_MIDDLE);
    let r = concat(r, name);
    concat(r, INIT_TAIL)
}

/// The init function of a variant without payload.
pub fn simple_init(name: &str) -> (r: String)
    ensures
        r@ == init_text(InitShape::Simple, name@),
{
    let r = render_init("", name);
    proof {
        reveal_strlit("");
        assert(INIT_HEAD@ + ""@ =~= INIT_HEAD@);
    }
    r
}

/// The init function of a variant with a nested route enum.
pub fn nested_init(name: &str) -> (r: String)
    ensures
        r@ == init_text(InitShape::Nested, name@),
{
    render_init(NESTED_PARAM, name)
}

/// The init function of a variant with named fields.
pub fn named_init(id: bool, query: bool, children: bool, name: &str) -> (r: String)
    ensures
        r@ == named_init_text(id, query, children, name@),
{
    if !id && !query && !children {
        simple_init(name)
    } else {
        let payload = inject_variant_payload_in_function_call(id, query, children);
        let extra = concat(payload, PARAM_SEPARATOR);
        let r = render_init(extra.as_str(), name);
        assert(r@ =~= init_text(InitShape::Payload(payload_spec(id, query, children)), name@));
        r
    }
}

/// The view function of a generated module: it also takes the nested routes
/// when the variant has any.
pub fn module_view(with_routes: bool) -> (r: String)
    ensures
        r@ == VIEW_COMMENT@ + " "@ + (if with_routes {
            VIEW_TEMPLATE_WITH_ROUTES@
        } else {
            VIEW_TEMPLATE@
        }),
{
    let r = concat(String::from_str(VIEW_COMMENT), " ");
    if with_routes {
        concat(r, VIEW_TEMPLATE_WITH_ROUTES)
    } else {
        concat(r, VIEW_TEMPLATE)
    }
}

/// `banner`, a space, then `body`.
pub fn with_banner(banner: &str, body: &str) -> (r: String)
    ensures
        r@ == banner@ + " "@ + body@,
{
    concat(concat(String::from_str(banner), " "), body)
}

/// The parameter that a generated view or guard takes for `scope`.
pub fn get_scoped_param(model_scope: &str, model: &ModelStruct) -> (r: String)
    ensures
        r@ == scope_param(model.fields@, model_scope@),
{
    if model_scope.unicode_len() == 0 {
        return String::from_str(MODEL_PARAM);
    }
    let fields = &model.fields;
    let n = fields.len();
    assert(scope_param(model.fields@, model_scope@) == field_param(fields@, model_scope@));
    let mut i: usize = 0;
    assert(fields@.subrange(0, n as int) =~= fields@);
    while i < n
        invariant
            n == fields@.len(),
            i <= n,
            scope_param(model.fields@, model_scope@) == field_param(fields@, model_scope@),
            field_param(fields@, model_scope@) == field_param(
                fields@.subrange(i as int, n as int),
                model_scope@,
            ),
        decreases n - i,
    {
        let f = &fields[i];
        assert(fields@.subrange(i + 1, n as int) =~= fields@.subrange(
            i as int,
            n as int,
        ).drop_first());
        assert(fields@.subrange(i as int, n as int)[0] == fields@[i as int]);
        if same_text(f.name.as_str(), model_scope) {
            let name = f.name.clone();
            let ty = strip_whitespace(f.ty.as_str());
            let r = concat(name, SCOPED_PARAM_SEPARATOR);
            let r = concat(r, ty.as_str());
            assert(r@ == field_param(fields@.subrange(i as int, n as int), model_scope@));
            return r;
        }
        i = i + 1;
    }
    String::from_str(MODEL_PARAM)
}

/// `fn VIEW(PARAM) -> Node<Msg>{div!["VIEW"]}`, where PARAM is the field that
/// the scope names, or the whole model.
pub fn get_view_function(model_scope: &str, view: &str, model: &ModelStruct) -> (r: String)
    ensures
        r@ == view_function_text(model.fields@, model_scope@, view@),
{
    let param = get_scoped_param(model_scope, model);
    let r = concat(String::from_str(FN_KEYWORD), view);
    let r = concat(r, "(");
    let r = concat(r, param.as_str());
    let r = concat(r, VIEW_SIGNATURE_END);
    let r = concat(r, view);
    concat(r, VIEW_BODY_END)
}

/// `fn GUARD(PARAM) -> Option<bool> {log!("Write condition")}`, where PARAM
/// is the field that the scope names, or the whole model.
pub fn get_guard_function(model_scope: &str, guard: &str, model: &ModelStruct) -> (r: String)
    ensures
        r@ == guard_function_text(model.fields@, model_scope@, guard@),
{
    let param = get_scoped_param(model_scope, model);
    let r = concat(String::from_str(FN_KEYWORD), guard);
    let r = concat(r, "(");
    let r = concat(r, param.as_str());
    concat(r, GUARD_SIGNATURE_END)
}

} // verus!
