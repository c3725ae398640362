//! Properties that hold across runs and across all inputs.
use crate::checker::{
    declares, empty_plan, guards_plan, local_plan, missing_fragments, missing_imports,
    views_plan, DeclarationKind, LocalPlan,
};
use crate::content::guards_fold;
use crate::maps::{has_key, keys_unique};
use crate::module::variant_route;
use crate::parser::{guard_attribute_spec, ModelField};
use crate::parser::RouteVariant;
use crate::route::{GuardModel, ModuleModel, ViewModel};
use vstd::prelude::*;

verus! {

/// A file that already declares `fn init`, `struct Model`, `enum Routes`,
/// `enum Msg`, `fn update` and `fn view` receives no fragment of a module:
/// a second run over the files that a first run completed writes nothing
/// there.
pub proof fn lemma_module_rerun_writes_nothing(m: ModuleModel, decls: Seq<(DeclarationKind, Seq<char>)>)
    requires
        declares(decls, DeclarationKind::Function, "init"@),
        declares(decls, DeclarationKind::Struct, "Model"@),
        declares(decls, DeclarationKind::Enum, "Routes"@),
        declares(decls, DeclarationKind::Enum, "Msg"@),
        declares(decls, DeclarationKind::Function, "update"@),
        declares(decls, DeclarationKind::Function, "view"@),
    ensures
        missing_fragments(m, decls).len() == 0,
{
}

/// A parent file that already declares every child as a module receives
/// no import.
pub proof fn lemma_imports_rerun_writes_nothing(
    contents: Seq<Seq<char>>,
    names: Seq<Seq<char>>,
    decls: Seq<(DeclarationKind, Seq<char>)>,
)
    requires
        contents.len() == names.len(),
        forall|i: int| 0 <= i < names.len() ==> declares(decls, DeclarationKind::Module, names[i]),
    ensures
        missing_imports(contents, names, decls).len() == 0,
    decreases contents.len(),
{
    if contents.len() > 0 {
        let n = contents.len() - 1;
        lemma_imports_rerun_writes_nothing(contents.drop_last(), names.subrange(0, n), decls);
        assert(declares(decls, DeclarationKind::Module, names[n]));
    }
}

proof fn lemma_views_plan_skips(
    views: Seq<(Seq<char>, ViewModel)>,
    decls: Seq<(DeclarationKind, Seq<char>)>,
    start: LocalPlan,
)
    requires
        forall|i: int|
            0 <= i < views.len() ==> declares(decls, DeclarationKind::Function, #[trigger] views[i].0),
    ensures
        views_plan(views, decls, start) == start,
    decreases views.len(),
{
    if views.len() > 0 {
        lemma_views_plan_skips(views.drop_last(), decls, start);
        assert(declares(decls, DeclarationKind::Function, views[views.len() - 1].0));
    }
}

proof fn lemma_guards_plan_skips(
    guards: Seq<(Seq<char>, GuardModel)>,
    decls: Seq<(DeclarationKind, Seq<char>)>,
    start: LocalPlan,
)
    requires
        forall|i: int|
            0 <= i < guards.len() ==> declares(decls, DeclarationKind::Function, #[trigger] guards[i].0),
    ensures
        guards_plan(guards, decls, start) == start,
    decreases guards.len(),
{
    if guards.len() > 0 {
        lemma_guards_plan_skips(guards.drop_last(), decls, start);
        assert(declares(decls, DeclarationKind::Function, guards[guards.len() - 1].0));
    }
}

/// A target file that already declares a function for every local view and
/// every guard receives nothing from them, and is counted as ignored.
pub proof fn lemma_local_rerun_writes_nothing(
    views: Seq<(Seq<char>, ViewModel)>,
    guards: Seq<(Seq<char>, GuardModel)>,
    decls: Seq<(DeclarationKind, Seq<char>)>,
)
    requires
        forall|i: int|
            0 <= i < views.len() ==> declares(decls, DeclarationKind::Function, #[trigger] views[i].0),
        forall|i: int|
            0 <= i < guards.len() ==> declares(decls, DeclarationKind::Function, #[trigger] guards[i].0),
    ensures
        local_plan(views, guards, decls).text.len() == 0,
        local_plan(views, guards, decls).count == 0,
{
    lemma_views_plan_skips(views, decls, empty_plan());
    lemma_guards_plan_skips(guards, decls, empty_plan());
}

/// A unit variant is never nested; a tuple variant is always nested and has
/// none of the `id`, `query` and `children` flags.
pub proof fn lemma_shape_classification(v: RouteVariant)
    ensures
        v.shape is Unit ==> !variant_route(v).nested,
        v.shape is Tuple ==> variant_route(v).nested && !variant_route(v).id_param
            && !variant_route(v).query && !variant_route(v).children,
        v.shape is Named ==> !variant_route(v).nested,
{
}

/// Guards are grouped by name: each guard name appears once, under its own
/// name, and lists at least one route (one per variant that declares it).
pub proof fn lemma_guards_grouped_by_name(vs: Seq<RouteVariant>, fields: Seq<ModelField>)
    ensures
        keys_unique(guards_fold(vs, fields)),
        forall|i: int|
            0 <= i < guards_fold(vs, fields).len() ==> (#[trigger] guards_fold(vs, fields)[i]).1.name
                == guards_fold(vs, fields)[i].0 && guards_fold(vs, fields)[i].1.routes.len() >= 1,
    decreases vs.len(),
{
    if vs.len() > 0 {
        lemma_guards_grouped_by_name(vs.drop_last(), fields);
        let e = guards_fold(vs.drop_last(), fields);
        let v = vs.last();
        let r2 = guards_fold(vs, fields);
        if let Ok(Some((_, guard, _))) = guard_attribute_spec(v.attrs@) {
            if has_key(e, guard) {
                let k = choose|k: int| 0 <= k < e.len() && e[k].0 == guard;
                assert(forall|i: int| 0 <= i < r2.len() && i != k ==> r2[i] == e[i]);
                assert(r2[k].1.name == e[k].1.name);
            } else {
                assert(forall|i: int| 0 <= i < e.len() ==> r2[i] == e[i]);
                assert(forall|i: int| 0 <= i < e.len() ==> e[i].0 != guard);
            }
        }
    }
}

} // verus!
