//! Everything that one run generates from the route enum and the model:
//! local views, guards with their redirect views, modules, and the parent
//! module that imports them.
use crate::import::{
    strings_view, ImportModel, ImportModule, ERROR_WHEN_MULTIPLE_FOLDERS_NOT_SUPPORTED, ERROR_WHEN_PATH_EMPTY,
};
use crate::maps::{
    guard_at, guard_entries, guard_index_of, has_key, insert_entry, insert_guard, insert_view,
    keys_unique, lemma_insert_keeps_unique, module_entries, new_guard_map, new_view_map,
    view_entries,
};
use crate::module::{
    get_modules, module_names_ascii, modules_fold, parent_spec, path_error, views_ok,
    GenerationError,
};
use crate::parser::{
    get_guard_attribute, get_view_attribute, guard_attribute_spec, lookup_spec, modules_path,
    modules_path_ok, read_guard_attribute, read_modules_path, read_view_attribute,
    view_attribute_spec, AttrLookup, ModelField, ModelStruct, RouteVariant, RoutesEnum,
};
use crate::import::directory_error;
use crate::route::{
    plain_route, routes_view, GuardModel, ModuleModel, SeedGuard, SeedModule, SeedRoute,
    SeedView, ViewModel,
};
use crate::templates::{
    get_guard_function, get_view_function, guard_function_text, view_function_text,
};
use crate::text::{ascii_text, is_ascii_text, same_text};
use indexmap::IndexMap;
use vstd::prelude::*;

verus! {

/// The local views of the variants `vs`, keyed by view name: a later
/// variant naming the same view replaces the earlier one in place.
pub open spec fn views_fold(vs: Seq<RouteVariant>, fields: Seq<ModelField>) -> Seq<
    (Seq<char>, ViewModel),
>
    decreases vs.len(),
{
    if vs.len() == 0 {
        Seq::empty()
    } else {
        let e = views_fold(vs.drop_last(), fields);
        let v = vs.last();
        match view_attribute_spec(v.attrs@) {
            Ok(Some((scope, view))) => {
                let c = view_function_text(fields, scope, view);
                insert_entry(
                    e,
                    view,
                    ViewModel { name: view, content: c, route: plain_route(v.name@, c) },
                )
            },
            _ => e,
        }
    }
}

/// The guards after variant `v` declares `(scope, guard, redirect)`: the
/// first variant with a guard name creates its entry, redirect included;
/// the next ones only add their route to it.
pub open spec fn guard_step(
    e: Seq<(Seq<char>, GuardModel)>,
    v: RouteVariant,
    fields: Seq<ModelField>,
    scope: Seq<char>,
    guard: Seq<char>,
    redirect: Seq<char>,
) -> Seq<(Seq<char>, GuardModel)> {
    let gc = guard_function_text(fields, scope, guard);
    let rc = view_function_text(fields, scope, redirect);
    let route = plain_route(v.name@, gc);
    if has_key(e, guard) {
        let i = choose|i: int| 0 <= i < e.len() && e[i].0 == guard;
        e.update(i, (guard, GuardModel { routes: e[i].1.routes.push(route), ..e[i].1 }))
    } else {
        e.push(
            (
                guard,
                GuardModel {
                    name: guard,
                    content: gc,
                    redirect: ViewModel { name: redirect, content: rc, route: plain_route(v.name@, rc) },
                    routes: seq![route],
                },
            ),
        )
    }
}

/// The guards of the variants `vs`, keyed by guard name, in order of first
/// declaration.
pub open spec fn guards_fold(vs: Seq<RouteVariant>, fields: Seq<ModelField>) -> Seq<
    (Seq<char>, GuardModel),
>
    decreases vs.len(),
{
    if vs.len() == 0 {
        Seq::empty()
    } else {
        let e = guards_fold(vs.drop_last(), fields);
        let v = vs.last();
        match guard_attribute_spec(v.attrs@) {
            Ok(Some((scope, guard, redirect))) => guard_step(e, v, fields, scope, guard, redirect),
            _ => e,
        }
    }
}

/// Every `guard` attribute of `vs` is well formed.
pub open spec fn guards_ok(vs: Seq<RouteVariant>) -> bool {
    forall|i: int| 0 <= i < vs.len() ==> (#[trigger] guard_attribute_spec(vs[i].attrs@)) is Ok
}


/// The view functions that the variants' `view` attributes ask for, keyed
/// by view name.
pub fn get_local_views(routes_enum: &RoutesEnum, model: &ModelStruct) -> (r: IndexMap<
    String,
    SeedView,
>)
    requires
        views_ok(routes_enum.variants@),
    ensures
        view_entries(r) == views_fold(routes_enum.variants@, model.fields@),
{
    let mut map = new_view_map();
    let vs = &routes_enum.variants;
    let mut i: usize = 0;
    while i < vs.len()
        invariant
            i <= vs.len(),
            vs@ == routes_enum.variants@,
            views_ok(vs@),
            views_fold(vs@.subrange(0, i as int), model.fields@) == view_entries(map),
        decreases vs.len() - i,
    {
        let v = &vs[i];
        assert(vs@.subrange(0, i + 1).drop_last() =~= vs@.subrange(0, i as int));
        assert(vs@.subrange(0, i + 1).last() == vs@[i as int]);
        assert(view_attribute_spec(vs@[i as int].attrs@) is Ok);
        match get_view_attribute(&v.attrs) {
            None => {},
            Some(attr) => {
                let content = get_view_function(attr.scope.as_str(), attr.view.as_str(), model);
                let route = SeedRoute::plain(v.name.clone(), content.clone());
                let view = SeedView { name: attr.view.clone(), content, route };
                insert_view(&mut map, attr.view, view);
            },
        }
        i = i + 1;
    }
    assert(vs@.subrange(0, i as int) =~= vs@);
    map
}

/// The guard functions that the variants' `guard` attributes ask for, keyed
/// by guard name; variants that share a guard are listed under it in order.
pub fn get_guards(routes_enum: &RoutesEnum, model: &ModelStruct) -> (r: IndexMap<
    String,
    SeedGuard,
>)
    requires
        guards_ok(routes_enum.variants@),
    ensures
        guard_entries(r) == guards_fold(routes_enum.variants@, model.fields@),
{
    let mut map = new_guard_map();
    let vs = &routes_enum.variants;
    let mut i: usize = 0;
    while i < vs.len()
        invariant
            i <= vs.len(),
            vs@ == routes_enum.variants@,
            guards_ok(vs@),
            keys_unique(guard_entries(map)),
            guards_fold(vs@.subrange(0, i as int), model.fields@) == guard_entries(map),
        decreases vs.len() - i,
    {
        let v = &vs[i];
        assert(vs@.subrange(0, i + 1).drop_last() =~= vs@.subrange(0, i as int));
        assert(vs@.subrange(0, i + 1).last() == vs@[i as int]);
        assert(guard_attribute_spec(vs@[i as int].attrs@) is Ok);
        match get_guard_attribute(&v.attrs) {
            None => {},
            Some(attr) => {
                let ghost before = guard_entries(map);
                let content = get_guard_function(attr.scope.as_str(), attr.guard.as_str(), model);
                let route = SeedRoute::plain(v.name.clone(), content.clone());
                match guard_index_of(&map, attr.guard.as_str()) {
                    Some(j) => {
                        let (_, existing) = guard_at(&map, j);
                        let mut g = existing.duplicate();
                        let ghost g0 = g;
                        g.routes.push(route);
                        proof {
                            assert(routes_view(g.routes@) =~= routes_view(g0.routes@).push(
                                route@,
                            ));
                            let k = choose|k: int|
                                0 <= k < before.len() && before[k].0 == attr.guard@;
                            assert(k == j);
                            lemma_insert_keeps_unique(before, attr.guard@, g@);
                        }
                        insert_guard(&mut map, attr.guard, g);
                    },
                    None => {
                        let redirect_content = get_view_function(
                            attr.scope.as_str(),
                            attr.redirect.as_str(),
                            model,
                        );
                        let redirect_route = SeedRoute::plain(
                            v.name.clone(),
                            redirect_content.clone(),
                        );
                        let redirect = SeedView {
                            name: attr.redirect,
                            content: redirect_content,
                            route: redirect_route,
                        };
                        let mut routes: Vec<SeedRoute> = Vec::new();
                        routes.push(route);
                        let key = attr.guard.clone();
                        let g = SeedGuard { name: attr.guard, content, redirect, routes };
                        proof {
                            assert(routes_view(g.routes@) =~= seq![route@]);
                            lemma_insert_keeps_unique(before, key@, g@);
                        }
                        insert_guard(&mut map, key, g);
                    },
                }
            },
        }
        i = i + 1;
    }
    assert(vs@.subrange(0, i as int) =~= vs@);
    map
}

/// `scope` is not empty and names no field of the model: generated code
/// then takes the whole model instead.
pub open spec fn scope_unresolved(fields: Seq<ModelField>, scope: Seq<char>) -> bool {
    scope.len() > 0 && !(exists|i: int| 0 <= i < fields.len() && fields[i].name@ == scope)
}

pub open spec fn unresolved_one(fields: Seq<ModelField>, scope: Seq<char>) -> Seq<Seq<char>> {
    if scope_unresolved(fields, scope) {
        seq![scope]
    } else {
        Seq::empty()
    }
}

/// The unresolved scopes of variant `v`: its view's, then its guard's.
pub open spec fn unresolved_in(v: RouteVariant, fields: Seq<ModelField>) -> Seq<Seq<char>> {
    (match view_attribute_spec(v.attrs@) {
        Ok(Some((scope, _))) => unresolved_one(fields, scope),
        _ => Seq::empty(),
    }) + (match guard_attribute_spec(v.attrs@) {
        Ok(Some((scope, _, _))) => unresolved_one(fields, scope),
        _ => Seq::empty(),
    })
}

/// The unresolved scopes of the variants `vs`, in order.
pub open spec fn unresolved_scopes_spec(vs: Seq<RouteVariant>, fields: Seq<ModelField>) -> Seq<
    Seq<char>,
>
    decreases vs.len(),
{
    if vs.len() == 0 {
        Seq::empty()
    } else {
        unresolved_scopes_spec(vs.drop_last(), fields) + unresolved_in(vs.last(), fields)
    }
}

/// `scope` names a field of the model.
pub fn has_model_field(model: &ModelStruct, scope: &str) -> (r: bool)
    ensures
        r == exists|i: int| 0 <= i < model.fields@.len() && model.fields@[i].name@ == scope@,
{
    let mut i: usize = 0;
    while i < model.fields.len()
        invariant
            i <= model.fields.len(),
            forall|j: int| 0 <= j < i ==> model.fields@[j].name@ != scope@,
        decreases model.fields.len() - i,
    {
        if same_text(model.fields[i].name.as_str(), scope) {
            return true;
        }
        i = i + 1;
    }
    false
}

/// Appends `scope` to `list` when it is unresolved.
fn note_scope(list: &mut Vec<String>, model: &ModelStruct, scope: String)
    ensures
        strings_view(final(list)@) == strings_view(old(list)@) + unresolved_one(
            model.fields@,
            scope@,
        ),
{
    let ghost before = strings_view(list@);
    if scope.unicode_len() > 0 && !has_model_field(model, scope.as_str()) {
        list.push(scope);
        assert(strings_view(list@) =~= before + unresolved_one(model.fields@, scope@));
    } else {
        assert(before + unresolved_one(model.fields@, scope@) =~= before);
    }
}

/// The `view` and `guard` scopes that name no field of the model, in order
/// of declaration: their functions take the whole model, which is worth a
/// note to the author. Malformed attributes contribute nothing here.
pub fn unresolved_scopes(routes_enum: &RoutesEnum, model: &ModelStruct) -> (r: Vec<String>)
    ensures
        strings_view(r@) == unresolved_scopes_spec(routes_enum.variants@, model.fields@),
{
    let mut list: Vec<String> = Vec::new();
    let vs = &routes_enum.variants;
    let mut i: usize = 0;
    assert(strings_view(list@) =~= Seq::<Seq<char>>::empty());
    while i < vs.len()
        invariant
            i <= vs.len(),
            vs@ == routes_enum.variants@,
            strings_view(list@) == unresolved_scopes_spec(vs@.subrange(0, i as int), model.fields@),
        decreases vs.len() - i,
    {
        let v = &vs[i];
        assert(vs@.subrange(0, i + 1).drop_last() =~= vs@.subrange(0, i as int));
        assert(vs@.subrange(0, i + 1).last() == vs@[i as int]);
        let ghost before = strings_view(list@);
        let ghost view_part = match view_attribute_spec(v.attrs@) {
            Ok(Some((scope, _))) => unresolved_one(model.fields@, scope),
            _ => Seq::<Seq<char>>::empty(),
        };
        match read_view_attribute(&v.attrs) {
            Ok(Some(attr)) => note_scope(&mut list, model, attr.scope),
            _ => {
                assert(before + view_part =~= before);
            },
        }
        let ghost mid = strings_view(list@);
        let ghost guard_part = match guard_attribute_spec(v.attrs@) {
            Ok(Some((scope, _, _))) => unresolved_one(model.fields@, scope),
            _ => Seq::<Seq<char>>::empty(),
        };
        match read_guard_attribute(&v.attrs) {
            Ok(Some(attr)) => note_scope(&mut list, model, attr.scope),
            _ => {
                assert(mid + guard_part =~= mid);
            },
        }
        assert(strings_view(list@) =~= before + (view_part + guard_part));
        i = i + 1;
    }
    assert(vs@.subrange(0, i as int) =~= vs@);
    list
}

/// All that one run generates.
#[derive(Debug)]
pub struct SeedContent {
    /// Views written in the target file, by view name.
    pub local_views: IndexMap<String, SeedView>,
    /// Guards written in the target file, by guard name.
    pub guards: IndexMap<String, SeedGuard>,
    /// The target file, or the folder that `#[modules_path = "..."]` names,
    /// with the imports of all modules.
    pub parent_module: ImportModule,
    /// One module per variant without a view, by snake-case name.
    pub modules: IndexMap<String, SeedModule>,
}

/// The route enum can be generated from: its `modules_path` names one
/// directory (or is absent), every `view` and `guard` attribute is well
/// formed, and every variant that becomes a module has an ASCII name.
pub open spec fn routes_well_formed(routes: RoutesEnum) -> bool {
    &&& modules_path_ok(routes.attrs@)
    &&& views_ok(routes.variants@)
    &&& guards_ok(routes.variants@)
    &&& module_names_ascii(routes.variants@)
}

/// The outcome of a run on well-formed `routes` and `model`: the local
/// views, the guards, the modules and the parent module.
pub open spec fn content_spec(
    routes: RoutesEnum,
    model: ModelStruct,
    root_path_file: Seq<char>,
    target_file_path: Seq<char>,
) -> (
    Seq<(Seq<char>, ViewModel)>,
    Seq<(Seq<char>, GuardModel)>,
    Seq<(Seq<char>, ModuleModel)>,
    ImportModel,
) {
    let path = match lookup_spec(routes.attrs@, "modules_path"@) {
        AttrLookup::Found(v) => Some(v),
        _ => None,
    };
    let start = parent_spec(path, root_path_file, target_file_path)->Ok_0;
    let (modules, parent) = modules_fold(routes.variants@, start, root_path_file, target_file_path);
    (views_fold(routes.variants@, model.fields@), guards_fold(routes.variants@, model.fields@), modules, parent)
}

/// Variant `v` stops generation: a malformed `view` or `guard` attribute,
/// or a non-ASCII name on a variant that becomes a module.
pub open spec fn variant_error(v: RouteVariant) -> bool {
    view_attribute_spec(v.attrs@) is Err || guard_attribute_spec(v.attrs@) is Err || (
    view_attribute_spec(v.attrs@) matches Ok(None) && !ascii_text(v.name@))
}

/// Checks everything that makes generation stop: a malformed, repeated,
/// empty or nested `modules_path`, a malformed or repeated `view` or `guard`
/// attribute, and a non-ASCII name on a variant that becomes a module.
/// Generation may run exactly when this returns `Ok`.
pub fn check_routes(routes_enum: &RoutesEnum) -> (r: Result<(), GenerationError>)
    ensures
        r is Ok <==> routes_well_formed(*routes_enum),
        match lookup_spec(routes_enum.attrs@, "modules_path"@) {
            AttrLookup::Malformed => r matches Err(GenerationError::Attribute(_)),
            AttrLookup::Many => r matches Err(GenerationError::Attribute(_)),
            AttrLookup::Found(v) => match path_error(
                Some(v),
                ERROR_WHEN_MULTIPLE_FOLDERS_NOT_SUPPORTED@,
                ERROR_WHEN_PATH_EMPTY@,
            ) {
                Some(m) => r matches Err(GenerationError::ModulesPath(e)) && e@ == m,
                None => true,
            },
            AttrLookup::Absent => true,
        },
{
    match read_modules_path(&routes_enum.attrs) {
        Err(e) => return Err(GenerationError::Attribute(e)),
        Ok(None) => {},
        Ok(Some(dir)) => {
            if let Some(m) = directory_error(dir.as_str()) {
                return Err(GenerationError::ModulesPath(m));
            }
        },
    }
    let vs = &routes_enum.variants;
    let mut i: usize = 0;
    while i < vs.len()
        invariant
            i <= vs.len(),
            vs@ == routes_enum.variants@,
            modules_path_ok(routes_enum.attrs@),
            forall|j: int| 0 <= j < i ==> !variant_error(#[trigger] vs@[j]),
        decreases vs.len() - i,
    {
        let v = &vs[i];
        let view = match read_view_attribute(&v.attrs) {
            Err(e) => return Err(GenerationError::Attribute(e)),
            Ok(view) => view,
        };
        if let Err(e) = read_guard_attribute(&v.attrs) {
            return Err(GenerationError::Attribute(e));
        }
        if view.is_none() && !is_ascii_text(v.name.as_str()) {
            return Err(GenerationError::NonAsciiName(v.name.clone()));
        }
        i = i + 1;
    }
    assert(views_ok(vs@) && guards_ok(vs@) && module_names_ascii(vs@)) by {
        assert(forall|j: int| 0 <= j < vs@.len() ==> !variant_error(#[trigger] vs@[j]));
    }
    Ok(())
}

impl SeedContent {
    pub fn local_views(&self) -> (r: &IndexMap<String, SeedView>)
        ensures
            *r == self.local_views,
    {
        &self.local_views
    }

    pub fn guards(&self) -> (r: &IndexMap<String, SeedGuard>)
        ensures
            *r == self.guards,
    {
        &self.guards
    }

    pub fn parent_module(&self) -> (r: &ImportModule)
        ensures
            *r == self.parent_module,
    {
        &self.parent_module
    }

    pub fn modules(&self) -> (r: &IndexMap<String, SeedModule>)
        ensures
            *r == self.modules,
    {
        &self.modules
    }

    /// Generates everything from a well-formed route enum and the model
    /// (see `check_routes`); `root_path_file` is the directory of the target
    /// file `target_file_path`.
    pub fn new(
        routes_enum: &RoutesEnum,
        model: &ModelStruct,
        root_path_file: &str,
        target_file_path: &str,
    ) -> (r: SeedContent)
        requires
            routes_well_formed(*routes_enum),
        ensures
            content_spec(*routes_enum, *model, root_path_file@, target_file_path@) == (
                view_entries(r.local_views),
                guard_entries(r.guards),
                module_entries(r.modules),
                r.parent_module@,
            ),
            r.parent_module.wf(),
    {
        let path = modules_path(&routes_enum.attrs);
        let (modules, parent_module) = get_modules(
            routes_enum,
            path,
            root_path_file,
            target_file_path,
        );
        let local_views = get_local_views(routes_enum, model);
        let guards = get_guards(routes_enum, model);
        SeedContent { local_views, guards, parent_module, modules }
    }
}

} // verus!
