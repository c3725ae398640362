//! Descriptors of what generation produces: routes, local views, guards,
//! modules and their file metadata, each with its mathematical view.
use vstd::prelude::*;

verus! {

/// The descriptor of one variant of the route enum.
#[derive(Debug, PartialEq, Clone)]
pub struct SeedRoute {
    pub name: String,
    /// The variant holds a nested route enum (tuple shape).
    pub nested: bool,
    /// The variant has a named field `children`.
    pub children: bool,
    /// The variant has a named field `id`.
    pub id_param: bool,
    /// The variant has a named field `query`.
    pub query: bool,
    /// The code that the route loads; empty for a module's route.
    pub content_to_load: String,
}

pub struct RouteModel {
    pub name: Seq<char>,
    pub nested: bool,
    pub children: bool,
    pub id_param: bool,
    pub query: bool,
    pub content_to_load: Seq<char>,
}

impl View for SeedRoute {
    type V = RouteModel;

    open spec fn view(&self) -> RouteModel {
        RouteModel {
            name: self.name@,
            nested: self.nested,
            children: self.children,
            id_param: self.id_param,
            query: self.query,
            content_to_load: self.content_to_load@,
        }
    }
}

/// A route with no flag set that loads `content`.
pub open spec fn plain_route(name: Seq<char>, content: Seq<char>) -> RouteModel {
    RouteModel {
        name,
        nested: false,
        children: false,
        id_param: false,
        query: false,
        content_to_load: content,
    }
}

impl SeedRoute {
    /// A route with no flag set that loads `content`.
    pub fn plain(name: String, content: String) -> (r: SeedRoute)
        ensures
            r@ == plain_route(name@, content@),
    {
        SeedRoute {
            name,
            nested: false,
            children: false,
            id_param: false,
            query: false,
            content_to_load: content,
        }
    }

    pub fn duplicate(&self) -> (r: SeedRoute)
        ensures
            r@ == self@,
    {
        SeedRoute {
            name: self.name.clone(),
            nested: self.nested,
            children: self.children,
            id_param: self.id_param,
            query: self.query,
            content_to_load: self.content_to_load.clone(),
        }
    }
}

/// A view function generated in the target file.
#[derive(PartialEq, Debug, Clone)]
pub struct SeedView {
    /// The variant that declared the view.
    pub name: String,
    /// The function, signature and body.
    pub content: String,
    /// The route that loads it.
    pub route: SeedRoute,
}

pub struct ViewModel {
    pub name: Seq<char>,
    pub content: Seq<char>,
    pub route: RouteModel,
}

impl View for SeedView {
    type V = ViewModel;

    open spec fn view(&self) -> ViewModel {
        ViewModel { name: self.name@, content: self.content@, route: self.route@ }
    }
}

/// A guard function generated in the target file, with the view shown when
/// it denies access and the routes that it protects.
#[derive(Debug, Clone)]
pub struct SeedGuard {
    pub name: String,
    pub content: String,
    pub redirect: SeedView,
    pub routes: Vec<SeedRoute>,
}

pub struct GuardModel {
    pub name: Seq<char>,
    pub content: Seq<char>,
    pub redirect: ViewModel,
    pub routes: Seq<RouteModel>,
}

pub open spec fn routes_view(rs: Seq<SeedRoute>) -> Seq<RouteModel> {
    rs.map_values(|r: SeedRoute| r@)
}

impl SeedView {
    pub fn duplicate(&self) -> (r: SeedView)
        ensures
            r@ == self@,
    {
        SeedView {
            name: self.name.clone(),
            content: self.content.clone(),
            route: self.route.duplicate(),
        }
    }
}

impl SeedGuard {
    /// A copy of the guard, routes included.
    pub fn duplicate(&self) -> (r: SeedGuard)
        ensures
            r@ == self@,
    {
        let mut routes: Vec<SeedRoute> = Vec::new();
        let mut i: usize = 0;
        while i < self.routes.len()
            invariant
                i <= self.routes.len(),
                routes_view(routes@) == routes_view(self.routes@).subrange(0, i as int),
            decreases self.routes.len() - i,
        {
            let ghost before = routes@;
            routes.push(self.routes[i].duplicate());
            assert(routes_view(routes@) =~= routes_view(before).push(self.routes@[i as int]@));
            assert(routes_view(self.routes@).subrange(0, i + 1) =~= routes_view(
                self.routes@,
            ).subrange(0, i as int).push(self.routes@[i as int]@));
            i = i + 1;
        }
        assert(routes_view(self.routes@).subrange(0, i as int) =~= routes_view(self.routes@));
        SeedGuard {
            name: self.name.clone(),
            content: self.content.clone(),
            redirect: self.redirect.duplicate(),
            routes,
        }
    }
}

impl View for SeedGuard {
    type V = GuardModel;

    open spec fn view(&self) -> GuardModel {
        GuardModel {
            name: self.name@,
            content: self.content@,
            redirect: self.redirect@,
            routes: routes_view(self.routes@),
        }
    }
}

/// Where a generated module's file lives and how its parent imports it.
/// Empty strings mean that no import is needed.
#[derive(Debug, Clone)]
pub struct ModuleMeta {
    /// For example `./src/pages/login.rs`.
    pub filepath: String,
    /// The declaration that imports the module, such as `mod login;`.
    pub mod_import: String,
    /// The file in which that declaration is written.
    pub import_file_location: String,
}

pub struct MetaModel {
    pub filepath: Seq<char>,
    pub mod_import: Seq<char>,
    pub import_file_location: Seq<char>,
}

impl View for ModuleMeta {
    type V = MetaModel;

    open spec fn view(&self) -> MetaModel {
        MetaModel {
            filepath: self.filepath@,
            mod_import: self.mod_import@,
            import_file_location: self.import_file_location@,
        }
    }
}

impl ModuleMeta {
    pub fn new(filepath: String, mod_import: String, import_file_location: String) -> (r:
        ModuleMeta)
        ensures
            r.filepath@ == filepath@,
            r.mod_import@ == mod_import@,
            r.import_file_location@ == import_file_location@,
    {
        ModuleMeta { filepath, mod_import, import_file_location }
    }

    pub fn set_filepath(&mut self, filepath: String)
        ensures
            final(self)@ == (MetaModel { filepath: filepath@, ..old(self)@ }),
    {
        self.filepath = filepath;
    }

    pub fn set_mod_import(&mut self, mod_import: String)
        ensures
            final(self)@ == (MetaModel { mod_import: mod_import@, ..old(self)@ }),
    {
        self.mod_import = mod_import;
    }

    pub fn set_import_file_location(&mut self, import_file_location: String)
        ensures
            final(self)@ == (MetaModel { import_file_location: import_file_location@, ..old(self)@ }),
    {
        self.import_file_location = import_file_location;
    }

    pub fn filepath(&self) -> (r: &str)
        ensures
            r@ == self.filepath@,
    {
        self.filepath.as_str()
    }

    pub fn mod_import(&self) -> (r: &str)
        ensures
            r@ == self.mod_import@,
    {
        self.mod_import.as_str()
    }

    pub fn import_file_location(&self) -> (r: &str)
        ensures
            r@ == self.import_file_location@,
    {
        self.import_file_location.as_str()
    }
}

/// The generated content of one module: its six declarations, each preceded
/// by its section banner, the route it comes from, and where it is written.
#[derive(Debug, Clone)]
pub struct SeedModule {
    pub view: String,
    pub init: String,
    pub update: String,
    pub model: String,
    pub msg: String,
    pub routes: String,
    pub origin_route: Option<SeedRoute>,
    pub meta: ModuleMeta,
}

pub struct ModuleModel {
    pub view: Seq<char>,
    pub init: Seq<char>,
    pub update: Seq<char>,
    pub model: Seq<char>,
    pub msg: Seq<char>,
    pub routes: Seq<char>,
    pub origin_route: Option<RouteModel>,
    pub meta: MetaModel,
}

pub open spec fn route_option_view(r: Option<SeedRoute>) -> Option<RouteModel> {
    match r {
        Some(x) => Some(x@),
        None => None,
    }
}

/// A module with empty fragments, no route and empty metadata.
pub open spec fn empty_module() -> ModuleModel {
    ModuleModel {
        view: Seq::empty(),
        init: Seq::empty(),
        update: Seq::empty(),
        model: Seq::empty(),
        msg: Seq::empty(),
        routes: Seq::empty(),
        origin_route: None,
        meta: MetaModel {
            filepath: Seq::empty(),
            mod_import: Seq::empty(),
            import_file_location: Seq::empty(),
        },
    }
}

impl Default for SeedModule {
    fn default() -> (r: SeedModule)
        ensures
            r.contents() == empty_module(),
    {
        SeedModule::empty()
    }
}

impl SeedModule {
    /// The module's fragments as character sequences.
    pub open spec fn contents(&self) -> ModuleModel {
        ModuleModel {
            view: self.view@,
            init: self.init@,
            update: self.update@,
            model: self.model@,
            msg: self.msg@,
            routes: self.routes@,
            origin_route: route_option_view(self.origin_route),
            meta: self.meta@,
        }
    }
}

impl SeedModule {
    /// A module with empty fragments, no route and empty metadata.
    pub fn empty() -> (r: SeedModule)
        ensures
            r.contents() == empty_module(),
    {
        let r = SeedModule {
            view: String::new(),
            init: String::new(),
            update: String::new(),
            model: String::new(),
            msg: String::new(),
            routes: String::new(),
            origin_route: None,
            meta: ModuleMeta::new(String::new(), String::new(), String::new()),
        };
        assert(r.contents() =~~= empty_module());
        r
    }

    pub fn view(&self) -> (r: &str)
        ensures
            r@ == self.view@,
    {
        self.view.as_str()
    }

    pub fn init(&self) -> (r: &str)
        ensures
            r@ == self.init@,
    {
        self.init.as_str()
    }

    pub fn update(&self) -> (r: &str)
        ensures
            r@ == self.update@,
    {
        self.update.as_str()
    }

    pub fn model(&self) -> (r: &str)
        ensures
            r@ == self.model@,
    {
        self.model.as_str()
    }

    pub fn msg(&self) -> (r: &str)
        ensures
            r@ == self.msg@,
    {
        self.msg.as_str()
    }

    pub fn routes(&self) -> (r: &str)
        ensures
            r@ == self.routes@,
    {
        self.routes.as_str()
    }

    pub fn origin_route(&self) -> (r: &Option<SeedRoute>)
        ensures
            *r == self.origin_route,
    {
        &self.origin_route
    }

    pub fn meta(&self) -> (r: &ModuleMeta)
        ensures
            *r == self.meta,
    {
        &self.meta
    }

    /// Replaces the view fragment.
    pub fn set_view(&mut self, view_function: String)
        ensures
            final(self).contents() == (ModuleModel { view: view_function@, ..old(self).contents() }),
    {
        self.view = view_function;
    }

    /// Replaces the init fragment.
    pub fn set_init(&mut self, init_function: String)
        ensures
            final(self).contents() == (ModuleModel { init: init_function@, ..old(self).contents() }),
    {
        self.init = init_function;
    }

    /// Replaces the update fragment.
    pub fn set_update(&mut self, update_function: String)
        ensures
            final(self).contents() == (ModuleModel { update: update_function@, ..old(self).contents() }),
    {
        self.update = update_function;
    }

    pub fn set_model(&mut self, model: String)
        ensures
            final(self).contents() == (ModuleModel { model: model@, ..old(self).contents() }),
    {
        self.model = model;
    }

    pub fn set_msg(&mut self, msg: String)
        ensures
            final(self).contents() == (ModuleModel { msg: msg@, ..old(self).contents() }),
    {
        self.msg = msg;
    }

    pub fn set_routes(&mut self, routes: String)
        ensures
            final(self).contents() == (ModuleModel { routes: routes@, ..old(self).contents() }),
    {
        self.routes = routes;
    }

    pub fn set_origin_route(&mut self, origin_route: Option<SeedRoute>)
        ensures
            final(self).contents() == (ModuleModel {
                origin_route: route_option_view(origin_route),
                ..old(self).contents()
            }),
    {
        self.origin_route = origin_route;
    }

    pub fn set_meta(&mut self, meta: ModuleMeta)
        ensures
            final(self).contents() == (ModuleModel { meta: meta@, ..old(self).contents() }),
    {
        self.meta = meta;
    }
}

} // verus!
