use indexmap::IndexMap;
use proto_seeder::checker::{
    imports_file_plan, local_content_plan, module_file_plan, Checker, DeclarationKind,
    FileOperation, FileOutcome, RunTally,
};
use proto_seeder::import::{generate_module_meta, ImportModule};
use proto_seeder::module::get_modules;
use proto_seeder::parser::{RouteVariant, RoutesEnum, VariantShape};
use proto_seeder::route::{SeedGuard, SeedRoute, SeedView};

const FILE_WITH_ROUTES_AND_MODEL: &str = r###"
    
// ------ ------
//     Init
// ------ ------

fn init(url: Url, orders: &mut impl Orders<Msg,>,) -> Model {
    orders
        .subscribe(Msg::UrlChanged,)
        .subscribe(Msg::UrlRequested,)
        .subscribe(Msg::UserLogged,);

    let mut router: Router<Routes,> = Router::new();
    router.init_url_and_navigation(url,);

    Model {
        theme: Theme::default(),
        login: Default::default(),
        dashboard: Default::default(),
        admin: Default::default(),
        router,
        logged_user: None,
    }
}    
  
  // ------ ------
//     Model
// ------ ------

struct Model {
    pub login: pages::login::Model,
    pub dashboard: pages::dashboard::Model,
    pub admin: pages::admin::Model,
    router: Router<Routes>,
    logged_user: Option<LoggedData>,
    theme: Theme,
}
  
    
#[derive(Debug, PartialEq, Clone, RoutingModules)]
#[modules_path = "pages"]
pub enum Routes {
    Login {
        query: IndexMap<String, String,>, // -> http://localhost:8000/login?name=JohnDoe
    },
    #[guard = " => guard => forbidden"]
    Settings,
    #[guard = " => guard => forbidden"]
    Dashboard(pages::dashboard::Routes,), // -> http://localhost:8000/dashboard/*
    #[guard = "logged_user => admin_guard => forbidden_user"]
    Admin {
        // -> /admin/:id/*
        id: String,
        children: pages::admin::Routes,
    },
    #[default_route]
    #[view = " => not_found"] // -> http://localhost:8000/not_found*
    NotFound,
    #[view = "logged_user => forbidden"] // -> http://localhost:8000/forbidden*
    Forbidden,
    #[as_path = ""]
    #[view = "theme => home"] // -> http://localhost:8000/
    Home,
}
 "###;

const FILE_WITHOUT_UPDATE: &str = r###"
    
// ------ ------
//     Init
// ------ ------

fn init(url: Url, orders: &mut impl Orders<Msg,>,) -> Model {
    orders
        .subscribe(Msg::UrlChanged,)
        .subscribe(Msg::UrlRequested,)
        .subscribe(Msg::UserLogged,);

    let mut router: Router<Routes,> = Router::new();
    router.init_url_and_navigation(url,);

    Model {
        theme: Theme::default(),
        login: Default::default(),
        dashboard: Default::default(),
        admin: Default::default(),
        router,
        logged_user: None,
    }
}

fn update(msg: Msg, model: &mut Model, orders: &mut impl Orders<Msg>) {
    match msg {
        Msg::UrlChanged(subs::UrlChanged(url)) => {
            model.router.confirm_navigation(url);
            if let Some(current_route) = model.router.current_route.clone() {
                current_route.init(model, orders);
            }
        }
        Msg::UrlRequested(_) => {}
        Msg::Login(login_message) => pages::login::update(
            login_message,
            &mut model.login,
            &mut orders.proxy(Msg::Login),
        ),
        Msg::Dashboard(dashboard_message) => pages::dashboard::update(
            dashboard_message,
            &mut model.dashboard,
            &mut orders.proxy(Msg::Dashboard),
        ),

        Msg::Admin(admin_msg) => {
            pages::admin::update(admin_msg, &mut model.admin, &mut orders.proxy(Msg::Admin))
        }
        Msg::UserLogged(user) => {
            model.logged_user = Some(user);
        }

        Msg::SwitchToTheme(theme) => model.theme = theme,

        Msg::GoBack => {
            model
                .router
                .request_moving_back(|r| orders.notify(subs::UrlRequested::new(r)));
        }
        Msg::GoForward => {
            model
                .router
                .request_moving_forward(|r| orders.notify(subs::UrlRequested::new(r)));
        }
        Msg::Logout => model.logged_user = None,
        Msg::GoLogin => {
            model.router.current_route = Some(Routes::Login {
                query: IndexMap::new(),
            })
        }
    }
}

 "###;

const FILE_WITH_GUARD: &str = r###"
    
// ------ ------
//     Init
// ------ ------

fn init(url: Url, orders: &mut impl Orders<Msg,>,) -> Model {
    orders
        .subscribe(Msg::UrlChanged,)
        .subscribe(Msg::UrlRequested,)
        .subscribe(Msg::UserLogged,);

    let mut router: Router<Routes,> = Router::new();
    router.init_url_and_navigation(url,);

    Model {
        theme: Theme::default(),
        login: Default::default(),
        dashboard: Default::default(),
        admin: Default::default(),
        router,
        logged_user: None,
    }
}

fn guard() {

}

 "###;

#[test]
fn test_if_exist_update() {
    let check = Checker::store_content_for_check(FILE_WITHOUT_UPDATE);
    assert_eq!(check.update_exist(), true);
}

#[test]
fn test_if_exist_model() {
    let check = Checker::store_content_for_check(FILE_WITH_ROUTES_AND_MODEL);

    assert_eq!(check.init_exist(), true);
    assert_eq!(check.routes_exist(), true);
    assert_eq!(check.model_exist(), true);
    assert_eq!(check.update_exist(), false);
}

#[test]
fn test_if_exist_function() {
    let check = Checker::check_local_function_exist("guard", FILE_WITH_GUARD);
    assert_eq!(check, true);

    let check = Checker::check_local_function_exist("admin_guard", FILE_WITH_GUARD);
    assert_eq!(check, false);
}

#[test]
fn unparsable_text_declares_nothing() {
    let check = Checker::store_content_for_check("fn (");
    assert_eq!(check.declarations.len(), 0);
    assert_eq!(check.init_exist(), false);
}

#[test]
fn kinds_are_told_apart() {
    let check = Checker::store_content_for_check("type Routes = u8; fn Model() {} mod login;");
    assert_eq!(check.routes_exist(), false);
    assert_eq!(check.model_exist(), false);
    assert!(check.check_duplicate(DeclarationKind::Module, "login"));
    assert!(!check.check_duplicate(DeclarationKind::Function, "login"));
}

fn parent_with(names: &[&str]) -> ImportModule {
    let mut parent = ImportModule::new_folder_module("pages", "./app", "./app/lib.rs").unwrap();
    for n in names {
        parent = generate_module_meta(parent, n, "./app", "./app/lib.rs").1;
    }
    parent
}

#[test]
fn existing_imports_are_not_written_again() {
    let parent = parent_with(&["login", "register", "admin"]);
    let file = "pub mod register;\nfn other() {}\n";
    let check = Checker::store_content_for_check(file);
    assert_eq!(Checker::return_mod_if_exist(file, &parent), vec!["register".to_string()]);

    let (text, outcome) = imports_file_plan(FileOperation::Update, &parent, &check);
    assert_eq!(text, "pub mod login;\npub mod admin;\n");
    assert_eq!(outcome, FileOutcome::Updated);

    let (text, outcome) = imports_file_plan(FileOperation::Create, &parent, &check);
    assert_eq!(text, "pub mod login;\npub mod register;\npub mod admin;\n");
    assert_eq!(outcome, FileOutcome::Created);

    let all = Checker::store_content_for_check(&text);
    let (text, outcome) = imports_file_plan(FileOperation::Update, &parent, &all);
    assert_eq!(text, "");
    assert_eq!(outcome, FileOutcome::Ignored);
}

fn login_module() -> proto_seeder::route::SeedModule {
    let routes = RoutesEnum {
        attrs: vec![],
        variants: vec![RouteVariant {
            name: "Login".to_string(),
            shape: VariantShape::Unit,
            attrs: vec![],
        }],
    };
    get_modules(&routes, None, "./app", "./app/lib.rs").0.get("login").unwrap().clone()
}

#[test]
fn module_file_is_created_whole_then_left_alone() {
    let module = login_module();
    let empty = Checker::store_content_for_check("");
    let (created, outcome) = module_file_plan(FileOperation::Create, &module, &empty);
    assert_eq!(outcome, FileOutcome::Created);
    assert!(created.starts_with("use seed::{prelude::*, *};\n"));
    assert_eq!(
        created,
        format!(
            "use seed::{{prelude::*, *}};\n{}{}{}{}{}{}",
            module.init(),
            module.model(),
            module.routes(),
            module.msg(),
            module.update(),
            module.view()
        )
    );

    let second = Checker::store_content_for_check(&created);
    let (text, outcome) = module_file_plan(FileOperation::Update, &module, &second);
    assert_eq!(text, "");
    assert_eq!(outcome, FileOutcome::Ignored);
}

#[test]
fn module_file_gets_only_missing_fragments() {
    let module = login_module();
    let partial = Checker::store_content_for_check("pub struct Model {}\nfn view() {}\n");
    let (text, outcome) = module_file_plan(FileOperation::Update, &module, &partial);
    assert_eq!(
        text,
        format!("{}{}{}{}", module.init(), module.routes(), module.msg(), module.update())
    );
    assert_eq!(outcome, FileOutcome::Updated);
}

fn route(name: &str, content: &str) -> SeedRoute {
    SeedRoute {
        name: name.to_string(),
        nested: false,
        children: false,
        id_param: false,
        query: false,
        content_to_load: content.to_string(),
    }
}

fn view(variant: &str, content: &str) -> SeedView {
    SeedView { name: variant.to_string(), content: content.to_string(), route: route(variant, content) }
}

#[test]
fn local_views_and_guards_are_written_once() {
    let mut views: IndexMap<String, SeedView> = IndexMap::new();
    views.insert("home".to_string(), view("Home", "fn home() {}"));
    views.insert("forbidden".to_string(), view("Forbidden", "fn forbidden() {}"));
    let mut guards: IndexMap<String, SeedGuard> = IndexMap::new();
    guards.insert(
        "guard".to_string(),
        SeedGuard {
            name: "guard".to_string(),
            content: "fn guard() {}".to_string(),
            redirect: view("forbidden", "fn forbidden(model: &Model) {}"),
            routes: vec![route("Settings", "fn guard() {}")],
        },
    );
    guards.insert(
        "admin_guard".to_string(),
        SeedGuard {
            name: "admin_guard".to_string(),
            content: "fn admin_guard() {}".to_string(),
            redirect: view("forbidden_user", "fn forbidden_user() {}"),
            routes: vec![route("Admin", "fn admin_guard() {}")],
        },
    );

    let file = "fn home() {}\n";
    let check = Checker::store_content_for_check(file);
    let (text, outcome) = local_content_plan(&views, &guards, &check);
    assert_eq!(
        text,
        "fn forbidden() {}\nfn guard() {}\nfn admin_guard() {}\nfn forbidden_user() {}\n"
    );
    assert_eq!(outcome, FileOutcome::Updated);

    let after = Checker::store_content_for_check(&format!("{}{}", file, text));
    let (text, outcome) = local_content_plan(&views, &guards, &after);
    assert_eq!(text, "");
    assert_eq!(outcome, FileOutcome::Ignored);
}

#[test]
fn tally_counts_each_outcome() {
    let mut tally = RunTally::new();
    tally.record(FileOutcome::Created);
    tally.record(FileOutcome::Updated);
    tally.record(FileOutcome::Updated);
    tally.record(FileOutcome::Ignored);
    assert_eq!((tally.created, tally.updated, tally.ignored), (1, 2, 1));
    let mut full = RunTally { created: u64::MAX, updated: 0, ignored: 0 };
    full.record(FileOutcome::Created);
    assert_eq!(full.created, u64::MAX);
}
