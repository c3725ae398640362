use proto_seeder::import::{
    generate_module_meta, ImportModule, ParentModuleType, ERROR_WHEN_MULTIPLE_FOLDERS_NOT_SUPPORTED,
    ERROR_WHEN_PATH_EMPTY,
};

#[test]
fn import_get_pages() {
    let import_result =
        ImportModule::new_folder_module("pages", "./my_app/src", "./my_app/src/lib.rs");

    let import = import_result.unwrap();

    assert_eq!(import.meta().filepath(), "./my_app/src/pages/mod.rs");
    assert_eq!(import.meta().import_file_location(), "./my_app/src/lib.rs");
    assert_eq!(import.meta().mod_import(), "mod pages;");
    assert_eq!(import.folder_path, "./my_app/src/pages");
}

#[test]
fn get_error_if_empty_path() {
    let import_result = ImportModule::new_folder_module("", "./my_app/src", "./my_app/src/lib.rs");

    assert_eq!(import_result.is_err(), true);
    assert_eq!(import_result.unwrap_err(), ERROR_WHEN_PATH_EMPTY)
}

#[test]
fn get_error_if_multiple_folders() {
    let import_result =
        ImportModule::new_folder_module("pages/sub", "./my_app/src", "./my_app/src/lib.rs");

    assert_eq!(import_result.is_err(), true);
    assert_eq!(
        import_result.unwrap_err(),
        ERROR_WHEN_MULTIPLE_FOLDERS_NOT_SUPPORTED
    )
}

#[test]
fn test_import_with_parent() {
    let import_result =
        ImportModule::new_folder_module("pages", "./my_app/src", "./my_app/src/lib.rs");

    let import_module = import_result.unwrap();

    let (module_meta, updated_parent) = generate_module_meta(
        import_module,
        "login",
        "./my_app/src/",
        "./my_app/src/lib.rs",
    );

    let (_module_meta2, updated_parent_2) = generate_module_meta(
        updated_parent.clone(),
        "register",
        "./my_app/src/",
        "./my_app/src/lib.rs",
    );

    assert_eq!(module_meta.filepath(), "./my_app/src/pages/login.rs");
    assert_eq!(module_meta.mod_import(), "pub mod login;");
    assert_eq!(module_meta.import_file_location(), "./my_app/src/pages/mod.rs");

    let imports = updated_parent.clone().imports_content;
    let login = imports
        .iter()
        .find(|import| import.to_string().eq("pub mod login;"));

    assert_eq!(login.is_some(), true);

    let imports_content = "pub mod login;\npub mod register;\n";

    assert_eq!(updated_parent_2.imports_to_write(), imports_content);
}

#[test]
fn test_import_with_target_file() {
    let target_file_module =
        ImportModule::new_target_file_module("./my_app/src", "./my_app/src/lib.rs");
    let (module_meta, import) = generate_module_meta(
        target_file_module.unwrap(),
        "login",
        "./my_app/src",
        "./my_app/src/lib.rs",
    );

    let import_module = import;

    assert_eq!(import_module.parent_type, ParentModuleType::TargetFile);
    assert_eq!(import_module.folder_path(), "./my_app/src");
    assert_eq!(import_module.meta().filepath(), "./my_app/src/lib.rs");
    assert_eq!(import_module.meta().mod_import(), "");
    assert_eq!(import_module.meta().import_file_location(), "");

    let login = import_module
        .imports_content
        .iter()
        .find(|import| import.to_string().eq("mod login;"));

    assert_eq!(login.is_some(), true);
    assert_eq!(module_meta.filepath(), "./my_app/src/login.rs");
    assert_eq!(module_meta.mod_import(), "mod login;");
    assert_eq!(module_meta.import_file_location(), "./my_app/src/lib.rs");
}

#[test]
fn imports_keep_names_and_declarations_aligned() {
    let parent = ImportModule::new_folder_module("pages", "./app", "./app/lib.rs").unwrap();
    let (_, parent) = generate_module_meta(parent, "login", "./app", "./app/lib.rs");
    let (_, parent) = generate_module_meta(parent, "admin", "./app", "./app/lib.rs");
    assert_eq!(parent.imports_names, vec!["login".to_string(), "admin".to_string()]);
    assert_eq!(
        parent.imports_content,
        vec!["pub mod login;".to_string(), "pub mod admin;".to_string()]
    );
    assert_eq!(parent.name(), "pages");
    assert_eq!(parent.parent_type, ParentModuleType::Folder);
}

#[test]
fn empty_parent_writes_no_import() {
    let parent = ImportModule::new_target_file_module("./app", "./app/lib.rs").unwrap();
    assert_eq!(parent.imports_to_write(), "");
    assert_eq!(parent.name(), "");
}
