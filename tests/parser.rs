use proto_seeder::parser::{
    find_attribute_value, get_guard_attribute, get_string_from_attribute, get_view_attribute,
    modules_path, read_guard_attribute, read_modules_path, read_view_attribute, Attribute,
    AttributeError, GuardAttribute, ViewAttribute,
};
use proto_seeder::text::{find_arrow, split_arrow, strip_whitespace, trim};

fn attr(key: &str, value: &str) -> Attribute {
    Attribute { key: key.to_string(), value: Some(value.to_string()) }
}

#[test]
fn view_attribute_is_split_and_trimmed() {
    let r = get_view_attribute(&vec![attr("view", "  logged_user =>  forbidden ")]);
    assert_eq!(
        r,
        Some(ViewAttribute { scope: "logged_user".to_string(), view: "forbidden".to_string() })
    );
    let r = get_view_attribute(&vec![attr("view", " => not_found")]);
    assert_eq!(r.unwrap().scope, "");
    assert_eq!(get_view_attribute(&vec![attr("guard", "a => b => c")]), None);
    assert_eq!(get_view_attribute(&vec![attr("view", "")]), None);
}

#[test]
fn guard_attribute_has_three_parts() {
    let r = get_guard_attribute(&vec![attr("guard", "logged_user => admin_guard => forbidden_user")]);
    assert_eq!(
        r,
        Some(GuardAttribute {
            scope: "logged_user".to_string(),
            guard: "admin_guard".to_string(),
            redirect: "forbidden_user".to_string(),
        })
    );
    assert_eq!(
        read_guard_attribute(&vec![attr("guard", "a => b")]).unwrap_err(),
        AttributeError::BadGuard("a => b".to_string())
    );
}

#[test]
fn attribute_lookup_cases() {
    let none = Attribute { key: "view".to_string(), value: None };
    assert_eq!(get_string_from_attribute("guard", &none), Ok(None));
    assert_eq!(
        get_string_from_attribute("view", &none),
        Err(AttributeError::NotAString("view".to_string()))
    );
    assert_eq!(
        find_attribute_value(&vec![attr("view", "a"), attr("view", "b")], "view"),
        Err(AttributeError::Multiple("view".to_string()))
    );
    assert_eq!(
        find_attribute_value(&vec![attr("x", "a"), attr("view", "b")], "view"),
        Ok(Some("b".to_string()))
    );
    assert_eq!(find_attribute_value(&vec![], "view"), Ok(None));
    assert_eq!(modules_path(&vec![attr("modules_path", "pages")]), Some("pages".to_string()));
    assert_eq!(modules_path(&vec![]), None);
    assert_eq!(read_modules_path(&vec![attr("modules_path", "")]), Ok(Some(String::new())));
    assert_eq!(
        read_view_attribute(&vec![attr("view", "forbidden")]),
        Err(AttributeError::BadView("forbidden".to_string()))
    );
    assert_eq!(
        read_view_attribute(&vec![attr("view", "a => b"), attr("view", "c => d")]),
        Err(AttributeError::Multiple("view".to_string()))
    );
}

#[test]
fn text_helpers() {
    assert_eq!(trim("\t a b \n"), "a b");
    assert_eq!(trim("   "), "");
    assert_eq!(strip_whitespace("Option < LoggedData >"), "Option<LoggedData>");
    assert_eq!(find_arrow("a => b"), Some(2));
    assert_eq!(find_arrow("a = > b"), None);
    assert_eq!(split_arrow("a => b => c"), ("a ".to_string(), Some(" b => c".to_string())));
    assert_eq!(split_arrow("abc"), ("abc".to_string(), None));
}
