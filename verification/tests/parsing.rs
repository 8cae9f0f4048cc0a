use auto_gippity::factsheet::ProjectScope;
use auto_gippity::parse_scope::parse_scope_text;
use auto_gippity::parse_urls::parse_urls_text;

fn scope(c: bool, l: bool, u: bool) -> ProjectScope {
    ProjectScope {
        is_crud_required: c,
        is_user_login_and_logout: l,
        is_external_urls_required: u,
    }
}

#[test]
fn scope_plain_object() {
    let raw = "{\"is_crud_required\":true,\"is_user_login_and_logout\":false,\"is_external_urls_required\":true}";
    assert_eq!(parse_scope_text(raw), Some(scope(true, false, true)));
}

#[test]
fn scope_tolerates_fences_prose_and_whitespace() {
    let raw = "Sure! Here is the object you asked for:\n```json\n{\n  \"is_external_urls_required\": false ,\n  \"is_crud_required\": false,\n  \"is_user_login_and_logout\": true\n}\n```\nHope that helps.";
    assert_eq!(parse_scope_text(raw), Some(scope(false, true, false)));
}

#[test]
fn scope_missing_field_fails() {
    let raw = "{\"is_crud_required\":true,\"is_user_login_and_logout\":false}";
    assert_eq!(parse_scope_text(raw), None);
}

#[test]
fn scope_extra_field_fails() {
    let raw = "{\"is_crud_required\":true,\"is_user_login_and_logout\":false,\"is_external_urls_required\":true,\"is_extra\":true}";
    assert_eq!(parse_scope_text(raw), None);
}

#[test]
fn scope_repeated_field_fails() {
    let raw = "{\"is_crud_required\":true,\"is_crud_required\":false,\"is_external_urls_required\":true}";
    assert_eq!(parse_scope_text(raw), None);
}

#[test]
fn scope_no_braces_fails() {
    assert_eq!(parse_scope_text("yes, CRUD is required"), None);
}

#[test]
fn urls_plain_list() {
    let raw = "[\"https://a.example\",\"https://b.example\"]";
    assert_eq!(
        parse_urls_text(raw),
        Some(vec!["https://a.example".to_string(), "https://b.example".to_string()])
    );
}

#[test]
fn urls_tolerates_prose_and_whitespace() {
    let raw = "Candidates:\n[ \"https://rates.example/api\" ,\n  \"https://fx.example\" ]\nthat is all.";
    assert_eq!(
        parse_urls_text(raw),
        Some(vec!["https://rates.example/api".to_string(), "https://fx.example".to_string()])
    );
}

#[test]
fn urls_empty_list() {
    assert_eq!(parse_urls_text("nothing relevant: []"), Some(vec![]));
}

#[test]
fn urls_trailing_comma_fails() {
    assert_eq!(parse_urls_text("[\"https://a.example\",]"), None);
}

#[test]
fn urls_unquoted_item_fails() {
    assert_eq!(parse_urls_text("[https://a.example]"), None);
}

#[test]
fn urls_no_brackets_fails() {
    assert_eq!(parse_urls_text("https://a.example"), None);
}
