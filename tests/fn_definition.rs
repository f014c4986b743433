use wrapgen::fn_definition::{PARSE_ERROR, UNNAMED_ERROR};
use wrapgen::FnDefinition;

#[test]
fn parses_name_params_and_return_type() {
    let f = FnDefinition::from_str("fn my_test_fn(arg1: cty::c_int) -> cty::c_int").unwrap();
    assert_eq!(f.get_name(), "my_test_fn");
    assert_eq!(f.get_params(), "arg1: cty::c_int");
    assert_eq!(f.get_returns(), "cty::c_int");
    assert_eq!(f.returns, Some("cty::c_int"));
}

#[test]
fn parses_signature_with_semicolon_and_no_return_type() {
    let f = FnDefinition::from_str("fn reset(dev: *mut device);").unwrap();
    assert_eq!(f.name, "reset");
    assert_eq!(f.params, Some("dev: *mut device"));
    assert_eq!(f.returns, None);
    assert_eq!(f.get_returns(), "");
}

#[test]
fn finds_signature_inside_longer_text() {
    let f = FnDefinition::from_str("pub fn open_dev(path: *const u8) -> *mut device").unwrap();
    assert_eq!(f.name, "open_dev");
    assert_eq!(f.get_returns(), "*mut device");
}

#[test]
fn empty_parameter_list() {
    let f = FnDefinition::from_str("fn tick()").unwrap();
    assert_eq!(f.params, Some(""));
    assert_eq!(f.get_params(), "");
    assert!(f.get_param_names().is_empty());
}

#[test]
fn rejects_text_without_signature() {
    assert_eq!(FnDefinition::from_str("struct inode;").err(), Some(PARSE_ERROR));
    assert_eq!(FnDefinition::from_str("").err(), Some(PARSE_ERROR));
    assert_eq!(PARSE_ERROR, "Couldn't parse function");
}

#[test]
fn rejects_upper_case_names() {
    assert_eq!(FnDefinition::from_str("fn Open(x: u8)").err(), Some(PARSE_ERROR));
}

#[test]
fn from_cap_takes_groups_one_two_and_four() {
    let groups = vec![Some("fn f(a: u8) -> u8"), Some("f"), Some("a: u8"), Some("-> u8"), Some("u8")];
    let f = FnDefinition::from_cap(&groups).unwrap();
    assert_eq!(f.name, "f");
    assert_eq!(f.params, Some("a: u8"));
    assert_eq!(f.returns, Some("u8"));
}

#[test]
fn from_cap_with_missing_optional_groups() {
    let groups = vec![Some("fn g()"), Some("g"), None, None, None];
    let f = FnDefinition::from_cap(&groups).unwrap();
    assert_eq!(f.params, None);
    assert_eq!(f.returns, None);
    let short = vec![Some("fn h"), Some("h")];
    let h = FnDefinition::from_cap(&short).unwrap();
    assert_eq!(h.name, "h");
    assert_eq!(h.params, None);
    assert_eq!(h.returns, None);
}

#[test]
fn from_cap_needs_a_name() {
    let groups = vec![Some("fn ()"), None, Some("")];
    assert_eq!(FnDefinition::from_cap(&groups).err(), Some(UNNAMED_ERROR));
    let empty: Vec<Option<&str>> = vec![];
    assert_eq!(FnDefinition::from_cap(&empty).err(), Some(UNNAMED_ERROR));
    assert_eq!(UNNAMED_ERROR, "Functions need to be named");
}

#[test]
fn param_names_stop_at_colon() {
    let f = FnDefinition::from_str("fn f(a: u8, bb: *mut inode, c_d: cty::c_int)").unwrap();
    assert_eq!(f.get_param_names(), vec!["a", "bb", "c_d"]);
}

#[test]
fn param_names_drop_trailing_separator() {
    let f = FnDefinition { name: "f", params: Some("a: u8, "), returns: None };
    assert_eq!(f.get_param_names(), vec!["a"]);
}

#[test]
fn param_names_keep_empty_middle_piece() {
    let f = FnDefinition { name: "f", params: Some("a: u8, , b"), returns: None };
    assert_eq!(f.get_param_names(), vec!["a", "", "b"]);
}

#[test]
fn param_names_without_params() {
    let f = FnDefinition { name: "f", params: None, returns: None };
    assert!(f.get_param_names().is_empty());
}

#[test]
fn declaration_with_return_type() {
    let f = FnDefinition::from_str("fn my_test_fn(arg1: cty::c_int) -> cty::c_int").unwrap();
    assert_eq!(f.to_string(), "fn my_test_fn(arg1: cty::c_int) -> cty::c_int;");
}

#[test]
fn declaration_without_return_type() {
    let f = FnDefinition { name: "reset", params: None, returns: None };
    assert_eq!(f.to_string(), "fn reset();");
}
