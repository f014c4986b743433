use wrapgen::fn_definition::PARSE_ERROR;
use wrapgen::{FnDefinition, WrapGen, WrapperType, POINTEE_ERROR, WRAPPER_DECLARATION};

const WRAPPER: &str = "

pub struct Wrapper<T> {
    ptr: *mut T
}

impl<T> Wrapper<T> {
    pub fn from_ptr(ptr: *mut T) -> Self {
        Self { ptr }
    }

    pub fn get_ptr(&self) -> *mut T {
        self.ptr
    }
}

";

#[test]
fn wrapper_declaration_text() {
    assert_eq!(WRAPPER_DECLARATION, WRAPPER);
}

#[test]
fn empty_builder_generates_only_the_wrapper() {
    let g = WrapGen::default();
    assert_eq!(g.generate().unwrap(), format!("{}\n\n", WRAPPER));
    assert_eq!(g.render(&vec![]).unwrap(), format!("{}\n\n", WRAPPER));
}

#[test]
fn int_return_becomes_result() {
    let g = WrapGen::default()
        .add_function("fn my_test_fn(arg1: cty::c_int) -> cty::c_int")
        .unwrap();
    let expected = format!(
        "extern \"C\" {{\n    fn my_test_fn(arg1: cty::c_int) -> cty::c_int;\n}}{}\n\nfn rs_my_test_fn(arg1: cty::c_int) -> Result<(), cty::c_int> {{
    match unsafe {{ my_test_fn(arg1) }} {{
        0 => Ok(()),
        e => Err(e),
    }}
}}",
        WRAPPER
    );
    assert_eq!(g.generate().unwrap(), expected);
}

#[test]
fn pointer_return_to_wrapped_type() {
    let g = WrapGen::default()
        .wrap_pointer_type(WrapperType::new("inode", "Inode"))
        .add_function("fn get_inode(id: u32, flags: u8) -> *mut inode;")
        .unwrap();
    let out = g.generate().unwrap();
    let expected_fn = "fn rs_get_inode(id: u32, flags: u8) -> Option<Inode> {
    let val = unsafe { get_inode(id, flags) };
    if val == std::ptr::null_mut() {
        return None;
    } else {
        return Some(Inode::from_ptr(val));
    }
}";
    let expected = format!(
        "extern \"C\" {{\n    fn get_inode(id: u32, flags: u8) -> *mut inode;\n}}{}{}\n\n{}",
        WRAPPER,
        WrapperType::new("inode", "Inode").generate(),
        expected_fn
    );
    assert_eq!(out, expected);
}

#[test]
fn pointer_return_without_wrapper_using_core() {
    let g = WrapGen::default()
        .prefix("safe_")
        .use_core(true)
        .add_function("fn alloc_buf(size: usize) -> *mut u8")
        .unwrap();
    let out = g.generate().unwrap();
    assert!(out.ends_with(
        "fn safe_alloc_buf(size: usize) -> Option<*mut u8> {
    let val = unsafe { alloc_buf(size) };
    if val == core::ptr::null_mut() {
        return None;
    } else {
        return Some(val);
    }
}"
    ));
}

#[test]
fn no_return_value() {
    let g = WrapGen::default().add_function("fn reset(dev: *mut device)").unwrap();
    let expected = format!(
        "extern \"C\" {{\n    fn reset(dev: *mut device);\n}}{}\n\nfn rs_reset(dev: *mut device) {{\n    unsafe {{ reset(dev) }};\n}}",
        WRAPPER
    );
    assert_eq!(g.generate().unwrap(), expected);
}

#[test]
fn later_wrapper_of_same_type_wins() {
    let g = WrapGen::default()
        .wrap_pointer_type(WrapperType::new("inode", "Inode"))
        .wrap_pointer_type(WrapperType::new("inode", "InodeRef"))
        .add_function("fn first() -> *mut inode")
        .unwrap();
    let out = g.generate().unwrap();
    assert!(out.contains("-> Option<InodeRef> {"));
    assert!(out.contains("return Some(InodeRef::from_ptr(val));"));
    assert!(out.contains("type Inode = Wrapper<inode>;\n\npub trait InodeOps {\n    \n}\n\nimpl InodeOps for Inode {\n    \n}\ntype InodeRef"));
}

#[test]
fn pointer_return_without_pointee_is_refused() {
    let g = WrapGen::default().add_function("fn count() -> u32").unwrap();
    assert_eq!(g.generate().err(), Some(POINTEE_ERROR));
    let h = WrapGen::default().add_function("fn count() -> ").unwrap();
    assert_eq!(h.generate().err(), Some(POINTEE_ERROR));
}

#[test]
fn add_function_refuses_text_without_signature() {
    assert_eq!(WrapGen::default().add_function("not a function").err(), Some(PARSE_ERROR));
}

#[test]
fn file_signatures_follow_added_functions() {
    let g = WrapGen::new("fn open_dev(x: u8) -> cty::c_int;\nfn close_dev();\nfn partial(a: u8)\n".to_string())
        .add_function("fn first()")
        .unwrap();
    let expected = format!(
        "extern \"C\" {{\n    fn first();\n    fn open_dev(x: u8) -> cty::c_int;\n    fn close_dev();\n}}{}\n\nfn rs_first() {{\n    unsafe {{ first() }};\n}}\n\nfn rs_open_dev(x: u8) -> Result<(), cty::c_int> {{
    match unsafe {{ open_dev(x) }} {{
        0 => Ok(()),
        e => Err(e),
    }}
}}\n\nfn rs_close_dev() {{\n    unsafe {{ close_dev() }};\n}}",
        WRAPPER
    );
    assert_eq!(g.generate().unwrap(), expected);
}

#[test]
fn several_files_in_order() {
    let g = WrapGen::default()
        .add_file_contents("fn b_one();".to_string())
        .add_file_contents("fn a_two();".to_string());
    let out = g.generate().unwrap();
    assert!(out.starts_with("extern \"C\" {\n    fn b_one();\n    fn a_two();\n}"));
}

#[test]
fn file_without_signatures() {
    let g = WrapGen::new("struct inode;".to_string());
    assert_eq!(g.generate().unwrap(), format!("{}\n\n", WRAPPER));
}

#[test]
fn render_appends_extra_functions() {
    let g = WrapGen::default().add_function("fn a()").unwrap();
    let extra = vec![FnDefinition::from_str("fn b()").unwrap()];
    let out = g.render(&extra).unwrap();
    assert!(out.starts_with("extern \"C\" {\n    fn a();\n    fn b();\n}"));
    assert!(out.ends_with("fn rs_a() {\n    unsafe { a() };\n}\n\nfn rs_b() {\n    unsafe { b() };\n}"));
}

#[test]
fn render_refuses_untranslatable_extra() {
    let g = WrapGen::default();
    let extra = vec![FnDefinition { name: "n", params: None, returns: Some("usize") }];
    assert_eq!(g.render(&extra).err(), Some(POINTEE_ERROR));
}
