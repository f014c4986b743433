use wrapgen::WrapperType;

#[test]
fn wrapper_with_three_kinds_of_field() {
    let w = WrapperType::new("inode", "Inode")
        .with_field("i_sb", "*mut super_block")
        .with_field_writeonly("i_ino", "cty::c_int")
        .with_field_readonly("i_size", "u64");
    let expected = "type Inode = Wrapper<inode>;

pub trait InodeOps {
    fn get_i_sb(&self) -> *mut super_block;
    fn set_i_sb(&self, value: *mut super_block);
    fn set_i_ino(&self, value: cty::c_int);
    fn get_i_size(&self) -> u64;
}

impl InodeOps for Inode {
    fn get_i_sb(&self) -> *mut super_block {
        unsafe { (*self.ptr).i_sb }
    }

    fn set_i_sb(&self, value: *mut super_block) {
        unsafe { (*self.ptr).i_sb = value };
    }

    fn set_i_ino(&self, value: cty::c_int) {
        unsafe { (*self.ptr).i_ino = value };
    }

    fn get_i_size(&self) -> u64 {
        unsafe { (*self.ptr).i_size }
    }
}";
    assert_eq!(w.generate(), expected);
}

#[test]
fn wrapper_without_fields() {
    let w = WrapperType::new("dev", "Dev");
    assert_eq!(
        w.generate(),
        "type Dev = Wrapper<dev>;\n\npub trait DevOps {\n    \n}\n\nimpl DevOps for Dev {\n    \n}"
    );
}

#[test]
fn wrapper_keeps_names() {
    let w = WrapperType::new("inode", "Inode");
    assert_eq!(w.original, "inode");
    assert_eq!(w.renamed, "Inode");
    assert_eq!(w.original(), "inode");
    assert_eq!(w.renamed(), "Inode");
}
