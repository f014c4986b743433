//! Safe accessors for the fields of a wrapped pointer type.
use crate::text::{join_spec, join_strings};
use vstd::prelude::*;

verus! {

/// The getter for field `name` of type `ty`.
pub open spec fn getter_text(name: Seq<char>, ty: Seq<char>) -> Seq<char> {
    "fn get_"@ + name + "(&self) -> "@ + ty + " {\n        unsafe { (*self.ptr)."@ + name
        + " }\n    }"@
}

/// The setter for field `name` of type `ty`.
pub open spec fn setter_text(name: Seq<char>, ty: Seq<char>) -> Seq<char> {
    "fn set_"@ + name + "(&self, value: "@ + ty + ") {\n        unsafe { (*self.ptr)."@ + name
        + " = value };\n    }"@
}

/// The trait declaration of the getter for field `name` of type `ty`.
pub open spec fn getter_signature_text(name: Seq<char>, ty: Seq<char>) -> Seq<char> {
    "fn get_"@ + name + "(&self) -> "@ + ty + ";"@
}

/// The trait declaration of the setter for field `name` of type `ty`.
pub open spec fn setter_signature_text(name: Seq<char>, ty: Seq<char>) -> Seq<char> {
    "fn set_"@ + name + "(&self, value: "@ + ty + ");"@
}

/// A field of a wrapped type, by name and type, and the access it is given.
#[derive(Clone, Copy)]
pub enum FieldType<'a> {
    ReadOnlyField(&'a str, &'a str),
    WriteOnlyField(&'a str, &'a str),
    ReadWriteField(&'a str, &'a str),
}

impl<'a> FieldType<'a> {
    /// The trait declarations of the accessors of this field.
    pub open spec fn signatures_text(self) -> Seq<char> {
        match self {
            FieldType::ReadOnlyField(n, t) => getter_signature_text(n@, t@),
            FieldType::WriteOnlyField(n, t) => setter_signature_text(n@, t@),
            FieldType::ReadWriteField(n, t) => getter_signature_text(n@, t@) + "\n    "@
                + setter_signature_text(n@, t@),
        }
    }

    /// The implementations of the accessors of this field.
    pub open spec fn accessors_text(self) -> Seq<char> {
        match self {
            FieldType::ReadOnlyField(n, t) => getter_text(n@, t@),
            FieldType::WriteOnlyField(n, t) => setter_text(n@, t@),
            FieldType::ReadWriteField(n, t) => getter_text(n@, t@) + "\n\n    "@ + setter_text(
                n@,
                t@,
            ),
        }
    }

    fn generate_getter(name: &'a str, field_type: &'a str) -> (r: String)
        ensures
            r@ == getter_text(name@, field_type@),
    {
        let mut out = String::from_str("fn get_");
        out.append(name);
        out.append("(&self) -> ");
        out.append(field_type);
        out.append(" {\n        unsafe { (*self.ptr).");
        out.append(name);
        out.append(" }\n    }");
        out
    }

    fn generate_setter(name: &'a str, field_type: &'a str) -> (r: String)
        ensures
            r@ == setter_text(name@, field_type@),
    {
        let mut out = String::from_str("fn set_");
        out.append(name);
        out.append("(&self, value: ");
        out.append(field_type);
        out.append(") {\n        unsafe { (*self.ptr).");
        out.append(name);
        out.append(" = value };\n    }");
        out
    }

    fn generate_getter_signature(name: &'a str, field_type: &'a str) -> (r: String)
        ensures
            r@ == getter_signature_text(name@, field_type@),
    {
        let mut out = String::from_str("fn get_");
        out.append(name);
        out.append("(&self) -> ");
        out.append(field_type);
        out.append(";");
        out
    }

    fn generate_setter_signature(name: &'a str, field_type: &'a str) -> (r: String)
        ensures
            r@ == setter_signature_text(name@, field_type@),
    {
        let mut out = String::from_str("fn set_");
        out.append(name);
        out.append("(&self, value: ");
        out.append(field_type);
        out.append(");");
        out
    }

    fn generate_signatures(&self) -> (r: String)
        ensures
            r@ == self.signatures_text(),
    {
        match self {
            FieldType::ReadOnlyField(name, field_type) => Self::generate_getter_signature(
                name,
                field_type,
            ),
            FieldType::WriteOnlyField(name, field_type) => Self::generate_setter_signature(
                name,
                field_type,
            ),
            FieldType::ReadWriteField(name, field_type) => {
                let mut out = Self::generate_getter_signature(name, field_type);
                out.append("\n    ");
                let setter = Self::generate_setter_signature(name, field_type);
                out.append(setter.as_str());
                out
            },
        }
    }

    fn generate(&self) -> (r: String)
        ensures
            r@ == self.accessors_text(),
    {
        match self {
            FieldType::ReadOnlyField(name, field_type) => Self::generate_getter(name, field_type),
            FieldType::WriteOnlyField(name, field_type) => Self::generate_setter(name, field_type),
            FieldType::ReadWriteField(name, field_type) => {
                let mut out = Self::generate_getter(name, field_type);
                out.append("\n\n    ");
                let setter = Self::generate_setter(name, field_type);
                out.append(setter.as_str());
                out
            },
        }
    }
}

/// A pointer type `*mut original` to be wrapped as `renamed`, with the fields
/// that get accessors.
#[derive(Clone)]
pub struct WrapperType<'a> {
    pub original: &'a str,
    pub renamed: &'a str,
    fields: Vec<FieldType<'a>>,
}

/// The trait declarations of all of `fields`, one per line.
pub open spec fn fields_signatures_text(fields: Seq<FieldType>) -> Seq<char> {
    join_spec(fields.map_values(|f: FieldType| f.signatures_text()), "\n    "@)
}

/// The accessor implementations of all of `fields`, a blank line between two.
pub open spec fn fields_accessors_text(fields: Seq<FieldType>) -> Seq<char> {
    join_spec(fields.map_values(|f: FieldType| f.accessors_text()), "\n\n    "@)
}

impl<'a> WrapperType<'a> {
    /// The name of the pointee type.
    pub closed spec fn spec_original(&self) -> &'a str {
        self.original
    }

    /// The name the wrapper is given.
    pub closed spec fn spec_renamed(&self) -> &'a str {
        self.renamed
    }

    /// The fields that get accessors, in the order they were added.
    pub closed spec fn spec_fields(&self) -> Seq<FieldType<'a>> {
        self.fields@
    }

    /// The type alias, the accessor trait and its implementation.
    pub open spec fn text(&self) -> Seq<char> {
        "type "@ + self.spec_renamed()@ + " = Wrapper<"@ + self.spec_original()@ + ">;\n\npub trait "@
            + self.spec_renamed()@ + "Ops {\n    "@ + fields_signatures_text(self.spec_fields())
            + "\n}\n\nimpl "@ + self.spec_renamed()@ + "Ops for "@ + self.spec_renamed()@ + " {\n    "@
            + fields_accessors_text(self.spec_fields()) + "\n}"@
    }

    /// The name of the pointee type.
    pub fn original(&self) -> (r: &'a str)
        ensures
            r == self.spec_original(),
    {
        self.original
    }

    /// The name the wrapper is given.
    pub fn renamed(&self) -> (r: &'a str)
        ensures
            r == self.spec_renamed(),
    {
        self.renamed
    }

    /// A wrapper for `*mut original` named `renamed`, with no fields yet.
    pub fn new(original: &'a str, renamed: &'a str) -> (r: Self)
        ensures
            r.spec_original() == original,
            r.spec_renamed() == renamed,
            r.spec_fields() == Seq::<FieldType<'a>>::empty(),
    {
        Self { original, renamed, fields: Vec::new() }
    }

    /// Adds a field that gets a getter and a setter.
    pub fn with_field(self, field_name: &'a str, field_type: &'a str) -> (r: Self)
        ensures
            r.spec_original() == self.spec_original(),
            r.spec_renamed() == self.spec_renamed(),
            r.spec_fields() == self.spec_fields().push(
                FieldType::ReadWriteField(field_name, field_type),
            ),
    {
        let mut wrapper = self;
        wrapper.fields.push(FieldType::ReadWriteField(field_name, field_type));
        wrapper
    }

    /// Adds a field that is only read.
    pub fn with_field_readonly(self, field_name: &'a str, field_type: &'a str) -> (r: Self)
        ensures
            r.spec_original() == self.spec_original(),
            r.spec_renamed() == self.spec_renamed(),
            r.spec_fields() == self.spec_fields().push(
                FieldType::ReadOnlyField(field_name, field_type),
            ),
    {
        let mut wrapper = self;
        wrapper.fields.push(FieldType::ReadOnlyField(field_name, field_type));
        wrapper
    }

    /// Adds a field that is only written to.
    pub fn with_field_writeonly(self, field_name: &'a str, field_type: &'a str) -> (r: Self)
        ensures
            r.spec_original() == self.spec_original(),
            r.spec_renamed() == self.spec_renamed(),
            r.spec_fields() == self.spec_fields().push(
                FieldType::WriteOnlyField(field_name, field_type),
            ),
    {
        let mut wrapper = self;
        wrapper.fields.push(FieldType::WriteOnlyField(field_name, field_type));
        wrapper
    }

    /// The implementation of the wrapper: a type alias for `Wrapper<original>`,
    /// a trait `<renamed>Ops` that declares the accessors, and its implementation.
    pub fn generate(&self) -> (r: String)
        ensures
            r@ == self.text(),
    {
        let mut signatures: Vec<String> = Vec::new();
        let mut accessors: Vec<String> = Vec::new();
        let mut i: usize = 0;
        while i < self.fields.len()
            invariant
                i <= self.fields.len(),
                signatures@.map_values(|p: String| p@) == self.fields@.subrange(
                    0,
                    i as int,
                ).map_values(|f: FieldType| f.signatures_text()),
                accessors@.map_values(|p: String| p@) == self.fields@.subrange(
                    0,
                    i as int,
                ).map_values(|f: FieldType| f.accessors_text()),
            decreases self.fields.len() - i,
        {
            let field = &self.fields[i];
            let signature = field.generate_signatures();
            let accessor = field.generate();
            let ghost old_signatures = signatures@;
            let ghost old_accessors = accessors@;
            let ghost signature_view = signature@;
            let ghost accessor_view = accessor@;
            signatures.push(signature);
            accessors.push(accessor);
            proof {
                let next = self.fields@.subrange(0, i + 1);
                assert(next =~= self.fields@.subrange(0, i as int).push(self.fields@[i as int]));
                assert(signatures@.map_values(|p: String| p@) =~= old_signatures.map_values(
                    |p: String| p@,
                ).push(signature_view));
                assert(accessors@.map_values(|p: String| p@) =~= old_accessors.map_values(
                    |p: String| p@,
                ).push(accessor_view));
                assert(signatures@.map_values(|p: String| p@) =~= next.map_values(
                    |f: FieldType| f.signatures_text(),
                ));
                assert(accessors@.map_values(|p: String| p@) =~= next.map_values(
                    |f: FieldType| f.accessors_text(),
                ));
            }
            i = i + 1;
        }
        assert(self.fields@.subrange(0, self.fields@.len() as int) =~= self.fields@);
        let signatures_text = join_strings(&signatures, "\n    ");
        let accessors_text = join_strings(&accessors, "\n\n    ");
        let mut out = String::from_str("type ");
        out.append(self.renamed);
        out.append(" = Wrapper<");
        out.append(self.original);
        out.append(">;\n\npub trait ");
        out.append(self.renamed);
        out.append("Ops {\n    ");
        out.append(signatures_text.as_str());
        out.append("\n}\n\nimpl ");
        out.append(self.renamed);
        out.append("Ops for ");
        out.append(self.renamed);
        out.append(" {\n    ");
        out.append(accessors_text.as_str());
        out.append("\n}");
        out
    }
}

} // verus!
