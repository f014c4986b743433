//! Generation of safe Rust wrappers around foreign functions and pointer types.
//!
//! Functions that return a C `int` are wrapped so that they return a `Result`
//! (0 meaning success), functions that return a pointer so that they return an
//! `Option` (a null pointer meaning `None`), and functions without a return
//! value so that the foreign call is made in a safe function.
pub mod captures;
pub mod fn_definition;
pub mod text;
pub mod wrapper_type;

use captures::{capture_groups, captures_all};
pub use fn_definition::FnDefinition;
use fn_definition::{or_empty, sig_of_groups, FnSig, PATTERN_ERROR, UNNAMED_ERROR};
use text::{ends_with, ends_with_spec, join_spec, join_strings, join_strs, split_terminator};
use text::{split_terminator_spec, str_eq};
use vstd::prelude::*;
pub use wrapper_type::WrapperType;

verus! {

/// The pattern that recognises the signatures in a file: each one ends with a semicolon.
pub const FILE_PATTERN: &'static str =
    r"fn\s([a-z_0-9]+)\s?\(([a-z_:&*0-9,\s]*)\)\s?(->\s([a-z_:&*0-9\s]*))?;";

/// Returned when a function returns a pointer but its return type has no
/// second word to name the pointee.
pub const POINTEE_ERROR: &'static str = "Pointer return types need a pointee";

/// The generic pointer wrapper that every generated file declares.
pub const WRAPPER_DECLARATION: &'static str = "\n\npub struct Wrapper<T> {\n    ptr: *mut T\n}\n\nimpl<T> Wrapper<T> {\n    pub fn from_ptr(ptr: *mut T) -> Self {\n        Self { ptr }\n    }\n\n    pub fn get_ptr(&self) -> *mut T {\n        self.ptr\n    }\n}\n\n";

/// The views of a sequence of signatures.
pub open spec fn sig_views(fs: Seq<FnDefinition>) -> Seq<FnSig> {
    fs.map_values(|f: FnDefinition| f@)
}

/// The signatures that the matches `ms` describe, or `None` when one of them has no name.
pub open spec fn sigs_of_matches(ms: Seq<Seq<Option<Seq<char>>>>) -> Option<Seq<FnSig>>
    decreases ms.len(),
{
    if ms.len() == 0 {
        Some(Seq::empty())
    } else {
        match (sigs_of_matches(ms.drop_last()), sig_of_groups(ms.last())) {
            (Some(fs), Some(f)) => Some(fs.push(f)),
            _ => None,
        }
    }
}

/// Once a prefix of the matches has a match without a name, so do all of them.
proof fn lemma_sigs_of_matches_prefix(ms: Seq<Seq<Option<Seq<char>>>>, n: int)
    requires
        0 <= n <= ms.len(),
        sigs_of_matches(ms.subrange(0, n)) is None,
    ensures
        sigs_of_matches(ms) is None,
    decreases ms.len() - n,
{
    if n < ms.len() {
        assert(ms.subrange(0, n + 1).drop_last() =~= ms.subrange(0, n));
        lemma_sigs_of_matches_prefix(ms, n + 1);
    } else {
        assert(ms.subrange(0, n) =~= ms);
    }
}

/// The signatures in the texts `files`, in order, or `None` when a match has no name.
pub open spec fn sigs_of_files(files: Seq<Seq<char>>) -> Option<Seq<FnSig>>
    decreases files.len(),
{
    if files.len() == 0 {
        Some(Seq::empty())
    } else {
        match (
            sigs_of_files(files.drop_last()),
            sigs_of_matches(capture_groups(FILE_PATTERN@, files.last())),
        ) {
            (Some(a), Some(b)) => Some(a + b),
            _ => None,
        }
    }
}

/// The wrapper name given to `original` by the last of `types` that wraps it.
pub open spec fn lookup_wrapper(types: Seq<WrapperType>, original: Seq<char>) -> Option<Seq<char>>
    decreases types.len(),
{
    if types.len() == 0 {
        None
    } else if types.last().spec_original()@ == original {
        Some(types.last().spec_renamed()@)
    } else {
        lookup_wrapper(types.drop_last(), original)
    }
}

/// The word after the first space of a return type, such as `inode` in `*mut inode`.
pub open spec fn pointee(ret: Seq<char>) -> Seq<char> {
    split_terminator_spec(ret, " "@)[1]
}

/// Whether a wrapper can be written for `f`: a pointer return type names its pointee.
pub open spec fn translatable(f: FnSig) -> bool {
    match f.returns {
        Some(r) => ends_with_spec(r, "c_int"@) || split_terminator_spec(r, " "@).len() > 1,
        None => true,
    }
}

/// Whether a wrapper can be written for each of `fs`.
pub open spec fn all_translatable(fs: Seq<FnSig>) -> bool {
    forall|k: int| 0 <= k < fs.len() ==> translatable(#[trigger] fs[k])
}

/// Once a prefix of the files has a match without a name, so do all of them.
proof fn lemma_sigs_of_files_prefix(files: Seq<Seq<char>>, n: int)
    requires
        0 <= n <= files.len(),
        sigs_of_files(files.subrange(0, n)) is None,
    ensures
        sigs_of_files(files) is None,
    decreases files.len() - n,
{
    if n < files.len() {
        assert(files.subrange(0, n + 1).drop_last() =~= files.subrange(0, n));
        lemma_sigs_of_files_prefix(files, n + 1);
    } else {
        assert(files.subrange(0, n) =~= files);
    }
}

/// The safe wrapper of `f`, named `prefix` followed by its name.
pub open spec fn translation(
    prefix: Seq<char>,
    use_core: bool,
    types: Seq<WrapperType>,
    f: FnSig,
) -> Seq<char> {
    let head = "fn "@ + prefix + f.name + "("@ + or_empty(f.params);
    match f.returns {
        Some(r) => if ends_with_spec(r, "c_int"@) {
            head + ") -> Result<(), "@ + r + "> {\n    match unsafe { "@ + f.name + "("@
                + f.call_args() + ") } {\n        0 => Ok(()),\n        e => Err(e),\n    }\n}"@
        } else {
            let wrapper = lookup_wrapper(types, pointee(r));
            let shown = match wrapper {
                Some(w) => w,
                None => r,
            };
            let value = match wrapper {
                Some(w) => w + "::from_ptr(val)"@,
                None => "val"@,
            };
            let module = if use_core {
                "core"@
            } else {
                "std"@
            };
            head + ") -> Option<"@ + shown + "> {\n    let val = unsafe { "@ + f.name + "("@
                + f.call_args() + ") };\n    if val == "@ + module
                + "::ptr::null_mut() {\n        return None;\n    } else {\n        return Some("@
                + value + ");\n    }\n}"@
        },
        None => head + ") {\n    unsafe { "@ + f.name + "("@ + f.call_args() + ") };\n}"@,
    }
}

/// The foreign declarations of `fs`, one per line, or nothing when there are none.
pub open spec fn extern_block(fs: Seq<FnSig>) -> Seq<char> {
    if fs.len() == 0 {
        Seq::empty()
    } else {
        "extern \"C\" {\n"@ + join_spec(fs.map_values(|f: FnSig| "    "@ + f.declaration()), "\n"@)
            + "\n}"@
    }
}

/// The whole generated file for the signatures `fs`.
pub open spec fn output(
    prefix: Seq<char>,
    use_core: bool,
    types: Seq<WrapperType>,
    fs: Seq<FnSig>,
) -> Seq<char> {
    extern_block(fs) + WRAPPER_DECLARATION@ + join_spec(
        types.map_values(|t: WrapperType| t.text()),
        "\n"@,
    ) + "\n\n"@ + join_spec(
        fs.map_values(|f: FnSig| translation(prefix, use_core, types, f)),
        "\n\n"@,
    )
}

/// The builder of a generated file: the functions to wrap, the files to read more
/// of them from, the pointer types to wrap, the prefix of the wrapper names and
/// whether `core` or `std` is named for null pointers.
#[derive(Clone)]
pub struct WrapGen<'a> {
    functions: Vec<FnDefinition<'a>>,
    wrapped_types: Vec<WrapperType<'a>>,
    prefix: &'a str,
    use_core: bool,
    included_files: Vec<String>,
}

impl<'a> WrapGen<'a> {
    /// The functions added one by one.
    pub closed spec fn spec_functions(&self) -> Seq<FnSig> {
        sig_views(self.functions@)
    }

    /// The pointer types to wrap, in the order they were added.
    pub closed spec fn spec_wrapped_types(&self) -> Seq<WrapperType<'a>> {
        self.wrapped_types@
    }

    /// The prefix of the wrapper names.
    pub closed spec fn spec_prefix(&self) -> Seq<char> {
        self.prefix@
    }

    /// Whether null pointers are named through `core` rather than `std`.
    pub closed spec fn spec_use_core(&self) -> bool {
        self.use_core
    }

    /// The texts of the files whose signatures are wrapped too.
    pub closed spec fn spec_included_files(&self) -> Seq<Seq<char>> {
        self.included_files@.map_values(|s: String| s@)
    }

    /// A builder without functions, files or types, with prefix `rs_`, naming `std`.
    pub fn default() -> (r: Self)
        ensures
            r.spec_functions() == Seq::<FnSig>::empty(),
            r.spec_wrapped_types() == Seq::<WrapperType<'a>>::empty(),
            r.spec_prefix() == "rs_"@,
            !r.spec_use_core(),
            r.spec_included_files() == Seq::<Seq<char>>::empty(),
    {
        let r = WrapGen {
            functions: Vec::new(),
            wrapped_types: Vec::new(),
            prefix: "rs_",
            use_core: false,
            included_files: Vec::new(),
        };
        assert(r.spec_functions() =~= Seq::<FnSig>::empty());
        assert(r.spec_included_files() =~= Seq::<Seq<char>>::empty());
        r
    }

    /// Adds the signatures in `lines`, the text of a file, to those to wrap.
    pub fn add_file_contents(self, lines: String) -> (r: Self)
        ensures
            r.spec_functions() == self.spec_functions(),
            r.spec_wrapped_types() == self.spec_wrapped_types(),
            r.spec_prefix() == self.spec_prefix(),
            r.spec_use_core() == self.spec_use_core(),
            r.spec_included_files() == self.spec_included_files().push(lines@),
    {
        let mut r = self;
        r.included_files.push(lines);
        assert(r.spec_included_files() =~= self.spec_included_files().push(lines@));
        r
    }

    /// Adds the single signature in `function`; its semicolon is optional.
    pub fn add_function(self, function: &'a str) -> (r: Result<Self, &'static str>)
        ensures
            match fn_definition::first_sig(
                capture_groups(fn_definition::SIGNATURE_PATTERN@, function@),
            ) {
                Ok(f) => r is Ok && r->Ok_0.spec_functions() == self.spec_functions().push(f)
                    && r->Ok_0.spec_wrapped_types() == self.spec_wrapped_types()
                    && r->Ok_0.spec_prefix() == self.spec_prefix() && r->Ok_0.spec_use_core()
                    == self.spec_use_core() && r->Ok_0.spec_included_files()
                    == self.spec_included_files(),
                Err(e) => r == Err::<Self, &'static str>(e),
            },
    {
        match FnDefinition::from_str(function) {
            Ok(f) => {
                let mut r = self;
                r.functions.push(f);
                assert(r.spec_functions() =~= self.spec_functions().push(f@));
                Ok(r)
            },
            Err(e) => Err(e),
        }
    }

    /// Sets the prefix of the wrapper names.
    pub fn prefix(self, prefix: &'a str) -> (r: Self)
        ensures
            r.spec_functions() == self.spec_functions(),
            r.spec_wrapped_types() == self.spec_wrapped_types(),
            r.spec_prefix() == prefix@,
            r.spec_use_core() == self.spec_use_core(),
            r.spec_included_files() == self.spec_included_files(),
    {
        let mut r = self;
        r.prefix = prefix;
        r
    }

    /// Chooses whether null pointers are named through `core` or `std`.
    pub fn use_core(self, use_core: bool) -> (r: Self)
        ensures
            r.spec_functions() == self.spec_functions(),
            r.spec_wrapped_types() == self.spec_wrapped_types(),
            r.spec_prefix() == self.spec_prefix(),
            r.spec_use_core() == use_core,
            r.spec_included_files() == self.spec_included_files(),
    {
        let mut r = self;
        r.use_core = use_core;
        r
    }

    /// A builder that wraps the signatures in `lines`, the text of a file.
    pub fn new(lines: String) -> (r: Self)
        ensures
            r.spec_functions() == Seq::<FnSig>::empty(),
            r.spec_wrapped_types() == Seq::<WrapperType<'a>>::empty(),
            r.spec_prefix() == "rs_"@,
            !r.spec_use_core(),
            r.spec_included_files() == seq![lines@],
    {
        let r = WrapGen::default().add_file_contents(lines);
        assert(r.spec_included_files() =~= seq![lines@]);
        r
    }

    /// Adds a pointer type whose fields get accessors.
    pub fn wrap_pointer_type(self, to_wrap: WrapperType<'a>) -> (r: Self)
        ensures
            r.spec_functions() == self.spec_functions(),
            r.spec_wrapped_types() == self.spec_wrapped_types().push(to_wrap),
            r.spec_prefix() == self.spec_prefix(),
            r.spec_use_core() == self.spec_use_core(),
            r.spec_included_files() == self.spec_included_files(),
    {
        let mut r = self;
        r.wrapped_types.push(to_wrap);
        r
    }

    /// The wrapper name that the last wrapped type for `original` gives it.
    fn wrapped_type_of(&self, original: &str) -> (r: Option<&'a str>)
        ensures
            r.deep_view() == lookup_wrapper(self.spec_wrapped_types(), original@),
    {
        let mut i: usize = self.wrapped_types.len();
        assert(self.wrapped_types@.subrange(0, i as int) =~= self.wrapped_types@);
        while i > 0
            invariant
                i <= self.wrapped_types.len(),
                lookup_wrapper(self.wrapped_types@, original@) == lookup_wrapper(
                    self.wrapped_types@.subrange(0, i as int),
                    original@,
                ),
            decreases i,
        {
            let ghost prefix = self.wrapped_types@.subrange(0, i as int);
            assert(prefix.drop_last() =~= self.wrapped_types@.subrange(0, i - 1));
            let candidate = &self.wrapped_types[i - 1];
            if str_eq(candidate.original(), original) {
                return Some(candidate.renamed());
            }
            i = i - 1;
        }
        assert(self.wrapped_types@.subrange(0, 0) =~= Seq::<WrapperType<'a>>::empty());
        None
    }

    /// The safe wrapper of `function`.
    fn translate_function(&self, function: &FnDefinition) -> (r: String)
        requires
            translatable(function@),
        ensures
            r@ == translation(
                self.spec_prefix(),
                self.spec_use_core(),
                self.spec_wrapped_types(),
                function@,
            ),
    {
        let names = function.get_param_names();
        let args = join_strs(&names, ", ");
        let mut out = String::from_str("fn ");
        out.append(self.prefix);
        out.append(function.name);
        out.append("(");
        out.append(function.get_params());
        match function.returns {
            Some(ret) => {
                if ends_with(ret, "c_int") {
                    out.append(") -> Result<(), ");
                    out.append(ret);
                    out.append("> {\n    match unsafe { ");
                    out.append(function.name);
                    out.append("(");
                    out.append(args.as_str());
                    out.append(") } {\n        0 => Ok(()),\n        e => Err(e),\n    }\n}");
                } else {
                    proof {
                        reveal_strlit(" ");
                    }
                    let words = split_terminator(ret, " ");
                    let wrapper = self.wrapped_type_of(words[1]);
                    out.append(") -> Option<");
                    match wrapper {
                        Some(w) => out.append(w),
                        None => out.append(ret),
                    }
                    out.append("> {\n    let val = unsafe { ");
                    out.append(function.name);
                    out.append("(");
                    out.append(args.as_str());
                    out.append(") };\n    if val == ");
                    if self.use_core {
                        out.append("core");
                    } else {
                        out.append("std");
                    }
                    out.append("::ptr::null_mut() {\n        return None;\n    } else {\n        return Some(");
                    let value = match wrapper {
                        Some(w) => String::from_str(w).concat("::from_ptr(val)"),
                        None => String::from_str("val"),
                    };
                    out.append(value.as_str());
                    out.append(");\n    }\n}");
                }
            },
            None => {
                out.append(") {\n    unsafe { ");
                out.append(function.name);
                out.append("(");
                out.append(args.as_str());
                out.append(") };\n}");
            },
        }
        out
    }

    /// The foreign declarations of `functions`.
    fn generate_extern_declarations(functions: &Vec<FnDefinition>) -> (r: String)
        ensures
            r@ == extern_block(sig_views(functions@)),
    {
        if functions.len() == 0 {
            return String::new();
        }
        let mut lines: Vec<String> = Vec::new();
        let mut i: usize = 0;
        while i < functions.len()
            invariant
                i <= functions.len(),
                lines@.map_values(|p: String| p@) == functions@.subrange(0, i as int).map_values(
                    |f: FnDefinition| "    "@ + f@.declaration(),
                ),
            decreases functions.len() - i,
        {
            let line = String::from_str("    ").concat(functions[i].to_string().as_str());
            let ghost before = lines@;
            let ghost line_view = line@;
            lines.push(line);
            proof {
                assert(functions@.subrange(0, i + 1) =~= functions@.subrange(0, i as int).push(
                    functions@[i as int],
                ));
                assert(lines@.map_values(|p: String| p@) =~= before.map_values(|p: String| p@).push(
                    line_view,
                ));
                assert(lines@.map_values(|p: String| p@) =~= functions@.subrange(
                    0,
                    i + 1,
                ).map_values(|f: FnDefinition| "    "@ + f@.declaration()));
            }
            i = i + 1;
        }
        assert(functions@.subrange(0, functions@.len() as int).map_values(
            |f: FnDefinition| "    "@ + f@.declaration(),
        ) =~= sig_views(functions@).map_values(|f: FnSig| "    "@ + f.declaration()));
        let body = join_strings(&lines, "\n");
        let mut out = String::from_str("extern \"C\" {\n");
        out.append(body.as_str());
        out.append("\n}");
        out
    }

    /// Whether a wrapper can be written for `function`.
    fn is_translatable(function: &FnDefinition) -> (r: bool)
        ensures
            r == translatable(function@),
    {
        match function.returns {
            Some(ret) => {
                proof {
                    reveal_strlit(" ");
                }
                ends_with(ret, "c_int") || split_terminator(ret, " ").len() > 1
            },
            None => true,
        }
    }

    /// The generated file for the functions of this builder followed by `extra`:
    /// the foreign declarations, the pointer wrapper, the wrapped types and the
    /// safe wrappers of the functions.
    pub fn render<'b>(&'b self, extra: &Vec<FnDefinition<'b>>) -> (r: Result<String, &'static str>)
        ensures
            ({
                let fs = self.spec_functions() + sig_views(extra@);
                if all_translatable(fs) {
                    r is Ok && r->Ok_0@ == output(
                        self.spec_prefix(),
                        self.spec_use_core(),
                        self.spec_wrapped_types(),
                        fs,
                    )
                } else {
                    r == Err::<String, &'static str>(POINTEE_ERROR)
                }
            }),
    {
        let ghost fs = self.spec_functions() + sig_views(extra@);
        let mut all: Vec<FnDefinition<'b>> = Vec::new();
        let mut i: usize = 0;
        while i < self.functions.len()
            invariant
                i <= self.functions.len(),
                sig_views(all@) == sig_views(self.functions@.subrange(0, i as int)),
            decreases self.functions.len() - i,
        {
            let ghost before = all@;
            all.push(self.functions[i]);
            assert(sig_views(all@) =~= sig_views(before).push(self.functions@[i as int]@));
            assert(self.functions@.subrange(0, i + 1) =~= self.functions@.subrange(
                0,
                i as int,
            ).push(self.functions@[i as int]));
            i = i + 1;
        }
        assert(self.functions@.subrange(0, self.functions@.len() as int) =~= self.functions@);
        let mut j: usize = 0;
        while j < extra.len()
            invariant
                j <= extra.len(),
                fs == self.spec_functions() + sig_views(extra@),
                sig_views(all@) == self.spec_functions() + sig_views(extra@.subrange(0, j as int)),
            decreases extra.len() - j,
        {
            let ghost before = all@;
            all.push(extra[j]);
            assert(sig_views(all@) =~= sig_views(before).push(extra@[j as int]@));
            assert(sig_views(extra@.subrange(0, j + 1)) =~= sig_views(
                extra@.subrange(0, j as int),
            ).push(extra@[j as int]@));
            j = j + 1;
        }
        assert(extra@.subrange(0, extra@.len() as int) =~= extra@);
        assert(sig_views(all@) == fs);
        let mut k: usize = 0;
        while k < all.len()
            invariant
                k <= all.len(),
                sig_views(all@) == fs,
                fs == self.spec_functions() + sig_views(extra@),
                forall|m: int| 0 <= m < k ==> translatable(#[trigger] fs[m]),
            decreases all.len() - k,
        {
            if !Self::is_translatable(&all[k]) {
                assert(fs.len() == all@.len());
                assert(!translatable(fs[k as int]));
                assert(!all_translatable(fs));
                return Err(POINTEE_ERROR);
            }
            k = k + 1;
        }
        let declarations = Self::generate_extern_declarations(&all);
        let mut types: Vec<String> = Vec::new();
        let mut t: usize = 0;
        while t < self.wrapped_types.len()
            invariant
                t <= self.wrapped_types.len(),
                types@.map_values(|p: String| p@) == self.wrapped_types@.subrange(
                    0,
                    t as int,
                ).map_values(|w: WrapperType| w.text()),
            decreases self.wrapped_types.len() - t,
        {
            let text = self.wrapped_types[t].generate();
            let ghost before = types@;
            let ghost text_view = text@;
            types.push(text);
            proof {
                assert(self.wrapped_types@.subrange(0, t + 1) =~= self.wrapped_types@.subrange(
                    0,
                    t as int,
                ).push(self.wrapped_types@[t as int]));
                assert(types@.map_values(|p: String| p@) =~= before.map_values(|p: String| p@).push(
                    text_view,
                ));
            }
            t = t + 1;
        }
        assert(self.wrapped_types@.subrange(0, self.wrapped_types@.len() as int) =~= self.wrapped_types@);
        let mut wrappers: Vec<String> = Vec::new();
        let mut n: usize = 0;
        while n < all.len()
            invariant
                n <= all.len(),
                sig_views(all@) == fs,
                fs == self.spec_functions() + sig_views(extra@),
                all_translatable(fs),
                wrappers@.map_values(|p: String| p@) == fs.subrange(0, n as int).map_values(
                    |f: FnSig|
                        translation(
                            self.spec_prefix(),
                            self.spec_use_core(),
                            self.spec_wrapped_types(),
                            f,
                        ),
                ),
            decreases all.len() - n,
        {
            assert(translatable(fs[n as int]));
            let wrapper = self.translate_function(&all[n]);
            let ghost before = wrappers@;
            let ghost wrapper_view = wrapper@;
            wrappers.push(wrapper);
            proof {
                assert(fs.subrange(0, n + 1) =~= fs.subrange(0, n as int).push(fs[n as int]));
                assert(wrappers@.map_values(|p: String| p@) =~= before.map_values(
                    |p: String| p@,
                ).push(wrapper_view));
            }
            n = n + 1;
        }
        assert(fs.subrange(0, fs.len() as int) =~= fs);
        let types_text = join_strings(&types, "\n");
        let wrappers_text = join_strings(&wrappers, "\n\n");
        let mut out = declarations;
        out.append(WRAPPER_DECLARATION);
        out.append(types_text.as_str());
        out.append("\n\n");
        out.append(wrappers_text.as_str());
        Ok(out)
    }

    /// The generated file for all functions of this builder, those added one by one
    /// followed by those in the added files, in the order of the files.
    pub fn generate(&self) -> (r: Result<String, &'static str>)
        ensures
            match sigs_of_files(
                self.spec_included_files(),
            ) {
                None => r == Err::<String, &'static str>(UNNAMED_ERROR),
                Some(read) => {
                    let fs = self.spec_functions() + read;
                    if all_translatable(fs) {
                        r is Ok && r->Ok_0@ == output(
                            self.spec_prefix(),
                            self.spec_use_core(),
                            self.spec_wrapped_types(),
                            fs,
                        )
                    } else {
                        r == Err::<String, &'static str>(POINTEE_ERROR)
                    }
                },
            },
    {
        let ghost files = self.spec_included_files();
        let mut extra: Vec<FnDefinition> = Vec::new();
        let mut i: usize = 0;
        while i < self.included_files.len()
            invariant
                i <= self.included_files.len(),
                files == self.spec_included_files(),
                sigs_of_files(files.subrange(0, i as int)) == Some(sig_views(extra@)),
            decreases self.included_files.len() - i,
        {
            let ghost prefix = files.subrange(0, i + 1);
            assert(prefix.drop_last() =~= files.subrange(0, i as int));
            assert(prefix.last() == self.included_files@[i as int]@);
            match Self::read_fns(self.included_files[i].as_str()) {
                Ok(found) => {
                    let ghost before = extra@;
                    let mut m: usize = 0;
                    while m < found.len()
                        invariant
                            m <= found.len(),
                            sig_views(extra@) == sig_views(before) + sig_views(
                                found@.subrange(0, m as int),
                            ),
                        decreases found.len() - m,
                    {
                        let ghost pre = extra@;
                        extra.push(found[m]);
                        assert(sig_views(extra@) =~= sig_views(pre).push(found@[m as int]@));
                        assert(sig_views(found@.subrange(0, m + 1)) =~= sig_views(
                            found@.subrange(0, m as int),
                        ).push(found@[m as int]@));
                        m = m + 1;
                    }
                    assert(found@.subrange(0, found@.len() as int) =~= found@);
                },
                Err(e) => {
                    proof {
                        assert(sigs_of_files(prefix) is None);
                        lemma_sigs_of_files_prefix(files, i as int + 1);
                    }
                    return Err(e);
                },
            }
            i = i + 1;
        }
        assert(files.subrange(0, files.len() as int) =~= files);
        self.render(&extra)
    }

    /// The signatures in the text of a file, each ending with a semicolon.
    fn read_fns<'b>(lines: &'b str) -> (r: Result<Vec<FnDefinition<'b>>, &'static str>)
        ensures
            match sigs_of_matches(
                capture_groups(FILE_PATTERN@, lines@),
            ) {
                Some(fs) => r is Ok && sig_views(r->Ok_0@) == fs,
                None => r == Err::<Vec<FnDefinition<'b>>, &'static str>(UNNAMED_ERROR),
            },
    {
        let matches = match captures_all(FILE_PATTERN, lines) {
            Ok(matches) => matches,
            Err(_) => {
                return Err(PATTERN_ERROR);
            },
        };
        let ghost ms = matches.deep_view();
        let mut found: Vec<FnDefinition<'b>> = Vec::new();
        let mut i: usize = 0;
        while i < matches.len()
            invariant
                i <= matches.len(),
                ms == matches.deep_view(),
                ms == capture_groups(FILE_PATTERN@, lines@),
                sigs_of_matches(ms.subrange(0, i as int)) == Some(sig_views(found@)),
            decreases matches.len() - i,
        {
            let ghost prefix = ms.subrange(0, i + 1);
            assert(prefix.drop_last() =~= ms.subrange(0, i as int));
            assert(prefix.last() == matches@[i as int].deep_view());
            match FnDefinition::from_cap(&matches[i]) {
                Ok(f) => {
                    let ghost before = found@;
                    found.push(f);
                    assert(sig_views(found@) =~= sig_views(before).push(f@));
                },
                Err(e) => {
                    proof {
                        assert(sigs_of_matches(prefix) is None);
                        lemma_sigs_of_matches_prefix(ms, i as int + 1);
                    }
                    return Err(e);
                },
            }
            i = i + 1;
        }
        assert(ms.subrange(0, ms.len() as int) =~= ms);
        Ok(found)
    }
}

} // verus!
