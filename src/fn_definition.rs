//! Function signatures of the form `fn name(params) -> returns;`.
use crate::captures::{capture_groups, captures_all};
use crate::text::{join_spec, split, split_spec, split_terminator, split_terminator_spec, views_of};
use vstd::prelude::*;

verus! {

/// The pattern that recognises one signature inside a longer text. The
/// semicolon at its end is optional.
pub const SIGNATURE_PATTERN: &'static str =
    r"fn\s([a-z_0-9]+)\s?\(([a-z_:&*0-9,\s]*)\)\s?(->\s([a-z_:&*0-9\s]*))?;?";

/// Returned when a text holds no signature.
pub const PARSE_ERROR: &'static str = "Couldn't parse function";

/// Returned when a match holds no function name.
pub const UNNAMED_ERROR: &'static str = "Functions need to be named";

/// Returned should a signature pattern fail to compile; both patterns of this
/// library compile, so no contract leaves room for it.
pub const PATTERN_ERROR: &'static str = "Invalid signature pattern";

/// A function signature as plain character sequences.
pub struct FnSig {
    pub name: Seq<char>,
    pub params: Option<Seq<char>>,
    pub returns: Option<Seq<char>>,
}

/// The text of an optional part, or nothing.
pub open spec fn or_empty(part: Option<Seq<char>>) -> Seq<char> {
    match part {
        Some(p) => p,
        None => Seq::empty(),
    }
}

/// The part of `param` in front of its first colon.
pub open spec fn param_name(param: Seq<char>) -> Seq<char> {
    split_spec(param, ":"@)[0]
}

impl FnSig {
    /// The names of the parameters: each comma-separated parameter up to its colon.
    pub open spec fn param_names(self) -> Seq<Seq<char>> {
        match self.params {
            Some(p) => split_terminator_spec(p, ", "@).map_values(|q: Seq<char>| param_name(q)),
            None => Seq::empty(),
        }
    }

    /// The parameter names, comma-separated, as they appear in a call.
    pub open spec fn call_args(self) -> Seq<char> {
        join_spec(self.param_names(), ", "@)
    }

    /// The signature written out as a foreign declaration.
    pub open spec fn declaration(self) -> Seq<char> {
        match self.returns {
            Some(r) => "fn "@ + self.name + "("@ + or_empty(self.params) + ") -> "@ + r + ";"@,
            None => "fn "@ + self.name + "("@ + or_empty(self.params) + ");"@,
        }
    }
}

/// The signature that the capture groups of one match describe: group 1 is the
/// name, group 2 the parameters and group 4 the return type.
pub open spec fn sig_of_groups(g: Seq<Option<Seq<char>>>) -> Option<FnSig> {
    if g.len() > 1 && g[1] is Some {
        Some(
            FnSig {
                name: g[1]->Some_0,
                params: if g.len() > 2 {
                    g[2]
                } else {
                    None
                },
                returns: if g.len() > 4 {
                    g[4]
                } else {
                    None
                },
            },
        )
    } else {
        None
    }
}

/// The signature at the first of the matches `ms`, or the error for it.
pub open spec fn first_sig(ms: Seq<Seq<Option<Seq<char>>>>) -> Result<FnSig, &'static str> {
    if ms.len() == 0 {
        Err(PARSE_ERROR)
    } else {
        match sig_of_groups(ms[0]) {
            Some(f) => Ok(f),
            None => Err(UNNAMED_ERROR),
        }
    }
}

/// A function signature whose parts are slices of the text it was read from.
#[derive(Clone, Copy)]
pub struct FnDefinition<'a> {
    pub name: &'a str,
    pub params: Option<&'a str>,
    pub returns: Option<&'a str>,
}

impl<'a> View for FnDefinition<'a> {
    type V = FnSig;

    open spec fn view(&self) -> FnSig {
        FnSig {
            name: self.name@,
            params: self.params.deep_view(),
            returns: self.returns.deep_view(),
        }
    }
}

impl<'a> FnDefinition<'a> {
    /// Reads the first signature found in `function`.
    pub fn from_str(function: &'a str) -> (r: Result<Self, &'static str>)
        ensures
            match first_sig(
                capture_groups(SIGNATURE_PATTERN@, function@),
            ) {
                Ok(f) => r is Ok && r->Ok_0@ == f,
                Err(e) => r == Err::<Self, &'static str>(e),
            },
    {
        match captures_all(SIGNATURE_PATTERN, function) {
            Ok(matches) => {
                if matches.len() == 0 {
                    Err(PARSE_ERROR)
                } else {
                    Self::from_cap(&matches[0])
                }
            },
            Err(_) => Err(PATTERN_ERROR),
        }
    }

    /// Builds the signature that the capture groups `cap` of one match describe.
    pub fn from_cap(cap: &Vec<Option<&'a str>>) -> (r: Result<Self, &'static str>)
        ensures
            match sig_of_groups(cap.deep_view()) {
                Some(f) => r is Ok && r->Ok_0@ == f,
                None => r == Err::<Self, &'static str>(UNNAMED_ERROR),
            },
    {
        let n = cap.len();
        if n > 1 {
            if let Some(name) = cap[1] {
                let params = if n > 2 {
                    cap[2]
                } else {
                    None
                };
                let ret = if n > 4 {
                    cap[4]
                } else {
                    None
                };
                return Ok(FnDefinition { name, params, returns: ret });
            }
        }
        Err(UNNAMED_ERROR)
    }

    pub fn get_name(&self) -> (r: &'a str)
        ensures
            r@ == self.name@,
    {
        self.name
    }

    /// The parameter list, or nothing when there is none.
    pub fn get_params(&self) -> (r: &'a str)
        ensures
            r@ == or_empty(self@.params),
    {
        match self.params {
            Some(params) => params,
            None => {
                proof {
                    reveal_strlit("");
                }
                ""
            },
        }
    }

    /// The return type, or nothing when there is none.
    pub fn get_returns(&self) -> (r: &'a str)
        ensures
            r@ == or_empty(self@.returns),
    {
        match self.returns {
            Some(ret) => ret,
            None => {
                proof {
                    reveal_strlit("");
                }
                ""
            },
        }
    }

    /// The names of the parameters, in order.
    pub fn get_param_names(&self) -> (r: Vec<&'a str>)
        ensures
            views_of(r@) == self@.param_names(),
    {
        match self.params {
            Some(params) => {
                proof {
                    reveal_strlit(", ");
                    reveal_strlit(":");
                }
                let pieces = split_terminator(params, ", ");
                let mut names: Vec<&'a str> = Vec::new();
                let mut i: usize = 0;
                while i < pieces.len()
                    invariant
                        i <= pieces.len(),
                        ":"@.len() == 1,
                        views_of(names@) == views_of(pieces@).subrange(0, i as int).map_values(
                            |q: Seq<char>| param_name(q),
                        ),
                    decreases pieces.len() - i,
                {
                    let parts = split(pieces[i], ":");
                    proof {
                        crate::text::lemma_split_nonempty(pieces[i as int]@, ":"@);
                    }
                    let ghost before = names@;
                    names.push(parts[0]);
                    proof {
                        assert(views_of(names@) =~= views_of(before).push(parts@[0]@));
                        assert(views_of(pieces@).subrange(0, i + 1) =~= views_of(
                            pieces@,
                        ).subrange(0, i as int).push(pieces@[i as int]@));
                    }
                    i = i + 1;
                }
                proof {
                    assert(views_of(pieces@).subrange(0, pieces@.len() as int) =~= views_of(
                        pieces@,
                    ));
                }
                names
            },
            None => Vec::new(),
        }
    }

    /// The signature written out as a foreign declaration:
    /// `fn name(params) -> returns;`, or `fn name(params);` without a return type.
    pub fn to_string(&self) -> (r: String)
        ensures
            r@ == self@.declaration(),
    {
        let mut out = String::from_str("fn ");
        out.append(self.name);
        out.append("(");
        out.append(self.get_params());
        match self.returns {
            Some(ret) => {
                out.append(") -> ");
                out.append(ret);
                out.append(";");
            },
            None => {
                out.append(");");
            },
        }
        out
    }
}

} // verus!
