//! Plain text operations on `&str`, each stated over the characters it reads.
use vstd::prelude::*;

verus! {

/// The views of a sequence of string slices.
pub open spec fn views_of(v: Seq<&str>) -> Seq<Seq<char>> {
    v.map_values(|p: &str| p@)
}

/// The pieces of `s` between the occurrences of `sep`, where occurrences are
/// found from the left and do not overlap.
pub open spec fn split_spec(s: Seq<char>, sep: Seq<char>) -> Seq<Seq<char>>
    decreases s.len(),
{
    if s.len() == 0 {
        seq![Seq::empty()]
    } else if 0 < sep.len() <= s.len() && s.subrange(0, sep.len() as int) == sep {
        seq![Seq::empty()] + split_spec(s.subrange(sep.len() as int, s.len() as int), sep)
    } else {
        let rest = split_spec(s.subrange(1, s.len() as int), sep);
        seq![seq![s[0]] + rest[0]] + rest.drop_first()
    }
}

/// `split_spec`, but without the last piece when that piece is empty.
pub open spec fn split_terminator_spec(s: Seq<char>, sep: Seq<char>) -> Seq<Seq<char>> {
    let parts = split_spec(s, sep);
    if parts.len() > 0 && parts.last().len() == 0 {
        parts.drop_last()
    } else {
        parts
    }
}

/// The pieces of `parts`, with `sep` between each two neighbours.
pub open spec fn join_spec(parts: Seq<Seq<char>>, sep: Seq<char>) -> Seq<char>
    decreases parts.len(),
{
    if parts.len() == 0 {
        Seq::empty()
    } else if parts.len() == 1 {
        parts[0]
    } else {
        join_spec(parts.drop_last(), sep) + sep + parts.last()
    }
}

/// Whether `s` ends with `suffix`.
pub open spec fn ends_with_spec(s: Seq<char>, suffix: Seq<char>) -> bool {
    suffix.len() <= s.len() && s.subrange(s.len() - suffix.len(), s.len() as int) == suffix
}

/// Whether `pat` occurs in `s` starting at index `i`.
pub open spec fn occurs_at(s: Seq<char>, i: int, pat: Seq<char>) -> bool {
    0 <= i && i + pat.len() <= s.len() && s.subrange(i, i + pat.len()) == pat
}

/// Splitting always yields at least one piece.
pub proof fn lemma_split_nonempty(s: Seq<char>, sep: Seq<char>)
    ensures
        split_spec(s, sep).len() >= 1,
    decreases s.len(),
{
    if s.len() == 0 {
    } else if 0 < sep.len() <= s.len() && s.subrange(0, sep.len() as int) == sep {
        lemma_split_nonempty(s.subrange(sep.len() as int, s.len() as int), sep);
    } else {
        lemma_split_nonempty(s.subrange(1, s.len() as int), sep);
    }
}

/// The pieces `xs`, with `p` put in front of the first one.
pub open spec fn prepend_first(p: Seq<char>, xs: Seq<Seq<char>>) -> Seq<Seq<char>> {
    seq![p + xs[0]] + xs.drop_first()
}

/// Whether the characters of `a` and `b` are the same.
pub fn str_eq(a: &str, b: &str) -> (r: bool)
    ensures
        r == (a@ == b@),
{
    let n = a.unicode_len();
    if n != b.unicode_len() {
        return false;
    }
    let mut i: usize = 0;
    while i < n
        invariant
            n == a@.len(),
            n == b@.len(),
            i <= n,
            a@.subrange(0, i as int) == b@.subrange(0, i as int),
        decreases n - i,
    {
        if a.get_char(i) != b.get_char(i) {
            return false;
        }
        assert(a@.subrange(0, i + 1) =~= a@.subrange(0, i as int).push(a@[i as int]));
        assert(b@.subrange(0, i + 1) =~= b@.subrange(0, i as int).push(b@[i as int]));
        i = i + 1;
    }
    assert(a@ =~= a@.subrange(0, n as int));
    assert(b@ =~= b@.subrange(0, n as int));
    true
}

/// Whether `pat` occurs in `s` at character index `i`.
pub fn matches_at(s: &str, i: usize, pat: &str) -> (r: bool)
    ensures
        r == occurs_at(s@, i as int, pat@),
{
    let n = s.unicode_len();
    let k = pat.unicode_len();
    if i > n || k > n - i {
        return false;
    }
    let mut j: usize = 0;
    while j < k
        invariant
            n == s@.len(),
            k == pat@.len(),
            i + k <= n,
            j <= k,
            s@.subrange(i as int, i + j) == pat@.subrange(0, j as int),
        decreases k - j,
    {
        if s.get_char(i + j) != pat.get_char(j) {
            assert(s@.subrange(i as int, i + k)[j as int] != pat@[j as int]);
            return false;
        }
        assert(s@.subrange(i as int, i + j + 1) =~= s@.subrange(i as int, i + j).push(
            s@[i + j],
        ));
        assert(pat@.subrange(0, j + 1) =~= pat@.subrange(0, j as int).push(pat@[j as int]));
        j = j + 1;
    }
    assert(pat@ =~= pat@.subrange(0, k as int));
    true
}

/// Whether `s` ends with `suffix`.
pub fn ends_with(s: &str, suffix: &str) -> (r: bool)
    ensures
        r == ends_with_spec(s@, suffix@),
{
    let n = s.unicode_len();
    let k = suffix.unicode_len();
    if k > n {
        return false;
    }
    matches_at(s, n - k, suffix)
}

/// The pieces of `s` between the occurrences of `sep`, as `str::split` gives them.
pub fn split<'a>(s: &'a str, sep: &str) -> (r: Vec<&'a str>)
    requires
        sep@.len() > 0,
    ensures
        views_of(r@) == split_spec(s@, sep@),
{
    let n = s.unicode_len();
    let k = sep.unicode_len();
    let mut done: Vec<&'a str> = Vec::new();
    let mut start: usize = 0;
    let mut i: usize = 0;
    proof {
        assert(s@.subrange(0, n as int) =~= s@);
        assert(s@.subrange(0, 0) =~= Seq::<char>::empty());
        lemma_split_nonempty(s@, sep@);
        assert(prepend_first(Seq::empty(), split_spec(s@, sep@)) =~= split_spec(s@, sep@));
    }
    while i < n
        invariant
            n == s@.len(),
            k == sep@.len(),
            k > 0,
            start <= i <= n,
            split_spec(s@, sep@) == views_of(done@) + prepend_first(
                s@.subrange(start as int, i as int),
                split_spec(s@.subrange(i as int, n as int), sep@),
            ),
        decreases n - i,
    {
        let ghost cur = s@.subrange(start as int, i as int);
        let ghost tail = s@.subrange(i as int, n as int);
        if matches_at(s, i, sep) {
            let piece = s.substring_char(start, i);
            let ghost old_done = done@;
            done.push(piece);
            let ghost rest = s@.subrange(i + k, n as int);
            proof {
                assert(tail.subrange(0, k as int) =~= s@.subrange(i as int, i + k));
                assert(tail.subrange(k as int, tail.len() as int) =~= rest);
                lemma_split_nonempty(rest, sep@);
                assert(cur + Seq::<char>::empty() =~= cur);
                assert(prepend_first(Seq::empty(), split_spec(rest, sep@)) =~= split_spec(
                    rest,
                    sep@,
                ));
                assert(s@.subrange(i + k, i + k) =~= Seq::<char>::empty());
                assert(views_of(done@) =~= views_of(old_done).push(cur));
                assert(prepend_first(cur, split_spec(tail, sep@)) =~= seq![cur] + split_spec(
                    rest,
                    sep@,
                ));
            }
            i = i + k;
            start = i;
        } else {
            let ghost rest = s@.subrange(i + 1, n as int);
            proof {
                if k <= tail.len() {
                    assert(tail.subrange(0, k as int) =~= s@.subrange(i as int, i + k));
                }
                assert(tail.subrange(1, tail.len() as int) =~= rest);
                lemma_split_nonempty(rest, sep@);
                let r = split_spec(rest, sep@);
                assert(split_spec(tail, sep@) == seq![seq![s@[i as int]] + r[0]] + r.drop_first());
                assert((seq![seq![s@[i as int]] + r[0]] + r.drop_first()).drop_first()
                    =~= r.drop_first());
                assert(s@.subrange(start as int, i + 1) =~= cur + seq![s@[i as int]]);
                assert(cur + (seq![s@[i as int]] + r[0]) =~= (cur + seq![s@[i as int]]) + r[0]);
                assert(prepend_first(cur, split_spec(tail, sep@)) =~= prepend_first(
                    s@.subrange(start as int, i + 1),
                    r,
                ));
            }
            i = i + 1;
        }
    }
    let last = s.substring_char(start, n);
    let ghost old_done = done@;
    done.push(last);
    proof {
        assert(s@.subrange(n as int, n as int) =~= Seq::<char>::empty());
        assert(last@ + Seq::<char>::empty() =~= last@);
        assert(views_of(done@) =~= views_of(old_done).push(last@));
    }
    done
}

/// The pieces of `s` between the occurrences of `sep`, as `str::split_terminator`
/// gives them: an empty last piece is left out.
pub fn split_terminator<'a>(s: &'a str, sep: &str) -> (r: Vec<&'a str>)
    requires
        sep@.len() > 0,
    ensures
        views_of(r@) == split_terminator_spec(s@, sep@),
{
    let mut parts = split(s, sep);
    let n = parts.len();
    if n > 0 && parts[n - 1].unicode_len() == 0 {
        let ghost before = parts@;
        parts.pop();
        proof {
            assert(views_of(parts@) =~= views_of(before).drop_last());
        }
    }
    parts
}

/// The slices of `parts` joined into one string with `sep` between them.
pub fn join_strs(parts: &Vec<&str>, sep: &str) -> (r: String)
    ensures
        r@ == join_spec(views_of(parts@), sep@),
{
    let mut out = String::new();
    let mut i: usize = 0;
    while i < parts.len()
        invariant
            i <= parts.len(),
            out@ == join_spec(views_of(parts@.subrange(0, i as int)), sep@),
        decreases parts.len() - i,
    {
        let ghost before = out@;
        if i > 0 {
            out.append(sep);
        }
        out.append(parts[i]);
        proof {
            let prefix = views_of(parts@.subrange(0, i + 1));
            assert(prefix.drop_last() =~= views_of(parts@.subrange(0, i as int)));
            if i == 0 {
                assert(out@ =~= Seq::<char>::empty() + parts@[0]@);
            }
        }
        i = i + 1;
    }
    assert(parts@.subrange(0, parts@.len() as int) =~= parts@);
    out
}

/// The strings of `parts` joined into one string with `sep` between them.
pub fn join_strings(parts: &Vec<String>, sep: &str) -> (r: String)
    ensures
        r@ == join_spec(parts@.map_values(|p: String| p@), sep@),
{
    let mut out = String::new();
    let mut i: usize = 0;
    while i < parts.len()
        invariant
            i <= parts.len(),
            out@ == join_spec(parts@.subrange(0, i as int).map_values(|p: String| p@), sep@),
        decreases parts.len() - i,
    {
        if i > 0 {
            out.append(sep);
        }
        out.append(parts[i].as_str());
        proof {
            let prefix = parts@.subrange(0, i + 1).map_values(|p: String| p@);
            assert(prefix.drop_last() =~= parts@.subrange(0, i as int).map_values(
                |p: String| p@,
            ));
            if i == 0 {
                assert(out@ =~= Seq::<char>::empty() + parts@[0]@);
            }
        }
        i = i + 1;
    }
    assert(parts@.subrange(0, parts@.len() as int) =~= parts@);
    out
}

} // verus!
