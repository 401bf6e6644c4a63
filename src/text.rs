use vstd::prelude::*;

verus! {

/// Characters with the Unicode White_Space property, the ones that
/// `char::is_whitespace` (and so `str::trim`) recognises.
pub open spec fn is_white(c: char) -> bool {
    let u = c as u32;
    (0x9 <= u && u <= 0xd) || u == 0x20 || u == 0x85 || u == 0xa0 || u == 0x1680 || (0x2000 <= u
        && u <= 0x200a) || u == 0x2028 || u == 0x2029 || u == 0x202f || u == 0x205f || u == 0x3000
}

/// The quote characters stripped from a new prompt text.
pub open spec fn is_quote(c: char) -> bool {
    c == '"' || c == '\''
}

/// The class of characters stripped from both ends: quotes, or else white space.
pub open spec fn in_class(c: char, quotes: bool) -> bool {
    if quotes {
        is_quote(c)
    } else {
        is_white(c)
    }
}

/// `s` without its leading characters of the class.
pub open spec fn strip_start(s: Seq<char>, quotes: bool) -> Seq<char>
    decreases s.len(),
{
    if s.len() > 0 && in_class(s[0], quotes) {
        strip_start(s.drop_first(), quotes)
    } else {
        s
    }
}

/// `s` without its trailing characters of the class.
pub open spec fn strip_end(s: Seq<char>, quotes: bool) -> Seq<char>
    decreases s.len(),
{
    if s.len() > 0 && in_class(s.last(), quotes) {
        strip_end(s.drop_last(), quotes)
    } else {
        s
    }
}

/// `s` without leading and trailing white space.
pub open spec fn trimmed(s: Seq<char>) -> Seq<char> {
    strip_end(strip_start(s, false), false)
}

/// `s` without leading and trailing quote characters.
pub open spec fn unquoted(s: Seq<char>) -> Seq<char> {
    strip_end(strip_start(s, true), true)
}

/// Whether `s` begins with `p`.
pub open spec fn has_prefix(s: Seq<char>, p: Seq<char>) -> bool {
    p.len() <= s.len() && s.subrange(0, p.len() as int) == p
}

/// What follows the first `p.len()` characters of `s`.
pub open spec fn after(s: Seq<char>, p: Seq<char>) -> Seq<char> {
    s.subrange(p.len() as int, s.len() as int)
}

/// The pieces of `s` between occurrences of `sep`, empty pieces included,
/// as `str::split` with a single character gives them: read from the left,
/// each `sep` closes the current piece and opens an empty one.
pub open spec fn split_on(s: Seq<char>, sep: char) -> Seq<Seq<char>>
    decreases s.len(),
{
    if s.len() == 0 {
        seq![Seq::empty()]
    } else {
        let pieces = split_on(s.drop_last(), sep);
        if s.last() == sep {
            pieces.push(Seq::empty())
        } else {
            pieces.update(pieces.len() - 1, pieces.last().push(s.last()))
        }
    }
}

/// `s` with every occurrence of `pat`, found from the left without overlap,
/// replaced by `rep`, as `str::replace` does it. An empty `pat` leaves `s` as it is.
pub open spec fn replace_all(s: Seq<char>, pat: Seq<char>, rep: Seq<char>) -> Seq<char>
    decreases s.len(),
{
    if pat.len() == 0 || s.len() == 0 {
        s
    } else if has_prefix(s, pat) {
        rep + replace_all(after(s, pat), pat, rep)
    } else {
        seq![s[0]] + replace_all(s.drop_first(), pat, rep)
    }
}

/// Whether `c` has the Unicode White_Space property.
pub fn is_whitespace(c: char) -> (r: bool)
    ensures
        r == is_white(c),
{
    let u = c as u32;
    (0x9 <= u && u <= 0xd) || u == 0x20 || u == 0x85 || u == 0xa0 || u == 0x1680 || (0x2000 <= u
        && u <= 0x200a) || u == 0x2028 || u == 0x2029 || u == 0x202f || u == 0x205f || u == 0x3000
}

fn is_in_class(c: char, quotes: bool) -> (r: bool)
    ensures
        r == in_class(c, quotes),
{
    if quotes {
        c == '"' || c == '\''
    } else {
        is_whitespace(c)
    }
}

fn strip(s: &str, quotes: bool) -> (r: String)
    ensures
        r@ == strip_end(strip_start(s@, quotes), quotes),
{
    let n = s.unicode_len();
    let mut i: usize = 0;
    assert(s@.subrange(0, n as int) =~= s@);
    while i < n && is_in_class(s.get_char(i), quotes)
        invariant
            n == s@.len(),
            i <= n,
            strip_start(s@, quotes) == strip_start(s@.subrange(i as int, n as int), quotes),
        decreases n - i,
    {
        assert(s@.subrange(i as int, n as int).drop_first() =~= s@.subrange(i + 1, n as int));
        i = i + 1;
    }
    assert(strip_start(s@, quotes) == s@.subrange(i as int, n as int));
    let mut j: usize = n;
    while j > i && is_in_class(s.get_char(j - 1), quotes)
        invariant
            n == s@.len(),
            i <= j <= n,
            strip_end(strip_start(s@, quotes), quotes) == strip_end(
                s@.subrange(i as int, j as int),
                quotes,
            ),
        decreases j,
    {
        assert(s@.subrange(i as int, j as int).drop_last() =~= s@.subrange(i as int, j - 1));
        j = j - 1;
    }
    String::from_str(s.substring_char(i, j))
}

/// `s` without leading and trailing white space, as `str::trim` gives it.
pub fn trim(s: &str) -> (r: String)
    ensures
        r@ == trimmed(s@),
{
    strip(s, false)
}

/// `s` without leading and trailing `"` and `'` characters.
pub fn trim_quotes(s: &str) -> (r: String)
    ensures
        r@ == unquoted(s@),
{
    strip(s, true)
}

/// Whether `p` occurs in `s` at character position `at`.
fn occurs_at(s: &str, at: usize, p: &str) -> (r: bool)
    requires
        at <= s@.len(),
    ensures
        r == has_prefix(s@.subrange(at as int, s@.len() as int), p@),
{
    let n = s.unicode_len();
    let m = p.unicode_len();
    if m > n - at {
        return false;
    }
    let mut k: usize = 0;
    while k < m
        invariant
            n == s@.len(),
            m == p@.len(),
            at + m <= n,
            k <= m,
            forall|q: int| 0 <= q < k ==> s@[at + q] == p@[q],
        decreases m - k,
    {
        if s.get_char(at + k) != p.get_char(k) {
            assert(s@.subrange(at as int, n as int).subrange(0, m as int)[k as int] != p@[k as int]);
            return false;
        }
        k = k + 1;
    }
    assert(s@.subrange(at as int, n as int).subrange(0, m as int) =~= p@);
    true
}

/// Whether `s` begins with `p`.
pub fn starts_with(s: &str, p: &str) -> (r: bool)
    ensures
        r == has_prefix(s@, p@),
{
    let r = occurs_at(s, 0, p);
    assert(s@.subrange(0, s@.len() as int) =~= s@);
    r
}

/// Whether `s` and `p` hold the same characters.
pub fn same_text(s: &str, p: &str) -> (r: bool)
    ensures
        r == (s@ == p@),
{
    let r = s.unicode_len() == p.unicode_len() && starts_with(s, p);
    assert(s@.len() == p@.len() ==> s@.subrange(0, p@.len() as int) =~= s@);
    r
}

/// What follows the first `p@.len()` characters of `s`.
pub fn rest_after(s: &str, p: &str) -> (r: String)
    requires
        p@.len() <= s@.len(),
    ensures
        r@ == after(s@, p@),
{
    String::from_str(s.substring_char(p.unicode_len(), s.unicode_len()))
}

/// The pieces of `s` between occurrences of `sep`, as `s.split(sep)` yields them.
pub fn split(s: &str, sep: char) -> (r: Vec<String>)
    ensures
        r.deep_view() == split_on(s@, sep),
        r.len() >= 1,
{
    let n = s.unicode_len();
    let mut pieces: Vec<String> = Vec::new();
    let mut start: usize = 0;
    let mut i: usize = 0;
    assert(s@.subrange(0, 0) =~= Seq::<char>::empty());
    while i < n
        invariant
            n == s@.len(),
            start <= i <= n,
            split_on(s@.subrange(0, i as int), sep) == pieces.deep_view().push(
                s@.subrange(start as int, i as int),
            ),
        decreases n - i,
    {
        let ghost prev = pieces.deep_view();
        let c = s.get_char(i);
        assert(s@.subrange(0, i + 1).drop_last() =~= s@.subrange(0, i as int));
        if c == sep {
            let piece = String::from_str(s.substring_char(start, i));
            pieces.push(piece);
            assert(pieces.deep_view() =~= prev.push(s@.subrange(start as int, i as int)));
            start = i + 1;
            assert(s@.subrange(start as int, i + 1) =~= Seq::<char>::empty());
        } else {
            assert(s@.subrange(start as int, i + 1) =~= s@.subrange(start as int, i as int).push(
                c,
            ));
        }
        i = i + 1;
        assert(split_on(s@.subrange(0, i as int), sep) =~= pieces.deep_view().push(
            s@.subrange(start as int, i as int),
        ));
    }
    assert(s@.subrange(0, n as int) =~= s@);
    let ghost prev = pieces.deep_view();
    let last = String::from_str(s.substring_char(start, n));
    pieces.push(last);
    assert(pieces.deep_view() =~= prev.push(s@.subrange(start as int, n as int)));
    pieces
}

/// `s` with every occurrence of `pat` replaced by `rep`, as `str::replace` gives it.
pub fn replace(s: &str, pat: &str, rep: &str) -> (r: String)
    ensures
        r@ == replace_all(s@, pat@, rep@),
{
    let n = s.unicode_len();
    let m = pat.unicode_len();
    let mut out = String::new();
    if m == 0 {
        return String::from_str(s);
    }
    let mut i: usize = 0;
    assert(s@.subrange(0, n as int) =~= s@);
    while i < n
        invariant
            n == s@.len(),
            m == pat@.len(),
            m > 0,
            i <= n,
            out@ + replace_all(s@.subrange(i as int, n as int), pat@, rep@) == replace_all(
                s@,
                pat@,
                rep@,
            ),
        decreases n - i,
    {
        let ghost rest = s@.subrange(i as int, n as int);
        if occurs_at(s, i, pat) {
            assert(after(rest, pat@) =~= s@.subrange(i + m, n as int));
            assert(out@ + rep@ + replace_all(after(rest, pat@), pat@, rep@) =~= out@ + (rep@
                + replace_all(after(rest, pat@), pat@, rep@)));
            out.append(rep);
            i = i + m;
        } else {
            let one = s.substring_char(i, i + 1);
            assert(rest.drop_first() =~= s@.subrange(i + 1, n as int));
            assert(one@ =~= seq![rest[0]]);
            assert(out@ + one@ + replace_all(rest.drop_first(), pat@, rep@) =~= out@ + (seq![
                rest[0],
            ] + replace_all(rest.drop_first(), pat@, rep@)));
            out.append(one);
            i = i + 1;
        }
    }
    assert(s@.subrange(n as int, n as int) =~= Seq::<char>::empty());
    assert(out@ + Seq::<char>::empty() =~= out@);
    out
}

} // verus!
