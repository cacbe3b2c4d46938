//! Character-level text processing: Unicode white space, trimming and
//! line-ending normalisation.

use vstd::prelude::*;
use vstd::string::StrSliceExecFns;
use vstd::string::StringExecFns;

verus! {

broadcast use vstd::string::group_string_axioms;

/// The Unicode `White_Space` property, the set of characters that
/// `char::is_whitespace` accepts.
pub open spec fn is_white_space(c: char) -> bool {
    let v = c as u32;
    ||| 0x9 <= v <= 0xD
    ||| v == 0x20
    ||| v == 0x85
    ||| v == 0xA0
    ||| v == 0x1680
    ||| 0x2000 <= v <= 0x200A
    ||| v == 0x2028
    ||| v == 0x2029
    ||| v == 0x202F
    ||| v == 0x205F
    ||| v == 0x3000
}

/// A set of characters that trimming removes from both ends of a text.
#[derive(Clone, Copy, Debug, PartialEq, Eq)]
pub enum TrimSet {
    /// Unicode white space.
    WhiteSpace,
    /// The double quote `"`.
    Quote,
}

pub open spec fn in_trim_set(k: TrimSet, c: char) -> bool {
    match k {
        TrimSet::WhiteSpace => is_white_space(c),
        TrimSet::Quote => c == '"',
    }
}

/// `s` without its leading characters of `k`.
pub open spec fn strip_start(s: Seq<char>, k: TrimSet) -> Seq<char>
    decreases s.len(),
{
    if s.len() > 0 && in_trim_set(k, s[0]) {
        strip_start(s.drop_first(), k)
    } else {
        s
    }
}

/// `s` without its trailing characters of `k`.
pub open spec fn strip_end(s: Seq<char>, k: TrimSet) -> Seq<char>
    decreases s.len(),
{
    if s.len() > 0 && in_trim_set(k, s.last()) {
        strip_end(s.drop_last(), k)
    } else {
        s
    }
}

/// `s` without the characters of `k` at either end.
pub open spec fn strip(s: Seq<char>, k: TrimSet) -> Seq<char> {
    strip_end(strip_start(s, k), k)
}

/// What `str::trim` gives: `s` without white space at either end.
pub open spec fn trim_ws(s: Seq<char>) -> Seq<char> {
    strip(s, TrimSet::WhiteSpace)
}

/// The text left by stripping is a contiguous part of the original, and
/// neither of its ends is a character of `k`.
pub proof fn lemma_strip_shape(s: Seq<char>, k: TrimSet)
    ensures
        exists|a: int, b: int| 0 <= a <= b <= s.len() && strip(s, k) == s.subrange(a, b),
        strip(s, k).len() > 0 ==> !in_trim_set(k, strip(s, k)[0]) && !in_trim_set(
            k,
            strip(s, k).last(),
        ),
{
    lemma_strip_start_shape(s, k);
    let t = strip_start(s, k);
    lemma_strip_end_shape(t, k);
    let a = choose|a: int| 0 <= a <= s.len() && t == s.subrange(a, s.len() as int);
    let b = choose|b: int| 0 <= b <= t.len() && strip_end(t, k) == t.subrange(0, b);
    assert(strip(s, k) =~= s.subrange(a, a + b));
}

proof fn lemma_strip_start_shape(s: Seq<char>, k: TrimSet)
    ensures
        exists|a: int| 0 <= a <= s.len() && strip_start(s, k) == s.subrange(a, s.len() as int),
        strip_start(s, k).len() > 0 ==> !in_trim_set(k, strip_start(s, k)[0]),
    decreases s.len(),
{
    if s.len() > 0 && in_trim_set(k, s[0]) {
        let t = s.drop_first();
        lemma_strip_start_shape(t, k);
        let a = choose|a: int| 0 <= a <= t.len() && strip_start(t, k) == t.subrange(a, t.len() as int);
        assert(t.subrange(a, t.len() as int) =~= s.subrange(a + 1, s.len() as int));
    } else {
        assert(s.subrange(0, s.len() as int) =~= s);
    }
}

proof fn lemma_strip_end_shape(s: Seq<char>, k: TrimSet)
    ensures
        exists|b: int| 0 <= b <= s.len() && strip_end(s, k) == s.subrange(0, b),
        strip_end(s, k).len() > 0 ==> !in_trim_set(k, strip_end(s, k).last()),
        strip_end(s, k).len() > 0 && s.len() > 0 && !in_trim_set(k, s[0]) ==> strip_end(s, k)[0]
            == s[0],
        s.len() > 0 && !in_trim_set(k, s[0]) ==> strip_end(s, k).len() > 0,
    decreases s.len(),
{
    if s.len() > 0 && in_trim_set(k, s.last()) {
        let t = s.drop_last();
        lemma_strip_end_shape(t, k);
        let b = choose|b: int| 0 <= b <= t.len() && strip_end(t, k) == t.subrange(0, b);
        assert(t.subrange(0, b) =~= s.subrange(0, b));
        if s.len() > 0 && !in_trim_set(k, s[0]) {
            assert(t.len() > 0);
            assert(t[0] == s[0]);
        }
    } else {
        assert(s.subrange(0, s.len() as int) =~= s);
    }
}

/// Stripping twice gives what stripping once gives.
pub proof fn lemma_strip_idempotent(s: Seq<char>, k: TrimSet)
    ensures
        strip(strip(s, k), k) == strip(s, k),
{
    lemma_strip_shape(s, k);
    let t = strip(s, k);
    assert(strip_start(t, k) == t);
    assert(strip_end(t, k) == t);
}

/// The white space that trimming removes is exactly the characters of
/// Unicode's `White_Space` property, which `char::is_whitespace` tests: tab,
/// line feed, vertical tab, form feed, carriage return, space, next line,
/// no-break space, ogham space mark, the spaces U+2000 to U+200A, line
/// separator, paragraph separator, narrow no-break space, medium mathematical
/// space and ideographic space.
pub proof fn lemma_white_space_chars(c: char)
    ensures
        is_white_space(c) <==> (c == '\t' || c == '\n' || c == '\u{0B}' || c == '\u{0C}' || c
            == '\r' || c == ' ' || c == '\u{85}' || c == '\u{A0}' || c == '\u{1680}' || c
            == '\u{2000}' || c == '\u{2001}' || c == '\u{2002}' || c == '\u{2003}' || c
            == '\u{2004}' || c == '\u{2005}' || c == '\u{2006}' || c == '\u{2007}' || c
            == '\u{2008}' || c == '\u{2009}' || c == '\u{200A}' || c == '\u{2028}' || c
            == '\u{2029}' || c == '\u{202F}' || c == '\u{205F}' || c == '\u{3000}'),
{
}

/// The two trimming sets: Unicode white space, and the double quote alone.
pub proof fn lemma_trim_sets(c: char)
    ensures
        in_trim_set(TrimSet::WhiteSpace, c) <==> is_white_space(c),
        in_trim_set(TrimSet::Quote, c) <==> c == '"',
{
}

/// Stripping removes characters of `k` only, from the two ends only, and
/// removes all of them there: the result is `s[a..b]` where every character
/// before `a` and from `b` on belongs to `k`, and, unless the result is
/// empty, its first and last characters do not.
pub proof fn lemma_strip_exact(s: Seq<char>, k: TrimSet)
    ensures
        exists|a: int, b: int|
            #![trigger s.subrange(a, b)]
            0 <= a <= b <= s.len() && strip(s, k) == s.subrange(a, b) && (forall|i: int|
                0 <= i < a ==> in_trim_set(k, #[trigger] s[i])) && (forall|i: int|
                b <= i < s.len() ==> in_trim_set(k, #[trigger] s[i])) && (a < b ==> !in_trim_set(
                k,
                s[a],
            ) && !in_trim_set(k, s[b - 1])),
{
    lemma_strip_exact_start(s, k);
    let a = choose|a: int|
        0 <= a <= s.len() && strip_start(s, k) == s.subrange(a, s.len() as int) && (forall|i: int|
            0 <= i < a ==> in_trim_set(k, #[trigger] s[i])) && (a < s.len() ==> !in_trim_set(
            k,
            s[a],
        ));
    let t = strip_start(s, k);
    lemma_strip_exact_end(t, k);
    let c = choose|c: int|
        0 <= c <= t.len() && strip_end(t, k) == t.subrange(0, c) && (forall|i: int|
            c <= i < t.len() ==> in_trim_set(k, #[trigger] t[i])) && (c > 0 ==> !in_trim_set(
            k,
            t[c - 1],
        ));
    let b = a + c;
    assert(strip(s, k) =~= s.subrange(a, b));
    assert forall|i: int| b <= i < s.len() implies in_trim_set(k, #[trigger] s[i]) by {
        assert(t[i - a] == s[i]);
    }
    if a < b {
        assert(t[c - 1] == s[b - 1]);
    }
}

proof fn lemma_strip_exact_start(s: Seq<char>, k: TrimSet)
    ensures
        exists|a: int|
            0 <= a <= s.len() && strip_start(s, k) == s.subrange(a, s.len() as int) && (forall|i: int|
                0 <= i < a ==> in_trim_set(k, #[trigger] s[i])) && (a < s.len() ==> !in_trim_set(
                k,
                s[a],
            )),
    decreases s.len(),
{
    if s.len() > 0 && in_trim_set(k, s[0]) {
        let t = s.drop_first();
        lemma_strip_exact_start(t, k);
        let a = choose|a: int|
            0 <= a <= t.len() && strip_start(t, k) == t.subrange(a, t.len() as int) && (forall|
                i: int,
            | 0 <= i < a ==> in_trim_set(k, #[trigger] t[i])) && (a < t.len() ==> !in_trim_set(
                k,
                t[a],
            ));
        assert(t.subrange(a, t.len() as int) =~= s.subrange(a + 1, s.len() as int));
        assert forall|i: int| 0 <= i < a + 1 implies in_trim_set(k, #[trigger] s[i]) by {
            if i > 0 {
                assert(s[i] == t[i - 1]);
            }
        }
        if a + 1 < s.len() {
            assert(s[a + 1] == t[a]);
        }
    } else {
        assert(s.subrange(0, s.len() as int) =~= s);
    }
}

proof fn lemma_strip_exact_end(s: Seq<char>, k: TrimSet)
    ensures
        exists|c: int|
            0 <= c <= s.len() && strip_end(s, k) == s.subrange(0, c) && (forall|i: int|
                c <= i < s.len() ==> in_trim_set(k, #[trigger] s[i])) && (c > 0 ==> !in_trim_set(
                k,
                s[c - 1],
            )),
    decreases s.len(),
{
    if s.len() > 0 && in_trim_set(k, s.last()) {
        let t = s.drop_last();
        lemma_strip_exact_end(t, k);
        let c = choose|c: int|
            0 <= c <= t.len() && strip_end(t, k) == t.subrange(0, c) && (forall|i: int|
                c <= i < t.len() ==> in_trim_set(k, #[trigger] t[i])) && (c > 0 ==> !in_trim_set(
                k,
                t[c - 1],
            ));
        assert(t.subrange(0, c) =~= s.subrange(0, c));
        assert forall|i: int| c <= i < s.len() implies in_trim_set(k, #[trigger] s[i]) by {
            if i < t.len() {
                assert(s[i] == t[i]);
            }
        }
        if c > 0 {
            assert(s[c - 1] == t[c - 1]);
        }
    } else {
        assert(s.subrange(0, s.len() as int) =~= s);
    }
}

/// Replacing line endings distributes over a concatenation whose left part
/// does not end with a carriage return.
pub proof fn lemma_replace_crlf_concat(a: Seq<char>, b: Seq<char>)
    requires
        a.len() == 0 || a.last() != '\r',
    ensures
        replace_crlf(a + b) == replace_crlf(a) + replace_crlf(b),
    decreases a.len(),
{
    if a.len() == 0 {
        assert(a + b =~= b);
        assert(replace_crlf(a) + replace_crlf(b) =~= replace_crlf(b));
    } else if a.len() >= 2 && a[0] == '\r' && a[1] == '\n' {
        let a2 = a.skip(2);
        assert((a + b).skip(2) =~= a2 + b);
        if a2.len() > 0 {
            assert(a2.last() == a.last());
        }
        lemma_replace_crlf_concat(a2, b);
        assert(replace_crlf(a + b) =~= replace_crlf(a) + replace_crlf(b));
    } else {
        let a1 = a.drop_first();
        assert((a + b)[0] == a[0]);
        assert((a + b).drop_first() =~= a1 + b);
        if a.len() >= 2 {
            assert((a + b)[1] == a[1]);
        } else {
            assert(a[0] != '\r');
        }
        if a1.len() > 0 {
            assert(a1.last() == a.last());
        }
        lemma_replace_crlf_concat(a1, b);
        assert(replace_crlf(a + b) =~= replace_crlf(a) + replace_crlf(b));
    }
}

/// Every `"\r\n"` becomes `"\n"`: one that follows a text not ending in a
/// carriage return is replaced, whatever comes before and after it.
pub proof fn lemma_replace_crlf_each(a: Seq<char>, b: Seq<char>)
    requires
        a.len() == 0 || a.last() != '\r',
    ensures
        replace_crlf(a + seq!['\r', '\n'] + b) == replace_crlf(a) + seq!['\n'] + replace_crlf(b),
{
    let crlf = seq!['\r', '\n'];
    lemma_replace_crlf_concat(a, crlf + b);
    assert(a + crlf + b =~= a + (crlf + b));
    assert((crlf + b).skip(2) =~= b);
    assert((crlf + b)[0] == '\r' && (crlf + b)[1] == '\n');
    assert(replace_crlf(crlf + b) == seq!['\n'] + replace_crlf(b));
    assert(replace_crlf(a) + (seq!['\n'] + replace_crlf(b)) =~= replace_crlf(a) + seq!['\n']
        + replace_crlf(b));
}

/// A text without carriage returns is left as it is.
pub proof fn lemma_replace_crlf_without_cr(s: Seq<char>)
    requires
        forall|i: int| 0 <= i < s.len() ==> s[i] != '\r',
    ensures
        replace_crlf(s) == s,
    decreases s.len(),
{
    if s.len() > 0 {
        let t = s.drop_first();
        assert forall|i: int| 0 <= i < t.len() implies t[i] != '\r' by {
            assert(t[i] == s[i + 1]);
        }
        lemma_replace_crlf_without_cr(t);
        assert(seq![s[0]] + t =~= s);
    }
}

/// The replacement never lengthens the text and shortens it by one for each
/// pair replaced; in particular a text that has a `"\r\n"` gets shorter.
pub proof fn lemma_replace_crlf_shorter(a: Seq<char>, b: Seq<char>)
    requires
        a.len() == 0 || a.last() != '\r',
    ensures
        replace_crlf(a + seq!['\r', '\n'] + b).len() < (a + seq!['\r', '\n'] + b).len(),
{
    lemma_replace_crlf_each(a, b);
    lemma_replace_crlf_len(a);
    lemma_replace_crlf_len(b);
}

/// The replacement never lengthens a text.
pub proof fn lemma_replace_crlf_len(s: Seq<char>)
    ensures
        replace_crlf(s).len() <= s.len(),
    decreases s.len(),
{
    if s.len() >= 2 && s[0] == '\r' && s[1] == '\n' {
        lemma_replace_crlf_len(s.skip(2));
    } else if s.len() > 0 {
        lemma_replace_crlf_len(s.drop_first());
    }
}

/// Whether `c` belongs to `k`.
pub fn trim_set_contains(k: TrimSet, c: char) -> (b: bool)
    ensures
        b == in_trim_set(k, c),
{
    match k {
        TrimSet::Quote => c == '"',
        TrimSet::WhiteSpace => {
            let v = c as u32;
            (0x9 <= v && v <= 0xD) || v == 0x20 || v == 0x85 || v == 0xA0 || v == 0x1680 || (0x2000
                <= v && v <= 0x200A) || v == 0x2028 || v == 0x2029 || v == 0x202F || v == 0x205F
                || v == 0x3000
        },
    }
}

proof fn lemma_strip_start_at(s: Seq<char>, k: TrimSet, a: int)
    requires
        0 <= a <= s.len(),
        forall|i: int| 0 <= i < a ==> in_trim_set(k, #[trigger] s[i]),
        a == s.len() || !in_trim_set(k, s[a]),
    ensures
        strip_start(s, k) == s.subrange(a, s.len() as int),
    decreases a,
{
    if a == 0 {
        assert(s.subrange(0, s.len() as int) =~= s);
    } else {
        let t = s.drop_first();
        assert forall|i: int| 0 <= i < a - 1 implies in_trim_set(k, #[trigger] t[i]) by {
            assert(t[i] == s[i + 1]);
        }
        lemma_strip_start_at(t, k, a - 1);
        assert(t.subrange(a - 1, t.len() as int) =~= s.subrange(a, s.len() as int));
    }
}

proof fn lemma_strip_end_at(s: Seq<char>, k: TrimSet, b: int)
    requires
        0 <= b <= s.len(),
        forall|i: int| b <= i < s.len() ==> in_trim_set(k, #[trigger] s[i]),
        b == 0 || !in_trim_set(k, s[b - 1]),
    ensures
        strip_end(s, k) == s.subrange(0, b),
    decreases s.len() - b,
{
    if b == s.len() {
        assert(s.subrange(0, b) =~= s);
    } else {
        let t = s.drop_last();
        assert forall|i: int| b <= i < t.len() implies in_trim_set(k, #[trigger] t[i]) by {
            assert(t[i] == s[i]);
        }
        lemma_strip_end_at(t, k, b);
        assert(t.subrange(0, b) =~= s.subrange(0, b));
    }
}

/// The bounds `(a, b)` such that `v[a..b]` is `v[lo..hi]` without the
/// characters of `k` at either end.
pub fn strip_bounds(v: &Vec<char>, lo: usize, hi: usize, k: TrimSet) -> (r: (usize, usize))
    requires
        lo <= hi <= v.len(),
    ensures
        lo <= r.0 <= r.1 <= hi,
        v@.subrange(r.0 as int, r.1 as int) == strip(v@.subrange(lo as int, hi as int), k),
{
    let mut a = lo;
    while a < hi && trim_set_contains(k, v[a])
        invariant
            lo <= a <= hi <= v.len(),
            forall|i: int| lo <= i < a ==> in_trim_set(k, #[trigger] v@[i]),
        decreases hi - a,
    {
        a = a + 1;
    }
    let mut b = hi;
    while b > a && trim_set_contains(k, v[b - 1])
        invariant
            lo <= a <= b <= hi <= v.len(),
            forall|i: int| b <= i < hi ==> in_trim_set(k, #[trigger] v@[i]),
        decreases b - a,
    {
        b = b - 1;
    }
    proof {
        let s = v@.subrange(lo as int, hi as int);
        assert forall|i: int| 0 <= i < a - lo implies in_trim_set(k, #[trigger] s[i]) by {
            assert(s[i] == v@[lo + i]);
        }
        lemma_strip_start_at(s, k, a - lo);
        let u = s.subrange(a - lo, s.len() as int);
        assert(u =~= v@.subrange(a as int, hi as int));
        assert forall|i: int| b - a <= i < u.len() implies in_trim_set(k, #[trigger] u[i]) by {
            assert(u[i] == v@[a + i]);
        }
        if b > a {
            assert(u[b - a - 1] == v@[b - 1]);
        }
        lemma_strip_end_at(u, k, b - a);
        assert(u.subrange(0, b - a) =~= v@.subrange(a as int, b as int));
    }
    (a, b)
}

/// The characters of `s`, in order.
pub fn chars_of(s: &str) -> (v: Vec<char>)
    ensures
        v@ == s@,
{
    let mut v: Vec<char> = Vec::new();
    for c in it: s.chars()
        invariant
            v@ == it.seq().take(it.index()),
    {
        v.push(c);
    }
    v
}


/// `String::push` of std: appends the character `c` to the end of `s`.
#[verifier::external_body]
fn push_char(s: &mut String, c: char)
    ensures
        final(s)@ == old(s)@.push(c),
{
    s.push(c)
}

/// The string made of the characters `v[a..b]`.
pub fn string_from_chars(v: &Vec<char>, a: usize, b: usize) -> (r: String)
    requires
        a <= b <= v.len(),
    ensures
        r@ == v@.subrange(a as int, b as int),
{
    let mut r = String::new();
    let mut i = a;
    while i < b
        invariant
            a <= i <= b <= v.len(),
            r@ == v@.subrange(a as int, i as int),
        decreases b - i,
    {
        push_char(&mut r, v[i]);
        i = i + 1;
        assert(r@ =~= v@.subrange(a as int, i as int));
    }
    r
}

/// `s` without white space at either end, as `str::trim` gives it.
pub fn trim_whitespace(s: &str) -> (r: String)
    ensures
        r@ == trim_ws(s@),
{
    let v = chars_of(s);
    let (a, b) = strip_bounds(&v, 0, v.len(), TrimSet::WhiteSpace);
    assert(v@.subrange(0, v@.len() as int) =~= v@);
    string_from_chars(&v, a, b)
}

/// `s` with every `"\r\n"` replaced by `"\n"`, scanning from the left as
/// `str::replace` does.
pub open spec fn replace_crlf(s: Seq<char>) -> Seq<char>
    decreases s.len(),
{
    if s.len() == 0 {
        s
    } else if s.len() >= 2 && s[0] == '\r' && s[1] == '\n' {
        seq!['\n'] + replace_crlf(s.skip(2))
    } else {
        seq![s[0]] + replace_crlf(s.drop_first())
    }
}

/// What the selected text becomes before it is translated: line endings
/// `"\r\n"` turned into `"\n"`, then white space trimmed at both ends.
pub open spec fn clean_selection(s: Seq<char>) -> Seq<char> {
    trim_ws(replace_crlf(s))
}

/// The cleaned selection never starts or ends with white space; without
/// carriage returns it is the selection trimmed; and each `"\r\n"` in it
/// becomes `"\n"`.
pub proof fn lemma_clean_selection(s: Seq<char>, a: Seq<char>, b: Seq<char>)
    requires
        a.len() == 0 || a.last() != '\r',
    ensures
        clean_selection(s).len() > 0 ==> !is_white_space(clean_selection(s)[0])
            && !is_white_space(clean_selection(s).last()),
        (forall|i: int| 0 <= i < s.len() ==> s[i] != '\r') ==> clean_selection(s) == trim_ws(s),
        clean_selection(a + seq!['\r', '\n'] + b) == trim_ws(
            replace_crlf(a) + seq!['\n'] + replace_crlf(b),
        ),
{
    lemma_strip_shape(replace_crlf(s), TrimSet::WhiteSpace);
    if forall|i: int| 0 <= i < s.len() ==> s[i] != '\r' {
        lemma_replace_crlf_without_cr(s);
    }
    lemma_replace_crlf_each(a, b);
}

/// The characters of `v` with every `"\r\n"` replaced by `"\n"`.
fn replace_crlf_chars(v: &Vec<char>) -> (w: Vec<char>)
    ensures
        w@ == replace_crlf(v@),
{
    let n = v.len();
    let mut w: Vec<char> = Vec::new();
    let mut i: usize = 0;
    assert(v@.skip(0) =~= v@);
    assert(w@ + replace_crlf(v@) =~= replace_crlf(v@));
    while i < n
        invariant
            n == v.len(),
            i <= n,
            w@ + replace_crlf(v@.skip(i as int)) == replace_crlf(v@),
        decreases n - i,
    {
        let ghost rest = v@.skip(i as int);
        if i + 1 < n && v[i] == '\r' && v[i + 1] == '\n' {
            w.push('\n');
            assert(rest.skip(2) =~= v@.skip(i + 2));
            assert(w@ + replace_crlf(v@.skip(i + 2)) =~= replace_crlf(v@));
            i = i + 2;
        } else {
            w.push(v[i]);
            assert(rest.drop_first() =~= v@.skip(i + 1));
            assert(rest[0] == v@[i as int]);
            assert(w@ + replace_crlf(v@.skip(i + 1)) =~= replace_crlf(v@));
            i = i + 1;
        }
    }
    assert(v@.skip(n as int) =~= Seq::<char>::empty());
    assert(w@ + Seq::<char>::empty() =~= w@);
    w
}

/// The selected text as it is handed to translation: `"\r\n"` becomes
/// `"\n"`, then white space is trimmed at both ends.
pub fn clean_selected_text(s: &str) -> (r: String)
    ensures
        r@ == clean_selection(s@),
{
    let v = chars_of(s);
    let w = replace_crlf_chars(&v);
    let (a, b) = strip_bounds(&w, 0, w.len(), TrimSet::WhiteSpace);
    assert(w@.subrange(0, w@.len() as int) =~= w@);
    string_from_chars(&w, a, b)
}


/// Whether `pattern` occurs in `s` as a run of consecutive characters.
pub open spec fn contains_text(s: Seq<char>, pattern: Seq<char>) -> bool {
    exists|i: int| 0 <= i && i + pattern.len() <= s.len() && #[trigger] s.subrange(i, i + pattern.len())
        == pattern
}

/// Whether `pattern` occurs in `s`, as `str::contains` answers.
pub fn text_contains(s: &str, pattern: &str) -> (r: bool)
    ensures
        r == contains_text(s@, pattern@),
{
    let u = chars_of(s);
    let p = chars_of(pattern);
    if p.len() > u.len() {
        return false;
    }
    let last = u.len() - p.len();
    let mut i: usize = 0;
    while i <= last
        invariant
            u@ == s@,
            p@ == pattern@,
            p.len() <= u.len(),
            last == u.len() - p.len(),
            i <= last + 1,
            forall|j: int| 0 <= j < i ==> #[trigger] u@.subrange(j, j + p@.len()) != p@,
        decreases last + 1 - i,
    {
        let mut k: usize = 0;
        let mut same = true;
        while k < p.len()
            invariant
                p.len() <= u.len(),
                i <= u.len() - p.len(),
                k <= p.len(),
                same == (forall|m: int| 0 <= m < k ==> u@[i + m] == p@[m]),
            decreases p.len() - k,
        {
            if u[i + k] != p[k] {
                same = false;
            }
            k = k + 1;
        }
        if same {
            assert(u@.subrange(i as int, i + p@.len()) =~= p@);
            return true;
        }
        assert(u@.subrange(i as int, i + p@.len()) != p@) by {
            if u@.subrange(i as int, i + p@.len()) == p@ {
                assert forall|m: int| 0 <= m < p@.len() implies u@[i + m] == p@[m] by {
                    assert(u@.subrange(i as int, i + p@.len())[m] == u@[i + m]);
                }
            }
        }
        i = i + 1;
    }
    assert forall|j: int| 0 <= j && j + p@.len() <= u@.len() implies #[trigger] u@.subrange(j, j + p@.len()) != p@ by {
        assert(j < i);
    }
    false
}

/// Whether `a` and `b` hold the same characters.
pub fn text_eq(a: &str, b: &str) -> (r: bool)
    ensures
        r == (a@ == b@),
{
    let u = chars_of(a);
    let v = chars_of(b);
    if u.len() != v.len() {
        return false;
    }
    let mut i: usize = 0;
    while i < u.len()
        invariant
            u@ == a@,
            v@ == b@,
            u.len() == v.len(),
            i <= u.len(),
            forall|j: int| 0 <= j < i ==> u@[j] == v@[j],
        decreases u.len() - i,
    {
        if u[i] != v[i] {
            assert(a@[i as int] != b@[i as int]);
            return false;
        }
        i = i + 1;
    }
    assert(u@ =~= v@);
    true
}

} // verus!
