//! Small string helpers over the character view of `str` and `String`.
use vstd::prelude::*;
use vstd::utf8::*;
use vstd::string::StringSliceAdditionalSpecFns;
use vstd::slice::slice_subrange;
use crate::seq_search::{first_match, lemma_first_match, lemma_first_match_at, lemma_first_match_none};

verus! {

/// Whether two string slices hold the same characters.
pub fn str_eq(a: &str, b: &str) -> (r: bool)
    ensures
        r == (a@ == b@),
{
    let ac = str_chars(a);
    let bc = str_chars(b);
    if ac.len() != bc.len() {
        return false;
    }
    let mut i: usize = 0;
    while i < ac.len()
        invariant
            ac@ == a@,
            bc@ == b@,
            ac@.len() == bc@.len(),
            i <= ac@.len(),
            forall|j: int| 0 <= j < i ==> ac@[j] == bc@[j],
        decreases ac@.len() - i,
    {
        if ac[i] != bc[i] {
            return false;
        }
        i = i + 1;
    }
    assert(ac@ =~= bc@);
    true
}

/// Appends one character; calls std's `String::push`, which adds `c` at the end.
#[verifier::external_body]
pub fn push_char(s: &mut String, c: char)
    ensures
        final(s)@ == old(s)@.push(c),
{
    s.push(c)
}

/// The characters of `s`, in order.
pub fn str_chars(s: &str) -> (r: Vec<char>)
    ensures
        r@ == s@,
{
    let mut r: Vec<char> = Vec::new();
    for c in it: s.chars()
        invariant
            r@ == it.seq().take(it.index() as int),
    {
        r.push(c);
    }
    r
}

} // verus!

verus! {

/// The characters whose UTF-8 encoding is the first `n` bytes of that of `s`
/// (all of `s` where it is shorter).
pub open spec fn byte_prefix(s: Seq<char>, n: nat) -> Seq<char> {
    decode_utf8(encode_utf8(s).take(min_nat(n, byte_len(s)) as int))
}

/// The UTF-8 length of `s` as `str::len` reports it.
pub open spec fn byte_len(s: Seq<char>) -> nat {
    (encode_utf8(s).len() as usize) as nat
}

/// Whether cutting the UTF-8 encoding of `s` after `n` bytes (or at its end, where it
/// is shorter) falls on a character boundary.
pub open spec fn byte_prefix_ok(s: Seq<char>, n: nat) -> bool {
    is_char_boundary(encode_utf8(s), min_nat(n, byte_len(s)) as int)
}

/// The smaller of two naturals.
pub open spec fn min_nat(a: nat, b: nat) -> nat {
    if a <= b { a } else { b }
}

/// The first `n` bytes of `s` as a string (all of `s` where it is shorter), as
/// `&s[..n.min(s.len())]` gives them.
pub fn utf8_prefix(s: &str, n: usize) -> (r: String)
    requires
        byte_prefix_ok(s@, n as nat),
    ensures
        r@ == byte_prefix(s@, n as nat),
{
    broadcast use vstd::utf8::encode_utf8_decode_utf8;
    let len = s.len();
    let k: usize = if n <= len { n } else { len };
    let (a, _b) = s.split_at(k);
    assert(a.spec_bytes() =~= encode_utf8(s@).take(k as int));
    a.to_owned()
}

/// The concatenation of two strings.
pub fn concat(a: &str, b: &str) -> (r: String)
    ensures
        r@ == a@ + b@,
{
    let mut r = a.to_owned();
    r.append(b);
    r
}

/// A string holding the given characters.
pub fn string_from_chars(cs: &[char]) -> (r: String)
    ensures
        r@ == cs@,
{
    let mut r = String::new();
    let mut i: usize = 0;
    while i < cs.len()
        invariant
            i <= cs@.len(),
            r@ == cs@.subrange(0, i as int),
        decreases cs@.len() - i,
    {
        push_char(&mut r, cs[i]);
        i = i + 1;
        assert(r@ =~= cs@.subrange(0, i as int));
    }
    assert(cs@.subrange(0, cs@.len() as int) =~= cs@);
    r
}

} // verus!

verus! {

/// Whether `c` has the Unicode `White_Space` property, which `char::is_whitespace`
/// tests and `str::trim` removes.
pub open spec fn is_white_space(c: char) -> bool {
    ||| ('\u{9}' <= c && c <= '\u{d}')
    ||| c == ' '
    ||| c == '\u{85}'
    ||| c == '\u{a0}'
    ||| c == '\u{1680}'
    ||| ('\u{2000}' <= c && c <= '\u{200a}')
    ||| c == '\u{2028}'
    ||| c == '\u{2029}'
    ||| c == '\u{202f}'
    ||| c == '\u{205f}'
    ||| c == '\u{3000}'
}

/// Whether `c` is white space.
pub fn is_white_space_char(c: char) -> (r: bool)
    ensures
        r == is_white_space(c),
{
    ('\u{9}' <= c && c <= '\u{d}') || c == ' ' || c == '\u{85}' || c == '\u{a0}' || c == '\u{1680}'
        || ('\u{2000}' <= c && c <= '\u{200a}') || c == '\u{2028}' || c == '\u{2029}' || c
        == '\u{202f}' || c == '\u{205f}' || c == '\u{3000}'
}

/// `s` without its leading white space.
pub open spec fn trim_start_spec(s: Seq<char>) -> Seq<char>
    decreases s.len(),
{
    if s.len() > 0 && is_white_space(s[0]) {
        trim_start_spec(s.drop_first())
    } else {
        s
    }
}

/// `s` without its trailing white space.
pub open spec fn trim_end_spec(s: Seq<char>) -> Seq<char>
    decreases s.len(),
{
    if s.len() > 0 && is_white_space(s.last()) {
        trim_end_spec(s.drop_last())
    } else {
        s
    }
}

/// `s` without leading and trailing white space, as `str::trim` gives it.
pub open spec fn trim_spec(s: Seq<char>) -> Seq<char> {
    trim_end_spec(trim_start_spec(s))
}

/// `s` without leading and trailing white space.
pub fn trim(s: &str) -> (r: String)
    ensures
        r@ == trim_spec(s@),
{
    let cs = str_chars(s);
    let n = cs.len();
    let mut i: usize = 0;
    assert(s@.subrange(0, n as int) =~= s@);
    while i < n && is_white_space_char(cs[i])
        invariant
            cs@ == s@,
            n == cs@.len(),
            i <= n,
            trim_start_spec(s@) == trim_start_spec(s@.subrange(i as int, n as int)),
        decreases n - i,
    {
        assert(s@.subrange(i as int, n as int).drop_first() =~= s@.subrange(i + 1, n as int));
        i = i + 1;
    }
    let mut j: usize = n;
    while j > i && is_white_space_char(cs[j - 1])
        invariant
            cs@ == s@,
            n == cs@.len(),
            i <= j <= n,
            trim_start_spec(s@) == s@.subrange(i as int, n as int),
            trim_spec(s@) == trim_end_spec(s@.subrange(i as int, j as int)),
        decreases j - i,
    {
        assert(s@.subrange(i as int, j as int).drop_last() =~= s@.subrange(i as int, j - 1));
        j = j - 1;
    }
    let mut out: Vec<char> = Vec::new();
    let mut k: usize = i;
    while k < j
        invariant
            cs@ == s@,
            i <= k <= j <= n,
            n == cs@.len(),
            out@ == s@.subrange(i as int, k as int),
        decreases j - k,
    {
        out.push(cs[k]);
        k = k + 1;
        assert(out@ =~= s@.subrange(i as int, k as int));
    }
    string_from_chars(out.as_slice())
}

} // verus!

verus! {

/// Whether `p` is a prefix of `s`.
pub open spec fn is_prefix(p: Seq<char>, s: Seq<char>) -> bool {
    p.len() <= s.len() && s.take(p.len() as int) == p
}

/// `s` without the prefix `p`, where `s` starts with `p`, as `str::strip_prefix` gives it.
pub fn strip_prefix(s: &str, p: &str) -> (r: Option<String>)
    ensures
        r is Some <==> is_prefix(p@, s@),
        r matches Some(t) ==> t@ == s@.skip(p@.len() as int),
{
    let sc = str_chars(s);
    let pc = str_chars(p);
    if pc.len() > sc.len() {
        return None;
    }
    let mut i: usize = 0;
    while i < pc.len()
        invariant
            sc@ == s@,
            pc@ == p@,
            pc@.len() <= sc@.len(),
            i <= pc@.len(),
            forall|j: int| 0 <= j < i ==> sc@[j] == pc@[j],
        decreases pc@.len() - i,
    {
        if sc[i] != pc[i] {
            assert(s@.take(p@.len() as int)[i as int] != p@[i as int]);
            return None;
        }
        i = i + 1;
    }
    assert(s@.take(p@.len() as int) =~= p@);
    let mut rest: Vec<char> = Vec::new();
    let mut k: usize = pc.len();
    while k < sc.len()
        invariant
            sc@ == s@,
            pc@ == p@,
            pc@.len() <= k <= sc@.len(),
            rest@ == s@.subrange(p@.len() as int, k as int),
        decreases sc@.len() - k,
    {
        rest.push(sc[k]);
        k = k + 1;
        assert(rest@ =~= s@.subrange(p@.len() as int, k as int));
    }
    assert(rest@ =~= s@.skip(p@.len() as int));
    Some(string_from_chars(rest.as_slice()))
}

} // verus!

verus! {

/// Whether `p` occurs in `s` starting at position `i`.
pub open spec fn occurs_at(s: Seq<char>, p: Seq<char>, i: int) -> bool {
    0 <= i && i + p.len() <= s.len() && s.subrange(i, i + p.len()) == p
}

/// Whether `p` occurs in `s`, as `str::contains` with a string pattern tests it.
pub open spec fn has_infix(s: Seq<char>, p: Seq<char>) -> bool {
    exists|i: int| #[trigger] occurs_at(s, p, i)
}

/// Whether `p` occurs in `cs` starting at position `i`.
fn chars_match_at(cs: &Vec<char>, pc: &Vec<char>, i: usize) -> (r: bool)
    requires
        i + pc@.len() <= cs@.len(),
    ensures
        r == occurs_at(cs@, pc@, i as int),
{
    let n = cs.len();
    let mut k: usize = 0;
    while k < pc.len()
        invariant
            n == cs@.len(),
            i + pc@.len() <= cs@.len(),
            k <= pc@.len(),
            forall|j: int| 0 <= j < k ==> cs@[i + j] == pc@[j],
        decreases pc@.len() - k,
    {
        if cs[i + k] != pc[k] {
            assert(cs@.subrange(i as int, i + pc@.len())[k as int] != pc@[k as int]);
            return false;
        }
        k = k + 1;
    }
    assert(cs@.subrange(i as int, i + pc@.len()) =~= pc@);
    true
}

/// Whether `p` occurs in `s`.
pub fn str_contains(s: &str, p: &str) -> (r: bool)
    ensures
        r == has_infix(s@, p@),
{
    let cs = str_chars(s);
    let pc = str_chars(p);
    if pc.len() == 0 {
        assert(occurs_at(s@, p@, 0)) by {
            assert(s@.subrange(0, 0) =~= p@);
        }
        return true;
    }
    if pc.len() > cs.len() {
        assert forall|i: int| !#[trigger] occurs_at(s@, p@, i) by {}
        return false;
    }
    let last: usize = cs.len() - pc.len();
    let mut i: usize = 0;
    while i <= last
        invariant
            cs@ == s@,
            pc@ == p@,
            last + pc@.len() == cs@.len(),
            pc@.len() >= 1,
            cs@.len() == cs.len(),
            forall|j: int| 0 <= j < i ==> !#[trigger] occurs_at(s@, p@, j),
        decreases last + 1 - i,
    {
        if chars_match_at(&cs, &pc, i) {
            return true;
        }
        i = i + 1;
    }
    assert forall|j: int| !#[trigger] occurs_at(s@, p@, j) by {
        if 0 <= j < i {
        }
    }
    false
}

} // verus!

verus! {

/// The predicate "is the character `c`".
pub open spec fn is_char(c: char) -> spec_fn(char) -> bool {
    |x: char| x == c
}

/// The pieces of `s` between occurrences of `c`, as `str::split` with a character gives
/// them: one more piece than there are occurrences.
pub open spec fn split_char(s: Seq<char>, c: char) -> Seq<Seq<char>>
    decreases s.len(),
{
    match first_match(s, is_char(c)) {
        None => seq![s],
        Some(i) => {
            proof {
                lemma_first_match(s, is_char(c));
            }
            seq![s.take(i)] + split_char(s.skip(i + 1), c)
        },
    }
}

/// The views of a list of strings.
pub open spec fn views(v: Seq<String>) -> Seq<Seq<char>> {
    v.map_values(|x: String| x@)
}

/// Unfolds `split_char` where the first occurrence of `c` at or after `lo` is at `i`.
proof fn lemma_split_step(s: Seq<char>, c: char, lo: int, i: int)
    requires
        0 <= lo <= i < s.len(),
        s[i] == c,
        forall|j: int| lo <= j < i ==> s[j] != c,
    ensures
        split_char(s.skip(lo), c) == seq![s.subrange(lo, i)] + split_char(s.skip(i + 1), c),
{
    let t = s.skip(lo);
    assert forall|j: int| 0 <= j < i - lo implies !is_char(c)(#[trigger] t[j]) by {
        assert(t[j] == s[lo + j]);
    }
    assert(t[i - lo] == s[i]);
    lemma_first_match_at(t, is_char(c), i - lo);
    assert(t.take(i - lo) =~= s.subrange(lo, i));
    assert(t.skip(i - lo + 1) =~= s.skip(i + 1));
}

/// Unfolds `split_char` where `c` does not occur at or after `lo`.
proof fn lemma_split_last(s: Seq<char>, c: char, lo: int)
    requires
        0 <= lo <= s.len(),
        forall|j: int| lo <= j < s.len() ==> s[j] != c,
    ensures
        split_char(s.skip(lo), c) == seq![s.skip(lo)],
{
    let t = s.skip(lo);
    assert forall|j: int| 0 <= j < t.len() implies !is_char(c)(#[trigger] t[j]) by {
        assert(t[j] == s[lo + j]);
    }
    lemma_first_match_none(t, is_char(c));
}

/// The pieces of `s` between occurrences of `c`.
pub fn split_on(s: &str, c: char) -> (r: Vec<String>)
    ensures
        views(r@) == split_char(s@, c),
        r@.len() >= 1,
{
    let cs = str_chars(s);
    let n = cs.len();
    let mut out: Vec<String> = Vec::new();
    let mut lo: usize = 0;
    let mut i: usize = 0;
    assert(s@.skip(0) =~= s@);
    while i < n
        invariant
            cs@ == s@,
            n == cs@.len(),
            lo <= i <= n,
            forall|j: int| lo <= j < i ==> s@[j] != c,
            split_char(s@, c) == views(out@) + split_char(s@.skip(lo as int), c),
        decreases n - i,
    {
        if cs[i] == c {
            proof {
                lemma_split_step(s@, c, lo as int, i as int);
            }
            let piece = string_from_chars(slice_subrange(cs.as_slice(), lo, i));
            let ghost before = out@;
            out.push(piece);
            proof {
                assert(views(out@) =~= views(before).push(s@.subrange(lo as int, i as int)));
                assert(split_char(s@, c) =~= views(out@) + split_char(s@.skip(i + 1), c));
            }
            lo = i + 1;
        }
        i = i + 1;
    }
    proof {
        lemma_split_last(s@, c, lo as int);
    }
    let piece = string_from_chars(slice_subrange(cs.as_slice(), lo, n));
    let ghost before = out@;
    out.push(piece);
    proof {
        assert(s@.subrange(lo as int, n as int) =~= s@.skip(lo as int));
        assert(views(out@) =~= views(before).push(s@.skip(lo as int)));
        assert(split_char(s@, c) =~= views(out@));
        assert(views(out@).len() == out@.len());
    }
    out
}

} // verus!

verus! {

/// `s` without the copies of `c` at its start.
pub open spec fn trim_start_char(s: Seq<char>, c: char) -> Seq<char>
    decreases s.len(),
{
    if s.len() > 0 && s[0] == c {
        trim_start_char(s.drop_first(), c)
    } else {
        s
    }
}

/// `s` without the copies of `c` at its end, as `str::trim_end_matches` with a
/// character gives it.
pub open spec fn trim_end_char(s: Seq<char>, c: char) -> Seq<char>
    decreases s.len(),
{
    if s.len() > 0 && s.last() == c {
        trim_end_char(s.drop_last(), c)
    } else {
        s
    }
}

/// `s` without the copies of `c` at either end, as `str::trim_matches` with a character
/// gives it.
pub open spec fn trim_char(s: Seq<char>, c: char) -> Seq<char> {
    trim_end_char(trim_start_char(s, c), c)
}

/// `s` without the copies of `c` at its end.
pub fn trim_end_matches_char(s: &str, c: char) -> (r: String)
    ensures
        r@ == trim_end_char(s@, c),
{
    let cs = str_chars(s);
    let mut j: usize = cs.len();
    assert(s@.subrange(0, j as int) =~= s@);
    while j > 0 && cs[j - 1] == c
        invariant
            cs@ == s@,
            j <= cs@.len(),
            trim_end_char(s@, c) == trim_end_char(s@.subrange(0, j as int), c),
        decreases j,
    {
        assert(s@.subrange(0, j as int).drop_last() =~= s@.subrange(0, j - 1));
        j = j - 1;
    }
    string_from_chars(slice_subrange(cs.as_slice(), 0, j))
}

/// `s` without the copies of `c` at either end.
pub fn trim_matches_char(s: &str, c: char) -> (r: String)
    ensures
        r@ == trim_char(s@, c),
{
    let cs = str_chars(s);
    let n = cs.len();
    let mut i: usize = 0;
    assert(s@.subrange(0, n as int) =~= s@);
    while i < n && cs[i] == c
        invariant
            cs@ == s@,
            n == cs@.len(),
            i <= n,
            trim_start_char(s@, c) == trim_start_char(s@.subrange(i as int, n as int), c),
        decreases n - i,
    {
        assert(s@.subrange(i as int, n as int).drop_first() =~= s@.subrange(i + 1, n as int));
        i = i + 1;
    }
    let rest = string_from_chars(slice_subrange(cs.as_slice(), i, n));
    trim_end_matches_char(rest.as_str(), c)
}

/// The text up to the first white space of `t`.
pub open spec fn up_to_white_space(t: Seq<char>) -> Seq<char>
    decreases t.len(),
{
    if t.len() == 0 || is_white_space(t[0]) {
        Seq::<char>::empty()
    } else {
        seq![t[0]] + up_to_white_space(t.drop_first())
    }
}

/// The first word of `s` (empty where it has none), as `split_whitespace().next()` gives
/// it.
pub open spec fn first_word(s: Seq<char>) -> Seq<char> {
    up_to_white_space(trim_start_spec(s))
}

/// The first word of `s`.
pub fn first_word_of(s: &str) -> (r: String)
    ensures
        r@ == first_word(s@),
{
    let cs = str_chars(s);
    let n = cs.len();
    let mut i: usize = 0;
    assert(s@.subrange(0, n as int) =~= s@);
    while i < n && is_white_space_char(cs[i])
        invariant
            cs@ == s@,
            n == cs@.len(),
            i <= n,
            trim_start_spec(s@) == trim_start_spec(s@.subrange(i as int, n as int)),
        decreases n - i,
    {
        assert(s@.subrange(i as int, n as int).drop_first() =~= s@.subrange(i + 1, n as int));
        i = i + 1;
    }
    let start = i;
    assert(trim_start_spec(s@) == s@.subrange(start as int, n as int));
    let mut j: usize = i;
    while j < n && !is_white_space_char(cs[j])
        invariant
            cs@ == s@,
            n == cs@.len(),
            start <= j <= n,
            first_word(s@) == s@.subrange(start as int, j as int) + up_to_white_space(
                s@.subrange(j as int, n as int),
            ),
        decreases n - j,
    {
        assert(s@.subrange(j as int, n as int).drop_first() =~= s@.subrange(j + 1, n as int));
        assert(s@.subrange(start as int, j + 1) =~= s@.subrange(start as int, j as int) + seq![s@[j as int]]);
        j = j + 1;
    }
    assert(up_to_white_space(s@.subrange(j as int, n as int)) =~= Seq::<char>::empty());
    assert(first_word(s@) =~= s@.subrange(start as int, j as int));
    string_from_chars(slice_subrange(cs.as_slice(), start, j))
}

} // verus!
