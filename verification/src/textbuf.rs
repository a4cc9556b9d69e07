//! Character-level text helpers: conversions between strings and
//! character vectors, in-line editing, ASCII case folding, trimming and
//! prefix tests.
//!
//! All operations are specified over the character sequence of the
//! string.  Case folding and whitespace trimming treat the ASCII range
//! only: queries and reference keys are ASCII in practice, and the
//! contracts state exactly what is matched.

use vstd::prelude::*;
use vstd::std_specs::iter::IteratorSpec;
use vstd::string::StringExecFns;

verus! {

broadcast use vstd::string::axiom_spec_iter, vstd::string::next_postcondition;

/// An ASCII whitespace character: space, tab, line feed or carriage
/// return.
pub open spec fn is_ws(c: char) -> bool {
    c == ' ' || c == '\t' || c == '\n' || c == '\r'
}

/// `c` with an ASCII capital letter folded to its lowercase form; every
/// other character is unchanged.
pub open spec fn fold_char(c: char) -> char {
    if 'A' <= c && c <= 'Z' {
        (((c as u8) + 32) as u8) as char
    } else {
        c
    }
}

/// `s` with every ASCII capital letter folded to lowercase.
pub open spec fn fold_seq(s: Seq<char>) -> Seq<char> {
    s.map_values(|c: char| fold_char(c))
}

/// The number of leading ASCII whitespace characters of `s`.
pub open spec fn leading_ws(s: Seq<char>) -> int
    decreases s.len(),
{
    if s.len() == 0 || !is_ws(s[0]) {
        0
    } else {
        1 + leading_ws(s.drop_first())
    }
}

/// The number of trailing ASCII whitespace characters of `s`.
pub open spec fn trailing_ws(s: Seq<char>) -> int
    decreases s.len(),
{
    if s.len() == 0 || !is_ws(s[s.len() - 1]) {
        0
    } else {
        1 + trailing_ws(s.drop_last())
    }
}

/// `s` without its leading and trailing ASCII whitespace.
pub open spec fn spec_trim(s: Seq<char>) -> Seq<char> {
    if leading_ws(s) == s.len() {
        Seq::empty()
    } else {
        s.subrange(leading_ws(s), s.len() - trailing_ws(s))
    }
}

/// `p` is a prefix of `s`.
pub open spec fn is_prefix(p: Seq<char>, s: Seq<char>) -> bool {
    p.len() <= s.len() && s.subrange(0, p.len() as int) == p
}

/// Relies on `String::push`: appends the given character to the end of
/// the string.
#[verifier::external_body]
fn push_char(s: &mut String, c: char)
    ensures
        final(s)@ == old(s)@.push(c),
{
    s.push(c);
}

/// The characters of `s`, in order.
pub fn chars_vec(s: &str) -> (r: Vec<char>)
    ensures
        r@ == s@,
{
    let mut it = s.chars();
    let ghost full = s@;
    let mut r: Vec<char> = Vec::new();
    loop
        invariant
            it.obeys_prophetic_iter_laws(),
            it.remaining() == full.skip(r@.len() as int),
            r@.len() <= full.len(),
            r@ == full.take(r@.len() as int),
        ensures
            r@ == full,
        decreases full.len() - r@.len(),
    {
        match it.next() {
            Some(c) => {
                proof {
                    assert(full.skip(r@.len() as int)[0] == full[r@.len() as int]);
                    assert(full.take(r@.len() as int).push(full[r@.len() as int])
                        =~= full.take(r@.len() as int + 1));
                    assert(full.skip(r@.len() as int).drop_first()
                        =~= full.skip(r@.len() as int + 1));
                }
                r.push(c);
            },
            None => {
                proof {
                    assert(full.skip(r@.len() as int).len() == 0);
                    assert(r@ =~= full);
                }
                break;
            },
        }
    }
    r
}

/// A string holding exactly the characters of `v`.
pub fn string_from_chars(v: &Vec<char>) -> (r: String)
    ensures
        r@ == v@,
{
    let mut r = String::new();
    let mut i: usize = 0;
    while i < v.len()
        invariant
            i <= v@.len(),
            r@ == v@.take(i as int),
        decreases v@.len() - i,
    {
        push_char(&mut r, v[i]);
        proof {
            assert(v@.take(i as int).push(v@[i as int]) =~= v@.take(i + 1));
        }
        i = i + 1;
    }
    proof {
        assert(r@ =~= v@);
    }
    r
}

/// The number of characters of `s`.
pub fn char_len(s: &str) -> (r: usize)
    ensures
        r == s@.len(),
{
    chars_vec(s).len()
}

/// `s` with `c` inserted before character position `i`.
pub fn insert_char(s: &String, i: usize, c: char) -> (r: String)
    requires
        i <= s@.len(),
    ensures
        r@ == s@.insert(i as int, c),
{
    let mut cs = chars_vec(s.as_str());
    cs.insert(i, c);
    string_from_chars(&cs)
}

/// `s` without the character at position `i`.
pub fn remove_char(s: &String, i: usize) -> (r: String)
    requires
        i < s@.len(),
    ensures
        r@ == s@.remove(i as int),
{
    let mut cs = chars_vec(s.as_str());
    cs.remove(i);
    string_from_chars(&cs)
}

/// `s` split at character position `i`: the first `i` characters, and
/// the rest.
pub fn split_chars(s: &String, i: usize) -> (r: (String, String))
    requires
        i <= s@.len(),
    ensures
        r.0@ == s@.take(i as int),
        r.1@ == s@.skip(i as int),
{
    let cs = chars_vec(s.as_str());
    let mut head: Vec<char> = Vec::new();
    let mut j: usize = 0;
    while j < i
        invariant
            j <= i <= cs@.len(),
            cs@ == s@,
            head@ == s@.take(j as int),
        decreases i - j,
    {
        head.push(cs[j]);
        proof {
            assert(s@.take(j as int).push(s@[j as int]) =~= s@.take(j + 1));
        }
        j = j + 1;
    }
    let mut tail: Vec<char> = Vec::new();
    let mut k: usize = i;
    while k < cs.len()
        invariant
            i <= k <= cs@.len(),
            cs@ == s@,
            tail@ == s@.subrange(i as int, k as int),
        decreases cs@.len() - k,
    {
        tail.push(cs[k]);
        proof {
            assert(s@.subrange(i as int, k as int).push(s@[k as int])
                =~= s@.subrange(i as int, k + 1));
        }
        k = k + 1;
    }
    proof {
        assert(tail@ =~= s@.skip(i as int));
    }
    (string_from_chars(&head), string_from_chars(&tail))
}

/// The characters of `s` from position `i` on, as a string.
pub fn suffix_from(s: &String, i: usize) -> (r: String)
    requires
        i <= s@.len(),
    ensures
        r@ == s@.skip(i as int),
{
    let (_, tail) = split_chars(s, i);
    tail
}

/// Whether `c` is ASCII whitespace.
pub fn ws_char(c: char) -> (r: bool)
    ensures
        r == is_ws(c),
{
    c == ' ' || c == '\t' || c == '\n' || c == '\r'
}

/// `c` folded to ASCII lowercase.
pub fn fold_char_exec(c: char) -> (r: char)
    ensures
        r == fold_char(c),
{
    if c >= 'A' && c <= 'Z' {
        ((c as u8) + 32) as char
    } else {
        c
    }
}

/// `s` with every ASCII capital letter folded to lowercase.
pub fn fold_string(s: &String) -> (r: String)
    ensures
        r@ == fold_seq(s@),
{
    let cs = chars_vec(s.as_str());
    let mut out: Vec<char> = Vec::new();
    let mut i: usize = 0;
    while i < cs.len()
        invariant
            i <= cs@.len(),
            cs@ == s@,
            out@ == fold_seq(s@).take(i as int),
        decreases cs@.len() - i,
    {
        out.push(fold_char_exec(cs[i]));
        proof {
            assert(fold_seq(s@)[i as int] == fold_char(s@[i as int]));
            assert(fold_seq(s@).take(i as int).push(fold_seq(s@)[i as int])
                =~= fold_seq(s@).take(i + 1));
        }
        i = i + 1;
    }
    proof {
        assert(out@ =~= fold_seq(s@));
    }
    string_from_chars(&out)
}

/// The count of leading whitespace equals the first non-whitespace
/// position.
proof fn lemma_leading_ws(s: Seq<char>, i: int)
    requires
        0 <= i <= s.len(),
        forall|k: int| 0 <= k < i ==> is_ws(s[k]),
        i == s.len() || !is_ws(s[i]),
    ensures
        leading_ws(s) == i,
    decreases s.len(),
{
    if s.len() == 0 {
    } else if i == 0 {
    } else {
        assert(is_ws(s[0]));
        lemma_leading_ws(s.drop_first(), i - 1);
    }
}

/// The count of trailing whitespace equals the distance from the last
/// non-whitespace position to the end.
proof fn lemma_trailing_ws(s: Seq<char>, j: int)
    requires
        0 <= j <= s.len(),
        forall|k: int| j <= k < s.len() ==> is_ws(s[k]),
        j == 0 || !is_ws(s[j - 1]),
    ensures
        trailing_ws(s) == s.len() - j,
    decreases s.len(),
{
    if s.len() == 0 {
    } else if j == s.len() {
    } else {
        assert(is_ws(s[s.len() - 1]));
        assert(forall|k: int| j <= k < s.drop_last().len() ==> is_ws(s.drop_last()[k]));
        lemma_trailing_ws(s.drop_last(), j);
    }
}

/// `s` without its leading and trailing ASCII whitespace.
pub fn trim_string(s: &String) -> (r: String)
    ensures
        r@ == spec_trim(s@),
{
    let cs = chars_vec(s.as_str());
    let n = cs.len();
    let mut lo: usize = 0;
    while lo < n && ws_char(cs[lo])
        invariant
            lo <= n,
            n == s@.len(),
            cs@ == s@,
            forall|k: int| 0 <= k < lo ==> is_ws(s@[k]),
        decreases n - lo,
    {
        lo = lo + 1;
    }
    proof {
        lemma_leading_ws(s@, lo as int);
    }
    if lo == n {
        return String::new();
    }
    let mut hi: usize = n;
    while hi > lo && ws_char(cs[hi - 1])
        invariant
            lo <= hi <= n,
            n == s@.len(),
            cs@ == s@,
            forall|k: int| hi <= k < n ==> is_ws(s@[k]),
            !is_ws(s@[lo as int]),
        decreases hi,
    {
        hi = hi - 1;
    }
    proof {
        assert(hi > lo);
        assert(!is_ws(s@[hi - 1]));
        lemma_trailing_ws(s@, hi as int);
    }
    let mut out: Vec<char> = Vec::new();
    let mut i: usize = lo;
    while i < hi
        invariant
            lo <= i <= hi <= n,
            n == s@.len(),
            cs@ == s@,
            out@ == s@.subrange(lo as int, i as int),
        decreases hi - i,
    {
        out.push(cs[i]);
        proof {
            assert(s@.subrange(lo as int, i as int).push(s@[i as int])
                =~= s@.subrange(lo as int, i + 1));
        }
        i = i + 1;
    }
    proof {
        assert(out@ =~= spec_trim(s@));
    }
    string_from_chars(&out)
}

/// Whether `p` is a prefix of `s`, character by character.
pub fn starts_with_chars(s: &String, p: &String) -> (r: bool)
    ensures
        r == is_prefix(p@, s@),
{
    let ps = chars_vec(p.as_str());
    let ss = chars_vec(s.as_str());
    if ps.len() > ss.len() {
        proof {
            assert(!is_prefix(p@, s@));
        }
        return false;
    }
    let mut i: usize = 0;
    while i < ps.len()
        invariant
            i <= ps@.len() <= ss@.len(),
            ps@ == p@,
            ss@ == s@,
            forall|k: int| 0 <= k < i ==> p@[k] == s@[k],
        decreases ps@.len() - i,
    {
        if ps[i] != ss[i] {
            proof {
                assert(s@.subrange(0, p@.len() as int)[i as int] != p@[i as int]);
            }
            return false;
        }
        i = i + 1;
    }
    proof {
        assert(s@.subrange(0, p@.len() as int) =~= p@);
    }
    true
}

/// `base` with the characters of `suffix` appended.
pub fn concat_string(base: &String, suffix: &String) -> (r: String)
    ensures
        r@ == base@ + suffix@,
{
    let mut r = base.clone();
    r.append(suffix.as_str());
    r
}

} // verus!
