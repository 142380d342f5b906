//! Small verified string utilities shared by the tokenizer, path resolution
//! and the engine.  Everything here works character-wise over the `Seq<char>`
//! view of `str` and `String`.

use vstd::prelude::*;
use vstd::string::StrSliceExecFns;

verus! {

/// Unicode `White_Space` characters: the set `char::is_whitespace` accepts.
pub open spec fn is_space(c: char) -> bool {
    ||| c == ' '
    ||| c == '\t'
    ||| c == '\n'
    ||| c == '\u{b}'
    ||| c == '\u{c}'
    ||| c == '\r'
    ||| c == '\u{85}'
    ||| c == '\u{a0}'
    ||| c == '\u{1680}'
    ||| c == '\u{2000}'
    ||| c == '\u{2001}'
    ||| c == '\u{2002}'
    ||| c == '\u{2003}'
    ||| c == '\u{2004}'
    ||| c == '\u{2005}'
    ||| c == '\u{2006}'
    ||| c == '\u{2007}'
    ||| c == '\u{2008}'
    ||| c == '\u{2009}'
    ||| c == '\u{200a}'
    ||| c == '\u{2028}'
    ||| c == '\u{2029}'
    ||| c == '\u{202f}'
    ||| c == '\u{205f}'
    ||| c == '\u{3000}'
}

/// Whether `c` is whitespace, by the Unicode `White_Space` table.
pub fn is_space_char(c: char) -> (r: bool)
    ensures
        r == is_space(c),
{
    match c {
        ' ' | '\t' | '\n' | '\u{b}' | '\u{c}' | '\r' | '\u{85}' | '\u{a0}' | '\u{1680}'
            | '\u{2000}' | '\u{2001}' | '\u{2002}' | '\u{2003}' | '\u{2004}' | '\u{2005}'
            | '\u{2006}' | '\u{2007}' | '\u{2008}' | '\u{2009}' | '\u{200a}' | '\u{2028}'
            | '\u{2029}' | '\u{202f}' | '\u{205f}' | '\u{3000}' => true,
        _ => false,
    }
}

/// Character-wise equality of two string slices.
pub fn str_eq(a: &str, b: &str) -> (r: bool)
    ensures
        r == (a@ == b@),
{
    let alen = a.unicode_len();
    let blen = b.unicode_len();
    if alen != blen {
        return false;
    }
    let mut i: usize = 0;
    while i < alen
        invariant
            i <= alen,
            alen == a@.len(),
            blen == b@.len(),
            alen == blen,
            forall|j: int| 0 <= j < i ==> a@[j] == b@[j],
        decreases alen - i,
    {
        if a.get_char(i) != b.get_char(i) {
            return false;
        }
        i += 1;
    }
    proof {
        assert(a@ =~= b@);
    }
    true
}

/// Relies on std's `String::push`: appends exactly one character.
#[verifier::external_body]
pub fn push_char(s: &mut String, c: char)
    ensures
        final(s)@ == old(s)@.push(c),
{
    s.push(c);
}

pub open spec fn spec_starts_with(s: Seq<char>, p: Seq<char>) -> bool {
    s.len() >= p.len() && s.take(p.len() as int) == p
}

pub open spec fn spec_ends_with(s: Seq<char>, p: Seq<char>) -> bool {
    s.len() >= p.len() && s.skip(s.len() - p.len()) == p
}

/// Whether `s` begins with the characters of `p`.
pub fn starts_with_str(s: &str, p: &str) -> (r: bool)
    ensures
        r == spec_starts_with(s@, p@),
{
    let slen = s.unicode_len();
    let plen = p.unicode_len();
    if slen < plen {
        return false;
    }
    let mut i: usize = 0;
    while i < plen
        invariant
            i <= plen,
            slen == s@.len(),
            plen == p@.len(),
            slen >= plen,
            forall|j: int| 0 <= j < i ==> s@[j] == p@[j],
        decreases plen - i,
    {
        if s.get_char(i) != p.get_char(i) {
            proof {
                assert(s@.take(plen as int)[i as int] != p@[i as int]);
            }
            return false;
        }
        i += 1;
    }
    proof {
        assert(s@.take(plen as int) =~= p@);
    }
    true
}

/// Whether `s` ends with the characters of `p`.
pub fn ends_with_str(s: &str, p: &str) -> (r: bool)
    ensures
        r == spec_ends_with(s@, p@),
{
    let slen = s.unicode_len();
    let plen = p.unicode_len();
    if slen < plen {
        return false;
    }
    let off = slen - plen;
    let mut i: usize = 0;
    while i < plen
        invariant
            i <= plen,
            slen == s@.len(),
            plen == p@.len(),
            slen >= plen,
            off == slen - plen,
            forall|j: int| 0 <= j < i ==> s@[off + j] == p@[j],
        decreases plen - i,
    {
        if s.get_char(off + i) != p.get_char(i) {
            proof {
                assert(s@.skip(off as int)[i as int] != p@[i as int]);
            }
            return false;
        }
        i += 1;
    }
    proof {
        assert(s@.skip(off as int) =~= p@);
    }
    true
}

/// Index of the first occurrence of `needle` in `hay`, if any.
pub open spec fn spec_find(hay: Seq<char>, needle: Seq<char>) -> Option<int>
    decreases hay.len(),
{
    if needle.len() == 0 {
        Some(0)
    } else if hay.len() < needle.len() {
        None
    } else if hay.take(needle.len() as int) == needle {
        Some(0)
    } else {
        match spec_find(hay.skip(1), needle) {
            None => None,
            Some(i) => Some(i + 1),
        }
    }
}

/// Whether `needle` occurs in `hay` as a contiguous substring.
pub open spec fn spec_contains_str(hay: Seq<char>, needle: Seq<char>) -> bool {
    spec_find(hay, needle) is Some
}

pub proof fn lemma_spec_find_bounds(hay: Seq<char>, needle: Seq<char>)
    ensures
        spec_find(hay, needle) matches Some(i) ==> 0 <= i && i + needle.len() <= hay.len()
            && hay.subrange(i, i + needle.len() as int) == needle,
    decreases hay.len(),
{
    if needle.len() == 0 {
        assert(hay.subrange(0, 0) =~= needle);
    } else if hay.len() < needle.len() {
    } else if hay.take(needle.len() as int) == needle {
        assert(hay.subrange(0, needle.len() as int) =~= hay.take(needle.len() as int));
    } else {
        lemma_spec_find_bounds(hay.skip(1), needle);
        if let Some(i) = spec_find(hay.skip(1), needle) {
            assert(hay.subrange(i + 1, i + 1 + needle.len() as int) =~= hay.skip(1).subrange(
                i,
                i + needle.len() as int,
            ));
        }
    }
}

/// Index of the first occurrence of `needle` in `hay`, if any.
pub fn find_str(hay: &str, needle: &str) -> (r: Option<usize>)
    ensures
        match r {
            Some(i) => spec_find(hay@, needle@) == Some(i as int),
            None => spec_find(hay@, needle@) is None,
        },
    decreases hay@.len(),
{
    let hlen = hay.unicode_len();
    let nlen = needle.unicode_len();
    if nlen == 0 {
        return Some(0);
    }
    if hlen < nlen {
        return None;
    }
    if starts_with_str(hay, needle) {
        proof {
            assert(hay@.take(needle@.len() as int) == needle@);
        }
        return Some(0);
    }
    proof {
        lemma_spec_find_bounds(hay@.skip(1), needle@);
    }
    match find_str(hay.substring_char(1, hlen), needle) {
        None => None,
        Some(i) => Some(i + 1),
    }
}

/// Whether `needle` occurs in `hay` as a contiguous substring.
pub fn contains_str(hay: &str, needle: &str) -> (r: bool)
    ensures
        r == spec_contains_str(hay@, needle@),
{
    find_str(hay, needle).is_some()
}

/// `s` with every backslash replaced by a forward slash.
pub open spec fn spec_slashed(s: Seq<char>) -> Seq<char> {
    s.map_values(|c: char| if c == '\\' { '/' } else { c })
}

/// Replace every backslash in `s` with a forward slash.
pub fn to_forward_slashes(s: &str) -> (r: String)
    ensures
        r@ == spec_slashed(s@),
{
    let n = s.unicode_len();
    let mut out = String::new();
    let mut i: usize = 0;
    while i < n
        invariant
            i <= n,
            n == s@.len(),
            out@ =~= spec_slashed(s@.take(i as int)),
        decreases n - i,
    {
        let c = s.get_char(i);
        if c == '\\' {
            push_char(&mut out, '/');
        } else {
            push_char(&mut out, c);
        }
        proof {
            assert(out@ =~= spec_slashed(s@.take(i + 1)));
        }
        i += 1;
    }
    proof {
        assert(s@.take(n as int) =~= s@);
    }
    out
}

/// `s` without leading `/` characters.
pub open spec fn spec_trim_start_slash(s: Seq<char>) -> Seq<char>
    decreases s.len(),
{
    if s.len() > 0 && s[0] == '/' {
        spec_trim_start_slash(s.drop_first())
    } else {
        s
    }
}

/// `s` without trailing `/` characters.
pub open spec fn spec_trim_end_slash(s: Seq<char>) -> Seq<char>
    decreases s.len(),
{
    if s.len() > 0 && s[s.len() - 1] == '/' {
        spec_trim_end_slash(s.drop_last())
    } else {
        s
    }
}

/// Drop leading `/` characters.
pub fn trim_start_slash<'a>(s: &'a str) -> (r: &'a str)
    ensures
        r@ == spec_trim_start_slash(s@),
    decreases s@.len(),
{
    let n = s.unicode_len();
    if n > 0 && s.get_char(0) == '/' {
        proof {
            assert(s@.subrange(1, n as int) =~= s@.drop_first());
        }
        trim_start_slash(s.substring_char(1, n))
    } else {
        s
    }
}

/// Drop trailing `/` characters.
pub fn trim_end_slash<'a>(s: &'a str) -> (r: &'a str)
    ensures
        r@ == spec_trim_end_slash(s@),
    decreases s@.len(),
{
    let n = s.unicode_len();
    if n > 0 && s.get_char(n - 1) == '/' {
        proof {
            assert(s@.subrange(0, n - 1) =~= s@.drop_last());
        }
        trim_end_slash(s.substring_char(0, n - 1))
    } else {
        s
    }
}

/// `s` without leading or trailing `/` characters.
pub open spec fn spec_trim_slash(s: Seq<char>) -> Seq<char> {
    spec_trim_end_slash(spec_trim_start_slash(s))
}

/// Drop leading and trailing `/` characters.
pub fn trim_slash<'a>(s: &'a str) -> (r: &'a str)
    ensures
        r@ == spec_trim_slash(s@),
{
    trim_end_slash(trim_start_slash(s))
}

/// `s` without any leading repetitions of `./`.
pub open spec fn spec_strip_dot_slash(s: Seq<char>) -> Seq<char>
    decreases s.len(),
{
    if s.len() >= 2 && s[0] == '.' && s[1] == '/' {
        spec_strip_dot_slash(s.skip(2))
    } else {
        s
    }
}

/// Drop every leading `./` from `s`.
pub fn strip_dot_slash<'a>(s: &'a str) -> (r: &'a str)
    ensures
        r@ == spec_strip_dot_slash(s@),
    decreases s@.len(),
{
    let n = s.unicode_len();
    if n >= 2 && s.get_char(0) == '.' && s.get_char(1) == '/' {
        proof {
            assert(s@.subrange(2, n as int) =~= s@.skip(2));
        }
        strip_dot_slash(s.substring_char(2, n))
    } else {
        s
    }
}

/// The suffix of `s` after its last `/`; all of `s` when it has none.
pub open spec fn spec_after_last_slash(s: Seq<char>) -> Seq<char>
    decreases s.len(),
{
    if s.len() == 0 {
        s
    } else if s[s.len() - 1] == '/' {
        Seq::empty()
    } else {
        spec_after_last_slash(s.drop_last()).push(s[s.len() - 1])
    }
}

/// The suffix of `s` after its last `/`; all of `s` when it has none.
pub fn after_last_slash<'a>(s: &'a str) -> (r: &'a str)
    ensures
        r@ == spec_after_last_slash(s@),
    decreases s@.len(),
{
    let n = s.unicode_len();
    if n == 0 {
        s
    } else if s.get_char(n - 1) == '/' {
        proof {
            assert(s@.subrange(n as int, n as int) =~= Seq::<char>::empty());
        }
        s.substring_char(n, n)
    } else {
        proof {
            assert(s@.subrange(0, n - 1) =~= s@.drop_last());
        }
        let head = after_last_slash(s.substring_char(0, n - 1));
        let hn = head.unicode_len();
        proof {
            lemma_after_last_slash_len(s@.drop_last());
            assert(s@.drop_last().len() == n - 1);
        }
        let r = s.substring_char(n - 1 - hn, n);
        proof {
            lemma_after_last_slash_suffix(s@.drop_last());
            assert(r@ =~= spec_after_last_slash(s@));
        }
        r
    }
}

pub proof fn lemma_after_last_slash_len(s: Seq<char>)
    ensures
        spec_after_last_slash(s).len() <= s.len(),
    decreases s.len(),
{
    if s.len() > 0 && s[s.len() - 1] != '/' {
        lemma_after_last_slash_len(s.drop_last());
    }
}

/// The suffix named by `spec_after_last_slash` is a literal suffix of `s`.
pub proof fn lemma_after_last_slash_suffix(s: Seq<char>)
    ensures
        spec_after_last_slash(s) == s.skip(s.len() - spec_after_last_slash(s).len()),
    decreases s.len(),
{
    lemma_after_last_slash_len(s);
    if s.len() == 0 {
        assert(spec_after_last_slash(s) =~= s.skip(0));
    } else if s[s.len() - 1] == '/' {
        assert(spec_after_last_slash(s) =~= s.skip(s.len() as int));
    } else {
        lemma_after_last_slash_suffix(s.drop_last());
        lemma_after_last_slash_len(s.drop_last());
        let k = spec_after_last_slash(s).len();
        assert(spec_after_last_slash(s) =~= s.skip(s.len() - k));
    }
}

} // verus!

