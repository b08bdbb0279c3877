//! String primitives the rest of the library is specified with: substring
//! search, ASCII-case-insensitive comparison, UTF-8 decoding and Unicode
//! lowercasing.

use vstd::prelude::*;

verus! {

use vstd::string::StringSliceAdditionalSpecFns;

/// `pat` occurs in `text` starting at position `i`.
pub open spec fn matches_at(text: Seq<char>, pat: Seq<char>, i: int) -> bool {
    0 <= i && i + pat.len() <= text.len() && text.subrange(i, i + pat.len() as int) == pat
}

/// `pat` occurs somewhere in `text`.
pub open spec fn str_contains(text: Seq<char>, pat: Seq<char>) -> bool {
    exists|i: int| matches_at(text, pat, i)
}

/// ASCII upper-case letters fold to lower case; all other bytes are kept.
pub open spec fn fold_byte(b: u8) -> u8 {
    if 65 <= b && b <= 90 {
        (b + 32) as u8
    } else {
        b
    }
}

/// Byte sequences equal up to ASCII case.
pub open spec fn eq_ignore_ascii(a: Seq<u8>, b: Seq<u8>) -> bool {
    a.len() == b.len() && forall|i: int| 0 <= i < a.len() ==> fold_byte(a[i]) == fold_byte(b[i])
}

/// Whether `pat` occurs in `text`, by character.
pub fn contains_str(text: &str, pat: &str) -> (r: bool)
    ensures
        r == str_contains(text@, pat@),
{
    let text_len = text.unicode_len();
    let pat_len = pat.unicode_len();
    if pat_len > text_len {
        assert(forall|i: int| !matches_at(text@, pat@, i));
        return false;
    }
    let mut i: usize = 0;
    while i <= text_len - pat_len
        invariant
            text_len == text@.len(),
            pat_len == pat@.len(),
            pat_len <= text_len,
            i <= text_len - pat_len + 1,
            forall|k: int| 0 <= k < i ==> !matches_at(text@, pat@, k),
        decreases text_len - pat_len - i + 1,
    {
        let mut j: usize = 0;
        let mut hit = true;
        while j < pat_len
            invariant
                text_len == text@.len(),
                pat_len == pat@.len(),
                pat_len <= text_len,
                i <= text_len - pat_len,
                j <= pat_len,
                hit || j == pat_len,
                hit <==> (forall|k: int| 0 <= k < j ==> text@[i + k] == pat@[k]),
            decreases pat_len - j,
        {
            let tc = text.get_char(i + j);
            let pc = pat.get_char(j);
            if tc != pc {
                hit = false;
                j = pat_len;
            } else {
                assert(forall|k: int| 0 <= k < j + 1 ==> text@[i + k] == pat@[k]);
                j = j + 1;
            }
        }
        if hit {
            assert(text@.subrange(i as int, i + pat@.len() as int) =~= pat@);
            assert(matches_at(text@, pat@, i as int));
            return true;
        }
        i = i + 1;
    }
    assert(forall|k: int| !matches_at(text@, pat@, k));
    false
}

/// Whether two strings are the same sequence of characters.
pub fn str_eq(a: &str, b: &str) -> (r: bool)
    ensures
        r == (a@ == b@),
{
    let a_len = a.unicode_len();
    let b_len = b.unicode_len();
    if a_len != b_len {
        assert(a@ != b@);
        return false;
    }
    let mut i: usize = 0;
    while i < a_len
        invariant
            a_len == a@.len(),
            a_len == b@.len(),
            i <= a_len,
            forall|k: int| 0 <= k < i ==> a@[k] == b@[k],
        decreases a_len - i,
    {
        if a.get_char(i) != b.get_char(i) {
            return false;
        }
        i = i + 1;
    }
    assert(a@ =~= b@);
    true
}

/// Whether two byte slices are equal up to ASCII case.
pub fn eq_ignore_ascii_bytes(a: &[u8], b: &[u8]) -> (r: bool)
    ensures
        r == eq_ignore_ascii(a@, b@),
{
    if a.len() != b.len() {
        return false;
    }
    let n = a.len();
    let mut i: usize = 0;
    while i < n
        invariant
            n == a@.len(),
            n == b@.len(),
            i <= n,
            forall|k: int| 0 <= k < i ==> fold_byte(a@[k]) == fold_byte(b@[k]),
        decreases n - i,
    {
        let x = a[i];
        let y = b[i];
        let fx = if 65 <= x && x <= 90 { x + 32 } else { x };
        let fy = if 65 <= y && y <= 90 { y + 32 } else { y };
        if fx != fy {
            return false;
        }
        i = i + 1;
    }
    true
}

/// Whether two strings have the same bytes up to ASCII case.
pub fn str_eq_ignore_ascii_case(a: &str, b: &str) -> (r: bool)
    ensures
        r == eq_ignore_ascii(a.spec_bytes(), b.spec_bytes()),
{
    eq_ignore_ascii_bytes(a.as_bytes(), b.as_bytes())
}

/// `p` is a prefix of `s`.
pub open spec fn spec_starts_with(s: Seq<char>, p: Seq<char>) -> bool {
    p.len() <= s.len() && s.take(p.len() as int) == p
}

/// Whether `s` starts with `p`, by character.
pub fn starts_with(s: &str, p: &str) -> (r: bool)
    ensures
        r == spec_starts_with(s@, p@),
{
    let s_len = s.unicode_len();
    let p_len = p.unicode_len();
    if p_len > s_len {
        return false;
    }
    let mut i: usize = 0;
    while i < p_len
        invariant
            s_len == s@.len(),
            p_len == p@.len(),
            p_len <= s_len,
            i <= p_len,
            forall|k: int| 0 <= k < i ==> s@[k] == p@[k],
        decreases p_len - i,
    {
        if s.get_char(i) != p.get_char(i) {
            assert(s@.take(p_len as int)[i as int] != p@[i as int]);
            return false;
        }
        i = i + 1;
    }
    assert(s@.take(p_len as int) =~= p@);
    true
}

/// The character occurs in the sequence.
pub open spec fn has_char(s: Seq<char>, c: char) -> bool {
    exists|i: int| 0 <= i < s.len() && s[i] == c
}

/// The position of the last occurrence of the character.
pub open spec fn last_index(s: Seq<char>, c: char) -> int {
    choose|i: int|
        0 <= i < s.len() && s[i] == c && (forall|j: int| i < j < s.len() ==> s[j] != c)
}

/// The position of the last occurrence of the character, if any.
pub fn rfind_char(s: &str, c: char) -> (r: Option<usize>)
    ensures
        r is Some <==> has_char(s@, c),
        r is Some ==> {
            &&& r.unwrap() == last_index(s@, c)
            &&& 0 <= r.unwrap() < s@.len()
            &&& s@[r.unwrap() as int] == c
            &&& forall|j: int| r.unwrap() < j < s@.len() ==> s@[j] != c
        },
{
    let n = s.unicode_len();
    let mut i: usize = n;
    while i > 0
        invariant
            n == s@.len(),
            i <= n,
            forall|j: int| i <= j < n ==> s@[j] != c,
        decreases i,
    {
        if s.get_char(i - 1) == c {
            proof {
                let k = i - 1 as int;
                assert(s@[k] == c && (forall|j: int| k < j < n ==> s@[j] != c));
                let li = last_index(s@, c);
                assert(s@[li] == c && (forall|j: int| li < j < n ==> s@[j] != c));
                if li < k {
                    assert(s@[k] != c);
                }
                if k < li {
                    assert(s@[li] != c);
                }
                assert(li == k);
            }
            return Some(i - 1);
        }
        i = i - 1;
    }
    assert(forall|j: int| 0 <= j < n ==> s@[j] != c);
    None
}

/// What `str::to_lowercase` returns: a function of the characters alone.
pub uninterp spec fn lower_of(s: Seq<char>) -> Seq<char>;

/// Relies on str::to_lowercase for Unicode lowercasing; the result depends
/// only on the characters of the input.
#[verifier::external_body]
pub fn lowercase(s: &str) -> (r: String)
    ensures
        r@ == lower_of(s@),
        s@.len() == 0 ==> r@.len() == 0,
{
    s.to_lowercase()
}

/// Relies on String::from_utf8: succeeds exactly on valid UTF-8 and returns
/// the decoding of the bytes.
#[verifier::external_body]
pub fn utf8_to_string(bytes: &Vec<u8>) -> (r: Option<String>)
    ensures
        r is Some <==> vstd::utf8::valid_utf8(bytes@),
        r is Some ==> r.unwrap()@ == vstd::utf8::decode_utf8(bytes@),
{
    String::from_utf8(bytes.clone()).ok()
}

} // verus!
