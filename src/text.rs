//! Character-level helpers: whitespace, words, prefixes and string building.
use vstd::prelude::*;

verus! {

/// The Unicode `White_Space` property.
pub open spec fn is_white(c: char) -> bool {
    let n = c as u32;
    (0x9 <= n <= 0xd) || n == 0x20 || n == 0x85 || n == 0xa0 || n == 0x1680
        || (0x2000 <= n <= 0x200a) || n == 0x2028 || n == 0x2029 || n == 0x202f
        || n == 0x205f || n == 0x3000
}

/// Reading `s` left to right: the words finished so far, and the word still open.
pub open spec fn scan_words(s: Seq<char>) -> (Seq<Seq<char>>, Seq<char>)
    decreases s.len(),
{
    if s.len() == 0 {
        (Seq::empty(), Seq::empty())
    } else {
        let (done, open) = scan_words(s.drop_last());
        let c = s.last();
        if is_white(c) {
            if open.len() > 0 {
                (done.push(open), Seq::empty())
            } else {
                (done, open)
            }
        } else {
            (done, open.push(c))
        }
    }
}

/// The maximal runs of non-whitespace characters of `s`, in order.
pub open spec fn words(s: Seq<char>) -> Seq<Seq<char>> {
    let (done, open) = scan_words(s);
    if open.len() > 0 {
        done.push(open)
    } else {
        done
    }
}

pub fn is_white_char(c: char) -> (r: bool)
    ensures
        r == is_white(c),
{
    let n: u32 = c as u32;
    (0x9 <= n && n <= 0xd) || n == 0x20 || n == 0x85 || n == 0xa0 || n == 0x1680 || (0x2000 <= n
        && n <= 0x200a) || n == 0x2028 || n == 0x2029 || n == 0x202f || n == 0x205f || n == 0x3000
}

/// Relies on `String::push`: appends one character.
#[verifier::external_body]
pub(crate) fn push_char(s: &mut String, c: char)
    ensures
        final(s)@ == old(s)@.push(c),
{
    s.push(c)
}

/// The whitespace-separated words of `s`.
pub fn split_words(s: &str) -> (r: Vec<String>)
    ensures
        r@.len() == words(s@).len(),
        forall|i: int| 0 <= i < r@.len() ==> #[trigger] r@[i]@ == words(s@)[i],
{
    let n: usize = s.unicode_len();
    let mut done: Vec<String> = Vec::new();
    let mut open: String = String::new();
    let mut i: usize = 0;
    while i < n
        invariant
            n == s@.len(),
            i <= n,
            done@.len() == scan_words(s@.take(i as int)).0.len(),
            forall|k: int| 0 <= k < done@.len() ==> #[trigger] done@[k]@ == scan_words(s@.take(i as int)).0[k],
            open@ == scan_words(s@.take(i as int)).1,
        decreases n - i,
    {
        let c = s.get_char(i);
        assert(s@.take(i as int + 1).drop_last() =~= s@.take(i as int));
        if is_white_char(c) {
            if open.unicode_len() > 0 {
                let w = open;
                done.push(w);
                open = String::new();
            }
        } else {
            push_char(&mut open, c);
        }
        i = i + 1;
    }
    assert(s@.take(n as int) =~= s@);
    if open.unicode_len() > 0 {
        done.push(open);
    }
    done
}

/// `p` is a prefix of `s`.
pub open spec fn has_prefix(s: Seq<char>, p: Seq<char>) -> bool {
    p.len() <= s.len() && s.take(p.len() as int) == p
}

pub fn starts_with_text(s: &str, p: &str) -> (r: bool)
    ensures
        r == has_prefix(s@, p@),
{
    let n: usize = s.unicode_len();
    let m: usize = p.unicode_len();
    if m > n {
        return false;
    }
    let mut i: usize = 0;
    while i < m
        invariant
            n == s@.len(),
            m == p@.len(),
            m <= n,
            i <= m,
            forall|k: int| 0 <= k < i ==> s@[k] == p@[k],
        decreases m - i,
    {
        if s.get_char(i) != p.get_char(i) {
            assert(s@.take(m as int)[i as int] != p@[i as int]);
            return false;
        }
        i = i + 1;
    }
    assert(s@.take(m as int) =~= p@);
    true
}

/// `s` reads "ok" in any letter case: the strings whose lowercase form is "ok"
/// (U+212A, the Kelvin sign, lowercases to 'k').
pub open spec fn is_ok_word(s: Seq<char>) -> bool {
    s.len() == 2 && (s[0] == 'o' || s[0] == 'O') && (s[1] == 'k' || s[1] == 'K' || s[1]
        == '\u{212A}')
}

pub fn is_ok_status(s: &str) -> (r: bool)
    ensures
        r == is_ok_word(s@),
{
    if s.unicode_len() != 2 {
        return false;
    }
    let a = s.get_char(0);
    let b = s.get_char(1);
    (a == 'o' || a == 'O') && (b == 'k' || b == 'K' || b == '\u{212A}')
}

/// What `str::to_uppercase` returns for a string.
pub uninterp spec fn upper_of(s: Seq<char>) -> Seq<char>;

/// Relies on `str::to_uppercase`: the uppercase form depends on the characters alone.
#[verifier::external_body]
pub(crate) fn to_upper(s: &str) -> (r: String)
    ensures
        r@ == upper_of(s@),
{
    s.to_uppercase()
}

} // verus!
