//! Emoji sampling: distinct glyphs drawn at random from a fixed alphabet, the
//! emoticons block of Unicode.
use vstd::prelude::*;
use crate::text::{push_char};

verus! {

/// The scalar value of the first glyph of the alphabet.
pub const FIRST_GLYPH: u32 = 0x1F600;

/// How many glyphs the alphabet holds.
pub const ALPHABET_SIZE: usize = 80;

/// `g` is the single glyph at some position of the alphabet.
pub open spec fn is_glyph(g: Seq<char>) -> bool {
    g.len() == 1 && FIRST_GLYPH <= g[0] as u32 && (g[0] as u32) < FIRST_GLYPH + ALPHABET_SIZE
}

/// `gs` holds glyphs of the alphabet, no two equal.
pub open spec fn distinct_glyphs(gs: Seq<Seq<char>>) -> bool {
    &&& forall|k: int| 0 <= k < gs.len() ==> is_glyph(#[trigger] gs[k])
    &&& forall|a: int, b: int| 0 <= a < gs.len() && 0 <= b < gs.len() && a != b ==> gs[a] != gs[b]
}

/// The words of `ws` with one space between neighbours.
pub open spec fn joined(ws: Seq<Seq<char>>) -> Seq<char>
    decreases ws.len(),
{
    if ws.len() == 0 {
        Seq::empty()
    } else if ws.len() == 1 {
        ws[0]
    } else {
        joined(ws.drop_last()) + seq![' '] + ws.last()
    }
}

#[derive(Debug, PartialEq, Eq, Structural, Clone, Copy)]
pub enum EmojiError {
    /// More glyphs were asked for than the alphabet holds.
    TooMany { requested: usize, available: usize },
}

/// Relies on `rand::seq::index::sample`: `amount` distinct indices below
/// `length`, which it panics on unless `amount <= length`.
#[verifier::external_body]
fn sample_distinct(length: usize, amount: usize) -> (r: Vec<usize>)
    requires
        amount <= length,
    ensures
        r@.len() == amount,
        forall|k: int| 0 <= k < r@.len() ==> #[trigger] r@[k] < length,
        forall|a: int, b: int| 0 <= a < r@.len() && 0 <= b < r@.len() && a != b ==> r@[a] != r@[b],
{
    rand::seq::index::sample(&mut rand::rng(), length, amount).into_vec()
}

/// Relies on `char::from_u32`: the character with scalar value `n`, which
/// exists outside the surrogate range and up to U+10FFFF.
#[verifier::external_body]
fn char_of_scalar(n: u32) -> (r: Option<char>)
    ensures
        r matches Some(c) ==> c as u32 == n,
        (n < 0xD800 || (0xE000 <= n && n <= 0x10FFFF)) ==> r is Some,
{
    char::from_u32(n)
}

pub struct EmojiGenerator {}

impl EmojiGenerator {
    pub fn new() -> (r: EmojiGenerator) {
        EmojiGenerator {  }
    }

    pub fn alphabet_size(&self) -> (r: usize)
        ensures
            r == ALPHABET_SIZE,
    {
        ALPHABET_SIZE
    }

    /// The glyph at position `i` of the alphabet.
    pub fn glyph(&self, i: usize) -> (r: String)
        requires
            i < ALPHABET_SIZE,
        ensures
            r@.len() == 1,
            r@[0] as u32 == FIRST_GLYPH + i,
    {
        let mut s = String::new();
        match char_of_scalar(FIRST_GLYPH + i as u32) {
            Some(c) => push_char(&mut s, c),
            None => {},
        }
        s
    }

    /// `n` distinct glyphs drawn at random; fails when the alphabet holds fewer.
    pub fn generate(&self, n: usize) -> (r: Result<Vec<String>, EmojiError>)
        ensures
            n > ALPHABET_SIZE <==> r is Err,
            r matches Err(e) ==> e == (EmojiError::TooMany { requested: n, available: ALPHABET_SIZE }),
            r matches Ok(v) ==> v@.len() == n && distinct_glyphs(v@.map_values(|g: String| g@)),
    {
        if n > ALPHABET_SIZE {
            return Err(EmojiError::TooMany { requested: n, available: ALPHABET_SIZE });
        }
        let picks = sample_distinct(ALPHABET_SIZE, n);
        let mut out: Vec<String> = Vec::new();
        let mut k: usize = 0;
        while k < n
            invariant
                k <= n,
                picks@.len() == n,
                out@.len() == k,
                forall|j: int| 0 <= j < picks@.len() ==> #[trigger] picks@[j] < ALPHABET_SIZE,
                forall|a: int, b: int| 0 <= a < picks@.len() && 0 <= b < picks@.len() && a != b ==> picks@[a] != picks@[b],
                forall|j: int| 0 <= j < k ==> (#[trigger] out@[j])@.len() == 1 && out@[j]@[0] as u32 == FIRST_GLYPH + picks@[j],
            decreases n - k,
        {
            let g = self.glyph(picks[k]);
            out.push(g);
            k = k + 1;
        }
        let ghost gs = out@.map_values(|g: String| g@);
        assert forall|a: int, b: int| 0 <= a < gs.len() && 0 <= b < gs.len() && a != b implies gs[a] != gs[b] by {
            assert(gs[a][0] as u32 != gs[b][0] as u32);
        }
        Ok(out)
    }
}

/// The glyphs of `gs` with one space between neighbours.
pub fn join_glyphs(gs: &Vec<String>) -> (r: String)
    ensures
        r@ == joined(gs@.map_values(|g: String| g@)),
{
    let ghost ws = gs@.map_values(|g: String| g@);
    let mut out = String::new();
    let mut k: usize = 0;
    while k < gs.len()
        invariant
            k <= gs@.len(),
            ws == gs@.map_values(|g: String| g@),
            out@ == joined(ws.take(k as int)),
        decreases gs@.len() - k,
    {
        assert(ws.take(k as int + 1).drop_last() =~= ws.take(k as int));
        if k > 0 {
            push_char(&mut out, ' ');
        }
        out.append(gs[k].as_str());
        k = k + 1;
    }
    assert(ws.take(gs@.len() as int) =~= ws);
    out
}

} // verus!
