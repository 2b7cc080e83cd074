//! Band computer: the bounded, word-aligned window of text that ends at the
//! caret. The band is what the downstream engine analyzes, so it must never
//! split a word when a whitespace boundary is available and must never reach
//! back further than a fixed width when one is not.

use vstd::prelude::*;

verus! {

/// Maximum width of the active band, in characters, measured back from the
/// caret to the hard cutoff.
pub const BAND_WIDTH: u32 = 50;

/// An offset window `start..end` ending at or before the caret.
/// `valid == false` signals "no meaningful band" (for example, the caret
/// sits at the very start of the text, or the text is empty).
#[derive(Clone, Copy, PartialEq, Eq, Structural, Debug)]
pub struct MTBandRange {
    pub start: u32,
    pub end: u32,
    pub valid: bool,
}

/// Characters that count as a word boundary for the band search.
pub open spec fn is_band_whitespace(c: char) -> bool {
    c == ' ' || c == '\t' || c == '\n' || c == '\r'
}

/// The caret offset clamped into `[0, text.len()]`.
pub open spec fn clamped_caret(text: Seq<char>, caret: u32) -> int {
    if caret as int <= text.len() as int {
        caret as int
    } else {
        text.len() as int
    }
}

/// The hard cutoff: the band may start no earlier than this offset, so the
/// fallback window never exceeds `BAND_WIDTH` characters.
pub open spec fn band_cutoff(caret_pos: int) -> int {
    if caret_pos > BAND_WIDTH as int {
        caret_pos - BAND_WIDTH as int
    } else {
        0
    }
}

/// Index of the last band-whitespace character strictly before `bound`,
/// if any.
pub open spec fn last_whitespace_before(text: Seq<char>, bound: int) -> Option<int>
    decreases bound,
{
    if bound <= 0 {
        None
    } else if is_band_whitespace(text[bound - 1]) {
        Some(bound - 1)
    } else {
        last_whitespace_before(text, bound - 1)
    }
}

/// The band for `text` and `caret`: from just past the last whitespace
/// before the cutoff (or from the cutoff itself when no whitespace precedes
/// it) up to the clamped caret.
pub open spec fn band_spec(text: Seq<char>, caret: u32) -> MTBandRange {
    let caret_pos = clamped_caret(text, caret);
    let cutoff = band_cutoff(caret_pos);
    let start = match last_whitespace_before(text, cutoff) {
        Some(i) => i + 1,
        None => cutoff,
    };
    MTBandRange { start: start as u32, end: caret_pos as u32, valid: start < caret_pos }
}

/// Index of the last band-whitespace character of `text` strictly before
/// the character offset `bound`.
fn find_last_whitespace_before(text: &str, bound: usize) -> (r: Option<usize>)
    requires
        bound <= text@.len(),
    ensures
        match r {
            Some(i) => i < bound && last_whitespace_before(text@, bound as int) == Some(i as int),
            None => last_whitespace_before(text@, bound as int) is None,
        },
{
    let mut j: usize = bound;
    while j > 0
        invariant
            j <= bound <= text@.len(),
            last_whitespace_before(text@, bound as int) == last_whitespace_before(
                text@,
                j as int,
            ),
        decreases j,
    {
        let c = text.get_char(j - 1);
        if c == ' ' || c == '\t' || c == '\n' || c == '\r' {
            return Some(j - 1);
        }
        j = j - 1;
    }
    None
}

/// Compute the active band of `text` for a caret at character offset
/// `caret`. Offsets in the result are character offsets; the caret is
/// clamped into the text first, so any `caret` value is accepted.
pub fn compute_band(text: &str, caret: u32) -> (band: MTBandRange)
    ensures
        band == band_spec(text@, caret),
{
    let n = text.unicode_len();
    let caret_usize = caret as usize;
    let caret_pos: usize = if caret_usize <= n {
        caret_usize
    } else {
        n
    };
    let width = BAND_WIDTH as usize;
    let cutoff: usize = if caret_pos > width {
        caret_pos - width
    } else {
        0
    };
    let start: usize = match find_last_whitespace_before(text, cutoff) {
        Some(i) => i + 1,
        None => cutoff,
    };
    MTBandRange { start: start as u32, end: caret_pos as u32, valid: start < caret_pos }
}

/// Width bound: when no whitespace boundary exists before the cutoff, the
/// band falls back to the hard cutoff, so it spans at most `BAND_WIDTH`
/// characters.
pub proof fn lemma_band_width_bound(text: Seq<char>, caret: u32)
    requires
        last_whitespace_before(text, band_cutoff(clamped_caret(text, caret))) is None,
    ensures
        band_spec(text, caret).start <= band_spec(text, caret).end,
        band_spec(text, caret).end - band_spec(text, caret).start <= BAND_WIDTH as int,
{
}

/// Determinism: the band is a function of the text and the caret alone, so
/// two results of the computation on identical input are identical.
pub proof fn lemma_band_deterministic(text: Seq<char>, caret: u32, r1: MTBandRange, r2: MTBandRange)
    requires
        r1 == band_spec(text, caret),
        r2 == band_spec(text, caret),
    ensures
        r1 == r2,
{
}

} // verus!
