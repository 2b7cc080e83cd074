//! Fragment extractor: the most recent sentence- or clause-like unit of the
//! text, bounded in length, handed to the downstream engine as a
//! self-contained unit of analysis. It is independent of the caret and
//! never splits inside a code point, since it works on decoded characters.

use vstd::prelude::*;

verus! {

/// Maximum length of an extracted fragment, in characters.
pub const FRAGMENT_MAX: u32 = 256;

/// Characters that end a sentence- or clause-like unit.
pub open spec fn is_terminator(c: char) -> bool {
    c == '.' || c == '!' || c == '?' || c == '\n'
}

/// Index of the last terminator character strictly before `bound`, if any.
pub open spec fn last_terminator_before(text: Seq<char>, bound: int) -> Option<int>
    decreases bound,
{
    if bound <= 0 {
        None
    } else if is_terminator(text[bound - 1]) {
        Some(bound - 1)
    } else {
        last_terminator_before(text, bound - 1)
    }
}

/// Start of the most recent clause: just past the last terminator that
/// still has at least one character after it, or 0 when there is none.
/// Excluding a terminator in the final position keeps the clause non-empty
/// even for text that ends mid-punctuation.
pub open spec fn clause_start(text: Seq<char>) -> int {
    match last_terminator_before(text, text.len() - 1) {
        Some(i) => i + 1,
        None => 0,
    }
}

/// Start of the extracted fragment: the clause start, pushed forward when
/// the clause would exceed `FRAGMENT_MAX` characters.
pub open spec fn fragment_start(text: Seq<char>) -> int {
    let s = clause_start(text);
    if text.len() - s > FRAGMENT_MAX as int {
        text.len() - FRAGMENT_MAX as int
    } else {
        s
    }
}

/// The fragment of `text`: `None` for empty text, otherwise the most
/// recent clause-like unit, capped at `FRAGMENT_MAX` characters.
pub open spec fn fragment_spec(text: Seq<char>) -> Option<Seq<char>> {
    if text.len() == 0 {
        None
    } else {
        Some(text.subrange(fragment_start(text), text.len() as int))
    }
}

/// The last terminator strictly before `bound` lies in `[0, bound)`.
pub proof fn lemma_last_terminator_range(text: Seq<char>, bound: int)
    ensures
        last_terminator_before(text, bound) matches Some(i) ==> 0 <= i < bound,
    decreases bound,
{
    if bound > 0 && !is_terminator(text[bound - 1]) {
        lemma_last_terminator_range(text, bound - 1);
    }
}

/// The fragment start of non-empty text lies in `[0, text.len())`, so the
/// fragment itself is never empty.
pub proof fn lemma_fragment_start_range(text: Seq<char>)
    requires
        text.len() > 0,
    ensures
        0 <= fragment_start(text) < text.len(),
{
    lemma_last_terminator_range(text, text.len() - 1);
}

/// Index of the last terminator character of `text` strictly before the
/// character offset `bound`.
fn find_last_terminator_before(text: &str, bound: usize) -> (r: Option<usize>)
    requires
        bound <= text@.len(),
    ensures
        match r {
            Some(i) => i < bound && last_terminator_before(text@, bound as int) == Some(i as int),
            None => last_terminator_before(text@, bound as int) is None,
        },
{
    let mut j: usize = bound;
    while j > 0
        invariant
            j <= bound <= text@.len(),
            last_terminator_before(text@, bound as int) == last_terminator_before(text@, j as int),
        decreases j,
    {
        let c = text.get_char(j - 1);
        if c == '.' || c == '!' || c == '?' || c == '\n' {
            return Some(j - 1);
        }
        j = j - 1;
    }
    None
}

/// Extract the most recent clause-like unit of `text`, bounded at
/// `FRAGMENT_MAX` characters. Returns `None` exactly when `text` is empty.
pub fn extract_fragment(text: &str) -> (fragment: Option<String>)
    ensures
        match fragment {
            Some(f) => fragment_spec(text@) == Some(f@),
            None => fragment_spec(text@) is None,
        },
{
    let n = text.unicode_len();
    if n == 0 {
        return None;
    }
    let clause: usize = match find_last_terminator_before(text, n - 1) {
        Some(i) => i + 1,
        None => 0,
    };
    let max = FRAGMENT_MAX as usize;
    let start: usize = if n - clause > max {
        n - max
    } else {
        clause
    };
    let frag = text.substring_char(start, n);
    Some(frag.to_owned())
}

/// Totality and provenance: a fragment exists exactly when the text is
/// non-empty, and it is then a non-empty contiguous substring of the text.
pub proof fn lemma_fragment_total(text: Seq<char>)
    ensures
        fragment_spec(text) is None <==> text.len() == 0,
        text.len() > 0 ==> (fragment_spec(text) matches Some(f) && f.len() > 0),
        text.len() > 0 ==> exists|i: int, j: int|
            0 <= i <= j <= text.len() && fragment_spec(text)->Some_0 == text.subrange(i, j),
{
    if text.len() > 0 {
        lemma_fragment_start_range(text);
        let s = fragment_start(text);
        assert(0 <= s <= text.len() as int && fragment_spec(text)->Some_0 == text.subrange(
            s,
            text.len() as int,
        ));
    }
}

/// Determinism: the fragment is a function of the text alone, so two
/// results of the extraction on identical input are identical.
pub proof fn lemma_fragment_deterministic(
    text: Seq<char>,
    r1: Option<Seq<char>>,
    r2: Option<Seq<char>>,
)
    requires
        r1 == fragment_spec(text),
        r2 == fragment_spec(text),
    ensures
        r1 == r2,
{
}

} // verus!
