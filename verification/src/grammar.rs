//! A conservative safety screen for docopt usage grammars.
//!
//! The vendored docopt can panic while reading a usage text: slicing a
//! stacked short-flag token by byte offset where a character index was
//! counted (so a non-ASCII short flag can split a character), and
//! re-binding a short flag that an earlier option-description line
//! already registered as the synonym of a long flag (an unwrap on a map
//! that no longer holds the key). The screen admits only texts on which
//! neither can happen: pure ASCII, and no short flag introduced by more
//! than one option-description line. It over-approximates what docopt
//! reads as a short flag, so it refuses some grammars docopt would
//! accept, and accepts none on which docopt panics.

use vstd::prelude::*;
use vstd::utf8::is_ascii_chars;
use vstd::string::is_ascii_spec_bytes;

verus! {

pub const NEWLINE: u8 = 10;

pub const DASH: u8 = 45;

pub const BLANK: u8 = 32;

pub const HTAB: u8 = 9;

pub const EQUALS: u8 = 61;

pub const COMMA: u8 = 44;

pub const COLON: u8 = 58;

/// Whitespace inside one line, as trimming sees it (no newline here).
pub open spec fn is_line_space(b: u8) -> bool {
    b == BLANK || b == HTAB || b == 11 || b == 12 || b == 13
}

/// ASCII lowercasing of one byte.
pub open spec fn lower(b: u8) -> u8 {
    if 65 <= b <= 90 {
        (b + 32) as u8
    } else {
        b
    }
}

/// The character sequence of an ASCII text, byte for byte.
pub open spec fn ascii_bytes(s: Seq<char>) -> Seq<u8> {
    Seq::new(s.len(), |i: int| s[i] as u8)
}

/// The position of the newline that ends the line starting at `i`, or
/// the end of the text.
pub open spec fn line_end(s: Seq<u8>, i: int) -> int
    decreases s.len() - i,
{
    if i < 0 || i >= s.len() || s[i] == NEWLINE {
        i
    } else {
        line_end(s, i + 1)
    }
}

/// The first position in `[i, end)` holding no line whitespace, or `end`.
pub open spec fn skip_space(s: Seq<u8>, i: int, end: int) -> int
    decreases end - i,
{
    if i < 0 || i >= end || end > s.len() || !is_line_space(s[i]) {
        i
    } else {
        skip_space(s, i + 1, end)
    }
}

/// The end of `[i, end)` with trailing line whitespace dropped.
pub open spec fn rtrim_end(s: Seq<u8>, i: int, end: int) -> int
    decreases end - i,
{
    if end <= i || end > s.len() || end < 1 || !is_line_space(s[end - 1]) {
        end
    } else {
        rtrim_end(s, i, end - 1)
    }
}

/// Where the flags of the line `[ts, te)` begin: a leading `options:`
/// label, in any letter case, is dropped together with the space after
/// it, as docopt drops it.
pub open spec fn strip_options(s: Seq<u8>, ts: int, te: int) -> int {
    if 0 <= ts && ts + 8 <= te && te <= s.len() && lower(s[ts]) == 111 && lower(s[ts + 1]) == 112
        && lower(s[ts + 2]) == 116 && lower(s[ts + 3]) == 105 && lower(s[ts + 4]) == 111 && lower(
        s[ts + 5],
    ) == 110 && lower(s[ts + 6]) == 115 && s[ts + 7] == COLON {
        skip_space(s, ts + 8, te)
    } else {
        ts
    }
}

/// The first position of two adjacent blanks in `[i, te)` — where the
/// human description begins and flag reading stops — or `te`.
pub open spec fn cut_end(s: Seq<u8>, i: int, te: int) -> int
    decreases te - i,
{
    if i < 0 || i + 1 >= te || te > s.len() {
        te
    } else if s[i] == BLANK && s[i + 1] == BLANK {
        i
    } else {
        cut_end(s, i + 1, te)
    }
}

/// Whether position `i` of the flag region `[ds, ce)` can introduce a
/// two-character short flag to docopt: a dash not preceded by a dash,
/// then any byte but a separator, then the end of the token. Wider than
/// docopt's own reading, never narrower.
pub open spec fn is_short_at(s: Seq<u8>, ds: int, i: int, ce: int) -> bool {
    &&& 0 <= ds <= i
    &&& i + 1 < ce <= s.len()
    &&& s[i] == DASH
    &&& s[i + 1] != BLANK
    &&& s[i + 1] != HTAB
    &&& s[i + 1] != EQUALS
    &&& (i + 2 == ce || s[i + 2] == BLANK || s[i + 2] == HTAB || s[i + 2] == EQUALS || s[i + 2]
        == COMMA)
    &&& (i == ds || s[i - 1] != DASH)
}

/// The short-flag characters found in the flag region `[ds, ce)` from
/// position `i` on.
pub open spec fn collect_region(s: Seq<u8>, ds: int, i: int, ce: int) -> Seq<u8>
    decreases ce - i,
{
    if i < 0 || i >= ce || ce > s.len() {
        Seq::empty()
    } else if is_short_at(s, ds, i, ce) {
        seq![s[i + 1]] + collect_region(s, ds, i + 1, ce)
    } else {
        collect_region(s, ds, i + 1, ce)
    }
}

/// The short-flag characters an option-description line `[start, end)`
/// can introduce: nothing unless the trimmed line (after a dropped
/// `options:` label) starts with a dash followed by a non-space, as
/// docopt recognizes option descriptions; else the shorts of its flag
/// region.
pub open spec fn line_shorts(s: Seq<u8>, start: int, end: int) -> Seq<u8> {
    let ts = skip_space(s, start, end);
    let te = rtrim_end(s, ts, end);
    let ds = strip_options(s, ts, te);
    if ds + 1 < te && s[ds] == DASH && !is_line_space(s[ds + 1]) {
        collect_region(s, ds, ds, cut_end(s, ds, te))
    } else {
        Seq::empty()
    }
}

/// The short-flag characters of every line of the text from `i` on.
pub open spec fn text_shorts(s: Seq<u8>, i: int) -> Seq<u8>
    decreases s.len() - i,
{
    if i < 0 || i >= s.len() {
        Seq::empty()
    } else {
        let le = line_end(s, i);
        let next = if le < i || le + 1 > s.len() {
            s.len() as int
        } else {
            le + 1
        };
        line_shorts(s, i, le) + text_shorts(s, next)
    }
}

/// No element of the sequence repeats.
pub open spec fn distinct_seq(s: Seq<u8>) -> bool {
    forall|p: int, q: int| 0 <= p < q < s.len() ==> s[p] != s[q]
}

/// The texts the screen admits: pure ASCII, and no short flag
/// introduced by more than one option-description line. Docopt panics
/// on no such text, whatever the argv.
pub open spec fn safe_grammar(usage: Seq<char>) -> bool {
    is_ascii_chars(usage) && distinct_seq(text_shorts(ascii_bytes(usage), 0))
}

fn line_end_x(s: &[u8], i: usize) -> (r: usize)
    requires
        i <= s.len(),
    ensures
        i <= r <= s.len(),
        r as int == line_end(s@, i as int),
    decreases s.len() - i,
{
    if i >= s.len() || s[i] == NEWLINE {
        i
    } else {
        line_end_x(s, i + 1)
    }
}

fn skip_space_x(s: &[u8], i: usize, end: usize) -> (r: usize)
    requires
        i <= end <= s.len(),
    ensures
        i <= r <= end,
        r as int == skip_space(s@, i as int, end as int),
    decreases end - i,
{
    if i >= end || !(s[i] == BLANK || s[i] == HTAB || s[i] == 11 || s[i] == 12 || s[i] == 13) {
        i
    } else {
        skip_space_x(s, i + 1, end)
    }
}

fn rtrim_x(s: &[u8], i: usize, end: usize) -> (r: usize)
    requires
        i <= end <= s.len(),
    ensures
        i <= r <= end,
        r as int == rtrim_end(s@, i as int, end as int),
    decreases end - i,
{
    if end <= i {
        end
    } else {
        let b = s[end - 1];
        if b == BLANK || b == HTAB || b == 11 || b == 12 || b == 13 {
            rtrim_x(s, i, end - 1)
        } else {
            end
        }
    }
}

fn lower_x(b: u8) -> (r: u8)
    ensures
        r == lower(b),
{
    if 65 <= b && b <= 90 {
        b + 32
    } else {
        b
    }
}

fn strip_options_x(s: &[u8], ts: usize, te: usize) -> (r: usize)
    requires
        ts <= te <= s.len(),
    ensures
        ts <= r <= te,
        r as int == strip_options(s@, ts as int, te as int),
{
    if te - ts >= 8 && lower_x(s[ts]) == 111 && lower_x(s[ts + 1]) == 112 && lower_x(s[ts + 2])
        == 116 && lower_x(s[ts + 3]) == 105 && lower_x(s[ts + 4]) == 111 && lower_x(s[ts + 5])
        == 110 && lower_x(s[ts + 6]) == 115 && s[ts + 7] == COLON {
        skip_space_x(s, ts + 8, te)
    } else {
        ts
    }
}

fn cut_end_x(s: &[u8], i: usize, te: usize) -> (r: usize)
    requires
        i <= te <= s.len(),
    ensures
        r <= te,
        r as int == cut_end(s@, i as int, te as int),
    decreases te - i,
{
    if te - i <= 1 {
        te
    } else if s[i] == BLANK && s[i + 1] == BLANK {
        i
    } else {
        cut_end_x(s, i + 1, te)
    }
}

fn collect_region_x(s: &[u8], ds: usize, i: usize, ce: usize, out: &mut Vec<u8>)
    requires
        ds <= i,
        ce <= s.len(),
    ensures
        final(out)@ == old(out)@ + collect_region(s@, ds as int, i as int, ce as int),
    decreases ce - i,
{
    if i >= ce {
        proof {
            assert(out@ =~= out@ + collect_region(s@, ds as int, i as int, ce as int));
        }
        return ;
    }
    let short_here = s[i] == DASH && i + 1 < ce && !(s[i + 1] == BLANK || s[i + 1] == HTAB || s[i
        + 1] == EQUALS) && (i + 2 == ce || s[i + 2] == BLANK || s[i + 2] == HTAB || s[i + 2]
        == EQUALS || s[i + 2] == COMMA) && (i == ds || s[i - 1] != DASH);
    if short_here {
        out.push(s[i + 1]);
    }
    collect_region_x(s, ds, i + 1, ce, out);
    proof {
        assert(out@ =~= old(out)@ + collect_region(s@, ds as int, i as int, ce as int));
    }
}

fn line_shorts_x(s: &[u8], start: usize, end: usize, out: &mut Vec<u8>)
    requires
        start <= end <= s.len(),
    ensures
        final(out)@ == old(out)@ + line_shorts(s@, start as int, end as int),
    decreases end - start,
{
    let ts = skip_space_x(s, start, end);
    let te = rtrim_x(s, ts, end);
    let ds = strip_options_x(s, ts, te);
    let is_desc = te - ds > 1 && s[ds] == DASH && !(s[ds + 1] == BLANK || s[ds + 1] == HTAB || s[ds
        + 1] == 11 || s[ds + 1] == 12 || s[ds + 1] == 13);
    if is_desc {
        let ce = cut_end_x(s, ds, te);
        collect_region_x(s, ds, ds, ce, out);
    } else {
        proof {
            assert(out@ =~= out@ + line_shorts(s@, start as int, end as int));
        }
    }
}

fn text_shorts_x(s: &[u8], i: usize, out: &mut Vec<u8>)
    requires
        i <= s.len(),
    ensures
        final(out)@ == old(out)@ + text_shorts(s@, i as int),
    decreases s.len() - i,
{
    if i >= s.len() {
        proof {
            assert(out@ =~= out@ + text_shorts(s@, i as int));
        }
        return ;
    }
    let le = line_end_x(s, i);
    let next = if le >= s.len() {
        s.len()
    } else {
        le + 1
    };
    line_shorts_x(s, i, le, out);
    text_shorts_x(s, next, out);
    proof {
        assert(out@ =~= old(out)@ + text_shorts(s@, i as int));
    }
}

fn distinct_x(v: &Vec<u8>) -> (b: bool)
    ensures
        b == distinct_seq(v@),
{
    let mut i: usize = 0;
    while i < v.len()
        invariant
            i <= v.len(),
            forall|p: int, q: int| 0 <= p < i && p < q < v@.len() ==> v@[p] != v@[q],
        decreases v.len() - i,
    {
        let mut j: usize = i + 1;
        while j < v.len()
            invariant
                i < j <= v.len(),
                i < v.len(),
                forall|q: int| i < q < j ==> v@[i as int] != v@[q],
            decreases v.len() - j,
        {
            if v[i] == v[j] {
                return false;
            }
            j = j + 1;
        }
        i = i + 1;
    }
    true
}

/// Decides the screen's verdict on a usage text: true exactly when the
/// text is pure ASCII and no short flag is introduced by more than one
/// option-description line — the texts docopt cannot panic on.
pub fn grammar_is_safe(usage: &str) -> (b: bool)
    ensures
        b == safe_grammar(usage@),
{
    if !usage.is_ascii() {
        return false;
    }
    let bytes = usage.as_bytes();
    proof {
        is_ascii_spec_bytes(usage);
        assert(bytes@ =~= ascii_bytes(usage@));
    }
    let mut shorts: Vec<u8> = Vec::new();
    text_shorts_x(bytes, 0, &mut shorts);
    proof {
        assert(shorts@ =~= text_shorts(ascii_bytes(usage@), 0));
    }
    distinct_x(&shorts)
}

} // verus!
