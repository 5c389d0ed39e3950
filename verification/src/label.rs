//! Text labels: splitting a label into lines and placing each line on the
//! button's canvas.

use vstd::prelude::*;

verus! {

/// Glyph height used where a button gives none: 15 pixels, in hundredths.
pub const DEFAULT_TEXT_HEIGHT: u32 = 1500;

/// One line of a label and the vertical offset, in pixels from the top of
/// the canvas, at which its glyphs are drawn (left-aligned).
#[derive(Debug)]
pub struct PlacedLine {
    pub text: String,
    pub y: u32,
}

/// The lines of `s` from position `pos` on, where the line being read
/// started at `start`.
pub open spec fn lines_from(s: Seq<char>, start: int, pos: int) -> Seq<Seq<char>>
    decreases s.len() - pos,
{
    if pos < 0 || start < 0 || start > pos || pos >= s.len() {
        seq![s.subrange(start, s.len() as int)]
    } else if s[pos] == '\n' {
        seq![s.subrange(start, pos)] + lines_from(s, pos + 1, pos + 1)
    } else {
        lines_from(s, start, pos + 1)
    }
}

/// The lines of `s`: the pieces between its newline characters. A text
/// without a newline is one line; a trailing newline ends an empty last line.
pub open spec fn split_lines(s: Seq<char>) -> Seq<Seq<char>> {
    lines_from(s, 0, 0)
}

/// Whether `line` holds no newline character.
pub open spec fn is_single_line(line: Seq<char>) -> bool {
    forall|i: int| 0 <= i < line.len() ==> line[i] != '\n'
}

/// The text that has the given lines: the lines with a newline character
/// between each two.
pub open spec fn join_lines(lines: Seq<Seq<char>>) -> Seq<char>
    decreases lines.len(),
{
    if lines.len() == 0 {
        Seq::empty()
    } else if lines.len() == 1 {
        lines[0]
    } else {
        lines[0] + seq!['\n'] + join_lines(lines.drop_first())
    }
}

proof fn lemma_lines_from(s: Seq<char>, start: int, pos: int)
    requires
        0 <= start <= pos <= s.len(),
        forall|i: int| start <= i < pos ==> s[i] != '\n',
    ensures
        lines_from(s, start, pos).len() >= 1,
        forall|k: int|
            0 <= k < lines_from(s, start, pos).len() ==> is_single_line(
                #[trigger] lines_from(s, start, pos)[k],
            ),
        join_lines(lines_from(s, start, pos)) == s.subrange(start, s.len() as int),
    decreases s.len() - pos,
{
    let end = s.len() as int;
    if pos >= s.len() {
        assert(lines_from(s, start, pos)[0] == s.subrange(start, end));
    } else if s[pos] == '\n' {
        lemma_lines_from(s, pos + 1, pos + 1);
        let head = s.subrange(start, pos);
        let rest = lines_from(s, pos + 1, pos + 1);
        let all = seq![head] + rest;
        assert(all == lines_from(s, start, pos));
        assert(all.drop_first() =~= rest);
        assert(all[0] == head);
        assert(head + seq!['\n'] + s.subrange(pos + 1, end) =~= s.subrange(start, end));
        assert forall|k: int| 0 <= k < all.len() implies is_single_line(#[trigger] all[k]) by {
            if k > 0 {
                assert(all[k] == rest[k - 1]);
            }
        }
    } else {
        lemma_lines_from(s, start, pos + 1);
    }
}

/// Splitting loses nothing and leaves no newline behind: a text has at
/// least one line, no line holds a newline character, and the lines joined
/// by newline characters are the text again.
pub proof fn lemma_split_lines(s: Seq<char>)
    ensures
        split_lines(s).len() >= 1,
        forall|k: int|
            0 <= k < split_lines(s).len() ==> is_single_line(#[trigger] split_lines(s)[k]),
        join_lines(split_lines(s)) == s,
{
    lemma_lines_from(s, 0, 0);
    assert(s.subrange(0, s.len() as int) =~= s);
}

/// The glyph height in hundredths of a pixel: the configured one, else the default.
pub open spec fn effective_size(text_size: Option<u32>) -> nat {
    match text_size {
        Some(s) => s as nat,
        None => DEFAULT_TEXT_HEIGHT as nat,
    }
}

/// Pixels from one line to the next: 1.1 times the glyph height, rounded to
/// the nearest pixel (halves round up). `size` is in hundredths of a pixel.
pub open spec fn spec_line_advance(size: nat) -> nat {
    (size * 11 + 500) / 1000
}

/// Pixels from one line of a label to the next, for a glyph height in
/// hundredths of a pixel.
pub fn line_advance(text_size: Option<u32>) -> (advance: u32)
    ensures
        advance == spec_line_advance(effective_size(text_size)),
{
    let size: u64 = match text_size {
        Some(s) => s as u64,
        None => DEFAULT_TEXT_HEIGHT as u64,
    };
    let scaled: u64 = (size * 11 + 500) / 1000;
    scaled as u32
}

/// Whether `out` places the lines of `text` on a canvas `height` pixels
/// high: line `k` stands `k` advances below the top, and exactly the lines
/// that start on the canvas are placed.
pub open spec fn places(
    out: Seq<PlacedLine>,
    text: Seq<char>,
    text_size: Option<u32>,
    height: nat,
) -> bool {
    let lines = split_lines(text);
    let advance = spec_line_advance(effective_size(text_size));
    &&& out.len() <= lines.len()
    &&& forall|k: int|
        0 <= k < out.len() ==> (#[trigger] out[k]).text@ == lines[k] && out[k].y == k * advance
    &&& forall|k: int|
        0 <= k < lines.len() ==> (k < out.len() <==> #[trigger] (k * advance) < height)
}

/// Places the lines of a label on a canvas `height` pixels high.
///
/// The first line is drawn at offset 0 and each following line one line
/// advance lower. Lines that would start at or below the bottom edge leave
/// no mark on the canvas and are not placed.
pub fn layout_text(text: &str, text_size: Option<u32>, height: u32) -> (out: Vec<PlacedLine>)
    ensures
        places(out@, text@, text_size, height as nat),
{
    let advance = line_advance(text_size);
    let n = text.unicode_len();
    let mut out: Vec<PlacedLine> = Vec::new();
    let mut start: usize = 0;
    let mut pos: usize = 0;
    let mut y: u64 = 0;
    let ghost mut done: Seq<Seq<char>> = Seq::empty();
    while pos < n
        invariant
            n == text@.len(),
            start <= pos <= n,
            advance == spec_line_advance(effective_size(text_size)),
            done + lines_from(text@, start as int, pos as int) == split_lines(text@),
            out@.len() <= done.len(),
            y < height ==> out@.len() == done.len() && y == done.len() * advance,
            y >= height ==> done.len() * advance >= height,
            y <= height + advance,
            forall|k: int|
                0 <= k < out@.len() ==> (#[trigger] out@[k]).text@ == done[k] && out@[k].y == k
                    * advance,
            forall|k: int|
                0 <= k < done.len() ==> (k < out@.len() <==> #[trigger] (k * advance) < height),
        decreases n - pos,
    {
        let c = text.get_char(pos);
        if c == '\n' {
            let ghost line = text@.subrange(start as int, pos as int);
            let ghost k = done.len() as int;
            if y < height as u64 {
                let piece = text.substring_char(start, pos);
                out.push(PlacedLine { text: String::from_str(piece), y: y as u32 });
                y = y + advance as u64;
            }
            proof {
                assert((k + 1) * advance == k * advance + advance) by (nonlinear_arith);
                assert((done + seq![line]) + lines_from(text@, pos + 1, pos + 1) =~= done + (seq![
                    line,
                ] + lines_from(text@, pos + 1, pos + 1)));
                done = done.push(line);
                assert(done =~= done.drop_last() + seq![line]);
            }
            start = pos + 1;
        }
        pos = pos + 1;
    }
    let ghost last = text@.subrange(start as int, n as int);
    let ghost k = done.len() as int;
    if y < height as u64 {
        let piece = text.substring_char(start, n);
        out.push(PlacedLine { text: String::from_str(piece), y: y as u32 });
    }
    proof {
        assert(done + seq![last] =~= split_lines(text@));
        assert(split_lines(text@).len() == k + 1);
        assert(split_lines(text@)[k] == last);
        assert forall|j: int| 0 <= j < k implies split_lines(text@)[j] == done[j] by {}
    }
    out
}

} // verus!
