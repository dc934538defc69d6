//! The waveform renderer: a character grid of `height` rows, each row holding
//! two vertical positions, over quantised sample levels.
//!
//! A level is a position among the `2 * height` half-rows, 0 at the bottom.
//! Levels above the top are drawn at the top.

use vstd::prelude::*;
use vstd::string::*;
use crate::sample::{sample_columns, sample_columns_spec};

verus! {

/// What one character cell shows.
#[derive(Clone, Copy, PartialEq, Eq, Debug, Structural)]
pub enum Glyph {
    /// Both halves of the cell.
    Full,
    /// The upper half.
    Upper,
    /// The lower half.
    Lower,
    /// The dim baseline rule.
    Rule,
    /// Nothing.
    Blank,
}

/// `unit`, `k` times over.
pub open spec fn repeated(unit: Seq<char>, k: nat) -> Seq<char>
    decreases k,
{
    if k == 0 {
        Seq::empty()
    } else {
        repeated(unit, (k - 1) as nat) + unit
    }
}

/// A raw level brought into the grid: no higher than the top half-row.
pub open spec fn level_spec(raw: nat, height: nat) -> nat
    recommends
        height >= 1,
{
    if raw >= 2 * height - 1 {
        (2 * height - 1) as nat
    } else {
        raw
    }
}

/// The half-row of the value zero: the middle of the grid where the data is
/// flat, else the level of zero brought into the grid.
pub open spec fn zero_row_spec(zero_level: Option<usize>, height: nat) -> nat
    recommends
        height >= 1,
{
    match zero_level {
        None => height,
        Some(raw) => level_spec(raw as nat, height),
    }
}

/// Row `row` holds half-row `half`.
pub open spec fn row_holds(row: nat, half: nat) -> bool {
    half == 2 * row + 1 || half == 2 * row
}

/// The glyph of a sample at `level` in row `row`.
pub open spec fn glyph_spec(level: nat, row: nat, zero_row: nat) -> Glyph {
    let upper = 2 * row + 1;
    let lower = 2 * row;
    if level == upper && level == lower {
        Glyph::Full
    } else if level == upper {
        Glyph::Upper
    } else if level == lower {
        Glyph::Lower
    } else if row_holds(row, zero_row) {
        Glyph::Rule
    } else {
        Glyph::Blank
    }
}

/// The text of a glyph.
pub open spec fn glyph_text_spec(g: Glyph) -> Seq<char> {
    match g {
        Glyph::Full => "█"@,
        Glyph::Upper => "▀"@,
        Glyph::Lower => "▄"@,
        Glyph::Rule => "\x1b[37m─\x1b[0m"@,
        Glyph::Blank => " "@,
    }
}

/// One cell: the colour, the glyph, and a reset.
pub open spec fn cell_text(g: Glyph, color: Seq<char>) -> Seq<char> {
    color + glyph_text_spec(g) + "\x1b[0m"@
}

/// The first `upto` cells of row `row`.
pub open spec fn cells_text(
    levels: Seq<usize>,
    upto: nat,
    height: nat,
    row: nat,
    zero_row: nat,
    color: Seq<char>,
) -> Seq<char>
    decreases upto,
{
    if upto == 0 {
        Seq::empty()
    } else {
        cells_text(levels, (upto - 1) as nat, height, row, zero_row, color) + cell_text(
            glyph_spec(level_spec(levels[upto - 1] as nat, height), row, zero_row),
            color,
        )
    }
}

/// The margin of a row: the label, left-aligned in six columns, on the row of
/// the baseline; blanks of the same width on the others.
pub open spec fn margin_text(label: Seq<char>, row: nat, zero_row: nat) -> Seq<char> {
    if row_holds(row, zero_row) {
        label + repeated(" "@, if label.len() < 6 {
            (6 - label.len()) as nat
        } else {
            0
        }) + " │ "@
    } else {
        "       │ "@
    }
}

/// Row `row` of the grid: margin, cells, and a clear to the end of the line.
pub open spec fn row_text(
    levels: Seq<usize>,
    height: nat,
    row: nat,
    zero_row: nat,
    label: Seq<char>,
    color: Seq<char>,
) -> Seq<char> {
    margin_text(label, row, zero_row) + cells_text(
        levels,
        levels.len(),
        height,
        row,
        zero_row,
        color,
    ) + "\x1b[K"@
}

/// The number of rule characters in the header and the footer.
pub open spec fn rule_len(width: nat) -> nat {
    if width >= 9 {
        (width - 9) as nat
    } else {
        0
    }
}

/// A header or footer: the bound's text and a horizontal rule.
pub open spec fn bound_text(value: Seq<char>, width: nat) -> Seq<char> {
    "  "@ + value + " +"@ + repeated("─"@, rule_len(width))
}

/// The lines of a frame: the header with the upper bound, the rows from the
/// top down, the footer with the lower bound.
pub open spec fn frame_lines(
    levels: Seq<usize>,
    height: nat,
    zero_level: Option<usize>,
    label: Seq<char>,
    color: Seq<char>,
    max_text: Seq<char>,
    min_text: Seq<char>,
) -> Seq<Seq<char>> {
    Seq::new(
        height + 2,
        |k: int|
            if k == 0 {
                bound_text(max_text, levels.len())
            } else if k == height + 1 {
                bound_text(min_text, levels.len())
            } else {
                row_text(
                    levels,
                    height,
                    (height - k) as nat,
                    zero_row_spec(zero_level, height),
                    label,
                    color,
                )
            },
    )
}

/// The first `upto` lines, each followed by a line feed.
pub open spec fn joined(lines: Seq<Seq<char>>, upto: nat) -> Seq<char>
    decreases upto,
{
    if upto == 0 {
        Seq::empty()
    } else {
        joined(lines, (upto - 1) as nat) + lines[upto - 1] + "\n"@
    }
}

/// The text of a frame: the cursor hidden, the lines, the cursor shown.
pub open spec fn frame_text(lines: Seq<Seq<char>>) -> Seq<char> {
    "\x1b[?25l"@ + joined(lines, lines.len()) + "\x1b[?25h"@
}

/// A raw level brought into the grid of `height` rows.
pub fn clamp_level(raw: usize, height: usize) -> (level: usize)
    requires
        1 <= height <= usize::MAX / 2,
    ensures
        level == level_spec(raw as nat, height as nat),
        level < 2 * height,
{
    let top: usize = 2 * height - 1;
    if raw >= top {
        top
    } else {
        raw
    }
}

/// The half-row of the baseline. `zero_level` is the raw level of the value
/// zero, or `None` where the data is flat.
pub fn zero_row(zero_level: Option<usize>, height: usize) -> (half: usize)
    requires
        1 <= height <= usize::MAX / 2,
    ensures
        half == zero_row_spec(zero_level, height as nat),
        half < 2 * height,
{
    match zero_level {
        None => height,
        Some(raw) => clamp_level(raw, height),
    }
}

/// The glyph of a sample at `level` in row `row`. A level is one half-row,
/// so no sample fills both halves of a cell.
pub fn glyph_at(level: usize, row: usize, zero_row: usize) -> (g: Glyph)
    requires
        row < usize::MAX / 2,
    ensures
        g == glyph_spec(level as nat, row as nat, zero_row as nat),
        g != Glyph::Full,
{
    let upper: usize = row * 2 + 1;
    let lower: usize = row * 2;
    let on_upper: bool = level == upper;
    let on_lower: bool = level == lower;
    if on_upper && on_lower {
        Glyph::Full
    } else if on_upper {
        Glyph::Upper
    } else if on_lower {
        Glyph::Lower
    } else if upper == zero_row || lower == zero_row {
        Glyph::Rule
    } else {
        Glyph::Blank
    }
}

/// The text of a glyph.
pub fn glyph_text(g: Glyph) -> (text: &'static str)
    ensures
        text@ == glyph_text_spec(g),
{
    match g {
        Glyph::Full => "█",
        Glyph::Upper => "▀",
        Glyph::Lower => "▄",
        Glyph::Rule => "\x1b[37m─\x1b[0m",
        Glyph::Blank => " ",
    }
}

/// Appends `unit` to `buf`, `k` times over.
pub fn append_repeated(buf: &mut String, unit: &str, k: usize)
    ensures
        final(buf)@ == old(buf)@ + repeated(unit@, k as nat),
{
    let mut i: usize = 0;
    while i < k
        invariant
            i <= k,
            buf@ == old(buf)@ + repeated(unit@, i as nat),
        decreases k - i,
    {
        buf.append(unit);
        i += 1;
        assert(buf@ =~= old(buf)@ + repeated(unit@, i as nat));
    }
    assert(buf@ =~= old(buf)@ + repeated(unit@, k as nat));
}

/// A header or footer line for a grid `width` columns wide.
pub fn render_bound(value: &str, width: usize) -> (line: String)
    ensures
        line@ == bound_text(value@, width as nat),
{
    let mut line: String = String::new();
    line.append("  ");
    line.append(value);
    line.append(" +");
    append_repeated(&mut line, "─", width.saturating_sub(9));
    assert(line@ =~= bound_text(value@, width as nat));
    line
}

/// Row `row` of the grid over `levels`.
pub fn render_row(
    levels: &Vec<usize>,
    height: usize,
    row: usize,
    zero_row: usize,
    label: &str,
    color: &str,
) -> (line: String)
    requires
        1 <= height <= usize::MAX / 2,
        row < height,
    ensures
        line@ == row_text(levels@, height as nat, row as nat, zero_row as nat, label@, color@),
{
    let upper: usize = row * 2 + 1;
    let lower: usize = row * 2;
    let mut line: String = String::new();
    if upper == zero_row || lower == zero_row {
        let shown: usize = label.unicode_len();
        line.append(label);
        append_repeated(&mut line, " ", if shown < 6 { 6 - shown } else { 0 });
        line.append(" │ ");
    } else {
        line.append("       │ ");
    }
    assert(line@ =~= margin_text(label@, row as nat, zero_row as nat));
    let mut c: usize = 0;
    while c < levels.len()
        invariant
            c <= levels.len(),
            1 <= height <= usize::MAX / 2,
            row < height,
            line@ == margin_text(label@, row as nat, zero_row as nat) + cells_text(
                levels@,
                c as nat,
                height as nat,
                row as nat,
                zero_row as nat,
                color@,
            ),
        decreases levels.len() - c,
    {
        let level: usize = clamp_level(levels[c], height);
        let g: Glyph = glyph_at(level, row, zero_row);
        line.append(color);
        line.append(glyph_text(g));
        line.append("\x1b[0m");
        c += 1;
        assert(line@ =~= margin_text(label@, row as nat, zero_row as nat) + cells_text(
            levels@,
            c as nat,
            height as nat,
            row as nat,
            zero_row as nat,
            color@,
        ));
    }
    line.append("\x1b[K");
    line
}

/// The lines of a frame over `levels`, one column per level: exactly
/// `height + 2` of them, whatever the levels are.
pub fn render_lines(
    levels: &Vec<usize>,
    height: usize,
    zero_level: Option<usize>,
    label: &str,
    color: &str,
    max_text: &str,
    min_text: &str,
) -> (lines: Vec<String>)
    requires
        1 <= height <= usize::MAX / 2,
    ensures
        lines.len() == height + 2,
        lines@.map_values(|l: String| l@) == frame_lines(
            levels@,
            height as nat,
            zero_level,
            label@,
            color@,
            max_text@,
            min_text@,
        ),
{
    let ghost want = frame_lines(
        levels@,
        height as nat,
        zero_level,
        label@,
        color@,
        max_text@,
        min_text@,
    );
    let base: usize = zero_row(zero_level, height);
    let mut lines: Vec<String> = Vec::new();
    lines.push(render_bound(max_text, levels.len()));
    let mut row: usize = height;
    while row > 0
        invariant
            row <= height,
            1 <= height <= usize::MAX / 2,
            base == zero_row_spec(zero_level, height as nat),
            lines.len() == 1 + height - row,
            want == frame_lines(
                levels@,
                height as nat,
                zero_level,
                label@,
                color@,
                max_text@,
                min_text@,
            ),
            forall|k: int| 0 <= k < lines.len() ==> (#[trigger] lines@[k])@ == want[k],
        decreases row,
    {
        row -= 1;
        lines.push(render_row(levels, height, row, base, label, color));
    }
    lines.push(render_bound(min_text, levels.len()));
    assert(lines@.map_values(|l: String| l@) =~= want);
    lines
}

/// The frame over `levels` as one text: the lines of `render_lines`, a line
/// feed after each, between hiding and showing the cursor.
pub fn render_frame(
    levels: &Vec<usize>,
    height: usize,
    zero_level: Option<usize>,
    label: &str,
    color: &str,
    max_text: &str,
    min_text: &str,
) -> (text: String)
    requires
        1 <= height <= usize::MAX / 2,
    ensures
        text@ == frame_text(
            frame_lines(levels@, height as nat, zero_level, label@, color@, max_text@, min_text@),
        ),
{
    let lines: Vec<String> = render_lines(
        levels,
        height,
        zero_level,
        label,
        color,
        max_text,
        min_text,
    );
    let ghost want = lines@.map_values(|l: String| l@);
    let mut text: String = String::new();
    text.append("\x1b[?25l");
    let mut k: usize = 0;
    while k < lines.len()
        invariant
            k <= lines.len(),
            want == lines@.map_values(|l: String| l@),
            text@ == "\x1b[?25l"@ + joined(want, k as nat),
        decreases lines.len() - k,
    {
        text.append(lines[k].as_str());
        text.append("\n");
        k += 1;
        assert(text@ =~= "\x1b[?25l"@ + joined(want, k as nat));
    }
    text.append("\x1b[?25h");
    text
}

/// The baseline lies in exactly one row of the grid, so exactly one row
/// carries the label.
pub proof fn lemma_label_once(zero_level: Option<usize>, height: nat, row: nat)
    requires
        height >= 1,
    ensures
        zero_row_spec(zero_level, height) / 2 < height,
        row_holds(row, zero_row_spec(zero_level, height)) <==> row == zero_row_spec(
            zero_level,
            height,
        ) / 2,
{
}

/// `levels` are levels that `level_of` gives to the columns `cols`, one each.
pub open spec fn quantized<T, L: Fn(T) -> usize>(
    level_of: L,
    cols: Seq<T>,
    levels: Seq<usize>,
) -> bool {
    &&& levels.len() == cols.len()
    &&& forall|c: int|
        0 <= c < cols.len() ==> call_ensures(level_of, (cols[c],), #[trigger] levels[c])
}

/// The raw level of each column, as `level_of` gives it.
pub fn quantize<T: Copy, L: Fn(T) -> usize>(cols: &Vec<T>, level_of: &L) -> (levels: Vec<usize>)
    requires
        forall|v: T| call_requires(*level_of, (v,)),
    ensures
        quantized(*level_of, cols@, levels@),
{
    let mut levels: Vec<usize> = Vec::new();
    let mut c: usize = 0;
    while c < cols.len()
        invariant
            c <= cols.len(),
            levels.len() == c,
            forall|v: T| call_requires(*level_of, (v,)),
            forall|k: int| 0 <= k < c ==> call_ensures(*level_of, (cols@[k],), #[trigger] levels@[k]),
        decreases cols.len() - c,
    {
        let level: usize = level_of(cols[c]);
        levels.push(level);
        c += 1;
    }
    levels
}

/// The waveform of `data` on a grid `width` columns wide and `height` rows
/// high: the data is sampled down to the columns, each column is given its
/// level by `level_of`, and the frame over those levels is drawn.
pub fn render_waveform<T: Copy, L: Fn(T) -> usize>(
    data: &Vec<T>,
    width: usize,
    height: usize,
    label: &str,
    color: &str,
    level_of: &L,
    zero_level: Option<usize>,
    max_text: &str,
    min_text: &str,
) -> (text: String)
    requires
        data.len() >= 1,
        1 <= height <= usize::MAX / 2,
        forall|v: T| call_requires(*level_of, (v,)),
    ensures
        exists|levels: Seq<usize>| #[trigger]
            quantized(*level_of, sample_columns_spec(data@, width as nat), levels) && text@
                == frame_text(
                frame_lines(levels, height as nat, zero_level, label@, color@, max_text@, min_text@),
            ),
{
    let cols: Vec<T> = sample_columns(data, width);
    let levels: Vec<usize> = quantize(&cols, level_of);
    render_frame(&levels, height, zero_level, label, color, max_text, min_text)
}

/// The number of line feeds in `s`.
pub open spec fn line_feeds(s: Seq<char>) -> nat
    decreases s.len(),
{
    if s.len() == 0 {
        0
    } else {
        line_feeds(s.drop_last()) + if s.last() == '\n' {
            1nat
        } else {
            0nat
        }
    }
}

/// `s` holds no line feed.
pub open spec fn one_line(s: Seq<char>) -> bool {
    forall|i: int| 0 <= i < s.len() ==> s[i] != '\n'
}

proof fn lemma_line_feeds_concat(a: Seq<char>, b: Seq<char>)
    ensures
        line_feeds(a + b) == line_feeds(a) + line_feeds(b),
    decreases b.len(),
{
    if b.len() == 0 {
        assert(a + b =~= a);
    } else {
        assert((a + b).drop_last() =~= a + b.drop_last());
        lemma_line_feeds_concat(a, b.drop_last());
    }
}

proof fn lemma_one_line_has_no_feed(s: Seq<char>)
    requires
        one_line(s),
    ensures
        line_feeds(s) == 0,
    decreases s.len(),
{
    if s.len() > 0 {
        lemma_one_line_has_no_feed(s.drop_last());
    }
}

proof fn lemma_repeated_one_line(unit: Seq<char>, k: nat)
    requires
        one_line(unit),
    ensures
        one_line(repeated(unit, k)),
    decreases k,
{
    if k > 0 {
        lemma_repeated_one_line(unit, (k - 1) as nat);
    }
}

proof fn lemma_glyph_one_line(g: Glyph)
    ensures
        one_line(glyph_text_spec(g)),
        one_line("\x1b[0m"@),
{
    reveal_strlit("█");
    reveal_strlit("▀");
    reveal_strlit("▄");
    reveal_strlit("\x1b[37m─\x1b[0m");
    reveal_strlit(" ");
    reveal_strlit("\x1b[0m");
}

proof fn lemma_cells_one_line(
    levels: Seq<usize>,
    upto: nat,
    height: nat,
    row: nat,
    zero_row: nat,
    color: Seq<char>,
)
    requires
        one_line(color),
    ensures
        one_line(cells_text(levels, upto, height, row, zero_row, color)),
    decreases upto,
{
    if upto > 0 {
        lemma_cells_one_line(levels, (upto - 1) as nat, height, row, zero_row, color);
        lemma_glyph_one_line(glyph_spec(level_spec(levels[upto - 1] as nat, height), row, zero_row));
    }
}

proof fn lemma_row_one_line(
    levels: Seq<usize>,
    height: nat,
    row: nat,
    zero_row: nat,
    label: Seq<char>,
    color: Seq<char>,
)
    requires
        one_line(label),
        one_line(color),
    ensures
        one_line(row_text(levels, height, row, zero_row, label, color)),
{
    reveal_strlit(" ");
    reveal_strlit(" │ ");
    reveal_strlit("       │ ");
    reveal_strlit("\x1b[K");
    lemma_repeated_one_line(" "@, if label.len() < 6 {
        (6 - label.len()) as nat
    } else {
        0
    });
    lemma_cells_one_line(levels, levels.len(), height, row, zero_row, color);
}

proof fn lemma_bound_one_line(value: Seq<char>, width: nat)
    requires
        one_line(value),
    ensures
        one_line(bound_text(value, width)),
{
    reveal_strlit("  ");
    reveal_strlit(" +");
    reveal_strlit("─");
    lemma_repeated_one_line("─"@, rule_len(width));
}

proof fn lemma_joined_line_feeds(lines: Seq<Seq<char>>, upto: nat)
    requires
        upto <= lines.len(),
        forall|k: int| 0 <= k < upto ==> one_line(#[trigger] lines[k]),
    ensures
        line_feeds(joined(lines, upto)) == upto,
    decreases upto,
{
    if upto > 0 {
        lemma_joined_line_feeds(lines, (upto - 1) as nat);
        reveal_strlit("\n");
        let head = joined(lines, (upto - 1) as nat);
        let line = lines[upto - 1];
        lemma_line_feeds_concat(head + line, "\n"@);
        lemma_line_feeds_concat(head, line);
        lemma_one_line_has_no_feed(line);
        assert(line_feeds("\n"@) == 1) by {
            reveal_with_fuel(line_feeds, 2);
        }
    }
}

/// A frame whose label, colour and bounds hold no line feed is exactly
/// `height + 2` lines of text, whatever the levels, the width and the height.
pub proof fn lemma_frame_line_count(
    levels: Seq<usize>,
    height: nat,
    zero_level: Option<usize>,
    label: Seq<char>,
    color: Seq<char>,
    max_text: Seq<char>,
    min_text: Seq<char>,
)
    requires
        one_line(label),
        one_line(color),
        one_line(max_text),
        one_line(min_text),
    ensures
        frame_lines(levels, height, zero_level, label, color, max_text, min_text).len() == height
            + 2,
        line_feeds(
            frame_text(
                frame_lines(levels, height, zero_level, label, color, max_text, min_text),
            ),
        ) == height + 2,
{
    let lines = frame_lines(levels, height, zero_level, label, color, max_text, min_text);
    assert forall|k: int| 0 <= k < lines.len() implies one_line(#[trigger] lines[k]) by {
        if k == 0 {
            lemma_bound_one_line(max_text, levels.len());
        } else if k == height + 1 {
            lemma_bound_one_line(min_text, levels.len());
        } else {
            lemma_row_one_line(
                levels,
                height,
                (height - k) as nat,
                zero_row_spec(zero_level, height),
                label,
                color,
            );
        }
    }
    lemma_joined_line_feeds(lines, lines.len());
    reveal_strlit("\x1b[?25l");
    reveal_strlit("\x1b[?25h");
    lemma_one_line_has_no_feed("\x1b[?25l"@);
    lemma_one_line_has_no_feed("\x1b[?25h"@);
    lemma_line_feeds_concat("\x1b[?25l"@ + joined(lines, lines.len()), "\x1b[?25h"@);
    lemma_line_feeds_concat("\x1b[?25l"@, joined(lines, lines.len()));
}

} // verus!
