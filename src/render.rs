//! Conversion of one raster frame into terminal line writes.
//!
//! Each pixel becomes a truecolor foreground directive followed by a
//! two-column block glyph; each row becomes one write at column 0 of the
//! terminal line with the row's index. Every frame is a full redraw.

use vstd::prelude::*;
use crate::frame::{RasterFrame, Rgb};

verus! {

/// The character for the decimal digit `d` (`0 <= d < 10`).
pub open spec fn digit_char(d: int) -> char {
    seq!['0', '1', '2', '3', '4', '5', '6', '7', '8', '9'][d]
}

/// Decimal notation of `v`, without leading zeros.
pub open spec fn decimal(v: nat) -> Seq<char>
    decreases v,
{
    if v < 10 {
        seq![digit_char(v as int)]
    } else {
        decimal(v / 10) + seq![digit_char((v % 10) as int)]
    }
}

/// `ESC [ 38 ; 2 ; r ; g ; b m`: sets the foreground to the exact colour `c`.
pub open spec fn color_directive(c: Rgb) -> Seq<char> {
    seq!['\x1b', '[', '3', '8', ';', '2', ';'] + decimal(c.r as nat) + seq![';'] + decimal(
        c.g as nat,
    ) + seq![';'] + decimal(c.b as nat) + seq!['m']
}

/// Two full blocks, which make a roughly square cell.
pub open spec fn block_glyph() -> Seq<char> {
    seq!['\u{2588}', '\u{2588}']
}

/// What one pixel is written as: its colour directive, then the glyph.
pub open spec fn cell_text(c: Rgb) -> Seq<char> {
    color_directive(c) + block_glyph()
}

/// The cell texts of `cells`, left to right.
pub open spec fn line_text(cells: Seq<Rgb>) -> Seq<char>
    decreases cells.len(),
{
    if cells.len() == 0 {
        Seq::empty()
    } else {
        line_text(cells.drop_last()) + cell_text(cells.last())
    }
}

/// A line is one cell text per colour, in order: the directive for each
/// pixel, each followed at once by the glyph, and nothing else.
pub proof fn lemma_line_is_cell_per_pixel(cells: Seq<Rgb>)
    ensures
        line_text(cells) == cells.map_values(|c: Rgb| cell_text(c)).flatten(),
    decreases cells.len(),
{
    if cells.len() > 0 {
        lemma_line_is_cell_per_pixel(cells.drop_last());
        let m = cells.map_values(|c: Rgb| cell_text(c));
        assert(m =~= cells.drop_last().map_values(|c: Rgb| cell_text(c)).push(cell_text(cells.last())));
        cells.drop_last().map_values(|c: Rgb| cell_text(c)).lemma_flatten_push(cell_text(cells.last()));
    } else {
        assert(cells.map_values(|c: Rgb| cell_text(c)) =~= Seq::<Seq<char>>::empty());
    }
}

/// The colours of row `y` of `f`, left to right.
pub open spec fn row_cells(f: RasterFrame, y: int) -> Seq<Rgb> {
    Seq::new(f.width as nat, |x: int| f.color_at(x, y))
}

/// One write: move the cursor to (`column`, `row`), then print `text`.
#[derive(Clone, Debug)]
pub struct LineWrite {
    pub column: u16,
    pub row: u16,
    pub text: String,
}

fn push_digit(s: &mut String, d: u8)
    requires
        d < 10,
    ensures
        final(s)@ == old(s)@ + seq![digit_char(d as int)],
{
    let t: &str = match d {
        0 => "0",
        1 => "1",
        2 => "2",
        3 => "3",
        4 => "4",
        5 => "5",
        6 => "6",
        7 => "7",
        8 => "8",
        _ => "9",
    };
    proof {
        reveal_strlit("0");
        reveal_strlit("1");
        reveal_strlit("2");
        reveal_strlit("3");
        reveal_strlit("4");
        reveal_strlit("5");
        reveal_strlit("6");
        reveal_strlit("7");
        reveal_strlit("8");
        reveal_strlit("9");
    }
    assert(t@ == seq![digit_char(d as int)]);
    s.append(t);
}

fn push_decimal(s: &mut String, v: u8)
    ensures
        final(s)@ == old(s)@ + decimal(v as nat),
{
    reveal_with_fuel(decimal, 3);
    if v >= 100 {
        push_digit(s, v / 100);
        push_digit(s, (v / 10) % 10);
        push_digit(s, v % 10);
        assert(decimal((v / 10) as nat) =~= seq![digit_char((v / 100) as int)] + seq![
            digit_char(((v / 10) % 10) as int),
        ]);
    } else if v >= 10 {
        push_digit(s, v / 10);
        push_digit(s, v % 10);
    } else {
        push_digit(s, v);
    }
    assert(final(s)@ =~= old(s)@ + decimal(v as nat));
}

/// Appends the text of one cell of colour `c`.
fn push_cell(s: &mut String, c: Rgb)
    ensures
        final(s)@ == old(s)@ + cell_text(c),
{
    let ghost s0 = s@;
    s.append("\x1b[38;2;");
    push_decimal(s, c.r);
    s.append(";");
    push_decimal(s, c.g);
    s.append(";");
    push_decimal(s, c.b);
    s.append("m");
    s.append("\u{2588}\u{2588}");
    proof {
        reveal_strlit("\x1b[38;2;");
        reveal_strlit(";");
        reveal_strlit("m");
        reveal_strlit("\u{2588}\u{2588}");
    }
    assert(s@ =~= s0 + cell_text(c));
}

proof fn lemma_offset_in_bounds(x: int, y: int, w: int, h: int)
    requires
        0 <= x < w,
        0 <= y < h,
    ensures
        (y * w + x) * 4 + 4 <= w * h * 4,
{
    assert((y * w + x) * 4 + 4 <= w * h * 4) by (nonlinear_arith)
        requires
            0 <= x < w,
            0 <= y < h,
    ;
}

proof fn lemma_next_row(y: int, w: int, h: int)
    requires
        0 <= w,
        0 <= y,
        y + 1 < h,
    ensures
        y * w * 4 + w * 4 == (y + 1) * w * 4,
        (y + 1) * w * 4 <= w * h * 4,
{
    assert(y * w * 4 + w * 4 == (y + 1) * w * 4) by (nonlinear_arith);
    assert((y + 1) * w * 4 <= w * h * 4) by (nonlinear_arith)
        requires
            0 <= w,
            y + 1 < h,
    ;
}

/// The text of row `y`, whose first byte is at `base`.
fn render_line(frame: &RasterFrame, y: u32, base: usize) -> (r: String)
    requires
        frame.wf(),
        y < frame.height,
        base == y * frame.width * 4,
    ensures
        r@ == line_text(row_cells(*frame, y as int)),
{
    let w = frame.width;
    let mut s = String::new();
    let mut x: u32 = 0;
    let mut o: usize = base;
    while x < w
        invariant
            frame.wf(),
            y < frame.height,
            w == frame.width,
            x <= w,
            o == (y * w + x) * 4,
            s@ == line_text(row_cells(*frame, y as int).subrange(0, x as int)),
        decreases w - x,
    {
        proof {
            lemma_offset_in_bounds(x as int, y as int, w as int, frame.height as int);
        }
        let plen: usize = frame.pixels.len();
        let c = Rgb { r: frame.pixels[o], g: frame.pixels[o + 1], b: frame.pixels[o + 2] };
        assert(c == frame.color_at(x as int, y as int));
        push_cell(&mut s, c);
        let ghost cells = row_cells(*frame, y as int);
        assert(cells.subrange(0, x + 1).drop_last() =~= cells.subrange(0, x as int));
        x = x + 1;
        o = o + 4;
        assert(o == (y * w + x) * 4) by (nonlinear_arith)
            requires
                o == (y * w + (x - 1)) * 4 + 4,
        ;
    }
    assert(row_cells(*frame, y as int).subrange(0, w as int) =~= row_cells(*frame, y as int));
    s
}

/// Converts `frame` into one write per row, top to bottom: row `y` is
/// written at column 0 of terminal line `y`, and holds one cell per pixel of
/// that row, left to right. Terminal line numbers are 16-bit, hence the
/// bound on the height.
pub fn render_frame(frame: &RasterFrame) -> (r: Vec<LineWrite>)
    requires
        frame.wf(),
        frame.height <= 65536,
    ensures
        r.len() == frame.height,
        forall|y: int|
            0 <= y < r.len() ==> {
                &&& row_cells(*frame, y).len() == frame.width
                &&& (#[trigger] r[y]).row == y
                &&& r[y].column == 0
                &&& r[y].text@ == line_text(row_cells(*frame, y))
            },
{
    let h = frame.height;
    let mut out: Vec<LineWrite> = Vec::new();
    let mut y: u32 = 0;
    let mut base: usize = 0;
    while y < h
        invariant
            frame.wf(),
            h == frame.height,
            h <= 65536,
            y <= h,
            out.len() == y,
            y < h ==> base == y * frame.width * 4,
            forall|k: int|
                0 <= k < y ==> {
                    &&& (#[trigger] out[k]).row == k
                    &&& out[k].column == 0
                    &&& out[k].text@ == line_text(row_cells(*frame, k))
                },
        decreases h - y,
    {
        let text = render_line(frame, y, base);
        out.push(LineWrite { column: 0, row: y as u16, text });
        if y + 1 < h {
            let plen: usize = frame.pixels.len();
            proof {
                lemma_next_row(y as int, frame.width as int, h as int);
            }
            base = base + frame.width as usize * 4;
        }
        y = y + 1;
    }
    out
}

} // verus!
