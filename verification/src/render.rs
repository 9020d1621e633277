//! Rendering the palette as terminal text: one line per output row,
//! colored blocks written as ANSI truecolor background escapes around
//! three spaces.

use vstd::prelude::*;
use vstd::string::StringExecFns;
use vstd::arithmetic::div_mod::lemma_fundamental_div_mod_converse;
use crate::color::{spec_red, spec_green, spec_blue, red_of, green_of, blue_of};

verus! {

broadcast use vstd::string::group_string_axioms;

/// The character for a single decimal digit.
pub open spec fn digit_char(d: int) -> char {
    if d == 0 {
        '0'
    } else if d == 1 {
        '1'
    } else if d == 2 {
        '2'
    } else if d == 3 {
        '3'
    } else if d == 4 {
        '4'
    } else if d == 5 {
        '5'
    } else if d == 6 {
        '6'
    } else if d == 7 {
        '7'
    } else if d == 8 {
        '8'
    } else {
        '9'
    }
}

/// The decimal digits of a non-negative number, most significant
/// first, without leading zeros.
pub open spec fn spec_decimal(n: int) -> Seq<char>
    decreases n,
{
    if n < 10 {
        seq![digit_char(n)]
    } else {
        spec_decimal(n / 10).push(digit_char(n % 10))
    }
}

/// One colored block: set the truecolor background to the entry's
/// channels, print three spaces, reset formatting.
pub open spec fn spec_block(c: u32) -> Seq<char> {
    "\x1b[48;2;"@ + spec_decimal(spec_red(c) as int) + ";"@ + spec_decimal(spec_green(c) as int)
        + ";"@ + spec_decimal(spec_blue(c) as int) + "m   \x1b[0m"@
}

/// A row of `n` blocks for the palette entries at `start`, in order.
pub open spec fn row_chars(p: Seq<u32>, start: int, n: int) -> Seq<char>
    decreases n,
{
    if n <= 0 {
        Seq::empty()
    } else {
        row_chars(p, start, n - 1) + spec_block(p[start + n - 1])
    }
}

/// The title line.
pub open spec fn title_chars() -> Seq<char> {
    "Color Palette (254 colors arranged in gradient grid)"@
}

/// The cube section header.
pub open spec fn cube_header_chars() -> Seq<char> {
    "RGB Cube (216 colors):"@
}

/// The per-red-level header, 1-based: "Red level k/6:" for k = r + 1.
pub open spec fn red_header_chars(r: int) -> Seq<char> {
    "Red level "@ + seq![digit_char(r + 1)] + "/6:"@
}

/// The grayscale section header, naming the index range.
pub open spec fn gray_header_chars() -> Seq<char> {
    "Grayscale (216-239):"@
}

/// The extras section header, naming the index range.
pub open spec fn extras_header_chars() -> Seq<char> {
    "Extra colors (240-253):"@
}

/// The cube section's lines: for each red level an empty line, the
/// level header, then six rows of six blocks, row-major over green.
pub open spec fn cube_lines(p: Seq<u32>) -> Seq<Seq<char>> {
    Seq::new(
        48,
        |j: int|
            if j % 8 == 0 {
                Seq::<char>::empty()
            } else if j % 8 == 1 {
                red_header_chars(j / 8)
            } else {
                row_chars(p, (j / 8) * 36 + (j % 8 - 2) * 6, 6)
            },
    )
}

/// The whole rendered output, as a sequence of lines (each printed
/// with a trailing line break): title, cube section, grayscale row for
/// indices 216..240, and extras rows of seven blocks for 240..254.
pub open spec fn spec_lines(p: Seq<u32>) -> Seq<Seq<char>> {
    seq![title_chars(), Seq::<char>::empty(), cube_header_chars()] + cube_lines(p) + seq![
        Seq::<char>::empty(),
        gray_header_chars(),
        row_chars(p, 216, 24),
        Seq::<char>::empty(),
        extras_header_chars(),
        row_chars(p, 240, 7),
        row_chars(p, 247, 7),
        Seq::<char>::empty(),
    ]
}

/// The views of a sequence of owned lines.
pub open spec fn line_views(ls: Seq<String>) -> Seq<Seq<char>> {
    ls.map_values(|s: String| s@)
}

/// The one-character string for a decimal digit.
pub fn digit_str(d: u8) -> (s: &'static str)
    requires
        d < 10,
    ensures
        s@ == seq![digit_char(d as int)],
{
    let s: &'static str = if d == 0 {
        "0"
    } else if d == 1 {
        "1"
    } else if d == 2 {
        "2"
    } else if d == 3 {
        "3"
    } else if d == 4 {
        "4"
    } else if d == 5 {
        "5"
    } else if d == 6 {
        "6"
    } else if d == 7 {
        "7"
    } else if d == 8 {
        "8"
    } else {
        "9"
    };
    proof {
        reveal_strlit("0");
        reveal_strlit("1");
        reveal_strlit("2");
        reveal_strlit("3");
        reveal_strlit("4");
        reveal_strlit("5");
        reveal_strlit("6");
        reveal_strlit("7");
        reveal_strlit("8");
        reveal_strlit("9");
        assert(s@ =~= seq![digit_char(d as int)]);
    }
    s
}

/// Writes a channel value in decimal, without leading zeros.
pub fn decimal_u8(n: u8) -> (s: String)
    ensures
        s@ == spec_decimal(n as int),
{
    let mut s = String::new();
    if n >= 100 {
        s.append(digit_str((n / 10) / 10));
    }
    if n >= 10 {
        s.append(digit_str((n / 10) % 10));
    }
    s.append(digit_str(n % 10));
    proof {
        if n < 10 {
            assert(s@ =~= spec_decimal(n as int));
        } else if n < 100 {
            assert(spec_decimal(n as int / 10) =~= seq![digit_char(n as int / 10)]);
            assert(s@ =~= spec_decimal(n as int));
        } else {
            assert(spec_decimal(n as int / 10) =~= spec_decimal(n as int / 10 / 10).push(
                digit_char((n as int / 10) % 10),
            ));
            assert(spec_decimal(n as int / 10 / 10) =~= seq![digit_char(n as int / 10 / 10)]);
            assert(s@ =~= spec_decimal(n as int));
        }
    }
    s
}

/// Renders one colored block for a palette entry.
pub fn block_string(c: u32) -> (s: String)
    ensures
        s@ == spec_block(c),
{
    let r = red_of(c);
    let g = green_of(c);
    let b = blue_of(c);
    let mut s = String::new();
    s.append("\x1b[48;2;");
    let rs = decimal_u8(r);
    s.append(rs.as_str());
    s.append(";");
    let gs = decimal_u8(g);
    s.append(gs.as_str());
    s.append(";");
    let bs = decimal_u8(b);
    s.append(bs.as_str());
    s.append("m   \x1b[0m");
    proof {
        assert(s@ =~= spec_block(c));
    }
    s
}

/// Renders a row of `count` blocks for the entries at `start`.
pub fn row_string(p: &Vec<u32>, start: usize, count: usize) -> (s: String)
    requires
        start + count <= p@.len(),
    ensures
        s@ == row_chars(p@, start as int, count as int),
{
    let len = p.len();
    let mut s = String::new();
    for j in 0..count
        invariant
            start + count <= len == p@.len(),
            s@ == row_chars(p@, start as int, j as int),
    {
        let blk = block_string(p[start + j]);
        s.append(blk.as_str());
        proof {
            assert(s@ =~= row_chars(p@, start as int, j + 1));
        }
    }
    s
}

/// Renders the per-red-level header, 1-based.
pub fn red_header_string(r_idx: usize) -> (s: String)
    requires
        r_idx < 6,
    ensures
        s@ == red_header_chars(r_idx as int),
{
    let mut s = String::new();
    s.append("Red level ");
    s.append(digit_str((r_idx + 1) as u8));
    s.append("/6:");
    proof {
        assert(s@ =~= red_header_chars(r_idx as int));
    }
    s
}

/// Renders the whole palette as its sequence of output lines: the
/// title, the cube section (six headers each followed by six rows of
/// six blocks), the grayscale row for indices 216..240, and the extras
/// rows of seven blocks covering indices 240..254.
pub fn render_lines(p: &Vec<u32>) -> (lines: Vec<String>)
    requires
        p@.len() == 254,
    ensures
        line_views(lines@) == spec_lines(p@),
        lines@.len() == 59,
{
    let mut lines: Vec<String> = Vec::new();
    lines.push(String::from_str("Color Palette (254 colors arranged in gradient grid)"));
    lines.push(String::new());
    lines.push(String::from_str("RGB Cube (216 colors):"));

    let mut r_idx: usize = 0;
    while r_idx < 6
        invariant
            r_idx <= 6,
            p@.len() == 254,
            lines@.len() == 3 + 8 * r_idx,
            lines@[0]@ == title_chars(),
            lines@[1]@ == Seq::<char>::empty(),
            lines@[2]@ == cube_header_chars(),
            forall|t: int|
                3 <= t < lines@.len() ==> (#[trigger] lines@[t])@ == cube_lines(p@)[t - 3],
        decreases 6 - r_idx,
    {
        lines.push(String::new());
        lines.push(red_header_string(r_idx));
        let mut g_idx: usize = 0;
        while g_idx < 6
            invariant
                g_idx <= 6,
                r_idx < 6,
                p@.len() == 254,
                lines@.len() == 5 + 8 * r_idx + g_idx,
                lines@[0]@ == title_chars(),
                lines@[1]@ == Seq::<char>::empty(),
                lines@[2]@ == cube_header_chars(),
                forall|t: int|
                    3 <= t < 3 + 8 * r_idx ==> (#[trigger] lines@[t])@ == cube_lines(p@)[t - 3],
                lines@[3 + 8 * r_idx]@ == Seq::<char>::empty(),
                lines@[4 + 8 * r_idx]@ == red_header_chars(r_idx as int),
                forall|t: int|
                    5 + 8 * r_idx <= t < lines@.len() ==> (#[trigger] lines@[t])@ == row_chars(
                        p@,
                        36 * (r_idx as int) + 6 * (t - 5 - 8 * (r_idx as int)),
                        6,
                    ),
            decreases 6 - g_idx,
        {
            lines.push(row_string(p, 36 * r_idx + 6 * g_idx, 6));
            g_idx += 1;
        }
        proof {
            assert forall|t: int| 3 <= t < 3 + 8 * (r_idx + 1) implies (#[trigger] lines@[t])@
                == cube_lines(p@)[t - 3] by {
                if t >= 3 + 8 * r_idx {
                    let j = t - 3 - 8 * (r_idx as int);
                    lemma_fundamental_div_mod_converse(t - 3, 8, r_idx as int, j);
                }
            }
        }
        r_idx += 1;
    }

    lines.push(String::new());
    lines.push(String::from_str("Grayscale (216-239):"));
    lines.push(row_string(p, 216, 24));
    lines.push(String::new());
    lines.push(String::from_str("Extra colors (240-253):"));
    lines.push(row_string(p, 240, 7));
    lines.push(row_string(p, 247, 7));
    lines.push(String::new());

    proof {
        assert(lines@.len() == 59);
        assert forall|t: int| 0 <= t < 59 implies line_views(lines@)[t] == spec_lines(p@)[t] by {
            if 3 <= t < 51 {
                assert(lines@[t]@ == cube_lines(p@)[t - 3]);
            }
        }
        assert(line_views(lines@) =~= spec_lines(p@));
    }
    lines
}

/// A row of `n` blocks is exactly the concatenation of the blocks of
/// the `n` palette entries at `start`, in index order.
pub proof fn lemma_row_blocks(p: Seq<u32>, start: int, n: int)
    requires
        0 <= start,
        0 <= n,
        start + n <= p.len(),
    ensures
        row_chars(p, start, n) == Seq::new(n as nat, |j: int| spec_block(p[start + j])).flatten(),
    decreases n,
{
    let blocks = Seq::new(n as nat, |j: int| spec_block(p[start + j]));
    if n == 0 {
        assert(blocks.flatten() =~= Seq::<char>::empty());
    } else {
        lemma_row_blocks(p, start, n - 1);
        let prev = Seq::new((n - 1) as nat, |j: int| spec_block(p[start + j]));
        assert(blocks =~= prev.push(spec_block(p[start + n - 1])));
        prev.lemma_flatten_push(spec_block(p[start + n - 1]));
        assert(row_chars(p, start, n) =~= blocks.flatten());
    }
}

/// The cube section: for each red level r in 0..6, line 3 + 8r is
/// blank, line 4 + 8r is the header "Red level r+1/6:", and each of
/// the six following lines is a row of exactly the six blocks of the
/// cube entries at index 36r + 6g, in blue order.
pub proof fn lemma_cube_section_shape(p: Seq<u32>, r: int, g: int)
    requires
        p.len() == 254,
        0 <= r < 6,
        0 <= g < 6,
    ensures
        spec_lines(p).len() == 59,
        spec_lines(p)[3 + 8 * r] == Seq::<char>::empty(),
        spec_lines(p)[4 + 8 * r] == red_header_chars(r),
        spec_lines(p)[5 + 8 * r + g] == Seq::new(
            6,
            |j: int| spec_block(p[36 * r + 6 * g + j]),
        ).flatten(),
{
    lemma_fundamental_div_mod_converse(8 * r, 8, r, 0);
    lemma_fundamental_div_mod_converse(8 * r + 1, 8, r, 1);
    lemma_fundamental_div_mod_converse(8 * r + 2 + g, 8, r, 2 + g);
    lemma_row_blocks(p, 36 * r + 6 * g, 6);
}

/// The grayscale section: one header line and exactly one row holding
/// the 24 blocks of palette indices 216..240.
pub proof fn lemma_gray_section_shape(p: Seq<u32>)
    requires
        p.len() == 254,
    ensures
        spec_lines(p)[51] == Seq::<char>::empty(),
        spec_lines(p)[52] == gray_header_chars(),
        spec_lines(p)[53] == Seq::new(24, |j: int| spec_block(p[216 + j])).flatten(),
{
    lemma_row_blocks(p, 216, 24);
}

/// The extras section: one header line, then rows of seven blocks
/// each, a break after every seventh block; the fourteen entries at
/// indices 240..254 make exactly two full rows.
pub proof fn lemma_extras_section_shape(p: Seq<u32>)
    requires
        p.len() == 254,
    ensures
        spec_lines(p)[54] == Seq::<char>::empty(),
        spec_lines(p)[55] == extras_header_chars(),
        spec_lines(p)[56] == Seq::new(7, |j: int| spec_block(p[240 + j])).flatten(),
        spec_lines(p)[57] == Seq::new(7, |j: int| spec_block(p[247 + j])).flatten(),
        spec_lines(p)[58] == Seq::<char>::empty(),
        spec_lines(p).len() == 59,
{
    lemma_row_blocks(p, 240, 7);
    lemma_row_blocks(p, 247, 7);
}

} // verus!
