//! QR codes: the code of a text as an SVG image and as lines of block
//! characters for a terminal.
//!
//! The code itself is made by the `qrcode` crate; what it makes of given
//! bytes is named here and not defined.

use vstd::prelude::*;
use vstd::string::*;

verus! {

/// The SVG image of the QR code that the `qrcode` crate draws for `data`, no
/// less than `min_width` pixels wide and `min_height` pixels high, if the
/// data fits a QR code.
pub uninterp spec fn qr_svg(data: Seq<u8>, min_width: u32, min_height: u32) -> Option<Seq<char>>;

/// The modules of the QR code that the `qrcode` crate makes of `data`, row by
/// row, with `true` for a dark module, and the number of modules in a row; or
/// nothing if the data do not fit a QR code.
pub uninterp spec fn qr_modules(data: Seq<u8>) -> Option<(Seq<bool>, nat)>;

/// The most modules that a row of a QR code has.
pub const MAX_WIDTH: usize = 177;

/// A least size in pixels that the renderer can be asked for: the renderer
/// adds to it the modules in a row of a code and in its two margins of four
/// modules, and the sum must be a number of 32 bits.
pub open spec fn renderable(min_pixels: u32) -> bool {
    min_pixels + MAX_WIDTH + 8 <= u32::MAX
}

/// `QrCode::new` of the `qrcode` crate and its SVG renderer with
/// `min_dimensions`. The contract only names the image; where the crate
/// cannot make a code of the data, its description of the fault is handed
/// back. The precondition rules out the sizes at which the renderer's
/// arithmetic overflows.
#[verifier::external_body]
pub(crate) fn render_qr_svg(data: &[u8], min_width: u32, min_height: u32) -> (r: Result<
    String,
    String,
>)
    requires
        renderable(min_width),
        renderable(min_height),
    ensures
        match r {
            Ok(image) => qr_svg(data@, min_width, min_height) == Some(image@),
            Err(_) => qr_svg(data@, min_width, min_height) is None,
        },
{
    match qrcode::QrCode::new(data) {
        Ok(code) => Ok(
            code.render::<qrcode::render::svg::Color>().min_dimensions(min_width, min_height).build(),
        ),
        Err(e) => Err(e.to_string()),
    }
}

/// `QrCode::new` of the `qrcode` crate, with `to_colors` and `width` of the
/// code it makes. The contract names the modules and states that a code has
/// at least one and at most 177 modules in a row; where the crate cannot
/// make a code of the data, its description of the fault is handed back.
#[verifier::external_body]
pub(crate) fn make_qr_modules(data: &[u8]) -> (r: Result<(Vec<bool>, usize), String>)
    ensures
        match r {
            Ok((dark, width)) => qr_modules(data@) == Some((dark@, width as nat)) && 0 < width
                <= MAX_WIDTH,
            Err(_) => qr_modules(data@) is None,
        },
{
    let code = match qrcode::QrCode::new(data) {
        Ok(code) => code,
        Err(e) => return Err(e.to_string()),
    };
    let mut dark = Vec::new();
    for color in code.to_colors() {
        dark.push(match color {
            qrcode::Color::Dark => true,
            qrcode::Color::Light => false,
        });
    }
    Ok((dark, code.width()))
}

/// Whether the module at position `i` is there and dark.
pub open spec fn is_dark(dark: Seq<bool>, i: int) -> bool {
    0 <= i < dark.len() && dark[i]
}

/// The block character that shows two modules, one above the other.
pub open spec fn half_block(top: bool, bottom: bool) -> char {
    if top && bottom {
        '█'
    } else if top {
        '▀'
    } else if bottom {
        '▄'
    } else {
        ' '
    }
}

/// A run of `n` spaces.
pub open spec fn spaces(n: nat) -> Seq<char> {
    Seq::new(n, |i: int| ' ')
}

/// The block characters that show the two rows of modules that begin at
/// position `at`, up to column `upto`.
pub open spec fn blocks(dark: Seq<bool>, width: nat, at: int, upto: nat) -> Seq<char> {
    Seq::new(upto, |x: int| half_block(is_dark(dark, at + x), is_dark(dark, at + width + x)))
}

/// The line that shows the two rows of modules that begin at position `at`:
/// four spaces of margin, the block characters, two spaces of margin.
pub open spec fn block_line(dark: Seq<bool>, width: nat, at: int) -> Seq<char> {
    spaces(4) + blocks(dark, width, at, width) + spaces(2)
}

/// The line above and below the code: spaces as wide as the code and its
/// margins.
pub open spec fn quiet_line(width: nat) -> Seq<char> {
    spaces(width + 6)
}

/// How many lines show a code of `len` modules: one for every two rows, the
/// last of which may show a single row.
pub open spec fn line_count(len: nat, width: nat) -> nat
    recommends
        width > 0,
{
    ((len + 2 * width - 1) / (2 * width as int)) as nat
}

/// A run of spaces.
fn space_run(n: usize) -> (text: String)
    ensures
        text@ == spaces(n as nat),
{
    let mut text = String::new();
    let mut i: usize = 0;
    while i < n
        invariant
            i <= n,
            text@ == spaces(i as nat),
        decreases n - i,
    {
        text.append(" ");
        proof {
            reveal_strlit(" ");
        }
        i += 1;
    }
    text
}

/// The block character for two modules, as a string.
fn block_for(top: bool, bottom: bool) -> (block: &'static str)
    ensures
        block@ == seq![half_block(top, bottom)],
{
    proof {
        reveal_strlit("█");
        reveal_strlit("▀");
        reveal_strlit("▄");
        reveal_strlit(" ");
    }
    if top && bottom {
        "█"
    } else if top {
        "▀"
    } else if bottom {
        "▄"
    } else {
        " "
    }
}

/// Draws rows of modules as lines of block characters, each of which shows
/// two modules, one above the other: a quiet line, a line for every two rows
/// of modules, and a quiet line.
pub fn block_lines(dark: &[bool], width: usize) -> (lines: Vec<String>)
    requires
        0 < width,
        2 * width + 6 <= usize::MAX,
    ensures
        lines@.len() == line_count(dark@.len(), width as nat) + 2,
        lines@[0]@ == quiet_line(width as nat),
        lines@[lines@.len() - 1]@ == quiet_line(width as nat),
        forall|k: int|
            0 <= k < line_count(dark@.len(), width as nat) ==> (#[trigger] lines@[k + 1])@
                == block_line(dark@, width as nat, k * (2 * width)),
{
    let len = dark.len();
    let step = 2 * width;
    let mut lines: Vec<String> = Vec::new();
    lines.push(space_run(width + 6));
    let mut at: usize = 0;
    let ghost mut k: int = 0;
    proof {
        lemma_line_count(len as nat, width as nat, 0);
    }
    while at < len
        invariant
            0 < width,
            step == 2 * width,
            len == dark@.len(),
            at <= len,
            0 <= k <= line_count(len as nat, width as nat),
            at < len ==> at == k * step && k < line_count(len as nat, width as nat),
            at == len ==> k == line_count(len as nat, width as nat),
            lines@.len() == k + 1,
            lines@[0]@ == quiet_line(width as nat),
            forall|j: int|
                0 <= j < k ==> (#[trigger] lines@[j + 1])@ == block_line(
                    dark@,
                    width as nat,
                    j * (2 * width),
                ),
        decreases len - at,
    {
        let mut line = space_run(4);
        let mut x: usize = 0;
        while x < width
            invariant
                2 * width <= usize::MAX,
                len == dark@.len(),
                at < len,
                x <= width,
                line@ == spaces(4) + blocks(dark@, width as nat, at as int, x as nat),
            decreases width - x,
        {
            let top = x < len - at && dark[at + x];
            let bottom = width + x < len - at && dark[at + width + x];
            line.append(block_for(top, bottom));
            x += 1;
        }
        line.append("  ");
        proof {
            reveal_strlit("  ");
        }
        lines.push(line);
        proof {
            lemma_line_count(len as nat, width as nat, k + 1);
            assert(k * step + step == (k + 1) * step) by (nonlinear_arith);
            k = k + 1;
        }
        if len - at <= step {
            at = len;
        } else {
            at = at + step;
        }
    }
    lines.push(space_run(width + 6));
    lines
}

/// The `k`-th pair of rows begins before the end of the modules exactly if
/// `k` lines do not show them all.
proof fn lemma_line_count(len: nat, width: nat, k: int)
    requires
        width > 0,
        0 <= k,
    ensures
        k * (2 * width) < len <==> k < line_count(len, width),
{
    let step = 2 * width as int;
    let count = (len + step - 1) / step;
    assert(count * step <= len + step - 1 < count * step + step) by (nonlinear_arith)
        requires
            step > 0,
            count == (len + step - 1) / step,
    ;
    if k < count {
        assert(k * step < len) by (nonlinear_arith)
            requires
                step > 0,
                k + 1 <= count,
                count * step <= len + step - 1,
        ;
    } else {
        assert(k * step >= len) by (nonlinear_arith)
            requires
                step > 0,
                k >= count,
                len + step - 1 < count * step + step,
        ;
    }
}

/// Draws the QR code of a text as lines of block characters for a terminal.
pub fn qr_lines(data: &[u8]) -> (r: Result<Vec<String>, String>)
    ensures
        match qr_modules(data@) {
            Some((dark, width)) => r matches Ok(lines) && 0 < width <= MAX_WIDTH && lines@.len()
                == line_count(dark.len(), width) + 2 && lines@[0]@ == quiet_line(width)
                && lines@[lines@.len() - 1]@ == quiet_line(width) && forall|k: int|
                0 <= k < line_count(dark.len(), width) ==> (#[trigger] lines@[k + 1])@
                    == block_line(dark, width, k * (2 * width)),
            None => r is Err,
        },
{
    match make_qr_modules(data) {
        Ok((dark, width)) => Ok(block_lines(dark.as_slice(), width)),
        Err(reason) => Err(reason),
    }
}

} // verus!
