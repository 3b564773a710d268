//! QR generation, consumed as a black-box capability: "given text, a
//! renderable matrix". The encoder is an outside library; this module
//! names each rendered form, exposes the encoder behind trusted calls,
//! and verifies everything around them: empty-input handling, the
//! grey-to-RGBA expansion, and the two-rows-into-one terminal compression.

use std::io::Write;
use vstd::prelude::*;
use vstd::math::min;
use crate::snapshot::ImageData;
use vstd::string::StringExecFns;
use crate::text::{chars_to_string, split_lines, split_lines_spec};

verus! {

/// Why QR generation failed.
#[derive(Debug)]
pub enum QrError {
    /// There was no text to encode.
    EmptyInput,
    /// The encoder rejected the text (for instance, it is too long); its
    /// message is kept.
    Encode(String),
}

/// Model of a generation error.
pub ghost enum QrErrorModel {
    EmptyInput,
    Encode(Seq<char>),
}

impl View for QrError {
    type V = QrErrorModel;

    open spec fn view(&self) -> QrErrorModel {
        match self {
            QrError::EmptyInput => QrErrorModel::EmptyInput,
            QrError::Encode(m) => QrErrorModel::Encode(m@),
        }
    }
}

/// What the outside encoder renders for `text` as an SVG document, or its
/// error message. A pure function of the text alone; not specified here.
pub uninterp spec fn qr_svg_of(text: Seq<char>) -> Result<Seq<char>, Seq<char>>;

/// What the outside encoder renders for `text` as a grey-scale image:
/// width, height, and one byte per pixel — or its error message. A pure
/// function of the text alone; not specified here beyond the buffer
/// holding exactly one byte per pixel.
pub uninterp spec fn qr_luma_of(text: Seq<char>) -> Result<(u32, u32, Seq<u8>), Seq<char>>;

/// What the outside encoder renders for `text` as a character grid, one
/// line per module row, rows separated by newlines — or its error
/// message. A pure function of the text alone; not specified here.
pub uninterp spec fn qr_chars_of(text: Seq<char>) -> Result<Seq<char>, Seq<char>>;

/// Relies on qrcode's `QrCode::new` and its SVG renderer: the rendered
/// document is a deterministic function of the text, and encoding fails
/// deterministically (data too long).
#[verifier::external_body]
fn render_svg_raw(text: &str) -> (r: Result<String, String>)
    ensures
        match r {
            Ok(s) => qr_svg_of(text@) == Ok::<Seq<char>, Seq<char>>(s@),
            Err(m) => qr_svg_of(text@) == Err::<Seq<char>, Seq<char>>(m@),
        },
{
    match qrcode::QrCode::new(text.as_bytes()) {
        Ok(code) => {
            let svg = code.render()
                .min_dimensions(300, 300)
                .dark_color(qrcode::render::svg::Color("#000000"))
                .light_color(qrcode::render::svg::Color("#ffffff"))
                .build();
            Ok(svg)
        },
        Err(e) => Err(format!("{}", e)),
    }
}

/// Relies on qrcode's `QrCode::new` and its image renderer into
/// `image::ImageBuffer<Luma<u8>, _>`: the rendered image is a
/// deterministic function of the text; the buffer holds exactly
/// `width * height` bytes (the canvas is built by one byte per pixel and
/// returned as is); the image is square (both dimensions are the module
/// count, quiet zone included, times one module size); and every byte is
/// pure black or pure white (the canvas is filled with the light byte
/// and only the dark byte is drawn over it).
#[verifier::external_body]
fn render_luma_raw(text: &str) -> (r: Result<(u32, u32, Vec<u8>), String>)
    ensures
        match r {
            Ok(img) => qr_luma_of(text@) == Ok::<(u32, u32, Seq<u8>), Seq<char>>(
                (img.0, img.1, img.2@),
            ) && img.2@.len() == img.0 as int * img.1 as int && img.0 == img.1 && (forall|j: int|
                0 <= j < img.2@.len() ==> img.2@[j] == 0 || #[trigger] img.2@[j] == 255),
            Err(m) => qr_luma_of(text@) == Err::<(u32, u32, Seq<u8>), Seq<char>>(m@),
        },
{
    match qrcode::QrCode::new(text.as_bytes()) {
        Ok(code) => {
            let img = code.render::<image::Luma<u8>>()
                .dark_color(image::Luma([0u8]))
                .light_color(image::Luma([255u8]))
                .build();
            let (w, h) = (img.width(), img.height());
            Ok((w, h, img.into_raw()))
        },
        Err(e) => Err(format!("{}", e)),
    }
}

/// Relies on qrcode's `QrCode::new` and its string renderer with a
/// space as the dark module and a full block as the light one: the
/// rendered grid is a deterministic function of the text, with rows
/// separated by single newlines and no trailing newline.
#[verifier::external_body]
fn render_chars_raw(text: &str) -> (r: Result<String, String>)
    ensures
        match r {
            Ok(s) => qr_chars_of(text@) == Ok::<Seq<char>, Seq<char>>(s@),
            Err(m) => qr_chars_of(text@) == Err::<Seq<char>, Seq<char>>(m@),
        },
{
    match qrcode::QrCode::new(text.as_bytes()) {
        Ok(code) => {
            let grid = code.render::<char>()
                .dark_color(' ')
                .light_color('\u{2588}')
                .build();
            Ok(grid)
        },
        Err(e) => Err(format!("{}", e)),
    }
}

/// Relies on `std::io::Stdout` and `writeln`: prints one line; the output
/// itself carries no contract.
#[verifier::external_body]
fn emit_line(line: &str) {
    let _ = writeln!(std::io::stdout(), "{}", line);
}

/// A grey-scale buffer expanded to RGBA: each grey byte becomes that byte
/// three times over plus an opaque alpha.
pub open spec fn rgba_expand(luma: Seq<u8>) -> Seq<u8> {
    Seq::new(
        luma.len() * 4,
        |i: int| if i % 4 == 3 {
            255u8
        } else {
            luma[i / 4]
        },
    )
}

/// Expands a grey-scale pixel buffer to RGBA, one grey byte into three
/// identical channels plus opaque alpha.
pub fn expand_luma(luma: &Vec<u8>) -> (out: Vec<u8>)
    ensures
        out@ == rgba_expand(luma@),
{
    let n = luma.len();
    let mut out: Vec<u8> = Vec::new();
    let mut i: usize = 0;
    while i < n
        invariant
            n == luma@.len(),
            i <= n,
            out@.len() == 4 * i,
            forall|j: int|
                0 <= j < out@.len() ==> out@[j] == (if j % 4 == 3 {
                    255u8
                } else {
                    luma@[j / 4]
                }),
        decreases n - i,
    {
        let g = luma[i];
        out.push(g);
        out.push(g);
        out.push(g);
        out.push(255u8);
        proof {
            let b = 4 * (i as int);
            assert(b / 4 == i as int && b % 4 == 0 && (b + 1) / 4 == i as int && (b + 1) % 4 == 1
                && (b + 2) / 4 == i as int && (b + 2) % 4 == 2 && (b + 3) / 4 == i as int && (b
                + 3) % 4 == 3) by (nonlinear_arith)
                requires
                    b == 4 * (i as int),
                    0 <= i as int,
            ;
        }
        i = i + 1;
    }
    proof {
        assert(out@ =~= rgba_expand(luma@));
    }
    out
}

/// One cell of the compressed terminal display: two vertically adjacent
/// grid cells merged into one half-block character.
pub open spec fn combine_cell(top: char, bottom: char) -> char {
    if top == '\u{2588}' && bottom == '\u{2588}' {
        '\u{2588}'
    } else if top == ' ' && bottom == ' ' {
        ' '
    } else if top == '\u{2588}' && bottom == ' ' {
        '\u{2580}'
    } else if top == ' ' && bottom == '\u{2588}' {
        '\u{2584}'
    } else {
        ' '
    }
}

/// Two adjacent grid rows merged cell by cell, up to the shorter row.
pub open spec fn combine_rows_spec(top: Seq<char>, bottom: Seq<char>) -> Seq<char> {
    Seq::new(
        min(top.len() as int, bottom.len() as int) as nat,
        |i: int| combine_cell(top[i], bottom[i]),
    )
}

/// An unpaired final grid row, rendered with upper half blocks.
pub open spec fn combine_last_spec(top: Seq<char>) -> Seq<char> {
    Seq::new(
        top.len(),
        |i: int| if top[i] == '\u{2588}' {
            '\u{2580}'
        } else {
            ' '
        },
    )
}

/// The grid rows compressed two into one, an odd final row on its own.
pub open spec fn compress_spec(lines: Seq<Seq<char>>) -> Seq<Seq<char>>
    decreases lines.len(),
{
    if lines.len() == 0 {
        Seq::empty()
    } else if lines.len() == 1 {
        seq![combine_last_spec(lines[0])]
    } else {
        seq![combine_rows_spec(lines[0], lines[1])] + compress_spec(lines.skip(2))
    }
}

/// The terminal lines for a rendered character grid: its rows, merged in
/// pairs into half-block characters.
pub open spec fn terminal_lines_spec(grid: Seq<char>) -> Seq<Seq<char>> {
    compress_spec(split_lines_spec(grid))
}

fn combine_rows(top: &Vec<char>, bottom: &Vec<char>) -> (r: Vec<char>)
    ensures
        r@ == combine_rows_spec(top@, bottom@),
{
    let m = if top.len() <= bottom.len() {
        top.len()
    } else {
        bottom.len()
    };
    let mut r: Vec<char> = Vec::new();
    let mut i: usize = 0;
    while i < m
        invariant
            m == min(top@.len() as int, bottom@.len() as int),
            i <= m,
            r@.len() == i,
            forall|j: int| 0 <= j < i ==> r@[j] == combine_cell(top@[j], bottom@[j]),
        decreases m - i,
    {
        let t = top[i];
        let b = bottom[i];
        let c = if t == '\u{2588}' && b == '\u{2588}' {
            '\u{2588}'
        } else if t == ' ' && b == ' ' {
            ' '
        } else if t == '\u{2588}' && b == ' ' {
            '\u{2580}'
        } else if t == ' ' && b == '\u{2588}' {
            '\u{2584}'
        } else {
            ' '
        };
        r.push(c);
        i = i + 1;
    }
    proof {
        assert(r@ =~= combine_rows_spec(top@, bottom@));
    }
    r
}

fn combine_last(top: &Vec<char>) -> (r: Vec<char>)
    ensures
        r@ == combine_last_spec(top@),
{
    let mut r: Vec<char> = Vec::new();
    let mut i: usize = 0;
    while i < top.len()
        invariant
            i <= top@.len(),
            r@.len() == i,
            forall|j: int|
                0 <= j < i ==> r@[j] == (if top@[j] == '\u{2588}' {
                    '\u{2580}'
                } else {
                    ' '
                }),
        decreases top@.len() - i,
    {
        let c = if top[i] == '\u{2588}' {
            '\u{2580}'
        } else {
            ' '
        };
        r.push(c);
        i = i + 1;
    }
    proof {
        assert(r@ =~= combine_last_spec(top@));
    }
    r
}

/// Compresses grid rows two into one half-block line, the way the
/// terminal display shows them; an odd final row stands on its own.
pub fn compress_lines(lines: &Vec<Vec<char>>) -> (r: Vec<Vec<char>>)
    ensures
        r.deep_view() == compress_spec(lines.deep_view()),
{
    let ghost lv = lines.deep_view();
    let n = lines.len();
    let mut out: Vec<Vec<char>> = Vec::new();
    let mut i: usize = 0;
    proof {
        assert(lv.skip(0) =~= lv);
        assert(out.deep_view() + compress_spec(lv) =~= compress_spec(lv));
    }
    while i < n
        invariant
            lv == lines.deep_view(),
            n == lines@.len(),
            i <= n,
            compress_spec(lv) == out.deep_view() + compress_spec(lv.skip(i as int)),
        decreases n - i,
    {
        let ghost t = lv.skip(i as int);
        proof {
            assert(lv.len() == n);
            assert(lines@[i as int].deep_view() =~= lines@[i as int]@);
            assert(t[0] == lv[i as int]);
        }
        let ghost old_out = out.deep_view();
        if i + 1 < n {
            proof {
                assert(lines@[i as int + 1].deep_view() =~= lines@[i as int + 1]@);
                assert(t[1] == lv[i as int + 1]);
                assert(t.skip(2) =~= lv.skip(i as int + 2));
                assert(compress_spec(t) =~= seq![combine_rows_spec(t[0], t[1])] + compress_spec(
                    t.skip(2),
                ));
            }
            let row = combine_rows(&lines[i], &lines[i + 1]);
            let ghost row_v = row@;
            proof {
                assert(row.deep_view() =~= row_v);
                assert(row_v == combine_rows_spec(t[0], t[1]));
            }
            out.push(row);
            proof {
                assert(out.deep_view() =~= old_out.push(row_v));
                assert(old_out.push(row_v) + compress_spec(lv.skip(i as int + 2)) =~= old_out + (
                seq![row_v] + compress_spec(lv.skip(i as int + 2))));
            }
            i = i + 2;
        } else {
            proof {
                assert(t.len() == 1);
                assert(compress_spec(t) =~= seq![combine_last_spec(t[0])]);
                assert(lv.skip(i as int + 1) =~= Seq::<Seq<char>>::empty());
                assert(compress_spec(lv.skip(i as int + 1)) =~= Seq::<Seq<char>>::empty());
            }
            let row = combine_last(&lines[i]);
            let ghost row_v = row@;
            proof {
                assert(row.deep_view() =~= row_v);
                assert(row_v == combine_last_spec(t[0]));
            }
            out.push(row);
            proof {
                assert(out.deep_view() =~= old_out.push(row_v));
                assert(old_out.push(row_v) + compress_spec(lv.skip(i as int + 1)) =~= old_out
                    + seq![row_v]);
                assert(old_out + seq![row_v] =~= old_out + compress_spec(t));
            }
            i = i + 1;
        }
    }
    proof {
        assert(lv.skip(n as int) =~= Seq::<Seq<char>>::empty());
        assert(compress_spec(Seq::<Seq<char>>::empty()) =~= Seq::<Seq<char>>::empty());
        assert(out.deep_view() =~= compress_spec(lv));
    }
    out
}

/// Generates QR images and grids from text.
pub struct QRGenerator {}

impl QRGenerator {
    /// A generator; it carries no state of its own.
    pub fn new() -> (g: QRGenerator) {
        QRGenerator {  }
    }

    /// The QR code for `text` as an RGBA image: `None` for empty text,
    /// the rendered grey-scale matrix expanded to RGBA otherwise, and the
    /// encoder's message when it rejects the text. The image is square,
    /// and every pixel is fully opaque pure black or pure white.
    pub fn generate_qr_image(&self, text: &str) -> (r: Result<Option<ImageData>, QrError>)
        ensures
            match r {
                Ok(None) => text@.len() == 0,
                Ok(Some(img)) => text@.len() > 0 && match qr_luma_of(text@) {
                    Ok(luma) => img@.width == luma.0 && img@.height == luma.1 && img@.pixels
                        == rgba_expand(luma.2) && img@.wf(),
                    Err(_) => false,
                } && img@.width == img@.height && (forall|j: int|
                    0 <= j < img@.pixels.len() ==> img@.pixels[j] == 0 || #[trigger] img@.pixels[j]
                        == 255),
                Err(e) => text@.len() > 0 && match qr_luma_of(text@) {
                    Ok(_) => false,
                    Err(m) => e@ == QrErrorModel::Encode(m),
                },
            },
    {
        if text.is_empty() {
            return Ok(None);
        }
        match render_luma_raw(text) {
            Ok((width, height, luma)) => {
                let pixels = expand_luma(&luma);
                proof {
                    assert(luma@.len() * 4 == width as int * height as int * 4);
                    assert forall|j: int|
                        0 <= j < pixels@.len() implies (pixels@[j] == 0 || #[trigger] pixels@[j]
                        == 255) by {
                        assert(0 <= j / 4 < luma@.len()) by (nonlinear_arith)
                            requires
                                0 <= j < luma@.len() * 4,
                        ;
                        assert(luma@[j / 4] == 0 || luma@[j / 4] == 255);
                    }
                }
                Ok(Some(ImageData { width, height, pixels }))
            },
            Err(m) => Err(QrError::Encode(m)),
        }
    }

    /// The QR code for `text` as an SVG document; empty text is rejected,
    /// and the encoder's message is kept when it rejects the text.
    pub fn generate_svg(&self, text: &str) -> (r: Result<String, QrError>)
        ensures
            match r {
                Ok(svg) => text@.len() > 0 && qr_svg_of(text@) == Ok::<Seq<char>, Seq<char>>(svg@),
                Err(e) => match e@ {
                    QrErrorModel::EmptyInput => text@.len() == 0,
                    QrErrorModel::Encode(m) => text@.len() > 0 && qr_svg_of(text@) == Err::<
                        Seq<char>,
                        Seq<char>,
                    >(m),
                },
            },
    {
        if text.is_empty() {
            return Err(QrError::EmptyInput);
        }
        match render_svg_raw(text) {
            Ok(svg) => Ok(svg),
            Err(m) => Err(QrError::Encode(m)),
        }
    }

    /// The QR code for `text` as terminal lines: the rendered grid's rows
    /// merged in pairs into half-block characters. Empty text is
    /// rejected, and the encoder's message is kept when it rejects the
    /// text.
    pub fn qr_terminal_lines(&self, text: &str) -> (r: Result<Vec<String>, QrError>)
        ensures
            match r {
                Ok(lines) => text@.len() > 0 && match qr_chars_of(text@) {
                    Ok(grid) => lines.deep_view() == terminal_lines_spec(grid),
                    Err(_) => false,
                },
                Err(e) => match e@ {
                    QrErrorModel::EmptyInput => text@.len() == 0,
                    QrErrorModel::Encode(m) => text@.len() > 0 && qr_chars_of(text@) == Err::<
                        Seq<char>,
                        Seq<char>,
                    >(m),
                },
            },
    {
        if text.is_empty() {
            return Err(QrError::EmptyInput);
        }
        let grid = match render_chars_raw(text) {
            Ok(g) => g,
            Err(m) => {
                return Err(QrError::Encode(m));
            },
        };
        let rows = split_lines(grid.as_str());
        let merged = compress_lines(&rows);
        let mut out: Vec<String> = Vec::new();
        let mut i: usize = 0;
        proof {
            assert(out.deep_view() =~= merged.deep_view().take(0));
        }
        while i < merged.len()
            invariant
                i <= merged@.len(),
                out.deep_view() == merged.deep_view().take(i as int),
            decreases merged@.len() - i,
        {
            let line = chars_to_string(&merged[i]);
            let ghost old_out = out.deep_view();
            let ghost line_v = line@;
            proof {
                assert(merged@[i as int].deep_view() =~= merged@[i as int]@);
                assert(line.deep_view() == line_v);
            }
            out.push(line);
            proof {
                assert(out.deep_view() =~= old_out.push(line_v));
                assert(old_out.push(line_v) =~= merged.deep_view().take(i as int + 1));
            }
            i = i + 1;
        }
        proof {
            assert(merged.deep_view().take(merged@.len() as int) =~= merged.deep_view());
        }
        Ok(out)
    }

    /// Prints the QR code for `text` to the terminal, one compressed
    /// half-block line at a time. Empty text is rejected, and the
    /// encoder's message is kept when it rejects the text.
    pub fn print_qr_terminal(&self, text: &str) -> (r: Result<(), QrError>)
        ensures
            match r {
                Ok(_) => text@.len() > 0 && qr_chars_of(text@) is Ok,
                Err(e) => match e@ {
                    QrErrorModel::EmptyInput => text@.len() == 0,
                    QrErrorModel::Encode(m) => text@.len() > 0 && qr_chars_of(text@) == Err::<
                        Seq<char>,
                        Seq<char>,
                    >(m),
                },
            },
    {
        match self.qr_terminal_lines(text) {
            Ok(lines) => {
                let mut i: usize = 0;
                while i < lines.len()
                    decreases lines@.len() - i,
                {
                    emit_line(lines[i].as_str());
                    i = i + 1;
                }
                Ok(())
            },
            Err(e) => Err(e),
        }
    }

    /// The file name under which the QR image for `text` is saved: a
    /// fixed stem, the text's content hash in hexadecimal, and the image
    /// extension — so equal text always lands in the same file.
    pub fn qr_image_filename(&self, text: &str) -> (r: String)
        ensures
            r@ == image_filename_spec(text@),
    {
        let digits = hex_string(crate::identity::hash_str(text));
        let hex = chars_to_string(&digits);
        let mut name = String::from_str("qr_code_");
        name.append(hex.as_str());
        name.append(".png");
        name
    }
}

/// The hexadecimal digit character for a value below sixteen.
pub open spec fn hex_char_spec(d: u64) -> char {
    if d == 0 {
        '0'
    } else if d == 1 {
        '1'
    } else if d == 2 {
        '2'
    } else if d == 3 {
        '3'
    } else if d == 4 {
        '4'
    } else if d == 5 {
        '5'
    } else if d == 6 {
        '6'
    } else if d == 7 {
        '7'
    } else if d == 8 {
        '8'
    } else if d == 9 {
        '9'
    } else if d == 10 {
        'a'
    } else if d == 11 {
        'b'
    } else if d == 12 {
        'c'
    } else if d == 13 {
        'd'
    } else if d == 14 {
        'e'
    } else {
        'f'
    }
}

/// The `i`-th nibble of `v`, counted from the most significant.
pub open spec fn nibble_of(v: u64, i: int) -> u64 {
    (v >> (((15 - i) * 4) as u64)) & 0xf
}

/// The sixteen hexadecimal digits of `v`, most significant first.
pub open spec fn hex_digits(v: u64) -> Seq<char> {
    Seq::new(16, |i: int| hex_char_spec(nibble_of(v, i)))
}

/// The file name for the QR image of `text`: a fixed stem plus the
/// text's content hash, rendered in hexadecimal.
pub open spec fn image_filename_spec(text: Seq<char>) -> Seq<char> {
    "qr_code_"@ + hex_digits(crate::identity::text_identity(text)) + ".png"@
}

fn hex_char_of(d: u64) -> (c: char)
    ensures
        c == hex_char_spec(d),
{
    if d == 0 {
        '0'
    } else if d == 1 {
        '1'
    } else if d == 2 {
        '2'
    } else if d == 3 {
        '3'
    } else if d == 4 {
        '4'
    } else if d == 5 {
        '5'
    } else if d == 6 {
        '6'
    } else if d == 7 {
        '7'
    } else if d == 8 {
        '8'
    } else if d == 9 {
        '9'
    } else if d == 10 {
        'a'
    } else if d == 11 {
        'b'
    } else if d == 12 {
        'c'
    } else if d == 13 {
        'd'
    } else if d == 14 {
        'e'
    } else {
        'f'
    }
}

fn hex_string(v: u64) -> (r: Vec<char>)
    ensures
        r@ == hex_digits(v),
{
    let mut r: Vec<char> = Vec::new();
    let mut k: usize = 0;
    while k < 16
        invariant
            k <= 16,
            r@.len() == k,
            forall|j: int| 0 <= j < k ==> r@[j] == hex_char_spec(nibble_of(v, j)),
        decreases 16 - k,
    {
        let sh: u64 = (15 - k as u64) * 4;
        let d: u64 = (v >> sh) & 0xf;
        proof {
            assert(d == nibble_of(v, k as int));
        }
        r.push(hex_char_of(d));
        k = k + 1;
    }
    proof {
        assert(r@ =~= hex_digits(v));
    }
    r
}

} // verus!
