//! Menu-bar status-icon glyphs.
//!
//! The glyphs are monochrome **template** images (a rounded "keycap" with a
//! per-state mark), 36px PNGs (18pt @2x, the menu-bar size) decoded here to
//! RGBA. macOS template images carry the shape in the **alpha channel only**, so
//! RGB is forced to black; the status item then tints them white/black to match
//! the menu bar's appearance.

pub mod glyphs;

use vstd::prelude::*;

use crate::model::IconKind;

verus! {

/// Square edge of the glyph, in pixels: the size the PNGs are authored at.
pub const ICON_SIZE: u32 = 36;

/// The bytes of a blank glyph.
pub const BLANK_BYTES: usize = 36 * 36 * 4;

/// The PNG colour types, by their numbers in the file format.
pub const GRAYSCALE: u8 = 0;

pub const RGB: u8 = 2;

pub const GRAYSCALE_ALPHA: u8 = 4;

pub const RGBA: u8 = 6;

/// One decoded PNG frame: bits per sample, colour type (by its number in the
/// file format) and the packed samples, row by row.
#[derive(Debug, Clone, PartialEq, Eq)]
pub struct PngFrame {
    /// Bits per sample.
    pub depth: u8,
    /// Colour type.
    pub color: u8,
    /// The samples.
    pub data: Vec<u8>,
}

/// The image is smaller than 4096 pixels either way: the width and height in
/// the header, which follows the file's signature, are under that.
pub open spec fn modest(png: Seq<u8>) -> bool {
    png.len() >= 24 ==> {
        &&& png[16] == 0
        &&& png[17] == 0
        &&& png[18] < 16
        &&& png[20] == 0
        &&& png[21] == 0
        &&& png[22] < 16
    }
}

/// The first frame that a PNG file holds: bits per sample, colour type and
/// samples; `None` where the file cannot be decoded.
pub uninterp spec fn first_frame(png: Seq<u8>) -> Option<(u8, u8, Seq<u8>)>;

/// `png::Decoder` (`read_info`, then `Reader::next_frame` into a buffer of
/// `output_buffer_size` bytes, of which `OutputInfo::buffer_size` are the
/// frame): without transformations it hands out the samples as the file packs
/// them, and what it hands out depends on the file's bytes alone. The size of a
/// modest image fits the address space of any machine.
#[verifier::external_body]
fn decode_png(png: &[u8]) -> (r: Option<PngFrame>)
    requires
        modest(png@),
    ensures
        match r {
            Some(frame) => first_frame(png@) == Some((frame.depth, frame.color, frame.data@)),
            None => first_frame(png@) is None,
        },
{
    let mut reader = png::Decoder::new(std::io::Cursor::new(png)).read_info().ok()?;
    let mut data = vec![0u8; reader.output_buffer_size()?];
    let info = reader.next_frame(&mut data).ok()?;
    data.truncate(info.buffer_size());
    Some(PngFrame { depth: info.bit_depth as u8, color: info.color_type as u8, data })
}

/// Each whole pixel of `stride` samples as an RGBA quad: the samples at `red`,
/// `green` and `blue`, and at `alpha`, where the format has one, else 255.
pub open spec fn expanded(
    s: Seq<u8>,
    stride: nat,
    red: nat,
    green: nat,
    blue: nat,
    alpha: Option<nat>,
) -> Seq<u8> {
    Seq::new(
        s.len() / stride * 4,
        |i: int|
            {
                let at = i / 4 * stride;
                if i % 4 == 0 {
                    s[at + red]
                } else if i % 4 == 1 {
                    s[at + green]
                } else if i % 4 == 2 {
                    s[at + blue]
                } else {
                    match alpha {
                        Some(a) => s[at + a],
                        None => 255,
                    }
                }
            },
    )
}

/// An 8-bit frame as RGBA; `None` for any other format.
pub open spec fn as_rgba(depth: u8, color: u8, data: Seq<u8>) -> Option<Seq<u8>> {
    if depth != 8 {
        None
    } else if color == RGBA {
        Some(data)
    } else if color == RGB {
        Some(expanded(data, 3, 0, 1, 2, None))
    } else if color == GRAYSCALE_ALPHA {
        Some(expanded(data, 2, 0, 0, 0, Some(1)))
    } else if color == GRAYSCALE {
        Some(expanded(data, 1, 0, 0, 0, None))
    } else {
        None
    }
}

/// The pixels with their colour forced to black; alpha is kept.
pub open spec fn blackened(s: Seq<u8>) -> Seq<u8> {
    Seq::new(
        s.len(),
        |i: int|
            if i % 4 != 3 && i < s.len() - s.len() % 4 {
                0
            } else {
                s[i]
            },
    )
}

/// A transparent glyph.
pub open spec fn blank_glyph() -> Seq<u8> {
    Seq::new(BLANK_BYTES as nat, |i: int| 0u8)
}

/// The template image of a decoded frame: black in the shape of its alpha
/// channel, or transparent where there is no frame of a known format.
pub open spec fn template(frame: Option<(u8, u8, Seq<u8>)>) -> Seq<u8> {
    match frame {
        Some((depth, color, data)) => match as_rgba(depth, color, data) {
            Some(rgba) => blackened(rgba),
            None => blackened(blank_glyph()),
        },
        None => blackened(blank_glyph()),
    }
}

/// The PNG of a glyph.
pub open spec fn glyph(kind: IconKind) -> Seq<u8> {
    match kind {
        IconKind::Running => glyphs::RUNNING@,
        IconKind::Paused => glyphs::PAUSED@,
        IconKind::Idle => glyphs::IDLE@,
        IconKind::Degraded => glyphs::DEGRADED@,
        IconKind::Disconnected => glyphs::DISCONNECTED@,
    }
}

/// RGBA8 buffer (`ICON_SIZE * ICON_SIZE * 4` bytes) for `kind`, ready for the
/// status item.
pub fn rgba_for(kind: IconKind) -> (r: Vec<u8>)
    ensures
        r@ == template(first_frame(glyph(kind))),
{
    let running = glyphs::RUNNING;
    let paused = glyphs::PAUSED;
    let idle = glyphs::IDLE;
    let degraded = glyphs::DEGRADED;
    let disconnected = glyphs::DISCONNECTED;
    let png = match kind {
        IconKind::Running => running.as_slice(),
        IconKind::Paused => paused.as_slice(),
        IconKind::Idle => idle.as_slice(),
        IconKind::Degraded => degraded.as_slice(),
        IconKind::Disconnected => disconnected.as_slice(),
    };
    template_rgba(decode_png(png))
}

/// The template image of a decoded frame. The PNGs are assets we control; on
/// the chance that a decode fails, a blank transparent buffer is better than a
/// panic in the UI.
pub fn template_rgba(frame: Option<PngFrame>) -> (r: Vec<u8>)
    ensures
        r@ == template(
            match frame {
                Some(f) => Some((f.depth, f.color, f.data@)),
                None => None,
            },
        ),
{
    let rgba = match frame {
        Some(frame) => match to_rgba(frame) {
            Some(rgba) => rgba,
            None => blank(),
        },
        None => blank(),
    };
    blacken(&rgba)
}

fn blacken(rgba: &Vec<u8>) -> (r: Vec<u8>)
    ensures
        r@ == blackened(rgba@),
{
    let mut r: Vec<u8> = Vec::new();
    let len: usize = rgba.len();
    let whole: usize = len - len % 4;
    let mut i: usize = 0;
    while i < len
        invariant
            i <= len,
            len == rgba@.len(),
            whole == len - len % 4,
            r@ == blackened(rgba@).take(i as int),
        decreases len - i,
    {
        if i % 4 != 3 && i < whole {
            r.push(0);
        } else {
            r.push(rgba[i]);
        }
        assert(r@ =~= blackened(rgba@).take(i + 1));
        i += 1;
    }
    assert(r@ =~= blackened(rgba@));
    r
}

fn blank() -> (r: Vec<u8>)
    ensures
        r@ == blank_glyph(),
{
    let mut r: Vec<u8> = Vec::new();
    let mut i: usize = 0;
    while i < BLANK_BYTES
        invariant
            i <= BLANK_BYTES,
            r@.len() == i,
            forall|k: int| 0 <= k < i ==> r@[k] == 0,
        decreases BLANK_BYTES - i,
    {
        r.push(0);
        i += 1;
    }
    assert(r@ =~= blank_glyph());
    r
}

/// An 8-bit frame as RGBA. `None` on an unexpected format.
fn to_rgba(frame: PngFrame) -> (r: Option<Vec<u8>>)
    ensures
        match r {
            Some(rgba) => as_rgba(frame.depth, frame.color, frame.data@) == Some(rgba@),
            None => as_rgba(frame.depth, frame.color, frame.data@) is None,
        },
{
    if frame.depth != 8 {
        return None;
    }
    if frame.color == RGBA {
        Some(frame.data)
    } else if frame.color == RGB {
        Some(expand(&frame.data, 3, 0, 1, 2, None))
    } else if frame.color == GRAYSCALE_ALPHA {
        Some(expand(&frame.data, 2, 0, 0, 0, Some(1)))
    } else if frame.color == GRAYSCALE {
        Some(expand(&frame.data, 1, 0, 0, 0, None))
    } else {
        None
    }
}

/// Map each `stride`-byte source pixel to an RGBA quad.
fn expand(
    buf: &Vec<u8>,
    stride: usize,
    red: usize,
    green: usize,
    blue: usize,
    alpha: Option<usize>,
) -> (r: Vec<u8>)
    requires
        0 < stride <= 4,
        red < stride,
        green < stride,
        blue < stride,
        alpha matches Some(a) ==> a < stride,
    ensures
        r@ == expanded(
            buf@,
            stride as nat,
            red as nat,
            green as nat,
            blue as nat,
            match alpha {
                Some(a) => Some(a as nat),
                None => None,
            },
        ),
{
    let ghost a: Option<nat> = match alpha {
        Some(a) => Some(a as nat),
        None => None,
    };
    let ghost all = expanded(buf@, stride as nat, red as nat, green as nat, blue as nat, a);
    let mut r: Vec<u8> = Vec::new();
    let len: usize = buf.len();
    let pixels: usize = len / stride;
    let mut p: usize = 0;
    let mut at: usize = 0;
    assert(pixels * stride <= len) by (nonlinear_arith)
        requires
            pixels == len / stride,
            stride > 0,
    ;
    while p < pixels
        invariant
            p <= pixels,
            at == p * stride,
            pixels * stride <= len,
            len == buf@.len(),
            0 < stride <= 4,
            red < stride,
            green < stride,
            blue < stride,
            alpha matches Some(a) ==> a < stride,
            a == (match alpha {
                Some(a) => Some(a as nat),
                None => None,
            }),
            all == expanded(buf@, stride as nat, red as nat, green as nat, blue as nat, a),
            all.len() == pixels * 4,
            r@ == all.take(p * 4),
        decreases pixels - p,
    {
        assert(at + stride <= len) by (nonlinear_arith)
            requires
                at == p * stride,
                p + 1 <= pixels,
                pixels * stride <= len,
        ;
        let ghost q = p as int;
        let ghost before = r@;
        r.push(buf[at + red]);
        r.push(buf[at + green]);
        r.push(buf[at + blue]);
        r.push(
            match alpha {
                Some(a) => buf[at + a],
                None => 255,
            },
        );
        assert((4 * q) / 4 == q && (4 * q + 1) / 4 == q && (4 * q + 2) / 4 == q && (4 * q + 3) / 4
            == q);
        assert((4 * q) % 4 == 0 && (4 * q + 1) % 4 == 1 && (4 * q + 2) % 4 == 2 && (4 * q + 3) % 4
            == 3);
        assert(r@ =~= all.take((p + 1) * 4));
        assert((p + 1) * stride == p * stride + stride) by (nonlinear_arith);
        at = at + stride;
        p += 1;
    }
    assert(r@ =~= all);
    r
}

/// A template image is black in every whole pixel, keeps its alpha, and a frame
/// in a known format keeps its number of pixels.
pub proof fn template_is_black(frame: Option<(u8, u8, Seq<u8>)>, pixel: int)
    requires
        0 <= pixel,
        pixel * 4 + 3 < template(frame).len(),
    ensures
        template(frame)[pixel * 4] == 0,
        template(frame)[pixel * 4 + 1] == 0,
        template(frame)[pixel * 4 + 2] == 0,
        frame matches Some((depth, color, data)) ==> (as_rgba(depth, color, data) matches Some(rgba)
            ==> template(frame).len() == rgba.len() && template(frame)[pixel * 4 + 3]
            == rgba[pixel * 4 + 3]),
{
}

} // verus!
