//! The QR image pipeline: derives the canonical redirect payload for an
//! id, encodes it into a QR symbol, and rasterizes or vectorizes the
//! symbol into the requested image format.
//!
//! The symbol itself comes from the `qrcode` crate; the grayscale bitmap
//! and the SVG document are built here and verified against their
//! mathematical definitions, and the final PNG/JPEG byte encoding is
//! delegated to the `image` crate.

use vstd::arithmetic::div_mod::lemma_fundamental_div_mod;
use vstd::arithmetic::div_mod::lemma_fundamental_div_mod_converse;
use vstd::prelude::*;
use vstd::string::StringExecFns;

use crate::registry::QrCodeDatabase;
use crate::text::dec_str;
use crate::text::dec_text;
use crate::text::uuid_str;
use crate::text::uuid_text;

verus! {

/// The requested output format of a rendered symbol.
#[derive(Clone, Copy, Debug, PartialEq, Eq, Structural)]
pub enum QrImageType {
    Png,
    Jpg,
    Svg,
}

/// The canonical payload a symbol encodes for an id: the service-owned
/// redirect URL, never the raw target link, so the target may change
/// without invalidating printed images.
pub open spec fn payload_of(server_url: Seq<char>, id: u128) -> Seq<char> {
    server_url + "/redirect?id="@ + uuid_str(id)
}

/// Builds the canonical redirect payload string.
pub fn payload_text(server_url: &str, id: u128) -> (s: String)
    ensures
        s@ == payload_of(server_url@, id),
{
    let mut s = String::new();
    s.append(server_url);
    s.append("/redirect?id=");
    let tail = uuid_text(id);
    s.append(tail.as_str());
    proof {
        assert(s@ =~= payload_of(server_url@, id));
    }
    s
}

/// What `qrcode::QrCode::new` yields for a payload: `None` when the data
/// exceeds the maximum symbol capacity, otherwise the number of modules
/// per side together with the row-major module colors (`true` is dark).
pub uninterp spec fn qr_symbol_of(payload: Seq<char>) -> Option<(usize, Seq<bool>)>;

/// Relies on `qrcode::QrCode::new` (encodes at error-correction level M,
/// automatically choosing the smallest version, and fails when the data
/// is too long), `QrCode::width` (modules per side; normal versions
/// 1..=40 give 4*v + 17, so 21..=177) and `QrCode::into_colors` (the
/// width*width module colors in row-major order).
#[verifier::external_body]
pub(crate) fn qr_encode(payload: &str) -> (r: Option<(usize, Vec<bool>)>)
    ensures
        match r {
            Some(p) => qr_symbol_of(payload@) == Some((p.0, p.1@)) && 21 <= p.0 <= 177
                && p.1@.len() == p.0 * p.0,
            None => qr_symbol_of(payload@) is None,
        },
{
    match qrcode::QrCode::new(payload) {
        Ok(code) => {
            let w = code.width();
            let modules: Vec<bool> = code
                .into_colors()
                .into_iter()
                .map(|c| match c {
                    qrcode::Color::Dark => true,
                    qrcode::Color::Light => false,
                })
                .collect();
            Some((w, modules))
        },
        Err(_) => None,
    }
}

/// What `image::codecs::png::PngEncoder::write_image` yields for an 8-bit
/// grayscale buffer of the given dimensions.
pub uninterp spec fn png_bytes_of(data: Seq<u8>, width: u32, height: u32) -> Seq<u8>;

/// What `image::codecs::jpeg::JpegEncoder::write_image` yields for an
/// 8-bit grayscale buffer of the given dimensions.
pub uninterp spec fn jpeg_bytes_of(data: Seq<u8>, width: u32, height: u32) -> Seq<u8>;

/// Relies on `image::codecs::png::PngEncoder::write_image`: encodes an
/// 8-bit grayscale buffer of exactly width*height bytes into PNG; the
/// output is a function of the buffer and the dimensions alone. With a
/// well-sized buffer, nonzero dimensions and a growable byte sink, the
/// encoder has no failure path: it panics on a length mismatch and
/// errors on a zero dimension or an unsupported color type, all of
/// which the `requires` and the fixed 8-bit grayscale format exclude.
#[verifier::external_body]
pub(crate) fn png_encode(data: &Vec<u8>, width: u32, height: u32) -> (r: Option<Vec<u8>>)
    requires
        data@.len() == width * height,
        1 <= width,
        1 <= height,
    ensures
        r is Some,
        r matches Some(b) ==> b@ == png_bytes_of(data@, width, height),
{
    let mut out: Vec<u8> = Vec::new();
    let encoder = image::codecs::png::PngEncoder::new(&mut out);
    match image::ImageEncoder::write_image(
        encoder,
        data,
        width,
        height,
        image::ExtendedColorType::L8,
    ) {
        Ok(()) => Some(out),
        Err(_) => None,
    }
}

/// Relies on `image::codecs::jpeg::JpegEncoder::write_image`: encodes an
/// 8-bit grayscale buffer of exactly width*height bytes into JPEG; the
/// output is a function of the buffer and the dimensions alone. The
/// encoder panics on a length mismatch and errors exactly when a
/// dimension is zero or above 65535; the `requires` exclude both, and
/// writing to a growable byte sink cannot fail.
#[verifier::external_body]
pub(crate) fn jpeg_encode(data: &Vec<u8>, width: u32, height: u32) -> (r: Option<Vec<u8>>)
    requires
        data@.len() == width * height,
        1 <= width <= 65535,
        1 <= height <= 65535,
    ensures
        r is Some,
        r matches Some(b) ==> b@ == jpeg_bytes_of(data@, width, height),
{
    let mut out: Vec<u8> = Vec::new();
    let encoder = image::codecs::jpeg::JpegEncoder::new(&mut out);
    match image::ImageEncoder::write_image(
        encoder,
        data,
        width,
        height,
        image::ExtendedColorType::L8,
    ) {
        Ok(()) => Some(out),
        Err(_) => None,
    }
}

/// Relies on `String::into_bytes`: returns the UTF-8 bytes of the string.
pub assume_specification[ String::into_bytes ](s: String) -> (r: Vec<u8>)
    ensures
        r@ == vstd::utf8::encode_utf8(s@),
;

/// Modules per side of the bitmap including the 4-module quiet zone on
/// each side.
pub open spec fn bitmap_modules(w: int) -> int {
    w + 8
}

/// Pixels per side of the rendered bitmap: every module maps to 8x8
/// device pixels, so each module is comfortably above one device pixel.
pub open spec fn bitmap_total(w: int) -> int {
    bitmap_modules(w) * 8
}

/// The gray value of the bitmap pixel at row `r`, column `c`: 0 (black)
/// on a dark module, 255 (white) elsewhere, quiet zone included.
pub open spec fn bitmap_pixel(modules: Seq<bool>, w: int, r: int, c: int) -> u8 {
    let mr = r / 8 - 4;
    let mc = c / 8 - 4;
    if 0 <= mr < w && 0 <= mc < w && modules[mr * w + mc] {
        0u8
    } else {
        255u8
    }
}

/// The row-major grayscale bitmap of a symbol of `w` modules per side.
pub open spec fn bitmap_of(modules: Seq<bool>, w: int) -> Seq<u8> {
    Seq::new(
        (bitmap_total(w) * bitmap_total(w)) as nat,
        |k: int| bitmap_pixel(modules, w, k / bitmap_total(w), k % bitmap_total(w)),
    )
}

/// Renders the row-major grayscale bitmap of a symbol: a 4-module quiet
/// zone on every side, 8x8 pixels per module, black modules on white.
pub fn render_bitmap(modules: &Vec<bool>, w: usize) -> (r: Vec<u8>)
    requires
        1 <= w <= 177,
        modules@.len() == w * w,
    ensures
        r@ == bitmap_of(modules@, w as int),
{
    let total: usize = (w + 8) * 8;
    let mut data: Vec<u8> = Vec::new();
    let mut y: usize = 0;
    while y < total
        invariant
            1 <= w <= 177,
            modules@.len() == w * w,
            total == bitmap_total(w as int),
            y <= total,
            data@.len() == y * total,
            forall|k: int|
                0 <= k < data@.len() ==> data@[k] == bitmap_pixel(
                    modules@,
                    w as int,
                    k / total as int,
                    k % total as int,
                ),
        decreases total - y,
    {
        let mut x: usize = 0;
        proof {
            lemma_fundamental_div_mod(y as int * total as int, total as int);
        }
        while x < total
            invariant
                1 <= w <= 177,
                modules@.len() == w * w,
                total == bitmap_total(w as int),
                y < total,
                x <= total,
                data@.len() == y * total + x,
                forall|k: int|
                    0 <= k < data@.len() ==> data@[k] == bitmap_pixel(
                        modules@,
                        w as int,
                        k / total as int,
                        k % total as int,
                    ),
            decreases total - x,
        {
            let my = y / 8;
            let mx = x / 8;
            let dark = if my >= 4 && my < w + 4 && mx >= 4 && mx < w + 4 {
                proof {
                    assert((my - 4) * (w as int) + (mx - 4) < (w as int) * (w as int) && (w as int)
                        * (w as int) <= 31329) by (nonlinear_arith)
                        requires
                            0 <= my - 4 < w as int,
                            0 <= mx - 4 < w as int,
                            w as int <= 177,
                    ;
                }
                let idx = (my - 4) * w + (mx - 4);
                modules[idx]
            } else {
                false
            };
            let px: u8 = if dark {
                0
            } else {
                255
            };
            proof {
                let k = y as int * total as int + x as int;
                lemma_fundamental_div_mod_converse(k, total as int, y as int, x as int);
                assert(px == bitmap_pixel(modules@, w as int, y as int, x as int));
            }
            data.push(px);
            x += 1;
        }
        proof {
            assert((y as int + 1) * (total as int) == y as int * total as int + total as int)
                by (nonlinear_arith);
        }
        y += 1;
    }
    proof {
        assert(data@ =~= bitmap_of(modules@, w as int));
    }
    data
}

/// The side length in viewport units of one module in the SVG rendering:
/// the smallest uniform size that brings the whole drawing, quiet zone
/// included, to at least 200 units.
pub open spec fn svg_unit(w: int) -> int {
    (200 + (w + 8) - 1) / (w + 8)
}

/// The rendered SVG viewport side length.
pub open spec fn svg_dim(w: int) -> int {
    (w + 8) * svg_unit(w)
}

/// Law: the rendered SVG viewport is always at least 200x200 units,
/// whatever the symbol version.
pub proof fn lemma_svg_dim_at_least_200(w: int)
    requires
        w >= 1,
    ensures
        svg_unit(w) >= 1,
        svg_dim(w) >= 200,
{
    let m = w + 8;
    let q = (200 + m - 1) / m;
    lemma_fundamental_div_mod(200 + m - 1, m);
    assert(m * q >= 200) by (nonlinear_arith)
        requires
            m >= 9,
            200 + m - 1 == m * q + ((200 + m - 1) % m),
            0 <= (200 + m - 1) % m < m,
    ;
    assert(q >= 1) by (nonlinear_arith)
        requires
            m >= 9,
            m * q >= 200,
    ;
}

/// The opening of the SVG document up to the path data, for a viewport of
/// `d` units.
pub open spec fn svg_header(d: int) -> Seq<char> {
    "<?xml version=\"1.0\" standalone=\"yes\"?><svg xmlns=\"http://www.w3.org/2000/svg\" version=\"1.1\" width=\""@
        + dec_str(d) + "\" height=\""@ + dec_str(d) + "\" viewBox=\"0 0 "@ + dec_str(d) + " "@
        + dec_str(d) + "\" shape-rendering=\"crispEdges\"><rect x=\"0\" y=\"0\" width=\""@
        + dec_str(d) + "\" height=\""@ + dec_str(d)
        + "\" fill=\"#ffffff\"/><path fill=\"#000000\" d=\""@
}

/// The path segment that draws one dark module as a `unit`-sized square
/// with its top-left corner at (`left`, `top`).
pub open spec fn svg_segment(left: int, top: int, unit: int) -> Seq<char> {
    "M"@ + dec_str(left) + " "@ + dec_str(top) + "h"@ + dec_str(unit) + "v"@ + dec_str(unit)
        + "H"@ + dec_str(left) + "V"@ + dec_str(top)
}

/// The path data of the first `n` modules (row-major), with the quiet
/// zone offset of 4 modules applied.
pub open spec fn svg_rects(modules: Seq<bool>, w: int, unit: int, n: int) -> Seq<char>
    decreases n,
{
    if n <= 0 {
        Seq::empty()
    } else {
        svg_rects(modules, w, unit, n - 1) + if modules[n - 1] {
            svg_segment(((n - 1) % w + 4) * unit, ((n - 1) / w + 4) * unit, unit)
        } else {
            Seq::<char>::empty()
        }
    }
}

/// The complete SVG document for a symbol of `w` modules per side: white
/// background, black modules, viewport of at least 200x200 units.
pub open spec fn svg_of(modules: Seq<bool>, w: int) -> Seq<char> {
    svg_header(svg_dim(w)) + svg_rects(modules, w, svg_unit(w), w * w) + "\"/></svg>"@
}

/// Renders a symbol as an SVG document with a white background and black
/// modules, scaled so the viewport is at least 200x200 units.
#[verifier::rlimit(60)]
pub fn render_svg(modules: &Vec<bool>, w: usize) -> (s: String)
    requires
        1 <= w <= 177,
        modules@.len() == w * w,
    ensures
        s@ == svg_of(modules@, w as int),
{
    proof {
        lemma_svg_dim_at_least_200(w as int);
    }
    let unit: usize = (200 + (w + 8) - 1) / (w + 8);
    proof {
        assert(unit == svg_unit(w as int));
        lemma_fundamental_div_mod(w as int + 207, w as int + 8);
        assert(unit <= 23) by (nonlinear_arith)
            requires
                1 <= w as int <= 177,
                w as int + 207 == (w as int + 8) * (unit as int) + ((w as int + 207) % (
                w as int + 8)),
                0 <= (w as int + 207) % (w as int + 8) < w as int + 8,
        ;
        assert((w as int + 8) * (unit as int) <= 185 * 23) by (nonlinear_arith)
            requires
                1 <= w as int <= 177,
                1 <= unit as int <= 23,
        ;
        assert((w as int) * (w as int) <= 31329) by (nonlinear_arith)
            requires
                1 <= w as int <= 177,
        ;
    }
    let dim: usize = (w + 8) * unit;
    let dim_txt = dec_text(dim as u32);
    let mut s = String::new();
    s.append(
        "<?xml version=\"1.0\" standalone=\"yes\"?><svg xmlns=\"http://www.w3.org/2000/svg\" version=\"1.1\" width=\"",
    );
    s.append(dim_txt.as_str());
    s.append("\" height=\"");
    s.append(dim_txt.as_str());
    s.append("\" viewBox=\"0 0 ");
    s.append(dim_txt.as_str());
    s.append(" ");
    s.append(dim_txt.as_str());
    s.append("\" shape-rendering=\"crispEdges\"><rect x=\"0\" y=\"0\" width=\"");
    s.append(dim_txt.as_str());
    s.append("\" height=\"");
    s.append(dim_txt.as_str());
    s.append("\" fill=\"#ffffff\"/><path fill=\"#000000\" d=\"");
    proof {
        assert(s@ =~= svg_header(svg_dim(w as int)));
    }
    let count: usize = w * w;
    let mut i: usize = 0;
    while i < count
        invariant
            1 <= w <= 177,
            modules@.len() == w * w,
            count == w * w,
            unit == svg_unit(w as int),
            1 <= unit <= 23,
            i <= count,
            s@ == svg_header(svg_dim(w as int)) + svg_rects(modules@, w as int, unit as int, i as int),
        decreases count - i,
    {
        let ghost pre = s@;
        let ghost rects_i = svg_rects(modules@, w as int, unit as int, i as int);
        let ghost rects_next = svg_rects(modules@, w as int, unit as int, i as int + 1);
        if modules[i] {
            let mx = i % w;
            let my = i / w;
            proof {
                assert(my < w) by (nonlinear_arith)
                    requires
                        my == i as int / w as int,
                        0 <= i as int,
                        (i as int) < (w as int) * (w as int),
                        w as int >= 1,
                ;
                assert((mx + 4) * unit <= 181 * 23 && (my + 4) * unit <= 181 * 23)
                    by (nonlinear_arith)
                    requires
                        0 <= mx < w as int,
                        0 <= my < w as int,
                        w as int <= 177,
                        1 <= unit <= 23,
                ;
            }
            let left: usize = (mx + 4) * unit;
            let top: usize = (my + 4) * unit;
            let left_txt = dec_text(left as u32);
            let top_txt = dec_text(top as u32);
            let unit_txt = dec_text(unit as u32);
            s.append("M");
            s.append(left_txt.as_str());
            s.append(" ");
            s.append(top_txt.as_str());
            s.append("h");
            s.append(unit_txt.as_str());
            s.append("v");
            s.append(unit_txt.as_str());
            s.append("H");
            s.append(left_txt.as_str());
            s.append("V");
            s.append(top_txt.as_str());
            proof {
                let seg = svg_segment(left as int, top as int, unit as int);
                assert(seg == "M"@ + dec_str(left as int) + " "@ + dec_str(top as int) + "h"@
                    + dec_str(unit as int) + "v"@ + dec_str(unit as int) + "H"@ + dec_str(
                    left as int,
                ) + "V"@ + dec_str(top as int));
                assert(s@ =~= pre + seg);
                assert(rects_next == rects_i + seg);
                assert(pre + seg =~= svg_header(svg_dim(w as int)) + rects_next);
            }
        } else {
            proof {
                assert(rects_next == rects_i + Seq::<char>::empty());
                assert(rects_i + Seq::<char>::empty() =~= rects_i);
                assert(s@ == svg_header(svg_dim(w as int)) + rects_next);
            }
        }
        i += 1;
    }
    s.append("\"/></svg>");
    proof {
        assert(s@ =~= svg_of(modules@, w as int));
    }
    s
}

/// The outcome of an image generation request.
pub enum GenerateOutcome {
    /// The encoded image bytes.
    Image(Vec<u8>),
    /// No record is stored under the requested id.
    NotFound,
    /// The payload exceeds the maximum symbol capacity, or the byte
    /// encoder refused the bitmap.
    EncodingError,
}

/// The plan for writing a stored target's symbol to disk: the PNG bytes
/// and the path they belong at.
pub enum SavePlan {
    /// Write these bytes at this path.
    Write(Vec<u8>, String),
    /// No record is stored under the requested id.
    NotFound,
    /// The stored link exceeds the maximum symbol capacity, or the byte
    /// encoder refused the bitmap.
    EncodingError,
}

/// The QR image generator. `server_url` prefixes every encoded redirect
/// payload; `image_base_path` is where saved images belong.
pub struct QrCodeGenerator {
    pub server_url: String,
    pub image_base_path: String,
}

impl QrCodeGenerator {
    /// Fetches the record under `id`, encodes the canonical redirect
    /// payload into a QR symbol, and renders it in the requested format.
    /// The encoding error comes exactly when the payload exceeds the
    /// maximum symbol capacity, so the outcome is a function of the
    /// arguments alone.
    pub fn generate(&self, db: &QrCodeDatabase, id: u128, image_type: QrImageType) -> (r:
        GenerateOutcome)
        ensures
            ({
                let payload = payload_of(self.server_url@, id);
                match r {
                    GenerateOutcome::NotFound => !db@.contains_key(id),
                    GenerateOutcome::Image(bytes) => db@.contains_key(id) && (qr_symbol_of(payload)
                        matches Some(sym) && {
                        let wd = sym.0 as int;
                        let total = bitmap_total(wd) as u32;
                        match image_type {
                            QrImageType::Png => bytes@ == png_bytes_of(
                                bitmap_of(sym.1, wd),
                                total,
                                total,
                            ),
                            QrImageType::Jpg => bytes@ == jpeg_bytes_of(
                                bitmap_of(sym.1, wd),
                                total,
                                total,
                            ),
                            QrImageType::Svg => bytes@ == vstd::utf8::encode_utf8(
                                svg_of(sym.1, wd),
                            ),
                        }
                    }),
                    GenerateOutcome::EncodingError => db@.contains_key(id) && qr_symbol_of(
                        payload,
                    ) is None,
                }
            }),
            db@.contains_key(id) && qr_symbol_of(payload_of(self.server_url@, id)) is Some ==> r
                is Image,
    {
        if db.get(id).is_none() {
            return GenerateOutcome::NotFound;
        }
        let payload = payload_text(self.server_url.as_str(), id);
        match qr_encode(payload.as_str()) {
            None => GenerateOutcome::EncodingError,
            Some(p) => {
                let w = p.0;
                let modules = p.1;
                match image_type {
                    QrImageType::Png => {
                        let bm = render_bitmap(&modules, w);
                        let total: u32 = ((w + 8) * 8) as u32;
                        proof {
                            assert(bm@.len() == (total as int) * (total as int));
                            assert(232 <= total <= 1480);
                        }
                        match png_encode(&bm, total, total) {
                            Some(b) => GenerateOutcome::Image(b),
                            None => GenerateOutcome::EncodingError,
                        }
                    },
                    QrImageType::Jpg => {
                        let bm = render_bitmap(&modules, w);
                        let total: u32 = ((w + 8) * 8) as u32;
                        proof {
                            assert(bm@.len() == (total as int) * (total as int));
                            assert(232 <= total <= 1480);
                        }
                        match jpeg_encode(&bm, total, total) {
                            Some(b) => GenerateOutcome::Image(b),
                            None => GenerateOutcome::EncodingError,
                        }
                    },
                    QrImageType::Svg => GenerateOutcome::Image(render_svg(&modules, w).into_bytes()),
                }
            },
        }
    }

    /// Fetches the record under `id`, encodes the stored target link
    /// itself into a QR symbol, and plans a PNG file named after the id
    /// under the generator's image directory. The caller performs the
    /// write. The encoding error comes exactly when the stored link
    /// exceeds the maximum symbol capacity.
    pub fn generate_and_save(&self, db: &QrCodeDatabase, id: u128) -> (r: SavePlan)
        ensures
            match r {
                SavePlan::NotFound => !db@.contains_key(id),
                SavePlan::Write(bytes, path) => db@.contains_key(id) && (qr_symbol_of(
                    db@[id].link,
                ) matches Some(sym) && {
                    let wd = sym.0 as int;
                    let total = bitmap_total(wd) as u32;
                    bytes@ == png_bytes_of(bitmap_of(sym.1, wd), total, total) && path@
                        == self.image_base_path@ + "/"@ + uuid_str(id) + ".png"@
                }),
                SavePlan::EncodingError => db@.contains_key(id) && qr_symbol_of(
                    db@[id].link,
                ) is None,
            },
            db@.contains_key(id) && qr_symbol_of(db@[id].link) is Some ==> r is Write,
    {
        let rec = match db.get(id) {
            Some(rec) => rec,
            None => {
                return SavePlan::NotFound;
            },
        };
        match qr_encode(rec.link.as_str()) {
            None => SavePlan::EncodingError,
            Some(p) => {
                let w = p.0;
                let modules = p.1;
                let bm = render_bitmap(&modules, w);
                let total: u32 = ((w + 8) * 8) as u32;
                proof {
                    assert(bm@.len() == (total as int) * (total as int));
                    assert(232 <= total <= 1480);
                }
                match png_encode(&bm, total, total) {
                    Some(b) => {
                        let mut path = String::new();
                        path.append(self.image_base_path.as_str());
                        path.append("/");
                        let name = uuid_text(id);
                        path.append(name.as_str());
                        path.append(".png");
                        proof {
                            assert(path@ =~= self.image_base_path@ + "/"@ + uuid_str(id)
                                + ".png"@);
                        }
                        SavePlan::Write(b, path)
                    },
                    None => SavePlan::EncodingError,
                }
            },
        }
    }
}

} // verus!
