use vstd::prelude::*;
use crate::pixel::{Pixel, PixelBuffer};
use crate::resample::{
    sample_coord,
    sampled,
    is_resized,
    downscale,
    upscale,
    lemma_sample_coord_in_range,
    lemma_same_size_is_copy,
};
use crate::palette::{PaletteName, palette_named, palette_colors, palette_by_name, str_equal};
use crate::quantize::{quantized_pixel, is_quantized, quantize};
use crate::codec::{
    png_encoding_of,
    base64_of,
    rgba_bytes,
    rgba_decoding_of,
    pixels_of_bytes,
    data_uri_prefix,
    pixels_to_rgba,
    pixels_from_rgba,
    decode_rgba,
    encode_png,
    data_uri_from_png,
};

verus! {

/// Why the pipeline refused or failed.
#[derive(Clone, Debug, PartialEq, Eq)]
pub enum PixelateError {
    /// The block size is zero.
    ZeroBlockSize,
    /// The palette selection names no built-in palette and is not the bypass.
    UnknownPalette,
    /// The input bytes are not an image that could be decoded; the decoder's
    /// reason is kept.
    Decode(String),
    /// The result could not be encoded; the encoder's reason is kept.
    Encode(String),
}

/// What quantization step the pipeline runs.
#[derive(Clone, Copy, Debug, PartialEq, Eq, Structural)]
pub enum Selection {
    /// Colours are left as they are.
    Bypass,
    /// Colours are mapped to the nearest colour of a built-in palette.
    Palette(PaletteName),
}

/// The name that selects the bypass.
pub open spec fn bypass_name() -> Seq<char> {
    "none"@
}

/// The selection made by a name, if it makes one.
pub open spec fn selection_named(s: Seq<char>) -> Option<Selection> {
    if s == bypass_name() {
        Some(Selection::Bypass)
    } else {
        match palette_named(s) {
            Some(p) => Some(Selection::Palette(p)),
            None => None,
        }
    }
}

/// The colour that a selection gives a pixel.
pub open spec fn selected_pixel(p: Pixel, sel: Selection) -> Pixel {
    match sel {
        Selection::Bypass => p,
        Selection::Palette(name) => quantized_pixel(p, palette_colors(name)),
    }
}

/// `out` is `src` with every pixel given its colour under `sel`.
pub open spec fn is_selected(src: PixelBuffer, sel: Selection, out: PixelBuffer) -> bool {
    &&& out.width == src.width
    &&& out.height == src.height
    &&& out.pixels@.len() == src.pixels@.len()
    &&& forall|i: int|
        0 <= i < src.pixels@.len() ==> #[trigger] out.pixels@[i] == selected_pixel(
            src.pixels@[i],
            sel,
        )
}

/// The source pixel that the pipeline with block size `k` reads for output
/// pixel `(x, y)`: the pixel the shrunken image sampled for the block that
/// `(x, y)` falls in, given its colour under `sel`.
pub open spec fn stylized_pixel(src: PixelBuffer, k: int, sel: Selection, x: int, y: int) -> Pixel {
    let dw = src.width as int / k;
    let dh = src.height as int / k;
    let sx = sample_coord(sample_coord(x, dw, dw * k), src.width as int, dw);
    let sy = sample_coord(sample_coord(y, dh, dh * k), src.height as int, dh);
    selected_pixel(src.at(sx, sy), sel)
}

/// `out` is what the pipeline makes of `src` with block size `k` and `sel`.
pub open spec fn is_stylized(src: PixelBuffer, k: int, sel: Selection, out: PixelBuffer) -> bool {
    &&& out.wf()
    &&& out.width == (src.width as int / k) * k
    &&& out.height == (src.height as int / k) * k
    &&& forall|x: int, y: int|
        0 <= x < out.width && 0 <= y < out.height ==> #[trigger] out.at(x, y) == stylized_pixel(
            src,
            k,
            sel,
            x,
            y,
        )
}

/// Parses a palette selection: `"none"` is the bypass, any other name must
/// be a built-in palette.
pub fn parse_selection(name: &str) -> (r: Result<Selection, PixelateError>)
    ensures
        match selection_named(name@) {
            Some(sel) => r matches Ok(s) && s == sel,
            None => r matches Err(PixelateError::UnknownPalette),
        },
{
    if str_equal(name, "none") {
        return Ok(Selection::Bypass);
    }
    match palette_by_name(name) {
        Some(p) => Ok(Selection::Palette(p)),
        None => Err(PixelateError::UnknownPalette),
    }
}

/// Applies a selection to every pixel: the bypass leaves the buffer as it is,
/// a palette quantizes it.
pub fn apply_selection(src: &PixelBuffer, sel: Selection) -> (r: PixelBuffer)
    requires
        src.wf(),
    ensures
        r.wf(),
        is_selected(*src, sel, r),
        sel == Selection::Bypass ==> r.pixels@ == src.pixels@,
{
    match sel {
        Selection::Bypass => src.clone_buffer(),
        Selection::Palette(name) => {
            let pal = name.colors();
            let r = quantize(src, &pal);
            assert(is_quantized(*src, palette_colors(name), r));
            r
        },
    }
}

impl PixelBuffer {
    /// Returns a copy of this buffer.
    pub fn clone_buffer(&self) -> (r: PixelBuffer)
        ensures
            r.width == self.width,
            r.height == self.height,
            r.pixels@ == self.pixels@,
    {
        let mut out: Vec<Pixel> = Vec::new();
        let mut i: usize = 0;
        while i < self.pixels.len()
            invariant
                i <= self.pixels@.len(),
                out@ == self.pixels@.subrange(0, i as int),
            decreases self.pixels@.len() - i,
        {
            out.push(self.pixels[i]);
            i = i + 1;
            assert(out@ =~= self.pixels@.subrange(0, i as int));
        }
        assert(out@ =~= self.pixels@);
        PixelBuffer { width: self.width, height: self.height, pixels: out }
    }
}

/// Runs the pipeline on a parsed selection: shrink by `k` once, apply `sel`
/// to the shrunken image, then magnify by `k`.
pub fn stylize_with(src: &PixelBuffer, k: u32, sel: Selection) -> (r: PixelBuffer)
    requires
        src.wf(),
        k >= 1,
    ensures
        is_stylized(*src, k as int, sel, r),
{
    let len: usize = src.pixels.len();
    let small = downscale(src, k);
    let chosen = apply_selection(&small, sel);
    let dw = chosen.width;
    let dh = chosen.height;
    assert(dw as int * k <= src.width) by (nonlinear_arith)
        requires
            dw as int == src.width as int / (k as int),
            k >= 1,
    ;
    assert(dh as int * k <= src.height) by (nonlinear_arith)
        requires
            dh as int == src.height as int / (k as int),
            k >= 1,
    ;
    assert((dw as int * k) * (dh as int * k) <= src.width as int * src.height as int)
        by (nonlinear_arith)
        requires
            0 <= dw as int * k <= src.width,
            0 <= dh as int * k <= src.height,
    ;
    let r = upscale(&chosen, k);
    proof {
        assert forall|x: int, y: int| 0 <= x < r.width && 0 <= y < r.height implies #[trigger] r.at(
            x,
            y,
        ) == stylized_pixel(*src, k as int, sel, x, y) by {
            let xs = sample_coord(x, dw as int, r.width as int);
            let ys = sample_coord(y, dh as int, r.height as int);
            assert(r.at(x, y) == sampled(chosen, r.width as int, r.height as int, x, y));
            lemma_sample_coord_in_range(x, dw as int, r.width as int);
            lemma_sample_coord_in_range(y, dh as int, r.height as int);
            assert(small.at(xs, ys) == sampled(*src, dw as int, dh as int, xs, ys));
            let i = ys * dw + xs;
            assert(0 <= i < small.pixels@.len()) by (nonlinear_arith)
                requires
                    i == ys * dw + xs,
                    0 <= xs < dw,
                    0 <= ys < dh,
                    small.pixels@.len() == dw * dh,
            ;
            assert(chosen.pixels@[i] == selected_pixel(small.pixels@[i], sel));
        }
    }
    r
}

/// Runs the pipeline: with block size `k` and a selection by name, shrink,
/// recolour and magnify. A zero block size and an unknown palette name are
/// refused, in that order. A block size that does not divide a side is
/// accepted: the side is shrunk with rounding down, so the result is smaller
/// than the input by the remainder.
pub fn stylize(src: &PixelBuffer, k: u32, selection: &str) -> (r: Result<PixelBuffer, PixelateError>)
    requires
        src.wf(),
    ensures
        k == 0 ==> r matches Err(PixelateError::ZeroBlockSize),
        k > 0 && selection_named(selection@) is None ==> r matches Err(
            PixelateError::UnknownPalette,
        ),
        k > 0 ==> match selection_named(selection@) {
            Some(sel) => r matches Ok(out) && is_stylized(*src, k as int, sel, out),
            None => r is Err,
        },
{
    if k == 0 {
        return Err(PixelateError::ZeroBlockSize);
    }
    let sel = match parse_selection(selection) {
        Ok(s) => s,
        Err(e) => {
            return Err(e);
        },
    };
    Ok(stylize_with(src, k, sel))
}

/// With block size one and the bypass, the pipeline returns its input pixel
/// for pixel.
pub proof fn lemma_unit_block_bypass_is_identity(src: PixelBuffer, out: PixelBuffer)
    requires
        src.wf(),
        is_stylized(src, 1, Selection::Bypass, out),
    ensures
        out.width == src.width,
        out.height == src.height,
        out.pixels@ == src.pixels@,
{
    let w = src.width as int;
    let h = src.height as int;
    assert(w / 1 == w && h / 1 == h);
    assert forall|x: int, y: int| 0 <= x < out.width && 0 <= y < out.height implies #[trigger] out.at(
        x,
        y,
    ) == sampled(src, out.width as int, out.height as int, x, y) by {
        assert(x * w / w == x) by (nonlinear_arith)
            requires
                0 <= x < w,
        ;
        assert(y * h / h == y) by (nonlinear_arith)
            requires
                0 <= y < h,
        ;
        assert(stylized_pixel(src, 1, Selection::Bypass, x, y) == src.at(x, y));
    }
    assert(is_resized(src, out));
    lemma_same_size_is_copy(src, out);
}

/// Applying the bypass leaves every pixel as it is.
pub proof fn lemma_bypass_keeps_colors(src: PixelBuffer, out: PixelBuffer)
    requires
        is_selected(src, Selection::Bypass, out),
    ensures
        out.pixels@ == src.pixels@,
{
    assert(out.pixels@ =~= src.pixels@);
}

/// The message of the error for an image whose RGBA bytes would not fit in
/// memory.
pub open spec fn image_too_large_message() -> Seq<char> {
    "image too large to encode"@
}

/// The message of the error for a PNG file too long to be put in base64.
pub open spec fn png_too_large_message() -> Seq<char> {
    "encoded image too large"@
}

/// `r` is what rendering the finished image `out` as a PNG data URI gives:
/// an error when its RGBA bytes would exceed `usize::MAX`, the encoder's
/// error, an error when the PNG file is longer than `usize::MAX / 2`, and
/// otherwise the data URI of the PNG file.
pub open spec fn is_render_outcome(out: PixelBuffer, r: Result<String, PixelateError>) -> bool {
    if 4 * out.pixels@.len() > usize::MAX {
        r matches Err(PixelateError::Encode(m)) && m@ == image_too_large_message()
    } else {
        match png_encoding_of(out.width, out.height, rgba_bytes(out.pixels@)) {
            Err(reason) => r matches Err(PixelateError::Encode(m)) && m@ == reason,
            Ok(png) => if png.len() > usize::MAX / 2 {
                r matches Err(PixelateError::Encode(m)) && m@ == png_too_large_message()
            } else {
                r matches Ok(s) && s@ == data_uri_prefix() + base64_of(png)
            },
        }
    }
}

/// `r` is what rendering `src` with block size `k` and the selection named
/// `selection` gives: the refusals of the pipeline, in order, and otherwise
/// the rendering of the one image that the pipeline makes.
pub open spec fn is_render_result(
    src: PixelBuffer,
    k: int,
    selection: Seq<char>,
    r: Result<String, PixelateError>,
) -> bool {
    if k == 0 {
        r matches Err(PixelateError::ZeroBlockSize)
    } else {
        match selection_named(selection) {
            None => r matches Err(PixelateError::UnknownPalette),
            Some(sel) => exists|out: PixelBuffer|
                #[trigger] is_stylized(src, k, sel, out) && is_render_outcome(out, r),
        }
    }
}

/// Runs the pipeline on a decoded image and returns the result as a PNG data
/// URI. A zero block size and an unknown palette name are refused, in that
/// order; the other failures are those of encoding.
pub fn render_data_uri(src: &PixelBuffer, k: u32, selection: &str) -> (r: Result<
    String,
    PixelateError,
>)
    requires
        src.wf(),
    ensures
        is_render_result(*src, k as int, selection@, r),
{
    let out = match stylize(src, k, selection) {
        Ok(out) => out,
        Err(e) => {
            return Err(e);
        },
    };
    let ghost sel = selection_named(selection@)->Some_0;
    assert(is_stylized(*src, k as int, sel, out));
    let n: usize = out.pixels.len();
    if n > usize::MAX / 4 {
        let r = Err(PixelateError::Encode(String::from_str("image too large to encode")));
        assert(is_render_outcome(out, r));
        return r;
    }
    let bytes = pixels_to_rgba(&out.pixels);
    let png = match encode_png(out.width, out.height, &bytes) {
        Ok(png) => png,
        Err(reason) => {
            let r = Err(PixelateError::Encode(reason));
            assert(is_render_outcome(out, r));
            return r;
        },
    };
    if png.len() > usize::MAX / 2 {
        let r = Err(PixelateError::Encode(String::from_str("encoded image too large")));
        assert(is_render_outcome(out, r));
        return r;
    }
    let s = data_uri_from_png(&png);
    let r = Ok(s);
    assert(is_render_outcome(out, r));
    r
}

/// `src` holds the `width` by `height` pixels that the decoded RGBA bytes
/// spell.
pub open spec fn is_decoded(src: PixelBuffer, width: u32, height: u32, bytes: Seq<u8>) -> bool {
    &&& src.width == width
    &&& src.height == height
    &&& src.pixels@ == pixels_of_bytes(bytes, width as int * height as int)
}

/// `r` is what processing the file `data` with block size `k` and the
/// selection named `selection` gives: the decoder's error, or the rendering
/// of the decoded image.
pub open spec fn is_process_result(
    data: Seq<u8>,
    k: int,
    selection: Seq<char>,
    r: Result<String, PixelateError>,
) -> bool {
    match rgba_decoding_of(data) {
        Err(reason) => r matches Err(PixelateError::Decode(m)) && m@ == reason,
        Ok(decoded) => exists|src: PixelBuffer|
            #[trigger] is_decoded(src, decoded.0, decoded.1, decoded.2) && src.wf() && is_render_result(
                src,
                k,
                selection,
                r,
            ),
    }
}

/// Decodes an image, runs the pipeline with block size `pixel_size` and the
/// named selection, and returns the result as a PNG data URI. Decoding comes
/// first, so undecodable bytes fail with the decoder's reason whatever the
/// other arguments are.
pub fn process_image(data: &[u8], pixel_size: u32, palette: &str) -> (r: Result<
    String,
    PixelateError,
>)
    ensures
        is_process_result(data@, pixel_size as int, palette@, r),
{
    let (w, h, bytes) = match decode_rgba(data) {
        Ok(decoded) => decoded,
        Err(reason) => {
            let r = Err(PixelateError::Decode(reason));
            assert(is_process_result(data@, pixel_size as int, palette@, r));
            return r;
        },
    };
    let len: usize = bytes.len();
    let n: usize = (w as u64 * h as u64) as usize;
    let pixels = pixels_from_rgba(&bytes, n);
    let src = PixelBuffer { width: w, height: h, pixels };
    let r = render_data_uri(&src, pixel_size, palette);
    assert(is_decoded(src, w, h, bytes@));
    assert(src.wf() && is_render_result(src, pixel_size as int, palette@, r));
    assert(rgba_decoding_of(data@) == Ok::<(u32, u32, Seq<u8>), Seq<char>>((w, h, bytes@)));
    let ghost d = rgba_decoding_of(data@)->Ok_0;
    assert(d.0 == w && d.1 == h && d.2 == bytes@);
    assert(is_decoded(src, d.0, d.1, d.2));
    assert(is_process_result(data@, pixel_size as int, palette@, r));
    r
}

/// `q` is one of the pixels of `src`, all four channels alike.
pub open spec fn is_input_pixel(src: PixelBuffer, q: Pixel) -> bool {
    exists|u: int, v: int| 0 <= u < src.width && 0 <= v < src.height && q == #[trigger] src.at(u, v)
}

/// With the bypass, whatever the block size, every output pixel is some
/// input pixel, all four channels alike.
pub proof fn lemma_bypass_output_pixels_come_from_input(src: PixelBuffer, k: int, out: PixelBuffer)
    requires
        src.wf(),
        k >= 1,
        is_stylized(src, k, Selection::Bypass, out),
    ensures
        forall|x: int, y: int|
            0 <= x < out.width && 0 <= y < out.height ==> is_input_pixel(src, #[trigger] out.at(x, y)),
{
    assert forall|x: int, y: int| 0 <= x < out.width && 0 <= y < out.height implies is_input_pixel(
        src,
        #[trigger] out.at(x, y),
    ) by {
        let dw = src.width as int / k;
        let dh = src.height as int / k;
        assert(dw > 0 && dh > 0) by (nonlinear_arith)
            requires
                out.width == dw * k,
                out.height == dh * k,
                0 <= x < out.width,
                0 <= y < out.height,
                k >= 1,
        ;
        assert(dw <= src.width && dh <= src.height) by (nonlinear_arith)
            requires
                dw == src.width as int / k,
                dh == src.height as int / k,
                k >= 1,
        ;
        lemma_sample_coord_in_range(x, dw, dw * k);
        lemma_sample_coord_in_range(y, dh, dh * k);
        let xs = sample_coord(x, dw, dw * k);
        let ys = sample_coord(y, dh, dh * k);
        lemma_sample_coord_in_range(xs, src.width as int, dw);
        lemma_sample_coord_in_range(ys, src.height as int, dh);
        let u = sample_coord(xs, src.width as int, dw);
        let v = sample_coord(ys, src.height as int, dh);
        assert(out.at(x, y) == src.at(u, v));
    }
}

} // verus!
