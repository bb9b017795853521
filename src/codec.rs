use vstd::prelude::*;
use crate::pixel::Pixel;

verus! {

/// What encoding a `width` by `height` image from its RGBA bytes as PNG
/// gives: the file, or the encoder's reason for failing.
pub uninterp spec fn png_encoding_of(width: u32, height: u32, rgba: Seq<u8>) -> Result<
    Seq<u8>,
    Seq<char>,
>;

/// The standard base64 text, with padding, of a byte string.
pub uninterp spec fn base64_of(bytes: Seq<u8>) -> Seq<char>;

/// What decoding a file and converting it to 8-bit RGBA gives: width,
/// height and pixel bytes, or the decoder's reason for failing.
pub uninterp spec fn rgba_decoding_of(data: Seq<u8>) -> Result<(u32, u32, Seq<u8>), Seq<char>>;

/// Channel `c` (red, green, blue, alpha for 0 to 3) of a pixel.
pub open spec fn channel(p: Pixel, c: int) -> u8 {
    if c == 0 {
        p.r
    } else if c == 1 {
        p.g
    } else if c == 2 {
        p.b
    } else {
        p.a
    }
}

/// Pixels laid out as bytes, four per pixel in red, green, blue, alpha order.
pub open spec fn rgba_bytes(px: Seq<Pixel>) -> Seq<u8> {
    Seq::new(4 * px.len(), |i: int| channel(px[i / 4], i % 4))
}

/// The pixels that the first `4 * n` bytes spell, four bytes per pixel.
pub open spec fn pixels_of_bytes(bytes: Seq<u8>, n: int) -> Seq<Pixel> {
    Seq::new(
        n as nat,
        |i: int| Pixel { r: bytes[4 * i], g: bytes[4 * i + 1], b: bytes[4 * i + 2], a: bytes[4 * i + 3] },
    )
}

/// Lays pixels out as bytes, four per pixel in red, green, blue, alpha order.
pub fn pixels_to_rgba(px: &Vec<Pixel>) -> (r: Vec<u8>)
    requires
        4 * px@.len() <= usize::MAX,
    ensures
        r@ == rgba_bytes(px@),
{
    let mut out: Vec<u8> = Vec::new();
    let mut i: usize = 0;
    while i < px.len()
        invariant
            4 * px@.len() <= usize::MAX,
            i <= px@.len(),
            out@.len() == 4 * i,
            forall|j: int| 0 <= j < 4 * i ==> #[trigger] out@[j] == channel(px@[j / 4], j % 4),
        decreases px@.len() - i,
    {
        let p = px[i];
        out.push(p.r);
        out.push(p.g);
        out.push(p.b);
        out.push(p.a);
        i = i + 1;
    }
    assert(out@ =~= rgba_bytes(px@));
    out
}

/// Reads `n` pixels from bytes, four per pixel in red, green, blue, alpha
/// order.
pub fn pixels_from_rgba(bytes: &Vec<u8>, n: usize) -> (r: Vec<Pixel>)
    requires
        bytes@.len() >= 4 * n,
    ensures
        r@ == pixels_of_bytes(bytes@, n as int),
{
    let len: usize = bytes.len();
    let mut out: Vec<Pixel> = Vec::new();
    let mut i: usize = 0;
    while i < n
        invariant
            len == bytes@.len(),
            bytes@.len() >= 4 * n,
            i <= n,
            out@ == pixels_of_bytes(bytes@, i as int),
        decreases n - i,
    {
        let p = Pixel {
            r: bytes[4 * i],
            g: bytes[4 * i + 1],
            b: bytes[4 * i + 2],
            a: bytes[4 * i + 3],
        };
        out.push(p);
        i = i + 1;
        assert(out@ =~= pixels_of_bytes(bytes@, i as int));
    }
    out
}

/// Relies on `image::load_from_memory` and `DynamicImage::to_rgba8`: decodes
/// an image of any enabled format and converts it to 8-bit RGBA. An
/// `ImageBuffer` always holds at least `width * height * 4` bytes. A failure
/// carries the text of the `ImageError`.
#[verifier::external_body]
pub(crate) fn decode_rgba(data: &[u8]) -> (r: Result<(u32, u32, Vec<u8>), String>)
    ensures
        match r {
            Ok((w, h, bytes)) => rgba_decoding_of(data@) == Ok::<(u32, u32, Seq<u8>), Seq<char>>(
                (w, h, bytes@),
            ) && bytes@.len() >= 4 * (w as int * h as int),
            Err(reason) => rgba_decoding_of(data@) == Err::<(u32, u32, Seq<u8>), Seq<char>>(
                reason@,
            ),
        },
{
    match image::load_from_memory(data) {
        Ok(img) => {
            let rgba = img.to_rgba8();
            Ok((rgba.width(), rgba.height(), rgba.into_raw()))
        },
        Err(e) => Err(e.to_string()),
    }
}

/// Relies on `image::codecs::png::PngEncoder::write_image`: encodes RGBA
/// bytes as a PNG file. It panics unless the buffer holds exactly
/// `width * height * 4` bytes. A failure carries the text of the `ImageError`.
#[verifier::external_body]
pub(crate) fn encode_png(width: u32, height: u32, rgba: &Vec<u8>) -> (r: Result<Vec<u8>, String>)
    requires
        rgba@.len() == 4 * (width as int * height as int),
    ensures
        match r {
            Ok(png) => png_encoding_of(width, height, rgba@) == Ok::<Seq<u8>, Seq<char>>(png@),
            Err(reason) => png_encoding_of(width, height, rgba@) == Err::<Seq<u8>, Seq<char>>(
                reason@,
            ),
        },
{
    let mut out: Vec<u8> = Vec::new();
    match image::ImageEncoder::write_image(
        image::codecs::png::PngEncoder::new(&mut out),
        rgba,
        width,
        height,
        image::ExtendedColorType::Rgba8,
    ) {
        Ok(()) => Ok(out),
        Err(e) => Err(e.to_string()),
    }
}

/// Relies on `base64::Engine::encode` with the standard alphabet and padding.
/// It panics when the encoded length overflows `usize`.
#[verifier::external_body]
fn base64_standard(bytes: &Vec<u8>) -> (r: String)
    requires
        bytes@.len() <= usize::MAX / 2,
    ensures
        r@ == base64_of(bytes@),
{
    base64::Engine::encode(&base64::engine::general_purpose::STANDARD, bytes)
}

/// The prefix of a PNG data URI.
pub open spec fn data_uri_prefix() -> Seq<char> {
    "data:image/png;base64,"@
}

/// Wraps PNG bytes in a data URI: the prefix, then their base64 text.
pub fn data_uri_from_png(png: &Vec<u8>) -> (s: String)
    requires
        png@.len() <= usize::MAX / 2,
    ensures
        s@ == data_uri_prefix() + base64_of(png@),
{
    let text = base64_standard(png);
    let prefix = String::from_str("data:image/png;base64,");
    prefix.concat(text.as_str())
}

} // verus!
