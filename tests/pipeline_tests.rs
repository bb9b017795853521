use pixelator::codec::{data_uri_from_png, pixels_from_rgba, pixels_to_rgba};
use pixelator::metric::{color_diff, distance, floor_sqrt_u32, Weighting};
use pixelator::palette::{lookup, palette_by_name, str_equal, PaletteName};
use pixelator::pipeline::{
    apply_selection, parse_selection, process_image, render_data_uri, stylize, PixelateError,
    Selection,
};
use pixelator::pixel::{Pixel, PixelBuffer};
use pixelator::quantize::{nearest_index, quantize, quantize_pixel};
use pixelator::resample::{downscale, resize, upscale};

fn px(r: u8, g: u8, b: u8, a: u8) -> Pixel {
    Pixel::new(r, g, b, a)
}

fn gradient(w: u32, h: u32) -> PixelBuffer {
    let mut pixels = Vec::new();
    for y in 0..h {
        for x in 0..w {
            pixels.push(px((x * 10) as u8, (y * 10) as u8, ((x + y) % 256) as u8, 200));
        }
    }
    PixelBuffer::new(w, h, pixels).unwrap()
}

#[test]
fn new_buffer_checks_length() {
    assert!(PixelBuffer::new(2, 2, vec![px(0, 0, 0, 0); 3]).is_none());
    let b = PixelBuffer::new(2, 2, vec![px(1, 2, 3, 4); 4]).unwrap();
    assert_eq!(b.width, 2);
    assert_eq!(b.pixels.len(), 4);
}

#[test]
fn round_trip_restores_dimensions_when_divisible() {
    let b = gradient(12, 8);
    let small = downscale(&b, 4);
    assert_eq!((small.width, small.height), (3, 2));
    let big = upscale(&small, 4);
    assert_eq!((big.width, big.height), (12, 8));
    assert_eq!(big.pixels.len(), 96);
}

#[test]
fn round_trip_truncates_when_not_divisible() {
    let b = gradient(5, 7);
    let big = upscale(&downscale(&b, 2), 2);
    assert_eq!((big.width, big.height), (4, 6));
}

#[test]
fn downscale_samples_top_left_of_each_block() {
    let b = gradient(4, 4);
    let small = downscale(&b, 2);
    assert_eq!(small.pixels, vec![b.pixels[0], b.pixels[2], b.pixels[8], b.pixels[10]]);
}

#[test]
fn upscale_repeats_each_pixel_as_a_block() {
    let a = px(1, 2, 3, 4);
    let c = px(5, 6, 7, 8);
    let b = PixelBuffer::new(2, 1, vec![a, c]).unwrap();
    let big = upscale(&b, 2);
    assert_eq!((big.width, big.height), (4, 2));
    assert_eq!(big.pixels, vec![a, a, c, c, a, a, c, c]);
}

#[test]
fn resize_follows_floor_formula() {
    let b = gradient(3, 1);
    let r = resize(&b, 2, 1);
    // x = 1 reads floor(1 * 3 / 2) = 1
    assert_eq!(r.pixels, vec![b.pixels[0], b.pixels[1]]);
}

#[test]
fn floor_sqrt_exact_values() {
    assert_eq!(floor_sqrt_u32(0), 0);
    assert_eq!(floor_sqrt_u32(1), 1);
    assert_eq!(floor_sqrt_u32(15), 3);
    assert_eq!(floor_sqrt_u32(16), 4);
    assert_eq!(floor_sqrt_u32(520200), 721);
    assert_eq!(floor_sqrt_u32(1024 * 1024 - 1), 1023);
}

#[test]
fn redmean_distance_values() {
    let black = px(0, 0, 0, 255);
    let white = px(255, 255, 255, 255);
    assert_eq!(color_diff(black, white), 721);
    assert_eq!(color_diff(px(10, 0, 0, 0), px(0, 0, 0, 255)), 14);
    assert_eq!(color_diff(px(0, 3, 0, 0), px(0, 0, 0, 0)), 6);
}

#[test]
fn fixed_distance_values() {
    let black = px(0, 0, 0, 255);
    let white = px(255, 255, 255, 255);
    assert_eq!(distance(black, white, Weighting::Fixed), 806);
    assert_eq!(distance(px(0, 0, 2, 0), black, Weighting::Fixed), 2);
}

#[test]
fn distance_is_symmetric_and_zero_on_equal_colors() {
    let c1 = px(12, 200, 7, 3);
    let c2 = px(250, 1, 99, 255);
    for w in [Weighting::Fixed, Weighting::Redmean] {
        assert_eq!(distance(c1, c2, w), distance(c2, c1, w));
        assert_eq!(distance(c1, c1, w), 0);
        assert_eq!(distance(c1, px(12, 200, 7, 90), w), 0);
        assert!(distance(c1, c2, w) > 0);
    }
}

#[test]
fn nearest_prefers_first_of_equal_distances() {
    let p = px(100, 100, 100, 255);
    let pal = vec![px(0, 0, 0, 255), px(110, 100, 100, 255), px(90, 100, 100, 255)];
    assert_eq!(color_diff(p, pal[1]), color_diff(p, pal[2]));
    assert_eq!(nearest_index(p, &pal), Some(1));
}

#[test]
fn quantize_pixel_forces_opaque() {
    let pal = vec![px(10, 20, 30, 7)];
    assert_eq!(quantize_pixel(px(12, 20, 30, 0), &pal), px(10, 20, 30, 255));
}

#[test]
fn quantize_takes_nearest_even_when_far() {
    let pal = vec![px(255, 255, 255, 255)];
    assert_eq!(color_diff(px(0, 0, 0, 255), pal[0]), 721);
    assert_eq!(nearest_index(px(0, 0, 0, 255), &pal), Some(0));
    assert_eq!(quantize_pixel(px(0, 0, 0, 9), &pal), px(255, 255, 255, 255));
}

#[test]
fn quantize_with_empty_palette_gives_black() {
    let pal: Vec<Pixel> = Vec::new();
    assert_eq!(nearest_index(px(5, 6, 7, 8), &pal), None);
    assert_eq!(quantize_pixel(px(5, 6, 7, 8), &pal), px(0, 0, 0, 255));
}

#[test]
fn blue_with_dracula_gets_nearest_member() {
    let pal = PaletteName::Dracula.colors();
    let blue = px(0, 0, 255, 255);
    let q = quantize_pixel(blue, &pal);
    assert!(pal.contains(&q));
    let best = pal.iter().map(|c| color_diff(blue, *c)).min().unwrap();
    assert!(best >= 255);
    assert_eq!(color_diff(blue, q), best);
    let first = pal.iter().position(|c| color_diff(blue, *c) == best).unwrap();
    assert_eq!(q, pal[first]);
}

#[test]
fn quantize_outputs_palette_members() {
    let b = gradient(6, 6);
    let pal = PaletteName::Retro.colors();
    let q = quantize(&b, &pal);
    assert_eq!((q.width, q.height), (6, 6));
    for p in &q.pixels {
        assert_eq!(p.a, 255);
        assert!(pal.contains(p));
    }
}

#[test]
fn single_color_palette_maps_everything_to_it() {
    let c = px(40, 60, 80, 255);
    let b = gradient(5, 3);
    let q = quantize(&b, &vec![c]);
    assert!(q.pixels.iter().all(|p| *p == c));
}

#[test]
fn bypass_keeps_colors_and_alpha() {
    let b = gradient(4, 3);
    let out = apply_selection(&b, Selection::Bypass);
    assert_eq!(out.pixels, b.pixels);
}

#[test]
fn unknown_palette_is_an_error() {
    let b = gradient(4, 4);
    assert_eq!(stylize(&b, 2, "doesnotexist").unwrap_err(), PixelateError::UnknownPalette);
    assert_eq!(parse_selection("doesnotexist"), Err(PixelateError::UnknownPalette));
    assert!(lookup("doesnotexist").is_none());
    assert_eq!(palette_by_name("Retro"), None);
}

#[test]
fn zero_block_size_is_an_error() {
    let b = gradient(4, 4);
    assert_eq!(stylize(&b, 0, "none").unwrap_err(), PixelateError::ZeroBlockSize);
    assert_eq!(stylize(&b, 0, "doesnotexist").unwrap_err(), PixelateError::ZeroBlockSize);
}

#[test]
fn selection_names() {
    assert_eq!(parse_selection("none"), Ok(Selection::Bypass));
    assert_eq!(parse_selection("dracula"), Ok(Selection::Palette(PaletteName::Dracula)));
    assert_eq!(palette_by_name("instagramgradient"), Some(PaletteName::InstagramGradient));
    assert!(str_equal("abc", "abc"));
    assert!(!str_equal("abc", "abd"));
}

#[test]
fn palette_contents() {
    let retro = lookup("retro").unwrap();
    assert_eq!(retro.len(), 16);
    assert_eq!(retro[2], px(136, 0, 0, 255));
    let sunset = lookup("citysunset").unwrap();
    assert_eq!(sunset.len(), 14);
    assert_eq!(sunset[13], px(59, 21, 64, 255));
    let mono = lookup("monochrome").unwrap();
    assert_eq!(mono[15], px(64, 64, 64, 255));
}

#[test]
fn red_image_with_monochrome_palette() {
    let red = PixelBuffer::filled(16, 16, px(255, 0, 0, 255));
    let small = downscale(&red, 4);
    assert_eq!((small.width, small.height), (4, 4));
    assert!(small.pixels.iter().all(|p| *p == px(255, 0, 0, 255)));
    // grey 64 is the unique nearest monochrome entry, at distance 312
    assert_eq!(color_diff(px(255, 0, 0, 255), px(64, 64, 64, 255)), 312);
    let out = stylize(&red, 4, "monochrome").unwrap();
    assert_eq!((out.width, out.height), (16, 16));
    assert_eq!(out.pixels.len(), 256);
    assert!(out.pixels.iter().all(|p| *p == px(64, 64, 64, 255)));
}

#[test]
fn bypass_with_blocks_only_resamples() {
    let b = gradient(6, 4);
    let out = stylize(&b, 2, "none").unwrap();
    assert_eq!((out.width, out.height), (6, 4));
    assert!(out.pixels.iter().all(|p| b.pixels.contains(p)));
    assert_eq!(out.pixels[1], b.pixels[0]);
}

#[test]
fn process_image_truncates_undivided_sides() {
    let png = encode_test_png(5, 3, &[7; 60]);
    let img = decode_data_uri(&process_image(&png, 2, "none").unwrap());
    assert_eq!(img.dimensions(), (4, 2));
}

#[test]
fn unit_block_with_bypass_is_identity() {
    let b = gradient(7, 5);
    let out = stylize(&b, 1, "none").unwrap();
    assert_eq!((out.width, out.height), (7, 5));
    assert_eq!(out.pixels, b.pixels);
}

#[test]
fn stylize_with_palette_recolours_blocks() {
    let b = gradient(8, 8);
    let out = stylize(&b, 4, "retro").unwrap();
    assert_eq!((out.width, out.height), (8, 8));
    assert_eq!(out.pixels[0], out.pixels[3 * 8 + 3]);
    assert!(out.pixels.iter().all(|p| p.a == 255));
}

#[test]
fn rgba_byte_conversions() {
    let pixels = vec![px(1, 2, 3, 4), px(5, 6, 7, 8)];
    let bytes = pixels_to_rgba(&pixels);
    assert_eq!(bytes, vec![1, 2, 3, 4, 5, 6, 7, 8]);
    assert_eq!(pixels_from_rgba(&bytes, 2), pixels);
    assert_eq!(pixels_from_rgba(&vec![9, 9, 9, 9, 1], 1), vec![px(9, 9, 9, 9)]);
}

#[test]
fn data_uri_wraps_base64() {
    assert_eq!(data_uri_from_png(&vec![1, 2, 3]), "data:image/png;base64,AQID");
    assert_eq!(data_uri_from_png(&vec![]), "data:image/png;base64,");
    assert_eq!(data_uri_from_png(&vec![255, 0]), "data:image/png;base64,/wA=");
}

fn encode_test_png(w: u32, h: u32, rgba: &[u8]) -> Vec<u8> {
    let mut out = Vec::new();
    image::ImageEncoder::write_image(
        image::codecs::png::PngEncoder::new(&mut out),
        rgba,
        w,
        h,
        image::ExtendedColorType::Rgba8,
    )
    .unwrap();
    out
}

fn decode_data_uri(s: &str) -> image::RgbaImage {
    let prefix = "data:image/png;base64,";
    assert!(s.starts_with(prefix));
    let png = base64::Engine::decode(&base64::engine::general_purpose::STANDARD, &s[prefix.len()..])
        .unwrap();
    image::load_from_memory(&png).unwrap().to_rgba8()
}

#[test]
fn process_image_end_to_end() {
    let mut rgba = Vec::new();
    for _ in 0..16 * 16 {
        rgba.extend_from_slice(&[255, 0, 0, 255]);
    }
    let png = encode_test_png(16, 16, &rgba);
    let uri = process_image(&png, 4, "monochrome").unwrap();
    let img = decode_data_uri(&uri);
    assert_eq!(img.dimensions(), (16, 16));
    assert!(img.pixels().all(|p| p.0 == [64, 64, 64, 255]));
}

#[test]
fn process_image_bypass_keeps_pixels() {
    let mut rgba = Vec::new();
    for i in 0..6u8 {
        rgba.extend_from_slice(&[i * 40, 255 - i * 40, i, 100 + i]);
    }
    let png = encode_test_png(3, 2, &rgba);
    let uri = process_image(&png, 1, "none").unwrap();
    let img = decode_data_uri(&uri);
    assert_eq!(img.dimensions(), (3, 2));
    assert_eq!(img.into_raw(), rgba);
}

#[test]
fn process_image_errors() {
    assert!(matches!(process_image(&[1, 2, 3], 4, "none"), Err(PixelateError::Decode(_))));
    let png = encode_test_png(2, 2, &[0; 16]);
    assert_eq!(process_image(&png, 0, "none"), Err(PixelateError::ZeroBlockSize));
    assert_eq!(process_image(&png, 2, "doesnotexist"), Err(PixelateError::UnknownPalette));
}

#[test]
fn render_data_uri_matches_encoded_result() {
    let b = PixelBuffer::filled(2, 2, px(9, 8, 7, 6));
    let uri = render_data_uri(&b, 1, "none").unwrap();
    let img = decode_data_uri(&uri);
    assert!(img.pixels().all(|p| p.0 == [9, 8, 7, 6]));
}
