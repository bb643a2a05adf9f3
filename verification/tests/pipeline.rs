use transformers::error::TransformError;
use transformers::processor::ImageProcessor;

fn solid_png(w: u32, h: u32, c: [u8; 4]) -> Vec<u8> {
    let img = image::RgbaImage::from_pixel(w, h, image::Rgba(c));
    let mut cur = std::io::Cursor::new(Vec::new());
    image::DynamicImage::ImageRgba8(img)
        .write_to(&mut cur, image::ImageFormat::Png)
        .unwrap();
    cur.into_inner()
}

fn png_from_pixels(w: u32, h: u32, px: &[[u8; 4]]) -> Vec<u8> {
    let mut img = image::RgbaImage::new(w, h);
    for y in 0..h {
        for x in 0..w {
            img.put_pixel(x, y, image::Rgba(px[(y * w + x) as usize]));
        }
    }
    let mut cur = std::io::Cursor::new(Vec::new());
    image::DynamicImage::ImageRgba8(img)
        .write_to(&mut cur, image::ImageFormat::Png)
        .unwrap();
    cur.into_inner()
}

fn decode_rgba(bytes: &[u8]) -> (u32, u32, Vec<u8>) {
    let img = image::load_from_memory(bytes).unwrap();
    let buf = img.to_rgba8();
    (buf.width(), buf.height(), buf.into_raw())
}

#[test]
fn config_calls_before_import_fail_with_no_payload() {
    let mut p = ImageProcessor::new();
    assert_eq!(p.rotate(90), Err(TransformError::NoPayload));
    assert_eq!(
        p.resize(5, 5, true, "lanczos3"),
        Err(TransformError::NoPayload)
    );
    assert_eq!(p.crop(0, 0, 2, 2), Err(TransformError::NoPayload));
    assert_eq!(p.flip(true, false), Err(TransformError::NoPayload));
    assert_eq!(p.grayscale(), Err(TransformError::NoPayload));
    assert_eq!(p.blur(2.0f32.to_bits()), Err(TransformError::NoPayload));
    assert_eq!(p.brighten(10), Err(TransformError::NoPayload));
    assert_eq!(p.contrast(1.5f32.to_bits()), Err(TransformError::NoPayload));
    assert_eq!(
        p.unsharpen(1.0f32.to_bits(), 2),
        Err(TransformError::NoPayload)
    );
    assert_eq!(p.invert(), Err(TransformError::NoPayload));
}

#[test]
fn terminal_calls_before_import_fail_with_no_payload() {
    let mut p = ImageProcessor::new();
    assert_eq!(p.export("png"), Err(TransformError::NoPayload));
    assert_eq!(p.exec("png"), Err(TransformError::NoPayload));
    assert_eq!(
        p.optimize("png", 2, false, false),
        Err(TransformError::NoPayload)
    );
}

#[test]
fn rotate_45_fails_rotate_90_succeeds() {
    let mut p = ImageProcessor::new();
    p.import(solid_png(4, 4, [10, 20, 30, 255])).unwrap();
    assert_eq!(p.rotate(45), Err(TransformError::UnsupportedParameter));
    assert_eq!(p.rotate(90), Ok(()));
}

#[test]
fn unknown_format_name_is_rejected() {
    let mut p = ImageProcessor::new();
    p.import(solid_png(4, 4, [10, 20, 30, 255])).unwrap();
    assert_eq!(p.export("tiff"), Err(TransformError::UnsupportedFormat));
    assert_eq!(
        p.optimize("qoi", 2, false, false),
        Err(TransformError::UnsupportedFormat)
    );
    assert_eq!(p.exec("avif"), Err(TransformError::UnsupportedFormat));
}

#[test]
fn format_names_are_case_insensitive() {
    let mut p = ImageProcessor::new();
    p.import(solid_png(4, 4, [10, 20, 30, 255])).unwrap();
    let out = p.export("PNG").unwrap();
    let (w, h, _) = decode_rgba(&out);
    assert_eq!((w, h), (4, 4));
}

#[test]
fn unknown_filter_name_is_rejected() {
    let mut p = ImageProcessor::new();
    p.import(solid_png(4, 4, [10, 20, 30, 255])).unwrap();
    assert_eq!(
        p.resize(2, 2, true, "bicubic"),
        Err(TransformError::UnsupportedParameter)
    );
    assert_eq!(p.resize(2, 2, true, "Lanczos3"), Ok(()));
}

#[test]
fn zero_resize_dimension_is_rejected() {
    let mut p = ImageProcessor::new();
    p.import(solid_png(4, 4, [10, 20, 30, 255])).unwrap();
    assert_eq!(
        p.resize(0, 5, false, "nearest"),
        Err(TransformError::UnsupportedParameter)
    );
    assert_eq!(
        p.resize(5, 0, true, "nearest"),
        Err(TransformError::UnsupportedParameter)
    );
}

#[test]
fn optimize_level_out_of_range_is_rejected() {
    let mut p = ImageProcessor::new();
    p.import(solid_png(4, 4, [10, 20, 30, 255])).unwrap();
    assert_eq!(
        p.optimize("png", 7, false, false),
        Err(TransformError::UnsupportedParameter)
    );
}

#[test]
fn import_of_unrecognized_bytes_fails() {
    let mut p = ImageProcessor::new();
    assert_eq!(
        p.import(vec![0u8, 1, 2, 3, 4, 5, 6, 7]),
        Err(TransformError::UnsupportedFormat)
    );
}

#[test]
fn import_of_truncated_png_fails_with_decode_error() {
    let mut full = solid_png(8, 8, [1, 2, 3, 255]);
    full.truncate(20);
    let mut p = ImageProcessor::new();
    assert_eq!(p.import(full), Err(TransformError::DecodeError));
}

#[test]
fn resize_ten_to_five_stays_solid_red() {
    let mut p = ImageProcessor::new();
    p.import(solid_png(10, 10, [255, 0, 0, 255])).unwrap();
    p.resize(5, 5, true, "lanczos3").unwrap();
    p.exec("png").unwrap();
    let out = p.export("png").unwrap();
    let (w, h, px) = decode_rgba(&out);
    assert_eq!((w, h), (5, 5));
    for chunk in px.chunks(4) {
        assert_eq!(chunk, &[255, 0, 0, 255]);
    }
}

#[test]
fn png_round_trip_preserves_dimensions_and_pixels() {
    let pixels: Vec<[u8; 4]> = (0..12u32)
        .map(|i| [(i * 20) as u8, (255 - i * 9) as u8, (i * 3) as u8, 255])
        .collect();
    let original = png_from_pixels(4, 3, &pixels);
    let (w0, h0, px0) = decode_rgba(&original);
    let mut p = ImageProcessor::new();
    p.import(original).unwrap();
    let out = p.export("png").unwrap();
    let (w1, h1, px1) = decode_rgba(&out);
    assert_eq!((w0, h0), (w1, h1));
    assert_eq!(px0, px1);
}

#[test]
fn crop_then_rotate_differs_from_rotate_then_crop() {
    let pixels: Vec<[u8; 4]> = (0..36u32)
        .map(|i| [i as u8, (i * 5) as u8, (i * 7) as u8, 255])
        .collect();
    let src = png_from_pixels(6, 6, &pixels);

    let mut a = ImageProcessor::new();
    a.import(src.clone()).unwrap();
    a.crop(0, 0, 3, 2).unwrap();
    a.rotate(90).unwrap();
    let out_a = a.export("png").unwrap();
    let (wa, ha, _) = decode_rgba(&out_a);

    let mut b = ImageProcessor::new();
    b.import(src).unwrap();
    b.rotate(90).unwrap();
    b.crop(0, 0, 3, 2).unwrap();
    let out_b = b.export("png").unwrap();
    let (wb, hb, _) = decode_rgba(&out_b);

    assert_eq!((wa, ha), (2, 3));
    assert_eq!((wb, hb), (3, 2));
    assert_ne!((wa, ha), (wb, hb));
}

#[test]
fn rotate_90_moves_pixels_clockwise() {
    let a = [255, 0, 0, 255];
    let b = [0, 0, 255, 255];
    let src = png_from_pixels(2, 1, &[a, b]);
    let mut p = ImageProcessor::new();
    p.import(src).unwrap();
    p.rotate(90).unwrap();
    let out = p.export("png").unwrap();
    let (w, h, px) = decode_rgba(&out);
    assert_eq!((w, h), (1, 2));
    assert_eq!(&px[0..4], &a);
    assert_eq!(&px[4..8], &b);
}

#[test]
fn flip_horizontal_mirrors_pixels() {
    let a = [255, 0, 0, 255];
    let b = [0, 0, 255, 255];
    let src = png_from_pixels(2, 1, &[a, b]);
    let mut p = ImageProcessor::new();
    p.import(src).unwrap();
    p.flip(true, false).unwrap();
    let out = p.export("png").unwrap();
    let (w, h, px) = decode_rgba(&out);
    assert_eq!((w, h), (2, 1));
    assert_eq!(&px[0..4], &b);
    assert_eq!(&px[4..8], &a);
}

#[test]
fn invert_complements_colors_and_keeps_alpha() {
    let src = png_from_pixels(2, 1, &[[10, 20, 30, 200], [0, 128, 255, 40]]);
    let mut p = ImageProcessor::new();
    p.import(src).unwrap();
    p.invert().unwrap();
    let out = p.export("png").unwrap();
    let (_, _, px) = decode_rgba(&out);
    assert_eq!(&px[0..4], &[245, 235, 225, 200]);
    assert_eq!(&px[4..8], &[255, 127, 0, 40]);
}

#[test]
fn brighten_shifts_and_clamps_colors() {
    let src = png_from_pixels(1, 1, &[[250, 10, 0, 77]]);
    let mut p = ImageProcessor::new();
    p.import(src).unwrap();
    p.brighten(10).unwrap();
    let out = p.export("png").unwrap();
    let (_, _, px) = decode_rgba(&out);
    assert_eq!(&px[0..4], &[255, 20, 10, 77]);
}

#[test]
fn grayscale_blur_contrast_unsharpen_preserve_dimensions() {
    let mut p = ImageProcessor::new();
    p.import(solid_png(9, 7, [90, 120, 33, 255])).unwrap();
    p.grayscale().unwrap();
    p.blur(1.5f32.to_bits()).unwrap();
    p.contrast(0.5f32.to_bits()).unwrap();
    p.unsharpen(1.0f32.to_bits(), 2).unwrap();
    let out = p.export("png").unwrap();
    let (w, h, _) = decode_rgba(&out);
    assert_eq!((w, h), (9, 7));
}

#[test]
fn out_of_bounds_crop_fails_at_execution_time() {
    let mut p = ImageProcessor::new();
    p.import(solid_png(4, 4, [9, 9, 9, 255])).unwrap();
    assert_eq!(p.crop(2, 2, 5, 5), Ok(()));
    assert_eq!(p.exec("png"), Err(TransformError::UnsupportedParameter));
}

#[test]
fn exec_with_empty_queue_is_a_no_op() {
    let mut p = ImageProcessor::new();
    p.import(solid_png(3, 3, [1, 2, 3, 255])).unwrap();
    p.exec("png").unwrap();
    p.exec("png").unwrap();
    let out = p.export("png").unwrap();
    let (w, h, _) = decode_rgba(&out);
    assert_eq!((w, h), (3, 3));
}

#[test]
fn export_releases_the_payload() {
    let mut p = ImageProcessor::new();
    p.import(solid_png(3, 3, [1, 2, 3, 255])).unwrap();
    p.export("png").unwrap();
    assert_eq!(p.export("png"), Err(TransformError::NoPayload));
}

#[test]
fn a_fresh_import_reloads_a_released_pipeline() {
    let mut p = ImageProcessor::new();
    p.import(solid_png(3, 3, [1, 2, 3, 255])).unwrap();
    p.export("png").unwrap();
    p.import(solid_png(2, 2, [4, 5, 6, 255])).unwrap();
    let out = p.export("png").unwrap();
    let (w, h, _) = decode_rgba(&out);
    assert_eq!((w, h), (2, 2));
}

#[test]
fn jpeg_export_drops_alpha_but_keeps_dimensions() {
    let mut p = ImageProcessor::new();
    p.import(solid_png(6, 5, [200, 100, 50, 255])).unwrap();
    let out = p.export("jpeg").unwrap();
    let img = image::load_from_memory(&out).unwrap();
    assert_eq!((img.width(), img.height()), (6, 5));
}

#[test]
fn operations_after_a_second_import_apply_to_the_new_payload() {
    let mut p = ImageProcessor::new();
    p.import(solid_png(8, 8, [1, 1, 1, 255])).unwrap();
    p.import(solid_png(4, 4, [2, 2, 2, 255])).unwrap();
    p.rotate(90).unwrap();
    let out = p.export("png").unwrap();
    let (w, h, px) = decode_rgba(&out);
    assert_eq!((w, h), (4, 4));
    assert_eq!(&px[0..4], &[2, 2, 2, 255]);
}

#[test]
fn oversized_webp_export_fails_with_encode_error() {
    let mut p = ImageProcessor::new();
    p.import(solid_png(4, 4, [5, 5, 5, 255])).unwrap();
    p.resize(16385, 1, false, "nearest").unwrap();
    assert_eq!(p.export("webp"), Err(TransformError::EncodeError));
}

#[test]
fn degenerate_blur_sigma_patterns_are_rejected() {
    let mut p = ImageProcessor::new();
    p.import(solid_png(4, 4, [9, 9, 9, 255])).unwrap();
    assert_eq!(p.blur(0.0f32.to_bits()), Err(TransformError::UnsupportedParameter));
    assert_eq!(
        p.blur((-2.0f32).to_bits()),
        Err(TransformError::UnsupportedParameter)
    );
    assert_eq!(
        p.blur(f32::NAN.to_bits()),
        Err(TransformError::UnsupportedParameter)
    );
    assert_eq!(
        p.blur(f32::INFINITY.to_bits()),
        Err(TransformError::UnsupportedParameter)
    );
    assert_eq!(p.blur(1), Err(TransformError::UnsupportedParameter));
    assert_eq!(p.blur(2.0f32.to_bits()), Ok(()));
}

#[test]
fn degenerate_unsharpen_sigma_patterns_are_rejected() {
    let mut p = ImageProcessor::new();
    p.import(solid_png(4, 4, [9, 9, 9, 255])).unwrap();
    assert_eq!(
        p.unsharpen(0.0f32.to_bits(), 2),
        Err(TransformError::UnsupportedParameter)
    );
    assert_eq!(
        p.unsharpen(f32::NAN.to_bits(), 2),
        Err(TransformError::UnsupportedParameter)
    );
    assert_eq!(p.unsharpen(1.5f32.to_bits(), 2), Ok(()));
}

#[test]
fn nan_contrast_amount_is_rejected() {
    let mut p = ImageProcessor::new();
    p.import(solid_png(4, 4, [9, 9, 9, 255])).unwrap();
    assert_eq!(
        p.contrast(f32::NAN.to_bits()),
        Err(TransformError::UnsupportedParameter)
    );
    assert_eq!(p.contrast((-20.0f32).to_bits()), Ok(()));
}

#[test]
fn extreme_brighten_delta_is_rejected() {
    let mut p = ImageProcessor::new();
    p.import(solid_png(4, 4, [9, 9, 9, 255])).unwrap();
    assert_eq!(
        p.brighten(i32::MAX),
        Err(TransformError::UnsupportedParameter)
    );
    assert_eq!(
        p.brighten(i32::MIN),
        Err(TransformError::UnsupportedParameter)
    );
    assert_eq!(p.brighten(i32::MAX - 255), Ok(()));
    assert_eq!(p.exec("png"), Ok(()));
}

#[test]
fn bmp_round_trip_preserves_pixels() {
    let pixels: Vec<[u8; 4]> = (0..8u32)
        .map(|i| [(i * 31) as u8, (200 - i * 13) as u8, (i * 7) as u8, (255 - i * 10) as u8])
        .collect();
    let src = png_from_pixels(4, 2, &pixels);
    let (_, _, px0) = decode_rgba(&src);
    let mut p = ImageProcessor::new();
    p.import(src).unwrap();
    let out = p.export("bmp").unwrap();
    let (w, h, px1) = decode_rgba(&out);
    assert_eq!((w, h), (4, 2));
    assert_eq!(px0, px1);
}

#[test]
fn webp_round_trip_preserves_pixels() {
    let pixels: Vec<[u8; 4]> = (0..8u32)
        .map(|i| [(i * 31) as u8, (200 - i * 13) as u8, (i * 7) as u8, (255 - i * 10) as u8])
        .collect();
    let src = png_from_pixels(4, 2, &pixels);
    let (_, _, px0) = decode_rgba(&src);
    let mut p = ImageProcessor::new();
    p.import(src).unwrap();
    let out = p.export("webp").unwrap();
    let (w, h, px1) = decode_rgba(&out);
    assert_eq!((w, h), (4, 2));
    assert_eq!(px0, px1);
}

#[test]
fn jpeg_export_decodes_fully_opaque() {
    let src = png_from_pixels(2, 1, &[[10, 20, 30, 100], [50, 60, 70, 0]]);
    let mut p = ImageProcessor::new();
    p.import(src).unwrap();
    let out = p.export("jpeg").unwrap();
    let (_, _, px) = decode_rgba(&out);
    for chunk in px.chunks(4) {
        assert_eq!(chunk[3], 255);
    }
}

#[test]
fn grayscale_equalizes_channels_and_is_idempotent() {
    let src = png_from_pixels(2, 1, &[[200, 10, 90, 255], [0, 255, 30, 128]]);
    let mut a = ImageProcessor::new();
    a.import(src.clone()).unwrap();
    a.grayscale().unwrap();
    let once = a.export("png").unwrap();
    let (_, _, p1) = decode_rgba(&once);
    for chunk in p1.chunks(4) {
        assert_eq!(chunk[0], chunk[1]);
        assert_eq!(chunk[0], chunk[2]);
    }

    let mut b = ImageProcessor::new();
    b.import(src).unwrap();
    b.grayscale().unwrap();
    b.grayscale().unwrap();
    let twice = b.export("png").unwrap();
    let (_, _, p2) = decode_rgba(&twice);
    assert_eq!(p1, p2);
}
