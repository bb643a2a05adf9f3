use transformers::error::TransformError;
use transformers::format::ContainerFormat;
use transformers::ops::Operation;
use transformers::optimizer::optimise_png;
use transformers::processor::ImageProcessor;
use transformers::transformers::ImageOptimizeOpts;
use transformers::transformers::TImageTransformer;
use transformers::transformers::Transformer;

fn gradient_png(w: u32, h: u32) -> Vec<u8> {
    let mut img = image::RgbaImage::new(w, h);
    for y in 0..h {
        for x in 0..w {
            let v = ((x * 255) / w.max(1)) as u8;
            img.put_pixel(x, y, image::Rgba([v, (v / 2) as u8, 255 - v, 255]));
        }
    }
    let mut cur = std::io::Cursor::new(Vec::new());
    image::DynamicImage::ImageRgba8(img)
        .write_to(&mut cur, image::ImageFormat::Png)
        .unwrap();
    cur.into_inner()
}

fn jpeg_of_gradient(w: u32, h: u32) -> Vec<u8> {
    let img = image::load_from_memory(&gradient_png(w, h)).unwrap().to_rgb8();
    let mut cur = std::io::Cursor::new(Vec::new());
    image::DynamicImage::ImageRgb8(img)
        .write_to(&mut cur, image::ImageFormat::Jpeg)
        .unwrap();
    cur.into_inner()
}

fn decode_rgba(bytes: &[u8]) -> (u32, u32, Vec<u8>) {
    let img = image::load_from_memory(bytes).unwrap();
    let buf = img.to_rgba8();
    (buf.width(), buf.height(), buf.into_raw())
}

#[test]
fn optimiser_never_grows_and_is_lossless() {
    let png = gradient_png(64, 64);
    let out = optimise_png(&png, 4, false, false).unwrap();
    assert!(out.len() <= png.len());
    let (w0, h0, p0) = decode_rgba(&png);
    let (w1, h1, p1) = decode_rgba(&out);
    assert_eq!((w0, h0), (w1, h1));
    assert_eq!(p0, p1);
}

#[test]
fn optimising_twice_never_grows_and_stays_lossless() {
    let png = gradient_png(64, 64);
    let once = optimise_png(&png, 4, false, false).unwrap();
    let twice = optimise_png(&once, 4, false, false).unwrap();
    assert!(twice.len() <= once.len());
    let (w0, h0, p0) = decode_rgba(&png);
    let (w2, h2, p2) = decode_rgba(&twice);
    assert_eq!((w0, h0), (w2, h2));
    assert_eq!(p0, p2);
}

#[test]
fn optimiser_rejects_bytes_that_are_not_png() {
    let jpeg = jpeg_of_gradient(16, 16);
    assert_eq!(
        optimise_png(&jpeg, 2, false, false),
        Err(TransformError::OptimizationFailure)
    );
}

#[test]
fn optimize_from_jpeg_to_png_beats_naive_reencode() {
    let jpeg = jpeg_of_gradient(64, 64);

    let mut naive = ImageProcessor::new();
    naive.import(jpeg.clone()).unwrap();
    let plain = naive.export("png").unwrap();

    let mut p = ImageProcessor::new();
    p.import(jpeg).unwrap();
    let optimized = p.optimize("png", 6, true, true).unwrap();

    assert!(optimized.len() < plain.len());
    let (w, h, _) = decode_rgba(&optimized);
    assert_eq!((w, h), (64, 64));
}

#[test]
fn optimize_to_png_is_pixel_identical_without_alpha_changes() {
    let png = gradient_png(32, 32);
    let (w0, h0, p0) = decode_rgba(&png);
    let mut p = ImageProcessor::new();
    p.import(png).unwrap();
    let out = p.optimize("png", 3, false, false).unwrap();
    let (w1, h1, p1) = decode_rgba(&out);
    assert_eq!((w0, h0), (w1, h1));
    assert_eq!(p0, p1);
}

#[test]
fn optimize_to_jpeg_degrades_to_plain_export() {
    let png = gradient_png(24, 24);

    let mut a = ImageProcessor::new();
    a.import(png.clone()).unwrap();
    let via_optimize = a.optimize("jpeg", 6, true, true).unwrap();

    let mut b = ImageProcessor::new();
    b.import(png).unwrap();
    let via_export = b.export("jpeg").unwrap();

    assert_eq!(via_optimize, via_export);
}

#[test]
fn optimize_releases_the_payload() {
    let mut p = ImageProcessor::new();
    p.import(gradient_png(8, 8)).unwrap();
    p.optimize("png", 2, false, false).unwrap();
    assert_eq!(
        p.optimize("png", 2, false, false),
        Err(TransformError::NoPayload)
    );
}

#[test]
fn transformer_chain_before_import_fails() {
    let mut t = Transformer::new(TImageTransformer);
    assert_eq!(
        t.chain(Operation::Grayscale),
        Err(TransformError::NoPayload)
    );
}

#[test]
fn transformer_drives_the_pipeline_directly() {
    let mut t = Transformer::new(TImageTransformer);
    t.import(gradient_png(10, 10)).unwrap();
    t.chain(Operation::Rotate {
        rotation: transformers::ops::ImageRotation::Degrees270,
    })
    .unwrap();
    t.exec().unwrap();
    let opts = ImageOptimizeOpts::new(2, false, false);
    let out = t.optimize(ContainerFormat::Png, opts).unwrap();
    let (w, h, _) = decode_rgba(&out);
    assert_eq!((w, h), (10, 10));
}

#[test]
fn transformer_export_encodes_the_requested_format() {
    let mut t = Transformer::new(TImageTransformer);
    t.import(gradient_png(5, 4)).unwrap();
    let out = t.export(ContainerFormat::Bmp).unwrap();
    let img = image::load_from_memory(&out).unwrap();
    assert_eq!((img.width(), img.height()), (5, 4));
}

#[test]
fn error_names_are_stable() {
    assert_eq!(TransformError::NoPayload.name(), "no payload");
    assert_eq!(TransformError::UnsupportedFormat.name(), "unsupported format");
}

#[test]
fn optimize_alpha_on_an_opaque_image_stays_pixel_identical() {
    let png = gradient_png(32, 32);
    let (w0, h0, p0) = decode_rgba(&png);
    let mut p = ImageProcessor::new();
    p.import(png).unwrap();
    let out = p.optimize("png", 4, false, true).unwrap();
    let (w1, h1, p1) = decode_rgba(&out);
    assert_eq!((w0, h0), (w1, h1));
    assert_eq!(p0, p1);
}
