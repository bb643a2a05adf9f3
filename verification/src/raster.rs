//! Exact descriptions of the geometric and pointwise transformations, stated
//! over row-major 8-bit RGBA rasters: pixel (x, y) of a raster of width w
//! occupies the four bytes starting at (y * w + x) * 4, in R, G, B, A order.

use vstd::prelude::*;

verus! {

/// Index of channel c of pixel (x, y) in a raster of width w.
pub open spec fn px(w: u32, x: int, y: int, c: int) -> int {
    (y * w + x) * 4 + c
}

/// The raster of the w-by-h region of p whose top-left corner is (x, y).
pub open spec fn crop_raster(w: u32, p: Seq<u8>, x: u32, y: u32, cw: u32, ch: u32) -> Seq<u8> {
    Seq::new(
        (cw as nat) * (ch as nat) * 4,
        |i: int|
            {
                let c = i % 4;
                let ox = (i / 4) % (cw as int);
                let oy = (i / 4) / (cw as int);
                p[px(w, x + ox, y + oy, c)]
            },
    )
}

/// The raster mirrored left-to-right.
pub open spec fn fliph_raster(w: u32, p: Seq<u8>) -> Seq<u8> {
    Seq::new(
        p.len(),
        |i: int|
            {
                let c = i % 4;
                let x = (i / 4) % (w as int);
                let y = (i / 4) / (w as int);
                p[px(w, w - 1 - x, y, c)]
            },
    )
}

/// The raster mirrored top-to-bottom.
pub open spec fn flipv_raster(w: u32, h: u32, p: Seq<u8>) -> Seq<u8> {
    Seq::new(
        p.len(),
        |i: int|
            {
                let c = i % 4;
                let x = (i / 4) % (w as int);
                let y = (i / 4) / (w as int);
                p[px(w, x, h - 1 - y, c)]
            },
    )
}

/// The raster rotated 90 degrees clockwise; the result has width h and height w.
pub open spec fn rot90_raster(w: u32, h: u32, p: Seq<u8>) -> Seq<u8> {
    Seq::new(
        (w as nat) * (h as nat) * 4,
        |i: int|
            {
                let c = i % 4;
                let x = (i / 4) % (h as int);
                let y = (i / 4) / (h as int);
                p[px(w, y, h - 1 - x, c)]
            },
    )
}

/// The raster rotated 180 degrees.
pub open spec fn rot180_raster(w: u32, h: u32, p: Seq<u8>) -> Seq<u8> {
    Seq::new(
        p.len(),
        |i: int|
            {
                let c = i % 4;
                let x = (i / 4) % (w as int);
                let y = (i / 4) / (w as int);
                p[px(w, w - 1 - x, h - 1 - y, c)]
            },
    )
}

/// The raster rotated 270 degrees clockwise; the result has width h and height w.
pub open spec fn rot270_raster(w: u32, h: u32, p: Seq<u8>) -> Seq<u8> {
    Seq::new(
        (w as nat) * (h as nat) * 4,
        |i: int|
            {
                let c = i % 4;
                let x = (i / 4) % (h as int);
                let y = (i / 4) / (h as int);
                p[px(w, w - 1 - y, x, c)]
            },
    )
}

/// Every color channel replaced by its complement; alpha is preserved.
pub open spec fn invert_raster(p: Seq<u8>) -> Seq<u8> {
    Seq::new(
        p.len(),
        |i: int|
            if i % 4 == 3 {
                p[i]
            } else {
                (255 - p[i]) as u8
            },
    )
}

/// An integer clamped into the byte range.
pub open spec fn clamp_byte(v: int) -> u8 {
    if v < 0 {
        0u8
    } else if v > 255 {
        255u8
    } else {
        v as u8
    }
}

/// Every color channel shifted by delta and clamped; alpha is preserved.
pub open spec fn brighten_raster(p: Seq<u8>, delta: i32) -> Seq<u8> {
    Seq::new(
        p.len(),
        |i: int|
            if i % 4 == 3 {
                p[i]
            } else {
                clamp_byte(p[i] + delta)
            },
    )
}

/// Whether a raster is fully opaque: every alpha byte is 255.
pub open spec fn opaque_raster(p: Seq<u8>) -> bool {
    forall|i: int| 0 <= i < p.len() && i % 4 == 3 ==> #[trigger] p[i] == 255
}

/// Whether every pixel of a raster has equal red, green and blue channels.
pub open spec fn equal_color_channels(p: Seq<u8>) -> bool {
    forall|i: int| 0 <= i < p.len() && (i % 4 == 1 || i % 4 == 2) ==> #[trigger] p[i] == p[i - 1]
}

} // verus!
