//! The closed set of transformation requests a pipeline can queue, and the
//! mathematical model of draining a queue: a left fold that applies each
//! operation to the bitmap in first-in-first-out order.

use vstd::prelude::*;

use crate::codec::blur_of;
use crate::codec::contrast_of;
use crate::codec::gray_of;
use crate::codec::resize_aspect_of;
use crate::codec::resize_exact_of;
use crate::codec::unsharpen_of;
use crate::format::FilterKind;
use crate::raster::brighten_raster;
use crate::raster::crop_raster;
use crate::raster::fliph_raster;
use crate::raster::flipv_raster;
use crate::raster::invert_raster;
use crate::raster::rot180_raster;
use crate::raster::rot270_raster;
use crate::raster::rot90_raster;

verus! {

/// A rotation by a quarter-turn multiple; other angles are rejected at
/// enqueue time.
#[derive(Clone, Copy, Debug, PartialEq, Eq, Structural)]
pub enum ImageRotation {
    Degrees90,
    Degrees180,
    Degrees270,
}

/// One transformation request, captured with its parameters at enqueue time.
/// The floating-point parameters of blur, contrast and unsharpen are carried
/// as the bit patterns of IEEE 754 single-precision values.
#[derive(Clone, Copy, Debug, PartialEq, Eq, Structural)]
pub enum Operation {
    Resize { width: u32, height: u32, keep_aspect: bool, filter: FilterKind },
    Crop { x: u32, y: u32, width: u32, height: u32 },
    Rotate { rotation: ImageRotation },
    Flip { horizontal: bool, vertical: bool },
    Grayscale,
    Blur { sigma_bits: u32 },
    Brighten { delta: i32 },
    Contrast { amount_bits: u32 },
    Unsharpen { sigma_bits: u32, threshold: i32 },
    Invert,
}

/// Whether bits is the IEEE 754 single-precision pattern of a positive,
/// normal, finite value: the sign bit is clear and the exponent field is
/// neither all zeros (zero or subnormal) nor all ones (infinite or NaN).
pub open spec fn positive_normal_bits(bits: u32) -> bool {
    bits < 0x80000000 && ((bits >> 23) & 0xff) != 0 && ((bits >> 23) & 0xff) != 255
}

/// Whether bits is an IEEE 754 single-precision NaN pattern: the exponent
/// field all ones with a nonzero mantissa.
pub open spec fn nan_bits(bits: u32) -> bool {
    ((bits >> 23) & 0xff) == 255 && (bits & 0x007fffff) != 0
}

/// Whether an operation's parameters are acceptable at enqueue time. A
/// resize target and a crop extent must be positive; whether a crop region
/// lies within the bitmap is only known, and only checked, at execution
/// time. The floating-point bit patterns must name values the codec
/// accepts: a Gaussian sigma must be positive, normal and finite, a
/// contrast amount must not be NaN, and a brightness shift must leave room
/// to add a channel value without overflowing a 32-bit sum.
pub open spec fn op_valid(op: Operation) -> bool {
    match op {
        Operation::Resize { width, height, keep_aspect: _, filter: _ } => width >= 1 && height
            >= 1,
        Operation::Crop { x: _, y: _, width, height } => width >= 1 && height >= 1,
        Operation::Blur { sigma_bits } => positive_normal_bits(sigma_bits),
        Operation::Brighten { delta } => -(i32::MAX - 255) <= delta && delta <= i32::MAX - 255,
        Operation::Contrast { amount_bits } => !nan_bits(amount_bits),
        Operation::Unsharpen { sigma_bits, threshold: _ } => positive_normal_bits(sigma_bits),
        _ => true,
    }
}

/// Runtime check mirroring positive_normal_bits.
fn check_positive_normal(bits: u32) -> (r: bool)
    ensures
        r == positive_normal_bits(bits),
{
    let e: u32 = (bits >> 23) & 0xff;
    bits < 0x80000000 && e != 0 && e != 255
}

/// Runtime check mirroring nan_bits.
fn check_nan(bits: u32) -> (r: bool)
    ensures
        r == nan_bits(bits),
{
    let e: u32 = (bits >> 23) & 0xff;
    e == 255 && (bits & 0x007fffff) != 0
}

/// Runtime check mirroring op_valid.
pub fn check_op_valid(op: &Operation) -> (r: bool)
    ensures
        r == op_valid(*op),
{
    match op {
        Operation::Resize { width, height, keep_aspect: _, filter: _ } => *width >= 1 && *height
            >= 1,
        Operation::Crop { x: _, y: _, width, height } => *width >= 1 && *height >= 1,
        Operation::Blur { sigma_bits } => check_positive_normal(*sigma_bits),
        Operation::Brighten { delta } => *delta >= -(i32::MAX - 255) && *delta <= i32::MAX - 255,
        Operation::Contrast { amount_bits } => !check_nan(*amount_bits),
        Operation::Unsharpen { sigma_bits, threshold: _ } => check_positive_normal(*sigma_bits),
        _ => true,
    }
}

/// What applying one operation to a bitmap of width w, height h and raster p
/// yields: the new width, height and raster, or nothing when the operation
/// fails (only a crop region that does not lie within the bitmap fails).
pub open spec fn apply_op_model(op: Operation, w: u32, h: u32, p: Seq<u8>) -> Option<
    (u32, u32, Seq<u8>),
> {
    match op {
        Operation::Resize { width, height, keep_aspect, filter } => {
            if keep_aspect {
                Some(resize_aspect_of(w, h, p, width, height, filter))
            } else {
                Some((width, height, resize_exact_of(w, h, p, width, height, filter)))
            }
        },
        Operation::Crop { x, y, width, height } => {
            if x + width <= w && y + height <= h {
                Some((width, height, crop_raster(w, p, x, y, width, height)))
            } else {
                None
            }
        },
        Operation::Rotate { rotation } => match rotation {
            ImageRotation::Degrees90 => Some((h, w, rot90_raster(w, h, p))),
            ImageRotation::Degrees180 => Some((w, h, rot180_raster(w, h, p))),
            ImageRotation::Degrees270 => Some((h, w, rot270_raster(w, h, p))),
        },
        Operation::Flip { horizontal, vertical } => {
            let p1 = if horizontal {
                fliph_raster(w, p)
            } else {
                p
            };
            let p2 = if vertical {
                flipv_raster(w, h, p1)
            } else {
                p1
            };
            Some((w, h, p2))
        },
        Operation::Grayscale => Some((w, h, gray_of(w, h, p))),
        Operation::Blur { sigma_bits } => Some((w, h, blur_of(w, h, p, sigma_bits))),
        Operation::Brighten { delta } => Some((w, h, brighten_raster(p, delta))),
        Operation::Contrast { amount_bits } => Some((w, h, contrast_of(w, h, p, amount_bits))),
        Operation::Unsharpen { sigma_bits, threshold } => Some(
            (w, h, unsharpen_of(w, h, p, sigma_bits, threshold)),
        ),
        Operation::Invert => Some((w, h, invert_raster(p))),
    }
}

/// What draining a queue against a bitmap yields: the operations applied one
/// after the other, first enqueued first, each consuming the previous result.
pub open spec fn run_ops(ops: Seq<Operation>, w: u32, h: u32, p: Seq<u8>) -> Option<
    (u32, u32, Seq<u8>),
>
    decreases ops.len(),
{
    if ops.len() == 0 {
        Some((w, h, p))
    } else {
        match apply_op_model(ops[0], w, h, p) {
            Some(t) => run_ops(ops.drop_first(), t.0, t.1, t.2),
            None => None,
        }
    }
}

/// Draining a queue applies its operations strictly in enqueue order:
/// running the concatenation of two queues is running the first queue, then
/// running the second on its result.
pub proof fn lemma_run_ops_append(ops1: Seq<Operation>, ops2: Seq<Operation>, w: u32, h: u32, p: Seq<
    u8,
>)
    ensures
        run_ops(ops1 + ops2, w, h, p) == (match run_ops(ops1, w, h, p) {
            Some(t) => run_ops(ops2, t.0, t.1, t.2),
            None => None,
        }),
    decreases ops1.len(),
{
    if ops1.len() == 0 {
        assert(ops1 + ops2 == ops2);
    } else {
        assert((ops1 + ops2)[0] == ops1[0]);
        match apply_op_model(ops1[0], w, h, p) {
            Some(t) => {
                assert((ops1 + ops2).drop_first() == ops1.drop_first() + ops2);
                lemma_run_ops_append(ops1.drop_first(), ops2, t.0, t.1, t.2);
            },
            None => {
                assert(run_ops(ops1 + ops2, w, h, p) is None);
            },
        }
    }
}

/// Execution order is semantically significant: for a region with unequal
/// sides, cropping and then rotating yields a different bitmap than rotating
/// and then cropping, whatever the pixel content.
pub proof fn lemma_order_sensitive(w: u32, h: u32, p: Seq<u8>, cw: u32, ch: u32)
    requires
        1 <= cw <= w,
        1 <= ch <= h,
        cw <= h,
        ch <= w,
        cw != ch,
    ensures
        ({
            let crop = Operation::Crop { x: 0, y: 0, width: cw, height: ch };
            let rot = Operation::Rotate { rotation: ImageRotation::Degrees90 };
            run_ops(seq![crop, rot], w, h, p) != run_ops(seq![rot, crop], w, h, p)
        }),
{
    reveal_with_fuel(run_ops, 4);
    let crop = Operation::Crop { x: 0, y: 0, width: cw, height: ch };
    let rot = Operation::Rotate { rotation: ImageRotation::Degrees90 };
    let s1 = seq![crop, rot];
    let s2 = seq![rot, crop];
    let p1 = crop_raster(w, p, 0, 0, cw, ch);
    assert(s1.drop_first() =~= seq![rot]);
    assert(s1.drop_first().drop_first() =~= Seq::<Operation>::empty());
    assert(run_ops(s1, w, h, p) == Some((ch, cw, rot90_raster(cw, ch, p1))));
    let q1 = rot90_raster(w, h, p);
    assert(s2.drop_first() =~= seq![crop]);
    assert(s2.drop_first().drop_first() =~= Seq::<Operation>::empty());
    assert(run_ops(s2, w, h, p) == Some((cw, ch, crop_raster(h, q1, 0, 0, cw, ch))));
}

} // verus!
