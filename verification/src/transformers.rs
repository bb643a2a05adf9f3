//! The pipeline engine: a transformer owns a single image payload and an
//! ordered queue of operations. Configuration calls enqueue operations
//! without running them; exec drains the queue in first-in-first-out order
//! against the payload; export and optimize are the terminal calls that
//! drain, encode and release the payload as output bytes.

use std::collections::VecDeque;

use vstd::prelude::*;

use crate::codec::Bitmap;
use crate::codec::decode_image;
use crate::codec::decode_of;
use crate::codec::encode_bitmap;
use crate::codec::encode_model;
use crate::codec::lossless_format;
use crate::codec::rejected_as_unsupported;
use crate::raster::opaque_raster;
use crate::codec::filter_of_kind;
use crate::codec::apply_unsharpen;
use crate::codec::pixels_of;
use crate::codec::apply_blur;
use crate::codec::apply_brighten;
use crate::codec::apply_contrast;
use crate::codec::apply_crop;
use crate::codec::apply_flip_horizontal;
use crate::codec::apply_flip_vertical;
use crate::codec::apply_grayscale;
use crate::codec::apply_invert;
use crate::codec::apply_resize_aspect;
use crate::codec::apply_resize_exact;
use crate::codec::apply_rotate180;
use crate::codec::apply_rotate270;
use crate::codec::apply_rotate90;
use crate::error::TransformError;
use crate::format::ContainerFormat;
use crate::format::FilterKind;
use crate::ops::ImageRotation;
use crate::ops::Operation;
use crate::ops::apply_op_model;
use crate::ops::check_op_valid;
use crate::ops::op_valid;
use crate::ops::run_ops;
use crate::optimizer::optimise_png;
use crate::optimizer::optimized_of;

verus! {

/// The kind marker for the image pipeline; reserved for future payload
/// kinds.
#[derive(Default, Debug, Copy, Clone)]
pub struct TImageTransformer;

/// The single piece of state owned by a pipeline instance: nothing yet, a
/// still-encoded byte stream, or a decoded bitmap.
pub enum Payload {
    Empty,
    Encoded { bytes: Vec<u8>, format: ContainerFormat },
    Decoded { bitmap: Bitmap },
}

/// The mathematical view of a payload: the decoded case carries the
/// bitmap's dimensions and canonical raster.
pub enum PayloadModel {
    Empty,
    Encoded { bytes: Seq<u8>, format: ContainerFormat },
    Decoded { width: u32, height: u32, pixels: Seq<u8> },
}

impl Payload {
    /// The view of this payload.
    pub open spec fn model(self) -> PayloadModel {
        match self {
            Payload::Empty => PayloadModel::Empty,
            Payload::Encoded { bytes, format } => PayloadModel::Encoded {
                bytes: bytes@,
                format,
            },
            Payload::Decoded { bitmap } => PayloadModel::Decoded {
                width: bitmap.width,
                height: bitmap.height,
                pixels: pixels_of(bitmap.image),
            },
        }
    }

    /// A decoded payload holds a well-formed bitmap.
    pub open spec fn wf(self) -> bool {
        match self {
            Payload::Decoded { bitmap } => bitmap.wf(),
            _ => true,
        }
    }
}

/// The bitmap state a payload stands for once coerced to its decoded form:
/// a still-encoded payload is decoded first, and a decoded stream must have
/// positive dimensions.
pub open spec fn decoded_state(m: PayloadModel) -> Option<(u32, u32, Seq<u8>)> {
    match m {
        PayloadModel::Empty => None,
        PayloadModel::Encoded { bytes, format } => match decode_of(bytes) {
            Some(t) => if t.0 >= 1 && t.1 >= 1 {
                Some(t)
            } else {
                None
            },
            None => None,
        },
        PayloadModel::Decoded { width, height, pixels } => Some((width, height, pixels)),
    }
}

/// The pipeline: a kind marker, the owned payload, and the ordered queue of
/// operations awaiting execution.
pub struct Transformer {
    pub kind: TImageTransformer,
    data: Payload,
    actions: VecDeque<Operation>,
}

/// What a successful drain of the whole queue yields for a payload and a
/// queue, or nothing when the payload is missing, does not decode, or an
/// operation fails.
pub open spec fn pipeline_result(m: PayloadModel, ops: Seq<Operation>) -> Option<
    (u32, u32, Seq<u8>),
> {
    match decoded_state(m) {
        Some(s) => run_ops(ops, s.0, s.1, s.2),
        None => None,
    }
}

/// What a successful export yields for a payload, a queue and a format.
pub open spec fn export_value(m: PayloadModel, ops: Seq<Operation>, format: ContainerFormat) -> Option<
    Seq<u8>,
> {
    match pipeline_result(m, ops) {
        Some(s) => encode_model(format, s.0, s.1, s.2),
        None => None,
    }
}

/// What a successful PNG optimization yields for a payload and a queue.
pub open spec fn optimize_value(
    m: PayloadModel,
    ops: Seq<Operation>,
    level: u8,
    interlace: bool,
    optimize_alpha: bool,
) -> Option<Seq<u8>> {
    match export_value(m, ops, ContainerFormat::Png) {
        Some(b) => optimized_of(b, level, interlace, optimize_alpha),
        None => None,
    }
}

/// The tuning of one optimizing export: the preset level trades compression
/// effort for speed, interlace selects progressive encoding, and
/// optimize_alpha allows fully transparent pixels to be altered for better
/// compression. An immutable value passed per call, never stored.
#[derive(Clone, Copy, Debug, PartialEq, Eq, Structural)]
pub struct ImageOptimizeOpts {
    pub level: u8,
    pub interlace: bool,
    pub optimize_alpha: bool,
}

impl ImageOptimizeOpts {
    /// Bundles the three tuning parameters.
    pub fn new(level: u8, interlace: bool, optimize_alpha: bool) -> (r: ImageOptimizeOpts)
        ensures
            r == (ImageOptimizeOpts { level, interlace, optimize_alpha }),
    {
        ImageOptimizeOpts { level, interlace, optimize_alpha }
    }
}

/// How every enqueue call behaves: it fails with NoPayload before an import,
/// fails with UnsupportedParameter on an invalid operation, and otherwise
/// appends the operation to the end of the queue, leaving the payload alone.
pub open spec fn enqueue_contract(
    pre: Transformer,
    post: Transformer,
    op: Operation,
    r: Result<(), TransformError>,
) -> bool {
    &&& (r is Ok <==> !(pre.payload() is Empty) && op_valid(op))
    &&& post.payload() == pre.payload()
    &&& (r is Ok ==> post.ops() == pre.ops().push(op))
    &&& (r is Err ==> post.ops() == pre.ops())
    &&& (pre.payload() is Empty ==> (r matches Err(e) && e == TransformError::NoPayload))
    &&& (!(pre.payload() is Empty) && !op_valid(op) ==> (r matches Err(e) && e
        == TransformError::UnsupportedParameter))
}

impl Transformer {
    /// The view of the owned payload.
    pub closed spec fn payload(self) -> PayloadModel {
        self.data.model()
    }

    /// The queued operations, first enqueued first.
    pub closed spec fn ops(self) -> Seq<Operation> {
        self.actions@
    }

    /// The payload is well formed and every queued operation passed its
    /// enqueue-time validation.
    pub closed spec fn wf(self) -> bool {
        &&& self.data.wf()
        &&& forall|i: int| 0 <= i < self.actions@.len() ==> op_valid(#[trigger] self.actions@[i])
    }

    /// A fresh pipeline: no payload, empty queue.
    pub fn new(kind: TImageTransformer) -> (r: Transformer)
        ensures
            r.wf(),
            r.payload() is Empty,
            r.ops() == Seq::<Operation>::empty(),
    {
        Transformer { kind, data: Payload::Empty, actions: VecDeque::new() }
    }

    /// Whether a payload is currently loaded.
    pub fn is_loaded(&self) -> (r: bool)
        ensures
            r == !(self.payload() is Empty),
    {
        match &self.data {
            Payload::Empty => false,
            _ => true,
        }
    }

    /// Appends one validated operation to the end of the queue.
    pub fn chain(&mut self, action: Operation) -> (r: Result<(), TransformError>)
        requires
            old(self).wf(),
        ensures
            final(self).wf(),
            enqueue_contract(*old(self), *final(self), action, r),
    {
        match &self.data {
            Payload::Empty => {
                return Err(TransformError::NoPayload);
            },
            _ => {},
        }
        if !check_op_valid(&action) {
            return Err(TransformError::UnsupportedParameter);
        }
        self.actions.push_back(action);
        Ok(())
    }

    /// Decodes a byte stream and takes it as the owned payload; the queue is
    /// left as it is. A stream the codec rejects for its container format
    /// fails with UnsupportedFormat; a malformed or degenerate stream of a
    /// recognized container fails with DecodeError.
    pub fn import(&mut self, raw: Vec<u8>) -> (r: Result<(), TransformError>)
        requires
            old(self).wf(),
        ensures
            final(self).wf(),
            final(self).ops() == old(self).ops(),
            r is Ok <==> (decode_of(raw@) matches Some(t) && t.0 >= 1 && t.1 >= 1),
            r is Ok ==> (decode_of(raw@) matches Some(t) && final(self).payload() == (
            PayloadModel::Decoded { width: t.0, height: t.1, pixels: t.2 })),
            r is Err ==> final(self).payload() == old(self).payload(),
            decode_of(raw@) is None ==> (r matches Err(e) && e == (if rejected_as_unsupported(
                raw@,
            ) {
                TransformError::UnsupportedFormat
            } else {
                TransformError::DecodeError
            })),
            (decode_of(raw@) matches Some(t) && (t.0 == 0 || t.1 == 0)) ==> (r matches Err(e) && e
                == TransformError::DecodeError),
    {
        match decode_image(raw.as_slice()) {
            Ok(b) => {
                if b.width == 0 || b.height == 0 {
                    return Err(TransformError::DecodeError);
                }
                self.data = Payload::Decoded { bitmap: b };
                Ok(())
            },
            Err(e) => Err(e),
        }
    }

    /// Drains the queue: coerces the payload to its decoded form, applies
    /// every queued operation strictly in enqueue order, clears the queue
    /// and leaves the payload decoded. With an empty queue this is a no-op
    /// on the decoded payload. Failure of any step aborts the whole drain.
    #[verifier::loop_isolation(false)]
    pub fn exec(&mut self) -> (r: Result<(), TransformError>)
        requires
            old(self).wf(),
        ensures
            final(self).wf(),
            r is Ok <==> pipeline_result(old(self).payload(), old(self).ops()) is Some,
            r is Ok ==> (pipeline_result(old(self).payload(), old(self).ops()) matches Some(t) && final(self).ops()
                == Seq::<Operation>::empty() && final(self).payload() == (PayloadModel::Decoded {
                width: t.0,
                height: t.1,
                pixels: t.2,
            })),
            old(self).payload() is Empty ==> (r matches Err(e) && e == TransformError::NoPayload)
                && final(self).payload() == old(self).payload()
                && final(self).ops() == old(self).ops(),
            old(self).payload() matches PayloadModel::Encoded { bytes, format } ==> (decode_of(
                bytes,
            ) is None ==> (r matches Err(e) && e == (if rejected_as_unsupported(bytes) {
                TransformError::UnsupportedFormat
            } else {
                TransformError::DecodeError
            }))),
            (old(self).payload() matches PayloadModel::Encoded { bytes, format } && decode_of(
                bytes,
            ) matches Some(t) && (t.0 == 0 || t.1 == 0)) ==> (r matches Err(e) && e
                == TransformError::DecodeError),
            (decoded_state(old(self).payload()) matches Some(t) && run_ops(
                old(self).ops(),
                t.0,
                t.1,
                t.2,
            ) is None) ==> (r matches Err(e) && e == TransformError::UnsupportedParameter),
    {
        let mut taken = Payload::Empty;
        core::mem::swap(&mut self.data, &mut taken);
        let mut bm: Bitmap;
        match taken {
            Payload::Empty => {
                return Err(TransformError::NoPayload);
            },
            Payload::Encoded { bytes, format: _ } => {
                match decode_image(bytes.as_slice()) {
                    Ok(b) => {
                        if b.width == 0 || b.height == 0 {
                            return Err(TransformError::DecodeError);
                        }
                        bm = b;
                    },
                    Err(e) => {
                        return Err(e);
                    },
                }
            },
            Payload::Decoded { bitmap } => {
                bm = bitmap;
            },
        }
        let ghost target = pipeline_result(old(self).payload(), old(self).ops());
        while self.actions.len() != 0
            invariant
                bm.wf(),
                self.data.model() is Empty,
                forall|i: int|
                    0 <= i < self.actions@.len() ==> op_valid(#[trigger] self.actions@[i]),
                run_ops(self.actions@, bm.width, bm.height, pixels_of(bm.image)) == target,
            decreases self.actions@.len(),
        {
            let ghost prev_ops = self.actions@;
            match self.actions.pop_front() {
                Some(op) => {
                    proof {
                        assert(op == prev_ops[0]);
                        assert(self.actions@ =~= prev_ops.drop_first());
                        assert(op_valid(op));
                    }
                    match apply_operation(bm, op) {
                        Ok(b2) => {
                            proof {
                                assert(run_ops(prev_ops, bm.width, bm.height, pixels_of(bm.image))
                                    == run_ops(
                                    prev_ops.drop_first(),
                                    b2.width,
                                    b2.height,
                                    pixels_of(b2.image),
                                ));
                            }
                            bm = b2;
                        },
                        Err(e) => {
                            proof {
                                assert(run_ops(prev_ops, bm.width, bm.height, pixels_of(bm.image))
                                    is None);
                            }
                            return Err(e);
                        },
                    }
                },
                None => {},
            }
        }
        self.data = Payload::Decoded { bitmap: bm };
        Ok(())
    }

    /// Drains the queue, encodes the resulting bitmap into the requested
    /// container format, and releases the payload: the returned bytes are
    /// the output, and the pipeline reverts to its unloaded state. A
    /// lossless format decodes back to the exact drained raster; JPEG
    /// output decodes alpha-free.
    pub fn export(&mut self, format: ContainerFormat) -> (r: Result<Vec<u8>, TransformError>)
        requires
            old(self).wf(),
        ensures
            final(self).wf(),
            r is Ok <==> export_value(old(self).payload(), old(self).ops(), format) is Some,
            r matches Ok(v) ==> Some(v@) == export_value(old(self).payload(), old(self).ops(), format)
                && final(self).payload() is Empty
                && final(self).ops() == Seq::<Operation>::empty(),
            r matches Ok(v) ==> (pipeline_result(old(self).payload(), old(self).ops()) matches Some(t)
                && (decode_of(v@) matches Some(u) && u.0 == t.0 && u.1 == t.1
                && (format == ContainerFormat::Jpeg ==> opaque_raster(u.2)))
                && (lossless_format(format) ==> decode_of(v@) == Some(t))),
            old(self).payload() is Empty ==> (r matches Err(e) && e == TransformError::NoPayload),
            old(self).payload() matches PayloadModel::Encoded { bytes, format: f } ==> (decode_of(
                bytes,
            ) is None ==> (r matches Err(e) && e == (if rejected_as_unsupported(bytes) {
                TransformError::UnsupportedFormat
            } else {
                TransformError::DecodeError
            }))),
            (old(self).payload() matches PayloadModel::Encoded { bytes, format: f } && decode_of(
                bytes,
            ) matches Some(t) && (t.0 == 0 || t.1 == 0)) ==> (r matches Err(e) && e
                == TransformError::DecodeError),
            (decoded_state(old(self).payload()) matches Some(t) && run_ops(
                old(self).ops(),
                t.0,
                t.1,
                t.2,
            ) is None) ==> (r matches Err(e) && e == TransformError::UnsupportedParameter),
            (pipeline_result(old(self).payload(), old(self).ops()) matches Some(t) && encode_model(format, t.0, t.1, t.2)
                is None) ==> (r matches Err(e) && e == TransformError::EncodeError),
    {
        match self.exec() {
            Ok(()) => {},
            Err(e) => {
                return Err(e);
            },
        }
        let mut taken = Payload::Empty;
        core::mem::swap(&mut self.data, &mut taken);
        match taken {
            Payload::Decoded { bitmap } => {
                match encode_bitmap(&bitmap, format) {
                    Ok(v) => Ok(v),
                    Err(e) => Err(e),
                }
            },
            _ => Err(TransformError::NoPayload),
        }
    }

    /// The optimizing export. For PNG it drains the queue, encodes to PNG
    /// and hands the bytes to the external optimizer, whose result is never
    /// larger than the plain encoding. For any other format optimization is
    /// not meaningful and the call degrades to a plain export of that
    /// format, bypassing the optimizer entirely.
    pub fn optimize(&mut self, format: ContainerFormat, opts: ImageOptimizeOpts) -> (r: Result<
        Vec<u8>,
        TransformError,
    >)
        requires
            old(self).wf(),
        ensures
            final(self).wf(),
            format != ContainerFormat::Png ==> {
                &&& (r is Ok <==> export_value(old(self).payload(), old(self).ops(), format) is Some)
                &&& (r matches Ok(v) ==> Some(v@) == export_value(old(self).payload(), old(self).ops(), format)
                    && final(self).payload() is Empty
                    && final(self).ops() == Seq::<Operation>::empty())
                &&& (old(self).payload() is Empty ==> (r matches Err(e) && e
                    == TransformError::NoPayload))
            },
            format == ContainerFormat::Png ==> {
                &&& (opts.level > 6 ==> (r matches Err(e) && e == TransformError::UnsupportedParameter)
                    && final(self).payload() == old(self).payload() && final(self).ops() == old(self).ops())
                &&& (r is Ok <==> opts.level <= 6 && optimize_value(
                    old(self).payload(),
                    old(self).ops(),
                    opts.level,
                    opts.interlace,
                    opts.optimize_alpha,
                ) is Some)
                &&& (r matches Ok(v) ==> Some(v@) == optimize_value(
                    old(self).payload(),
                    old(self).ops(),
                    opts.level,
                    opts.interlace,
                    opts.optimize_alpha,
                ) && final(self).payload() is Empty && final(self).ops()
                    == Seq::<Operation>::empty())
                &&& (r matches Ok(v) ==> (export_value(old(self).payload(), old(self).ops(), ContainerFormat::Png)
                    matches Some(b) && v@.len() <= b.len()))
                &&& (r matches Ok(v) ==> (pipeline_result(old(self).payload(), old(self).ops()) matches Some(t) && (decode_of(
                    v@,
                ) matches Some(u) && u.0 == t.0 && u.1 == t.1 && (!opts.optimize_alpha ==> u.2
                    == t.2) && (opaque_raster(t.2) ==> u.2 == t.2))))
                &&& (opts.level <= 6 && old(self).payload() is Empty ==> (r matches Err(e) && e
                    == TransformError::NoPayload))
                &&& (opts.level <= 6 && pipeline_result(old(self).payload(), old(self).ops()) is Some
                    && export_value(old(self).payload(), old(self).ops(), ContainerFormat::Png)
                    is None ==> (r matches Err(e) && e == TransformError::EncodeError))
                &&& (opts.level <= 6 && (export_value(old(self).payload(), old(self).ops(), ContainerFormat::Png) matches Some(
                    b,
                ) && optimized_of(b, opts.level, opts.interlace, opts.optimize_alpha) is None) ==> (r matches Err(
                    e,
                ) && e == TransformError::OptimizationFailure))
            },
    {
        match format {
            ContainerFormat::Png => {},
            _ => {
                return self.export(format);
            },
        }
        if opts.level > 6 {
            return Err(TransformError::UnsupportedParameter);
        }
        match self.exec() {
            Ok(()) => {},
            Err(e) => {
                return Err(e);
            },
        }
        let mut taken = Payload::Empty;
        core::mem::swap(&mut self.data, &mut taken);
        match taken {
            Payload::Decoded { bitmap } => {
                let png = match encode_bitmap(&bitmap, ContainerFormat::Png) {
                    Ok(v) => v,
                    Err(e) => {
                        return Err(e);
                    },
                };
                match optimise_png(png.as_slice(), opts.level, opts.interlace, opts.optimize_alpha) {
                    Ok(v) => Ok(v),
                    Err(e) => Err(e),
                }
            },
            _ => Err(TransformError::NoPayload),
        }
    }

    /// Enqueues a resize to the given dimensions, either keeping the aspect
    /// ratio within the box or resizing exactly.
    pub fn resize(
        &mut self,
        width: u32,
        height: u32,
        maintain_aspect_ratio: bool,
        filter: FilterKind,
    ) -> (r: Result<(), TransformError>)
        requires
            old(self).wf(),
        ensures
            final(self).wf(),
            enqueue_contract(
                *old(self),
                *final(self),
                (Operation::Resize { width, height, keep_aspect: maintain_aspect_ratio, filter }),
                r,
            ),
    {
        self.chain(Operation::Resize { width, height, keep_aspect: maintain_aspect_ratio, filter })
    }

    /// Enqueues a crop of the given region; whether the region lies within
    /// the bitmap is checked when the queue is drained.
    pub fn crop(&mut self, x: u32, y: u32, width: u32, height: u32) -> (r: Result<
        (),
        TransformError,
    >)
        requires
            old(self).wf(),
        ensures
            final(self).wf(),
            enqueue_contract(
                *old(self),
                *final(self),
                (Operation::Crop { x, y, width, height }),
                r,
            ),
    {
        self.chain(Operation::Crop { x, y, width, height })
    }

    /// Enqueues a rotation by a quarter-turn multiple.
    pub fn rotate(&mut self, rotation: ImageRotation) -> (r: Result<(), TransformError>)
        requires
            old(self).wf(),
        ensures
            final(self).wf(),
            enqueue_contract(*old(self), *final(self), (Operation::Rotate { rotation }), r),
    {
        self.chain(Operation::Rotate { rotation })
    }

    /// Enqueues a left-right mirror.
    pub fn flip_horizontal(&mut self) -> (r: Result<(), TransformError>)
        requires
            old(self).wf(),
        ensures
            final(self).wf(),
            enqueue_contract(
                *old(self),
                *final(self),
                (Operation::Flip { horizontal: true, vertical: false }),
                r,
            ),
    {
        self.chain(Operation::Flip { horizontal: true, vertical: false })
    }

    /// Enqueues a top-bottom mirror.
    pub fn flip_vertical(&mut self) -> (r: Result<(), TransformError>)
        requires
            old(self).wf(),
        ensures
            final(self).wf(),
            enqueue_contract(
                *old(self),
                *final(self),
                (Operation::Flip { horizontal: false, vertical: true }),
                r,
            ),
    {
        self.chain(Operation::Flip { horizontal: false, vertical: true })
    }

    /// Enqueues a luminance conversion.
    pub fn grayscale(&mut self) -> (r: Result<(), TransformError>)
        requires
            old(self).wf(),
        ensures
            final(self).wf(),
            enqueue_contract(*old(self), *final(self), Operation::Grayscale, r),
    {
        self.chain(Operation::Grayscale)
    }

    /// Enqueues a Gaussian blur; sigma is the bit pattern of an IEEE 754
    /// single-precision value.
    pub fn blur(&mut self, sigma_bits: u32) -> (r: Result<(), TransformError>)
        requires
            old(self).wf(),
        ensures
            final(self).wf(),
            enqueue_contract(*old(self), *final(self), (Operation::Blur { sigma_bits }), r),
    {
        self.chain(Operation::Blur { sigma_bits })
    }

    /// Enqueues a brightness shift by delta on every color channel.
    pub fn brighten(&mut self, amount: i32) -> (r: Result<(), TransformError>)
        requires
            old(self).wf(),
        ensures
            final(self).wf(),
            enqueue_contract(*old(self), *final(self), (Operation::Brighten { delta: amount }), r),
    {
        self.chain(Operation::Brighten { delta: amount })
    }

    /// Enqueues a contrast adjustment; the amount is the bit pattern of an
    /// IEEE 754 single-precision value.
    pub fn contrast(&mut self, amount_bits: u32) -> (r: Result<(), TransformError>)
        requires
            old(self).wf(),
        ensures
            final(self).wf(),
            enqueue_contract(*old(self), *final(self), (Operation::Contrast { amount_bits }), r),
    {
        self.chain(Operation::Contrast { amount_bits })
    }

    /// Enqueues an unsharp mask; sigma is the bit pattern of an IEEE 754
    /// single-precision value.
    pub fn unsharpen(&mut self, sigma_bits: u32, threshold: i32) -> (r: Result<
        (),
        TransformError,
    >)
        requires
            old(self).wf(),
        ensures
            final(self).wf(),
            enqueue_contract(
                *old(self),
                *final(self),
                (Operation::Unsharpen { sigma_bits, threshold }),
                r,
            ),
    {
        self.chain(Operation::Unsharpen { sigma_bits, threshold })
    }

    /// Enqueues a color inversion.
    pub fn invert(&mut self) -> (r: Result<(), TransformError>)
        requires
            old(self).wf(),
        ensures
            final(self).wf(),
            enqueue_contract(*old(self), *final(self), Operation::Invert, r),
    {
        self.chain(Operation::Invert)
    }
}


/// Applies one operation to a bitmap through the codec. Only a crop whose
/// region does not lie within the bitmap fails.
fn apply_operation(bm: Bitmap, op: Operation) -> (r: Result<Bitmap, TransformError>)
    requires
        bm.wf(),
        op_valid(op),
    ensures
        r is Ok <==> apply_op_model(op, bm.width, bm.height, pixels_of(bm.image)) is Some,
        r matches Ok(b2) ==> b2.wf() && apply_op_model(op, bm.width, bm.height, pixels_of(bm.image))
            == Some((b2.width, b2.height, pixels_of(b2.image))),
        r matches Err(e) ==> e == TransformError::UnsupportedParameter,
{
    match op {
        Operation::Resize { width, height, keep_aspect, filter } => {
            let ft = filter_of_kind(filter);
            if keep_aspect {
                Ok(apply_resize_aspect(bm, width, height, ft))
            } else {
                Ok(apply_resize_exact(bm, width, height, ft))
            }
        },
        Operation::Crop { x, y, width, height } => {
            if width <= bm.width && x <= bm.width - width && height <= bm.height && y <= bm.height
                - height {
                Ok(apply_crop(bm, x, y, width, height))
            } else {
                Err(TransformError::UnsupportedParameter)
            }
        },
        Operation::Rotate { rotation } => match rotation {
            ImageRotation::Degrees90 => Ok(apply_rotate90(bm)),
            ImageRotation::Degrees180 => Ok(apply_rotate180(bm)),
            ImageRotation::Degrees270 => Ok(apply_rotate270(bm)),
        },
        Operation::Flip { horizontal, vertical } => {
            let mut b = bm;
            if horizontal {
                b = apply_flip_horizontal(b);
            }
            if vertical {
                b = apply_flip_vertical(b);
            }
            Ok(b)
        },
        Operation::Grayscale => Ok(apply_grayscale(bm)),
        Operation::Blur { sigma_bits } => Ok(apply_blur(bm, sigma_bits)),
        Operation::Brighten { delta } => Ok(apply_brighten(bm, delta)),
        Operation::Contrast { amount_bits } => Ok(apply_contrast(bm, amount_bits)),
        Operation::Unsharpen { sigma_bits, threshold } => Ok(
            apply_unsharpen(bm, sigma_bits, threshold),
        ),
        Operation::Invert => Ok(apply_invert(bm)),
    }
}

} // verus!
