//! The externally callable surface of the pipeline: construction, import,
//! the per-operation configuration calls with their string and integer
//! parameters, and the terminal export and optimize calls.

use vstd::prelude::*;
use vstd::string::StringSliceAdditionalSpecFns;

use crate::codec::decode_of;
use crate::codec::lossless_format;
use crate::codec::rejected_as_unsupported;
use crate::raster::opaque_raster;
use crate::error::TransformError;
use crate::format::ContainerFormat;
use crate::format::parse_filter;
use crate::format::parse_format;
use crate::format::spec_parse_filter;
use crate::format::spec_parse_format;
use crate::ops::ImageRotation;
use crate::ops::Operation;
use crate::ops::op_valid;
use crate::ops::run_ops;
use crate::transformers::ImageOptimizeOpts;
use crate::transformers::PayloadModel;
use crate::transformers::TImageTransformer;
use crate::transformers::Transformer;
use crate::transformers::decoded_state;
use crate::transformers::export_value;
use crate::transformers::optimize_value;
use crate::transformers::pipeline_result;

verus! {

/// The rotation a degree count stands for; only quarter-turn multiples are
/// accepted.
pub open spec fn spec_rotation(degrees: u16) -> Option<ImageRotation> {
    if degrees == 90 {
        Some(ImageRotation::Degrees90)
    } else if degrees == 180 {
        Some(ImageRotation::Degrees180)
    } else if degrees == 270 {
        Some(ImageRotation::Degrees270)
    } else {
        None
    }
}

/// The operations a flip call enqueues: a horizontal mirror, a vertical
/// mirror, both, or none.
pub open spec fn flip_ops(horizontal: bool, vertical: bool) -> Seq<Operation> {
    let a = if horizontal {
        seq![Operation::Flip { horizontal: true, vertical: false }]
    } else {
        Seq::<Operation>::empty()
    };
    let b = if vertical {
        seq![Operation::Flip { horizontal: false, vertical: true }]
    } else {
        Seq::<Operation>::empty()
    };
    a + b
}

/// How every configuration call behaves: it fails with NoPayload before an
/// import, fails with UnsupportedParameter on an invalid operation, and
/// otherwise appends the operation to the end of the queue, leaving the
/// payload alone.
pub open spec fn config_contract(
    pre: ImageProcessor,
    post: ImageProcessor,
    op: Operation,
    r: Result<(), TransformError>,
) -> bool {
    &&& (r is Ok <==> !(pre.payload() is Empty) && op_valid(op))
    &&& post.payload() == pre.payload()
    &&& (r is Ok ==> post.ops() == pre.ops().push(op))
    &&& (r is Err ==> post.ops() == pre.ops())
    &&& (pre.payload() is Empty ==> (r matches Err(e) && e == TransformError::NoPayload))
    &&& (!(pre.payload() is Empty) && !op_valid(op) ==> (r matches Err(e) && e
        == TransformError::UnsupportedParameter))
}

/// How a configuration call with a parameter that does not even name an
/// operation behaves: nothing changes, and the call fails with NoPayload
/// before an import and with UnsupportedParameter after one.
pub open spec fn config_rejected(
    pre: ImageProcessor,
    post: ImageProcessor,
    r: Result<(), TransformError>,
) -> bool {
    &&& r is Err
    &&& post.payload() == pre.payload()
    &&& post.ops() == pre.ops()
    &&& (pre.payload() is Empty ==> (r matches Err(e) && e == TransformError::NoPayload))
    &&& (!(pre.payload() is Empty) ==> (r matches Err(e) && e
        == TransformError::UnsupportedParameter))
}

/// The pipeline facade: one image payload, one queue, driven by plain calls.
pub struct ImageProcessor {
    pub kind: TImageTransformer,
    transformer: Transformer,
}

impl ImageProcessor {
    /// The view of the owned payload.
    pub closed spec fn payload(self) -> PayloadModel {
        self.transformer.payload()
    }

    /// The queued operations, first enqueued first.
    pub closed spec fn ops(self) -> Seq<Operation> {
        self.transformer.ops()
    }

    /// The facade is well formed whenever its pipeline is.
    pub closed spec fn wf(self) -> bool {
        self.transformer.wf()
    }

    /// A fresh pipeline: no payload, empty queue.
    pub fn new() -> (r: ImageProcessor)
        ensures
            r.wf(),
            r.payload() is Empty,
            r.ops() == Seq::<Operation>::empty(),
    {
        let kind = TImageTransformer;
        let transformer = Transformer::new(kind);
        ImageProcessor { kind, transformer }
    }

    /// Decodes a byte stream and takes it as the owned payload. A stream
    /// the codec rejects for its container format fails with
    /// UnsupportedFormat; a malformed or degenerate stream of a recognized
    /// container fails with DecodeError.
    pub fn import(&mut self, raw: Vec<u8>) -> (r: Result<(), TransformError>)
        requires
            old(self).wf(),
        ensures
            final(self).wf(),
            final(self).ops() == old(self).ops(),
            r is Ok <==> (decode_of(raw@) matches Some(t) && t.0 >= 1 && t.1 >= 1),
            r is Ok ==> (decode_of(raw@) matches Some(t) && final(self).payload() == (
            PayloadModel::Decoded { width: t.0, height: t.1, pixels: t.2 })),
            r is Err ==> final(self).payload() == old(self).payload(),
            decode_of(raw@) is None ==> (r matches Err(e) && e == (if rejected_as_unsupported(
                raw@,
            ) {
                TransformError::UnsupportedFormat
            } else {
                TransformError::DecodeError
            })),
            (decode_of(raw@) matches Some(t) && (t.0 == 0 || t.1 == 0)) ==> (r matches Err(e) && e
                == TransformError::DecodeError),
    {
        self.transformer.import(raw)
    }

    /// Drains the queue against the payload without exporting; the payload
    /// stays loaded in its decoded form. The format name is validated but
    /// plays no further role: the queued operations do not depend on it.
    pub fn exec(&mut self, format: &str) -> (r: Result<(), TransformError>)
        requires
            old(self).wf(),
        ensures
            final(self).wf(),
            spec_parse_format(format.spec_bytes()) is None ==> (r matches Err(e) && e
                == TransformError::UnsupportedFormat) && final(self).payload() == old(self).payload() && final(self).ops() == old(self).ops(),
            spec_parse_format(format.spec_bytes()) is Some ==> {
                &&& (r is Ok <==> pipeline_result(old(self).payload(), old(self).ops()) is Some)
                &&& (r is Ok ==> (pipeline_result(old(self).payload(), old(self).ops())
                    matches Some(t) && final(self).ops() == Seq::<Operation>::empty() && final(self).payload() == (PayloadModel::Decoded { width: t.0, height: t.1, pixels: t.2 })))
                &&& (old(self).payload() is Empty ==> (r matches Err(e) && e
                    == TransformError::NoPayload))
                &&& ((decoded_state(old(self).payload()) matches Some(t) && run_ops(
                    old(self).ops(),
                    t.0,
                    t.1,
                    t.2,
                ) is None) ==> (r matches Err(e) && e == TransformError::UnsupportedParameter))
            },
    {
        match parse_format(format) {
            Some(_) => self.transformer.exec(),
            None => Err(TransformError::UnsupportedFormat),
        }
    }

    /// Drains the queue, encodes into the named format and releases the
    /// payload as the returned bytes.
    pub fn export(&mut self, format: &str) -> (r: Result<Vec<u8>, TransformError>)
        requires
            old(self).wf(),
        ensures
            final(self).wf(),
            spec_parse_format(format.spec_bytes()) is None ==> (r matches Err(e) && e
                == TransformError::UnsupportedFormat) && final(self).payload() == old(self).payload() && final(self).ops() == old(self).ops(),
            spec_parse_format(format.spec_bytes()) matches Some(f) ==> {
                &&& (r is Ok <==> export_value(old(self).payload(), old(self).ops(), f) is Some)
                &&& (r matches Ok(v) ==> Some(v@) == export_value(
                    old(self).payload(),
                    old(self).ops(),
                    f,
                ) && final(self).payload() is Empty && final(self).ops()
                    == Seq::<Operation>::empty())
                &&& (r matches Ok(v) ==> (pipeline_result(old(self).payload(), old(self).ops())
                    matches Some(t) && (decode_of(v@) matches Some(u) && u.0 == t.0 && u.1 == t.1
                    && (f == ContainerFormat::Jpeg ==> opaque_raster(u.2)))
                    && (lossless_format(f) ==> decode_of(v@) == Some(t))))
                &&& (old(self).payload() is Empty ==> (r matches Err(e) && e
                    == TransformError::NoPayload))
                &&& ((decoded_state(old(self).payload()) matches Some(t) && run_ops(
                    old(self).ops(),
                    t.0,
                    t.1,
                    t.2,
                ) is None) ==> (r matches Err(e) && e == TransformError::UnsupportedParameter))
                &&& ((pipeline_result(old(self).payload(), old(self).ops()) matches Some(t)
                    && export_value(old(self).payload(), old(self).ops(), f) is None) ==> (r
                    matches Err(e) && e == TransformError::EncodeError))
            },
    {
        match parse_format(format) {
            Some(f) => self.transformer.export(f),
            None => Err(TransformError::UnsupportedFormat),
        }
    }

    /// Enqueues a rotation; only 90, 180 and 270 degrees are accepted.
    pub fn rotate(&mut self, degrees: u16) -> (r: Result<(), TransformError>)
        requires
            old(self).wf(),
        ensures
            final(self).wf(),
            spec_rotation(degrees) matches Some(rotation) ==> config_contract(
                *old(self),
                *final(self),
                (Operation::Rotate { rotation }),
                r,
            ),
            spec_rotation(degrees) is None ==> config_rejected(*old(self), *final(self), r),
    {
        if !self.transformer.is_loaded() {
            return Err(TransformError::NoPayload);
        }
        let rotation = if degrees == 90 {
            ImageRotation::Degrees90
        } else if degrees == 180 {
            ImageRotation::Degrees180
        } else if degrees == 270 {
            ImageRotation::Degrees270
        } else {
            return Err(TransformError::UnsupportedParameter);
        };
        self.transformer.rotate(rotation)
    }

    /// Enqueues a resize; the filter must be one of the recognized
    /// resampling filter names and the target dimensions must be positive.
    pub fn resize(&mut self, width: u32, height: u32, maintain_aspect_ratio: bool, filter: &str) -> (r:
        Result<(), TransformError>)
        requires
            old(self).wf(),
        ensures
            final(self).wf(),
            spec_parse_filter(filter.spec_bytes()) matches Some(f) ==> config_contract(
                *old(self),
                *final(self),
                (Operation::Resize { width, height, keep_aspect: maintain_aspect_ratio, filter: f }),
                r,
            ),
            spec_parse_filter(filter.spec_bytes()) is None ==> config_rejected(
                *old(self),
                *final(self),
                r,
            ),
    {
        if !self.transformer.is_loaded() {
            return Err(TransformError::NoPayload);
        }
        match parse_filter(filter) {
            Some(f) => self.transformer.resize(width, height, maintain_aspect_ratio, f),
            None => Err(TransformError::UnsupportedParameter),
        }
    }

    /// Enqueues a crop of the given region; the region is checked against
    /// the bitmap when the queue is drained.
    pub fn crop(&mut self, x: u32, y: u32, width: u32, height: u32) -> (r: Result<
        (),
        TransformError,
    >)
        requires
            old(self).wf(),
        ensures
            final(self).wf(),
            config_contract(
                *old(self),
                *final(self),
                (Operation::Crop { x, y, width, height }),
                r,
            ),
    {
        self.transformer.crop(x, y, width, height)
    }

    /// Enqueues the requested mirrors: a horizontal one, a vertical one,
    /// both in that order, or none.
    pub fn flip(&mut self, horizontal: bool, vertical: bool) -> (r: Result<(), TransformError>)
        requires
            old(self).wf(),
        ensures
            final(self).wf(),
            final(self).payload() == old(self).payload(),
            old(self).payload() is Empty ==> (r matches Err(e) && e == TransformError::NoPayload)
                && final(self).ops() == old(self).ops(),
            !(old(self).payload() is Empty) ==> r is Ok && final(self).ops() == old(self).ops()
                + flip_ops(horizontal, vertical),
    {
        if !self.transformer.is_loaded() {
            return Err(TransformError::NoPayload);
        }
        if horizontal {
            let res = self.transformer.flip_horizontal();
            match res {
                Ok(()) => {},
                Err(e) => {
                    return Err(e);
                },
            }
        }
        if vertical {
            let res = self.transformer.flip_vertical();
            match res {
                Ok(()) => {},
                Err(e) => {
                    return Err(e);
                },
            }
        }
        proof {
            assert(self.ops() =~= old(self).ops() + flip_ops(horizontal, vertical));
        }
        Ok(())
    }

    /// Enqueues a luminance conversion.
    pub fn grayscale(&mut self) -> (r: Result<(), TransformError>)
        requires
            old(self).wf(),
        ensures
            final(self).wf(),
            config_contract(*old(self), *final(self), Operation::Grayscale, r),
    {
        self.transformer.grayscale()
    }

    /// Enqueues a Gaussian blur; sigma is the bit pattern of an IEEE 754
    /// single-precision value.
    pub fn blur(&mut self, sigma_bits: u32) -> (r: Result<(), TransformError>)
        requires
            old(self).wf(),
        ensures
            final(self).wf(),
            config_contract(*old(self), *final(self), (Operation::Blur { sigma_bits }), r),
    {
        self.transformer.blur(sigma_bits)
    }

    /// Enqueues a brightness shift.
    pub fn brighten(&mut self, value: i32) -> (r: Result<(), TransformError>)
        requires
            old(self).wf(),
        ensures
            final(self).wf(),
            config_contract(*old(self), *final(self), (Operation::Brighten { delta: value }), r),
    {
        self.transformer.brighten(value)
    }

    /// Enqueues a contrast adjustment; the amount is the bit pattern of an
    /// IEEE 754 single-precision value.
    pub fn contrast(&mut self, value: u32) -> (r: Result<(), TransformError>)
        requires
            old(self).wf(),
        ensures
            final(self).wf(),
            config_contract(
                *old(self),
                *final(self),
                (Operation::Contrast { amount_bits: value }),
                r,
            ),
    {
        self.transformer.contrast(value)
    }

    /// Enqueues an unsharp mask; sigma is the bit pattern of an IEEE 754
    /// single-precision value.
    pub fn unsharpen(&mut self, sigma_bits: u32, threshold: i32) -> (r: Result<
        (),
        TransformError,
    >)
        requires
            old(self).wf(),
        ensures
            final(self).wf(),
            config_contract(
                *old(self),
                *final(self),
                (Operation::Unsharpen { sigma_bits, threshold }),
                r,
            ),
    {
        self.transformer.unsharpen(sigma_bits, threshold)
    }

    /// Enqueues a color inversion.
    pub fn invert(&mut self) -> (r: Result<(), TransformError>)
        requires
            old(self).wf(),
        ensures
            final(self).wf(),
            config_contract(*old(self), *final(self), Operation::Invert, r),
    {
        self.transformer.invert()
    }

    /// The optimizing export: for PNG the queue is drained, the bitmap
    /// encoded to PNG and the bytes recompressed by the external optimizer;
    /// for any other format the call degrades to a plain export and the
    /// optimizer is bypassed entirely.
    pub fn optimize(&mut self, format: &str, level: u8, interlace: bool, optimize_alpha: bool) -> (r:
        Result<Vec<u8>, TransformError>)
        requires
            old(self).wf(),
        ensures
            final(self).wf(),
            spec_parse_format(format.spec_bytes()) is None ==> (r matches Err(e) && e
                == TransformError::UnsupportedFormat) && final(self).payload() == old(self).payload() && final(self).ops() == old(self).ops(),
            spec_parse_format(format.spec_bytes()) matches Some(f) ==> f != ContainerFormat::Png
                ==> {
                &&& (r is Ok <==> export_value(old(self).payload(), old(self).ops(), f) is Some)
                &&& (r matches Ok(v) ==> Some(v@) == export_value(
                    old(self).payload(),
                    old(self).ops(),
                    f,
                ) && final(self).payload() is Empty && final(self).ops()
                    == Seq::<Operation>::empty())
                &&& (old(self).payload() is Empty ==> (r matches Err(e) && e
                    == TransformError::NoPayload))
            },
            spec_parse_format(format.spec_bytes()) == Some(ContainerFormat::Png) ==> {
                &&& (level > 6 ==> (r matches Err(e) && e == TransformError::UnsupportedParameter)
                    && final(self).payload() == old(self).payload() && final(self).ops() == old(self).ops())
                &&& (r is Ok <==> level <= 6 && optimize_value(
                    old(self).payload(),
                    old(self).ops(),
                    level,
                    interlace,
                    optimize_alpha,
                ) is Some)
                &&& (r matches Ok(v) ==> Some(v@) == optimize_value(
                    old(self).payload(),
                    old(self).ops(),
                    level,
                    interlace,
                    optimize_alpha,
                ) && final(self).payload() is Empty && final(self).ops()
                    == Seq::<Operation>::empty())
                &&& (r matches Ok(v) ==> (export_value(
                    old(self).payload(),
                    old(self).ops(),
                    ContainerFormat::Png,
                ) matches Some(b) && v@.len() <= b.len()))
                &&& (r matches Ok(v) ==> (pipeline_result(old(self).payload(), old(self).ops())
                    matches Some(t) && (decode_of(v@) matches Some(u) && u.0 == t.0 && u.1 == t.1
                    && (!optimize_alpha ==> u.2 == t.2) && (opaque_raster(t.2) ==> u.2 == t.2))))
                &&& (level <= 6 && old(self).payload() is Empty ==> (r matches Err(e) && e
                    == TransformError::NoPayload))
            },
    {
        match parse_format(format) {
            Some(f) => {
                let opts = ImageOptimizeOpts::new(level, interlace, optimize_alpha);
                self.transformer.optimize(f, opts)
            },
            None => Err(TransformError::UnsupportedFormat),
        }
    }
}

} // verus!
