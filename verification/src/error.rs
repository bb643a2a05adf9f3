use vstd::prelude::*;

verus! {

/// Every failure the pipeline can surface. A failure aborts the current call
/// and is reported synchronously; no retry happens inside the library.
#[derive(Clone, Copy, Debug, PartialEq, Eq, Structural)]
pub enum TransformError {
    /// The container format of the byte stream is not recognized or not supported.
    UnsupportedFormat,
    /// The byte stream claims a recognized format but cannot be decoded.
    DecodeError,
    /// An operation or terminal call was made while no payload is loaded.
    NoPayload,
    /// An enum-like or numeric parameter is outside its accepted range.
    UnsupportedParameter,
    /// The bitmap could not be encoded into the requested container format.
    EncodeError,
    /// The external PNG optimizer rejected its input.
    OptimizationFailure,
}

impl TransformError {
    /// The short stable name of each error.
    pub open spec fn spec_name(self) -> Seq<char> {
        match self {
            TransformError::UnsupportedFormat => "unsupported format"@,
            TransformError::DecodeError => "decode error"@,
            TransformError::NoPayload => "no payload"@,
            TransformError::UnsupportedParameter => "unsupported parameter"@,
            TransformError::EncodeError => "encode error"@,
            TransformError::OptimizationFailure => "optimization failure"@,
        }
    }

    /// A short stable name for the error, for hosts that want to display it.
    pub fn name(&self) -> (r: &'static str)
        ensures
            r@ == self.spec_name(),
    {
        match self {
            TransformError::UnsupportedFormat => "unsupported format",
            TransformError::DecodeError => "decode error",
            TransformError::NoPayload => "no payload",
            TransformError::UnsupportedParameter => "unsupported parameter",
            TransformError::EncodeError => "encode error",
            TransformError::OptimizationFailure => "optimization failure",
        }
    }
}

} // verus!
