//! The ways a transformation can fail.
use vstd::prelude::*;

verus! {

/// Why a transformation request failed.
#[derive(Clone, Copy, Debug, PartialEq, Eq, Structural)]
pub enum TransformError {
    /// A required parameter is missing, or `size` is not a decimal number.
    InvalidRequest,
    /// The source image could not be downloaded.
    Fetch,
    /// The source bytes are not a supported, well-formed image.
    Decode,
    /// The target dimensions are zero, too large, or the source is empty.
    Resize,
    /// The final image could not be encoded.
    Encode,
    /// The result could not be uploaded.
    Upload,
}

impl TransformError {
    /// The HTTP status that reports this error: 400 for a request that cannot
    /// be served as given, 502 where a remote endpoint failed, 500 where the
    /// image could not be encoded.
    pub fn status_code(&self) -> (r: u16)
        ensures
            r == (match *self {
                TransformError::InvalidRequest | TransformError::Decode
                | TransformError::Resize => 400u16,
                TransformError::Fetch | TransformError::Upload => 502u16,
                TransformError::Encode => 500u16,
            }),
    {
        match self {
            TransformError::InvalidRequest | TransformError::Decode | TransformError::Resize => 400,
            TransformError::Fetch | TransformError::Upload => 502,
            TransformError::Encode => 500,
        }
    }

    /// A short machine-readable name of the error kind.
    pub fn kind_name(&self) -> (r: &'static str)
        ensures
            r@ == (match *self {
                TransformError::InvalidRequest => "InvalidRequest"@,
                TransformError::Fetch => "FetchError"@,
                TransformError::Decode => "DecodeError"@,
                TransformError::Resize => "ResizeError"@,
                TransformError::Encode => "EncodeError"@,
                TransformError::Upload => "UploadError"@,
            }),
    {
        match self {
            TransformError::InvalidRequest => "InvalidRequest",
            TransformError::Fetch => "FetchError",
            TransformError::Decode => "DecodeError",
            TransformError::Resize => "ResizeError",
            TransformError::Encode => "EncodeError",
            TransformError::Upload => "UploadError",
        }
    }
}

} // verus!
