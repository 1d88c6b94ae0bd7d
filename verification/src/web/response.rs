//! The responses of the service, as plain values.

use super::webp_convert::TranscodeError;
use vstd::prelude::*;
use vstd::string::StrSliceExecFns;
use vstd::string::StringExecFns;
use vstd::string::StringSliceAdditionalSpecFns;

verus! {

/// Status of a response that carries what was asked for.
pub const STATUS_OK: u16 = 200;

/// Status of a response to a body that is not an image, or to a size that
/// cannot be produced.
pub const STATUS_BAD_REQUEST: u16 = 400;

/// Status of a response to a request without the right API key.
pub const STATUS_UNAUTHORIZED: u16 = 401;

/// Status of a response to a body over the size limit.
pub const STATUS_PAYLOAD_TOO_LARGE: u16 = 413;

/// Status of a response when a decoded image could not be encoded.
pub const STATUS_INTERNAL_SERVER_ERROR: u16 = 500;

/// An HTTP response: status code, content type where one is set, and body.
#[derive(Debug)]
pub struct Response {
    pub status: u16,
    pub content_type: Option<String>,
    pub body: Vec<u8>,
}

/// A response as a mathematical value.
pub struct ResponseView {
    pub status: u16,
    pub content_type: Option<Seq<char>>,
    pub body: Seq<u8>,
}

impl View for Response {
    type V = ResponseView;

    open spec fn view(&self) -> ResponseView {
        ResponseView {
            status: self.status,
            content_type: match self.content_type {
                Some(text) => Some(text@),
                None => None,
            },
            body: self.body@,
        }
    }
}

/// A response without content type whose body is the UTF-8 encoding of `text`.
pub open spec fn text_response(status: u16, text: &str) -> ResponseView {
    ResponseView { status, content_type: None, body: text.spec_bytes() }
}

/// The answer to a liveness probe: 200 with an empty body.
pub open spec fn alive_response() -> ResponseView {
    ResponseView { status: STATUS_OK, content_type: None, body: Seq::empty() }
}

/// The answer to a request that presents no API key or a wrong one.
pub open spec fn unauthorized_response() -> ResponseView {
    text_response(STATUS_UNAUTHORIZED, "Unauthorized")
}

/// The answer to a body larger than the size limit.
pub open spec fn payload_too_large_response() -> ResponseView {
    text_response(STATUS_PAYLOAD_TOO_LARGE, "payload is too large")
}

/// The answer that carries a WebP file.
pub open spec fn webp_response(file: Seq<u8>) -> ResponseView {
    ResponseView { status: STATUS_OK, content_type: Some("image/webp"@), body: file }
}

/// The answer to a failed transcoding: 400 for what the client sent, 500 for
/// an image that decoded but could not be encoded.
pub open spec fn error_response(error: TranscodeError) -> ResponseView {
    match error {
        TranscodeError::InvalidImage => text_response(
            STATUS_BAD_REQUEST,
            "provided data is not an image",
        ),
        TranscodeError::ResizeTooLarge => text_response(
            STATUS_BAD_REQUEST,
            "requested size is too large",
        ),
        TranscodeError::EncodeFailure => text_response(
            STATUS_INTERNAL_SERVER_ERROR,
            "Failed to convert image to WebP",
        ),
    }
}

/// The answer to a transcoding, whichever way it went.
pub open spec fn transcode_response(outcome: Result<Vec<u8>, TranscodeError>) -> ResponseView {
    match outcome {
        Ok(file) => webp_response(file@),
        Err(error) => error_response(error),
    }
}

impl Response {
    /// A response without content type whose body is `text`.
    pub fn text(status: u16, text: &str) -> (response: Response)
        ensures
            response@ == text_response(status, text),
    {
        Response { status, content_type: None, body: text.as_bytes_vec() }
    }

    /// The answer to a liveness probe.
    pub fn alive() -> (response: Response)
        ensures
            response@ == alive_response(),
    {
        Response { status: STATUS_OK, content_type: None, body: Vec::new() }
    }

    /// The answer to a request that presents no API key or a wrong one.
    pub fn unauthorized() -> (response: Response)
        ensures
            response@ == unauthorized_response(),
    {
        Response::text(STATUS_UNAUTHORIZED, "Unauthorized")
    }

    /// The answer to a body larger than the size limit.
    pub fn payload_too_large() -> (response: Response)
        ensures
            response@ == payload_too_large_response(),
    {
        Response::text(STATUS_PAYLOAD_TOO_LARGE, "payload is too large")
    }

    /// The answer that carries a WebP file.
    pub fn webp(file: Vec<u8>) -> (response: Response)
        ensures
            response@ == webp_response(file@),
    {
        Response {
            status: STATUS_OK,
            content_type: Some(String::from_str("image/webp")),
            body: file,
        }
    }

    /// The answer to a failed transcoding.
    pub fn error(error: TranscodeError) -> (response: Response)
        ensures
            response@ == error_response(error),
    {
        match error {
            TranscodeError::InvalidImage => Response::text(
                STATUS_BAD_REQUEST,
                "provided data is not an image",
            ),
            TranscodeError::ResizeTooLarge => Response::text(
                STATUS_BAD_REQUEST,
                "requested size is too large",
            ),
            TranscodeError::EncodeFailure => Response::text(
                STATUS_INTERNAL_SERVER_ERROR,
                "Failed to convert image to WebP",
            ),
        }
    }

    /// The answer to a transcoding, whichever way it went.
    pub fn from_transcoding(outcome: Result<Vec<u8>, TranscodeError>) -> (response: Response)
        ensures
            response@ == transcode_response(outcome),
    {
        match outcome {
            Ok(file) => Response::webp(file),
            Err(error) => Response::error(error),
        }
    }
}

} // verus!
