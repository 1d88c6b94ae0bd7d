//! Transcoding of an uploaded image to WebP, with an optional resize.

use super::imaging::image_size;
use super::imaging::resize_fits;
use super::imaging::webp_accepts;
use super::imaging::webp_encoded;
use super::imaging::write_to_vec;
use super::response::payload_too_large_response;
use super::response::transcode_response;
use super::response::unauthorized_response;
use super::response::Response;
use super::response::ResponseView;
use super::authorized;
use super::check_apikey;
use super::WebserverData;
use super::MAX_SIZE_BYTES_20MB;
use actix_web::HttpRequest;
use image::imageops::FilterType;
use image::DynamicImage;
use image::GenericImageView;
use image::ImageError;
use image::ImageFormat;
use vstd::prelude::*;

verus! {

/// Why an upload could not be turned into a WebP file.
#[derive(Clone, Copy, Debug, PartialEq, Eq, Structural)]
pub enum TranscodeError {
    /// The bytes are not an image that any decoder accepts.
    InvalidImage,
    /// The requested size is one for which no pixel buffer can be allocated.
    ResizeTooLarge,
    /// The image was decoded but cannot be written as WebP.
    EncodeFailure,
}

/// What encoding `image` yields: its WebP file when the format can hold its
/// size, `EncodeFailure` otherwise.
pub open spec fn encoding_of(
    image: DynamicImage,
    outcome: Result<Vec<u8>, TranscodeError>,
) -> bool {
    if webp_accepts(image_size(image)) {
        outcome matches Ok(bytes) && bytes@ == webp_encoded(image)
    } else {
        outcome == Err::<Vec<u8>, TranscodeError>(TranscodeError::EncodeFailure)
    }
}

/// What transcoding a decoded image yields. Without a target the image
/// itself is encoded. With one, an image of exactly the target's width and
/// height is encoded, whose pixels are the resampling filter's choice;
/// `ResizeTooLarge` is the outcome when the target cannot be allocated.
pub open spec fn transcoding_of(
    source: DynamicImage,
    resize: Option<(u32, u32)>,
    outcome: Result<Vec<u8>, TranscodeError>,
) -> bool {
    match resize {
        None => encoding_of(source, outcome),
        Some(target) => if resize_fits(image_size(source), target) {
            exists|scaled: DynamicImage|
                image_size(scaled) == target && #[trigger] encoding_of(scaled, outcome)
        } else {
            outcome == Err::<Vec<u8>, TranscodeError>(TranscodeError::ResizeTooLarge)
        },
    }
}

/// Decides at run time whether resampling from `source` to `target` stays
/// within the length of a vector.
pub fn check_resize_fits(source: (u32, u32), target: (u32, u32)) -> (fits: bool)
    ensures
        fits == resize_fits(source, target),
{
    let limit: u128 = isize::MAX as u128;
    let source_width: u128 = source.0 as u128;
    let target_width: u128 = target.0 as u128;
    let target_height: u128 = target.1 as u128;
    assert(source_width * target_height <= 0xffff_ffff * 0xffff_ffff) by (nonlinear_arith)
        requires
            source_width <= 0xffff_ffff,
            target_height <= 0xffff_ffff,
    ;
    assert(target_width * target_height <= 0xffff_ffff * 0xffff_ffff) by (nonlinear_arith)
        requires
            target_width <= 0xffff_ffff,
            target_height <= 0xffff_ffff,
    ;
    16 * (source_width * target_height) <= limit && 16 * (target_width * target_height) <= limit
}

/// Encodes an image as WebP.
pub fn encode_webp(image: &DynamicImage) -> (outcome: Result<Vec<u8>, TranscodeError>)
    ensures
        encoding_of(*image, outcome),
{
    match write_to_vec(image, ImageFormat::WebP) {
        Ok(bytes) => Ok(bytes),
        Err(_) => Err(TranscodeError::EncodeFailure),
    }
}

/// Transcodes the outcome of decoding an upload: a failed decode is
/// `InvalidImage` and nothing else is; a decoded image is resized with the
/// Lanczos filter of window 3 to exactly the target, where one is given, and
/// encoded as WebP.
pub fn transcode_decoded(
    decoded: Result<DynamicImage, ImageError>,
    resize: Option<(u32, u32)>,
) -> (outcome: Result<Vec<u8>, TranscodeError>)
    ensures
        decoded is Err <==> outcome == Err::<Vec<u8>, TranscodeError>(TranscodeError::InvalidImage),
        decoded matches Ok(source) ==> transcoding_of(source, resize, outcome),
{
    match decoded {
        Err(_) => Err(TranscodeError::InvalidImage),
        Ok(source) => match resize {
            None => encode_webp(&source),
            Some((width, height)) => {
                if check_resize_fits(source.dimensions(), (width, height)) {
                    let scaled = source.resize_exact(width, height, FilterType::Lanczos3);
                    encode_webp(&scaled)
                } else {
                    Err(TranscodeError::ResizeTooLarge)
                }
            },
        },
    }
}

/// What converting an upload can yield: `InvalidImage`, or the transcoding of
/// some decoded image.
pub open spec fn conversion_of(
    resize: Option<(u32, u32)>,
    outcome: Result<Vec<u8>, TranscodeError>,
) -> bool {
    ||| outcome == Err::<Vec<u8>, TranscodeError>(TranscodeError::InvalidImage)
    ||| exists|source: DynamicImage| #[trigger] transcoding_of(source, resize, outcome)
}

/// Decodes `bytes` as an image of whatever format their first bytes announce,
/// resizes it to `resize` where one is given, and encodes it as WebP.
///
/// Which bytes decode is the decoders' matter, so the contract says what holds
/// of either outcome: the result is `InvalidImage`, or it is the transcoding
/// of some decoded image. `transcode_decoded` states the outcome for each
/// result of decoding.
pub fn convert_image_to_webp(
    bytes: &[u8],
    resize: Option<(u32, u32)>,
) -> (outcome: Result<Vec<u8>, TranscodeError>)
    ensures
        conversion_of(resize, outcome),
{
    transcode_decoded(image::load_from_memory(bytes), resize)
}

/// Why a conversion endpoint turns a request away before looking at the
/// image: the API key first, then the size of the body.
pub open spec fn refusal_of(allowed: bool, body_len: nat) -> Option<ResponseView> {
    if !allowed {
        Some(unauthorized_response())
    } else if body_len > MAX_SIZE_BYTES_20MB {
        Some(payload_too_large_response())
    } else {
        None
    }
}

/// What a conversion endpoint may answer to a request: the refusal where
/// there is one, else the answer to some outcome of converting the body.
pub open spec fn answer_of(
    allowed: bool,
    body_len: nat,
    resize: Option<(u32, u32)>,
    response: ResponseView,
) -> bool {
    match refusal_of(allowed, body_len) {
        Some(refusal) => response == refusal,
        None => exists|outcome: Result<Vec<u8>, TranscodeError>|
            conversion_of(resize, outcome) && response == #[trigger] transcode_response(outcome),
    }
}

/// Decides whether a request is turned away before its body is looked at:
/// with 401 when the key check failed, with 413 when the body is over the
/// size limit, and not at all otherwise.
pub fn refusal(allowed: bool, body_len: usize) -> (refused: Option<Response>)
    ensures
        match refused {
            Some(response) => refusal_of(allowed, body_len as nat) == Some(response@),
            None => refusal_of(allowed, body_len as nat) is None,
        },
{
    if !allowed {
        Some(Response::unauthorized())
    } else if body_len > MAX_SIZE_BYTES_20MB {
        Some(Response::payload_too_large())
    } else {
        None
    }
}

/// Answers a request to a conversion endpoint.
fn answer(
    data: &WebserverData,
    request: &HttpRequest,
    image_data: &[u8],
    resize: Option<(u32, u32)>,
) -> (response: Response)
    ensures
        answer_of(authorized(data.apikey@, *request), image_data@.len(), resize, response@),
{
    match refusal(check_apikey(data.apikey.as_str(), request), image_data.len()) {
        Some(response) => response,
        None => {
            let outcome = convert_image_to_webp(image_data, resize);
            let response = Response::from_transcoding(outcome);
            assert(response@ == transcode_response(outcome));
            response
        },
    }
}

/// The endpoint `POST /convert`: answers an upload with the same image as
/// WebP.
///
/// A request without the right API key gets 401 whatever its body holds. A
/// body over the size limit gets 413. Any other gets the answer to
/// converting its body without a resize: 200 with the file and the content
/// type `image/webp`, 400 for what is no image, 500 where encoding failed.
pub fn webp_convert(
    data: &WebserverData,
    request: &HttpRequest,
    image_data: &[u8],
) -> (response: Response)
    ensures
        answer_of(authorized(data.apikey@, *request), image_data@.len(), None, response@),
{
    answer(data, request, image_data, None)
}

/// The endpoint `POST /resize/{width}/{height}`: answers an upload with the
/// image as WebP, resized to exactly `path`'s width and height.
///
/// Refusals are those of `webp_convert`. Beyond them, 400 also answers a size
/// that cannot be allocated.
pub fn webp_resize(
    data: &WebserverData,
    path: (u32, u32),
    request: &HttpRequest,
    image_data: &[u8],
) -> (response: Response)
    ensures
        answer_of(authorized(data.apikey@, *request), image_data@.len(), Some(path), response@),
{
    answer(data, request, image_data, Some(path))
}

} // verus!
