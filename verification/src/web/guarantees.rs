//! What holds of the endpoints and of transcoding, beyond the contract of
//! any single function.

use super::imaging::image_size;
use super::imaging::resize_fits;
use super::imaging::webp_accepts;
use super::imaging::webp_encoded;
use super::response::unauthorized_response;
use super::response::ResponseView;
use super::webp_convert::answer_of;
use super::webp_convert::encoding_of;
use super::webp_convert::transcoding_of;
use super::webp_convert::TranscodeError;
use super::MAX_SIZE_BYTES_20MB;
use image::DynamicImage;
use vstd::prelude::*;

verus! {

/// Without a target, transcoding succeeds exactly when WebP can hold the
/// decoded image's size, and the result is then the WebP file of that very
/// image: nothing stands between the decoder's image and the encoder, so the
/// file is written with the source's width and height.
pub proof fn lemma_unresized_encodes_source(
    source: DynamicImage,
    outcome: Result<Vec<u8>, TranscodeError>,
)
    requires
        transcoding_of(source, None, outcome),
    ensures
        outcome is Ok <==> webp_accepts(image_size(source)),
        outcome matches Ok(file) ==> file@ == webp_encoded(source),
        outcome matches Err(error) ==> error == TranscodeError::EncodeFailure,
{
}

/// With a target, a successful transcoding is the WebP file of an image
/// whose width and height are exactly the target's, whatever the source's
/// proportions; and it succeeds exactly when the target can be allocated and
/// WebP can hold it.
pub proof fn lemma_resized_encodes_target(
    source: DynamicImage,
    target: (u32, u32),
    outcome: Result<Vec<u8>, TranscodeError>,
)
    requires
        transcoding_of(source, Some(target), outcome),
    ensures
        outcome matches Ok(file) ==> exists|scaled: DynamicImage|
            image_size(scaled) == target && file@ == #[trigger] webp_encoded(scaled),
        outcome is Ok <==> resize_fits(image_size(source), target) && webp_accepts(target),
        outcome == Err::<Vec<u8>, TranscodeError>(TranscodeError::ResizeTooLarge) <==> !resize_fits(
            image_size(source),
            target,
        ),
{
    if resize_fits(image_size(source), target) {
        let scaled = choose|scaled: DynamicImage|
            image_size(scaled) == target && #[trigger] encoding_of(scaled, outcome);
        if outcome is Ok {
            assert(outcome->Ok_0@ == webp_encoded(scaled));
        }
    }
}

/// Where addresses have 64 bits, every target that WebP can hold can be
/// allocated, from any source.
pub proof fn lemma_webp_target_fits(source: (u32, u32), target: (u32, u32))
    requires
        webp_accepts(target),
        isize::MAX >= 0x7fff_ffff_ffff_ffff,
    ensures
        resize_fits(source, target),
{
    assert(source.0 * target.1 <= 0xffff_ffff * 16384) by (nonlinear_arith)
        requires
            0 <= source.0 <= 0xffff_ffff,
            0 <= target.1 <= 16384,
    ;
    assert(target.0 * target.1 <= 16384 * 16384) by (nonlinear_arith)
        requires
            0 <= target.0 <= 16384,
            0 <= target.1 <= 16384,
    ;
}

/// Where addresses have 64 bits, refusing what cannot be allocated takes no
/// success away: a resize succeeds exactly when both sides of the target are
/// between 1 and 16384.
pub proof fn lemma_resize_succeeds_within_webp(
    source: DynamicImage,
    target: (u32, u32),
    outcome: Result<Vec<u8>, TranscodeError>,
)
    requires
        transcoding_of(source, Some(target), outcome),
        isize::MAX >= 0x7fff_ffff_ffff_ffff,
    ensures
        outcome is Ok <==> webp_accepts(target),
{
    lemma_resized_encodes_target(source, target, outcome);
    if webp_accepts(target) {
        lemma_webp_target_fits(image_size(source), target);
    }
}

/// A request that is not let in gets the same answer whatever its body and
/// whatever size it asks for: 401, with no transcoding behind it.
pub proof fn lemma_unauthorized_ignores_body(
    body_len: nat,
    resize: Option<(u32, u32)>,
    response: ResponseView,
)
    requires
        answer_of(false, body_len, resize, response),
    ensures
        response == unauthorized_response(),
        response.status == 401,
{
}

/// A body over the size limit never gets 200: the answer is 401 or 413.
pub proof fn lemma_oversized_body_rejected(
    allowed: bool,
    body_len: nat,
    resize: Option<(u32, u32)>,
    response: ResponseView,
)
    requires
        body_len > MAX_SIZE_BYTES_20MB,
        answer_of(allowed, body_len, resize, response),
    ensures
        response.status == 401 || response.status == 413,
{
}

/// Whatever a conversion endpoint answers has one of five statuses, and 200
/// only to a request that was let in, within the size limit, together with
/// the content type `image/webp`.
pub proof fn lemma_answer_statuses(
    allowed: bool,
    body_len: nat,
    resize: Option<(u32, u32)>,
    response: ResponseView,
)
    requires
        answer_of(allowed, body_len, resize, response),
    ensures
        response.status == 200 || response.status == 400 || response.status == 401
            || response.status == 413 || response.status == 500,
        response.status == 200 ==> allowed && body_len <= MAX_SIZE_BYTES_20MB
            && response.content_type == Some("image/webp"@),
{
}

} // verus!
