//! The screenshot acquirer's verifiable half: the query that is sent to the
//! URL-to-image rendering provider, and the integrity check on the bytes
//! that come back. The HTTP transfer itself happens outside this crate;
//! corrupt or non-image responses are treated as acquisition failure, never
//! forwarded.

use vstd::prelude::*;
use crate::errors::PipelineError;

verus! {

// Whether `jpeg_decoder::Decoder::decode` accepts the bytes as a valid
// JPEG image: a function of the bytes alone.
pub uninterp spec fn jpeg_decodes(bytes: Seq<u8>) -> bool;

/// Relies on `jpeg_decoder::Decoder::decode`: it returns `Ok` exactly on
/// byte sequences that decode as a JPEG image, a function of the bytes
/// alone, and reports malformed input as an error rather than panicking.
#[verifier::external_body]
pub(crate) fn jpeg_decode_check(bytes: &Vec<u8>) -> (r: bool)
    ensures
        r == jpeg_decodes(bytes@),
{
    let mut decoder = jpeg_decoder::Decoder::new(bytes.as_slice());
    decoder.decode().is_ok()
}

/// The rendering provider's endpoint.
pub fn screenshot_endpoint() -> (r: String)
    ensures
        r@ == "https://api.apiflash.com/v1/urltoimage"@,
{
    String::from_str("https://api.apiflash.com/v1/urltoimage")
}

/// The query parameters of one rendering request: the access credential,
/// the page URL, and a deliberate ten-second rendering delay so that
/// slow-loading pages are captured completely.
pub fn screenshot_query(access_key: &str, url: &str) -> (r: Vec<(String, String)>)
    ensures
        r@.len() == 3,
        r@[0].0@ == "access_key"@ && r@[0].1@ == access_key@,
        r@[1].0@ == "url"@ && r@[1].1@ == url@,
        r@[2].0@ == "delay"@ && r@[2].1@ == "10"@,
{
    let mut params: Vec<(String, String)> = Vec::new();
    params.push((String::from_str("access_key"), String::from_str(access_key)));
    params.push((String::from_str("url"), String::from_str(url)));
    params.push((String::from_str("delay"), String::from_str("10")));
    params
}

/// The integrity check on fetched screenshot bytes: bytes that decode as a
/// JPEG pass through unchanged; anything else is acquisition failure.
pub fn verify_screenshot(bytes: Vec<u8>) -> (r: Result<Vec<u8>, PipelineError>)
    ensures
        jpeg_decodes(bytes@) ==> (r matches Ok(b) && b@ == bytes@),
        !jpeg_decodes(bytes@) ==> r == Result::<Vec<u8>, PipelineError>::Err(
            PipelineError::ScreenshotFailed,
        ),
{
    if jpeg_decode_check(&bytes) {
        Ok(bytes)
    } else {
        Err(PipelineError::ScreenshotFailed)
    }
}

} // verus!
