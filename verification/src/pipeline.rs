//! The coordinating component: each function here is one decision of the
//! conversion pipeline, taken between the outbound calls. The caller
//! performs the HTTP transfers and hands the results back; every branch
//! taken on them is decided and proved here.

use vstd::prelude::*;
use crate::classify::{classify_text, InputRoute, is_absolute_url, trimmed_of, url_serialization};
use crate::errors::{PipelineError, client_message_of, status_of};
use crate::prompt::{build_image_instruction, image_instruction_text, text_request_text};
use crate::request::{InputPayload, RequestContent, MAX_IMAGE_BYTES, build_request, data_uri_text,
    image_data_uri};
use crate::screenshot::{jpeg_decode_check, jpeg_decodes};
use crate::validate::{ValidatedText, advisory_validate, calendar_parses};

verus! {

/// What a text submission leads to: fetching a screenshot of the page the
/// text names, or extracting from the text directly.
pub enum TextPlan {
    AcquireScreenshot { url: String },
    ExtractDirectly { request: RequestContent },
}

/// What a verified screenshot yields: the image to cache, whole, and the
/// extraction request built from it.
pub struct ScreenshotOutcome {
    pub cache_image: Vec<u8>,
    pub request: RequestContent,
}

/// One client-visible response: a status code and a body.
pub struct HttpReply {
    pub status: u16,
    pub body: String,
}

/// Whether an extraction response carries usable text: some content of
/// nonzero length.
pub open spec fn has_usable_content(content: Option<String>) -> bool {
    content matches Some(c) && c@.len() > 0
}

/// Decides the path of a text submission. The input is trimmed; exactly
/// the strings that parse as an absolute URL go to the screenshot path
/// (carrying the normalized URL), and all others go directly to extraction
/// with the text-modality request for the given current date.
pub fn plan_text_request(raw: &str, now: &str) -> (r: TextPlan)
    ensures
        r is AcquireScreenshot <==> is_absolute_url(trimmed_of(raw@)),
        r matches TextPlan::AcquireScreenshot { url } ==> url@ == url_serialization(
            trimmed_of(raw@),
        ),
        r matches TextPlan::ExtractDirectly { request } ==> (request
            matches RequestContent::TextBlock(block) && block@ == text_request_text(
            now@,
            trimmed_of(raw@),
        )),
{
    match classify_text(raw) {
        InputRoute::PageUrl { url } => TextPlan::AcquireScreenshot { url },
        InputRoute::FreeText { text } => {
            let payload = InputPayload::RawText(text);
            TextPlan::ExtractDirectly { request: build_request(&payload, now) }
        },
    }
}

/// Judges fetched screenshot bytes and, when they pass, builds what comes
/// next. Bytes that decode as a JPEG yield exactly those bytes to cache and
/// the image-modality request carrying their data URI; anything else is
/// acquisition failure, never forwarded to extraction.
pub fn after_screenshot(bytes: Vec<u8>, now: &str) -> (r: Result<ScreenshotOutcome, PipelineError>)
    requires
        bytes@.len() <= MAX_IMAGE_BYTES,
    ensures
        r is Ok <==> jpeg_decodes(bytes@),
        r matches Ok(outcome) ==> outcome.cache_image@ == bytes@ && (outcome.request
            matches RequestContent::ImageParts { instruction, image_data_uri } && instruction@
            == image_instruction_text(now@) && image_data_uri@ == data_uri_text(bytes@)),
        r matches Err(e) ==> e == PipelineError::ScreenshotFailed,
{
    if jpeg_decode_check(&bytes) {
        let instruction = build_image_instruction(now);
        let uri = image_data_uri(&bytes);
        Ok(
            ScreenshotOutcome {
                cache_image: bytes,
                request: RequestContent::ImageParts { instruction, image_data_uri: uri },
            },
        )
    } else {
        Err(PipelineError::ScreenshotFailed)
    }
}

/// Judges an uploaded file part. A missing part is the caller's fault;
/// bytes that do not decode as a JPEG are rejected rather than forwarded;
/// a decodable image yields the image-modality request carrying its data
/// URI.
pub fn image_upload_request(part: Option<Vec<u8>>, now: &str) -> (r: Result<
    RequestContent,
    PipelineError,
>)
    requires
        part matches Some(img) ==> img@.len() <= MAX_IMAGE_BYTES,
    ensures
        part is None ==> (r matches Err(e) && e == PipelineError::MissingImage),
        part matches Some(img) ==> (r is Ok <==> jpeg_decodes(img@)),
        part matches Some(img) ==> (!jpeg_decodes(img@) ==> (r matches Err(e) && e
            == PipelineError::UndecodableImage)),
        part matches Some(img) ==> (jpeg_decodes(img@) ==> (r matches Ok(request) && (request
            matches RequestContent::ImageParts { instruction, image_data_uri } && instruction@
            == image_instruction_text(now@) && image_data_uri@ == data_uri_text(img@)))),
{
    match part {
        None => Err(PipelineError::MissingImage),
        Some(img) => {
            if jpeg_decode_check(&img) {
                let instruction = build_image_instruction(now);
                let uri = image_data_uri(&img);
                Ok(RequestContent::ImageParts { instruction, image_data_uri: uri })
            } else {
                Err(PipelineError::UndecodableImage)
            }
        },
    }
}

/// Judges what the extraction integration returned. Success is owed exactly
/// when there is usable content: then the content is passed through the
/// advisory grammar check and returned unmodified beside the verdict. No
/// content, or empty content, fails with the no-response condition — an
/// empty-but-successful response cannot happen.
pub fn after_extraction(content: Option<String>) -> (r: Result<ValidatedText, PipelineError>)
    ensures
        r is Ok <==> has_usable_content(content),
        r matches Ok(v) ==> (content matches Some(c) && v.text@ == c@ && v.grammar_ok
            == calendar_parses(c@)),
        r matches Ok(v) ==> v.text@.len() > 0,
        r matches Err(e) ==> e == PipelineError::NoResponseContent,
{
    match content {
        None => Err(PipelineError::NoResponseContent),
        Some(c) => {
            if c.as_str().is_empty() {
                Err(PipelineError::NoResponseContent)
            } else {
                Ok(advisory_validate(c))
            }
        },
    }
}

/// Builds the client-visible response. A successful extraction answers 200
/// with the validated (and never modified) text; a failure answers its
/// status — 400 for caller-caused, 500 otherwise — with the generic
/// message, never the detailed cause.
pub fn response_for(outcome: Result<ValidatedText, PipelineError>) -> (r: HttpReply)
    ensures
        r.status == 200 <==> outcome is Ok,
        outcome matches Ok(v) ==> r.status == 200 && r.body@ == v.text@,
        outcome matches Err(e) ==> r.status == status_of(e) && r.body@ == client_message_of(e),
{
    match outcome {
        Ok(v) => HttpReply { status: 200, body: v.text },
        Err(e) => HttpReply { status: e.status_code(), body: e.client_message() },
    }
}

} // verus!
