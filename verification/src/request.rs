//! The outbound extraction request: a single text block for textual input,
//! or a two-part content list (instruction text plus an inlined base64
//! image reference) for image input. Image content is always carried as a
//! MIME-tagged data URI of the form `data:image/jpeg;base64,<payload>`.

use vstd::prelude::*;
use base64::prelude::Engine;
use crate::prompt::{image_instruction_text, text_request_text, build_image_instruction,
    build_text_request};

verus! {

/// The largest image the pipeline accepts, matching the configured HTTP
/// request body bound.
pub const MAX_IMAGE_BYTES: usize = 10_000_000;

/// What one request submits: a literal event description or image bytes.
/// Exactly one variant per request; consumed once by the extraction step.
pub enum InputPayload {
    RawText(String),
    ImageBytes(Vec<u8>),
}

/// The content handed to the language-model integration: one text block,
/// or an instruction followed by an inlined image data URI.
pub enum RequestContent {
    TextBlock(String),
    ImageParts { instruction: String, image_data_uri: String },
}

// What `base64::engine::Engine::encode` with the standard padded alphabet
// returns for the given bytes: a function of the bytes alone.
pub uninterp spec fn base64_of(bytes: Seq<u8>) -> Seq<char>;

/// Relies on base64's `Engine::encode` with the `STANDARD` engine: the
/// standard-alphabet, padded encoding of the bytes, a function of the bytes
/// alone; its length is four characters per three-byte chunk, rounded up.
#[verifier::external_body]
fn encode_base64(bytes: &Vec<u8>) -> (r: String)
    requires
        bytes@.len() <= MAX_IMAGE_BYTES,
    ensures
        r@ == base64_of(bytes@),
        r@.len() == 4 * ((bytes@.len() + 2) / 3),
{
    base64::prelude::BASE64_STANDARD.encode(bytes)
}

/// The data URI that carries an image inline: the JPEG MIME tag, then the
/// base64 payload.
pub open spec fn data_uri_text(img: Seq<u8>) -> Seq<char> {
    "data:image/jpeg;base64,"@ + base64_of(img)
}

/// Builds the inline data URI for the given image bytes.
pub fn image_data_uri(img: &Vec<u8>) -> (r: String)
    requires
        img@.len() <= MAX_IMAGE_BYTES,
    ensures
        r@ == data_uri_text(img@),
{
    let mut s = String::from_str("data:image/jpeg;base64,");
    let payload = encode_base64(img);
    s.append(payload.as_str());
    s
}

/// Law: the image content path always base64-encodes the image bytes and
/// always tags them with the JPEG MIME type — the data URI is exactly the
/// literal prefix `data:image/jpeg;base64,` followed by the standard base64
/// encoding of the bytes, for every image.
pub proof fn lemma_data_uri_shape(img: Seq<u8>)
    ensures
        data_uri_text(img).len() == 23 + base64_of(img).len(),
        data_uri_text(img).subrange(0, 23) == "data:image/jpeg;base64,"@,
        data_uri_text(img).skip(23) == base64_of(img),
{
    reveal_strlit("data:image/jpeg;base64,");
    assert(data_uri_text(img).subrange(0, 23) =~= "data:image/jpeg;base64,"@);
    assert(data_uri_text(img).skip(23) =~= base64_of(img));
}

/// Builds the extraction request content for a payload, given the current
/// date: a single text block carrying the instructions and the literal
/// text, or the image instruction plus the image's inline data URI.
pub fn build_request(payload: &InputPayload, now: &str) -> (r: RequestContent)
    requires
        payload matches InputPayload::ImageBytes(img) ==> img@.len() <= MAX_IMAGE_BYTES,
    ensures
        payload matches InputPayload::RawText(t) ==> (r matches RequestContent::TextBlock(block)
            && block@ == text_request_text(now@, t@)),
        payload matches InputPayload::ImageBytes(img) ==> (r matches RequestContent::ImageParts {
            instruction,
            image_data_uri,
        } && instruction@ == image_instruction_text(now@) && image_data_uri@ == data_uri_text(
            img@,
        )),
{
    match payload {
        InputPayload::RawText(t) => RequestContent::TextBlock(build_text_request(now, t.as_str())),
        InputPayload::ImageBytes(img) => RequestContent::ImageParts {
            instruction: build_image_instruction(now),
            image_data_uri: image_data_uri(img),
        },
    }
}

} // verus!
