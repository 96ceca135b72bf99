//! Error taxonomy of the pipeline and its mapping to client-visible
//! responses.
//!
//! Every internal failure is converted to one of two client-visible shapes:
//! a caller-caused failure (status 400) or a server-side failure (status
//! 500). The detailed cause is never echoed to the client; only a generic
//! message is, so that credential or infrastructure detail cannot leak.

use vstd::prelude::*;

verus! {

/// The ways one conversion request can fail. Each variant is caller-caused
/// or server-side; `is_client_fault` draws that line.
#[derive(Clone, Copy, Debug, PartialEq, Eq, Structural)]
pub enum PipelineError {
    /// The multipart request carried no readable file part.
    MissingImage,
    /// The uploaded or fetched bytes do not decode as a JPEG image.
    UndecodableImage,
    /// The screenshot provider failed (transport, credential, timeout).
    ScreenshotFailed,
    /// The language-model call itself failed (transport, credential, status).
    ExtractionFailed,
    /// The language-model call succeeded but returned no usable text.
    NoResponseContent,
}

/// A caller-caused failure gets status 400; everything else gets 500.
pub open spec fn is_client_fault(e: PipelineError) -> bool {
    e is MissingImage || e is UndecodableImage
}

/// The only two bodies a failed request may carry.
pub open spec fn client_message_of(e: PipelineError) -> Seq<char> {
    if is_client_fault(e) {
        "Failed to read image file"@
    } else {
        "Internal server error"@
    }
}

/// The status code of a failed request: 400 for caller-caused, 500 otherwise.
pub open spec fn status_of(e: PipelineError) -> u16 {
    if is_client_fault(e) {
        400u16
    } else {
        500u16
    }
}

/// Law: information hygiene. Whatever the detailed cause, the client sees
/// one of exactly two generic bodies and one of exactly two status codes,
/// and the caller-fault line decides which — the raw upstream error text is
/// never part of a response.
pub proof fn lemma_error_response_is_generic(e: PipelineError)
    ensures
        client_message_of(e) == "Failed to read image file"@ || client_message_of(e)
            == "Internal server error"@,
        status_of(e) == 400 || status_of(e) == 500,
        status_of(e) == 400 <==> is_client_fault(e),
        status_of(e) == 400 <==> client_message_of(e) == "Failed to read image file"@,
{
    if is_client_fault(e) {
        assert(client_message_of(e) == "Failed to read image file"@);
    } else {
        reveal_strlit("Failed to read image file");
        reveal_strlit("Internal server error");
        assert(client_message_of(e) == "Internal server error"@);
        assert(client_message_of(e) != "Failed to read image file"@);
    }
}

impl PipelineError {
    /// The HTTP status to answer with: 400 for caller-caused failures,
    /// 500 for everything else.
    pub fn status_code(&self) -> (r: u16)
        ensures
            r == status_of(*self),
    {
        match self {
            PipelineError::MissingImage => 400,
            PipelineError::UndecodableImage => 400,
            PipelineError::ScreenshotFailed => 500,
            PipelineError::ExtractionFailed => 500,
            PipelineError::NoResponseContent => 500,
        }
    }

    /// The generic body sent to the client. Never the detailed cause.
    pub fn client_message(&self) -> (r: String)
        ensures
            r@ == client_message_of(*self),
    {
        match self {
            PipelineError::MissingImage => String::from_str("Failed to read image file"),
            PipelineError::UndecodableImage => String::from_str("Failed to read image file"),
            PipelineError::ScreenshotFailed => String::from_str("Internal server error"),
            PipelineError::ExtractionFailed => String::from_str("Internal server error"),
            PipelineError::NoResponseContent => String::from_str("Internal server error"),
        }
    }
}

} // verus!
