//! The extraction prompt builder: a deterministic instruction block,
//! parameterized by the current UTC date and by the input modality (image
//! or text). The instructions direct the model to emit iCal text only, to
//! fill missing date components from the supplied current date, to default
//! to all-day events and one-hour durations, and to assume the
//! Europe/Berlin timezone.

use vstd::prelude::*;

verus! {

/// Whether the input handed to the extraction step is an image or text.
#[derive(Clone, Copy, Debug, PartialEq, Eq, Structural)]
pub enum Modality {
    Image,
    Text,
}

/// The instruction block common to both modalities, with the current date
/// spliced in. The date-filling instruction always reflects the value the
/// caller passes for the invocation, never a cached one.
pub open spec fn common_prompt_text(now: Seq<char>) -> Seq<char> {
    "Extract the information and format it in text format according to the iCal specification.\nReturn nothing but that text.\nIf date info is missing, such as the current year, month or day, fill it in from the current date, which is "@
        + now
        + ".\nIf no wall clock time is mentioned, make it an all-day event.\nAssume event times are in Europe/Berlin aka CEST timezone.\nPay attention to events spanning multiple days, and recurring events.\nIf only a start time is mentioned but no end time, assume one hour duration."@
}

/// The instruction sent alongside an image: framing text announcing a
/// picture, then the common instructions.
pub open spec fn image_instruction_text(now: Seq<char>) -> Seq<char> {
    "The following is a picture containing information for an event. "@ + common_prompt_text(now)
        + "\nThe image is shown below."@
}

/// The single text block sent for a textual description: framing text, the
/// common instructions, then the literal input text.
pub open spec fn text_request_text(now: Seq<char>, input: Seq<char>) -> Seq<char> {
    "The following is the textual description of an event. "@ + common_prompt_text(now)
        + "\nThe text is:\n\n"@ + input
}

/// Builds the common instruction block for the given current date.
pub fn build_common_prompt(now: &str) -> (r: String)
    ensures
        r@ == common_prompt_text(now@),
{
    let mut s = String::from_str(
        "Extract the information and format it in text format according to the iCal specification.\nReturn nothing but that text.\nIf date info is missing, such as the current year, month or day, fill it in from the current date, which is ",
    );
    s.append(now);
    s.append(
        ".\nIf no wall clock time is mentioned, make it an all-day event.\nAssume event times are in Europe/Berlin aka CEST timezone.\nPay attention to events spanning multiple days, and recurring events.\nIf only a start time is mentioned but no end time, assume one hour duration.",
    );
    proof {
        assert(s@ =~= common_prompt_text(now@));
    }
    s
}

/// Builds the image-modality instruction for the given current date.
pub fn build_image_instruction(now: &str) -> (r: String)
    ensures
        r@ == image_instruction_text(now@),
{
    let mut s = String::from_str("The following is a picture containing information for an event. ");
    let common = build_common_prompt(now);
    s.append(common.as_str());
    s.append("\nThe image is shown below.");
    proof {
        assert(s@ =~= image_instruction_text(now@));
    }
    s
}

/// Builds the text-modality request block for the given current date and
/// the literal input text.
pub fn build_text_request(now: &str, input: &str) -> (r: String)
    ensures
        r@ == text_request_text(now@, input@),
{
    let mut s = String::from_str("The following is the textual description of an event. ");
    let common = build_common_prompt(now);
    s.append(common.as_str());
    s.append("\nThe text is:\n\n");
    s.append(input);
    proof {
        assert(s@ =~= text_request_text(now@, input@));
    }
    s
}

/// Law: the prompt builder is deterministic. For a fixed timestamp and
/// modality (and, for the text modality, a fixed input text), the built
/// prompt text is byte-identical across invocations: it is a function of
/// those values alone.
pub proof fn lemma_prompt_builder_deterministic(
    now1: Seq<char>,
    now2: Seq<char>,
    input1: Seq<char>,
    input2: Seq<char>,
)
    requires
        now1 == now2,
        input1 == input2,
    ensures
        common_prompt_text(now1) == common_prompt_text(now2),
        image_instruction_text(now1) == image_instruction_text(now2),
        text_request_text(now1, input1) == text_request_text(now2, input2),
{
}

} // verus!
