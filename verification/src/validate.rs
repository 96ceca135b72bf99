//! The advisory result validator: a best-effort parse of the returned text
//! against the iCal grammar. Failure is observed, never enforced — the
//! original text is always returned unmodified, whatever the check says.

use vstd::prelude::*;

verus! {

// Whether `icalendar::parser::read_calendar` accepts the text as a
// calendar: a function of the characters alone.
pub uninterp spec fn calendar_parses(s: Seq<char>) -> bool;

/// Relies on `icalendar::parser::read_calendar`: it returns `Ok` exactly on
/// text it can parse as a calendar, a function of the characters alone, and
/// reports malformed input as an error rather than panicking.
#[verifier::external_body]
fn calendar_parse_check(text: &str) -> (r: bool)
    ensures
        r == calendar_parses(text@),
{
    icalendar::parser::read_calendar(text).is_ok()
}

/// Extraction output together with the advisory verdict on it.
pub struct ValidatedText {
    /// The extraction output, exactly as the integration returned it.
    pub text: String,
    /// Whether the text parsed under the calendar grammar. Observability
    /// only: it never alters the text or the response.
    pub grammar_ok: bool,
}

/// Law, as this function's contract: validation is advisory. The returned
/// text is the input unmodified — whether or not the grammar check passes —
/// and the verdict is reported beside it, only to be logged.
pub fn advisory_validate(text: String) -> (r: ValidatedText)
    ensures
        r.text@ == text@,
        r.grammar_ok == calendar_parses(text@),
{
    let grammar_ok = calendar_parse_check(text.as_str());
    ValidatedText { text, grammar_ok }
}

} // verus!
