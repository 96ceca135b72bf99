//! Input classification: decides whether submitted text is a well-formed
//! absolute URL (screenshot path) or a free-form event description (direct
//! text path). A strict parse/no-parse decision, no heuristics.

use vstd::prelude::*;

verus! {

// What std's `str::trim` returns: the input with leading and trailing
// whitespace removed. A function of the characters alone.
pub uninterp spec fn trimmed_of(s: Seq<char>) -> Seq<char>;

// Whether `url::Url::parse` accepts the string as a well-formed absolute
// URL (scheme plus host, per the URL standard's grammar).
pub uninterp spec fn is_absolute_url(s: Seq<char>) -> bool;

// The normalized serialization of the absolute URL that the string parses
// as. Meaningful only where `is_absolute_url` holds of the string.
pub uninterp spec fn url_serialization(s: Seq<char>) -> Seq<char>;

/// Relies on std's `str::trim`: returns the input with leading and trailing
/// whitespace removed, a function of the characters alone.
#[verifier::external_body]
fn trim_text(s: &str) -> (r: String)
    ensures
        r@ == trimmed_of(s@),
{
    s.trim().to_string()
}

/// Relies on `url::Url::parse`, which succeeds exactly on the well-formed
/// absolute URLs, and on the parsed URL's `Display` serialization; both
/// depend on the input string alone and never panic.
#[verifier::external_body]
fn parse_absolute_url(s: &str) -> (r: Option<String>)
    ensures
        r is Some <==> is_absolute_url(s@),
        r matches Some(u) ==> u@ == url_serialization(s@),
{
    match url::Url::parse(s) {
        Ok(u) => Some(u.to_string()),
        Err(_) => None,
    }
}

/// Where a submission goes: to the screenshot path with the normalized URL,
/// or to the direct-text path with the trimmed text.
pub enum InputRoute {
    PageUrl { url: String },
    FreeText { text: String },
}

/// Classifies submitted text after trimming it. The routing decision is a
/// pure function of whether the trimmed text parses as an absolute URL:
/// parseable strings go to the screenshot path, all others are treated as
/// a literal event description.
pub fn classify_text(raw: &str) -> (r: InputRoute)
    ensures
        r is PageUrl <==> is_absolute_url(trimmed_of(raw@)),
        r matches InputRoute::PageUrl { url } ==> url@ == url_serialization(trimmed_of(raw@)),
        r matches InputRoute::FreeText { text } ==> text@ == trimmed_of(raw@),
{
    let trimmed = trim_text(raw);
    match parse_absolute_url(trimmed.as_str()) {
        Some(url) => InputRoute::PageUrl { url },
        None => InputRoute::FreeText { text: trimmed },
    }
}

} // verus!
