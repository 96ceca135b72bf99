//! Turns a free-text, URL or image description of an event into iCal text.
//!
//! The pipeline is: classify the input, acquire a screenshot when the input
//! is a URL, build an extraction prompt, send it to a language-model
//! integration, and advisorily validate the returned calendar text. The
//! outbound network calls themselves live outside this crate; everything
//! that decides, builds or checks is here, with contracts.

pub mod cache;
pub mod classify;
pub mod errors;
pub mod pipeline;
pub mod prompt;
pub mod request;
pub mod screenshot;
pub mod validate;
