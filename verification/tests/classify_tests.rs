use ics_extract::classify::{classify_text, InputRoute};

#[test]
fn url_routes_to_screenshot() {
    match classify_text("https://example.com/event") {
        InputRoute::PageUrl { url } => assert_eq!(url, "https://example.com/event"),
        InputRoute::FreeText { .. } => panic!("absolute URL must take the screenshot path"),
    }
}

#[test]
fn url_is_normalized() {
    match classify_text("https://example.com") {
        InputRoute::PageUrl { url } => assert_eq!(url, "https://example.com/"),
        InputRoute::FreeText { .. } => panic!("absolute URL must take the screenshot path"),
    }
}

#[test]
fn free_text_routes_directly() {
    match classify_text("Dinner with Alex tomorrow at 7pm") {
        InputRoute::PageUrl { .. } => panic!("plain text must take the direct path"),
        InputRoute::FreeText { text } => assert_eq!(text, "Dinner with Alex tomorrow at 7pm"),
    }
}

#[test]
fn url_input_is_trimmed_before_parsing() {
    match classify_text("   https://example.com/event  ") {
        InputRoute::PageUrl { url } => assert_eq!(url, "https://example.com/event"),
        InputRoute::FreeText { .. } => panic!("padded URL must still parse after trimming"),
    }
}

#[test]
fn text_input_is_trimmed() {
    match classify_text("  lunch at noon  ") {
        InputRoute::PageUrl { .. } => panic!("plain text must take the direct path"),
        InputRoute::FreeText { text } => assert_eq!(text, "lunch at noon"),
    }
}

#[test]
fn empty_text_is_free_text() {
    match classify_text("") {
        InputRoute::PageUrl { .. } => panic!("the empty string is no URL"),
        InputRoute::FreeText { text } => assert_eq!(text, ""),
    }
}

#[test]
fn relative_reference_is_free_text() {
    match classify_text("example.com/event") {
        InputRoute::PageUrl { .. } => panic!("a scheme-less reference is no absolute URL"),
        InputRoute::FreeText { text } => assert_eq!(text, "example.com/event"),
    }
}
