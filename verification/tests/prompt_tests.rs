use ics_extract::prompt::{build_common_prompt, build_image_instruction, build_text_request};

fn expected_common(now: &str) -> String {
    format!(
        "Extract the information and format it in text format according to the iCal specification.\nReturn nothing but that text.\nIf date info is missing, such as the current year, month or day, fill it in from the current date, which is {}.\nIf no wall clock time is mentioned, make it an all-day event.\nAssume event times are in Europe/Berlin aka CEST timezone.\nPay attention to events spanning multiple days, and recurring events.\nIf only a start time is mentioned but no end time, assume one hour duration.",
        now
    )
}

#[test]
fn common_prompt_exact_text() {
    assert_eq!(build_common_prompt("2025-06-01"), expected_common("2025-06-01"));
}

#[test]
fn image_instruction_exact_text() {
    let expected = format!(
        "The following is a picture containing information for an event. {}\nThe image is shown below.",
        expected_common("2025-06-01")
    );
    assert_eq!(build_image_instruction("2025-06-01"), expected);
}

#[test]
fn text_request_exact_text() {
    let expected = format!(
        "The following is the textual description of an event. {}\nThe text is:\n\n{}",
        expected_common("2025-06-01"),
        "Dinner with Alex tomorrow at 7pm"
    );
    assert_eq!(
        build_text_request("2025-06-01", "Dinner with Alex tomorrow at 7pm"),
        expected
    );
}

#[test]
fn prompt_builder_is_deterministic() {
    let a = build_text_request("2025-06-01", "team offsite next friday");
    let b = build_text_request("2025-06-01", "team offsite next friday");
    assert_eq!(a, b);
    let c = build_image_instruction("2025-06-01");
    let d = build_image_instruction("2025-06-01");
    assert_eq!(c, d);
}

#[test]
fn prompt_reflects_given_date() {
    let a = build_common_prompt("2025-06-01");
    let b = build_common_prompt("2026-12-31");
    assert!(a.contains("2025-06-01"));
    assert!(b.contains("2026-12-31"));
    assert_ne!(a, b);
}
