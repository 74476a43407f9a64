use weather_agent::chat::chat_response;

#[test]
fn success_answer_passes_through() {
    let r = chat_response(Ok(String::from("Sunny, 22 degrees in Lisbon.")));
    assert_eq!(r.answer, "Sunny, 22 degrees in Lisbon.");
}

#[test]
fn success_answer_is_nonempty() {
    let r = chat_response(Ok(String::from("Light rain in Oslo.")));
    assert!(!r.answer.is_empty());
}

#[test]
fn failed_call_yields_error_prefix() {
    let r = chat_response(Err(String::from("connection reset by peer")));
    assert_eq!(r.answer, "Error: connection reset by peer");
    assert!(r.answer.starts_with("Error:"));
}

#[test]
fn failed_call_with_empty_rendering_still_has_prefix() {
    let r = chat_response(Err(String::new()));
    assert_eq!(r.answer, "Error: ");
    assert!(r.answer.starts_with("Error:"));
    assert!(!r.answer.is_empty());
}

#[test]
fn empty_success_answer_passes_through_unchanged() {
    let r = chat_response(Ok(String::new()));
    assert_eq!(r.answer, "");
}
