use library::input::{ConsoleInput, PopStep, UserRequest};

#[test]
fn digits_name_commands() {
    assert_eq!(UserRequest::from_str("1"), Ok(UserRequest::Publish));
    assert_eq!(UserRequest::from_str("2"), Ok(UserRequest::Subscribe));
    assert_eq!(UserRequest::from_str("3"), Ok(UserRequest::Disconnect));
}

#[test]
fn other_text_is_refused_in_lower_case() {
    assert_eq!(UserRequest::from_str("4"), Err("4 command invalid".to_string()));
    assert_eq!(UserRequest::from_str("ABC"), Err("abc command invalid".to_string()));
    assert_eq!(UserRequest::from_str(""), Err(" command invalid".to_string()));
    assert_eq!(UserRequest::from_str("11"), Err("11 command invalid".to_string()));
}

#[test]
fn from_lowercase_takes_text_as_is() {
    assert_eq!(UserRequest::from_lowercase("3"), Ok(UserRequest::Disconnect));
    assert_eq!(UserRequest::from_lowercase("Q"), Err("Q command invalid".to_string()));
}

#[test]
fn parse_goes_through_from_str() {
    assert_eq!("1".parse::<UserRequest>(), Ok(UserRequest::Publish));
    assert_eq!("x".parse::<UserRequest>(), Err("x command invalid".to_string()));
}

#[test]
fn a_line_with_white_space_names_its_command() {
    let console = ConsoleInput { buffer: "  2\n".to_string() };
    assert_eq!(console.on_read(Ok(4)), PopStep::Done(UserRequest::Subscribe));
}

#[test]
fn an_invalid_line_is_shown_trimmed_and_lowered() {
    let console = ConsoleInput { buffer: " Hello\r\n".to_string() };
    assert_eq!(
        console.on_read(Ok(8)),
        PopStep::Retry("Error --- hello command invalid".to_string())
    );
}

#[test]
fn a_failed_read_is_shown() {
    let console = ConsoleInput { buffer: "1\n".to_string() };
    assert_eq!(
        console.on_read(Err("stream closed".to_string())),
        PopStep::Retry("Error reading input: stream closed".to_string())
    );
}

#[test]
fn clear_empties_the_buffer() {
    let mut console = ConsoleInput { buffer: "3\n".to_string() };
    console.clear();
    assert_eq!(console.buffer, "");
}
