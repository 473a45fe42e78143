use log_parser::errors::{LineFailure, LogParserError};

#[test]
fn error_messages_are_the_documented_sentences() {
    assert_eq!(
        LogParserError::RegexParserError.to_string(),
        "An error has happened on Regex Parsing Step..."
    );
    assert_eq!(
        LogParserError::ReadFileError.to_string(),
        "An error has happened Reading Log File..."
    );
    assert_eq!(
        LogParserError::SerializationError.to_string(),
        "An error has happened on Serialization..."
    );
    assert_eq!(
        LogParserError::StringfyError.to_string(),
        "An error has happened on Stringfication Process..."
    );
    assert_eq!(
        LogParserError::UnexpectedError.to_string(),
        "An unexpected error has happened on Log Parsing..."
    );
}

#[test]
fn description_of_a_failed_read_is_a_template() {
    assert_eq!(
        LogParserError::ReadFileError.description(),
        "The following Error {} has happened Reading Log File..."
    );
    assert_eq!(
        LogParserError::RegexParserError.description(),
        "An error has happened on Regex Parsing Step..."
    );
    assert_eq!(
        LogParserError::SerializationError.description(),
        "An error has happened on Serialization..."
    );
    assert_eq!(
        LogParserError::StringfyError.description(),
        "An error has happened on Stringfication Process..."
    );
    assert_eq!(
        LogParserError::UnexpectedError.description(),
        "An unexpected error has happened on Log Parsing..."
    );
}

#[test]
fn errors_convert_to_their_tags() {
    let tag: &'static str = LogParserError::RegexParserError.into();
    assert_eq!(tag, "LogParserError::RegexParserError");
    let tag: &'static str = LogParserError::ReadFileError.into();
    assert_eq!(tag, "LogParserError::ReadFileError");
    let tag: &'static str = LogParserError::SerializationError.into();
    assert_eq!(tag, "LogParserError::SerializationError");
    let tag: &'static str = LogParserError::StringfyError.into();
    assert_eq!(tag, "LogParserError::StringfyError");
    let tag: &'static str = LogParserError::UnexpectedError.into();
    assert_eq!(tag, "LogParserError::UnexpectedError");
}

#[test]
fn each_kind_of_line_failure_has_a_tag_of_its_own() {
    let tag: &'static str = LineFailure::Classification.into();
    assert_eq!(tag, "ClassificationFailure");
    let tag: &'static str = LineFailure::Capture.into();
    assert_eq!(tag, "CaptureFailure");
    let tag: &'static str = LineFailure::UnknownCause.into();
    assert_eq!(tag, "UnknownCauseFailure");
}
