use vstd::prelude::*;
use vstd::std_specs::convert::FromSpecImpl;

verus! {

/// The failures a run can report.
///
/// `RegexParserError` is the failure of the patterns: one of them does not
/// compile, or none of them matches a line. The others end a run.
#[derive(Debug, Clone, Copy, PartialEq, Eq, Structural)]
pub enum LogParserError {
    RegexParserError,
    ReadFileError,
    SerializationError,
    StringfyError,
    UnexpectedError,
}

impl LogParserError {
    /// The sentence shown to a reader for this failure.
    pub open spec fn message(self) -> Seq<char> {
        match self {
            LogParserError::RegexParserError => "An error has happened on Regex Parsing Step..."@,
            LogParserError::ReadFileError => "An error has happened Reading Log File..."@,
            LogParserError::SerializationError => "An error has happened on Serialization..."@,
            LogParserError::StringfyError => "An error has happened on Stringfication Process..."@,
            LogParserError::UnexpectedError => "An unexpected error has happened on Log Parsing..."@,
        }
    }

    /// The short description of this failure. For a failed read it is a
    /// template with a `{}` left open for the underlying cause.
    pub open spec fn description_text(self) -> Seq<char> {
        match self {
            LogParserError::ReadFileError => "The following Error {} has happened Reading Log File..."@,
            _ => self.message(),
        }
    }

    /// The stable tag that names this failure to observers.
    pub open spec fn tag(self) -> Seq<char> {
        match self {
            LogParserError::RegexParserError => "LogParserError::RegexParserError"@,
            LogParserError::ReadFileError => "LogParserError::ReadFileError"@,
            LogParserError::SerializationError => "LogParserError::SerializationError"@,
            LogParserError::StringfyError => "LogParserError::StringfyError"@,
            LogParserError::UnexpectedError => "LogParserError::UnexpectedError"@,
        }
    }

    /// Renders the failure as the sentence shown to a reader.
    pub fn to_string(&self) -> (text: String)
        ensures
            text@ == self.message(),
    {
        match self {
            LogParserError::RegexParserError => "An error has happened on Regex Parsing Step...".to_string(),
            LogParserError::ReadFileError => "An error has happened Reading Log File...".to_string(),
            LogParserError::SerializationError => "An error has happened on Serialization...".to_string(),
            LogParserError::StringfyError => "An error has happened on Stringfication Process...".to_string(),
            LogParserError::UnexpectedError => "An unexpected error has happened on Log Parsing...".to_string(),
        }
    }

    pub fn description(&self) -> (text: &'static str)
        ensures
            text@ == self.description_text(),
    {
        match self {
            LogParserError::RegexParserError => "An error has happened on Regex Parsing Step...",
            LogParserError::ReadFileError => "The following Error {} has happened Reading Log File...",
            LogParserError::SerializationError => "An error has happened on Serialization...",
            LogParserError::StringfyError => "An error has happened on Stringfication Process...",
            LogParserError::UnexpectedError => "An unexpected error has happened on Log Parsing...",
        }
    }
}

impl From<LogParserError> for &'static str {
    fn from(error: LogParserError) -> (tag: &'static str) {
        match error {
            LogParserError::RegexParserError => "LogParserError::RegexParserError",
            LogParserError::ReadFileError => "LogParserError::ReadFileError",
            LogParserError::SerializationError => "LogParserError::SerializationError",
            LogParserError::StringfyError => "LogParserError::StringfyError",
            LogParserError::UnexpectedError => "LogParserError::UnexpectedError",
        }
    }
}

impl FromSpecImpl<LogParserError> for &'static str {
    open spec fn obeys_from_spec() -> bool {
        true
    }

    open spec fn from_spec(error: LogParserError) -> &'static str {
        match error {
            LogParserError::RegexParserError => "LogParserError::RegexParserError",
            LogParserError::ReadFileError => "LogParserError::ReadFileError",
            LogParserError::SerializationError => "LogParserError::SerializationError",
            LogParserError::StringfyError => "LogParserError::StringfyError",
            LogParserError::UnexpectedError => "LogParserError::UnexpectedError",
        }
    }
}

/// Why a single line was set aside. None of these ends a run.
#[derive(Debug, Clone, Copy, PartialEq, Eq, Structural)]
pub enum LineFailure {
    /// No pattern recognises the line.
    Classification,
    /// The kind of the line is known, but its fields cannot be taken apart.
    Capture,
    /// The kill was counted and scored, but its cause of death is not a
    /// known one.
    UnknownCause,
}

impl LineFailure {
    /// The stable tag that names this kind of failure to observers.
    pub open spec fn tag(self) -> Seq<char> {
        match self {
            LineFailure::Classification => "ClassificationFailure"@,
            LineFailure::Capture => "CaptureFailure"@,
            LineFailure::UnknownCause => "UnknownCauseFailure"@,
        }
    }

    /// No two kinds of failure share a tag: the kind can be read from the
    /// tag.
    pub proof fn lemma_tag_injective(self, other: LineFailure)
        requires
            self.tag() == other.tag(),
        ensures
            self == other,
    {
        reveal_strlit("ClassificationFailure");
        reveal_strlit("CaptureFailure");
        reveal_strlit("UnknownCauseFailure");
        assert("ClassificationFailure"@.len() == 21);
        assert("CaptureFailure"@.len() == 14);
        assert("UnknownCauseFailure"@.len() == 19);
    }
}

impl From<LineFailure> for &'static str {
    fn from(failure: LineFailure) -> (tag: &'static str) {
        match failure {
            LineFailure::Classification => "ClassificationFailure",
            LineFailure::Capture => "CaptureFailure",
            LineFailure::UnknownCause => "UnknownCauseFailure",
        }
    }
}

impl FromSpecImpl<LineFailure> for &'static str {
    open spec fn obeys_from_spec() -> bool {
        true
    }

    open spec fn from_spec(failure: LineFailure) -> &'static str {
        match failure {
            LineFailure::Classification => "ClassificationFailure",
            LineFailure::Capture => "CaptureFailure",
            LineFailure::UnknownCause => "UnknownCauseFailure",
        }
    }
}

} // verus!
