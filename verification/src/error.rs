//! Everything that can go wrong while a video is trimmed, each with the
//! sentence shown to the user.

use crate::timestamp::TimestampError;
use vstd::prelude::*;
use vstd::std_specs::convert::FromSpecImpl;
use vstd::string::StringExecFns;

verus! {

/// A failure of the tool. The first three come from reading a timestamp; the
/// others from the files and programs around it.
#[derive(Debug, PartialEq, Eq)]
pub enum Error {
    PercentageOutOfRange(String),
    InvalidTime(String),
    NoTimestampMatch,
    InvalidExtension,
    InputFileDoesntExist,
    EndTimestampBeforeStartTimestamp,
    OutputFileExists,
    FfpmegError,
    FfpmegNotInstalled,
    FfprobeNotInstalled,
    InvalidPath(String),
    InvalidData(String),
}

/// An `Error` with its text as a sequence of characters.
pub enum ErrorView {
    PercentageOutOfRange(Seq<char>),
    InvalidTime(Seq<char>),
    NoTimestampMatch,
    InvalidExtension,
    InputFileDoesntExist,
    EndTimestampBeforeStartTimestamp,
    OutputFileExists,
    FfpmegError,
    FfpmegNotInstalled,
    FfprobeNotInstalled,
    InvalidPath(Seq<char>),
    InvalidData(Seq<char>),
}

impl View for Error {
    type V = ErrorView;

    open spec fn view(&self) -> ErrorView {
        match self {
            Error::PercentageOutOfRange(text) => ErrorView::PercentageOutOfRange(text@),
            Error::InvalidTime(text) => ErrorView::InvalidTime(text@),
            Error::NoTimestampMatch => ErrorView::NoTimestampMatch,
            Error::InvalidExtension => ErrorView::InvalidExtension,
            Error::InputFileDoesntExist => ErrorView::InputFileDoesntExist,
            Error::EndTimestampBeforeStartTimestamp => ErrorView::EndTimestampBeforeStartTimestamp,
            Error::OutputFileExists => ErrorView::OutputFileExists,
            Error::FfpmegError => ErrorView::FfpmegError,
            Error::FfpmegNotInstalled => ErrorView::FfpmegNotInstalled,
            Error::FfprobeNotInstalled => ErrorView::FfprobeNotInstalled,
            Error::InvalidPath(text) => ErrorView::InvalidPath(text@),
            Error::InvalidData(text) => ErrorView::InvalidData(text@),
        }
    }
}

impl ErrorView {
    /// The sentence shown to the user.
    pub open spec fn message(self) -> Seq<char> {
        match self {
            ErrorView::PercentageOutOfRange(text) => text,
            ErrorView::InvalidTime(text) => text,
            ErrorView::NoTimestampMatch => "Provided timestamp did not match the format (HH:MM:SS) or (NN) for number of seconds or (NN%) for percentage"@,
            ErrorView::InvalidExtension => "Provided file has an invalid or unknown video file extension"@,
            ErrorView::InputFileDoesntExist => "Provided video file does not exist"@,
            ErrorView::EndTimestampBeforeStartTimestamp => "Provided end timestamp is before start timestamp"@,
            ErrorView::OutputFileExists => "Output file already exists"@,
            ErrorView::FfpmegError => "An error occurred while running ffmpeg"@,
            ErrorView::FfpmegNotInstalled => "Ffmpeg is not installed, please install it and try again"@,
            ErrorView::FfprobeNotInstalled => "Ffprobe is not installed, please install it and try again"@,
            ErrorView::InvalidPath(text) => "Invalid path: "@ + text,
            ErrorView::InvalidData(text) => "Invalid data: "@ + text,
        }
    }
}

impl Error {
    /// The sentence shown to the user.
    pub fn message(&self) -> (text: String)
        ensures
            text@ == self@.message(),
    {
        match self {
            Error::PercentageOutOfRange(text) => text.clone(),
            Error::InvalidTime(text) => text.clone(),
            Error::NoTimestampMatch => "Provided timestamp did not match the format (HH:MM:SS) or (NN) for number of seconds or (NN%) for percentage".to_owned(),
            Error::InvalidExtension => "Provided file has an invalid or unknown video file extension".to_owned(),
            Error::InputFileDoesntExist => "Provided video file does not exist".to_owned(),
            Error::EndTimestampBeforeStartTimestamp => "Provided end timestamp is before start timestamp".to_owned(),
            Error::OutputFileExists => "Output file already exists".to_owned(),
            Error::FfpmegError => "An error occurred while running ffmpeg".to_owned(),
            Error::FfpmegNotInstalled => "Ffmpeg is not installed, please install it and try again".to_owned(),
            Error::FfprobeNotInstalled => "Ffprobe is not installed, please install it and try again".to_owned(),
            Error::InvalidPath(text) => "Invalid path: ".to_owned().concat(text.as_str()),
            Error::InvalidData(text) => "Invalid data: ".to_owned().concat(text.as_str()),
        }
    }
}

impl From<TimestampError> for Error {
    /// Carries a failure to read a timestamp over, with its sentence.
    fn from(error: TimestampError) -> (converted: Error) {
        match error {
            TimestampError::PercentageOutOfRange(text) => Error::PercentageOutOfRange(text),
            TimestampError::InvalidTime(text) => Error::InvalidTime(text),
            TimestampError::NoMatch => Error::NoTimestampMatch,
        }
    }
}

impl FromSpecImpl<TimestampError> for Error {
    open spec fn obeys_from_spec() -> bool {
        true
    }

    open spec fn from_spec(error: TimestampError) -> Error {
        match error {
            TimestampError::PercentageOutOfRange(text) => Error::PercentageOutOfRange(text),
            TimestampError::InvalidTime(text) => Error::InvalidTime(text),
            TimestampError::NoMatch => Error::NoTimestampMatch,
        }
    }
}

} // verus!
