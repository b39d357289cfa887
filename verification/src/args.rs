//! What the user asked for: the file to trim, where to put the result, and
//! the two ends of the range to keep.

use crate::error::{Error, ErrorView};
use crate::timestamp::{Timestamp, TimestampErrorView};
use std::path::PathBuf;
use vstd::prelude::*;

verus! {

/// A path as the standard library holds it: `std::path::PathBuf`. The library
/// carries such a value and never looks inside.
#[verifier::external_type_specification]
#[verifier::external_body]
pub struct ExPathBuf(PathBuf);

/// The arguments of one run.
#[derive(Debug, Default)]
pub struct Args {
    /// Path to the video file to be trimmed.
    pub target_file: PathBuf,
    /// Where the kept part starts: `HH:MM:SS`, `MM:SS`, a percentage such as
    /// `25%`, or a number of seconds. The start of the video if absent.
    pub start_timestamp: Option<String>,
    /// Where the kept part ends, written in the same way. The end of the
    /// video if absent.
    pub end_timestamp: Option<String>,
    /// Where the trimmed video goes: a file, or a directory in which a file
    /// name is made up. Beside the input file if absent.
    pub output: Option<PathBuf>,
}

/// The text of an optional argument.
pub open spec fn argument_text(argument: Option<String>) -> Option<Seq<char>> {
    match argument {
        Some(text) => Some(text@),
        None => None,
    }
}

/// The general failure that stands for a failure to read a timestamp.
pub open spec fn general_error(error: TimestampErrorView) -> ErrorView {
    match error {
        TimestampErrorView::PercentageOutOfRange(text) => ErrorView::PercentageOutOfRange(text),
        TimestampErrorView::InvalidTime(text) => ErrorView::InvalidTime(text),
        TimestampErrorView::NoMatch => ErrorView::NoTimestampMatch,
    }
}

/// The timestamp that an argument selects. A given text is read as a
/// timestamp; an absent one stands for the start of the video where the
/// argument opens the range, and for its end where it closes the range.
pub open spec fn selected_timestamp(text: Option<Seq<char>>, start: bool) -> Result<
    Timestamp,
    ErrorView,
> {
    match text {
        Some(token) => match Timestamp::parsed(token) {
            Ok(timestamp) => Ok(timestamp),
            Err(error) => Err(general_error(error)),
        },
        None => if start {
            Ok(Timestamp::Start)
        } else {
            Ok(Timestamp::End)
        },
    }
}

/// What was selected, with the error by its view.
pub open spec fn selection(result: Result<Timestamp, Error>) -> Result<Timestamp, ErrorView> {
    match result {
        Ok(timestamp) => Ok(timestamp),
        Err(error) => Err(error@),
    }
}

impl Args {
    /// The timestamp at which the kept part starts.
    pub fn get_start_timestamp(&self) -> (result: Result<Timestamp, Error>)
        ensures
            selection(result) == selected_timestamp(argument_text(self.start_timestamp), true),
            result is Ok ==> result->Ok_0.wf(),
    {
        get_timestamp(self.start_timestamp.clone(), true)
    }

    /// The timestamp at which the kept part ends.
    pub fn get_end_timestamp(&self) -> (result: Result<Timestamp, Error>)
        ensures
            selection(result) == selected_timestamp(argument_text(self.end_timestamp), false),
            result is Ok ==> result->Ok_0.wf(),
    {
        get_timestamp(self.end_timestamp.clone(), false)
    }
}

/// Reads an optional argument as a timestamp; `start` tells which end of the
/// range it is for.
pub fn get_timestamp(arg_timestamp: Option<String>, start: bool) -> (result: Result<
    Timestamp,
    Error,
>)
    ensures
        selection(result) == selected_timestamp(argument_text(arg_timestamp), start),
        result is Ok ==> result->Ok_0.wf(),
{
    if let Some(timestamp) = arg_timestamp {
        match Timestamp::parse_timestamp(timestamp.as_str()) {
            Ok(parsed) => Ok(parsed),
            Err(error) => Err(Error::from(error)),
        }
    } else {
        if start {
            Ok(Timestamp::Start)
        } else {
            Ok(Timestamp::End)
        }
    }
}

} // verus!
