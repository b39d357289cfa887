//! A point on a media timeline, and how two such points are ordered.

use crate::grammar::{
    clock_fields, clock_numbers, lemma_clock_fields_bound, lemma_seconds_field_bound,
    match_hh_mm_ss, match_percentage, match_seconds, percentage_field, percentage_number,
    seconds_field, seconds_number,
};
use vstd::prelude::*;

verus! {

/// A point on the timeline of a video.
///
/// `Start` and `End` carry no number: what they mean is fixed only once a
/// duration is known. `Seconds` is an absolute offset, `Percentage` a share of
/// the total length.
#[derive(Debug, Clone, Copy, PartialEq, Eq, Structural)]
pub enum Timestamp {
    Start,
    End,
    Seconds(i32),
    Percentage(i32),
}

/// Why a token was not turned into a timestamp.
///
/// `NoMatch` says that the token has none of the three shapes. The other two
/// say that the shape was right and a number in it was not, and carry a
/// sentence for the user that names the number.
#[derive(Debug, PartialEq, Eq)]
pub enum TimestampError {
    PercentageOutOfRange(String),
    InvalidTime(String),
    NoMatch,
}

/// A `TimestampError` with its sentence as a sequence of characters.
pub enum TimestampErrorView {
    PercentageOutOfRange(Seq<char>),
    InvalidTime(Seq<char>),
    NoMatch,
}

impl View for TimestampError {
    type V = TimestampErrorView;

    open spec fn view(&self) -> TimestampErrorView {
        match self {
            TimestampError::PercentageOutOfRange(text) => TimestampErrorView::PercentageOutOfRange(
                text@,
            ),
            TimestampError::InvalidTime(text) => TimestampErrorView::InvalidTime(text@),
            TimestampError::NoMatch => TimestampErrorView::NoMatch,
        }
    }
}

/// The sentence for a percentage above 100.
pub open spec fn percentage_too_high() -> Seq<char> {
    "Percentage cannot be greater than 100%"@
}

/// The sentence for a percentage below 0.
pub open spec fn percentage_too_low() -> Seq<char> {
    "Percentage cannot be lower than 0%"@
}

/// The sentence for a minutes field above 59.
pub open spec fn minutes_too_high() -> Seq<char> {
    "Provided value for minutes cannot be greater than 60"@
}

/// The sentence for a seconds field above 59.
pub open spec fn seconds_too_high() -> Seq<char> {
    "Provided value for seconds cannot be greater than 60"@
}

/// What a parser returned, with the error by its view.
pub open spec fn outcome(result: Result<Timestamp, TimestampError>) -> Result<
    Timestamp,
    TimestampErrorView,
> {
    match result {
        Ok(timestamp) => Ok(timestamp),
        Err(error) => Err(error@),
    }
}

impl Timestamp {
    /// A valid timestamp has a non-negative offset, or a percentage between
    /// 0 and 100.
    pub open spec fn wf(self) -> bool {
        match self {
            Timestamp::Start => true,
            Timestamp::End => true,
            Timestamp::Seconds(seconds) => 0 <= seconds,
            Timestamp::Percentage(percentage) => 0 <= percentage <= 100,
        }
    }

    /// The offset in whole seconds that this timestamp stands for in a video
    /// of the given length.
    pub open spec fn resolved(self, video_length: int) -> int {
        match self {
            Timestamp::Start => 0,
            Timestamp::End => video_length,
            Timestamp::Seconds(seconds) => seconds as int,
            Timestamp::Percentage(percentage) => (video_length * percentage) / 100,
        }
    }

    /// The time that this timestamp stands for in a video of the given length,
    /// in hundredths of a second and without rounding: a percentage of a
    /// length is a whole number of hundredths.
    pub open spec fn exact_hundredths(self, video_length: int) -> int {
        match self {
            Timestamp::Start => 0,
            Timestamp::End => 100 * video_length,
            Timestamp::Seconds(seconds) => 100 * seconds,
            Timestamp::Percentage(percentage) => video_length * percentage,
        }
    }

    /// Whether `self` comes strictly before `other` in a video of the given
    /// length.
    ///
    /// Two values of the same notation are compared as they are written. A
    /// percentage meets an offset in seconds, or the end of the video, by the
    /// exact share that it takes of the length: nothing is rounded, so in a
    /// video of 5 seconds an offset of 2 is before 50%. Nothing is before
    /// `Start`. `End` is before an offset only when that offset lies past the
    /// end of the video, and a value is before `End` only when it resolves to
    /// less than the length: 100% is not.
    ///
    /// In a video of some length this is the order of the exact times. In a
    /// video of no length, where all percentages and both sentinels fall on
    /// one moment, `Start` is still before `End` and before every percentage
    /// above 0, and percentages are still ordered as written.
    pub open spec fn before(self, other: Timestamp, video_length: int) -> bool {
        match (self, other) {
            (Timestamp::Start, Timestamp::Start) => false,
            (Timestamp::Start, Timestamp::End) => true,
            (Timestamp::Start, Timestamp::Seconds(b)) => 0 < b,
            (Timestamp::Start, Timestamp::Percentage(q)) => 0 < q,
            (Timestamp::End, Timestamp::Start) => false,
            (Timestamp::End, Timestamp::End) => false,
            (Timestamp::End, Timestamp::Seconds(b)) => video_length < b,
            (Timestamp::End, Timestamp::Percentage(q)) => 100 < q,
            (Timestamp::Seconds(_), Timestamp::Start) => false,
            (Timestamp::Seconds(a), Timestamp::End) => a < video_length,
            (Timestamp::Seconds(a), Timestamp::Seconds(b)) => a < b,
            (Timestamp::Seconds(a), Timestamp::Percentage(q)) => 100 * a < video_length * q,
            (Timestamp::Percentage(_), Timestamp::Start) => false,
            (Timestamp::Percentage(_), Timestamp::End) => self.resolved(video_length) < video_length,
            (Timestamp::Percentage(p), Timestamp::Seconds(b)) => video_length * p < 100 * b,
            (Timestamp::Percentage(p), Timestamp::Percentage(q)) => p < q,
        }
    }

    /// The timestamp that a percentage makes, or the bound that it breaks.
    pub open spec fn checked_percentage(percentage: int) -> Result<Timestamp, TimestampErrorView> {
        if percentage > 100 {
            Err(TimestampErrorView::PercentageOutOfRange(percentage_too_high()))
        } else if percentage < 0 {
            Err(TimestampErrorView::PercentageOutOfRange(percentage_too_low()))
        } else {
            Ok(Timestamp::Percentage(percentage as i32))
        }
    }

    /// The timestamp that a clock time makes, in whole seconds, or the field
    /// that is out of range. Minutes are looked at before seconds.
    pub open spec fn checked_clock(hours: int, minutes: int, seconds: int) -> Result<
        Timestamp,
        TimestampErrorView,
    > {
        if minutes > 59 {
            Err(TimestampErrorView::InvalidTime(minutes_too_high()))
        } else if seconds > 59 {
            Err(TimestampErrorView::InvalidTime(seconds_too_high()))
        } else {
            Ok(Timestamp::Seconds((hours * 3600 + minutes * 60 + seconds) as i32))
        }
    }

    /// What a token of plain seconds is read as.
    pub open spec fn parsed_seconds(token: Seq<char>) -> Result<Timestamp, TimestampErrorView> {
        match seconds_field(token) {
            Some(seconds) => Ok(Timestamp::Seconds(seconds as i32)),
            None => Err(TimestampErrorView::NoMatch),
        }
    }

    /// What a token of clock time is read as.
    pub open spec fn parsed_hh_mm_ss(token: Seq<char>) -> Result<Timestamp, TimestampErrorView> {
        match clock_fields(token) {
            Some((hours, minutes, seconds)) => Timestamp::checked_clock(hours, minutes, seconds),
            None => Err(TimestampErrorView::NoMatch),
        }
    }

    /// What a percentage token is read as.
    pub open spec fn parsed_percentage(token: Seq<char>) -> Result<Timestamp, TimestampErrorView> {
        match percentage_field(token) {
            Some(percentage) => Timestamp::checked_percentage(percentage),
            None => Err(TimestampErrorView::NoMatch),
        }
    }

    /// What a token is read as: the three notations are tried in a fixed
    /// order, plain seconds, then clock time, then percentage, and the first
    /// whose shape the token has decides.
    pub open spec fn parsed(token: Seq<char>) -> Result<Timestamp, TimestampErrorView> {
        if seconds_field(token) is Some {
            Timestamp::parsed_seconds(token)
        } else if clock_fields(token) is Some {
            Timestamp::parsed_hh_mm_ss(token)
        } else if percentage_field(token) is Some {
            Timestamp::parsed_percentage(token)
        } else {
            Err(TimestampErrorView::NoMatch)
        }
    }

    /// Reads a trim point from a token.
    pub fn parse_timestamp(timestamp: &str) -> (result: Result<Timestamp, TimestampError>)
        ensures
            outcome(result) == Timestamp::parsed(timestamp@),
            result is Ok ==> result->Ok_0.wf(),
    {
        if match_seconds(timestamp) {
            Timestamp::parse_seconds(timestamp)
        } else if match_hh_mm_ss(timestamp) {
            Timestamp::parse_hh_mm_ss(timestamp)
        } else if match_percentage(timestamp) {
            Timestamp::parse_percentage(timestamp)
        } else {
            Err(TimestampError::NoMatch)
        }
    }

    /// Makes a percentage timestamp, if the number lies between 0 and 100.
    pub fn from_percentage(percentage: i32) -> (result: Result<Timestamp, TimestampError>)
        ensures
            outcome(result) == Timestamp::checked_percentage(percentage as int),
            result is Ok ==> result->Ok_0.wf(),
    {
        if percentage > 100 {
            return Err(
                TimestampError::PercentageOutOfRange(
                    "Percentage cannot be greater than 100%".to_owned(),
                ),
            );
        }
        if percentage < 0 {
            return Err(
                TimestampError::PercentageOutOfRange(
                    "Percentage cannot be lower than 0%".to_owned(),
                ),
            );
        }
        Ok(Timestamp::Percentage(percentage))
    }

    /// Reads a percentage token.
    pub fn parse_percentage(timestamp: &str) -> (result: Result<Timestamp, TimestampError>)
        ensures
            outcome(result) == Timestamp::parsed_percentage(timestamp@),
            result is Ok ==> result->Ok_0.wf(),
    {
        match percentage_number(timestamp) {
            Some(percentage) => Timestamp::from_percentage(percentage),
            None => Err(TimestampError::NoMatch),
        }
    }

    /// Reads a token of clock time.
    pub fn parse_hh_mm_ss(timestamp: &str) -> (result: Result<Timestamp, TimestampError>)
        ensures
            outcome(result) == Timestamp::parsed_hh_mm_ss(timestamp@),
            result is Ok ==> result->Ok_0.wf(),
    {
        match clock_numbers(timestamp) {
            Some((hours, minutes, seconds)) => {
                proof {
                    lemma_clock_fields_bound(timestamp@);
                }
                if minutes > 59 {
                    return Err(
                        TimestampError::InvalidTime(
                            "Provided value for minutes cannot be greater than 60".to_owned(),
                        ),
                    );
                }
                if seconds > 59 {
                    return Err(
                        TimestampError::InvalidTime(
                            "Provided value for seconds cannot be greater than 60".to_owned(),
                        ),
                    );
                }
                let total_seconds = hours * 60 * 60 + minutes * 60 + seconds;
                Ok(Timestamp::Seconds(total_seconds))
            },
            None => Err(TimestampError::NoMatch),
        }
    }

    /// Reads a token of plain seconds.
    pub fn parse_seconds(timestamp: &str) -> (result: Result<Timestamp, TimestampError>)
        ensures
            outcome(result) == Timestamp::parsed_seconds(timestamp@),
            result is Ok ==> result->Ok_0.wf(),
    {
        match seconds_number(timestamp) {
            Some(seconds) => {
                proof {
                    lemma_seconds_field_bound(timestamp@);
                }
                Ok(Timestamp::Seconds(seconds))
            },
            None => Err(TimestampError::NoMatch),
        }
    }

    /// Tells whether the timestamp is valid.
    pub fn is_valid(&self) -> (valid: bool)
        ensures
            valid == self.wf(),
    {
        match self {
            Timestamp::Start => true,
            Timestamp::End => true,
            Timestamp::Seconds(seconds) => 0 <= *seconds,
            Timestamp::Percentage(percentage) => 0 <= *percentage && *percentage <= 100,
        }
    }

    /// Resolves the timestamp to an offset in whole seconds.
    pub fn to_seconds(&self, video_length: i32) -> (seconds: i32)
        requires
            self.wf(),
            0 <= video_length,
        ensures
            seconds == self.resolved(video_length as int),
            0 <= seconds,
            !(*self is Seconds) ==> seconds <= video_length,
    {
        match self {
            Timestamp::Start => 0,
            Timestamp::End => video_length,
            Timestamp::Seconds(seconds) => *seconds,
            Timestamp::Percentage(percentage) => share_of(video_length, *percentage),
        }
    }

    /// Decides whether `self` comes strictly before `other`.
    pub fn is_before(&self, other: &Timestamp, video_length: i32) -> (earlier: bool)
        requires
            self.wf(),
            other.wf(),
            0 <= video_length,
        ensures
            earlier == self.before(*other, video_length as int),
    {
        match self {
            Timestamp::Start => match other {
                Timestamp::Start => false,
                Timestamp::End => true,
                Timestamp::Seconds(other_seconds) => *other_seconds > 0,
                Timestamp::Percentage(other_percent) => *other_percent > 0,
            },
            Timestamp::End => match other {
                Timestamp::End => false,
                Timestamp::Start => false,
                Timestamp::Seconds(other_seconds) => *other_seconds > video_length,
                Timestamp::Percentage(other_percent) => *other_percent > 100,
            },
            Timestamp::Percentage(self_percent) => match other {
                Timestamp::Start => false,
                Timestamp::End => share_of(video_length, *self_percent) < video_length,
                Timestamp::Percentage(other_percent) => *other_percent > *self_percent,
                Timestamp::Seconds(other_seconds) => {
                    exact_share_of(video_length, *self_percent) < 100 * (*other_seconds as i64)
                },
            },
            Timestamp::Seconds(self_seconds) => match other {
                Timestamp::Start => false,
                Timestamp::End => *self_seconds < video_length,
                Timestamp::Percentage(other_percent) => {
                    100 * (*self_seconds as i64) < exact_share_of(video_length, *other_percent)
                },
                Timestamp::Seconds(other_seconds) => *other_seconds > *self_seconds,
            },
        }
    }
}

/// The given percentage of a length in hundredths, with nothing rounded. The
/// product is taken in 64 bits, where it cannot overflow.
fn exact_share_of(video_length: i32, percentage: i32) -> (hundredths: i64)
    requires
        0 <= video_length,
        0 <= percentage <= 100,
    ensures
        hundredths == video_length * percentage,
        0 <= hundredths <= 100 * video_length,
{
    assert(0 <= video_length * percentage <= 100 * video_length) by (nonlinear_arith)
        requires
            0 <= video_length,
            0 <= percentage <= 100,
    ;
    (video_length as i64) * (percentage as i64)
}

/// The given percentage of a length in whole seconds, rounded down.
fn share_of(video_length: i32, percentage: i32) -> (share: i32)
    requires
        0 <= video_length,
        0 <= percentage <= 100,
    ensures
        share == (video_length * percentage) / 100,
        0 <= share <= video_length,
{
    (exact_share_of(video_length, percentage) / 100) as i32
}

} // verus!
