//! The range of a video that is kept, in whole seconds.

use crate::error::{Error, ErrorView};
use crate::laws::law_before_agrees_with_resolved;
use crate::timestamp::Timestamp;
use vstd::prelude::*;

verus! {

/// The offset at which the kept part ends: where the end timestamp resolves
/// to, but never past the end of the video.
pub open spec fn clipped_end(end: Timestamp, video_length: int) -> int {
    if end.resolved(video_length) > video_length {
        video_length
    } else {
        end.resolved(video_length)
    }
}

/// Resolves the two ends of the range to keep.
///
/// The range is refused where the end timestamp is before the start
/// timestamp. Otherwise the start is resolved as it is, and an end that lies
/// past the end of the video is taken for the end of the video.
pub fn trim_range(start: &Timestamp, end: &Timestamp, video_length: i32) -> (result: Result<
    (i32, i32),
    Error,
>)
    requires
        start.wf(),
        end.wf(),
        0 <= video_length,
    ensures
        match result {
            Ok((from, to)) => {
                &&& !end.before(*start, video_length as int)
                &&& from == start.resolved(video_length as int)
                &&& to == clipped_end(*end, video_length as int)
                &&& from <= video_length ==> from <= to
            },
            Err(error) => {
                &&& end.before(*start, video_length as int)
                &&& error@ == ErrorView::EndTimestampBeforeStartTimestamp
            },
        },
{
    if end.is_before(start, video_length) {
        return Err(Error::EndTimestampBeforeStartTimestamp);
    }
    proof {
        law_before_agrees_with_resolved(*end, *start, video_length as int);
    }
    let from = start.to_seconds(video_length);
    let to = if end.to_seconds(video_length) > video_length {
        Timestamp::End.to_seconds(video_length)
    } else {
        end.to_seconds(video_length)
    };
    Ok((from, to))
}

} // verus!
