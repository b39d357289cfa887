//! What holds of every token and of every pair of timestamps: which texts
//! each notation accepts and what it reads them as, and how the ordering of
//! timestamps agrees with the offsets they resolve to.

use crate::grammar::{
    all_digits, clock_fields, decimal_digits, decimal_value, is_clock_field, is_digit,
    is_digit_run, lemma_clock_fields_bound, lemma_decimal_digits, lemma_decimal_digits_len,
    lemma_decimal_value_bound, lemma_digits_hold_no_mark, lemma_percentage_field_bound,
    lemma_pow10_values, lemma_seconds_field_bound, lemma_split_joined, percentage_field,
    seconds_field,
};
use crate::timestamp::{percentage_too_high, Timestamp, TimestampErrorView};
use vstd::prelude::*;

verus! {

/// A token in which something other than a digit or a colon stands before
/// the first colon is not a clock time.
proof fn lemma_stray_character_is_no_clock(token: Seq<char>, at: int)
    requires
        0 <= at < token.len(),
        !is_digit(token[at]),
        forall|j: int| 0 <= j <= at ==> token[j] != ':',
    ensures
        clock_fields(token) is None,
{
    token.index_of_first_ensures(':');
    if let Some(i) = token.index_of_first(':') {
        let head = token.subrange(0, i);
        assert(head[at] == token[at]);
        assert(!all_digits(head));
    }
}

/// No token has the shape of two notations at once.
pub proof fn law_notations_exclusive(token: Seq<char>)
    ensures
        seconds_field(token) is Some ==> clock_fields(token) is None && percentage_field(token)
            is None,
        clock_fields(token) is Some ==> percentage_field(token) is None,
{
    if seconds_field(token) is Some {
        lemma_digits_hold_no_mark(token, ':');
        lemma_digits_hold_no_mark(token, '%');
    }
    if percentage_field(token) is Some {
        token.index_of_first_ensures('%');
        let at = token.index_of_first('%').unwrap();
        let head = token.subrange(0, at);
        assert forall|j: int| 0 <= j <= at implies token[j] != ':' by {
            if j < at {
                assert(is_digit(head[j]));
            }
        }
        lemma_stray_character_is_no_clock(token, at);
    }
}

/// Since no token has two shapes, the order in which the notations are tried
/// decides nothing: a token is read as its one notation reads it.
pub proof fn law_read_by_its_own_notation(token: Seq<char>)
    ensures
        seconds_field(token) is Some ==> Timestamp::parsed(token) == Timestamp::parsed_seconds(
            token,
        ),
        clock_fields(token) is Some ==> Timestamp::parsed(token) == Timestamp::parsed_hh_mm_ss(
            token,
        ),
        percentage_field(token) is Some ==> Timestamp::parsed(token)
            == Timestamp::parsed_percentage(token),
{
    law_notations_exclusive(token);
}

/// A token is refused as of no known shape exactly when it has none of the
/// three shapes. A number out of range in a token of the right shape is
/// reported as such: minutes and seconds for a clock time, the bound for a
/// percentage.
pub proof fn law_errors_tell_shape_from_range(token: Seq<char>)
    ensures
        Timestamp::parsed(token) == Err::<Timestamp, TimestampErrorView>(
            TimestampErrorView::NoMatch,
        ) <==> seconds_field(token) is None && clock_fields(token) is None && percentage_field(
            token,
        ) is None,
        Timestamp::parsed(token) is Err && Timestamp::parsed(token)->Err_0 is InvalidTime
            <==> match clock_fields(token) {
            Some((_, minutes, seconds)) => minutes > 59 || seconds > 59,
            None => false,
        },
        Timestamp::parsed(token) is Err && Timestamp::parsed(token)->Err_0
            is PercentageOutOfRange <==> match percentage_field(token) {
            Some(percentage) => percentage > 100,
            None => false,
        },
{
    law_notations_exclusive(token);
    lemma_percentage_field_bound(token);
}

/// One to three digits and a percent sign are read as the percentage that the
/// digits write, where that is 100 or less, whatever follows the sign.
pub proof fn law_percentage_in_range(digits: Seq<char>, rest: Seq<char>)
    requires
        is_digit_run(digits, 1, 3),
        decimal_value(digits) <= 100,
    ensures
        Timestamp::parsed(digits + seq!['%'] + rest) == Ok::<Timestamp, TimestampErrorView>(
            Timestamp::Percentage(decimal_value(digits) as i32),
        ),
{
    let token = digits + seq!['%'] + rest;
    lemma_digits_hold_no_mark(digits, '%');
    lemma_split_joined(digits, '%', rest);
    lemma_decimal_value_bound(digits);
    assert(token[digits.len() as int] == '%');
    law_notations_exclusive(token);
}

/// One to three digits and a percent sign are refused as out of range, and not
/// as a token of no known shape, where the digits write more than 100.
pub proof fn law_percentage_out_of_range(digits: Seq<char>, rest: Seq<char>)
    requires
        is_digit_run(digits, 1, 3),
        decimal_value(digits) > 100,
    ensures
        Timestamp::parsed(digits + seq!['%'] + rest) == Err::<Timestamp, TimestampErrorView>(
            TimestampErrorView::PercentageOutOfRange(percentage_too_high()),
        ),
{
    let token = digits + seq!['%'] + rest;
    lemma_digits_hold_no_mark(digits, '%');
    lemma_split_joined(digits, '%', rest);
    assert(token[digits.len() as int] == '%');
    law_notations_exclusive(token);
}

/// Every percentage from 0 to 100, written as usual with a percent sign after
/// it, is read as itself.
pub proof fn law_percentage_of_number(percentage: nat)
    requires
        percentage <= 100,
    ensures
        Timestamp::parsed(decimal_digits(percentage) + seq!['%']) == Ok::<
            Timestamp,
            TimestampErrorView,
        >(Timestamp::Percentage(percentage as i32)),
{
    let digits = decimal_digits(percentage);
    lemma_decimal_digits(percentage);
    lemma_pow10_values();
    lemma_decimal_digits_len(percentage, 3);
    assert(digits + seq!['%'] + Seq::<char>::empty() =~= digits + seq!['%']);
    law_percentage_in_range(digits, Seq::empty());
}

/// Every number from 101 to 999, written as usual with a percent sign after
/// it, is refused as out of range. No negative percentage can be written:
/// the notation has no sign.
pub proof fn law_percentage_of_large_number(percentage: nat)
    requires
        100 < percentage < 1000,
    ensures
        Timestamp::parsed(decimal_digits(percentage) + seq!['%']) == Err::<
            Timestamp,
            TimestampErrorView,
        >(TimestampErrorView::PercentageOutOfRange(percentage_too_high())),
{
    let digits = decimal_digits(percentage);
    lemma_decimal_digits(percentage);
    lemma_pow10_values();
    lemma_decimal_digits_len(percentage, 3);
    assert(digits + seq!['%'] + Seq::<char>::empty() =~= digits + seq!['%']);
    law_percentage_out_of_range(digits, Seq::empty());
}

/// Three fields of one or two digits with colons between them are read as
/// hours, minutes and seconds, and checked as such.
pub proof fn law_clock_with_hours(hours: Seq<char>, minutes: Seq<char>, seconds: Seq<char>)
    requires
        is_clock_field(hours),
        is_clock_field(minutes),
        is_clock_field(seconds),
    ensures
        Timestamp::parsed(hours + seq![':'] + minutes + seq![':'] + seconds)
            == Timestamp::checked_clock(
            decimal_value(hours),
            decimal_value(minutes),
            decimal_value(seconds),
        ),
{
    let token = hours + seq![':'] + minutes + seq![':'] + seconds;
    let tail = minutes + seq![':'] + seconds;
    assert(token =~= hours + seq![':'] + tail);
    lemma_digits_hold_no_mark(hours, ':');
    lemma_digits_hold_no_mark(minutes, ':');
    lemma_split_joined(hours, ':', tail);
    lemma_split_joined(minutes, ':', seconds);
    assert(token[hours.len() as int] == ':');
}

/// Two fields of one or two digits with a colon between them are read as
/// minutes and seconds, and checked as such.
pub proof fn law_clock_without_hours(minutes: Seq<char>, seconds: Seq<char>)
    requires
        is_clock_field(minutes),
        is_clock_field(seconds),
    ensures
        Timestamp::parsed(minutes + seq![':'] + seconds) == Timestamp::checked_clock(
            0,
            decimal_value(minutes),
            decimal_value(seconds),
        ),
{
    let token = minutes + seq![':'] + seconds;
    lemma_digits_hold_no_mark(minutes, ':');
    lemma_digits_hold_no_mark(seconds, ':');
    lemma_split_joined(minutes, ':', seconds);
    assert(token[minutes.len() as int] == ':');
}

/// Hours up to 99 with minutes and seconds up to 59, each written as usual
/// and joined by colons, are read as the seconds they add up to.
pub proof fn law_clock_of_numbers(hours: nat, minutes: nat, seconds: nat)
    requires
        hours <= 99,
        minutes <= 59,
        seconds <= 59,
    ensures
        Timestamp::parsed(
            decimal_digits(hours) + seq![':'] + decimal_digits(minutes) + seq![':']
                + decimal_digits(seconds),
        ) == Ok::<Timestamp, TimestampErrorView>(
            Timestamp::Seconds((hours * 3600 + minutes * 60 + seconds) as i32),
        ),
        Timestamp::parsed(decimal_digits(minutes) + seq![':'] + decimal_digits(seconds)) == Ok::<
            Timestamp,
            TimestampErrorView,
        >(Timestamp::Seconds((minutes * 60 + seconds) as i32)),
{
    lemma_pow10_values();
    lemma_decimal_digits(hours);
    lemma_decimal_digits(minutes);
    lemma_decimal_digits(seconds);
    lemma_decimal_digits_len(hours, 2);
    lemma_decimal_digits_len(minutes, 2);
    lemma_decimal_digits_len(seconds, 2);
    law_clock_with_hours(decimal_digits(hours), decimal_digits(minutes), decimal_digits(seconds));
    law_clock_without_hours(decimal_digits(minutes), decimal_digits(seconds));
}

/// A number of seconds below a thousand million, written as usual, is read as
/// itself.
pub proof fn law_seconds_round_trip(seconds: nat)
    requires
        seconds < 1_000_000_000,
    ensures
        Timestamp::parsed(decimal_digits(seconds)) == Ok::<Timestamp, TimestampErrorView>(
            Timestamp::Seconds(seconds as i32),
        ),
{
    lemma_pow10_values();
    lemma_decimal_digits(seconds);
    lemma_decimal_digits_len(seconds, 9);
}

/// A token of ten digits or more has no known shape: it is not read as a
/// number that is too large.
pub proof fn law_long_numbers_have_no_shape(token: Seq<char>)
    requires
        all_digits(token),
        token.len() >= 10,
    ensures
        Timestamp::parsed(token) == Err::<Timestamp, TimestampErrorView>(
            TimestampErrorView::NoMatch,
        ),
{
    lemma_digits_hold_no_mark(token, ':');
    lemma_digits_hold_no_mark(token, '%');
}

/// Whatever is read from a token is a valid timestamp.
pub proof fn law_parsed_is_valid(token: Seq<char>)
    ensures
        match Timestamp::parsed(token) {
            Ok(timestamp) => timestamp.wf(),
            Err(_) => true,
        },
{
    lemma_seconds_field_bound(token);
    lemma_clock_fields_bound(token);
    lemma_percentage_field_bound(token);
}

/// The share that a percentage takes of a length grows with the percentage
/// and stays within the length.
proof fn lemma_share_grows(video_length: int, lower: int, higher: int)
    requires
        0 <= video_length,
        0 <= lower <= higher <= 100,
    ensures
        0 <= (video_length * lower) / 100 <= (video_length * higher) / 100 <= video_length,
        lower == 0 ==> (video_length * lower) / 100 == 0,
{
    assert(0 <= video_length * lower <= video_length * higher <= video_length * 100 && (lower == 0
        ==> video_length * lower == 0)) by (nonlinear_arith)
        requires
            0 <= video_length,
            0 <= lower <= higher <= 100,
    ;
}

/// Every valid timestamp resolves to an offset that is not negative, and all
/// but an offset in seconds resolve to one within the video.
pub proof fn law_resolved_in_range(timestamp: Timestamp, video_length: int)
    requires
        timestamp.wf(),
        0 <= video_length,
    ensures
        0 <= timestamp.resolved(video_length),
        !(timestamp is Seconds) ==> timestamp.resolved(video_length) <= video_length,
        Timestamp::Start.resolved(video_length) == 0,
        Timestamp::End.resolved(video_length) == video_length,
{
    if let Timestamp::Percentage(p) = timestamp {
        lemma_share_grows(video_length, p as int, p as int);
    }
}

/// The start is before the end, and the end is not before the start,
/// whatever the length of the video.
pub proof fn law_start_before_end(video_length: int)
    ensures
        Timestamp::Start.before(Timestamp::End, video_length),
        !Timestamp::End.before(Timestamp::Start, video_length),
{
}

/// The ordering agrees with the resolved offsets: a timestamp that resolves
/// to an earlier offset is before the other, and one that is before the
/// other does not resolve to a later offset.
pub proof fn law_before_agrees_with_resolved(a: Timestamp, b: Timestamp, video_length: int)
    requires
        a.wf(),
        b.wf(),
        0 <= video_length,
    ensures
        a.resolved(video_length) < b.resolved(video_length) ==> a.before(b, video_length),
        a.before(b, video_length) ==> a.resolved(video_length) <= b.resolved(video_length),
{
    law_resolved_in_range(a, video_length);
    law_resolved_in_range(b, video_length);
    if let Timestamp::Percentage(q) = b {
        lemma_share_grows(video_length, q as int, q as int);
    }
    if let (Timestamp::Percentage(p), Timestamp::Percentage(q)) = (a, b) {
        if p <= q {
            lemma_share_grows(video_length, p as int, q as int);
        } else {
            lemma_share_grows(video_length, q as int, p as int);
        }
    }
}

/// The exact share of a length grows with the percentage, strictly so in a
/// video of some length, and a share of no length is nothing.
proof fn lemma_exact_share_grows(video_length: int, lower: int, higher: int)
    requires
        0 <= video_length,
        0 <= lower <= higher <= 100,
    ensures
        0 <= video_length * lower <= video_length * higher <= 100 * video_length,
        0 < video_length && lower < higher ==> video_length * lower < video_length * higher,
        video_length == 0 ==> video_length * lower == 0 && video_length * higher == 0,
        lower == 0 ==> video_length * lower == 0,
{
    assert(0 <= video_length * lower <= video_length * higher <= 100 * video_length && (0
        < video_length && lower < higher ==> video_length * lower < video_length * higher) && (
    video_length == 0 ==> video_length * lower == 0 && video_length * higher == 0) && (lower == 0
        ==> video_length * lower == 0)) by (nonlinear_arith)
        requires
            0 <= video_length,
            0 <= lower <= higher <= 100,
    ;
}

/// The exact time of a valid timestamp is not negative, and that of a
/// percentage is within the video.
proof fn lemma_exact_in_range(timestamp: Timestamp, video_length: int)
    requires
        timestamp.wf(),
        0 <= video_length,
    ensures
        0 <= timestamp.exact_hundredths(video_length),
        !(timestamp is Seconds) ==> timestamp.exact_hundredths(video_length) <= 100
            * video_length,
        timestamp is Percentage && video_length == 0 ==> timestamp.exact_hundredths(video_length)
            == 0,
        timestamp == Timestamp::Percentage(0) ==> timestamp.exact_hundredths(video_length) == 0,
{
    if let Timestamp::Percentage(p) = timestamp {
        lemma_exact_share_grows(video_length, p as int, p as int);
    }
}

/// The ordering is that of the exact times, with nothing rounded. In a video
/// of some length a timestamp is before another exactly when its exact time
/// is the earlier one. In a video of no length all percentages and both
/// sentinels fall on the same moment, and the ordering still tells them
/// apart as they are written; it never runs against the exact times.
pub proof fn law_before_is_exact(a: Timestamp, b: Timestamp, video_length: int)
    requires
        a.wf(),
        b.wf(),
        0 <= video_length,
    ensures
        a.exact_hundredths(video_length) < b.exact_hundredths(video_length) ==> a.before(
            b,
            video_length,
        ),
        a.before(b, video_length) ==> a.exact_hundredths(video_length) <= b.exact_hundredths(
            video_length,
        ),
        0 < video_length ==> (a.before(b, video_length) <==> a.exact_hundredths(video_length)
            < b.exact_hundredths(video_length)),
{
    lemma_exact_in_range(a, video_length);
    lemma_exact_in_range(b, video_length);
    if let Timestamp::Percentage(p) = a {
        lemma_exact_share_grows(video_length, p as int, 100);
    }
    if let Timestamp::Percentage(q) = b {
        lemma_exact_share_grows(video_length, 0, q as int);
    }
    if let (Timestamp::Percentage(p), Timestamp::Percentage(q)) = (a, b) {
        if p <= q {
            lemma_exact_share_grows(video_length, p as int, q as int);
        } else {
            lemma_exact_share_grows(video_length, q as int, p as int);
        }
    }
}

/// A percentage is before an offset in seconds, and an offset before a
/// percentage, exactly when the exact share of the length says so: an offset
/// of `n` seconds is before `p` percent of `d` seconds when `100 * n < d * p`.
/// Where the percentage comes first, the share rounded down to whole seconds
/// gives the same answer; where the offset comes first, it need not.
pub proof fn law_mixed_notations_are_exact(seconds: i32, percentage: i32, video_length: int)
    requires
        0 <= seconds,
        0 <= percentage <= 100,
        0 <= video_length,
    ensures
        Timestamp::Seconds(seconds).before(Timestamp::Percentage(percentage), video_length)
            <==> 100 * seconds < video_length * percentage,
        Timestamp::Percentage(percentage).before(Timestamp::Seconds(seconds), video_length)
            <==> video_length * percentage < 100 * seconds,
        Timestamp::Percentage(percentage).before(Timestamp::Seconds(seconds), video_length)
            <==> Timestamp::Percentage(percentage).resolved(video_length) < seconds,
{
    lemma_exact_share_grows(video_length, percentage as int, percentage as int);
}

/// A timestamp is before the end of the video exactly when it resolves to
/// less than the length of the video: every offset below the length, every
/// percentage below 100 in a video of some length, and the start.
pub proof fn law_before_end(timestamp: Timestamp, video_length: int)
    requires
        timestamp.wf(),
        0 <= video_length,
    ensures
        timestamp is Seconds || timestamp is Percentage ==> (timestamp.before(
            Timestamp::End,
            video_length,
        ) <==> timestamp.resolved(video_length) < video_length),
        timestamp is Percentage ==> (timestamp.before(Timestamp::End, video_length) <==> 0
            < video_length && timestamp != Timestamp::Percentage(100)),
        !Timestamp::Percentage(100).before(Timestamp::End, video_length),
{
    if let Timestamp::Percentage(p) = timestamp {
        lemma_exact_share_grows(video_length, p as int, 100);
    }
    lemma_exact_share_grows(video_length, 100, 100);
}

/// No timestamp is before itself, and of two timestamps at most one is before
/// the other.
pub proof fn law_before_is_asymmetric(a: Timestamp, b: Timestamp, video_length: int)
    requires
        a.wf(),
        b.wf(),
        0 <= video_length,
    ensures
        !a.before(a, video_length),
        !(a.before(b, video_length) && b.before(a, video_length)),
{
    law_before_is_exact(a, b, video_length);
    law_before_is_exact(b, a, video_length);
    law_before_is_exact(a, a, video_length);
}

/// What is before a timestamp is before everything that the timestamp is
/// before.
pub proof fn law_before_is_transitive(a: Timestamp, b: Timestamp, c: Timestamp, video_length: int)
    requires
        a.wf(),
        b.wf(),
        c.wf(),
        0 <= video_length,
        a.before(b, video_length),
        b.before(c, video_length),
    ensures
        a.before(c, video_length),
{
    lemma_exact_in_range(a, video_length);
    lemma_exact_in_range(b, video_length);
    lemma_exact_in_range(c, video_length);
    law_before_is_exact(a, b, video_length);
    law_before_is_exact(b, c, video_length);
    law_before_is_exact(a, c, video_length);
    law_resolved_in_range(a, video_length);
    law_resolved_in_range(b, video_length);
    law_resolved_in_range(c, video_length);
}

} // verus!
