use regex::Regex;
use ttrim::grammar::{match_hh_mm_ss, match_percentage, match_seconds};
use ttrim::timestamp::{Timestamp, TimestampError};

fn alphabet() -> Vec<char> {
    vec!['0', '5', '9', ':', '%', 'a', ' ', '\u{0663}']
}

fn tokens_up_to(length: usize) -> Vec<String> {
    let mut all = vec![String::new()];
    let mut last = vec![String::new()];
    for _ in 0..length {
        let mut next = Vec::new();
        for token in &last {
            for c in alphabet() {
                let mut longer = token.clone();
                longer.push(c);
                next.push(longer);
            }
        }
        all.extend(next.iter().cloned());
        last = next;
    }
    all
}

fn long_tokens() -> Vec<String> {
    let mut all = Vec::new();
    for token in [
        "123456789", "1234567890", "12:34:56", "12:34:567", "123:45:67", "1:2:3:4", "12:34:56:",
        "100%", "1000%", "100%%", "12:34%", "12%:34", "99:99:99", "00:00:00", "000000000",
        "0000000000", "9:59:59 ", "12:34\n", "100%\n",
    ] {
        all.push(token.to_owned());
    }
    all
}

#[test]
fn seconds_shape_is_that_of_the_pattern() {
    let pattern = Regex::new(r"^([0-9]{1,9})$").unwrap();
    for token in tokens_up_to(5).iter().chain(long_tokens().iter()) {
        assert_eq!(match_seconds(token), pattern.is_match(token), "{:?}", token);
    }
}

#[test]
fn clock_shape_is_that_of_the_pattern() {
    let pattern = Regex::new(r"^(?:([0-9]{1,2}):)?([0-9]{1,2}):([0-9]{1,2})$").unwrap();
    for token in tokens_up_to(5).iter().chain(long_tokens().iter()) {
        assert_eq!(match_hh_mm_ss(token), pattern.is_match(token), "{:?}", token);
    }
}

#[test]
fn percentage_shape_is_that_of_the_pattern() {
    let pattern = Regex::new(r"^([0-9]{1,3})%").unwrap();
    for token in tokens_up_to(5).iter().chain(long_tokens().iter()) {
        assert_eq!(match_percentage(token), pattern.is_match(token), "{:?}", token);
    }
}

#[test]
fn no_token_has_two_shapes() {
    for token in tokens_up_to(5).iter().chain(long_tokens().iter()) {
        let shapes = [match_seconds(token), match_hh_mm_ss(token), match_percentage(token)];
        assert!(shapes.iter().filter(|shape| **shape).count() <= 1, "{:?}", token);
    }
}

#[test]
fn a_token_is_read_by_its_own_notation() {
    for token in tokens_up_to(5).iter().chain(long_tokens().iter()) {
        let read = Timestamp::parse_timestamp(token);
        if match_seconds(token) {
            assert_eq!(read, Timestamp::parse_seconds(token), "{:?}", token);
        } else if match_hh_mm_ss(token) {
            assert_eq!(read, Timestamp::parse_hh_mm_ss(token), "{:?}", token);
        } else if match_percentage(token) {
            assert_eq!(read, Timestamp::parse_percentage(token), "{:?}", token);
        } else {
            assert_eq!(read, Err(TimestampError::NoMatch), "{:?}", token);
        }
    }
}

#[test]
fn captured_numbers_are_those_of_the_pattern() {
    let clock = Regex::new(r"^(?:([0-9]{1,2}):)?([0-9]{1,2}):([0-9]{1,2})$").unwrap();
    let percentage = Regex::new(r"^([0-9]{1,3})%").unwrap();
    for token in tokens_up_to(5).iter().chain(long_tokens().iter()) {
        let by_clock = clock.captures(token).map(|found| {
            let number = |group: usize| -> i32 {
                found.get(group).map_or(0, |text| text.as_str().parse().unwrap())
            };
            (number(1), number(2), number(3))
        });
        assert_eq!(ttrim::grammar::clock_numbers(token), by_clock, "{:?}", token);
        let by_percentage = percentage
            .captures(token)
            .map(|found| found.get(1).unwrap().as_str().parse::<i32>().unwrap());
        assert_eq!(ttrim::grammar::percentage_number(token), by_percentage, "{:?}", token);
    }
}
