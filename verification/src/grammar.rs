//! The three notations in which a trim point may be written, over the
//! characters of a token: plain seconds, clock time and percentage.
//!
//! This module decides only the shape of a token and reads the numbers in it.
//! Whether the numbers make sense (minutes under sixty, a percentage up to a
//! hundred) is decided where the timestamp is built.

use vstd::prelude::*;
use vstd::string::StrSliceExecFns;

verus! {

/// One of the ten ASCII digits.
pub open spec fn is_digit(c: char) -> bool {
    '0' <= c <= '9'
}

/// The number that a digit stands for.
pub open spec fn digit_value(c: char) -> int {
    c as int - '0' as int
}

/// Every character is a digit.
pub open spec fn all_digits(s: Seq<char>) -> bool {
    forall|i: int| 0 <= i < s.len() ==> is_digit(#[trigger] s[i])
}

/// Between `least` and `most` characters, all of them digits.
pub open spec fn is_digit_run(s: Seq<char>, least: nat, most: nat) -> bool {
    least <= s.len() <= most && all_digits(s)
}

/// The number that a run of digits writes in base ten; leading zeros count
/// for nothing, and the empty run is zero.
pub open spec fn decimal_value(s: Seq<char>) -> int
    decreases s.len(),
{
    if s.len() == 0 {
        0
    } else {
        decimal_value(s.drop_last()) * 10 + digit_value(s.last())
    }
}

/// Ten to the power `k`.
pub open spec fn pow10(k: nat) -> nat
    decreases k,
{
    if k == 0 {
        1
    } else {
        10 * pow10((k - 1) as nat)
    }
}

/// The digit that stands for a number from 0 to 9.
pub open spec fn digit_char(d: int) -> char {
    ('0' as int + d) as char
}

/// A number as it is usually written in base ten: without a sign and without
/// leading zeros.
pub open spec fn decimal_digits(n: nat) -> Seq<char>
    decreases n,
{
    if n < 10 {
        seq![digit_char(n as int)]
    } else {
        decimal_digits(n / 10).push(digit_char((n % 10) as int))
    }
}

/// The text before the first `mark` and the text after it, if `mark` occurs.
pub open spec fn split_first(s: Seq<char>, mark: char) -> Option<(Seq<char>, Seq<char>)> {
    match s.index_of_first(mark) {
        Some(i) => Some((s.subrange(0, i), s.subrange(i + 1, s.len() as int))),
        None => None,
    }
}

/// A field of a clock time: one or two digits.
pub open spec fn is_clock_field(s: Seq<char>) -> bool {
    is_digit_run(s, 1, 2)
}

/// Plain seconds: the whole token is one to nine digits. Gives the number
/// written.
pub open spec fn seconds_field(token: Seq<char>) -> Option<int> {
    if is_digit_run(token, 1, 9) {
        Some(decimal_value(token))
    } else {
        None
    }
}

/// Clock time: two or three fields of one or two digits each, with a colon
/// between them and nothing else. Gives hours, minutes and seconds as
/// written; hours are zero where the token has two fields only.
pub open spec fn clock_fields(token: Seq<char>) -> Option<(int, int, int)> {
    match split_first(token, ':') {
        None => None,
        Some((head, tail)) => match split_first(tail, ':') {
            None => if is_clock_field(head) && is_clock_field(tail) {
                Some((0, decimal_value(head), decimal_value(tail)))
            } else {
                None
            },
            Some((middle, last)) => if is_clock_field(head) && is_clock_field(middle)
                && is_clock_field(last) {
                Some((decimal_value(head), decimal_value(middle), decimal_value(last)))
            } else {
                None
            },
        },
    }
}

/// Percentage: the token starts with one to three digits and a percent sign.
/// What follows the sign is not looked at. Gives the number written.
pub open spec fn percentage_field(token: Seq<char>) -> Option<int> {
    match split_first(token, '%') {
        Some((head, _)) => if is_digit_run(head, 1, 3) {
            Some(decimal_value(head))
        } else {
            None
        },
        None => None,
    }
}

/// A run of digits writes a number below ten to the power of its length.
pub proof fn lemma_decimal_value_bound(s: Seq<char>)
    requires
        all_digits(s),
    ensures
        0 <= decimal_value(s) < pow10(s.len()),
    decreases s.len(),
{
    if s.len() > 0 {
        lemma_decimal_value_bound(s.drop_last());
    }
}

/// Powers of ten grow with the exponent.
pub proof fn lemma_pow10_increases(a: nat, b: nat)
    requires
        a <= b,
    ensures
        1 <= pow10(a) <= pow10(b),
    decreases b,
{
    if b > 0 {
        if a < b {
            lemma_pow10_increases(a, (b - 1) as nat);
        } else {
            lemma_pow10_increases((a - 1) as nat, (b - 1) as nat);
        }
    }
}

/// The first nine powers of ten.
pub proof fn lemma_pow10_values()
    ensures
        pow10(1) == 10,
        pow10(2) == 100,
        pow10(3) == 1_000,
        pow10(9) == 1_000_000_000,
{
    reveal_with_fuel(pow10, 10);
}

/// The usual writing of a number is a run of digits that writes that number.
pub proof fn lemma_decimal_digits(n: nat)
    ensures
        decimal_digits(n).len() >= 1,
        all_digits(decimal_digits(n)),
        decimal_value(decimal_digits(n)) == n,
    decreases n,
{
    if n < 10 {
        let one = seq![digit_char(n as int)];
        assert(one.drop_last() =~= Seq::<char>::empty());
        assert(decimal_value(one.drop_last()) == 0);
    } else {
        lemma_decimal_digits(n / 10);
        let all = decimal_digits(n);
        assert(all.drop_last() =~= decimal_digits(n / 10));
    }
}

/// A number below ten to the power `k` is written with `k` digits or fewer.
pub proof fn lemma_decimal_digits_len(n: nat, k: nat)
    requires
        1 <= k,
        n < pow10(k),
    ensures
        decimal_digits(n).len() <= k,
    decreases n,
{
    if n >= 10 {
        if k == 1 {
            reveal_with_fuel(pow10, 2);
        } else {
            lemma_decimal_digits_len(n / 10, (k - 1) as nat);
        }
    }
}

/// No digit is a colon or a percent sign, so a run of digits holds neither.
pub proof fn lemma_digits_hold_no_mark(s: Seq<char>, mark: char)
    requires
        all_digits(s),
        !is_digit(mark),
    ensures
        !s.contains(mark),
        split_first(s, mark) is None,
{
    s.index_of_first_ensures(mark);
    if s.contains(mark) {
        let i = s.index_of(mark);
        assert(is_digit(s[i]));
    }
}

/// A text that holds no `mark`, then `mark`, then any text, is split at that
/// `mark`.
pub proof fn lemma_split_joined(head: Seq<char>, mark: char, rest: Seq<char>)
    requires
        !head.contains(mark),
    ensures
        split_first(head + seq![mark] + rest, mark) == Some((head, rest)),
{
    let joined = head + seq![mark] + rest;
    let at = head.len() as int;
    assert(joined[at] == mark);
    assert forall|j: int| 0 <= j < at implies joined[j] != mark by {
        assert(joined[j] == head[j]);
        assert(head.contains(head[j]));
    }
    lemma_first_index(joined, mark, at);
    assert(joined.subrange(0, at) =~= head);
    assert(joined.subrange(at + 1, joined.len() as int) =~= rest);
}

/// Where `mark` stands at `i` and nowhere before, the first `mark` is at `i`.
pub proof fn lemma_first_index(s: Seq<char>, mark: char, i: int)
    requires
        0 <= i < s.len(),
        s[i] == mark,
        forall|j: int| 0 <= j < i ==> s[j] != mark,
    ensures
        s.index_of_first(mark) == Some(i),
{
    s.index_of_first_ensures(mark);
    assert(s.contains(mark));
}

/// Where `mark` does not stand among the first `k` characters, it occurs
/// first at `k` or later, if at all.
pub proof fn lemma_no_early_index(s: Seq<char>, mark: char, k: int)
    requires
        forall|j: int| 0 <= j < k && j < s.len() ==> s[j] != mark,
    ensures
        match s.index_of_first(mark) {
            Some(i) => k <= i < s.len(),
            None => true,
        },
{
    s.index_of_first_ensures(mark);
}

/// A token of plain seconds writes a number below a thousand million.
pub proof fn lemma_seconds_field_bound(token: Seq<char>)
    ensures
        match seconds_field(token) {
            Some(n) => 0 <= n < 1_000_000_000,
            None => true,
        },
{
    if is_digit_run(token, 1, 9) {
        lemma_decimal_value_bound(token);
        lemma_pow10_increases(token.len(), 9);
        lemma_pow10_values();
    }
}

/// A field of a clock time writes a number below a hundred.
pub proof fn lemma_clock_field_bound(field: Seq<char>)
    requires
        is_clock_field(field),
    ensures
        0 <= decimal_value(field) < 100,
{
    lemma_decimal_value_bound(field);
    lemma_pow10_increases(field.len(), 2);
    lemma_pow10_values();
}

/// Each number of a clock time is below a hundred.
pub proof fn lemma_clock_fields_bound(token: Seq<char>)
    ensures
        match clock_fields(token) {
            Some((h, m, s)) => 0 <= h < 100 && 0 <= m < 100 && 0 <= s < 100,
            None => true,
        },
{
    if let Some((head, tail)) = split_first(token, ':') {
        if let Some((middle, last)) = split_first(tail, ':') {
            if is_clock_field(head) && is_clock_field(middle) && is_clock_field(last) {
                lemma_clock_field_bound(head);
                lemma_clock_field_bound(middle);
                lemma_clock_field_bound(last);
            }
        } else {
            if is_clock_field(head) && is_clock_field(tail) {
                lemma_clock_field_bound(head);
                lemma_clock_field_bound(tail);
            }
        }
    }
}

/// A percentage token writes a number below a thousand.
pub proof fn lemma_percentage_field_bound(token: Seq<char>)
    ensures
        match percentage_field(token) {
            Some(p) => 0 <= p < 1_000,
            None => true,
        },
{
    if let Some((head, rest)) = split_first(token, '%') {
        if is_digit_run(head, 1, 3) {
            lemma_decimal_value_bound(head);
            lemma_pow10_increases(head.len(), 3);
            lemma_pow10_values();
        }
    }
}

fn is_digit_char(c: char) -> (digit: bool)
    ensures
        digit == is_digit(c),
{
    '0' <= c && c <= '9'
}

/// Looks for `mark` among the characters from `from` up to `to`.
fn find_char(token: &str, from: usize, to: usize, mark: char) -> (found: Option<usize>)
    requires
        from <= to <= token@.len(),
    ensures
        match found {
            Some(i) => from <= i < to && token@[i as int] == mark && forall|j: int|
                from <= j < i ==> token@[j] != mark,
            None => forall|j: int| from <= j < to ==> token@[j] != mark,
        },
{
    let mut i: usize = from;
    while i < to
        invariant
            from <= i <= to <= token@.len(),
            forall|j: int| from <= j < i ==> token@[j] != mark,
        decreases to - i,
    {
        if token.get_char(i) == mark {
            return Some(i);
        }
        i += 1;
    }
    None
}

/// Reads the characters from `from` up to `to` as a number, if they are a run
/// of one to `most` digits.
fn read_digits(token: &str, from: usize, to: usize, most: usize) -> (number: Option<i32>)
    requires
        from <= to <= token@.len(),
        most <= 9,
    ensures
        match number {
            Some(n) => is_digit_run(token@.subrange(from as int, to as int), 1, most as nat) && n
                == decimal_value(token@.subrange(from as int, to as int)),
            None => !is_digit_run(token@.subrange(from as int, to as int), 1, most as nat),
        },
{
    let ghost run = token@.subrange(from as int, to as int);
    if to - from < 1 || to - from > most {
        return None;
    }
    let mut value: i32 = 0;
    let mut i: usize = from;
    while i < to
        invariant
            from <= i <= to <= token@.len(),
            to - from <= 9,
            run == token@.subrange(from as int, to as int),
            all_digits(token@.subrange(from as int, i as int)),
            value == decimal_value(token@.subrange(from as int, i as int)),
        decreases to - i,
    {
        let c = token.get_char(i);
        if !is_digit_char(c) {
            assert(run[i - from] == c);
            return None;
        }
        proof {
            let before = token@.subrange(from as int, i as int);
            let after = token@.subrange(from as int, i + 1);
            assert(after.drop_last() =~= before);
            assert(after.last() == c);
            lemma_decimal_value_bound(before);
            lemma_pow10_increases(before.len(), 8);
            reveal_with_fuel(pow10, 10);
        }
        value = value * 10 + (c as u32 - '0' as u32) as i32;
        i += 1;
    }
    Some(value)
}

/// Reads a token of plain seconds.
pub fn seconds_number(token: &str) -> (number: Option<i32>)
    ensures
        match number {
            Some(n) => seconds_field(token@) == Some(n as int),
            None => seconds_field(token@) is None,
        },
{
    let n = token.unicode_len();
    assert(token@.subrange(0, n as int) =~= token@);
    read_digits(token, 0, n, 9)
}

/// Tells whether the token is written as plain seconds.
pub fn match_seconds(token: &str) -> (matched: bool)
    ensures
        matched == seconds_field(token@).is_some(),
{
    seconds_number(token).is_some()
}

/// Reads a token of clock time into hours, minutes and seconds.
pub fn clock_numbers(token: &str) -> (numbers: Option<(i32, i32, i32)>)
    ensures
        match numbers {
            Some((h, m, s)) => clock_fields(token@) == Some((h as int, m as int, s as int)),
            None => clock_fields(token@) is None,
        },
{
    let n = token.unicode_len();
    let ghost text = token@;
    // A field has at most two digits, so its colon is among the three
    // characters that follow the field's start.
    let first_limit = if n < 3 { n } else { 3 };
    let first = match find_char(token, 0, first_limit, ':') {
        Some(i) => i,
        None => {
            proof {
                lemma_no_early_index(text, ':', 3);
            }
            return None;
        },
    };
    let ghost head = text.subrange(0, first as int);
    let ghost tail = text.subrange(first + 1, n as int);
    proof {
        lemma_first_index(text, ':', first as int);
    }
    let second_limit = if n - first - 1 < 3 { n } else { first + 4 };
    let second = find_char(token, first + 1, second_limit, ':');
    match second {
        Some(j) => {
            let ghost middle = tail.subrange(0, j - first - 1);
            let ghost last = tail.subrange(j - first, tail.len() as int);
            proof {
                lemma_first_index(tail, ':', j - first - 1);
                assert(middle =~= text.subrange(first + 1, j as int));
                assert(last =~= text.subrange(j + 1, n as int));
            }
            let hours = read_digits(token, 0, first, 2);
            let minutes = read_digits(token, first + 1, j, 2);
            let seconds = read_digits(token, j + 1, n, 2);
            match (hours, minutes, seconds) {
                (Some(h), Some(m), Some(s)) => Some((h, m, s)),
                _ => None,
            }
        },
        None => {
            proof {
                lemma_no_early_index(tail, ':', 3);
            }
            let minutes = read_digits(token, 0, first, 2);
            let seconds = read_digits(token, first + 1, n, 2);
            match (minutes, seconds) {
                (Some(m), Some(s)) => {
                    proof {
                        tail.index_of_first_ensures(':');
                        if tail.contains(':') {
                            let k = tail.index_of(':');
                            assert(is_digit(tail[k]));
                        }
                    }
                    Some((0, m, s))
                },
                _ => None,
            }
        },
    }
}

/// Reads the number of a percentage token.
pub fn percentage_number(token: &str) -> (number: Option<i32>)
    ensures
        match number {
            Some(p) => percentage_field(token@) == Some(p as int),
            None => percentage_field(token@) is None,
        },
{
    let n = token.unicode_len();
    // At most three digits stand before the sign.
    let limit = if n < 4 { n } else { 4 };
    match find_char(token, 0, limit, '%') {
        Some(i) => {
            proof {
                lemma_first_index(token@, '%', i as int);
            }
            read_digits(token, 0, i, 3)
        },
        None => {
            proof {
                lemma_no_early_index(token@, '%', 4);
            }
            None
        },
    }
}

/// Tells whether the token is written as clock time.
pub fn match_hh_mm_ss(token: &str) -> (matched: bool)
    ensures
        matched == clock_fields(token@).is_some(),
{
    clock_numbers(token).is_some()
}

/// Tells whether the token is written as a percentage.
pub fn match_percentage(token: &str) -> (matched: bool)
    ensures
        matched == percentage_field(token@).is_some(),
{
    percentage_number(token).is_some()
}

} // verus!
