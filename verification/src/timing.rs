//! Measures how long a step of a run takes and words the report for the log.

use std::time::SystemTime;
use vstd::prelude::*;

verus! {

/// A reading of the system clock.
#[verifier::external_type_specification]
#[verifier::external_body]
pub struct ExSystemTime(SystemTime);

/// Reads the system clock with `SystemTime::now`. Every call may return
/// another reading: nothing is promised of the result.
#[verifier::external_body]
fn clock() -> SystemTime {
    SystemTime::now()
}

/// The milliseconds from `earlier` to `later` as `SystemTime::duration_since`
/// and `Duration::as_millis` give them; `None` where `later` is the earlier of
/// the two. Nothing is promised of the result.
#[verifier::external_body]
fn millis_between(later: &SystemTime, earlier: &SystemTime) -> Option<u128> {
    match later.duration_since(*earlier) {
        Ok(elapsed) => Some(elapsed.as_millis()),
        Err(_) => None,
    }
}

/// The character that stands for a digit.
pub open spec fn digit(d: nat) -> char
    recommends
        d < 10,
{
    if d == 0 {
        '0'
    } else if d == 1 {
        '1'
    } else if d == 2 {
        '2'
    } else if d == 3 {
        '3'
    } else if d == 4 {
        '4'
    } else if d == 5 {
        '5'
    } else if d == 6 {
        '6'
    } else if d == 7 {
        '7'
    } else if d == 8 {
        '8'
    } else {
        '9'
    }
}

/// A number in decimal digits, without leading zeros.
pub open spec fn decimal(n: nat) -> Seq<char>
    decreases n,
{
    if n < 10 {
        seq![digit(n)]
    } else {
        decimal(n / 10).push(digit(n % 10))
    }
}

/// The report of how long the step named `fname` took.
pub open spec fn elapsed_report(fname: Seq<char>, millis: nat) -> Seq<char> {
    "Elapsed time for "@ + fname + " was "@ + decimal(millis) + "ms"@
}

/// The character that stands for a digit.
pub fn digit_char(d: u8) -> (c: char)
    requires
        d < 10,
    ensures
        c == digit(d as nat),
{
    if d == 0 {
        '0'
    } else if d == 1 {
        '1'
    } else if d == 2 {
        '2'
    } else if d == 3 {
        '3'
    } else if d == 4 {
        '4'
    } else if d == 5 {
        '5'
    } else if d == 6 {
        '6'
    } else if d == 7 {
        '7'
    } else if d == 8 {
        '8'
    } else {
        '9'
    }
}

/// A number in decimal digits, see [`decimal`].
pub fn decimal_text(n: u128) -> (text: String)
    ensures
        text@ == decimal(n as nat),
    decreases n,
{
    if n < 10 {
        let mut text = String::new();
        text.push(digit_char(n as u8));
        text
    } else {
        let mut text = decimal_text(n / 10);
        text.push(digit_char((n % 10) as u8));
        text
    }
}

/// Words the report of how long the step named `fname` took.
pub fn elapsed_message(fname: &str, millis: u128) -> (report: String)
    ensures
        report@ == elapsed_report(fname@, millis as nat),
{
    let count = decimal_text(millis);
    String::from_str("Elapsed time for ").concat(fname).concat(" was ").concat(
        count.as_str(),
    ).concat("ms")
}

/// Helper function that times the execution of `f` and words the report of
/// the elapsed time for the log.
///
/// Returns what `f` returns and the report. There is no report if the clock
/// was set back while `f` ran.
pub fn time_func<F, O>(f: F, fname: &str) -> (timed: (O, Option<String>)) where
    F: Fn() -> O,
    O: Clone,

    requires
        f.requires(()),
    ensures
        f.ensures((), timed.0),
        timed.1 matches Some(report) ==> exists|millis: nat|
            report@ == elapsed_report(fname@, millis),
{
    let start = clock();
    let res = f();
    let end = clock();
    match millis_between(&end, &start) {
        Some(millis) => {
            let report = elapsed_message(fname, millis);
            (res, Some(report))
        },
        None => (res, None),
    }
}

} // verus!
