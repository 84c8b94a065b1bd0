//! The texts that a run shows.

use crate::error::PreloadError;
use thousands::Separable;
use vstd::prelude::*;
use vstd::string::*;

verus! {

/// The character of one decimal digit.
pub open spec fn digit_char(d: nat) -> char {
    if d == 0 {
        '0'
    } else if d == 1 {
        '1'
    } else if d == 2 {
        '2'
    } else if d == 3 {
        '3'
    } else if d == 4 {
        '4'
    } else if d == 5 {
        '5'
    } else if d == 6 {
        '6'
    } else if d == 7 {
        '7'
    } else if d == 8 {
        '8'
    } else {
        '9'
    }
}

/// A number in decimal, without leading zeros.
pub open spec fn decimal(n: nat) -> Seq<char>
    decreases n,
{
    if n < 10 {
        seq![digit_char(n)]
    } else {
        decimal(n / 10).push(digit_char(n % 10))
    }
}

/// The three digits of a number below one thousand, zeros included.
pub open spec fn three_digits(n: nat) -> Seq<char> {
    seq![digit_char(n / 100), digit_char((n / 10) % 10), digit_char(n % 10)]
}

/// A number in decimal with a comma before every group of three digits,
/// counted from the right.
pub open spec fn comma_grouped(n: nat) -> Seq<char>
    decreases n,
{
    if n < 1000 {
        decimal(n)
    } else {
        comma_grouped(n / 1000) + seq![','] + three_digits(n % 1000)
    }
}

/// The summary line of the progress dialog for a work list of `total` files.
pub open spec fn summary_text(total: nat) -> Seq<char> {
    "Preloading "@ + comma_grouped(total) + " files"@
}

/// The report of a run that went through `processed` of `total` files.
pub open spec fn report_text(processed: nat, total: nat) -> Seq<char> {
    "processed "@ + decimal(processed) + " of "@ + decimal(total)
}

/// The log line for a file that failed locally.
pub open spec fn local_failure_text(error: PreloadError) -> Seq<char> {
    "Failed to preload file: "@ + error.message_text() + "."@
}

/// The line that tells of a run that a failure ended.
pub open spec fn fatal_failure_text(error: PreloadError) -> Seq<char> {
    "Failed to preload directory: "@ + error.message_text() + "."@
}

/// Calls `thousands::Separable::separate_with_commas` on a `usize`. The
/// contract is not proved: it claims that the result is the number's decimal
/// form with a comma inserted every three digits from the right.
#[verifier::external_body]
fn separate_with_commas(n: usize) -> (text: String)
    ensures
        text@ == comma_grouped(n as nat),
{
    n.separate_with_commas()
}

/// The summary line that the progress dialog shows before the first file.
pub fn summary_line(total: usize) -> (line: String)
    ensures
        line@ == summary_text(total as nat),
{
    let grouped = separate_with_commas(total);
    let mut line = String::from_str("Preloading ");
    line.append(grouped.as_str());
    line.append(" files");
    line
}

/// One decimal digit as a string.
fn digit_str(d: usize) -> (text: &'static str)
    requires
        d < 10,
    ensures
        text@ == seq![digit_char(d as nat)],
{
    proof {
        reveal_strlit("0");
        reveal_strlit("1");
        reveal_strlit("2");
        reveal_strlit("3");
        reveal_strlit("4");
        reveal_strlit("5");
        reveal_strlit("6");
        reveal_strlit("7");
        reveal_strlit("8");
        reveal_strlit("9");
    }
    let text = match d {
        0 => "0",
        1 => "1",
        2 => "2",
        3 => "3",
        4 => "4",
        5 => "5",
        6 => "6",
        7 => "7",
        8 => "8",
        _ => "9",
    };
    assert(text@ =~= seq![digit_char(d as nat)]);
    text
}

/// A number in decimal.
pub fn decimal_string(n: usize) -> (text: String)
    ensures
        text@ == decimal(n as nat),
    decreases n,
{
    if n < 10 {
        String::from_str(digit_str(n))
    } else {
        let mut text = decimal_string(n / 10);
        text.append(digit_str(n % 10));
        assert(text@ =~= decimal(n as nat));
        text
    }
}

/// The report of a run that went through `processed` of `total` files.
pub fn report_line(processed: usize, total: usize) -> (line: String)
    ensures
        line@ == report_text(processed as nat, total as nat),
{
    let done = decimal_string(processed);
    let all = decimal_string(total);
    let mut line = String::from_str("processed ");
    line.append(done.as_str());
    line.append(" of ");
    line.append(all.as_str());
    line
}

/// The log line for a file that failed locally.
pub fn local_failure_line(error: &PreloadError) -> (line: String)
    ensures
        line@ == local_failure_text(*error),
{
    let message = error.message();
    let mut line = String::from_str("Failed to preload file: ");
    line.append(message.as_str());
    line.append(".");
    line
}

/// The line that tells of a run that a failure ended.
pub fn fatal_failure_line(error: &PreloadError) -> (line: String)
    ensures
        line@ == fatal_failure_text(*error),
{
    let message = error.message();
    let mut line = String::from_str("Failed to preload directory: ");
    line.append(message.as_str());
    line.append(".");
    line
}

} // verus!
