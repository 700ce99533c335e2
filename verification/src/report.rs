//! The line in which a benchmark result is shown: the label, the mean and
//! the deviation in seconds with one decimal, and the output of the last run.

use vstd::prelude::*;
use vstd::string::StringExecFns;
use crate::statistics::Statistics;

verus! {

/// The numeral of a digit.
pub open spec fn digit_text(digit: nat) -> Seq<char> {
    if digit == 0 {
        "0"@
    } else if digit == 1 {
        "1"@
    } else if digit == 2 {
        "2"@
    } else if digit == 3 {
        "3"@
    } else if digit == 4 {
        "4"@
    } else if digit == 5 {
        "5"@
    } else if digit == 6 {
        "6"@
    } else if digit == 7 {
        "7"@
    } else if digit == 8 {
        "8"@
    } else {
        "9"@
    }
}

/// A number written in decimal, without leading zeros.
pub open spec fn decimal_text(value: nat) -> Seq<char>
    decreases value,
{
    if value < 10 {
        digit_text(value)
    } else {
        decimal_text(value / 10) + digit_text(value % 10)
    }
}

/// A duration in nanoseconds as tenths of a second, rounded to the nearest
/// tenth; a duration just between two tenths goes to the even one.
pub open spec fn rounded_tenths(nanoseconds: nat) -> nat {
    let whole = nanoseconds / 100_000_000;
    let rest = nanoseconds % 100_000_000;
    if rest > 50_000_000 || (rest == 50_000_000 && whole % 2 == 1) {
        whole + 1
    } else {
        whole
    }
}

/// A duration in nanoseconds written as seconds with one decimal.
pub open spec fn seconds_text(nanoseconds: nat) -> Seq<char> {
    let tenths = rounded_tenths(nanoseconds);
    decimal_text(tenths / 10) + "."@ + digit_text(tenths % 10)
}

/// The spread as it is shown: the deviation in seconds, or the word
/// `undefined` where a single sample has none.
pub open spec fn deviation_text(deviation: Option<u64>) -> Seq<char> {
    match deviation {
        Some(nanoseconds) => seconds_text(nanoseconds as nat),
        None => "undefined"@,
    }
}

/// The line that shows a result.
pub open spec fn report_text(label: Seq<char>, statistics: Statistics, output: Seq<char>) -> Seq<
    char,
> {
    label + " in "@ + seconds_text(statistics.mean as nat) + " \u{b1} "@ + deviation_text(
        statistics.deviation,
    ) + " s (got "@ + output + ")"@
}

/// The numeral of a digit.
fn numeral(value: u64) -> (text: &'static str)
    requires
        value < 10,
    ensures
        text@ == digit_text(value as nat),
{
    if value == 0 {
        "0"
    } else if value == 1 {
        "1"
    } else if value == 2 {
        "2"
    } else if value == 3 {
        "3"
    } else if value == 4 {
        "4"
    } else if value == 5 {
        "5"
    } else if value == 6 {
        "6"
    } else if value == 7 {
        "7"
    } else if value == 8 {
        "8"
    } else {
        "9"
    }
}

/// Writes a number in decimal.
pub fn render_decimal(value: u64) -> (text: String)
    ensures
        text@ == decimal_text(value as nat),
    decreases value,
{
    if value < 10 {
        String::from_str(numeral(value))
    } else {
        let mut text = render_decimal(value / 10);
        text.append(numeral(value % 10));
        text
    }
}

/// Writes a duration in nanoseconds as seconds with one decimal.
pub fn render_seconds(nanoseconds: u64) -> (text: String)
    ensures
        text@ == seconds_text(nanoseconds as nat),
{
    let whole: u64 = nanoseconds / 100_000_000;
    let rest: u64 = nanoseconds % 100_000_000;
    let tenths: u64 = if rest > 50_000_000 || (rest == 50_000_000 && whole % 2 == 1) {
        whole + 1
    } else {
        whole
    };
    let mut text = render_decimal(tenths / 10);
    text.append(".");
    text.append(numeral(tenths % 10));
    text
}

/// Writes the line that shows a result: the label, the mean, the deviation
/// and the output of the last run, itself already rendered.
pub fn render_report(label: &str, statistics: &Statistics, output: &str) -> (line: String)
    ensures
        line@ == report_text(label@, *statistics, output@),
{
    let mut line = String::from_str(label);
    line.append(" in ");
    let mean = render_seconds(statistics.mean);
    line.append(mean.as_str());
    line.append(" \u{b1} ");
    match statistics.deviation {
        Some(nanoseconds) => {
            let deviation = render_seconds(nanoseconds);
            line.append(deviation.as_str());
        },
        None => {
            line.append("undefined");
        },
    }
    line.append(" s (got ");
    line.append(output);
    line.append(")");
    line
}

} // verus!
