//! The demonstration itself: the three operations run on fixed inputs, and
//! the lines of text that show their results.

use vstd::prelude::*;
use crate::arith::{calculate_total, partial_sum, process_data};
use crate::decimal::{decimal, decimal_digits, decimal_text};

verus! {

/// The text of a result line: the label, a colon and a space, then the value
/// in decimal.
pub open spec fn line_text(label: Seq<char>, value: int) -> Seq<char> {
    label + seq![':', ' '] + decimal_text(value)
}

/// The line that shows `value` under `label`.
pub fn labelled_line(label: &str, value: i32) -> (line: String)
    ensures
        line@ == line_text(label@, value as int),
{
    proof {
        reveal_strlit(": ");
    }
    let digits: String = decimal(value);
    let mut line: String = label.to_owned();
    line.append(": ");
    line.append(digits.as_str());
    line
}

/// The lines of the demonstration, in the order in which they are shown: a
/// heading, then the sum of 10 and 20, the total of 1, 2, 3, 4, 5, and the
/// transformation of 100.
pub fn report() -> (lines: Vec<String>)
    ensures
        lines@.len() == 4,
        lines@[0]@ == "Rust Debugging Sample Program"@,
        lines@[1]@ == "Sum: 30"@,
        lines@[2]@ == "Total: 15"@,
        lines@[3]@ == "Result: 210"@,
{
    let x: i32 = 10;
    let y: i32 = 20;
    let sum: i32 = crate::arith::add(x, y);

    let numbers: Vec<i32> = vec![1, 2, 3, 4, 5];
    assert(partial_sum(numbers@, 5) == 15) by {
        reveal_with_fuel(partial_sum, 6);
    }
    let total: i32 = calculate_total(numbers.as_slice());

    let result: i32 = process_data(100);

    let mut lines: Vec<String> = Vec::new();
    lines.push("Rust Debugging Sample Program".to_owned());
    lines.push(labelled_line("Sum", sum));
    lines.push(labelled_line("Total", total));
    lines.push(labelled_line("Result", result));

    proof {
        reveal_with_fuel(decimal_digits, 3);
        reveal_strlit("Sum");
        reveal_strlit("Total");
        reveal_strlit("Result");
        reveal_strlit("Sum: 30");
        reveal_strlit("Total: 15");
        reveal_strlit("Result: 210");
    }
    lines
}

} // verus!
