use arith_demo::decimal::decimal;
use arith_demo::report::{labelled_line, report};

#[test]
fn decimal_of_zero() {
    assert_eq!(decimal(0), "0");
}

#[test]
fn decimal_of_single_digits() {
    let digits: [&str; 10] = ["0", "1", "2", "3", "4", "5", "6", "7", "8", "9"];
    let mut value: i32 = 0;
    while value < 10 {
        assert_eq!(decimal(value), digits[value as usize]);
        value += 1;
    }
}

#[test]
fn decimal_of_the_demonstration_values() {
    assert_eq!(decimal(30), "30");
    assert_eq!(decimal(15), "15");
    assert_eq!(decimal(210), "210");
}

#[test]
fn decimal_of_negative_values() {
    assert_eq!(decimal(-1), "-1");
    assert_eq!(decimal(-10), "-10");
    assert_eq!(decimal(-907), "-907");
}

#[test]
fn decimal_keeps_inner_and_trailing_zeros() {
    assert_eq!(decimal(10), "10");
    assert_eq!(decimal(100), "100");
    assert_eq!(decimal(1_000_000), "1000000");
    assert_eq!(decimal(1_002_003), "1002003");
}

#[test]
fn decimal_at_the_ends_of_the_range() {
    assert_eq!(decimal(i32::MAX), "2147483647");
    assert_eq!(decimal(i32::MIN), "-2147483648");
}

#[test]
fn decimal_agrees_with_the_standard_formatting() {
    let samples: [i32; 12] = [
        0, 9, 10, 99, 100, 12_345, -12_345, 999_999_999, 1_000_000_000, -1_000_000_000,
        i32::MAX, i32::MIN,
    ];
    for &value in samples.iter() {
        assert_eq!(decimal(value), format!("{}", value));
    }
    let mut value: i32 = -2500;
    while value <= 2500 {
        assert_eq!(decimal(value), format!("{}", value));
        value += 1;
    }
}

#[test]
fn labelled_line_joins_label_and_value() {
    assert_eq!(labelled_line("Sum", 30), "Sum: 30");
    assert_eq!(labelled_line("Total", 15), "Total: 15");
    assert_eq!(labelled_line("Result", 210), "Result: 210");
}

#[test]
fn labelled_line_with_other_labels_and_values() {
    assert_eq!(labelled_line("", 0), ": 0");
    assert_eq!(labelled_line("Balance", -42), "Balance: -42");
    assert_eq!(labelled_line("a: b", 7), "a: b: 7");
}

#[test]
fn report_is_the_four_lines_in_order() {
    let lines: Vec<String> = report();
    let expected: Vec<String> = vec![
        String::from("Rust Debugging Sample Program"),
        String::from("Sum: 30"),
        String::from("Total: 15"),
        String::from("Result: 210"),
    ];
    assert_eq!(lines, expected);
}

#[test]
fn report_has_no_further_lines() {
    assert_eq!(report().len(), 4);
}

#[test]
fn report_lines_hold_no_line_breaks() {
    for line in report().iter() {
        assert!(!line.contains('\n'));
        assert!(!line.contains('\r'));
    }
}

#[test]
fn report_is_the_same_on_every_call() {
    assert_eq!(report(), report());
}

#[test]
fn report_lines_match_the_operations() {
    let lines: Vec<String> = report();
    assert_eq!(lines[1], labelled_line("Sum", arith_demo::arith::add(10, 20)));
    assert_eq!(
        lines[2],
        labelled_line("Total", arith_demo::arith::calculate_total(&[1, 2, 3, 4, 5]))
    );
    assert_eq!(lines[3], labelled_line("Result", arith_demo::arith::process_data(100)));
}
