use rust_example::demo::demo_lines;
use rust_example::script::{
    break_loop_lines, for_loop_lines, grade_remark, read_report, status_line, while_loop_lines,
};

#[test]
fn status_lines() {
    assert_eq!(status_line(true), "This is a student.");
    assert_eq!(status_line(false), "This is not a student.");
}

#[test]
fn counting_loop_one_to_four() {
    let lines = for_loop_lines(1, 5);
    assert_eq!(
        lines,
        vec![
            "This is for loop number 1",
            "This is for loop number 2",
            "This is for loop number 3",
            "This is for loop number 4",
        ]
    );
}

#[test]
fn counting_loop_empty_ranges() {
    assert!(for_loop_lines(3, 3).is_empty());
    assert!(for_loop_lines(5, 1).is_empty());
}

#[test]
fn while_loop_below_five() {
    let lines = while_loop_lines(5);
    assert_eq!(lines.len(), 5);
    assert_eq!(lines[0], "This is while loop number 0");
    assert_eq!(lines[4], "This is while loop number 4");
    assert!(while_loop_lines(0).is_empty());
}

#[test]
fn break_loop_stops_at_five() {
    let lines = break_loop_lines(5);
    assert_eq!(
        lines,
        vec![
            "This is loop number 1",
            "2 is divisible by 2 or 3",
            "This is loop number 2",
            "3 is divisible by 2 or 3",
            "This is loop number 3",
            "4 is divisible by 2 or 3",
            "This is loop number 4",
            "This is loop number 5",
        ]
    );
    let passes = lines.iter().filter(|l| l.starts_with("This is loop number ")).count();
    assert_eq!(passes, 5);
}

#[test]
fn break_loop_single_pass() {
    assert_eq!(break_loop_lines(1), vec!["This is loop number 1"]);
}

#[test]
fn grade_remarks() {
    assert_eq!(grade_remark("A"), "Excellent!");
    assert_eq!(grade_remark("X"), "Excellent!");
    assert_eq!(grade_remark("B"), "Good!");
    assert_eq!(grade_remark("C"), "Fair!");
    assert_eq!(grade_remark("D"), "Poor!");
    assert_eq!(grade_remark("F"), "Fail!");
}

#[test]
fn grade_unknown_is_invalid() {
    assert_eq!(grade_remark("E"), "Invalid Grade");
    assert_eq!(grade_remark("a"), "Invalid Grade");
    assert_eq!(grade_remark("AA"), "Invalid Grade");
    assert_eq!(grade_remark(""), "Invalid Grade");
}

#[test]
fn read_report_success_and_failure() {
    assert_eq!(read_report(&Ok(0)), "Success!");
    assert_eq!(read_report(&Ok(12)), "Success!");
    let failed = read_report(&Err(String::from("stream did not contain valid UTF-8")));
    assert_eq!(failed, "Oops! Something went wrong: stream did not contain valid UTF-8");
    assert!(read_report(&Err(String::new())).starts_with("Oops!"));
}

#[test]
fn demo_output_in_order() {
    let lines = demo_lines();
    assert_eq!(lines.len(), 1 + 4 + 5 + 8 + 4);
    assert_eq!(lines[0], "This is a student.");
    assert_eq!(lines[1], "This is for loop number 1");
    assert_eq!(lines[5], "This is while loop number 0");
    assert_eq!(lines[10], "This is loop number 1");
    assert_eq!(lines[18], "Hello, John!");
    assert_eq!(lines[19], "Name: John, Age: 20, Grade: A");
    assert_eq!(lines[20], "Name from trait: John");
    assert_eq!(lines[21], "Excellent!");
}
