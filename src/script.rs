//! The lines that the demonstration program prints, computed as values.
use vstd::prelude::*;
use vstd::string::StringExecFns;

use crate::decimal::{decimal, lemma_decimal_starts_with_digit, push_decimal};

verus! {

/// The texts of a sequence of strings.
pub open spec fn texts(v: Seq<String>) -> Seq<Seq<char>> {
    v.map_values(|s: String| s@)
}

/// The line that reports whether the subject is a student.
pub open spec fn status_text(is_student: bool) -> Seq<char> {
    if is_student {
        "This is a student."@
    } else {
        "This is not a student."@
    }
}

/// The line of the counting loop for the value `i`.
pub open spec fn for_text(i: nat) -> Seq<char> {
    "This is for loop number "@ + decimal(i)
}

/// What the counting loop over `start..end` prints.
pub open spec fn for_output(start: nat, end: nat) -> Seq<Seq<char>> {
    Seq::new(
        if start <= end {
            (end - start) as nat
        } else {
            0
        },
        |k: int| for_text((start + k) as nat),
    )
}

/// The line of the condition-checked loop for the counter `i`.
pub open spec fn while_text(i: nat) -> Seq<char> {
    "This is while loop number "@ + decimal(i)
}

/// What the condition-checked loop prints for counters `0..limit`.
pub open spec fn while_output(limit: nat) -> Seq<Seq<char>> {
    Seq::new(limit, |k: int| while_text(k as nat))
}

/// The line printed on every pass of the unconditional loop.
pub open spec fn loop_text(i: nat) -> Seq<char> {
    "This is loop number "@ + decimal(i)
}

/// The line printed when the counter is divisible by 2 or 3.
pub open spec fn divisible_text(i: nat) -> Seq<char> {
    decimal(i) + " is divisible by 2 or 3"@
}

/// Whether the unconditional loop notes divisibility for the counter `i`.
pub open spec fn noted_divisible(i: nat) -> bool {
    i % 2 == 0 || i % 3 == 0
}

/// What one pass of the unconditional loop prints for the counter `i`.
pub open spec fn loop_pass(i: nat) -> Seq<Seq<char>> {
    if noted_divisible(i) {
        seq![divisible_text(i), loop_text(i)]
    } else {
        seq![loop_text(i)]
    }
}

/// What the unconditional loop prints over its first `n` passes, counters `1..=n`.
pub open spec fn loop_output(n: nat) -> Seq<Seq<char>>
    decreases n,
{
    if n == 0 {
        seq![]
    } else {
        loop_output((n - 1) as nat) + loop_pass(n)
    }
}

/// `prefix` followed by the decimal text of `n`.
fn numbered(prefix: &str, n: u32) -> (r: String)
    ensures
        r@ == prefix@ + decimal(n as nat),
{
    let mut s = String::from_str(prefix);
    push_decimal(&mut s, n);
    s
}

/// The line that reports whether the subject is a student.
pub fn status_line(is_student: bool) -> (r: String)
    ensures
        r@ == status_text(is_student),
{
    if is_student {
        String::from_str("This is a student.")
    } else {
        String::from_str("This is not a student.")
    }
}

/// The lines of the counting loop over `start..end`, one for each value in order.
pub fn for_loop_lines(start: u32, end: u32) -> (r: Vec<String>)
    ensures
        texts(r@) == for_output(start as nat, end as nat),
{
    let mut lines: Vec<String> = Vec::new();
    let mut i: u32 = start;
    while i < end
        invariant
            start <= end ==> start <= i <= end,
            start > end ==> i == start,
            lines@.len() == i - start,
            forall|k: int| 0 <= k < lines@.len() ==> #[trigger] lines@[k]@ == for_text(
                (start + k) as nat,
            ),
        decreases end - i,
    {
        lines.push(numbered("This is for loop number ", i));
        i = i + 1;
    }
    assert(texts(lines@) =~= for_output(start as nat, end as nat));
    lines
}

/// The lines of the condition-checked loop: the counter from 0 while below `limit`.
pub fn while_loop_lines(limit: u32) -> (r: Vec<String>)
    ensures
        texts(r@) == while_output(limit as nat),
{
    let mut lines: Vec<String> = Vec::new();
    let mut count: u32 = 0;
    while count < limit
        invariant
            count <= limit,
            lines@.len() == count,
            forall|k: int| 0 <= k < lines@.len() ==> #[trigger] lines@[k]@ == while_text(k as nat),
        decreases limit - count,
    {
        lines.push(numbered("This is while loop number ", count));
        count = count + 1;
    }
    assert(texts(lines@) =~= while_output(limit as nat));
    lines
}

/// The lines of the unconditional loop that counts from 1 and stops once the
/// counter reaches `stop`: exactly `stop` passes.
pub fn break_loop_lines(stop: u32) -> (r: Vec<String>)
    requires
        stop >= 1,
    ensures
        texts(r@) == loop_output(stop as nat),
{
    let mut lines: Vec<String> = Vec::new();
    let mut number: u32 = 0;
    loop
        invariant_except_break
            number < stop,
        invariant
            texts(lines@) == loop_output(number as nat),
        ensures
            texts(lines@) == loop_output(stop as nat),
        decreases stop - number,
    {
        let ghost before = lines@;
        number = number + 1;
        if number % 2 == 0 || number % 3 == 0 {
            let mut note = String::new();
            push_decimal(&mut note, number);
            note.append(" is divisible by 2 or 3");
            lines.push(note);
        }
        lines.push(numbered("This is loop number ", number));
        assert(texts(lines@) =~= texts(before) + loop_pass(number as nat));
        if number == stop {
            break;
        }
    }
    lines
}


/// The remark for a grade label: "A" and "X" share one, four more labels have
/// their own, and every other label is invalid.
pub open spec fn remark_text(grade: Seq<char>) -> Seq<char> {
    if grade == "A"@ || grade == "X"@ {
        "Excellent!"@
    } else if grade == "B"@ {
        "Good!"@
    } else if grade == "C"@ {
        "Fair!"@
    } else if grade == "D"@ {
        "Poor!"@
    } else if grade == "F"@ {
        "Fail!"@
    } else {
        "Invalid Grade"@
    }
}

/// Whether `grade` is one of the labels that the grade match knows.
pub open spec fn known_grade(grade: Seq<char>) -> bool {
    grade == "A"@ || grade == "X"@ || grade == "B"@ || grade == "C"@ || grade == "D"@
        || grade == "F"@
}

/// The report on reading a line: success, or the description of the failure.
pub open spec fn report_text(outcome: Result<usize, Seq<char>>) -> Seq<char> {
    match outcome {
        Ok(_) => "Success!"@,
        Err(e) => "Oops! Something went wrong: "@ + e,
    }
}

/// Whether two texts are equal.
fn same_text(a: &str, b: &str) -> (r: bool)
    ensures
        r == (a@ == b@),
{
    String::from_str(a) == String::from_str(b)
}

/// The remark for a grade label.
pub fn grade_remark(grade: &str) -> (r: String)
    ensures
        r@ == remark_text(grade@),
{
    if same_text(grade, "A") || same_text(grade, "X") {
        String::from_str("Excellent!")
    } else if same_text(grade, "B") {
        String::from_str("Good!")
    } else if same_text(grade, "C") {
        String::from_str("Fair!")
    } else if same_text(grade, "D") {
        String::from_str("Poor!")
    } else if same_text(grade, "F") {
        String::from_str("Fail!")
    } else {
        String::from_str("Invalid Grade")
    }
}

/// The report on reading a line, given the number of bytes read or the
/// description of the failure.
pub fn read_report(outcome: &Result<usize, String>) -> (r: String)
    ensures
        r@ == report_text(
            match outcome {
                Ok(n) => Ok(*n),
                Err(e) => Err(e@),
            },
        ),
{
    match outcome {
        Ok(_) => String::from_str("Success!"),
        Err(e) => {
            let mut s = String::from_str("Oops! Something went wrong: ");
            s.append(e.as_str());
            s
        },
    }
}

/// Every label outside the known six gets the invalid-grade remark, and "A"
/// gets the same remark as "X".
pub proof fn lemma_unknown_grade_is_invalid(grade: Seq<char>)
    ensures
        !known_grade(grade) ==> remark_text(grade) == "Invalid Grade"@,
        remark_text("A"@) == remark_text("X"@),
        remark_text("A"@) == "Excellent!"@,
{
}

/// Whatever the read gives, the report is "Success!" or starts with "Oops!".
pub proof fn lemma_report_is_success_or_oops(outcome: Result<usize, Seq<char>>)
    ensures
        report_text(outcome) == "Success!"@ || "Oops!"@.is_prefix_of(report_text(outcome)),
{
    reveal_strlit("Oops!");
    reveal_strlit("Oops! Something went wrong: ");
    if let Err(e) = outcome {
        assert(report_text(outcome).subrange(0, 5) =~= "Oops!"@);
    }
}

/// On every pass of the unconditional loop the per-pass line comes last, and
/// the divisibility line, where there is one, comes first.
pub proof fn lemma_loop_pass_order(i: nat)
    ensures
        loop_pass(i).last() == loop_text(i),
        noted_divisible(i) ==> loop_pass(i).len() == 2 && loop_pass(i)[0] == divisible_text(i),
        !noted_divisible(i) ==> loop_pass(i).len() == 1,
{
}

/// Whether `l` is a per-pass line of the unconditional loop.
pub open spec fn is_loop_line(l: Seq<char>) -> bool {
    "This is loop number "@.is_prefix_of(l)
}

/// A divisibility line is never taken for a per-pass line.
proof fn lemma_divisible_is_not_loop_line(i: nat)
    ensures
        !is_loop_line(divisible_text(i)),
        is_loop_line(loop_text(i)),
{
    reveal_strlit("This is loop number ");
    lemma_decimal_starts_with_digit(i);
    assert(divisible_text(i)[0] == decimal(i)[0]);
    if is_loop_line(divisible_text(i)) {
        assert(divisible_text(i).subrange(0, 20)[0] == divisible_text(i)[0]);
        assert("This is loop number "@[0] == 'T');
    }
    assert(loop_text(i).subrange(0, 20) =~= "This is loop number "@);
}

/// The unconditional loop prints one per-pass line for each counter `1..=n`,
/// so it makes exactly `n` passes.
pub proof fn lemma_loop_output_passes(n: nat)
    ensures
        loop_output(n).filter(|l: Seq<char>| is_loop_line(l)).len() == n,
    decreases n,
{
    if n > 0 {
        lemma_loop_output_passes((n - 1) as nat);
        let f = |l: Seq<char>| is_loop_line(l);
        Seq::filter_distributes_over_add(loop_output((n - 1) as nat), loop_pass(n), f);
        lemma_divisible_is_not_loop_line(n);
        reveal_with_fuel(Seq::filter, 3);
    }
}

} // verus!
