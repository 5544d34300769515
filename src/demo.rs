//! The demonstration program's output up to its console read, as values.
use vstd::prelude::*;
use vstd::string::StringExecFns;

use crate::greeting::{greeting, greeting_text};
use crate::script::{
    break_loop_lines, for_loop_lines, for_output, grade_remark, loop_output, remark_text,
    status_line, status_text, texts, while_loop_lines, while_output,
};
use crate::student::{info_text, Person, Student, StudentView};

verus! {

/// The lines that the program prints before it reads a line: the student
/// check, the three loops, the greeting of John, John's record described and
/// named, and the remark for grade "A".
pub open spec fn demo_output() -> Seq<Seq<char>> {
    seq![status_text(true)] + for_output(1, 5) + while_output(5) + loop_output(5) + seq![
        greeting_text("John"@),
        info_text(StudentView { name: "John"@, age: 20, grade: "A"@ }),
        "Name from trait: "@ + "John"@,
        remark_text("A"@),
    ]
}

/// Appends `more` to `lines`.
fn extend_lines(lines: &mut Vec<String>, more: Vec<String>)
    ensures
        texts(final(lines)@) == texts(old(lines)@) + texts(more@),
{
    let ghost added = more@;
    let mut more = more;
    lines.append(&mut more);
    assert(texts(lines@) =~= texts(old(lines)@) + texts(added));
}

/// Appends `line` to `lines`.
fn push_line(lines: &mut Vec<String>, line: String)
    ensures
        texts(final(lines)@) == texts(old(lines)@).push(line@),
{
    lines.push(line);
    assert(texts(lines@) =~= texts(old(lines)@).push(line@));
}

/// The lines that the program prints before it reads a line, in order.
pub fn demo_lines() -> (r: Vec<String>)
    ensures
        texts(r@) == demo_output(),
{
    let mut lines: Vec<String> = Vec::new();
    push_line(&mut lines, status_line(true));
    extend_lines(&mut lines, for_loop_lines(1, 5));
    extend_lines(&mut lines, while_loop_lines(5));
    extend_lines(&mut lines, break_loop_lines(5));
    push_line(&mut lines, greeting("John"));
    let student = Student::new(String::from_str("John"), 20, String::from_str("A"));
    push_line(&mut lines, student.get_info());
    let mut by_trait = String::from_str("Name from trait: ");
    by_trait.append(student.get_name().as_str());
    push_line(&mut lines, by_trait);
    push_line(&mut lines, grade_remark("A"));
    assert(texts(lines@) =~= demo_output());
    lines
}

} // verus!
