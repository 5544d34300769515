//! A learner record and the capability of exposing a name.
use vstd::prelude::*;
use vstd::string::StringExecFns;

use crate::decimal::{decimal, push_decimal};

verus! {

/// Something that has a display name.
pub trait Person {
    /// The name, as text.
    spec fn name_text(&self) -> Seq<char>;

    /// A borrowed reference to the name.
    fn get_name(&self) -> (r: &String)
        ensures
            r@ == self.name_text(),
    ;
}

/// What a learner record holds.
pub struct StudentView {
    pub name: Seq<char>,
    pub age: nat,
    pub grade: Seq<char>,
}

/// A learner: a name, an age and a grade label. Any values are accepted.
pub struct Student {
    name: String,
    age: u32,
    grade: String,
}

impl View for Student {
    type V = StudentView;

    closed spec fn view(&self) -> StudentView {
        StudentView { name: self.name@, age: self.age as nat, grade: self.grade@ }
    }
}

/// The description of a learner: `Name: {name}, Age: {age}, Grade: {grade}`.
pub open spec fn info_text(v: StudentView) -> Seq<char> {
    "Name: "@ + v.name + ", Age: "@ + decimal(v.age) + ", Grade: "@ + v.grade
}

impl Student {
    /// Makes a learner from its three values, taking ownership of the texts.
    pub fn new(name: String, age: u32, grade: String) -> (r: Student)
        ensures
            r@ == (StudentView { name: name@, age: age as nat, grade: grade@ }),
    {
        Student { name, age, grade }
    }

    /// The one-line description of this learner.
    pub fn get_info(&self) -> (r: String)
        ensures
            r@ == info_text(self@),
    {
        let mut s = String::from_str("Name: ");
        s.append(self.name.as_str());
        s.append(", Age: ");
        push_decimal(&mut s, self.age);
        s.append(", Grade: ");
        s.append(self.grade.as_str());
        s
    }
}

impl Person for Student {
    open spec fn name_text(&self) -> Seq<char> {
        self@.name
    }

    fn get_name(&self) -> (r: &String) {
        &self.name
    }
}

} // verus!
