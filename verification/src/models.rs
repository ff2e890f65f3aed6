//! The course record and its mathematical model.

use chrono::NaiveDateTime;
use vstd::prelude::*;

verus! {

/// `chrono::NaiveDateTime`, carried through the library as an opaque value:
/// nothing here looks inside a timestamp.
#[verifier::external_type_specification]
#[verifier::external_body]
pub struct ExNaiveDateTime(chrono::NaiveDateTime);

/// A course offered by a tutor.
///
/// `course_id` and `posted_time` are absent in a creation request and are
/// assigned by the store.
#[derive(Debug)]
pub struct Course {
    pub tutor_id: i32,
    pub course_id: Option<usize>,
    pub course_name: String,
    pub posted_time: Option<NaiveDateTime>,
}

/// What a [`Course`] is, as plain mathematical values.
pub struct CourseView {
    pub tutor_id: int,
    pub course_id: Option<nat>,
    pub course_name: Seq<char>,
    pub posted_time: Option<NaiveDateTime>,
}

impl View for Course {
    type V = CourseView;

    open spec fn view(&self) -> CourseView {
        CourseView {
            tutor_id: self.tutor_id as int,
            course_id: match self.course_id {
                Some(id) => Some(id as nat),
                None => None,
            },
            course_name: self.course_name@,
            posted_time: self.posted_time,
        }
    }
}

/// The models of a sequence of courses, in the same order.
pub open spec fn course_views(courses: Seq<Course>) -> Seq<CourseView> {
    courses.map_values(|c: Course| c@)
}

impl Clone for Course {
    fn clone(&self) -> (copy: Self)
        ensures
            copy@ == self@,
    {
        Course {
            tutor_id: self.tutor_id,
            course_id: self.course_id,
            course_name: self.course_name.clone(),
            posted_time: self.posted_time,
        }
    }
}

impl Course {
    /// A creation request: the tutor and the name, nothing assigned yet.
    pub fn new(tutor_id: i32, course_name: String) -> (course: Self)
        ensures
            course@ == (CourseView {
                tutor_id: tutor_id as int,
                course_id: None,
                course_name: course_name@,
                posted_time: None,
            }),
    {
        Course { tutor_id, course_id: None, course_name, posted_time: None }
    }
}

} // verus!
