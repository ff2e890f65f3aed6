//! The in-memory course store: every course in insertion order, each
//! tutor's courses numbered 1, 2, 3, ... as they are created.

use crate::errors::TutorError;
use crate::errors::TutorErrorView;
use crate::models::course_views;
use crate::models::Course;
use crate::models::CourseView;
use chrono::NaiveDateTime;
use vstd::prelude::*;
use vstd::string::StringExecFns;

verus! {

/// The predicate "is owned by `tutor_id`".
pub open spec fn is_owned_by(tutor_id: int) -> spec_fn(CourseView) -> bool {
    |c: CourseView| c.tutor_id == tutor_id
}

/// The courses of one tutor, in insertion order.
pub open spec fn owned_by(courses: Seq<CourseView>, tutor_id: int) -> Seq<CourseView> {
    courses.filter(is_owned_by(tutor_id))
}

/// The number that the next course of `tutor_id` gets: one more than the
/// courses the tutor already owns.
pub open spec fn next_course_id(courses: Seq<CourseView>, tutor_id: int) -> nat {
    owned_by(courses, tutor_id).len() + 1
}

/// Every course carries the number it was due when it was inserted.
pub open spec fn numbered_in_order(courses: Seq<CourseView>) -> bool {
    forall|i: int|
        0 <= i < courses.len() ==> (#[trigger] courses[i]).course_id == Some(
            next_course_id(courses.take(i), courses[i].tutor_id),
        )
}

/// The course is the one named by the pair `(tutor_id, course_id)`.
pub open spec fn has_key(course: CourseView, tutor_id: int, course_id: nat) -> bool {
    course.tutor_id == tutor_id && course.course_id == Some(course_id)
}

/// Position `i` holds the first course with the given key.
pub open spec fn is_first_with_key(
    courses: Seq<CourseView>,
    tutor_id: int,
    course_id: nat,
    i: int,
) -> bool {
    &&& 0 <= i < courses.len()
    &&& has_key(courses[i], tutor_id, course_id)
    &&& forall|j: int| 0 <= j < i ==> !has_key(#[trigger] courses[j], tutor_id, course_id)
}

/// The first course with the given key, if there is one.
pub open spec fn lookup(courses: Seq<CourseView>, tutor_id: int, course_id: nat) -> Option<
    CourseView,
> {
    if exists|i: int| is_first_with_key(courses, tutor_id, course_id, i) {
        Some(courses[choose|i: int| is_first_with_key(courses, tutor_id, course_id, i)])
    } else {
        None
    }
}

/// The record that `create` stores for a request.
pub open spec fn created(
    courses: Seq<CourseView>,
    tutor_id: int,
    course_name: Seq<char>,
    posted_time: NaiveDateTime,
) -> CourseView {
    CourseView {
        tutor_id,
        course_id: Some(next_course_id(courses, tutor_id)),
        course_name,
        posted_time: Some(posted_time),
    }
}

/// The text that tells a caller that a key names no course.
pub open spec fn course_not_found() -> Seq<char> {
    "Course not found"@
}

/// The text that tells a caller that a tutor has no courses.
pub open spec fn no_courses_found() -> Seq<char> {
    "No courses found for tutor"@
}

/// All courses, in insertion order.
pub struct CourseStore {
    courses: Vec<Course>,
}

impl View for CourseStore {
    type V = Seq<CourseView>;

    closed spec fn view(&self) -> Seq<CourseView> {
        course_views(self.courses@)
    }
}

impl CourseStore {
    /// The store's invariant: each course carries its tutor's next number
    /// at the time it was inserted, so no two courses share a key.
    pub open spec fn wf(&self) -> bool {
        numbered_in_order(self@)
    }

    /// An empty store.
    pub fn new() -> (store: Self)
        ensures
            store.wf(),
            store@ == Seq::<CourseView>::empty(),
    {
        let store = CourseStore { courses: Vec::new() };
        assert(store@ =~= Seq::<CourseView>::empty());
        store
    }

    /// The number of courses, of all tutors together.
    pub fn len(&self) -> (n: usize)
        ensures
            n == self@.len(),
    {
        self.courses.len()
    }

    /// How many courses `tutor_id` owns.
    pub fn count_for_tutor(&self, tutor_id: i32) -> (n: usize)
        ensures
            n == owned_by(self@, tutor_id as int).len(),
    {
        let mut n: usize = 0;
        let mut i: usize = 0;
        proof {
            assert(self@.take(0) =~= Seq::<CourseView>::empty());
            reveal(Seq::filter);
        }
        while i < self.courses.len()
            invariant
                i <= self.courses.len(),
                n <= i,
                n == owned_by(self@.take(i as int), tutor_id as int).len(),
            decreases self.courses.len() - i,
        {
            proof {
                lemma_owned_by_take_next(self@, tutor_id as int, i as int);
            }
            if self.courses[i].tutor_id == tutor_id {
                n = n + 1;
            }
            i = i + 1;
        }
        assert(self@.take(i as int) =~= self@);
        n
    }

    /// All courses of `tutor_id`, in insertion order. A tutor without
    /// courses gets an empty list.
    pub fn list_for_tutor(&self, tutor_id: i32) -> (found: Vec<Course>)
        ensures
            course_views(found@) == owned_by(self@, tutor_id as int),
    {
        let mut found: Vec<Course> = Vec::new();
        let mut i: usize = 0;
        proof {
            assert(self@.take(0) =~= Seq::<CourseView>::empty());
            reveal(Seq::filter);
            assert(course_views(found@) =~= owned_by(self@.take(0), tutor_id as int));
        }
        while i < self.courses.len()
            invariant
                i <= self.courses.len(),
                course_views(found@) == owned_by(self@.take(i as int), tutor_id as int),
            decreases self.courses.len() - i,
        {
            proof {
                lemma_owned_by_take_next(self@, tutor_id as int, i as int);
            }
            if self.courses[i].tutor_id == tutor_id {
                let ghost before = found@;
                let copy = self.courses[i].clone();
                found.push(copy);
                assert(course_views(found@) =~= course_views(before).push(copy@));
            }
            i = i + 1;
        }
        assert(self@.take(i as int) =~= self@);
        found
    }

    /// The course with the key `(tutor_id, course_id)`, or `NotFound` where
    /// no course has that key.
    pub fn get_detail(&self, tutor_id: i32, course_id: usize) -> (found: Result<
        Course,
        TutorError,
    >)
        ensures
            match lookup(self@, tutor_id as int, course_id as nat) {
                Some(course) => found matches Ok(c) && c@ == course,
                None => found matches Err(e) && e@ == TutorErrorView::NotFound(
                    course_not_found(),
                ),
            },
    {
        let mut i: usize = 0;
        while i < self.courses.len()
            invariant
                i <= self.courses.len(),
                forall|j: int|
                    0 <= j < i ==> !has_key(#[trigger] self@[j], tutor_id as int, course_id as nat),
            decreases self.courses.len() - i,
        {
            let course = &self.courses[i];
            let same_id = match course.course_id {
                Some(id) => id == course_id,
                None => false,
            };
            if course.tutor_id == tutor_id && same_id {
                assert(is_first_with_key(self@, tutor_id as int, course_id as nat, i as int));
                return Ok(course.clone());
            }
            i = i + 1;
        }
        Err(TutorError::NotFound(String::from_str("Course not found")))
    }

    /// Stores a new course of `tutor_id` and returns it as stored, with the
    /// tutor's next number and `posted_time`.
    pub fn create(&mut self, tutor_id: i32, course_name: String, posted_time: NaiveDateTime) -> (course:
        Course)
        requires
            old(self).wf(),
            old(self)@.len() < usize::MAX,
        ensures
            final(self).wf(),
            course@ == created(old(self)@, tutor_id as int, course_name@, posted_time),
            final(self)@ == old(self)@.push(course@),
    {
        let owned = self.count_for_tutor(tutor_id);
        proof {
            self@.lemma_filter_len(is_owned_by(tutor_id as int));
        }
        let course = Course {
            tutor_id,
            course_id: Some(owned + 1),
            course_name,
            posted_time: Some(posted_time),
        };
        let stored = course.clone();
        self.courses.push(stored);
        proof {
            assert(final(self)@ =~= old(self)@.push(course@));
            lemma_push_keeps_numbering(old(self)@, course@);
        }
        course
    }
}

/// The courses a tutor owns among the first `i + 1` are those among the
/// first `i`, and then the course at `i` if it is the tutor's.
pub proof fn lemma_owned_by_take_next(courses: Seq<CourseView>, tutor_id: int, i: int)
    requires
        0 <= i < courses.len(),
    ensures
        owned_by(courses.take(i + 1), tutor_id) == if courses[i].tutor_id == tutor_id {
            owned_by(courses.take(i), tutor_id).push(courses[i])
        } else {
            owned_by(courses.take(i), tutor_id)
        },
{
    assert(courses.take(i + 1) =~= courses.take(i).push(courses[i]));
    courses.take(i).lemma_filter_push(courses[i], is_owned_by(tutor_id));
}

/// Appending the record that is due for its tutor keeps the numbering.
pub proof fn lemma_push_keeps_numbering(courses: Seq<CourseView>, course: CourseView)
    requires
        numbered_in_order(courses),
        course.course_id == Some(next_course_id(courses, course.tutor_id)),
    ensures
        numbered_in_order(courses.push(course)),
{
    let after = courses.push(course);
    assert forall|i: int| 0 <= i < after.len() implies (#[trigger] after[i]).course_id == Some(
        next_course_id(after.take(i), after[i].tutor_id),
    ) by {
        if i < courses.len() {
            assert(after.take(i) =~= courses.take(i));
            assert(after[i] == courses[i]);
        } else {
            assert(after.take(i) =~= courses);
        }
    }
}

} // verus!
