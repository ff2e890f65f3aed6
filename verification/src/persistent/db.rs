//! What the outcome of a query means: the records it found, `NotFound`
//! where it found none, a `DBError` where the database failed.

use crate::errors::TutorError;
use crate::errors::TutorErrorView;
use crate::models::Course;
use crate::store::course_not_found;
use crate::store::no_courses_found;
use vstd::prelude::*;
use vstd::string::to_string_from_display_ensures;
use vstd::string::StringExecFns;

verus! {

/// `failed` reports the failure `error` of the database: a `DBError` whose
/// cause is the text that the failure displays.
pub open spec fn is_failure_of(failed: TutorError, error: sqlx::Error) -> bool {
    failed matches TutorError::DBError(cause) && to_string_from_display_ensures::<sqlx::Error>(
        &error,
        cause,
    )
}

/// The courses of a tutor, from the rows that the query for them returned.
/// A tutor without courses is reported as `NotFound`.
pub fn get_courses_for_tutor(rows: Result<Vec<Course>, sqlx::Error>) -> (found: Result<
    Vec<Course>,
    TutorError,
>)
    ensures
        match rows {
            Ok(courses) => if courses@.len() == 0 {
                found matches Err(e) && e@ == TutorErrorView::NotFound(no_courses_found())
            } else {
                found matches Ok(list) && list == courses
            },
            Err(error) => found matches Err(e) && is_failure_of(e, error),
        },
{
    match rows {
        Ok(courses) => {
            if courses.is_empty() {
                Err(TutorError::NotFound(String::from_str("No courses found for tutor")))
            } else {
                Ok(courses)
            }
        },
        Err(error) => Err(TutorError::from(error)),
    }
}

/// The course that a pair of tutor and number names, from the row that the
/// query for it returned, if any. A pair that names no course is reported
/// as `NotFound`.
pub fn get_course_details(row: Result<Option<Course>, sqlx::Error>) -> (found: Result<
    Course,
    TutorError,
>)
    ensures
        match row {
            Ok(Some(course)) => found matches Ok(c) && c == course,
            Ok(None) => found matches Err(e) && e@ == TutorErrorView::NotFound(course_not_found()),
            Err(error) => found matches Err(e) && is_failure_of(e, error),
        },
{
    match row {
        Ok(Some(course)) => Ok(course),
        Ok(None) => Err(TutorError::NotFound(String::from_str("Course not found"))),
        Err(error) => Err(TutorError::from(error)),
    }
}

/// The course as the database stored it, from the row that the insertion
/// returned.
pub fn post_new_course(row: Result<Course, sqlx::Error>) -> (stored: Result<Course, TutorError>)
    ensures
        match row {
            Ok(course) => stored matches Ok(c) && c == course,
            Err(error) => stored matches Err(e) && is_failure_of(e, error),
        },
{
    match row {
        Ok(course) => Ok(course),
        Err(error) => Err(TutorError::from(error)),
    }
}

} // verus!
