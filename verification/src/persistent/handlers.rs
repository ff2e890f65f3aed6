//! The handlers of the database-backed service. Each takes what the query
//! returned and gives the response, or the error that the caller is told.

use crate::errors::TutorError;
use crate::errors::TutorErrorView;
use crate::health::count_visit;
use crate::health::health_message;
use crate::health::health_text;
use crate::health::next_visit;
use crate::models::course_views;
use crate::models::Course;
use crate::persistent::db;
use crate::persistent::db::is_failure_of;
use crate::response::ok_response;
use crate::response::Body;
use crate::response::BodyView;
use crate::response::Response;
use crate::store::course_not_found;
use crate::store::no_courses_found;
use vstd::prelude::*;

verus! {

/// Answers with the fixed message and the number of earlier visits, and
/// counts this visit.
pub fn health_check(health_check_response: &String, visit_count: &mut u32) -> (response: Response)
    ensures
        response@ == ok_response(
            BodyView::Text(health_text(health_check_response@, *old(visit_count) as nat)),
        ),
        *final(visit_count) == next_visit(*old(visit_count)),
{
    let earlier = count_visit(visit_count);
    Response::ok(Body::Text(health_message(health_check_response, earlier)))
}

/// Answers a request for the courses of a tutor: the courses that the
/// query returned, `NotFound` where it returned none.
pub fn get_courses_for_tutor(rows: Result<Vec<Course>, sqlx::Error>) -> (answer: Result<
    Response,
    TutorError,
>)
    ensures
        match rows {
            Ok(courses) => if courses@.len() == 0 {
                answer matches Err(e) && e@ == TutorErrorView::NotFound(no_courses_found())
            } else {
                answer matches Ok(response) && response@ == ok_response(
                    BodyView::Courses(course_views(courses@)),
                )
            },
            Err(error) => answer matches Err(e) && is_failure_of(e, error),
        },
{
    match db::get_courses_for_tutor(rows) {
        Ok(courses) => Ok(Response::ok(Body::Courses(courses))),
        Err(error) => Err(error),
    }
}

/// Answers a request for one course: the course that the query returned,
/// `NotFound` where it returned none.
pub fn get_course_details(row: Result<Option<Course>, sqlx::Error>) -> (answer: Result<
    Response,
    TutorError,
>)
    ensures
        match row {
            Ok(Some(course)) => answer matches Ok(response) && response@ == ok_response(
                BodyView::Course(course@),
            ),
            Ok(None) => answer matches Err(e) && e@ == TutorErrorView::NotFound(course_not_found()),
            Err(error) => answer matches Err(e) && is_failure_of(e, error),
        },
{
    match db::get_course_details(row) {
        Ok(course) => Ok(Response::ok(Body::Course(course))),
        Err(error) => Err(error),
    }
}

/// Answers a creation request with the course as the database stored it.
pub fn post_new_course(row: Result<Course, sqlx::Error>) -> (answer: Result<Response, TutorError>)
    ensures
        match row {
            Ok(course) => answer matches Ok(response) && response@ == ok_response(
                BodyView::Course(course@),
            ),
            Err(error) => answer matches Err(e) && is_failure_of(e, error),
        },
{
    match db::post_new_course(row) {
        Ok(course) => Ok(Response::ok(Body::Course(course))),
        Err(error) => Err(error),
    }
}

} // verus!
