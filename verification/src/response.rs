//! What a handler answers: an HTTP status and a body that is rendered as
//! JSON when it is sent.

use crate::errors::ErrorResponse;
use crate::errors::TutorError;
use crate::errors::TutorErrorView;
use crate::models::course_views;
use crate::models::Course;
use crate::models::CourseView;
use vstd::prelude::*;

verus! {

/// The body of a response.
#[derive(Debug)]
pub enum Body {
    /// A JSON string.
    Text(String),
    /// One course, as a JSON object.
    Course(Course),
    /// A JSON array of courses.
    Courses(Vec<Course>),
    /// A structured error, as a JSON object.
    Error(ErrorResponse),
}

/// What a [`Body`] is, as plain mathematical values.
pub enum BodyView {
    Text(Seq<char>),
    Course(CourseView),
    Courses(Seq<CourseView>),
    Error(Seq<char>),
}

impl View for Body {
    type V = BodyView;

    open spec fn view(&self) -> BodyView {
        match self {
            Body::Text(text) => BodyView::Text(text@),
            Body::Course(course) => BodyView::Course(course@),
            Body::Courses(courses) => BodyView::Courses(course_views(courses@)),
            Body::Error(error) => BodyView::Error(error@),
        }
    }
}

/// A response: the status and the body.
#[derive(Debug)]
pub struct Response {
    pub status: u16,
    pub body: Body,
}

/// What a [`Response`] is, as plain mathematical values.
pub struct ResponseView {
    pub status: int,
    pub body: BodyView,
}

impl View for Response {
    type V = ResponseView;

    open spec fn view(&self) -> ResponseView {
        ResponseView { status: self.status as int, body: self.body@ }
    }
}

/// The response that reports `error`: its status, and its text for the
/// caller as a structured error.
pub open spec fn error_response(error: TutorErrorView) -> ResponseView {
    ResponseView { status: error.status(), body: BodyView::Error(error.message()) }
}

/// The successful response with the given body.
pub open spec fn ok_response(body: BodyView) -> ResponseView {
    ResponseView { status: 200, body }
}

impl Response {
    /// A response with status 200.
    pub fn ok(body: Body) -> (response: Self)
        ensures
            response@ == ok_response(body@),
    {
        Response { status: 200, body }
    }

    /// The response that reports `error` to the caller.
    pub fn for_error(error: &TutorError) -> (response: Self)
        ensures
            response@ == error_response(error@),
    {
        Response {
            status: error.status_code(),
            body: Body::Error(ErrorResponse::new(error.error_response())),
        }
    }

    /// The status.
    pub fn status(&self) -> (status: u16)
        ensures
            status == self@.status,
    {
        self.status
    }
}

} // verus!
