//! The handlers of the in-memory service. Each takes the shared state and
//! what the request carried, and returns the response; a key that names
//! nothing is answered with status 200 and a text.

use crate::clock::now;
use crate::health::count_visit;
use crate::health::health_message;
use crate::health::health_text;
use crate::health::next_visit;
use crate::memory::state::App;
use crate::memory::state::AppView;
use crate::models::Course;
use crate::models::CourseView;
use crate::numbering::lemma_created_course_is_found;
use crate::numbering::lemma_tutor_without_courses_owns_none;
use crate::response::ok_response;
use crate::response::Body;
use crate::response::BodyView;
use crate::response::Response;
use crate::response::ResponseView;
use crate::store::course_not_found;
use crate::store::created;
use crate::store::lookup;
use crate::store::next_course_id;
use crate::store::no_courses_found;
use crate::store::numbered_in_order;
use crate::store::owned_by;
use chrono::NaiveDateTime;
use vstd::prelude::*;
use vstd::string::StringExecFns;

verus! {

/// The answer of a health check in state `app`.
pub open spec fn health_response(app: AppView) -> ResponseView {
    ok_response(BodyView::Text(health_text(app.health_check_response, app.visit_count as nat)))
}

/// The state after a health check.
pub open spec fn after_health_check(app: AppView) -> AppView {
    AppView { visit_count: next_visit(app.visit_count), ..app }
}

/// The state after `n` health checks, one after the other.
pub open spec fn after_health_checks(app: AppView, n: nat) -> AppView
    decreases n,
{
    if n == 0 {
        app
    } else {
        after_health_check(after_health_checks(app, (n - 1) as nat))
    }
}

/// The course that a creation request yields when it is served at
/// `posted_time`. What the request says of `course_id` and `posted_time`
/// is ignored.
pub open spec fn created_course(
    app: AppView,
    request: CourseView,
    posted_time: NaiveDateTime,
) -> CourseView {
    created(app.courses, request.tutor_id, request.course_name, posted_time)
}

/// The state after a creation request was served at `posted_time`.
pub open spec fn after_new_course(
    app: AppView,
    request: CourseView,
    posted_time: NaiveDateTime,
) -> AppView {
    AppView { courses: app.courses.push(created_course(app, request, posted_time)), ..app }
}

/// The answer to a request for the courses of `tutor_id`.
pub open spec fn courses_response(app: AppView, tutor_id: int) -> ResponseView {
    let owned = owned_by(app.courses, tutor_id);
    if owned.len() == 0 {
        ok_response(BodyView::Text(no_courses_found()))
    } else {
        ok_response(BodyView::Courses(owned))
    }
}

/// The answer to a request for the course `(tutor_id, course_id)`.
pub open spec fn course_detail_response(app: AppView, tutor_id: int, course_id: nat) -> ResponseView {
    match lookup(app.courses, tutor_id, course_id) {
        Some(course) => ok_response(BodyView::Course(course)),
        None => ok_response(BodyView::Text(course_not_found())),
    }
}

/// Answers with the fixed message and the number of earlier visits, and
/// counts this visit.
pub fn health_check_handler(app_state: &mut App) -> (response: Response)
    ensures
        response@ == health_response(old(app_state)@),
        final(app_state)@ == after_health_check(old(app_state)@),
        old(app_state).wf() ==> final(app_state).wf(),
{
    let earlier = count_visit(&mut app_state.visit_count);
    Response::ok(Body::Text(health_message(&app_state.health_check_response, earlier)))
}

/// Serves a creation request at the given time: stores the course with the
/// tutor's next number and answers with the course as stored.
pub fn new_course_at(request: Course, app_state: &mut App, posted_time: NaiveDateTime) -> (response:
    Response)
    requires
        old(app_state).wf(),
        old(app_state)@.courses.len() < usize::MAX,
    ensures
        final(app_state).wf(),
        response@ == ok_response(
            BodyView::Course(created_course(old(app_state)@, request@, posted_time)),
        ),
        final(app_state)@ == after_new_course(old(app_state)@, request@, posted_time),
{
    let course = app_state.courses.create(request.tutor_id, request.course_name, posted_time);
    Response::ok(Body::Course(course))
}

/// Serves a creation request now: as [`new_course_at`] with the time that
/// the clock shows, which the answer carries as `posted_time`.
pub fn new_course(request: Course, app_state: &mut App) -> (response: Response)
    requires
        old(app_state).wf(),
        old(app_state)@.courses.len() < usize::MAX,
    ensures
        final(app_state).wf(),
        response@.status == 200,
        response@.body matches BodyView::Course(course) && course.posted_time matches Some(
            posted_time,
        ) && course == created_course(old(app_state)@, request@, posted_time)
            && final(app_state)@ == after_new_course(old(app_state)@, request@, posted_time),
{
    let posted_time = now();
    new_course_at(request, app_state, posted_time)
}

/// Answers with the courses of the tutor in insertion order, or with a
/// text where the tutor has none.
pub fn get_courses_for_tutor(app_state: &App, params: i32) -> (response: Response)
    ensures
        response@ == courses_response(app_state@, params as int),
{
    let tutor_id = params;
    let filtered_courses = app_state.courses.list_for_tutor(tutor_id);
    if filtered_courses.is_empty() {
        Response::ok(Body::Text(String::from_str("No courses found for tutor")))
    } else {
        Response::ok(Body::Courses(filtered_courses))
    }
}

/// Answers with the course that the pair names, or with a text where there
/// is none.
pub fn get_course_detail(app_state: &App, params: (i32, usize)) -> (response: Response)
    ensures
        response@ == course_detail_response(app_state@, params.0 as int, params.1 as nat),
{
    let (tutor_id, course_id) = params;
    match app_state.courses.get_detail(tutor_id, course_id) {
        Ok(course) => Response::ok(Body::Course(course)),
        Err(_) => Response::ok(Body::Text(String::from_str("Course not found"))),
    }
}

/// Asked again and again from startup, the health check answers with the
/// counts 0, 1, 2, ... in order: after `n` earlier health checks the answer
/// carries `n`. Only the counter changes. This holds as long as `n` fits
/// the counter, which starts again at zero after `u32::MAX`.
pub proof fn lemma_health_checks_count_up(app: AppView, n: nat)
    requires
        app.visit_count == 0,
        n <= u32::MAX,
    ensures
        after_health_checks(app, n) == (AppView { visit_count: n as u32, ..app }),
        health_response(after_health_checks(app, n)) == ok_response(
            BodyView::Text(health_text(app.health_check_response, n)),
        ),
    decreases n,
{
    if n > 0 {
        lemma_health_checks_count_up(app, (n - 1) as nat);
    }
}

/// A tutor none of whose courses is in the store is answered with the
/// text, never with a list or an error, whatever other tutors own.
pub proof fn lemma_tutor_without_courses_gets_the_text(app: AppView, tutor_id: int)
    requires
        forall|i: int|
            0 <= i < app.courses.len() ==> (#[trigger] app.courses[i]).tutor_id != tutor_id,
    ensures
        courses_response(app, tutor_id) == ok_response(BodyView::Text(no_courses_found())),
{
    lemma_tutor_without_courses_owns_none(app.courses, tutor_id);
}

/// After a creation request was served, a request for the course under the
/// key that the answer carries is answered with that course, field for
/// field.
pub proof fn lemma_created_course_is_answered(
    app: AppView,
    request: CourseView,
    posted_time: NaiveDateTime,
)
    requires
        numbered_in_order(app.courses),
    ensures
        course_detail_response(
            after_new_course(app, request, posted_time),
            request.tutor_id,
            next_course_id(app.courses, request.tutor_id),
        ) == ok_response(BodyView::Course(created_course(app, request, posted_time))),
{
    lemma_created_course_is_found(
        app.courses,
        request.tutor_id,
        request.course_name,
        posted_time,
    );
}

} // verus!
