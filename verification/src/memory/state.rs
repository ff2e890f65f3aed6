//! The state of the in-memory service, made once at startup and handed to
//! every handler.

use crate::models::CourseView;
use crate::store::CourseStore;
use vstd::prelude::*;

verus! {

/// The state that the handlers share.
pub struct App {
    /// The fixed message of the health check.
    pub health_check_response: String,
    /// How often the health check was asked, counted from zero.
    pub visit_count: u32,
    /// The courses.
    pub courses: CourseStore,
}

/// What an [`App`] is, as plain mathematical values.
pub struct AppView {
    pub health_check_response: Seq<char>,
    pub visit_count: u32,
    pub courses: Seq<CourseView>,
}

impl View for App {
    type V = AppView;

    open spec fn view(&self) -> AppView {
        AppView {
            health_check_response: self.health_check_response@,
            visit_count: self.visit_count,
            courses: self.courses@,
        }
    }
}

impl App {
    /// The state's invariant is that of its store.
    pub open spec fn wf(&self) -> bool {
        self.courses.wf()
    }

    /// The state at startup: no visits yet and no courses.
    pub fn new(health_check_response: String) -> (app: Self)
        ensures
            app.wf(),
            app@ == (AppView {
                health_check_response: health_check_response@,
                visit_count: 0,
                courses: Seq::empty(),
            }),
    {
        App { health_check_response, visit_count: 0, courses: CourseStore::new() }
    }
}

} // verus!
