use chrono::NaiveDate;
use tutor::errors::TutorError;
use tutor::models::Course;
use tutor::persistent::db;
use tutor::persistent::handlers::get_course_details;
use tutor::persistent::handlers::get_courses_for_tutor;
use tutor::persistent::handlers::health_check;
use tutor::persistent::handlers::post_new_course;
use tutor::response::Body;

fn stored(tutor_id: i32, course_id: usize, name: &str) -> Course {
    Course {
        tutor_id,
        course_id: Some(course_id),
        course_name: name.to_owned(),
        posted_time: Some(
            NaiveDate::from_ymd_opt(2024, 6, 17)
                .expect("couldn't parse date")
                .and_hms_opt(14, 01, 11)
                .expect("couldn't parse time"),
        ),
    }
}

#[test]
fn handlers_get_all_courses_success() {
    let rows = Ok(vec![stored(1, 1, "First"), stored(1, 2, "Second")]);
    let resp = get_courses_for_tutor(rows).unwrap();
    assert_eq!(resp.status(), 200);
}

#[test]
fn get_course_details_test() {
    let row = Ok(Some(stored(1, 2, "Second")));
    let resp = get_course_details(row).unwrap();
    assert_eq!(resp.status(), 200);
}

#[test]
fn post_course_success() {
    let new_course_msg = Course {
        course_id: Some(3),
        tutor_id: 1,
        course_name: "This is the next course".to_owned(),
        posted_time: Some(
            NaiveDate::from_ymd_opt(2024, 6, 17)
                .expect("couldn't parse date")
                .and_hms_opt(14, 01, 11)
                .expect("couldn't parse time"),
        ),
    };
    let resp = post_new_course(Ok(new_course_msg)).unwrap();
    assert_eq!(resp.status(), 200);
}

#[test]
fn listed_courses_are_answered_in_order() {
    let rows = Ok(vec![stored(1, 1, "First"), stored(1, 2, "Second")]);
    match get_courses_for_tutor(rows).unwrap().body {
        Body::Courses(courses) => {
            assert_eq!(courses.len(), 2);
            assert_eq!(courses[0].course_name, "First");
            assert_eq!(courses[1].course_name, "Second");
            assert_eq!(courses[1].course_id, Some(2));
        }
        other => panic!("expected courses, got {:?}", other),
    }
}

#[test]
fn no_rows_for_a_tutor_is_not_found() {
    match get_courses_for_tutor(Ok(Vec::new())) {
        Err(TutorError::NotFound(text)) => assert_eq!(text, "No courses found for tutor"),
        other => panic!("expected NotFound, got {:?}", other),
    }
    match db::get_courses_for_tutor(Ok(Vec::new())) {
        Err(error) => assert_eq!(error.status_code(), 404),
        Ok(_) => panic!("expected NotFound"),
    }
}

#[test]
fn failed_listing_is_a_db_error() {
    match get_courses_for_tutor(Err(sqlx::Error::PoolTimedOut)) {
        Err(TutorError::DBError(cause)) => assert_eq!(
            cause,
            sqlx::Error::PoolTimedOut.to_string()
        ),
        other => panic!("expected DBError, got {:?}", other),
    }
}

#[test]
fn no_row_for_a_key_is_not_found() {
    match get_course_details(Ok(None)) {
        Err(TutorError::NotFound(text)) => assert_eq!(text, "Course not found"),
        other => panic!("expected NotFound, got {:?}", other),
    }
}

#[test]
fn found_row_is_answered_field_for_field() {
    let resp = get_course_details(Ok(Some(stored(4, 7, "Detail")))).unwrap();
    match resp.body {
        Body::Course(course) => {
            assert_eq!(course.tutor_id, 4);
            assert_eq!(course.course_id, Some(7));
            assert_eq!(course.course_name, "Detail");
            assert_eq!(course.posted_time, stored(4, 7, "Detail").posted_time);
        }
        other => panic!("expected a course, got {:?}", other),
    }
}

#[test]
fn failed_detail_query_is_a_db_error() {
    let answer = get_course_details(Err(sqlx::Error::Protocol("eof".to_owned())));
    match answer {
        Err(error) => {
            assert_eq!(error.status_code(), 500);
            assert_eq!(error.error_response(), "Database error");
            assert!(matches!(
                error,
                TutorError::DBError(cause)
                    if cause == "encountered unexpected or invalid data: eof"
            ));
        }
        Ok(_) => panic!("expected DBError"),
    }
}

#[test]
fn stored_course_is_answered_as_stored() {
    let resp = post_new_course(Ok(stored(1, 3, "This is the next course"))).unwrap();
    match resp.body {
        Body::Course(course) => {
            assert_eq!(course.tutor_id, 1);
            assert_eq!(course.course_id, Some(3));
            assert_eq!(course.course_name, "This is the next course");
        }
        other => panic!("expected a course, got {:?}", other),
    }
}

#[test]
fn failed_insertion_is_a_db_error() {
    match post_new_course(Err(sqlx::Error::WorkerCrashed)) {
        Err(error) => {
            assert_eq!(error.status_code(), 500);
            assert!(matches!(error, TutorError::DBError(_)));
        }
        Ok(_) => panic!("expected DBError"),
    }
    assert!(matches!(
        db::post_new_course(Err(sqlx::Error::RowNotFound)),
        Err(TutorError::DBError(_))
    ));
}

#[test]
fn classification_returns_the_rows_unchanged() {
    let listed = db::get_courses_for_tutor(Ok(vec![stored(1, 1, "Only")])).unwrap();
    assert_eq!(listed.len(), 1);
    assert_eq!(listed[0].course_name, "Only");
    let one = db::get_course_details(Ok(Some(stored(1, 1, "Only")))).unwrap();
    assert_eq!(one.course_name, "Only");
    let new = db::post_new_course(Ok(stored(1, 2, "New"))).unwrap();
    assert_eq!(new.course_id, Some(2));
}

#[test]
fn persistent_health_check_counts_from_zero() {
    let message = "I'm good. You've already asked me".to_owned();
    let mut visits: u32 = 0;
    for n in 0..10u32 {
        let resp = health_check(&message, &mut visits);
        assert_eq!(resp.status(), 200);
        match resp.body {
            Body::Text(text) => {
                assert_eq!(text, format!("I'm good. You've already asked me {} times", n))
            }
            other => panic!("expected a text, got {:?}", other),
        }
    }
    assert_eq!(visits, 10);
}
