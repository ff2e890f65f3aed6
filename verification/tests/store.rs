use chrono::NaiveDate;
use chrono::NaiveDateTime;
use tutor::errors::TutorError;
use tutor::models::Course;
use tutor::store::CourseStore;

fn at(hour: u32, minute: u32, second: u32) -> NaiveDateTime {
    NaiveDate::from_ymd_opt(2024, 6, 17)
        .expect("a valid date")
        .and_hms_opt(hour, minute, second)
        .expect("a valid time")
}

#[test]
fn new_store_is_empty() {
    let store = CourseStore::new();
    assert_eq!(store.len(), 0);
    assert_eq!(store.count_for_tutor(1), 0);
    assert!(store.list_for_tutor(1).is_empty());
}

#[test]
fn create_assigns_first_number_and_time() {
    let mut store = CourseStore::new();
    let course = store.create(1, "Intro".to_owned(), at(14, 1, 11));
    assert_eq!(course.tutor_id, 1);
    assert_eq!(course.course_id, Some(1));
    assert_eq!(course.course_name, "Intro");
    assert_eq!(course.posted_time, Some(at(14, 1, 11)));
    assert_eq!(store.len(), 1);
}

#[test]
fn serial_creates_for_one_tutor_count_up() {
    let mut store = CourseStore::new();
    let mut ids = Vec::new();
    for k in 0..5u32 {
        let course = store.create(2, format!("Course {}", k), at(9, 0, k));
        ids.push(course.course_id);
    }
    assert_eq!(ids, vec![Some(1), Some(2), Some(3), Some(4), Some(5)]);
}

#[test]
fn numbers_are_per_tutor() {
    let mut store = CourseStore::new();
    let a1 = store.create(1, "A1".to_owned(), at(9, 0, 0));
    let b1 = store.create(2, "B1".to_owned(), at(9, 0, 1));
    let a2 = store.create(1, "A2".to_owned(), at(9, 0, 2));
    let c1 = store.create(-7, "C1".to_owned(), at(9, 0, 3));
    let b2 = store.create(2, "B2".to_owned(), at(9, 0, 4));
    let a3 = store.create(1, "A3".to_owned(), at(9, 0, 5));
    assert_eq!(a1.course_id, Some(1));
    assert_eq!(b1.course_id, Some(1));
    assert_eq!(a2.course_id, Some(2));
    assert_eq!(c1.course_id, Some(1));
    assert_eq!(b2.course_id, Some(2));
    assert_eq!(a3.course_id, Some(3));
    assert_eq!(store.len(), 6);
    assert_eq!(store.count_for_tutor(1), 3);
    assert_eq!(store.count_for_tutor(2), 2);
    assert_eq!(store.count_for_tutor(-7), 1);
    assert_eq!(store.count_for_tutor(3), 0);
}

#[test]
fn list_for_tutor_keeps_insertion_order() {
    let mut store = CourseStore::new();
    store.create(1, "first".to_owned(), at(9, 0, 0));
    store.create(2, "other".to_owned(), at(9, 0, 1));
    store.create(1, "second".to_owned(), at(9, 0, 2));
    store.create(1, "third".to_owned(), at(9, 0, 3));
    let listed = store.list_for_tutor(1);
    let names: Vec<&str> = listed.iter().map(|c| c.course_name.as_str()).collect();
    assert_eq!(names, vec!["first", "second", "third"]);
    let ids: Vec<Option<usize>> = listed.iter().map(|c| c.course_id).collect();
    assert_eq!(ids, vec![Some(1), Some(2), Some(3)]);
    assert!(listed.iter().all(|c| c.tutor_id == 1));
    let times: Vec<Option<NaiveDateTime>> = listed.iter().map(|c| c.posted_time).collect();
    assert_eq!(times, vec![Some(at(9, 0, 0)), Some(at(9, 0, 2)), Some(at(9, 0, 3))]);
}

#[test]
fn list_for_tutor_without_courses_is_empty() {
    let mut store = CourseStore::new();
    store.create(1, "first".to_owned(), at(9, 0, 0));
    store.create(2, "other".to_owned(), at(9, 0, 1));
    assert!(store.list_for_tutor(3).is_empty());
    assert!(store.list_for_tutor(0).is_empty());
    assert!(store.list_for_tutor(i32::MIN).is_empty());
}

#[test]
fn get_detail_returns_the_created_course() {
    let mut store = CourseStore::new();
    store.create(1, "first".to_owned(), at(9, 0, 0));
    let created = store.create(1, "second".to_owned(), at(10, 30, 0));
    store.create(2, "other".to_owned(), at(11, 0, 0));
    let found = store.get_detail(1, 2).expect("the course was created");
    assert_eq!(found.tutor_id, created.tutor_id);
    assert_eq!(found.course_id, created.course_id);
    assert_eq!(found.course_name, created.course_name);
    assert_eq!(found.posted_time, created.posted_time);
    assert_eq!(found.course_name, "second");
    assert_eq!(found.posted_time, Some(at(10, 30, 0)));
}

#[test]
fn every_created_course_is_found_under_its_key() {
    let mut store = CourseStore::new();
    let mut created = Vec::new();
    for k in 0..12u32 {
        let tutor_id = (k % 3) as i32;
        created.push(store.create(tutor_id, format!("Course {}", k), at(8, k, 0)));
    }
    for course in &created {
        let id = course.course_id.expect("an assigned number");
        let found = store.get_detail(course.tutor_id, id).expect("a stored course");
        assert_eq!(found.tutor_id, course.tutor_id);
        assert_eq!(found.course_id, course.course_id);
        assert_eq!(found.course_name, course.course_name);
        assert_eq!(found.posted_time, course.posted_time);
    }
}

#[test]
fn get_detail_of_unknown_key_is_not_found() {
    let mut store = CourseStore::new();
    store.create(1, "first".to_owned(), at(9, 0, 0));
    for (tutor_id, course_id) in [(1, 99usize), (1, 0), (1, 2), (2, 1), (0, 1)] {
        match store.get_detail(tutor_id, course_id) {
            Err(TutorError::NotFound(message)) => assert_eq!(message, "Course not found"),
            other => panic!("expected NotFound, got {:?}", other),
        }
    }
}

#[test]
fn get_detail_on_empty_store_is_not_found() {
    let store = CourseStore::new();
    assert!(matches!(store.get_detail(1, 1), Err(TutorError::NotFound(_))));
}

#[test]
fn create_does_not_disturb_other_courses() {
    let mut store = CourseStore::new();
    store.create(1, "first".to_owned(), at(9, 0, 0));
    let before = store.get_detail(1, 1).expect("stored");
    store.create(1, "second".to_owned(), at(9, 0, 1));
    store.create(2, "other".to_owned(), at(9, 0, 2));
    let after = store.get_detail(1, 1).expect("still stored");
    assert_eq!(before.course_name, after.course_name);
    assert_eq!(before.posted_time, after.posted_time);
    assert_eq!(before.course_id, after.course_id);
}

#[test]
fn equal_posted_times_are_accepted() {
    let mut store = CourseStore::new();
    let a = store.create(1, "a".to_owned(), at(9, 0, 0));
    let b = store.create(1, "b".to_owned(), at(9, 0, 0));
    assert_eq!(a.posted_time, b.posted_time);
    assert_eq!(b.course_id, Some(2));
}

#[test]
fn course_new_is_a_bare_request() {
    let course = Course::new(5, "Algebra".to_owned());
    assert_eq!(course.tutor_id, 5);
    assert_eq!(course.course_id, None);
    assert_eq!(course.course_name, "Algebra");
    assert_eq!(course.posted_time, None);
}

#[test]
fn course_clone_keeps_every_field() {
    let course = Course {
        tutor_id: 4,
        course_id: Some(9),
        course_name: "Geometry".to_owned(),
        posted_time: Some(at(1, 2, 3)),
    };
    let copy = course.clone();
    assert_eq!(copy.tutor_id, 4);
    assert_eq!(copy.course_id, Some(9));
    assert_eq!(copy.course_name, "Geometry");
    assert_eq!(copy.posted_time, Some(at(1, 2, 3)));
}
