//! What the store's numbering guarantees: a tutor's courses carry 1, 2, 3,
//! ... in the order of their creation, a key names at most one course, and
//! a course that was created is found again under its key.

use crate::models::CourseView;
use crate::store::created;
use crate::store::has_key;
use crate::store::is_first_with_key;
use crate::store::is_owned_by;
use crate::store::lemma_owned_by_take_next;
use crate::store::lemma_push_keeps_numbering;
use crate::store::lookup;
use crate::store::next_course_id;
use crate::store::numbered_in_order;
use crate::store::owned_by;
use chrono::NaiveDateTime;
use vstd::prelude::*;

verus! {

/// A request to create a course: its name and the time it is posted.
pub struct CreateRequest {
    pub course_name: Seq<char>,
    pub posted_time: NaiveDateTime,
}

/// The store after `requests` were served one after the other, all for
/// `tutor_id`, starting from `courses`.
pub open spec fn create_all(
    courses: Seq<CourseView>,
    tutor_id: int,
    requests: Seq<CreateRequest>,
) -> Seq<CourseView>
    decreases requests.len(),
{
    if requests.len() == 0 {
        courses
    } else {
        let before = create_all(courses, tutor_id, requests.drop_last());
        before.push(
            created(before, tutor_id, requests.last().course_name, requests.last().posted_time),
        )
    }
}

/// A tutor none of whose courses is in the store owns an empty list.
pub proof fn lemma_tutor_without_courses_owns_none(courses: Seq<CourseView>, tutor_id: int)
    requires
        forall|i: int| 0 <= i < courses.len() ==> (#[trigger] courses[i]).tutor_id != tutor_id,
    ensures
        owned_by(courses, tutor_id) == Seq::<CourseView>::empty(),
{
    let owned = is_owned_by(tutor_id);
    assert(courses.all(|c: CourseView| !owned(c)));
    courses.lemma_all_neg_filter_empty(owned);
    assert(owned_by(courses, tutor_id) =~= Seq::<CourseView>::empty());
}

/// Every course that `owned_by` lists is the tutor's and is in the store,
/// and every course of the tutor in the store is listed.
pub proof fn lemma_owned_by_is_exact(courses: Seq<CourseView>, tutor_id: int)
    ensures
        forall|k: int|
            0 <= k < owned_by(courses, tutor_id).len() ==> {
                &&& (#[trigger] owned_by(courses, tutor_id)[k]).tutor_id == tutor_id
                &&& courses.contains(owned_by(courses, tutor_id)[k])
            },
        forall|i: int|
            0 <= i < courses.len() && (#[trigger] courses[i]).tutor_id == tutor_id ==> owned_by(
                courses,
                tutor_id,
            ).contains(courses[i]),
    decreases courses.len(),
{
    let owned = owned_by(courses, tutor_id);
    if courses.len() == 0 {
        reveal(Seq::filter);
    } else {
        let n = courses.len() - 1;
        let rest = courses.take(n);
        let rest_owned = owned_by(rest, tutor_id);
        lemma_owned_by_is_exact(rest, tutor_id);
        lemma_owned_by_take_next(courses, tutor_id, n);
        assert(courses.take(n + 1) =~= courses);
        assert forall|k: int| 0 <= k < owned.len() implies {
            &&& (#[trigger] owned[k]).tutor_id == tutor_id
            &&& courses.contains(owned[k])
        } by {
            if k < rest_owned.len() {
                assert(owned[k] == rest_owned[k]);
                assert(rest.contains(rest_owned[k]));
                let j = choose|j: int| 0 <= j < rest.len() && rest[j] == rest_owned[k];
                assert(courses[j] == owned[k]);
            } else {
                assert(courses[n] == owned[k]);
            }
        }
        assert forall|i: int|
            0 <= i < courses.len() && (#[trigger] courses[i]).tutor_id == tutor_id implies owned.contains(
            courses[i],
        ) by {
            if i < n {
                assert(rest[i] == courses[i]);
                assert(rest_owned.contains(rest[i]));
                let k = choose|k: int| 0 <= k < rest_owned.len() && rest_owned[k] == rest[i];
                assert(owned[k] == courses[i]);
            } else {
                assert(owned[owned.len() - 1] == courses[i]);
            }
        }
    }
}

/// A prefix of a numbered store is numbered.
pub proof fn lemma_prefix_is_numbered(courses: Seq<CourseView>, n: int)
    requires
        numbered_in_order(courses),
        0 <= n <= courses.len(),
    ensures
        numbered_in_order(courses.take(n)),
{
    let prefix = courses.take(n);
    assert forall|i: int| 0 <= i < prefix.len() implies (#[trigger] prefix[i]).course_id == Some(
        next_course_id(prefix.take(i), prefix[i].tutor_id),
    ) by {
        assert(prefix.take(i) =~= courses.take(i));
        assert(prefix[i] == courses[i]);
    }
}

/// In a numbered store the courses of one tutor carry 1, 2, 3, ... in
/// insertion order, whatever was created for other tutors in between.
pub proof fn lemma_owned_courses_count_up(courses: Seq<CourseView>, tutor_id: int)
    requires
        numbered_in_order(courses),
    ensures
        forall|k: int|
            0 <= k < owned_by(courses, tutor_id).len() ==> (#[trigger] owned_by(
                courses,
                tutor_id,
            )[k]).course_id == Some((k + 1) as nat),
    decreases courses.len(),
{
    if courses.len() == 0 {
        reveal(Seq::filter);
    } else {
        let n = courses.len() - 1;
        let rest = courses.take(n);
        lemma_prefix_is_numbered(courses, n);
        lemma_owned_courses_count_up(rest, tutor_id);
        lemma_owned_by_take_next(courses, tutor_id, n);
        assert(courses.take(n + 1) =~= courses);
        assert(courses[n].course_id == Some(next_course_id(rest, courses[n].tutor_id)));
    }
}

/// Creating `requests.len()` courses for one tutor, one after the other,
/// appends courses numbered from the tutor's next number upwards, in the
/// order of the calls: 1, 2, ..., n for a tutor who had none. The courses
/// that were there stay as they were, and the store stays numbered.
pub proof fn lemma_serial_creates_count_up(
    courses: Seq<CourseView>,
    tutor_id: int,
    requests: Seq<CreateRequest>,
)
    requires
        numbered_in_order(courses),
    ensures
        numbered_in_order(create_all(courses, tutor_id, requests)),
        create_all(courses, tutor_id, requests).len() == courses.len() + requests.len(),
        create_all(courses, tutor_id, requests).take(courses.len() as int) == courses,
        owned_by(create_all(courses, tutor_id, requests), tutor_id).len() == owned_by(
            courses,
            tutor_id,
        ).len() + requests.len(),
        forall|k: int|
            0 <= k < requests.len() ==> (#[trigger] create_all(courses, tutor_id, requests)[
                courses.len() + k
            ]) == (CourseView {
                tutor_id,
                course_id: Some((owned_by(courses, tutor_id).len() + k + 1) as nat),
                course_name: requests[k].course_name,
                posted_time: Some(requests[k].posted_time),
            }),
    decreases requests.len(),
{
    let after = create_all(courses, tutor_id, requests);
    if requests.len() == 0 {
        assert(after.take(courses.len() as int) =~= courses);
    } else {
        let earlier = requests.drop_last();
        let before = create_all(courses, tutor_id, earlier);
        let course = created(
            before,
            tutor_id,
            requests.last().course_name,
            requests.last().posted_time,
        );
        lemma_serial_creates_count_up(courses, tutor_id, earlier);
        lemma_push_keeps_numbering(before, course);
        before.lemma_filter_push(course, is_owned_by(tutor_id));
        assert(after.take(courses.len() as int) =~= before.take(courses.len() as int));
        assert forall|k: int| 0 <= k < requests.len() implies (#[trigger] after[courses.len() + k])
            == (CourseView {
            tutor_id,
            course_id: Some((owned_by(courses, tutor_id).len() + k + 1) as nat),
            course_name: requests[k].course_name,
            posted_time: Some(requests[k].posted_time),
        }) by {
            if k < earlier.len() {
                assert(after[courses.len() + k] == before[courses.len() + k]);
                assert(earlier[k] == requests[k]);
            }
        }
    }
}

/// In a numbered store no two courses share a key.
pub proof fn lemma_key_is_unique(courses: Seq<CourseView>, i: int, j: int)
    requires
        numbered_in_order(courses),
        0 <= i < j < courses.len(),
        courses[i].tutor_id == courses[j].tutor_id,
    ensures
        courses[i].course_id != courses[j].course_id,
{
    let tutor_id = courses[i].tutor_id;
    let owned = is_owned_by(tutor_id);
    lemma_owned_by_take_next(courses, tutor_id, i);
    assert(courses.take(j).take(i + 1) =~= courses.take(i + 1));
    courses.take(j).lemma_filter_take_len(owned, i + 1);
}

/// Where some course has the key, one of them is the first.
pub proof fn lemma_first_with_key_exists(
    courses: Seq<CourseView>,
    tutor_id: int,
    course_id: nat,
    i: int,
)
    requires
        0 <= i < courses.len(),
        has_key(courses[i], tutor_id, course_id),
    ensures
        exists|k: int| 0 <= k <= i && is_first_with_key(courses, tutor_id, course_id, k),
    decreases i,
{
    if exists|j: int| 0 <= j < i && has_key(courses[j], tutor_id, course_id) {
        let j = choose|j: int| 0 <= j < i && has_key(courses[j], tutor_id, course_id);
        lemma_first_with_key_exists(courses, tutor_id, course_id, j);
    } else {
        assert(is_first_with_key(courses, tutor_id, course_id, i));
    }
}

/// A lookup fails exactly for a key that no course in the store has: one
/// that was never created.
pub proof fn lemma_lookup_fails_iff_never_created(
    courses: Seq<CourseView>,
    tutor_id: int,
    course_id: nat,
)
    ensures
        lookup(courses, tutor_id, course_id) is None <==> forall|i: int|
            0 <= i < courses.len() ==> !has_key(#[trigger] courses[i], tutor_id, course_id),
        lookup(courses, tutor_id, course_id) matches Some(course) ==> has_key(
            course,
            tutor_id,
            course_id,
        ) && courses.contains(course),
{
    if exists|i: int| 0 <= i < courses.len() && has_key(courses[i], tutor_id, course_id) {
        let i = choose|i: int| 0 <= i < courses.len() && has_key(courses[i], tutor_id, course_id);
        lemma_first_with_key_exists(courses, tutor_id, course_id, i);
    }
}

/// In a numbered store a lookup by the key of a stored course returns that
/// very course: the one created under the key, and the only one.
pub proof fn lemma_lookup_returns_the_created_course(courses: Seq<CourseView>, i: int)
    requires
        numbered_in_order(courses),
        0 <= i < courses.len(),
    ensures
        courses[i].course_id is Some,
        lookup(courses, courses[i].tutor_id, courses[i].course_id->0) == Some(courses[i]),
{
    let tutor_id = courses[i].tutor_id;
    let course_id = courses[i].course_id->0;
    assert forall|j: int| 0 <= j < i implies !has_key(
        #[trigger] courses[j],
        tutor_id,
        course_id,
    ) by {
        if courses[j].tutor_id == tutor_id {
            lemma_key_is_unique(courses, j, i);
        }
    }
    assert(is_first_with_key(courses, tutor_id, course_id, i));
    let k = choose|k: int| is_first_with_key(courses, tutor_id, course_id, k);
    assert(k == i);
}

/// A course that was just created is found under its key, field for field
/// as `create` returned it.
pub proof fn lemma_created_course_is_found(
    courses: Seq<CourseView>,
    tutor_id: int,
    course_name: Seq<char>,
    posted_time: NaiveDateTime,
)
    requires
        numbered_in_order(courses),
    ensures
        lookup(
            courses.push(created(courses, tutor_id, course_name, posted_time)),
            tutor_id,
            next_course_id(courses, tutor_id),
        ) == Some(created(courses, tutor_id, course_name, posted_time)),
{
    let course = created(courses, tutor_id, course_name, posted_time);
    let after = courses.push(course);
    lemma_push_keeps_numbering(courses, course);
    lemma_lookup_returns_the_created_course(after, courses.len() as int);
}

/// Creating a course leaves every lookup by another key as it was.
pub proof fn lemma_create_keeps_other_courses(
    courses: Seq<CourseView>,
    course: CourseView,
    tutor_id: int,
    course_id: nat,
)
    requires
        !has_key(course, tutor_id, course_id),
    ensures
        lookup(courses.push(course), tutor_id, course_id) == lookup(courses, tutor_id, course_id),
{
    let after = courses.push(course);
    lemma_lookup_fails_iff_never_created(courses, tutor_id, course_id);
    lemma_lookup_fails_iff_never_created(after, tutor_id, course_id);
    if lookup(courses, tutor_id, course_id) is Some {
        let k = choose|k: int| is_first_with_key(courses, tutor_id, course_id, k);
        assert(after[k] == courses[k]);
        assert forall|j: int| 0 <= j < k implies !has_key(
            #[trigger] after[j],
            tutor_id,
            course_id,
        ) by {
            assert(after[j] == courses[j]);
        }
        assert(is_first_with_key(after, tutor_id, course_id, k));
        let m = choose|m: int| is_first_with_key(after, tutor_id, course_id, m);
        assert(m == k);
    } else {
        assert forall|j: int| 0 <= j < after.len() implies !has_key(
            #[trigger] after[j],
            tutor_id,
            course_id,
        ) by {
            if j < courses.len() {
                assert(after[j] == courses[j]);
            }
        }
    }
}

} // verus!
