use vstd::prelude::*;
use crate::error::ApiError;
use crate::model::{
    Class, ClassWithMemberships, Membership, MembershipOutcome, available_classes, is_first_with_id,
    is_member, join_outcome, joined_classes, lookup_class, memberships_of, name_in_use,
    name_taken_by_other,
};

verus! {

/// Whether `memberships` enrolls `student` in `class_id`.
pub fn has_membership(memberships: &Vec<Membership>, student: u128, class_id: u128) -> (r: bool)
    ensures
        r == is_member(memberships@, student, class_id),
{
    let n = memberships.len();
    for i in 0..n
        invariant
            n == memberships@.len(),
            forall|j: int|
                0 <= j < i ==> !(#[trigger] memberships@[j].student_id == student
                    && memberships@[j].class_id == class_id),
    {
        if memberships[i].student_id == student && memberships[i].class_id == class_id {
            return true;
        }
    }
    false
}

/// The classes that `user_id` may join: those it does not teach and has not joined.
pub fn available(classes: &Vec<Class>, memberships: &Vec<Membership>, user_id: u128) -> (r: Vec<Class>)
    ensures
        r@ == available_classes(classes@, memberships@, user_id),
{
    let mut r: Vec<Class> = Vec::new();
    let n = classes.len();
    for i in 0..n
        invariant
            n == classes@.len(),
            r@ == available_classes(classes@.take(i as int), memberships@, user_id),
    {
        let c = &classes[i];
        if c.teacher_id != user_id && !has_membership(memberships, user_id, c.id) {
            r.push(c.duplicate());
        }
        proof {
            assert(classes@.take(i + 1).drop_last() =~= classes@.take(i as int));
            reveal(Seq::filter);
        }
    }
    assert(classes@.take(n as int) =~= classes@);
    r
}

/// The classes that `user_id` has joined.
pub fn joined(classes: &Vec<Class>, memberships: &Vec<Membership>, user_id: u128) -> (r: Vec<Class>)
    ensures
        r@ == joined_classes(classes@, memberships@, user_id),
{
    let mut r: Vec<Class> = Vec::new();
    let n = classes.len();
    for i in 0..n
        invariant
            n == classes@.len(),
            r@ == joined_classes(classes@.take(i as int), memberships@, user_id),
    {
        let c = &classes[i];
        if has_membership(memberships, user_id, c.id) {
            r.push(c.duplicate());
        }
        proof {
            assert(classes@.take(i + 1).drop_last() =~= classes@.take(i as int));
            reveal(Seq::filter);
        }
    }
    assert(classes@.take(n as int) =~= classes@);
    r
}

/// The memberships of the class `class_id`.
pub fn memberships_of_class(memberships: &Vec<Membership>, class_id: u128) -> (r: Vec<Membership>)
    ensures
        r@ == memberships_of(memberships@, class_id),
{
    let mut r: Vec<Membership> = Vec::new();
    let n = memberships.len();
    for i in 0..n
        invariant
            n == memberships@.len(),
            r@ == memberships_of(memberships@.take(i as int), class_id),
    {
        let m = memberships[i];
        if m.class_id == class_id {
            r.push(m);
        }
        proof {
            assert(memberships@.take(i + 1).drop_last() =~= memberships@.take(i as int));
            reveal(Seq::filter);
        }
    }
    assert(memberships@.take(n as int) =~= memberships@);
    r
}

/// Whether a class other than `class_id` is already called `name`: when it is,
/// the class `class_id` cannot take that name.
pub fn can_use_name(classes: &Vec<Class>, class_id: u128, name: &str) -> (r: bool)
    ensures
        r == name_taken_by_other(classes@, class_id, name@),
        r <==> exists|i: int|
            0 <= i < classes@.len() && #[trigger] classes@[i].name@ == name@ && classes@[i].id != class_id,
{
    let target = name.to_owned();
    let n = classes.len();
    for i in 0..n
        invariant
            n == classes@.len(),
            target@ == name@,
            forall|j: int|
                0 <= j < i ==> !(#[trigger] classes@[j].name@ == name@ && classes@[j].id != class_id),
    {
        if classes[i].name == target && classes[i].id != class_id {
            return true;
        }
    }
    false
}

/// Whether some class is called `name`.
pub fn find_by_name_exists(classes: &Vec<Class>, name: &str) -> (r: bool)
    ensures
        r == name_in_use(classes@, name@),
        r <==> exists|i: int| 0 <= i < classes@.len() && #[trigger] classes@[i].name@ == name@,
{
    let target = name.to_owned();
    let n = classes.len();
    for i in 0..n
        invariant
            n == classes@.len(),
            target@ == name@,
            forall|j: int| 0 <= j < i ==> #[trigger] classes@[j].name@ != name@,
    {
        if classes[i].name == target {
            return true;
        }
    }
    false
}

/// The membership of `student_id` in `class_id`: the one on record if there is
/// one, else the one to store.
pub fn find_or_insert_membership(memberships: &Vec<Membership>, student_id: u128, class_id: u128) -> (r: MembershipOutcome)
    ensures
        r == join_outcome(memberships@, student_id, class_id),
{
    let m = Membership { class_id, student_id };
    if has_membership(memberships, student_id, class_id) {
        MembershipOutcome::Existing(m)
    } else {
        MembershipOutcome::Created(m)
    }
}

/// The first class with identifier `id`.
pub fn lookup(classes: &Vec<Class>, id: u128) -> (r: Option<Class>)
    ensures
        r == lookup_class(classes@, id),
        r matches Some(c) ==> exists|i: int|
            0 <= i < classes@.len() && classes@[i] == c && c.id == id && forall|j: int|
                0 <= j < i ==> #[trigger] classes@[j].id != id,
        r is None <==> forall|i: int| 0 <= i < classes@.len() ==> #[trigger] classes@[i].id != id,
{
    let n = classes.len();
    for i in 0..n
        invariant
            n == classes@.len(),
            forall|j: int| 0 <= j < i ==> #[trigger] classes@[j].id != id,
    {
        if classes[i].id == id {
            proof {
                assert(is_first_with_id(classes@, id, i as int));
                let k = choose|k: int| is_first_with_id(classes@, id, k);
                assert(k == i) by {
                    if k < i {
                        assert(classes@[k].id != id);
                    } else if k > i {
                        assert(classes@[i as int].id != id);
                    }
                }
            }
            return Some(classes[i].duplicate());
        }
    }
    proof {
        assert forall|k: int| !is_first_with_id(classes@, id, k) by {
            if 0 <= k < classes@.len() {
                assert(classes@[k].id != id);
            }
        }
    }
    None
}

/// The class named in a request path, or a 404 refusal when there is none.
pub fn find_class(classes: &Vec<Class>, class_id: u128) -> (r: Result<Class, ApiError>)
    ensures
        r == match lookup_class(classes@, class_id) {
            Some(c) => Ok(c),
            None => Err(ApiError::ClassNotFound),
        },
{
    match lookup(classes, class_id) {
        Some(c) => Ok(c),
        None => Err(ApiError::ClassNotFound),
    }
}

/// The membership of `user_id` in `class_id` named in a request path, or a 404
/// refusal when there is none.
pub fn find_membership(memberships: &Vec<Membership>, class_id: u128, user_id: u128) -> (r: Result<Membership, ApiError>)
    ensures
        r == if is_member(memberships@, user_id, class_id) {
            Ok(Membership { class_id, student_id: user_id })
        } else {
            Err(ApiError::ClassNotFound)
        },
{
    if has_membership(memberships, user_id, class_id) {
        Ok(Membership { class_id, student_id: user_id })
    } else {
        Err(ApiError::ClassNotFound)
    }
}

/// The class named in a request path with all of its memberships, or a 404
/// refusal when there is no such class.
pub fn class_with_memberships(classes: &Vec<Class>, memberships: &Vec<Membership>, class_id: u128) -> (r: Result<ClassWithMemberships, ApiError>)
    ensures
        match lookup_class(classes@, class_id) {
            Some(c) => r matches Ok(found) && found.0.0 == c && found.0.1@ == memberships_of(memberships@, class_id),
            None => r == Err::<ClassWithMemberships, ApiError>(ApiError::ClassNotFound),
        },
{
    match lookup(classes, class_id) {
        Some(c) => Ok(ClassWithMemberships((c, memberships_of_class(memberships, class_id)))),
        None => Err(ApiError::ClassNotFound),
    }
}

} // verus!
