use vstd::prelude::*;
use crate::auth::JWTClaims;
use crate::error::ApiError;
use crate::model::{
    Class, ClassRequiredBody, Membership, MembershipOutcome, NewClass, available_classes, copy_optional_text, is_member_iff_stored,
    join_outcome, joined_classes, memberships_of, name_in_use, name_taken_by_other,
};
use crate::repos;

verus! {

/// Only the teacher of a class may manage it.
pub open spec fn teacher_check(claims: JWTClaims, class: Class) -> Result<(), ApiError> {
    if class.teacher_id == claims.sub {
        Ok(())
    } else {
        Err(ApiError::Unauthorized)
    }
}

/// The answer to a request to leave a membership out of a class: only the
/// teacher of a class that exists may remove it.
pub open spec fn membership_removal(claims: JWTClaims, membership: Membership, class: Option<Class>) -> Result<Membership, ApiError> {
    match class {
        Some(c) => if c.teacher_id == claims.sub {
            Ok(membership)
        } else {
            Err(ApiError::Unauthorized)
        },
        None => Err(ApiError::Unauthorized),
    }
}

/// The answer to a request to join a class.
pub open spec fn join_request(claims: JWTClaims, class: Class, memberships: Seq<Membership>) -> Result<MembershipOutcome, ApiError> {
    if class.teacher_id == claims.sub {
        Err(ApiError::TeacherCannotJoin)
    } else {
        Ok(join_outcome(memberships, claims.sub, class.id))
    }
}

/// The class that a rename leaves in the store: same identifier and teacher,
/// the requested name, and the requested description when the request gives
/// one, else the description the class already has.
pub open spec fn renamed(class: Class, body: ClassRequiredBody) -> Class {
    Class {
        id: class.id,
        name: body.name,
        description: match body.description {
            Some(d) => Some(d),
            None => class.description,
        },
        teacher_id: class.teacher_id,
    }
}

/// The answer to a request to rename a class.
pub open spec fn update_request(claims: JWTClaims, class: Class, classes: Seq<Class>, body: ClassRequiredBody) -> Result<Class, ApiError> {
    if class.teacher_id != claims.sub {
        Err(ApiError::Unauthorized)
    } else if name_taken_by_other(classes, class.id, body.name@) {
        Err(ApiError::NameUsed)
    } else {
        Ok(renamed(class, body))
    }
}

/// The answer to a request to create a class: the caller becomes its teacher.
pub open spec fn create_request(claims: JWTClaims, classes: Seq<Class>, body: ClassRequiredBody) -> Result<NewClass, ApiError> {
    if name_in_use(classes, body.name@) {
        Err(ApiError::NameAlreadyUsed)
    } else {
        Ok(NewClass { name: body.name, description: body.description, teacher_id: claims.sub })
    }
}

/// Checks that the caller teaches the class.
pub fn authorize_teacher(claims: &JWTClaims, class: &Class) -> (r: Result<(), ApiError>)
    ensures
        r == teacher_check(*claims, *class),
        r is Ok <==> class.teacher_id == claims.sub,
        r is Err ==> r == Err::<(), ApiError>(ApiError::Unauthorized),
{
    if class.teacher_id == claims.sub {
        Ok(())
    } else {
        Err(ApiError::Unauthorized)
    }
}

/// Lists the memberships of a class, for its teacher only.
pub fn class_memberships(claims: &JWTClaims, class: &Class, memberships: &Vec<Membership>) -> (r: Result<Vec<Membership>, ApiError>)
    ensures
        r is Ok <==> class.teacher_id == claims.sub,
        r matches Ok(v) ==> v@ == memberships_of(memberships@, class.id),
        r is Err ==> r == Err::<Vec<Membership>, ApiError>(ApiError::Unauthorized),
{
    match authorize_teacher(claims, class) {
        Ok(()) => Ok(repos::memberships_of_class(memberships, class.id)),
        Err(e) => Err(e),
    }
}

/// Removes a membership from a class, for the teacher of that class only.
pub fn class_memberships_delete(claims: &JWTClaims, membership: Membership, class: Option<&Class>) -> (r: Result<Membership, ApiError>)
    ensures
        r == membership_removal(*claims, membership, match class {
            Some(c) => Some(*c),
            None => None::<Class>,
        }),
{
    match class {
        Some(c) => if c.teacher_id == claims.sub {
            Ok(membership)
        } else {
            Err(ApiError::Unauthorized)
        },
        None => Err(ApiError::Unauthorized),
    }
}

/// Joins the caller to a class that it does not teach.
pub fn class_memberships_join(claims: &JWTClaims, class: &Class, memberships: &Vec<Membership>) -> (r: Result<MembershipOutcome, ApiError>)
    ensures
        r == join_request(*claims, *class, memberships@),
        r is Err <==> class.teacher_id == claims.sub,
        r is Err ==> r == Err::<MembershipOutcome, ApiError>(ApiError::TeacherCannotJoin),
        r matches Ok(o) ==> o.value() == (Membership { class_id: class.id, student_id: claims.sub }),
        r matches Ok(o) ==> (o is Existing <==> memberships@.contains(o.value())),
{
    if class.teacher_id == claims.sub {
        return Err(ApiError::TeacherCannotJoin);
    }
    proof {
        is_member_iff_stored(memberships@, claims.sub, class.id);
    }
    Ok(repos::find_or_insert_membership(memberships, claims.sub, class.id))
}

/// The classes that the caller has joined.
pub fn class_joined(claims: &JWTClaims, classes: &Vec<Class>, memberships: &Vec<Membership>) -> (r: Vec<Class>)
    ensures
        r@ == joined_classes(classes@, memberships@, claims.sub),
{
    repos::joined(classes, memberships, claims.sub)
}

/// The classes that the caller may join.
pub fn class_available(claims: &JWTClaims, classes: &Vec<Class>, memberships: &Vec<Membership>) -> (r: Vec<Class>)
    ensures
        r@ == available_classes(classes@, memberships@, claims.sub),
{
    repos::available(classes, memberships, claims.sub)
}

/// Deletes a class, for its teacher only: answers with the class to delete.
pub fn class_delete(claims: &JWTClaims, class: Class) -> (r: Result<Class, ApiError>)
    ensures
        r == match teacher_check(*claims, class) {
            Ok(_) => Ok(class),
            Err(e) => Err(e),
        },
        r is Ok <==> class.teacher_id == claims.sub,
        r matches Ok(c) ==> c == class,
        r is Err ==> r == Err::<Class, ApiError>(ApiError::Unauthorized),
{
    match authorize_teacher(claims, &class) {
        Ok(()) => Ok(class),
        Err(e) => Err(e),
    }
}

/// Renames a class, for its teacher only, unless another class has the name.
pub fn class_update(claims: &JWTClaims, class: &Class, classes: &Vec<Class>, body: ClassRequiredBody) -> (r: Result<Class, ApiError>)
    ensures
        r == update_request(*claims, *class, classes@, body),
        r == Err::<Class, ApiError>(ApiError::Unauthorized) <==> class.teacher_id != claims.sub,
        r == Err::<Class, ApiError>(ApiError::NameUsed) <==> class.teacher_id == claims.sub && exists|i: int|
            0 <= i < classes@.len() && #[trigger] classes@[i].name@ == body.name@ && classes@[i].id != class.id,
        r matches Ok(c) ==> c.id == class.id && c.teacher_id == class.teacher_id && c.name == body.name
            && c.description == (if body.description is Some { body.description } else { class.description }),
{
    if class.teacher_id != claims.sub {
        return Err(ApiError::Unauthorized);
    }
    if repos::can_use_name(classes, class.id, body.name.as_str()) {
        return Err(ApiError::NameUsed);
    }
    let description = match body.description {
        Some(d) => Some(d),
        None => copy_optional_text(&class.description),
    };
    Ok(Class { id: class.id, name: body.name, description, teacher_id: class.teacher_id })
}

/// Creates a class taught by the caller, unless a class has the name already.
pub fn class_create(claims: &JWTClaims, classes: &Vec<Class>, body: ClassRequiredBody) -> (r: Result<NewClass, ApiError>)
    ensures
        r == create_request(*claims, classes@, body),
        r is Ok <==> forall|i: int| 0 <= i < classes@.len() ==> #[trigger] classes@[i].name@ != body.name@,
        r matches Ok(nc) ==> nc.name == body.name && nc.description == body.description && nc.teacher_id
            == claims.sub,
        r is Err ==> r == Err::<NewClass, ApiError>(ApiError::NameAlreadyUsed),
{
    if repos::find_by_name_exists(classes, body.name.as_str()) {
        return Err(ApiError::NameAlreadyUsed);
    }
    Ok(NewClass { name: body.name, description: body.description, teacher_id: claims.sub })
}

} // verus!
