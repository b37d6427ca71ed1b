use sikola::access::{
    authorize_teacher, class_available, class_create, class_delete, class_joined, class_memberships,
    class_memberships_delete, class_memberships_join, class_update,
};
use sikola::auth::JWTClaims;
use sikola::error::{handle_error, ApiError};
use sikola::model::{Class, ClassRequiredBody, Membership, MembershipOutcome, NewClass};
use sikola::repos::{
    available, can_use_name, class_with_memberships, find_by_name_exists, find_class,
    find_membership, find_or_insert_membership, has_membership, joined, lookup,
    memberships_of_class,
};

fn claims(sub: u128) -> JWTClaims {
    JWTClaims { sub, aud: "account".to_string(), preferred_username: format!("user{sub}") }
}

fn class(id: u128, name: &str, teacher: u128) -> Class {
    Class { id, name: name.to_string(), description: None, teacher_id: teacher }
}

fn store() -> (Vec<Class>, Vec<Membership>) {
    let classes = vec![
        class(1, "math", 100),
        class(2, "physics", 100),
        class(3, "history", 200),
        class(4, "art", 300),
    ];
    let memberships = vec![
        Membership { class_id: 1, student_id: 500 },
        Membership { class_id: 3, student_id: 500 },
        Membership { class_id: 1, student_id: 600 },
    ];
    (classes, memberships)
}

fn ids(v: &[Class]) -> Vec<u128> {
    v.iter().map(|c| c.id).collect()
}

#[test]
fn available_excludes_taught_and_joined() {
    let (classes, ms) = store();
    assert_eq!(ids(&available(&classes, &ms, 500)), vec![2, 4]);
    assert_eq!(ids(&available(&classes, &ms, 100)), vec![3, 4]);
    assert_eq!(ids(&available(&classes, &ms, 999)), vec![1, 2, 3, 4]);
    assert!(available(&Vec::new(), &ms, 500).is_empty());
}

#[test]
fn joined_lists_classes_with_membership() {
    let (classes, ms) = store();
    assert_eq!(ids(&joined(&classes, &ms, 500)), vec![1, 3]);
    assert_eq!(ids(&joined(&classes, &ms, 600)), vec![1]);
    assert!(joined(&classes, &ms, 100).is_empty());
}

#[test]
fn available_and_joined_partition_untaught_classes() {
    let (classes, ms) = store();
    for user in [100u128, 200, 300, 500, 600, 999] {
        let a = available(&classes, &ms, user);
        let j = joined(&classes, &ms, user);
        for c in &classes {
            let in_a = a.contains(c);
            let in_j = j.contains(c);
            assert!(!(in_a && in_j));
            if c.teacher_id != user {
                assert!(in_a || in_j);
            } else {
                assert!(!in_a);
            }
        }
    }
}

#[test]
fn membership_lookup() {
    let (_, ms) = store();
    assert!(has_membership(&ms, 500, 1));
    assert!(!has_membership(&ms, 500, 2));
    assert_eq!(find_membership(&ms, 3, 500), Ok(Membership { class_id: 3, student_id: 500 }));
    assert_eq!(find_membership(&ms, 3, 600), Err(ApiError::ClassNotFound));
    assert_eq!(memberships_of_class(&ms, 1), vec![ms[0], ms[2]]);
    assert!(memberships_of_class(&ms, 4).is_empty());
}

#[test]
fn names_in_use() {
    let (classes, _) = store();
    assert!(can_use_name(&classes, 2, "math"));
    assert!(!can_use_name(&classes, 1, "math"));
    assert!(!can_use_name(&classes, 1, "chemistry"));
    assert!(find_by_name_exists(&classes, "art"));
    assert!(!find_by_name_exists(&classes, "Art"));
}

#[test]
fn find_or_insert_membership_outcomes() {
    let (_, ms) = store();
    assert_eq!(
        find_or_insert_membership(&ms, 500, 1),
        MembershipOutcome::Existing(Membership { class_id: 1, student_id: 500 })
    );
    let created = find_or_insert_membership(&ms, 500, 4);
    assert_eq!(created, MembershipOutcome::Created(Membership { class_id: 4, student_id: 500 }));
    assert_eq!(created.membership(), Membership { class_id: 4, student_id: 500 });
}

#[test]
fn join_is_idempotent_on_values() {
    let (classes, mut ms) = store();
    let first = class_memberships_join(&claims(600), &classes[3], &ms).unwrap();
    assert!(matches!(first, MembershipOutcome::Created(_)));
    ms.push(first.membership());
    let second = class_memberships_join(&claims(600), &classes[3], &ms).unwrap();
    assert_eq!(second, MembershipOutcome::Existing(first.membership()));
    assert!(!available(&classes, &ms, 600).contains(&classes[3]));
    assert!(joined(&classes, &ms, 600).contains(&classes[3]));
}

#[test]
fn teacher_cannot_join_own_class() {
    let (classes, ms) = store();
    assert_eq!(class_memberships_join(&claims(100), &classes[0], &ms), Err(ApiError::TeacherCannotJoin));
    assert_eq!(authorize_teacher(&claims(100), &classes[0]), Ok(()));
    assert_eq!(authorize_teacher(&claims(500), &classes[0]), Err(ApiError::Unauthorized));
    assert!(class_memberships_join(&claims(500), &classes[0], &ms).is_ok());
}

#[test]
fn memberships_listed_for_teacher_only() {
    let (classes, ms) = store();
    assert_eq!(class_memberships(&claims(100), &classes[0], &ms), Ok(vec![ms[0], ms[2]]));
    assert_eq!(class_memberships(&claims(500), &classes[0], &ms), Err(ApiError::Unauthorized));
}

#[test]
fn membership_removal_needs_teacher_of_existing_class() {
    let (classes, ms) = store();
    assert_eq!(class_memberships_delete(&claims(100), ms[0], Some(&classes[0])), Ok(ms[0]));
    assert_eq!(class_memberships_delete(&claims(500), ms[0], Some(&classes[0])), Err(ApiError::Unauthorized));
    assert_eq!(class_memberships_delete(&claims(100), ms[0], None), Err(ApiError::Unauthorized));
}

#[test]
fn class_lists_for_caller() {
    let (classes, ms) = store();
    assert_eq!(ids(&class_joined(&claims(500), &classes, &ms)), vec![1, 3]);
    assert_eq!(ids(&class_available(&claims(500), &classes, &ms)), vec![2, 4]);
}

#[test]
fn delete_for_teacher_only() {
    let (classes, _) = store();
    assert_eq!(class_delete(&claims(200), classes[2].clone()), Ok(classes[2].clone()));
    assert_eq!(class_delete(&claims(100), classes[2].clone()), Err(ApiError::Unauthorized));
}

#[test]
fn update_rules() {
    let (classes, _) = store();
    let body = |n: &str| ClassRequiredBody { name: n.to_string(), description: Some("d".to_string()) };
    assert_eq!(class_update(&claims(500), &classes[0], &classes, body("algebra")), Err(ApiError::Unauthorized));
    assert_eq!(class_update(&claims(100), &classes[0], &classes, body("physics")), Err(ApiError::NameUsed));
    assert_eq!(
        class_update(&claims(100), &classes[0], &classes, body("math")),
        Ok(Class { id: 1, name: "math".to_string(), description: Some("d".to_string()), teacher_id: 100 })
    );
    assert_eq!(
        class_update(&claims(100), &classes[0], &classes, body("algebra")),
        Ok(Class { id: 1, name: "algebra".to_string(), description: Some("d".to_string()), teacher_id: 100 })
    );
}

#[test]
fn rename_without_description_keeps_it() {
    let described = Class { id: 7, name: "biology".to_string(), description: Some("cells".to_string()), teacher_id: 100 };
    let classes = vec![described.clone()];
    let keep = ClassRequiredBody { name: "life".to_string(), description: None };
    assert_eq!(
        class_update(&claims(100), &described, &classes, keep),
        Ok(Class { id: 7, name: "life".to_string(), description: Some("cells".to_string()), teacher_id: 100 })
    );
    let replace = ClassRequiredBody { name: "life".to_string(), description: Some("genes".to_string()) };
    assert_eq!(
        class_update(&claims(100), &described, &classes, replace),
        Ok(Class { id: 7, name: "life".to_string(), description: Some("genes".to_string()), teacher_id: 100 })
    );
}

#[test]
fn create_rules() {
    let (mut classes, _) = store();
    let body = ClassRequiredBody { name: "chemistry".to_string(), description: None };
    let created = class_create(&claims(700), &classes, body.clone()).unwrap();
    assert_eq!(created, NewClass { name: "chemistry".to_string(), description: None, teacher_id: 700 });
    classes.push(Class { id: 9, name: created.name.clone(), description: None, teacher_id: 700 });
    assert_eq!(class_create(&claims(800), &classes, body), Err(ApiError::NameAlreadyUsed));
}

#[test]
fn class_lookup_by_path() {
    let (classes, ms) = store();
    assert_eq!(lookup(&classes, 3), Some(classes[2].clone()));
    assert_eq!(lookup(&classes, 42), None);
    assert_eq!(find_class(&classes, 4), Ok(classes[3].clone()));
    assert_eq!(find_class(&classes, 42), Err(ApiError::ClassNotFound));
    let dup = vec![class(5, "first", 1), class(5, "second", 2)];
    assert_eq!(lookup(&dup, 5).unwrap().name, "first");
    let found = class_with_memberships(&classes, &ms, 1).unwrap();
    assert_eq!(found.0 .0, classes[0]);
    assert_eq!(found.0 .1, vec![ms[0], ms[2]]);
    assert_eq!(class_with_memberships(&classes, &ms, 42), Err(ApiError::ClassNotFound));
}

#[test]
fn refusal_statuses_and_texts() {
    let all = [
        (ApiError::Unauthorized, 401, "unauthorized"),
        (ApiError::TeacherCannotJoin, 400, "teacher cant join"),
        (ApiError::NameUsed, 409, "name is used"),
        (ApiError::NameAlreadyUsed, 409, "name already used"),
        (ApiError::ClassNotFound, 404, "class not found"),
        (ApiError::Internal, 500, "internal server error"),
        (ApiError::InvalidDecodeKey, 500, "invalid jwt decode key"),
        (ApiError::TokenRejected, 401, "Failed to verify token"),
    ];
    for (e, status, text) in all {
        assert_eq!(e.status(), status);
        assert_eq!(e.message(), text);
    }
    assert_eq!(handle_error(), ApiError::Internal);
}
