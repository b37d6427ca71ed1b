use vstd::prelude::*;
use crate::access::{
    create_request, join_request, membership_removal, renamed, teacher_check, update_request,
};
use crate::auth::JWTClaims;
use crate::error::ApiError;
use crate::identity::{public_user, user_lookup, without_trailing_slashes, KeycloakFailure, RequestError, UserRecord};
use crate::model::{
    Class, ClassRequiredBody, Membership, MembershipOutcome, NewClass, available_classes, enrolments_unique, is_member_iff_stored, lookup_class, is_first_with_id,
    ids_unique, is_available_to, is_member, join_outcome, joined_classes, memberships_of,
    name_in_use, name_taken_by_other, names_unique,
};

verus! {

broadcast use {vstd::seq_lib::group_filter_ensures, vstd::seq_lib::group_seq_properties};

/// The memberships on record after a join has been carried out: a created
/// membership is stored, an existing one leaves the store as it was.
pub open spec fn after_join(memberships: Seq<Membership>, outcome: MembershipOutcome) -> Seq<Membership> {
    match outcome {
        MembershipOutcome::Created(m) => memberships.push(m),
        MembershipOutcome::Existing(_) => memberships,
    }
}

proof fn available_contains(classes: Seq<Class>, memberships: Seq<Membership>, user: u128, x: Class)
    ensures
        available_classes(classes, memberships, user).contains(x) <==> classes.contains(x)
            && is_available_to(x, memberships, user),
{
    let f = available_classes(classes, memberships, user);
    if f.contains(x) {
        let i = choose|i: int| 0 <= i < f.len() && f[i] == x;
        assert(f[i] == x);
        classes.lemma_filter_contains_rev(|c: Class| is_available_to(c, memberships, user), x);
    }
    if classes.contains(x) && is_available_to(x, memberships, user) {
        let j = choose|j: int| 0 <= j < classes.len() && classes[j] == x;
        assert(classes[j] == x);
    }
}

proof fn joined_contains(classes: Seq<Class>, memberships: Seq<Membership>, user: u128, x: Class)
    ensures
        joined_classes(classes, memberships, user).contains(x) <==> classes.contains(x)
            && is_member(memberships, user, x.id),
{
    let f = joined_classes(classes, memberships, user);
    if f.contains(x) {
        let i = choose|i: int| 0 <= i < f.len() && f[i] == x;
        assert(f[i] == x);
        classes.lemma_filter_contains_rev(|c: Class| is_member(memberships, user, c.id), x);
    }
    if classes.contains(x) && is_member(memberships, user, x.id) {
        let j = choose|j: int| 0 <= j < classes.len() && classes[j] == x;
        assert(classes[j] == x);
    }
}

/// Whoever may manage a class may not join it, and whoever may not manage it
/// may join it: the teacher check and the join check refuse complementary callers.
pub proof fn teacher_manages_or_joins(claims: JWTClaims, class: Class, memberships: Seq<Membership>)
    ensures
        teacher_check(claims, class) is Ok <==> join_request(claims, class, memberships) is Err,
        join_request(claims, class, memberships) is Err ==> join_request(claims, class, memberships)
            == Err::<MembershipOutcome, ApiError>(ApiError::TeacherCannotJoin),
        teacher_check(claims, class) is Err ==> teacher_check(claims, class) == Err::<(), ApiError>(
            ApiError::Unauthorized,
        ),
{
}

/// Every management operation that succeeds was asked for by the class's
/// teacher: listing or removing memberships, renaming, deleting.
pub proof fn management_requires_teacher(
    claims: JWTClaims,
    class: Class,
    classes: Seq<Class>,
    body: ClassRequiredBody,
    membership: Membership,
    owner: Option<Class>,
)
    ensures
        teacher_check(claims, class) is Ok ==> class.teacher_id == claims.sub,
        update_request(claims, class, classes, body) is Ok ==> class.teacher_id == claims.sub,
        membership_removal(claims, membership, owner) is Ok ==> (owner matches Some(c) && c.teacher_id
            == claims.sub),
{
}

/// Joining is idempotent: the membership that a join yields is, once stored,
/// what a second join by the same caller finds on record.
pub proof fn join_is_idempotent(claims: JWTClaims, class: Class, memberships: Seq<Membership>)
    ensures
        join_request(claims, class, memberships) matches Ok(o) ==> join_request(
            claims,
            class,
            after_join(memberships, o),
        ) == Ok::<MembershipOutcome, ApiError>(MembershipOutcome::Existing(o.value())),
        join_request(claims, class, memberships) matches Ok(o) ==> o.value() == (Membership {
            class_id: class.id,
            student_id: claims.sub,
        }),
{
    if let Ok(o) = join_request(claims, class, memberships) {
        let after = after_join(memberships, o);
        if let MembershipOutcome::Created(m) = o {
            let k = memberships.len() as int;
            assert(after[k] == m);
            assert(after[k].student_id == claims.sub && after[k].class_id == class.id);
        }
        assert(is_member(after, claims.sub, class.id));
    }
}

/// Joining keeps each enrolment on record once.
pub proof fn join_keeps_enrolments_unique(claims: JWTClaims, class: Class, memberships: Seq<Membership>)
    requires
        enrolments_unique(memberships),
    ensures
        join_request(claims, class, memberships) matches Ok(o) ==> enrolments_unique(
            after_join(memberships, o),
        ),
{
    if let Ok(o) = join_request(claims, class, memberships) {
        if let MembershipOutcome::Created(m) = o {
            let after = memberships.push(m);
            assert forall|i: int, j: int|
                0 <= i < after.len() && 0 <= j < after.len() && i != j implies #[trigger] after[i]
                != #[trigger] after[j] by {
                if i == memberships.len() as int {
                    assert(after[j] == memberships[j]);
                    if memberships[j] == m {
                        assert(memberships[j].student_id == m.student_id);
                    }
                } else if j == memberships.len() as int {
                    assert(after[i] == memberships[i]);
                    if memberships[i] == m {
                        assert(memberships[i].student_id == m.student_id);
                    }
                } else {
                    assert(after[i] == memberships[i] && after[j] == memberships[j]);
                }
            }
        }
    }
}

/// A class is offered to a user exactly when the user neither teaches nor has
/// joined it: the available and joined lists never share a class, and every
/// class the user does not teach is on one of them.
pub proof fn available_and_joined_partition(classes: Seq<Class>, memberships: Seq<Membership>, user: u128)
    ensures
        forall|x: Class|
            !(#[trigger] available_classes(classes, memberships, user).contains(x) && joined_classes(
                classes,
                memberships,
                user,
            ).contains(x)),
        forall|x: Class|
            #[trigger] available_classes(classes, memberships, user).contains(x) ==> x.teacher_id
                != user,
        forall|i: int|
            0 <= i < classes.len() && #[trigger] classes[i].teacher_id != user ==> available_classes(
                classes,
                memberships,
                user,
            ).contains(classes[i]) || joined_classes(classes, memberships, user).contains(
                classes[i],
            ),
{
    assert forall|x: Class|
        !(#[trigger] available_classes(classes, memberships, user).contains(x) && joined_classes(
            classes,
            memberships,
            user,
        ).contains(x)) by {
        available_contains(classes, memberships, user, x);
        joined_contains(classes, memberships, user, x);
    }
    assert forall|x: Class|
        #[trigger] available_classes(classes, memberships, user).contains(x) implies x.teacher_id
        != user by {
        available_contains(classes, memberships, user, x);
    }
    assert forall|i: int|
        0 <= i < classes.len() && #[trigger] classes[i].teacher_id != user implies available_classes(
            classes,
            memberships,
            user,
        ).contains(classes[i]) || joined_classes(classes, memberships, user).contains(
            classes[i],
        ) by {
        assert(classes.contains(classes[i]));
        available_contains(classes, memberships, user, classes[i]);
        joined_contains(classes, memberships, user, classes[i]);
    }
}

/// Once a join has been carried out, the class leaves the caller's available
/// list and enters its joined list.
pub proof fn join_moves_class_to_joined(
    claims: JWTClaims,
    class: Class,
    classes: Seq<Class>,
    memberships: Seq<Membership>,
)
    requires
        classes.contains(class),
    ensures
        join_request(claims, class, memberships) matches Ok(o) ==> {
            &&& !available_classes(classes, after_join(memberships, o), claims.sub).contains(class)
            &&& joined_classes(classes, after_join(memberships, o), claims.sub).contains(class)
        },
{
    if let Ok(o) = join_request(claims, class, memberships) {
        let after = after_join(memberships, o);
        if let MembershipOutcome::Created(m) = o {
            let k = memberships.len() as int;
            assert(after[k] == m);
            assert(after[k].student_id == claims.sub && after[k].class_id == class.id);
        }
        assert(is_member(after, claims.sub, class.id));
        available_contains(classes, after, claims.sub, class);
        joined_contains(classes, after, claims.sub, class);
    }
}

/// Creating a class keeps names and identifiers unique, as long as the store
/// gives it a fresh identifier; and a second class with the same name is refused.
pub proof fn create_keeps_store_consistent(
    claims: JWTClaims,
    classes: Seq<Class>,
    body: ClassRequiredBody,
    id: u128,
    other_claims: JWTClaims,
    other_body: ClassRequiredBody,
)
    requires
        names_unique(classes),
        ids_unique(classes),
        forall|i: int| 0 <= i < classes.len() ==> #[trigger] classes[i].id != id,
        other_body.name@ == body.name@,
    ensures
        create_request(claims, classes, body) matches Ok(nc) ==> {
            &&& names_unique(classes.push(nc.stored_as(id)))
            &&& ids_unique(classes.push(nc.stored_as(id)))
            &&& nc.teacher_id == claims.sub
            &&& create_request(other_claims, classes.push(nc.stored_as(id)), other_body)
                == Err::<crate::model::NewClass, ApiError>(ApiError::NameAlreadyUsed)
        },
{
    if let Ok(nc) = create_request(claims, classes, body) {
        let after = classes.push(nc.stored_as(id));
        let k = classes.len() as int;
        assert(after[k] == nc.stored_as(id));
        assert forall|i: int, j: int|
            0 <= i < after.len() && 0 <= j < after.len() && i != j implies #[trigger] after[i].name@
            != #[trigger] after[j].name@ by {
            if i == k {
                assert(after[j] == classes[j]);
                assert(!name_in_use(classes, body.name@));
            } else if j == k {
                assert(after[i] == classes[i]);
                assert(!name_in_use(classes, body.name@));
            } else {
                assert(after[i] == classes[i] && after[j] == classes[j]);
            }
        }
        assert forall|i: int, j: int|
            0 <= i < after.len() && 0 <= j < after.len() && i != j implies #[trigger] after[i].id
            != #[trigger] after[j].id by {
            if i == k {
                assert(after[j] == classes[j]);
            } else if j == k {
                assert(after[i] == classes[i]);
            } else {
                assert(after[i] == classes[i] && after[j] == classes[j]);
            }
        }
        assert(after[k].name@ == other_body.name@);
        assert(name_in_use(after, other_body.name@));
    }
}

/// Renaming a class keeps names and identifiers unique, keeps the class's
/// identifier and teacher, and keeps its description when the request gives none.
pub proof fn update_keeps_store_consistent(claims: JWTClaims, classes: Seq<Class>, k: int, body: ClassRequiredBody)
    requires
        names_unique(classes),
        ids_unique(classes),
        0 <= k < classes.len(),
    ensures
        update_request(claims, classes[k], classes, body) matches Ok(c) ==> {
            &&& c == renamed(classes[k], body)
            &&& c.id == classes[k].id
            &&& c.teacher_id == classes[k].teacher_id
            &&& c.name@ == body.name@
            &&& (body.description is None ==> c.description == classes[k].description)
            &&& names_unique(classes.update(k, c))
            &&& ids_unique(classes.update(k, c))
        },
{
    if let Ok(c) = update_request(claims, classes[k], classes, body) {
        let after = classes.update(k, c);
        assert(!name_taken_by_other(classes, classes[k].id, body.name@));
        assert forall|i: int, j: int|
            0 <= i < after.len() && 0 <= j < after.len() && i != j implies #[trigger] after[i].name@
            != #[trigger] after[j].name@ by {
            if i == k {
                assert(after[j] == classes[j]);
                assert(classes[j].id != classes[k].id);
            } else if j == k {
                assert(after[i] == classes[i]);
                assert(classes[i].id != classes[k].id);
            } else {
                assert(after[i] == classes[i] && after[j] == classes[j]);
            }
        }
        assert forall|i: int, j: int|
            0 <= i < after.len() && 0 <= j < after.len() && i != j implies #[trigger] after[i].id
            != #[trigger] after[j].id by {
            if i == k {
                assert(after[j] == classes[j]);
            } else if j == k {
                assert(after[i] == classes[i]);
            } else {
                assert(after[i] == classes[i] && after[j] == classes[j]);
            }
        }
    }
}

/// The memberships listed for a class are exactly the class's memberships on record.
pub proof fn listed_memberships_are_the_class_ones(memberships: Seq<Membership>, class_id: u128, m: Membership)
    ensures
        memberships_of(memberships, class_id).contains(m) <==> memberships.contains(m) && m.class_id
            == class_id,
{
    let f = memberships_of(memberships, class_id);
    if f.contains(m) {
        let i = choose|i: int| 0 <= i < f.len() && f[i] == m;
        assert(f[i] == m);
        memberships.lemma_filter_contains_rev(|x: Membership| x.class_id == class_id, m);
    }
    if memberships.contains(m) && m.class_id == class_id {
        let j = choose|j: int| 0 <= j < memberships.len() && memberships[j] == m;
        assert(memberships[j] == m);
    }
}

/// Taking the public view of a user twice gives the same as taking it once.
pub proof fn public_view_is_idempotent(u: UserRecord)
    ensures
        public_user(public_user(u)) == public_user(u),
{
}

/// Trimming trailing slashes leaves no trailing slash, and trimming again changes nothing.
pub proof fn trimming_is_idempotent(s: Seq<char>)
    ensures
        without_trailing_slashes(s).len() == 0 || without_trailing_slashes(s).last() != '/',
        without_trailing_slashes(without_trailing_slashes(s)) == without_trailing_slashes(s),
    decreases s.len(),
{
    if s.len() > 0 && s.last() == '/' {
        trimming_is_idempotent(s.drop_last());
    }
}

/// Creating a class succeeds exactly when no class has the requested name,
/// and then gives a class with the requested name and description, taught by
/// the caller; otherwise it answers 409 "name already used".
pub proof fn create_yields_requested_class(claims: JWTClaims, classes: Seq<Class>, body: ClassRequiredBody)
    ensures
        create_request(claims, classes, body) is Ok <==> forall|i: int|
            0 <= i < classes.len() ==> #[trigger] classes[i].name@ != body.name@,
        create_request(claims, classes, body) matches Ok(nc) ==> nc.name == body.name && nc.description
            == body.description && nc.teacher_id == claims.sub,
        create_request(claims, classes, body) is Err ==> create_request(claims, classes, body)
            == Err::<NewClass, ApiError>(ApiError::NameAlreadyUsed),
{
    if !(forall|i: int| 0 <= i < classes.len() ==> #[trigger] classes[i].name@ != body.name@) {
        let i = choose|i: int| 0 <= i < classes.len() && !(#[trigger] classes[i].name@ != body.name@);
        assert(name_in_use(classes, body.name@));
    }
}

/// The public view of a user keeps its identifier, username, first and last
/// name, e-mail, e-mail status, attributes and enabled flag unchanged, and
/// clears every other field.
pub proof fn public_view_keeps_public_fields(v: UserRecord)
    ensures
        public_user(v).id == v.id,
        public_user(v).username == v.username,
        public_user(v).first_name == v.first_name,
        public_user(v).last_name == v.last_name,
        public_user(v).email == v.email,
        public_user(v).email_verified == v.email_verified,
        public_user(v).attributes == v.attributes,
        public_user(v).enabled == v.enabled,
        public_user(v).access is None,
        public_user(v).application_roles is None,
        public_user(v).client_roles is None,
        public_user(v).created_timestamp is None,
        public_user(v).disableable_credential_types is None,
        public_user(v).federation_link is None,
        public_user(v).groups is None,
        public_user(v).not_before is None,
        public_user(v).origin is None,
        public_user(v).realm_roles is None,
        public_user(v).required_actions is None,
        public_user(v).self_link is None,
        public_user(v).service_account_client_id is None,
        public_user(v).totp is None,
{
}

proof fn first_index_exists(classes: Seq<Class>, id: u128, i: int)
    requires
        0 <= i < classes.len(),
        classes[i].id == id,
    ensures
        exists|k: int| is_first_with_id(classes, id, k),
    decreases i,
{
    if exists|j: int| 0 <= j < i && #[trigger] classes[j].id == id {
        let j = choose|j: int| 0 <= j < i && #[trigger] classes[j].id == id;
        first_index_exists(classes, id, j);
    } else {
        assert(is_first_with_id(classes, id, i));
    }
}

/// Looking a class up by identifier gives the first stored class with that
/// identifier, unchanged, and nothing exactly when no class has it.
pub proof fn lookup_finds_stored_class(classes: Seq<Class>, id: u128)
    ensures
        lookup_class(classes, id) matches Some(c) ==> exists|i: int|
            0 <= i < classes.len() && classes[i] == c && c.id == id && forall|j: int|
                0 <= j < i ==> #[trigger] classes[j].id != id,
        lookup_class(classes, id) matches Some(c) ==> classes.contains(c),
        lookup_class(classes, id) is None <==> forall|i: int|
            0 <= i < classes.len() ==> #[trigger] classes[i].id != id,
{
    if exists|i: int| is_first_with_id(classes, id, i) {
        let i = choose|i: int| is_first_with_id(classes, id, i);
        assert(classes[i] == lookup_class(classes, id)->Some_0);
    } else {
        assert forall|i: int| 0 <= i < classes.len() implies #[trigger] classes[i].id != id by {
            if classes[i].id == id {
                first_index_exists(classes, id, i);
            }
        }
    }
}

/// Renaming: a caller who does not teach the class gets 401; the teacher gets
/// 409 "name is used" exactly when another class (by identifier) has exactly
/// the requested name; otherwise the class keeps its identifier and teacher,
/// takes the requested name, and takes the requested description if one is given.
pub proof fn rename_outcomes(claims: JWTClaims, class: Class, classes: Seq<Class>, body: ClassRequiredBody)
    ensures
        update_request(claims, class, classes, body) == Err::<Class, ApiError>(ApiError::Unauthorized)
            <==> class.teacher_id != claims.sub,
        update_request(claims, class, classes, body) == Err::<Class, ApiError>(ApiError::NameUsed)
            <==> class.teacher_id == claims.sub && exists|i: int|
            0 <= i < classes.len() && #[trigger] classes[i].name@ == body.name@ && classes[i].id
                != class.id,
        update_request(claims, class, classes, body) matches Ok(c) ==> c.id == class.id && c.teacher_id
            == class.teacher_id && c.name == body.name && c.description == (if body.description is Some {
            body.description
        } else {
            class.description
        }),
        class.teacher_id == claims.sub && (forall|i: int|
            0 <= i < classes.len() && classes[i].id != class.id ==> #[trigger] classes[i].name@
                != body.name@) ==> update_request(claims, class, classes, body) is Ok,
{
}

/// The teacher check passes exactly for the class's teacher, and a join is
/// refused exactly for the class's teacher; a join gives the caller's
/// membership in that class, found on record exactly when the store holds it.
pub proof fn teacher_and_join_checks_are_exact(claims: JWTClaims, class: Class, memberships: Seq<Membership>)
    ensures
        teacher_check(claims, class) is Ok <==> class.teacher_id == claims.sub,
        teacher_check(claims, class) is Err ==> teacher_check(claims, class) == Err::<(), ApiError>(
            ApiError::Unauthorized,
        ),
        join_request(claims, class, memberships) is Ok <==> class.teacher_id != claims.sub,
        join_request(claims, class, memberships) matches Ok(o) ==> o.value() == (Membership {
            class_id: class.id,
            student_id: claims.sub,
        }),
        join_request(claims, class, memberships) matches Ok(o) ==> (o is Existing <==> memberships.contains(
            o.value(),
        )),
{
    is_member_iff_stored(memberships, claims.sub, class.id);
}

/// A membership may be removed exactly by the teacher of a class that exists,
/// and the membership removed is the one asked for.
pub proof fn removal_is_exact(claims: JWTClaims, membership: Membership, owner: Option<Class>)
    ensures
        membership_removal(claims, membership, owner) is Ok <==> (owner matches Some(c) && c.teacher_id
            == claims.sub),
        membership_removal(claims, membership, owner) matches Ok(m) ==> m == membership,
        membership_removal(claims, membership, owner) is Err ==> membership_removal(claims, membership, owner)
            == Err::<Membership, ApiError>(ApiError::Unauthorized),
{
}

/// A class is on a user's available list exactly when it is stored, the user
/// does not teach it, and the store holds no membership of the user in it.
pub proof fn available_means_untaught_and_unjoined(classes: Seq<Class>, memberships: Seq<Membership>, user: u128, x: Class)
    ensures
        available_classes(classes, memberships, user).contains(x) <==> classes.contains(x) && x.teacher_id
            != user && !memberships.contains(Membership { class_id: x.id, student_id: user }),
{
    available_contains(classes, memberships, user, x);
    is_member_iff_stored(memberships, user, x.id);
}

/// A class is on a user's joined list exactly when it is stored and the store
/// holds the user's membership in it.
pub proof fn joined_means_enrolled(classes: Seq<Class>, memberships: Seq<Membership>, user: u128, x: Class)
    ensures
        joined_classes(classes, memberships, user).contains(x) <==> classes.contains(x)
            && memberships.contains(Membership { class_id: x.id, student_id: user }),
{
    joined_contains(classes, memberships, user, x);
    is_member_iff_stored(memberships, user, x.id);
}

/// Looking up one user gives its public view when the provider finds it,
/// nothing when the provider answers 404, and passes any other failure on.
pub proof fn user_lookup_outcomes(outcome: Result<UserRecord, KeycloakFailure>)
    ensures
        outcome matches Ok(u) ==> user_lookup(outcome) == Ok::<Option<UserRecord>, RequestError<KeycloakFailure>>(
            Some(public_user(u)),
        ),
        user_lookup(outcome) == Ok::<Option<UserRecord>, RequestError<KeycloakFailure>>(None) <==> (
        outcome matches Err(KeycloakFailure::Http { status, .. }) && status == 404),
        outcome matches Err(e) ==> (user_lookup(outcome) is Err <==> !(e matches KeycloakFailure::Http {
            status,
            ..
        } && status == 404)),
        user_lookup(outcome) matches Err(x) ==> outcome matches Err(e) && x == RequestError::<
            KeycloakFailure,
        >::Keycloak(e),
{
}

/// Trimming removes only slashes, and only at the end: the result is a prefix
/// of the input, every removed character is a slash, and the result does not
/// end with a slash.
pub proof fn trimming_removes_trailing_slashes_only(s: Seq<char>)
    ensures
        without_trailing_slashes(s).len() <= s.len(),
        s.subrange(0, without_trailing_slashes(s).len() as int) == without_trailing_slashes(s),
        forall|i: int| without_trailing_slashes(s).len() <= i < s.len() ==> #[trigger] s[i] == '/',
        without_trailing_slashes(s).len() == 0 || without_trailing_slashes(s).last() != '/',
    decreases s.len(),
{
    if s.len() > 0 && s.last() == '/' {
        trimming_removes_trailing_slashes_only(s.drop_last());
        let t = without_trailing_slashes(s);
        assert(s.drop_last().subrange(0, t.len() as int) =~= s.subrange(0, t.len() as int));
        assert forall|i: int| t.len() <= i < s.len() implies #[trigger] s[i] == '/' by {
            if i < s.len() - 1 {
                assert(s.drop_last()[i] == s[i]);
            }
        }
    } else {
        assert(s.subrange(0, s.len() as int) =~= s);
    }
}

/// Each refusal carries its HTTP status: 401 for callers who may not act or
/// whose token fails, 400 for a teacher joining their class, 409 for name
/// conflicts, 404 for a missing class, 500 for failures of the service.
pub proof fn refusal_statuses()
    ensures
        ApiError::Unauthorized.status_code() == 401 && ApiError::TokenRejected.status_code() == 401,
        ApiError::TeacherCannotJoin.status_code() == 400,
        ApiError::NameUsed.status_code() == 409 && ApiError::NameAlreadyUsed.status_code() == 409,
        ApiError::ClassNotFound.status_code() == 404,
        ApiError::Internal.status_code() == 500 && ApiError::InvalidDecodeKey.status_code() == 500,
{
}

/// The lists are built class by class in store order: with no classes they
/// are empty, and one more stored class is appended to a user's available list
/// exactly when the user neither teaches nor has joined it, and to the joined
/// list exactly when the store holds the user's membership in it.
pub proof fn class_lists_extend_in_store_order(classes: Seq<Class>, memberships: Seq<Membership>, user: u128, c: Class)
    ensures
        available_classes(Seq::empty(), memberships, user) == Seq::<Class>::empty(),
        joined_classes(Seq::empty(), memberships, user) == Seq::<Class>::empty(),
        available_classes(classes.push(c), memberships, user) == if c.teacher_id != user
            && !memberships.contains(Membership { class_id: c.id, student_id: user }) {
            available_classes(classes, memberships, user).push(c)
        } else {
            available_classes(classes, memberships, user)
        },
        joined_classes(classes.push(c), memberships, user) == if memberships.contains(
            Membership { class_id: c.id, student_id: user },
        ) {
            joined_classes(classes, memberships, user).push(c)
        } else {
            joined_classes(classes, memberships, user)
        },
{
    reveal(Seq::filter);
    assert(classes.push(c).drop_last() =~= classes);
    is_member_iff_stored(memberships, user, c.id);
}

/// The memberships listed for a class are built in store order: none from an
/// empty store, and one more stored membership is appended exactly when it
/// belongs to the class.
pub proof fn membership_list_extends_in_store_order(memberships: Seq<Membership>, class_id: u128, m: Membership)
    ensures
        memberships_of(Seq::empty(), class_id) == Seq::<Membership>::empty(),
        memberships_of(memberships.push(m), class_id) == if m.class_id == class_id {
            memberships_of(memberships, class_id).push(m)
        } else {
            memberships_of(memberships, class_id)
        },
{
    reveal(Seq::filter);
    assert(memberships.push(m).drop_last() =~= memberships);
}

/// Finding or inserting a membership gives the membership of that student in
/// that class, marked as existing exactly when the store holds it.
pub proof fn join_outcome_is_the_requested_membership(memberships: Seq<Membership>, student: u128, class_id: u128)
    ensures
        join_outcome(memberships, student, class_id).value() == (Membership { class_id, student_id: student }),
        join_outcome(memberships, student, class_id) is Existing <==> memberships.contains(
            Membership { class_id, student_id: student },
        ),
{
    is_member_iff_stored(memberships, student, class_id);
}

/// Each refusal carries the text the service answers with.
pub proof fn refusal_texts()
    ensures
        ApiError::Unauthorized.message_text() == "unauthorized"@,
        ApiError::TeacherCannotJoin.message_text() == "teacher cant join"@,
        ApiError::NameUsed.message_text() == "name is used"@,
        ApiError::NameAlreadyUsed.message_text() == "name already used"@,
        ApiError::ClassNotFound.message_text() == "class not found"@,
        ApiError::Internal.message_text() == "internal server error"@,
        ApiError::InvalidDecodeKey.message_text() == "invalid jwt decode key"@,
        ApiError::TokenRejected.message_text() == "Failed to verify token"@,
{
}

} // verus!
