use vstd::prelude::*;

verus! {

/// A class as stored by the service. Identifiers are the 128-bit values of UUIDs.
#[derive(Clone, Debug, PartialEq, Eq)]
pub struct Class {
    pub id: u128,
    pub name: String,
    pub description: Option<String>,
    pub teacher_id: u128,
}

/// A student's membership in a class.
#[derive(Clone, Copy, Debug, PartialEq, Eq, Structural)]
pub struct Membership {
    pub class_id: u128,
    pub student_id: u128,
}

/// The body of a request that creates or renames a class.
#[derive(Clone, Debug, PartialEq, Eq)]
pub struct ClassRequiredBody {
    pub name: String,
    pub description: Option<String>,
}

/// A class together with all of its memberships.
#[derive(Debug, PartialEq, Eq)]
pub struct ClassWithMemberships(pub (Class, Vec<Membership>));

/// A class about to be stored; the store assigns its identifier.
#[derive(Clone, Debug, PartialEq, Eq)]
pub struct NewClass {
    pub name: String,
    pub description: Option<String>,
    pub teacher_id: u128,
}

/// What joining a class comes to: the membership that already exists, or the one to store.
#[derive(Clone, Copy, Debug, PartialEq, Eq, Structural)]
pub enum MembershipOutcome {
    Existing(Membership),
    Created(Membership),
}

impl MembershipOutcome {
    pub open spec fn value(self) -> Membership {
        match self {
            MembershipOutcome::Existing(m) => m,
            MembershipOutcome::Created(m) => m,
        }
    }

    /// The membership that the caller answers with.
    pub fn membership(&self) -> (r: Membership)
        ensures
            r == self.value(),
    {
        match self {
            MembershipOutcome::Existing(m) => *m,
            MembershipOutcome::Created(m) => *m,
        }
    }
}

pub fn copy_text(s: &String) -> (r: String)
    ensures
        r == *s,
{
    s.clone()
}

pub fn copy_optional_text(s: &Option<String>) -> (r: Option<String>)
    ensures
        r == *s,
{
    match s {
        Some(t) => Some(t.clone()),
        None => None,
    }
}

impl Class {
    /// A field-by-field copy of the class.
    pub fn duplicate(&self) -> (r: Class)
        ensures
            r == *self,
    {
        Class {
            id: self.id,
            name: copy_text(&self.name),
            description: copy_optional_text(&self.description),
            teacher_id: self.teacher_id,
        }
    }
}

impl NewClass {
    /// The class that the store holds once it has given this one the identifier `id`.
    pub open spec fn stored_as(self, id: u128) -> Class {
        Class { id, name: self.name, description: self.description, teacher_id: self.teacher_id }
    }
}

/// `student` is enrolled in the class `class_id`.
pub open spec fn is_member(memberships: Seq<Membership>, student: u128, class_id: u128) -> bool {
    exists|i: int|
        0 <= i < memberships.len() && #[trigger] memberships[i].student_id == student
            && memberships[i].class_id == class_id
}

/// Being enrolled means that the store holds exactly the membership of that
/// student in that class.
pub proof fn is_member_iff_stored(memberships: Seq<Membership>, student: u128, class_id: u128)
    ensures
        is_member(memberships, student, class_id) <==> memberships.contains(
            Membership { class_id, student_id: student },
        ),
{
    let m = Membership { class_id, student_id: student };
    if is_member(memberships, student, class_id) {
        let i = choose|i: int|
            0 <= i < memberships.len() && #[trigger] memberships[i].student_id == student
                && memberships[i].class_id == class_id;
        assert(memberships[i] == m);
    }
    if memberships.contains(m) {
        let j = choose|j: int| 0 <= j < memberships.len() && memberships[j] == m;
        assert(memberships[j].student_id == student);
    }
}

/// A class that `user` may join: not taught by `user` and not yet joined.
pub open spec fn is_available_to(c: Class, memberships: Seq<Membership>, user: u128) -> bool {
    c.teacher_id != user && !is_member(memberships, user, c.id)
}

/// The classes available to `user`, in store order.
pub open spec fn available_classes(classes: Seq<Class>, memberships: Seq<Membership>, user: u128) -> Seq<Class> {
    classes.filter(|c: Class| is_available_to(c, memberships, user))
}

/// The classes that `user` has joined, in store order.
pub open spec fn joined_classes(classes: Seq<Class>, memberships: Seq<Membership>, user: u128) -> Seq<Class> {
    classes.filter(|c: Class| is_member(memberships, user, c.id))
}

/// The memberships of the class `class_id`, in store order.
pub open spec fn memberships_of(memberships: Seq<Membership>, class_id: u128) -> Seq<Membership> {
    memberships.filter(|m: Membership| m.class_id == class_id)
}

/// Some class other than `class_id` is called `name`.
pub open spec fn name_taken_by_other(classes: Seq<Class>, class_id: u128, name: Seq<char>) -> bool {
    exists|i: int| 0 <= i < classes.len() && #[trigger] classes[i].name@ == name && classes[i].id != class_id
}

/// Some class is called `name`.
pub open spec fn name_in_use(classes: Seq<Class>, name: Seq<char>) -> bool {
    exists|i: int| 0 <= i < classes.len() && #[trigger] classes[i].name@ == name
}

/// `i` is the position of the first class with identifier `id`.
pub open spec fn is_first_with_id(classes: Seq<Class>, id: u128, i: int) -> bool {
    &&& 0 <= i < classes.len()
    &&& classes[i].id == id
    &&& forall|j: int| 0 <= j < i ==> #[trigger] classes[j].id != id
}

/// The first class with identifier `id`, if any.
pub open spec fn lookup_class(classes: Seq<Class>, id: u128) -> Option<Class> {
    if exists|i: int| is_first_with_id(classes, id, i) {
        Some(classes[choose|i: int| is_first_with_id(classes, id, i)])
    } else {
        None
    }
}

/// The membership that joining `class_id` as `student` yields.
pub open spec fn join_outcome(memberships: Seq<Membership>, student: u128, class_id: u128) -> MembershipOutcome {
    let m = Membership { class_id, student_id: student };
    if is_member(memberships, student, class_id) {
        MembershipOutcome::Existing(m)
    } else {
        MembershipOutcome::Created(m)
    }
}

/// No two classes share a name.
pub open spec fn names_unique(classes: Seq<Class>) -> bool {
    forall|i: int, j: int|
        0 <= i < classes.len() && 0 <= j < classes.len() && i != j ==> #[trigger] classes[i].name@
            != #[trigger] classes[j].name@
}

/// No two classes share an identifier.
pub open spec fn ids_unique(classes: Seq<Class>) -> bool {
    forall|i: int, j: int|
        0 <= i < classes.len() && 0 <= j < classes.len() && i != j ==> #[trigger] classes[i].id
            != #[trigger] classes[j].id
}

/// No student is enrolled twice in the same class.
pub open spec fn enrolments_unique(memberships: Seq<Membership>) -> bool {
    forall|i: int, j: int|
        0 <= i < memberships.len() && 0 <= j < memberships.len() && i != j ==> #[trigger] memberships[i]
            != #[trigger] memberships[j]
}

} // verus!
