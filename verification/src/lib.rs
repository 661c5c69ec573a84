//! Identity matching for a privilege-authorization system.
//!
//! Authorization rules name a user by login name or numeric id, or a group by
//! name or numeric id. Every rule evaluation reduces to the predicates of
//! [`Identifiable`]: does this principal have that name, that id, is it the
//! superuser, does it belong to that group? The predicates are pure and total:
//! they never fail, and missing data (an unresolved name) simply means "no
//! match", so the surrounding authorization engine fails closed.
//!
//! The canonical records [`GroupID`] and [`UserRecord`] are produced by an
//! external resolver from the system's user and group databases; [`User`] and
//! [`Group`] carry the fields of a live, OS-resolved identity. All of them
//! answer the same matching questions through [`Identifiable`] and
//! [`UnixGroup`], so the engine never depends on which representation it holds.

use vstd::prelude::*;

verus! {

/// A platform user id, as stored in the system's user database.
pub type Uid = u32;

/// A platform group id, as stored in the system's group database.
pub type Gid = u32;

/// Relies on `str`'s `PartialEq` implementation in std: two string slices
/// compare equal exactly when they hold the same sequence of characters.
#[verifier::external_body]
fn str_eq(a: &str, b: &str) -> (r: bool)
    ensures
        r == (a@ == b@),
{
    a == b
}

/// The matching questions an identity representation can answer.
///
/// Every method defaults to `false`: an identity that does not explicitly
/// override a check can never be mistaken for a matching or privileged
/// principal. This fail-closed stance is the interface's security contract,
/// stated below as `default_ensures` on each method.
pub trait Identifiable {
    /// True iff this identity's login name equals `name`.
    fn has_name(&self, _name: &str) -> (r: bool)
        default_ensures
            !r,
    {
        false
    }

    /// True iff this identity's numeric id equals `uid`.
    fn has_uid(&self, _uid: Uid) -> (r: bool)
        default_ensures
            !r,
    {
        false
    }

    /// True iff this identity is the superuser principal.
    fn is_root(&self) -> (r: bool)
        default_ensures
            !r,
    {
        false
    }

    /// True iff this identity belongs to a group with the given name.
    fn in_group_by_name(&self, _name: &str) -> (r: bool)
        default_ensures
            !r,
    {
        false
    }

    /// True iff this identity belongs to a group with the given numeric id.
    fn in_group_by_gid(&self, _gid: Gid) -> (r: bool)
        default_ensures
            !r,
    {
        false
    }
}

/// What a group-side identity must expose: a gid, always, and a name, when one
/// was resolved.
pub trait UnixGroup {
    fn as_gid(&self) -> Gid;

    fn try_as_name(&self) -> Option<&str>;
}

/// Canonical group identity: the gid is authoritative, the name is advisory
/// and may be absent when only a numeric id was resolvable.
#[derive(Debug)]
pub struct GroupID(pub Gid, pub Option<String>);

/// Canonical user identity: numeric id, optional login name, and the full
/// supplementary-group list in the resolver's insertion order.
#[derive(Debug)]
pub struct UserRecord(pub Uid, pub Option<String>, pub Vec<GroupID>);

/// The stored name of a record, as a sequence of characters; `None` when the
/// name was not resolved.
pub open spec fn stored_name(n: Option<String>) -> Option<Seq<char>> {
    match n {
        Some(s) => Some(s@),
        None => None,
    }
}

/// A group record matches a name iff its name was resolved and equals it.
pub open spec fn group_has_name(g: GroupID, name: Seq<char>) -> bool {
    g.1 matches Some(s) && s@ == name
}

/// A group record matches a gid iff its stored gid equals it.
pub open spec fn group_has_gid(g: GroupID, gid: Gid) -> bool {
    g.0 == gid
}

/// A user record matches a name iff its name was resolved and equals it.
pub open spec fn user_has_name(u: UserRecord, name: Seq<char>) -> bool {
    u.1 matches Some(s) && s@ == name
}

/// A user record matches a numeric id iff its stored id equals it.
pub open spec fn user_has_uid(u: UserRecord, uid: Uid) -> bool {
    u.0 == uid
}

/// A canonical record is the superuser only when both the login name and the
/// numeric id say so. The name alone does not suffice (it may be stale or
/// attacker-influenced on some resolution paths), nor does the id alone; this
/// is deliberately stricter than the live-OS adapter, which trusts the id.
pub open spec fn user_is_root(u: UserRecord) -> bool {
    user_has_name(u, "root"@) && user_has_uid(u, 0)
}

/// A user belongs to a group of the given name iff some owned group record
/// matches that name.
pub open spec fn user_in_group_by_name(u: UserRecord, name: Seq<char>) -> bool {
    exists|i: int| 0 <= i < u.2@.len() && #[trigger] group_has_name(u.2@[i], name)
}

/// A user belongs to a group of the given gid iff some owned group record
/// matches that gid.
pub open spec fn user_in_group_by_gid(u: UserRecord, gid: Gid) -> bool {
    exists|i: int| 0 <= i < u.2@.len() && #[trigger] group_has_gid(u.2@[i], gid)
}

/// Two user records are equal iff their numeric ids and names are equal.
/// The group lists are deliberately excluded: two records for the same login
/// identity compare equal even when their supplementary-group snapshots
/// differ (e.g. one stale, one fresh).
pub open spec fn user_eq(a: UserRecord, b: UserRecord) -> bool {
    a.0 == b.0 && stored_name(a.1) == stored_name(b.1)
}

impl PartialEq for UserRecord {
    fn eq(&self, other: &Self) -> (r: bool)
        ensures
            r == user_eq(*self, *other),
    {
        let names_equal = match (&self.1, &other.1) {
            (Some(a), Some(b)) => str_eq(a.as_str(), b.as_str()),
            (None, None) => true,
            _ => false,
        };
        self.0 == other.0 && names_equal
    }
}

impl vstd::std_specs::cmp::PartialEqSpecImpl for UserRecord {
    open spec fn obeys_eq_spec() -> bool {
        true
    }

    open spec fn eq_spec(&self, other: &UserRecord) -> bool {
        user_eq(*self, *other)
    }
}

impl Eq for UserRecord {}

impl UnixGroup for GroupID {
    fn as_gid(&self) -> (r: Gid)
        ensures
            r == self.0,
    {
        self.0
    }

    fn try_as_name(&self) -> (r: Option<&str>)
        ensures
            r is Some <==> self.1 is Some,
            r matches Some(n) ==> stored_name(self.1) == Some(n@),
    {
        match &self.1 {
            Some(s) => Some(s.as_str()),
            None => None,
        }
    }
}

impl Identifiable for &str {
    /// A bare name matches exactly the equal name.
    fn has_name(&self, name: &str) -> (r: bool)
        ensures
            r == (self@ == name@),
    {
        str_eq(self, name)
    }

    /// A bare name is treated as its own sole group.
    fn in_group_by_name(&self, name: &str) -> (r: bool)
        ensures
            r == (self@ == name@),
    {
        self.has_name(name)
    }

    /// A bare name is the superuser exactly when it is the name "root".
    fn is_root(&self) -> (r: bool)
        ensures
            r == (self@ == "root"@),
    {
        self.has_name("root")
    }
}

impl Identifiable for GroupID {
    /// The stored gid is this record's numeric identity.
    fn has_uid(&self, uid: Uid) -> (r: bool)
        ensures
            r == (self.0 == uid),
    {
        self.0 == uid
    }

    fn has_name(&self, name: &str) -> (r: bool)
        ensures
            r == group_has_name(*self, name@),
    {
        match &self.1 {
            Some(s) => str_eq(s.as_str(), name),
            None => false,
        }
    }
}

impl Identifiable for UserRecord {
    fn has_name(&self, name: &str) -> (r: bool)
        ensures
            r == user_has_name(*self, name@),
    {
        match &self.1 {
            Some(s) => str_eq(s.as_str(), name),
            None => false,
        }
    }

    fn has_uid(&self, uid: Uid) -> (r: bool)
        ensures
            r == user_has_uid(*self, uid),
    {
        self.0 == uid
    }

    /// Both checks must pass: a record with uid 0 but a missing or different
    /// name is not root, and neither is a record named "root" under another id.
    fn is_root(&self) -> (r: bool)
        ensures
            r == user_is_root(*self),
    {
        self.has_name("root") && self.has_uid(0)
    }

    fn in_group_by_name(&self, name: &str) -> (r: bool)
        ensures
            r == user_in_group_by_name(*self, name@),
    {
        let mut i: usize = 0;
        while i < self.2.len()
            invariant
                i <= self.2.len(),
                forall|j: int| 0 <= j < i ==> !group_has_name(self.2@[j], name@),
            decreases self.2.len() - i,
        {
            if self.2[i].has_name(name) {
                return true;
            }
            i = i + 1;
        }
        false
    }

    fn in_group_by_gid(&self, gid: Gid) -> (r: bool)
        ensures
            r == user_in_group_by_gid(*self, gid),
    {
        let mut i: usize = 0;
        while i < self.2.len()
            invariant
                i <= self.2.len(),
                forall|j: int| 0 <= j < i ==> !group_has_gid(self.2@[j], gid),
            decreases self.2.len() - i,
        {
            if self.2[i].has_uid(gid) {
                assert(group_has_gid(self.2@[i as int], gid));
                return true;
            }
            i = i + 1;
        }
        false
    }
}

/// A live, OS-resolved user identity: the fields of the system's user
/// database entry that matching reads.
#[derive(Debug)]
pub struct User {
    pub uid: Uid,
    pub name: String,
}

/// A live, OS-resolved group identity: the fields of the system's group
/// database entry that matching reads.
#[derive(Debug)]
pub struct Group {
    pub gid: Gid,
    pub name: String,
}

impl Identifiable for User {
    fn has_name(&self, name: &str) -> (r: bool)
        ensures
            r == (self.name@ == name@),
    {
        str_eq(self.name.as_str(), name)
    }

    fn has_uid(&self, uid: Uid) -> (r: bool)
        ensures
            r == (self.uid == uid),
    {
        self.uid == uid
    }

    /// For a live identity the operating system's own uid field is
    /// authoritative: uid 0 alone decides, whatever the name says. This is
    /// deliberately laxer than [`user_is_root`] on the canonical record.
    fn is_root(&self) -> (r: bool)
        ensures
            r == (self.uid == 0),
    {
        self.has_uid(0)
    }

    /// Group membership is not resolved through this path; deny.
    fn in_group_by_name(&self, _name: &str) -> (r: bool)
        ensures
            !r,
    {
        false
    }

    /// Group membership is not resolved through this path; deny.
    fn in_group_by_gid(&self, _gid: Gid) -> (r: bool)
        ensures
            !r,
    {
        false
    }
}

impl UnixGroup for Group {
    fn as_gid(&self) -> (r: Gid)
        ensures
            r == self.gid,
    {
        self.gid
    }

    /// A live group's name is always resolved, so it is always exposed.
    fn try_as_name(&self) -> (r: Option<&str>)
        ensures
            r matches Some(n) && n@ == self.name@,
    {
        Some(self.name.as_str())
    }
}

/// Group lists carry no weight in user-record equality: two records that
/// agree on the numeric id and the name compare equal whatever supplementary
/// groups each one holds.
pub proof fn lemma_user_eq_ignores_groups(a: UserRecord, b: UserRecord)
    requires
        a.0 == b.0,
        stored_name(a.1) == stored_name(b.1),
    ensures
        user_eq(a, b),
{
}

/// Pure-function law: every matching predicate of this crate has a contract
/// of the form `r == p` for a spec-level predicate `p` of the inputs alone,
/// so two calls with unchanged inputs — here, two results `r1` and `r2` both
/// pinned to the same `p` — return the same answer.
pub proof fn lemma_matching_deterministic(p: bool, r1: bool, r2: bool)
    requires
        r1 == p,
        r2 == p,
    ensures
        r1 == r2,
{
}

} // verus!
