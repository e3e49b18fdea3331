//! Runtime D-Bus reachability: which names are checked, how an ownership
//! reply becomes an outcome, and how an error message is classified.
use vstd::prelude::*;
use crate::model::dbus::{DbusCheck, DbusInfo, DbusOutcome, PORTAL_FRONTEND_NAME};
use crate::probes::portal::{contains_any, contains_any_of, error_message};
use crate::text::{insert_sorted, lower, sorted_strict, to_ascii_lowercase, views};

verus! {

pub open spec fn timeout_markers() -> Seq<Seq<char>> {
    seq!["timed out"@, "timeout"@]
}

pub open spec fn denied_markers() -> Seq<Seq<char>> {
    seq!["accessdenied"@, "access denied"@, "not allowed"@, "permission"@]
}

pub open spec fn no_owner_markers() -> Seq<Seq<char>> {
    seq!["serviceunknown"@, "was not provided by any"@]
}

pub open spec fn malformed_markers() -> Seq<Seq<char>> {
    seq!["malformed"@, "invalid"@]
}

/// The outcome a D-Bus error message stands for, matched ASCII
/// case-insensitively in this order; `None` for a message outside the
/// taxonomy, which is then kept as it is.
pub open spec fn classify_spec(message: Seq<char>) -> Option<DbusOutcome> {
    let l = lower(message);
    if contains_any(l, timeout_markers()) {
        Some(DbusOutcome::Timeout)
    } else if contains_any(l, denied_markers()) {
        Some(DbusOutcome::AccessDenied)
    } else if contains_any(l, no_owner_markers()) {
        Some(DbusOutcome::NoOwner)
    } else if contains_any(l, seq!["activation"@]) {
        Some(DbusOutcome::ActivationFailure)
    } else if contains_any(l, malformed_markers()) {
        Some(DbusOutcome::MalformedResponse)
    } else {
        None
    }
}

pub open spec fn classified_as(message: Seq<char>, r: DbusOutcome) -> bool {
    match classify_spec(message) {
        Some(o) => r == o,
        None => r matches DbusOutcome::Other(m) && m@ == message,
    }
}

/// Classify a D-Bus error message.
pub fn classify_message(message: &str) -> (r: DbusOutcome)
    ensures
        classified_as(message@, r),
{
    let l = to_ascii_lowercase(message);
    let l = l.as_str();
    let timeouts: Vec<&str> = vec!["timed out", "timeout"];
    assert(timeouts@.map_values(|p: &str| p@) =~= timeout_markers());
    let denied: Vec<&str> = vec!["accessdenied", "access denied", "not allowed", "permission"];
    assert(denied@.map_values(|p: &str| p@) =~= denied_markers());
    let no_owner: Vec<&str> = vec!["serviceunknown", "was not provided by any"];
    assert(no_owner@.map_values(|p: &str| p@) =~= no_owner_markers());
    let activation: Vec<&str> = vec!["activation"];
    assert(activation@.map_values(|p: &str| p@) =~= seq!["activation"@]);
    let malformed: Vec<&str> = vec!["malformed", "invalid"];
    assert(malformed@.map_values(|p: &str| p@) =~= malformed_markers());
    if contains_any_of(l, &timeouts) {
        DbusOutcome::Timeout
    } else if contains_any_of(l, &denied) {
        DbusOutcome::AccessDenied
    } else if contains_any_of(l, &no_owner) {
        DbusOutcome::NoOwner
    } else if contains_any_of(l, &activation) {
        DbusOutcome::ActivationFailure
    } else if contains_any_of(l, &malformed) {
        DbusOutcome::MalformedResponse
    } else {
        DbusOutcome::Other(message.to_owned())
    }
}

/// Classify a `zbus` error by its message.
pub fn classify(error: &zbus::Error) -> (r: DbusOutcome)
    ensures
        exists|message: Seq<char>| classified_as(message, r),
{
    let message = error_message(error);
    let r = classify_message(message.as_str());
    assert(classified_as(message@, r));
    r
}

/// The names whose ownership is checked after the portal frontend: the
/// selected backends' bus names, sorted and each once.
pub fn backend_names_to_check(selected: &Vec<String>) -> (r: Vec<String>)
    ensures
        sorted_strict(views(r@)),
        forall|x: Seq<char>| #[trigger] views(r@).contains(x) <==> views(selected@).contains(x),
{
    let mut names: Vec<String> = Vec::new();
    let mut i: usize = 0;
    while i < selected.len()
        invariant
            i <= selected@.len(),
            sorted_strict(views(names@)),
            forall|x: Seq<char>| #[trigger] views(names@).contains(x) <==> views(selected@).take(i as int).contains(x),
        decreases selected@.len() - i,
    {
        let s = selected[i].as_str();
        insert_sorted(&mut names, s);
        proof {
            let t = views(selected@).take(i as int);
            assert(views(selected@).take(i + 1) =~= t.push(s@));
            assert forall|x: Seq<char>| #[trigger] t.push(s@).contains(x) <==> (t.contains(x) || x == s@) by {
                if t.push(s@).contains(x) {
                    let k = choose|k: int| 0 <= k < t.len() + 1 && t.push(s@)[k] == x;
                    if k < t.len() {
                        assert(t[k] == x);
                    }
                }
                if t.contains(x) {
                    let k = choose|k: int| 0 <= k < t.len() && t[k] == x;
                    assert(t.push(s@)[k] == x);
                }
                if x == s@ {
                    assert(t.push(s@)[t.len() as int] == x);
                }
            }
        }
        i = i + 1;
    }
    assert(views(selected@).take(i as int) =~= views(selected@));
    names
}

/// How a `NameHasOwner` query for one name ended.
#[derive(Debug, Clone, PartialEq, Eq)]
pub enum OwnerReply {
    /// The name is not a valid bus name.
    InvalidName,
    Owned(bool),
    /// The query failed; the outcome classifies the error.
    Failed(DbusOutcome),
}

/// The check for one name from its ownership reply.
pub fn name_check(name: &str, reply: OwnerReply) -> (r: DbusCheck)
    ensures
        r.name@ == name@,
        r.outcome == match reply {
            OwnerReply::InvalidName => DbusOutcome::MalformedResponse,
            OwnerReply::Owned(true) => DbusOutcome::HasOwner,
            OwnerReply::Owned(false) => DbusOutcome::NoOwner,
            OwnerReply::Failed(outcome) => outcome,
        },
{
    let outcome = match reply {
        OwnerReply::InvalidName => DbusOutcome::MalformedResponse,
        OwnerReply::Owned(owned) => if owned {
            DbusOutcome::HasOwner
        } else {
            DbusOutcome::NoOwner
        },
        OwnerReply::Failed(outcome) => outcome,
    };
    DbusCheck { name: name.to_owned(), outcome }
}

/// The state when no session bus could be reached: not connected, and the
/// frontend check says so.
pub fn no_session_bus() -> (r: DbusInfo)
    ensures
        !r.connected,
        r.checks@.len() == 1,
        r.checks@[0].name@ == PORTAL_FRONTEND_NAME@,
        r.checks@[0].outcome == DbusOutcome::NoSessionBus,
{
    let mut checks: Vec<DbusCheck> = Vec::new();
    checks.push(DbusCheck { name: PORTAL_FRONTEND_NAME.to_owned(), outcome: DbusOutcome::NoSessionBus });
    DbusInfo { connected: false, checks }
}

/// The state when the whole query ran past its time budget.
pub fn timed_out() -> (r: DbusInfo)
    ensures
        !r.connected,
        r.checks@.len() == 1,
        r.checks@[0].name@ == PORTAL_FRONTEND_NAME@,
        r.checks@[0].outcome == DbusOutcome::Timeout,
{
    let mut checks: Vec<DbusCheck> = Vec::new();
    checks.push(DbusCheck { name: PORTAL_FRONTEND_NAME.to_owned(), outcome: DbusOutcome::Timeout });
    DbusInfo { connected: false, checks }
}

} // verus!
