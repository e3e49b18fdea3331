//! Portal-relevant systemd user unit states.
use vstd::prelude::*;
use crate::text::{eq_str, concat3};

verus! {

/// Runtime state of one systemd user unit.
#[derive(Debug, Clone, PartialEq, Eq)]
pub struct UnitStatus {
    pub unit: String,
    pub state: UnitState,
    /// `SubState` property (e.g. `running`, `dead`).
    pub sub_state: Option<String>,
    /// `UnitFileState` property (e.g. `static`, `enabled`).
    pub unit_file_state: Option<String>,
}

/// Coarse load/active state of a unit.
#[derive(Debug, Clone, Copy, PartialEq, Eq, Structural)]
pub enum UnitState {
    Active,
    Activating,
    Deactivating,
    Inactive,
    Failed,
    /// The unit does not exist on this system.
    NotFound,
    Unreadable,
}

impl UnitState {
    pub open spec fn parse_spec(value: Seq<char>) -> UnitState {
        if value == "active"@ {
            UnitState::Active
        } else if value == "activating"@ {
            UnitState::Activating
        } else if value == "deactivating"@ {
            UnitState::Deactivating
        } else if value == "inactive"@ {
            UnitState::Inactive
        } else if value == "failed"@ {
            UnitState::Failed
        } else {
            UnitState::Unreadable
        }
    }

    /// Parse the `ActiveState` property value; unknown values stay readable
    /// as `Unreadable`.
    pub fn parse_active_state(value: &str) -> (r: UnitState)
        ensures
            r == Self::parse_spec(value@),
    {
        if eq_str(value, "active") {
            UnitState::Active
        } else if eq_str(value, "activating") {
            UnitState::Activating
        } else if eq_str(value, "deactivating") {
            UnitState::Deactivating
        } else if eq_str(value, "inactive") {
            UnitState::Inactive
        } else if eq_str(value, "failed") {
            UnitState::Failed
        } else {
            UnitState::Unreadable
        }
    }

    pub open spec fn label_spec(self) -> Seq<char> {
        match self {
            UnitState::Active => "active"@,
            UnitState::Activating => "activating"@,
            UnitState::Deactivating => "deactivating"@,
            UnitState::Inactive => "inactive"@,
            UnitState::Failed => "failed"@,
            UnitState::NotFound => "not found"@,
            UnitState::Unreadable => "unreadable"@,
        }
    }

    /// Human-readable label used by renderers.
    pub fn as_str(self) -> (r: &'static str)
        ensures
            r@ == self.label_spec(),
    {
        match self {
            UnitState::Active => "active",
            UnitState::Activating => "activating",
            UnitState::Deactivating => "deactivating",
            UnitState::Inactive => "inactive",
            UnitState::Failed => "failed",
            UnitState::NotFound => "not found",
            UnitState::Unreadable => "unreadable",
        }
    }
}

/// Collected systemd user-service state for portal-relevant units.
#[derive(Debug, Clone, PartialEq, Eq)]
pub struct ServiceInfo {
    pub units: Vec<UnitStatus>,
}

/// Index of the first unit called `name`, or -1.
pub open spec fn unit_index(units: Seq<UnitStatus>, name: Seq<char>) -> int
    decreases units.len(),
{
    if units.len() == 0 {
        -1
    } else if units.last().unit@ == name && unit_index(units.drop_last(), name) < 0 {
        units.len() - 1
    } else {
        unit_index(units.drop_last(), name)
    }
}

proof fn lemma_unit_index(units: Seq<UnitStatus>, name: Seq<char>, i: int)
    requires
        0 <= i <= units.len(),
        forall|k: int| 0 <= k < i ==> (#[trigger] units[k]).unit@ != name,
    ensures
        unit_index(units.subrange(0, i), name) == -1,
        i < units.len() && units[i].unit@ == name ==> unit_index(units.subrange(0, i + 1), name) == i,
    decreases i,
{
    if i > 0 {
        lemma_unit_index(units, name, i - 1);
        assert(units.subrange(0, i).drop_last() =~= units.subrange(0, i - 1));
    }
    if i == 0 {
        assert(units.subrange(0, 0).len() == 0);
    }
    if i < units.len() {
        assert(units.subrange(0, i + 1).drop_last() =~= units.subrange(0, i));
        assert(units.subrange(0, i + 1).last() == units[i]);
        assert(unit_index(units.subrange(0, i), name) == -1);
        let t = units.subrange(0, i + 1);
        assert(t.len() == i + 1);
        if units[i].unit@ == name {
            assert(unit_index(t, name) == t.len() - 1);
        }
    }
}

proof fn lemma_unit_index_stable(units: Seq<UnitStatus>, name: Seq<char>, i: int, j: int)
    requires
        0 <= i <= j <= units.len(),
        0 <= unit_index(units.subrange(0, i), name),
    ensures
        unit_index(units.subrange(0, j), name) == unit_index(units.subrange(0, i), name),
    decreases j - i,
{
    if j > i {
        lemma_unit_index_stable(units, name, i, j - 1);
        assert(units.subrange(0, j).drop_last() =~= units.subrange(0, j - 1));
    }
}

impl ServiceInfo {
    /// Look up one unit by name (the first with that name).
    pub fn unit(&self, name: &str) -> (r: Option<&UnitStatus>)
        ensures
            match r {
                Some(u) => {
                    let i = unit_index(self.units@, name@);
                    0 <= i < self.units@.len() && *u == self.units@[i]
                },
                None => unit_index(self.units@, name@) < 0,
            },
    {
        let mut i: usize = 0;
        while i < self.units.len()
            invariant
                i <= self.units@.len(),
                forall|k: int| 0 <= k < i ==> (#[trigger] self.units@[k]).unit@ != name@,
            decreases self.units@.len() - i,
        {
            if eq_str(self.units[i].unit.as_str(), name) {
                proof {
                    lemma_unit_index(self.units@, name@, i as int);
                    lemma_unit_index_stable(self.units@, name@, i + 1, self.units@.len() as int);
                    assert(self.units@.subrange(0, self.units@.len() as int) =~= self.units@);
                }
                return Some(&self.units[i]);
            }
            i = i + 1;
        }
        proof {
            lemma_unit_index(self.units@, name@, i as int);
            assert(self.units@.subrange(0, i as int) =~= self.units@);
        }
        None
    }

    /// The frontend unit name (`xdg-desktop-portal.service`).
    pub fn frontend_unit() -> (r: &'static str)
        ensures
            r@ == "xdg-desktop-portal.service"@,
    {
        "xdg-desktop-portal.service"
    }

    /// Best-effort unit name for a discovered backend id
    /// (`xdg-desktop-portal-<id>.service`).
    pub fn backend_unit(backend_id: &str) -> (r: String)
        ensures
            r@ == "xdg-desktop-portal-"@ + backend_id@ + ".service"@,
    {
        concat3("xdg-desktop-portal-", backend_id, ".service")
    }
}

} // verus!
