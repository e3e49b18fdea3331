//! Desktop/session context and environment comparison model.
use vstd::prelude::*;
use crate::text::{clone_string, eq_str, lemma_lt_irreflexive, lemma_lt_total, lemma_lt_transitive, opt_view, seq_lt, sorted_strict, str_lt};

verus! {

/// Operating-system identity parsed from `/etc/os-release`.
#[derive(Debug, Clone, PartialEq, Eq)]
pub struct SystemInfo {
    pub id: Option<String>,
    pub name: Option<String>,
    pub pretty_name: Option<String>,
    pub version_id: Option<String>,
}

/// Graphical session type reported via `XDG_SESSION_TYPE`.
#[derive(Debug, Clone, Copy, PartialEq, Eq, Structural)]
pub enum SessionType {
    Wayland,
    X11,
}

impl SessionType {
    pub open spec fn from_raw_spec(raw: Seq<char>) -> Option<SessionType> {
        if raw == "wayland"@ {
            Some(SessionType::Wayland)
        } else if raw == "x11"@ {
            Some(SessionType::X11)
        } else {
            None
        }
    }

    /// Parse a raw `XDG_SESSION_TYPE` value; unknown values yield `None`.
    pub fn from_raw(raw: &str) -> (r: Option<SessionType>)
        ensures
            r == Self::from_raw_spec(raw@),
    {
        if eq_str(raw, "wayland") {
            Some(SessionType::Wayland)
        } else if eq_str(raw, "x11") {
            Some(SessionType::X11)
        } else {
            None
        }
    }

    pub open spec fn label_spec(self) -> Seq<char> {
        match self {
            SessionType::Wayland => "wayland"@,
            SessionType::X11 => "x11"@,
        }
    }

    /// Stable lowercase label.
    pub fn as_str(self) -> (r: &'static str)
        ensures
            r@ == self.label_spec(),
    {
        match self {
            SessionType::Wayland => "wayland",
            SessionType::X11 => "x11",
        }
    }
}

/// Desktop/session context discovered from allowlisted environment variables.
#[derive(Debug, Clone, PartialEq, Eq)]
pub struct SessionInfo {
    /// Raw `XDG_CURRENT_DESKTOP`; colon-separated desktop names are preserved.
    pub current_desktop: Option<String>,
    /// Raw `XDG_SESSION_DESKTOP`.
    pub session_desktop: Option<String>,
    /// Parsed `XDG_SESSION_TYPE`; `None` when absent or unrecognized.
    pub session_type: Option<SessionType>,
    /// Raw session-type value, retained when it does not parse.
    pub session_type_raw: Option<String>,
    pub wayland_display: Option<String>,
    pub display: Option<String>,
}

/// Effective `XDG` search roots in precedence order.
#[derive(Debug, Clone, PartialEq, Eq)]
pub struct SearchRoots {
    pub config_roots: Vec<String>,
    pub data_roots: Vec<String>,
}

/// Relation between the process value and the `systemd` user activation
/// value for one allowlisted variable.
#[derive(Debug, Clone, Copy, PartialEq, Eq, Structural)]
pub enum EnvironmentRelation {
    Equal,
    MissingProcess,
    MissingActivation,
    Different,
    NotChecked,
}

impl EnvironmentRelation {
    pub open spec fn label_spec(self) -> Seq<char> {
        match self {
            EnvironmentRelation::Equal => "equal"@,
            EnvironmentRelation::MissingProcess => "missing in process environment"@,
            EnvironmentRelation::MissingActivation => "missing in activation environment"@,
            EnvironmentRelation::Different => "different values"@,
            EnvironmentRelation::NotChecked => "not checked"@,
        }
    }

    /// Human-readable label used by renderers.
    pub fn as_str(self) -> (r: &'static str)
        ensures
            r@ == self.label_spec(),
    {
        match self {
            EnvironmentRelation::Equal => "equal",
            EnvironmentRelation::MissingProcess => "missing in process environment",
            EnvironmentRelation::MissingActivation => "missing in activation environment",
            EnvironmentRelation::Different => "different values",
            EnvironmentRelation::NotChecked => "not checked",
        }
    }
}

/// Per-variable comparison entry.
#[derive(Debug, Clone, PartialEq, Eq)]
pub struct EnvironmentValue {
    pub key: String,
    pub process_value: Option<String>,
    pub activation_value: Option<String>,
    pub relation: EnvironmentRelation,
}

/// Comparison result between the two environments.
#[derive(Debug, Clone, PartialEq, Eq)]
pub struct EnvironmentComparison {
    /// `false` when the activation environment was not collectable.
    pub performed: bool,
    pub entries: Vec<EnvironmentValue>,
}

/// Collected desktop/environment state for one run.
#[derive(Debug, Clone, PartialEq, Eq)]
pub struct EnvironmentInfo {
    /// Allowlisted variables observed in the process environment.
    pub process: EnvVars,
    pub search_roots: SearchRoots,
    pub activation_comparison: EnvironmentComparison,
}

/// A string-keyed variable map (one value per key).
#[derive(Debug, Clone, PartialEq, Eq)]
pub struct EnvVars {
    pub entries: Vec<(String, String)>,
}

/// Value of the first entry whose key is `key`.
pub open spec fn lookup(entries: Seq<(String, String)>, key: Seq<char>) -> Option<Seq<char>>
    decreases entries.len(),
{
    if entries.len() == 0 {
        None
    } else if entries[0].0@ == key {
        Some(entries[0].1@)
    } else {
        lookup(entries.drop_first(), key)
    }
}

proof fn lemma_lookup_prefix(entries: Seq<(String, String)>, key: Seq<char>, i: int)
    requires
        0 <= i <= entries.len(),
        forall|k: int| 0 <= k < i ==> (#[trigger] entries[k]).0@ != key,
    ensures
        lookup(entries, key) == lookup(entries.subrange(i, entries.len() as int), key),
    decreases i,
{
    if i > 0 {
        lemma_lookup_prefix(entries.drop_first(), key, i - 1);
        assert(entries.drop_first().subrange(i - 1, entries.len() - 1) =~= entries.subrange(
            i,
            entries.len() as int,
        ));
    } else {
        assert(entries.subrange(0, entries.len() as int) =~= entries);
    }
}

/// A key found at `i` after keys that differ is what `lookup` returns.
proof fn lemma_lookup_prefix_found(entries: Seq<(String, String)>, key: Seq<char>, i: int)
    requires
        0 <= i < entries.len(),
        entries[i].0@ == key,
        forall|k: int| 0 <= k < i ==> (#[trigger] entries[k]).0@ != key,
    ensures
        lookup(entries, key) == Some(entries[i].1@),
    decreases i,
{
    if i > 0 {
        lemma_lookup_prefix_found(entries.drop_first(), key, i - 1);
    }
}

proof fn lemma_lookup_update(entries: Seq<(String, String)>, i: int, e: (String, String), key: Seq<char>)
    requires
        0 <= i < entries.len(),
        entries[i].0@ == e.0@,
        forall|k: int| 0 <= k < i ==> (#[trigger] entries[k]).0@ != e.0@,
    ensures
        lookup(entries.update(i, e), key) == if key == e.0@ {
            Some(e.1@)
        } else {
            lookup(entries, key)
        },
    decreases i,
{
    let u = entries.update(i, e);
    if i > 0 {
        assert(u[0] == entries[0]);
        assert(u.drop_first() =~= entries.drop_first().update(i - 1, e));
        if entries[0].0@ != key {
            lemma_lookup_update(entries.drop_first(), i - 1, e, key);
        }
    } else {
        assert(u[0] == e);
        assert(u.drop_first() =~= entries.drop_first());
    }
}

proof fn lemma_lookup_push(entries: Seq<(String, String)>, e: (String, String), key: Seq<char>)
    requires
        lookup(entries, e.0@) is None,
    ensures
        lookup(entries.push(e), key) == if key == e.0@ {
            Some(e.1@)
        } else {
            lookup(entries, key)
        },
    decreases entries.len(),
{
    if entries.len() > 0 {
        assert(entries[0].0@ != e.0@);
        assert(lookup(entries.drop_first(), e.0@) is None);
        assert(entries.push(e)[0] == entries[0]);
        assert(entries.push(e).drop_first() =~= entries.drop_first().push(e));
        lemma_lookup_push(entries.drop_first(), e, key);
        assert(lookup(entries.push(e), key) == if entries[0].0@ == key {
            Some(entries[0].1@)
        } else {
            lookup(entries.drop_first().push(e), key)
        });
    } else {
        let p = entries.push(e);
        assert(p.len() == 1);
        assert(p[0] == e);
        assert(p.drop_first() =~= Seq::<(String, String)>::empty());
        assert(lookup(p.drop_first(), key) is None);
        assert(lookup(entries, key) is None);
    }
}

/// The keys of the entries, in order.
pub open spec fn env_keys(entries: Seq<(String, String)>) -> Seq<Seq<char>> {
    entries.map_values(|e: (String, String)| e.0@)
}

proof fn lemma_lookup_insert(entries: Seq<(String, String)>, p: int, e: (String, String), key: Seq<char>)
    requires
        0 <= p <= entries.len(),
        lookup(entries, e.0@) is None,
    ensures
        lookup(entries.insert(p, e), key) == if key == e.0@ {
            Some(e.1@)
        } else {
            lookup(entries, key)
        },
    decreases p,
{
    let ins = entries.insert(p, e);
    if p == 0 {
        assert(ins[0] == e);
        assert(ins.drop_first() =~= entries);
        if key != e.0@ {
        }
    } else {
        assert(entries[0].0@ != e.0@);
        assert(ins[0] == entries[0]);
        assert(ins.drop_first() =~= entries.drop_first().insert(p - 1, e));
        assert(lookup(entries.drop_first(), e.0@) is None);
        lemma_lookup_insert(entries.drop_first(), p - 1, e, key);
    }
}

impl EnvVars {
    /// Keys strictly increasing, as in an ordered map.
    pub open spec fn ordered(&self) -> bool {
        sorted_strict(env_keys(self.entries@))
    }

    pub open spec fn get_spec(&self, key: Seq<char>) -> Option<Seq<char>> {
        lookup(self.entries@, key)
    }

    pub fn new() -> (m: Self)
        ensures
            forall|k: Seq<char>| m.get_spec(k) is None,
            m.ordered(),
            m.entries@.len() == 0,
    {
        let m = EnvVars { entries: Vec::new() };
        assert(env_keys(m.entries@) =~= Seq::<Seq<char>>::empty());
        m
    }

    fn position(&self, key: &str) -> (r: Option<usize>)
        ensures
            match r {
                Some(i) => i < self.entries@.len() && self.entries@[i as int].0@ == key@
                    && forall|k: int| 0 <= k < i ==> (#[trigger] self.entries@[k]).0@ != key@,
                None => self.get_spec(key@) is None,
            },
    {
        let mut i: usize = 0;
        while i < self.entries.len()
            invariant
                i <= self.entries@.len(),
                forall|k: int| 0 <= k < i ==> (#[trigger] self.entries@[k]).0@ != key@,
            decreases self.entries@.len() - i,
        {
            if eq_str(self.entries[i].0.as_str(), key) {
                return Some(i);
            }
            i = i + 1;
        }
        proof {
            lemma_lookup_prefix(self.entries@, key@, i as int);
        }
        None
    }

    /// The value stored for `key`.
    pub fn get(&self, key: &str) -> (r: Option<&String>)
        ensures
            match r {
                Some(v) => self.get_spec(key@) == Some(v@),
                None => self.get_spec(key@) is None,
            },
    {
        match self.position(key) {
            Some(i) => {
                proof {
                    lemma_lookup_prefix(self.entries@, key@, i as int);
                }
                Some(&self.entries[i].1)
            },
            None => None,
        }
    }

    /// A copy of the value stored for `key`.
    pub fn get_cloned(&self, key: &str) -> (r: Option<String>)
        ensures
            opt_view(r) == self.get_spec(key@),
    {
        match self.get(key) {
            Some(v) => Some(clone_string(v)),
            None => None,
        }
    }

    /// Store `value` for `key`, replacing an earlier value; a new key is
    /// placed in key order.
    pub fn insert(&mut self, key: &str, value: &str)
        ensures
            forall|k: Seq<char>| #[trigger] final(self).get_spec(k) == if k == key@ {
                Some(value@)
            } else {
                old(self).get_spec(k)
            },
            old(self).ordered() ==> final(self).ordered(),
    {
        let e = (key.to_owned(), value.to_owned());
        match self.position(key) {
            Some(i) => {
                let ghost before = self.entries@;
                self.entries.set(i, e);
                proof {
                    assert forall|k: Seq<char>| #[trigger] lookup(self.entries@, k) == if k == key@ {
                        Some(value@)
                    } else {
                        lookup(before, k)
                    } by {
                        lemma_lookup_update(before, i as int, e, k);
                    }
                    assert(env_keys(self.entries@) =~= env_keys(before));
                }
            },
            None => {
                let ghost before = self.entries@;
                let mut p: usize = 0;
                while p < self.entries.len() && str_lt(self.entries[p].0.as_str(), key)
                    invariant
                        before == self.entries@,
                        p <= self.entries@.len(),
                        forall|k: int| 0 <= k < p ==> seq_lt((#[trigger] before[k]).0@, key@),
                    decreases self.entries@.len() - p,
                {
                    p = p + 1;
                }
                self.entries.insert(p, e);
                proof {
                    assert forall|k: Seq<char>| #[trigger] lookup(self.entries@, k) == if k == key@ {
                        Some(value@)
                    } else {
                        lookup(before, k)
                    } by {
                        lemma_lookup_insert(before, p as int, e, k);
                    }
                    let ks = env_keys(before);
                    let after = env_keys(self.entries@);
                    assert(after =~= ks.insert(p as int, key@));
                    if sorted_strict(ks) {
                        assert(p < ks.len() ==> seq_lt(key@, ks[p as int])) by {
                            if p < ks.len() {
                                assert(ks[p as int] == before[p as int].0@);
                                if ks[p as int] == key@ {
                                    assert forall|k: int| 0 <= k < p implies (#[trigger] before[k]).0@ != key@ by {
                                        lemma_lt_irreflexive(key@);
                                    }
                                    lemma_lookup_prefix_found(before, key@, p as int);
                                }
                                lemma_lt_total(key@, ks[p as int]);
                            }
                        }
                        assert forall|i: int, j: int| 0 <= i < j < after.len() implies seq_lt(#[trigger] after[i], #[trigger] after[j]) by {
                            if j < p {
                                assert(ks[i] == before[i].0@);
                            } else if j == p {
                                assert(ks[i] == before[i].0@);
                            } else if i < p {
                                assert(ks[i] == before[i].0@);
                                if j - 1 > p {
                                    lemma_lt_transitive(key@, ks[p as int], ks[j - 1]);
                                }
                                lemma_lt_transitive(ks[i], key@, ks[j - 1]);
                            } else if i == p {
                                if j - 1 > p {
                                    lemma_lt_transitive(key@, ks[p as int], ks[j - 1]);
                                }
                            } else {
                            }
                        }
                    }
                }
            },
        }
    }

    pub fn len(&self) -> (r: usize)
        ensures
            r == self.entries@.len(),
    {
        self.entries.len()
    }
}

} // verus!
