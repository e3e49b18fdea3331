//! Parser for `systemctl --user show --value` output.
use vstd::prelude::*;
use crate::model::section::Section;
use crate::model::service::{ServiceInfo, UnitState, UnitStatus};
use crate::model::status::CollectorState;
use crate::text::{eq_str, lines, lines_seq, non_empty, opt_view, trim, trim_str, views};

verus! {

/// The trimmed, non-empty output values in order.
pub open spec fn show_values(text: Seq<char>) -> Seq<Seq<char>> {
    non_empty(lines_seq(text).map_values(|l: Seq<char>| trim(l)))
}

pub open spec fn nth_value(vals: Seq<Seq<char>>, i: int) -> Option<Seq<char>> {
    if i < vals.len() {
        Some(vals[i])
    } else {
        None
    }
}

/// `s` is what the `--value` output `text` says of `unit`: the first value
/// is the active state (`unknown` meaning no such unit), the next two the
/// sub-state and the unit-file state where present.
pub open spec fn parsed_show(s: UnitStatus, text: Seq<char>, unit: Seq<char>) -> bool {
    let vals = show_values(text);
    let active = if vals.len() > 0 { vals[0] } else { Seq::<char>::empty() };
    &&& s.unit@ == unit
    &&& if active == "unknown"@ {
        s.state == UnitState::NotFound && s.sub_state is None && s.unit_file_state is None
    } else {
        &&& s.state == UnitState::parse_spec(active)
        &&& opt_view(s.sub_state) == nth_value(vals, 1)
        &&& opt_view(s.unit_file_state) == nth_value(vals, 2)
    }
}

/// Parse the `ActiveState`, `SubState`, `UnitFileState` values; an
/// `unknown` active state means the unit does not exist.
pub fn parse_show_output(text: &str, unit: &str) -> (s: UnitStatus)
    ensures
        parsed_show(s, text@, unit@),
{
    let ls = lines(text);
    let ghost lv = views(ls@);
    let mut vals: Vec<String> = Vec::new();
    let mut i: usize = 0;
    while i < ls.len()
        invariant
            lv == views(ls@),
            lv == lines_seq(text@),
            i <= ls@.len(),
            views(vals@) == non_empty(lv.take(i as int).map_values(|l: Seq<char>| trim(l))),
        decreases ls@.len() - i,
    {
        let t = trim_str(ls[i].as_str());
        assert(lv.take(i + 1).map_values(|l: Seq<char>| trim(l)).drop_last() =~= lv.take(i as int).map_values(|l: Seq<char>| trim(l)));
        assert(lv.take(i + 1).map_values(|l: Seq<char>| trim(l)).last() == t@);
        if !t.as_str().is_empty() {
            let ghost before = views(vals@);
            vals.push(t);
            assert(views(vals@) =~= before.push(t@));
        }
        i = i + 1;
    }
    assert(lv.take(i as int) =~= lv);
    assert(views(vals@) == show_values(text@));
    proof {
        reveal_strlit("");
    }
    let active: &str = if vals.len() > 0 { vals[0].as_str() } else { "" };
    assert(vals@.len() > 0 ==> active@ == views(vals@)[0]);
    assert(vals@.len() == 0 ==> active@ =~= Seq::<char>::empty());
    if eq_str(active, "unknown") {
        return not_found(unit);
    }
    assert(vals@.len() > 1 ==> vals@[1]@ == views(vals@)[1]);
    assert(vals@.len() > 2 ==> vals@[2]@ == views(vals@)[2]);
    let sub_state = if vals.len() > 1 { Some(crate::text::clone_string(&vals[1])) } else { None };
    let unit_file_state = if vals.len() > 2 { Some(crate::text::clone_string(&vals[2])) } else { None };
    UnitStatus { unit: unit.to_owned(), state: UnitState::parse_active_state(active), sub_state, unit_file_state }
}

/// Status of a unit that does not exist.
pub fn not_found(unit: &str) -> (s: UnitStatus)
    ensures
        s.unit@ == unit@,
        s.state == UnitState::NotFound,
        s.sub_state is None,
        s.unit_file_state is None,
{
    UnitStatus { unit: unit.to_owned(), state: UnitState::NotFound, sub_state: None, unit_file_state: None }
}

/// Status of a unit whose state could not be read.
pub fn unreadable(unit: &str) -> (s: UnitStatus)
    ensures
        s.unit@ == unit@,
        s.state == UnitState::Unreadable,
        s.sub_state is None,
        s.unit_file_state is None,
{
    UnitStatus { unit: unit.to_owned(), state: UnitState::Unreadable, sub_state: None, unit_file_state: None }
}

/// The `systemctl` arguments that read one user unit's states.
pub fn show_arguments(unit: &str) -> (r: Vec<String>)
    ensures
        views(r@) == seq![
            "--user"@, "show"@, unit@, "-p"@, "ActiveState"@, "-p"@, "SubState"@, "-p"@, "UnitFileState"@,
            "--value"@,
        ],
{
    let mut r: Vec<String> = Vec::new();
    r.push("--user".to_owned());
    r.push("show".to_owned());
    r.push(unit.to_owned());
    r.push("-p".to_owned());
    r.push("ActiveState".to_owned());
    r.push("-p".to_owned());
    r.push("SubState".to_owned());
    r.push("-p".to_owned());
    r.push("UnitFileState".to_owned());
    r.push("--value".to_owned());
    assert(views(r@) =~= seq![
        "--user"@, "show"@, unit@, "-p"@, "ActiveState"@, "-p"@, "SubState"@, "-p"@, "UnitFileState"@,
        "--value"@,
    ]);
    r
}

/// How one bounded `systemctl --user show` ended.
#[derive(Debug, Clone, PartialEq, Eq)]
pub enum ShowRun {
    /// It could not be started or ran past its budget.
    Failed,
    /// It exited; `stdout` is its output, decoded lossily.
    Exited { success: bool, stdout: String },
}

/// `s` is the status of `unit` after the query `run`: unreadable when the
/// query failed, not found when `systemctl` refused, else as its output says.
pub open spec fn status_after(s: UnitStatus, unit: Seq<char>, run: ShowRun) -> bool {
    &&& s.unit@ == unit
    &&& run == ShowRun::Failed ==> s.state == UnitState::Unreadable && s.sub_state is None && s.unit_file_state is None
    &&& run matches ShowRun::Exited { success: false, .. } ==> s.state == UnitState::NotFound && s.sub_state is None
        && s.unit_file_state is None
    &&& run matches ShowRun::Exited { success: true, stdout } ==> parsed_show(s, stdout@, unit)
}

/// The status of one unit: unreadable when the query failed, not found
/// when `systemctl` refused, else as its output says.
pub fn unit_status(unit: &str, run: &ShowRun) -> (s: UnitStatus)
    ensures
        status_after(s, unit@, *run),
{
    match run {
        ShowRun::Failed => unreadable(unit),
        ShowRun::Exited { success, stdout } => if *success {
            parse_show_output(stdout.as_str(), unit)
        } else {
            not_found(unit)
        },
    }
}

/// One status per requested unit, in the order requested: `runs[i]` is how
/// the query of `units[i]` ended.
pub fn unit_statuses(units: &Vec<String>, runs: &Vec<ShowRun>) -> (r: Vec<UnitStatus>)
    requires
        units@.len() == runs@.len(),
    ensures
        r@.len() == units@.len(),
        forall|i: int| 0 <= i < r@.len() ==> status_after(#[trigger] r@[i], units@[i]@, runs@[i]),
{
    let mut r: Vec<UnitStatus> = Vec::new();
    let mut i: usize = 0;
    while i < units.len()
        invariant
            units@.len() == runs@.len(),
            i <= units@.len(),
            r@.len() == i,
            forall|k: int| 0 <= k < i ==> status_after(#[trigger] r@[k], units@[k]@, runs@[k]),
        decreases units@.len() - i,
    {
        r.push(unit_status(units[i].as_str(), &runs[i]));
        i = i + 1;
    }
    r
}

/// Collect the portal-relevant user units: unsupported when none was
/// requested, else one status per requested unit, in order, with no note.
pub fn collect(units: &Vec<String>, runs: &Vec<ShowRun>) -> (s: Section<ServiceInfo>)
    requires
        units@.len() == runs@.len(),
    ensures
        units@.len() == 0 ==> s.failed_with(CollectorState::Unsupported, "no portal-relevant units requested"@),
        units@.len() > 0 ==> {
            &&& s.status == CollectorState::Available
            &&& s.errors@.len() == 0
            &&& s.value matches Some(info) && info.units@.len() == units@.len()
                && forall|i: int| 0 <= i < units@.len() ==> status_after(#[trigger] info.units@[i], units@[i]@, runs@[i])
        },
{
    services_section(unit_statuses(units, runs))
}

/// The services section: unsupported when no unit was requested.
pub fn services_section(statuses: Vec<UnitStatus>) -> (s: Section<ServiceInfo>)
    ensures
        statuses@.len() == 0 ==> s.failed_with(CollectorState::Unsupported, "no portal-relevant units requested"@),
        statuses@.len() > 0 ==> s.status == CollectorState::Available && s.value == Some(ServiceInfo { units: statuses })
            && s.errors@.len() == 0,
{
    if statuses.len() == 0 {
        Section::unsupported("no portal-relevant units requested")
    } else {
        Section::available(ServiceInfo { units: statuses })
    }
}

} // verus!
