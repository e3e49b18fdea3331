//! Concise terminal text; the verbose mode adds collected details and full
//! finding explanations.
use vstd::prelude::*;
use crate::model::dbus::{DbusCheck, DbusOutcome, PORTAL_FRONTEND_NAME};
use crate::model::environment::{EnvironmentRelation, EnvironmentValue};
use crate::model::finding::Finding;
use crate::model::journal::JournalEntry;
use crate::model::pipewire::PipeWireNode;
use crate::model::section::{CollectionNote, Section};
use crate::model::service::UnitStatus;
use crate::model::snapshot::Snapshot;
use crate::report::{Renderer, Report};
use crate::rules::dbus::first_named;
use crate::text::{append, debug_quote, debug_str, decimal, eq_str, join, join_strings, opt_view, push_decimal, views};

verus! {

/// Renderer that emits concise terminal text.
pub struct TerminalRenderer;

/// `- <first note>`, or a placeholder when the section carries none.
pub open spec fn note_text<T>(section: Section<T>) -> Seq<char> {
    if section.errors@.len() > 0 {
        "- "@ + section.errors@[0].message@
    } else {
        "- no details available"@
    }
}

fn first_note<T>(section: &Section<T>) -> (r: String)
    ensures
        r@ == note_text(*section),
{
    if section.errors.len() > 0 {
        crate::text::concat2("- ", section.errors[0].message.as_str())
    } else {
        "- no details available".to_owned()
    }
}

pub open spec fn system_text(s: Snapshot) -> Seq<char> {
    match s.system.value {
        Some(system) => {
            let label = match system.pretty_name {
                Some(p) => p@,
                None => match system.name {
                    Some(n) => n@,
                    None => "unknown operating system"@,
                },
            };
            match system.id {
                Some(id) => "System: "@ + label + " ("@ + id@ + ")\n"@,
                None => "System: "@ + label + "\n"@,
            }
        },
        None => "System: "@ + s.system.status.label_spec() + " "@ + note_text(s.system) + "\n"@,
    }
}

fn write_system(out: &mut String, report: &Report)
    ensures
        final(out)@ == old(out)@ + system_text(report.snapshot),
{
    match &report.snapshot.system.value {
        Some(system) => {
            let label: &str = match &system.pretty_name {
                Some(p) => p.as_str(),
                None => match &system.name {
                    Some(n) => n.as_str(),
                    None => "unknown operating system",
                },
            };
            append(out, "System: ");
            append(out, label);
            match &system.id {
                Some(id) => {
                    append(out, " (");
                    append(out, id.as_str());
                    append(out, ")\n");
                },
                None => append(out, "\n"),
            }
        },
        None => {
            let section = &report.snapshot.system;
            append(out, "System: ");
            append(out, section.status.label());
            append(out, " ");
            append(out, first_note(section).as_str());
            append(out, "\n");
        },
    }
}

/// The ` · `-joined parts of the session line.
pub open spec fn session_parts(s: crate::model::environment::SessionInfo) -> Seq<Seq<char>> {
    let first = match s.session_type {
        Some(t) => t.label_spec() + " session"@,
        None => match s.session_type_raw {
            Some(raw) => "unrecognized session type ("@ + raw@ + ")"@,
            None => "session type unknown"@,
        },
    };
    let with_desktop = match s.current_desktop {
        Some(d) => seq![first, "desktop "@ + d@],
        None => seq![first],
    };
    match s.session_desktop {
        Some(d) => if opt_view(s.current_desktop) != Some(d@) { with_desktop.push("session desktop "@ + d@) } else { with_desktop },
        None => with_desktop,
    }
}

pub open spec fn session_text(s: Snapshot) -> Seq<char> {
    match s.session.value {
        Some(session) => "Session: "@ + join(session_parts(session), " \u{b7} "@) + "\n"@,
        None => "Session: unavailable\n"@,
    }
}

fn write_session(out: &mut String, report: &Report)
    ensures
        final(out)@ == old(out)@ + session_text(report.snapshot),
{
    let session = match &report.snapshot.session.value {
        Some(s) => s,
        None => {
            append(out, "Session: unavailable\n");
            return;
        },
    };
    let mut parts: Vec<String> = Vec::new();
    let first = match session.session_type {
        Some(t) => crate::text::concat2(t.as_str(), " session"),
        None => match &session.session_type_raw {
            Some(raw) => crate::text::concat3("unrecognized session type (", raw.as_str(), ")"),
            None => "session type unknown".to_owned(),
        },
    };
    parts.push(first);
    match &session.current_desktop {
        Some(d) => parts.push(crate::text::concat2("desktop ", d.as_str())),
        None => {},
    }
    match &session.session_desktop {
        Some(d) => {
            let same = match &session.current_desktop {
                Some(c) => eq_str(c.as_str(), d.as_str()),
                None => false,
            };
            if !same {
                parts.push(crate::text::concat2("session desktop ", d.as_str()));
            }
        },
        None => {},
    }
    assert(views(parts@) =~= session_parts(*session));
    let line = join_strings(&parts, " \u{b7} ");
    append(out, "Session: ");
    append(out, line.as_str());
    append(out, "\n");
}

/// How many comparison entries are not equal.
pub open spec fn mismatch_count(entries: Seq<EnvironmentValue>) -> nat
    decreases entries.len(),
{
    if entries.len() == 0 {
        0
    } else {
        mismatch_count(entries.drop_last()) + if entries.last().relation != EnvironmentRelation::Equal { 1nat } else { 0nat }
    }
}

pub open spec fn note_lines(notes: Seq<CollectionNote>) -> Seq<char>
    decreases notes.len(),
{
    if notes.len() == 0 {
        Seq::empty()
    } else {
        note_lines(notes.drop_last()) + "  note: "@ + notes.last().message@ + "\n"@
    }
}

pub open spec fn var_lines(vars: Seq<(String, String)>) -> Seq<char>
    decreases vars.len(),
{
    if vars.len() == 0 {
        Seq::empty()
    } else {
        var_lines(vars.drop_last()) + "  "@ + vars.last().0@ + "="@ + vars.last().1@ + "\n"@
    }
}

pub open spec fn root_lines(roots: Seq<String>) -> Seq<char>
    decreases roots.len(),
{
    if roots.len() == 0 {
        Seq::empty()
    } else {
        root_lines(roots.drop_last()) + "  "@ + roots.last()@ + "\n"@
    }
}

pub open spec fn roots_text(label: Seq<char>, roots: Seq<String>) -> Seq<char> {
    "\n"@ + label + ":\n"@ + root_lines(roots)
}

/// `Option<&String>`'s `Debug` form.
pub open spec fn opt_debug(o: Option<String>) -> Seq<char> {
    match o {
        Some(v) => "Some("@ + debug_str(v@) + ")"@,
        None => "None"@,
    }
}

pub open spec fn relation_text(e: EnvironmentValue) -> Seq<char> {
    match e.relation {
        EnvironmentRelation::Equal => "equal"@,
        EnvironmentRelation::Different => "different (process "@ + opt_debug(e.process_value) + ", activation "@
            + opt_debug(e.activation_value) + ")"@,
        EnvironmentRelation::MissingProcess => "missing in this session (activation "@ + opt_debug(e.activation_value) + ")"@,
        EnvironmentRelation::MissingActivation => "missing in activation environment (process "@ + opt_debug(e.process_value)
            + ")"@,
        EnvironmentRelation::NotChecked => "not checked"@,
    }
}

pub open spec fn detail_lines(entries: Seq<EnvironmentValue>) -> Seq<char>
    decreases entries.len(),
{
    if entries.len() == 0 {
        Seq::empty()
    } else {
        detail_lines(entries.drop_last()) + "  "@ + entries.last().key@ + ": "@ + relation_text(entries.last()) + "\n"@
    }
}

pub open spec fn environment_text(s: Snapshot, verbose: bool) -> Seq<char> {
    match s.environment.value {
        None => Seq::empty(),
        Some(env) => {
            let comp = env.activation_comparison;
            if !comp.performed {
                "Activation environment: not compared\n"@ + note_lines(s.environment.errors@)
            } else {
                let n = comp.entries@.len();
                let m = mismatch_count(comp.entries@);
                let head = if m == 0 {
                    "Activation environment: consistent ("@ + decimal(n) + " variables compared)\n"@
                } else {
                    "Activation environment: "@ + decimal(m) + " mismatch(es) across "@ + decimal(n) + " variables\n"@
                };
                if verbose {
                    head + "\nEnvironment variables (allowlisted):\n"@ + var_lines(env.process.entries@)
                        + roots_text("Config search roots"@, env.search_roots.config_roots@)
                        + roots_text("Data search roots"@, env.search_roots.data_roots@)
                        + "\nActivation environment details:\n"@ + detail_lines(comp.entries@)
                } else {
                    head
                }
            }
        },
    }
}

fn write_roots(out: &mut String, label: &str, roots: &Vec<String>)
    ensures
        final(out)@ == old(out)@ + roots_text(label@, roots@),
{
    append(out, "\n");
    append(out, label);
    append(out, ":\n");
    let ghost start = out@;
    let mut i: usize = 0;
    while i < roots.len()
        invariant
            i <= roots@.len(),
            out@ == start + root_lines(roots@.take(i as int)),
        decreases roots@.len() - i,
    {
        assert(roots@.take(i + 1).drop_last() =~= roots@.take(i as int));
        append(out, "  ");
        append(out, roots[i].as_str());
        append(out, "\n");
        i = i + 1;
        assert(out@ =~= start + root_lines(roots@.take(i as int)));
    }
    assert(roots@.take(i as int) =~= roots@);
}

fn debug_option(o: &Option<String>) -> (r: String)
    ensures
        r@ == opt_debug(*o),
{
    match o {
        Some(v) => {
            let mut r = "Some(".to_owned();
            append(&mut r, debug_quote(v.as_str()).as_str());
            append(&mut r, ")");
            r
        },
        None => "None".to_owned(),
    }
}

fn describe_relation(entry: &EnvironmentValue) -> (r: String)
    ensures
        r@ == relation_text(*entry),
{
    match entry.relation {
        EnvironmentRelation::Equal => "equal".to_owned(),
        EnvironmentRelation::Different => {
            let mut r = "different (process ".to_owned();
            append(&mut r, debug_option(&entry.process_value).as_str());
            append(&mut r, ", activation ");
            append(&mut r, debug_option(&entry.activation_value).as_str());
            append(&mut r, ")");
            r
        },
        EnvironmentRelation::MissingProcess => {
            let mut r = "missing in this session (activation ".to_owned();
            append(&mut r, debug_option(&entry.activation_value).as_str());
            append(&mut r, ")");
            r
        },
        EnvironmentRelation::MissingActivation => {
            let mut r = "missing in activation environment (process ".to_owned();
            append(&mut r, debug_option(&entry.process_value).as_str());
            append(&mut r, ")");
            r
        },
        EnvironmentRelation::NotChecked => "not checked".to_owned(),
    }
}

fn write_environment(out: &mut String, report: &Report, verbose: bool)
    ensures
        final(out)@ == old(out)@ + environment_text(report.snapshot, verbose),
{
    let environment = match &report.snapshot.environment.value {
        Some(e) => e,
        None => return,
    };
    let ghost start = out@;
    let comparison = &environment.activation_comparison;
    if !comparison.performed {
        append(out, "Activation environment: not compared\n");
        let notes = &report.snapshot.environment.errors;
        let ghost mid = out@;
        let mut i: usize = 0;
        while i < notes.len()
            invariant
                i <= notes@.len(),
                out@ == mid + note_lines(notes@.take(i as int)),
            decreases notes@.len() - i,
        {
            assert(notes@.take(i + 1).drop_last() =~= notes@.take(i as int));
            append(out, "  note: ");
            append(out, notes[i].message.as_str());
            append(out, "\n");
            i = i + 1;
            assert(out@ =~= mid + note_lines(notes@.take(i as int)));
        }
        assert(notes@.take(i as int) =~= notes@);
        return;
    }
    let entries = &comparison.entries;
    let mut mismatches: usize = 0;
    let mut i: usize = 0;
    while i < entries.len()
        invariant
            i <= entries@.len(),
            mismatches == mismatch_count(entries@.take(i as int)),
            mismatches <= i,
        decreases entries@.len() - i,
    {
        assert(entries@.take(i + 1).drop_last() =~= entries@.take(i as int));
        if entries[i].relation != EnvironmentRelation::Equal {
            mismatches = mismatches + 1;
        }
        i = i + 1;
    }
    assert(entries@.take(i as int) =~= entries@);
    if mismatches == 0 {
        append(out, "Activation environment: consistent (");
        push_decimal(out, entries.len() as u64);
        append(out, " variables compared)\n");
    } else {
        append(out, "Activation environment: ");
        push_decimal(out, mismatches as u64);
        append(out, " mismatch(es) across ");
        push_decimal(out, entries.len() as u64);
        append(out, " variables\n");
    }
    if !verbose {
        return;
    }
    append(out, "\nEnvironment variables (allowlisted):\n");
    let vars = &environment.process.entries;
    let ghost mid = out@;
    let mut i: usize = 0;
    while i < vars.len()
        invariant
            i <= vars@.len(),
            out@ == mid + var_lines(vars@.take(i as int)),
        decreases vars@.len() - i,
    {
        assert(vars@.take(i + 1).drop_last() =~= vars@.take(i as int));
        append(out, "  ");
        append(out, vars[i].0.as_str());
        append(out, "=");
        append(out, vars[i].1.as_str());
        append(out, "\n");
        i = i + 1;
        assert(out@ =~= mid + var_lines(vars@.take(i as int)));
    }
    assert(vars@.take(i as int) =~= vars@);
    write_roots(out, "Config search roots", &environment.search_roots.config_roots);
    write_roots(out, "Data search roots", &environment.search_roots.data_roots);
    append(out, "\nActivation environment details:\n");
    let ghost mid2 = out@;
    let mut i: usize = 0;
    while i < entries.len()
        invariant
            i <= entries@.len(),
            out@ == mid2 + detail_lines(entries@.take(i as int)),
        decreases entries@.len() - i,
    {
        assert(entries@.take(i + 1).drop_last() =~= entries@.take(i as int));
        append(out, "  ");
        append(out, entries[i].key.as_str());
        append(out, ": ");
        append(out, describe_relation(&entries[i]).as_str());
        append(out, "\n");
        i = i + 1;
        assert(out@ =~= mid2 + detail_lines(entries@.take(i as int)));
    }
    assert(entries@.take(i as int) =~= entries@);
}

pub open spec fn outcome_text(o: DbusOutcome) -> Seq<char> {
    match o {
        DbusOutcome::HasOwner => "reachable"@,
        DbusOutcome::NoOwner => "no owner on the bus"@,
        DbusOutcome::NoSessionBus => "no session bus"@,
        DbusOutcome::ActivationFailure => "activation failure"@,
        DbusOutcome::Timeout => "timed out"@,
        DbusOutcome::AccessDenied => "access denied"@,
        DbusOutcome::MalformedResponse => "malformed response"@,
        DbusOutcome::Other(msg) => "error: "@ + msg@,
    }
}

fn describe_outcome(outcome: &DbusOutcome) -> (r: String)
    ensures
        r@ == outcome_text(*outcome),
{
    match outcome {
        DbusOutcome::HasOwner => "reachable".to_owned(),
        DbusOutcome::NoOwner => "no owner on the bus".to_owned(),
        DbusOutcome::NoSessionBus => "no session bus".to_owned(),
        DbusOutcome::ActivationFailure => "activation failure".to_owned(),
        DbusOutcome::Timeout => "timed out".to_owned(),
        DbusOutcome::AccessDenied => "access denied".to_owned(),
        DbusOutcome::MalformedResponse => "malformed response".to_owned(),
        DbusOutcome::Other(msg) => crate::text::concat2("error: ", msg.as_str()),
    }
}

/// One line per backend check (every check but the frontend's).
pub open spec fn backend_lines(checks: Seq<DbusCheck>) -> Seq<char>
    decreases checks.len(),
{
    if checks.len() == 0 {
        Seq::empty()
    } else {
        let c = checks.last();
        backend_lines(checks.drop_last()) + if c.name@ == PORTAL_FRONTEND_NAME@ {
            Seq::empty()
        } else {
            "  backend "@ + c.name@ + ": "@ + outcome_text(c.outcome) + "\n"@
        }
    }
}

pub open spec fn unit_lines(units: Seq<UnitStatus>) -> Seq<char>
    decreases units.len(),
{
    if units.len() == 0 {
        Seq::empty()
    } else {
        let u = units.last();
        unit_lines(units.drop_last()) + "  "@ + u.unit@ + ": "@ + u.state.label_spec() + "\n"@ + match u.sub_state {
            Some(sub) => "    sub-state: "@ + sub@ + "\n"@,
            None => Seq::empty(),
        }
    }
}

pub open spec fn runtime_text(s: Snapshot, verbose: bool) -> Seq<char> {
    match s.dbus.value {
        None => Seq::empty(),
        Some(info) => if !info.connected {
            "D-Bus: session bus unavailable\n"@
        } else {
            let frontend = match first_named(info.checks@, PORTAL_FRONTEND_NAME@) {
                Some(c) => if c.outcome is HasOwner {
                    "D-Bus: connected \u{b7} portal frontend reachable\n"@
                } else {
                    "D-Bus: connected \u{b7} portal frontend NOT reachable\n"@
                },
                None => "D-Bus: connected \u{b7} portal frontend NOT reachable\n"@,
            };
            frontend + backend_lines(info.checks@) + match s.services.value {
                Some(services) => if verbose { "\nSystemd user units:\n"@ + unit_lines(services.units@) } else { Seq::empty() },
                None => Seq::empty(),
            }
        },
    }
}

fn frontend_reachable(checks: &Vec<DbusCheck>) -> (r: bool)
    ensures
        r == (first_named(checks@, PORTAL_FRONTEND_NAME@) matches Some(c) && c.outcome is HasOwner),
{
    let mut i: usize = 0;
    assert(checks@.subrange(0, checks@.len() as int) =~= checks@);
    while i < checks.len()
        invariant
            i <= checks@.len(),
            first_named(checks@, PORTAL_FRONTEND_NAME@) == first_named(checks@.subrange(i as int, checks@.len() as int), PORTAL_FRONTEND_NAME@),
        decreases checks@.len() - i,
    {
        let ghost rest = checks@.subrange(i as int, checks@.len() as int);
        assert(rest[0] == checks@[i as int]);
        if eq_str(checks[i].name.as_str(), PORTAL_FRONTEND_NAME) {
            return matches!(checks[i].outcome, DbusOutcome::HasOwner);
        }
        assert(rest.drop_first() =~= checks@.subrange(i + 1, checks@.len() as int));
        i = i + 1;
    }
    false
}

fn write_runtime(out: &mut String, report: &Report, verbose: bool)
    ensures
        final(out)@ == old(out)@ + runtime_text(report.snapshot, verbose),
{
    let info = match &report.snapshot.dbus.value {
        Some(i) => i,
        None => return,
    };
    if !info.connected {
        append(out, "D-Bus: session bus unavailable\n");
        return;
    }
    if frontend_reachable(&info.checks) {
        append(out, "D-Bus: connected \u{b7} portal frontend reachable\n");
    } else {
        append(out, "D-Bus: connected \u{b7} portal frontend NOT reachable\n");
    }
    let checks = &info.checks;
    let ghost mid = out@;
    let mut i: usize = 0;
    while i < checks.len()
        invariant
            i <= checks@.len(),
            out@ == mid + backend_lines(checks@.take(i as int)),
        decreases checks@.len() - i,
    {
        assert(checks@.take(i + 1).drop_last() =~= checks@.take(i as int));
        if !eq_str(checks[i].name.as_str(), PORTAL_FRONTEND_NAME) {
            append(out, "  backend ");
            append(out, checks[i].name.as_str());
            append(out, ": ");
            append(out, describe_outcome(&checks[i].outcome).as_str());
            append(out, "\n");
        }
        i = i + 1;
        assert(out@ =~= mid + backend_lines(checks@.take(i as int)));
    }
    assert(checks@.take(i as int) =~= checks@);
    if verbose {
        match &report.snapshot.services.value {
            Some(services) => {
                append(out, "\nSystemd user units:\n");
                let units = &services.units;
                let ghost mid2 = out@;
                let mut i: usize = 0;
                while i < units.len()
                    invariant
                        i <= units@.len(),
                        out@ == mid2 + unit_lines(units@.take(i as int)),
                    decreases units@.len() - i,
                {
                    assert(units@.take(i + 1).drop_last() =~= units@.take(i as int));
                    append(out, "  ");
                    append(out, units[i].unit.as_str());
                    append(out, ": ");
                    append(out, units[i].state.as_str());
                    append(out, "\n");
                    match &units[i].sub_state {
                        Some(sub) => {
                            append(out, "    sub-state: ");
                            append(out, sub.as_str());
                            append(out, "\n");
                        },
                        None => {},
                    }
                    i = i + 1;
                    assert(out@ =~= mid2 + unit_lines(units@.take(i as int)));
                }
                assert(units@.take(i as int) =~= units@);
            },
            None => {},
        }
    }
}

/// How many nodes are video sources.
pub open spec fn video_source_count(nodes: Seq<PipeWireNode>) -> nat
    decreases nodes.len(),
{
    if nodes.len() == 0 {
        0
    } else {
        video_source_count(nodes.drop_last()) + if nodes.last().is_video_source { 1nat } else { 0nat }
    }
}

pub open spec fn pipewire_counts_line(info: crate::model::pipewire::PipeWireInfo) -> Seq<char> {
    "PipeWire: reachable \u{b7} "@ + match info.version { Some(v) => v@, None => "unknown version"@ }
        + " \u{b7} "@ + decimal(info.object_count as nat) + " objects \u{b7} "@ + decimal(info.node_count as nat)
        + " nodes \u{b7} "@ + decimal(info.link_count as nat) + " links\n"@
}

pub open spec fn pipewire_sources_line(info: crate::model::pipewire::PipeWireInfo) -> Seq<char> {
    "  video sources: "@ + decimal(video_source_count(info.nodes@)) + " \u{b7} ScreenCast sources: "@
        + decimal(info.screen_cast_source_count as nat) + " \u{b7} portal clients: "@ + decimal(info.portal_client_count as nat)
        + "\n"@
}

pub open spec fn pipewire_text(s: Snapshot) -> Seq<char> {
    match s.pipewire.value {
        Some(info) => pipewire_counts_line(info) + pipewire_sources_line(info),
        None => "PipeWire"@ + ": "@ + s.pipewire.status.label_spec() + " "@ + note_text(s.pipewire) + "\n"@,
    }
}

pub open spec fn wireplumber_text(s: Snapshot) -> Seq<char> {
    match s.wireplumber.value {
        Some(info) => "WirePlumber: reachable \u{b7} "@ + match info.pipewire_version { Some(v) => v@, None => "unknown version"@ }
            + " \u{b7} "@ + decimal(info.wireplumber_client_count as nat) + " client(s)\n"@,
        None => "WirePlumber"@ + ": "@ + s.wireplumber.status.label_spec() + " "@ + note_text(s.wireplumber) + "\n"@,
    }
}

pub open spec fn media_text(s: Snapshot) -> Seq<char> {
    pipewire_text(s) + wireplumber_text(s)
}

fn write_pipewire_counts(out: &mut String, info: &crate::model::pipewire::PipeWireInfo)
    ensures
        final(out)@ == old(out)@ + pipewire_counts_line(*info),
{
    let ghost start = out@;
    append(out, "PipeWire: reachable \u{b7} ");
    match &info.version {
        Some(v) => append(out, v.as_str()),
        None => append(out, "unknown version"),
    }
    append(out, " \u{b7} ");
    push_decimal(out, info.object_count as u64);
    append(out, " objects \u{b7} ");
    push_decimal(out, info.node_count as u64);
    append(out, " nodes \u{b7} ");
    push_decimal(out, info.link_count as u64);
    append(out, " links\n");
    assert(out@ =~= start + pipewire_counts_line(*info));
}

fn write_pipewire_sources(out: &mut String, info: &crate::model::pipewire::PipeWireInfo)
    ensures
        final(out)@ == old(out)@ + pipewire_sources_line(*info),
{
    let ghost start = out@;
    let nodes = &info.nodes;
    let mut count: usize = 0;
    let mut i: usize = 0;
    while i < nodes.len()
        invariant
            i <= nodes@.len(),
            count == video_source_count(nodes@.take(i as int)),
            count <= i,
        decreases nodes@.len() - i,
    {
        assert(nodes@.take(i + 1).drop_last() =~= nodes@.take(i as int));
        if nodes[i].is_video_source {
            count = count + 1;
        }
        i = i + 1;
    }
    assert(nodes@.take(i as int) =~= nodes@);
    append(out, "  video sources: ");
    push_decimal(out, count as u64);
    append(out, " \u{b7} ScreenCast sources: ");
    push_decimal(out, info.screen_cast_source_count as u64);
    append(out, " \u{b7} portal clients: ");
    push_decimal(out, info.portal_client_count as u64);
    append(out, "\n");
    assert(out@ =~= start + pipewire_sources_line(*info));
}

fn write_section_status<T>(out: &mut String, label: &str, section: &Section<T>)
    ensures
        final(out)@ == old(out)@ + label@ + ": "@ + section.status.label_spec() + " "@ + note_text(*section) + "\n"@,
{
    let ghost start = out@;
    append(out, label);
    append(out, ": ");
    append(out, section.status.label());
    append(out, " ");
    append(out, first_note(section).as_str());
    append(out, "\n");
    assert(out@ =~= start + label@ + ": "@ + section.status.label_spec() + " "@ + note_text(*section) + "\n"@);
}

fn write_wireplumber(out: &mut String, report: &Report)
    ensures
        final(out)@ == old(out)@ + wireplumber_text(report.snapshot),
{
    let ghost start = out@;
    match &report.snapshot.wireplumber.value {
        Some(info) => {
            append(out, "WirePlumber: reachable \u{b7} ");
            match &info.pipewire_version {
                Some(v) => append(out, v.as_str()),
                None => append(out, "unknown version"),
            }
            append(out, " \u{b7} ");
            push_decimal(out, info.wireplumber_client_count as u64);
            append(out, " client(s)\n");
            assert(out@ =~= start + wireplumber_text(report.snapshot));
        },
        None => {
            write_section_status(out, "WirePlumber", &report.snapshot.wireplumber);
            assert(out@ =~= start + wireplumber_text(report.snapshot));
        },
    }
}

fn write_media(out: &mut String, report: &Report)
    ensures
        final(out)@ == old(out)@ + media_text(report.snapshot),
{
    let ghost start = out@;
    match &report.snapshot.pipewire.value {
        Some(info) => {
            write_pipewire_counts(out, info);
            write_pipewire_sources(out, info);
        },
        None => {
            write_section_status(out, "PipeWire", &report.snapshot.pipewire);
        },
    }
    assert(out@ =~= start + pipewire_text(report.snapshot));
    write_wireplumber(out, report);
    assert(out@ =~= start + media_text(report.snapshot));
}

pub open spec fn excerpt_lines(entries: Seq<JournalEntry>) -> Seq<char>
    decreases entries.len(),
{
    if entries.len() == 0 {
        Seq::empty()
    } else {
        let e = entries.last();
        excerpt_lines(entries.drop_last()) + "  ["@ + e.classification.label_spec() + "] "@ + e.unit@ + " (priority "@
            + decimal(e.priority as nat) + "): "@ + e.message@ + "\n"@
    }
}

/// The journal summary line; sanitized excerpts only in verbose mode.
pub open spec fn journal_text(s: Snapshot, verbose: bool) -> Seq<char> {
    match s.journal.value {
        Some(j) => {
            let n = j.entries@.len();
            "Journal: current boot \u{b7} "@ + decimal(j.window_minutes as nat) + " min \u{b7} "@ + decimal(n)
                + if n == 1 { " relevant entry \u{b7} "@ } else { " relevant entries \u{b7} "@ } + j.match_state.label_spec() + "\n"@
                + if verbose {
                excerpt_lines(j.entries@)
            } else if n > 0 {
                "  use --verbose for sanitized journal excerpts\n"@
            } else {
                Seq::empty()
            }
        },
        None => "Journal: "@ + s.journal.status.label_spec() + " "@ + note_text(s.journal) + "\n"@,
    }
}

#[verifier::rlimit(60)]
fn write_journal(out: &mut String, report: &Report, verbose: bool)
    ensures
        final(out)@ == old(out)@ + journal_text(report.snapshot, verbose),
{
    let ghost start = out@;
    match &report.snapshot.journal.value {
        Some(j) => {
            let n = j.entries.len();
            append(out, "Journal: current boot \u{b7} ");
            push_decimal(out, j.window_minutes);
            append(out, " min \u{b7} ");
            push_decimal(out, n as u64);
            if n == 1 {
                append(out, " relevant entry \u{b7} ");
            } else {
                append(out, " relevant entries \u{b7} ");
            }
            append(out, j.match_state.as_str());
            append(out, "\n");
            let ghost mid = out@;
            if verbose {
                let entries = &j.entries;
                let mut i: usize = 0;
                while i < entries.len()
                    invariant
                        i <= entries@.len(),
                        out@ == mid + excerpt_lines(entries@.take(i as int)),
                    decreases entries@.len() - i,
                {
                    assert(entries@.take(i + 1).drop_last() =~= entries@.take(i as int));
                    let e = &entries[i];
                    append(out, "  [");
                    append(out, e.classification.as_str());
                    append(out, "] ");
                    append(out, e.unit.as_str());
                    append(out, " (priority ");
                    push_decimal(out, e.priority as u64);
                    append(out, "): ");
                    append(out, e.message.as_str());
                    append(out, "\n");
                    i = i + 1;
                    assert(out@ =~= mid + excerpt_lines(entries@.take(i as int)));
                }
                assert(entries@.take(i as int) =~= entries@);
            } else if n > 0 {
                append(out, "  use --verbose for sanitized journal excerpts\n");
            }
            assert(out@ =~= start + journal_text(report.snapshot, verbose));
        },
        None => {
            let section = &report.snapshot.journal;
            append(out, "Journal: ");
            append(out, section.status.label());
            append(out, " ");
            append(out, first_note(section).as_str());
            append(out, "\n");
        },
    }
}

pub open spec fn step_lines(steps: Seq<String>) -> Seq<char>
    decreases steps.len(),
{
    if steps.len() == 0 {
        Seq::empty()
    } else {
        step_lines(steps.drop_last()) + "    - "@ + steps.last()@ + "\n"@
    }
}

pub open spec fn finding_head(f: Finding) -> Seq<char> {
    "\n  ["@ + f.severity.label_spec() + "] "@ + f.title@ + " ("@ + f.id@ + ")\n"@ + "  "@ + f.summary@ + "\n"@
        + if f.recommendation@.len() > 0 { "    next: "@ + f.recommendation@[0]@ + "\n"@ } else { Seq::empty() }
}

pub open spec fn finding_details(f: Finding) -> Seq<char> {
    "  confidence: "@ + f.confidence.label_spec() + "\n"@ + "  explanation: "@ + f.explanation@ + "\n"@
        + match f.impact { Some(i) => "  impact: "@ + i@ + "\n"@, None => Seq::empty() }
        + "  recommendation:\n"@ + step_lines(f.recommendation@)
}

pub open spec fn finding_block(f: Finding, verbose: bool) -> Seq<char> {
    finding_head(f) + if verbose { finding_details(f) } else { Seq::empty() }
}

pub open spec fn finding_blocks(fs: Seq<Finding>, verbose: bool) -> Seq<char>
    decreases fs.len(),
{
    if fs.len() == 0 {
        Seq::empty()
    } else {
        finding_blocks(fs.drop_last(), verbose) + finding_block(fs.last(), verbose)
    }
}

pub open spec fn findings_text(fs: Seq<Finding>, verbose: bool) -> Seq<char> {
    if fs.len() == 0 {
        "Findings: none detected.\n"@
    } else {
        "Findings: "@ + decimal(fs.len()) + "\n"@ + finding_blocks(fs, verbose)
            + if !verbose { "\nRun with --verbose for details.\n"@ } else { Seq::empty() }
    }
}

fn write_finding_head(out: &mut String, finding: &Finding)
    ensures
        final(out)@ == old(out)@ + finding_head(*finding),
{
    let ghost start = out@;
    append(out, "\n  [");
    append(out, finding.severity.as_str());
    append(out, "] ");
    append(out, finding.title.as_str());
    append(out, " (");
    append(out, finding.id.as_str());
    append(out, ")\n");
    append(out, "  ");
    append(out, finding.summary.as_str());
    append(out, "\n");
    let ghost mid = out@;
    if finding.recommendation.len() > 0 {
        append(out, "    next: ");
        append(out, finding.recommendation[0].as_str());
        append(out, "\n");
    }
    assert(out@ =~= start + finding_head(*finding));
}

fn write_finding_details(out: &mut String, finding: &Finding)
    ensures
        final(out)@ == old(out)@ + finding_details(*finding),
{
    let ghost start = out@;
    append(out, "  confidence: ");
    append(out, finding.confidence.as_str());
    append(out, "\n");
    append(out, "  explanation: ");
    append(out, finding.explanation.as_str());
    append(out, "\n");
    match &finding.impact {
        Some(i) => {
            append(out, "  impact: ");
            append(out, i.as_str());
            append(out, "\n");
        },
        None => {},
    }
    append(out, "  recommendation:\n");
    let steps = &finding.recommendation;
    let ghost mid2 = out@;
    let mut i: usize = 0;
    while i < steps.len()
        invariant
            i <= steps@.len(),
            out@ == mid2 + step_lines(steps@.take(i as int)),
        decreases steps@.len() - i,
    {
        assert(steps@.take(i + 1).drop_last() =~= steps@.take(i as int));
        append(out, "    - ");
        append(out, steps[i].as_str());
        append(out, "\n");
        i = i + 1;
        assert(out@ =~= mid2 + step_lines(steps@.take(i as int)));
    }
    assert(steps@.take(i as int) =~= steps@);
    assert(out@ =~= start + finding_details(*finding));
}

fn write_finding(out: &mut String, finding: &Finding, verbose: bool)
    ensures
        final(out)@ == old(out)@ + finding_block(*finding, verbose),
{
    let ghost start = out@;
    write_finding_head(out, finding);
    if verbose {
        write_finding_details(out, finding);
    }
    assert(out@ =~= start + finding_block(*finding, verbose));
}

fn write_findings(out: &mut String, report: &Report, verbose: bool)
    ensures
        final(out)@ == old(out)@ + findings_text(report.findings@, verbose),
{
    let findings = &report.findings;
    if findings.len() == 0 {
        append(out, "Findings: none detected.\n");
        return;
    }
    let ghost start = out@;
    append(out, "Findings: ");
    push_decimal(out, findings.len() as u64);
    append(out, "\n");
    let ghost mid = out@;
    let mut i: usize = 0;
    while i < findings.len()
        invariant
            i <= findings@.len(),
            out@ == mid + finding_blocks(findings@.take(i as int), verbose),
        decreases findings@.len() - i,
    {
        assert(findings@.take(i + 1).drop_last() =~= findings@.take(i as int));
        write_finding(out, &findings[i], verbose);
        i = i + 1;
        assert(out@ =~= mid + finding_blocks(findings@.take(i as int), verbose));
    }
    assert(findings@.take(i as int) =~= findings@);
    if !verbose {
        append(out, "\nRun with --verbose for details.\n");
    }
    assert(out@ =~= start + findings_text(report.findings@, verbose));
}

/// The whole terminal rendering of a report.
pub open spec fn terminal_text(report: Report, verbose: bool) -> Seq<char> {
    let s = report.snapshot;
    "PortalDoctor "@ + report.portaldoctor_version@ + "\n"@ + "Snapshot schema v"@ + decimal(report.schema_version as nat) + "\n"@
        + "\n"@ + system_text(s) + session_text(s) + environment_text(s, verbose) + runtime_text(s, verbose) + media_text(s)
        + journal_text(s, verbose) + "\n"@ + findings_text(report.findings@, verbose)
}

impl Renderer for TerminalRenderer {
    fn render(&self, report: &Report, verbose: bool) -> (r: String)
        ensures
            r@ == terminal_text(*report, verbose),
    {
        let mut out = "PortalDoctor ".to_owned();
        append(&mut out, report.portaldoctor_version.as_str());
        append(&mut out, "\n");
        append(&mut out, "Snapshot schema v");
        push_decimal(&mut out, report.schema_version as u64);
        append(&mut out, "\n");
        append(&mut out, "\n");
        write_system(&mut out, report);
        write_session(&mut out, report);
        write_environment(&mut out, report, verbose);
        write_runtime(&mut out, report, verbose);
        write_media(&mut out, report);
        write_journal(&mut out, report, verbose);
        append(&mut out, "\n");
        write_findings(&mut out, report, verbose);
        assert(out@ =~= terminal_text(*report, verbose));
        out
    }
}

} // verus!
