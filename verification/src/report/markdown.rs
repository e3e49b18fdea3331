//! A stable, issue-friendly Markdown report of a shareable (redacted)
//! report.
use vstd::prelude::*;
use crate::model::dbus::{DbusCheck, DbusOutcome, PORTAL_FRONTEND_NAME};
use crate::model::environment::{EnvironmentRelation, EnvironmentValue};
use crate::model::evidence::Evidence;
use crate::model::finding::Finding;
use crate::model::journal::JournalEntry;
use crate::model::portal::{PortalBackend, PortalPreference, PortalRoute};
use crate::model::section::{CollectionNote, Section};
use crate::model::service::UnitStatus;
use crate::model::snapshot::Snapshot;
use crate::report::redact::ShareableReport;
use crate::report::terminal::mismatch_count;
use crate::text::{append, chars_of, decimal, eq_str, join, join_strings, push_char, push_decimal, views};

verus! {

/// Renderer for the Markdown report.
pub struct MarkdownRenderer;

/// One character as it stands in a table cell.
pub open spec fn escape_cell_char(c: char) -> Seq<char> {
    if c == '\\' {
        seq!['\\', '\\']
    } else if c == '|' {
        seq!['\\', '|']
    } else if c == '\n' || c == '\r' {
        seq![' ']
    } else {
        seq![c]
    }
}

/// A value escaped for a table cell: backslashes doubled, pipes escaped,
/// line breaks turned into spaces.
pub open spec fn md_escape(s: Seq<char>) -> Seq<char>
    decreases s.len(),
{
    if s.len() == 0 {
        Seq::empty()
    } else {
        md_escape(s.drop_last()) + escape_cell_char(s.last())
    }
}

fn escape(value: &str) -> (r: String)
    ensures
        r@ == md_escape(value@),
{
    let cs = chars_of(value);
    let mut r = String::new();
    let mut i: usize = 0;
    while i < cs.len()
        invariant
            cs@ == value@,
            i <= cs@.len(),
            r@ == md_escape(value@.take(i as int)),
        decreases cs@.len() - i,
    {
        assert(value@.take(i + 1).drop_last() =~= value@.take(i as int));
        let c = cs[i];
        if c == '\\' {
            push_char(&mut r, '\\');
            push_char(&mut r, '\\');
        } else if c == '|' {
            push_char(&mut r, '\\');
            push_char(&mut r, '|');
        } else if c == '\n' || c == '\r' {
            push_char(&mut r, ' ');
        } else {
            push_char(&mut r, c);
        }
        i = i + 1;
        assert(r@ =~= md_escape(value@.take(i as int)));
    }
    assert(value@.take(i as int) =~= value@);
    r
}

/// An inline code span: backticks inside turned into `'`.
pub open spec fn md_inline(s: Seq<char>) -> Seq<char> {
    seq!['`'] + s.map_values(|c: char| if c == '`' { '\'' } else { c }) + seq!['`']
}

fn inline(value: &str) -> (r: String)
    ensures
        r@ == md_inline(value@),
{
    let cs = chars_of(value);
    let mut r = String::new();
    push_char(&mut r, '`');
    let mut i: usize = 0;
    while i < cs.len()
        invariant
            cs@ == value@,
            i <= cs@.len(),
            r@ == seq!['`'] + value@.take(i as int).map_values(|c: char| if c == '`' { '\'' } else { c }),
        decreases cs@.len() - i,
    {
        let c = cs[i];
        if c == '`' {
            push_char(&mut r, '\'');
        } else {
            push_char(&mut r, c);
        }
        i = i + 1;
        assert(r@ =~= seq!['`'] + value@.take(i as int).map_values(|c: char| if c == '`' { '\'' } else { c }));
    }
    assert(value@.take(i as int) =~= value@);
    push_char(&mut r, '`');
    r
}

/// `| key | value |` with both cells escaped.
pub open spec fn row_text(key: Seq<char>, value: Seq<char>) -> Seq<char> {
    "| "@ + md_escape(key) + " | "@ + md_escape(value) + " |\n"@
}

fn row(out: &mut String, key: &str, value: &str)
    ensures
        final(out)@ == old(out)@ + row_text(key@, value@),
{
    let ghost start = out@;
    append(out, "| ");
    append(out, escape(key).as_str());
    append(out, " | ");
    append(out, escape(value).as_str());
    append(out, " |\n");
    assert(out@ =~= start + row_text(key@, value@));
}

pub open spec fn opt_value(o: Option<String>) -> Seq<char> {
    match o {
        Some(v) => v@,
        None => "\u{2014}"@,
    }
}

fn option_value(value: &Option<String>) -> (r: String)
    ensures
        r@ == opt_value(*value),
{
    match value {
        Some(v) => crate::text::clone_string(v),
        None => "\u{2014}".to_owned(),
    }
}

pub open spec fn join_or(values: Seq<String>, empty: Seq<char>) -> Seq<char> {
    if values.len() == 0 { empty } else { join(views(values), ", "@) }
}

fn join_or_any(values: &Vec<String>) -> (r: String)
    ensures
        r@ == join_or(values@, "any"@),
{
    if values.len() == 0 { "any".to_owned() } else { join_strings(values, ", ") }
}

fn join_or_none(values: &Vec<String>) -> (r: String)
    ensures
        r@ == join_or(values@, "none"@),
{
    if values.len() == 0 { "none".to_owned() } else { join_strings(values, ", ") }
}

/// The status of a section, with its first note when there is one.
pub open spec fn status_text<T>(section: Section<T>) -> Seq<char> {
    if section.errors@.len() == 0 {
        section.status.label_spec()
    } else {
        section.status.label_spec() + ": "@ + section.errors@[0].message@
    }
}

fn section_status<T>(section: &Section<T>) -> (r: String)
    ensures
        r@ == status_text(*section),
{
    if section.errors.len() == 0 {
        section.status.to_string()
    } else {
        crate::text::concat3(section.status.label(), ": ", section.errors[0].message.as_str())
    }
}

pub open spec fn md_outcome_label(o: DbusOutcome) -> Seq<char> {
    match o {
        DbusOutcome::HasOwner => "has owner"@,
        DbusOutcome::NoOwner => "no owner"@,
        DbusOutcome::NoSessionBus => "no session bus"@,
        DbusOutcome::ActivationFailure => "activation failure"@,
        DbusOutcome::Timeout => "timeout"@,
        DbusOutcome::AccessDenied => "access denied"@,
        DbusOutcome::MalformedResponse => "malformed response"@,
        DbusOutcome::Other(message) => message@,
    }
}

fn dbus_outcome_label(outcome: &DbusOutcome) -> (r: String)
    ensures
        r@ == md_outcome_label(*outcome),
{
    match outcome {
        DbusOutcome::HasOwner => "has owner".to_owned(),
        DbusOutcome::NoOwner => "no owner".to_owned(),
        DbusOutcome::NoSessionBus => "no session bus".to_owned(),
        DbusOutcome::ActivationFailure => "activation failure".to_owned(),
        DbusOutcome::Timeout => "timeout".to_owned(),
        DbusOutcome::AccessDenied => "access denied".to_owned(),
        DbusOutcome::MalformedResponse => "malformed response".to_owned(),
        DbusOutcome::Other(message) => crate::text::clone_string(message),
    }
}

pub open spec fn table_head() -> Seq<char> {
    "| Field | Value |\n"@ + "| --- | --- |\n"@
}

pub open spec fn summary_text(r: ShareableReport) -> Seq<char> {
    "## Summary\n"@ + table_head() + row_text("Findings"@, decimal(r.findings@.len()))
        + row_text("Collected at (Unix ms)"@, decimal(r.snapshot.collected_at as nat)) + row_text("Privacy mode"@, "redacted"@)
        + row_text("HOME paths"@, if r.privacy.home_normalized { "normalized to `$HOME`"@ } else { "not normalized (HOME was unavailable)"@ })
        + row_text("Hostname"@, if r.privacy.hostname_suppressed { "suppressed"@ } else { "retained; use `--suppress-hostname` before sharing publicly"@ })
        + row_text("Raw journal / PipeWire"@, "excluded; normalized evidence only"@) + "\n"@
}

#[verifier::rlimit(40)]
fn write_summary(out: &mut String, report: &ShareableReport)
    ensures
        final(out)@ == old(out)@ + summary_text(*report),
{
    let ghost start = out@;
    append(out, "## Summary\n");
    append(out, "| Field | Value |\n");
    append(out, "| --- | --- |\n");
    row(out, "Findings", crate::text::decimal_string(report.findings.len() as u64).as_str());
    row(out, "Collected at (Unix ms)", crate::text::decimal_string(report.snapshot.collected_at).as_str());
    row(out, "Privacy mode", "redacted");
    row(out, "HOME paths", if report.privacy.home_normalized { "normalized to `$HOME`" } else { "not normalized (HOME was unavailable)" });
    row(out, "Hostname", if report.privacy.hostname_suppressed { "suppressed" } else { "retained; use `--suppress-hostname` before sharing publicly" });
    row(out, "Raw journal / PipeWire", "excluded; normalized evidence only");
    append(out, "\n");
    assert(out@ =~= start + summary_text(*report));
}

pub open spec fn system_rows(s: Snapshot) -> Seq<char> {
    match s.system.value {
        Some(system) => table_head() + row_text("ID"@, opt_value(system.id)) + row_text("Name"@, opt_value(system.name))
            + row_text("Pretty name"@, opt_value(system.pretty_name)) + row_text("Version"@, opt_value(system.version_id)),
        None => Seq::empty(),
    }
}

pub open spec fn session_type_value(session: crate::model::environment::SessionInfo) -> Seq<char> {
    match session.session_type {
        Some(t) => t.label_spec(),
        None => opt_value(session.session_type_raw),
    }
}

pub open spec fn session_rows(s: Snapshot) -> Seq<char> {
    match s.session.value {
        Some(session) => table_head() + row_text("Current desktop"@, opt_value(session.current_desktop))
            + row_text("Session desktop"@, opt_value(session.session_desktop)) + row_text("Session type"@, session_type_value(session))
            + row_text("Wayland display"@, opt_value(session.wayland_display)) + row_text("X11 display"@, opt_value(session.display)),
        None => Seq::empty(),
    }
}

pub open spec fn system_and_session_text(s: Snapshot) -> Seq<char> {
    "## System and session\n"@ + "### System\n"@ + row_text("Collection"@, status_text(s.system)) + system_rows(s) + "\n"@
        + "### Session\n"@ + row_text("Collection"@, status_text(s.session)) + session_rows(s) + "\n"@
}

fn write_system_rows(out: &mut String, snapshot: &Snapshot)
    ensures
        final(out)@ == old(out)@ + system_rows(*snapshot),
{
    let ghost start = out@;
    match &snapshot.system.value {
        Some(system) => {
            append(out, "| Field | Value |\n");
            append(out, "| --- | --- |\n");
            row(out, "ID", option_value(&system.id).as_str());
            row(out, "Name", option_value(&system.name).as_str());
            row(out, "Pretty name", option_value(&system.pretty_name).as_str());
            row(out, "Version", option_value(&system.version_id).as_str());
        },
        None => {},
    }
    assert(out@ =~= start + system_rows(*snapshot));
}

fn write_session_rows(out: &mut String, snapshot: &Snapshot)
    ensures
        final(out)@ == old(out)@ + session_rows(*snapshot),
{
    let ghost start = out@;
    match &snapshot.session.value {
        Some(session) => {
            append(out, "| Field | Value |\n");
            append(out, "| --- | --- |\n");
            row(out, "Current desktop", option_value(&session.current_desktop).as_str());
            row(out, "Session desktop", option_value(&session.session_desktop).as_str());
            let session_type = match session.session_type {
                Some(t) => t.as_str().to_owned(),
                None => option_value(&session.session_type_raw),
            };
            row(out, "Session type", session_type.as_str());
            row(out, "Wayland display", option_value(&session.wayland_display).as_str());
            row(out, "X11 display", option_value(&session.display).as_str());
        },
        None => {},
    }
    assert(out@ =~= start + session_rows(*snapshot));
}

fn write_system_and_session(out: &mut String, snapshot: &Snapshot)
    ensures
        final(out)@ == old(out)@ + system_and_session_text(*snapshot),
{
    let ghost start = out@;
    append(out, "## System and session\n");
    append(out, "### System\n");
    row(out, "Collection", section_status(&snapshot.system).as_str());
    write_system_rows(out, snapshot);
    append(out, "\n");
    append(out, "### Session\n");
    row(out, "Collection", section_status(&snapshot.session).as_str());
    write_session_rows(out, snapshot);
    append(out, "\n");
    assert(out@ =~= start + system_and_session_text(*snapshot));
}

pub open spec fn md_root_lines(roots: Seq<String>) -> Seq<char>
    decreases roots.len(),
{
    if roots.len() == 0 {
        Seq::empty()
    } else {
        md_root_lines(roots.drop_last()) + "- "@ + md_inline(roots.last()@) + "\n"@
    }
}

pub open spec fn md_roots(title: Seq<char>, roots: Seq<String>) -> Seq<char> {
    "### "@ + title + "\n"@ + if roots.len() == 0 { "_none_\n"@ } else { md_root_lines(roots) }
}

fn write_roots(out: &mut String, title: &str, roots: &Vec<String>)
    ensures
        final(out)@ == old(out)@ + md_roots(title@, roots@),
{
    let ghost start = out@;
    append(out, "### ");
    append(out, title);
    append(out, "\n");
    if roots.len() == 0 {
        append(out, "_none_\n");
        assert(out@ =~= start + md_roots(title@, roots@));
        return;
    }
    let ghost mid = out@;
    let mut i: usize = 0;
    while i < roots.len()
        invariant
            i <= roots@.len(),
            out@ == mid + md_root_lines(roots@.take(i as int)),
        decreases roots@.len() - i,
    {
        assert(roots@.take(i + 1).drop_last() =~= roots@.take(i as int));
        append(out, "- ");
        append(out, inline(roots[i].as_str()).as_str());
        append(out, "\n");
        i = i + 1;
        assert(out@ =~= mid + md_root_lines(roots@.take(i as int)));
    }
    assert(roots@.take(i as int) =~= roots@);
    assert(out@ =~= start + md_roots(title@, roots@));
}

pub open spec fn process_rows(vars: Seq<(String, String)>) -> Seq<char>
    decreases vars.len(),
{
    if vars.len() == 0 {
        Seq::empty()
    } else {
        process_rows(vars.drop_last()) + row_text(vars.last().0@, vars.last().1@)
    }
}

pub open spec fn comparison_rows(entries: Seq<EnvironmentValue>) -> Seq<char>
    decreases entries.len(),
{
    if entries.len() == 0 {
        Seq::empty()
    } else {
        comparison_rows(entries.drop_last()) + comparison_row(entries.last())
    }
}

/// One row of the activation comparison table.
pub open spec fn comparison_row(e: EnvironmentValue) -> Seq<char> {
    "| "@ + md_escape(e.key@) + " | "@ + md_escape(e.relation.label_spec()) + " | "@ + md_escape(opt_value(e.process_value))
        + " | "@ + md_escape(opt_value(e.activation_value)) + " |\n"@
}

pub open spec fn comparison_summary(comp: crate::model::environment::EnvironmentComparison) -> Seq<char> {
    if comp.performed {
        decimal(comp.entries@.len()) + " variable(s), "@ + decimal(mismatch_count(comp.entries@)) + " mismatch(es)"@
    } else {
        "not performed"@
    }
}

pub open spec fn environment_verbose(env: crate::model::environment::EnvironmentInfo) -> Seq<char> {
    let comp = env.activation_comparison;
    md_roots("Config search roots"@, env.search_roots.config_roots@) + md_roots("Data search roots"@, env.search_roots.data_roots@)
        + if comp.entries@.len() > 0 {
        "### Activation comparison details\n"@ + "| Variable | Relation | Process | Activation |\n"@
            + "| --- | --- | --- | --- |\n"@ + comparison_rows(comp.entries@)
    } else {
        Seq::empty()
    }
}

pub open spec fn environment_body(env: crate::model::environment::EnvironmentInfo, verbose: bool) -> Seq<char> {
    row_text("Activation comparison"@, comparison_summary(env.activation_comparison)) + "### Allowlisted process environment\n"@
        + "| Variable | Value |\n"@ + "| --- | --- |\n"@
        + if env.process.entries@.len() == 0 { row_text("\u{2014}"@, "no allowlisted variables observed"@) } else { process_rows(env.process.entries@) }
        + if verbose { environment_verbose(env) } else { Seq::empty() } + "\n"@
}

pub open spec fn environment_md(s: Snapshot, verbose: bool) -> Seq<char> {
    "## Environment\n"@ + row_text("Collection"@, status_text(s.environment)) + match s.environment.value {
        None => "\n"@,
        Some(env) => environment_body(env, verbose),
    }
}

fn write_process_rows(out: &mut String, vars: &Vec<(String, String)>)
    ensures
        final(out)@ == old(out)@ + if vars@.len() == 0 { row_text("\u{2014}"@, "no allowlisted variables observed"@) } else { process_rows(vars@) },
{
    if vars.len() == 0 {
        row(out, "\u{2014}", "no allowlisted variables observed");
        return;
    }
    let ghost mid = out@;
    let mut i: usize = 0;
    while i < vars.len()
        invariant
            i <= vars@.len(),
            out@ == mid + process_rows(vars@.take(i as int)),
        decreases vars@.len() - i,
    {
        assert(vars@.take(i + 1).drop_last() =~= vars@.take(i as int));
        row(out, vars[i].0.as_str(), vars[i].1.as_str());
        i = i + 1;
        assert(out@ =~= mid + process_rows(vars@.take(i as int)));
    }
    assert(vars@.take(i as int) =~= vars@);
}

fn write_comparison_row(out: &mut String, e: &EnvironmentValue)
    ensures
        final(out)@ == old(out)@ + comparison_row(*e),
{
    append(out, "| ");
    append(out, escape(e.key.as_str()).as_str());
    append(out, " | ");
    append(out, escape(e.relation.as_str()).as_str());
    append(out, " | ");
    append(out, escape(option_value(&e.process_value).as_str()).as_str());
    append(out, " | ");
    append(out, escape(option_value(&e.activation_value).as_str()).as_str());
    append(out, " |\n");
}

fn write_comparison_rows(out: &mut String, entries: &Vec<EnvironmentValue>)
    ensures
        final(out)@ == old(out)@ + comparison_rows(entries@),
{
    let ghost mid = out@;
    let mut i: usize = 0;
    while i < entries.len()
        invariant
            i <= entries@.len(),
            out@ == mid + comparison_rows(entries@.take(i as int)),
        decreases entries@.len() - i,
    {
        assert(entries@.take(i + 1).drop_last() =~= entries@.take(i as int));
        write_comparison_row(out, &entries[i]);
        i = i + 1;
        assert(out@ =~= mid + comparison_rows(entries@.take(i as int)));
    }
    assert(entries@.take(i as int) =~= entries@);
}

fn comparison_summary_string(comp: &crate::model::environment::EnvironmentComparison) -> (r: String)
    ensures
        r@ == comparison_summary(*comp),
{
    let entries = &comp.entries;
    let mut mismatches: usize = 0;
    let mut i: usize = 0;
    while i < entries.len()
        invariant
            i <= entries@.len(),
            mismatches == mismatch_count(entries@.take(i as int)),
            mismatches <= i,
        decreases entries@.len() - i,
    {
        assert(entries@.take(i + 1).drop_last() =~= entries@.take(i as int));
        if entries[i].relation != EnvironmentRelation::Equal {
            mismatches = mismatches + 1;
        }
        i = i + 1;
    }
    assert(entries@.take(i as int) =~= entries@);
    if comp.performed {
        let mut t = crate::text::decimal_string(entries.len() as u64);
        append(&mut t, " variable(s), ");
        push_decimal(&mut t, mismatches as u64);
        append(&mut t, " mismatch(es)");
        t
    } else {
        "not performed".to_owned()
    }
}

fn write_environment_verbose(out: &mut String, environment: &crate::model::environment::EnvironmentInfo)
    ensures
        final(out)@ == old(out)@ + environment_verbose(*environment),
{
    let ghost start = out@;
    write_roots(out, "Config search roots", &environment.search_roots.config_roots);
    write_roots(out, "Data search roots", &environment.search_roots.data_roots);
    let ghost mid = out@;
    let entries = &environment.activation_comparison.entries;
    if entries.len() > 0 {
        append(out, "### Activation comparison details\n");
        append(out, "| Variable | Relation | Process | Activation |\n");
        append(out, "| --- | --- | --- | --- |\n");
        write_comparison_rows(out, entries);
    }
    assert(out@ =~= start + environment_verbose(*environment));
}

fn write_environment_body(out: &mut String, environment: &crate::model::environment::EnvironmentInfo, verbose: bool)
    ensures
        final(out)@ == old(out)@ + environment_body(*environment, verbose),
{
    let ghost start = out@;
    row(out, "Activation comparison", comparison_summary_string(&environment.activation_comparison).as_str());
    append(out, "### Allowlisted process environment\n");
    append(out, "| Variable | Value |\n");
    append(out, "| --- | --- |\n");
    write_process_rows(out, &environment.process.entries);
    let ghost mid = out@;
    if verbose {
        write_environment_verbose(out, environment);
    }
    append(out, "\n");
    assert(out@ =~= start + environment_body(*environment, verbose));
}

fn write_environment(out: &mut String, snapshot: &Snapshot, verbose: bool)
    ensures
        final(out)@ == old(out)@ + environment_md(*snapshot, verbose),
{
    let ghost start = out@;
    append(out, "## Environment\n");
    row(out, "Collection", section_status(&snapshot.environment).as_str());
    match &snapshot.environment.value {
        Some(e) => write_environment_body(out, e, verbose),
        None => append(out, "\n"),
    }
    assert(out@ =~= start + environment_md(*snapshot, verbose));
}

pub open spec fn preference_rows(prefs: Seq<PortalPreference>) -> Seq<char>
    decreases prefs.len(),
{
    if prefs.len() == 0 {
        Seq::empty()
    } else {
        let p = prefs.last();
        preference_rows(prefs.drop_last()) + "| "@ + md_escape(p.interface@) + " | "@ + md_escape(join(views(p.backends@), ", "@))
            + " | "@ + md_escape(p.source_file@) + " |\n"@
    }
}

pub open spec fn backend_rows(backends: Seq<PortalBackend>) -> Seq<char>
    decreases backends.len(),
{
    if backends.len() == 0 {
        Seq::empty()
    } else {
        let b = backends.last();
        backend_rows(backends.drop_last()) + "| "@ + md_escape(b.id@) + " | "@ + md_escape(b.dbus_name@) + " | "@
            + md_escape(join(views(b.interfaces@), ", "@)) + " |\n"@
    }
}

pub open spec fn route_rows(routes: Seq<PortalRoute>) -> Seq<char>
    decreases routes.len(),
{
    if routes.len() == 0 {
        Seq::empty()
    } else {
        route_rows(routes.drop_last()) + route_row(routes.last())
    }
}

pub open spec fn route_row(r: PortalRoute) -> Seq<char> {
    "| "@ + md_escape(r.interface@) + " | "@ + md_escape(r.status.label_spec()) + " | "@
        + md_escape(join_or(r.requested_candidates@, "any"@)) + " | "@ + md_escape(join_or(r.available_candidates@, "none"@))
        + " | "@ + md_escape(join_or(r.selected_candidates@, "none"@)) + " |\n"@
}

pub open spec fn config_part(s: Snapshot, verbose: bool) -> Seq<char> {
    row_text("Configuration"@, status_text(s.portal_config)) + match s.portal_config.value {
        Some(config) => row_text("Selected configuration"@, opt_value(config.selected_file))
            + row_text("Preferences"@, decimal(config.preferences@.len()))
            + if verbose && config.preferences@.len() > 0 {
            "### Preferences\n"@ + "| Interface | Backends | Source |\n"@ + "| --- | --- | --- |\n"@ + preference_rows(config.preferences@)
        } else {
            Seq::empty()
        },
        None => Seq::empty(),
    }
}

pub open spec fn backends_part(s: Snapshot, verbose: bool) -> Seq<char> {
    row_text("Backends"@, status_text(s.portal_backends)) + match s.portal_backends.value {
        Some(backends) => row_text("Discovered backend count"@, decimal(backends@.len()))
            + if verbose && backends@.len() > 0 {
            "### Backend descriptors\n"@ + "| ID | D-Bus name | Interfaces |\n"@ + "| --- | --- | --- |\n"@ + backend_rows(backends@)
        } else {
            Seq::empty()
        },
        None => Seq::empty(),
    }
}

pub open spec fn routes_part(s: Snapshot) -> Seq<char> {
    row_text("Routes"@, status_text(s.portal_routes)) + match s.portal_routes.value {
        Some(routes) => "| Interface | Status | Requested | Available | Selected |\n"@ + "| --- | --- | --- | --- | --- |\n"@
            + if routes@.len() == 0 { row_text("\u{2014}"@, "no route facts collected"@) } else { route_rows(routes@) },
        None => Seq::empty(),
    }
}

pub open spec fn portal_md(s: Snapshot, verbose: bool) -> Seq<char> {
    "## Portal routing\n"@ + config_part(s, verbose) + backends_part(s, verbose) + routes_part(s) + "\n"@
}

#[verifier::rlimit(40)]
fn write_config_part(out: &mut String, snapshot: &Snapshot, verbose: bool)
    ensures
        final(out)@ == old(out)@ + config_part(*snapshot, verbose),
{
    let ghost start = out@;
    row(out, "Configuration", section_status(&snapshot.portal_config).as_str());
    match &snapshot.portal_config.value {
        Some(config) => {
            row(out, "Selected configuration", option_value(&config.selected_file).as_str());
            row(out, "Preferences", crate::text::decimal_string(config.preferences.len() as u64).as_str());
            let ghost mid = out@;
            if verbose && config.preferences.len() > 0 {
                append(out, "### Preferences\n");
                append(out, "| Interface | Backends | Source |\n");
                append(out, "| --- | --- | --- |\n");
                let prefs = &config.preferences;
                let ghost mid2 = out@;
                let mut i: usize = 0;
                while i < prefs.len()
                    invariant
                        i <= prefs@.len(),
                        out@ == mid2 + preference_rows(prefs@.take(i as int)),
                    decreases prefs@.len() - i,
                {
                    assert(prefs@.take(i + 1).drop_last() =~= prefs@.take(i as int));
                    let p = &prefs[i];
                    append(out, "| ");
                    append(out, escape(p.interface.as_str()).as_str());
                    append(out, " | ");
                    append(out, escape(join_strings(&p.backends, ", ").as_str()).as_str());
                    append(out, " | ");
                    append(out, escape(p.source_file.as_str()).as_str());
                    append(out, " |\n");
                    i = i + 1;
                    assert(out@ =~= mid2 + preference_rows(prefs@.take(i as int)));
                }
                assert(prefs@.take(i as int) =~= prefs@);
            }
        },
        None => {},
    }
    assert(out@ =~= start + config_part(*snapshot, verbose));
}

#[verifier::rlimit(40)]
fn write_backends_part(out: &mut String, snapshot: &Snapshot, verbose: bool)
    ensures
        final(out)@ == old(out)@ + backends_part(*snapshot, verbose),
{
    let ghost start = out@;
    row(out, "Backends", section_status(&snapshot.portal_backends).as_str());
    match &snapshot.portal_backends.value {
        Some(backends) => {
            row(out, "Discovered backend count", crate::text::decimal_string(backends.len() as u64).as_str());
            if verbose && backends.len() > 0 {
                append(out, "### Backend descriptors\n");
                append(out, "| ID | D-Bus name | Interfaces |\n");
                append(out, "| --- | --- | --- |\n");
                let ghost mid2 = out@;
                let mut i: usize = 0;
                while i < backends.len()
                    invariant
                        i <= backends@.len(),
                        out@ == mid2 + backend_rows(backends@.take(i as int)),
                    decreases backends@.len() - i,
                {
                    assert(backends@.take(i + 1).drop_last() =~= backends@.take(i as int));
                    let b = &backends[i];
                    append(out, "| ");
                    append(out, escape(b.id.as_str()).as_str());
                    append(out, " | ");
                    append(out, escape(b.dbus_name.as_str()).as_str());
                    append(out, " | ");
                    append(out, escape(join_strings(&b.interfaces, ", ").as_str()).as_str());
                    append(out, " |\n");
                    i = i + 1;
                    assert(out@ =~= mid2 + backend_rows(backends@.take(i as int)));
                }
                assert(backends@.take(i as int) =~= backends@);
            }
        },
        None => {},
    }
    assert(out@ =~= start + backends_part(*snapshot, verbose));
}

fn write_route_row(out: &mut String, r: &PortalRoute)
    ensures
        final(out)@ == old(out)@ + route_row(*r),
{
    let ghost start = out@;
    append(out, "| ");
    append(out, escape(r.interface.as_str()).as_str());
    append(out, " | ");
    append(out, escape(r.status.as_str()).as_str());
    append(out, " | ");
    append(out, escape(join_or_any(&r.requested_candidates).as_str()).as_str());
    append(out, " | ");
    append(out, escape(join_or_none(&r.available_candidates).as_str()).as_str());
    append(out, " | ");
    append(out, escape(join_or_none(&r.selected_candidates).as_str()).as_str());
    append(out, " |\n");
    assert(out@ =~= start + route_row(*r));
}

#[verifier::rlimit(40)]
fn write_routes_part(out: &mut String, snapshot: &Snapshot)
    ensures
        final(out)@ == old(out)@ + routes_part(*snapshot),
{
    let ghost start = out@;
    row(out, "Routes", section_status(&snapshot.portal_routes).as_str());
    match &snapshot.portal_routes.value {
        Some(routes) => {
            append(out, "| Interface | Status | Requested | Available | Selected |\n");
            append(out, "| --- | --- | --- | --- | --- |\n");
            if routes.len() == 0 {
                row(out, "\u{2014}", "no route facts collected");
            } else {
                let ghost mid2 = out@;
                let mut i: usize = 0;
                while i < routes.len()
                    invariant
                        i <= routes@.len(),
                        out@ == mid2 + route_rows(routes@.take(i as int)),
                    decreases routes@.len() - i,
                {
                    assert(routes@.take(i + 1).drop_last() =~= routes@.take(i as int));
                    assert(routes@.take(i + 1).last() == routes@[i as int]);
                    write_route_row(out, &routes[i]);
                    i = i + 1;
                    assert(out@ =~= mid2 + route_rows(routes@.take(i as int)));
                }
                assert(routes@.take(i as int) =~= routes@);
            }
        },
        None => {},
    }
    assert(out@ =~= start + routes_part(*snapshot));
}

fn write_portal(out: &mut String, snapshot: &Snapshot, verbose: bool)
    ensures
        final(out)@ == old(out)@ + portal_md(*snapshot, verbose),
{
    let ghost start = out@;
    append(out, "## Portal routing\n");
    write_config_part(out, snapshot, verbose);
    write_backends_part(out, snapshot, verbose);
    write_routes_part(out, snapshot);
    append(out, "\n");
    assert(out@ =~= start + portal_md(*snapshot, verbose));
}

pub open spec fn check_rows(checks: Seq<DbusCheck>) -> Seq<char>
    decreases checks.len(),
{
    if checks.len() == 0 {
        Seq::empty()
    } else {
        check_rows(checks.drop_last()) + row_text(checks.last().name@, md_outcome_label(checks.last().outcome))
    }
}

pub open spec fn unit_rows(units: Seq<UnitStatus>) -> Seq<char>
    decreases units.len(),
{
    if units.len() == 0 {
        Seq::empty()
    } else {
        let u = units.last();
        unit_rows(units.drop_last()) + "| "@ + md_escape(u.unit@) + " | "@ + md_escape(u.state.label_spec()) + " | "@
            + md_escape(opt_value(u.sub_state)) + " | "@ + md_escape(opt_value(u.unit_file_state)) + " |\n"@
    }
}

pub open spec fn dbus_part(s: Snapshot) -> Seq<char> {
    row_text("D-Bus collection"@, status_text(s.dbus)) + match s.dbus.value {
        Some(dbus) => row_text("Session bus"@, if dbus.connected { "connected"@ } else { "unavailable"@ })
            + "| Name | Outcome |\n"@ + "| --- | --- |\n"@ + check_rows(dbus.checks@)
            + if forall|i: int| 0 <= i < dbus.checks@.len() ==> (#[trigger] dbus.checks@[i]).name@ != PORTAL_FRONTEND_NAME@ {
            row_text(PORTAL_FRONTEND_NAME@, "not checked"@)
        } else {
            Seq::empty()
        },
        None => Seq::empty(),
    }
}

pub open spec fn services_part(s: Snapshot, verbose: bool) -> Seq<char> {
    row_text("Services collection"@, status_text(s.services)) + match s.services.value {
        Some(services) => if verbose {
            "### Systemd user units\n"@ + "| Unit | State | Sub-state | Unit-file state |\n"@ + "| --- | --- | --- | --- |\n"@
                + unit_rows(services.units@)
        } else {
            Seq::empty()
        },
        None => Seq::empty(),
    }
}

pub open spec fn runtime_md(s: Snapshot, verbose: bool) -> Seq<char> {
    "## Runtime\n"@ + dbus_part(s) + services_part(s, verbose) + "\n"@
}

#[verifier::rlimit(40)]
fn write_dbus_part(out: &mut String, snapshot: &Snapshot)
    ensures
        final(out)@ == old(out)@ + dbus_part(*snapshot),
{
    let ghost start = out@;
    row(out, "D-Bus collection", section_status(&snapshot.dbus).as_str());
    match &snapshot.dbus.value {
        Some(dbus) => {
            row(out, "Session bus", if dbus.connected { "connected" } else { "unavailable" });
            append(out, "| Name | Outcome |\n");
            append(out, "| --- | --- |\n");
            let checks = &dbus.checks;
            let ghost mid = out@;
            let mut any_frontend = false;
            let mut i: usize = 0;
            while i < checks.len()
                invariant
                    i <= checks@.len(),
                    out@ == mid + check_rows(checks@.take(i as int)),
                    any_frontend == exists|k: int| 0 <= k < i && (#[trigger] checks@[k]).name@ == PORTAL_FRONTEND_NAME@,
                decreases checks@.len() - i,
            {
                assert(checks@.take(i + 1).drop_last() =~= checks@.take(i as int));
                let c = &checks[i];
                row(out, c.name.as_str(), dbus_outcome_label(&c.outcome).as_str());
                if eq_str(c.name.as_str(), PORTAL_FRONTEND_NAME) {
                    any_frontend = true;
                }
                i = i + 1;
                assert(out@ =~= mid + check_rows(checks@.take(i as int)));
            }
            assert(checks@.take(i as int) =~= checks@);
            if !any_frontend {
                row(out, PORTAL_FRONTEND_NAME, "not checked");
            }
        },
        None => {},
    }
    assert(out@ =~= start + dbus_part(*snapshot));
}

#[verifier::rlimit(40)]
fn write_services_part(out: &mut String, snapshot: &Snapshot, verbose: bool)
    ensures
        final(out)@ == old(out)@ + services_part(*snapshot, verbose),
{
    let ghost start = out@;
    row(out, "Services collection", section_status(&snapshot.services).as_str());
    if verbose {
        match &snapshot.services.value {
            Some(services) => {
                append(out, "### Systemd user units\n");
                append(out, "| Unit | State | Sub-state | Unit-file state |\n");
                append(out, "| --- | --- | --- | --- |\n");
                let units = &services.units;
                let ghost mid = out@;
                let mut i: usize = 0;
                while i < units.len()
                    invariant
                        i <= units@.len(),
                        out@ == mid + unit_rows(units@.take(i as int)),
                    decreases units@.len() - i,
                {
                    assert(units@.take(i + 1).drop_last() =~= units@.take(i as int));
                    let u = &units[i];
                    append(out, "| ");
                    append(out, escape(u.unit.as_str()).as_str());
                    append(out, " | ");
                    append(out, escape(u.state.as_str()).as_str());
                    append(out, " | ");
                    append(out, escape(option_value(&u.sub_state).as_str()).as_str());
                    append(out, " | ");
                    append(out, escape(option_value(&u.unit_file_state).as_str()).as_str());
                    append(out, " |\n");
                    i = i + 1;
                    assert(out@ =~= mid + unit_rows(units@.take(i as int)));
                }
                assert(units@.take(i as int) =~= units@);
            },
            None => {},
        }
    }
    assert(out@ =~= start + services_part(*snapshot, verbose));
}

fn write_runtime(out: &mut String, snapshot: &Snapshot, verbose: bool)
    ensures
        final(out)@ == old(out)@ + runtime_md(*snapshot, verbose),
{
    let ghost start = out@;
    append(out, "## Runtime\n");
    write_dbus_part(out, snapshot);
    write_services_part(out, snapshot, verbose);
    append(out, "\n");
    assert(out@ =~= start + runtime_md(*snapshot, verbose));
}

pub open spec fn pipewire_part(s: Snapshot, verbose: bool) -> Seq<char> {
    row_text("PipeWire collection"@, status_text(s.pipewire)) + match s.pipewire.value {
        Some(pw) => row_text("PipeWire version"@, opt_value(pw.version)) + row_text("Objects"@, decimal(pw.object_count as nat))
            + row_text("Nodes"@, decimal(pw.node_count as nat)) + row_text("Links"@, decimal(pw.link_count as nat))
            + row_text("Portal clients"@, decimal(pw.portal_client_count as nat))
            + row_text("ScreenCast sources"@, decimal(pw.screen_cast_source_count as nat))
            + if verbose {
            row_text("Normalized video nodes"@, decimal(pw.nodes@.len())) + row_text("Normalized links"@, decimal(pw.links@.len()))
        } else {
            Seq::empty()
        },
        None => Seq::empty(),
    }
}

pub open spec fn wireplumber_part(s: Snapshot) -> Seq<char> {
    row_text("WirePlumber collection"@, status_text(s.wireplumber)) + match s.wireplumber.value {
        Some(wp) => row_text("WirePlumber PipeWire version"@, opt_value(wp.pipewire_version))
            + row_text("WirePlumber clients"@, decimal(wp.wireplumber_client_count as nat)),
        None => Seq::empty(),
    }
}

pub open spec fn media_md(s: Snapshot, verbose: bool) -> Seq<char> {
    "## Media path\n"@ + pipewire_part(s, verbose) + wireplumber_part(s) + "\n"@
}

#[verifier::spinoff_prover]
#[verifier::rlimit(60)]
fn write_pipewire_part(out: &mut String, snapshot: &Snapshot, verbose: bool)
    ensures
        final(out)@ == old(out)@ + pipewire_part(*snapshot, verbose),
{
    let ghost start = out@;
    row(out, "PipeWire collection", section_status(&snapshot.pipewire).as_str());
    match &snapshot.pipewire.value {
        Some(pw) => {
            row(out, "PipeWire version", option_value(&pw.version).as_str());
            row(out, "Objects", crate::text::decimal_string(pw.object_count as u64).as_str());
            row(out, "Nodes", crate::text::decimal_string(pw.node_count as u64).as_str());
            row(out, "Links", crate::text::decimal_string(pw.link_count as u64).as_str());
            row(out, "Portal clients", crate::text::decimal_string(pw.portal_client_count as u64).as_str());
            row(out, "ScreenCast sources", crate::text::decimal_string(pw.screen_cast_source_count as u64).as_str());
            let ghost mid = out@;
            if verbose {
                row(out, "Normalized video nodes", crate::text::decimal_string(pw.nodes.len() as u64).as_str());
                row(out, "Normalized links", crate::text::decimal_string(pw.links.len() as u64).as_str());
            }
        },
        None => {},
    }
    assert(out@ =~= start + pipewire_part(*snapshot, verbose));
}

fn write_media(out: &mut String, snapshot: &Snapshot, verbose: bool)
    ensures
        final(out)@ == old(out)@ + media_md(*snapshot, verbose),
{
    let ghost start = out@;
    append(out, "## Media path\n");
    write_pipewire_part(out, snapshot, verbose);
    let ghost mid = out@;
    row(out, "WirePlumber collection", section_status(&snapshot.wireplumber).as_str());
    match &snapshot.wireplumber.value {
        Some(wp) => {
            row(out, "WirePlumber PipeWire version", option_value(&wp.pipewire_version).as_str());
            row(out, "WirePlumber clients", crate::text::decimal_string(wp.wireplumber_client_count as u64).as_str());
        },
        None => {},
    }
    assert(out@ =~= mid + wireplumber_part(*snapshot));
    append(out, "\n");
    assert(out@ =~= start + media_md(*snapshot, verbose));
}

pub open spec fn journal_rows(entries: Seq<JournalEntry>) -> Seq<char>
    decreases entries.len(),
{
    if entries.len() == 0 {
        Seq::empty()
    } else {
        let e = entries.last();
        journal_rows(entries.drop_last()) + "| "@ + md_escape(e.unit@) + " | "@ + decimal(e.priority as nat) + " | "@
            + md_escape(e.classification.label_spec()) + " | "@ + md_escape(e.message@) + " |\n"@
    }
}

pub open spec fn journal_md(s: Snapshot) -> Seq<char> {
    "## Journal evidence\n"@ + row_text("Collection"@, status_text(s.journal)) + match s.journal.value {
        Some(j) => row_text("Window"@, decimal(j.window_minutes as nat) + " minutes"@) + row_text("Match state"@, j.match_state.label_spec())
            + row_text("Scanned records"@, decimal(j.scanned_entry_count as nat)) + row_text("Sanitized excerpts"@, decimal(j.entries@.len()))
            + if j.entries@.len() > 0 {
            "| Unit | Priority | Classification | Sanitized message |\n"@ + "| --- | ---: | --- | --- |\n"@ + journal_rows(j.entries@)
        } else {
            Seq::empty()
        } + "\n"@,
        None => "\n"@,
    }
}

#[verifier::rlimit(40)]
fn write_journal(out: &mut String, snapshot: &Snapshot)
    ensures
        final(out)@ == old(out)@ + journal_md(*snapshot),
{
    let ghost start = out@;
    append(out, "## Journal evidence\n");
    row(out, "Collection", section_status(&snapshot.journal).as_str());
    match &snapshot.journal.value {
        Some(j) => {
            let mut window = crate::text::decimal_string(j.window_minutes);
            append(&mut window, " minutes");
            row(out, "Window", window.as_str());
            row(out, "Match state", j.match_state.as_str());
            row(out, "Scanned records", crate::text::decimal_string(j.scanned_entry_count as u64).as_str());
            row(out, "Sanitized excerpts", crate::text::decimal_string(j.entries.len() as u64).as_str());
            let ghost mid = out@;
            if j.entries.len() > 0 {
                append(out, "| Unit | Priority | Classification | Sanitized message |\n");
                append(out, "| --- | ---: | --- | --- |\n");
                let entries = &j.entries;
                let ghost mid2 = out@;
                let mut i: usize = 0;
                while i < entries.len()
                    invariant
                        i <= entries@.len(),
                        out@ == mid2 + journal_rows(entries@.take(i as int)),
                    decreases entries@.len() - i,
                {
                    assert(entries@.take(i + 1).drop_last() =~= entries@.take(i as int));
                    let e = &entries[i];
                    append(out, "| ");
                    append(out, escape(e.unit.as_str()).as_str());
                    append(out, " | ");
                    push_decimal(out, e.priority as u64);
                    append(out, " | ");
                    append(out, escape(e.classification.as_str()).as_str());
                    append(out, " | ");
                    append(out, escape(e.message.as_str()).as_str());
                    append(out, " |\n");
                    i = i + 1;
                    assert(out@ =~= mid2 + journal_rows(entries@.take(i as int)));
                }
                assert(entries@.take(i as int) =~= entries@);
            }
            append(out, "\n");
        },
        None => append(out, "\n"),
    }
    assert(out@ =~= start + journal_md(*snapshot));
}

pub open spec fn evidence_labels(es: Seq<Evidence>) -> Seq<Seq<char>> {
    es.map_values(|e: Evidence| e.label_spec())
}

pub open spec fn step_items(steps: Seq<String>) -> Seq<char>
    decreases steps.len(),
{
    if steps.len() == 0 {
        Seq::empty()
    } else {
        step_items(steps.drop_last()) + "- "@ + md_escape(steps.last()@) + "\n"@
    }
}

pub open spec fn finding_title_md(f: Finding) -> Seq<char> {
    "### "@ + md_escape(f.severity.label_spec()) + " \u{b7} "@ + md_escape(f.title@) + " ("@ + md_escape(f.id@) + ")\n"@
}

pub open spec fn finding_rows_md(f: Finding) -> Seq<char> {
    row_text("Confidence"@, f.confidence.label_spec()) + row_text("Summary"@, f.summary@)
        + row_text("Source"@, f.source_component@)
        + match f.impact { Some(i) => row_text("Impact"@, i@), None => Seq::empty() }
        + if f.evidence@.len() > 0 { row_text("Evidence"@, join(evidence_labels(f.evidence@), ", "@)) } else { Seq::empty() }
}

pub open spec fn finding_text_md(f: Finding) -> Seq<char> {
    "**Explanation**  \n"@ + md_escape(f.explanation@) + "\n"@
        + if f.recommendation@.len() > 0 { "**Recommended next steps**\n"@ + step_items(f.recommendation@) } else { Seq::empty() }
        + "\n"@
}

pub open spec fn finding_md(f: Finding) -> Seq<char> {
    finding_title_md(f) + finding_rows_md(f) + finding_text_md(f)
}

pub open spec fn finding_mds(fs: Seq<Finding>) -> Seq<char>
    decreases fs.len(),
{
    if fs.len() == 0 {
        Seq::empty()
    } else {
        finding_mds(fs.drop_last()) + finding_md(fs.last())
    }
}

pub open spec fn findings_md(fs: Seq<Finding>) -> Seq<char> {
    "## Findings\n"@ + if fs.len() == 0 {
        "No findings were produced by the rule engine.\n"@ + "\n"@
    } else {
        finding_mds(fs)
    }
}

fn evidence_text(es: &Vec<Evidence>) -> (r: String)
    ensures
        r@ == join(evidence_labels(es@), ", "@),
{
    let mut labels: Vec<String> = Vec::new();
    let mut i: usize = 0;
    while i < es.len()
        invariant
            i <= es@.len(),
            views(labels@) == evidence_labels(es@.take(i as int)),
        decreases es@.len() - i,
    {
        let l = es[i].as_str();
        let ghost before = views(labels@);
        labels.push(l.to_owned());
        assert(es@.take(i + 1) =~= es@.take(i as int).push(es@[i as int]));
        assert(views(labels@) =~= before.push(es@[i as int].label_spec()));
        i = i + 1;
        assert(views(labels@) =~= evidence_labels(es@.take(i as int)));
    }
    assert(es@.take(i as int) =~= es@);
    join_strings(&labels, ", ")
}

fn write_finding_title(out: &mut String, finding: &Finding)
    ensures
        final(out)@ == old(out)@ + finding_title_md(*finding),
{
    let ghost start = out@;
    append(out, "### ");
    append(out, escape(finding.severity.as_str()).as_str());
    append(out, " \u{b7} ");
    append(out, escape(finding.title.as_str()).as_str());
    append(out, " (");
    append(out, escape(finding.id.as_str()).as_str());
    append(out, ")\n");
    assert(out@ =~= start + finding_title_md(*finding));
}

fn write_finding_rows(out: &mut String, finding: &Finding)
    ensures
        final(out)@ == old(out)@ + finding_rows_md(*finding),
{
    let ghost start = out@;
    row(out, "Confidence", finding.confidence.as_str());
    row(out, "Summary", finding.summary.as_str());
    row(out, "Source", finding.source_component.as_str());
    let ghost mid = out@;
    match &finding.impact {
        Some(i) => row(out, "Impact", i.as_str()),
        None => {},
    }
    let ghost mid2 = out@;
    if finding.evidence.len() > 0 {
        row(out, "Evidence", evidence_text(&finding.evidence).as_str());
    }
    assert(out@ =~= start + finding_rows_md(*finding));
}

fn write_finding_text(out: &mut String, finding: &Finding)
    ensures
        final(out)@ == old(out)@ + finding_text_md(*finding),
{
    let ghost start = out@;
    append(out, "**Explanation**  \n");
    append(out, escape(finding.explanation.as_str()).as_str());
    append(out, "\n");
    let ghost mid2 = out@;
    if finding.recommendation.len() > 0 {
        append(out, "**Recommended next steps**\n");
        let steps = &finding.recommendation;
        let ghost mid3 = out@;
        let mut i: usize = 0;
        while i < steps.len()
            invariant
                i <= steps@.len(),
                out@ == mid3 + step_items(steps@.take(i as int)),
            decreases steps@.len() - i,
        {
            assert(steps@.take(i + 1).drop_last() =~= steps@.take(i as int));
            append(out, "- ");
            append(out, escape(steps[i].as_str()).as_str());
            append(out, "\n");
            i = i + 1;
            assert(out@ =~= mid3 + step_items(steps@.take(i as int)));
        }
        assert(steps@.take(i as int) =~= steps@);
    }
    append(out, "\n");
    assert(out@ =~= start + finding_text_md(*finding));
}

fn write_finding(out: &mut String, finding: &Finding)
    ensures
        final(out)@ == old(out)@ + finding_md(*finding),
{
    let ghost start = out@;
    write_finding_title(out, finding);
    write_finding_rows(out, finding);
    write_finding_text(out, finding);
    assert(out@ =~= start + finding_md(*finding));
}

fn write_findings(out: &mut String, report: &ShareableReport)
    ensures
        final(out)@ == old(out)@ + findings_md(report.findings@),
{
    let ghost start = out@;
    append(out, "## Findings\n");
    let findings = &report.findings;
    if findings.len() == 0 {
        append(out, "No findings were produced by the rule engine.\n");
        append(out, "\n");
        assert(out@ =~= start + findings_md(report.findings@));
        return;
    }
    let ghost mid = out@;
    let mut i: usize = 0;
    while i < findings.len()
        invariant
            i <= findings@.len(),
            out@ == mid + finding_mds(findings@.take(i as int)),
        decreases findings@.len() - i,
    {
        assert(findings@.take(i + 1).drop_last() =~= findings@.take(i as int));
        write_finding(out, &findings[i]);
        i = i + 1;
        assert(out@ =~= mid + finding_mds(findings@.take(i as int)));
    }
    assert(findings@.take(i as int) =~= findings@);
    assert(out@ =~= start + findings_md(report.findings@));
}

/// The snapshot's sections with their notes, in report order.
pub open spec fn note_sections(s: Snapshot) -> Seq<(Seq<char>, Seq<CollectionNote>)> {
    seq![
        ("system"@, s.system.errors@), ("session"@, s.session.errors@), ("environment"@, s.environment.errors@),
        ("portal_config"@, s.portal_config.errors@), ("portal_backends"@, s.portal_backends.errors@),
        ("portal_routes"@, s.portal_routes.errors@), ("dbus"@, s.dbus.errors@), ("services"@, s.services.errors@),
        ("pipewire"@, s.pipewire.errors@), ("wireplumber"@, s.wireplumber.errors@), ("journal"@, s.journal.errors@),
    ]
}

pub open spec fn named_notes(name: Seq<char>, notes: Seq<CollectionNote>) -> Seq<(Seq<char>, Seq<char>)> {
    notes.map_values(|n: CollectionNote| (name, n.message@))
}

/// Every note as `(section name, message)`, in section order.
pub open spec fn flat_notes(secs: Seq<(Seq<char>, Seq<CollectionNote>)>) -> Seq<(Seq<char>, Seq<char>)>
    decreases secs.len(),
{
    if secs.len() == 0 {
        Seq::empty()
    } else {
        flat_notes(secs.drop_last()) + named_notes(secs.last().0, secs.last().1)
    }
}

pub open spec fn note_items(notes: Seq<(Seq<char>, Seq<char>)>) -> Seq<char>
    decreases notes.len(),
{
    if notes.len() == 0 {
        Seq::empty()
    } else {
        note_items(notes.drop_last()) + "- `"@ + notes.last().0 + "`: "@ + md_escape(notes.last().1) + "\n"@
    }
}

pub open spec fn collection_notes_md(s: Snapshot) -> Seq<char> {
    let notes = flat_notes(note_sections(s));
    if notes.len() == 0 {
        Seq::empty()
    } else {
        "## Collection notes\n"@ + note_items(notes) + "\n"@
    }
}

proof fn lemma_note_items_append(a: Seq<(Seq<char>, Seq<char>)>, b: Seq<(Seq<char>, Seq<char>)>)
    ensures
        note_items(a + b) == note_items(a) + note_items(b),
    decreases b.len(),
{
    if b.len() == 0 {
        assert(a + b =~= a);
    } else {
        assert((a + b).drop_last() =~= a + b.drop_last());
        lemma_note_items_append(a, b.drop_last());
    }
}

/// Append the notes of one section.
fn write_section_notes(out: &mut String, name: &str, errors: &Vec<CollectionNote>)
    ensures
        final(out)@ == old(out)@ + note_items(named_notes(name@, errors@)),
{
    let ghost mid = out@;
    let mut i: usize = 0;
    while i < errors.len()
        invariant
            i <= errors@.len(),
            out@ == mid + note_items(named_notes(name@, errors@.take(i as int))),
        decreases errors@.len() - i,
    {
        assert(named_notes(name@, errors@.take(i + 1)).drop_last() =~= named_notes(name@, errors@.take(i as int)));
        append(out, "- `");
        append(out, name);
        append(out, "`: ");
        append(out, escape(errors[i].message.as_str()).as_str());
        append(out, "\n");
        i = i + 1;
        assert(out@ =~= mid + note_items(named_notes(name@, errors@.take(i as int))));
    }
    assert(errors@.take(i as int) =~= errors@);
}

fn write_collection_notes(out: &mut String, snapshot: &Snapshot)
    ensures
        final(out)@ == old(out)@ + collection_notes_md(*snapshot),
{
    let s = snapshot;
    let sections: Vec<(&str, &Vec<CollectionNote>)> = vec![
        ("system", &s.system.errors), ("session", &s.session.errors), ("environment", &s.environment.errors),
        ("portal_config", &s.portal_config.errors), ("portal_backends", &s.portal_backends.errors),
        ("portal_routes", &s.portal_routes.errors), ("dbus", &s.dbus.errors), ("services", &s.services.errors),
        ("pipewire", &s.pipewire.errors), ("wireplumber", &s.wireplumber.errors), ("journal", &s.journal.errors),
    ];
    let ghost secs = note_sections(*snapshot);
    assert(sections@.len() == secs.len());
    assert(forall|k: int| 0 <= k < secs.len() ==> (#[trigger] sections@[k]).0@ == secs[k].0 && sections@[k].1@ == secs[k].1);
    let mut body = String::new();
    let mut count: usize = 0;
    let mut k: usize = 0;
    while k < sections.len()
        invariant
            k <= sections@.len(),
            sections@.len() == secs.len(),
            forall|j: int| 0 <= j < secs.len() ==> (#[trigger] sections@[j]).0@ == secs[j].0 && sections@[j].1@ == secs[j].1,
            body@ == note_items(flat_notes(secs.take(k as int))),
            (count == 0) == (flat_notes(secs.take(k as int)).len() == 0),
        decreases sections@.len() - k,
    {
        let (name, errors) = sections[k];
        assert(secs.take(k + 1).drop_last() =~= secs.take(k as int));
        assert(secs.take(k + 1).last() == secs[k as int]);
        proof {
            lemma_note_items_append(flat_notes(secs.take(k as int)), named_notes(name@, errors@));
        }
        write_section_notes(&mut body, name, errors);
        if errors.len() > 0 {
            count = 1;
        }
        k = k + 1;
    }
    assert(secs.take(k as int) =~= secs);
    if count == 0 {
        return;
    }
    let ghost start = out@;
    append(out, "## Collection notes\n");
    append(out, body.as_str());
    append(out, "\n");
    assert(out@ =~= start + collection_notes_md(*snapshot));
}

pub open spec fn privacy_md(r: ShareableReport) -> Seq<char> {
    "## Sharing checklist\n"@ + "- Environment keys are restricted to the existing allowlist.\n"@ + "- Home-directory paths: "@
        + if r.privacy.home_normalized { "normalized to `$HOME`"@ } else { "not normalized because HOME was unavailable"@ } + ".\n"@
        + "- Hostname suppression: "@
        + if r.privacy.hostname_suppressed { "enabled"@ } else { "not enabled; review host-related values before public sharing"@ }
        + ".\n"@ + "- Raw journal and raw PipeWire dumps are excluded; only bounded normalized evidence is present.\n"@
        + "- Review the report once before attaching it to a public issue.\n"@
}

fn write_privacy(out: &mut String, report: &ShareableReport)
    ensures
        final(out)@ == old(out)@ + privacy_md(*report),
{
    let ghost start = out@;
    append(out, "## Sharing checklist\n");
    append(out, "- Environment keys are restricted to the existing allowlist.\n");
    append(out, "- Home-directory paths: ");
    append(out, if report.privacy.home_normalized { "normalized to `$HOME`" } else { "not normalized because HOME was unavailable" });
    append(out, ".\n");
    append(out, "- Hostname suppression: ");
    append(out, if report.privacy.hostname_suppressed { "enabled" } else { "not enabled; review host-related values before public sharing" });
    append(out, ".\n");
    append(out, "- Raw journal and raw PipeWire dumps are excluded; only bounded normalized evidence is present.\n");
    append(out, "- Review the report once before attaching it to a public issue.\n");
    assert(out@ =~= start + privacy_md(*report));
}

/// The whole Markdown report.
pub open spec fn markdown_text(r: ShareableReport, verbose: bool) -> Seq<char> {
    let s = r.snapshot;
    "# PortalDoctor diagnostic report\n"@ + "> Report v"@ + decimal(r.report_version as nat) + " \u{b7} Snapshot schema v"@
        + decimal(r.schema_version as nat) + " \u{b7} PortalDoctor "@ + md_inline(r.portaldoctor_version@) + "\n"@ + "\n"@
        + summary_text(r) + system_and_session_text(s) + environment_md(s, verbose) + portal_md(s, verbose)
        + runtime_md(s, verbose) + media_md(s, verbose) + journal_md(s) + findings_md(r.findings@) + collection_notes_md(s)
        + privacy_md(r)
}

impl MarkdownRenderer {
    /// Render a shareable report; nothing outside the redacted document
    /// supplied by the caller is read.
    pub fn render(report: &ShareableReport, verbose: bool) -> (r: String)
        ensures
            r@ == markdown_text(*report, verbose),
    {
        let mut out = "# PortalDoctor diagnostic report\n".to_owned();
        append(&mut out, "> Report v");
        push_decimal(&mut out, report.report_version as u64);
        append(&mut out, " \u{b7} Snapshot schema v");
        push_decimal(&mut out, report.schema_version as u64);
        append(&mut out, " \u{b7} PortalDoctor ");
        append(&mut out, inline(report.portaldoctor_version.as_str()).as_str());
        append(&mut out, "\n");
        append(&mut out, "\n");
        write_summary(&mut out, report);
        write_system_and_session(&mut out, &report.snapshot);
        write_environment(&mut out, &report.snapshot, verbose);
        write_portal(&mut out, &report.snapshot, verbose);
        write_runtime(&mut out, &report.snapshot, verbose);
        write_media(&mut out, &report.snapshot, verbose);
        write_journal(&mut out, &report.snapshot);
        write_findings(&mut out, report);
        write_collection_notes(&mut out, &report.snapshot);
        write_privacy(&mut out, report);
        assert(out@ =~= markdown_text(*report, verbose));
        out
    }
}

} // verus!
