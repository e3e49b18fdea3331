//! Renderers for the `portal` commands: backend list, route table and the
//! explanation of one route.
use vstd::prelude::*;
use crate::model::portal::{PortalBackend, PortalRoute, RouteEvidence};
use crate::model::section::Section;
use crate::report::{Renderer, Report};
use crate::report::terminal::note_text;
use crate::text::{append, concat2, ends_with, ends_with_str, eq_str, join, join_strings, push_char, push_decimal, decimal, views};

verus! {

/// Renderer for `portal list`: discovered backend descriptors.
pub struct PortalListRenderer;

/// Renderer for `portal routes`: the resolved route table.
pub struct PortalRoutesRenderer;

/// Renderer for `portal explain <interface>`: one route with full
/// provenance.
pub struct PortalExplainRenderer {
    pub interface: String,
}

/// A candidate list; an empty list means "any" (unrestricted).
pub open spec fn any_list(candidates: Seq<String>) -> Seq<char> {
    if candidates.len() == 0 { "any"@ } else { join(views(candidates), ", "@) }
}

fn join_or_any(candidates: &Vec<String>) -> (r: String)
    ensures
        r@ == any_list(candidates@),
{
    if candidates.len() == 0 { "any".to_owned() } else { join_strings(candidates, ", ") }
}

fn section_errors<T>(section: &Section<T>) -> (r: String)
    ensures
        r@ == note_text(*section),
{
    if section.errors.len() > 0 {
        concat2("- ", section.errors[0].message.as_str())
    } else {
        "- no details available".to_owned()
    }
}

pub open spec fn list_lines(items: Seq<String>, prefix: Seq<char>) -> Seq<char>
    decreases items.len(),
{
    if items.len() == 0 {
        Seq::empty()
    } else {
        list_lines(items.drop_last(), prefix) + prefix + items.last()@ + "\n"@
    }
}

pub open spec fn backend_block(b: PortalBackend) -> Seq<char> {
    "  "@ + b.id@ + "\n"@ + "    dbus name: "@ + b.dbus_name@ + "\n"@ + "    descriptor: "@ + b.descriptor_path@ + "\n"@
        + "    interfaces: "@ + join(views(b.interfaces@), ", "@) + "\n"@
        + if b.legacy_use_in@.len() > 0 { "    use_in: "@ + join(views(b.legacy_use_in@), ", "@) + "\n"@ } else { Seq::empty() }
        + list_lines(b.duplicate_descriptors@, "    duplicate descriptor (lower precedence): "@)
}

pub open spec fn backend_blocks(bs: Seq<PortalBackend>) -> Seq<char>
    decreases bs.len(),
{
    if bs.len() == 0 {
        Seq::empty()
    } else {
        backend_blocks(bs.drop_last()) + backend_block(bs.last())
    }
}

pub open spec fn portal_list_text(report: Report) -> Seq<char> {
    match report.snapshot.portal_backends.value {
        Some(backends) => "Portal backends ("@ + decimal(backends@.len()) + "):\n"@ + backend_blocks(backends@),
        None => "Portal backends: "@ + report.snapshot.portal_backends.status.label_spec() + " "@
            + note_text(report.snapshot.portal_backends) + "\n"@,
    }
}

fn write_list_lines(out: &mut String, items: &Vec<String>, prefix: &str)
    ensures
        final(out)@ == old(out)@ + list_lines(items@, prefix@),
{
    let ghost mid = out@;
    let mut i: usize = 0;
    while i < items.len()
        invariant
            i <= items@.len(),
            out@ == mid + list_lines(items@.take(i as int), prefix@),
        decreases items@.len() - i,
    {
        assert(items@.take(i + 1).drop_last() =~= items@.take(i as int));
        append(out, prefix);
        append(out, items[i].as_str());
        append(out, "\n");
        i = i + 1;
        assert(out@ =~= mid + list_lines(items@.take(i as int), prefix@));
    }
    assert(items@.take(i as int) =~= items@);
}

fn write_backend(out: &mut String, b: &PortalBackend)
    ensures
        final(out)@ == old(out)@ + backend_block(*b),
{
    let ghost start = out@;
    append(out, "  ");
    append(out, b.id.as_str());
    append(out, "\n");
    append(out, "    dbus name: ");
    append(out, b.dbus_name.as_str());
    append(out, "\n");
    append(out, "    descriptor: ");
    append(out, b.descriptor_path.as_str());
    append(out, "\n");
    append(out, "    interfaces: ");
    append(out, join_strings(&b.interfaces, ", ").as_str());
    append(out, "\n");
    let ghost mid = out@;
    if b.legacy_use_in.len() > 0 {
        append(out, "    use_in: ");
        append(out, join_strings(&b.legacy_use_in, ", ").as_str());
        append(out, "\n");
    }
    let ghost mid2 = out@;
    write_list_lines(out, &b.duplicate_descriptors, "    duplicate descriptor (lower precedence): ");
    assert(out@ =~= start + backend_block(*b));
}

impl Renderer for PortalListRenderer {
    fn render(&self, report: &Report, verbose: bool) -> (r: String)
        ensures
            r@ == portal_list_text(*report),
    {
        let mut out = String::new();
        match &report.snapshot.portal_backends.value {
            Some(backends) => {
                append(&mut out, "Portal backends (");
                push_decimal(&mut out, backends.len() as u64);
                append(&mut out, "):\n");
                let ghost mid = out@;
                let mut i: usize = 0;
                while i < backends.len()
                    invariant
                        i <= backends@.len(),
                        out@ == mid + backend_blocks(backends@.take(i as int)),
                    decreases backends@.len() - i,
                {
                    assert(backends@.take(i + 1).drop_last() =~= backends@.take(i as int));
                    write_backend(&mut out, &backends[i]);
                    i = i + 1;
                    assert(out@ =~= mid + backend_blocks(backends@.take(i as int)));
                }
                assert(backends@.take(i as int) =~= backends@);
            },
            None => {
                let section = &report.snapshot.portal_backends;
                append(&mut out, "Portal backends: ");
                append(&mut out, section.status.label());
                append(&mut out, " ");
                append(&mut out, section_errors(section).as_str());
                append(&mut out, "\n");
            },
        }
        assert(out@ =~= portal_list_text(*report));
        out
    }
}

/// `s` left-aligned in a field of `width` characters.
pub open spec fn pad(s: Seq<char>, width: nat) -> Seq<char> {
    if s.len() >= width { s } else { s + Seq::new((width - s.len()) as nat, |i: int| ' ') }
}

fn push_padded(out: &mut String, s: &str, width: usize)
    ensures
        final(out)@ == old(out)@ + pad(s@, width as nat),
{
    let ghost start = out@;
    append(out, s);
    let n = s.unicode_len();
    if n < width {
        let mut k: usize = n;
        while k < width
            invariant
                n <= k <= width,
                n == s@.len(),
                out@ == start + s@ + Seq::new((k - n) as nat, |i: int| ' '),
            decreases width - k,
        {
            push_char(out, ' ');
            k = k + 1;
            assert(out@ =~= start + s@ + Seq::new((k - n) as nat, |i: int| ' '));
        }
    }
    assert(out@ =~= start + pad(s@, width as nat));
}

/// The widest of the texts a column shows.
pub open spec fn max_width(texts: Seq<Seq<char>>) -> nat
    decreases texts.len(),
{
    if texts.len() == 0 {
        0
    } else {
        let m = max_width(texts.drop_last());
        if texts.last().len() > m { texts.last().len() } else { m }
    }
}

pub open spec fn interface_texts(routes: Seq<PortalRoute>) -> Seq<Seq<char>> {
    routes.map_values(|r: PortalRoute| r.interface@)
}

pub open spec fn requested_texts(routes: Seq<PortalRoute>) -> Seq<Seq<char>> {
    routes.map_values(|r: PortalRoute| any_list(r.requested_candidates@))
}

pub open spec fn available_texts(routes: Seq<PortalRoute>) -> Seq<Seq<char>> {
    routes.map_values(|r: PortalRoute| any_list(r.available_candidates@))
}

/// One table row of a route.
pub open spec fn route_line(r: PortalRoute, iw: nat, rw: nat, aw: nat) -> Seq<char> {
    pad(r.interface@, iw) + "  "@ + pad(r.status.label_spec(), 12) + "  "@ + pad(any_list(r.requested_candidates@), rw) + "  "@
        + pad(any_list(r.available_candidates@), aw) + "  "@ + any_list(r.selected_candidates@) + "\n"@
}

pub open spec fn route_lines(routes: Seq<PortalRoute>, iw: nat, rw: nat, aw: nat) -> Seq<char>
    decreases routes.len(),
{
    if routes.len() == 0 {
        Seq::empty()
    } else {
        route_lines(routes.drop_last(), iw, rw, aw) + route_line(routes.last(), iw, rw, aw)
    }
}

pub open spec fn routes_header(iw: nat, rw: nat, aw: nat) -> Seq<char> {
    pad("Interface"@, iw) + "  "@ + pad("Status"@, 12) + "  "@ + pad("Requested"@, rw) + "  "@ + pad("Available"@, aw) + "  Selected"@
}

pub open spec fn portal_routes_text(report: Report) -> Seq<char> {
    match report.snapshot.portal_routes.value {
        Some(routes) => if routes@.len() == 0 {
            "Portal routes: none discovered.\n"@
        } else {
            let iw = max_width(interface_texts(routes@));
            let rw = max_width(requested_texts(routes@));
            let aw = max_width(available_texts(routes@));
            let header = routes_header(iw, rw, aw);
            header + "\n"@ + Seq::new(header.len(), |i: int| '-') + "\n"@ + route_lines(routes@, iw, rw, aw)
        },
        None => "Portal routes: "@ + report.snapshot.portal_routes.status.label_spec() + " "@
            + note_text(report.snapshot.portal_routes) + "\n"@,
    }
}

/// The widest interface name, requested list and available list.
fn column_widths(routes: &Vec<PortalRoute>) -> (r: (usize, usize, usize))
    ensures
        r.0 as nat == max_width(interface_texts(routes@)),
        r.1 as nat == max_width(requested_texts(routes@)),
        r.2 as nat == max_width(available_texts(routes@)),
{
    let mut iw: usize = 0;
    let mut rw: usize = 0;
    let mut aw: usize = 0;
    let mut i: usize = 0;
    while i < routes.len()
        invariant
            i <= routes@.len(),
            iw as nat == max_width(interface_texts(routes@.take(i as int))),
            rw as nat == max_width(requested_texts(routes@.take(i as int))),
            aw as nat == max_width(available_texts(routes@.take(i as int))),
        decreases routes@.len() - i,
    {
        assert(interface_texts(routes@.take(i + 1)).drop_last() =~= interface_texts(routes@.take(i as int)));
        assert(requested_texts(routes@.take(i + 1)).drop_last() =~= requested_texts(routes@.take(i as int)));
        assert(available_texts(routes@.take(i + 1)).drop_last() =~= available_texts(routes@.take(i as int)));
        let r = &routes[i];
        let a = r.interface.unicode_len();
        if a > iw {
            iw = a;
        }
        let b = join_or_any(&r.requested_candidates).unicode_len();
        if b > rw {
            rw = b;
        }
        let c = join_or_any(&r.available_candidates).unicode_len();
        if c > aw {
            aw = c;
        }
        i = i + 1;
    }
    assert(routes@.take(i as int) =~= routes@);
    (iw, rw, aw)
}

fn write_route_line(out: &mut String, r: &PortalRoute, iw: usize, rw: usize, aw: usize)
    ensures
        final(out)@ == old(out)@ + route_line(*r, iw as nat, rw as nat, aw as nat),
{
    let ghost start = out@;
    push_padded(out, r.interface.as_str(), iw);
    append(out, "  ");
    push_padded(out, r.status.as_str(), 12);
    append(out, "  ");
    push_padded(out, join_or_any(&r.requested_candidates).as_str(), rw);
    append(out, "  ");
    push_padded(out, join_or_any(&r.available_candidates).as_str(), aw);
    append(out, "  ");
    append(out, join_or_any(&r.selected_candidates).as_str());
    append(out, "\n");
    assert(out@ =~= start + route_line(*r, iw as nat, rw as nat, aw as nat));
}

impl Renderer for PortalRoutesRenderer {
    fn render(&self, report: &Report, verbose: bool) -> (r: String)
        ensures
            r@ == portal_routes_text(*report),
    {
        let mut out = String::new();
        let routes = match &report.snapshot.portal_routes.value {
            Some(r) => r,
            None => {
                let section = &report.snapshot.portal_routes;
                append(&mut out, "Portal routes: ");
                append(&mut out, section.status.label());
                append(&mut out, " ");
                append(&mut out, section_errors(section).as_str());
                append(&mut out, "\n");
                assert(out@ =~= portal_routes_text(*report));
                return out;
            },
        };
        if routes.len() == 0 {
            append(&mut out, "Portal routes: none discovered.\n");
            return out;
        }
        let (iw, rw, aw) = column_widths(routes);
        let mut header = String::new();
        push_padded(&mut header, "Interface", iw);
        append(&mut header, "  ");
        push_padded(&mut header, "Status", 12);
        append(&mut header, "  ");
        push_padded(&mut header, "Requested", rw);
        append(&mut header, "  ");
        push_padded(&mut header, "Available", aw);
        append(&mut header, "  Selected");
        assert(header@ =~= routes_header(iw as nat, rw as nat, aw as nat));
        append(&mut out, header.as_str());
        append(&mut out, "\n");
        let hl = header.unicode_len();
        let ghost before_rule = out@;
        let mut k: usize = 0;
        while k < hl
            invariant
                k <= hl,
                out@ == before_rule + Seq::new(k as nat, |i: int| '-'),
            decreases hl - k,
        {
            push_char(&mut out, '-');
            k = k + 1;
            assert(out@ =~= before_rule + Seq::new(k as nat, |i: int| '-'));
        }
        append(&mut out, "\n");
        let ghost mid = out@;
        let mut i: usize = 0;
        while i < routes.len()
            invariant
                i <= routes@.len(),
                out@ == mid + route_lines(routes@.take(i as int), iw as nat, rw as nat, aw as nat),
            decreases routes@.len() - i,
        {
            assert(routes@.take(i + 1).drop_last() =~= routes@.take(i as int));
            write_route_line(&mut out, &routes[i], iw, rw, aw);
            i = i + 1;
            assert(out@ =~= mid + route_lines(routes@.take(i as int), iw as nat, rw as nat, aw as nat));
        }
        assert(routes@.take(i as int) =~= routes@);
        assert(out@ =~= portal_routes_text(*report));
        out
    }
}

/// The first route whose interface is `name` or ends with it (so that
/// `ScreenCast` finds the ScreenCast interface).
pub open spec fn find_route_spec(routes: Seq<PortalRoute>, name: Seq<char>) -> Option<PortalRoute>
    decreases routes.len(),
{
    if routes.len() == 0 {
        None
    } else if routes[0].interface@ == name || ends_with(routes[0].interface@, name) {
        Some(routes[0])
    } else {
        find_route_spec(routes.drop_first(), name)
    }
}

fn find_route<'a>(routes: &'a Vec<PortalRoute>, interface: &str) -> (r: Option<&'a PortalRoute>)
    ensures
        match (r, find_route_spec(routes@, interface@)) {
            (Some(a), Some(b)) => *a == b,
            (None, None) => true,
            _ => false,
        },
{
    let mut i: usize = 0;
    assert(routes@.subrange(0, routes@.len() as int) =~= routes@);
    while i < routes.len()
        invariant
            i <= routes@.len(),
            find_route_spec(routes@, interface@) == find_route_spec(routes@.subrange(i as int, routes@.len() as int), interface@),
        decreases routes@.len() - i,
    {
        let r = &routes[i];
        let ghost rest = routes@.subrange(i as int, routes@.len() as int);
        assert(rest[0] == *r);
        if eq_str(r.interface.as_str(), interface) || ends_with_str(r.interface.as_str(), interface) {
            return Some(r);
        }
        assert(rest.drop_first() =~= routes@.subrange(i + 1, routes@.len() as int));
        i = i + 1;
    }
    None
}

pub open spec fn evidence_lines(items: Seq<RouteEvidence>) -> Seq<char>
    decreases items.len(),
{
    if items.len() == 0 {
        Seq::empty()
    } else {
        evidence_lines(items.drop_last()) + "  - "@ + items.last().message@ + "\n"@
    }
}

pub open spec fn route_explanation(r: PortalRoute) -> Seq<char> {
    "Interface: "@ + r.interface@ + "\n"@ + "Status: "@ + r.status.label_spec() + "\n"@ + "Requested: "@
        + any_list(r.requested_candidates@) + "\n"@ + "Available: "@ + any_list(r.available_candidates@) + "\n"@
        + "Selected: "@ + any_list(r.selected_candidates@) + "\n"@ + "\nEvidence:\n"@ + evidence_lines(r.evidence@)
}

pub open spec fn portal_explain_text(report: Report, interface: Seq<char>) -> Seq<char> {
    match report.snapshot.portal_routes.value {
        Some(routes) => match find_route_spec(routes@, interface) {
            Some(route) => route_explanation(route) + match report.snapshot.portal_config.value {
                Some(config) => if config.parse_errors@.len() > 0 {
                    "\nConfig parse errors:\n"@ + list_lines(config.parse_errors@, "  - "@)
                } else {
                    Seq::empty()
                },
                None => Seq::empty(),
            },
            None => "No route for interface "@ + crate::text::debug_str(interface) + ".\n"@,
        },
        None => "Portal routes: "@ + report.snapshot.portal_routes.status.label_spec() + " "@
            + note_text(report.snapshot.portal_routes) + "\n"@,
    }
}

fn write_route_explanation(out: &mut String, route: &PortalRoute)
    ensures
        final(out)@ == old(out)@ + route_explanation(*route),
{
    let ghost start = out@;
    append(out, "Interface: ");
    append(out, route.interface.as_str());
    append(out, "\n");
    append(out, "Status: ");
    append(out, route.status.as_str());
    append(out, "\n");
    append(out, "Requested: ");
    append(out, join_or_any(&route.requested_candidates).as_str());
    append(out, "\n");
    append(out, "Available: ");
    append(out, join_or_any(&route.available_candidates).as_str());
    append(out, "\n");
    append(out, "Selected: ");
    append(out, join_or_any(&route.selected_candidates).as_str());
    append(out, "\n");
    append(out, "\nEvidence:\n");
    let items = &route.evidence;
    let ghost mid = out@;
    let mut i: usize = 0;
    while i < items.len()
        invariant
            i <= items@.len(),
            out@ == mid + evidence_lines(items@.take(i as int)),
        decreases items@.len() - i,
    {
        assert(items@.take(i + 1).drop_last() =~= items@.take(i as int));
        append(out, "  - ");
        append(out, items[i].message.as_str());
        append(out, "\n");
        i = i + 1;
        assert(out@ =~= mid + evidence_lines(items@.take(i as int)));
    }
    assert(items@.take(i as int) =~= items@);
    assert(out@ =~= start + route_explanation(*route));
}

impl Renderer for PortalExplainRenderer {
    fn render(&self, report: &Report, verbose: bool) -> (r: String)
        ensures
            r@ == portal_explain_text(*report, self.interface@),
    {
        let mut out = String::new();
        let routes = match &report.snapshot.portal_routes.value {
            Some(r) => r,
            None => {
                let section = &report.snapshot.portal_routes;
                append(&mut out, "Portal routes: ");
                append(&mut out, section.status.label());
                append(&mut out, " ");
                append(&mut out, section_errors(section).as_str());
                append(&mut out, "\n");
                assert(out@ =~= portal_explain_text(*report, self.interface@));
                return out;
            },
        };
        let route = match find_route(routes, self.interface.as_str()) {
            Some(r) => r,
            None => {
                append(&mut out, "No route for interface ");
                append(&mut out, crate::text::debug_quote(self.interface.as_str()).as_str());
                append(&mut out, ".\n");
                assert(out@ =~= portal_explain_text(*report, self.interface@));
                return out;
            },
        };
        write_route_explanation(&mut out, route);
        let ghost mid = out@;
        match &report.snapshot.portal_config.value {
            Some(config) => {
                if config.parse_errors.len() > 0 {
                    append(&mut out, "\nConfig parse errors:\n");
                    write_list_lines(&mut out, &config.parse_errors, "  - ");
                }
            },
            None => {},
        }
        assert(out@ =~= portal_explain_text(*report, self.interface@));
        out
    }
}

} // verus!
