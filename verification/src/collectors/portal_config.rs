//! Parser for `portals.conf` key files.
use vstd::prelude::*;
use crate::model::portal::{PortalConfigCandidate, PortalConfigInfo, PortalPreference};
use crate::model::section::Section;
use crate::model::status::CollectorState;
use crate::text::{
    append, eq_str, header_name, lines, lines_seq, list_tokens, push_decimal, decimal,
    section_name, split_once, split_once_seq, split_tokens, starts_with, starts_with_str, trim,
    trim_str, views, clone_strings, concat4,
};

verus! {

/// Parser state: current section, preferences `(interface, backends)` and
/// error messages.
pub type ConfigState = (Seq<char>, Seq<(Seq<char>, Seq<Seq<char>>)>, Seq<Seq<char>>);

pub open spec fn missing_equals_message(index: nat) -> Seq<char> {
    "line "@ + decimal(index + 1) + ": missing '='"@
}

pub open spec fn empty_list_message(index: nat, key: Seq<char>) -> Seq<char> {
    "line "@ + decimal(index + 1) + ": empty backend list for "@ + key
}

/// The effect of the line at `index` on the parser state.
pub open spec fn config_step(st: ConfigState, raw: Seq<char>, index: nat) -> ConfigState {
    let line = trim(raw);
    if line.len() == 0 || starts_with(line, "#"@) || starts_with(line, ";"@) {
        st
    } else if starts_with(line, "["@) {
        (section_name(line), st.1, st.2)
    } else {
        match split_once_seq(line, '=') {
            None => (st.0, st.1, st.2.push(missing_equals_message(index))),
            Some((k, v)) => if st.0 != "preferred"@ {
                st
            } else {
                let key = trim(k);
                let backends = list_tokens(trim(v));
                if backends.len() == 0 {
                    (st.0, st.1, st.2.push(empty_list_message(index, key)))
                } else {
                    (st.0, st.1.push((key, backends)), st.2)
                }
            },
        }
    }
}

pub open spec fn config_fold(lines: Seq<Seq<char>>) -> ConfigState
    decreases lines.len(),
{
    if lines.len() == 0 {
        (Seq::<char>::empty(), Seq::empty(), Seq::empty())
    } else {
        config_step(config_fold(lines.drop_last()), lines.last(), (lines.len() - 1) as nat)
    }
}

/// The entry a preference line gives: its interface and its backends.
/// Where it was read from (file and precedence) is stated apart.
pub open spec fn preference_entry(p: PortalPreference) -> (Seq<char>, Seq<Seq<char>>) {
    (p.interface@, views(p.backends@))
}

fn line_message(index: usize, tail: &str) -> (r: String)
    requires
        index < usize::MAX,
    ensures
        r@ == "line "@ + decimal((index + 1) as nat) + tail@,
{
    let mut s = "line ".to_owned();
    push_decimal(&mut s, (index + 1) as u64);
    append(&mut s, tail);
    s
}

/// Parse `portals.conf` text: a GLib-style key file. Only the `[preferred]`
/// section is interpreted; malformed lines are reported as parse errors;
/// `*` and `none` are preserved as literal backend tokens.
pub fn parse_config(text: &str, source_file: &str, source_priority: usize) -> (r: (Vec<PortalPreference>, Vec<String>))
    ensures
        r.0@.map_values(|p: PortalPreference| preference_entry(p)) == config_fold(lines_seq(text@)).1,
        forall|i: int| 0 <= i < r.0@.len() ==> (#[trigger] r.0@[i]).source_file@ == source_file@
            && r.0@[i].source_priority == source_priority,
        views(r.1@) == config_fold(lines_seq(text@)).2,
{
    let ls = lines(text);
    let ghost lv = views(ls@);
    let mut preferences: Vec<PortalPreference> = Vec::new();
    let mut errors: Vec<String> = Vec::new();
    let mut section = String::new();
    let mut index: usize = 0;
    while index < ls.len()
        invariant
            lv == views(ls@),
            lv == lines_seq(text@),
            index <= ls@.len(),
            ({
                let st = config_fold(lv.take(index as int));
                &&& section@ == st.0
                &&& preferences@.map_values(|p: PortalPreference| preference_entry(p)) == st.1
                &&& views(errors@) == st.2
            }),
            forall|i: int| 0 <= i < preferences@.len() ==> (#[trigger] preferences@[i]).source_file@ == source_file@
                && preferences@[i].source_priority == source_priority,
        decreases ls@.len() - index,
    {
        let ghost raw = lv[index as int];
        let ghost st = config_fold(lv.take(index as int));
        assert(lv.take(index + 1).drop_last() =~= lv.take(index as int));
        assert(lv.take(index + 1).last() == raw);
        let ghost pv = preferences@.map_values(|p: PortalPreference| preference_entry(p));
        let ghost ev = views(errors@);
        let line = trim_str(ls[index].as_str());
        if line.as_str().is_empty() || starts_with_str(line.as_str(), "#") || starts_with_str(line.as_str(), ";") {
        } else if starts_with_str(line.as_str(), "[") {
            section = header_name(line.as_str());
        } else {
            match split_once(line.as_str(), '=') {
                None => {
                    let msg = line_message(index, ": missing '='");
                    errors.push(msg);
                    assert(views(errors@) =~= ev.push(missing_equals_message(index as nat)));
                },
                Some((k, v)) => {
                    if eq_str(section.as_str(), "preferred") {
                        let key = trim_str(k.as_str());
                        let backends = split_tokens(trim_str(v.as_str()).as_str());
                        if backends.len() == 0 {
                            let mut msg = line_message(index, ": empty backend list for ");
                            append(&mut msg, key.as_str());
                            errors.push(msg);
                            assert(views(errors@) =~= ev.push(empty_list_message(index as nat, key@)));
                        } else {
                            let p = PortalPreference {
                                interface: key,
                                backends,
                                source_file: source_file.to_owned(),
                                source_priority,
                            };
                            let ghost pview = preference_entry(p);
                            preferences.push(p);
                            assert(preferences@.map_values(|p: PortalPreference| preference_entry(p)) =~= pv.push(pview));
                        }
                    }
                },
            }
        }
        index = index + 1;
    }
    assert(lv.take(index as int) =~= lv);
    (preferences, errors)
}

/// What was found at one candidate path.
#[derive(Debug, Clone, PartialEq, Eq)]
pub enum CandidateFile {
    Missing,
    /// The file exists but could not be read; the error's description.
    Unreadable(String),
    Text(String),
}

pub open spec fn first_present(files: Seq<CandidateFile>, from: int) -> int
    decreases files.len() - from,
{
    if from < 0 || from >= files.len() {
        -1
    } else if !(files[from] is Missing) {
        from
    } else {
        first_present(files, from + 1)
    }
}

/// The indices of the present candidates after `selected`, in order.
pub open spec fn present_after(files: Seq<CandidateFile>, from: int) -> Seq<int>
    decreases files.len() - from,
{
    if from < 0 || from >= files.len() {
        Seq::empty()
    } else if files[from] is Missing {
        present_after(files, from + 1)
    } else {
        seq![from] + present_after(files, from + 1)
    }
}

pub open spec fn read_error_message(path: Seq<char>, err: Seq<char>) -> Seq<char> {
    "cannot read "@ + path + ": "@ + err
}

/// A lower-precedence candidate as it is reported: parsed when readable,
/// with its parse status, or unavailable with the read error.
pub open spec fn candidate_ok(c: PortalConfigCandidate, path: Seq<char>, index: int, file: CandidateFile) -> bool {
    &&& c.path@ == path
    &&& c.source_priority == index
    &&& match file {
        CandidateFile::Text(t) => {
            &&& c.preferences@.map_values(|p: PortalPreference| preference_entry(p)) == config_fold(lines_seq(t@)).1
            &&& forall|i: int| 0 <= i < c.preferences@.len() ==> (#[trigger] c.preferences@[i]).source_file@ == path
                && c.preferences@[i].source_priority == index
            &&& views(c.parse_errors@) == config_fold(lines_seq(t@)).2
            &&& c.status == if c.parse_errors@.len() == 0 { CollectorState::Available } else { CollectorState::ParseError }
        },
        CandidateFile::Unreadable(e) => {
            &&& c.status == CollectorState::Unavailable
            &&& c.preferences@.len() == 0
            &&& views(c.parse_errors@) == seq![read_error_message(path, e@)]
        },
        CandidateFile::Missing => false,
    }
}

proof fn lemma_first_present(files: Seq<CandidateFile>, from: int, i: int)
    requires
        0 <= from <= i <= files.len(),
        forall|k: int| from <= k < i ==> files[k] is Missing,
    ensures
        first_present(files, from) == first_present(files, i),
        present_after(files, from) == present_after(files, i),
    decreases i - from,
{
    if from < i {
        lemma_first_present(files, from + 1, i);
    }
}

proof fn lemma_first_present_found(files: Seq<CandidateFile>, i: int)
    requires
        0 <= i < files.len(),
        !(files[i] is Missing),
    ensures
        first_present(files, i) == i,
{
}

fn describe_candidate(path: &str, index: usize, file: &CandidateFile) -> (c: PortalConfigCandidate)
    requires
        !(*file is Missing),
    ensures
        candidate_ok(c, path@, index as int, *file),
{
    match file {
        CandidateFile::Text(t) => {
            let (preferences, parse_errors) = parse_config(t.as_str(), path, index);
            let status = if parse_errors.len() == 0 {
                CollectorState::Available
            } else {
                CollectorState::ParseError
            };
            PortalConfigCandidate { path: path.to_owned(), source_priority: index, status, preferences, parse_errors }
        },
        CandidateFile::Unreadable(e) => {
            let mut parse_errors: Vec<String> = Vec::new();
            parse_errors.push(concat4("cannot read ", path, ": ", e.as_str()));
            assert(views(parse_errors@) =~= seq![read_error_message(path@, e@)]);
            PortalConfigCandidate {
                path: path.to_owned(),
                source_priority: index,
                status: CollectorState::Unavailable,
                preferences: Vec::new(),
                parse_errors,
            }
        },
        CandidateFile::Missing => PortalConfigCandidate {
            path: path.to_owned(),
            source_priority: index,
            status: CollectorState::Unavailable,
            preferences: Vec::new(),
            parse_errors: Vec::new(),
        },
    }
}

/// The effective configuration: the first candidate that exists is
/// selected and parsed with its precedence index as priority, and every
/// later candidate that exists is kept as lower-precedence provenance.
/// `files[i]` is what was found at `candidates[i]`.
pub fn collect_config(candidates: &Vec<String>, files: &Vec<CandidateFile>) -> (s: Section<PortalConfigInfo>)
    requires
        files@.len() == candidates@.len(),
    ensures
        ({
            let sel = first_present(files@, 0);
            if sel < 0 {
                &&& s.status == CollectorState::Available
                &&& s.value matches Some(info) && views(info.candidate_files@) == views(candidates@)
                    && info.selected_file is None && info.preferences@.len() == 0 && info.parse_errors@.len() == 0
                    && info.lower_priority_candidates@.len() == 0
            } else {
                match files@[sel] {
                    CandidateFile::Unreadable(e) => s.failed_with(
                        CollectorState::Unavailable,
                        read_error_message(candidates@[sel]@, e@),
                    ),
                    CandidateFile::Text(t) => {
                        &&& s.status == CollectorState::Available
                        &&& s.value matches Some(info) && {
                            &&& views(info.candidate_files@) == views(candidates@)
                            &&& info.selected_file matches Some(f) && f@ == candidates@[sel]@
                            &&& info.preferences@.map_values(|p: PortalPreference| preference_entry(p))
                                == config_fold(lines_seq(t@)).1
                            &&& forall|i: int| 0 <= i < info.preferences@.len() ==> (#[trigger] info.preferences@[i]).source_file@
                                == candidates@[sel]@ && info.preferences@[i].source_priority == sel
                            &&& views(info.parse_errors@) == config_fold(lines_seq(t@)).2
                            &&& info.lower_priority_candidates@.len() == present_after(files@, sel + 1).len()
                            &&& forall|k: int| 0 <= k < info.lower_priority_candidates@.len() ==> candidate_ok(
                                #[trigger] info.lower_priority_candidates@[k],
                                candidates@[present_after(files@, sel + 1)[k]]@,
                                present_after(files@, sel + 1)[k],
                                files@[present_after(files@, sel + 1)[k]],
                            )
                        }
                    },
                    CandidateFile::Missing => false,
                }
            }
        }),
{
    let mut sel: usize = 0;
    while sel < files.len() && matches!(files[sel], CandidateFile::Missing)
        invariant
            sel <= files@.len(),
            forall|k: int| 0 <= k < sel ==> files@[k] is Missing,
        decreases files@.len() - sel,
    {
        sel = sel + 1;
    }
    proof {
        lemma_first_present(files@, 0, sel as int);
        if sel < files@.len() {
            lemma_first_present_found(files@, sel as int);
        }
    }
    if sel == files.len() {
        return Section::available(PortalConfigInfo {
            candidate_files: clone_strings(candidates),
            selected_file: None,
            preferences: Vec::new(),
            parse_errors: Vec::new(),
            lower_priority_candidates: Vec::new(),
        });
    }
    let path = candidates[sel].as_str();
    let text = match &files[sel] {
        CandidateFile::Unreadable(e) => {
            let m = concat4("cannot read ", path, ": ", e.as_str());
            return Section::unavailable(m.as_str());
        },
        CandidateFile::Text(t) => t,
        CandidateFile::Missing => {
            return Section::unavailable("");
        },
    };
    let (preferences, parse_errors) = parse_config(text.as_str(), path, sel);
    let mut lower: Vec<PortalConfigCandidate> = Vec::new();
    let mut j: usize = sel + 1;
    proof {
        assert(present_after(files@, sel + 1) =~= present_after(files@, sel + 1).skip(0));
    }
    while j < files.len()
        invariant
            files@.len() == candidates@.len(),
            sel < j <= files@.len(),
            present_after(files@, sel + 1) == lower@.map_values(|c: PortalConfigCandidate| c.source_priority as int)
                + present_after(files@, j as int),
            forall|k: int| 0 <= k < lower@.len() ==> candidate_ok(
                #[trigger] lower@[k],
                candidates@[lower@[k].source_priority as int]@,
                lower@[k].source_priority as int,
                files@[lower@[k].source_priority as int],
            ),
        decreases files@.len() - j,
    {
        if !matches!(files[j], CandidateFile::Missing) {
            let c = describe_candidate(candidates[j].as_str(), j, &files[j]);
            let ghost before = lower@;
            lower.push(c);
            assert(lower@.map_values(|c: PortalConfigCandidate| c.source_priority as int) =~= before.map_values(
                |c: PortalConfigCandidate| c.source_priority as int,
            ).push(j as int));
            assert(present_after(files@, j as int) == seq![j as int] + present_after(files@, j + 1));
        }
        j = j + 1;
    }
    let ghost idx = lower@.map_values(|c: PortalConfigCandidate| c.source_priority as int);
    assert(present_after(files@, j as int) =~= Seq::<int>::empty());
    assert(present_after(files@, sel + 1) =~= idx);
    assert forall|k: int| 0 <= k < lower@.len() implies candidate_ok(
        #[trigger] lower@[k],
        candidates@[present_after(files@, sel + 1)[k]]@,
        present_after(files@, sel + 1)[k],
        files@[present_after(files@, sel + 1)[k]],
    ) by {
        assert(idx[k] == lower@[k].source_priority as int);
    }
    Section::available(PortalConfigInfo {
        candidate_files: clone_strings(candidates),
        selected_file: Some(path.to_owned()),
        preferences,
        parse_errors,
        lower_priority_candidates: lower,
    })
}

} // verus!
