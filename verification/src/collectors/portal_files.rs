//! Parser for `.portal` backend descriptors.
use vstd::prelude::*;
use crate::model::portal::PortalBackend;
use crate::text::{
    eq_str, header_name, insert_sorted, lines, lines_seq, list_tokens, section_name, sorted_strict,
    split_once, split_once_seq, split_tokens, starts_with, starts_with_str, trim, trim_str, views, clone_string,
};

verus! {

/// Descriptor parser state: D-Bus name, interface set, `UseIn` list and
/// whether the current section is `[portal]`.
pub type DescriptorState = (Seq<char>, Set<Seq<char>>, Seq<Seq<char>>, bool);

pub open spec fn descriptor_step(st: DescriptorState, raw: Seq<char>) -> DescriptorState {
    let line = trim(raw);
    if line.len() == 0 || starts_with(line, "#"@) || starts_with(line, ";"@) {
        st
    } else if starts_with(line, "["@) {
        (st.0, st.1, st.2, section_name(line) == "portal"@)
    } else if !st.3 {
        st
    } else {
        match split_once_seq(line, '=') {
            None => st,
            Some((k, v)) => {
                let key = trim(k);
                let value = trim(v);
                if key == "DBusName"@ {
                    (value, st.1, st.2, st.3)
                } else if key == "Interfaces"@ {
                    (st.0, st.1.union(list_tokens(value).to_set()), st.2, st.3)
                } else if key == "UseIn"@ {
                    (st.0, st.1, list_tokens(value), st.3)
                } else {
                    st
                }
            },
        }
    }
}

pub open spec fn descriptor_fold(lines: Seq<Seq<char>>) -> DescriptorState
    decreases lines.len(),
{
    if lines.len() == 0 {
        (Seq::<char>::empty(), Set::empty(), Seq::empty(), false)
    } else {
        descriptor_step(descriptor_fold(lines.drop_last()), lines.last())
    }
}

fn add_tokens(set: &mut Vec<String>, tokens: &Vec<String>)
    requires
        sorted_strict(views(old(set)@)),
    ensures
        sorted_strict(views(final(set)@)),
        forall|x: Seq<char>| #[trigger] views(final(set)@).contains(x) <==> (views(old(set)@).contains(x)
            || views(tokens@).contains(x)),
{
    let ghost start = views(set@);
    let mut j: usize = 0;
    while j < tokens.len()
        invariant
            j <= tokens@.len(),
            sorted_strict(views(set@)),
            forall|x: Seq<char>| #[trigger] views(set@).contains(x) <==> (start.contains(x)
                || views(tokens@).take(j as int).contains(x)),
        decreases tokens@.len() - j,
    {
        insert_sorted(set, tokens[j].as_str());
        assert forall|x: Seq<char>| #[trigger] views(tokens@).take(j + 1).contains(x) <==> (views(
            tokens@,
        ).take(j as int).contains(x) || x == tokens@[j as int]@) by {
            let t = views(tokens@).take(j + 1);
            if t.contains(x) {
                let k = choose|k: int| 0 <= k < t.len() && t[k] == x;
                if k < j {
                    assert(views(tokens@).take(j as int)[k] == x);
                }
            }
            if views(tokens@).take(j as int).contains(x) {
                let k = choose|k: int| 0 <= k < j && views(tokens@).take(j as int)[k] == x;
                assert(t[k] == x);
            }
            if x == tokens@[j as int]@ {
                assert(t[j as int] == x);
            }
        }
        j = j + 1;
    }
    assert(views(tokens@).take(tokens@.len() as int) =~= views(tokens@));
}

/// Parse one `.portal` descriptor. Missing keys stay empty; unknown sections
/// and lines are ignored; interfaces form a sorted set.
pub fn parse_portal_file(text: &str, descriptor_path: &str, id: String) -> (b: PortalBackend)
    ensures
        b.id == id,
        b.descriptor_path@ == descriptor_path@,
        b.duplicate_descriptors@.len() == 0,
        ({
            let st = descriptor_fold(lines_seq(text@));
            &&& b.dbus_name@ == st.0
            &&& sorted_strict(views(b.interfaces@))
            &&& forall|x: Seq<char>| #[trigger] views(b.interfaces@).contains(x) <==> st.1.contains(x)
            &&& views(b.legacy_use_in@) == st.2
        }),
{
    let ls = lines(text);
    let ghost lv = views(ls@);
    let mut dbus_name = String::new();
    let mut interfaces: Vec<String> = Vec::new();
    let mut legacy_use_in: Vec<String> = Vec::new();
    let mut in_portal_section = false;
    let mut i: usize = 0;
    while i < ls.len()
        invariant
            lv == views(ls@),
            lv == lines_seq(text@),
            i <= ls@.len(),
            sorted_strict(views(interfaces@)),
            ({
                let st = descriptor_fold(lv.take(i as int));
                &&& dbus_name@ == st.0
                &&& forall|x: Seq<char>| #[trigger] views(interfaces@).contains(x) <==> st.1.contains(x)
                &&& views(legacy_use_in@) == st.2
                &&& in_portal_section == st.3
            }),
        decreases ls@.len() - i,
    {
        let ghost raw = lv[i as int];
        let ghost st = descriptor_fold(lv.take(i as int));
        assert(lv.take(i + 1).drop_last() =~= lv.take(i as int));
        assert(lv.take(i + 1).last() == raw);
        let line = trim_str(ls[i].as_str());
        if line.as_str().is_empty() || starts_with_str(line.as_str(), "#") || starts_with_str(line.as_str(), ";") {
        } else if starts_with_str(line.as_str(), "[") {
            let name = header_name(line.as_str());
            in_portal_section = eq_str(name.as_str(), "portal");
        } else if in_portal_section {
            match split_once(line.as_str(), '=') {
                None => {},
                Some((k, v)) => {
                    let key = trim_str(k.as_str());
                    let value = trim_str(v.as_str());
                    if eq_str(key.as_str(), "DBusName") {
                        dbus_name = value;
                    } else if eq_str(key.as_str(), "Interfaces") {
                        let tokens = split_tokens(value.as_str());
                        add_tokens(&mut interfaces, &tokens);
                        assert(views(tokens@).to_set() =~= list_tokens(value@).to_set());
                        assert forall|x: Seq<char>| #[trigger] views(interfaces@).contains(x) <==> st.1.union(list_tokens(value@).to_set()).contains(x) by {
                            assert(views(tokens@).contains(x) <==> views(tokens@).to_set().contains(x));
                        }
                    } else if eq_str(key.as_str(), "UseIn") {
                        legacy_use_in = split_tokens(value.as_str());
                    }
                },
            }
        }
        i = i + 1;
    }
    assert(lv.take(i as int) =~= lv);
    PortalBackend {
        id,
        descriptor_path: descriptor_path.to_owned(),
        duplicate_descriptors: Vec::new(),
        dbus_name,
        interfaces,
        legacy_use_in,
    }
}

/// A readable `.portal` file found during discovery: its id (the file
/// stem), its path and its text.
#[derive(Debug, Clone, PartialEq, Eq)]
pub struct DescriptorFile {
    pub id: String,
    pub path: String,
    pub text: String,
}

pub open spec fn backend_ids(b: Seq<PortalBackend>) -> Seq<Seq<char>> {
    b.map_values(|x: PortalBackend| x.id@)
}

pub open spec fn desc_ids(d: Seq<DescriptorFile>) -> Seq<Seq<char>> {
    d.map_values(|f: DescriptorFile| f.id@)
}

/// The first descriptor with this id, in discovery order.
pub open spec fn first_with_id(d: Seq<DescriptorFile>, id: Seq<char>) -> int
    decreases d.len(),
{
    if d.len() == 0 {
        -1
    } else if first_with_id(d.drop_last(), id) >= 0 {
        first_with_id(d.drop_last(), id)
    } else if d.last().id@ == id {
        d.len() - 1
    } else {
        -1
    }
}

/// The paths of the later descriptors with this id, in discovery order.
pub open spec fn later_paths(d: Seq<DescriptorFile>, id: Seq<char>) -> Seq<Seq<char>>
    decreases d.len(),
{
    if d.len() == 0 {
        Seq::empty()
    } else if first_with_id(d.drop_last(), id) >= 0 && d.last().id@ == id {
        later_paths(d.drop_last(), id).push(d.last().path@)
    } else {
        later_paths(d.drop_last(), id)
    }
}

/// A backend as parsed from the descriptor that won precedence.
pub open spec fn parsed_from(b: PortalBackend, f: DescriptorFile) -> bool {
    let st = descriptor_fold(lines_seq(f.text@));
    &&& b.id@ == f.id@
    &&& b.descriptor_path@ == f.path@
    &&& b.dbus_name@ == st.0
    &&& sorted_strict(views(b.interfaces@))
    &&& forall|x: Seq<char>| #[trigger] views(b.interfaces@).contains(x) <==> st.1.contains(x)
    &&& views(b.legacy_use_in@) == st.2
}

/// One backend per id, sorted by id: the highest-precedence descriptor is
/// parsed and the paths of the others with the same id are kept as
/// duplicate provenance.
pub fn assemble_backends(descriptors: &Vec<DescriptorFile>) -> (r: Vec<PortalBackend>)
    ensures
        sorted_strict(backend_ids(r@)),
        forall|x: Seq<char>| #[trigger] backend_ids(r@).contains(x) <==> desc_ids(descriptors@).contains(x),
        forall|i: int| 0 <= i < r@.len() ==> {
            let f = first_with_id(descriptors@, (#[trigger] r@[i]).id@);
            &&& 0 <= f < descriptors@.len()
            &&& parsed_from(r@[i], descriptors@[f])
            &&& views(r@[i].duplicate_descriptors@) == later_paths(descriptors@, r@[i].id@)
        },
{
    let mut ids: Vec<String> = Vec::new();
    let mut k: usize = 0;
    while k < descriptors.len()
        invariant
            k <= descriptors@.len(),
            sorted_strict(views(ids@)),
            forall|x: Seq<char>| #[trigger] views(ids@).contains(x) <==> desc_ids(descriptors@).take(k as int).contains(x),
        decreases descriptors@.len() - k,
    {
        let id = descriptors[k].id.as_str();
        insert_sorted(&mut ids, id);
        proof {
            let t = desc_ids(descriptors@).take(k as int);
            assert(desc_ids(descriptors@).take(k + 1) =~= t.push(id@));
            assert forall|x: Seq<char>| #[trigger] t.push(id@).contains(x) <==> (t.contains(x) || x == id@) by {
                if t.push(id@).contains(x) {
                    let j = choose|j: int| 0 <= j < t.len() + 1 && t.push(id@)[j] == x;
                    if j < t.len() {
                        assert(t[j] == x);
                    }
                }
                if t.contains(x) {
                    let j = choose|j: int| 0 <= j < t.len() && t[j] == x;
                    assert(t.push(id@)[j] == x);
                }
                if x == id@ {
                    assert(t.push(id@)[t.len() as int] == x);
                }
            }
        }
        k = k + 1;
    }
    assert(desc_ids(descriptors@).take(k as int) =~= desc_ids(descriptors@));
    let mut r: Vec<PortalBackend> = Vec::new();
    let mut i: usize = 0;
    while i < ids.len()
        invariant
            i <= ids@.len(),
            sorted_strict(views(ids@)),
            forall|x: Seq<char>| #[trigger] views(ids@).contains(x) <==> desc_ids(descriptors@).contains(x),
            backend_ids(r@) == views(ids@).take(i as int),
            forall|m: int| 0 <= m < r@.len() ==> {
                let f = first_with_id(descriptors@, (#[trigger] r@[m]).id@);
                &&& 0 <= f < descriptors@.len()
                &&& parsed_from(r@[m], descriptors@[f])
                &&& views(r@[m].duplicate_descriptors@) == later_paths(descriptors@, r@[m].id@)
            },
        decreases ids@.len() - i,
    {
        let id = ids[i].as_str();
        let mut first: Option<usize> = None;
        let mut dups: Vec<String> = Vec::new();
        let mut j: usize = 0;
        while j < descriptors.len()
            invariant
                j <= descriptors@.len(),
                match first {
                    None => first_with_id(descriptors@.take(j as int), id@) == -1,
                    Some(f) => first_with_id(descriptors@.take(j as int), id@) == f && f < j,
                },
                views(dups@) == later_paths(descriptors@.take(j as int), id@),
            decreases descriptors@.len() - j,
        {
            let d = &descriptors[j];
            assert(descriptors@.take(j + 1).drop_last() =~= descriptors@.take(j as int));
            assert(descriptors@.take(j + 1).last() == *d);
            if eq_str(d.id.as_str(), id) {
                if first.is_none() {
                    first = Some(j);
                } else {
                    let ghost before = views(dups@);
                    dups.push(clone_string(&d.path));
                    assert(views(dups@) =~= before.push(d.path@));
                }
            }
            j = j + 1;
        }
        assert(descriptors@.take(j as int) =~= descriptors@);
        proof {
            assert(views(ids@).contains(id@)) by {
                assert(views(ids@)[i as int] == id@);
            }
        }
        let f = match first {
            Some(f) => f,
            None => {
                proof {
                    let w = choose|w: int| 0 <= w < desc_ids(descriptors@).len() && desc_ids(descriptors@)[w] == id@;
                    lemma_first_with_id_found(descriptors@, id@, w);
                }
                0
            },
        };
        proof {
            if first is None {
                assert(false);
            }
        }
        proof {
            lemma_first_with_id_props(descriptors@, id@);
        }
        let d = &descriptors[f];
        let mut b = parse_portal_file(d.text.as_str(), d.path.as_str(), clone_string(&d.id));
        b.duplicate_descriptors = dups;
        let ghost before = r@;
        r.push(b);
        assert(backend_ids(r@) =~= backend_ids(before).push(id@));
        assert(views(ids@).take(i + 1) =~= views(ids@).take(i as int).push(id@));
        i = i + 1;
    }
    assert(views(ids@).take(i as int) =~= views(ids@));
    assert forall|x: Seq<char>| #[trigger] backend_ids(r@).contains(x) <==> desc_ids(descriptors@).contains(x) by {
        assert(backend_ids(r@) == views(ids@));
    }
    r
}

proof fn lemma_first_with_id_props(d: Seq<DescriptorFile>, id: Seq<char>)
    ensures
        -1 <= first_with_id(d, id) < d.len(),
        first_with_id(d, id) >= 0 ==> d[first_with_id(d, id)].id@ == id,
    decreases d.len(),
{
    if d.len() > 0 {
        lemma_first_with_id_props(d.drop_last(), id);
        if first_with_id(d.drop_last(), id) >= 0 {
            assert(d.drop_last()[first_with_id(d.drop_last(), id)] == d[first_with_id(d.drop_last(), id)]);
        }
    }
}

proof fn lemma_first_with_id_found(d: Seq<DescriptorFile>, id: Seq<char>, w: int)
    requires
        0 <= w < d.len(),
        d[w].id@ == id,
    ensures
        0 <= first_with_id(d, id) <= w,
    decreases d.len(),
{
    lemma_first_with_id_props(d.drop_last(), id);
    if w < d.len() - 1 {
        assert(d.drop_last()[w] == d[w]);
        lemma_first_with_id_found(d.drop_last(), id, w);
    }
}

} // verus!
