//! Candidate `portals.conf` files and descriptor roots.
use vstd::prelude::*;
use crate::model::environment::SearchRoots;
use crate::text::{append, clone_string, concat2, ends_with, ends_with_str, views};

verus! {

/// `Path::join` of a relative component onto a base directory.
pub open spec fn join_path(base: Seq<char>, part: Seq<char>) -> Seq<char> {
    if base.len() == 0 {
        part
    } else if ends_with(base, "/"@) {
        base + part
    } else {
        base + "/"@ + part
    }
}

pub fn path_join(base: &str, part: &str) -> (r: String)
    ensures
        r@ == join_path(base@, part@),
{
    if base.is_empty() {
        part.to_owned()
    } else if ends_with_str(base, "/") {
        concat2(base, part)
    } else {
        let mut s = concat2(base, "/");
        append(&mut s, part);
        s
    }
}

pub open spec fn config_file(root: Seq<char>, name: Seq<char>) -> Seq<char> {
    join_path(join_path(root, "xdg-desktop-portal"@), name)
}

/// Desktop-specific candidates: every config root for each desktop in order.
pub open spec fn desktop_candidates(roots: Seq<Seq<char>>, desktops: Seq<Seq<char>>) -> Seq<Seq<char>>
    decreases desktops.len(),
{
    if desktops.len() == 0 {
        Seq::empty()
    } else {
        desktop_candidates(roots, desktops.drop_last()) + roots.map_values(
            |r: Seq<char>| config_file(r, desktops.last() + "-portals.conf"@),
        )
    }
}

pub open spec fn candidates_spec(roots: Seq<Seq<char>>, desktops: Seq<Seq<char>>) -> Seq<Seq<char>> {
    desktop_candidates(roots, desktops) + roots.map_values(|r: Seq<char>| config_file(r, "portals.conf"@))
}

fn push_for_roots(out: &mut Vec<String>, roots: &Vec<String>, name: &str)
    ensures
        views(final(out)@) == views(old(out)@) + views(roots@).map_values(|r: Seq<char>| config_file(r, name@)),
{
    let ghost start = views(out@);
    let mut i: usize = 0;
    while i < roots.len()
        invariant
            i <= roots@.len(),
            views(out@) == start + views(roots@).take(i as int).map_values(|r: Seq<char>| config_file(r, name@)),
        decreases roots@.len() - i,
    {
        let dir = path_join(roots[i].as_str(), "xdg-desktop-portal");
        let file = path_join(dir.as_str(), name);
        let ghost before = views(out@);
        out.push(file);
        assert(views(out@) =~= before.push(file@));
        assert(views(roots@).take(i + 1).map_values(|r: Seq<char>| config_file(r, name@)) =~= views(roots@).take(i as int).map_values(|r: Seq<char>| config_file(r, name@)).push(config_file(roots@[i as int]@, name@)));
        i = i + 1;
    }
    assert(views(roots@).take(i as int) =~= views(roots@));
}

/// Candidate `portals.conf` paths in upstream precedence order: for every
/// desktop name probe every config root, then fall back to the generic
/// `portals.conf` across the same roots.
pub fn portal_config_candidates(roots: &SearchRoots, desktops: &Vec<String>) -> (r: Vec<String>)
    ensures
        views(r@) == candidates_spec(views(roots.config_roots@), views(desktops@)),
{
    let ghost rv = views(roots.config_roots@);
    let mut candidates: Vec<String> = Vec::new();
    let mut i: usize = 0;
    while i < desktops.len()
        invariant
            rv == views(roots.config_roots@),
            i <= desktops@.len(),
            views(candidates@) == desktop_candidates(rv, views(desktops@).take(i as int)),
        decreases desktops@.len() - i,
    {
        let name = concat2(desktops[i].as_str(), "-portals.conf");
        push_for_roots(&mut candidates, &roots.config_roots, name.as_str());
        assert(views(desktops@).take(i + 1).drop_last() =~= views(desktops@).take(i as int));
        assert(views(desktops@).take(i + 1).last() == desktops@[i as int]@);
        i = i + 1;
    }
    assert(views(desktops@).take(i as int) =~= views(desktops@));
    push_for_roots(&mut candidates, &roots.config_roots, "portals.conf");
    candidates
}

/// `.portal` descriptor search roots: the `xdg-desktop-portal/portals`
/// directory of every effective XDG data root, in precedence order.
pub fn portal_descriptor_roots(roots: &SearchRoots) -> (r: Vec<String>)
    ensures
        views(r@) == views(roots.data_roots@).map_values(
            |root: Seq<char>| join_path(join_path(root, "xdg-desktop-portal"@), "portals"@),
        ),
{
    let mut out: Vec<String> = Vec::new();
    let mut i: usize = 0;
    while i < roots.data_roots.len()
        invariant
            i <= roots.data_roots@.len(),
            out@.len() == i,
            forall|k: int| 0 <= k < i ==> (#[trigger] out@[k])@ == join_path(join_path(roots.data_roots@[k]@, "xdg-desktop-portal"@), "portals"@),
        decreases roots.data_roots@.len() - i,
    {
        let dir = path_join(roots.data_roots[i].as_str(), "xdg-desktop-portal");
        out.push(path_join(dir.as_str(), "portals"));
        i = i + 1;
    }
    assert(views(out@) =~= views(roots.data_roots@).map_values(
        |root: Seq<char>| join_path(join_path(root, "xdg-desktop-portal"@), "portals"@),
    ));
    out
}

} // verus!
