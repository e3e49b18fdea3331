//! Parser for `/etc/os-release`.
use vstd::prelude::*;
use crate::model::environment::{EnvVars, SystemInfo};
use crate::text::{last_assignment, lines, lines_seq, opt_view, split_once, split_once_seq, starts_with, starts_with_str, trim, trim_str, unquote_spec, views};
pub use crate::text::unquote;

verus! {

/// The assignment one line contributes: `KEY=VALUE` with optional quoting;
/// blank lines, comments and empty keys contribute nothing.
pub open spec fn os_release_entry(raw: Seq<char>) -> Option<(Seq<char>, Seq<char>)> {
    let line = trim(raw);
    if line.len() == 0 || starts_with(line, "#"@) {
        None
    } else {
        match split_once_seq(line, '=') {
            Some((k, v)) => {
                let key = trim(k);
                if key.len() == 0 {
                    None
                } else {
                    Some((key, unquote_spec(trim(v))))
                }
            },
            None => None,
        }
    }
}

pub open spec fn os_field(text: Seq<char>, key: Seq<char>) -> Option<Seq<char>> {
    last_assignment(lines_seq(text), |l: Seq<char>| os_release_entry(l), key)
}

/// Parse `/etc/os-release` content: `KEY=VALUE` pairs with optional quoting.
/// Comments and blank lines are ignored; later assignments win.
pub fn parse(text: &str) -> (info: SystemInfo)
    ensures
        opt_view(info.id) == os_field(text@, "ID"@),
        opt_view(info.name) == os_field(text@, "NAME"@),
        opt_view(info.pretty_name) == os_field(text@, "PRETTY_NAME"@),
        opt_view(info.version_id) == os_field(text@, "VERSION_ID"@),
{
    let ls = lines(text);
    let ghost lv = views(ls@);
    let ghost f = |l: Seq<char>| os_release_entry(l);
    let mut fields = EnvVars::new();
    let mut i: usize = 0;
    while i < ls.len()
        invariant
            lv == views(ls@),
            lv == lines_seq(text@),
            i <= ls@.len(),
            f == (|l: Seq<char>| os_release_entry(l)),
            forall|k: Seq<char>| #[trigger] fields.get_spec(k) == last_assignment(lv.take(i as int), f, k),
            fields.ordered(),
        decreases ls@.len() - i,
    {
        assert(lv.take(i + 1).drop_last() =~= lv.take(i as int));
        assert(lv.take(i + 1).last() == ls@[i as int]@);
        let ghost raw = lv[i as int];
        assert(f(raw) == os_release_entry(raw));
        let line = trim_str(ls[i].as_str());
        if !line.as_str().is_empty() && !starts_with_str(line.as_str(), "#") {
            match split_once(line.as_str(), '=') {
                Some((k, v)) => {
                    let key = trim_str(k.as_str());
                    if !key.as_str().is_empty() {
                        let value = unquote(trim_str(v.as_str()).as_str());
                        fields.insert(key.as_str(), value.as_str());
                        assert(os_release_entry(raw) == Some((key@, value@)));
                    } else {
                        assert(os_release_entry(raw) is None);
                    }
                },
                None => {
                    assert(os_release_entry(raw) is None);
                },
            }
        } else {
            assert(os_release_entry(raw) is None);
        }
        assert forall|k: Seq<char>| #[trigger] fields.get_spec(k) == last_assignment(lv.take(i + 1), f, k) by {
            assert(lv.take(i + 1).last() == raw);
        }
        i = i + 1;
    }
    assert(lv.take(i as int) =~= lv);
    SystemInfo {
        id: fields.get_cloned("ID"),
        name: fields.get_cloned("NAME"),
        pretty_name: fields.get_cloned("PRETTY_NAME"),
        version_id: fields.get_cloned("VERSION_ID"),
    }
}

} // verus!
