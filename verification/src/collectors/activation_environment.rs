//! Parser for `systemctl --user show-environment` output.
use vstd::prelude::*;
use crate::collectors::environment::{allowlisted, is_allowlisted};
use crate::model::environment::EnvVars;
use crate::text::{last_assignment, lines, lines_seq, split_once, split_once_seq, trim, trim_str, unquote_spec, views};
pub use crate::text::unquote;

verus! {

/// The assignment one output line contributes: an allowlisted key with a
/// non-empty (unquoted) value.
pub open spec fn show_environment_entry(line: Seq<char>) -> Option<(Seq<char>, Seq<char>)> {
    match split_once_seq(line, '=') {
        Some((k, v)) => {
            let key = trim(k);
            let value = unquote_spec(trim(v));
            if allowlisted(key) && value.len() > 0 {
                Some((key, value))
            } else {
                None
            }
        },
        None => None,
    }
}

/// Parse `systemctl --user show-environment` output. Only allowlisted keys
/// are retained; quoting and non-assignment lines are tolerated; a later
/// assignment of a key wins.
pub fn parse_show_environment(text: &str) -> (vars: EnvVars)
    ensures
        forall|k: Seq<char>| #[trigger] vars.get_spec(k) == last_assignment(
            lines_seq(text@),
            |l: Seq<char>| show_environment_entry(l),
            k,
        ),
        vars.ordered(),
{
    let ls = lines(text);
    let ghost lv = views(ls@);
    let ghost f = |l: Seq<char>| show_environment_entry(l);
    let mut vars = EnvVars::new();
    let mut i: usize = 0;
    while i < ls.len()
        invariant
            lv == views(ls@),
            lv == lines_seq(text@),
            i <= ls@.len(),
            f == (|l: Seq<char>| show_environment_entry(l)),
            forall|k: Seq<char>| #[trigger] vars.get_spec(k) == last_assignment(lv.take(i as int), f, k),
            vars.ordered(),
        decreases ls@.len() - i,
    {
        let ghost prev = vars;
        assert(lv.take(i + 1).drop_last() =~= lv.take(i as int));
        assert(lv.take(i + 1).last() == ls@[i as int]@);
        let ghost line = lv[i as int];
        assert(f(line) == show_environment_entry(line));
        match split_once(ls[i].as_str(), '=') {
            Some((k, v)) => {
                let key = trim_str(k.as_str());
                let value = unquote(trim_str(v.as_str()).as_str());
                if is_allowlisted(key.as_str()) && !value.as_str().is_empty() {
                    vars.insert(key.as_str(), value.as_str());
                    assert(show_environment_entry(line) == Some((key@, value@)));
                } else {
                    assert(show_environment_entry(line) is None);
                }
            },
            None => {
                assert(show_environment_entry(line) is None);
            },
        }
        assert forall|k: Seq<char>| #[trigger] vars.get_spec(k) == last_assignment(lv.take(i + 1), f, k) by {
            assert(lv.take(i + 1).last() == line);
        }
        i = i + 1;
    }
    assert(lv.take(i as int) =~= lv);
    vars
}

} // verus!
