//! The environment a recursively spawned child invocation inherits.
//!
//! Each subdirectory holding its own listfile is handed to an independent
//! child process.  The child receives every cascading setting under a fixed
//! environment prefix; the recursion display prefix is extended with the
//! subdirectory's relative path.  Mode-derived flags are never forwarded:
//! the child re-derives them from its own command-line argument.

use crate::config::{spec_all_values, spec_pairs_view, Config, ConfigModel};
use crate::strutil::{push_char, str_eq};
use vstd::prelude::*;
use vstd::string::StrSliceExecFns;
use vstd::string::StringExecFns;

verus! {

/// The display prefix a child under `path_rel` inherits: the current prefix
/// (when any) with the relative path and a trailing slash appended.
pub open spec fn spec_child_prefix(m: ConfigModel, path_rel: Seq<char>) -> Seq<char> {
    if m.recurse_prefix.len() == 0 {
        path_rel + seq!['/']
    } else {
        m.recurse_prefix + path_rel + seq!['/']
    }
}

/// One forwarded pair: a setting goes under the environment prefix; the
/// recursion-prefix setting instead carries the extended display prefix.
pub open spec fn spec_child_pair(
    m: ConfigModel,
    path_rel: Seq<char>,
    p: (Seq<char>, Seq<char>),
) -> (Seq<char>, Seq<char>) {
    if p.0 == "RECURSE_PREFIX"@ {
        ("GRM_RECURSE_PREFIX"@, spec_child_prefix(m, path_rel))
    } else {
        ("GRM_"@ + p.0, p.1)
    }
}

/// The configuration pairs a child invocation receives through its
/// environment: every cascading setting under the environment prefix, and
/// always exactly one extended recursion prefix — appended when the current
/// configuration carries none.
pub open spec fn spec_child_pairs(
    m: ConfigModel,
    path_rel: Seq<char>,
    v: Seq<(Seq<char>, Seq<char>)>,
) -> Seq<(Seq<char>, Seq<char>)> {
    v.map_values(|p: (Seq<char>, Seq<char>)| spec_child_pair(m, path_rel, p))
}

pub open spec fn spec_child_env(m: ConfigModel, path_rel: Seq<char>) -> Seq<(Seq<char>, Seq<char>)> {
    spec_child_pairs(m, path_rel, spec_all_values(m)) + (if m.recurse_prefix.len() == 0 {
        seq![("GRM_RECURSE_PREFIX"@, spec_child_prefix(m, path_rel))]
    } else {
        Seq::empty()
    })
}

/// Derive the environment pairs for a child invocation in the subdirectory
/// `path_rel`.
pub fn derive_child_env(config: &Config, path_rel: &str) -> (r: Vec<(String, String)>)
    ensures
        spec_pairs_view(r@) == spec_child_env(config@, path_rel@),
{
    let values = config.all_values();
    let mut prefix = if config.recurse_prefix.as_str().is_empty() {
        String::new()
    } else {
        config.recurse_prefix.clone()
    };
    prefix.append(path_rel);
    push_char(&mut prefix, '/');
    proof {
        assert(prefix@ =~= spec_child_prefix(config@, path_rel@));
    }
    let mut out: Vec<(String, String)> = Vec::new();
    let n = values.len();
    let mut i: usize = 0;
    while i < n
        invariant
            i <= n,
            n == values@.len(),
            spec_pairs_view(values@) == spec_all_values(config@),
            prefix@ == spec_child_prefix(config@, path_rel@),
            spec_pairs_view(out@) =~= spec_child_pairs(
                config@,
                path_rel@,
                spec_pairs_view(values@).take(i as int),
            ),
        decreases n - i,
    {
        proof {
            assert(spec_pairs_view(values@)[i as int] == (values@[i as int].0@, values@[
                i as int
            ].1@));
        }
        if str_eq(values[i].0.as_str(), "RECURSE_PREFIX") {
            out.push(("GRM_RECURSE_PREFIX".to_owned(), prefix.clone()));
        } else {
            let mut k = "GRM_".to_owned();
            k.append(values[i].0.as_str());
            let v = values[i].1.clone();
            out.push((k, v));
        }
        proof {
            let mv = spec_pairs_view(values@);
            assert(mv.take(i + 1) =~= mv.take(i as int).push(mv[i as int]));
            assert(spec_child_pairs(config@, path_rel@, mv.take(i + 1)) =~= spec_child_pairs(
                config@,
                path_rel@,
                mv.take(i as int),
            ).push(spec_child_pair(config@, path_rel@, mv[i as int])));
            assert(spec_pairs_view(out@) =~= spec_child_pairs(
                config@,
                path_rel@,
                mv.take(i + 1),
            ));
        }
        i += 1;
    }
    proof {
        assert(spec_pairs_view(values@).take(n as int) =~= spec_pairs_view(values@));
    }
    if config.recurse_prefix.as_str().is_empty() {
        out.push(("GRM_RECURSE_PREFIX".to_owned(), prefix));
    }
    proof {
        assert(spec_pairs_view(out@) =~= spec_child_env(config@, path_rel@));
    }
    out
}

} // verus!
