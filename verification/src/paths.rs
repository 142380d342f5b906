//! Path resolution and defaulting for declaration lines.
//!
//! A declaration line's cells give a remote relative path and, optionally,
//! local and media relative paths.  The local and media paths default to the
//! remote's basename with one trailing `.git` stripped.  Each of the three is
//! then qualified against its base directory from the configuration, and a
//! tree filter limits processing to the invocation's original subtree.

use crate::config::Config;
use crate::strutil::{
    after_last_slash, contains_str, ends_with_str, push_char, spec_after_last_slash,
    spec_contains_str, spec_slashed, spec_strip_dot_slash, strip_dot_slash, to_forward_slashes,
};
use vstd::prelude::*;
use vstd::string::StrSliceExecFns;
use vstd::string::StringExecFns;

verus! {

/// Qualify `rel` against `base`: an absolute path is returned unchanged, an
/// empty relative component yields the bare base, an empty base yields the
/// bare relative component, and otherwise the two are joined with `/`.
/// Redundant leading `./` is stripped from each input segment first.
pub open spec fn spec_cat_paths(base: Seq<char>, rel: Seq<char>) -> Seq<char> {
    let b = spec_strip_dot_slash(base);
    let r = spec_strip_dot_slash(rel);
    if r.len() > 0 && r[0] == '/' {
        r
    } else if b.len() == 0 {
        r
    } else if r.len() == 0 {
        b
    } else {
        b + seq!['/'] + r
    }
}

/// Concatenate a base directory and a relative path.
pub fn cat_paths(base: &str, rel: &str) -> (out: String)
    ensures
        out@ == spec_cat_paths(base@, rel@),
{
    let b = strip_dot_slash(base);
    let r = strip_dot_slash(rel);
    if r.unicode_len() > 0 && r.get_char(0) == '/' {
        return r.to_owned();
    }
    if b.unicode_len() == 0 {
        return r.to_owned();
    }
    if r.unicode_len() == 0 {
        return b.to_owned();
    }
    let mut out = b.to_owned();
    push_char(&mut out, '/');
    out.append(r);
    proof {
        assert(out@ =~= spec_strip_dot_slash(base@) + seq!['/'] + spec_strip_dot_slash(rel@));
    }
    out
}

/// The remote's basename: the final `/`-delimited component with one
/// trailing `.git` stripped, when a proper name precedes the suffix.
pub open spec fn spec_repo_basename(s: Seq<char>) -> Seq<char> {
    let last = spec_after_last_slash(s);
    if last.len() > 4 && last.skip(last.len() - 4) == seq!['.', 'g', 'i', 't'] {
        last.take(last.len() - 4)
    } else {
        last
    }
}

/// The default local/media name derived from a remote relative path.
pub fn repo_basename(remote_rel: &str) -> (r: String)
    ensures
        r@ == spec_repo_basename(remote_rel@),
{
    let last = after_last_slash(remote_rel);
    let n = last.unicode_len();
    proof {
        reveal_strlit(".git");
        assert(".git"@ =~= seq!['.', 'g', 'i', 't']);
    }
    if n > 4 && ends_with_str(last, ".git") {
        let r = last.substring_char(0, n - 4);
        proof {
            assert(r@ =~= last@.take(last@.len() - 4));
        }
        r.to_owned()
    } else {
        last.to_owned()
    }
}

/// The raw triple extracted from one declaration line, before base-directory
/// qualification.
#[derive(Debug, Clone)]
pub struct RepoSpec {
    /// Remote path relative to the remote directory.
    pub remote_rel: String,
    /// Local working-copy path relative to the local directory.
    pub local_rel: String,
    /// Media path relative to the media directory.
    pub media_rel: String,
}

/// Cell `i` of a declaration line when present and non-empty; the remote's
/// basename otherwise.
pub open spec fn spec_component_or_basename(cells: Seq<Seq<char>>, i: int) -> Seq<char> {
    if cells.len() > i && cells[i].len() > 0 {
        cells[i]
    } else {
        spec_repo_basename(cells[0])
    }
}

/// Extract the raw repository path components from a declaration line's
/// cells.  The first cell is the remote relative path; the second and third,
/// when present and non-empty, override the local and media relative paths,
/// which otherwise default to the remote's basename.
pub fn extract_repo_paths(cells: &Vec<String>) -> (r: RepoSpec)
    requires
        cells@.len() >= 1,
    ensures
        r.remote_rel@ == cells.deep_view()[0],
        r.local_rel@ == spec_component_or_basename(cells.deep_view(), 1),
        r.media_rel@ == spec_component_or_basename(cells.deep_view(), 2),
{
    proof {
        assert(cells.deep_view()[0] == cells@[0]@);
    }
    let remote_rel = cells[0].clone();
    let local_rel = if cells.len() > 1 && cells[1].as_str().unicode_len() > 0 {
        proof {
            assert(cells.deep_view()[1] == cells@[1]@);
        }
        cells[1].clone()
    } else {
        proof {
            if cells@.len() > 1 {
                assert(cells.deep_view()[1] == cells@[1]@);
            }
        }
        repo_basename(cells[0].as_str())
    };
    let media_rel = if cells.len() > 2 && cells[2].as_str().unicode_len() > 0 {
        proof {
            assert(cells.deep_view()[2] == cells@[2]@);
        }
        cells[2].clone()
    } else {
        proof {
            if cells@.len() > 2 {
                assert(cells.deep_view()[2] == cells@[2]@);
            }
        }
        repo_basename(cells[0].as_str())
    };
    RepoSpec { remote_rel, local_rel, media_rel }
}

/// Generate a complete remote repository path by combining the remote
/// directory and the relative path.
pub fn get_remote_repo_path(config: &Config, repo_path: Option<&str>) -> (r: String)
    ensures
        r@ == spec_cat_paths(
            config@.remote_dir,
            match repo_path {
                Some(p) => p@,
                None => Seq::empty(),
            },
        ),
{
    match repo_path {
        Some(p) => cat_paths(config.remote_dir.as_str(), p),
        None => {
            proof {
                reveal_strlit("");
                assert(""@ =~= Seq::<char>::empty());
            }
            cat_paths(config.remote_dir.as_str(), "")
        },
    }
}

/// Generate a complete media repository path by combining the media
/// directory and the relative path.
pub fn get_media_repo_path(config: &Config, repo_path: Option<&str>) -> (r: String)
    ensures
        r@ == spec_cat_paths(
            config@.gm_dir,
            match repo_path {
                Some(p) => p@,
                None => Seq::empty(),
            },
        ),
{
    match repo_path {
        Some(p) => cat_paths(config.gm_dir.as_str(), p),
        None => {
            proof {
                reveal_strlit("");
                assert(""@ =~= Seq::<char>::empty());
            }
            cat_paths(config.gm_dir.as_str(), "")
        },
    }
}

/// Generate a complete local repository path by combining the local
/// directory and the relative path.
pub fn get_local_repo_path(config: &Config, repo_path: Option<&str>) -> (r: String)
    ensures
        r@ == spec_cat_paths(
            config@.local_dir,
            match repo_path {
                Some(p) => p@,
                None => Seq::empty(),
            },
        ),
{
    match repo_path {
        Some(p) => cat_paths(config.local_dir.as_str(), p),
        None => {
            proof {
                reveal_strlit("");
                assert(""@ =~= Seq::<char>::empty());
            }
            cat_paths(config.local_dir.as_str(), "")
        },
    }
}

/// Qualify the three raw components against their base directories: the
/// remote against the remote directory and then the remote path base, the
/// local against the local directory, the media against the media directory.
pub fn qualify_repo_paths(config: &Config, remote: &str, local: &str, media: &str) -> (r: (
    String,
    String,
    String,
))
    ensures
        r.0@ == spec_cat_paths(config@.rpath_base, spec_cat_paths(config@.remote_dir, remote@)),
        r.1@ == spec_cat_paths(config@.local_dir, local@),
        r.2@ == spec_cat_paths(config@.gm_dir, media@),
{
    let qualified_remote = cat_paths(
        config.rpath_base.as_str(),
        cat_paths(config.remote_dir.as_str(), remote).as_str(),
    );
    (
        qualified_remote,
        cat_paths(config.local_dir.as_str(), local),
        cat_paths(config.gm_dir.as_str(), media),
    )
}

/// Whether a repository passes the tree filter: an empty filter passes
/// everything; otherwise the absolute local path must contain the filter as
/// a substring, both normalized to forward slashes.  This is deliberately a
/// substring test, not a prefix test.
pub open spec fn spec_passes_tree_filter(filter: Seq<char>, abs_local: Seq<char>) -> bool {
    filter.len() == 0 || spec_contains_str(spec_slashed(abs_local), spec_slashed(filter))
}

/// Check whether a repository's absolute local path passes the tree filter.
/// The caller supplies the path already made absolute against the working
/// directory.
pub fn passes_tree_filter(tree_filter: &str, abs_local_path: &str) -> (r: bool)
    ensures
        r == spec_passes_tree_filter(tree_filter@, abs_local_path@),
{
    if tree_filter.is_empty() {
        return true;
    }
    let abs = to_forward_slashes(abs_local_path);
    let filt = to_forward_slashes(tree_filter);
    contains_str(abs.as_str(), filt.as_str())
}

} // verus!
