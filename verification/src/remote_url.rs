//! Construction of git clone/fetch URLs from a login setting, a remote path
//! base and a repository path.
//!
//! Three shapes arise: no login gives a bare path; a `scheme://host` login
//! gives an explicit-scheme URL; a bareword login (`user@host`) gives
//! SCP-style SSH syntax (`login:base/path`).  HTTP and HTTPS URLs are
//! additionally normalized through the `gix_url` parser when it accepts them.

use crate::strutil::{
    find_str, push_char, spec_find, spec_trim_end_slash, spec_trim_slash, spec_trim_start_slash,
    str_eq, trim_end_slash, trim_slash, trim_start_slash,
};
use vstd::prelude::*;
use vstd::string::StrSliceExecFns;
use vstd::string::StringExecFns;

verus! {

/// What `gix_url::parse` makes of a URL text: whether it accepts it.
pub uninterp spec fn gix_url_accepts(s: Seq<char>) -> bool;

/// The rendering of the URL that `gix_url::parse` yields for this text.
pub uninterp spec fn gix_url_rendered(s: Seq<char>) -> Seq<char>;

/// Relies on `gix_url::parse` and the `Display` form of `gix_url::Url`.
/// Both are functions of the input text alone; the rendering serializes the
/// parsed URL's components and redacts any password.
#[verifier::external_body]
fn gix_normalize_url(url: &str) -> (r: Option<String>)
    ensures
        r is Some <==> gix_url_accepts(url@),
        r matches Some(s) ==> s@ == gix_url_rendered(url@),
{
    match gix_url::parse(url) {
        Ok(parsed) => Some(parsed.to_string()),
        Err(_) => None,
    }
}

/// Remove backslash escapes: each backslash makes the character after it
/// literal; a lone trailing backslash stays as it is.
pub open spec fn spec_unescape_backslashes(s: Seq<char>) -> Seq<char>
    decreases s.len(),
{
    if s.len() == 0 {
        s
    } else if s[0] == '\\' {
        if s.len() >= 2 {
            seq![s[1]] + spec_unescape_backslashes(s.skip(2))
        } else {
            seq!['\\']
        }
    } else {
        seq![s[0]] + spec_unescape_backslashes(s.skip(1))
    }
}

/// Unescape backslash sequences in a string: removes each backslash,
/// treating the character after it as a literal.
pub fn unescape_backslashes(s: &str) -> (r: String)
    ensures
        r@ == spec_unescape_backslashes(s@),
    decreases s@.len(),
{
    let n = s.unicode_len();
    if n == 0 {
        return String::new();
    }
    let c = s.get_char(0);
    if c == '\\' {
        if n >= 2 {
            let e = s.get_char(1);
            proof {
                assert(s@.subrange(2, n as int) =~= s@.skip(2));
            }
            let tail = unescape_backslashes(s.substring_char(2, n));
            let mut out = String::new();
            push_char(&mut out, e);
            out.append(tail.as_str());
            proof {
                assert(out@ =~= seq![s@[1]] + tail@);
            }
            out
        } else {
            let mut out = String::new();
            push_char(&mut out, '\\');
            proof {
                assert(out@ =~= seq!['\\']);
            }
            out
        }
    } else {
        proof {
            assert(s@.subrange(1, n as int) =~= s@.skip(1));
        }
        let tail = unescape_backslashes(s.substring_char(1, n));
        let mut out = String::new();
        push_char(&mut out, c);
        out.append(tail.as_str());
        proof {
            assert(out@ =~= seq![s@[0]] + tail@);
        }
        out
    }
}

/// Normalize a path for use in URLs: unescape any backslash-escaped
/// characters.
pub fn normalize_path(path: &str) -> (r: String)
    ensures
        r@ == spec_unescape_backslashes(path@),
{
    unescape_backslashes(path)
}

/// Join two URL path segments with `/`, yielding the other segment when one
/// is empty.
pub open spec fn spec_url_join(a: Seq<char>, b: Seq<char>) -> Seq<char> {
    if a.len() == 0 {
        b
    } else if b.len() == 0 {
        a
    } else {
        a + seq!['/'] + b
    }
}

fn url_join(a: &str, b: &str) -> (out: String)
    ensures
        out@ == spec_url_join(a@, b@),
{
    if a.is_empty() {
        return b.to_owned();
    }
    if b.is_empty() {
        return a.to_owned();
    }
    let mut out = a.to_owned();
    push_char(&mut out, '/');
    out.append(b);
    proof {
        assert(out@ =~= a@ + seq!['/'] + b@);
    }
    out
}

/// The URL that `build_remote_url` constructs.
///
/// No login: the trimmed base and path joined.  A login holding `://`:
/// `scheme://domain/base/path`, normalized through `gix_url` for HTTP and
/// HTTPS when the parser accepts it.  A bareword login: `login:base/path`
/// (SCP-style SSH syntax).
pub open spec fn spec_build_remote_url(
    rlogin: Seq<char>,
    remote_dir: Seq<char>,
    repo_path: Seq<char>,
) -> Seq<char> {
    if rlogin.len() == 0 {
        spec_url_join(spec_trim_end_slash(remote_dir), spec_trim_start_slash(repo_path))
    } else {
        let login = spec_trim_end_slash(rlogin);
        match spec_find(login, "://"@) {
            Some(i) => {
                let proto = login.take(i);
                let domain = spec_trim_end_slash(login.skip(i + 3));
                let tail = spec_url_join(
                    spec_trim_slash(remote_dir),
                    spec_trim_start_slash(repo_path),
                );
                let full = proto + "://"@ + spec_url_join(domain, tail);
                if proto == "http"@ || proto == "https"@ {
                    if gix_url_accepts(full) {
                        gix_url_rendered(full)
                    } else {
                        full
                    }
                } else {
                    full
                }
            },
            None => login + seq![':'] + spec_url_join(
                spec_trim_slash(remote_dir),
                spec_trim_start_slash(repo_path),
            ),
        }
    }
}

/// Build a git clone/fetch URL from components.
///
/// * `rlogin` - optional remote login info (e.g. `user@host` or
///   `https://github.com`)
/// * `remote_dir` - remote directory path
/// * `repo_path` - repository path
pub fn build_remote_url(rlogin: &str, remote_dir: &str, repo_path: &str) -> (r: String)
    ensures
        r@ == spec_build_remote_url(rlogin@, remote_dir@, repo_path@),
{
    if rlogin.is_empty() {
        return url_join(trim_end_slash(remote_dir), trim_start_slash(repo_path));
    }
    let login = trim_end_slash(rlogin);
    let n = login.unicode_len();
    proof {
        reveal_strlit("://");
    }
    match find_str(login, "://") {
        Some(i) => {
            proof {
                crate::strutil::lemma_spec_find_bounds(login@, "://"@);
            }
            let proto = login.substring_char(0, i);
            let domain = trim_end_slash(login.substring_char(i + 3, n));
            let tail = url_join(trim_slash(remote_dir), trim_start_slash(repo_path));
            let mut full = proto.to_owned();
            full.append("://");
            full.append(url_join(domain, tail.as_str()).as_str());
            proof {
                assert(proto@ =~= login@.take(i as int));
                assert(login@.subrange(i + 3, n as int) =~= login@.skip(i + 3));
            }
            if str_eq(proto, "http") || str_eq(proto, "https") {
                match gix_normalize_url(full.as_str()) {
                    Some(u) => u,
                    None => full,
                }
            } else {
                full
            }
        },
        None => {
            let tail = url_join(trim_slash(remote_dir), trim_start_slash(repo_path));
            let mut out = login.to_owned();
            push_char(&mut out, ':');
            out.append(tail.as_str());
            proof {
                assert(out@ =~= login@ + seq![':'] + tail@);
            }
            out
        },
    }
}

/// The remote URL for one declared repository: its remote-directory-relative
/// path behind the configured login and remote path base.
pub open spec fn spec_get_remote_url(
    m: crate::config::ConfigModel,
    remote_rel_path: Seq<char>,
) -> Seq<char> {
    spec_build_remote_url(
        m.rlogin,
        m.rpath_base,
        crate::paths::spec_cat_paths(m.remote_dir, remote_rel_path),
    )
}

/// Get the formatted remote URL for a repository's remote-directory-relative
/// path, based on the configuration's login, remote path base and remote
/// directory.
pub fn get_remote_url(config: &crate::config::Config, remote_rel_path: &str) -> (r: String)
    ensures
        r@ == spec_get_remote_url(config@, remote_rel_path@),
{
    let full_repo_path = crate::paths::cat_paths(config.remote_dir.as_str(), remote_rel_path);
    build_remote_url(
        config.rlogin.as_str(),
        config.rpath_base.as_str(),
        full_repo_path.as_str(),
    )
}

} // verus!
