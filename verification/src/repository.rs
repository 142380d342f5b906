//! Per-repository decisions: the resolved repository record, the set-remote
//! fallback, the preflight checks and exit-code protocol of remote creation,
//! the configure-command line, and git argument splitting.
//!
//! The process invocations themselves (git, ssh, the shell) happen outside
//! the library; these functions decide what to run and how to read what came
//! back.

use crate::config::ConfigModel;
use crate::strutil::{
    is_space, is_space_char, push_char, spec_ends_with, spec_starts_with, starts_with_str,
};
use vstd::prelude::*;
use vstd::string::StrSliceExecFns;
use vstd::string::StringExecFns;

verus! {

/// The mathematical model of a resolved repository record: each path as its
/// character sequence.
pub struct RepoTripleModel {
    pub remote_path: Seq<char>,
    pub remote_url: Seq<char>,
    pub local_path: Seq<char>,
    pub media_path: Seq<char>,
}

/// One declared repository, fully resolved: the qualified remote repository
/// path, the clone/fetch URL, the local working-copy path and the media
/// path.
#[derive(Debug, Clone)]
pub struct RepoTriple {
    /// Qualified path of the repository on the remote side.
    pub remote_path: String,
    /// URL to clone from and fetch over.
    pub remote_url: String,
    /// Local working-copy path.
    pub local_path: String,
    /// Media/side path handed to the configure command.
    pub media_path: String,
}

impl View for RepoTriple {
    type V = RepoTripleModel;

    open spec fn view(&self) -> RepoTripleModel {
        RepoTripleModel {
            remote_path: self.remote_path@,
            remote_url: self.remote_url@,
            local_path: self.local_path@,
            media_path: self.media_path@,
        }
    }
}

impl RepoTriple {
    /// Assemble a resolved repository record from its four paths.
    pub fn new(remote_path: &str, local_path: &str, media_path: &str, remote_url: &str) -> (r:
        Self)
        ensures
            r@.remote_path == remote_path@,
            r@.local_path == local_path@,
            r@.media_path == media_path@,
            r@.remote_url == remote_url@,
    {
        RepoTriple {
            remote_path: remote_path.to_owned(),
            remote_url: remote_url.to_owned(),
            local_path: local_path.to_owned(),
            media_path: media_path.to_owned(),
        }
    }
}

/// What follows an attempt to update the `origin` remote's URL.
#[derive(Debug, Clone, Copy, PartialEq, Eq, Structural)]
pub enum RemoteUpdate {
    /// The remote URL was set; nothing more to do.
    Converged,
    /// The remote does not exist: add it instead of erroring.
    AddRemote,
    /// The update failed with this exit status.
    Failed(i32),
}

/// The follow-up that a `git remote set-url origin` exit status calls for:
/// status 0 converged, status 2 (no such remote) falls back to adding the
/// remote, and any other status is a failure.
pub open spec fn spec_set_remote_followup(status: i32) -> RemoteUpdate {
    if status == 0 {
        RemoteUpdate::Converged
    } else if status == 2 {
        RemoteUpdate::AddRemote
    } else {
        RemoteUpdate::Failed(status)
    }
}

/// Decide what follows a `git remote set-url origin` exit status.  A missing
/// `origin` remote (status 2) is never an error: the remote is added instead.
pub fn set_remote_followup(status: i32) -> (r: RemoteUpdate)
    ensures
        r == spec_set_remote_followup(status),
{
    if status == 0 {
        RemoteUpdate::Converged
    } else if status == 2 {
        RemoteUpdate::AddRemote
    } else {
        RemoteUpdate::Failed(status)
    }
}

/// Faults that stop remote creation before anything runs.
#[derive(Debug, Clone, Copy, PartialEq, Eq, Structural)]
pub enum CreateRemoteError {
    /// `RPATH_TEMPLATE` is not set in the configuration.
    MissingTemplate,
    /// `RLOGIN` is not set in the configuration.
    MissingLogin,
    /// `RLOGIN` is not of the form `ssh://[user@]host`.
    LoginNotSsh,
}

/// What remote creation needs: the host to reach over ssh and the target
/// path of the repository on it.
#[derive(Debug, Clone)]
pub struct CreateRemotePlan {
    /// Host (with optional user) parsed from the login setting.
    pub ssh_host: String,
    /// Remote repository path, with a `.git` suffix enforced.
    pub target_path: String,
}

/// `p` with a `.git` suffix enforced.
pub open spec fn spec_ensure_git_suffix(p: Seq<char>) -> Seq<char> {
    if spec_ends_with(p, seq!['.', 'g', 'i', 't']) {
        p
    } else {
        p + seq!['.', 'g', 'i', 't']
    }
}

/// The preflight decision for creating a remote repository: the template and
/// login settings must be present, the login must name an ssh host, and the
/// target path takes a `.git` suffix unless it has one.
pub open spec fn spec_create_remote_preflight(m: ConfigModel, remote_path: Seq<char>) -> Result<
    (Seq<char>, Seq<char>),
    CreateRemoteError,
> {
    if m.rpath_template.len() == 0 {
        Err(CreateRemoteError::MissingTemplate)
    } else if m.rlogin.len() == 0 {
        Err(CreateRemoteError::MissingLogin)
    } else if spec_starts_with(m.rlogin, "ssh://"@) {
        Ok((m.rlogin.skip("ssh://"@.len() as int), spec_ensure_git_suffix(remote_path)))
    } else {
        Err(CreateRemoteError::LoginNotSsh)
    }
}

/// Check the configuration before creating a remote repository and compute
/// the ssh host and the target path.
pub fn create_remote_preflight(config: &crate::config::Config, remote_path: &str) -> (r: Result<
    CreateRemotePlan,
    CreateRemoteError,
>)
    ensures
        match r {
            Ok(plan) => spec_create_remote_preflight(config@, remote_path@) == Ok::<
                _,
                CreateRemoteError,
            >((plan.ssh_host@, plan.target_path@)),
            Err(e) => spec_create_remote_preflight(config@, remote_path@) == Err::<
                (Seq<char>, Seq<char>),
                _,
            >(e),
        },
{
    if config.rpath_template.as_str().is_empty() {
        return Err(CreateRemoteError::MissingTemplate);
    }
    if config.rlogin.as_str().is_empty() {
        return Err(CreateRemoteError::MissingLogin);
    }
    if !starts_with_str(config.rlogin.as_str(), "ssh://") {
        return Err(CreateRemoteError::LoginNotSsh);
    }
    proof {
        reveal_strlit("ssh://");
    }
    let n = config.rlogin.as_str().unicode_len();
    let host = config.rlogin.as_str().substring_char(6, n);
    proof {
        assert(host@ =~= config@.rlogin.skip(6));
    }
    let target = ensure_git_suffix(remote_path);
    Ok(CreateRemotePlan { ssh_host: host.to_owned(), target_path: target })
}

/// Append `.git` to `p` unless it already ends with it.
pub fn ensure_git_suffix(p: &str) -> (r: String)
    ensures
        r@ == spec_ensure_git_suffix(p@),
{
    proof {
        reveal_strlit(".git");
        assert(".git"@ =~= seq!['.', 'g', 'i', 't']);
    }
    if crate::strutil::ends_with_str(p, ".git") {
        p.to_owned()
    } else {
        let mut out = p.to_owned();
        out.append(".git");
        proof {
            assert(out@ =~= p@ + seq!['.', 'g', 'i', 't']);
        }
        out
    }
}

/// Exit status of the remote-creation script: the target directory exists
/// but is not a repository.
pub const CREATE_EXIT_NOT_REPO: i32 = 90;

/// Exit status of the remote-creation script: the target exists as a regular
/// file.
pub const CREATE_EXIT_IS_FILE: i32 = 91;

/// Exit status of the remote-creation script: the target exists as some
/// other file type.
pub const CREATE_EXIT_OTHER_FILETYPE: i32 = 92;

/// How a remote-creation attempt ended.
#[derive(Debug, Clone, Copy, PartialEq, Eq, Structural)]
pub enum CreateRemoteOutcome {
    /// The remote exists as a repository now (found or created).
    Created,
    /// The target directory exists but is not a git repository.
    TargetNotRepo,
    /// The target path exists as a regular file.
    TargetIsFile,
    /// The target path exists as a special file (device, pipe, socket or
    /// symlink).
    TargetSpecialFile,
    /// The script failed some other way, or was ended by a signal.
    Failed,
}

/// The classification the remote-creation script signals through its exit
/// status: 0 created or already a repository, distinct statuses for each
/// kind of obstruction, anything else a plain failure.
pub open spec fn spec_classify_create_exit(code: Option<i32>) -> CreateRemoteOutcome {
    match code {
        Some(c) => if c == 0 {
            CreateRemoteOutcome::Created
        } else if c == CREATE_EXIT_NOT_REPO {
            CreateRemoteOutcome::TargetNotRepo
        } else if c == CREATE_EXIT_IS_FILE {
            CreateRemoteOutcome::TargetIsFile
        } else if c == CREATE_EXIT_OTHER_FILETYPE {
            CreateRemoteOutcome::TargetSpecialFile
        } else {
            CreateRemoteOutcome::Failed
        },
        None => CreateRemoteOutcome::Failed,
    }
}

/// Classify the remote-creation script's exit status.
pub fn classify_create_exit(code: Option<i32>) -> (r: CreateRemoteOutcome)
    ensures
        r == spec_classify_create_exit(code),
{
    match code {
        Some(c) => {
            if c == 0 {
                CreateRemoteOutcome::Created
            } else if c == CREATE_EXIT_NOT_REPO {
                CreateRemoteOutcome::TargetNotRepo
            } else if c == CREATE_EXIT_IS_FILE {
                CreateRemoteOutcome::TargetIsFile
            } else if c == CREATE_EXIT_OTHER_FILETYPE {
                CreateRemoteOutcome::TargetSpecialFile
            } else {
                CreateRemoteOutcome::Failed
            }
        },
        None => CreateRemoteOutcome::Failed,
    }
}

/// Whether a fresh checkout is owed after remote creation: only when the
/// user confirmed the creation and the local tree had no repository before.
pub fn checkout_after_create(confirmed: bool, was_repo: bool) -> (r: bool)
    ensures
        r == (confirmed && !was_repo),
{
    confirmed && !was_repo
}

/// Characters the unix shell escaper passes through without quoting.
pub open spec fn spec_shell_safe_char(c: char) -> bool {
    ('a' <= c && c <= 'z') || ('A' <= c && c <= 'Z') || ('0' <= c && c <= '9') || c == '-' || c
        == '_' || c == '=' || c == '/' || c == ',' || c == '.' || c == '+'
}

/// Whether every character of `s` is shell-safe.
pub open spec fn spec_all_shell_safe(s: Seq<char>) -> bool {
    forall|i: int| 0 <= i < s.len() ==> spec_shell_safe_char(s[i])
}

/// The quoted body of a shell-escaped string: `'` and `!` are closed out of
/// the quotes, backslash-escaped and reopened.
pub open spec fn spec_shell_escape_inner(s: Seq<char>) -> Seq<char>
    decreases s.len(),
{
    if s.len() == 0 {
        s
    } else {
        (if s[0] == '\'' || s[0] == '!' {
            seq!['\'', '\\', s[0], '\'']
        } else {
            seq![s[0]]
        }) + spec_shell_escape_inner(s.skip(1))
    }
}

/// A string escaped for the unix shell: a non-empty all-safe string passes
/// unchanged; anything else is wrapped in single quotes around the escaped
/// body.
pub open spec fn spec_shell_escape_unix(s: Seq<char>) -> Seq<char> {
    if s.len() > 0 && spec_all_shell_safe(s) {
        s
    } else {
        seq!['\''] + spec_shell_escape_inner(s) + seq!['\'']
    }
}

/// Relies on `shell_escape::unix::escape`: a non-empty string of whitelisted
/// characters is returned unchanged; anything else is wrapped in single
/// quotes, with each `'` or `!` closed out of the quotes, backslash-escaped
/// and reopened.
#[verifier::external_body]
fn shell_escape_unix(s: &str) -> (r: String)
    ensures
        r@ == spec_shell_escape_unix(s@),
{
    shell_escape::unix::escape(std::borrow::Cow::from(s)).into_owned()
}

/// The full configure invocation for one repository: the configured command
/// with the media path appended as a single shell-escaped argument.  An
/// empty command means there is nothing to run.
pub open spec fn spec_build_config_command(config_cmd: Seq<char>, media_path: Seq<char>) -> Option<
    Seq<char>,
> {
    if config_cmd.len() == 0 {
        None
    } else {
        Some(config_cmd + seq![' '] + spec_shell_escape_unix(media_path))
    }
}

/// Build the command line that configures one repository: the configured
/// command string with the media path appended as one shell-escaped
/// argument.  `None` when no command is configured.
pub fn build_config_command(config_cmd: &str, media_path: &str) -> (r: Option<String>)
    ensures
        match r {
            Some(cmd) => spec_build_config_command(config_cmd@, media_path@) == Some(cmd@),
            None => spec_build_config_command(config_cmd@, media_path@) is None,
        },
{
    if config_cmd.is_empty() {
        return None;
    }
    let escaped = shell_escape_unix(media_path);
    let mut out = config_cmd.to_owned();
    push_char(&mut out, ' ');
    out.append(escaped.as_str());
    proof {
        assert(out@ =~= config_cmd@ + seq![' '] + escaped@);
    }
    Some(out)
}

/// `s` after its leading whitespace.
pub open spec fn spec_skip_spaces(s: Seq<char>) -> Seq<char>
    decreases s.len(),
{
    if s.len() > 0 && is_space(s[0]) {
        spec_skip_spaces(s.skip(1))
    } else {
        s
    }
}

/// `s` without its trailing whitespace.
pub open spec fn spec_trim_end_spaces(s: Seq<char>) -> Seq<char>
    decreases s.len(),
{
    if s.len() > 0 && is_space(s[s.len() - 1]) {
        spec_trim_end_spaces(s.drop_last())
    } else {
        s
    }
}

fn trim_end_spaces<'a>(s: &'a str) -> (r: &'a str)
    ensures
        r@ == spec_trim_end_spaces(s@),
    decreases s@.len(),
{
    let n = s.unicode_len();
    if n > 0 && is_space_char(s.get_char(n - 1)) {
        proof {
            assert(s@.subrange(0, n - 1) =~= s@.drop_last());
        }
        trim_end_spaces(s.substring_char(0, n - 1))
    } else {
        s
    }
}

/// Whether the repository-root probe's output names the git metadata
/// directory directly beneath the inspected directory: its trimmed text is
/// exactly `.git`.  Anything else (an ancestor's absolute metadata path)
/// means the directory lies inside a repository without being its root.
pub open spec fn spec_is_repo_root_output(s: Seq<char>) -> bool {
    spec_trim_end_spaces(spec_skip_spaces(s)) == ".git"@
}

/// Read the output of `git rev-parse --git-dir`: the inspected directory is
/// a repository root exactly when the trimmed output is `.git`.
pub fn is_repo_root_output(git_dir_output: &str) -> (r: bool)
    ensures
        r == spec_is_repo_root_output(git_dir_output@),
{
    let t = trim_end_spaces(skip_spaces(git_dir_output));
    crate::strutil::str_eq(t, ".git")
}

/// The longest whitespace-free prefix of `s`.
pub open spec fn spec_take_word(s: Seq<char>) -> Seq<char>
    decreases s.len(),
{
    if s.len() > 0 && !is_space(s[0]) {
        seq![s[0]] + spec_take_word(s.skip(1))
    } else {
        Seq::empty()
    }
}

/// `s` after its longest whitespace-free prefix.
pub open spec fn spec_drop_word(s: Seq<char>) -> Seq<char>
    decreases s.len(),
{
    if s.len() > 0 && !is_space(s[0]) {
        spec_drop_word(s.skip(1))
    } else {
        s
    }
}

pub proof fn lemma_split_words_progress(s: Seq<char>)
    ensures
        spec_skip_spaces(s).len() <= s.len(),
        spec_skip_spaces(s).len() > 0 ==> !is_space(spec_skip_spaces(s)[0]),
        spec_drop_word(s).len() <= s.len(),
        s.len() > 0 && !is_space(s[0]) ==> spec_drop_word(s).len() < s.len(),
    decreases s.len(),
{
    if s.len() > 0 {
        lemma_split_words_progress(s.skip(1));
    }
}

/// The whitespace-separated words of `s`, in order.
pub open spec fn spec_split_whitespace(s: Seq<char>) -> Seq<Seq<char>>
    decreases s.len(),
    via spec_split_whitespace_decreases
{
    let t = spec_skip_spaces(s);
    if t.len() == 0 {
        Seq::empty()
    } else {
        seq![spec_take_word(t)] + spec_split_whitespace(spec_drop_word(t))
    }
}

#[via_fn]
proof fn spec_split_whitespace_decreases(s: Seq<char>) {
    lemma_split_words_progress(s);
    lemma_split_words_progress(spec_skip_spaces(s));
}

fn skip_spaces<'a>(s: &'a str) -> (r: &'a str)
    ensures
        r@ == spec_skip_spaces(s@),
    decreases s@.len(),
{
    let n = s.unicode_len();
    if n > 0 && is_space_char(s.get_char(0)) {
        proof {
            assert(s@.subrange(1, n as int) =~= s@.skip(1));
        }
        skip_spaces(s.substring_char(1, n))
    } else {
        s
    }
}

fn take_word<'a>(s: &'a str) -> (r: (String, &'a str))
    ensures
        r.0@ == spec_take_word(s@),
        r.1@ == spec_drop_word(s@),
    decreases s@.len(),
{
    let n = s.unicode_len();
    if n > 0 && !is_space_char(s.get_char(0)) {
        let c = s.get_char(0);
        proof {
            assert(s@.subrange(1, n as int) =~= s@.skip(1));
        }
        let (tail, rest) = take_word(s.substring_char(1, n));
        let mut word = String::new();
        push_char(&mut word, c);
        word.append(tail.as_str());
        proof {
            assert(word@ =~= seq![s@[0]] + tail@);
        }
        (word, rest)
    } else {
        (String::new(), s)
    }
}

/// Split a git argument string into individual whitespace-separated
/// arguments, as they are handed to the git invocation.
pub fn split_git_args(args_str: &str) -> (r: Vec<String>)
    ensures
        r.deep_view() == spec_split_whitespace(args_str@),
    decreases args_str@.len(),
{
    proof {
        lemma_split_words_progress(args_str@);
        lemma_split_words_progress(spec_skip_spaces(args_str@));
    }
    let t = skip_spaces(args_str);
    if t.unicode_len() == 0 {
        let r: Vec<String> = Vec::new();
        proof {
            assert(r.deep_view() =~= Seq::<Seq<char>>::empty());
        }
        return r;
    }
    let (word, rest) = take_word(t);
    let mut words = split_git_args(rest);
    words.insert(0, word);
    proof {
        assert(words.deep_view() =~= seq![spec_take_word(t@)] + spec_split_whitespace(
            spec_drop_word(t@),
        ));
    }
    words
}

} // verus!
