//! The repository reconciliation engine.
//!
//! For one declared repository the engine inspects the recorded local state
//! and the operation set and decides, in order: how the repository comes to
//! exist locally (use it as found, clone it, create it, or stop with an
//! error), and then which post-actions run once it is a repository — a
//! listing short-circuits everything else; otherwise configure, set-remote,
//! checkout (only when owed) and git follow in that fixed order.  Creation
//! and cloning always precede the post-actions, and checkout always follows
//! remote wiring.
//!
//! The engine also classifies listfile lines: a configuration line mutates
//! the cascading configuration; a declaration line resolves to a repository
//! record for the caller to reconcile.

use crate::config::{spec_set_value, Config, ConfigModel};
use crate::mode::Operations;
use crate::paths::{
    extract_repo_paths, qualify_repo_paths, spec_cat_paths, spec_component_or_basename,
};
use crate::remote_url::{get_remote_url, spec_get_remote_url};
use crate::repository::{spec_set_remote_followup, RemoteUpdate, RepoTriple, RepoTripleModel};
use vstd::prelude::*;
use vstd::string::StrSliceExecFns;

verus! {

/// The state of a declared repository's local path, recomputed once per
/// repository per invocation.
#[derive(Debug, Clone, Copy, PartialEq, Eq, Structural)]
pub enum RepoState {
    /// The local path does not exist.
    Missing,
    /// The local path exists but is not a directory: terminal, always an
    /// error.
    File,
    /// The local path is a directory but not the root of a git working tree.
    Directory,
    /// The local path is exactly the root of a git working tree.
    Repo,
}

/// Why reconciliation of one repository stops before any action.
#[derive(Debug, Clone, Copy, PartialEq, Eq, Structural)]
pub enum ReconcileError {
    /// The local path exists but is not a directory.
    NotADirectory,
    /// The local path is missing and cloning was not requested.
    MissingNotCloned,
    /// The local path is a plain directory and creation was not requested.
    NotARepository,
}

/// How a repository comes to exist locally.
#[derive(Debug, Clone, Copy, PartialEq, Eq, Structural)]
pub enum ExistenceAction {
    /// The local path is already the declared repository.
    UseExisting,
    /// Clone it from the remote URL, without a checkout.
    CloneRepo,
    /// Create the remote and initialize the local tree in place.
    CreateNew,
}

/// The existence decision: a file is a terminal error; a missing path is
/// cloned exactly when cloning was requested; a plain directory is promoted
/// exactly when creation was requested; a repository is used as it stands.
pub open spec fn spec_existence_decision(ops: Operations, state: RepoState) -> Result<
    ExistenceAction,
    ReconcileError,
> {
    match state {
        RepoState::File => Err(ReconcileError::NotADirectory),
        RepoState::Missing => if ops.clone {
            Ok(ExistenceAction::CloneRepo)
        } else {
            Err(ReconcileError::MissingNotCloned)
        },
        RepoState::Directory => if ops.new {
            Ok(ExistenceAction::CreateNew)
        } else {
            Err(ReconcileError::NotARepository)
        },
        RepoState::Repo => Ok(ExistenceAction::UseExisting),
    }
}

/// Decide how the declared repository comes to exist locally, or which error
/// stops it.  No action is taken here; an `Err` means the repository is
/// reported and skipped, with no side effects.
pub fn existence_decision(ops: &Operations, state: RepoState) -> (r: Result<
    ExistenceAction,
    ReconcileError,
>)
    ensures
        r == spec_existence_decision(*ops, state),
{
    match state {
        RepoState::File => Err(ReconcileError::NotADirectory),
        RepoState::Missing => {
            if ops.clone {
                Ok(ExistenceAction::CloneRepo)
            } else {
                Err(ReconcileError::MissingNotCloned)
            }
        },
        RepoState::Directory => {
            if ops.new {
                Ok(ExistenceAction::CreateNew)
            } else {
                Err(ReconcileError::NotARepository)
            }
        },
        RepoState::Repo => Ok(ExistenceAction::UseExisting),
    }
}

/// One step of the shared post-action sequence.
#[derive(Debug, Clone, Copy, PartialEq, Eq, Structural)]
pub enum PostAction {
    /// Print the remote relative path and stop.
    PrintRemoteRel,
    /// Print the remote URL and stop.
    PrintRemoteUrl,
    /// Print the local path and stop.
    PrintLocalPath,
    /// Run the configure command with the media path.
    Configure,
    /// Update (or add) the `origin` remote URL.
    SetRemote,
    /// Populate the working tree from the newly wired remote.
    CheckOut,
    /// Run the user-supplied git arguments in the working directory.
    RunGit,
}

/// The shared post-action sequence, applied once a repository has reached
/// (or started as) `Repo`.  A listing operation prints its one line and
/// short-circuits everything else.  Otherwise: configure, then set-remote,
/// then checkout (only when owed), then git.
pub open spec fn spec_post_actions(ops: Operations, needs_checkout: bool) -> Seq<PostAction> {
    if ops.list_rrel {
        seq![PostAction::PrintRemoteRel]
    } else if ops.list_rurl {
        seq![PostAction::PrintRemoteUrl]
    } else if ops.list_lrel {
        seq![PostAction::PrintLocalPath]
    } else {
        (if ops.configure {
            seq![PostAction::Configure]
        } else {
            Seq::empty()
        }) + (if ops.set_remote {
            seq![PostAction::SetRemote]
        } else {
            Seq::empty()
        }) + (if needs_checkout {
            seq![PostAction::CheckOut]
        } else {
            Seq::empty()
        }) + (if ops.git {
            seq![PostAction::RunGit]
        } else {
            Seq::empty()
        })
    }
}

/// The post-actions owed to a repository that exists, in the order they run.
pub fn post_actions(ops: &Operations, needs_checkout: bool) -> (r: Vec<PostAction>)
    ensures
        r@ == spec_post_actions(*ops, needs_checkout),
{
    let mut r: Vec<PostAction> = Vec::new();
    if ops.list_rrel {
        r.push(PostAction::PrintRemoteRel);
        proof {
            assert(r@ =~= spec_post_actions(*ops, needs_checkout));
        }
        return r;
    }
    if ops.list_rurl {
        r.push(PostAction::PrintRemoteUrl);
        proof {
            assert(r@ =~= spec_post_actions(*ops, needs_checkout));
        }
        return r;
    }
    if ops.list_lrel {
        r.push(PostAction::PrintLocalPath);
        proof {
            assert(r@ =~= spec_post_actions(*ops, needs_checkout));
        }
        return r;
    }
    if ops.configure {
        r.push(PostAction::Configure);
    }
    if ops.set_remote {
        r.push(PostAction::SetRemote);
    }
    if needs_checkout {
        r.push(PostAction::CheckOut);
    }
    if ops.git {
        r.push(PostAction::RunGit);
    }
    proof {
        assert(r@ =~= spec_post_actions(*ops, needs_checkout));
    }
    r
}

/// Law: reconciliation is idempotent against a repository already in the
/// declared `Repo` state.  A second pass with the same operations decides to
/// use the existing repository (it never clones or creates), owes no
/// checkout, so its post sequence never holds a destructive checkout step;
/// configure reruns by design; and a set-remote whose update converged (exit
/// status 0) converges rather than erroring.
pub proof fn lemma_reconcile_idempotent(ops: Operations)
    ensures
        spec_existence_decision(ops, RepoState::Repo) == Ok::<ExistenceAction, ReconcileError>(
            ExistenceAction::UseExisting,
        ),
        forall|i: int|
            0 <= i < spec_post_actions(ops, false).len() ==> spec_post_actions(ops, false)[i]
                != PostAction::CheckOut,
        spec_set_remote_followup(0) == RemoteUpdate::Converged,
{
}

/// Law: checkout always follows remote wiring, never precedes it.  Wherever
/// a set-remote step and a checkout step both stand in one post sequence,
/// the set-remote stands first.
pub proof fn lemma_checkout_follows_remote_wiring(ops: Operations, needs_checkout: bool)
    ensures
        forall|i: int, j: int|
            0 <= i < spec_post_actions(ops, needs_checkout).len() && 0 <= j < spec_post_actions(
                ops,
                needs_checkout,
            ).len() && spec_post_actions(ops, needs_checkout)[i] == PostAction::SetRemote
                && spec_post_actions(ops, needs_checkout)[j] == PostAction::CheckOut ==> i < j,
{
}

/// Law: a listing operation short-circuits before any mutating step: its
/// post sequence is exactly one print action, whatever else the operation
/// set holds.
pub proof fn lemma_listing_short_circuits(ops: Operations, needs_checkout: bool)
    requires
        crate::mode::spec_is_listing(ops),
    ensures
        spec_post_actions(ops, needs_checkout).len() == 1,
        (spec_post_actions(ops, needs_checkout)[0] == PostAction::PrintRemoteRel
            || spec_post_actions(ops, needs_checkout)[0] == PostAction::PrintRemoteUrl
            || spec_post_actions(ops, needs_checkout)[0] == PostAction::PrintLocalPath),
{
}

/// The mathematical model of a resolved declaration: the qualified remote
/// path, the remote URL, and the qualified local and media paths that one
/// declaration line yields under a configuration.
pub open spec fn spec_resolve_repo(m: ConfigModel, cells: Seq<Seq<char>>) -> RepoTripleModel {
    RepoTripleModel {
        remote_path: spec_cat_paths(m.rpath_base, spec_cat_paths(m.remote_dir, cells[0])),
        remote_url: spec_get_remote_url(m, cells[0]),
        local_path: spec_cat_paths(m.local_dir, spec_component_or_basename(cells, 1)),
        media_path: spec_cat_paths(m.gm_dir, spec_component_or_basename(cells, 2)),
    }
}

/// Resolve one declaration line against the configuration: extract the raw
/// triple with defaulting, qualify each path against its base directory, and
/// build the remote URL from the unqualified remote relative path.
pub fn resolve_repo_entry(config: &Config, cells: &Vec<String>) -> (r: RepoTriple)
    requires
        cells@.len() >= 1,
        cells.deep_view()[0].len() > 0,
    ensures
        r@ == spec_resolve_repo(config@, cells.deep_view()),
{
    let raw = extract_repo_paths(cells);
    let (remote_path, local_path, media_path) = qualify_repo_paths(
        config,
        raw.remote_rel.as_str(),
        raw.local_rel.as_str(),
        raw.media_rel.as_str(),
    );
    let remote_url = get_remote_url(config, raw.remote_rel.as_str());
    RepoTriple::new(
        remote_path.as_str(),
        local_path.as_str(),
        media_path.as_str(),
        remote_url.as_str(),
    )
}

/// Whether a line's cells form a configuration override (`* KEY * VALUE`):
/// an empty first cell and at least three cells.
pub open spec fn spec_is_setting_line(cells: Seq<Seq<char>>) -> bool {
    cells.len() >= 3 && cells[0].len() == 0
}

/// Whether a line's cells are ignored in a listfile: nothing there, or a
/// configuration-shaped line too short to carry a key and value.  Listfiles
/// are lenient: such a line is skipped, never an error.
pub open spec fn spec_is_ignored_line(cells: Seq<Seq<char>>) -> bool {
    cells.len() == 0 || (cells[0].len() == 0 && cells.len() < 3)
}

/// Whether a line's cells declare a repository: a non-empty first cell.
pub open spec fn spec_is_declaration_line(cells: Seq<Seq<char>>) -> bool {
    cells.len() >= 1 && cells[0].len() > 0
}

/// Apply one listfile line to the cascading configuration, or resolve it.
///
/// A configuration line (`* KEY * VALUE`) mutates the configuration for all
/// subsequent declarations and yields nothing; a short configuration-shaped
/// line is ignored; a declaration line leaves the configuration as it is and
/// resolves to a repository record for the caller to reconcile.
pub fn apply_repo_line(config: &mut Config, cells: &Vec<String>) -> (r: Option<RepoTriple>)
    ensures
        spec_is_setting_line(cells.deep_view()) ==> final(config)@ == spec_set_value(
            old(config)@,
            cells.deep_view()[1],
            cells.deep_view()[2],
        ) && r is None,
        spec_is_ignored_line(cells.deep_view()) ==> final(config)@ == old(config)@ && r is None,
        spec_is_declaration_line(cells.deep_view()) ==> final(config)@ == old(config)@ && (
        r matches Some(t) && t@ == spec_resolve_repo(old(config)@, cells.deep_view())),
{
    if cells.len() == 0 {
        return None;
    }
    proof {
        assert(cells.deep_view()[0] == cells@[0]@);
    }
    if cells[0].as_str().unicode_len() == 0 {
        if cells.len() >= 3 {
            proof {
                assert(cells.deep_view()[1] == cells@[1]@);
                assert(cells.deep_view()[2] == cells@[2]@);
            }
            let value = cells[2].clone();
            config.set_from_string(cells[1].as_str(), value);
        }
        return None;
    }
    Some(resolve_repo_entry(config, cells))
}

} // verus!
