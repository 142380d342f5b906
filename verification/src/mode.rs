//! Operation modes: the single primary mode given on the command line and
//! the fixed bundle of boolean operations it activates.
//!
//! The mapping from mode to operations is pure and total; it is established
//! once at startup and never mutated afterward.

use vstd::prelude::*;

verus! {

/// Operations that can be performed on repositories.
#[derive(Debug, Clone, PartialEq, Eq, Structural)]
pub struct Operations {
    /// Clone the repository if it doesn't exist.
    pub clone: bool,
    /// Configure the repository (run the configured command).
    pub configure: bool,
    /// Update the remote URL.
    pub set_remote: bool,
    /// Run git commands in the repository.
    pub git: bool,
    /// Create a new repository.
    pub new: bool,
    /// Debug mode.
    pub debug: bool,
    /// Recurse into subdirectories with listfiles.
    pub recurse: bool,
    /// List remote relative paths.
    pub list_rrel: bool,
    /// List remote URLs.
    pub list_rurl: bool,
    /// List local relative paths.
    pub list_lrel: bool,
}

/// The all-off operation set.
pub open spec fn spec_operations_none() -> Operations {
    Operations {
        clone: false,
        configure: false,
        set_remote: false,
        git: false,
        new: false,
        debug: false,
        recurse: false,
        list_rrel: false,
        list_rurl: false,
        list_lrel: false,
    }
}

impl Default for Operations {
    /// Every operation switched off.
    fn default() -> (r: Self)
        ensures
            r == spec_operations_none(),
    {
        Operations {
            clone: false,
            configure: false,
            set_remote: false,
            git: false,
            new: false,
            debug: false,
            recurse: false,
            list_rrel: false,
            list_rurl: false,
            list_lrel: false,
        }
    }
}

/// Primary operation modes that determine the main behavior.
#[derive(Debug, Clone, Copy, PartialEq, Eq, Structural)]
pub enum PrimaryMode {
    /// Clone repositories.
    Clone,
    /// Execute git commands.
    Git,
    /// Update remote URL.
    SetRemote,
    /// Configure repositories.
    Configure,
    /// List remote relative paths.
    ListRrel,
    /// List remote URLs.
    ListRurl,
    /// List local relative paths.
    ListLrel,
    /// Run with clone and set-remote.
    Run,
    /// Create new repositories.
    New,
}

/// The total mapping from a primary mode to the operations it activates.
pub open spec fn spec_operations_of(mode: PrimaryMode) -> Operations {
    match mode {
        PrimaryMode::Clone => Operations {
            clone: true,
            configure: true,
            recurse: true,
            ..spec_operations_none()
        },
        PrimaryMode::Git => Operations {
            git: true,
            set_remote: true,
            configure: true,
            recurse: true,
            ..spec_operations_none()
        },
        PrimaryMode::SetRemote => Operations {
            set_remote: true,
            recurse: true,
            ..spec_operations_none()
        },
        PrimaryMode::Configure => Operations {
            configure: true,
            recurse: true,
            ..spec_operations_none()
        },
        PrimaryMode::ListRrel => Operations {
            list_rrel: true,
            recurse: true,
            ..spec_operations_none()
        },
        PrimaryMode::ListRurl => Operations {
            list_rurl: true,
            recurse: true,
            ..spec_operations_none()
        },
        PrimaryMode::ListLrel => Operations {
            list_lrel: true,
            recurse: true,
            ..spec_operations_none()
        },
        PrimaryMode::Run => Operations {
            clone: true,
            set_remote: true,
            configure: true,
            recurse: true,
            ..spec_operations_none()
        },
        PrimaryMode::New => Operations {
            new: true,
            configure: true,
            set_remote: true,
            recurse: true,
            ..spec_operations_none()
        },
    }
}

impl core::convert::From<PrimaryMode> for Operations {
    /// The operations a primary mode activates.
    fn from(mode: PrimaryMode) -> (r: Operations) {
        let mut ops = Operations::default();
        match mode {
            PrimaryMode::Clone => {
                ops.clone = true;
                ops.configure = true;
                ops.recurse = true;
            },
            PrimaryMode::Git => {
                ops.git = true;
                ops.set_remote = true;
                ops.configure = true;
                ops.recurse = true;
            },
            PrimaryMode::SetRemote => {
                ops.set_remote = true;
                ops.recurse = true;
            },
            PrimaryMode::Configure => {
                ops.configure = true;
                ops.recurse = true;
            },
            PrimaryMode::ListRrel => {
                ops.list_rrel = true;
                ops.recurse = true;
            },
            PrimaryMode::ListRurl => {
                ops.list_rurl = true;
                ops.recurse = true;
            },
            PrimaryMode::ListLrel => {
                ops.list_lrel = true;
                ops.recurse = true;
            },
            PrimaryMode::Run => {
                ops.clone = true;
                ops.set_remote = true;
                ops.configure = true;
                ops.recurse = true;
            },
            PrimaryMode::New => {
                ops.new = true;
                ops.configure = true;
                ops.set_remote = true;
                ops.recurse = true;
            },
        }
        ops
    }
}

impl vstd::std_specs::convert::FromSpecImpl<PrimaryMode> for Operations {
    open spec fn obeys_from_spec() -> bool {
        true
    }

    open spec fn from_spec(mode: PrimaryMode) -> Operations {
        spec_operations_of(mode)
    }
}

/// The mode's command-line name.
pub open spec fn spec_mode_name(mode: PrimaryMode) -> Seq<char> {
    match mode {
        PrimaryMode::Clone => "clone"@,
        PrimaryMode::Git => "git"@,
        PrimaryMode::SetRemote => "set-remote"@,
        PrimaryMode::Configure => "configure"@,
        PrimaryMode::ListRrel => "list-rrel"@,
        PrimaryMode::ListRurl => "list-rurl"@,
        PrimaryMode::ListLrel => "list-lrel"@,
        PrimaryMode::Run => "run"@,
        PrimaryMode::New => "new"@,
    }
}

/// The command-line name of a primary mode, as a child invocation receives
/// it.
pub fn get_mode_string(mode: PrimaryMode) -> (r: &'static str)
    ensures
        r@ == spec_mode_name(mode),
{
    match mode {
        PrimaryMode::Clone => "clone",
        PrimaryMode::Git => "git",
        PrimaryMode::SetRemote => "set-remote",
        PrimaryMode::Configure => "configure",
        PrimaryMode::ListRrel => "list-rrel",
        PrimaryMode::ListRurl => "list-rurl",
        PrimaryMode::ListLrel => "list-lrel",
        PrimaryMode::Run => "run",
        PrimaryMode::New => "new",
    }
}

/// Whether the operations are one of the three mutually-exclusive listing
/// modes.
pub open spec fn spec_is_listing(ops: Operations) -> bool {
    ops.list_rrel || ops.list_rurl || ops.list_lrel
}

impl Operations {
    /// Whether these operations only list, never mutate.
    pub fn is_listing_mode(&self) -> (r: bool)
        ensures
            r == spec_is_listing(*self),
    {
        self.list_rrel || self.list_rurl || self.list_lrel
    }
}

} // verus!
