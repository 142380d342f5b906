//! The cascading configuration model.
//!
//! A `Config` is created with fixed defaults and then overridden in order by
//! the nearest config file, trusted environment variables, and inline
//! listfile configuration lines.  Unknown keys are ignored, never an error.
//! Config files are strict: every line must be `* KEY * VALUE` (three cells,
//! the first empty, the key non-empty); listfiles are lenient.

use crate::strutil::str_eq;
use crate::tokenizer::{
    lemma_parse_line_progress, spec_blank_line, spec_next_line, spec_parse_line,
    ConfigLineIterator, GrammarError,
};
use vstd::prelude::*;
use vstd::string::StrSliceExecFns;

verus! {

/// The mathematical model of a configuration: each setting as its character
/// sequence, the recursion toggle as its truth value.
pub struct ConfigModel {
    pub config_filename: Seq<char>,
    pub list_filename: Seq<char>,
    pub recurse_enabled: bool,
    pub rlogin: Seq<char>,
    pub rpath_base: Seq<char>,
    pub rpath_template: Seq<char>,
    pub local_dir: Seq<char>,
    pub gm_dir: Seq<char>,
    pub remote_dir: Seq<char>,
    pub git_args: Seq<char>,
    pub config_cmd: Seq<char>,
    pub recurse_prefix: Seq<char>,
    pub tree_filter: Seq<char>,
}

/// Typed configuration values with proper types for each setting.
#[derive(Debug)]
pub struct Config {
    /// Configuration filename (`.grm.conf` by default).
    pub config_filename: String,
    /// Listfile filename.
    pub list_filename: String,
    /// Whether recursion is enabled (on by default).
    pub recurse_enabled: bool,
    /// Remote login information (e.g. `ssh://user@host`).
    pub rlogin: String,
    /// Remote path base directory.
    pub rpath_base: String,
    /// Remote path template for new repositories.
    pub rpath_template: String,
    /// Local base directory for repositories.
    pub local_dir: String,
    /// Media base directory.
    pub gm_dir: String,
    /// Remote directory.
    pub remote_dir: String,
    /// Git arguments used in git mode.
    pub git_args: String,
    /// Command to execute for configuration.
    pub config_cmd: String,
    /// Recursion prefix for path display.
    pub recurse_prefix: String,
    /// Tree filter path limiting processing to the invocation's subtree.
    pub tree_filter: String,
}

impl View for Config {
    type V = ConfigModel;

    open spec fn view(&self) -> ConfigModel {
        ConfigModel {
            config_filename: self.config_filename@,
            list_filename: self.list_filename@,
            recurse_enabled: self.recurse_enabled,
            rlogin: self.rlogin@,
            rpath_base: self.rpath_base@,
            rpath_template: self.rpath_template@,
            local_dir: self.local_dir@,
            gm_dir: self.gm_dir@,
            remote_dir: self.remote_dir@,
            git_args: self.git_args@,
            config_cmd: self.config_cmd@,
            recurse_prefix: self.recurse_prefix@,
            tree_filter: self.tree_filter@,
        }
    }
}

/// The fixed defaults every configuration starts from.
pub open spec fn spec_default_config() -> ConfigModel {
    ConfigModel {
        config_filename: ".grm.conf"@,
        list_filename: Seq::empty(),
        recurse_enabled: true,
        rlogin: Seq::empty(),
        rpath_base: Seq::empty(),
        rpath_template: Seq::empty(),
        local_dir: Seq::empty(),
        gm_dir: Seq::empty(),
        remote_dir: Seq::empty(),
        git_args: Seq::empty(),
        config_cmd: Seq::empty(),
        recurse_prefix: Seq::empty(),
        tree_filter: Seq::empty(),
    }
}

/// One setting override: the named setting takes `value`; an unknown key
/// changes nothing.
pub open spec fn spec_set_value(m: ConfigModel, key: Seq<char>, value: Seq<char>) -> ConfigModel {
    if key == "CONFIG_FILENAME"@ {
        ConfigModel { config_filename: value, ..m }
    } else if key == "LIST_FN"@ {
        ConfigModel { list_filename: value, ..m }
    } else if key == "OPT_RECURSE"@ {
        ConfigModel { recurse_enabled: value.len() != 0, ..m }
    } else if key == "RLOGIN"@ {
        ConfigModel { rlogin: value, ..m }
    } else if key == "RPATH_BASE"@ {
        ConfigModel { rpath_base: value, ..m }
    } else if key == "RPATH_TEMPLATE"@ {
        ConfigModel { rpath_template: value, ..m }
    } else if key == "LOCAL_DIR"@ {
        ConfigModel { local_dir: value, ..m }
    } else if key == "GM_DIR"@ {
        ConfigModel { gm_dir: value, ..m }
    } else if key == "REMOTE_DIR"@ {
        ConfigModel { remote_dir: value, ..m }
    } else if key == "GIT_ARGS"@ {
        ConfigModel { git_args: value, ..m }
    } else if key == "CONFIG_CMD"@ {
        ConfigModel { config_cmd: value, ..m }
    } else if key == "RECURSE_PREFIX"@ {
        ConfigModel { recurse_prefix: value, ..m }
    } else if key == "TREE_FILTER"@ {
        ConfigModel { tree_filter: value, ..m }
    } else {
        m
    }
}

/// Faults a strict config file can carry.
#[derive(Debug, Clone, Copy, PartialEq, Eq)]
pub enum ConfigLoadError {
    /// The line grammar was broken.
    Grammar(GrammarError),
    /// A config line did not have exactly three cells; carries the count.
    WrongCellCount(usize),
    /// A repository declaration stood in the config file.
    RepositoryLine,
    /// A config line's key cell was empty.
    EmptyKey,
}

/// Apply a whole config file to `m`, line by line, stopping at the first
/// fault.  Returns the settled model and the fault, if one was hit.
pub open spec fn spec_load_lines(m: ConfigModel, s: Seq<char>) -> (ConfigModel, Option<
    ConfigLoadError,
>)
    decreases s.len(),
    via spec_load_lines_decreases
{
    match spec_next_line(s) {
        None => (m, None),
        Some(Err(e)) => (m, Some(ConfigLoadError::Grammar(e))),
        Some(Ok(t)) => {
            if t.0.len() != 3 {
                (m, Some(ConfigLoadError::WrongCellCount(t.0.len() as usize)))
            } else if t.0[0].len() != 0 {
                (m, Some(ConfigLoadError::RepositoryLine))
            } else if t.0[1].len() == 0 {
                (m, Some(ConfigLoadError::EmptyKey))
            } else {
                spec_load_lines(spec_set_value(m, t.0[1], t.0[2]), t.1)
            }
        },
    }
}

#[via_fn]
proof fn spec_load_lines_decreases(m: ConfigModel, s: Seq<char>) {
    lemma_next_line_progress(s);
}

/// Drawing a content line consumes at least one character.
pub proof fn lemma_next_line_progress(s: Seq<char>)
    ensures
        spec_next_line(s) matches Some(Ok(t)) ==> t.1.len() < s.len(),
    decreases s.len(),
{
    if s.len() > 0 {
        lemma_parse_line_progress(s);
        match spec_parse_line(s) {
            None => {},
            Some(t) => {
                if spec_blank_line(t.0) {
                    lemma_next_line_progress(t.1);
                }
            },
        }
    }
}

impl Config {
    /// Create a new configuration with the fixed default values.
    pub fn new() -> (r: Self)
        ensures
            r@ == spec_default_config(),
    {
        Config {
            config_filename: ".grm.conf".to_owned(),
            list_filename: String::new(),
            recurse_enabled: true,
            rlogin: String::new(),
            rpath_base: String::new(),
            rpath_template: String::new(),
            local_dir: String::new(),
            gm_dir: String::new(),
            remote_dir: String::new(),
            git_args: String::new(),
            config_cmd: String::new(),
            recurse_prefix: String::new(),
            tree_filter: String::new(),
        }
    }

    /// Set a configuration value from its wire name.  Unknown keys are
    /// ignored, never an error.
    pub fn set_from_string(&mut self, key: &str, value: String)
        ensures
            final(self)@ == spec_set_value(old(self)@, key@, value@),
    {
        if str_eq(key, "CONFIG_FILENAME") {
            self.config_filename = value;
        } else if str_eq(key, "LIST_FN") {
            self.list_filename = value;
        } else if str_eq(key, "OPT_RECURSE") {
            self.recurse_enabled = !value.as_str().is_empty();
        } else if str_eq(key, "RLOGIN") {
            self.rlogin = value;
        } else if str_eq(key, "RPATH_BASE") {
            self.rpath_base = value;
        } else if str_eq(key, "RPATH_TEMPLATE") {
            self.rpath_template = value;
        } else if str_eq(key, "LOCAL_DIR") {
            self.local_dir = value;
        } else if str_eq(key, "GM_DIR") {
            self.gm_dir = value;
        } else if str_eq(key, "REMOTE_DIR") {
            self.remote_dir = value;
        } else if str_eq(key, "GIT_ARGS") {
            self.git_args = value;
        } else if str_eq(key, "CONFIG_CMD") {
            self.config_cmd = value;
        } else if str_eq(key, "RECURSE_PREFIX") {
            self.recurse_prefix = value;
        } else if str_eq(key, "TREE_FILTER") {
            self.tree_filter = value;
        }
    }

    /// Load configuration from the text of a config file, strictly: every
    /// meaningful line must be `* KEY * VALUE`, and the first fault stops
    /// the load where it stands.
    pub fn load_from_string(&mut self, content: &str) -> (r: Result<(), ConfigLoadError>)
        ensures
            final(self)@ == spec_load_lines(old(self)@, content@).0,
            match r {
                Ok(()) => spec_load_lines(old(self)@, content@).1 is None,
                Err(e) => spec_load_lines(old(self)@, content@).1 == Some(e),
            },
    {
        let mut it = ConfigLineIterator::from_string(content.to_owned());
        loop
            invariant
                it.wf(),
                spec_load_lines(self@, it.remaining()) == spec_load_lines(old(self)@, content@),
            decreases it.remaining().len(),
        {
            proof {
                lemma_next_line_progress(it.remaining());
            }
            match it.next_line() {
                None => {
                    return Ok(());
                },
                Some(Err(e)) => {
                    return Err(ConfigLoadError::Grammar(e));
                },
                Some(Ok(cells)) => {
                    if cells.len() != 3 {
                        return Err(ConfigLoadError::WrongCellCount(cells.len()));
                    }
                    proof {
                        assert(cells.deep_view()[0] == cells@[0]@);
                        assert(cells.deep_view()[1] == cells@[1]@);
                        assert(cells.deep_view()[2] == cells@[2]@);
                    }
                    if cells[0].as_str().unicode_len() != 0 {
                        return Err(ConfigLoadError::RepositoryLine);
                    }
                    if cells[1].as_str().unicode_len() == 0 {
                        return Err(ConfigLoadError::EmptyKey);
                    }
                    let value = cells[2].clone();
                    self.set_from_string(cells[1].as_str(), value);
                },
            }
        }
    }
}

/// The view of a key/value vector: each pair as character sequences.
pub open spec fn spec_pairs_view(v: Seq<(String, String)>) -> Seq<(Seq<char>, Seq<char>)> {
    v.map_values(|p: (String, String)| (p.0@, p.1@))
}

/// A pair carried only while its value is non-empty.
pub open spec fn spec_opt_pair(key: Seq<char>, value: Seq<char>) -> Seq<(Seq<char>, Seq<char>)> {
    if value.len() > 0 {
        seq![(key, value)]
    } else {
        Seq::empty()
    }
}

/// Every configuration value under its wire name, for passing through the
/// environment: the three always-present settings first, then each optional
/// setting that is non-empty, in a fixed order.
pub open spec fn spec_all_values(m: ConfigModel) -> Seq<(Seq<char>, Seq<char>)> {
    seq![
        ("CONFIG_FILENAME"@, m.config_filename),
        ("LIST_FN"@, m.list_filename),
        (
            "OPT_RECURSE"@,
            if m.recurse_enabled {
                "1"@
            } else {
                Seq::<char>::empty()
            },
        ),
    ] + spec_opt_pair("RLOGIN"@, m.rlogin) + spec_opt_pair("RPATH_BASE"@, m.rpath_base)
        + spec_opt_pair("RPATH_TEMPLATE"@, m.rpath_template) + spec_opt_pair(
        "LOCAL_DIR"@,
        m.local_dir,
    ) + spec_opt_pair("GM_DIR"@, m.gm_dir) + spec_opt_pair("REMOTE_DIR"@, m.remote_dir)
        + spec_opt_pair("GIT_ARGS"@, m.git_args) + spec_opt_pair("CONFIG_CMD"@, m.config_cmd)
        + spec_opt_pair("RECURSE_PREFIX"@, m.recurse_prefix) + spec_opt_pair(
        "TREE_FILTER"@,
        m.tree_filter,
    )
}

/// Push one pair.
fn push_pair(v: &mut Vec<(String, String)>, key: &str, value: String)
    ensures
        spec_pairs_view(final(v)@) == spec_pairs_view(old(v)@) + seq![(key@, value@)],
{
    let ghost oldv = v@;
    v.push((key.to_owned(), value));
    proof {
        assert(spec_pairs_view(v@) =~= spec_pairs_view(oldv) + seq![(key@, v@[v@.len() - 1].1@)]);
    }
}

/// Push one pair only when its value is non-empty.
fn push_opt_pair(v: &mut Vec<(String, String)>, key: &str, value: &String)
    ensures
        spec_pairs_view(final(v)@) == spec_pairs_view(old(v)@) + spec_opt_pair(key@, value@),
{
    let ghost oldv = v@;
    if !value.as_str().is_empty() {
        v.push((key.to_owned(), value.clone()));
        proof {
            assert(spec_pairs_view(v@) =~= spec_pairs_view(oldv) + spec_opt_pair(key@, value@));
        }
    } else {
        proof {
            assert(spec_pairs_view(v@) =~= spec_pairs_view(oldv) + spec_opt_pair(key@, value@));
        }
    }
}

impl Config {
    /// All configuration values as string key/value pairs, for passing
    /// through the environment to a recursive child invocation.
    pub fn all_values(&self) -> (r: Vec<(String, String)>)
        ensures
            spec_pairs_view(r@) == spec_all_values(self@),
    {
        let mut result: Vec<(String, String)> = Vec::new();
        proof {
            assert(spec_pairs_view(result@) =~= Seq::<(Seq<char>, Seq<char>)>::empty());
        }
        push_pair(&mut result, "CONFIG_FILENAME", self.config_filename.clone());
        push_pair(&mut result, "LIST_FN", self.list_filename.clone());
        if self.recurse_enabled {
            push_pair(&mut result, "OPT_RECURSE", "1".to_owned());
        } else {
            push_pair(&mut result, "OPT_RECURSE", String::new());
        }
        proof {
            let base: Seq<(Seq<char>, Seq<char>)> = seq![
                ("CONFIG_FILENAME"@, self@.config_filename),
                ("LIST_FN"@, self@.list_filename),
                (
                    "OPT_RECURSE"@,
                    if self@.recurse_enabled {
                        "1"@
                    } else {
                        Seq::<char>::empty()
                    },
                ),
            ];
            assert(spec_pairs_view(result@) =~= base);
        }
        push_opt_pair(&mut result, "RLOGIN", &self.rlogin);
        push_opt_pair(&mut result, "RPATH_BASE", &self.rpath_base);
        push_opt_pair(&mut result, "RPATH_TEMPLATE", &self.rpath_template);
        push_opt_pair(&mut result, "LOCAL_DIR", &self.local_dir);
        push_opt_pair(&mut result, "GM_DIR", &self.gm_dir);
        push_opt_pair(&mut result, "REMOTE_DIR", &self.remote_dir);
        push_opt_pair(&mut result, "GIT_ARGS", &self.git_args);
        push_opt_pair(&mut result, "CONFIG_CMD", &self.config_cmd);
        push_opt_pair(&mut result, "RECURSE_PREFIX", &self.recurse_prefix);
        push_opt_pair(&mut result, "TREE_FILTER", &self.tree_filter);
        result
    }
}

/// Which `GRM_`-prefixed environment keys the root invocation honours: only a
/// fixed allow-list, so that an untrusted parent environment cannot inject
/// arbitrary settings.  A recursive child invocation trusts every key, since
/// this same program produced them.
pub open spec fn spec_env_key_allowed(key: Seq<char>, is_recursive: bool) -> bool {
    is_recursive || key == "CONFIG_FILENAME"@ || key == "LIST_FN"@ || key == "CONFIG_CMD"@
}

/// Whether a configuration key arriving through the environment is honoured.
pub fn env_key_allowed(key: &str, is_recursive: bool) -> (r: bool)
    ensures
        r == spec_env_key_allowed(key@, is_recursive),
{
    is_recursive || str_eq(key, "CONFIG_FILENAME") || str_eq(key, "LIST_FN") || str_eq(
        key,
        "CONFIG_CMD",
    )
}

} // verus!
