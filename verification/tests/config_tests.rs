use grm::config::{env_key_allowed, Config, ConfigLoadError};
use grm::tokenizer::GrammarError;

#[test]
fn defaults() {
    let c = Config::new();
    assert_eq!(c.config_filename, ".grm.conf");
    assert_eq!(c.list_filename, "");
    assert!(c.recurse_enabled);
    assert_eq!(c.rlogin, "");
    assert_eq!(c.tree_filter, "");
}

#[test]
fn set_from_string_known_keys() {
    let mut c = Config::new();
    c.set_from_string("RLOGIN", "ssh://u@h".to_string());
    c.set_from_string("LIST_FN", ".grm.repos".to_string());
    c.set_from_string("REMOTE_DIR", "repos".to_string());
    assert_eq!(c.rlogin, "ssh://u@h");
    assert_eq!(c.list_filename, ".grm.repos");
    assert_eq!(c.remote_dir, "repos");
}

#[test]
fn set_from_string_recurse_toggle() {
    let mut c = Config::new();
    c.set_from_string("OPT_RECURSE", String::new());
    assert!(!c.recurse_enabled);
    c.set_from_string("OPT_RECURSE", "1".to_string());
    assert!(c.recurse_enabled);
}

#[test]
fn set_from_string_unknown_key_is_ignored() {
    let mut c = Config::new();
    c.set_from_string("NO_SUCH_SETTING", "value".to_string());
    assert_eq!(c.config_filename, ".grm.conf");
    assert_eq!(c.list_filename, "");
    assert!(c.recurse_enabled);
}

#[test]
fn load_from_string_applies_settings_in_order() {
    let mut c = Config::new();
    let text = "* LIST_FN * .grm.repos\r\n# a note\n* RLOGIN * u@h\n* RLOGIN * v@h\n";
    assert!(c.load_from_string(text).is_ok());
    assert_eq!(c.list_filename, ".grm.repos");
    assert_eq!(c.rlogin, "v@h");
}

#[test]
fn load_from_string_empty_value_clears() {
    let mut c = Config::new();
    assert!(c.load_from_string("* OPT_RECURSE *\n").is_ok());
    assert!(!c.recurse_enabled);
}

#[test]
fn load_from_string_rejects_wrong_cell_count() {
    let mut c = Config::new();
    let r = c.load_from_string("* ONLYKEY\n");
    assert_eq!(r.unwrap_err(), ConfigLoadError::WrongCellCount(2));
    let r2 = c.load_from_string("* A * B * C\n");
    assert_eq!(r2.unwrap_err(), ConfigLoadError::WrongCellCount(4));
}

#[test]
fn load_from_string_rejects_repository_line() {
    let mut c = Config::new();
    let r = c.load_from_string("group/name.git * local * media\n");
    assert_eq!(r.unwrap_err(), ConfigLoadError::RepositoryLine);
}

#[test]
fn load_from_string_rejects_empty_key() {
    let mut c = Config::new();
    let r = c.load_from_string("*  * value\n");
    assert_eq!(r.unwrap_err(), ConfigLoadError::EmptyKey);
}

#[test]
fn load_from_string_reports_grammar_error() {
    let mut c = Config::new();
    let r = c.load_from_string("* KEY * value\\");
    assert_eq!(r.unwrap_err(), ConfigLoadError::Grammar(GrammarError::TrailingBackslash));
}

#[test]
fn load_from_string_ignores_unknown_keys() {
    let mut c = Config::new();
    assert!(c.load_from_string("* SOMETHING_ELSE * v\n* LIST_FN * l\n").is_ok());
    assert_eq!(c.list_filename, "l");
}

#[test]
fn all_values_holds_fixed_settings_and_non_empty_options() {
    let c = Config::new();
    let v = c.all_values();
    assert_eq!(
        v,
        vec![
            ("CONFIG_FILENAME".to_string(), ".grm.conf".to_string()),
            ("LIST_FN".to_string(), String::new()),
            ("OPT_RECURSE".to_string(), "1".to_string()),
        ]
    );
}

#[test]
fn all_values_includes_set_options() {
    let mut c = Config::new();
    c.recurse_enabled = false;
    c.rlogin = "u@h".to_string();
    c.tree_filter = "/work".to_string();
    let v = c.all_values();
    assert_eq!(
        v,
        vec![
            ("CONFIG_FILENAME".to_string(), ".grm.conf".to_string()),
            ("LIST_FN".to_string(), String::new()),
            ("OPT_RECURSE".to_string(), String::new()),
            ("RLOGIN".to_string(), "u@h".to_string()),
            ("TREE_FILTER".to_string(), "/work".to_string()),
        ]
    );
}

#[test]
fn env_allow_list_guards_the_root_invocation() {
    assert!(env_key_allowed("CONFIG_FILENAME", false));
    assert!(env_key_allowed("LIST_FN", false));
    assert!(env_key_allowed("CONFIG_CMD", false));
    assert!(!env_key_allowed("RLOGIN", false));
    assert!(!env_key_allowed("TREE_FILTER", false));
    assert!(env_key_allowed("RLOGIN", true));
    assert!(env_key_allowed("ANYTHING", true));
}
