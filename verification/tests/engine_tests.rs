use grm::config::Config;
use grm::engine::{
    apply_repo_line, existence_decision, post_actions, ExistenceAction, PostAction,
    ReconcileError, RepoState,
};
use grm::mode::{get_mode_string, Operations, PrimaryMode};
use grm::recursive::derive_child_env;
use grm::repository::{
    build_config_command, classify_create_exit, checkout_after_create, create_remote_preflight,
    is_repo_root_output, set_remote_followup, split_git_args, CreateRemoteError,
    CreateRemoteOutcome, RemoteUpdate, RepoTriple,
};

#[test]
fn clone_mode_activates_clone_configure_recurse() {
    let ops = Operations::from(PrimaryMode::Clone);
    assert!(ops.clone && ops.configure && ops.recurse);
    assert!(!ops.set_remote && !ops.git && !ops.new);
    assert!(!ops.is_listing_mode());
}

#[test]
fn listing_modes_are_exclusive() {
    let ops = Operations::from(PrimaryMode::ListRurl);
    assert!(ops.list_rurl && ops.recurse);
    assert!(!ops.list_rrel && !ops.list_lrel);
    assert!(!ops.clone && !ops.configure && !ops.set_remote && !ops.git && !ops.new);
    assert!(ops.is_listing_mode());
}

#[test]
fn new_mode_includes_configure_and_set_remote() {
    let ops = Operations::from(PrimaryMode::New);
    assert!(ops.new && ops.configure && ops.set_remote && ops.recurse);
    assert!(!ops.clone);
}

#[test]
fn mode_names_round_the_command_line() {
    assert_eq!(get_mode_string(PrimaryMode::Clone), "clone");
    assert_eq!(get_mode_string(PrimaryMode::SetRemote), "set-remote");
    assert_eq!(get_mode_string(PrimaryMode::ListRrel), "list-rrel");
    assert_eq!(get_mode_string(PrimaryMode::Run), "run");
}

#[test]
fn missing_under_clone_clones_then_configures_then_checks_out() {
    let ops = Operations::from(PrimaryMode::Clone);
    assert_eq!(existence_decision(&ops, RepoState::Missing), Ok(ExistenceAction::CloneRepo));
    let actions = post_actions(&ops, true);
    assert_eq!(actions, vec![PostAction::Configure, PostAction::CheckOut]);
}

#[test]
fn missing_without_clone_is_only_an_error() {
    let ops = Operations::from(PrimaryMode::Configure);
    assert_eq!(
        existence_decision(&ops, RepoState::Missing),
        Err(ReconcileError::MissingNotCloned)
    );
}

#[test]
fn file_state_is_terminal() {
    let ops = Operations::from(PrimaryMode::Run);
    assert_eq!(existence_decision(&ops, RepoState::File), Err(ReconcileError::NotADirectory));
}

#[test]
fn directory_needs_create_new() {
    let ops = Operations::from(PrimaryMode::New);
    assert_eq!(existence_decision(&ops, RepoState::Directory), Ok(ExistenceAction::CreateNew));
    let without = Operations::from(PrimaryMode::Run);
    assert_eq!(
        existence_decision(&without, RepoState::Directory),
        Err(ReconcileError::NotARepository)
    );
}

#[test]
fn second_pass_on_existing_repo_is_not_destructive() {
    let ops = Operations::from(PrimaryMode::Run);
    assert_eq!(existence_decision(&ops, RepoState::Repo), Ok(ExistenceAction::UseExisting));
    let again = post_actions(&ops, false);
    assert_eq!(again, vec![PostAction::Configure, PostAction::SetRemote]);
    assert!(!again.contains(&PostAction::CheckOut));
    assert_eq!(set_remote_followup(0), RemoteUpdate::Converged);
}

#[test]
fn post_actions_run_in_fixed_order() {
    let ops = Operations::from(PrimaryMode::Git);
    let actions = post_actions(&ops, true);
    assert_eq!(
        actions,
        vec![
            PostAction::Configure,
            PostAction::SetRemote,
            PostAction::CheckOut,
            PostAction::RunGit,
        ]
    );
}

#[test]
fn listing_short_circuits_post_actions() {
    let ops = Operations::from(PrimaryMode::ListLrel);
    assert_eq!(post_actions(&ops, true), vec![PostAction::PrintLocalPath]);
}

#[test]
fn set_remote_with_missing_origin_adds_instead_of_erroring() {
    assert_eq!(set_remote_followup(2), RemoteUpdate::AddRemote);
    assert_eq!(set_remote_followup(0), RemoteUpdate::Converged);
    assert_eq!(set_remote_followup(128), RemoteUpdate::Failed(128));
}

#[test]
fn create_preflight_requires_template_and_ssh_login() {
    let mut config = Config::new();
    assert_eq!(
        create_remote_preflight(&config, "a/b").unwrap_err(),
        CreateRemoteError::MissingTemplate
    );
    config.rpath_template = "template.git".to_string();
    assert_eq!(
        create_remote_preflight(&config, "a/b").unwrap_err(),
        CreateRemoteError::MissingLogin
    );
    config.rlogin = "user@host".to_string();
    assert_eq!(
        create_remote_preflight(&config, "a/b").unwrap_err(),
        CreateRemoteError::LoginNotSsh
    );
    config.rlogin = "ssh://user@host".to_string();
    let plan = create_remote_preflight(&config, "a/b").unwrap();
    assert_eq!(plan.ssh_host, "user@host");
    assert_eq!(plan.target_path, "a/b.git");
}

#[test]
fn create_preflight_keeps_existing_git_suffix() {
    let mut config = Config::new();
    config.rpath_template = "t".to_string();
    config.rlogin = "ssh://h".to_string();
    let plan = create_remote_preflight(&config, "x/y.git").unwrap();
    assert_eq!(plan.target_path, "x/y.git");
}

#[test]
fn create_exit_statuses_are_classified() {
    assert_eq!(classify_create_exit(Some(0)), CreateRemoteOutcome::Created);
    assert_eq!(classify_create_exit(Some(90)), CreateRemoteOutcome::TargetNotRepo);
    assert_eq!(classify_create_exit(Some(91)), CreateRemoteOutcome::TargetIsFile);
    assert_eq!(classify_create_exit(Some(92)), CreateRemoteOutcome::TargetSpecialFile);
    assert_eq!(classify_create_exit(Some(1)), CreateRemoteOutcome::Failed);
    assert_eq!(classify_create_exit(None), CreateRemoteOutcome::Failed);
}

#[test]
fn checkout_owed_only_to_confirmed_fresh_trees() {
    assert!(checkout_after_create(true, false));
    assert!(!checkout_after_create(true, true));
    assert!(!checkout_after_create(false, false));
}

#[test]
fn config_command_appends_escaped_media_path() {
    assert_eq!(build_config_command("", "media"), None);
    assert_eq!(build_config_command("setup.sh", "plain"), Some("setup.sh plain".to_string()));
    assert_eq!(build_config_command("setup.sh", "a b"), Some("setup.sh 'a b'".to_string()));
    assert_eq!(
        build_config_command("run", "it's"),
        Some("run 'it'\\''s'".to_string())
    );
}

#[test]
fn git_args_split_on_whitespace() {
    assert_eq!(split_git_args("fetch   --all origin"), vec!["fetch", "--all", "origin"]);
    assert_eq!(split_git_args("  status  "), vec!["status"]);
    assert!(split_git_args("").is_empty());
    assert!(split_git_args("   ").is_empty());
}

#[test]
fn repo_root_probe_output_must_be_dot_git() {
    assert!(is_repo_root_output(".git\n"));
    assert!(is_repo_root_output("  .git  "));
    assert!(!is_repo_root_output("/home/u/project/.git\n"));
    assert!(!is_repo_root_output(""));
}

#[test]
fn repo_triple_carries_its_paths() {
    let t = RepoTriple::new("remote/a.git", "local/a", "media/a", "u@h:remote/a.git");
    assert_eq!(t.remote_path, "remote/a.git");
    assert_eq!(t.local_path, "local/a");
    assert_eq!(t.media_path, "media/a");
    assert_eq!(t.remote_url, "u@h:remote/a.git");
}

#[test]
fn config_lines_in_listfiles_take_effect_for_later_declarations() {
    let mut config = Config::new();
    let setting = vec![String::new(), "LOCAL_DIR".to_string(), "work".to_string()];
    assert!(apply_repo_line(&mut config, &setting).is_none());
    let decl = vec!["a/b.git".to_string()];
    let t = apply_repo_line(&mut config, &decl).unwrap();
    assert_eq!(t.local_path, "work/b");
}

#[test]
fn short_config_lines_in_listfiles_are_ignored() {
    let mut config = Config::new();
    let short = vec![String::new(), "KEY".to_string()];
    assert!(apply_repo_line(&mut config, &short).is_none());
    assert_eq!(config.list_filename, "");
}

#[test]
fn child_env_forwards_settings_under_prefix() {
    let mut config = Config::new();
    config.list_filename = ".grm.repos".to_string();
    let env = derive_child_env(&config, "sub");
    assert!(env.contains(&("GRM_LIST_FN".to_string(), ".grm.repos".to_string())));
    assert!(env.contains(&("GRM_OPT_RECURSE".to_string(), "1".to_string())));
    assert!(env.contains(&("GRM_RECURSE_PREFIX".to_string(), "sub/".to_string())));
}

#[test]
fn child_env_extends_an_existing_display_prefix() {
    let mut config = Config::new();
    config.recurse_prefix = "outer/".to_string();
    let env = derive_child_env(&config, "inner");
    let prefixes: Vec<&(String, String)> =
        env.iter().filter(|p| p.0 == "GRM_RECURSE_PREFIX").collect();
    assert_eq!(prefixes.len(), 1);
    assert_eq!(prefixes[0].1, "outer/inner/");
}
