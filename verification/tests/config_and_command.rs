//! Configuration settling, command parsing, path joining and the secrets
//! query.

use ais_runner::command::{command_parts, parse_command};
use ais_runner::config::{specific_config, ConfigError, RawSettings, SettingField};
use ais_runner::filter::{bytes_is_ancestor, join_path, IgnoreSet};
use ais_runner::secrets::{get_query, SecretQuery};

fn complete_raw() -> RawSettings {
    RawSettings {
        interval_seconds: Some(5),
        monitor_path: Some(String::from("/srv/app")),
        project_path: Some(String::from("/srv/app")),
        changes_needed: Some(3),
        ignored_subdirs: Some(vec![String::from("node_modules"), String::from("logs")]),
        install_command: None,
        build_command: Some(String::from("npm run build")),
        run_command: Some(String::from("npm start")),
        secret_server_addr: Some(String::from("localhost:50052")),
        env_file_location: Some(String::from("/tmp/.trash")),
    }
}

#[test]
fn complete_settings_are_accepted() {
    let c = specific_config(Some(complete_raw())).unwrap();
    assert_eq!(c.interval_seconds, 5);
    assert_eq!(c.changes_needed, 3);
    assert_eq!(c.monitor_path, String::from("/srv/app"));
    assert_eq!(c.install_command, None);
    assert_eq!(c.build_command, Some(String::from("npm run build")));
    assert_eq!(c.run_command, String::from("npm start"));
    assert_eq!(c.ignored_subdirs.len(), 2);
}

#[test]
fn absent_table_is_not_found() {
    assert_eq!(specific_config(None).unwrap_err(), ConfigError::NotFound);
}

#[test]
fn missing_run_command_is_reported() {
    let mut raw = complete_raw();
    raw.run_command = None;
    assert_eq!(
        specific_config(Some(raw)).unwrap_err(),
        ConfigError::MissingField(SettingField::RunCommand)
    );
}

#[test]
fn out_of_range_interval_is_reported() {
    let mut raw = complete_raw();
    raw.interval_seconds = Some(-1);
    assert_eq!(
        specific_config(Some(raw)).unwrap_err(),
        ConfigError::OutOfRange(SettingField::IntervalSeconds)
    );
}

#[test]
fn first_fault_wins() {
    let mut raw = complete_raw();
    raw.monitor_path = None;
    raw.run_command = None;
    assert_eq!(
        specific_config(Some(raw)).unwrap_err(),
        ConfigError::MissingField(SettingField::MonitorPath)
    );
}

#[test]
fn ignored_paths_join_under_the_monitored_root() {
    let c = specific_config(Some(complete_raw())).unwrap();
    let base = b"/srv/app".to_vec();
    let joined = c.ignored_paths(&base);
    assert_eq!(joined.len(), 2);
    assert_eq!(joined[0], b"/srv/app/node_modules".to_vec());
    assert_eq!(joined[1], b"/srv/app/logs".to_vec());
    let ignore = IgnoreSet::new(joined);
    assert!(ignore.path_is_ignored(&b"/srv/app/logs/today.log".to_vec()));
    assert!(!ignore.path_is_ignored(&b"/srv/app/src/main.rs".to_vec()));
}

#[test]
fn join_path_handles_trailing_and_absolute_parts() {
    assert_eq!(
        join_path(&b"/srv/app/".to_vec(), &b"logs".to_vec()),
        b"/srv/app/logs".to_vec()
    );
    assert_eq!(
        join_path(&b"/srv/app".to_vec(), &b"/var/other".to_vec()),
        b"/var/other".to_vec()
    );
}

#[test]
fn ancestor_matches_whole_components_only() {
    assert!(bytes_is_ancestor(&b"/a/b".to_vec(), &b"/a/b".to_vec()));
    assert!(bytes_is_ancestor(&b"/a/b".to_vec(), &b"/a/b/c".to_vec()));
    assert!(!bytes_is_ancestor(&b"/a/b".to_vec(), &b"/a/bc".to_vec()));
    assert!(!bytes_is_ancestor(&b"".to_vec(), &b"/a/b".to_vec()));
}

#[test]
fn commands_parse_by_shell_rules() {
    let parts = parse_command("sh -c 'echo hello'");
    assert_eq!(
        parts,
        vec![
            String::from("sh"),
            String::from("-c"),
            String::from("echo hello")
        ]
    );
}

#[test]
fn rejected_shell_syntax_falls_back_to_whitespace() {
    // An unmatched quote: shell splitting refuses, whitespace splitting runs.
    let parts = parse_command("echo 'unterminated");
    assert_eq!(parts, vec![String::from("echo"), String::from("'unterminated")]);
}

#[test]
fn command_parts_split_program_from_arguments() {
    let (prog, args) = command_parts("npm run build").unwrap();
    assert_eq!(prog, String::from("npm"));
    assert_eq!(args, vec![String::from("run"), String::from("build")]);
    assert!(command_parts("").is_none());
    assert!(command_parts("   ").is_none());
}

#[test]
fn secret_query_defaults_to_version_zero() {
    let q = SecretQuery::new(String::from("runner"), String::from("production"), None);
    assert_eq!(q.version, 0);
    let q = SecretQuery::new(String::from("runner"), String::from("production"), Some(7));
    assert_eq!(q.version, 7);
    assert_eq!(q.runner_id, String::from("runner"));
    assert_eq!(q.enviornment_id, String::from("production"));
}

#[test]
fn get_query_reads_the_settled_slot() {
    assert!(get_query(&None).is_err());
    let slot = Some(SecretQuery::new(
        String::from("runner"),
        String::from("production"),
        None,
    ));
    let q = get_query(&slot).unwrap();
    assert_eq!(q.runner_id, String::from("runner"));
}
