use shuru_config::config::{Config, TaskConfig};
use shuru_config::error::{ConfigValidationError, Error};
use shuru_config::version_manager::{VersionInfo, VersionedCommand};
use shuru_config::versions::{deserialize_versions, Versions};

fn task(command: &str, dir: Option<&str>) -> TaskConfig {
    TaskConfig {
        command: command.to_string(),
        dir: dir.map(|d| d.to_string()),
        default: None,
    }
}

#[test]
fn task_with_command_and_no_dir_is_valid() {
    assert_eq!(task("echo hi", None).validate("build"), Ok(()));
}

#[test]
fn task_with_command_and_dir_is_valid() {
    assert_eq!(task("make", Some("sub/dir")).validate("build"), Ok(()));
}

#[test]
fn default_flag_plays_no_part_in_validation() {
    let mut t = task("make", None);
    t.default = Some(true);
    assert_eq!(t.validate("build"), Ok(()));
    t.default = Some(false);
    assert_eq!(t.validate("build"), Ok(()));
}

#[test]
fn empty_command_is_rejected_with_task_name() {
    assert_eq!(
        task("", None).validate("build"),
        Err(ConfigValidationError::EmptyCommandError("build".to_string()))
    );
}

#[test]
fn empty_command_is_reported_before_empty_dir() {
    assert_eq!(
        task("", Some("")).validate("deploy"),
        Err(ConfigValidationError::EmptyCommandError("deploy".to_string()))
    );
    assert_eq!(
        task("", Some("work")).validate("deploy"),
        Err(ConfigValidationError::EmptyCommandError("deploy".to_string()))
    );
}

#[test]
fn empty_dir_is_rejected_with_task_name() {
    assert_eq!(
        task("ls", Some("")).validate("list"),
        Err(ConfigValidationError::EmptyDirError("list".to_string()))
    );
}

#[test]
fn whitespace_command_is_not_empty() {
    assert_eq!(task(" ", None).validate("blank"), Ok(()));
}

#[test]
fn empty_task_name_is_carried_as_it_is() {
    assert_eq!(
        task("", None).validate(""),
        Err(ConfigValidationError::EmptyCommandError(String::new()))
    );
}

#[test]
fn manifest_without_tasks_validates() {
    let config = Config::new(Versions::new());
    assert!(config.tasks.is_empty());
    assert_eq!(config.validate_tasks(), Ok(()));
}

#[test]
fn manifest_with_valid_tasks_validates() {
    let mut config = Config::new(Versions::new());
    assert_eq!(config.insert_task("build".to_string(), task("make", None)), None);
    assert_eq!(config.insert_task("test".to_string(), task("make test", Some("t"))), None);
    assert_eq!(config.tasks.len(), 2);
    assert_eq!(config.validate_tasks(), Ok(()));
}

#[test]
fn manifest_with_empty_command_fails_naming_the_task() {
    let versions = deserialize_versions(Vec::new()).unwrap();
    assert!(versions.is_empty());
    let mut config = Config::new(versions);
    config.insert_task("build".to_string(), task("", None));
    assert_eq!(
        config.validate_tasks(),
        Err(Error::ConfigValidationError(
            ConfigValidationError::EmptyCommandError("build".to_string())
        ))
    );
}

#[test]
fn first_failing_task_is_reported() {
    let mut config = Config::new(Versions::new());
    config.insert_task("a".to_string(), task("ok", None));
    config.insert_task("b".to_string(), task("ok", Some("")));
    config.insert_task("c".to_string(), task("", None));
    assert_eq!(
        config.validate_tasks(),
        Err(Error::ConfigValidationError(
            ConfigValidationError::EmptyDirError("b".to_string())
        ))
    );
}

#[test]
fn insert_task_replaces_a_task_of_the_same_name_in_place() {
    let mut config = Config::new(Versions::new());
    config.insert_task("a".to_string(), task("one", None));
    config.insert_task("b".to_string(), task("two", None));
    let previous = config.insert_task("a".to_string(), task("three", None));
    assert_eq!(previous, Some(task("one", None)));
    assert_eq!(config.tasks.len(), 2);
    assert_eq!(config.tasks[0], ("a".to_string(), task("three", None)));
    assert_eq!(config.tasks[1], ("b".to_string(), task("two", None)));
}

#[test]
fn error_from_task_error_wraps_it() {
    let inner = ConfigValidationError::EmptyDirError("x".to_string());
    assert_eq!(
        Error::from(inner.clone()),
        Error::ConfigValidationError(inner)
    );
}

#[test]
fn config_keeps_the_versions_it_was_made_with() {
    let versions = deserialize_versions(vec![(
        "python".to_string(),
        VersionInfo::Simple("3.11.4".to_string()),
    )])
    .unwrap();
    let config = Config::new(versions.clone());
    assert_eq!(config.versions, versions);
    assert!(config.versions.contains_key(VersionedCommand::Python));
    assert!(!config.versions.contains_key(VersionedCommand::Node));
}
