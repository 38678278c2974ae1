// End-to-end scenarios: an environment file is loaded under the
// `APP_` prefix and the process environment is reconciled against
// the whole schema.

use axum_auth::constants::EnvVar;
use axum_auth::err::ErrorKind;
use axum_auth::env::load;
use axum_auth::snapshot::EnvSnapshot;
use std::io::Write;
use tempfile::NamedTempFile;

fn write_env_file(lines: &[String]) -> NamedTempFile {
    let mut file = NamedTempFile::new().unwrap();
    for line in lines {
        file.write_all(line.as_bytes()).unwrap();
        file.write_all(b"\n").unwrap();
    }
    file
}

fn valid_lines(cert_path: &str) -> Vec<String> {
    vec![
        "APP_DB_NAME=mydb".to_string(),
        "APP_DB_HOST=localhost".to_string(),
        "APP_DB_PORT=5432".to_string(),
        "APP_DB_USER=u".to_string(),
        "APP_DB_PASS=p".to_string(),
        "APP_DB_SSL_MODE=require".to_string(),
        format!("APP_PATH_TO_DB_SSL_ROOT_CERT={}", cert_path),
    ]
}

// A file carrying every required variable with a valid value
// validates successfully.
#[test]
fn test_scenario_valid_environment() {
    let cert = NamedTempFile::new().unwrap();
    let file = write_env_file(&valid_lines(cert.path().to_str().unwrap()));

    let result = load(file.path().to_str().unwrap(), "APP_", &EnvVar::all(), false);
    assert_eq!(result, Ok(()));
}

// A port outside the u16 range is an invalid value for DB_PORT.
#[test]
fn test_scenario_port_out_of_range() {
    let cert = NamedTempFile::new().unwrap();
    let mut lines = valid_lines(cert.path().to_str().unwrap());
    lines[2] = "APP_DB_PORT=99999".to_string();
    let file = write_env_file(&lines);

    let err = load(file.path().to_str().unwrap(), "APP_", &EnvVar::all(), false).unwrap_err();
    let type_err = EnvVar::DbPort.type_().verify("99999").unwrap_err();
    let expected = EnvVar::DbPort.name_error("APP_", type_err);
    assert_eq!(err, expected);
    assert_eq!(err.kind, ErrorKind::InvalidValueType);
    assert!(err.message.contains("APP_DB_PORT"));
    assert!(err.message.contains("U16"));
    assert!(err.message.contains("99999"));
}

// An SSL mode outside the allowed set is an invalid value for
// DB_SSL_MODE, and the report lists the allowed set.
#[test]
fn test_scenario_bad_ssl_mode() {
    let cert = NamedTempFile::new().unwrap();
    let mut lines = valid_lines(cert.path().to_str().unwrap());
    lines[5] = "APP_DB_SSL_MODE=turbo".to_string();
    let file = write_env_file(&lines);

    let err = load(file.path().to_str().unwrap(), "APP_", &EnvVar::all(), false).unwrap_err();
    let type_err = EnvVar::DbSslMode.type_().verify("turbo").unwrap_err();
    let expected = EnvVar::DbSslMode.name_error("APP_", type_err);
    assert_eq!(err, expected);
    assert_eq!(err.kind, ErrorKind::InvalidValueType);
    assert!(err.message.contains("APP_DB_SSL_MODE"));
    assert!(err.message.contains("turbo"));
    for mode in ["disable", "allow", "prefer", "require", "verify-ca", "verify-full"] {
        assert!(err.message.contains(mode));
    }
}

// A file omitting the password reports exactly that one variable as
// missing.
#[test]
fn test_scenario_missing_password() {
    let cert = NamedTempFile::new().unwrap();
    let mut lines = valid_lines(cert.path().to_str().unwrap());
    lines.remove(4);
    let file = write_env_file(&lines);

    let err = load(file.path().to_str().unwrap(), "APP_", &EnvVar::all(), false).unwrap_err();
    assert_eq!(err.kind, ErrorKind::MissingVariable);
    assert_eq!(err.message, "Missing environment variables: 'APP_DB_PASS'");
}

// A file path that does not exist fails with the file error, naming
// the attempted path.
#[test]
fn test_scenario_file_does_not_exist() {
    let err = load(
        "/path/to/env/file/that/does/not/exist",
        "APP_",
        &EnvVar::all(),
        false,
    )
    .unwrap_err();
    assert_eq!(err.kind, ErrorKind::EnvironmentFile);
    assert!(err.message.contains("/path/to/env/file/that/does/not/exist"));
    assert!(err.source.is_some());
}

// An extra variable under the prefix is tolerated by default and
// reported in strict mode.
#[test]
fn test_scenario_extra_variable() {
    let cert = NamedTempFile::new().unwrap();
    let mut lines = valid_lines(cert.path().to_str().unwrap());
    lines.push("APP_UNRELATED=x".to_string());
    let file = write_env_file(&lines);
    let path = file.path().to_str().unwrap();

    assert_eq!(load(path, "APP_", &EnvVar::all(), false), Ok(()));

    let err = load(path, "APP_", &EnvVar::all(), true).unwrap_err();
    assert_eq!(err.kind, ErrorKind::UnknownVariable);
    assert!(err.message.contains("APP_UNRELATED"));
}

// Running the reconciliation twice with the same file and an
// unchanged process environment repeats the outcome.
#[test]
fn test_scenario_repeat_load_same_outcome() {
    let cert = NamedTempFile::new().unwrap();
    let file = write_env_file(&valid_lines(cert.path().to_str().unwrap()));
    let path = file.path().to_str().unwrap();

    let first = load(path, "APP_", &EnvVar::all(), false);
    let second = load(path, "APP_", &EnvVar::all(), false);
    assert_eq!(first, second);
    assert_eq!(first, Ok(()));

    let bad_file = write_env_file(&["BADAPP_DB_PORT=99999".to_string()]);
    let bad_path = bad_file.path().to_str().unwrap();
    let first = load(bad_path, "BADAPP_", &EnvVar::all(), false);
    let second = load(bad_path, "BADAPP_", &EnvVar::all(), false);
    assert_eq!(first, second);
    assert!(first.is_err());
}

// The per-variable accessors read through the snapshot: a present
// variable yields its value, an absent one the unset error.
#[test]
fn test_variable_value_and_verify_against_snapshot() {
    let mut snapshot = EnvSnapshot::new();
    snapshot.push("APP_DB_NAME".to_string(), "mydb".to_string());

    assert_eq!(
        EnvVar::DbName.value("APP_", &snapshot),
        Ok("mydb".to_string())
    );
    assert_eq!(EnvVar::DbName.verify("APP_", &snapshot), Ok(()));

    let err = EnvVar::DbPort.value("APP_", &snapshot).unwrap_err();
    assert_eq!(err.kind, ErrorKind::Env);
    assert_eq!(err.message, "Environment variable is not set: 'APP_DB_PORT'");
    assert!(err.source.is_none());

    let mut bad = EnvSnapshot::new();
    bad.push("APP_DB_PORT".to_string(), "abc".to_string());
    let err = EnvVar::DbPort.verify("APP_", &bad).unwrap_err();
    let type_err = EnvVar::DbPort.type_().verify("abc").unwrap_err();
    assert_eq!(
        err.message,
        format!("Variable 'APP_DB_PORT': {}", type_err.message)
    );
    assert_eq!(err.source, type_err.source);
}

// `verify_all` walks the schema in declaration order and stops at
// the first failure.
#[test]
fn test_verify_all_against_snapshot() {
    let cert = NamedTempFile::new().unwrap();
    let cert_path = cert.path().to_str().unwrap();

    let mut snapshot = EnvSnapshot::new();
    snapshot.push("APP_DB_NAME".to_string(), "mydb".to_string());
    snapshot.push("APP_DB_HOST".to_string(), "localhost".to_string());
    snapshot.push("APP_DB_PORT".to_string(), "5432".to_string());
    snapshot.push("APP_DB_USER".to_string(), "u".to_string());
    snapshot.push("APP_DB_PASS".to_string(), "p".to_string());
    snapshot.push("APP_DB_SSL_MODE".to_string(), "require".to_string());
    snapshot.push("APP_PATH_TO_DB_SSL_ROOT_CERT".to_string(), cert_path.to_string());

    assert_eq!(EnvVar::verify_all("APP_", &snapshot), Ok(()));

    let mut broken = snapshot;
    broken.push("IGNORED".to_string(), "x".to_string());
    assert_eq!(EnvVar::verify_all("APP_", &broken), Ok(()));
}

// Duplicate keys in a snapshot: the first occurrence wins.
#[test]
fn test_snapshot_first_occurrence_wins() {
    let mut snapshot = EnvSnapshot::new();
    snapshot.push("APP_DB_NAME".to_string(), "first".to_string());
    snapshot.push("APP_DB_NAME".to_string(), "second".to_string());

    assert_eq!(snapshot.get("APP_DB_NAME"), Some("first".to_string()));
    assert_eq!(snapshot.len(), 2);
    assert_eq!(
        EnvVar::DbName.value("APP_", &snapshot),
        Ok("first".to_string())
    );
}
