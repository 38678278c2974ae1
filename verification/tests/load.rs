// Tests for the `load` function: loading an environment file and
// validating the process environment against the whole schema.
//
// Each test uses its own namespace prefix, so the variables one test
// merges into the process environment cannot leak into another.

use axum_auth::constants::EnvVar;
use axum_auth::err::{AppError, ErrorKind};
use axum_auth::env::load;
use axum_auth::types::AppType;
use std::io::Write;
use tempfile::NamedTempFile;

fn create_env_file(contents: &str) -> NamedTempFile {
    let mut file = NamedTempFile::new().unwrap();
    file.write_all(contents.as_bytes()).unwrap();
    file
}

fn make_file_contents(prefix: &str, vars: Vec<(&str, &str)>) -> String {
    let mut contents: String = String::new();

    for (name, value) in vars.iter() {
        contents.push_str(&format!("{}{}={}\n", prefix, name, value));
    }

    contents
}

fn schema_values<'a>(port: &'a str, cert_path: &'a str) -> Vec<(&'a str, &'a str)> {
    vec![
        ("DB_NAME", "mydb"),
        ("DB_HOST", "localhost"),
        ("DB_PORT", port),
        ("DB_USER", "u"),
        ("DB_PASS", "p"),
        ("DB_SSL_MODE", "require"),
        ("PATH_TO_DB_SSL_ROOT_CERT", cert_path),
    ]
}

// Tests the `load` function when the file path is valid,
// the file contains all the required environment variables
// and the types of the variables are correct.
#[test]
fn test_env_load() {
    let prefix: &str = "LOADA_";
    let cert = NamedTempFile::new().unwrap();
    let cert_path = cert.path().to_str().unwrap();

    let file_contents = make_file_contents(prefix, schema_values("5432", cert_path));
    let file = create_env_file(file_contents.as_str());

    let result = load(file.path().to_str().unwrap(), prefix, &EnvVar::all(), false);

    assert_eq!(result, Ok(()));
}

// Tests the `load` function when the file path is valid,
// the file contains all the required environment variables
// but the types of the variables are incorrect.
#[test]
fn test_env_load_invalid_type() {
    let prefix: &str = "LOADB_";
    let cert = NamedTempFile::new().unwrap();
    let cert_path = cert.path().to_str().unwrap();

    let file_contents = make_file_contents(prefix, schema_values("INVALID", cert_path));
    let file = create_env_file(file_contents.as_str());

    let result: AppError = load(file.path().to_str().unwrap(), prefix, &EnvVar::all(), false)
        .unwrap_err();
    let type_err: AppError = AppType::U16.verify("INVALID").unwrap_err();
    let expected: AppError = EnvVar::DbPort.name_error(prefix, type_err);

    assert_eq!(result, expected);
    assert!(result.message.contains("LOADB_DB_PORT"));
}

// Tests the `load` function when the file path is valid,
// the file contains all the required environment variables
// but the file contains more variables than required.
#[test]
fn test_env_load_exceeding() {
    let prefix: &str = "LOADC_";
    let cert = NamedTempFile::new().unwrap();
    let cert_path = cert.path().to_str().unwrap();

    let mut values = schema_values("5432", cert_path);
    values.push(("EXTRA_VAR", "EXTRA_VAL"));
    let file_contents = make_file_contents(prefix, values);
    let file = create_env_file(file_contents.as_str());

    let result = load(file.path().to_str().unwrap(), prefix, &EnvVar::all(), false);

    assert_eq!(result, Ok(()));
}

// Tests the `load` function when the file path is valid,
// but the file contains less variables than required.
#[test]
fn test_env_load_missing() {
    let prefix: &str = "LOADD_";
    let cert = NamedTempFile::new().unwrap();
    let cert_path = cert.path().to_str().unwrap();

    let mut values = schema_values("5432", cert_path);
    values.retain(|(name, _)| *name != "DB_PORT");
    let file_contents = make_file_contents(prefix, values);
    let file = create_env_file(file_contents.as_str());

    let result: AppError = load(file.path().to_str().unwrap(), prefix, &EnvVar::all(), false)
        .unwrap_err();

    let expected = AppError {
        kind: ErrorKind::MissingVariable,
        message: "Missing environment variables: 'LOADD_DB_PORT'".to_string(),
        source: None,
    };

    assert_eq!(result, expected);
}

// Tests the `load` function when the file path is valid,
// the file contains more variables than required but also
// has missing variables.
#[test]
fn test_env_load_exceeding_and_missing() {
    let prefix: &str = "LOADE_";
    let cert = NamedTempFile::new().unwrap();
    let cert_path = cert.path().to_str().unwrap();

    let mut values = schema_values("5432", cert_path);
    values.retain(|(name, _)| *name != "DB_PORT");
    values.push(("EXTRA_VAR", "EXTRA_VAL"));
    let file_contents = make_file_contents(prefix, values);
    let file = create_env_file(file_contents.as_str());

    let result: AppError = load(file.path().to_str().unwrap(), prefix, &EnvVar::all(), false)
        .unwrap_err();

    let expected = AppError {
        kind: ErrorKind::MissingVariable,
        message: "Missing environment variables: 'LOADE_DB_PORT'".to_string(),
        source: None,
    };

    assert_eq!(result, expected);
}

// Tests the `load` function when the file path is invalid.
#[test]
fn test_env_load_non_existent() {
    let file_path: &str = "non_existent_file";

    let result: AppError = load(file_path, "LOADF_", &EnvVar::all(), false).unwrap_err();

    let kind = ErrorKind::EnvironmentFile;
    let message = format!(
        "Failed to load environment file at specified path: '{}'",
        file_path
    );

    let e: dotenvy::Error = dotenvy::from_filename(file_path).unwrap_err();
    let source = Some(e.to_string());

    let expected = AppError {
        kind,
        message,
        source,
    };

    assert_eq!(result, expected);
}
