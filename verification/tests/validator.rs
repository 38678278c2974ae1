// Tests for the validator: reconciliation of required variables
// against a loaded snapshot.

use axum_auth::constants::EnvVar;
use axum_auth::err::{AppError, ErrorKind};
use axum_auth::snapshot::EnvSnapshot;
use axum_auth::validator::validate;

const PREFIX: &str = "APP_";

// Test `validate` function when all
// required variables are present, have
// correct types and are prefixed.
#[test]
fn test_validate_all_present() {
    let required_vars = vec![EnvVar::DbName, EnvVar::DbPort];

    let mut loaded_vars = EnvSnapshot::new();
    loaded_vars.push("APP_DB_NAME".to_string(), "my_db".to_string());
    loaded_vars.push("APP_DB_PORT".to_string(), "5432".to_string());

    let result = validate(PREFIX, &required_vars, &loaded_vars, false);

    assert_eq!(
        result,
        Ok(()),
        "validate function failed when it was expected to pass."
    );
}

// Test `validate` function when some required
// variables are missing i.e. they are not defined
// or they dont have the correct prefix.
#[test]
fn test_validate_missing() {
    let required_vars = vec![EnvVar::DbName, EnvVar::DbPort, EnvVar::DbUser];

    let mut loaded_vars = EnvSnapshot::new();
    loaded_vars.push("APP_DB_NAME".to_string(), "my_db".to_string());
    loaded_vars.push("OTHER_DB_PORT".to_string(), "5432".to_string());

    let result = validate(PREFIX, &required_vars, &loaded_vars, false);

    let expected_kind = ErrorKind::MissingVariable;
    let expected_message =
        "Missing environment variables: 'APP_DB_PORT, APP_DB_USER'".to_string();
    let expected_source = None;

    let expected_err = AppError {
        kind: expected_kind,
        message: expected_message,
        source: expected_source,
    };

    assert_eq!(
        result.unwrap_err(),
        expected_err,
        "validate function succeeded when it was expected to fail."
    );
}

// Unknown prefixed entries are tolerated by default and rejected in
// strict mode, with every unknown name listed.
#[test]
fn test_validate_unknown_strict_and_lenient() {
    let required_vars = vec![EnvVar::DbName];

    let mut loaded_vars = EnvSnapshot::new();
    loaded_vars.push("APP_DB_NAME".to_string(), "my_db".to_string());
    loaded_vars.push("APP_EXTRA_ONE".to_string(), "x".to_string());
    loaded_vars.push("APP_EXTRA_TWO".to_string(), "y".to_string());

    assert_eq!(validate(PREFIX, &required_vars, &loaded_vars, false), Ok(()));

    let err = validate(PREFIX, &required_vars, &loaded_vars, true).unwrap_err();
    assert_eq!(err.kind, ErrorKind::UnknownVariable);
    assert_eq!(
        err.message,
        "Unknown environment variables: 'APP_EXTRA_ONE, APP_EXTRA_TWO'"
    );
}

// In strict mode the unknown check runs before the missing check.
#[test]
fn test_validate_unknown_precedes_missing() {
    let required_vars = vec![EnvVar::DbName, EnvVar::DbPort];

    let mut loaded_vars = EnvSnapshot::new();
    loaded_vars.push("APP_DB_NAME".to_string(), "my_db".to_string());
    loaded_vars.push("APP_EXTRA".to_string(), "x".to_string());

    let err = validate(PREFIX, &required_vars, &loaded_vars, true).unwrap_err();
    assert_eq!(err.kind, ErrorKind::UnknownVariable);

    let err = validate(PREFIX, &required_vars, &loaded_vars, false).unwrap_err();
    assert_eq!(err.kind, ErrorKind::MissingVariable);
    assert_eq!(err.message, "Missing environment variables: 'APP_DB_PORT'");
}

// The missing check precedes the type check, and the type check
// reports the first offender in declaration order.
#[test]
fn test_validate_missing_precedes_types() {
    let required_vars = vec![EnvVar::DbName, EnvVar::DbPort];

    let mut loaded_vars = EnvSnapshot::new();
    loaded_vars.push("APP_DB_NAME".to_string(), "".to_string());

    let err = validate(PREFIX, &required_vars, &loaded_vars, false).unwrap_err();
    assert_eq!(err.kind, ErrorKind::MissingVariable);

    loaded_vars.push("APP_DB_PORT".to_string(), "not_a_port".to_string());
    let err = validate(PREFIX, &required_vars, &loaded_vars, false).unwrap_err();
    assert_eq!(err.kind, ErrorKind::InvalidValueType);
    assert!(err.message.contains("APP_DB_NAME"));
    assert!(err.message.contains("Text"));
}

// Validation reads values through the prefixed name only: a suffix
// without its prefix does not count.
#[test]
fn test_validate_requires_prefixed_names() {
    let required_vars = vec![EnvVar::DbName];

    let mut loaded_vars = EnvSnapshot::new();
    loaded_vars.push("DB_NAME".to_string(), "my_db".to_string());

    let err = validate(PREFIX, &required_vars, &loaded_vars, false).unwrap_err();
    assert_eq!(err.kind, ErrorKind::MissingVariable);
    assert_eq!(err.message, "Missing environment variables: 'APP_DB_NAME'");
}
