//! Loading of the environment file, and the end-to-end entry point
//! that loads the file and then validates the process environment
//! against the schema.

use crate::constants::EnvVar;
use crate::err::{AppError, ErrorKind};
use crate::snapshot::EnvSnapshot;
use crate::validator::{spec_validate_contract, validate};
use vstd::prelude::*;
use vstd::string::StringExecFns;

verus! {

/// The message of the error reported when the environment file
/// cannot be loaded.
pub open spec fn spec_load_fail_msg(path: Seq<char>) -> Seq<char> {
    "Failed to load environment file at specified path: '"@ + path + "'"@
}

/// Relies on `dotenvy::from_filename`: parses the file as KEY=VALUE
/// lines and merges each pair into the process environment, keeping
/// variables that are already set; a relative path is looked for in
/// the current directory and its ancestors. `Err` carries the
/// rendered cause when no file is found, it cannot be read, or a
/// line is malformed.
#[verifier::external_body]
fn dotenv_from_filename(file_path: &str) -> Result<(), String> {
    match dotenvy::from_filename(file_path) {
        Ok(_) => Ok(()),
        Err(e) => Err(e.to_string()),
    }
}

/// Relies on `dotenvy::vars`: a snapshot of the process
/// environment's key/value pairs at the time of the call (the crate
/// first attempts, once per process, to merge a default env file,
/// ignoring failure).
#[verifier::external_body]
fn process_env_pairs() -> Vec<(String, String)> {
    dotenvy::vars().collect()
}

/// Loads the environment file at the given path into the process
/// environment. Every failure is reported with the kind
/// `EnvironmentFile` and a message naming the attempted path, the
/// loader's own message attached as the source.
pub fn load_file(file_path: &str) -> (r: Result<(), AppError>)
    ensures
        r is Err ==> ({
            let e = r->Err_0;
            &&& e.kind == ErrorKind::EnvironmentFile
            &&& e.message@ == spec_load_fail_msg(file_path@)
            &&& e.source is Some
        }),
{
    match dotenv_from_filename(file_path) {
        Result::Ok(_) => Result::Ok(()),
        Result::Err(cause) => {
            let mut message = String::new();
            message.append("Failed to load environment file at specified path: '");
            message.append(file_path);
            message.append("'");
            proof {
                assert(message@ =~= spec_load_fail_msg(file_path@));
            }
            Result::Err(
                AppError::new(ErrorKind::EnvironmentFile, message, Option::Some(cause)),
            )
        },
    }
}

/// Loads the environment file and validates the process environment
/// against the given variables.
///
/// A file failure is reported first, as `load_file` states, and
/// nothing else runs. Otherwise the outcome is a validation outcome,
/// as `spec_validate_contract` states, on the snapshot of the
/// process environment taken after the load.
pub fn load(
    file_path: &str,
    var_prefix: &str,
    vars_to_validate: &Vec<EnvVar>,
    strict: bool,
) -> (r: Result<(), AppError>)
    ensures
        r is Err && r->Err_0.kind == ErrorKind::EnvironmentFile ==> ({
            &&& r->Err_0.message@ == spec_load_fail_msg(file_path@)
            &&& r->Err_0.source is Some
        }),
        !(r is Err && r->Err_0.kind == ErrorKind::EnvironmentFile) ==> exists|
            env: Seq<(Seq<char>, Seq<char>)>,
        | spec_validate_contract(var_prefix@, vars_to_validate@, env, strict, r),
{
    match load_file(file_path) {
        Result::Err(e) => {
            return Result::Err(e);
        },
        Result::Ok(_) => {},
    }
    let loaded = EnvSnapshot::from_pairs(process_env_pairs());
    let r = validate(var_prefix, vars_to_validate, &loaded, strict);
    proof {
        assert(spec_validate_contract(var_prefix@, vars_to_validate@, loaded@, strict, r));
    }
    r
}

} // verus!
