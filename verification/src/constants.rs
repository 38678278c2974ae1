//! The schema registry: the closed set of required environment
//! variables, each with its canonical suffix name and its declared
//! type. The fully-prefixed name of a variable is the namespace
//! prefix concatenated with the suffix, with no separator.

use crate::err::{AppError, ErrorKind};
use crate::parse::{spec_parse_fail_text, spec_parse_u16};
use crate::snapshot::{env_contains, env_lookup, EnvSnapshot};
use crate::text::concat_strs;
use crate::types::{spec_err_msg, type_accepts, AppType, AppTypeView};
use vstd::prelude::*;
use vstd::string::StringExecFns;

verus! {

/// The required environment variables of the application.
#[derive(Debug, Clone, Copy, PartialEq, Eq, Hash, Structural)]
pub enum EnvVar {
    DbName,
    DbHost,
    DbPort,
    DbUser,
    DbPass,
    DbSslMode,
    PathToDbSslRootCert,
}

/// The allowed SSL modes, in order.
pub open spec fn spec_ssl_modes() -> Seq<Seq<char>> {
    seq![
        "disable"@,
        "allow"@,
        "prefer"@,
        "require"@,
        "verify-ca"@,
        "verify-full"@,
    ]
}

/// The whole schema, in declaration order.
pub open spec fn spec_all_vars() -> Seq<EnvVar> {
    seq![
        EnvVar::DbName,
        EnvVar::DbHost,
        EnvVar::DbPort,
        EnvVar::DbUser,
        EnvVar::DbPass,
        EnvVar::DbSslMode,
        EnvVar::PathToDbSslRootCert,
    ]
}

/// The message of the error reported when a required variable cannot
/// be fetched from the snapshot.
pub open spec fn spec_unset_msg(name: Seq<char>) -> Seq<char> {
    "Environment variable is not set: '"@ + name + "'"@
}

/// The message of an invalid-value error at the schema level: the
/// offending variable's prefixed name, then the type verifier's own
/// report of the expected type and the offending value.
pub open spec fn spec_named_err_msg(name: Seq<char>, t: AppTypeView, v: Seq<char>) -> Seq<
    char,
> {
    "Variable '"@ + name + "': "@ + spec_err_msg(t, v)
}

impl EnvVar {
    /// The variable's suffix name, without the namespace prefix.
    pub open spec fn spec_suffix(self) -> Seq<char> {
        match self {
            EnvVar::DbName => "DB_NAME"@,
            EnvVar::DbHost => "DB_HOST"@,
            EnvVar::DbPort => "DB_PORT"@,
            EnvVar::DbUser => "DB_USER"@,
            EnvVar::DbPass => "DB_PASS"@,
            EnvVar::DbSslMode => "DB_SSL_MODE"@,
            EnvVar::PathToDbSslRootCert => "PATH_TO_DB_SSL_ROOT_CERT"@,
        }
    }

    /// The variable's fully-prefixed name.
    pub open spec fn spec_name(self, prefix: Seq<char>) -> Seq<char> {
        prefix + self.spec_suffix()
    }

    /// The variable's declared type, as a mathematical value.
    pub open spec fn spec_type_view(self) -> AppTypeView {
        match self {
            EnvVar::DbName => AppTypeView::Text,
            EnvVar::DbHost => AppTypeView::Text,
            EnvVar::DbPort => AppTypeView::U16,
            EnvVar::DbUser => AppTypeView::Text,
            EnvVar::DbPass => AppTypeView::Text,
            EnvVar::DbSslMode => AppTypeView::Enum(spec_ssl_modes()),
            EnvVar::PathToDbSslRootCert => AppTypeView::FilePath,
        }
    }

    /// The variable's verification depends on the disk, not on its
    /// value's characters alone.
    pub open spec fn spec_disk_checked(self) -> bool {
        self.spec_type_view() is FilePath
    }

    /// What a successful verification of this variable establishes:
    /// the variable is present, and its value satisfies the
    /// character-level part of its type's rule.
    pub open spec fn spec_pass_evidence(
        self,
        prefix: Seq<char>,
        env: Seq<(Seq<char>, Seq<char>)>,
    ) -> bool {
        match env_lookup(env, self.spec_name(prefix)) {
            Option::None => false,
            Option::Some(v) => type_accepts(self.spec_type_view(), v),
        }
    }

    /// What a failed verification of this variable establishes about
    /// the reported error: an absent variable gives the unset error,
    /// an unacceptable value the invalid-value error; for a variable
    /// whose type is checked against the disk the value itself may
    /// nevertheless satisfy the character-level rule.
    pub open spec fn spec_fail_evidence(
        self,
        prefix: Seq<char>,
        env: Seq<(Seq<char>, Seq<char>)>,
        e: AppError,
    ) -> bool {
        match env_lookup(env, self.spec_name(prefix)) {
            Option::None => {
                &&& e.kind == ErrorKind::Env
                &&& e.message@ == spec_unset_msg(self.spec_name(prefix))
                &&& e.source is None
            },
            Option::Some(v) => {
                &&& e.kind == ErrorKind::InvalidValueType
                &&& e.message@ == spec_named_err_msg(self.spec_name(prefix), self.spec_type_view(), v)
                &&& (!self.spec_disk_checked() ==> !type_accepts(self.spec_type_view(), v))
                &&& (self.spec_type_view() is U16 ==> e.source is Some && e.source->0@
                    == spec_parse_fail_text(spec_parse_u16(v)->Err_0))
                &&& (self.spec_type_view() is Text || self.spec_type_view() is Enum
                    ==> e.source is None)
            },
        }
    }

    /// The complete, fixed schema, in declaration order.
    pub fn all() -> (v: Vec<EnvVar>)
        ensures
            v@ == spec_all_vars(),
    {
        let v = vec![
            EnvVar::DbName,
            EnvVar::DbHost,
            EnvVar::DbPort,
            EnvVar::DbUser,
            EnvVar::DbPass,
            EnvVar::DbSslMode,
            EnvVar::PathToDbSslRootCert,
        ];
        proof {
            assert(v@ =~= spec_all_vars());
        }
        v
    }

    /// The variable's fully-prefixed name under the given prefix.
    pub fn name(&self, var_prefix: &str) -> (n: String)
        ensures
            n@ == self.spec_name(var_prefix@),
    {
        let suffix: &str = match self {
            EnvVar::DbName => "DB_NAME",
            EnvVar::DbHost => "DB_HOST",
            EnvVar::DbPort => "DB_PORT",
            EnvVar::DbUser => "DB_USER",
            EnvVar::DbPass => "DB_PASS",
            EnvVar::DbSslMode => "DB_SSL_MODE",
            EnvVar::PathToDbSslRootCert => "PATH_TO_DB_SSL_ROOT_CERT",
        };
        Self::construct_name(var_prefix, suffix)
    }

    /// The variable's declared type.
    pub fn type_(&self) -> (t: AppType)
        ensures
            t@ == self.spec_type_view(),
    {
        match self {
            EnvVar::DbName => AppType::Text,
            EnvVar::DbHost => AppType::Text,
            EnvVar::DbPort => AppType::U16,
            EnvVar::DbUser => AppType::Text,
            EnvVar::DbPass => AppType::Text,
            EnvVar::DbSslMode => {
                let modes: &'static [&'static str] = &[
                    "disable",
                    "allow",
                    "prefer",
                    "require",
                    "verify-ca",
                    "verify-full",
                ];
                proof {
                    assert(modes.deep_view() =~= spec_ssl_modes());
                }
                AppType::Enum(modes)
            },
            EnvVar::PathToDbSslRootCert => AppType::FilePath,
        }
    }

    /// The variable's value in the snapshot, under the given prefix;
    /// an absent variable is the unset error.
    pub fn value(&self, var_prefix: &str, loaded: &EnvSnapshot) -> (r: Result<String, AppError>)
        ensures
            match env_lookup(loaded@, self.spec_name(var_prefix@)) {
                Option::Some(v) => r is Ok && r->Ok_0@ == v,
                Option::None => ({
                    &&& r is Err
                    &&& r->Err_0.kind == ErrorKind::Env
                    &&& r->Err_0.message@ == spec_unset_msg(self.spec_name(var_prefix@))
                    &&& r->Err_0.source is None
                }),
            },
    {
        let name = self.name(var_prefix);
        match loaded.get(name.as_str()) {
            Option::Some(v) => Result::Ok(v),
            Option::None => {
                let mut message = String::new();
                message.append("Environment variable is not set: '");
                message.append(name.as_str());
                message.append("'");
                proof {
                    assert(message@ =~= spec_unset_msg(self.spec_name(var_prefix@)));
                }
                Result::Err(AppError::new(ErrorKind::Env, message, Option::None))
            },
        }
    }

    /// Prefixes a type-verification error's message with the
    /// offending variable's name: every reported invalid value must
    /// identify the variable it was found under.
    pub fn name_error(&self, var_prefix: &str, e: AppError) -> (r: AppError)
        ensures
            r.kind == e.kind,
            r.source == e.source,
            r.message@ == "Variable '"@ + self.spec_name(var_prefix@) + "': "@ + e.message@,
    {
        let name = self.name(var_prefix);
        let mut message = String::new();
        message.append("Variable '");
        message.append(name.as_str());
        message.append("': ");
        message.append(e.message.as_str());
        proof {
            assert(message@ =~= "Variable '"@ + self.spec_name(var_prefix@) + "': "@
                + e.message@);
        }
        AppError::new(e.kind, message, e.source)
    }

    /// Fetches the variable's value from the snapshot and verifies it
    /// against the variable's declared type; an invalid value is
    /// reported under the variable's prefixed name.
    pub fn verify(&self, var_prefix: &str, loaded: &EnvSnapshot) -> (r: Result<(), AppError>)
        ensures
            r is Ok ==> self.spec_pass_evidence(var_prefix@, loaded@),
            r is Err ==> self.spec_fail_evidence(var_prefix@, loaded@, r->Err_0),
            !self.spec_disk_checked() ==> (r is Ok <==> self.spec_pass_evidence(
                var_prefix@,
                loaded@,
            )),
    {
        match self.value(var_prefix, loaded) {
            Result::Err(e) => Result::Err(e),
            Result::Ok(v) => match self.type_().verify(v.as_str()) {
                Result::Ok(_) => Result::Ok(()),
                Result::Err(e) => Result::Err(self.name_error(var_prefix, e)),
            },
        }
    }

    /// Verifies every variable of the schema in declaration order,
    /// stopping at the first failure.
    pub fn verify_all(var_prefix: &str, loaded: &EnvSnapshot) -> (r: Result<(), AppError>)
        ensures
            r is Ok ==> forall|i: int|
                0 <= i < spec_all_vars().len() ==> spec_all_vars()[i].spec_pass_evidence(
                    var_prefix@,
                    loaded@,
                ),
            r is Err ==> exists|i: int|
                {
                    &&& 0 <= i < spec_all_vars().len()
                    &&& spec_all_vars()[i].spec_fail_evidence(var_prefix@, loaded@, r->Err_0)
                    &&& forall|j: int|
                        0 <= j < i ==> spec_all_vars()[j].spec_pass_evidence(
                            var_prefix@,
                            loaded@,
                        )
                },
    {
        let vars = Self::all();
        let mut i: usize = 0;
        while i < vars.len()
            invariant
                i <= vars@.len(),
                vars@ == spec_all_vars(),
                forall|j: int| 0 <= j < i ==> spec_all_vars()[j].spec_pass_evidence(
                    var_prefix@,
                    loaded@,
                ),
            decreases vars@.len() - i,
        {
            let var = vars[i];
            match var.verify(var_prefix, loaded) {
                Result::Ok(_) => {},
                Result::Err(e) => {
                    return Result::Err(e);
                },
            }
            i = i + 1;
        }
        Result::Ok(())
    }

    /// Concatenates a prefix and a suffix name, with no separator.
    fn construct_name(prefix: &str, name: &str) -> (r: String)
        ensures
            r@ == prefix@ + name@,
    {
        concat_strs(prefix, name)
    }
}

} // verus!
