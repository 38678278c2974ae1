//! Reconciliation of the declared schema against a loaded
//! environment snapshot: unknown-variable detection, aggregate
//! missing-variable detection, then per-variable type verification,
//! in that order.

use crate::constants::EnvVar;
use crate::err::{AppError, ErrorKind};
use crate::snapshot::{env_contains, EnvSnapshot};
use crate::text::{join_with, spec_join, spec_starts_with, str_eq, str_starts_with};
use crate::types::allowed_contains;
use vstd::prelude::*;
use vstd::string::StringExecFns;

verus! {

/// The fully-prefixed names of the given variables, in order.
pub open spec fn spec_required_names(vars: Seq<EnvVar>, prefix: Seq<char>) -> Seq<Seq<char>>
    decreases vars.len(),
{
    if vars.len() == 0 {
        Seq::empty()
    } else {
        spec_required_names(vars.drop_last(), prefix).push(vars.last().spec_name(prefix))
    }
}

/// The pairs of `env` whose key starts with `prefix`, in order.
pub open spec fn spec_filter_prefix(
    env: Seq<(Seq<char>, Seq<char>)>,
    prefix: Seq<char>,
) -> Seq<(Seq<char>, Seq<char>)>
    decreases env.len(),
{
    if env.len() == 0 {
        Seq::empty()
    } else {
        let rest = spec_filter_prefix(env.drop_last(), prefix);
        if spec_starts_with(env.last().0, prefix) {
            rest.push(env.last())
        } else {
            rest
        }
    }
}

/// The keys of `env` that are not among the required names, in order.
pub open spec fn spec_unknown_names(
    env: Seq<(Seq<char>, Seq<char>)>,
    required: Seq<Seq<char>>,
) -> Seq<Seq<char>>
    decreases env.len(),
{
    if env.len() == 0 {
        Seq::empty()
    } else {
        let rest = spec_unknown_names(env.drop_last(), required);
        if !allowed_contains(required, env.last().0) {
            rest.push(env.last().0)
        } else {
            rest
        }
    }
}

/// The required names absent from `env`, in order.
pub open spec fn spec_missing_names(
    required: Seq<Seq<char>>,
    env: Seq<(Seq<char>, Seq<char>)>,
) -> Seq<Seq<char>>
    decreases required.len(),
{
    if required.len() == 0 {
        Seq::empty()
    } else {
        let rest = spec_missing_names(required.drop_last(), env);
        if !env_contains(env, required.last()) {
            rest.push(required.last())
        } else {
            rest
        }
    }
}

/// The message reported for unknown variables.
pub open spec fn spec_unknown_msg(names: Seq<Seq<char>>) -> Seq<char> {
    "Unknown environment variables: '"@ + spec_join(names, ", "@) + "'"@
}

/// The message reported for missing variables.
pub open spec fn spec_missing_msg(names: Seq<Seq<char>>) -> Seq<char> {
    "Missing environment variables: '"@ + spec_join(names, ", "@) + "'"@
}

/// The outcome of the presence stage: the unknown check (in strict
/// mode only) runs first, then the aggregate missing check; `None`
/// means both passed.
pub open spec fn spec_presence_error(
    prefix: Seq<char>,
    required: Seq<Seq<char>>,
    env: Seq<(Seq<char>, Seq<char>)>,
    strict: bool,
) -> Option<(ErrorKind, Seq<char>)> {
    let env_p = spec_filter_prefix(env, prefix);
    let unknown = spec_unknown_names(env_p, required);
    let missing = spec_missing_names(required, env_p);
    if strict && unknown.len() > 0 {
        Option::Some((ErrorKind::UnknownVariable, spec_unknown_msg(unknown)))
    } else if missing.len() > 0 {
        Option::Some((ErrorKind::MissingVariable, spec_missing_msg(missing)))
    } else {
        Option::None
    }
}

/// Everything `validate` promises of its outcome `r`: a presence
/// failure is reported exactly as `spec_presence_error` says; when
/// presence passes, success establishes every variable's evidence and
/// failure reports the first variable that failed.
pub open spec fn spec_validate_contract(
    prefix: Seq<char>,
    vars: Seq<EnvVar>,
    env: Seq<(Seq<char>, Seq<char>)>,
    strict: bool,
    r: Result<(), AppError>,
) -> bool {
    match spec_presence_error(prefix, spec_required_names(vars, prefix), env, strict) {
        Option::Some(km) => {
            &&& r is Err
            &&& r->Err_0.kind == km.0
            &&& r->Err_0.message@ == km.1
            &&& r->Err_0.source is None
        },
        Option::None => {
            &&& (r is Ok ==> forall|i: int|
                0 <= i < vars.len() ==> vars[i].spec_pass_evidence(prefix, env))
            &&& (r is Err ==> exists|i: int|
                {
                    &&& 0 <= i < vars.len()
                    &&& vars[i].spec_fail_evidence(prefix, env, r->Err_0)
                    &&& forall|j: int| 0 <= j < i ==> vars[j].spec_pass_evidence(prefix, env)
                })
        },
    }
}

/// Collects the pairs of the snapshot whose key starts with the
/// given prefix.
pub fn collect_app_vars(loaded: &EnvSnapshot, var_prefix: &str) -> (r: EnvSnapshot)
    ensures
        r@ == spec_filter_prefix(loaded@, var_prefix@),
{
    let mut r = EnvSnapshot::new();
    let n = loaded.len();
    let mut i: usize = 0;
    while i < n
        invariant
            i <= n,
            n == loaded@.len(),
            r@ == spec_filter_prefix(loaded@.take(i as int), var_prefix@),
        decreases n - i,
    {
        let (key, value) = loaded.pair_at(i);
        proof {
            let k = i + 1 as int;
            assert(loaded@.take(k).drop_last() =~= loaded@.take(i as int));
            assert(loaded@.take(k).last() == loaded@[i as int]);
        }
        if str_starts_with(key.as_str(), var_prefix) {
            let ghost prev = r@;
            r.push(key, value);
            proof {
                assert(r@ =~= prev.push(loaded@[i as int]));
            }
        }
        i = i + 1;
    }
    proof {
        assert(loaded@.take(n as int) =~= loaded@);
    }
    r
}

/// The fully-prefixed names of the given variables, in order.
pub fn names_of(vars: &Vec<EnvVar>, var_prefix: &str) -> (r: Vec<String>)
    ensures
        r.deep_view() == spec_required_names(vars@, var_prefix@),
{
    let mut r: Vec<String> = Vec::new();
    let mut i: usize = 0;
    while i < vars.len()
        invariant
            i <= vars@.len(),
            r.deep_view() == spec_required_names(vars@.take(i as int), var_prefix@),
        decreases vars@.len() - i,
    {
        let ghost prev = r.deep_view();
        let name = vars[i].name(var_prefix);
        proof {
            let k = i + 1 as int;
            assert(vars@.take(k).drop_last() =~= vars@.take(i as int));
            assert(vars@.take(k).last() == vars@[i as int]);
        }
        r.push(name);
        proof {
            assert(r.deep_view() =~= prev.push(vars@[i as int].spec_name(var_prefix@)));
        }
        i = i + 1;
    }
    proof {
        assert(vars@.take(vars@.len() as int) =~= vars@);
    }
    r
}

/// Whether `key` is one of the listed names, compared character by
/// character.
fn contains_name(names: &Vec<String>, key: &str) -> (r: bool)
    ensures
        r == allowed_contains(names.deep_view(), key@),
{
    let ghost dv = names.deep_view();
    let mut i: usize = 0;
    while i < names.len()
        invariant
            i <= names@.len(),
            dv == names.deep_view(),
            dv.len() == names@.len(),
            forall|j: int| 0 <= j < dv.len() ==> dv[j] == names@[j]@,
            forall|j: int| 0 <= j < i ==> dv[j] != key@,
        decreases names@.len() - i,
    {
        if str_eq(names[i].as_str(), key) {
            proof {
                assert(dv[i as int] == key@);
                assert(allowed_contains(dv, key@));
            }
            return true;
        }
        i = i + 1;
    }
    false
}

/// Checks for unknown variables: entries of the (already
/// prefix-restricted) snapshot whose key is not a required name. All
/// of them are collected and reported in one error.
pub fn check_unknown(loaded_vars: &EnvSnapshot, required_names: &Vec<String>) -> (r: Result<
    (),
    AppError,
>)
    ensures
        r is Ok <==> spec_unknown_names(loaded_vars@, required_names.deep_view()).len() == 0,
        r is Err ==> ({
            let e = r->Err_0;
            &&& e.kind == ErrorKind::UnknownVariable
            &&& e.message@ == spec_unknown_msg(
                spec_unknown_names(loaded_vars@, required_names.deep_view()),
            )
            &&& e.source is None
        }),
{
    let ghost req = required_names.deep_view();
    let mut unknown: Vec<String> = Vec::new();
    let n = loaded_vars.len();
    let mut i: usize = 0;
    while i < n
        invariant
            i <= n,
            n == loaded_vars@.len(),
            req == required_names.deep_view(),
            unknown.deep_view() == spec_unknown_names(loaded_vars@.take(i as int), req),
        decreases n - i,
    {
        let (key, _value) = loaded_vars.pair_at(i);
        proof {
            let k = i + 1 as int;
            assert(loaded_vars@.take(k).drop_last() =~= loaded_vars@.take(i as int));
            assert(loaded_vars@.take(k).last() == loaded_vars@[i as int]);
        }
        if !contains_name(required_names, key.as_str()) {
            let ghost prev = unknown.deep_view();
            unknown.push(key);
            proof {
                assert(unknown.deep_view() =~= prev.push(loaded_vars@[i as int].0));
            }
        }
        i = i + 1;
    }
    proof {
        assert(loaded_vars@.take(n as int) =~= loaded_vars@);
    }
    if unknown.len() == 0 {
        Result::Ok(())
    } else {
        let joined = join_with(&unknown, ", ");
        let mut message = String::new();
        message.append("Unknown environment variables: '");
        message.append(joined.as_str());
        message.append("'");
        proof {
            assert(message@ =~= spec_unknown_msg(spec_unknown_names(loaded_vars@, req)));
        }
        Result::Err(AppError::new(ErrorKind::UnknownVariable, message, Option::None))
    }
}

/// Checks for missing variables: required names absent from the
/// snapshot. The whole set difference is computed and reported in one
/// error, never just the first absentee.
pub fn check_missing(loaded_vars: &EnvSnapshot, required_names: &Vec<String>) -> (r: Result<
    (),
    AppError,
>)
    ensures
        r is Ok <==> spec_missing_names(required_names.deep_view(), loaded_vars@).len() == 0,
        r is Err ==> ({
            let e = r->Err_0;
            &&& e.kind == ErrorKind::MissingVariable
            &&& e.message@ == spec_missing_msg(
                spec_missing_names(required_names.deep_view(), loaded_vars@),
            )
            &&& e.source is None
        }),
{
    let ghost req = required_names.deep_view();
    let mut missing: Vec<String> = Vec::new();
    let mut i: usize = 0;
    while i < required_names.len()
        invariant
            i <= required_names@.len(),
            req == required_names.deep_view(),
            req.len() == required_names@.len(),
            forall|j: int| 0 <= j < req.len() ==> req[j] == required_names@[j]@,
            missing.deep_view() == spec_missing_names(req.take(i as int), loaded_vars@),
        decreases required_names@.len() - i,
    {
        proof {
            let k = i + 1 as int;
            assert(req.take(k).drop_last() =~= req.take(i as int));
            assert(req.take(k).last() == req[i as int]);
        }
        if !loaded_vars.contains_key(required_names[i].as_str()) {
            let ghost prev = missing.deep_view();
            let name = required_names[i].clone();
            missing.push(name);
            proof {
                assert(missing.deep_view() =~= prev.push(req[i as int]));
            }
        }
        i = i + 1;
    }
    proof {
        assert(req.take(required_names@.len() as int) =~= req);
    }
    if missing.len() == 0 {
        Result::Ok(())
    } else {
        let joined = join_with(&missing, ", ");
        let mut message = String::new();
        message.append("Missing environment variables: '");
        message.append(joined.as_str());
        message.append("'");
        proof {
            assert(message@ =~= spec_missing_msg(spec_missing_names(req, loaded_vars@)));
        }
        Result::Err(AppError::new(ErrorKind::MissingVariable, message, Option::None))
    }
}

/// Runs the presence stage: restricts the snapshot to the namespace
/// prefix, rejects unknown entries in strict mode, then rejects any
/// missing required variable, aggregating each report.
pub fn compare_required_with_process_env(
    var_prefix: &str,
    required_names: &Vec<String>,
    loaded: &EnvSnapshot,
    strict: bool,
) -> (r: Result<(), AppError>)
    ensures
        match spec_presence_error(
            var_prefix@,
            required_names.deep_view(),
            loaded@,
            strict,
        ) {
            Option::None => r is Ok,
            Option::Some(km) => {
                &&& r is Err
                &&& r->Err_0.kind == km.0
                &&& r->Err_0.message@ == km.1
                &&& r->Err_0.source is None
            },
        },
{
    let env_p = collect_app_vars(loaded, var_prefix);
    if strict {
        match check_unknown(&env_p, required_names) {
            Result::Ok(_) => {},
            Result::Err(e) => {
                return Result::Err(e);
            },
        }
    }
    match check_missing(&env_p, required_names) {
        Result::Ok(_) => Result::Ok(()),
        Result::Err(e) => Result::Err(e),
    }
}

/// Verifies every listed variable against the snapshot in order,
/// stopping at the first failure.
pub fn verify_types(
    var_prefix: &str,
    vars_to_validate: &Vec<EnvVar>,
    loaded: &EnvSnapshot,
) -> (r: Result<(), AppError>)
    ensures
        r is Ok ==> forall|i: int|
            0 <= i < vars_to_validate@.len() ==> vars_to_validate@[i].spec_pass_evidence(
                var_prefix@,
                loaded@,
            ),
        r is Err ==> exists|i: int|
            {
                &&& 0 <= i < vars_to_validate@.len()
                &&& vars_to_validate@[i].spec_fail_evidence(var_prefix@, loaded@, r->Err_0)
                &&& forall|j: int|
                    0 <= j < i ==> vars_to_validate@[j].spec_pass_evidence(
                        var_prefix@,
                        loaded@,
                    )
            },
{
    let mut i: usize = 0;
    while i < vars_to_validate.len()
        invariant
            i <= vars_to_validate@.len(),
            forall|j: int| 0 <= j < i ==> vars_to_validate@[j].spec_pass_evidence(
                var_prefix@,
                loaded@,
            ),
        decreases vars_to_validate@.len() - i,
    {
        let var = vars_to_validate[i];
        match var.verify(var_prefix, loaded) {
            Result::Ok(_) => {},
            Result::Err(e) => {
                return Result::Err(e);
            },
        }
        i = i + 1;
    }
    Result::Ok(())
}

/// Validates the loaded snapshot against the given variables: the
/// unknown check (strict mode only), the aggregate missing check,
/// then per-variable type verification, exactly as
/// `spec_validate_contract` states.
pub fn validate(
    var_prefix: &str,
    vars_to_validate: &Vec<EnvVar>,
    loaded: &EnvSnapshot,
    strict: bool,
) -> (r: Result<(), AppError>)
    ensures
        spec_validate_contract(var_prefix@, vars_to_validate@, loaded@, strict, r),
{
    let required_names = names_of(vars_to_validate, var_prefix);
    match compare_required_with_process_env(var_prefix, &required_names, loaded, strict) {
        Result::Err(e) => Result::Err(e),
        Result::Ok(_) => verify_types(var_prefix, vars_to_validate, loaded),
    }
}

/// Membership in a pushed sequence: the pushed element, or an
/// element that was already there.
proof fn lemma_contains_push(s: Seq<Seq<char>>, x: Seq<char>, k: Seq<char>)
    ensures
        allowed_contains(s.push(x), k) <==> (allowed_contains(s, k) || k == x),
{
    if allowed_contains(s.push(x), k) {
        let i = choose|i: int| 0 <= i < s.push(x).len() && s.push(x)[i] == k;
        if i < s.len() {
            assert(s[i] == k);
        } else {
            assert(s.push(x)[s.len() as int] == x);
        }
    }
    if allowed_contains(s, k) {
        let i = choose|i: int| 0 <= i < s.len() && s[i] == k;
        assert(s.push(x)[i] == k);
    }
    if k == x {
        assert(s.push(x)[s.len() as int] == k);
    }
}

/// The missing list is the full set difference: a name is listed
/// exactly when it is required and absent from the environment, so
/// every absentee is reported at once, never just the first.
pub proof fn lemma_missing_aggregation(
    required: Seq<Seq<char>>,
    env: Seq<(Seq<char>, Seq<char>)>,
    k: Seq<char>,
)
    ensures
        allowed_contains(spec_missing_names(required, env), k) <==> (allowed_contains(
            required,
            k,
        ) && !env_contains(env, k)),
    decreases required.len(),
{
    if required.len() > 0 {
        let init = required.drop_last();
        let last = required.last();
        lemma_missing_aggregation(init, env, k);
        assert(init.push(last) =~= required);
        lemma_contains_push(init, last, k);
        if !env_contains(env, last) {
            lemma_contains_push(spec_missing_names(init, env), last, k);
        }
    }
}

/// A failed verification of a variable whose type is decided by the
/// value's characters alone refutes that variable's pass evidence.
proof fn lemma_fail_not_pass(
    v: EnvVar,
    prefix: Seq<char>,
    env: Seq<(Seq<char>, Seq<char>)>,
    e: AppError,
)
    requires
        !v.spec_disk_checked(),
        v.spec_fail_evidence(prefix, env, e),
    ensures
        !v.spec_pass_evidence(prefix, env),
{
}

/// Validation is a function of its inputs: when no variable's type
/// consults the disk, two outcomes drawn from the same prefix,
/// variables, snapshot and mode agree — the same success, or an
/// error of the same kind with the same message and source. Run
/// twice on an identical environment, validation therefore repeats
/// its verdict.
pub proof fn lemma_validate_deterministic(
    prefix: Seq<char>,
    vars: Seq<EnvVar>,
    env: Seq<(Seq<char>, Seq<char>)>,
    strict: bool,
    r1: Result<(), AppError>,
    r2: Result<(), AppError>,
)
    requires
        forall|i: int| 0 <= i < vars.len() ==> !vars[i].spec_disk_checked(),
        spec_validate_contract(prefix, vars, env, strict, r1),
        spec_validate_contract(prefix, vars, env, strict, r2),
    ensures
        r1 is Ok <==> r2 is Ok,
        r1 is Err && r2 is Err ==> ({
            let e1 = r1->Err_0;
            let e2 = r2->Err_0;
            &&& e1.kind == e2.kind
            &&& e1.message@ == e2.message@
            &&& (e1.source is Some <==> e2.source is Some)
            &&& (e1.source is Some ==> e1.source->0@ == e2.source->0@)
        }),
{
    let required = spec_required_names(vars, prefix);
    match spec_presence_error(prefix, required, env, strict) {
        Option::Some(km) => {},
        Option::None => {
            if r1 is Err {
                let i1 = choose|i: int|
                    0 <= i < vars.len() && vars[i].spec_fail_evidence(prefix, env, r1->Err_0)
                        && (forall|j: int|
                        0 <= j < i ==> vars[j].spec_pass_evidence(prefix, env));
                lemma_fail_not_pass(vars[i1], prefix, env, r1->Err_0);
                assert(r2 is Err);
            }
            if r2 is Err {
                let i2 = choose|i: int|
                    0 <= i < vars.len() && vars[i].spec_fail_evidence(prefix, env, r2->Err_0)
                        && (forall|j: int|
                        0 <= j < i ==> vars[j].spec_pass_evidence(prefix, env));
                lemma_fail_not_pass(vars[i2], prefix, env, r2->Err_0);
                assert(r1 is Err);
            }
            if r1 is Err && r2 is Err {
                let i1 = choose|i: int|
                    0 <= i < vars.len() && vars[i].spec_fail_evidence(prefix, env, r1->Err_0)
                        && (forall|j: int|
                        0 <= j < i ==> vars[j].spec_pass_evidence(prefix, env));
                let i2 = choose|i: int|
                    0 <= i < vars.len() && vars[i].spec_fail_evidence(prefix, env, r2->Err_0)
                        && (forall|j: int|
                        0 <= j < i ==> vars[j].spec_pass_evidence(prefix, env));
                lemma_fail_not_pass(vars[i1], prefix, env, r1->Err_0);
                lemma_fail_not_pass(vars[i2], prefix, env, r2->Err_0);
                assert(i1 == i2);
            }
        },
    }
}

} // verus!
