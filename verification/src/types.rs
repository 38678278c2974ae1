//! The value types an environment variable can be declared with, and
//! the verification rule of each: non-empty text, a decimal `u16`, a
//! member of a closed set of allowed words, or a path to a readable
//! regular file.

use crate::err::{AppError, ErrorKind};
use crate::parse::{
    parse_u16, spec_parse_fail_text, spec_parse_u16, valid_u16_text,
};
use crate::text::{join_with, spec_join, str_eq};
use vstd::prelude::*;
use vstd::string::StringExecFns;

verus! {

/// The declared type of an environment variable's value.
#[derive(Debug, Clone, Copy, PartialEq)]
pub enum AppType {
    /// Any non-empty string.
    Text,
    /// A decimal integer in `[0, 65535]`.
    U16,
    /// Exactly one of the listed allowed values.
    Enum(&'static [&'static str]),
    /// A path to an existing, readable, regular file.
    FilePath,
}

/// The mathematical shape of an `AppType`: allowed enum values are a
/// sequence of character sequences.
pub enum AppTypeView {
    Text,
    U16,
    Enum(Seq<Seq<char>>),
    FilePath,
}

impl View for AppType {
    type V = AppTypeView;

    open spec fn view(&self) -> AppTypeView {
        match self {
            AppType::Text => AppTypeView::Text,
            AppType::U16 => AppTypeView::U16,
            AppType::Enum(vals) => AppTypeView::Enum(vals.deep_view()),
            AppType::FilePath => AppTypeView::FilePath,
        }
    }
}

/// `v` is one of the allowed values.
pub open spec fn allowed_contains(vals: Seq<Seq<char>>, v: Seq<char>) -> bool {
    exists|i: int| 0 <= i < vals.len() && vals[i] == v
}

/// The acceptance rule of each type on a value's characters alone.
/// For `FilePath` this is only the part that does not look at the
/// disk: the value must be non-empty.
pub open spec fn type_accepts(t: AppTypeView, v: Seq<char>) -> bool {
    match t {
        AppTypeView::Text => v.len() > 0,
        AppTypeView::U16 => valid_u16_text(v),
        AppTypeView::Enum(vals) => allowed_contains(vals, v),
        AppTypeView::FilePath => v.len() > 0,
    }
}

/// An allowed value wrapped in double quotes.
pub open spec fn spec_quoted(v: Seq<char>) -> Seq<char> {
    "\""@ + v + "\""@
}

/// Each allowed value wrapped in double quotes, in order.
pub open spec fn spec_quoted_items(vals: Seq<Seq<char>>) -> Seq<Seq<char>>
    decreases vals.len(),
{
    if vals.len() == 0 {
        Seq::empty()
    } else {
        spec_quoted_items(vals.drop_last()).push(spec_quoted(vals.last()))
    }
}

/// The rendered name of a type, as its debug form prints it.
pub open spec fn type_debug_text(t: AppTypeView) -> Seq<char> {
    match t {
        AppTypeView::Text => "Text"@,
        AppTypeView::U16 => "U16"@,
        AppTypeView::Enum(vals) => "Enum(["@ + spec_join(spec_quoted_items(vals), ", "@)
            + "])"@,
        AppTypeView::FilePath => "FilePath"@,
    }
}

/// The message of the error a failed verification reports: the type
/// and the offending value, spelled out.
pub open spec fn spec_err_msg(t: AppTypeView, val: Seq<char>) -> Seq<char> {
    "Invalid value for type "@ + type_debug_text(t) + ": \""@ + val + "\""@
}

/// Relies on `std::path::Path::exists`: true exactly when the path
/// can be resolved to an existing entity on disk.
#[verifier::external_body]
fn path_exists(path: &str) -> bool {
    std::path::Path::new(path).exists()
}

/// Relies on `std::path::Path::is_file`: true exactly when the path
/// resolves to a regular file on disk.
#[verifier::external_body]
fn path_is_file(path: &str) -> bool {
    std::path::Path::new(path).is_file()
}

/// Relies on `dotenvy::from_path_iter`, whose only effect is opening
/// the file at the path for reading: `Ok` exactly when the open
/// succeeded, `Err` carrying the rendered I/O error otherwise. The
/// probe goes through `dotenvy` so that the library's file access is
/// concentrated in the one crate that already performs it.
#[verifier::external_body]
fn open_for_read(path: &str) -> Result<(), String> {
    match dotenvy::from_path_iter(path) {
        Ok(_) => Ok(()),
        Err(e) => Err(e.to_string()),
    }
}

impl AppType {
    /// Verifies a value against this type.
    ///
    /// For `Text`, `U16` and `Enum` the outcome depends on the value's
    /// characters alone and is pinned exactly; for `FilePath` it also
    /// depends on the disk, so only the character-level part is
    /// stated, together with the shape of every reported error.
    pub fn verify(&self, val: &str) -> (r: Result<(), AppError>)
        ensures
            !(self@ is FilePath) ==> (r is Ok <==> type_accepts(self@, val@)),
            self@ is FilePath ==> (r is Ok ==> val@.len() > 0),
            self@ is FilePath && val@.len() == 0 ==> r is Err,
            r is Err ==> ({
                let e = r->Err_0;
                &&& e.kind == ErrorKind::InvalidValueType
                &&& e.message@ == spec_err_msg(self@, val@)
                &&& (self@ is U16 ==> e.source is Some && e.source->0@ == spec_parse_fail_text(
                    spec_parse_u16(val@)->Err_0,
                ))
                &&& (self@ is Text || self@ is Enum ==> e.source is None)
                &&& (self@ is FilePath && val@.len() == 0 ==> e.source is None)
            }),
    {
        match self {
            AppType::Text => self.verify_string(val),
            AppType::U16 => self.verify_u16(val),
            AppType::Enum(allowed_values) => self.verify_enum(allowed_values, val),
            AppType::FilePath => self.verify_file_path(val),
        }
    }

    /// A declared string must carry real content: only the empty
    /// value is rejected.
    fn verify_string(&self, val: &str) -> (r: Result<(), AppError>)
        ensures
            r is Ok <==> val@.len() > 0,
            r is Err ==> ({
                let e = r->Err_0;
                &&& e.kind == ErrorKind::InvalidValueType
                &&& e.message@ == spec_err_msg(self@, val@)
                &&& e.source is None
            }),
    {
        if val.is_empty() {
            Result::Err(self.invalid_val(val, Option::None))
        } else {
            Result::Ok(())
        }
    }

    /// The value must be a well-formed decimal `u16` literal; the
    /// parse failure's text is attached as the error's source.
    fn verify_u16(&self, val: &str) -> (r: Result<(), AppError>)
        ensures
            r is Ok <==> valid_u16_text(val@),
            r is Err ==> ({
                let e = r->Err_0;
                &&& e.kind == ErrorKind::InvalidValueType
                &&& e.message@ == spec_err_msg(self@, val@)
                &&& e.source is Some
                &&& e.source->0@ == spec_parse_fail_text(spec_parse_u16(val@)->Err_0)
            }),
    {
        proof {
            crate::parse::lemma_parse_u16_characterisation(val@);
        }
        match parse_u16(val) {
            Result::Ok(_) => Result::Ok(()),
            Result::Err(pe) => {
                let source = String::from_str(pe.message());
                Result::Err(self.invalid_val(val, Option::Some(source)))
            },
        }
    }

    /// The value must match one of the allowed values exactly,
    /// character for character.
    fn verify_enum(&self, allowed_values: &[&str], val: &str) -> (r: Result<(), AppError>)
        ensures
            r is Ok <==> allowed_contains(allowed_values.deep_view(), val@),
            r is Err ==> ({
                let e = r->Err_0;
                &&& e.kind == ErrorKind::InvalidValueType
                &&& e.message@ == spec_err_msg(self@, val@)
                &&& e.source is None
            }),
    {
        let ghost dv = allowed_values.deep_view();
        let mut i: usize = 0;
        while i < allowed_values.len()
            invariant
                i <= allowed_values@.len(),
                dv == allowed_values.deep_view(),
                dv.len() == allowed_values@.len(),
                forall|j: int| 0 <= j < dv.len() ==> dv[j] == allowed_values@[j]@,
                forall|j: int| 0 <= j < i ==> dv[j] != val@,
            decreases allowed_values@.len() - i,
        {
            if str_eq(allowed_values[i], val) {
                proof {
                    assert(dv[i as int] == val@);
                    assert(allowed_contains(dv, val@));
                }
                return Result::Ok(());
            }
            i = i + 1;
        }
        Result::Err(self.invalid_val(val, Option::None))
    }

    /// The value must name an existing, readable, regular file. The
    /// disk probes decide existence, regularity and readability; this
    /// function's own checks and the error it builds are verified
    /// through `file_path_decision`.
    fn verify_file_path(&self, val: &str) -> (r: Result<(), AppError>)
        ensures
            r is Ok ==> val@.len() > 0,
            val@.len() == 0 ==> r is Err,
            r is Err ==> ({
                let e = r->Err_0;
                &&& e.kind == ErrorKind::InvalidValueType
                &&& e.message@ == spec_err_msg(self@, val@)
                &&& (val@.len() == 0 ==> e.source is None)
            }),
    {
        let exists_on_disk = if val.is_empty() {
            false
        } else {
            path_exists(val)
        };
        let regular = if exists_on_disk {
            path_is_file(val)
        } else {
            false
        };
        let readable: Result<(), String> = if regular {
            open_for_read(val)
        } else {
            Result::Ok(())
        };
        self.file_path_decision(val, exists_on_disk, regular, readable)
    }

    /// The file-path rule on the probes' results: accepted exactly
    /// when the value is non-empty and names an existing regular file
    /// that could be opened for reading; when opening was the failing
    /// step, the I/O error is attached as the source.
    pub fn file_path_decision(
        &self,
        val: &str,
        exists_on_disk: bool,
        regular: bool,
        readable: Result<(), String>,
    ) -> (r: Result<(), AppError>)
        ensures
            r is Ok <==> (val@.len() > 0 && exists_on_disk && regular && readable is Ok),
            r is Err ==> ({
                let e = r->Err_0;
                &&& e.kind == ErrorKind::InvalidValueType
                &&& e.message@ == spec_err_msg(self@, val@)
                &&& (val@.len() == 0 || !exists_on_disk || !regular ==> e.source is None)
                &&& (val@.len() > 0 && exists_on_disk && regular && readable is Err
                    ==> e.source is Some && e.source->0@ == readable->Err_0@)
            }),
    {
        if val.is_empty() || !exists_on_disk || !regular {
            return Result::Err(self.invalid_val(val, Option::None));
        }
        match readable {
            Result::Ok(_) => Result::Ok(()),
            Result::Err(m) => Result::Err(self.invalid_val(val, Option::Some(m))),
        }
    }

    /// Builds the error reported for an invalid value of this type.
    pub fn invalid_val(&self, val: &str, source: Option<String>) -> (e: AppError)
        ensures
            e.kind == ErrorKind::InvalidValueType,
            e.message@ == spec_err_msg(self@, val@),
            e.source == source,
    {
        let kind = ErrorKind::InvalidValueType;
        let message = self.construct_err_msg(val);
        AppError::new(kind, message, source)
    }

    /// Builds the message of an invalid-value error: the type and the
    /// offending value, spelled out.
    pub fn construct_err_msg(&self, val: &str) -> (s: String)
        ensures
            s@ == spec_err_msg(self@, val@),
    {
        let mut s = String::new();
        s.append("Invalid value for type ");
        let debug = self.debug_text();
        s.append(debug.as_str());
        s.append(": \"");
        s.append(val);
        s.append("\"");
        proof {
            assert(s@ =~= spec_err_msg(self@, val@));
        }
        s
    }

    /// Renders the type's name as its debug form prints it, allowed
    /// enum values included.
    pub fn debug_text(&self) -> (s: String)
        ensures
            s@ == type_debug_text(self@),
    {
        match self {
            AppType::Text => String::from_str("Text"),
            AppType::U16 => String::from_str("U16"),
            AppType::FilePath => String::from_str("FilePath"),
            AppType::Enum(vals) => {
                let ghost dv = vals.deep_view();
                let mut parts: Vec<String> = Vec::new();
                let mut i: usize = 0;
                while i < vals.len()
                    invariant
                        i <= vals@.len(),
                        dv == vals.deep_view(),
                        dv.len() == vals@.len(),
                        forall|j: int| 0 <= j < dv.len() ==> dv[j] == vals@[j]@,
                        parts.deep_view() == spec_quoted_items(dv.take(i as int)),
                    decreases vals@.len() - i,
                {
                    let mut q = String::new();
                    q.append("\"");
                    q.append(vals[i]);
                    q.append("\"");
                    proof {
                        assert(q@ =~= spec_quoted(dv[i as int]));
                    }
                    let ghost old_parts = parts.deep_view();
                    parts.push(q);
                    proof {
                        let k = i + 1 as int;
                        assert(parts.deep_view() =~= old_parts.push(spec_quoted(dv[i as int])));
                        assert(dv.take(k).drop_last() =~= dv.take(i as int));
                        assert(dv.take(k).last() == dv[i as int]);
                    }
                    i = i + 1;
                }
                proof {
                    assert(dv.take(vals@.len() as int) =~= dv);
                }
                let joined = join_with(&parts, ", ");
                let mut s = String::new();
                s.append("Enum([");
                s.append(joined.as_str());
                s.append("])");
                proof {
                    assert(s@ =~= type_debug_text(self@));
                }
                s
            },
        }
    }
}

} // verus!
