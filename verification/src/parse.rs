//! Verified parsing of decimal text into a 16-bit unsigned integer.
//!
//! A value is accepted exactly when it is a non-empty run of decimal
//! digits whose value fits in `[0, 65535]`: no sign, no fractional
//! part, no surrounding or embedded extra characters.

use crate::err::{AppError, ErrorKind};
use vstd::prelude::*;
use vstd::string::StrSliceExecFns;
use vstd::string::StringExecFns;

verus! {

/// Why a piece of text failed to parse as a `u16`.
#[derive(Debug, Clone, Copy, PartialEq, Eq, Structural)]
pub enum U16ParseError {
    /// The text is empty.
    EmptyInput,
    /// A character that is not a decimal digit was reached.
    InvalidDigit,
    /// The digits read so far already exceed the largest `u16`.
    Overflow,
}

/// `c` is a decimal digit.
pub open spec fn is_digit_char(c: char) -> bool {
    48 <= c as u32 <= 57
}

/// The numeric value of a decimal digit.
pub open spec fn digit_val(c: char) -> nat {
    (c as u32 - 48) as nat
}

/// Every character of `s` is a decimal digit.
pub open spec fn all_digits(s: Seq<char>) -> bool {
    forall|i: int| 0 <= i < s.len() ==> is_digit_char(s[i])
}

/// The value of the digit run `s` appended to an already-read value
/// `acc`, reading left to right.
pub open spec fn digits_val_acc(s: Seq<char>, acc: nat) -> nat
    decreases s.len(),
{
    if s.len() == 0 {
        acc
    } else {
        digits_val_acc(s.skip(1), acc * 10 + digit_val(s[0]))
    }
}

/// The numeric value of the digit run `s`.
pub open spec fn digits_val(s: Seq<char>) -> nat {
    digits_val_acc(s, 0)
}

/// `s` is a well-formed `u16` literal: non-empty, digits only, value
/// at most 65535.
pub open spec fn valid_u16_text(s: Seq<char>) -> bool {
    s.len() > 0 && all_digits(s) && digits_val(s) <= 65535
}

/// A left-to-right scan with accumulator `acc`: stops at the first
/// non-digit, or as soon as the accumulated value leaves `u16` range.
pub open spec fn spec_scan_u16(s: Seq<char>, acc: nat) -> Result<nat, U16ParseError>
    decreases s.len(),
{
    if s.len() == 0 {
        Result::Ok(acc)
    } else if !is_digit_char(s[0]) {
        Result::Err(U16ParseError::InvalidDigit)
    } else if acc * 10 + digit_val(s[0]) > 65535 {
        Result::Err(U16ParseError::Overflow)
    } else {
        spec_scan_u16(s.skip(1), acc * 10 + digit_val(s[0]))
    }
}

/// The outcome of parsing `s` as a `u16`.
pub open spec fn spec_parse_u16(s: Seq<char>) -> Result<nat, U16ParseError> {
    if s.len() == 0 {
        Result::Err(U16ParseError::EmptyInput)
    } else {
        spec_scan_u16(s, 0)
    }
}

/// The failure text attached to each parse error.
pub open spec fn spec_parse_fail_text(e: U16ParseError) -> Seq<char> {
    match e {
        U16ParseError::EmptyInput => "cannot parse integer from empty string"@,
        U16ParseError::InvalidDigit => "invalid digit found in string"@,
        U16ParseError::Overflow => "number too large to fit in target type"@,
    }
}

/// The message attached to an `AppError` produced by `is_u16`.
pub open spec fn spec_is_u16_message(value: Seq<char>) -> Seq<char> {
    "Failed to parse value as u16: '"@ + value + "'"@
}

impl U16ParseError {
    /// The failure's descriptive text.
    pub fn message(&self) -> (r: &'static str)
        ensures
            r@ == spec_parse_fail_text(*self),
    {
        match self {
            U16ParseError::EmptyInput => "cannot parse integer from empty string",
            U16ParseError::InvalidDigit => "invalid digit found in string",
            U16ParseError::Overflow => "number too large to fit in target type",
        }
    }
}

/// Appending further digits never lowers the accumulated value below
/// what has been read already.
proof fn lemma_digits_val_acc_lower(s: Seq<char>, acc: nat)
    ensures
        digits_val_acc(s, acc) >= acc,
    decreases s.len(),
{
    if s.len() > 0 {
        lemma_digits_val_acc_lower(s.skip(1), acc * 10 + digit_val(s[0]));
    }
}

/// The scan succeeds exactly on all-digit runs whose total value stays
/// in `u16` range, and then yields that value.
proof fn lemma_scan_u16_ok(s: Seq<char>, acc: nat)
    requires
        acc <= 65535,
    ensures
        spec_scan_u16(s, acc) is Ok <==> (all_digits(s) && digits_val_acc(s, acc) <= 65535),
        spec_scan_u16(s, acc) is Ok ==> spec_scan_u16(s, acc)->Ok_0 == digits_val_acc(s, acc),
    decreases s.len(),
{
    if s.len() == 0 {
    } else {
        assert(forall|j: int| 0 <= j < s.skip(1).len() ==> s.skip(1)[j] == s[j + 1]);
        if !is_digit_char(s[0]) {
        } else {
            let acc2 = acc * 10 + digit_val(s[0]);
            if acc2 > 65535 {
                lemma_digits_val_acc_lower(s.skip(1), acc2);
            } else {
                lemma_scan_u16_ok(s.skip(1), acc2);
                assert(all_digits(s) ==> all_digits(s.skip(1)));
                if all_digits(s.skip(1)) {
                    assert forall|i: int| 0 <= i < s.len() implies is_digit_char(s[i]) by {
                        if i > 0 {
                            assert(s.skip(1)[i - 1] == s[i]);
                        }
                    }
                }
            }
        }
    }
}

/// Parsing succeeds exactly on well-formed `u16` literals, and then
/// yields the literal's numeric value.
pub proof fn lemma_parse_u16_characterisation(s: Seq<char>)
    ensures
        spec_parse_u16(s) is Ok <==> valid_u16_text(s),
        spec_parse_u16(s) is Ok ==> spec_parse_u16(s)->Ok_0 == digits_val(s),
{
    if s.len() > 0 {
        lemma_scan_u16_ok(s, 0);
    }
}

/// Parses `s` as a decimal `u16`, reporting the first reason the text
/// is not a well-formed `u16` literal.
pub fn parse_u16(s: &str) -> (r: Result<u16, U16ParseError>)
    ensures
        r is Ok <==> spec_parse_u16(s@) is Ok,
        r is Ok ==> r->Ok_0 as nat == spec_parse_u16(s@)->Ok_0,
        r is Err ==> r->Err_0 == spec_parse_u16(s@)->Err_0,
{
    let len = s.unicode_len();
    if len == 0 {
        return Result::Err(U16ParseError::EmptyInput);
    }
    let mut acc: u32 = 0;
    let mut i: usize = 0;
    proof {
        assert(s@.skip(0) =~= s@);
    }
    while i < len
        invariant
            0 < len,
            len == s@.len(),
            i <= len,
            acc <= 65535,
            spec_scan_u16(s@, 0) == spec_scan_u16(s@.skip(i as int), acc as nat),
        decreases len - i,
    {
        proof {
            assert(s@.skip(i as int)[0] == s@[i as int]);
        }
        let c = s.get_char(i);
        let u = c as u32;
        if u < 48 || u > 57 {
            return Result::Err(U16ParseError::InvalidDigit);
        }
        let d = u - 48;
        let next = acc * 10 + d;
        if next > 65535 {
            return Result::Err(U16ParseError::Overflow);
        }
        proof {
            assert(s@.skip(i as int).skip(1) =~= s@.skip(i + 1 as int));
        }
        acc = next;
        i = i + 1;
    }
    proof {
        assert(s@.skip(len as int) =~= Seq::<char>::empty());
    }
    Result::Ok(acc as u16)
}

/// Parses a string into a `u16`, wrapping any failure in an
/// `AppError` of the given kind (`Parse` when none is given).
pub fn is_u16(value: &str, err_kind: Option<ErrorKind>) -> (r: Result<u16, AppError>)
    ensures
        r is Ok <==> valid_u16_text(value@),
        r is Ok ==> r->Ok_0 as nat == digits_val(value@),
        r is Err ==> ({
            let e = r->Err_0;
            &&& e.kind == (if err_kind is Some {
                err_kind->0
            } else {
                ErrorKind::Parse
            })
            &&& e.message@ == spec_is_u16_message(value@)
            &&& e.source is Some
            &&& e.source->0@ == spec_parse_fail_text(spec_parse_u16(value@)->Err_0)
        }),
{
    proof {
        lemma_parse_u16_characterisation(value@);
    }
    match parse_u16(value) {
        Result::Ok(v) => Result::Ok(v),
        Result::Err(pe) => {
            let mut message = String::new();
            message.append("Failed to parse value as u16: '");
            message.append(value);
            message.append("'");
            let source = String::from_str(pe.message());
            let kind: ErrorKind = match err_kind {
                Option::Some(k) => k,
                Option::None => ErrorKind::Parse,
            };
            proof {
                assert(message@ =~= spec_is_u16_message(value@));
            }
            Result::Err(AppError::new(kind, message, Option::Some(source)))
        },
    }
}

} // verus!
