//! The status-code value type: classification into primary and extended
//! layers, the success predicate, and rendering.

use vstd::prelude::*;
use vstd::string::StringExecFns;
use crate::codes::{
    SQLITE_OK, SQLITE_ROW, SQLITE_DONE,
    spec_primary_of, spec_is_success_code, spec_canned_text, spec_symbolic_name,
    canned_text, symbolic_name, lemma_primary_idempotent, lemma_canned_text_nonempty,
};
use crate::error::Error;

verus! {

/// The decimal digit character of a value below ten, as a one-character
/// string.
pub open spec fn spec_digit_str(d: int) -> Seq<char> {
    if d == 0 {
        "0"@
    } else if d == 1 {
        "1"@
    } else if d == 2 {
        "2"@
    } else if d == 3 {
        "3"@
    } else if d == 4 {
        "4"@
    } else if d == 5 {
        "5"@
    } else if d == 6 {
        "6"@
    } else if d == 7 {
        "7"@
    } else if d == 8 {
        "8"@
    } else {
        "9"@
    }
}

/// The decimal rendering of a non-negative value.
pub open spec fn spec_decimal(n: int) -> Seq<char>
    decreases n,
{
    if n < 10 {
        spec_digit_str(n)
    } else {
        spec_decimal(n / 10) + spec_digit_str(n % 10)
    }
}

/// The decimal rendering of a value, with a leading minus sign when it is
/// negative.
pub open spec fn spec_signed_decimal(n: int) -> Seq<char> {
    if n < 0 {
        "-"@ + spec_decimal(-n)
    } else {
        spec_decimal(n)
    }
}

/// Appends the decimal rendering of `n` to `s`.
fn push_decimal(s: &mut String, n: u64)
    ensures
        final(s)@ == old(s)@ + spec_decimal(n as int),
    decreases n,
{
    if n >= 10 {
        push_decimal(s, n / 10);
    }
    let d: u64 = n % 10;
    if d == 0 {
        s.append("0");
    } else if d == 1 {
        s.append("1");
    } else if d == 2 {
        s.append("2");
    } else if d == 3 {
        s.append("3");
    } else if d == 4 {
        s.append("4");
    } else if d == 5 {
        s.append("5");
    } else if d == 6 {
        s.append("6");
    } else if d == 7 {
        s.append("7");
    } else if d == 8 {
        s.append("8");
    } else {
        s.append("9");
    }
    proof {
        if n < 10 {
            assert(n % 10 == n);
        } else {
            assert(s@ =~= old(s)@ + spec_decimal(n as int));
        }
    }
}

/// Appends the decimal rendering of `n`, sign included, to `s`.
fn push_signed_decimal(s: &mut String, n: i32)
    ensures
        final(s)@ == old(s)@ + spec_signed_decimal(n as int),
{
    let wide: i64 = n as i64;
    if wide < 0 {
        s.append("-");
        push_decimal(s, (-wide) as u64);
        assert(s@ =~= old(s)@ + spec_signed_decimal(n as int));
    } else {
        push_decimal(s, wide as u64);
    }
}

/// The debug rendering of a raw status code: its symbolic constant name when
/// the code is in the rendering table, a tagged numeric value otherwise.
pub open spec fn spec_debug_text(code: i32) -> Seq<char> {
    match spec_symbolic_name(code) {
        Some(name) => name,
        None => "ResultCode("@ + spec_signed_decimal(code as int) + ")"@,
    }
}

/// The numeric result code of a native database call.
///
/// A code is classified in two layers: the *primary* code (the low 8 bits)
/// names a broad category, while the full value (the *extended* code) names
/// a specific sub-condition within that category.
#[derive(Clone, Copy, Debug, PartialEq, Eq, Hash, Structural)]
pub struct ResultCode {
    pub code: i32,
}

impl ResultCode {
    /// The primary category of this code.
    pub open spec fn spec_primary(self) -> i32 {
        spec_primary_of(self.code)
    }

    /// Whether this code reports success: its primary category is ok, row,
    /// or done.
    pub open spec fn spec_is_success(self) -> bool {
        spec_is_success_code(self.code)
    }

    /// Wraps a raw integer returned by a native call.
    pub fn from_raw(code: i32) -> (r: ResultCode)
        ensures
            r.code == code,
    {
        ResultCode { code }
    }

    /// Returns the raw integer value of this code.
    pub fn raw(self) -> (r: i32)
        ensures
            r == self.code,
    {
        self.code
    }

    /// Converts the code to its primary category, a code in its own right.
    /// Taking the primary of a primary code changes nothing.
    pub fn to_primary(self) -> (r: ResultCode)
        ensures
            r.code == self.spec_primary(),
            r.spec_primary() == self.spec_primary(),
            r.spec_is_success() == self.spec_is_success(),
    {
        proof {
            lemma_primary_idempotent(self.code);
        }
        ResultCode { code: self.code & 0xff }
    }

    /// Reports whether this code's primary category is ok, row, or done.
    pub fn is_success(self) -> (r: bool)
        ensures
            r == self.spec_is_success(),
    {
        let p: i32 = self.code & 0xff;
        p == SQLITE_OK || p == SQLITE_ROW || p == SQLITE_DONE
    }

    /// Returns the canned English text that describes this code. The text is
    /// never empty.
    pub fn message(self) -> (r: &'static str)
        ensures
            r@ == spec_canned_text(self.code),
            r@.len() > 0,
    {
        proof {
            lemma_canned_text_nonempty(self.code);
        }
        canned_text(self.code)
    }

    /// Returns the symbolic constant name of this code, when it is one of
    /// the well-known codes of the rendering table.
    pub fn symbolic_name(self) -> (r: Option<&'static str>)
        ensures
            r is Some <==> spec_symbolic_name(self.code) is Some,
            r matches Some(s) ==> spec_symbolic_name(self.code) == Some(s@),
    {
        symbolic_name(self.code)
    }

    /// Renders the code for debugging: the symbolic constant name when the
    /// code is well known, a tagged numeric value otherwise.
    pub fn debug_string(self) -> (r: String)
        ensures
            r@ == spec_debug_text(self.code),
    {
        match symbolic_name(self.code) {
            Some(name) => String::from_str(name),
            None => {
                let mut s = String::new();
                s.append("ResultCode(");
                push_signed_decimal(&mut s, self.code);
                s.append(")");
                assert(s@ =~= spec_debug_text(self.code));
                s
            },
        }
    }

    /// Splits the code into a result: a success code passes through
    /// unchanged, any other code becomes an error that carries the code
    /// itself, no message, and no offset.
    pub fn to_result(self) -> (r: Result<ResultCode, Error>)
        ensures
            self.spec_is_success() ==> r == Ok::<ResultCode, Error>(self),
            !self.spec_is_success() ==> (r matches Err(e)
                && e.spec_code() == self
                && e.spec_msg().len() == 0
                && e.spec_offset() is None
                && e.wf()),
    {
        if self.is_success() {
            Ok(self)
        } else {
            Err(Error::new(self, String::new()))
        }
    }
}

impl Default for ResultCode {
    /// The default code is ok.
    fn default() -> (r: Self)
        ensures
            r.code == SQLITE_OK,
    {
        ResultCode { code: SQLITE_OK }
    }
}

/// Success is decided by the primary category alone: a code reports success
/// exactly when its primary category is ok, row, or done.
pub proof fn lemma_success_by_primary(c: ResultCode)
    ensures
        c.spec_is_success() <==> (c.spec_primary() == SQLITE_OK
            || c.spec_primary() == SQLITE_ROW
            || c.spec_primary() == SQLITE_DONE),
{
}

/// Reducing a code to its primary category never changes how it is
/// classified: the success predicate agrees on a code and on its primary.
pub proof fn lemma_success_stable_under_primary(code: i32)
    ensures
        spec_is_success_code(spec_primary_of(code)) == spec_is_success_code(code),
{
    lemma_primary_idempotent(code);
}

/// Each of the three success codes — ok, row, done — satisfies the success
/// predicate, so none of them can ever construct an [`Error`], whose
/// constructor requires a non-success code.
pub proof fn lemma_success_codes_cannot_err()
    ensures
        (ResultCode { code: SQLITE_OK }).spec_is_success(),
        (ResultCode { code: SQLITE_ROW }).spec_is_success(),
        (ResultCode { code: SQLITE_DONE }).spec_is_success(),
{
    assert(0i32 & 0xff == 0) by (bit_vector);
    assert(100i32 & 0xff == 100) by (bit_vector);
    assert(101i32 & 0xff == 101) by (bit_vector);
}

} // verus!
