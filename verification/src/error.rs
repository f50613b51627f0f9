//! The structured error value built from a failing status code.

use vstd::prelude::*;
use crate::codes::{spec_canned_text, canned_text, lemma_canned_text_nonempty};
use crate::status::ResultCode;

verus! {

/// A structured failure value: a non-success status code, an optional
/// engine-supplied message, and an optional zero-based byte offset locating
/// the syntactic cause within the offending input.
///
/// An empty message means "use the status code's canned text".
#[derive(Clone, Debug)]
pub struct Error {
    result_code: ResultCode,
    msg: String,
    error_offset: Option<usize>,
}

impl Error {
    /// The status code that produced this error.
    pub closed spec fn spec_code(self) -> ResultCode {
        self.result_code
    }

    /// The custom message carried by this error; empty when the canned text
    /// of the status code is to be used.
    pub closed spec fn spec_msg(self) -> Seq<char> {
        self.msg@
    }

    /// The byte offset into the offending input, when the engine supplied
    /// one.
    pub closed spec fn spec_offset(self) -> Option<usize> {
        self.error_offset
    }

    /// An error is well formed when its status code is not a success code.
    /// Every constructor establishes this.
    pub open spec fn wf(self) -> bool {
        !self.spec_code().spec_is_success()
    }

    /// Builds an error from the given status code and message. A success
    /// code is a contract violation, not a runtime condition: the
    /// precondition rejects it.
    pub fn new(result_code: ResultCode, msg: String) -> (r: Error)
        requires
            !result_code.spec_is_success(),
        ensures
            r.spec_code() == result_code,
            r.spec_msg() == msg@,
            r.spec_offset() is None,
            r.wf(),
    {
        Error { result_code, msg, error_offset: None }
    }

    /// Builds an error from a handle's last diagnostic state, as read by the
    /// shell right after a failing native call: the extended status code,
    /// the message copied out of the engine's buffer, and the raw byte
    /// offset, where a negative offset means the engine supplied none.
    ///
    /// Returns `None` exactly when the recorded status is a success code.
    pub fn from_handle_report(code: ResultCode, msg: String, raw_offset: i32) -> (r: Option<Error>)
        ensures
            r is None <==> code.spec_is_success(),
            r matches Some(e) ==> e.spec_code() == code
                && e.spec_msg() == msg@
                && e.spec_offset() == (if raw_offset < 0 {
                    None
                } else {
                    Some(raw_offset as usize)
                })
                && e.wf(),
    {
        if code.is_success() {
            None
        } else {
            let error_offset = if raw_offset < 0 {
                None
            } else {
                Some(raw_offset as usize)
            };
            Some(Error { result_code: code, msg, error_offset })
        }
    }

    /// Returns the status code that produced this error.
    pub fn result_code(&self) -> (r: ResultCode)
        ensures
            r == self.spec_code(),
    {
        self.result_code
    }

    /// Returns the byte offset of the start of the token that caused the
    /// error, if relevant.
    pub fn error_offset(&self) -> (r: Option<usize>)
        ensures
            r == self.spec_offset(),
    {
        self.error_offset
    }

    /// Discards the offset, for a caller that propagates the error into a
    /// context where the offset no longer locates anything meaningful.
    pub fn clear_error_offset(&mut self)
        ensures
            final(self).spec_offset() is None,
            final(self).spec_code() == old(self).spec_code(),
            final(self).spec_msg() == old(self).spec_msg(),
    {
        self.error_offset = None;
    }

    /// Returns the error's message: the custom message when one was
    /// supplied, the status code's canned text otherwise. The result is
    /// never empty.
    pub fn message(&self) -> (r: &str)
        ensures
            r@ == (if self.spec_msg().len() == 0 {
                spec_canned_text(self.spec_code().code)
            } else {
                self.spec_msg()
            }),
            r@.len() > 0,
    {
        if self.msg.as_str().is_empty() {
            proof {
                lemma_canned_text_nonempty(self.result_code.code);
            }
            canned_text(self.result_code.raw())
        } else {
            self.msg.as_str()
        }
    }

    /// Renders the error for display: the same non-empty text that
    /// [`Error::message`] returns, as an owned string.
    pub fn display_string(&self) -> (r: String)
        ensures
            r@ == (if self.spec_msg().len() == 0 {
                spec_canned_text(self.spec_code().code)
            } else {
                self.spec_msg()
            }),
            r@.len() > 0,
    {
        let mut s = String::new();
        s.append(self.message());
        assert(s@ =~= (if self.spec_msg().len() == 0 {
            spec_canned_text(self.spec_code().code)
        } else {
            self.spec_msg()
        }));
        s
    }
}

} // verus!
