//! The error with which a request handler asks for a particular error response.

use vstd::prelude::*;
use vstd::string::StringExecFns;

use crate::decimal::push_signed_decimal;

verus! {

/// A failure that a handler reports to the client with a code of its own.
#[derive(Debug)]
pub struct LspError {
    pub code: i32,
    pub message: String,
}

impl LspError {
    pub fn new(code: i32, message: String) -> (error: LspError)
        ensures
            error.code == code,
            error.message == message,
    {
        LspError { code, message }
    }

    /// The text that the error shows.
    pub open spec fn display_text(self) -> Seq<char> {
        "Language Server request failed with "@ + crate::decimal::signed_decimal(self.code as int)
            + ". ("@ + self.message@ + ")"@
    }

    /// The text of the error for a person to read.
    pub fn display(&self) -> (text: String)
        ensures
            text@ == self.display_text(),
    {
        let mut text = "Language Server request failed with ".to_string();
        push_signed_decimal(&mut text, self.code as i64);
        text.append(". (");
        text.append(self.message.as_str());
        text.append(")");
        text
    }
}

/// The text of the error tells its code, which reads back from it, and its message.
pub proof fn law_text_tells_code_and_message(error: LspError)
    ensures
        error.display_text() == "Language Server request failed with "@
            + crate::decimal::signed_decimal(error.code as int) + ". ("@ + error.message@ + ")"@,
        error.code >= 0 ==> crate::decimal::number_of(
            crate::decimal::signed_decimal(error.code as int),
        ) == error.code,
        error.code < 0 ==> crate::decimal::number_of(
            crate::decimal::signed_decimal(error.code as int).skip(1),
        ) == -error.code,
{
    crate::decimal::law_signed_decimal_reads_back(error.code as int);
}

} // verus!
