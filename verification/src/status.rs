//! HTTP status codes, and what a failed handler call is answered.

use crate::error::{invalid_request, invalid_request_view, ErrorData, ErrorView};
use vstd::prelude::*;
use vstd::string::StringExecFns;

verus! {

pub const NO_CONTENT: u16 = 204;

pub const BAD_REQUEST: u16 = 400;

pub const UNAUTHORIZED: u16 = 401;

pub const NOT_FOUND: u16 = 404;

pub const SERVICE_UNAVAILABLE: u16 = 503;

/// An HTTP status code: a number of three digits that does not start with zero.
#[derive(Clone, Copy)]
pub struct StatusCode {
    code: u16,
}

/// Whether `code` can be an HTTP status code.
pub open spec fn is_status(code: u16) -> bool {
    100 <= code <= 999
}

impl View for StatusCode {
    type V = u16;

    closed spec fn view(&self) -> u16 {
        self.code
    }
}

impl StatusCode {
    #[verifier::type_invariant]
    spec fn in_range(self) -> bool {
        is_status(self.code)
    }

    /// The status code with this number, where there is one.
    pub fn from_u16(code: u16) -> (status: Option<StatusCode>)
        ensures
            status is Some <==> is_status(code),
            status is Some <==> 100 <= code <= 999,
            status matches Some(s) ==> s@ == code,
    {
        if 100 <= code && code <= 999 {
            Some(StatusCode { code })
        } else {
            None
        }
    }

    /// The number of the status code.
    pub fn as_u16(&self) -> (code: u16)
        ensures
            code == self@,
            is_status(code),
    {
        proof {
            use_type_invariant(&*self);
        }
        self.code
    }
}

/// The text that the `http` crate prints for a status code: the number, a blank
/// and the reason phrase of the code.
pub uninterp spec fn status_text(code: u16) -> Seq<char>;

/// The character of a decimal digit.
pub open spec fn digit(n: u16) -> char {
    ('0' as int + n) as char
}

/// The three decimal digits of a status code, and a blank.
pub open spec fn status_prefix(code: u16) -> Seq<char> {
    seq![digit(code / 100), digit(code / 10 % 10), digit(code % 10), ' ']
}

/// `Display` of `axum::http::StatusCode`: the three digits of the code, a blank,
/// and a reason phrase that depends on the code alone.
#[verifier::external_body]
fn print_status(code: u16) -> (text: String)
    requires
        is_status(code),
    ensures
        text@ == status_text(code),
        text@.len() > 4,
        text@.take(4) == status_prefix(code),
{
    axum::http::StatusCode::from_u16(code).unwrap().to_string()
}

/// Whether a failure with this status has a wording of its own.
pub open spec fn has_wording(code: u16) -> bool {
    code == NOT_FOUND || code == BAD_REQUEST || code == SERVICE_UNAVAILABLE
}

/// The message of a handler call that failed on `what` with the status `code`,
/// which prints as `text`.
pub open spec fn status_message(code: u16, what: Seq<char>, text: Seq<char>) -> Seq<char> {
    if code == NOT_FOUND {
        what + "不存在"@
    } else if code == BAD_REQUEST {
        what + "的参数不合法"@
    } else if code == SERVICE_UNAVAILABLE {
        "尚未配置数据源"@
    } else {
        what + "失败（"@ + text + "）"@
    }
}

/// The error of a handler call that failed on `what` with the status `code`.
pub open spec fn status_error(code: u16, what: Seq<char>) -> ErrorView {
    invalid_request_view(status_message(code, what, status_text(code)))
}

/// The error of a handler call that failed on `what` with a status that prints
/// as `text` and has no wording of its own.
pub fn failure_err(what: &str, text: &str) -> (error: ErrorData)
    ensures
        error@ == invalid_request_view(what@ + "失败（"@ + text@ + "）"@),
{
    invalid_request(what.to_owned().concat("失败（").concat(text).concat("）"))
}

/// Puts the status of a failed handler call into words. A status without a
/// wording of its own is named by its number.
pub fn status_err(code: StatusCode, what: &str) -> (error: ErrorData)
    ensures
        error@ == status_error(code@, what@),
        error.code == -32600,
        code@ == 404 ==> error.message@ == what@ + "不存在"@,
        code@ == 400 ==> error.message@ == what@ + "的参数不合法"@,
        code@ == 503 ==> error.message@ == "尚未配置数据源"@,
        code@ != 404 && code@ != 400 && code@ != 503 ==> error.message@ == what@ + "失败（"@
            + status_text(code@) + "）"@,
        !has_wording(code@) ==> (what@ + "失败（"@ + status_prefix(code@)).is_prefix_of(error@.message),
{
    let number: u16 = code.as_u16();
    if number == NOT_FOUND {
        invalid_request(what.to_owned().concat("不存在"))
    } else if number == BAD_REQUEST {
        invalid_request(what.to_owned().concat("的参数不合法"))
    } else if number == SERVICE_UNAVAILABLE {
        invalid_request("尚未配置数据源".to_owned())
    } else {
        let text = print_status(number);
        assert((what@ + "失败（"@ + status_prefix(number)).is_prefix_of(
            what@ + "失败（"@ + text@ + "）"@,
        )) by {
            assert(text@ == text@.take(4) + text@.skip(4));
        }
        failure_err(what, text.as_str())
    }
}

} // verus!
