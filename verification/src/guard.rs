//! Who gets to the MCP endpoint at all.

use crate::access::{access_entry, carried_access, insert_access, other_entries, Access, AppState};
use crate::json::{insert, members, new_object, Member, MemberView};
use crate::status::{StatusCode, SERVICE_UNAVAILABLE, UNAUTHORIZED};
use vstd::prelude::*;
use vstd::utf8::encode_utf8_decode_utf8;

verus! {

/// Whether the two texts are the same. Of two texts with as many bytes every
/// byte is looked at, whatever the bytes before it were.
pub fn secret_eq(given: &str, secret: &str) -> (same: bool)
    ensures
        same == (given@ == secret@),
{
    let a = given.as_bytes();
    let b = secret.as_bytes();
    proof {
        encode_utf8_decode_utf8(given@);
        encode_utf8_decode_utf8(secret@);
    }
    if a.len() != b.len() {
        return false;
    }
    let mut difference: u8 = 0;
    assert(a@.take(0) == b@.take(0));
    for i in 0..a.len()
        invariant
            a@.len() == b@.len(),
            difference == 0 <==> a@.take(i as int) == b@.take(i as int),
    {
        let x: u8 = a[i];
        let y: u8 = b[i];
        assert((difference | (x ^ y)) == 0 <==> difference == 0 && x == y) by (bit_vector);
        proof {
            let n = i as int;
            assert(a@.take(n + 1) == a@.take(n).push(x));
            assert(b@.take(n + 1) == b@.take(n).push(y));
            if a@.take(n + 1) == b@.take(n + 1) {
                assert(a@.take(n + 1)[n] == b@.take(n + 1)[n]);
                assert(a@.take(n) == a@.take(n + 1).take(n));
                assert(b@.take(n) == b@.take(n + 1).take(n));
            }
        }
        difference = difference | (x ^ y);
    }
    assert(a@.take(a@.len() as int) == a@);
    assert(b@.take(b@.len() as int) == b@);
    difference == 0
}

/// The answer to a request that does not get in.
pub struct Rejection {
    pub status: StatusCode,
    pub body: serde_json::Map<String, serde_json::Value>,
}

/// What becomes of a request to the endpoint.
pub enum AdmissionView {
    /// It is answered at once, with this status and these members in the body.
    Reject { status: u16, body: Map<Seq<char>, MemberView> },
    /// It goes on to the tools. Where `granted` is given, it replaces the access
    /// level that the request carried.
    Forward { granted: Option<Access> },
}

/// The message of a request to an endpoint that is switched off.
pub const DISABLED_MESSAGE: &'static str = "MCP server 已在设置页关闭";

/// The message of a request without the right key.
pub const WRONG_KEY_MESSAGE: &'static str =
    "MCP API key 不正确：请在客户端配置 `Authorization: Bearer <key>` 请求头（可在设置页 MCP 段复制完整命令）";

/// The body of an answer with this error and message.
pub open spec fn rejection_body(error: Seq<char>, message: Seq<char>) -> Map<
    Seq<char>,
    MemberView,
> {
    map!["error"@ => MemberView::Text(error), "message"@ => MemberView::Text(message)]
}

/// The body of a rejection holds its error and its message, and nothing else.
pub proof fn law_a_rejection_says_error_and_message(error: Seq<char>, message: Seq<char>)
    ensures
        rejection_body(error, message).dom() == set!["error"@, "message"@],
        rejection_body(error, message)["error"@] == MemberView::Text(error),
        rejection_body(error, message)["message"@] == MemberView::Text(message),
{
    reveal_strlit("error");
    reveal_strlit("message");
    assert("error"@.len() != "message"@.len());
}

/// The answer to every request while the endpoint is switched off.
pub open spec fn disabled() -> AdmissionView {
    AdmissionView::Reject {
        status: SERVICE_UNAVAILABLE,
        body: rejection_body("mcp_disabled"@, DISABLED_MESSAGE@),
    }
}

/// The answer to a request that does not present the key.
pub open spec fn wrong_key() -> AdmissionView {
    AdmissionView::Reject {
        status: UNAUTHORIZED,
        body: rejection_body("mcp_unauthorized"@, WRONG_KEY_MESSAGE@),
    }
}

/// What becomes of a request with the bearer token `token`, with the endpoint
/// switched on or off and `key` as its key.
pub open spec fn admission(enabled: bool, key: Seq<char>, token: Option<Seq<char>>) -> AdmissionView {
    if !enabled {
        disabled()
    } else if key.len() == 0 {
        AdmissionView::Forward { granted: None }
    } else if token == Some(key) {
        AdmissionView::Forward { granted: Some(Access::Full) }
    } else {
        wrong_key()
    }
}

/// The text of a token, where there is one.
pub open spec fn token_text(token: Option<&str>) -> Option<Seq<char>> {
    match token {
        Some(text) => Some(text@),
        None => None,
    }
}

/// The access level that a request carries on, where it came with `carried` and
/// was granted `granted`.
pub open spec fn access_after(granted: Option<Access>, carried: Option<Access>) -> Option<Access> {
    match granted {
        Some(access) => Some(access),
        None => carried,
    }
}

/// The answer with this status, error and message.
fn rejection(status: StatusCode, error: &str, message: &str) -> (rejection: Rejection)
    ensures
        rejection.status == status,
        members(rejection.body) == rejection_body(error@, message@),
{
    let mut body = new_object();
    insert(&mut body, "error", Member::Text(error.to_owned()));
    insert(&mut body, "message", Member::Text(message.to_owned()));
    assert(members(body) == rejection_body(error@, message@));
    Rejection { status, body }
}

/// Decides on a request to the endpoint by the settings of the moment; `token` is
/// the bearer token that came with it.
///
/// Where a key is set, the key and nothing else lets a request in, and whoever
/// presents it has full access. Where none is set, the access level that the
/// request carries stays as it is. What else the request carries is never touched.
pub fn guard_mcp_access(
    state: &AppState,
    token: Option<&str>,
    extensions: &mut axum::http::Extensions,
) -> (verdict: Result<(), Rejection>)
    ensures
        !state.config.mcp_enabled ==> verdict is Err && verdict->Err_0.status@ == 503,
        state.config.mcp_enabled && state.config.mcp_api_key@.len() == 0 ==> verdict is Ok
            && *final(extensions) == *old(extensions),
        state.config.mcp_enabled && state.config.mcp_api_key@.len() > 0 ==> {
            &&& verdict is Ok <==> token is Some && token->0@ == state.config.mcp_api_key@
            &&& verdict is Ok ==> access_entry(*final(extensions)) == seq![Access::Full]
            &&& verdict matches Err(rejection) ==> rejection.status@ == 401
        },
        verdict matches Err(rejection) ==> {
            &&& members(rejection.body).dom() == set!["error"@, "message"@]
            &&& members(rejection.body)["error"@] == MemberView::Text(
                if state.config.mcp_enabled {
                    "mcp_unauthorized"@
                } else {
                    "mcp_disabled"@
                },
            )
            &&& members(rejection.body)["message"@] == MemberView::Text(
                if state.config.mcp_enabled {
                    WRONG_KEY_MESSAGE@
                } else {
                    DISABLED_MESSAGE@
                },
            )
        },
        verdict is Err ==> *final(extensions) == *old(extensions),
        other_entries(*final(extensions)) == other_entries(*old(extensions)),
        match admission(state.config.mcp_enabled, state.config.mcp_api_key@, token_text(token)) {
            AdmissionView::Reject { status, body } => {
                &&& verdict is Err
                &&& verdict->Err_0.status@ == status
                &&& members(verdict->Err_0.body) == body
                &&& *final(extensions) == *old(extensions)
            },
            AdmissionView::Forward { granted } => {
                &&& verdict is Ok
                &&& carried_access(*final(extensions)) == access_after(
                    granted,
                    carried_access(*old(extensions)),
                )
                &&& other_entries(*final(extensions)) == other_entries(*old(extensions))
                &&& granted is None ==> *final(extensions) == *old(extensions)
            },
        },
{
    proof {
        law_a_rejection_says_error_and_message("mcp_disabled"@, DISABLED_MESSAGE@);
        law_a_rejection_says_error_and_message("mcp_unauthorized"@, WRONG_KEY_MESSAGE@);
    }
    if !state.config.mcp_enabled {
        let status = StatusCode::from_u16(SERVICE_UNAVAILABLE).unwrap();
        return Err(rejection(status, "mcp_disabled", DISABLED_MESSAGE));
    }
    let key = state.config.mcp_api_key.as_str();
    if !key.is_empty() {
        let ok = match token {
            Some(given) => secret_eq(given, key),
            None => false,
        };
        if !ok {
            let status = StatusCode::from_u16(UNAUTHORIZED).unwrap();
            return Err(rejection(status, "mcp_unauthorized", WRONG_KEY_MESSAGE));
        }
        insert_access(extensions, Access::Full);
    }
    Ok(())
}

} // verus!
