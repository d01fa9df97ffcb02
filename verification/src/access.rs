//! Who may do what: the access level of a request and the settings that the
//! write tools depend on.

use crate::error::{invalid_request, invalid_request_view, ErrorData, ErrorView};
use vstd::prelude::*;

verus! {

/// The access level of a request.
#[derive(Clone, Copy, PartialEq, Eq, Structural)]
pub enum Access {
    /// Everything is allowed.
    Full,
    /// Only what the server shows to anyone.
    Anonymous,
}

/// `axum::http::Extensions`, the typed entries that a request carries.
#[verifier::external_type_specification]
#[verifier::external_body]
pub struct ExExtensions(axum::http::Extensions);

/// The access level among the entries of a request: one, or none at all.
pub uninterp spec fn access_entry(extensions: axum::http::Extensions) -> Seq<Access>;

/// The entries of all other types that a request carries: for each a number that
/// stands for its type, and one that stands for its value.
pub uninterp spec fn other_entries(extensions: axum::http::Extensions) -> Map<int, int>;

/// `rmcp::model::Extensions`, the typed entries that a call of a tool carries.
#[verifier::external_type_specification]
#[verifier::external_body]
pub struct ExCallExtensions(rmcp::model::Extensions);

/// The HTTP request among the entries of a call: one, or none at all. Of the
/// request it tells the access level that it carries, where it carries one.
pub uninterp spec fn parts_access(extensions: rmcp::model::Extensions) -> Seq<Option<Access>>;

/// The access level that a request carries, where it carries one.
pub open spec fn carried_access(extensions: axum::http::Extensions) -> Option<Access> {
    if access_entry(extensions).len() == 0 {
        None
    } else {
        Some(access_entry(extensions)[0])
    }
}

/// `axum::http::Extensions::get` for the access level: the level among the
/// entries, or `None` where there is none.
#[verifier::external_body]
fn get_access(extensions: &axum::http::Extensions) -> (access: Option<Access>)
    ensures
        access == carried_access(*extensions),
{
    extensions.get::<Access>().copied()
}

/// `axum::http::Extensions::insert` for the access level, which replaces the one
/// that was there and leaves the entries of all other types as they were.
#[verifier::external_body]
pub(crate) fn insert_access(extensions: &mut axum::http::Extensions, access: Access)
    ensures
        access_entry(*final(extensions)) == seq![access],
        other_entries(*final(extensions)) == other_entries(*old(extensions)),
{
    extensions.insert(access);
}

/// `rmcp::model::Extensions::get` for the HTTP request that a call came with: the
/// entries of that request, or `None` where the call holds no request.
#[verifier::external_body]
fn get_request_entries(extensions: &rmcp::model::Extensions) -> (entries: Option<
    &axum::http::Extensions,
>)
    ensures
        entries is None <==> parts_access(*extensions).len() == 0,
        entries matches Some(e) ==> parts_access(*extensions)[0] == carried_access(*e),
{
    extensions.get::<axum::http::request::Parts>().map(|parts| &parts.extensions)
}

/// The settings of the MCP endpoint.
pub struct Config {
    /// Whether the endpoint is switched on.
    pub mcp_enabled: bool,
    /// The key that a client must present; empty where none was set.
    pub mcp_api_key: String,
}

/// The server's settings as they read at the time of a request.
pub struct AppState {
    /// Whether the whole server refuses to write.
    pub read_only: bool,
    pub config: Config,
}

/// The message of a write that is refused because the server is read-only.
pub const READ_ONLY_MESSAGE: &'static str =
    "服务处于只读模式，写操作被拒绝（可在设置页关闭只读）";

/// The message of a write that is refused because the client is not authorized.
pub const UNAUTHORIZED_MESSAGE: &'static str =
    "未授权：请在设置页 MCP 段生成 API key，并在客户端配置 `Authorization: Bearer <key>` 请求头";

/// The access level of a request that carries `carried`.
pub open spec fn effective_access(carried: Option<Access>) -> Access {
    match carried {
        Some(access) => access,
        None => Access::Anonymous,
    }
}

/// The access level of a call with these entries.
pub open spec fn request_access(extensions: rmcp::model::Extensions) -> Access {
    if parts_access(extensions).len() == 0 {
        Access::Anonymous
    } else {
        effective_access(parts_access(extensions)[0])
    }
}

/// The access level of a call: the one that its HTTP request carries. Where there
/// is no request, or the request carries none, the call is anonymous: nobody is
/// let through by default.
pub fn access_of(extensions: &rmcp::model::Extensions) -> (access: Access)
    ensures
        access == request_access(*extensions),
        access == Access::Full <==> parts_access(*extensions).len() > 0 && parts_access(
            *extensions,
        )[0] == Some(Access::Full),
{
    let carried = match get_request_entries(extensions) {
        Some(entries) => get_access(entries),
        None => None,
    };
    carried.unwrap_or(Access::Anonymous)
}

/// The error of a write on a read-only server.
pub open spec fn read_only_error() -> ErrorView {
    invalid_request_view(READ_ONLY_MESSAGE@)
}

/// The error of a write without full access.
pub open spec fn unauthorized_error() -> ErrorView {
    invalid_request_view(UNAUTHORIZED_MESSAGE@)
}

/// Refuses a write while the server is read-only.
pub fn deny_read_only(state: &AppState) -> (verdict: Result<(), ErrorData>)
    ensures
        verdict is Err <==> state.read_only,
        verdict matches Err(error) ==> error@ == read_only_error(),
        verdict matches Err(error) ==> error.message@ == READ_ONLY_MESSAGE@,
{
    if state.read_only {
        return Err(invalid_request(READ_ONLY_MESSAGE.to_owned()));
    }
    Ok(())
}

/// Refuses a write to everyone without full access.
pub fn require_full(access: Access) -> (verdict: Result<(), ErrorData>)
    ensures
        verdict is Err <==> access != Access::Full,
        verdict matches Err(error) ==> error@ == unauthorized_error(),
        verdict matches Err(error) ==> error.message@ == UNAUTHORIZED_MESSAGE@,
{
    if access != Access::Full {
        return Err(invalid_request(UNAUTHORIZED_MESSAGE.to_owned()));
    }
    Ok(())
}

} // verus!
