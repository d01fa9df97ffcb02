use axum::http::Extensions;
use jasper_mcp::access::{Access, AppState, Config};
use jasper_mcp::args::NoteIdArgs;
use jasper_mcp::guard::{guard_mcp_access, secret_eq, Rejection};
use jasper_mcp::server::JasperMcp;
use serde_json::Value;
use std::sync::Arc;

fn state(enabled: bool, key: &str) -> AppState {
    AppState {
        read_only: false,
        config: Config { mcp_enabled: enabled, mcp_api_key: key.to_string() },
    }
}

fn carrying(access: Access) -> Extensions {
    let mut extensions = Extensions::new();
    extensions.insert(access);
    extensions
}

/// The entries of a call that came with an HTTP request with these entries.
fn call(request: &Extensions) -> rmcp::model::Extensions {
    let (mut parts, ()) = axum::http::Request::new(()).into_parts();
    parts.extensions = request.clone();
    let mut extensions = rmcp::model::Extensions::new();
    extensions.insert(parts);
    extensions
}

fn body(rejection: Rejection) -> Value {
    Value::Object(rejection.body)
}

fn parsed(text: &str) -> Value {
    serde_json::from_str(text).unwrap()
}

#[test]
fn switched_off_endpoint_rejects_everyone() {
    for key in ["", "k1"] {
        for token in [None, Some("k1"), Some("other")] {
            let mut extensions = carrying(Access::Full);
            let rejection =
                guard_mcp_access(&state(false, key), token, &mut extensions).err().unwrap();
            assert_eq!(rejection.status.as_u16(), 503);
            assert_eq!(
                body(rejection),
                parsed("{\"error\":\"mcp_disabled\",\"message\":\"MCP server 已在设置页关闭\"}")
            );
        }
    }
}

#[test]
fn only_the_key_gets_in() {
    for token in [None, Some(""), Some("k"), Some("k12"), Some("K1"), Some("session")] {
        let mut extensions = carrying(Access::Full);
        let rejection =
            guard_mcp_access(&state(true, "k1"), token, &mut extensions).err().unwrap();
        assert_eq!(rejection.status.as_u16(), 401);
        assert_eq!(
            body(rejection),
            parsed(
                "{\"error\":\"mcp_unauthorized\",\"message\":\"MCP API key 不正确：请在客户端配置 `Authorization: Bearer <key>` 请求头（可在设置页 MCP 段复制完整命令）\"}"
            )
        );
    }
}

#[test]
fn a_rejected_request_keeps_its_access() {
    let mut extensions = carrying(Access::Anonymous);
    assert!(guard_mcp_access(&state(true, "k1"), None, &mut extensions).is_err());
    assert!(extensions.get::<Access>() == Some(&Access::Anonymous));
}

#[test]
fn the_key_grants_full_access() {
    for mut extensions in [carrying(Access::Anonymous), Extensions::new()] {
        assert!(guard_mcp_access(&state(true, "k1"), Some("k1"), &mut extensions).is_ok());
        assert!(extensions.get::<Access>() == Some(&Access::Full));
    }
}

#[test]
fn without_a_key_the_access_stays() {
    for access in [Access::Anonymous, Access::Full] {
        for token in [None, Some("anything")] {
            let mut extensions = carrying(access);
            assert!(guard_mcp_access(&state(true, ""), token, &mut extensions).is_ok());
            assert!(extensions.get::<Access>() == Some(&access));
        }
    }
    let mut extensions = Extensions::new();
    assert!(guard_mcp_access(&state(true, ""), None, &mut extensions).is_ok());
    assert!(extensions.get::<Access>().is_none());
}

#[test]
fn other_entries_of_a_request_survive() {
    let mut extensions = carrying(Access::Anonymous);
    extensions.insert(7u32);
    assert!(guard_mcp_access(&state(true, "k1"), Some("k1"), &mut extensions).is_ok());
    assert_eq!(extensions.get::<u32>(), Some(&7));
    assert_eq!(extensions.len(), 2);
    assert!(guard_mcp_access(&state(true, ""), None, &mut extensions).is_ok());
    assert!(guard_mcp_access(&state(true, "k1"), None, &mut extensions).is_err());
    assert_eq!(extensions.get::<u32>(), Some(&7));
}

#[test]
fn the_key_opens_the_write_tools() {
    let server = JasperMcp::new(Arc::new(state(true, "k1")));
    let mut extensions = carrying(Access::Anonymous);
    let delete = |extensions: &Extensions| {
        server.delete_note(NoteIdArgs { id: "n".to_string() }, &call(extensions))
    };
    assert!(delete(&extensions).is_err());
    assert!(guard_mcp_access(&state(true, "k1"), Some("k1"), &mut extensions).is_ok());
    assert_eq!(delete(&extensions).ok().unwrap(), "n");
}

#[test]
fn secrets_are_compared_as_a_whole() {
    assert!(secret_eq("", ""));
    assert!(secret_eq("abc", "abc"));
    assert!(secret_eq("密钥", "密钥"));
    assert!(!secret_eq("abc", "abd"));
    assert!(!secret_eq("bbc", "abc"));
    assert!(!secret_eq("abc", "ab"));
    assert!(!secret_eq("", "a"));
    assert!(!secret_eq("密钥", "密钥 "));
}
