use axum::http::Extensions;
use jasper_mcp::access::{
    access_of, deny_read_only, require_full, Access, AppState, Config, READ_ONLY_MESSAGE,
    UNAUTHORIZED_MESSAGE,
};
use jasper_mcp::args::{
    AddTagArgs, CreateFolderArgs, CreateNoteArgs, FolderIdArgs, ListNotesArgs, NoteIdArgs,
    RemoveTagArgs, SearchArgs, TagIdArgs, UpdateNoteArgs,
};
use jasper_mcp::error::ErrorData;
use jasper_mcp::server::JasperMcp;
use std::sync::Arc;

fn state(read_only: bool) -> AppState {
    AppState { read_only, config: Config { mcp_enabled: true, mcp_api_key: String::new() } }
}

fn server(read_only: bool) -> JasperMcp {
    JasperMcp::new(Arc::new(state(read_only)))
}

fn carrying(access: Access) -> rmcp::model::Extensions {
    let mut request = Extensions::new();
    request.insert(access);
    call(&request)
}

/// The entries of a call that came with an HTTP request with these entries.
fn call(request: &Extensions) -> rmcp::model::Extensions {
    let (mut parts, ()) = axum::http::Request::new(()).into_parts();
    parts.extensions = request.clone();
    let mut extensions = rmcp::model::Extensions::new();
    extensions.insert(parts);
    extensions
}

fn is_full(access: Access) -> bool {
    access == Access::Full
}

/// Calls every tool that writes and returns the errors, one for each tool.
fn write_errors(server: &JasperMcp, extensions: &rmcp::model::Extensions) -> Vec<Option<ErrorData>> {
    let text = |s: &str| s.to_string();
    vec![
        server
            .create_note(
                CreateNoteArgs { parent_id: None, title: text("t"), body: None, is_todo: None },
                extensions,
            )
            .err(),
        server
            .update_note(
                UpdateNoteArgs { id: text("i"), title: text("t"), body: text("b") },
                extensions,
            )
            .err(),
        server
            .create_folder(CreateFolderArgs { parent_id: None, title: text("t") }, extensions)
            .err(),
        server
            .add_note_tag(AddTagArgs { note_id: text("n"), title: text("t") }, extensions)
            .err(),
        server
            .remove_note_tag(RemoveTagArgs { note_id: text("n"), tag_id: text("t") }, extensions)
            .err(),
        server.delete_note(NoteIdArgs { id: text("n") }, extensions).err(),
        server.delete_folder(FolderIdArgs { id: text("f") }, extensions).err(),
    ]
}

#[test]
fn read_only_server_refuses_every_write() {
    for extensions in [
        carrying(Access::Full),
        carrying(Access::Anonymous),
        call(&Extensions::new()),
        rmcp::model::Extensions::new(),
    ] {
        for error in write_errors(&server(true), &extensions) {
            let error = error.unwrap();
            assert_eq!(error.code, -32600);
            assert_eq!(
                error.message,
                "服务处于只读模式，写操作被拒绝（可在设置页关闭只读）"
            );
            assert!(error.data.is_none());
        }
    }
}

#[test]
fn write_without_full_access_is_refused() {
    let anonymous = carrying(Access::Anonymous);
    let empty = call(&Extensions::new());
    let none = rmcp::model::Extensions::new();
    for extensions in [&anonymous, &empty, &none] {
        for error in write_errors(&server(false), extensions) {
            let error = error.unwrap();
            assert_eq!(error.code, -32600);
            assert_eq!(
                error.message,
                "未授权：请在设置页 MCP 段生成 API key，并在客户端配置 `Authorization: Bearer <key>` 请求头"
            );
            assert!(error.data.is_none());
        }
    }
}

#[test]
fn write_with_full_access_goes_on() {
    let full = carrying(Access::Full);
    let errors = write_errors(&server(false), &full);
    assert_eq!(errors.len(), 7);
    assert!(errors.iter().all(|error| error.is_none()));
}

#[test]
fn reading_goes_on_whatever_the_server_and_the_access() {
    for read_only in [true, false] {
        let server = server(read_only);
        for access in [Access::Full, Access::Anonymous] {
            let extensions = carrying(access);
            let seen = &extensions;
            let search = server
                .search_notes(SearchArgs { query: "q".to_string(), limit: None }, seen);
            assert!(search.access == access);
            assert!(server.get_note(NoteIdArgs { id: "n".to_string() }, seen).0 == access);
            assert!(server.list_notes(ListNotesArgs { folder_id: None }, seen).0 == access);
            assert!(server.list_folders(seen) == access);
            assert!(server.list_tags(seen) == access);
            assert!(server.notes_by_tag(TagIdArgs { tag_id: "t".to_string() }, seen).0 == access);
        }
    }
}

#[test]
fn access_is_read_from_the_request() {
    assert!(is_full(access_of(&carrying(Access::Full))));
    assert!(!is_full(access_of(&carrying(Access::Anonymous))));
    assert!(!is_full(access_of(&call(&Extensions::new()))));
    assert!(!is_full(access_of(&rmcp::model::Extensions::new())));
}

#[test]
fn access_outside_the_http_request_does_not_count() {
    let mut extensions = rmcp::model::Extensions::new();
    extensions.insert(Access::Full);
    assert!(!is_full(access_of(&extensions)));
}

#[test]
fn the_two_checks_answer_for_themselves() {
    assert!(deny_read_only(&state(false)).is_ok());
    assert_eq!(deny_read_only(&state(true)).err().unwrap().message, READ_ONLY_MESSAGE);
    assert!(require_full(Access::Full).is_ok());
    assert_eq!(require_full(Access::Anonymous).err().unwrap().message, UNAUTHORIZED_MESSAGE);
    assert_ne!(READ_ONLY_MESSAGE, UNAUTHORIZED_MESSAGE);
}
