use jasper_mcp::access::{Access, AppState, Config};
use jasper_mcp::args::{
    AddTagArgs, CreateFolderArgs, CreateNoteArgs, FolderIdArgs, ListNotesArgs, NoteIdArgs,
    RemoveTagArgs, SearchArgs, TagIdArgs, UpdateNoteArgs,
};
use jasper_mcp::server::{JasperMcp, DEFAULT_SEARCH_LIMIT};
use jasper_mcp::tool::{Tool, TOOL_NAMES};
use rmcp::model::Extensions;
use std::sync::Arc;

fn server() -> JasperMcp {
    JasperMcp::new(Arc::new(AppState {
        read_only: false,
        config: Config { mcp_enabled: true, mcp_api_key: String::new() },
    }))
}

fn full() -> Extensions {
    let (mut parts, ()) = axum::http::Request::new(()).into_parts();
    parts.extensions.insert(Access::Full);
    let mut extensions = Extensions::new();
    extensions.insert(parts);
    extensions
}

#[test]
fn search_hands_on_the_query_and_the_limit() {
    let extensions = full();
    let call = server()
        .search_notes(SearchArgs { query: "猫".to_string(), limit: None }, &extensions);
    assert_eq!(call.query.q, Some("猫".to_string()));
    assert_eq!(call.limit, 30);
    assert_eq!(DEFAULT_SEARCH_LIMIT, 30);
    let call = server()
        .search_notes(SearchArgs { query: "".to_string(), limit: Some(0) }, &extensions);
    assert_eq!(call.query.q, Some(String::new()));
    assert_eq!(call.limit, 0);
}

#[test]
fn search_keeps_the_first_hits() {
    let found: Vec<u32> = (0..40).collect();
    let first: Vec<u32> = (0..30).collect();
    assert_eq!(JasperMcp::search_notes_hits(found.clone(), 30), first);
    assert_eq!(JasperMcp::search_notes_hits(found.clone(), 100), found);
    assert_eq!(JasperMcp::search_notes_hits(found.clone(), 40), found);
    assert!(JasperMcp::search_notes_hits(found, 0).is_empty());
}

#[test]
fn reading_tools_hand_on_their_arguments() {
    let extensions = full();
    let seen = &extensions;
    assert_eq!(server().get_note(NoteIdArgs { id: "n1".to_string() }, seen).1, "n1");
    let (_, query) = server().list_notes(ListNotesArgs { folder_id: None }, seen);
    assert_eq!(query.folder, None);
    let (_, query) =
        server().list_notes(ListNotesArgs { folder_id: Some("f1".to_string()) }, seen);
    assert_eq!(query.folder, Some("f1".to_string()));
    assert_eq!(server().notes_by_tag(TagIdArgs { tag_id: "t1".to_string() }, seen).1, "t1");
}

#[test]
fn what_a_new_note_leaves_out_is_empty() {
    let extensions = full();
    let req = server()
        .create_note(
            CreateNoteArgs {
                parent_id: None,
                title: "标题".to_string(),
                body: None,
                is_todo: None,
            },
            &extensions,
        )
        .ok()
        .unwrap();
    assert_eq!(req.parent_id, "");
    assert_eq!(req.title, "标题");
    assert_eq!(req.body, "");
    assert!(!req.is_todo);
}

#[test]
fn what_a_new_note_gives_is_kept() {
    let extensions = full();
    let req = server()
        .create_note(
            CreateNoteArgs {
                parent_id: Some("f1".to_string()),
                title: "t".to_string(),
                body: Some("# b".to_string()),
                is_todo: Some(true),
            },
            &extensions,
        )
        .ok()
        .unwrap();
    assert_eq!(req.parent_id, "f1");
    assert_eq!(req.body, "# b");
    assert!(req.is_todo);
}

#[test]
fn update_replaces_title_and_body() {
    let extensions = full();
    let (id, req) = server()
        .update_note(
            UpdateNoteArgs { id: "n".to_string(), title: "t".to_string(), body: "b".to_string() },
            &extensions,
        )
        .ok()
        .unwrap();
    assert_eq!((id.as_str(), req.title.as_str(), req.body.as_str()), ("n", "t", "b"));
}

#[test]
fn the_other_writing_tools_hand_on_their_arguments() {
    let extensions = full();
    let seen = &extensions;
    let top = server()
        .create_folder(CreateFolderArgs { parent_id: None, title: "a".to_string() }, seen)
        .ok()
        .unwrap();
    assert_eq!((top.parent_id.as_str(), top.title.as_str()), ("", "a"));
    let below = server()
        .create_folder(
            CreateFolderArgs { parent_id: Some("p".to_string()), title: "a".to_string() },
            seen,
        )
        .ok()
        .unwrap();
    assert_eq!(below.parent_id, "p");
    let (note, tag) = server()
        .add_note_tag(AddTagArgs { note_id: "n".to_string(), title: "t".to_string() }, seen)
        .ok()
        .unwrap();
    assert_eq!((note.as_str(), tag.title.as_str()), ("n", "t"));
    let pair = server()
        .remove_note_tag(RemoveTagArgs { note_id: "n".to_string(), tag_id: "t".to_string() }, seen)
        .ok()
        .unwrap();
    assert_eq!(pair, ("n".to_string(), "t".to_string()));
    assert_eq!(
        server().delete_folder(FolderIdArgs { id: "f".to_string() }, seen).ok().unwrap(),
        "f"
    );
}

#[test]
fn the_listed_names_are_those_of_the_tools() {
    let tools = Tool::all();
    let names: Vec<&str> = tools.iter().map(|tool| tool.name()).collect();
    assert_eq!(names, TOOL_NAMES.to_vec());
    assert_eq!(names.len(), 13);
    assert_eq!(names[0], "search_notes");
    assert_eq!(names[12], "delete_folder");
    for i in 0..names.len() {
        for j in 0..i {
            assert_ne!(names[i], names[j]);
        }
    }
}

#[test]
fn tools_announce_what_they_do() {
    for (i, tool) in Tool::all().into_iter().enumerate() {
        let annotations = tool.annotations();
        assert_eq!(annotations.read_only_hint, if i < 6 { Some(true) } else { None });
        assert_eq!(annotations.destructive_hint, if i >= 11 { Some(true) } else { None });
        assert!(!annotations.title.is_empty());
        assert!(!tool.description().is_empty());
    }
    assert_eq!(Tool::SearchNotes.annotations().title, "搜索笔记");
    assert_eq!(Tool::DeleteFolder.annotations().title, "删除笔记本（级联）");
    assert_eq!(Tool::DeleteNote.description(), "永久删除一篇笔记。不可撤销，没有回收站。");
}

#[test]
fn the_server_tells_of_itself() {
    let info = server().get_info("1.2.3");
    assert_eq!(info.protocol_version, rmcp::model::ProtocolVersion::LATEST.as_str());
    assert_eq!(info.name, "jasper");
    assert_eq!(info.version, "1.2.3");
    assert_eq!(info.capabilities.tools, Some(None));
    assert!(!info.capabilities.experimental && !info.capabilities.extensions);
    assert!(!info.capabilities.logging && !info.capabilities.completions);
    assert!(!info.capabilities.prompts && !info.capabilities.resources);
    let instructions = info.instructions.unwrap();
    assert!(instructions.starts_with("Jasper 是一个 Joplin 兼容的笔记库。"));
    assert!(instructions.ends_with("删除类工具不可撤销，执行前请向用户确认。"));
}
