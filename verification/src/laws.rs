//! What holds of the endpoint as a whole.

use crate::access::{
    access_entry, carried_access, effective_access, parts_access, read_only_error, request_access,
    unauthorized_error, Access,
};
use crate::args::{CreateFolderArgs, CreateNoteArgs};
use crate::error::{internal_error_view, invalid_request_view, ErrorData};
use crate::guard::{
    access_after, admission, disabled, law_a_rejection_says_error_and_message, token_text,
    wrong_key, AdmissionView, DISABLED_MESSAGE, WRONG_KEY_MESSAGE,
};
use crate::info::{tools_only, INSTRUCTIONS, SERVER_NAME};
use crate::json::{answered, value_members, Member, MemberView};
use crate::request::{text_or_empty, CreateFolderReq, CreateNoteReq};
use crate::server::{creates_folder, creates_note, deletion_replied, replied, Answer, Reply};
use crate::status::{
    has_wording, is_status, status_message, status_prefix, status_text, StatusCode, NO_CONTENT,
};
use crate::tool::{refusal, tools, Tool, TOOL_DESCRIPTIONS, TOOL_NAMES, TOOL_TITLES};
use vstd::prelude::*;
use vstd::string::to_string_from_display_ensures;

verus! {

/// A tool that writes nothing is never refused: neither a read-only server nor a
/// missing authorization keeps a client from searching and reading.
pub proof fn law_reading_is_never_refused(tool: Tool, read_only: bool, access: Access)
    requires
        !tool.writes(),
    ensures
        refusal(tool, read_only, access) is None,
{
}

/// A read-only server refuses every tool that writes, whoever calls it, and says
/// that it is read-only.
pub proof fn law_read_only_refuses_every_write(tool: Tool, access: Access)
    requires
        tool.writes(),
    ensures
        refusal(tool, true, access) == Some(read_only_error()),
{
}

/// A tool that writes goes on to its handler if and only if the server may write
/// and the request has full access; where only the access is missing, the client
/// is told to authorize itself.
pub proof fn law_writing_needs_full_access(tool: Tool, read_only: bool, access: Access)
    requires
        tool.writes(),
    ensures
        refusal(tool, read_only, access) is None <==> !read_only && access == Access::Full,
        !read_only && access != Access::Full ==> refusal(tool, read_only, access) == Some(
            unauthorized_error(),
        ),
{
}

/// A request that carries no access level never gets to write.
pub proof fn law_no_access_level_never_writes(tool: Tool, read_only: bool)
    requires
        tool.writes(),
    ensures
        refusal(tool, read_only, effective_access(None)) is Some,
{
}

/// What clients are told of a tool agrees with how it is treated: the tools that
/// are announced as reading only are those that nothing refuses, and every tool
/// that is announced as destructive is one that can be refused.
pub proof fn law_hints_agree_with_refusals(tool: Tool)
    ensures
        !tool.writes() <==> forall|read_only: bool, access: Access|
            refusal(tool, read_only, access) is None,
        tool.destroys() ==> tool.writes(),
{
    if tool.writes() {
        assert(refusal(tool, true, Access::Full) is Some);
    }
}

/// The two reasons to refuse a write are told apart by the error.
pub proof fn law_refusals_differ()
    ensures
        read_only_error() != unauthorized_error(),
{
    reveal_strlit("服务处于只读模式，写操作被拒绝（可在设置页关闭只读）");
    reveal_strlit(
        "未授权：请在设置页 MCP 段生成 API key，并在客户端配置 `Authorization: Bearer <key>` 请求头",
    );
    assert(read_only_error().message[0] != unauthorized_error().message[0]);
}

/// An endpoint that is switched off answers every request alike, whatever key is
/// set and whatever token comes with the request.
pub proof fn law_switched_off_rejects_everyone(key: Seq<char>, token: Option<Seq<char>>)
    ensures
        admission(false, key, token) == disabled(),
{
}

/// Where a key is set, the key is the one way in: a request that presents it has
/// full access, and one that presents anything else, or nothing, is rejected.
pub proof fn law_the_key_is_the_one_way_in(key: Seq<char>, token: Option<Seq<char>>)
    requires
        key.len() > 0,
    ensures
        token == Some(key) ==> admission(true, key, token) == (AdmissionView::Forward {
            granted: Some(Access::Full),
        }),
        token != Some(key) ==> admission(true, key, token) == wrong_key(),
{
}

/// Where no key is set, every request goes on with the access level that it
/// carries.
pub proof fn law_without_a_key_access_is_untouched(token: Option<Seq<char>>)
    ensures
        admission(true, Seq::empty(), token) == (AdmissionView::Forward { granted: None }),
{
}

/// A request that carries `carried` and the token `token` gets to the handler of
/// `tool`.
pub open spec fn served(
    tool: Tool,
    read_only: bool,
    enabled: bool,
    key: Seq<char>,
    token: Option<Seq<char>>,
    carried: Option<Access>,
) -> bool {
    match admission(enabled, key, token) {
        AdmissionView::Reject { .. } => false,
        AdmissionView::Forward { granted } => refusal(
            tool,
            read_only,
            effective_access(access_after(granted, carried)),
        ) is None,
    }
}

/// A call whose HTTP request was let in has, for the tools, the access level that
/// the request was let in with.
pub proof fn law_tools_see_what_the_guard_left(
    extensions: rmcp::model::Extensions,
    granted: Option<Access>,
    carried: Option<Access>,
)
    requires
        parts_access(extensions) == seq![access_after(granted, carried)],
    ensures
        request_access(extensions) == effective_access(access_after(granted, carried)),
{
}

/// From the outside: a write is done if and only if the endpoint is switched on,
/// the server may write, and the request presents the key or, where no key is set,
/// carries full access.
pub proof fn law_who_gets_to_write(
    tool: Tool,
    read_only: bool,
    enabled: bool,
    key: Seq<char>,
    token: Option<Seq<char>>,
    carried: Option<Access>,
)
    requires
        tool.writes(),
    ensures
        served(tool, read_only, enabled, key, token, carried) <==> {
            &&& enabled
            &&& !read_only
            &&& if key.len() > 0 {
                token == Some(key)
            } else {
                carried == Some(Access::Full)
            }
        },
{
}

/// From the outside: a tool that writes nothing is served if and only if the
/// endpoint is switched on and the request presents the key, where one is set.
pub proof fn law_who_gets_to_read(
    tool: Tool,
    read_only: bool,
    enabled: bool,
    key: Seq<char>,
    token: Option<Seq<char>>,
    carried: Option<Access>,
)
    requires
        !tool.writes(),
    ensures
        served(tool, read_only, enabled, key, token, carried) <==> enabled && (key.len() > 0
            ==> token == Some(key)),
{
}

/// Once a key is set, the access level that a request carries from elsewhere
/// changes nothing.
pub proof fn law_with_a_key_nothing_else_counts(
    tool: Tool,
    read_only: bool,
    enabled: bool,
    key: Seq<char>,
    token: Option<Seq<char>>,
    carried: Option<Access>,
    other: Option<Access>,
)
    requires
        key.len() > 0,
    ensures
        served(tool, read_only, enabled, key, token, carried) == served(
            tool,
            read_only,
            enabled,
            key,
            token,
            other,
        ),
{
}

/// A deletion is reported as done if and only if its handler ended with the status
/// for a deletion that was done.
pub proof fn law_only_done_deletions_are_reported(code: u16, what: Seq<char>, reply: Reply)
    requires
        deletion_replied(code, what, reply),
    ensures
        reply is Ok <==> code == NO_CONTENT,
{
}

/// The listed names are those of the tools, one for one and in the same order.
pub proof fn law_listed_names_are_the_tools()
    ensures
        TOOL_NAMES@.len() == tools().len(),
        forall|i: int|
            0 <= i < tools().len() ==> #[trigger] TOOL_NAMES@[i]@ == tools()[i].name_text(),
{
}

/// Every tool is listed, and no tool is listed twice.
pub proof fn law_every_tool_is_listed_once()
    ensures
        forall|tool: Tool| #[trigger] tools().contains(tool),
        tools().no_duplicates(),
{
    assert forall|tool: Tool| #[trigger] tools().contains(tool) by {
        let i: int = match tool {
            Tool::SearchNotes => 0,
            Tool::GetNote => 1,
            Tool::ListNotes => 2,
            Tool::ListFolders => 3,
            Tool::ListTags => 4,
            Tool::NotesByTag => 5,
            Tool::CreateNote => 6,
            Tool::UpdateNote => 7,
            Tool::CreateFolder => 8,
            Tool::AddNoteTag => 9,
            Tool::RemoveNoteTag => 10,
            Tool::DeleteNote => 11,
            Tool::DeleteFolder => 12,
        };
        assert(tools()[i] == tool);
    }
}

/// No two tools have the same name.
pub proof fn law_names_tell_tools_apart(a: Tool, b: Tool)
    ensures
        a.name_text() == b.name_text() ==> a == b,
{
    reveal_strlit("search_notes");
    reveal_strlit("get_note");
    reveal_strlit("list_notes");
    reveal_strlit("list_folders");
    reveal_strlit("list_tags");
    reveal_strlit("notes_by_tag");
    reveal_strlit("create_note");
    reveal_strlit("update_note");
    reveal_strlit("create_folder");
    reveal_strlit("add_note_tag");
    reveal_strlit("remove_note_tag");
    reveal_strlit("delete_note");
    reveal_strlit("delete_folder");
    let (x, y) = (a.name_text(), b.name_text());
    assert(x == y ==> x.len() == y.len() && x[0] == y[0] && x[5] == y[5] && x[7] == y[7]);
}

/// The tools that write are those that create, update, tag, untag or delete; the
/// tools that destroy are those that delete.
pub proof fn law_which_tools_write(tool: Tool)
    ensures
        tool.writes() <==> {
            ||| tool == Tool::CreateNote
            ||| tool == Tool::UpdateNote
            ||| tool == Tool::CreateFolder
            ||| tool == Tool::AddNoteTag
            ||| tool == Tool::RemoveNoteTag
            ||| tool == Tool::DeleteNote
            ||| tool == Tool::DeleteFolder
        },
        tool.destroys() <==> {
            ||| tool == Tool::DeleteNote
            ||| tool == Tool::DeleteFolder
        },
{
}

/// A refused write is an invalid request, with one of two messages: the server is
/// read-only, or the client is not authorized.
pub proof fn law_what_a_refusal_says(tool: Tool, read_only: bool, access: Access)
    requires
        refusal(tool, read_only, access) is Some,
    ensures
        refusal(tool, read_only, access)->0.code == -32600,
        refusal(tool, read_only, access)->0.data is None,
        read_only ==> refusal(tool, read_only, access)->0.message
            == "服务处于只读模式，写操作被拒绝（可在设置页关闭只读）"@,
        !read_only ==> refusal(tool, read_only, access)->0.message
            == "未授权：请在设置页 MCP 段生成 API key，并在客户端配置 `Authorization: Bearer <key>` 请求头"@,
{
}

/// A call has full access if and only if it came with an HTTP request that carries
/// full access; what the request carries is what the call has.
pub proof fn law_the_request_decides_the_access(extensions: rmcp::model::Extensions)
    ensures
        request_access(extensions) == Access::Full <==> parts_access(extensions).len() > 0
            && parts_access(extensions)[0] == Some(Access::Full),
        forall|access: Access|
            parts_access(extensions).len() > 0 && parts_access(extensions)[0] == Some(access)
                ==> request_access(extensions) == access,
{
}

/// A request carries the access level among its entries, and none where there is
/// no such entry.
pub proof fn law_the_entry_is_the_carried_access(entries: axum::http::Extensions, access: Access)
    ensures
        access_entry(entries) == seq![access] ==> carried_access(entries) == Some(access),
        access_entry(entries).len() == 0 ==> carried_access(entries) is None,
        carried_access(entries) == Some(access) ==> access_entry(entries).contains(access),
        effective_access(Some(access)) == access,
        effective_access(None) == Access::Anonymous,
{
    if access_entry(entries) == seq![access] {
        assert(access_entry(entries)[0] == access);
    }
}

/// What a request is granted replaces what it carried; where nothing is granted, it
/// goes on with what it carried.
pub proof fn law_a_grant_replaces_the_carried_access(access: Access, carried: Option<Access>)
    ensures
        access_after(Some(access), carried) == Some(access),
        access_after(None, carried) == carried,
{
}

/// A token counts by its whole text, and two tokens count alike only if they are
/// the same text.
pub proof fn law_a_token_is_its_whole_text(token: &str, other: &str)
    ensures
        token_text(Some(token)) == Some(token@),
        token_text(None) is None,
        token_text(Some(token)) == token_text(Some(other)) <==> token@ == other@,
{
}

/// Whatever the key, presenting its very text gets in with full access, and every
/// other text stays out.
pub proof fn law_every_key_opens_to_its_text(key: &str, token: &str)
    requires
        key@.len() > 0,
    ensures
        admission(true, key@, token_text(Some(token))) is Forward <==> token@ == key@,
        admission(true, key@, token_text(Some(key))) == (AdmissionView::Forward {
            granted: Some(Access::Full),
        }),
        admission(true, key@, token_text(None)) == wrong_key(),
{
}

/// The two rejections differ in status and in both members of the body, and say
/// what the client can do.
pub proof fn law_what_a_rejection_says()
    ensures
        disabled() matches AdmissionView::Reject { status, body } && {
            &&& status == 503
            &&& body.dom() == set!["error"@, "message"@]
            &&& body["error"@] == MemberView::Text("mcp_disabled"@)
            &&& body["message"@] == MemberView::Text("MCP server 已在设置页关闭"@)
        },
        wrong_key() matches AdmissionView::Reject { status, body } && {
            &&& status == 401
            &&& body.dom() == set!["error"@, "message"@]
            &&& body["error"@] == MemberView::Text("mcp_unauthorized"@)
            &&& body["message"@] == MemberView::Text(
                "MCP API key 不正确：请在客户端配置 `Authorization: Bearer <key>` 请求头（可在设置页 MCP 段复制完整命令）"@,
            )
        },
{
    law_a_rejection_says_error_and_message("mcp_disabled"@, DISABLED_MESSAGE@);
    law_a_rejection_says_error_and_message("mcp_unauthorized"@, WRONG_KEY_MESSAGE@);
}

/// A new note is what the client gave: its title, its notebook and its body, and a
/// to-do exactly where the client asked for one. What the client left out is empty.
pub proof fn law_a_new_note_is_what_was_given(args: CreateNoteArgs, req: CreateNoteReq)
    requires
        creates_note(args, req),
    ensures
        req.title@ == args.title@,
        args.parent_id matches Some(id) ==> req.parent_id@ == id@,
        args.parent_id is None ==> req.parent_id@.len() == 0,
        args.body matches Some(text) ==> req.body@ == text@,
        args.body is None ==> req.body@.len() == 0,
        args.is_todo matches Some(flag) ==> req.is_todo == flag,
        args.is_todo is None ==> !req.is_todo,
{
}

/// Two clients that get the same note created gave the same title, the same kind of
/// note, and the same texts wherever both gave them.
pub proof fn law_different_notes_are_asked_for_differently(
    args: CreateNoteArgs,
    other: CreateNoteArgs,
    req: CreateNoteReq,
)
    requires
        creates_note(args, req),
        creates_note(other, req),
    ensures
        args.title@ == other.title@,
        args.parent_id is Some && other.parent_id is Some ==> args.parent_id->0@
            == other.parent_id->0@,
        args.body is Some && other.body is Some ==> args.body->0@ == other.body->0@,
        args.is_todo is Some && other.is_todo is Some ==> args.is_todo == other.is_todo,
{
}

/// A new notebook has the title that the client gave, wherever it is put, and goes
/// below the notebook that the client gave, or to the top.
pub proof fn law_a_new_notebook_is_what_was_given(args: CreateFolderArgs, req: CreateFolderReq)
    requires
        creates_folder(args, req),
    ensures
        req.title@ == args.title@,
        args.parent_id matches Some(id) ==> req.parent_id@ == id@,
        args.parent_id is None ==> req.parent_id@.len() == 0,
{
}

/// Two clients that get the same notebook created gave the same title, and the same
/// notebook above it wherever both gave one.
pub proof fn law_different_notebooks_are_asked_for_differently(
    args: CreateFolderArgs,
    other: CreateFolderArgs,
    req: CreateFolderReq,
)
    requires
        creates_folder(args, req),
        creates_folder(other, req),
    ensures
        args.title@ == other.title@,
        args.parent_id is Some && other.parent_id is Some ==> args.parent_id->0@
            == other.parent_id->0@,
{
}

/// An optional text that is given stands for itself; one that is not given is empty.
pub proof fn law_a_given_text_stands_for_itself(text: String)
    ensures
        text_or_empty(Some(text)) == text@,
        text_or_empty(None).len() == 0,
{
}

/// What a handler answers is what the client gets, unchanged, whatever tool it is.
pub proof fn law_answers_are_handed_on_unchanged(
    outcome: Result<Answer, StatusCode>,
    what: Seq<char>,
    reply: Reply,
)
    requires
        replied(outcome, what, reply),
    ensures
        outcome matches Ok(Ok(value)) ==> reply matches Ok(got) && got == value,
        reply matches Ok(got) ==> outcome matches Ok(Ok(value)) && value == got,
{
}

/// The same outcome is answered alike by every tool but for the word for what
/// failed, and only where the handler failed with a status.
pub proof fn law_only_failures_name_the_tool(
    answer: Answer,
    what: Seq<char>,
    other: Seq<char>,
    reply: Reply,
)
    ensures
        replied(Ok(answer), what, reply) <==> replied(Ok(answer), other, reply),
        replied(Ok(answer), what, reply) <==> answered(answer, reply),
{
}

/// A handler that failed with a status is answered with an invalid request, whose
/// message is that of the status.
pub proof fn law_failures_are_put_into_words(code: StatusCode, what: Seq<char>, reply: Reply)
    requires
        replied(Err(code), what, reply),
    ensures
        reply is Err,
        reply->Err_0.code == -32600,
        reply->Err_0.data is None,
        reply->Err_0.message@ == status_message(code@, what, status_text(code@)),
{
}

/// An answer that cannot be serialized is an internal error, whose message is a
/// fixed beginning and then the text of what went wrong.
pub proof fn law_failed_serializations_say_why(error: serde_json::Error, reply: Reply)
    requires
        answered(Err(error), reply),
    ensures
        reply is Err,
        reply->Err_0.code == -32603,
        reply->Err_0.data is None,
        exists|text: String| #[trigger]
            to_string_from_display_ensures(&error, text) && reply->Err_0.message@ == "序列化失败: "@
                + text@,
{
}

/// What the client is told of a status, for every subject: that it does not exist,
/// that its arguments are wrong, that there is no data source, or else the subject
/// and the printed status.
pub proof fn law_what_a_status_says(code: u16, what: Seq<char>, text: Seq<char>)
    ensures
        status_message(404, what, text) == what + "不存在"@,
        status_message(400, what, text) == what + "的参数不合法"@,
        status_message(503, what, text) == "尚未配置数据源"@,
        code != 404 && code != 400 && code != 503 ==> status_message(code, what, text) == what
            + "失败（"@ + text + "）"@,
        has_wording(code) <==> code == 404 || code == 400 || code == 503,
{
}

/// A failure is about the subject that it names: but for a missing data source, the
/// message starts with the subject, and differs for subjects that differ.
pub proof fn law_failures_start_with_their_subject(
    code: u16,
    what: Seq<char>,
    other: Seq<char>,
    text: Seq<char>,
)
    requires
        code != 503,
    ensures
        what.is_prefix_of(status_message(code, what, text)),
        status_message(code, what, text) == status_message(code, other, text) ==> what == other,
{
    let (a, b) = (status_message(code, what, text), status_message(code, other, text));
    if a == b {
        law_what_a_status_says(code, what, text);
        law_what_a_status_says(code, other, text);
        let end = if code == 404 {
            "不存在"@
        } else if code == 400 {
            "的参数不合法"@
        } else {
            "失败（"@ + text + "）"@
        };
        assert(a == what + end);
        assert(b == other + end);
        assert(what.len() == other.len());
        assert(a.take(what.len() as int) == what);
        assert(b.take(other.len() as int) == other);
    }
}

/// The digits that start a printed status are those of its number.
pub proof fn law_a_printed_status_starts_with_its_number(code: u16)
    requires
        is_status(code),
    ensures
        status_prefix(code).len() == 4,
        status_prefix(code)[3] == ' ',
        forall|i: int| 0 <= i < 3 ==> '0' <= #[trigger] status_prefix(code)[i] <= '9',
        100 * (status_prefix(code)[0] as int - '0' as int) + 10 * (status_prefix(code)[1] as int
            - '0' as int) + (status_prefix(code)[2] as int - '0' as int) == code,
        100 <= code <= 999,
{
    let p = status_prefix(code);
    assert(p[0] as int == '0' as int + code / 100);
    assert(p[1] as int == '0' as int + code / 10 % 10);
    assert(p[2] as int == '0' as int + code % 10);
}

/// The reply to a deletion that was done holds `deleted`, which is true, and nothing
/// else.
pub proof fn law_what_a_done_deletion_says(what: Seq<char>, reply: Reply)
    requires
        deletion_replied(204, what, reply),
    ensures
        reply is Ok,
        value_members(reply->Ok_0).dom() == set!["deleted"@],
        value_members(reply->Ok_0)["deleted"@] == MemberView::Flag(true),
{
}

/// A deletion that was not done is answered with the message of its status.
pub proof fn law_failed_deletions_are_put_into_words(code: u16, what: Seq<char>, reply: Reply)
    requires
        deletion_replied(code, what, reply),
        code != 204,
    ensures
        reply is Err,
        reply->Err_0.code == -32600,
        reply->Err_0.data is None,
        reply->Err_0.message@ == status_message(code, what, status_text(code)),
{
}

/// The two kinds of errors: the code says which it is, the message is the one given,
/// and there is no more to it. What contracts see of an error is all of it.
pub proof fn law_an_error_is_its_code_and_message(message: Seq<char>, error: ErrorData)
    ensures
        invalid_request_view(message).code == -32600,
        invalid_request_view(message).message == message,
        invalid_request_view(message).data is None,
        internal_error_view(message).code == -32603,
        internal_error_view(message).message == message,
        internal_error_view(message).data is None,
        error@.code == error.code,
        error@.message == error.message@,
        error@.data == error.data,
{
}

/// A member of a built object holds the text or the flag that was put in.
pub proof fn law_a_member_holds_what_was_put_in(text: String, flag: bool)
    ensures
        Member::Text(text)@ == MemberView::Text(text@),
        Member::Flag(flag)@ == MemberView::Flag(flag),
{
}

/// Only tools are announced, and the server tells its clients how to use them.
pub proof fn law_what_the_server_announces()
    ensures
        tools_only().tools == Some(None::<bool>),
        !tools_only().experimental,
        !tools_only().extensions,
        !tools_only().logging,
        !tools_only().completions,
        !tools_only().prompts,
        !tools_only().resources,
        SERVER_NAME@ == "jasper"@,
        INSTRUCTIONS@
            == "Jasper 是一个 Joplin 兼容的笔记库。笔记与笔记本的 id 都是 32 位十六进制字符串；正文是 Markdown。笔记本 id 为空串代表「未分类」。先用 search_notes / list_folders 定位，再用 get_note 读正文；update_note 是整篇覆盖，改之前务必先读回原文。删除类工具不可撤销，执行前请向用户确认。"@,
{
}

/// The titles and the descriptions are listed in the order of the names.
pub proof fn law_listed_texts_are_those_of_the_tools()
    ensures
        TOOL_TITLES@.len() == tools().len(),
        TOOL_DESCRIPTIONS@.len() == tools().len(),
        forall|i: int|
            0 <= i < tools().len() ==> #[trigger] TOOL_TITLES@[i]@ == tools()[i].title_text(),
        forall|i: int|
            0 <= i < tools().len() ==> #[trigger] TOOL_DESCRIPTIONS@[i]@
                == tools()[i].description_text(),
{
}

/// Each name goes with one title and one description: whichever tool has the name
/// is the tool that clients are told of under it.
pub proof fn law_what_clients_are_told_under_each_name(tool: Tool)
    ensures
        tool.name_text() == "search_notes"@ ==> tool.title_text() == "搜索笔记"@ && tool.description_text()
            == "全文搜索笔记，匹配标题与正文，按更新时间倒序返回摘要。想读正文再调 get_note。"@,
        tool.name_text() == "get_note"@ ==> tool.title_text() == "读取笔记"@ && tool.description_text()
            == "按 id 读一篇笔记的完整内容（含正文 Markdown）。"@,
        tool.name_text() == "list_notes"@ ==> tool.title_text() == "列出笔记"@ && tool.description_text()
            == "列出某个笔记本下的笔记摘要（不含正文），按更新时间倒序。"@,
        tool.name_text() == "list_folders"@ ==> tool.title_text() == "列出笔记本"@ && tool.description_text()
            == "列出整棵笔记本树（含每个笔记本的直属笔记数）。id 为空串的节点是「未分类」。"@,
        tool.name_text() == "list_tags"@ ==> tool.title_text() == "列出标签"@ && tool.description_text()
            == "列出全部标签及各自的笔记篇数。"@,
        tool.name_text() == "notes_by_tag"@ ==> tool.title_text() == "按标签列笔记"@ && tool.description_text()
            == "列出打了某个标签的笔记摘要。标签 id 由 list_tags 取得。"@,
        tool.name_text() == "create_note"@ ==> tool.title_text() == "新建笔记"@ && tool.description_text()
            == "新建一篇笔记，返回含 id 的完整笔记。"@,
        tool.name_text() == "update_note"@ ==> tool.title_text() == "更新笔记"@ && tool.description_text()
            == "整篇覆盖一条笔记的标题与正文（不是追加）。改之前先 get_note 取回原文。"@,
        tool.name_text() == "create_folder"@ ==> tool.title_text() == "新建笔记本"@ && tool.description_text()
            == "新建一个笔记本，返回含 id 的引用。"@,
        tool.name_text() == "add_note_tag"@ ==> tool.title_text() == "打标签"@ && tool.description_text()
            == "给笔记打标签。标签名已存在则复用（不区分大小写），否则新建。返回该笔记当前的全部标签。"@,
        tool.name_text() == "remove_note_tag"@ ==> tool.title_text() == "去标签"@ && tool.description_text()
            == "从笔记上去掉某个标签（标签本身保留）。返回该笔记剩余的标签。"@,
        tool.name_text() == "delete_note"@ ==> tool.title_text() == "删除笔记"@ && tool.description_text()
            == "永久删除一篇笔记。不可撤销，没有回收站。"@,
        tool.name_text() == "delete_folder"@ ==> tool.title_text() == "删除笔记本（级联）"@ && tool.description_text()
            == "永久删除一个笔记本，**连同它的子笔记本与其中所有笔记一起删除**。不可撤销。删之前建议先用 list_folders / list_notes 确认会删掉哪些内容。"@,
        exists|i: int| 0 <= i < TOOL_NAMES@.len() && #[trigger] TOOL_NAMES@[i]@ == tool.name_text(),
{
    law_names_tell_tools_apart(tool, Tool::SearchNotes);
    law_names_tell_tools_apart(tool, Tool::GetNote);
    law_names_tell_tools_apart(tool, Tool::ListNotes);
    law_names_tell_tools_apart(tool, Tool::ListFolders);
    law_names_tell_tools_apart(tool, Tool::ListTags);
    law_names_tell_tools_apart(tool, Tool::NotesByTag);
    law_names_tell_tools_apart(tool, Tool::CreateNote);
    law_names_tell_tools_apart(tool, Tool::UpdateNote);
    law_names_tell_tools_apart(tool, Tool::CreateFolder);
    law_names_tell_tools_apart(tool, Tool::AddNoteTag);
    law_names_tell_tools_apart(tool, Tool::RemoveNoteTag);
    law_names_tell_tools_apart(tool, Tool::DeleteNote);
    law_names_tell_tools_apart(tool, Tool::DeleteFolder);
    law_every_tool_is_listed_once();
    law_listed_names_are_the_tools();
    assert(tools().contains(tool));
    let i = choose|i: int| 0 <= i < tools().len() && tools()[i] == tool;
    assert(TOOL_NAMES@[i]@ == tool.name_text());
}

/// Each tool goes by the name of what it does.
pub proof fn law_each_tool_goes_by_its_name(tool: Tool)
    ensures
        tool == Tool::SearchNotes <==> tool.name_text() == "search_notes"@,
        tool == Tool::GetNote <==> tool.name_text() == "get_note"@,
        tool == Tool::ListNotes <==> tool.name_text() == "list_notes"@,
        tool == Tool::ListFolders <==> tool.name_text() == "list_folders"@,
        tool == Tool::ListTags <==> tool.name_text() == "list_tags"@,
        tool == Tool::NotesByTag <==> tool.name_text() == "notes_by_tag"@,
        tool == Tool::CreateNote <==> tool.name_text() == "create_note"@,
        tool == Tool::UpdateNote <==> tool.name_text() == "update_note"@,
        tool == Tool::CreateFolder <==> tool.name_text() == "create_folder"@,
        tool == Tool::AddNoteTag <==> tool.name_text() == "add_note_tag"@,
        tool == Tool::RemoveNoteTag <==> tool.name_text() == "remove_note_tag"@,
        tool == Tool::DeleteNote <==> tool.name_text() == "delete_note"@,
        tool == Tool::DeleteFolder <==> tool.name_text() == "delete_folder"@,
{
    law_names_tell_tools_apart(tool, Tool::SearchNotes);
    law_names_tell_tools_apart(tool, Tool::GetNote);
    law_names_tell_tools_apart(tool, Tool::ListNotes);
    law_names_tell_tools_apart(tool, Tool::ListFolders);
    law_names_tell_tools_apart(tool, Tool::ListTags);
    law_names_tell_tools_apart(tool, Tool::NotesByTag);
    law_names_tell_tools_apart(tool, Tool::CreateNote);
    law_names_tell_tools_apart(tool, Tool::UpdateNote);
    law_names_tell_tools_apart(tool, Tool::CreateFolder);
    law_names_tell_tools_apart(tool, Tool::AddNoteTag);
    law_names_tell_tools_apart(tool, Tool::RemoveNoteTag);
    law_names_tell_tools_apart(tool, Tool::DeleteNote);
    law_names_tell_tools_apart(tool, Tool::DeleteFolder);
}

/// The descriptions that start by saying that something is deleted for good are
/// those of the tools that destroy.
pub proof fn law_descriptions_warn_of_destruction(tool: Tool)
    ensures
        "永久删除"@.is_prefix_of(tool.description_text()) <==> tool.destroys(),
{
    reveal_strlit("永久删除");
    reveal_strlit("全文搜索笔记，匹配标题与正文，按更新时间倒序返回摘要。想读正文再调 get_note。");
    reveal_strlit("按 id 读一篇笔记的完整内容（含正文 Markdown）。");
    reveal_strlit("列出某个笔记本下的笔记摘要（不含正文），按更新时间倒序。");
    reveal_strlit("列出整棵笔记本树（含每个笔记本的直属笔记数）。id 为空串的节点是「未分类」。");
    reveal_strlit("列出全部标签及各自的笔记篇数。");
    reveal_strlit("列出打了某个标签的笔记摘要。标签 id 由 list_tags 取得。");
    reveal_strlit("新建一篇笔记，返回含 id 的完整笔记。");
    reveal_strlit("整篇覆盖一条笔记的标题与正文（不是追加）。改之前先 get_note 取回原文。");
    reveal_strlit("新建一个笔记本，返回含 id 的引用。");
    reveal_strlit("给笔记打标签。标签名已存在则复用（不区分大小写），否则新建。返回该笔记当前的全部标签。");
    reveal_strlit("从笔记上去掉某个标签（标签本身保留）。返回该笔记剩余的标签。");
    reveal_strlit("永久删除一篇笔记。不可撤销，没有回收站。");
    reveal_strlit("永久删除一个笔记本，**连同它的子笔记本与其中所有笔记一起删除**。不可撤销。删之前建议先用 list_folders / list_notes 确认会删掉哪些内容。");
    let (start, told) = ("永久删除"@, tool.description_text());
    if start.is_prefix_of(told) {
        assert(start[0] == told[0]);
    }
}

/// No two tools are described alike.
pub proof fn law_descriptions_tell_tools_apart(a: Tool, b: Tool)
    ensures
        a.description_text() == b.description_text() ==> a == b,
{
    reveal_strlit("全文搜索笔记，匹配标题与正文，按更新时间倒序返回摘要。想读正文再调 get_note。");
    reveal_strlit("按 id 读一篇笔记的完整内容（含正文 Markdown）。");
    reveal_strlit("列出某个笔记本下的笔记摘要（不含正文），按更新时间倒序。");
    reveal_strlit("列出整棵笔记本树（含每个笔记本的直属笔记数）。id 为空串的节点是「未分类」。");
    reveal_strlit("列出全部标签及各自的笔记篇数。");
    reveal_strlit("列出打了某个标签的笔记摘要。标签 id 由 list_tags 取得。");
    reveal_strlit("新建一篇笔记，返回含 id 的完整笔记。");
    reveal_strlit("整篇覆盖一条笔记的标题与正文（不是追加）。改之前先 get_note 取回原文。");
    reveal_strlit("新建一个笔记本，返回含 id 的引用。");
    reveal_strlit("给笔记打标签。标签名已存在则复用（不区分大小写），否则新建。返回该笔记当前的全部标签。");
    reveal_strlit("从笔记上去掉某个标签（标签本身保留）。返回该笔记剩余的标签。");
    reveal_strlit("永久删除一篇笔记。不可撤销，没有回收站。");
    reveal_strlit("永久删除一个笔记本，**连同它的子笔记本与其中所有笔记一起删除**。不可撤销。删之前建议先用 list_folders / list_notes 确认会删掉哪些内容。");
    let (x, y) = (a.description_text(), b.description_text());
    assert(x == y ==> x.len() == y.len() && x[0] == y[0]);
}

} // verus!
