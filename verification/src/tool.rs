//! The tools that the server offers: their names and what clients are told of
//! each.

use crate::access::{read_only_error, unauthorized_error, Access};
use crate::error::ErrorView;
use vstd::prelude::*;

verus! {

/// The tools of the server.
#[derive(Clone, Copy, PartialEq, Eq, Structural)]
pub enum Tool {
    SearchNotes,
    GetNote,
    ListNotes,
    ListFolders,
    ListTags,
    NotesByTag,
    CreateNote,
    UpdateNote,
    CreateFolder,
    AddNoteTag,
    RemoveNoteTag,
    DeleteNote,
    DeleteFolder,
}

/// What clients are told of how a tool behaves.
pub struct ToolAnnotations {
    pub title: &'static str,
    /// `Some(true)` for a tool that changes nothing.
    pub read_only_hint: Option<bool>,
    /// `Some(true)` for a tool whose changes cannot be undone.
    pub destructive_hint: Option<bool>,
}

/// The names of the tools, in the order of the settings page.
pub const TOOL_NAMES: [&'static str; 13] = [
    "search_notes",
    "get_note",
    "list_notes",
    "list_folders",
    "list_tags",
    "notes_by_tag",
    "create_note",
    "update_note",
    "create_folder",
    "add_note_tag",
    "remove_note_tag",
    "delete_note",
    "delete_folder",
];

/// The titles of the tools, in the same order.
pub const TOOL_TITLES: [&'static str; 13] = [
    "搜索笔记",
    "读取笔记",
    "列出笔记",
    "列出笔记本",
    "列出标签",
    "按标签列笔记",
    "新建笔记",
    "更新笔记",
    "新建笔记本",
    "打标签",
    "去标签",
    "删除笔记",
    "删除笔记本（级联）",
];

/// What clients are told of what each tool is for, in the same order.
pub const TOOL_DESCRIPTIONS: [&'static str; 13] = [
    "全文搜索笔记，匹配标题与正文，按更新时间倒序返回摘要。想读正文再调 get_note。",
    "按 id 读一篇笔记的完整内容（含正文 Markdown）。",
    "列出某个笔记本下的笔记摘要（不含正文），按更新时间倒序。",
    "列出整棵笔记本树（含每个笔记本的直属笔记数）。id 为空串的节点是「未分类」。",
    "列出全部标签及各自的笔记篇数。",
    "列出打了某个标签的笔记摘要。标签 id 由 list_tags 取得。",
    "新建一篇笔记，返回含 id 的完整笔记。",
    "整篇覆盖一条笔记的标题与正文（不是追加）。改之前先 get_note 取回原文。",
    "新建一个笔记本，返回含 id 的引用。",
    "给笔记打标签。标签名已存在则复用（不区分大小写），否则新建。返回该笔记当前的全部标签。",
    "从笔记上去掉某个标签（标签本身保留）。返回该笔记剩余的标签。",
    "永久删除一篇笔记。不可撤销，没有回收站。",
    "永久删除一个笔记本，**连同它的子笔记本与其中所有笔记一起删除**。不可撤销。删之前建议先用 list_folders / list_notes 确认会删掉哪些内容。",
];

/// The tools, in the order of the settings page.
pub open spec fn tools() -> Seq<Tool> {
    seq![
        Tool::SearchNotes,
        Tool::GetNote,
        Tool::ListNotes,
        Tool::ListFolders,
        Tool::ListTags,
        Tool::NotesByTag,
        Tool::CreateNote,
        Tool::UpdateNote,
        Tool::CreateFolder,
        Tool::AddNoteTag,
        Tool::RemoveNoteTag,
        Tool::DeleteNote,
        Tool::DeleteFolder,
    ]
}

impl Tool {
    /// Whether the tool changes notes, notebooks or tags.
    pub open spec fn writes(self) -> bool {
        match self {
            Tool::SearchNotes
            | Tool::GetNote
            | Tool::ListNotes
            | Tool::ListFolders
            | Tool::ListTags
            | Tool::NotesByTag => false,
            _ => true,
        }
    }

    /// Whether what the tool does cannot be undone.
    pub open spec fn destroys(self) -> bool {
        self == Tool::DeleteNote || self == Tool::DeleteFolder
    }

    /// The name that clients call the tool by.
    pub open spec fn name_text(self) -> Seq<char> {
        match self {
            Tool::SearchNotes => "search_notes"@,
            Tool::GetNote => "get_note"@,
            Tool::ListNotes => "list_notes"@,
            Tool::ListFolders => "list_folders"@,
            Tool::ListTags => "list_tags"@,
            Tool::NotesByTag => "notes_by_tag"@,
            Tool::CreateNote => "create_note"@,
            Tool::UpdateNote => "update_note"@,
            Tool::CreateFolder => "create_folder"@,
            Tool::AddNoteTag => "add_note_tag"@,
            Tool::RemoveNoteTag => "remove_note_tag"@,
            Tool::DeleteNote => "delete_note"@,
            Tool::DeleteFolder => "delete_folder"@,
        }
    }

    /// The title that clients show for the tool.
    pub open spec fn title_text(self) -> Seq<char> {
        match self {
            Tool::SearchNotes => "搜索笔记"@,
            Tool::GetNote => "读取笔记"@,
            Tool::ListNotes => "列出笔记"@,
            Tool::ListFolders => "列出笔记本"@,
            Tool::ListTags => "列出标签"@,
            Tool::NotesByTag => "按标签列笔记"@,
            Tool::CreateNote => "新建笔记"@,
            Tool::UpdateNote => "更新笔记"@,
            Tool::CreateFolder => "新建笔记本"@,
            Tool::AddNoteTag => "打标签"@,
            Tool::RemoveNoteTag => "去标签"@,
            Tool::DeleteNote => "删除笔记"@,
            Tool::DeleteFolder => "删除笔记本（级联）"@,
        }
    }

    /// What clients are told of what the tool is for.
    pub open spec fn description_text(self) -> Seq<char> {
        match self {
            Tool::SearchNotes => "全文搜索笔记，匹配标题与正文，按更新时间倒序返回摘要。想读正文再调 get_note。"@,
            Tool::GetNote => "按 id 读一篇笔记的完整内容（含正文 Markdown）。"@,
            Tool::ListNotes => "列出某个笔记本下的笔记摘要（不含正文），按更新时间倒序。"@,
            Tool::ListFolders => "列出整棵笔记本树（含每个笔记本的直属笔记数）。id 为空串的节点是「未分类」。"@,
            Tool::ListTags => "列出全部标签及各自的笔记篇数。"@,
            Tool::NotesByTag => "列出打了某个标签的笔记摘要。标签 id 由 list_tags 取得。"@,
            Tool::CreateNote => "新建一篇笔记，返回含 id 的完整笔记。"@,
            Tool::UpdateNote => "整篇覆盖一条笔记的标题与正文（不是追加）。改之前先 get_note 取回原文。"@,
            Tool::CreateFolder => "新建一个笔记本，返回含 id 的引用。"@,
            Tool::AddNoteTag => "给笔记打标签。标签名已存在则复用（不区分大小写），否则新建。返回该笔记当前的全部标签。"@,
            Tool::RemoveNoteTag => "从笔记上去掉某个标签（标签本身保留）。返回该笔记剩余的标签。"@,
            Tool::DeleteNote => "永久删除一篇笔记。不可撤销，没有回收站。"@,
            Tool::DeleteFolder => "永久删除一个笔记本，**连同它的子笔记本与其中所有笔记一起删除**。不可撤销。删之前建议先用 list_folders / list_notes 确认会删掉哪些内容。"@,
        }
    }

    /// Every tool once, in the order of the settings page.
    pub fn all() -> (list: Vec<Tool>)
        ensures
            list@ == tools(),
    {
        vec![
            Tool::SearchNotes,
            Tool::GetNote,
            Tool::ListNotes,
            Tool::ListFolders,
            Tool::ListTags,
            Tool::NotesByTag,
            Tool::CreateNote,
            Tool::UpdateNote,
            Tool::CreateFolder,
            Tool::AddNoteTag,
            Tool::RemoveNoteTag,
            Tool::DeleteNote,
            Tool::DeleteFolder,
        ]
    }

    /// The name that clients call the tool by.
    pub fn name(self) -> (name: &'static str)
        ensures
            name@ == self.name_text(),
    {
        match self {
            Tool::SearchNotes => "search_notes",
            Tool::GetNote => "get_note",
            Tool::ListNotes => "list_notes",
            Tool::ListFolders => "list_folders",
            Tool::ListTags => "list_tags",
            Tool::NotesByTag => "notes_by_tag",
            Tool::CreateNote => "create_note",
            Tool::UpdateNote => "update_note",
            Tool::CreateFolder => "create_folder",
            Tool::AddNoteTag => "add_note_tag",
            Tool::RemoveNoteTag => "remove_note_tag",
            Tool::DeleteNote => "delete_note",
            Tool::DeleteFolder => "delete_folder",
        }
    }

    /// What clients are told of what the tool is for.
    pub fn description(self) -> (description: &'static str)
        ensures
            description@ == self.description_text(),
    {
        match self {
            Tool::SearchNotes => "全文搜索笔记，匹配标题与正文，按更新时间倒序返回摘要。想读正文再调 get_note。",
            Tool::GetNote => "按 id 读一篇笔记的完整内容（含正文 Markdown）。",
            Tool::ListNotes => "列出某个笔记本下的笔记摘要（不含正文），按更新时间倒序。",
            Tool::ListFolders => "列出整棵笔记本树（含每个笔记本的直属笔记数）。id 为空串的节点是「未分类」。",
            Tool::ListTags => "列出全部标签及各自的笔记篇数。",
            Tool::NotesByTag => "列出打了某个标签的笔记摘要。标签 id 由 list_tags 取得。",
            Tool::CreateNote => "新建一篇笔记，返回含 id 的完整笔记。",
            Tool::UpdateNote => "整篇覆盖一条笔记的标题与正文（不是追加）。改之前先 get_note 取回原文。",
            Tool::CreateFolder => "新建一个笔记本，返回含 id 的引用。",
            Tool::AddNoteTag => "给笔记打标签。标签名已存在则复用（不区分大小写），否则新建。返回该笔记当前的全部标签。",
            Tool::RemoveNoteTag => "从笔记上去掉某个标签（标签本身保留）。返回该笔记剩余的标签。",
            Tool::DeleteNote => "永久删除一篇笔记。不可撤销，没有回收站。",
            Tool::DeleteFolder => "永久删除一个笔记本，**连同它的子笔记本与其中所有笔记一起删除**。不可撤销。删之前建议先用 list_folders / list_notes 确认会删掉哪些内容。",
        }
    }

    /// What clients are told of how the tool behaves: the tools that write
    /// nothing say so, and those that cannot be undone say that, so that a client
    /// asks its user first.
    pub fn annotations(self) -> (annotations: ToolAnnotations)
        ensures
            annotations.title@ == self.title_text(),
            annotations.read_only_hint == if self.writes() {
                None
            } else {
                Some(true)
            },
            annotations.destructive_hint == if self.destroys() {
                Some(true)
            } else {
                None
            },
    {
        let title = match self {
            Tool::SearchNotes => "搜索笔记",
            Tool::GetNote => "读取笔记",
            Tool::ListNotes => "列出笔记",
            Tool::ListFolders => "列出笔记本",
            Tool::ListTags => "列出标签",
            Tool::NotesByTag => "按标签列笔记",
            Tool::CreateNote => "新建笔记",
            Tool::UpdateNote => "更新笔记",
            Tool::CreateFolder => "新建笔记本",
            Tool::AddNoteTag => "打标签",
            Tool::RemoveNoteTag => "去标签",
            Tool::DeleteNote => "删除笔记",
            Tool::DeleteFolder => "删除笔记本（级联）",
        };
        let (read_only_hint, destructive_hint) = match self {
            Tool::SearchNotes
            | Tool::GetNote
            | Tool::ListNotes
            | Tool::ListFolders
            | Tool::ListTags
            | Tool::NotesByTag => (Some(true), None),
            Tool::DeleteNote | Tool::DeleteFolder => (None, Some(true)),
            _ => (None, None),
        };
        ToolAnnotations { title, read_only_hint, destructive_hint }
    }
}

/// The error with which a write is refused before anything is done, or `None`
/// where it goes on. A read-only server is the first reason.
pub open spec fn write_refusal(read_only: bool, access: Access) -> Option<ErrorView> {
    if read_only {
        Some(read_only_error())
    } else if access != Access::Full {
        Some(unauthorized_error())
    } else {
        None
    }
}

/// The error with which a call of `tool` is refused before anything is done, or
/// `None` where it goes on to its handler.
pub open spec fn refusal(tool: Tool, read_only: bool, access: Access) -> Option<ErrorView> {
    if tool.writes() {
        write_refusal(read_only, access)
    } else {
        None
    }
}

} // verus!
