//! The tools of the server, each in two halves: what its handler is asked, and
//! what the client is answered once the handler is done.

use crate::access::{access_of, deny_read_only, request_access, require_full, Access, AppState};
use crate::args::{
    AddTagArgs, CreateFolderArgs, CreateNoteArgs, FolderIdArgs, ListNotesArgs, NoteIdArgs,
    RemoveTagArgs, SearchArgs, TagIdArgs, UpdateNoteArgs,
};
use crate::error::ErrorData;
use crate::json::{
    answered, insert, json_of, members, new_object, to_value, value_members, Member, MemberView,
};
use crate::request::{
    text_or_empty, AddTagReq, CreateFolderReq, CreateNoteReq, NotesQuery, SearchQuery,
    UpdateNoteReq,
};
use crate::status::{status_err, status_error, StatusCode, NO_CONTENT};
use crate::tool::{refusal, write_refusal, Tool};
use rmcp::model::Extensions;
use std::sync::Arc;
use vstd::prelude::*;

verus! {

/// How many hits a search returns where the client sets no limit.
pub const DEFAULT_SEARCH_LIMIT: usize = 30;

/// What the search handler is asked, and how many of its hits are kept.
pub struct SearchCall {
    pub access: Access,
    pub query: SearchQuery,
    pub limit: usize,
}

/// The serialized answer of a handler.
pub type Answer = Result<serde_json::Value, serde_json::Error>;

/// The reply of a tool.
pub type Reply = Result<serde_json::Value, ErrorData>;

/// The server, with the settings of the moment.
pub struct JasperMcp {
    state: Arc<AppState>,
}

/// The reply of a tool whose handler either answers or fails with a status.
pub open spec fn replied(
    outcome: Result<Answer, StatusCode>,
    what: Seq<char>,
    reply: Reply,
) -> bool {
    match outcome {
        Ok(answer) => answered(answer, reply),
        Err(code) => reply is Err && reply->Err_0@ == status_error(code@, what),
    }
}

/// The members of the reply to a deletion that was done.
pub open spec fn deleted_members() -> Map<Seq<char>, MemberView> {
    map!["deleted"@ => MemberView::Flag(true)]
}

/// The reply to a deletion whose handler ended with the status `code`.
pub open spec fn deletion_replied(code: u16, what: Seq<char>, reply: Reply) -> bool {
    if code == NO_CONTENT {
        reply is Ok && value_members(reply->Ok_0) == deleted_members()
    } else {
        reply is Err && reply->Err_0@ == status_error(code, what)
    }
}

fn reply_of(outcome: Result<Answer, StatusCode>, what: &str) -> (reply: Reply)
    ensures
        replied(outcome, what@, reply),
        outcome matches Ok(Ok(value)) ==> reply == Ok::<serde_json::Value, ErrorData>(value),
        !(outcome matches Ok(Ok(_))) ==> reply is Err,
{
    match outcome {
        Ok(answer) => json_of(answer),
        Err(code) => Err(status_err(code, what)),
    }
}

fn deletion_reply(code: StatusCode, what: &str) -> (reply: Reply)
    ensures
        deletion_replied(code@, what@, reply),
{
    if code.as_u16() != NO_CONTENT {
        return Err(status_err(code, what));
    }
    let mut object = new_object();
    insert(&mut object, "deleted", Member::Flag(true));
    assert(members(object) == deleted_members());
    json_of(to_value(object))
}

impl Clone for JasperMcp {
    fn clone(&self) -> (copy: Self)
        ensures
            copy.state() == self.state(),
    {
        JasperMcp { state: self.state.clone() }
    }
}

impl JasperMcp {
    /// The settings that the server goes by.
    pub closed spec fn state(&self) -> AppState {
        *self.state
    }

    pub fn new(state: Arc<AppState>) -> (server: Self)
        ensures
            server.state() == *state,
    {
        JasperMcp { state }
    }

    /// What every tool that writes asks first: a read-only server refuses it, and
    /// one that may write refuses everyone without full access.
    fn allow_write(
        &self,
        extensions: &Extensions,
    ) -> (verdict: Result<(), ErrorData>)
        ensures
            match write_refusal(self.state().read_only, request_access(*extensions)) {
                Some(error) => verdict is Err && verdict->Err_0@ == error,
                None => verdict is Ok,
            },
    {
        match deny_read_only(&self.state) {
            Ok(()) => require_full(access_of(extensions)),
            Err(error) => Err(error),
        }
    }

    /// The search handler gets the access level of the request and the query.
    pub fn search_notes(
        &self,
        args: SearchArgs,
        extensions: &Extensions,
    ) -> (call: SearchCall)
        ensures
            call.access == request_access(*extensions),
            call.query.q == Some(args.query),
            args.limit is None ==> call.limit == 30,
            call.limit == match args.limit {
                Some(limit) => limit,
                None => DEFAULT_SEARCH_LIMIT,
            },
    {
        SearchCall {
            access: access_of(extensions),
            query: SearchQuery { q: Some(args.query) },
            limit: args.limit.unwrap_or(DEFAULT_SEARCH_LIMIT),
        }
    }

    /// The hits that a search returns: the first ones that the handler found, in
    /// its order, and no more than the limit.
    pub fn search_notes_hits<T>(notes: Vec<T>, limit: usize) -> (hits: Vec<T>)
        ensures
            hits@ == if limit < notes@.len() {
                notes@.take(limit as int)
            } else {
                notes@
            },
    {
        let mut notes = notes;
        notes.truncate(limit);
        notes
    }

    /// The handler gets the access level of the request and the id.
    pub fn get_note(
        &self,
        args: NoteIdArgs,
        extensions: &Extensions,
    ) -> (call: (Access, String))
        ensures
            call == (request_access(*extensions), args.id),
    {
        (access_of(extensions), args.id)
    }

    /// What the client is answered: the handler's answer, or why there is none.
    pub fn get_note_reply(outcome: Result<Answer, StatusCode>) -> (reply: Reply)
        ensures
            replied(outcome, "笔记"@, reply),
            outcome matches Ok(Ok(value)) ==> reply == Ok::<serde_json::Value, ErrorData>(value),
            !(outcome matches Ok(Ok(_))) ==> reply is Err,
    {
        reply_of(outcome, "笔记")
    }

    /// The handler gets the access level of the request and the notebook.
    pub fn list_notes(
        &self,
        args: ListNotesArgs,
        extensions: &Extensions,
    ) -> (call: (Access, NotesQuery))
        ensures
            call == (request_access(*extensions), NotesQuery { folder: args.folder_id }),
    {
        (access_of(extensions), NotesQuery { folder: args.folder_id })
    }

    /// The handler gets the access level of the request.
    pub fn list_folders(&self, extensions: &Extensions) -> (access: Access)
        ensures
            access == request_access(*extensions),
    {
        access_of(extensions)
    }

    /// The handler gets the access level of the request.
    pub fn list_tags(&self, extensions: &Extensions) -> (access: Access)
        ensures
            access == request_access(*extensions),
    {
        access_of(extensions)
    }

    /// The handler gets the access level of the request and the tag.
    pub fn notes_by_tag(
        &self,
        args: TagIdArgs,
        extensions: &Extensions,
    ) -> (call: (Access, String))
        ensures
            call == (request_access(*extensions), args.tag_id),
    {
        (access_of(extensions), args.tag_id)
    }

    /// The handler gets the note; what is left out is empty, and no to-do.
    pub fn create_note(
        &self,
        args: CreateNoteArgs,
        extensions: &Extensions,
    ) -> (call: Result<CreateNoteReq, ErrorData>)
        ensures
            call is Ok <==> !self.state().read_only && request_access(*extensions) == Access::Full,
            match refusal(Tool::CreateNote, self.state().read_only, request_access(*extensions)) {
                Some(error) => call is Err && call->Err_0@ == error,
                None => call is Ok && creates_note(args, call->Ok_0),
            },
            call matches Ok(req) ==> {
                &&& req.title == args.title
                &&& args.parent_id matches Some(id) ==> req.parent_id == id
                &&& args.parent_id is None ==> req.parent_id@.len() == 0
                &&& args.body matches Some(text) ==> req.body == text
                &&& args.body is None ==> req.body@.len() == 0
                &&& args.is_todo matches Some(flag) ==> req.is_todo == flag
                &&& args.is_todo is None ==> !req.is_todo
            },
    {
        match self.allow_write(extensions) {
            Ok(()) => {},
            Err(error) => return Err(error),
        }
        Ok(
            CreateNoteReq {
                parent_id: args.parent_id.unwrap_or_default(),
                title: args.title,
                body: args.body.unwrap_or_default(),
                is_todo: args.is_todo.unwrap_or(false),
            },
        )
    }

    /// What the client is answered: the handler's answer, or why there is none.
    pub fn create_note_reply(outcome: Result<Answer, StatusCode>) -> (reply: Reply)
        ensures
            replied(outcome, "新建笔记"@, reply),
            outcome matches Ok(Ok(value)) ==> reply == Ok::<serde_json::Value, ErrorData>(value),
            !(outcome matches Ok(Ok(_))) ==> reply is Err,
    {
        reply_of(outcome, "新建笔记")
    }

    /// The handler gets the note's id, its whole new title and its whole new body.
    pub fn update_note(
        &self,
        args: UpdateNoteArgs,
        extensions: &Extensions,
    ) -> (call: Result<(String, UpdateNoteReq), ErrorData>)
        ensures
            call is Ok <==> !self.state().read_only && request_access(*extensions) == Access::Full,
            match refusal(Tool::UpdateNote, self.state().read_only, request_access(*extensions)) {
                Some(error) => call is Err && call->Err_0@ == error,
                None => call is Ok && call->Ok_0 == (
                    args.id,
                    UpdateNoteReq { title: args.title, body: args.body },
                ),
            },
    {
        match self.allow_write(extensions) {
            Ok(()) => {},
            Err(error) => return Err(error),
        }
        Ok((args.id, UpdateNoteReq { title: args.title, body: args.body }))
    }

    /// What the client is answered: the handler's answer, or why there is none.
    pub fn update_note_reply(outcome: Result<Answer, StatusCode>) -> (reply: Reply)
        ensures
            replied(outcome, "笔记"@, reply),
            outcome matches Ok(Ok(value)) ==> reply == Ok::<serde_json::Value, ErrorData>(value),
            !(outcome matches Ok(Ok(_))) ==> reply is Err,
    {
        reply_of(outcome, "笔记")
    }

    /// The handler gets the notebook; the one above it is empty where it is left out.
    pub fn create_folder(
        &self,
        args: CreateFolderArgs,
        extensions: &Extensions,
    ) -> (call: Result<CreateFolderReq, ErrorData>)
        ensures
            call is Ok <==> !self.state().read_only && request_access(*extensions) == Access::Full,
            match refusal(Tool::CreateFolder, self.state().read_only, request_access(*extensions)) {
                Some(error) => call is Err && call->Err_0@ == error,
                None => call is Ok && creates_folder(args, call->Ok_0),
            },
            call matches Ok(req) ==> {
                &&& req.title == args.title
                &&& args.parent_id matches Some(id) ==> req.parent_id == id
                &&& args.parent_id is None ==> req.parent_id@.len() == 0
            },
    {
        match self.allow_write(extensions) {
            Ok(()) => {},
            Err(error) => return Err(error),
        }
        Ok(
            CreateFolderReq {
                parent_id: args.parent_id.unwrap_or_default(),
                title: args.title,
            },
        )
    }

    /// What the client is answered: the handler's answer, or why there is none.
    pub fn create_folder_reply(outcome: Result<Answer, StatusCode>) -> (reply: Reply)
        ensures
            replied(outcome, "新建笔记本"@, reply),
            outcome matches Ok(Ok(value)) ==> reply == Ok::<serde_json::Value, ErrorData>(value),
            !(outcome matches Ok(Ok(_))) ==> reply is Err,
    {
        reply_of(outcome, "新建笔记本")
    }

    /// The handler gets the note's id and the name of the tag.
    pub fn add_note_tag(
        &self,
        args: AddTagArgs,
        extensions: &Extensions,
    ) -> (call: Result<(String, AddTagReq), ErrorData>)
        ensures
            call is Ok <==> !self.state().read_only && request_access(*extensions) == Access::Full,
            match refusal(Tool::AddNoteTag, self.state().read_only, request_access(*extensions)) {
                Some(error) => call is Err && call->Err_0@ == error,
                None => call is Ok && call->Ok_0 == (args.note_id, AddTagReq { title: args.title }),
            },
    {
        match self.allow_write(extensions) {
            Ok(()) => {},
            Err(error) => return Err(error),
        }
        Ok((args.note_id, AddTagReq { title: args.title }))
    }

    /// What the client is answered: the handler's answer, or why there is none.
    pub fn add_note_tag_reply(outcome: Result<Answer, StatusCode>) -> (reply: Reply)
        ensures
            replied(outcome, "打标签"@, reply),
            outcome matches Ok(Ok(value)) ==> reply == Ok::<serde_json::Value, ErrorData>(value),
            !(outcome matches Ok(Ok(_))) ==> reply is Err,
    {
        reply_of(outcome, "打标签")
    }

    /// The handler gets the ids of the note and of the tag.
    pub fn remove_note_tag(
        &self,
        args: RemoveTagArgs,
        extensions: &Extensions,
    ) -> (call: Result<(String, String), ErrorData>)
        ensures
            call is Ok <==> !self.state().read_only && request_access(*extensions) == Access::Full,
            match refusal(Tool::RemoveNoteTag, self.state().read_only, request_access(*extensions)) {
                Some(error) => call is Err && call->Err_0@ == error,
                None => call is Ok && call->Ok_0 == (args.note_id, args.tag_id),
            },
    {
        match self.allow_write(extensions) {
            Ok(()) => {},
            Err(error) => return Err(error),
        }
        Ok((args.note_id, args.tag_id))
    }

    /// What the client is answered: the handler's answer, or why there is none.
    pub fn remove_note_tag_reply(outcome: Result<Answer, StatusCode>) -> (reply: Reply)
        ensures
            replied(outcome, "去标签"@, reply),
            outcome matches Ok(Ok(value)) ==> reply == Ok::<serde_json::Value, ErrorData>(value),
            !(outcome matches Ok(Ok(_))) ==> reply is Err,
    {
        reply_of(outcome, "去标签")
    }

    /// The handler gets the id of the note.
    pub fn delete_note(
        &self,
        args: NoteIdArgs,
        extensions: &Extensions,
    ) -> (call: Result<String, ErrorData>)
        ensures
            call is Ok <==> !self.state().read_only && request_access(*extensions) == Access::Full,
            match refusal(Tool::DeleteNote, self.state().read_only, request_access(*extensions)) {
                Some(error) => call is Err && call->Err_0@ == error,
                None => call is Ok && call->Ok_0 == args.id,
            },
    {
        match self.allow_write(extensions) {
            Ok(()) => {},
            Err(error) => return Err(error),
        }
        Ok(args.id)
    }

    /// What the client is answered: that the deletion was done, or why not.
    pub fn delete_note_reply(code: StatusCode) -> (reply: Reply)
        ensures
            deletion_replied(code@, "删除笔记"@, reply),
            reply is Ok <==> code@ == 204,
    {
        deletion_reply(code, "删除笔记")
    }

    /// The handler gets the id of the notebook.
    pub fn delete_folder(
        &self,
        args: FolderIdArgs,
        extensions: &Extensions,
    ) -> (call: Result<String, ErrorData>)
        ensures
            call is Ok <==> !self.state().read_only && request_access(*extensions) == Access::Full,
            match refusal(Tool::DeleteFolder, self.state().read_only, request_access(*extensions)) {
                Some(error) => call is Err && call->Err_0@ == error,
                None => call is Ok && call->Ok_0 == args.id,
            },
    {
        match self.allow_write(extensions) {
            Ok(()) => {},
            Err(error) => return Err(error),
        }
        Ok(args.id)
    }

    /// What the client is answered: that the deletion was done, or why not.
    pub fn delete_folder_reply(code: StatusCode) -> (reply: Reply)
        ensures
            deletion_replied(code@, "删除笔记本"@, reply),
            reply is Ok <==> code@ == 204,
    {
        deletion_reply(code, "删除笔记本")
    }
}

/// The request is the note that the arguments describe.
pub open spec fn creates_note(args: CreateNoteArgs, req: CreateNoteReq) -> bool {
    &&& req.parent_id@ == text_or_empty(args.parent_id)
    &&& req.title == args.title
    &&& req.body@ == text_or_empty(args.body)
    &&& req.is_todo == (args.is_todo == Some(true))
}

/// The request is the notebook that the arguments describe.
pub open spec fn creates_folder(args: CreateFolderArgs, req: CreateFolderReq) -> bool {
    &&& req.parent_id@ == text_or_empty(args.parent_id)
    &&& req.title == args.title
}

} // verus!
