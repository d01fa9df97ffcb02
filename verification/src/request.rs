//! What the handlers of the note server are asked.

use vstd::prelude::*;

verus! {

pub struct SearchQuery {
    pub q: Option<String>,
}

pub struct NotesQuery {
    pub folder: Option<String>,
}

pub struct CreateNoteReq {
    pub parent_id: String,
    pub title: String,
    pub body: String,
    pub is_todo: bool,
}

pub struct UpdateNoteReq {
    pub title: String,
    pub body: String,
}

pub struct CreateFolderReq {
    pub parent_id: String,
    pub title: String,
}

pub struct AddTagReq {
    pub title: String,
}

/// The text of an optional argument; the empty text where it is absent.
pub open spec fn text_or_empty(text: Option<String>) -> Seq<char> {
    match text {
        Some(given) => given@,
        None => Seq::empty(),
    }
}

} // verus!
