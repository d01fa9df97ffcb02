//! The arguments of the tools.

use vstd::prelude::*;

verus! {

pub struct SearchArgs {
    /// What to look for in titles and bodies, whatever the case.
    pub query: String,
    /// At most this many hits are returned; 30 where nothing is given.
    pub limit: Option<usize>,
}

pub struct NoteIdArgs {
    /// The id of a note, 32 hexadecimal digits.
    pub id: String,
}

pub struct FolderIdArgs {
    /// The id of a notebook, 32 hexadecimal digits.
    pub id: String,
}

pub struct ListNotesArgs {
    /// The id of a notebook; empty or absent for the notes that are in none.
    pub folder_id: Option<String>,
}

pub struct TagIdArgs {
    /// The id of a tag, 32 hexadecimal digits.
    pub tag_id: String,
}

pub struct CreateNoteArgs {
    /// The id of the notebook that gets the note; empty for none.
    pub parent_id: Option<String>,
    pub title: String,
    /// The body, in Markdown.
    pub body: Option<String>,
    /// Whether to create a to-do instead of an ordinary note.
    pub is_todo: Option<bool>,
}

pub struct UpdateNoteArgs {
    /// The id of the note.
    pub id: String,
    /// The new title.
    pub title: String,
    /// The new body, in Markdown. It replaces the whole old body.
    pub body: String,
}

pub struct CreateFolderArgs {
    /// The id of the notebook above the new one; empty for the top level.
    pub parent_id: Option<String>,
    pub title: String,
}

pub struct AddTagArgs {
    /// The id of the note.
    pub note_id: String,
    /// The name of the tag. A tag of that name is used again, whatever the case.
    pub title: String,
}

pub struct RemoveTagArgs {
    /// The id of the note.
    pub note_id: String,
    /// The id of the tag to take off.
    pub tag_id: String,
}

} // verus!
