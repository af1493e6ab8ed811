//! The notes editor: the list of notes, the note being edited, edits of
//! its title and content, its word count, and the periodic save.

use vstd::prelude::*;
use crate::api::{notes_url, update_url, update_url_spec};
use crate::text::{count_words, word_count};
use vstd::string::StringExecFns;

verus! {

/// A note as the backend stores it.
pub struct Note {
    pub id: usize,
    pub title: String,
    pub content: String,
}

impl Note {
    /// A note with the same identifier, title and content.
    pub fn copy(&self) -> (n: Note)
        ensures
            n == *self,
    {
        Note { id: self.id, title: self.title.clone(), content: self.content.clone() }
    }
}

/// The state of the notes page: the notes listed in the sidebar, and a
/// copy of the note being edited, if any.
pub struct NotesPage {
    pub notes: Vec<Note>,
    pub selected: Option<Note>,
}

/// A request of the periodic save.
pub enum SaveRequest {
    /// PUT the note to its update endpoint `url`.
    Update { url: String, note: Note },
    /// POST the note to the endpoint `url` that creates notes.
    Create { url: String, note: Note },
}

/// The title shown for the edited note: its title, or nothing.
pub open spec fn shown_title(selected: Option<Note>) -> Seq<char> {
    match selected {
        Some(n) => n.title@,
        None => Seq::<char>::empty(),
    }
}

/// The content shown for the edited note: its content, or nothing.
pub open spec fn shown_content(selected: Option<Note>) -> Seq<char> {
    match selected {
        Some(n) => n.content@,
        None => Seq::<char>::empty(),
    }
}

/// The boxes show the edited note exactly as it is, character for
/// character (no trimming), and are empty when no note is edited.
pub proof fn law_shown_texts_are_the_note(selected: Option<Note>)
    ensures
        selected matches Some(n) ==> shown_title(selected) == n.title@ && shown_content(selected)
            == n.content@,
        selected is None ==> shown_title(selected).len() == 0 && shown_content(selected).len() == 0,
{
}

impl NotesPage {
    /// No notes, nothing selected.
    pub fn new() -> (p: NotesPage)
        ensures
            p.notes@.len() == 0,
            p.selected is None,
    {
        NotesPage { notes: Vec::new(), selected: None }
    }

    /// The notes fetched from the backend replace the list.
    pub fn load(&mut self, notes: Vec<Note>)
        ensures
            final(self).notes@ == notes@,
            final(self).selected == old(self).selected,
    {
        self.notes = notes;
    }

    /// A click on a note in the sidebar: it becomes the edited note.
    pub fn select(&mut self, note: Note)
        ensures
            final(self).selected == Some(note),
            final(self).notes@ == old(self).notes@,
    {
        self.selected = Some(note);
    }

    /// A title input: the edited note, if there is one, takes the new
    /// title; its identifier and content, and the sidebar list, stay.
    pub fn edit_title(&mut self, value: String)
        ensures
            final(self).notes@ == old(self).notes@,
            match old(self).selected {
                None => final(self).selected is None,
                Some(n) => final(self).selected matches Some(m) && m.id == n.id && m.title@
                    == value@ && m.content == n.content,
            },
    {
        match self.selected.take() {
            Some(n) => {
                self.selected = Some(Note { id: n.id, title: value, content: n.content });
            },
            None => {},
        }
    }

    /// A content input: the edited note, if there is one, takes the new
    /// content; its identifier and title, and the sidebar list, stay.
    pub fn edit_content(&mut self, value: String)
        ensures
            final(self).notes@ == old(self).notes@,
            match old(self).selected {
                None => final(self).selected is None,
                Some(n) => final(self).selected matches Some(m) && m.id == n.id && m.title
                    == n.title && m.content@ == value@,
            },
    {
        match self.selected.take() {
            Some(n) => {
                self.selected = Some(Note { id: n.id, title: n.title, content: value });
            },
            None => {},
        }
    }

    /// The text of the title box.
    pub fn title_text(&self) -> (t: String)
        ensures
            t@ == shown_title(self.selected),
            match self.selected {
                Some(n) => t@ == n.title@,
                None => t@.len() == 0,
            },
    {
        match &self.selected {
            Some(n) => n.title.clone(),
            None => String::new(),
        }
    }

    /// The text of the content box.
    pub fn content_text(&self) -> (t: String)
        ensures
            t@ == shown_content(self.selected),
            match self.selected {
                Some(n) => t@ == n.content@,
                None => t@.len() == 0,
            },
    {
        match &self.selected {
            Some(n) => n.content.clone(),
            None => String::new(),
        }
    }

    /// The word count shown in the status bar: the number of
    /// whitespace-separated words of the edited note's content, or 0.
    pub fn word_count(&self) -> (n: usize)
        ensures
            n == word_count(shown_content(self.selected)),
            match self.selected {
                Some(note) => n == word_count(note.content@),
                None => n == 0,
            },
    {
        match &self.selected {
            Some(note) => count_words(note.content.as_str()),
            None => 0,
        }
    }

    /// The titles listed in the sidebar, in order.
    pub fn titles(&self) -> (ts: Vec<String>)
        ensures
            ts@.len() == self.notes@.len(),
            forall|i: int| 0 <= i < ts@.len() ==> #[trigger] ts@[i]@ == self.notes@[i].title@,
    {
        let mut ts: Vec<String> = Vec::new();
        let mut i: usize = 0;
        while i < self.notes.len()
            invariant
                i <= self.notes@.len(),
                ts@.len() == i,
                forall|k: int| 0 <= k < i ==> #[trigger] ts@[k]@ == self.notes@[k].title@,
            decreases self.notes@.len() - i,
        {
            ts.push(self.notes[i].title.clone());
            i = i + 1;
        }
        ts
    }

    /// A tick of the periodic save: the edited note, if any, is PUT to its
    /// update endpoint.
    pub fn autosave(&self) -> (r: Option<SaveRequest>)
        ensures
            match self.selected {
                None => r is None,
                Some(n) => r matches Some(SaveRequest::Update { url, note }) && note == n && url@
                    == update_url_spec(n.id as nat),
            },
    {
        match &self.selected {
            Some(n) => Some(SaveRequest::Update { url: update_url(n.id), note: n.copy() }),
            None => None,
        }
    }
}

/// What follows a save request whose sending failed: an update falls back
/// to creating the note; a failed creation is not retried.
pub fn after_save_failure(req: SaveRequest) -> (r: Option<SaveRequest>)
    ensures
        match req {
            SaveRequest::Update { note, .. } => r matches Some(SaveRequest::Create { url, note: m })
                && m == note && url@ == "http://localhost:8000/api/notes/"@,
            SaveRequest::Create { .. } => r is None,
        },
{
    match req {
        SaveRequest::Update { url: _, note } => Some(
            SaveRequest::Create { url: String::from_str(notes_url()), note },
        ),
        SaveRequest::Create { .. } => None,
    }
}

/// Whether a save attempt failed: it could not be sent (`None`), or the
/// backend answered with a status outside `200..=299`.
pub open spec fn save_failed(outcome: Option<u16>) -> bool {
    match outcome {
        None => true,
        Some(status) => !(200 <= status < 300),
    }
}

/// What follows a save request, given its outcome (`None` when it could
/// not be sent, else the HTTP status): a failed update falls back to
/// creating the note; a successful update, or any creation, needs nothing
/// more.
pub fn after_save(req: SaveRequest, outcome: Option<u16>) -> (r: Option<SaveRequest>)
    ensures
        match req {
            SaveRequest::Update { note, .. } => if save_failed(outcome) {
                r matches Some(SaveRequest::Create { url, note: m }) && m == note && url@
                    == "http://localhost:8000/api/notes/"@
            } else {
                r is None
            },
            SaveRequest::Create { .. } => r is None,
        },
{
    let failed = match outcome {
        None => true,
        Some(status) => !(200 <= status && status < 300),
    };
    if failed {
        after_save_failure(req)
    } else {
        None
    }
}

} // verus!
