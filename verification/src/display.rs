//! What the editor shows of its state beside the text.

use crate::document::document_cursor;
use crate::editor::Editor;
use crate::error::Error;
use crate::message::Message;
use crate::path::{extension, path_extension, path_text, to_str};
use crate::theme::Appearance;
use std::io::ErrorKind;
use vstd::prelude::*;
use vstd::string::to_string_from_display_ensures;

verus! {

/// The number after `count`, or `count` itself where no greater one can be
/// held.
pub open spec fn one_more(count: usize) -> usize {
    if count < usize::MAX {
        (count + 1) as usize
    } else {
        usize::MAX
    }
}

impl Editor {
    /// The mark that the status line carries while the text is unsaved.
    pub open spec fn unsaved_mark(self) -> Seq<char> {
        if self.saved {
            Seq::empty()
        } else {
            " *"@
        }
    }

    /// How the status line names the document: by its path where it has one
    /// that can be written as text.
    pub open spec fn shown_path(self) -> Seq<char> {
        match self.path {
            Some(path) => match path_text(path) {
                Some(text) => text,
                None => "New File"@,
            },
            None => "New File"@,
        }
    }

    /// Whether `status` is the status line of this state: the description of
    /// the I/O failure where the last request ended in one, else the
    /// document's name, and behind it the mark of unsaved changes.
    pub open spec fn status_is(self, status: Seq<char>) -> bool {
        match self.error {
            Some(Error::IOFailed(kind)) => exists|description: String|
                #![auto]
                to_string_from_display_ensures::<ErrorKind>(&kind, description) && status
                    == description@ + self.unsaved_mark(),
            _ => status == self.shown_path() + self.unsaved_mark(),
        }
    }

    /// The text of the status line.
    pub fn status(&self) -> (status: String)
        ensures
            self.status_is(status@),
    {
        let mut status = match &self.error {
            Some(Error::IOFailed(kind)) => kind.to_string(),
            _ => match &self.path {
                Some(path) => match to_str(path) {
                    Some(text) => String::from_str(text),
                    None => String::from_str("New File"),
                },
                None => String::from_str("New File"),
            },
        };
        if !self.saved {
            status.append(" *");
        }
        status
    }

    /// The cursor's place as it is shown: line and column counted from one,
    /// where the buffer counts from zero.
    pub open spec fn position_shown(self) -> (usize, usize) {
        (one_more(document_cursor(self.content).0), one_more(document_cursor(self.content).1))
    }

    /// The cursor's line and column, counted from one.
    pub fn shown_position(&self) -> (position: (usize, usize))
        ensures
            position == self.position_shown(),
    {
        let (line, column) = self.cursor_position();
        (line.saturating_add(1), column.saturating_add(1))
    }

    /// The file extension by which the text is highlighted: that of the
    /// document's path, and `rs` where there is no path, no extension, or
    /// one that cannot be written as text.
    pub open spec fn highlighted_as(self) -> Seq<char> {
        match self.path {
            Some(path) => match path_extension(path) {
                Some(extension) => match path_text(extension) {
                    Some(text) => text,
                    None => "rs"@,
                },
                None => "rs"@,
            },
            None => "rs"@,
        }
    }

    /// The file extension to hand to the highlighter.
    pub fn extension(&self) -> (extension: String)
        ensures
            extension@ == self.highlighted_as(),
    {
        let found = match &self.path {
            Some(path) => extension(path),
            None => None,
        };
        match &found {
            Some(found) => match to_str(found) {
                Some(text) => String::from_str(text),
                None => String::from_str("rs"),
            },
            None => String::from_str("rs"),
        }
    }

    /// What the save button sends when pressed: a save while there are
    /// unsaved changes, and nothing, which disables the button, otherwise.
    pub fn save_action(&self) -> (action: Option<Message>)
        ensures
            action == if self.saved {
                None
            } else {
                Some(Message::Save)
            },
    {
        if self.saved {
            None
        } else {
            Some(Message::Save)
        }
    }

    /// Whether the window is drawn dark or light, which follows the theme.
    pub fn appearance(&self) -> (appearance: Appearance)
        ensures
            appearance == self.theme.appearance_of(),
    {
        self.theme.appearance()
    }
}

} // verus!
