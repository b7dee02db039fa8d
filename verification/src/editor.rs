//! The editor's state and the functions that change it.

use crate::document::{
    depends_on_view, document_cursor, document_lines, edits, joined, lines_after, needs_view,
    ready_for, terminated, text_lines, Document,
};
use crate::error::Error;
use crate::message::{Message, Request};
use crate::path::{from_str, path_text};
use crate::theme::Theme;
use iced::widget::text_editor::Action;
use std::path::PathBuf;
use vstd::prelude::*;

verus! {

/// Everything the editor knows between two messages.
pub struct Editor {
    /// The text being edited.
    pub content: Document,
    /// The last failure of a file request, until the next action in the text.
    pub error: Option<Error>,
    /// Where the document lives on disk; nothing for a document never saved.
    pub path: Option<PathBuf>,
    /// False once the text has been edited since it was last read or written.
    pub saved: bool,
    /// The highlighting theme in use.
    pub theme: Theme,
}

/// The file that the editor loads when it starts: the main source file
/// below the directory that the program was built in.
pub open spec fn default_file_text(directory: Seq<char>) -> Seq<char> {
    directory + "/src/main.rs"@
}

/// The path of the file that the editor loads when it starts. `directory` is
/// the directory that the program was built in, which is known when it is
/// built and the same on every run.
pub fn default_file(directory: &str) -> (path: PathBuf)
    ensures
        path_text(path) == Some(default_file_text(directory@)),
{
    let mut text = String::from_str(directory);
    text.append("/src/main.rs");
    from_str(text.as_str())
}

impl Editor {
    /// The document as one text: its lines with line feeds between them.
    pub open spec fn document_text(self) -> Seq<char> {
        joined(document_lines(self.content))
    }

    /// The text that a save writes: the document's text, closed by a line
    /// feed.
    pub open spec fn text_to_save(self) -> Seq<char> {
        terminated(self.document_text())
    }

    /// The state in which every editor starts: an empty document that counts
    /// as saved, no path, no error, the initial theme.
    pub open spec fn initial(self) -> bool {
        &&& document_lines(self.content) == seq![Seq::<char>::empty()]
        &&& document_cursor(self.content) == (0usize, 0usize)
        &&& self.error is None
        &&& self.path is None
        &&& self.saved
        &&& self.theme == Theme::SolarizedDark
    }

    /// The transition relation: `next` is a state that the editor may be in
    /// after `message` reached it in state `self`.
    ///
    /// Every field of `next` is fixed by `self` and the message. After an
    /// action in the text the document holds the lines that the buffer makes
    /// of the action, which are the lines before unless the action edits.
    /// An action that depends on the view is not carried out in this step:
    /// it leaves the document as it is and is handed back.
    pub open spec fn steps(self, message: Message, next: Editor) -> bool {
        match message {
            Message::Edit(action) => {
                &&& next.error is None
                &&& next.saved == (self.saved && !edits(action))
                &&& next.path == self.path
                &&& next.theme == self.theme
                &&& if depends_on_view(action) {
                    next.content == self.content
                } else {
                    document_lines(next.content) == lines_after(self.content, action)
                }
                &&& !edits(action) ==> document_lines(next.content) == document_lines(
                    self.content,
                )
            },
            Message::FileOpened(Ok((path, text))) => {
                &&& next.path == Some(path)
                &&& document_lines(next.content) == text_lines(text@)
                &&& document_cursor(next.content) == (0usize, 0usize)
                &&& next.saved
                &&& next.error == self.error
                &&& next.theme == self.theme
            },
            Message::New => {
                &&& next.path is None
                &&& document_lines(next.content) == seq![Seq::<char>::empty()]
                &&& document_cursor(next.content) == (0usize, 0usize)
                &&& !next.saved
                &&& next.error == self.error
                &&& next.theme == self.theme
            },
            Message::FileSaved(Ok(path)) => next == (Editor {
                path: Some(path),
                saved: true,
                ..self
            }),
            Message::FileOpened(Err(error)) | Message::FileSaved(Err(error)) => next == (Editor {
                error: Some(error),
                ..self
            }),
            Message::NewTheme(theme) => next == (Editor { theme, ..self }),
            Message::Open | Message::Save => next == self,
        }
    }

    /// The file request that `message` schedules when it reaches the editor
    /// in state `self`, if it schedules one.
    pub open spec fn schedules(self, message: Message, request: Option<Request>) -> bool {
        match message {
            Message::Open => request == Some(Request::PickFile),
            Message::Save => {
                &&& request matches Some(Request::SaveFile(path, text))
                &&& path == self.path
                &&& text@ == self.text_to_save()
            },
            _ => request is None,
        }
    }

    /// The action that `message` leaves for the front end to carry out: an
    /// action in the text that depends on the view, and nothing otherwise.
    pub open spec fn hands_back(message: Message) -> Option<Action> {
        match message {
            Message::Edit(action) if depends_on_view(action) => Some(action),
            _ => None,
        }
    }

    /// What carrying out a handed-back action does to the editor: the buffer
    /// moves its cursor, its selection or its view, and nothing else changes.
    /// An action that does not depend on the view changes nothing at all.
    pub open spec fn follows(self, action: Action, next: Editor) -> bool {
        if depends_on_view(action) {
            &&& document_lines(next.content) == lines_after(self.content, action)
            &&& document_lines(next.content) == document_lines(self.content)
            &&& next.error == self.error
            &&& next.path == self.path
            &&& next.saved == self.saved
            &&& next.theme == self.theme
        } else {
            next == self
        }
    }

    /// A fresh editor, and the request that loads the default file into it.
    /// `directory` is the directory that the program was built in.
    pub fn new(directory: &str) -> (start: (Editor, Request))
        ensures
            start.0.initial(),
            start.1 matches Request::LoadFile(path) && path_text(path) == Some(
                default_file_text(directory@),
            ),
    {
        let editor = Editor {
            content: Document::new(),
            error: None,
            path: None,
            saved: true,
            theme: Theme::initial(),
        };
        (editor, Request::LoadFile(default_file(directory)))
    }

    /// The lines of the document, first line first.
    pub fn lines(&self) -> (lines: Vec<String>)
        ensures
            lines@.len() == document_lines(self.content).len(),
            forall|i: int|
                0 <= i < lines@.len() ==> (#[trigger] lines@[i])@ == document_lines(self.content)[i],
    {
        let count = self.content.line_count();
        let mut lines: Vec<String> = Vec::new();
        let mut index: usize = 0;
        while index < count
            invariant
                count == document_lines(self.content).len(),
                index <= count,
                lines@.len() == index,
                forall|i: int|
                    0 <= i < index ==> (#[trigger] lines@[i])@ == document_lines(self.content)[i],
            decreases count - index,
        {
            match self.content.line(index) {
                Some(line) => lines.push(line),
                None => {},
            }
            index = index + 1;
        }
        lines
    }

    /// The document as a save would write it.
    pub fn text(&self) -> (text: String)
        ensures
            text@ == self.text_to_save(),
    {
        self.content.text()
    }

    /// The line on which the cursor stands, and its offset in that line.
    pub fn cursor_position(&self) -> (position: (usize, usize))
        ensures
            position == document_cursor(self.content),
    {
        self.content.cursor_position()
    }

    /// Applies one message to the state. Returns the file request that the
    /// message schedules, if any, and the action that is left for the front
    /// end, if any. Takes every message in every state, and never waits.
    ///
    /// An action in the text that depends on how the buffer is laid out or
    /// scrolled is not handed to the buffer here, since it fails on a buffer
    /// that the front end has not made ready. It clears the error like any
    /// other action and comes back in the result, for `follow_view`.
    pub fn update(&mut self, message: Message) -> (outcome: (Option<Request>, Option<Action>))
        ensures
            old(self).steps(message, *final(self)),
            old(self).schedules(message, outcome.0),
            outcome.1 == Editor::hands_back(message),
    {
        match message {
            Message::Edit(action) => {
                self.error = None;
                if needs_view(&action) {
                    (None, Some(action))
                } else {
                    let edit = action.is_edit();
                    self.content.perform(action);
                    if edit {
                        self.saved = false;
                    }
                    (None, None)
                }
            },
            Message::FileOpened(Ok((path, text))) => {
                self.path = Some(path);
                self.content = Document::with_text(text.as_str());
                self.saved = true;
                (None, None)
            },
            Message::FileOpened(Err(error)) => {
                self.error = Some(error);
                (None, None)
            },
            Message::Open => (Some(Request::PickFile), None),
            Message::New => {
                self.path = None;
                self.content = Document::new();
                self.saved = false;
                (None, None)
            },
            Message::Save => {
                let text = self.content.text();
                (Some(Request::SaveFile(self.path.clone(), text)), None)
            },
            Message::FileSaved(Ok(path)) => {
                self.path = Some(path);
                self.saved = true;
                (None, None)
            },
            Message::FileSaved(Err(error)) => {
                self.error = Some(error);
                (None, None)
            },
            Message::NewTheme(theme) => {
                self.theme = theme;
                (None, None)
            },
        }
    }

    /// Carries out an action that `update` handed back. This is for a front
    /// end that has laid the buffer out: a move by line needs the line under
    /// the cursor laid out, and a scroll must stay within what the buffer
    /// can count. An action that does not depend on the view was carried out
    /// by `update` already and is passed over.
    pub fn follow_view(&mut self, action: Action)
        requires
            ready_for(old(self).content, action),
        ensures
            old(self).follows(action, *final(self)),
    {
        if needs_view(&action) {
            self.content.perform(action);
        }
    }
}

} // verus!
