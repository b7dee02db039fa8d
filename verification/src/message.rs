//! The events that the editor reacts to, and the file work it asks for.

use crate::error::Error;
use crate::theme::Theme;
use iced::widget::text_editor::Action;
use std::path::PathBuf;
use std::sync::Arc;
use vstd::prelude::*;

verus! {

/// `Result::clone`, which the derived `Clone` of a message calls. Nothing is
/// claimed of the copy.
pub assume_specification<T, E>[ <Result<T, E> as Clone>::clone ](result: &Result<T, E>) -> Result<
    T,
    E,
> where T: Clone, E: Clone
;

/// One event. A front end sends the user's gestures; a finished file request
/// sends its outcome.
#[derive(Debug, Clone)]
pub enum Message {
    /// The user did something in the text area.
    Edit(Action),
    /// The user asked to open a file.
    Open,
    /// A file was read, or could not be.
    FileOpened(Result<(PathBuf, Arc<String>), Error>),
    /// The user asked for a new, empty document.
    New,
    /// The user asked to save the document.
    Save,
    /// The document was written, or could not be.
    FileSaved(Result<PathBuf, Error>),
    /// The user picked a highlighting theme.
    NewTheme(Theme),
}

/// File work that the editor wants done. Each request, once carried out,
/// comes back as exactly one message.
#[derive(Debug, Clone)]
pub enum Request {
    /// Let the user choose a file, then read it.
    PickFile,
    /// Read the file at a known path.
    LoadFile(PathBuf),
    /// Write the text to the path, or to one the user chooses where there is
    /// none yet.
    SaveFile(Option<PathBuf>, String),
}

} // verus!
