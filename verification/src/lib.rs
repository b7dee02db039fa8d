//! The core of a single-document text editor: the editor's state, the
//! messages that change it, and the file requests that those messages
//! schedule. Nothing here draws, waits or touches a file; a front end feeds
//! messages in and carries requests out.

pub mod display;
pub mod document;
pub mod editor;
pub mod error;
pub mod keyboard;
pub mod laws;
pub mod message;
pub mod path;
pub mod pipeline;
pub mod theme;

pub use crate::document::Document;
pub use crate::editor::{default_file, Editor};
pub use crate::error::Error;
pub use crate::keyboard::{on_key_press, shortcut};
pub use crate::message::{Message, Request};
pub use crate::pipeline::{begin, file_chosen, file_read, file_written, target_chosen, Step};
pub use crate::theme::{Appearance, Theme};
