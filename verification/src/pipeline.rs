//! How a file request is carried out, one outside operation at a time.
//!
//! A request needs a dialog, a read or a write, and sometimes two of them in
//! turn. Those are done elsewhere. Here stands what is decided between them:
//! which operation comes first, what follows from its outcome, and the
//! message in which the request ends.

use crate::error::Error;
use crate::message::{Message, Request};
use std::io::ErrorKind;
use std::path::PathBuf;
use std::sync::Arc;
use vstd::prelude::*;

verus! {

#[verifier::external_type_specification]
#[verifier::external_body]
pub struct ExIoError(std::io::Error);

/// The kind under which the system files an I/O error.
pub uninterp spec fn io_error_kind(error: std::io::Error) -> ErrorKind;

/// `std::io::Error::kind`: the error's kind, which is fixed by the error.
pub assume_specification[ std::io::Error::kind ](error: &std::io::Error) -> (kind: ErrorKind)
    ensures
        kind == io_error_kind(*error),
;

/// Where a request stands: the outside operation it needs next, or the
/// message it has ended in.
#[derive(Debug)]
pub enum Step {
    /// Ask the user for a file to open.
    ChooseFile,
    /// Ask the user where to save the text, offering a file name.
    ChooseTarget { text: String, suggestion: &'static str },
    /// Read the file at the path.
    Read(PathBuf),
    /// Write the text to the path.
    Write(PathBuf, String),
    /// Nothing is left to do but to deliver the message.
    Done(Message),
}

/// The failure that stands for an I/O error.
pub open spec fn failure(error: std::io::Error) -> Error {
    Error::IOFailed(io_error_kind(error))
}

/// The file name that is offered for a document saved for the first time.
pub open spec fn suggested_name() -> &'static str {
    "new.txt"
}

/// The step with which a request starts. A save goes straight to writing
/// only where the document has a path; without one the user is asked first.
pub open spec fn first_step(request: Request) -> Step {
    match request {
        Request::PickFile => Step::ChooseFile,
        Request::LoadFile(path) => Step::Read(path),
        Request::SaveFile(Some(path), text) => Step::Write(path, text),
        Request::SaveFile(None, text) => Step::ChooseTarget { text, suggestion: suggested_name() },
    }
}

/// The step after the user was asked for a file to open.
pub open spec fn step_after_file_choice(choice: Option<PathBuf>) -> Step {
    match choice {
        Some(path) => Step::Read(path),
        None => Step::Done(Message::FileOpened(Err(Error::DialogClosed))),
    }
}

/// The step after the user was asked where to save `text`.
pub open spec fn step_after_target_choice(choice: Option<PathBuf>, text: String) -> Step {
    match choice {
        Some(path) => Step::Write(path, text),
        None => Step::Done(Message::FileSaved(Err(Error::DialogClosed))),
    }
}

/// The step after the file at `path` was read, or could not be.
pub open spec fn step_after_read(path: PathBuf, outcome: Result<String, std::io::Error>) -> Step {
    match outcome {
        Ok(contents) => Step::Done(Message::FileOpened(Ok((path, Arc::new(contents))))),
        Err(error) => Step::Done(Message::FileOpened(Err(failure(error)))),
    }
}

/// The step after the file at `path` was written, or could not be.
pub open spec fn step_after_write(path: PathBuf, outcome: Result<(), std::io::Error>) -> Step {
    match outcome {
        Ok(_) => Step::Done(Message::FileSaved(Ok(path))),
        Err(error) => Step::Done(Message::FileSaved(Err(failure(error)))),
    }
}

/// The step that follows `step` in a world where a dialog would be answered
/// by `choice`, a read would end in `contents` and a write in `written`.
pub open spec fn step_answered(
    step: Step,
    choice: Option<PathBuf>,
    contents: Result<String, std::io::Error>,
    written: Result<(), std::io::Error>,
) -> Step {
    match step {
        Step::ChooseFile => step_after_file_choice(choice),
        Step::ChooseTarget { text, .. } => step_after_target_choice(choice, text),
        Step::Read(path) => step_after_read(path, contents),
        Step::Write(path, _) => step_after_write(path, written),
        Step::Done(_) => step,
    }
}

/// Starts a request.
pub fn begin(request: Request) -> (step: Step)
    ensures
        step == first_step(request),
{
    match request {
        Request::PickFile => Step::ChooseFile,
        Request::LoadFile(path) => Step::Read(path),
        Request::SaveFile(Some(path), text) => Step::Write(path, text),
        Request::SaveFile(None, text) => Step::ChooseTarget { text, suggestion: "new.txt" },
    }
}

/// Goes on after `Step::ChooseFile`, with the file the user chose, or with
/// nothing where the dialog was closed.
pub fn file_chosen(choice: Option<PathBuf>) -> (step: Step)
    ensures
        step == step_after_file_choice(choice),
{
    match choice {
        Some(path) => Step::Read(path),
        None => Step::Done(Message::FileOpened(Err(Error::DialogClosed))),
    }
}

/// Goes on after `Step::ChooseTarget`, with the path the user chose for the
/// text, or with nothing where the dialog was closed.
pub fn target_chosen(choice: Option<PathBuf>, text: String) -> (step: Step)
    ensures
        step == step_after_target_choice(choice, text),
{
    match choice {
        Some(path) => Step::Write(path, text),
        None => Step::Done(Message::FileSaved(Err(Error::DialogClosed))),
    }
}

/// Goes on after `Step::Read`, with what reading the file at `path` gave.
pub fn file_read(path: PathBuf, outcome: Result<String, std::io::Error>) -> (step: Step)
    ensures
        step == step_after_read(path, outcome),
{
    match outcome {
        Ok(contents) => Step::Done(Message::FileOpened(Ok((path, Arc::new(contents))))),
        Err(error) => Step::Done(Message::FileOpened(Err(Error::IOFailed(error.kind())))),
    }
}

/// Goes on after `Step::Write`, with what writing the file at `path` gave.
pub fn file_written(path: PathBuf, outcome: Result<(), std::io::Error>) -> (step: Step)
    ensures
        step == step_after_write(path, outcome),
{
    match outcome {
        Ok(_) => Step::Done(Message::FileSaved(Ok(path))),
        Err(error) => Step::Done(Message::FileSaved(Err(Error::IOFailed(error.kind())))),
    }
}

} // verus!
