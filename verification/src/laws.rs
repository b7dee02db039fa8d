//! What holds of the editor whatever state it is in.
//!
//! Each law speaks of the transition relation of the editor or of the steps
//! of a file request, and is proved from their definitions.

use crate::document::{depends_on_view, document_lines, edits, lines_after, text_lines};
use crate::editor::Editor;
use crate::error::Error;
use crate::message::{Message, Request};
use crate::pipeline::{first_step, step_answered, suggested_name, Step};
use iced::widget::text_editor::Action;
use std::path::PathBuf;
use std::sync::Arc;
use vstd::prelude::*;

verus! {

/// Choosing the same theme twice in a row leaves the editor where the first
/// choice put it.
pub proof fn lemma_theme_choice_is_idempotent(
    start: Editor,
    theme: crate::theme::Theme,
    once: Editor,
    twice: Editor,
)
    requires
        start.steps(Message::NewTheme(theme), once),
        once.steps(Message::NewTheme(theme), twice),
    ensures
        twice == once,
        once.theme == theme,
{
}

/// An action that edits the text leaves the document unsaved, with the lines
/// that the buffer makes of the action; any other action in the text area
/// leaves the saved flag and the lines as they were. Neither touches the
/// path or the theme.
pub proof fn lemma_edit_marks_unsaved(before: Editor, action: Action, after: Editor)
    requires
        before.steps(Message::Edit(action), after),
    ensures
        edits(action) ==> !after.saved,
        edits(action) ==> document_lines(after.content) == lines_after(before.content, action),
        !edits(action) ==> after.saved == before.saved,
        !edits(action) ==> after.document_text() == before.document_text(),
        after.path == before.path,
        after.theme == before.theme,
{
}

/// An action that depends on the view is left to the front end, and once
/// the front end has carried it out the editor is where the action leads:
/// the lines are those that the buffer makes of the action, the error is
/// cleared, and the other fields are as an action in the text leaves them.
/// For every other action the step alone gets there.
pub proof fn lemma_handed_back_action_completes_the_step(
    before: Editor,
    action: Action,
    between: Editor,
    after: Editor,
)
    requires
        before.steps(Message::Edit(action), between),
        between.follows(action, after),
    ensures
        Editor::hands_back(Message::Edit(action)) is Some <==> depends_on_view(action),
        !depends_on_view(action) ==> after == between,
        document_lines(after.content) == lines_after(before.content, action),
        after.error is None,
        after.saved == (before.saved && !edits(action)),
        after.path == before.path,
        after.theme == before.theme,
{
}

/// A request is scheduled by the messages that ask to open or to save, and
/// by no other; those two change nothing in the editor. An action is handed
/// back only by a message from the text area.
pub proof fn lemma_requests_come_from_open_and_save(
    before: Editor,
    message: Message,
    after: Editor,
    request: Option<Request>,
)
    requires
        before.steps(message, after),
        before.schedules(message, request),
    ensures
        request is Some <==> message is Open || message is Save,
        message is Open ==> request == Some(Request::PickFile),
        message is Open || message is Save ==> after == before,
        Editor::hands_back(message) is Some ==> message is Edit,
{
}

/// Each field changes only on the messages that are about it: the theme
/// when one is chosen; the path when a file was read or written or a new
/// document begun; the saved flag goes down on an edit or a new document
/// and up when a file was read or written; the error is set when a request
/// failed and cleared by an action in the text; the lines change when a
/// file was read, a new document begun, or the text edited.
pub proof fn lemma_fields_change_on_their_messages(
    before: Editor,
    message: Message,
    after: Editor,
)
    requires
        before.steps(message, after),
    ensures
        after.theme != before.theme ==> message is NewTheme,
        after.path != before.path ==> (match message {
            Message::FileOpened(Ok(_)) | Message::FileSaved(Ok(_)) | Message::New => true,
            _ => false,
        }),
        before.saved && !after.saved ==> (match message {
            Message::Edit(action) => edits(action),
            Message::New => true,
            _ => false,
        }),
        !before.saved && after.saved ==> (match message {
            Message::FileOpened(Ok(_)) | Message::FileSaved(Ok(_)) => true,
            _ => false,
        }),
        after.error != before.error ==> (match message {
            Message::FileOpened(Err(_)) | Message::FileSaved(Err(_)) | Message::Edit(_) => true,
            _ => false,
        }),
        document_lines(after.content) != document_lines(before.content) ==> (match message {
            Message::Edit(action) => edits(action),
            Message::FileOpened(Ok(_)) | Message::New => true,
            _ => false,
        }),
{
}

/// A new document has no path and no text and counts as unsaved, whatever
/// was open before.
pub proof fn lemma_new_resets(before: Editor, after: Editor)
    requires
        before.steps(Message::New, after),
    ensures
        after.path is None,
        after.document_text() == Seq::<char>::empty(),
        !after.saved,
{
}

/// A file that was read becomes the document: the editor holds its path and
/// its lines and counts as saved. No error is shown afterwards, provided
/// none was shown before, since opening a file does not clear one.
pub proof fn lemma_opened_file_is_shown(
    before: Editor,
    path: PathBuf,
    text: Arc<String>,
    after: Editor,
)
    requires
        before.error is None,
        before.steps(Message::FileOpened(Ok((path, text))), after),
    ensures
        after.path == Some(path),
        document_lines(after.content) == text_lines(text@),
        after.saved,
        after.error is None,
{
}

/// Saving a document that has no path starts by asking the user for one;
/// nothing is written before the user has answered.
pub proof fn lemma_save_without_path_asks(before: Editor, request: Option<Request>)
    requires
        before.path is None,
        before.schedules(Message::Save, request),
    ensures
        request matches Some(Request::SaveFile(None, text)) && text@ == before.text_to_save()
            && first_step(request->0) == (Step::ChooseTarget { text, suggestion: suggested_name() }),
{
}

/// Saving a document that has a path writes to that path without asking.
pub proof fn lemma_save_with_path_writes(before: Editor, request: Option<Request>)
    requires
        before.path is Some,
        before.schedules(Message::Save, request),
    ensures
        request matches Some(Request::SaveFile(Some(path), text)) && path == before.path->0
            && first_step(request->0) == Step::Write(path, text),
{
}

/// Whatever error is shown, the next action in the text area clears it.
pub proof fn lemma_edit_clears_error(before: Editor, action: Action, after: Editor)
    requires
        before.steps(Message::Edit(action), after),
    ensures
        after.error is None,
{
}

/// A dialog that the user closed changes nothing but the error shown.
pub proof fn lemma_closed_dialog_keeps_document(before: Editor, after: Editor)
    requires
        before.steps(Message::FileOpened(Err(Error::DialogClosed)), after) || before.steps(
            Message::FileSaved(Err(Error::DialogClosed)),
            after,
        ),
    ensures
        after.path == before.path,
        after.content == before.content,
        after.saved == before.saved,
        after.theme == before.theme,
        after.error == Some(Error::DialogClosed),
{
}

/// An error appears only when a file request comes back failed.
pub proof fn lemma_error_comes_from_failed_request(
    before: Editor,
    message: Message,
    after: Editor,
)
    requires
        before.steps(message, after),
        after.error is Some,
        after.error != before.error,
    ensures
        match message {
            Message::FileOpened(Err(error)) | Message::FileSaved(Err(error)) => after.error == Some(
                error,
            ),
            _ => false,
        },
{
}

/// The document gets or changes its path only when a file was read or
/// written, and the path is then that file's.
pub proof fn lemma_path_comes_from_finished_request(
    before: Editor,
    message: Message,
    after: Editor,
)
    requires
        before.steps(message, after),
        after.path is Some,
        after.path != before.path,
    ensures
        match message {
            Message::FileOpened(Ok((path, _))) | Message::FileSaved(Ok(path)) => after.path == Some(
                path,
            ),
            _ => false,
        },
{
}

/// A document that was unsaved counts as saved again only once a file was
/// read or written.
pub proof fn lemma_saved_comes_from_finished_request(
    before: Editor,
    message: Message,
    after: Editor,
)
    requires
        before.steps(message, after),
        !before.saved,
        after.saved,
    ensures
        match message {
            Message::FileOpened(Ok(_)) | Message::FileSaved(Ok(_)) => true,
            _ => false,
        },
{
}

/// The first save of a fresh document: after an edit, the save asks for a
/// path, and once the file is written under the chosen path the editor
/// holds that path, counts as saved and shows no error.
pub proof fn lemma_first_save(
    start: Editor,
    action: Action,
    edited: Editor,
    request: Option<Request>,
    asked: Editor,
    path: PathBuf,
    end: Editor,
)
    requires
        start.initial(),
        edits(action),
        start.steps(Message::Edit(action), edited),
        edited.steps(Message::Save, asked),
        edited.schedules(Message::Save, request),
        asked.steps(Message::FileSaved(Ok(path)), end),
    ensures
        !edited.saved,
        document_lines(edited.content) == lines_after(start.content, action),
        request matches Some(Request::SaveFile(None, text)) && first_step(request->0)
            == (Step::ChooseTarget { text, suggestion: suggested_name() }),
        end.path == Some(path),
        end.saved,
        end.error is None,
        end.content == edited.content,
{
}

/// Every request ends, after at most two outside operations, in one message:
/// one about an opened file for a request to pick or load, one about a saved
/// file for a request to save. No answer of the outside world leaves a
/// request without its message.
pub proof fn lemma_request_ends_in_one_message(
    request: Request,
    choice: Option<PathBuf>,
    contents: Result<String, std::io::Error>,
    written: Result<(), std::io::Error>,
)
    ensures
        ({
            let second = step_answered(first_step(request), choice, contents, written);
            let third = step_answered(second, choice, contents, written);
            &&& third matches Step::Done(message)
            &&& request is SaveFile <==> message is FileSaved
            &&& !(request is SaveFile) <==> message is FileOpened
            &&& step_answered(third, choice, contents, written) == third
        }),
{
}

} // verus!
