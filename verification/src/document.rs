//! The text buffer that is being edited.
//!
//! The buffer is the text editor content of the `iced` toolkit: it keeps the
//! lines, the cursor and the selection, and it alone knows how an action
//! changes them. This module gives the buffer a mathematical reading, its
//! lines, and states over that reading what each of its operations is
//! trusted to do.
//!
//! Two things about a buffer are decided by the front end that draws it, and
//! cannot be seen from here: which of its lines have been laid out, and how
//! far it is scrolled. An action that depends on either is only carried out
//! where the caller vouches for it. Neither has any bearing on the lines.

use iced::widget::text_editor::{Action, Content, Motion};
use vstd::prelude::*;

verus! {

#[verifier::external_type_specification]
#[verifier::external_body]
pub struct ExAction(Action);

#[verifier::external_type_specification]
#[verifier::external_body]
pub struct ExMotion(Motion);

/// The ways in which the cursor can be moved, or the selection stretched.
#[derive(Debug, Clone, Copy, PartialEq, Eq, Structural)]
pub enum Movement {
    Left,
    Right,
    Up,
    Down,
    WordLeft,
    WordRight,
    Home,
    End,
    PageUp,
    PageDown,
    DocumentStart,
    DocumentEnd,
}

/// What an action is, without the text or the place that it may carry.
pub enum ActionKind {
    /// Moves the cursor.
    Move(Motion),
    /// Stretches the selection.
    Select(Motion),
    /// Selects the word under the cursor.
    SelectWord,
    /// Selects the line under the cursor.
    SelectLine,
    /// Inserts or deletes text.
    Edit,
    /// Puts the cursor where the mouse was pressed.
    Click,
    /// Stretches the selection to where the mouse was dragged.
    Drag,
    /// Scrolls by a number of lines, down where it is positive.
    Scroll(i32),
}

/// An editable text: lines, a cursor and possibly a selection.
///
/// The field is open to a front end that has to draw the buffer; verified
/// code reaches it only through the functions of this module.
#[verifier::external_body]
pub struct Document {
    pub buffer: Content,
}

/// The lines that the buffer holds, first line first, without line breaks.
pub uninterp spec fn document_lines(document: Document) -> Seq<Seq<char>>;

/// Where the buffer's cursor stands: the line, and the offset within it.
pub uninterp spec fn document_cursor(document: Document) -> (usize, usize);

/// Whether the buffer, as the front end has laid it out and scrolled it, can
/// carry out an action that depends on the view. For a move by line this
/// says that the line under the cursor has a layout, which a front end gives
/// it when it draws the buffer; for a scroll, that the offset reached is a
/// number that the buffer can hold.
pub uninterp spec fn view_allows(document: Document, action: Action) -> bool;

/// The lines that the buffer holds once it has carried out an action. They
/// follow from the lines, the cursor and the selection that the buffer holds
/// before, and from the action.
pub uninterp spec fn lines_after(document: Document, action: Action) -> Seq<Seq<char>>;

/// The lines into which the buffer splits a text that it is made over.
pub uninterp spec fn text_lines(text: Seq<char>) -> Seq<Seq<char>>;

/// Which kind of action an action is.
pub uninterp spec fn action_kind(action: Action) -> ActionKind;

/// Which of the movements a motion is.
pub uninterp spec fn motion_movement(motion: Motion) -> Movement;

impl Movement {
    /// True of the movements up or down by a line or a page, and to either
    /// end of the line. These the buffer works out on the layout of the line
    /// under the cursor; the others it works out on the text alone.
    pub open spec fn by_line(self) -> bool {
        match self {
            Movement::Up
            | Movement::Down
            | Movement::Home
            | Movement::End
            | Movement::PageUp
            | Movement::PageDown => true,
            _ => false,
        }
    }

    /// Says whether the movement goes by line.
    pub fn is_by_line(self) -> (by_line: bool)
        ensures
            by_line == self.by_line(),
    {
        match self {
            Movement::Up
            | Movement::Down
            | Movement::Home
            | Movement::End
            | Movement::PageUp
            | Movement::PageDown => true,
            _ => false,
        }
    }
}

/// Whether an action edits the text, rather than moving the cursor,
/// selecting or scrolling.
pub open spec fn edits(action: Action) -> bool {
    action_kind(action) is Edit
}

/// Whether an action moves the cursor, or stretches the selection, by line.
pub open spec fn moves_by_line(action: Action) -> bool {
    match action_kind(action) {
        ActionKind::Move(motion) | ActionKind::Select(motion) => motion_movement(motion).by_line(),
        _ => false,
    }
}

/// Whether what an action does depends on how the front end shows the
/// buffer: on its layout, for a move by line, or on how far it is scrolled,
/// for a scroll.
pub open spec fn depends_on_view(action: Action) -> bool {
    moves_by_line(action) || action_kind(action) is Scroll
}

/// Whether the buffer can carry out the action. This asks something only of
/// the actions that depend on the view.
pub open spec fn ready_for(document: Document, action: Action) -> bool {
    depends_on_view(action) ==> view_allows(document, action)
}

/// The lines as one text, with a line feed between neighbours.
pub open spec fn joined(lines: Seq<Seq<char>>) -> Seq<char>
    decreases lines.len(),
{
    if lines.len() == 0 {
        Seq::empty()
    } else if lines.len() == 1 {
        lines[0]
    } else {
        joined(lines.drop_last()) + seq!['\n'] + lines.last()
    }
}

/// The text closed by a line feed: unchanged where it already ends in one.
pub open spec fn terminated(text: Seq<char>) -> Seq<char> {
    if text.len() > 0 && text.last() == '\n' {
        text
    } else {
        text.push('\n')
    }
}

/// `Action::is_edit`: true of the `Edit` variant and of no other.
pub assume_specification[ Action::is_edit ](action: &Action) -> (edit: bool)
    ensures
        edit == edits(*action),
;

/// `Action::clone`: the copy is the same action.
pub assume_specification[ <Action as Clone>::clone ](action: &Action) -> (copy: Action)
    ensures
        copy == *action,
;

/// Tells the variants of an action apart, keeping the motion of a move or a
/// selection and the line count of a scroll.
#[verifier::external_body]
pub(crate) fn kind_of(action: &Action) -> (kind: ActionKind)
    ensures
        kind == action_kind(*action),
{
    match action {
        Action::Move(motion) => ActionKind::Move(*motion),
        Action::Select(motion) => ActionKind::Select(*motion),
        Action::SelectWord => ActionKind::SelectWord,
        Action::SelectLine => ActionKind::SelectLine,
        Action::Edit(_) => ActionKind::Edit,
        Action::Click(_) => ActionKind::Click,
        Action::Drag(_) => ActionKind::Drag,
        Action::Scroll { lines } => ActionKind::Scroll(*lines),
    }
}

/// Tells the variants of a motion apart.
#[verifier::external_body]
pub(crate) fn movement_of(motion: Motion) -> (movement: Movement)
    ensures
        movement == motion_movement(motion),
{
    match motion {
        Motion::Left => Movement::Left,
        Motion::Right => Movement::Right,
        Motion::Up => Movement::Up,
        Motion::Down => Movement::Down,
        Motion::WordLeft => Movement::WordLeft,
        Motion::WordRight => Movement::WordRight,
        Motion::Home => Movement::Home,
        Motion::End => Movement::End,
        Motion::PageUp => Movement::PageUp,
        Motion::PageDown => Movement::PageDown,
        Motion::DocumentStart => Movement::DocumentStart,
        Motion::DocumentEnd => Movement::DocumentEnd,
    }
}

/// Says whether what an action does depends on how the buffer is shown.
pub fn needs_view(action: &Action) -> (needed: bool)
    ensures
        needed == depends_on_view(*action),
{
    match kind_of(action) {
        ActionKind::Move(motion) => movement_of(motion).is_by_line(),
        ActionKind::Select(motion) => movement_of(motion).is_by_line(),
        ActionKind::Scroll(_) => true,
        _ => false,
    }
}

impl Document {
    /// `Content::new`: an empty buffer, which is one empty line with the
    /// cursor at its start. It is not scrolled, so it can be scrolled by any
    /// number of lines.
    #[verifier::external_body]
    pub(crate) fn new() -> (document: Document)
        ensures
            document_lines(document) == seq![Seq::<char>::empty()],
            document_cursor(document) == (0usize, 0usize),
            forall|action: Action|
                action_kind(action) is Scroll ==> #[trigger] view_allows(document, action),
    {
        Document { buffer: Content::new() }
    }

    /// `Content::with_text`: a buffer over the lines of the given text, with
    /// the cursor at the start of the first. It is not scrolled, so it can
    /// be scrolled by any number of lines.
    #[verifier::external_body]
    pub(crate) fn with_text(text: &str) -> (document: Document)
        ensures
            document_lines(document) == text_lines(text@),
            document_cursor(document) == (0usize, 0usize),
            forall|action: Action|
                action_kind(action) is Scroll ==> #[trigger] view_allows(document, action),
    {
        Document { buffer: Content::with_text(text) }
    }

    /// `Content::perform`: lets the buffer carry out an action. The lines
    /// afterwards are those that the buffer makes of the action, and only an
    /// editing action can make them differ from the lines before. Where the
    /// cursor and the selection end up is not stated.
    ///
    /// The buffer fails on a move by line where the line under the cursor
    /// has no layout, and on a scroll to an offset that it cannot hold, so
    /// both are ruled out.
    #[verifier::external_body]
    pub(crate) fn perform(&mut self, action: Action)
        requires
            ready_for(*old(self), action),
        ensures
            document_lines(*final(self)) == lines_after(*old(self), action),
            !edits(action) ==> lines_after(*old(self), action) == document_lines(*old(self)),
    {
        self.buffer.perform(action)
    }

    /// `Content::text`: the lines joined by line feeds, and one more line
    /// feed behind them where they do not end in one.
    #[verifier::external_body]
    pub(crate) fn text(&self) -> (text: String)
        ensures
            text@ == terminated(joined(document_lines(*self))),
    {
        self.buffer.text()
    }

    /// `Content::line_count`: how many lines the buffer holds.
    #[verifier::external_body]
    pub(crate) fn line_count(&self) -> (count: usize)
        ensures
            count == document_lines(*self).len(),
    {
        self.buffer.line_count()
    }

    /// `Content::line`: the line at an index, or nothing behind the last.
    #[verifier::external_body]
    pub(crate) fn line(&self, index: usize) -> (line: Option<String>)
        ensures
            match line {
                Some(text) => index < document_lines(*self).len() && text@ == document_lines(
                    *self,
                )[index as int],
                None => index >= document_lines(*self).len(),
            },
    {
        self.buffer.line(index).map(|line| line.to_string())
    }

    /// `Content::cursor_position`: the cursor's line and its offset in it.
    #[verifier::external_body]
    pub(crate) fn cursor_position(&self) -> (position: (usize, usize))
        ensures
            position == document_cursor(*self),
    {
        self.buffer.cursor_position()
    }
}

} // verus!
