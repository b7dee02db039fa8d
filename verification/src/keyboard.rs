//! The keyboard shortcut that saves the document.

use crate::message::Message;
use iced::keyboard::{Key, Modifiers};
use vstd::prelude::*;
use vstd::string::StrSliceExecFns;

verus! {

#[verifier::external_type_specification]
#[verifier::external_body]
#[verifier::reject_recursive_types(C)]
pub struct ExKey<C>(Key<C>);

#[verifier::external_type_specification]
#[verifier::external_body]
pub struct ExSmolStr(iced::advanced::graphics::core::SmolStr);

#[verifier::external_type_specification]
#[verifier::external_body]
pub struct ExModifiers(Modifiers);

/// The character that a key stands for, where it stands for one.
pub uninterp spec fn key_character(key: Key) -> Option<Seq<char>>;

/// Tells a character key from the others: the text of `Key::Character`, and
/// nothing for a named or an unidentified key.
#[verifier::external_body]
fn character_of(key: &Key) -> (character: Option<String>)
    ensures
        key_character(*key) == match character {
            Some(text) => Some(text@),
            None => None,
        },
{
    match key {
        Key::Character(text) => Some(text.to_string()),
        Key::Named(_) => None,
        Key::Unidentified => None,
    }
}

/// Whether the control key is among the modifiers, as `Modifiers::control`
/// tells it.
pub uninterp spec fn modifiers_control(modifiers: Modifiers) -> bool;

/// Whether the logo key is among the modifiers, as `Modifiers::logo` tells
/// it.
pub uninterp spec fn modifiers_logo(modifiers: Modifiers) -> bool;

/// `Modifiers::command`: whether the platform's command key is held. That
/// key is the logo key on macOS and the control key everywhere else, so the
/// answer is that of `Modifiers::logo` or that of `Modifiers::control`;
/// which of the two is the platform's choice and is not claimed.
#[verifier::external_body]
fn command_held(modifiers: Modifiers) -> (held: bool)
    ensures
        held == modifiers_logo(modifiers) || held == modifiers_control(modifiers),
{
    modifiers.command()
}

/// Whether a key's character is that of the S key, with or without shift.
pub open spec fn is_save_key(character: Seq<char>) -> bool {
    character == seq!['s'] || character == seq!['S']
}

/// The message that a key press stands for: a save for the S key with the
/// command key held, and nothing for every other press.
pub open spec fn shortcut_for(character: Option<Seq<char>>, command: bool) -> Option<Message> {
    match character {
        Some(text) if command && is_save_key(text) => Some(Message::Save),
        _ => None,
    }
}

/// Maps a key press to the message it stands for. `character` is what the
/// key types, nothing for a key that types no character; `command` says
/// whether the platform's command key was held.
pub fn shortcut(character: Option<&str>, command: bool) -> (message: Option<Message>)
    ensures
        message == shortcut_for(
            match character {
                Some(text) => Some(text@),
                None => None,
            },
            command,
        ),
{
    match character {
        Some(text) => {
            if command && text.unicode_len() == 1 && (text.get_char(0) == 's' || text.get_char(0)
                == 'S') {
                assert(text@ =~= seq![text@[0]]);
                Some(Message::Save)
            } else {
                None
            }
        },
        None => None,
    }
}

/// Whether `message` is what a key press stands for on some platform: on
/// one that takes the logo key for its command key, or on one that takes the
/// control key. Where both are held, or neither, that is one message.
pub open spec fn shortcut_on_some_platform(
    key: Key,
    modifiers: Modifiers,
    message: Option<Message>,
) -> bool {
    ||| message == shortcut_for(key_character(key), modifiers_logo(modifiers))
    ||| message == shortcut_for(key_character(key), modifiers_control(modifiers))
}

/// Maps a key press, as the toolkit reports it, to the message it stands
/// for: a save for the S key with the platform's command key held, nothing
/// for every other press. The command key is the logo key on some platforms
/// and the control key on the others, so the message is the one that goes
/// with either of them. That fixes it for every press but that of the S key
/// with just one of the two held.
pub fn on_key_press(key: Key, modifiers: Modifiers) -> (message: Option<Message>)
    ensures
        shortcut_on_some_platform(key, modifiers, message),
        message is None || message == Some(Message::Save),
        message is Some ==> shortcut_for(key_character(key), true) == message,
{
    let command = command_held(modifiers);
    match character_of(&key) {
        Some(text) => shortcut(Some(text.as_str()), command),
        None => shortcut(None, command),
    }
}

} // verus!
