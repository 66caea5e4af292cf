//! How a textbox answers input: which text events a key, a character or a change of
//! focus stands for, and what starting, ending, blurring and submitting an edit do.
//!
//! Moving the caret, hit-testing the pointer and the clipboard belong to the text
//! layout and the host; the handler only names them.

use vstd::prelude::*;
use crate::textbox::{DeleteMovement, TextMovement, Textbox};

verus! {

/// The modifier keys held during a key press.
#[derive(Clone, Copy, PartialEq, Eq, Structural, Debug)]
pub struct KeyMods {
    pub shift: bool,
    pub ctrl: bool,
    pub alt: bool,
    pub logo: bool,
}

impl KeyMods {
    /// Exactly the control key is held.
    pub open spec fn only_ctrl(self) -> bool {
        self.ctrl && !self.shift && !self.alt && !self.logo
    }
}

/// The keys a textbox handles.
#[derive(Clone, Copy, PartialEq, Eq, Structural, Debug)]
pub enum TextKey {
    Enter,
    ArrowLeft,
    ArrowRight,
    ArrowUp,
    ArrowDown,
    Backspace,
    Delete,
    Escape,
    Home,
    End,
    KeyA,
    KeyC,
    KeyV,
    KeyX,
    Other,
}

/// What reaches a textbox's handler.
#[derive(Clone, Copy, PartialEq, Eq, Structural, Debug)]
pub enum TextboxInput {
    /// Keyboard focus arrived; `pressed_here` when the left mouse button is held down
    /// on the textbox itself.
    FocusIn { pressed_here: bool },
    /// Keyboard focus left.
    FocusOut,
    /// A character was typed.
    CharInput { c: char, mods: KeyMods, read_only: bool },
    /// A key went down.
    KeyDown { key: TextKey, mods: KeyMods, read_only: bool },
    /// Start taking text input, unless the textbox is disabled.
    StartEdit { disabled: bool },
    /// Stop taking text input.
    EndEdit,
    /// The pointer pressed outside the textbox.
    Blur,
    /// Hand the text to the submit callback; `true` when Enter asked for it.
    Submit(bool),
    /// The text was changed by typing, deleting or cutting.
    Edited,
    SetMaskVisible(bool),
    ToggleMaskVisible,
}

/// The text events a textbox sends itself.
#[derive(Clone, Copy, PartialEq, Eq, Structural, Debug)]
pub enum TextCommand {
    StartEdit,
    EndEdit,
    Submit(bool),
    /// Insert a character at the caret.
    InsertChar(char),
    DeleteText(DeleteMovement),
    /// Move the caret, extending the selection when the flag is set.
    MoveCursor(TextMovement, bool),
    SelectAll,
    Copy,
    Paste,
    Cut,
}

/// What a textbox asks for after an input.
#[derive(Clone, Copy, PartialEq, Eq, Structural, Debug)]
pub struct TextboxResponse {
    /// Events to send itself, in order.
    pub emit: Option<TextCommand>,
    pub emit_after: Option<TextCommand>,
    /// The validity to show.
    pub set_valid: Option<bool>,
    /// Run the submit callback with this reason.
    pub on_submit: Option<bool>,
    pub on_edit: bool,
    pub on_blur: bool,
    pub on_cancel: bool,
    /// Take keyboard focus, capture the pointer and restart the caret.
    pub take_focus: bool,
    /// Release the pointer, stop the caret and put it at the start of the text.
    pub release: bool,
    /// Show the text again through the mask.
    pub resync_display: bool,
}

/// A response that asks for nothing.
pub open spec fn quiet() -> TextboxResponse {
    TextboxResponse {
        emit: None,
        emit_after: None,
        set_valid: None,
        on_submit: None,
        on_edit: false,
        on_blur: false,
        on_cancel: false,
        take_focus: false,
        release: false,
        resync_display: false,
    }
}

/// A response that sends one event.
pub open spec fn sends(c: TextCommand) -> TextboxResponse {
    TextboxResponse { emit: Some(c), ..quiet() }
}

/// Whether a typed character is one the textbox inserts: not Escape, Backspace, Tab,
/// Delete or a carriage return.
pub open spec fn insertable(c: char) -> bool {
    c != '\u{1b}' && c != '\u{8}' && c != '\u{9}' && c != '\u{7f}' && c != '\u{d}'
}

/// The event a key press stands for, with the bindings of platforms other than macOS:
/// Control moves and deletes by words and, held alone, selects all, copies, pastes
/// and cuts; Shift extends the selection; Enter submits a single-line textbox and
/// breaks the line of a multiline one; the up and down arrows move only in a
/// multiline textbox; nothing changes the text of a read-only one.
pub open spec fn key_command(t: Textbox, key: TextKey, mods: KeyMods, read_only: bool) -> Option<TextCommand> {
    match key {
        TextKey::Enter => if !t.multiline {
            Some(TextCommand::Submit(true))
        } else if !read_only {
            Some(TextCommand::InsertChar('\n'))
        } else {
            None
        },
        TextKey::ArrowLeft => Some(TextCommand::MoveCursor(if mods.ctrl { TextMovement::WordLeft } else { TextMovement::Left }, mods.shift)),
        TextKey::ArrowRight => Some(TextCommand::MoveCursor(if mods.ctrl { TextMovement::WordRight } else { TextMovement::Right }, mods.shift)),
        TextKey::ArrowUp => if t.multiline { Some(TextCommand::MoveCursor(TextMovement::Up, mods.shift)) } else { None },
        TextKey::ArrowDown => if t.multiline { Some(TextCommand::MoveCursor(TextMovement::Down, mods.shift)) } else { None },
        TextKey::Backspace => if !read_only {
            Some(TextCommand::DeleteText(if mods.ctrl { DeleteMovement::BackwardWord } else { DeleteMovement::BackwardGrapheme }))
        } else {
            None
        },
        TextKey::Delete => if !read_only {
            Some(TextCommand::DeleteText(if mods.ctrl { DeleteMovement::ForwardWord } else { DeleteMovement::ForwardGrapheme }))
        } else {
            None
        },
        TextKey::Escape => if t.has_on_cancel { None } else { Some(TextCommand::EndEdit) },
        TextKey::Home => Some(TextCommand::MoveCursor(TextMovement::LineStart, mods.shift)),
        TextKey::End => Some(TextCommand::MoveCursor(TextMovement::LineEnd, mods.shift)),
        TextKey::KeyA => if mods.only_ctrl() { Some(TextCommand::SelectAll) } else { None },
        TextKey::KeyC => if mods.only_ctrl() && t.can_copy { Some(TextCommand::Copy) } else { None },
        TextKey::KeyV => if mods.only_ctrl() && t.can_paste { Some(TextCommand::Paste) } else { None },
        TextKey::KeyX => if mods.only_ctrl() && !read_only { Some(TextCommand::Cut) } else { None },
        TextKey::Other => None,
    }
}

/// The textbox and its response after an input; `text_valid` tells whether the text
/// the input concerns passes the textbox's checks.
///
/// Focus arriving starts editing unless the pointer is holding the textbox down, and
/// focus leaving ends it. Starting an edit (when enabled and not already editing)
/// shows the placeholder for an empty value and the validity only once the text was
/// ever edited or is not empty. Ending an edit shows the placeholder for empty text
/// and, after changes, the validity. A pointer press outside runs the blur callback,
/// or else submits and ends editing. Submitting, when a submit callback is attached,
/// shows the validity and hands the text over only when it is valid. Escape runs the
/// cancel callback, or else ends editing.
pub open spec fn textbox_step(t: Textbox, input: TextboxInput, text_valid: bool) -> (Textbox, TextboxResponse) {
    match input {
        TextboxInput::FocusIn { pressed_here } =>
            (t, if pressed_here { quiet() } else { sends(TextCommand::StartEdit) }),
        TextboxInput::FocusOut => (t, sends(TextCommand::EndEdit)),
        TextboxInput::CharInput { c, mods, read_only } =>
            (t, if insertable(c) && !mods.ctrl && !mods.logo && t.edit && !read_only {
                sends(TextCommand::InsertChar(c))
            } else {
                quiet()
            }),
        TextboxInput::KeyDown { key, mods, read_only } =>
            (t, TextboxResponse {
                emit: key_command(t, key, mods, read_only),
                on_cancel: key == TextKey::Escape && t.has_on_cancel,
                ..quiet()
            }),
        TextboxInput::StartEdit { disabled } => if disabled || t.edit {
            (t, quiet())
        } else {
            let empty = t.real_text@.len() == 0;
            (Textbox { edit: true, edited_since_focus: false, show_placeholder: empty, ..t },
                TextboxResponse {
                    take_focus: true,
                    set_valid: Some(if t.edited_once || !empty { text_valid } else { true }),
                    ..quiet()
                })
        },
        TextboxInput::EndEdit =>
            (Textbox { edit: false, show_placeholder: t.show_placeholder || t.real_text@.len() == 0, ..t },
                TextboxResponse {
                    release: true,
                    set_valid: if t.edited_since_focus { Some(text_valid) } else { None },
                    ..quiet()
                }),
        TextboxInput::Blur => (t, if t.has_on_blur {
            TextboxResponse { on_blur: true, ..quiet() }
        } else {
            TextboxResponse { emit: Some(TextCommand::Submit(false)), emit_after: Some(TextCommand::EndEdit), ..quiet() }
        }),
        TextboxInput::Submit(reason) => (t, if t.has_on_submit {
            TextboxResponse { set_valid: Some(text_valid), on_submit: if text_valid { Some(reason) } else { None }, ..quiet() }
        } else {
            quiet()
        }),
        TextboxInput::Edited =>
            (Textbox { edited_since_focus: true, edited_once: true, ..t },
                TextboxResponse { set_valid: Some(text_valid), on_edit: t.has_on_edit && t.edit, ..quiet() }),
        TextboxInput::SetMaskVisible(v) => if t.mask_visible == v {
            (t, quiet())
        } else {
            (Textbox { mask_visible: v, ..t }, TextboxResponse { resync_display: true, ..quiet() })
        },
        TextboxInput::ToggleMaskVisible =>
            (Textbox { mask_visible: !t.mask_visible, ..t }, TextboxResponse { resync_display: true, ..quiet() }),
    }
}

/// A response that asks for nothing, computed.
fn quiet_response() -> (r: TextboxResponse)
    ensures
        r == quiet(),
{
    TextboxResponse {
        emit: None,
        emit_after: None,
        set_valid: None,
        on_submit: None,
        on_edit: false,
        on_blur: false,
        on_cancel: false,
        take_focus: false,
        release: false,
        resync_display: false,
    }
}

/// Whether a typed character is inserted, computed.
fn is_insertable(c: char) -> (r: bool)
    ensures
        r == insertable(c),
{
    c != '\u{1b}' && c != '\u{8}' && c != '\u{9}' && c != '\u{7f}' && c != '\u{d}'
}

impl Textbox {
    /// The event a key press stands for.
    pub fn key_command(&self, key: TextKey, mods: KeyMods, read_only: bool) -> (r: Option<TextCommand>)
        ensures
            r == key_command(*self, key, mods, read_only),
    {
        let only_ctrl = mods.ctrl && !mods.shift && !mods.alt && !mods.logo;
        match key {
            TextKey::Enter => if !self.multiline {
                Some(TextCommand::Submit(true))
            } else if !read_only {
                Some(TextCommand::InsertChar('\n'))
            } else {
                None
            },
            TextKey::ArrowLeft => Some(TextCommand::MoveCursor(if mods.ctrl { TextMovement::WordLeft } else { TextMovement::Left }, mods.shift)),
            TextKey::ArrowRight => Some(TextCommand::MoveCursor(if mods.ctrl { TextMovement::WordRight } else { TextMovement::Right }, mods.shift)),
            TextKey::ArrowUp => if self.multiline { Some(TextCommand::MoveCursor(TextMovement::Up, mods.shift)) } else { None },
            TextKey::ArrowDown => if self.multiline { Some(TextCommand::MoveCursor(TextMovement::Down, mods.shift)) } else { None },
            TextKey::Backspace => if !read_only {
                Some(TextCommand::DeleteText(if mods.ctrl { DeleteMovement::BackwardWord } else { DeleteMovement::BackwardGrapheme }))
            } else {
                None
            },
            TextKey::Delete => if !read_only {
                Some(TextCommand::DeleteText(if mods.ctrl { DeleteMovement::ForwardWord } else { DeleteMovement::ForwardGrapheme }))
            } else {
                None
            },
            TextKey::Escape => if self.has_on_cancel { None } else { Some(TextCommand::EndEdit) },
            TextKey::Home => Some(TextCommand::MoveCursor(TextMovement::LineStart, mods.shift)),
            TextKey::End => Some(TextCommand::MoveCursor(TextMovement::LineEnd, mods.shift)),
            TextKey::KeyA => if only_ctrl { Some(TextCommand::SelectAll) } else { None },
            TextKey::KeyC => if only_ctrl && self.can_copy { Some(TextCommand::Copy) } else { None },
            TextKey::KeyV => if only_ctrl && self.can_paste { Some(TextCommand::Paste) } else { None },
            TextKey::KeyX => if only_ctrl && !read_only { Some(TextCommand::Cut) } else { None },
            TextKey::Other => None,
        }
    }

    /// Handles an input; `text_valid` tells whether the text it concerns passes the
    /// textbox's checks.
    #[verifier::rlimit(80)]
    #[verifier::spinoff_prover]
    pub fn event(&mut self, input: TextboxInput, text_valid: bool) -> (r: TextboxResponse)
        ensures
            (*final(self), r) == textbox_step(*old(self), input, text_valid),
    {
        let q = quiet_response();
        match input {
            TextboxInput::FocusIn { pressed_here } => {
                if pressed_here { q } else { TextboxResponse { emit: Some(TextCommand::StartEdit), ..q } }
            },
            TextboxInput::FocusOut => TextboxResponse { emit: Some(TextCommand::EndEdit), ..q },
            TextboxInput::CharInput { c, mods, read_only } => {
                if is_insertable(c) && !mods.ctrl && !mods.logo && self.edit && !read_only {
                    TextboxResponse { emit: Some(TextCommand::InsertChar(c)), ..q }
                } else {
                    q
                }
            },
            TextboxInput::KeyDown { key, mods, read_only } => {
                let emit = self.key_command(key, mods, read_only);
                let cancel = key == TextKey::Escape && self.has_on_cancel;
                TextboxResponse { emit, on_cancel: cancel, ..q }
            },
            TextboxInput::StartEdit { disabled } => {
                if disabled || self.edit {
                    q
                } else {
                    let empty = self.real_text.as_str().is_empty();
                    self.edit = true;
                    self.edited_since_focus = false;
                    self.show_placeholder = empty;
                    TextboxResponse {
                        take_focus: true,
                        set_valid: Some(if self.edited_once || !empty { text_valid } else { true }),
                        ..q
                    }
                }
            },
            TextboxInput::EndEdit => {
                let empty = self.real_text.as_str().is_empty();
                self.edit = false;
                self.show_placeholder = self.show_placeholder || empty;
                TextboxResponse {
                    release: true,
                    set_valid: if self.edited_since_focus { Some(text_valid) } else { None },
                    ..q
                }
            },
            TextboxInput::Blur => {
                if self.has_on_blur {
                    TextboxResponse { on_blur: true, ..q }
                } else {
                    TextboxResponse { emit: Some(TextCommand::Submit(false)), emit_after: Some(TextCommand::EndEdit), ..q }
                }
            },
            TextboxInput::Submit(reason) => {
                if self.has_on_submit {
                    TextboxResponse { set_valid: Some(text_valid), on_submit: if text_valid { Some(reason) } else { None }, ..q }
                } else {
                    q
                }
            },
            TextboxInput::Edited => {
                let notify = self.has_on_edit && self.edit;
                self.edited_since_focus = true;
                self.edited_once = true;
                TextboxResponse { set_valid: Some(text_valid), on_edit: notify, ..q }
            },
            TextboxInput::SetMaskVisible(v) => {
                if self.mask_visible == v {
                    q
                } else {
                    self.mask_visible = v;
                    TextboxResponse { resync_display: true, ..q }
                }
            },
            TextboxInput::ToggleMaskVisible => {
                self.mask_visible = !self.mask_visible;
                TextboxResponse { resync_display: true, ..q }
            },
        }
    }
}

/// Editing a single-line textbox, Enter submits it: the key stands for a submit
/// asked for by Enter, and submitting valid text with a submit callback attached hands
/// it over, while invalid text is withheld.
pub proof fn law_enter_submits(t: Textbox, mods: KeyMods, read_only: bool, valid: bool)
    requires
        !t.multiline,
    ensures
        textbox_step(t, TextboxInput::KeyDown { key: TextKey::Enter, mods, read_only }, valid).1.emit
            == Some(TextCommand::Submit(true)),
        t.has_on_submit ==> textbox_step(t, TextboxInput::Submit(true), valid).1.on_submit
            == if valid { Some(true) } else { None },
        !t.has_on_submit ==> textbox_step(t, TextboxInput::Submit(true), valid).1.on_submit is None,
{
}

/// Starting and then ending an edit leaves the textbox not editing, whatever it
/// held, and ending an edit needs no start.
pub proof fn law_end_edit_stops(t: Textbox, disabled: bool, v1: bool, v2: bool)
    ensures
        !textbox_step(textbox_step(t, TextboxInput::StartEdit { disabled }, v1).0, TextboxInput::EndEdit, v2).0.edit,
        !textbox_step(t, TextboxInput::EndEdit, v2).0.edit,
{
}


/// Whether a deletion removes text before the caret.
pub open spec fn deletes_backward(m: DeleteMovement) -> bool {
    m == DeleteMovement::BackwardGrapheme || m == DeleteMovement::BackwardWord || m == DeleteMovement::BackwardToLineStart
}

/// On a writable textbox, Backspace deletes before the caret and Delete after it,
/// whatever the modifiers; without Control each removes one grapheme, with it one
/// word. On a read-only textbox neither deletes. Handling the key sends exactly that
/// deletion.
pub proof fn law_delete_keys_opposite(t: Textbox, mods: KeyMods, valid: bool)
    ensures
        key_command(t, TextKey::Backspace, mods, false) matches Some(TextCommand::DeleteText(b)) && deletes_backward(b),
        key_command(t, TextKey::Delete, mods, false) matches Some(TextCommand::DeleteText(f)) && !deletes_backward(f),
        !mods.ctrl ==> key_command(t, TextKey::Backspace, mods, false) == Some(TextCommand::DeleteText(DeleteMovement::BackwardGrapheme)),
        !mods.ctrl ==> key_command(t, TextKey::Delete, mods, false) == Some(TextCommand::DeleteText(DeleteMovement::ForwardGrapheme)),
        mods.ctrl ==> key_command(t, TextKey::Backspace, mods, false) == Some(TextCommand::DeleteText(DeleteMovement::BackwardWord)),
        mods.ctrl ==> key_command(t, TextKey::Delete, mods, false) == Some(TextCommand::DeleteText(DeleteMovement::ForwardWord)),
        key_command(t, TextKey::Backspace, mods, true) is None,
        key_command(t, TextKey::Delete, mods, true) is None,
        textbox_step(t, TextboxInput::KeyDown { key: TextKey::Delete, mods, read_only: false }, valid).1.emit
            == key_command(t, TextKey::Delete, mods, false),
        textbox_step(t, TextboxInput::KeyDown { key: TextKey::Delete, mods, read_only: false }, valid).0 == t,
{
}

/// The left and right arrows move the caret in opposite directions, by a character or,
/// with Control, by a word, extending the selection exactly when Shift is held.
pub proof fn law_arrows_move_opposite(t: Textbox, mods: KeyMods, read_only: bool)
    ensures
        key_command(t, TextKey::ArrowLeft, mods, read_only) == Some(TextCommand::MoveCursor(
            if mods.ctrl { TextMovement::WordLeft } else { TextMovement::Left }, mods.shift)),
        key_command(t, TextKey::ArrowRight, mods, read_only) == Some(TextCommand::MoveCursor(
            if mods.ctrl { TextMovement::WordRight } else { TextMovement::Right }, mods.shift)),
        key_command(t, TextKey::ArrowLeft, mods, read_only) != key_command(t, TextKey::ArrowRight, mods, read_only),
{
}

} // verus!
