//! Verified core for bridging an application's input-method editor (IME)
//! implementation to a native text-input subsystem.
//!
//! The heart of the crate is the [`Dispatcher`]: a registry that maps an
//! opaque numeric handle to an application-supplied [`Ime`] implementation
//! and routes native callbacks to it.  Around it sit the value types that
//! cross the boundary ([`TextSelection`], [`TextConfig`],
//! [`KeyboardVisibility`], [`KeyboardStatus`]), the UTF-16 text marshalling
//! used by the insert-text path, and the callback-installation lifecycle
//! that ties a registry entry to a native resource.
//!
//! The native subsystem itself is an external collaborator: all raw calls
//! into it live outside this crate and exchange only the plain values
//! defined here.

use vstd::prelude::*;

pub mod lifecycle;
pub mod marshal;
pub mod text_config;
pub mod text_editor;

pub use crate::text_config::{
    EnterKeyType, InvalidSelection, TextConfig, TextConfigBuilder, TextInputType, TextSelection,
};
pub use crate::text_editor::{
    ApplyTextConfigError, ConfigOp, Dispatcher, DispatcherError, DuplicateHandle, TextDelivery,
};

verus! {

/// The capability set an application registers for one text editor.
///
/// Exactly one implementation is associated with each live handle in the
/// [`Dispatcher`]; it is owned by the registry entry from registration
/// until unregistration hands it back.
pub trait Ime {
    /// Insert `text` at the current cursor position.
    fn insert_text(&self, text: String);

    /// Delete the next `len` characters after the cursor.
    fn delete_forward(&self, len: usize);

    /// Delete the previous `len` characters before the cursor.
    fn delete_backward(&self, len: usize);

    /// Return the text configuration associated with this editor.
    fn get_text_config(&self) -> &TextConfig;

    /// Handle the enter-key variant pressed by the user.
    fn send_enter_key(&self, enter_key: EnterKeyType);

    /// Handle a change of the keyboard's status.
    fn keyboard_status_changed(&self, status: KeyboardStatus);
}

/// Whether the soft keyboard is requested to be visible.
#[derive(Clone, Copy, Debug, PartialEq, Eq, Structural)]
pub enum KeyboardVisibility {
    Hide,
    Show,
}

/// The keyboard status the native subsystem reports to the application.
#[derive(Clone, Copy, Debug, PartialEq, Eq, Structural)]
pub enum KeyboardStatus {
    /// The status is not known.
    Unknown,
    /// The keyboard is hidden.
    Hide,
    /// The keyboard is shown.
    Show,
}

impl KeyboardStatus {
    /// The native code for this status.
    pub open spec fn spec_raw(self) -> u32 {
        match self {
            KeyboardStatus::Unknown => 0,
            KeyboardStatus::Hide => 1,
            KeyboardStatus::Show => 2,
        }
    }

    /// Translate a raw native status code; unknown codes are rejected so
    /// that a malformed callback argument is dropped rather than guessed at.
    pub fn from_raw(code: u32) -> (r: Option<KeyboardStatus>)
        ensures
            r matches Some(s) ==> s.spec_raw() == code,
            r is Some <==> code <= 2,
    {
        match code {
            0u32 => Some(KeyboardStatus::Unknown),
            1u32 => Some(KeyboardStatus::Hide),
            2u32 => Some(KeyboardStatus::Show),
            _ => Option::None,
        }
    }

    /// The native code for this status.
    pub fn to_raw(self) -> (r: u32)
        ensures
            r == self.spec_raw(),
    {
        match self {
            KeyboardStatus::Unknown => 0,
            KeyboardStatus::Hide => 1,
            KeyboardStatus::Show => 2,
        }
    }
}

/// Options for attaching a text editor to the input-method subsystem.
///
/// This is the value object the application builds; the owner of the native
/// options resource encodes `show_keyboard` into it on creation.
pub struct AttachOptions {
    show_keyboard: bool,
}

impl AttachOptions {
    /// Whether the keyboard was requested to be shown on attach.
    pub closed spec fn spec_show_keyboard(self) -> bool {
        self.show_keyboard
    }

    pub fn new(show_keyboard: bool) -> (r: Self)
        ensures
            r.spec_show_keyboard() == show_keyboard,
    {
        AttachOptions { show_keyboard }
    }

    /// Whether the keyboard was requested to be shown on attach.
    pub fn show_keyboard(&self) -> (r: bool)
        ensures
            r == self.spec_show_keyboard(),
    {
        self.show_keyboard
    }

    /// The visibility currently encoded in the options.
    pub fn get_visibility(&self) -> (r: KeyboardVisibility)
        ensures
            r == (if self.spec_show_keyboard() {
                KeyboardVisibility::Show
            } else {
                KeyboardVisibility::Hide
            }),
    {
        if self.show_keyboard {
            KeyboardVisibility::Show
        } else {
            KeyboardVisibility::Hide
        }
    }
}

/// Decode the boolean-as-byte encoding the native side uses for a
/// visibility query.  The native contract only commits to writing some
/// byte-sized value, so any nonzero byte is read as "show".
pub fn visibility_from_byte(raw: u8) -> (r: KeyboardVisibility)
    ensures
        (r == KeyboardVisibility::Show) <==> raw != 0,
        (r == KeyboardVisibility::Hide) <==> raw == 0,
{
    if raw == 0 {
        KeyboardVisibility::Hide
    } else {
        KeyboardVisibility::Show
    }
}

/// A nonzero native error code reported by an input-method command.
#[derive(Clone, Copy, Debug, PartialEq, Eq, Structural)]
pub struct ImeError {
    code: u32,
}

impl ImeError {
    /// The raw native error code; never zero, since zero means success.
    pub closed spec fn spec_code(self) -> u32 {
        self.code
    }

    pub fn code(&self) -> (r: u32)
        ensures
            r == self.spec_code(),
    {
        self.code
    }
}

/// Classify a raw native status code: zero is success, anything else is the
/// error to hand back to the caller.
pub fn check_status(code: u32) -> (r: Result<(), ImeError>)
    ensures
        r is Ok <==> code == 0,
        r matches Err(e) ==> e.spec_code() == code,
{
    if code == 0 {
        Ok(())
    } else {
        Err(ImeError { code })
    }
}

/// Error for a show-keyboard command that could not be issued.
pub struct ShowKeyboardError {}

} // verus!
