//! The callback-installation lifecycle of one text editor.
//!
//! Wiring a native text editor goes slot by slot: for each callback slot,
//! the caller performs the native installation and reports its outcome
//! here.  On the first failure the registry entry is removed and the
//! implementation handed back, so the editor never exists half-wired and
//! no orphaned entry survives.

use vstd::prelude::*;

use crate::text_editor::Dispatcher;

verus! {

/// The number of native callback slots a text editor exposes.
pub const SLOT_COUNT: usize = 15;

/// One native callback slot of a text editor, in installation order.
#[derive(Clone, Copy, Debug, PartialEq, Eq, Structural)]
pub enum CallbackSlot {
    GetTextConfig,
    InsertText,
    DeleteForward,
    DeleteBackward,
    SendKeyboardStatus,
    SendEnterKey,
    MoveCursor,
    HandleSetSelection,
    HandleExtendAction,
    GetLeftTextOfCursor,
    GetRightTextOfCursor,
    GetTextIndexAtCursor,
    ReceivePrivateCommand,
    SetPreviewText,
    FinishTextPreview,
}

/// The slot installed at position `i` of the fixed installation order,
/// `None` past the end.
pub open spec fn spec_slot_at(i: int) -> Option<CallbackSlot> {
    if i == 0 {
        Some(CallbackSlot::GetTextConfig)
    } else if i == 1 {
        Some(CallbackSlot::InsertText)
    } else if i == 2 {
        Some(CallbackSlot::DeleteForward)
    } else if i == 3 {
        Some(CallbackSlot::DeleteBackward)
    } else if i == 4 {
        Some(CallbackSlot::SendKeyboardStatus)
    } else if i == 5 {
        Some(CallbackSlot::SendEnterKey)
    } else if i == 6 {
        Some(CallbackSlot::MoveCursor)
    } else if i == 7 {
        Some(CallbackSlot::HandleSetSelection)
    } else if i == 8 {
        Some(CallbackSlot::HandleExtendAction)
    } else if i == 9 {
        Some(CallbackSlot::GetLeftTextOfCursor)
    } else if i == 10 {
        Some(CallbackSlot::GetRightTextOfCursor)
    } else if i == 11 {
        Some(CallbackSlot::GetTextIndexAtCursor)
    } else if i == 12 {
        Some(CallbackSlot::ReceivePrivateCommand)
    } else if i == 13 {
        Some(CallbackSlot::SetPreviewText)
    } else if i == 14 {
        Some(CallbackSlot::FinishTextPreview)
    } else {
        None
    }
}

/// The slot to install at position `i`.
pub fn slot_at(i: usize) -> (r: Option<CallbackSlot>)
    ensures
        r == spec_slot_at(i as int),
        r is Some <==> i < SLOT_COUNT,
{
    match i {
        0usize => Some(CallbackSlot::GetTextConfig),
        1usize => Some(CallbackSlot::InsertText),
        2usize => Some(CallbackSlot::DeleteForward),
        3usize => Some(CallbackSlot::DeleteBackward),
        4usize => Some(CallbackSlot::SendKeyboardStatus),
        5usize => Some(CallbackSlot::SendEnterKey),
        6usize => Some(CallbackSlot::MoveCursor),
        7usize => Some(CallbackSlot::HandleSetSelection),
        8usize => Some(CallbackSlot::HandleExtendAction),
        9usize => Some(CallbackSlot::GetLeftTextOfCursor),
        10usize => Some(CallbackSlot::GetRightTextOfCursor),
        11usize => Some(CallbackSlot::GetTextIndexAtCursor),
        12usize => Some(CallbackSlot::ReceivePrivateCommand),
        13usize => Some(CallbackSlot::SetPreviewText),
        14usize => Some(CallbackSlot::FinishTextPreview),
        _ => None,
    }
}

/// Tracks the slot-by-slot installation of a registered editor's
/// callbacks.
pub struct CallbackWiring {
    installed: usize,
}

impl CallbackWiring {
    /// How many slots have been installed so far.
    pub closed spec fn spec_installed(self) -> int {
        self.installed as int
    }

    pub open spec fn wf(self) -> bool {
        0 <= self.spec_installed() <= SLOT_COUNT
    }

    /// Whether every slot has been installed.
    pub open spec fn complete(self) -> bool {
        self.spec_installed() == SLOT_COUNT
    }

    /// A wiring with nothing installed yet.
    pub fn new() -> (r: Self)
        ensures
            r.wf(),
            r.spec_installed() == 0,
    {
        CallbackWiring { installed: 0 }
    }

    /// The next slot the caller must install, `None` once the editor is
    /// fully wired.
    pub fn next_slot(&self) -> (r: Option<CallbackSlot>)
        requires
            self.wf(),
        ensures
            r == spec_slot_at(self.spec_installed()),
            r is Some <==> !self.complete(),
    {
        slot_at(self.installed)
    }

    /// Record the outcome of installing the current slot.  On success the
    /// wiring advances and the registry is untouched.  On failure the
    /// handle's entry is removed before the error surfaces — no orphaned
    /// entry survives — and the implementation is handed back to the
    /// caller.
    pub fn advance<T>(
        &mut self,
        dispatcher: &mut Dispatcher<T>,
        handle: usize,
        installed_ok: bool,
    ) -> (r: Result<(), T>)
        requires
            old(self).wf(),
            !old(self).complete(),
            old(dispatcher).wf(),
            old(dispatcher).registered(handle),
        ensures
            final(self).wf(),
            final(dispatcher).wf(),
            final(dispatcher).spec_initialized() == old(dispatcher).spec_initialized(),
            installed_ok ==> r is Ok && final(self).spec_installed() == old(self).spec_installed()
                + 1 && final(dispatcher).entries() == old(dispatcher).entries(),
            !installed_ok ==> (r matches Err(ime) && ime == old(dispatcher).entries()[handle]
                && final(dispatcher).entries() == old(dispatcher).entries().remove(handle)
                && !final(dispatcher).registered(handle)
                && final(self).spec_installed() == old(self).spec_installed()),
    {
        if installed_ok {
            self.installed = self.installed + 1;
            Ok(())
        } else {
            match dispatcher.unregister(handle) {
                Ok(ime) => Err(ime),
                Err(_) => vstd::pervasive::unreached(),
            }
        }
    }
}

} // verus!
