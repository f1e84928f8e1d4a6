//! The callback dispatch core: a registry mapping an opaque native handle
//! to the application's [`Ime`] implementation, the typed entry points the
//! native trampolines use, and the plan for reporting a [`TextConfig`]
//! back to the native side.

use std::collections::HashMap;
use vstd::prelude::*;

use crate::marshal::{clamp_count, decode_utf16, spec_clamp_count, string_from_chars, utf16_decode};
use crate::text_config::{EnterKeyType, TextConfig};
use crate::{Ime, KeyboardStatus};

verus! {

broadcast use vstd::std_specs::hash::group_hash_axioms;

/// Why a registry operation could not find or recover an implementation.
#[derive(Clone, Copy, Debug, PartialEq, Eq, Structural)]
pub enum DispatcherError {
    /// The registry has never held any entry.
    Uninitialized,
    /// No implementation is registered for the handle.
    NotRegistered,
    /// The lock guarding the registry was left in an inconsistent state by
    /// a prior failure; the entry cannot be safely recovered.  The
    /// sequential core never reports this: it exists for the concurrency
    /// wrapper at the process boundary.
    Poisoned,
}

/// A registration that was refused because the handle already has a live
/// entry.  The rejected implementation is handed back unchanged.
pub struct DuplicateHandle<T>(pub T);

/// The outcome of routing inbound text to an implementation.
#[derive(Debug, PartialEq, Eq)]
pub enum TextDelivery {
    /// The decoded text that was handed to the implementation.
    Delivered(String),
    /// No implementation is registered for the handle; nothing was done.
    NotRegistered,
    /// The buffer was not well-formed UTF-16; the call was dropped.
    MalformedText,
}

/// The registry mapping each live native handle to the application
/// implementation that owns it.
///
/// At most one entry exists per handle.  An entry owns its implementation
/// from registration until unregistration hands it back.  A dispatched
/// operation must not itself register or unregister on the same registry.
pub struct Dispatcher<T> {
    initialized: bool,
    map: HashMap<usize, T>,
}

impl<T> Dispatcher<T> {
    /// Whether any registration has ever been recorded.
    pub closed spec fn spec_initialized(self) -> bool {
        self.initialized
    }

    /// The current handle-to-implementation association.
    pub closed spec fn entries(self) -> Map<usize, T> {
        self.map@
    }

    /// Whether `handle` has a live entry.
    pub open spec fn registered(self, handle: usize) -> bool {
        self.entries().contains_key(handle)
    }

    /// A registry that was never populated holds nothing.
    pub open spec fn wf(self) -> bool {
        !self.spec_initialized() ==> forall|h: usize| !(#[trigger] self.entries().contains_key(h))
    }

    /// An empty, never-populated registry.
    pub fn new() -> (r: Self)
        ensures
            r.wf(),
            !r.spec_initialized(),
            forall|h: usize| !r.registered(h),
    {
        Dispatcher { initialized: false, map: HashMap::new() }
    }

    /// Insert an implementation for `handle`.  A handle with a live entry
    /// is refused and the rejected implementation handed back: silently
    /// replacing it would risk callbacks already in flight using a stale
    /// implementation.
    pub fn register(&mut self, handle: usize, ime: T) -> (r: Result<(), DuplicateHandle<T>>)
        requires
            old(self).wf(),
        ensures
            final(self).wf(),
            final(self).spec_initialized(),
            old(self).registered(handle) ==> (r matches Err(DuplicateHandle(rejected))
                && rejected == ime && final(self).entries() == old(self).entries()),
            !old(self).registered(handle) ==> r is Ok && final(self).entries() == old(
                self,
            ).entries().insert(handle, ime),
    {
        self.initialized = true;
        if self.map.contains_key(&handle) {
            Err(DuplicateHandle(ime))
        } else {
            let _ = self.map.insert(handle, ime);
            Ok(())
        }
    }

    /// Remove the entry for `handle` and hand its implementation back.
    /// Fails with the exact reason: a never-populated registry, or a
    /// handle with no live entry.
    pub fn unregister(&mut self, handle: usize) -> (r: Result<T, DispatcherError>)
        requires
            old(self).wf(),
        ensures
            final(self).wf(),
            final(self).spec_initialized() == old(self).spec_initialized(),
            !old(self).spec_initialized() ==> (r matches Err(e) && e
                == DispatcherError::Uninitialized && final(self).entries() == old(self).entries()),
            old(self).spec_initialized() && !old(self).registered(handle) ==> (r matches Err(e)
                && e == DispatcherError::NotRegistered && final(self).entries() == old(
                self,
            ).entries()),
            old(self).registered(handle) ==> (r matches Ok(ime) && ime == old(
                self,
            ).entries()[handle] && final(self).entries() == old(self).entries().remove(handle)),
    {
        if !self.initialized {
            return Err(DispatcherError::Uninitialized);
        }
        match self.map.remove(&handle) {
            Some(ime) => Ok(ime),
            None => Err(DispatcherError::NotRegistered),
        }
    }

    /// Borrow the implementation for `handle`, with the exact reason when
    /// there is none.
    pub fn lookup(&self, handle: usize) -> (r: Result<&T, DispatcherError>)
        requires
            self.wf(),
        ensures
            r is Ok <==> self.registered(handle),
            r matches Ok(ime) ==> *ime == self.entries()[handle],
            !self.spec_initialized() ==> (r matches Err(e) && e == DispatcherError::Uninitialized),
            self.spec_initialized() && !self.registered(handle) ==> (r matches Err(e) && e
                == DispatcherError::NotRegistered),
    {
        if !self.initialized {
            return Err(DispatcherError::Uninitialized);
        }
        match self.map.get(&handle) {
            Some(ime) => Ok(ime),
            None => Err(DispatcherError::NotRegistered),
        }
    }

    /// Invoke `op` on the implementation registered for `handle`, exactly
    /// once.  A handle with no live entry makes the call a no-op that
    /// reports `NotRegistered`; it never panics, because it runs on a
    /// call stack owned by the native subsystem.
    pub fn dispatch<F: FnOnce(&T)>(&self, handle: usize, op: F) -> (r: Result<(), DispatcherError>)
        requires
            self.wf(),
            self.registered(handle) ==> call_requires(op, (&self.entries()[handle],)),
        ensures
            r is Ok <==> self.registered(handle),
            self.registered(handle) ==> call_ensures(op, (&self.entries()[handle],), ()),
            !self.registered(handle) ==> (r matches Err(e) && e == DispatcherError::NotRegistered),
    {
        match self.map.get(&handle) {
            Some(ime) => {
                op(ime);
                Ok(())
            },
            None => Err(DispatcherError::NotRegistered),
        }
    }
}

impl<T: Ime> Dispatcher<T> {
    /// Route an inbound UTF-16 buffer to the implementation for `handle`:
    /// decode it strictly and hand the decoded text to `insert_text`.
    /// A malformed buffer is reported and dropped, never delivered
    /// partially.
    pub fn insert_text(&self, handle: usize, units: &[u16]) -> (r: TextDelivery)
        requires
            self.wf(),
        ensures
            !self.registered(handle) ==> r == TextDelivery::NotRegistered,
            self.registered(handle) && utf16_decode(units@) is None ==> r
                == TextDelivery::MalformedText,
            self.registered(handle) ==> (utf16_decode(units@) matches Some(cs) ==> (r matches
                TextDelivery::Delivered(s) && s@ == cs)),
    {
        let ime = match self.lookup(handle) {
            Ok(ime) => ime,
            Err(_) => {
                return TextDelivery::NotRegistered;
            },
        };
        match decode_utf16(units) {
            Some(chars) => {
                let text = string_from_chars(chars);
                ime.insert_text(text.clone());
                TextDelivery::Delivered(text)
            },
            None => TextDelivery::MalformedText,
        }
    }

    /// Deliver a forward deletion: the signed native length is clamped to
    /// a non-negative count before it reaches the implementation.  Returns
    /// the delivered count.
    pub fn delete_forward(&self, handle: usize, length: i32) -> (r: Result<usize, DispatcherError>)
        requires
            self.wf(),
        ensures
            r is Ok <==> self.registered(handle),
            r matches Ok(delivered) ==> delivered == spec_clamp_count(length),
            !self.registered(handle) ==> (r matches Err(e) && e == DispatcherError::NotRegistered),
    {
        let count = clamp_count(length);
        match self.lookup(handle) {
            Ok(ime) => {
                ime.delete_forward(count);
                Ok(count)
            },
            Err(_) => Err(DispatcherError::NotRegistered),
        }
    }

    /// Deliver a backward deletion, with the same clamping as forward
    /// deletion.  Returns the delivered count.
    pub fn delete_backward(&self, handle: usize, length: i32) -> (r: Result<usize, DispatcherError>)
        requires
            self.wf(),
        ensures
            r is Ok <==> self.registered(handle),
            r matches Ok(delivered) ==> delivered == spec_clamp_count(length),
            !self.registered(handle) ==> (r matches Err(e) && e == DispatcherError::NotRegistered),
    {
        let count = clamp_count(length);
        match self.lookup(handle) {
            Ok(ime) => {
                ime.delete_backward(count);
                Ok(count)
            },
            Err(_) => Err(DispatcherError::NotRegistered),
        }
    }

    /// Ask the implementation for `handle` for its current text
    /// configuration.
    pub fn get_text_config(&self, handle: usize) -> (r: Result<TextConfig, DispatcherError>)
        requires
            self.wf(),
        ensures
            r is Ok <==> self.registered(handle),
            !self.registered(handle) ==> (r matches Err(e) && e == DispatcherError::NotRegistered),
    {
        match self.lookup(handle) {
            Ok(ime) => Ok(*ime.get_text_config()),
            Err(_) => Err(DispatcherError::NotRegistered),
        }
    }

    /// Deliver an enter-key press to the implementation for `handle`.
    pub fn send_enter_key(&self, handle: usize, enter_key: EnterKeyType) -> (r: Result<
        (),
        DispatcherError,
    >)
        requires
            self.wf(),
        ensures
            r is Ok <==> self.registered(handle),
            !self.registered(handle) ==> (r matches Err(e) && e == DispatcherError::NotRegistered),
    {
        match self.lookup(handle) {
            Ok(ime) => {
                ime.send_enter_key(enter_key);
                Ok(())
            },
            Err(_) => Err(DispatcherError::NotRegistered),
        }
    }

    /// Deliver a keyboard-status change to the implementation for
    /// `handle`.
    pub fn send_keyboard_status(&self, handle: usize, status: KeyboardStatus) -> (r: Result<
        (),
        DispatcherError,
    >)
        requires
            self.wf(),
        ensures
            r is Ok <==> self.registered(handle),
            !self.registered(handle) ==> (r matches Err(e) && e == DispatcherError::NotRegistered),
    {
        self.dispatch(
            handle,
            |ime: &T|
                {
                    ime.keyboard_status_changed(status);
                },
        )
    }
}

/// Law: after registering an implementation for a free handle, the
/// registry's dispatch target for that handle is exactly that
/// implementation, so a dispatch invokes its operation on it and on
/// nothing else.
pub proof fn lemma_registered_dispatch_target<T>(d: Dispatcher<T>, handle: usize, ime: T)
    requires
        !d.registered(handle),
    ensures
        d.entries().insert(handle, ime).contains_key(handle),
        d.entries().insert(handle, ime)[handle] == ime,
{
}

/// Law: registering an implementation for a free handle and then
/// unregistering that handle yields back exactly the implementation that
/// was registered, and a second unregistration of the same handle finds
/// nothing.
pub proof fn lemma_register_unregister_round_trip<T>(d: Dispatcher<T>, handle: usize, ime: T)
    requires
        !d.registered(handle),
    ensures
        d.entries().insert(handle, ime)[handle] == ime,
        !d.entries().insert(handle, ime).remove(handle).contains_key(handle),
{
}

/// Why applying one step of a text-configuration plan to the native
/// configuration object failed.
#[derive(Clone, Copy, Debug, PartialEq, Eq, Structural)]
pub enum ApplyTextConfigError {
    SetInputTypeFailed,
    SetEnterKeyTypeFailed,
    SetPreviewTextSupportFailed,
    SetSelectioFailed,
    SetWindowIdFailed,
}

/// One native setter call needed to report a [`TextConfig`], with its raw
/// argument values.
#[derive(Clone, Copy, Debug, PartialEq, Eq, Structural)]
pub enum ConfigOp {
    SetInputType(i32),
    SetEnterKeyType(u32),
    SetPreviewTextSupport(bool),
    SetSelection(i32, i32),
    SetWindowId(i32),
}

/// The exact sequence of native setter calls that reports `config`: the
/// three mandatory fields in order, then the selection and the window id
/// exactly when they are present.
pub open spec fn spec_config_plan(config: TextConfig) -> Seq<ConfigOp> {
    let base = seq![
        ConfigOp::SetInputType(config.input_type.spec_raw()),
        ConfigOp::SetEnterKeyType(config.enterkey_type.spec_raw()),
        ConfigOp::SetPreviewTextSupport(config.preview_text_support),
    ];
    let with_selection = match config.selection {
        Some(sel) => base.push(ConfigOp::SetSelection(sel.spec_start() as i32, sel.spec_end() as i32)),
        None => base,
    };
    match config.window_id {
        Some(w) => with_selection.push(ConfigOp::SetWindowId(w)),
        None => with_selection,
    }
}

/// Lay out the native setter calls that report `config`.
pub fn plan_text_config(config: &TextConfig) -> (r: Vec<ConfigOp>)
    ensures
        r@ == spec_config_plan(*config),
{
    let mut ops: Vec<ConfigOp> = Vec::new();
    ops.push(ConfigOp::SetInputType(config.input_type.to_raw()));
    ops.push(ConfigOp::SetEnterKeyType(config.enterkey_type.to_raw()));
    ops.push(ConfigOp::SetPreviewTextSupport(config.preview_text_support));
    match config.selection {
        Some(sel) => {
            ops.push(ConfigOp::SetSelection(sel.start(), sel.end()));
        },
        None => {},
    }
    match config.window_id {
        Some(w) => {
            ops.push(ConfigOp::SetWindowId(w));
        },
        None => {},
    }
    proof {
        assert(ops@ =~= spec_config_plan(*config));
    }
    ops
}

/// The error reported when applying `op` to the native configuration
/// object fails.
pub open spec fn spec_apply_error(op: ConfigOp) -> ApplyTextConfigError {
    match op {
        ConfigOp::SetInputType(_) => ApplyTextConfigError::SetInputTypeFailed,
        ConfigOp::SetEnterKeyType(_) => ApplyTextConfigError::SetEnterKeyTypeFailed,
        ConfigOp::SetPreviewTextSupport(_) => ApplyTextConfigError::SetPreviewTextSupportFailed,
        ConfigOp::SetSelection(_, _) => ApplyTextConfigError::SetSelectioFailed,
        ConfigOp::SetWindowId(_) => ApplyTextConfigError::SetWindowIdFailed,
    }
}

/// The error to report when applying `op` fails.
pub fn apply_error_for(op: &ConfigOp) -> (r: ApplyTextConfigError)
    ensures
        r == spec_apply_error(*op),
{
    match op {
        ConfigOp::SetInputType(_) => ApplyTextConfigError::SetInputTypeFailed,
        ConfigOp::SetEnterKeyType(_) => ApplyTextConfigError::SetEnterKeyTypeFailed,
        ConfigOp::SetPreviewTextSupport(_) => ApplyTextConfigError::SetPreviewTextSupportFailed,
        ConfigOp::SetSelection(_, _) => ApplyTextConfigError::SetSelectioFailed,
        ConfigOp::SetWindowId(_) => ApplyTextConfigError::SetWindowIdFailed,
    }
}

} // verus!
