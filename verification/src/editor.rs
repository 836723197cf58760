//! The editor's handling of keys that the host delivers while a text box has focus.
//!
//! The host calls the editor on its own thread. The editor claims a key only when a text box is
//! focused and no modifier is held, classifies it as a printable character or a control key, and
//! queues it on a key press; the GUI thread later drains the queue and dispatches each entry to
//! the focused view, in the order the host delivered the keys.

use std::collections::VecDeque;
use vstd::prelude::*;

verus! {

/// The host's virtual keys that the editor tells apart. Every other key is `Other`.
#[derive(Debug, Clone, Copy, PartialEq, Eq, Structural)]
pub enum HostKey {
    Space,
    Numpad0,
    Numpad1,
    Numpad2,
    Numpad3,
    Numpad4,
    Numpad5,
    Numpad6,
    Numpad7,
    Numpad8,
    Numpad9,
    NumpadMultiply,
    NumpadAdd,
    NumpadSeparator,
    NumpadSubtract,
    NumpadDecimal,
    NumpadDivide,
    Equals,
    Backspace,
    Tab,
    Return,
    NumpadEnter,
    Pause,
    Escape,
    End,
    Home,
    ArrowLeft,
    ArrowUp,
    ArrowRight,
    ArrowDown,
    PageUp,
    PageDown,
    Insert,
    Delete,
    F1,
    F2,
    F3,
    F4,
    F5,
    F6,
    F7,
    F8,
    F9,
    F10,
    F11,
    F12,
    Other,
}

/// A non-printable key, dispatched to the focused view as a key-down with its physical code and
/// logical key. `NumpadEnter` is the numpad's code with the logical Enter key.
#[derive(Debug, Clone, Copy, PartialEq, Eq, Structural)]
pub enum ControlKey {
    Backspace,
    Tab,
    Enter,
    NumpadEnter,
    Pause,
    Escape,
    End,
    Home,
    ArrowLeft,
    ArrowUp,
    ArrowRight,
    ArrowDown,
    PageUp,
    PageDown,
    Insert,
    Delete,
    F1,
    F2,
    F3,
    F4,
    F5,
    F6,
    F7,
    F8,
    F9,
    F10,
    F11,
    F12,
}

/// A key press waiting to be dispatched to the focused view.
#[derive(Debug, Clone, Copy, PartialEq, Eq, Structural)]
pub enum KeyInject {
    /// A printable character, inserted as text.
    Char(char),
    /// A control key, dispatched as a key-down.
    ControlKey(ControlKey),
}

/// What a host key becomes when a text box has focus; `None` for keys left to the host.
pub open spec fn spec_classify(key: HostKey) -> Option<KeyInject> {
    match key {
        HostKey::Space => Some(KeyInject::Char(' ')),
        HostKey::Numpad0 => Some(KeyInject::Char('0')),
        HostKey::Numpad1 => Some(KeyInject::Char('1')),
        HostKey::Numpad2 => Some(KeyInject::Char('2')),
        HostKey::Numpad3 => Some(KeyInject::Char('3')),
        HostKey::Numpad4 => Some(KeyInject::Char('4')),
        HostKey::Numpad5 => Some(KeyInject::Char('5')),
        HostKey::Numpad6 => Some(KeyInject::Char('6')),
        HostKey::Numpad7 => Some(KeyInject::Char('7')),
        HostKey::Numpad8 => Some(KeyInject::Char('8')),
        HostKey::Numpad9 => Some(KeyInject::Char('9')),
        HostKey::NumpadMultiply => Some(KeyInject::Char('*')),
        HostKey::NumpadAdd => Some(KeyInject::Char('+')),
        HostKey::NumpadSeparator => Some(KeyInject::Char(',')),
        HostKey::NumpadSubtract => Some(KeyInject::Char('-')),
        HostKey::NumpadDecimal => Some(KeyInject::Char('.')),
        HostKey::NumpadDivide => Some(KeyInject::Char('/')),
        HostKey::Equals => Some(KeyInject::Char('=')),
        HostKey::Backspace => Some(KeyInject::ControlKey(ControlKey::Backspace)),
        HostKey::Tab => Some(KeyInject::ControlKey(ControlKey::Tab)),
        HostKey::Return => Some(KeyInject::ControlKey(ControlKey::Enter)),
        HostKey::NumpadEnter => Some(KeyInject::ControlKey(ControlKey::NumpadEnter)),
        HostKey::Pause => Some(KeyInject::ControlKey(ControlKey::Pause)),
        HostKey::Escape => Some(KeyInject::ControlKey(ControlKey::Escape)),
        HostKey::End => Some(KeyInject::ControlKey(ControlKey::End)),
        HostKey::Home => Some(KeyInject::ControlKey(ControlKey::Home)),
        HostKey::ArrowLeft => Some(KeyInject::ControlKey(ControlKey::ArrowLeft)),
        HostKey::ArrowUp => Some(KeyInject::ControlKey(ControlKey::ArrowUp)),
        HostKey::ArrowRight => Some(KeyInject::ControlKey(ControlKey::ArrowRight)),
        HostKey::ArrowDown => Some(KeyInject::ControlKey(ControlKey::ArrowDown)),
        HostKey::PageUp => Some(KeyInject::ControlKey(ControlKey::PageUp)),
        HostKey::PageDown => Some(KeyInject::ControlKey(ControlKey::PageDown)),
        HostKey::Insert => Some(KeyInject::ControlKey(ControlKey::Insert)),
        HostKey::Delete => Some(KeyInject::ControlKey(ControlKey::Delete)),
        HostKey::F1 => Some(KeyInject::ControlKey(ControlKey::F1)),
        HostKey::F2 => Some(KeyInject::ControlKey(ControlKey::F2)),
        HostKey::F3 => Some(KeyInject::ControlKey(ControlKey::F3)),
        HostKey::F4 => Some(KeyInject::ControlKey(ControlKey::F4)),
        HostKey::F5 => Some(KeyInject::ControlKey(ControlKey::F5)),
        HostKey::F6 => Some(KeyInject::ControlKey(ControlKey::F6)),
        HostKey::F7 => Some(KeyInject::ControlKey(ControlKey::F7)),
        HostKey::F8 => Some(KeyInject::ControlKey(ControlKey::F8)),
        HostKey::F9 => Some(KeyInject::ControlKey(ControlKey::F9)),
        HostKey::F10 => Some(KeyInject::ControlKey(ControlKey::F10)),
        HostKey::F11 => Some(KeyInject::ControlKey(ControlKey::F11)),
        HostKey::F12 => Some(KeyInject::ControlKey(ControlKey::F12)),
        HostKey::Other => None,
    }
}

/// Every key that stands for a printable character classifies as the character printed on it:
/// the space bar as a space, each numpad digit as its digit, each numpad operator as its operator
/// sign, the numpad separator and decimal keys as a comma and a point, and the equals key as `=`.
pub proof fn lemma_printable_keys_insert_their_character()
    ensures
        spec_classify(HostKey::Space) == Some(KeyInject::Char(' ')),
        spec_classify(HostKey::Numpad0) == Some(KeyInject::Char('0')),
        spec_classify(HostKey::Numpad1) == Some(KeyInject::Char('1')),
        spec_classify(HostKey::Numpad2) == Some(KeyInject::Char('2')),
        spec_classify(HostKey::Numpad3) == Some(KeyInject::Char('3')),
        spec_classify(HostKey::Numpad4) == Some(KeyInject::Char('4')),
        spec_classify(HostKey::Numpad5) == Some(KeyInject::Char('5')),
        spec_classify(HostKey::Numpad6) == Some(KeyInject::Char('6')),
        spec_classify(HostKey::Numpad7) == Some(KeyInject::Char('7')),
        spec_classify(HostKey::Numpad8) == Some(KeyInject::Char('8')),
        spec_classify(HostKey::Numpad9) == Some(KeyInject::Char('9')),
        spec_classify(HostKey::NumpadMultiply) == Some(KeyInject::Char('*')),
        spec_classify(HostKey::NumpadAdd) == Some(KeyInject::Char('+')),
        spec_classify(HostKey::NumpadSeparator) == Some(KeyInject::Char(',')),
        spec_classify(HostKey::NumpadSubtract) == Some(KeyInject::Char('-')),
        spec_classify(HostKey::NumpadDecimal) == Some(KeyInject::Char('.')),
        spec_classify(HostKey::NumpadDivide) == Some(KeyInject::Char('/')),
        spec_classify(HostKey::Equals) == Some(KeyInject::Char('=')),
{
}

/// Every named non-printable key goes to the focused view as the control key of the same name;
/// both Enter keys arrive as the logical Enter key, the numpad one with its own physical code.
pub proof fn lemma_control_keys_keep_their_name()
    ensures
        spec_classify(HostKey::Backspace) == Some(KeyInject::ControlKey(ControlKey::Backspace)),
        spec_classify(HostKey::Tab) == Some(KeyInject::ControlKey(ControlKey::Tab)),
        spec_classify(HostKey::Return) == Some(KeyInject::ControlKey(ControlKey::Enter)),
        spec_classify(HostKey::NumpadEnter) == Some(KeyInject::ControlKey(ControlKey::NumpadEnter)),
        spec_classify(HostKey::Pause) == Some(KeyInject::ControlKey(ControlKey::Pause)),
        spec_classify(HostKey::Escape) == Some(KeyInject::ControlKey(ControlKey::Escape)),
        spec_classify(HostKey::End) == Some(KeyInject::ControlKey(ControlKey::End)),
        spec_classify(HostKey::Home) == Some(KeyInject::ControlKey(ControlKey::Home)),
        spec_classify(HostKey::ArrowLeft) == Some(KeyInject::ControlKey(ControlKey::ArrowLeft)),
        spec_classify(HostKey::ArrowUp) == Some(KeyInject::ControlKey(ControlKey::ArrowUp)),
        spec_classify(HostKey::ArrowRight) == Some(KeyInject::ControlKey(ControlKey::ArrowRight)),
        spec_classify(HostKey::ArrowDown) == Some(KeyInject::ControlKey(ControlKey::ArrowDown)),
        spec_classify(HostKey::PageUp) == Some(KeyInject::ControlKey(ControlKey::PageUp)),
        spec_classify(HostKey::PageDown) == Some(KeyInject::ControlKey(ControlKey::PageDown)),
        spec_classify(HostKey::Insert) == Some(KeyInject::ControlKey(ControlKey::Insert)),
        spec_classify(HostKey::Delete) == Some(KeyInject::ControlKey(ControlKey::Delete)),
        spec_classify(HostKey::F1) == Some(KeyInject::ControlKey(ControlKey::F1)),
        spec_classify(HostKey::F2) == Some(KeyInject::ControlKey(ControlKey::F2)),
        spec_classify(HostKey::F3) == Some(KeyInject::ControlKey(ControlKey::F3)),
        spec_classify(HostKey::F4) == Some(KeyInject::ControlKey(ControlKey::F4)),
        spec_classify(HostKey::F5) == Some(KeyInject::ControlKey(ControlKey::F5)),
        spec_classify(HostKey::F6) == Some(KeyInject::ControlKey(ControlKey::F6)),
        spec_classify(HostKey::F7) == Some(KeyInject::ControlKey(ControlKey::F7)),
        spec_classify(HostKey::F8) == Some(KeyInject::ControlKey(ControlKey::F8)),
        spec_classify(HostKey::F9) == Some(KeyInject::ControlKey(ControlKey::F9)),
        spec_classify(HostKey::F10) == Some(KeyInject::ControlKey(ControlKey::F10)),
        spec_classify(HostKey::F11) == Some(KeyInject::ControlKey(ControlKey::F11)),
        spec_classify(HostKey::F12) == Some(KeyInject::ControlKey(ControlKey::F12)),
        spec_classify(HostKey::Other) == None::<KeyInject>,
{
}

/// Classifies a host key: a printable character, a control key, or `None` for a key that the
/// editor leaves to the host.
pub fn classify_host_key(key: HostKey) -> (r: Option<KeyInject>)
    ensures
        r == spec_classify(key),
        key == HostKey::NumpadSubtract ==> r == Some(KeyInject::Char('-')),
        key == HostKey::NumpadAdd ==> r == Some(KeyInject::Char('+')),
        key == HostKey::NumpadMultiply ==> r == Some(KeyInject::Char('*')),
        key == HostKey::NumpadDivide ==> r == Some(KeyInject::Char('/')),
        key == HostKey::Other <==> r is None,
{
    match key {
        HostKey::Space => Some(KeyInject::Char(' ')),
        HostKey::Numpad0 => Some(KeyInject::Char('0')),
        HostKey::Numpad1 => Some(KeyInject::Char('1')),
        HostKey::Numpad2 => Some(KeyInject::Char('2')),
        HostKey::Numpad3 => Some(KeyInject::Char('3')),
        HostKey::Numpad4 => Some(KeyInject::Char('4')),
        HostKey::Numpad5 => Some(KeyInject::Char('5')),
        HostKey::Numpad6 => Some(KeyInject::Char('6')),
        HostKey::Numpad7 => Some(KeyInject::Char('7')),
        HostKey::Numpad8 => Some(KeyInject::Char('8')),
        HostKey::Numpad9 => Some(KeyInject::Char('9')),
        HostKey::NumpadMultiply => Some(KeyInject::Char('*')),
        HostKey::NumpadAdd => Some(KeyInject::Char('+')),
        HostKey::NumpadSeparator => Some(KeyInject::Char(',')),
        HostKey::NumpadSubtract => Some(KeyInject::Char('-')),
        HostKey::NumpadDecimal => Some(KeyInject::Char('.')),
        HostKey::NumpadDivide => Some(KeyInject::Char('/')),
        HostKey::Equals => Some(KeyInject::Char('=')),
        HostKey::Backspace => Some(KeyInject::ControlKey(ControlKey::Backspace)),
        HostKey::Tab => Some(KeyInject::ControlKey(ControlKey::Tab)),
        HostKey::Return => Some(KeyInject::ControlKey(ControlKey::Enter)),
        HostKey::NumpadEnter => Some(KeyInject::ControlKey(ControlKey::NumpadEnter)),
        HostKey::Pause => Some(KeyInject::ControlKey(ControlKey::Pause)),
        HostKey::Escape => Some(KeyInject::ControlKey(ControlKey::Escape)),
        HostKey::End => Some(KeyInject::ControlKey(ControlKey::End)),
        HostKey::Home => Some(KeyInject::ControlKey(ControlKey::Home)),
        HostKey::ArrowLeft => Some(KeyInject::ControlKey(ControlKey::ArrowLeft)),
        HostKey::ArrowUp => Some(KeyInject::ControlKey(ControlKey::ArrowUp)),
        HostKey::ArrowRight => Some(KeyInject::ControlKey(ControlKey::ArrowRight)),
        HostKey::ArrowDown => Some(KeyInject::ControlKey(ControlKey::ArrowDown)),
        HostKey::PageUp => Some(KeyInject::ControlKey(ControlKey::PageUp)),
        HostKey::PageDown => Some(KeyInject::ControlKey(ControlKey::PageDown)),
        HostKey::Insert => Some(KeyInject::ControlKey(ControlKey::Insert)),
        HostKey::Delete => Some(KeyInject::ControlKey(ControlKey::Delete)),
        HostKey::F1 => Some(KeyInject::ControlKey(ControlKey::F1)),
        HostKey::F2 => Some(KeyInject::ControlKey(ControlKey::F2)),
        HostKey::F3 => Some(KeyInject::ControlKey(ControlKey::F3)),
        HostKey::F4 => Some(KeyInject::ControlKey(ControlKey::F4)),
        HostKey::F5 => Some(KeyInject::ControlKey(ControlKey::F5)),
        HostKey::F6 => Some(KeyInject::ControlKey(ControlKey::F6)),
        HostKey::F7 => Some(KeyInject::ControlKey(ControlKey::F7)),
        HostKey::F8 => Some(KeyInject::ControlKey(ControlKey::F8)),
        HostKey::F9 => Some(KeyInject::ControlKey(ControlKey::F9)),
        HostKey::F10 => Some(KeyInject::ControlKey(ControlKey::F10)),
        HostKey::F11 => Some(KeyInject::ControlKey(ControlKey::F11)),
        HostKey::F12 => Some(KeyInject::ControlKey(ControlKey::F12)),
        HostKey::Other => None,
    }
}

/// Whether the editor claims a host key: only while a text box has focus, with no modifier held,
/// and for a key that it classifies. Press and release are claimed alike.
pub open spec fn spec_claims(text_focused: bool, key: HostKey, modifiers_empty: bool) -> bool {
    text_focused && modifiers_empty && spec_classify(key) is Some
}

/// The entry that a host key event adds to the queue: the classified key, for a claimed press.
pub open spec fn spec_queued_entry(text_focused: bool, event: (HostKey, bool, bool)) -> Option<
    KeyInject,
> {
    let (key, is_down, modifiers_empty) = event;
    if spec_claims(text_focused, key, modifiers_empty) && is_down {
        spec_classify(key)
    } else {
        None
    }
}

/// The queue after one host key event.
pub open spec fn spec_after_key(
    pending: Seq<KeyInject>,
    text_focused: bool,
    event: (HostKey, bool, bool),
) -> Seq<KeyInject> {
    match spec_queued_entry(text_focused, event) {
        Some(entry) => pending.push(entry),
        None => pending,
    }
}

/// The queue after a series of host key events `(key, is_down, modifiers_empty)`, delivered in
/// order while the focus stays the same.
pub open spec fn spec_queue_after(
    pending: Seq<KeyInject>,
    text_focused: bool,
    events: Seq<(HostKey, bool, bool)>,
) -> Seq<KeyInject>
    decreases events.len(),
{
    if events.len() == 0 {
        pending
    } else {
        spec_after_key(
            spec_queue_after(pending, text_focused, events.drop_last()),
            text_focused,
            events.last(),
        )
    }
}

/// Keys are dispatched in the order in which the host delivered them: after a series of host key
/// events, the queue holds what it held before, followed by the claimed presses, each classified,
/// in their order.
pub proof fn lemma_queue_keeps_host_order(
    pending: Seq<KeyInject>,
    text_focused: bool,
    events: Seq<(HostKey, bool, bool)>,
)
    ensures
        spec_queue_after(pending, text_focused, events) == pending + events.filter_map(
            |e: (HostKey, bool, bool)| spec_queued_entry(text_focused, e),
        ),
    decreases events.len(),
{
    let f = |e: (HostKey, bool, bool)| spec_queued_entry(text_focused, e);
    if events.len() == 0 {
        assert(pending + events.filter_map(f) == pending);
    } else {
        lemma_queue_keeps_host_order(pending, text_focused, events.drop_last());
        let rest = events.drop_last().filter_map(f);
        match f(events.last()) {
            Some(s) => {
                assert(events.filter_map(f) == rest + seq![s]);
                assert(pending + (rest + seq![s]) == (pending + rest).push(s));
            },
            None => {
                assert(events.filter_map(f) == rest);
            },
        }
    }
}

/// The state shared between the host's key callback and the GUI thread's idle callback: whether
/// a text box has focus, and the key presses not yet dispatched.
pub struct KeyInjectState {
    text_focused: bool,
    pending: VecDeque<KeyInject>,
}

impl KeyInjectState {
    /// Whether a text box had focus at the last idle tick.
    pub closed spec fn spec_text_focused(&self) -> bool {
        self.text_focused
    }

    /// The key presses waiting for dispatch, oldest first.
    pub closed spec fn spec_pending(&self) -> Seq<KeyInject> {
        self.pending@
    }

    /// Creates the state with no text box focused and nothing queued.
    pub fn new() -> (r: Self)
        ensures
            !r.spec_text_focused(),
            r.spec_pending() == Seq::<KeyInject>::empty(),
    {
        KeyInjectState { text_focused: false, pending: VecDeque::new() }
    }

    /// Whether a text box had focus at the last idle tick.
    pub fn text_focused(&self) -> (r: bool)
        ensures
            r == self.spec_text_focused(),
    {
        self.text_focused
    }

    /// Records, on an idle tick, whether the focused view is a text box.
    pub fn set_text_focused(&mut self, focused: bool)
        ensures
            final(self).spec_text_focused() == focused,
            final(self).spec_pending() == old(self).spec_pending(),
    {
        self.text_focused = focused;
    }

    /// Handles a key that the host delivers. Returns whether the editor claims it; a claimed
    /// press is queued for dispatch, a claimed release is only claimed, so that the host does not
    /// treat it as an accelerator of its own.
    pub fn on_virtual_key_from_host(
        &mut self,
        key: HostKey,
        is_down: bool,
        modifiers_empty: bool,
    ) -> (claimed: bool)
        ensures
            claimed == spec_claims(old(self).spec_text_focused(), key, modifiers_empty),
            !old(self).spec_text_focused() ==> !claimed,
            !modifiers_empty ==> !claimed,
            (old(self).spec_text_focused() && modifiers_empty && spec_classify(key) is Some)
                ==> claimed,
            spec_classify(key) is None ==> !claimed,
            final(self).spec_text_focused() == old(self).spec_text_focused(),
            final(self).spec_pending() == spec_after_key(
                old(self).spec_pending(),
                old(self).spec_text_focused(),
                (key, is_down, modifiers_empty),
            ),
            claimed && is_down ==> final(self).spec_pending() == old(self).spec_pending().push(
                spec_classify(key)->Some_0,
            ),
            !is_down ==> final(self).spec_pending() == old(self).spec_pending(),
    {
        if !self.text_focused {
            return false;
        }
        if !modifiers_empty {
            return false;
        }
        let inject = classify_host_key(key);
        match inject {
            None => false,
            Some(entry) => {
                if is_down {
                    self.pending.push_back(entry);
                }
                true
            },
        }
    }

    /// Takes every queued key press, oldest first, leaving the queue empty.
    pub fn drain(&mut self) -> (drained: Vec<KeyInject>)
        ensures
            drained@ == old(self).spec_pending(),
            final(self).spec_pending() == Seq::<KeyInject>::empty(),
            final(self).spec_text_focused() == old(self).spec_text_focused(),
    {
        let mut out: Vec<KeyInject> = Vec::new();
        let ghost all = self.pending@;
        while self.pending.len() > 0
            invariant
                out@ + self.pending@ == all,
                self.text_focused == old(self).text_focused,
            decreases self.pending@.len(),
        {
            let ghost before = self.pending@;
            match self.pending.pop_front() {
                Some(entry) => {
                    out.push(entry);
                    assert(out@ + self.pending@ == all) by {
                        assert(before == seq![entry] + self.pending@);
                    }
                },
                None => {},
            }
        }
        assert(out@ == all);
        out
    }
}

/// Decides a host's request to change the HiDPI scale factor. While the editor is open the
/// request is refused and the stored factor stays as it was, since an open window cannot follow
/// the change; otherwise the factor is stored and the request accepted.
pub fn set_scale_factor<F>(editor_open: bool, stored: &mut Option<F>, factor: F) -> (accepted: bool)
    ensures
        accepted == !editor_open,
        editor_open ==> *final(stored) == *old(stored),
        !editor_open ==> *final(stored) == Some(factor),
{
    if editor_open {
        return false;
    }
    *stored = Some(factor);
    true
}

} // verus!
