use vizia_plug::editor::{
    classify_host_key, set_scale_factor, ControlKey, HostKey, KeyInject, KeyInjectState,
};

#[test]
fn classify_printable_keys() {
    assert_eq!(classify_host_key(HostKey::Space), Some(KeyInject::Char(' ')));
    assert_eq!(classify_host_key(HostKey::Numpad0), Some(KeyInject::Char('0')));
    assert_eq!(classify_host_key(HostKey::Numpad7), Some(KeyInject::Char('7')));
    assert_eq!(classify_host_key(HostKey::NumpadMultiply), Some(KeyInject::Char('*')));
    assert_eq!(classify_host_key(HostKey::NumpadSeparator), Some(KeyInject::Char(',')));
    assert_eq!(classify_host_key(HostKey::NumpadDecimal), Some(KeyInject::Char('.')));
    assert_eq!(classify_host_key(HostKey::Equals), Some(KeyInject::Char('=')));
}

#[test]
fn classify_control_keys() {
    assert_eq!(classify_host_key(HostKey::Return), Some(KeyInject::ControlKey(ControlKey::Enter)));
    assert_eq!(
        classify_host_key(HostKey::NumpadEnter),
        Some(KeyInject::ControlKey(ControlKey::NumpadEnter))
    );
    assert_eq!(classify_host_key(HostKey::Backspace), Some(KeyInject::ControlKey(ControlKey::Backspace)));
    assert_eq!(classify_host_key(HostKey::ArrowLeft), Some(KeyInject::ControlKey(ControlKey::ArrowLeft)));
    assert_eq!(classify_host_key(HostKey::F12), Some(KeyInject::ControlKey(ControlKey::F12)));
    assert_eq!(classify_host_key(HostKey::Other), None);
}

#[test]
fn unfocused_editor_claims_nothing() {
    let mut st = KeyInjectState::new();
    assert!(!st.text_focused());
    assert!(!st.on_virtual_key_from_host(HostKey::Space, true, true));
    assert!(st.drain().is_empty());
}

#[test]
fn modifiers_leave_key_to_host() {
    let mut st = KeyInjectState::new();
    st.set_text_focused(true);
    assert!(!st.on_virtual_key_from_host(HostKey::ArrowLeft, true, false));
    assert!(st.drain().is_empty());
}

#[test]
fn unknown_key_is_left_to_host() {
    let mut st = KeyInjectState::new();
    st.set_text_focused(true);
    assert!(!st.on_virtual_key_from_host(HostKey::Other, true, true));
    assert!(st.drain().is_empty());
}

#[test]
fn release_is_claimed_but_not_queued() {
    let mut st = KeyInjectState::new();
    st.set_text_focused(true);
    assert!(st.on_virtual_key_from_host(HostKey::Numpad5, false, true));
    assert!(st.drain().is_empty());
}

#[test]
fn presses_drain_in_host_order() {
    let mut st = KeyInjectState::new();
    st.set_text_focused(true);
    assert!(st.on_virtual_key_from_host(HostKey::Numpad1, true, true));
    assert!(st.on_virtual_key_from_host(HostKey::Numpad1, false, true));
    assert!(!st.on_virtual_key_from_host(HostKey::Numpad2, true, false));
    assert!(st.on_virtual_key_from_host(HostKey::Backspace, true, true));
    assert!(st.on_virtual_key_from_host(HostKey::Numpad3, true, true));
    assert_eq!(
        st.drain(),
        vec![
            KeyInject::Char('1'),
            KeyInject::ControlKey(ControlKey::Backspace),
            KeyInject::Char('3'),
        ]
    );
    assert!(st.drain().is_empty());
    assert!(st.text_focused());
}

#[test]
fn losing_focus_stops_claiming_but_keeps_queue() {
    let mut st = KeyInjectState::new();
    st.set_text_focused(true);
    assert!(st.on_virtual_key_from_host(HostKey::Tab, true, true));
    st.set_text_focused(false);
    assert!(!st.on_virtual_key_from_host(HostKey::Tab, true, true));
    assert_eq!(st.drain(), vec![KeyInject::ControlKey(ControlKey::Tab)]);
}

#[test]
fn scale_factor_refused_while_open() {

    let mut stored: Option<u32> = Some(2);
    assert!(!set_scale_factor(true, &mut stored, 3));
    assert_eq!(stored, Some(2));
    assert!(set_scale_factor(false, &mut stored, 3));
    assert_eq!(stored, Some(3));
    let mut none: Option<u32> = None;
    assert!(set_scale_factor(false, &mut none, 1));
    assert_eq!(none, Some(1));
}
