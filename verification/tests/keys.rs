use zx_host::zx_event::{
    handle_key_event, pc_code_to_modifier, pc_code_to_zxkey, Event, PhysicalKey, ZxKey,
};

#[test]
fn direct_key_sends_one_signal() {
    let sends = handle_key_event(PhysicalKey::Q, true);
    assert_eq!(sends, vec![(ZxKey::Q, true)]);
    let sends = handle_key_event(PhysicalKey::Q, false);
    assert_eq!(sends, vec![(ZxKey::Q, false)]);
    let sends = handle_key_event(PhysicalKey::D3, true);
    assert_eq!(sends, vec![(ZxKey::N3, true)]);
    let sends = handle_key_event(PhysicalKey::LeftShift, true);
    assert_eq!(sends, vec![(ZxKey::CapsShift, true)]);
    let sends = handle_key_event(PhysicalKey::RightCtrl, false);
    assert_eq!(sends, vec![(ZxKey::SymShift, false)]);
}

#[test]
fn synthesised_key_sends_base_then_modifier() {
    let sends = handle_key_event(PhysicalKey::ArrowLeft, true);
    assert_eq!(sends, vec![(ZxKey::N5, true), (ZxKey::CapsShift, true)]);
    // The release keeps the same order, not the reverse.
    let sends = handle_key_event(PhysicalKey::ArrowLeft, false);
    assert_eq!(sends, vec![(ZxKey::N5, false), (ZxKey::CapsShift, false)]);
    let sends = handle_key_event(PhysicalKey::Backspace, true);
    assert_eq!(sends, vec![(ZxKey::N0, true), (ZxKey::CapsShift, true)]);
}

#[test]
fn unknown_key_sends_nothing() {
    let sends = handle_key_event(PhysicalKey::Escape, true);
    assert_eq!(sends.len(), 0);
    let sends = handle_key_event(PhysicalKey::Tab, false);
    assert_eq!(sends.len(), 0);
}

#[test]
fn lookups_are_tried_in_order() {
    // A directly mapped key is not also synthesised.
    assert_eq!(
        pc_code_to_zxkey(PhysicalKey::A, true),
        Some(Event::ZXKey(ZxKey::A, true))
    );
    assert_eq!(pc_code_to_modifier(PhysicalKey::A, true), None);
    // A synthesised key has no direct mapping.
    assert_eq!(pc_code_to_zxkey(PhysicalKey::ArrowUp, true), None);
    assert_eq!(
        pc_code_to_modifier(PhysicalKey::ArrowUp, true),
        Some(Event::ZXKeyWithModifier(ZxKey::N7, ZxKey::CapsShift, true))
    );
    // An unknown key matches neither lookup.
    assert_eq!(pc_code_to_zxkey(PhysicalKey::Escape, true), None);
    assert_eq!(pc_code_to_modifier(PhysicalKey::Escape, true), None);
}
