//! Logical key events of the emulated machine, and the mapping from
//! decoded physical keys to them.
//!
//! The scancode protocol itself is decoded by an outside collaborator;
//! this module's responsibility begins at its output, a physical key
//! identity plus a press state. Two lookups are tried in order: a direct
//! physical-to-logical mapping, then a modifier synthesis that stands in
//! for physical keys with no direct analogue on the emulated machine (an
//! arrow key becomes a digit key plus the caps-shift key). A physical key
//! neither lookup knows produces no event, which is never fatal.

use vstd::prelude::*;

verus! {

/// A logical key of the emulated machine's 40-key keyboard.
#[derive(Clone, Copy, PartialEq, Eq, Structural, Debug)]
pub enum ZxKey {
    A,
    B,
    C,
    D,
    E,
    F,
    G,
    H,
    I,
    J,
    K,
    L,
    M,
    N,
    O,
    P,
    Q,
    R,
    S,
    T,
    U,
    V,
    W,
    X,
    Y,
    Z,
    N0,
    N1,
    N2,
    N3,
    N4,
    N5,
    N6,
    N7,
    N8,
    N9,
    Enter,
    Space,
    CapsShift,
    SymShift,
}

/// A physical key identity, as the scancode decoder reports it.
#[derive(Clone, Copy, PartialEq, Eq, Structural, Debug)]
pub enum PhysicalKey {
    A,
    B,
    C,
    D,
    E,
    F,
    G,
    H,
    I,
    J,
    K,
    L,
    M,
    N,
    O,
    P,
    Q,
    R,
    S,
    T,
    U,
    V,
    W,
    X,
    Y,
    Z,
    D0,
    D1,
    D2,
    D3,
    D4,
    D5,
    D6,
    D7,
    D8,
    D9,
    Enter,
    Space,
    LeftShift,
    RightShift,
    LeftCtrl,
    RightCtrl,
    Backspace,
    ArrowLeft,
    ArrowRight,
    ArrowUp,
    ArrowDown,
    Escape,
    Tab,
}

/// One decoded keyboard happening: nothing, a single logical key with a
/// press flag, or a pair of logical keys (base key plus synthetic
/// modifier) sharing one press flag.
#[derive(Clone, Copy, PartialEq, Eq, Structural, Debug)]
pub enum Event {
    NoEvent,
    ZXKey(ZxKey, bool),
    ZXKeyWithModifier(ZxKey, ZxKey, bool),
}

/// The direct physical-to-logical lookup: the logical key a physical key
/// stands for on the emulated machine, if it has one.
pub open spec fn direct_zx_of(key: PhysicalKey) -> Option<ZxKey> {
    match key {
        PhysicalKey::A => Some(ZxKey::A),
        PhysicalKey::B => Some(ZxKey::B),
        PhysicalKey::C => Some(ZxKey::C),
        PhysicalKey::D => Some(ZxKey::D),
        PhysicalKey::E => Some(ZxKey::E),
        PhysicalKey::F => Some(ZxKey::F),
        PhysicalKey::G => Some(ZxKey::G),
        PhysicalKey::H => Some(ZxKey::H),
        PhysicalKey::I => Some(ZxKey::I),
        PhysicalKey::J => Some(ZxKey::J),
        PhysicalKey::K => Some(ZxKey::K),
        PhysicalKey::L => Some(ZxKey::L),
        PhysicalKey::M => Some(ZxKey::M),
        PhysicalKey::N => Some(ZxKey::N),
        PhysicalKey::O => Some(ZxKey::O),
        PhysicalKey::P => Some(ZxKey::P),
        PhysicalKey::Q => Some(ZxKey::Q),
        PhysicalKey::R => Some(ZxKey::R),
        PhysicalKey::S => Some(ZxKey::S),
        PhysicalKey::T => Some(ZxKey::T),
        PhysicalKey::U => Some(ZxKey::U),
        PhysicalKey::V => Some(ZxKey::V),
        PhysicalKey::W => Some(ZxKey::W),
        PhysicalKey::X => Some(ZxKey::X),
        PhysicalKey::Y => Some(ZxKey::Y),
        PhysicalKey::Z => Some(ZxKey::Z),
        PhysicalKey::D0 => Some(ZxKey::N0),
        PhysicalKey::D1 => Some(ZxKey::N1),
        PhysicalKey::D2 => Some(ZxKey::N2),
        PhysicalKey::D3 => Some(ZxKey::N3),
        PhysicalKey::D4 => Some(ZxKey::N4),
        PhysicalKey::D5 => Some(ZxKey::N5),
        PhysicalKey::D6 => Some(ZxKey::N6),
        PhysicalKey::D7 => Some(ZxKey::N7),
        PhysicalKey::D8 => Some(ZxKey::N8),
        PhysicalKey::D9 => Some(ZxKey::N9),
        PhysicalKey::Enter => Some(ZxKey::Enter),
        PhysicalKey::Space => Some(ZxKey::Space),
        PhysicalKey::LeftShift => Some(ZxKey::CapsShift),
        PhysicalKey::RightShift => Some(ZxKey::CapsShift),
        PhysicalKey::LeftCtrl => Some(ZxKey::SymShift),
        PhysicalKey::RightCtrl => Some(ZxKey::SymShift),
        _ => None,
    }
}

/// The modifier-synthesis lookup: the (base key, modifier key) pair that
/// stands in for a physical key with no direct logical analogue.
pub open spec fn modifier_pair_of(key: PhysicalKey) -> Option<(ZxKey, ZxKey)> {
    match key {
        PhysicalKey::Backspace => Some((ZxKey::N0, ZxKey::CapsShift)),
        PhysicalKey::ArrowLeft => Some((ZxKey::N5, ZxKey::CapsShift)),
        PhysicalKey::ArrowDown => Some((ZxKey::N6, ZxKey::CapsShift)),
        PhysicalKey::ArrowUp => Some((ZxKey::N7, ZxKey::CapsShift)),
        PhysicalKey::ArrowRight => Some((ZxKey::N8, ZxKey::CapsShift)),
        _ => None,
    }
}

/// The logical key signals one physical key event dispatches to the
/// engine, in order: one signal for a directly mapped key; base key first
/// and modifier key second, both with the event's press flag, for a
/// synthesised pair — in that same order on press and on release; nothing
/// for an unrecognised key.
pub open spec fn key_sends(key: PhysicalKey, pressed: bool) -> Seq<(ZxKey, bool)> {
    match direct_zx_of(key) {
        Some(k) => seq![(k, pressed)],
        None => match modifier_pair_of(key) {
            Some(pair) => seq![(pair.0, pressed), (pair.1, pressed)],
            None => Seq::empty(),
        },
    }
}

/// The direct lookup as an event: a single logical key event carrying the
/// press flag, or nothing.
pub fn pc_code_to_zxkey(key: PhysicalKey, pressed: bool) -> (r: Option<Event>)
    ensures
        match direct_zx_of(key) {
            Some(k) => r == Some(Event::ZXKey(k, pressed)),
            None => r is None,
        },
{
    match key {
        PhysicalKey::A => Some(Event::ZXKey(ZxKey::A, pressed)),
        PhysicalKey::B => Some(Event::ZXKey(ZxKey::B, pressed)),
        PhysicalKey::C => Some(Event::ZXKey(ZxKey::C, pressed)),
        PhysicalKey::D => Some(Event::ZXKey(ZxKey::D, pressed)),
        PhysicalKey::E => Some(Event::ZXKey(ZxKey::E, pressed)),
        PhysicalKey::F => Some(Event::ZXKey(ZxKey::F, pressed)),
        PhysicalKey::G => Some(Event::ZXKey(ZxKey::G, pressed)),
        PhysicalKey::H => Some(Event::ZXKey(ZxKey::H, pressed)),
        PhysicalKey::I => Some(Event::ZXKey(ZxKey::I, pressed)),
        PhysicalKey::J => Some(Event::ZXKey(ZxKey::J, pressed)),
        PhysicalKey::K => Some(Event::ZXKey(ZxKey::K, pressed)),
        PhysicalKey::L => Some(Event::ZXKey(ZxKey::L, pressed)),
        PhysicalKey::M => Some(Event::ZXKey(ZxKey::M, pressed)),
        PhysicalKey::N => Some(Event::ZXKey(ZxKey::N, pressed)),
        PhysicalKey::O => Some(Event::ZXKey(ZxKey::O, pressed)),
        PhysicalKey::P => Some(Event::ZXKey(ZxKey::P, pressed)),
        PhysicalKey::Q => Some(Event::ZXKey(ZxKey::Q, pressed)),
        PhysicalKey::R => Some(Event::ZXKey(ZxKey::R, pressed)),
        PhysicalKey::S => Some(Event::ZXKey(ZxKey::S, pressed)),
        PhysicalKey::T => Some(Event::ZXKey(ZxKey::T, pressed)),
        PhysicalKey::U => Some(Event::ZXKey(ZxKey::U, pressed)),
        PhysicalKey::V => Some(Event::ZXKey(ZxKey::V, pressed)),
        PhysicalKey::W => Some(Event::ZXKey(ZxKey::W, pressed)),
        PhysicalKey::X => Some(Event::ZXKey(ZxKey::X, pressed)),
        PhysicalKey::Y => Some(Event::ZXKey(ZxKey::Y, pressed)),
        PhysicalKey::Z => Some(Event::ZXKey(ZxKey::Z, pressed)),
        PhysicalKey::D0 => Some(Event::ZXKey(ZxKey::N0, pressed)),
        PhysicalKey::D1 => Some(Event::ZXKey(ZxKey::N1, pressed)),
        PhysicalKey::D2 => Some(Event::ZXKey(ZxKey::N2, pressed)),
        PhysicalKey::D3 => Some(Event::ZXKey(ZxKey::N3, pressed)),
        PhysicalKey::D4 => Some(Event::ZXKey(ZxKey::N4, pressed)),
        PhysicalKey::D5 => Some(Event::ZXKey(ZxKey::N5, pressed)),
        PhysicalKey::D6 => Some(Event::ZXKey(ZxKey::N6, pressed)),
        PhysicalKey::D7 => Some(Event::ZXKey(ZxKey::N7, pressed)),
        PhysicalKey::D8 => Some(Event::ZXKey(ZxKey::N8, pressed)),
        PhysicalKey::D9 => Some(Event::ZXKey(ZxKey::N9, pressed)),
        PhysicalKey::Enter => Some(Event::ZXKey(ZxKey::Enter, pressed)),
        PhysicalKey::Space => Some(Event::ZXKey(ZxKey::Space, pressed)),
        PhysicalKey::LeftShift => Some(Event::ZXKey(ZxKey::CapsShift, pressed)),
        PhysicalKey::RightShift => Some(Event::ZXKey(ZxKey::CapsShift, pressed)),
        PhysicalKey::LeftCtrl => Some(Event::ZXKey(ZxKey::SymShift, pressed)),
        PhysicalKey::RightCtrl => Some(Event::ZXKey(ZxKey::SymShift, pressed)),
        _ => None,
    }
}

/// The modifier-synthesis lookup as an event: a paired logical key event
/// carrying the press flag, or nothing.
pub fn pc_code_to_modifier(key: PhysicalKey, pressed: bool) -> (r: Option<Event>)
    ensures
        match modifier_pair_of(key) {
            Some(pair) => r == Some(Event::ZXKeyWithModifier(pair.0, pair.1, pressed)),
            None => r is None,
        },
{
    match key {
        PhysicalKey::Backspace => Some(
            Event::ZXKeyWithModifier(ZxKey::N0, ZxKey::CapsShift, pressed),
        ),
        PhysicalKey::ArrowLeft => Some(
            Event::ZXKeyWithModifier(ZxKey::N5, ZxKey::CapsShift, pressed),
        ),
        PhysicalKey::ArrowDown => Some(
            Event::ZXKeyWithModifier(ZxKey::N6, ZxKey::CapsShift, pressed),
        ),
        PhysicalKey::ArrowUp => Some(
            Event::ZXKeyWithModifier(ZxKey::N7, ZxKey::CapsShift, pressed),
        ),
        PhysicalKey::ArrowRight => Some(
            Event::ZXKeyWithModifier(ZxKey::N8, ZxKey::CapsShift, pressed),
        ),
        _ => None,
    }
}

/// Maps one decoded physical key event to the logical key signals to send
/// to the engine: the direct lookup first, the modifier synthesis if that
/// yields nothing, an empty plan if neither recognises the key.
pub fn handle_key_event(key: PhysicalKey, pressed: bool) -> (r: Vec<(ZxKey, bool)>)
    ensures
        r@ == key_sends(key, pressed),
{
    let mut sends: Vec<(ZxKey, bool)> = Vec::new();
    let direct = pc_code_to_zxkey(key, pressed);
    let mapped = match direct {
        Some(ev) => Some(ev),
        None => pc_code_to_modifier(key, pressed),
    };
    match mapped {
        Some(Event::ZXKey(k, p)) => {
            sends.push((k, p));
        },
        Some(Event::ZXKeyWithModifier(k, k2, p)) => {
            sends.push((k, p));
            sends.push((k2, p));
        },
        Some(Event::NoEvent) => {},
        None => {},
    }
    proof {
        assert(sends@ =~= key_sends(key, pressed));
    }
    sends
}

/// Law: a dispatch plan holds at most two signals, each signal carries the
/// event's own press flag, and pressing and releasing the same physical
/// key send the same logical keys in the same order — base key first,
/// modifier key second, not reversed on release.
pub proof fn lemma_dispatch_order(key: PhysicalKey, pressed: bool)
    ensures
        key_sends(key, pressed).len() <= 2,
        forall|i: int| 0 <= i < key_sends(key, pressed).len() ==> (#[trigger] key_sends(
            key,
            pressed,
        )[i]).1 == pressed,
        key_sends(key, true).len() == key_sends(key, false).len(),
        forall|i: int| 0 <= i < key_sends(key, true).len() ==> (#[trigger] key_sends(
            key,
            true,
        )[i]).0 == key_sends(key, false)[i].0,
        direct_zx_of(key) is Some ==> key_sends(key, pressed).len() == 1,
        direct_zx_of(key) is None && modifier_pair_of(key) is Some ==> key_sends(key, pressed)
            == seq![
            (modifier_pair_of(key).unwrap().0, pressed),
            (modifier_pair_of(key).unwrap().1, pressed),
        ],
        direct_zx_of(key) is None && modifier_pair_of(key) is None ==> key_sends(key, pressed)
            =~= Seq::<(ZxKey, bool)>::empty(),
{
}

} // verus!
