//! Translation of host input events into the GUI library's event vocabulary.
//!
//! The host delivers one event at a time; translation appends at most one
//! event to the pending input batch.  Unrecognized events are silently
//! dropped: the GUI vocabulary is intentionally a subset of the host's.
//!
//! Coordinates are carried by an arbitrary scalar type `C`: translation never
//! computes with a coordinate, it only passes it through, and the contracts
//! state exactly that, for every scalar type.

use vstd::prelude::*;

verus! {

/// A two-component vector (a position, a texture coordinate, or a wheel
/// amount), generic over the scalar type of the host's coordinate space.
#[derive(Clone, Copy, Debug, PartialEq)]
pub struct Vec2<C> {
    pub x: C,
    pub y: C,
}

/// The modifier flags attached to a translated event.
///
/// `command` always mirrors `ctrl`: the adapter makes no platform-specific
/// distinction between the two.
#[derive(Clone, Copy, Debug, PartialEq, Eq, Structural)]
pub struct Modifiers {
    pub alt: bool,
    pub ctrl: bool,
    pub shift: bool,
    pub command: bool,
}

/// The answer to the host's "which modifier keys are held right now" query,
/// sampled independently for every translated event.
#[derive(Clone, Copy, Debug, PartialEq, Eq, Structural)]
pub struct ModifierKeys {
    pub ctrl: bool,
    pub shift: bool,
    pub alt: bool,
}

/// The modifier flags derived from a held-key query: `command` is set
/// exactly when `ctrl` is.
pub open spec fn modifiers_of(held: ModifierKeys) -> Modifiers {
    Modifiers {
        alt: held.alt,
        ctrl: held.ctrl,
        shift: held.shift,
        command: held.ctrl,
    }
}

/// No modifier held.
pub open spec fn no_modifiers() -> Modifiers {
    Modifiers { alt: false, ctrl: false, shift: false, command: false }
}

impl Modifiers {
    /// Builds the modifier flags for an event from the host's held-key query.
    pub fn from_held(held: ModifierKeys) -> (m: Modifiers)
        ensures
            m == modifiers_of(held),
    {
        Modifiers {
            alt: held.alt,
            ctrl: held.ctrl,
            shift: held.shift,
            command: held.ctrl,
        }
    }

    /// The empty modifier state.
    pub fn none() -> (m: Modifiers)
        ensures
            m == no_modifiers(),
    {
        Modifiers { alt: false, ctrl: false, shift: false, command: false }
    }
}

/// A physical key as the host engine reports it.
///
/// The variants mirror the host's keyboard vocabulary; only part of it has a
/// translation into the GUI vocabulary ([`key_mapping`]).
#[derive(Clone, Copy, Debug, PartialEq, Eq, Structural)]
pub enum HostKey {
    A,
    B,
    C,
    D,
    E,
    F,
    G,
    H,
    I,
    J,
    K,
    L,
    M,
    N,
    O,
    P,
    Q,
    R,
    S,
    T,
    U,
    V,
    W,
    X,
    Y,
    Z,
    Num0,
    Num1,
    Num2,
    Num3,
    Num4,
    Num5,
    Num6,
    Num7,
    Num8,
    Num9,
    F1,
    F2,
    F3,
    F4,
    F5,
    F6,
    F7,
    F8,
    F9,
    F10,
    F11,
    F12,
    F13,
    F14,
    F15,
    F16,
    F17,
    F18,
    F19,
    F20,
    F21,
    F22,
    F23,
    F24,
    NumLock,
    NumPad1,
    NumPad2,
    NumPad3,
    NumPad4,
    NumPad5,
    NumPad6,
    NumPad7,
    NumPad8,
    NumPad9,
    NumPad0,
    NumPadPlus,
    NumPadMinus,
    NumPadMultiply,
    NumPadDivide,
    NumPadEnter,
    LeftCtrl,
    LeftShift,
    LeftAlt,
    RightCtrl,
    RightShift,
    RightAlt,
    Up,
    Down,
    Left,
    Right,
    Backquote,
    Backslash,
    Backspace,
    CapsLock,
    Comma,
    Delete,
    End,
    Enter,
    Equals,
    Escape,
    Home,
    Insert,
    LeftBracket,
    Minus,
    PageDown,
    PageUp,
    Pause,
    Period,
    PrintScreen,
    Quote,
    RightBracket,
    ScrollLock,
    Semicolon,
    Slash,
    Space,
    Tab,
}

/// A logical key in the GUI library's vocabulary: letters, digits,
/// navigation keys and editing keys.
#[derive(Clone, Copy, Debug, PartialEq, Eq, Structural)]
pub enum GuiKey {
    A,
    B,
    C,
    D,
    E,
    F,
    G,
    H,
    I,
    J,
    K,
    L,
    M,
    N,
    O,
    P,
    Q,
    R,
    S,
    T,
    U,
    V,
    W,
    X,
    Y,
    Z,
    Num0,
    Num1,
    Num2,
    Num3,
    Num4,
    Num5,
    Num6,
    Num7,
    Num8,
    Num9,
    Escape,
    Tab,
    Backspace,
    Enter,
    Space,
    Insert,
    Delete,
    Home,
    End,
    PageDown,
    PageUp,
    ArrowUp,
    ArrowDown,
    ArrowLeft,
    ArrowRight,
}

/// The fixed key translation table: letters, digits, navigation and editing
/// keys have a GUI counterpart; every other host key has none.
pub open spec fn key_mapping(key: HostKey) -> Option<GuiKey> {
    match key {
        HostKey::A => Some(GuiKey::A),
        HostKey::B => Some(GuiKey::B),
        HostKey::C => Some(GuiKey::C),
        HostKey::D => Some(GuiKey::D),
        HostKey::E => Some(GuiKey::E),
        HostKey::F => Some(GuiKey::F),
        HostKey::G => Some(GuiKey::G),
        HostKey::H => Some(GuiKey::H),
        HostKey::I => Some(GuiKey::I),
        HostKey::J => Some(GuiKey::J),
        HostKey::K => Some(GuiKey::K),
        HostKey::L => Some(GuiKey::L),
        HostKey::M => Some(GuiKey::M),
        HostKey::N => Some(GuiKey::N),
        HostKey::O => Some(GuiKey::O),
        HostKey::P => Some(GuiKey::P),
        HostKey::Q => Some(GuiKey::Q),
        HostKey::R => Some(GuiKey::R),
        HostKey::S => Some(GuiKey::S),
        HostKey::T => Some(GuiKey::T),
        HostKey::U => Some(GuiKey::U),
        HostKey::V => Some(GuiKey::V),
        HostKey::W => Some(GuiKey::W),
        HostKey::X => Some(GuiKey::X),
        HostKey::Y => Some(GuiKey::Y),
        HostKey::Z => Some(GuiKey::Z),
        HostKey::Num0 => Some(GuiKey::Num0),
        HostKey::Num1 => Some(GuiKey::Num1),
        HostKey::Num2 => Some(GuiKey::Num2),
        HostKey::Num3 => Some(GuiKey::Num3),
        HostKey::Num4 => Some(GuiKey::Num4),
        HostKey::Num5 => Some(GuiKey::Num5),
        HostKey::Num6 => Some(GuiKey::Num6),
        HostKey::Num7 => Some(GuiKey::Num7),
        HostKey::Num8 => Some(GuiKey::Num8),
        HostKey::Num9 => Some(GuiKey::Num9),
        HostKey::Escape => Some(GuiKey::Escape),
        HostKey::Tab => Some(GuiKey::Tab),
        HostKey::Backspace => Some(GuiKey::Backspace),
        HostKey::Enter => Some(GuiKey::Enter),
        HostKey::Space => Some(GuiKey::Space),
        HostKey::Insert => Some(GuiKey::Insert),
        HostKey::Delete => Some(GuiKey::Delete),
        HostKey::Home => Some(GuiKey::Home),
        HostKey::End => Some(GuiKey::End),
        HostKey::PageDown => Some(GuiKey::PageDown),
        HostKey::PageUp => Some(GuiKey::PageUp),
        HostKey::Up => Some(GuiKey::ArrowUp),
        HostKey::Down => Some(GuiKey::ArrowDown),
        HostKey::Left => Some(GuiKey::ArrowLeft),
        HostKey::Right => Some(GuiKey::ArrowRight),
        _ => None,
    }
}

/// Translates a host key into the GUI vocabulary, or `None` where the
/// table has no entry (the GUI vocabulary is smaller than the host's).
pub fn convert_key(key: &HostKey) -> (r: Option<GuiKey>)
    ensures
        r == key_mapping(*key),
{
    match key {
        HostKey::A => Some(GuiKey::A),
        HostKey::B => Some(GuiKey::B),
        HostKey::C => Some(GuiKey::C),
        HostKey::D => Some(GuiKey::D),
        HostKey::E => Some(GuiKey::E),
        HostKey::F => Some(GuiKey::F),
        HostKey::G => Some(GuiKey::G),
        HostKey::H => Some(GuiKey::H),
        HostKey::I => Some(GuiKey::I),
        HostKey::J => Some(GuiKey::J),
        HostKey::K => Some(GuiKey::K),
        HostKey::L => Some(GuiKey::L),
        HostKey::M => Some(GuiKey::M),
        HostKey::N => Some(GuiKey::N),
        HostKey::O => Some(GuiKey::O),
        HostKey::P => Some(GuiKey::P),
        HostKey::Q => Some(GuiKey::Q),
        HostKey::R => Some(GuiKey::R),
        HostKey::S => Some(GuiKey::S),
        HostKey::T => Some(GuiKey::T),
        HostKey::U => Some(GuiKey::U),
        HostKey::V => Some(GuiKey::V),
        HostKey::W => Some(GuiKey::W),
        HostKey::X => Some(GuiKey::X),
        HostKey::Y => Some(GuiKey::Y),
        HostKey::Z => Some(GuiKey::Z),
        HostKey::Num0 => Some(GuiKey::Num0),
        HostKey::Num1 => Some(GuiKey::Num1),
        HostKey::Num2 => Some(GuiKey::Num2),
        HostKey::Num3 => Some(GuiKey::Num3),
        HostKey::Num4 => Some(GuiKey::Num4),
        HostKey::Num5 => Some(GuiKey::Num5),
        HostKey::Num6 => Some(GuiKey::Num6),
        HostKey::Num7 => Some(GuiKey::Num7),
        HostKey::Num8 => Some(GuiKey::Num8),
        HostKey::Num9 => Some(GuiKey::Num9),
        HostKey::Escape => Some(GuiKey::Escape),
        HostKey::Tab => Some(GuiKey::Tab),
        HostKey::Backspace => Some(GuiKey::Backspace),
        HostKey::Enter => Some(GuiKey::Enter),
        HostKey::Space => Some(GuiKey::Space),
        HostKey::Insert => Some(GuiKey::Insert),
        HostKey::Delete => Some(GuiKey::Delete),
        HostKey::Home => Some(GuiKey::Home),
        HostKey::End => Some(GuiKey::End),
        HostKey::PageDown => Some(GuiKey::PageDown),
        HostKey::PageUp => Some(GuiKey::PageUp),
        HostKey::Up => Some(GuiKey::ArrowUp),
        HostKey::Down => Some(GuiKey::ArrowDown),
        HostKey::Left => Some(GuiKey::ArrowLeft),
        HostKey::Right => Some(GuiKey::ArrowRight),
        _ => None,
    }
}

/// Law: the key table is bidirectional — no two host keys share a GUI
/// counterpart, so a translated key event identifies the host key that
/// caused it.
#[verifier::rlimit(50)]
pub proof fn lemma_key_mapping_injective(k1: HostKey, k2: HostKey)
    requires
        key_mapping(k1) is Some,
        key_mapping(k1) == key_mapping(k2),
    ensures
        k1 == k2,
{
}

/// A mouse button as the host engine reports it.
#[derive(Clone, Copy, Debug, PartialEq, Eq, Structural)]
pub enum HostMouseButton {
    Left,
    Middle,
    Right,
    X1,
    X2,
}

/// A pointer button in the GUI library's vocabulary.
#[derive(Clone, Copy, Debug, PartialEq, Eq, Structural)]
pub enum GuiPointerButton {
    Primary,
    Secondary,
    Middle,
}

/// The fixed button translation table.  The mapping is total: any physical
/// button beyond left/right/middle maps to `Primary` as a safe default.
pub open spec fn button_mapping(button: HostMouseButton) -> GuiPointerButton {
    match button {
        HostMouseButton::Left => GuiPointerButton::Primary,
        HostMouseButton::Right => GuiPointerButton::Secondary,
        HostMouseButton::Middle => GuiPointerButton::Middle,
        _ => GuiPointerButton::Primary,
    }
}

/// Translates a host mouse button into the GUI vocabulary.
pub fn convert_button(button: &HostMouseButton) -> (r: GuiPointerButton)
    ensures
        r == button_mapping(*button),
{
    match button {
        HostMouseButton::Left => GuiPointerButton::Primary,
        HostMouseButton::Right => GuiPointerButton::Secondary,
        HostMouseButton::Middle => GuiPointerButton::Middle,
        _ => GuiPointerButton::Primary,
    }
}

/// One input event as the host engine delivers it.
///
/// `Other` stands for every host event kind the translator does not look at
/// (gamepad events, dropped files, window restore, and the like); they all
/// translate to nothing.
#[derive(Clone, Debug, PartialEq)]
pub enum HostEvent<C> {
    Resized { width: i32, height: i32 },
    FocusGained,
    FocusLost,
    KeyPressed { key: HostKey },
    KeyReleased { key: HostKey },
    MouseButtonPressed { button: HostMouseButton },
    MouseButtonReleased { button: HostMouseButton },
    MouseMoved { position: Vec2<C>, delta: Vec2<C> },
    MouseWheelMoved { amount: Vec2<C> },
    TextInput { text: String },
    Other,
}

/// One translated event in the GUI library's vocabulary.
#[derive(Clone, Debug, PartialEq)]
pub enum GuiEvent<C> {
    PointerButton { pos: Vec2<C>, button: GuiPointerButton, pressed: bool, modifiers: Modifiers },
    Key { key: GuiKey, pressed: bool, modifiers: Modifiers },
    PointerMoved { pos: Vec2<C> },
    Text { text: String },
    PointerGone,
}

/// The pending input batch: everything translated since the last frame
/// began, handed to the GUI library at the next begin-frame call.
#[derive(Clone, Debug, PartialEq)]
pub struct RawInput<C> {
    /// Translated events, oldest first.
    pub events: Vec<GuiEvent<C>>,
    /// The scroll amount for this frame; `None` when no wheel event arrived.
    /// A wheel event overwrites it, it never accumulates.
    pub scroll_delta: Option<Vec2<C>>,
    /// Elapsed time since the adapter was created, in nanoseconds.
    pub time_nanos: u64,
}

/// The mathematical model of a pending input batch.
#[verifier::ext_equal]
pub ghost struct BatchView<C> {
    pub events: Seq<GuiEvent<C>>,
    pub scroll_delta: Option<Vec2<C>>,
    pub time_nanos: u64,
}

impl<C> View for RawInput<C> {
    type V = BatchView<C>;

    open spec fn view(&self) -> BatchView<C> {
        BatchView {
            events: self.events@,
            scroll_delta: self.scroll_delta,
            time_nanos: self.time_nanos,
        }
    }
}

impl<C> RawInput<C> {
    /// An empty batch: no events, no scroll, clock at zero.
    pub fn new() -> (r: RawInput<C>)
        ensures
            r@ == empty_batch::<C>(),
    {
        let r = RawInput { events: Vec::new(), scroll_delta: None, time_nanos: 0 };
        proof {
            assert(r@ =~= empty_batch::<C>());
        }
        r
    }
}

/// The batch a fresh adapter starts from.
pub open spec fn empty_batch<C>() -> BatchView<C> {
    BatchView { events: Seq::empty(), scroll_delta: None, time_nanos: 0 }
}

/// The translation table for whole events: given the pointer position and
/// the held modifier keys as queried from the host at translation time, and
/// one host event, the one GUI event it produces, or `None`.
///
/// A wheel event also returns `None` here: it produces no event, it sets the
/// batch's scroll delta instead ([`step`]).
pub open spec fn translate_event<C>(
    pos: Vec2<C>,
    held: ModifierKeys,
    ev: HostEvent<C>,
) -> Option<GuiEvent<C>> {
    match ev {
        HostEvent::MouseButtonPressed { button } => Some(GuiEvent::PointerButton {
            pos,
            button: button_mapping(button),
            pressed: true,
            modifiers: modifiers_of(held),
        }),
        HostEvent::MouseButtonReleased { button } => Some(GuiEvent::PointerButton {
            pos,
            button: button_mapping(button),
            pressed: false,
            modifiers: modifiers_of(held),
        }),
        HostEvent::KeyPressed { key } => match key_mapping(key) {
            Some(k) => Some(GuiEvent::Key { key: k, pressed: true, modifiers: modifiers_of(held) }),
            None => None,
        },
        HostEvent::KeyReleased { key } => match key_mapping(key) {
            Some(k) => Some(GuiEvent::Key { key: k, pressed: false, modifiers: modifiers_of(held) }),
            None => None,
        },
        HostEvent::MouseMoved { position, .. } => Some(GuiEvent::PointerMoved { pos: position }),
        HostEvent::TextInput { text } => Some(GuiEvent::Text { text }),
        HostEvent::FocusLost => Some(GuiEvent::PointerGone),
        _ => None,
    }
}

/// How one host event changes the pending batch: at most one event is
/// appended, a wheel event overwrites the scroll delta, and the clock is
/// untouched.
pub open spec fn step<C>(
    b: BatchView<C>,
    pos: Vec2<C>,
    held: ModifierKeys,
    ev: HostEvent<C>,
) -> BatchView<C> {
    let events = match translate_event(pos, held, ev) {
        Some(e) => b.events.push(e),
        None => b.events,
    };
    let scroll_delta = match ev {
        HostEvent::MouseWheelMoved { amount } => Some(amount),
        _ => b.scroll_delta,
    };
    BatchView { events, scroll_delta, time_nanos: b.time_nanos }
}

/// Translates one host event into the pending batch.
///
/// `pos` is the pointer position and `held` the modifier-key state, both
/// queried from the host at translation time; a pointer-button event carries
/// that live position, whatever coordinates the host event itself embedded.
pub fn handle_event<C: Copy>(
    pos: Vec2<C>,
    held: ModifierKeys,
    ri: &mut RawInput<C>,
    event: &HostEvent<C>,
)
    ensures
        final(ri)@ == step(old(ri)@, pos, held, *event),
{
    let modifiers = Modifiers::from_held(held);
    match event {
        HostEvent::MouseButtonPressed { button } => {
            let ebutton = convert_button(button);
            ri.events.push(GuiEvent::PointerButton { pos, button: ebutton, pressed: true, modifiers });
        }
        HostEvent::MouseButtonReleased { button } => {
            let ebutton = convert_button(button);
            ri.events.push(GuiEvent::PointerButton { pos, button: ebutton, pressed: false, modifiers });
        }
        HostEvent::KeyPressed { key } => {
            if let Some(k) = convert_key(key) {
                ri.events.push(GuiEvent::Key { key: k, pressed: true, modifiers });
            }
        }
        HostEvent::KeyReleased { key } => {
            if let Some(k) = convert_key(key) {
                ri.events.push(GuiEvent::Key { key: k, pressed: false, modifiers });
            }
        }
        HostEvent::MouseMoved { position, .. } => {
            ri.events.push(GuiEvent::PointerMoved { pos: *position });
        }
        HostEvent::MouseWheelMoved { amount } => {
            ri.scroll_delta = Some(*amount);
        }
        HostEvent::TextInput { text } => {
            ri.events.push(GuiEvent::Text { text: text.clone() });
        }
        HostEvent::FocusLost => {
            ri.events.push(GuiEvent::PointerGone);
        }
        _ => {}
    }
    proof {
        assert(ri@ =~= step(old(ri)@, pos, held, *event));
    }
}

/// Law: for every key with a table entry, translating a press and then a
/// release of that key appends exactly two events, with the same logical key
/// and opposite pressed flags.  Pointer position and held modifiers may
/// change between the two events; neither affects the key identity.
pub proof fn lemma_key_press_release<C>(
    b: BatchView<C>,
    pos1: Vec2<C>,
    held1: ModifierKeys,
    pos2: Vec2<C>,
    held2: ModifierKeys,
    k: HostKey,
)
    requires
        key_mapping(k) is Some,
    ensures
        ({
            let b2 = step(
                step(b, pos1, held1, HostEvent::KeyPressed { key: k }),
                pos2,
                held2,
                HostEvent::KeyReleased { key: k },
            );
            &&& b2.events.len() == b.events.len() + 2
            &&& b2.events[b.events.len() as int] == (GuiEvent::Key::<C> {
                key: key_mapping(k)->Some_0,
                pressed: true,
                modifiers: modifiers_of(held1),
            })
            &&& b2.events[b.events.len() as int + 1] == (GuiEvent::Key::<C> {
                key: key_mapping(k)->Some_0,
                pressed: false,
                modifiers: modifiers_of(held2),
            })
        }),
{
}

/// Law: a key event whose key has no table entry leaves the batch exactly
/// as it was, press or release alike.
pub proof fn lemma_unmapped_key_is_dropped<C>(
    b: BatchView<C>,
    pos: Vec2<C>,
    held: ModifierKeys,
    k: HostKey,
)
    requires
        key_mapping(k) is None,
    ensures
        step(b, pos, held, HostEvent::KeyPressed { key: k }) == b,
        step(b, pos, held, HostEvent::KeyReleased { key: k }) == b,
{
    assert(step(b, pos, held, HostEvent::KeyPressed { key: k }) =~= b);
    assert(step(b, pos, held, HostEvent::KeyReleased { key: k }) =~= b);
}

/// Law: a pointer-button press appends one event whose position is the
/// pointer position queried at translation time — the host event carries no
/// position of its own to draw on.
pub proof fn lemma_pointer_press_uses_live_position<C>(
    b: BatchView<C>,
    pos: Vec2<C>,
    held: ModifierKeys,
    button: HostMouseButton,
)
    ensures
        ({
            let b1 = step(b, pos, held, HostEvent::MouseButtonPressed { button });
            &&& b1.events.len() == b.events.len() + 1
            &&& b1.events.last() == (GuiEvent::PointerButton {
                pos,
                button: button_mapping(button),
                pressed: true,
                modifiers: modifiers_of(held),
            })
        }),
{
}

/// Law: wheel events overwrite the scroll delta, they never accumulate, and
/// they append no event.  After two wheel events in one frame the batch holds
/// exactly the second amount.
pub proof fn lemma_wheel_overwrites<C>(
    b: BatchView<C>,
    pos1: Vec2<C>,
    held1: ModifierKeys,
    amount1: Vec2<C>,
    pos2: Vec2<C>,
    held2: ModifierKeys,
    amount2: Vec2<C>,
)
    ensures
        ({
            let b2 = step(
                step(b, pos1, held1, HostEvent::MouseWheelMoved { amount: amount1 }),
                pos2,
                held2,
                HostEvent::MouseWheelMoved { amount: amount2 },
            );
            &&& b2.scroll_delta == Some(amount2)
            &&& b2.events == b.events
            &&& b2.time_nanos == b.time_nanos
        }),
{
}

} // verus!
