//! Stateless translation of host input events into the engine's native event
//! vocabulary: keyboard events with a fixed virtual-key table, pointer events
//! mapped one-to-one, and line scrolls scaled to pixel deltas.
use vstd::prelude::*;

verus! {

/// Named keys with no literal text, each mapped to a fixed virtual-key code.
#[derive(Clone, Copy, Debug, Eq, PartialEq, Structural)]
pub enum NamedKey {
    Control,
    Shift,
    Enter,
    Tab,
    Space,
    ArrowDown,
    ArrowLeft,
    ArrowRight,
    ArrowUp,
    End,
    Home,
    Backspace,
    Delete,
    Insert,
    Escape,
    F1,
    F2,
    F3,
    F4,
    F5,
    F6,
    F7,
    F8,
    F9,
    F10,
    F11,
    F12,
}

/// The symbolic key of a host keyboard event.
#[derive(Clone, Copy, Debug, Eq, PartialEq, Structural)]
pub enum Key {
    /// A key with a fixed meaning and no literal text.
    Named(NamedKey),
    /// A key that produces the given character on the host layout.
    Character(char),
    /// A key the host could not identify.
    Unidentified,
}

/// The modifier state accompanying a host input event.
#[derive(Clone, Copy, Debug, Eq, PartialEq, Structural)]
pub struct Modifiers {
    pub alt: bool,
    pub control: bool,
    pub logo: bool,
    pub shift: bool,
}

impl Modifiers {
    /// No modifier held.
    pub fn none() -> (r: Modifiers)
        ensures
            r == (Modifiers { alt: false, control: false, logo: false, shift: false }),
    {
        Modifiers { alt: false, control: false, logo: false, shift: false }
    }
}

/// Whether the host key event is a press or a release.
#[derive(Clone, Copy, Debug, Eq, PartialEq, Structural)]
pub enum KeyPress {
    Press,
    Unpress,
}

/// A host keyboard event, already normalized to plain values: the symbolic
/// key, the literal text it produced (if any), the modifier state, and the
/// press direction.
#[derive(Clone, Debug, PartialEq)]
pub struct KeyEvent {
    pub press: KeyPress,
    pub key: Key,
    pub modifiers: Modifiers,
    pub text: Option<String>,
}

/// The engine's virtual-key codes, the targets of the fixed lookup table.
#[derive(Clone, Copy, Debug, Eq, PartialEq, Structural)]
pub enum VirtualKey {
    Control,
    Shift,
    Return,
    Tab,
    Space,
    Down,
    Right,
    Up,
    Left,
    End,
    Home,
    Back,
    Delete,
    Insert,
    Escape,
    F1,
    F2,
    F3,
    F4,
    F5,
    F6,
    F7,
    F8,
    F9,
    F10,
    F11,
    F12,
    A,
    B,
    C,
    D,
    E,
    F,
    G,
    H,
    I,
    J,
    K,
    L,
    M,
    N,
    O,
    P,
    Q,
    R,
    S,
    T,
    U,
    V,
    W,
    X,
    Y,
    Z,
    Key0,
    Key1,
    Key2,
    Key3,
    Key4,
    Key5,
    Key6,
    Key7,
    Key8,
    Key9,
    OemComma,
    OemPeriod,
    OemMinus,
    OemPlus,
    Oem2,
    Oem3,
    Oem4,
    Oem5,
    Oem6,
    Oem102,
}

/// The kind of keyboard event the engine receives.
#[derive(Clone, Copy, Debug, Eq, PartialEq, Structural)]
pub enum KeyEventType {
    /// Character input carrying text.
    Char,
    /// A raw key-down, carrying no character input.
    RawKeyDown,
    /// A key release.
    KeyUp,
}

/// Abstract value of an [`EngineKeyEvent`].
pub ghost struct KeyEventData {
    pub ty: KeyEventType,
    pub modifiers: Modifiers,
    pub virtual_key: VirtualKey,
    pub text: Seq<char>,
}

/// A keyboard event in the engine's vocabulary.
#[derive(Clone, Debug, PartialEq)]
pub struct EngineKeyEvent {
    pub ty: KeyEventType,
    pub modifiers: Modifiers,
    pub virtual_key: VirtualKey,
    pub text: String,
}

impl View for EngineKeyEvent {
    type V = KeyEventData;

    open spec fn view(&self) -> KeyEventData {
        KeyEventData {
            ty: self.ty,
            modifiers: self.modifiers,
            virtual_key: self.virtual_key,
            text: self.text@,
        }
    }
}

/// The fixed virtual-key lookup table. `None` means the key has no mapping
/// and the whole event is dropped.
pub open spec fn virtual_key_of(key: Key) -> Option<VirtualKey> {
    match key {
        Key::Named(n) => Some(named_virtual_key(n)),
        Key::Character(c) => character_virtual_key(c),
        Key::Unidentified => None,
    }
}

/// Every named key has a fixed virtual-key code.
pub open spec fn named_virtual_key(n: NamedKey) -> VirtualKey {
    match n {
        NamedKey::Control => VirtualKey::Control,
        NamedKey::Shift => VirtualKey::Shift,
        NamedKey::Enter => VirtualKey::Return,
        NamedKey::Tab => VirtualKey::Tab,
        NamedKey::Space => VirtualKey::Space,
        NamedKey::ArrowDown => VirtualKey::Down,
        NamedKey::ArrowLeft => VirtualKey::Right,
        NamedKey::ArrowRight => VirtualKey::Up,
        NamedKey::ArrowUp => VirtualKey::Left,
        NamedKey::End => VirtualKey::End,
        NamedKey::Home => VirtualKey::Home,
        NamedKey::Backspace => VirtualKey::Back,
        NamedKey::Delete => VirtualKey::Delete,
        NamedKey::Insert => VirtualKey::Insert,
        NamedKey::Escape => VirtualKey::Escape,
        NamedKey::F1 => VirtualKey::F1,
        NamedKey::F2 => VirtualKey::F2,
        NamedKey::F3 => VirtualKey::F3,
        NamedKey::F4 => VirtualKey::F4,
        NamedKey::F5 => VirtualKey::F5,
        NamedKey::F6 => VirtualKey::F6,
        NamedKey::F7 => VirtualKey::F7,
        NamedKey::F8 => VirtualKey::F8,
        NamedKey::F9 => VirtualKey::F9,
        NamedKey::F10 => VirtualKey::F10,
        NamedKey::F11 => VirtualKey::F11,
        NamedKey::F12 => VirtualKey::F12,
    }
}

/// The character rows of the lookup table; characters outside it map to no
/// event.
pub open spec fn character_virtual_key(c: char) -> Option<VirtualKey> {
    if c == 'a' {
        Some(VirtualKey::A)
    } else if c == 'b' {
        Some(VirtualKey::B)
    } else if c == 'c' {
        Some(VirtualKey::C)
    } else if c == 'd' {
        Some(VirtualKey::D)
    } else if c == 'e' {
        Some(VirtualKey::E)
    } else if c == 'f' {
        Some(VirtualKey::F)
    } else if c == 'g' {
        Some(VirtualKey::G)
    } else if c == 'h' {
        Some(VirtualKey::H)
    } else if c == 'i' {
        Some(VirtualKey::I)
    } else if c == 'j' {
        Some(VirtualKey::J)
    } else if c == 'k' {
        Some(VirtualKey::K)
    } else if c == 'l' {
        Some(VirtualKey::L)
    } else if c == 'm' {
        Some(VirtualKey::M)
    } else if c == 'n' {
        Some(VirtualKey::N)
    } else if c == 'o' {
        Some(VirtualKey::O)
    } else if c == 'p' {
        Some(VirtualKey::P)
    } else if c == 'q' {
        Some(VirtualKey::Q)
    } else if c == 'r' {
        Some(VirtualKey::R)
    } else if c == 's' {
        Some(VirtualKey::S)
    } else if c == 't' {
        Some(VirtualKey::T)
    } else if c == 'u' {
        Some(VirtualKey::U)
    } else if c == 'v' {
        Some(VirtualKey::V)
    } else if c == 'w' {
        Some(VirtualKey::W)
    } else if c == 'x' {
        Some(VirtualKey::X)
    } else if c == 'y' {
        Some(VirtualKey::Y)
    } else if c == 'z' {
        Some(VirtualKey::Z)
    } else if c == '0' {
        Some(VirtualKey::Key0)
    } else if c == '1' {
        Some(VirtualKey::Key1)
    } else if c == '2' {
        Some(VirtualKey::Key2)
    } else if c == '3' {
        Some(VirtualKey::Key3)
    } else if c == '4' {
        Some(VirtualKey::Key4)
    } else if c == '5' {
        Some(VirtualKey::Key5)
    } else if c == '6' {
        Some(VirtualKey::Key6)
    } else if c == '7' {
        Some(VirtualKey::Key7)
    } else if c == '8' {
        Some(VirtualKey::Key8)
    } else if c == '9' {
        Some(VirtualKey::Key9)
    } else if c == ',' {
        Some(VirtualKey::OemComma)
    } else if c == '.' {
        Some(VirtualKey::OemPeriod)
    } else if c == ';' {
        Some(VirtualKey::OemPeriod)
    } else if c == '-' {
        Some(VirtualKey::OemMinus)
    } else if c == '_' {
        Some(VirtualKey::OemMinus)
    } else if c == '+' {
        Some(VirtualKey::OemPlus)
    } else if c == '=' {
        Some(VirtualKey::OemPlus)
    } else if c == '\\' {
        Some(VirtualKey::Oem5)
    } else if c == '|' {
        Some(VirtualKey::Oem5)
    } else if c == '`' {
        Some(VirtualKey::Oem3)
    } else if c == '?' {
        Some(VirtualKey::Oem2)
    } else if c == '/' {
        Some(VirtualKey::Oem2)
    } else if c == '>' {
        Some(VirtualKey::Oem102)
    } else if c == '<' {
        Some(VirtualKey::Oem102)
    } else if c == '[' {
        Some(VirtualKey::Oem4)
    } else if c == ']' {
        Some(VirtualKey::Oem6)
    } else {
        None
    }
}

/// The text payload of the translated event: taken from the literal-text
/// field for character keys, fixed for the named keys (a single space for
/// the space bar, empty for the rest).
pub open spec fn key_text(key: Key, text: Option<Seq<char>>) -> Seq<char> {
    match key {
        Key::Named(n) => if n == NamedKey::Space {
            seq![' ']
        } else {
            Seq::empty()
        },
        Key::Character(_) => match text {
            Some(t) => t,
            None => Seq::empty(),
        },
        Key::Unidentified => Seq::empty(),
    }
}

/// The kind of event the engine receives: a held control modifier always
/// produces a raw key-down; otherwise non-empty ASCII text on a press is
/// character input, and anything else is a plain key-down or key-up.
pub open spec fn engine_event_type(press: KeyPress, modifiers: Modifiers, text: Seq<char>) -> KeyEventType {
    if modifiers.control {
        KeyEventType::RawKeyDown
    } else if text.len() > 0 && vstd::utf8::is_ascii_chars(text) && press == KeyPress::Press {
        KeyEventType::Char
    } else if press == KeyPress::Press {
        KeyEventType::RawKeyDown
    } else {
        KeyEventType::KeyUp
    }
}

/// The whole keyboard translation: `None` exactly when the key has no entry
/// in the table; otherwise the virtual key from the table, the text payload,
/// and the event kind derived from them. Under a held control modifier the
/// key is a command, not character input: the event is a raw key-down and
/// carries no text.
pub open spec fn spec_translate_key(
    press: KeyPress,
    key: Key,
    modifiers: Modifiers,
    text: Option<Seq<char>>,
) -> Option<KeyEventData> {
    match virtual_key_of(key) {
        None => None,
        Some(vk) => Some(
            KeyEventData {
                ty: engine_event_type(press, modifiers, key_text(key, text)),
                modifiers,
                virtual_key: vk,
                text: if modifiers.control {
                    Seq::empty()
                } else {
                    key_text(key, text)
                },
            },
        ),
    }
}

/// The literal text of a host key event, as an abstract value.
pub open spec fn text_view(text: Option<String>) -> Option<Seq<char>> {
    match text {
        Some(t) => Some(t@),
        None => None,
    }
}

/// The virtual-key lookup, executably.
pub fn virtual_key_for(key: &Key) -> (r: Option<VirtualKey>)
    ensures
        r == virtual_key_of(*key),
{
    match key {
        Key::Named(n) => Some(
            match n {
                NamedKey::Control => VirtualKey::Control,
                NamedKey::Shift => VirtualKey::Shift,
                NamedKey::Enter => VirtualKey::Return,
                NamedKey::Tab => VirtualKey::Tab,
                NamedKey::Space => VirtualKey::Space,
                NamedKey::ArrowDown => VirtualKey::Down,
                NamedKey::ArrowLeft => VirtualKey::Right,
                NamedKey::ArrowRight => VirtualKey::Up,
                NamedKey::ArrowUp => VirtualKey::Left,
                NamedKey::End => VirtualKey::End,
                NamedKey::Home => VirtualKey::Home,
                NamedKey::Backspace => VirtualKey::Back,
                NamedKey::Delete => VirtualKey::Delete,
                NamedKey::Insert => VirtualKey::Insert,
                NamedKey::Escape => VirtualKey::Escape,
                NamedKey::F1 => VirtualKey::F1,
                NamedKey::F2 => VirtualKey::F2,
                NamedKey::F3 => VirtualKey::F3,
                NamedKey::F4 => VirtualKey::F4,
                NamedKey::F5 => VirtualKey::F5,
                NamedKey::F6 => VirtualKey::F6,
                NamedKey::F7 => VirtualKey::F7,
                NamedKey::F8 => VirtualKey::F8,
                NamedKey::F9 => VirtualKey::F9,
                NamedKey::F10 => VirtualKey::F10,
                NamedKey::F11 => VirtualKey::F11,
                NamedKey::F12 => VirtualKey::F12,
            },
        ),
        Key::Character(c) => match c {
            'a' => Some(VirtualKey::A),
            'b' => Some(VirtualKey::B),
            'c' => Some(VirtualKey::C),
            'd' => Some(VirtualKey::D),
            'e' => Some(VirtualKey::E),
            'f' => Some(VirtualKey::F),
            'g' => Some(VirtualKey::G),
            'h' => Some(VirtualKey::H),
            'i' => Some(VirtualKey::I),
            'j' => Some(VirtualKey::J),
            'k' => Some(VirtualKey::K),
            'l' => Some(VirtualKey::L),
            'm' => Some(VirtualKey::M),
            'n' => Some(VirtualKey::N),
            'o' => Some(VirtualKey::O),
            'p' => Some(VirtualKey::P),
            'q' => Some(VirtualKey::Q),
            'r' => Some(VirtualKey::R),
            's' => Some(VirtualKey::S),
            't' => Some(VirtualKey::T),
            'u' => Some(VirtualKey::U),
            'v' => Some(VirtualKey::V),
            'w' => Some(VirtualKey::W),
            'x' => Some(VirtualKey::X),
            'y' => Some(VirtualKey::Y),
            'z' => Some(VirtualKey::Z),
            '0' => Some(VirtualKey::Key0),
            '1' => Some(VirtualKey::Key1),
            '2' => Some(VirtualKey::Key2),
            '3' => Some(VirtualKey::Key3),
            '4' => Some(VirtualKey::Key4),
            '5' => Some(VirtualKey::Key5),
            '6' => Some(VirtualKey::Key6),
            '7' => Some(VirtualKey::Key7),
            '8' => Some(VirtualKey::Key8),
            '9' => Some(VirtualKey::Key9),
            ',' => Some(VirtualKey::OemComma),
            '.' => Some(VirtualKey::OemPeriod),
            ';' => Some(VirtualKey::OemPeriod),
            '-' => Some(VirtualKey::OemMinus),
            '_' => Some(VirtualKey::OemMinus),
            '+' => Some(VirtualKey::OemPlus),
            '=' => Some(VirtualKey::OemPlus),
            '\\' => Some(VirtualKey::Oem5),
            '|' => Some(VirtualKey::Oem5),
            '`' => Some(VirtualKey::Oem3),
            '?' => Some(VirtualKey::Oem2),
            '/' => Some(VirtualKey::Oem2),
            '>' => Some(VirtualKey::Oem102),
            '<' => Some(VirtualKey::Oem102),
            '[' => Some(VirtualKey::Oem4),
            ']' => Some(VirtualKey::Oem6),
            _ => None,
        },
        Key::Unidentified => None,
    }
}

/// Translates one host keyboard event into the engine's vocabulary, or drops
/// it when the key has no mapping.
pub fn translate_key(event: &KeyEvent) -> (r: Option<EngineKeyEvent>)
    ensures
        r is Some <==> spec_translate_key(event.press, event.key, event.modifiers, text_view(event.text)) is Some,
        r matches Some(e) ==> Some(e@) == spec_translate_key(
            event.press,
            event.key,
            event.modifiers,
            text_view(event.text),
        ),
{
    let vk = match virtual_key_for(&event.key) {
        Some(vk) => vk,
        None => {
            return None;
        },
    };
    let text: String = match &event.key {
        Key::Named(n) => if *n == NamedKey::Space {
            let s = " ".to_owned();
            proof {
                reveal_strlit(" ");
                assert(s@ =~= seq![' ']);
            }
            s
        } else {
            String::new()
        },
        Key::Character(_) => match &event.text {
            Some(t) => t.clone(),
            None => String::new(),
        },
        Key::Unidentified => String::new(),
    };
    if event.modifiers.control {
        // a control chord is a command, not character input
        return Some(
            EngineKeyEvent {
                ty: KeyEventType::RawKeyDown,
                modifiers: event.modifiers,
                virtual_key: vk,
                text: String::new(),
            },
        );
    }
    let ty = if !text.as_str().is_empty() && text.as_str().is_ascii() && event.press
        == KeyPress::Press {
        KeyEventType::Char
    } else if event.press == KeyPress::Press {
        KeyEventType::RawKeyDown
    } else {
        KeyEventType::KeyUp
    };
    Some(EngineKeyEvent { ty, modifiers: event.modifiers, virtual_key: vk, text })
}

/// A pointer button on the host side.
#[derive(Clone, Copy, Debug, Eq, PartialEq, Structural)]
pub enum MouseButton {
    Left,
    Right,
    Middle,
    Back,
    Forward,
    Other,
}

/// A scroll amount, in lines or directly in pixels.
#[derive(Clone, Copy, Debug, Eq, PartialEq, Structural)]
pub enum ScrollDelta {
    Lines { x: i32, y: i32 },
    Pixels { x: i32, y: i32 },
}

/// A host pointer event, with coordinates already relative to the view.
#[derive(Clone, Copy, Debug, Eq, PartialEq, Structural)]
pub enum MouseEvent {
    ButtonPressed(MouseButton, i32, i32),
    ButtonReleased(MouseButton, i32, i32),
    CursorMoved(i32, i32),
    CursorEntered,
    CursorLeft,
    WheelScrolled(ScrollDelta),
}

/// A pointer button in the engine's vocabulary.
#[derive(Clone, Copy, Debug, Eq, PartialEq, Structural)]
pub enum EngineMouseButton {
    NoButton,
    Left,
    Right,
}

/// The kind of pointer event the engine receives.
#[derive(Clone, Copy, Debug, Eq, PartialEq, Structural)]
pub enum MouseEventType {
    MouseDown,
    MouseUp,
    MouseMoved,
}

/// A pointer event in the engine's vocabulary.
#[derive(Clone, Copy, Debug, Eq, PartialEq, Structural)]
pub struct EngineMouseEvent {
    pub ty: MouseEventType,
    pub x: i32,
    pub y: i32,
    pub button: EngineMouseButton,
}

/// What the session should do with a host pointer event.
#[derive(Clone, Copy, Debug, Eq, PartialEq, Structural)]
pub enum PointerOutcome {
    /// Forward this event to the engine.
    Deliver(EngineMouseEvent),
    /// The forward button maps to history navigation, not a pointer event.
    HistoryForward,
    /// The back button maps to history navigation, not a pointer event.
    HistoryBack,
    /// Remember the pointer position; it is replayed before each paint.
    TrackPosition(i32, i32),
    /// The pointer entered the view: focus the engine.
    Focus,
    /// The pointer left the view: unfocus the engine.
    Unfocus,
    /// Scroll by the given pixel deltas.
    ScrollBy(i32, i32),
    /// The event has no engine equivalent and is dropped.
    Ignore,
}

/// `v * 100`, clamped into the `i32` range.
pub open spec fn scale_line_delta(v: int) -> int {
    let scaled = v * 100;
    if scaled < i32::MIN {
        i32::MIN as int
    } else if scaled > i32::MAX {
        i32::MAX as int
    } else {
        scaled
    }
}

/// The pixel deltas a scroll event is forwarded with: line scrolls are scaled
/// by a fixed multiplier of one hundred pixels per line, pixel scrolls pass
/// through unchanged.
pub open spec fn spec_scroll_pixels(delta: ScrollDelta) -> (int, int) {
    match delta {
        ScrollDelta::Lines { x, y } => (scale_line_delta(x as int), scale_line_delta(y as int)),
        ScrollDelta::Pixels { x, y } => (x as int, y as int),
    }
}

/// The pointer translation: buttons map one-to-one, the forward and back
/// buttons map to history navigation, motion is tracked, and scrolls are
/// scaled to pixels.
pub open spec fn spec_translate_mouse(event: MouseEvent) -> PointerOutcome {
    match event {
        MouseEvent::ButtonPressed(MouseButton::Left, x, y) => PointerOutcome::Deliver(
            EngineMouseEvent { ty: MouseEventType::MouseDown, x, y, button: EngineMouseButton::Left },
        ),
        MouseEvent::ButtonReleased(MouseButton::Left, x, y) => PointerOutcome::Deliver(
            EngineMouseEvent { ty: MouseEventType::MouseUp, x, y, button: EngineMouseButton::Left },
        ),
        MouseEvent::ButtonPressed(MouseButton::Right, x, y) => PointerOutcome::Deliver(
            EngineMouseEvent { ty: MouseEventType::MouseDown, x, y, button: EngineMouseButton::Right },
        ),
        MouseEvent::ButtonReleased(MouseButton::Right, x, y) => PointerOutcome::Deliver(
            EngineMouseEvent { ty: MouseEventType::MouseUp, x, y, button: EngineMouseButton::Right },
        ),
        MouseEvent::ButtonReleased(MouseButton::Forward, _, _) => PointerOutcome::HistoryForward,
        MouseEvent::ButtonReleased(MouseButton::Back, _, _) => PointerOutcome::HistoryBack,
        MouseEvent::CursorMoved(x, y) => PointerOutcome::TrackPosition(x, y),
        MouseEvent::CursorEntered => PointerOutcome::Focus,
        MouseEvent::CursorLeft => PointerOutcome::Unfocus,
        MouseEvent::WheelScrolled(delta) => PointerOutcome::ScrollBy(
            spec_scroll_pixels(delta).0 as i32,
            spec_scroll_pixels(delta).1 as i32,
        ),
        _ => PointerOutcome::Ignore,
    }
}

/// One scroll component scaled from lines to pixels, saturating at the `i32`
/// bounds.
pub fn scale_lines(v: i32) -> (r: i32)
    ensures
        r as int == scale_line_delta(v as int),
{
    match v.checked_mul(100) {
        Some(r) => r,
        None => {
            proof {
                if v >= 0 {
                    assert(v as int * 100 >= 0) by (nonlinear_arith)
                        requires
                            (v as int) >= 0,
                    ;
                } else {
                    assert(v as int * 100 < 0) by (nonlinear_arith)
                        requires
                            (v as int) < 0,
                    ;
                }
            }
            if v > 0 {
                i32::MAX
            } else {
                i32::MIN
            }
        },
    }
}

/// The scroll deltas in pixels, executably.
pub fn scroll_pixels(delta: &ScrollDelta) -> (r: (i32, i32))
    ensures
        (r.0 as int, r.1 as int) == spec_scroll_pixels(*delta),
{
    match delta {
        ScrollDelta::Lines { x, y } => (scale_lines(*x), scale_lines(*y)),
        ScrollDelta::Pixels { x, y } => (*x, *y),
    }
}

/// Translates one host pointer event into what the session should do with
/// it.
pub fn translate_mouse(event: &MouseEvent) -> (r: PointerOutcome)
    ensures
        r == spec_translate_mouse(*event),
{
    match event {
        MouseEvent::ButtonPressed(MouseButton::Left, x, y) => PointerOutcome::Deliver(
            EngineMouseEvent {
                ty: MouseEventType::MouseDown,
                x: *x,
                y: *y,
                button: EngineMouseButton::Left,
            },
        ),
        MouseEvent::ButtonReleased(MouseButton::Left, x, y) => PointerOutcome::Deliver(
            EngineMouseEvent {
                ty: MouseEventType::MouseUp,
                x: *x,
                y: *y,
                button: EngineMouseButton::Left,
            },
        ),
        MouseEvent::ButtonPressed(MouseButton::Right, x, y) => PointerOutcome::Deliver(
            EngineMouseEvent {
                ty: MouseEventType::MouseDown,
                x: *x,
                y: *y,
                button: EngineMouseButton::Right,
            },
        ),
        MouseEvent::ButtonReleased(MouseButton::Right, x, y) => PointerOutcome::Deliver(
            EngineMouseEvent {
                ty: MouseEventType::MouseUp,
                x: *x,
                y: *y,
                button: EngineMouseButton::Right,
            },
        ),
        MouseEvent::ButtonReleased(MouseButton::Forward, _, _) => PointerOutcome::HistoryForward,
        MouseEvent::ButtonReleased(MouseButton::Back, _, _) => PointerOutcome::HistoryBack,
        MouseEvent::CursorMoved(x, y) => PointerOutcome::TrackPosition(*x, *y),
        MouseEvent::CursorEntered => PointerOutcome::Focus,
        MouseEvent::CursorLeft => PointerOutcome::Unfocus,
        MouseEvent::WheelScrolled(delta) => {
            let px = scroll_pixels(delta);
            PointerOutcome::ScrollBy(px.0, px.1)
        },
        _ => PointerOutcome::Ignore,
    }
}

} // verus!
