//! Value types for window events: keys, key and mouse events, cursor
//! states.
//!
//! The host reports keyboard and mouse input with small integer codes and
//! flag words; the types here carry them as typed values, with the
//! conversions from the raw codes.

use vstd::prelude::*;

use crate::geometry::Point;

verus! {

/// Cursor states that windows can apply
#[derive(Debug, Clone, Copy, PartialEq, Eq, Structural)]
pub enum Cursor {
    /// The host draws the default cursor
    Default,
    /// The host draws an arrow cursor (not any other cursor type)
    Arrow,
    /// The host hides the cursor; the plugin should draw its own
    Hidden,
}

impl Cursor {
    /// Converts this cursor into the host's cursor status code
    pub fn as_xplm(&self) -> (r: i32)
        ensures
            r == (match *self {
                Cursor::Default => 0i32,
                Cursor::Arrow => 2i32,
                Cursor::Hidden => 1i32,
            }),
    {
        match *self {
            Cursor::Default => 0,
            Cursor::Arrow => 2,
            Cursor::Hidden => 1,
        }
    }
}

impl Default for Cursor {
    /// The default cursor state lets the host draw its default cursor
    fn default() -> (r: Self)
        ensures
            r == Cursor::Default,
    {
        Cursor::Default
    }
}

/// Key flag bit: a shift key was down
pub const KEY_FLAG_SHIFT: i32 = 1;
/// Key flag bit: the option/alt key was down
pub const KEY_FLAG_OPTION_ALT: i32 = 2;
/// Key flag bit: the control key was down
pub const KEY_FLAG_CONTROL: i32 = 4;
/// Key flag bit: the key was pressed down
pub const KEY_FLAG_DOWN: i32 = 8;
/// Key flag bit: the key was released
pub const KEY_FLAG_UP: i32 = 16;

/// Defines modifier keys that may be pressed
#[derive(Debug, Clone, Copy, PartialEq, Eq, Structural)]
pub struct ModifierKeys {
    /// If a shift key is pressed
    pub shift: bool,
    /// If the option/alt key is pressed
    pub option: bool,
    /// If the control key is pressed
    pub control: bool,
}

impl ModifierKeys {
    /// Reads the modifier keys out of a host key flag word
    pub fn from_flags(flags: i32) -> (r: ModifierKeys)
        ensures
            r.shift == (flags & KEY_FLAG_SHIFT != 0),
            r.option == (flags & KEY_FLAG_OPTION_ALT != 0),
            r.control == (flags & KEY_FLAG_CONTROL != 0),
    {
        ModifierKeys {
            shift: flags & KEY_FLAG_SHIFT != 0,
            option: flags & KEY_FLAG_OPTION_ALT != 0,
            control: flags & KEY_FLAG_CONTROL != 0,
        }
    }
}

/// Key actions
#[derive(Debug, Clone, Copy, PartialEq, Eq, Structural)]
pub enum KeyAction {
    /// The key was pressed down
    Press,
    /// The key was released
    Release,
}

/// Keys that may be pressed
#[derive(Debug, Clone, Copy, PartialEq, Eq, Structural)]
pub enum Key {
    Back,
    Tab,
    Clear,
    Return,
    Escape,
    Space,
    Prior,
    Next,
    End,
    Home,
    Left,
    Up,
    Right,
    Down,
    Select,
    Print,
    Execute,
    Snapshot,
    Insert,
    Delete,
    Help,
    Key0,
    Key1,
    Key2,
    Key3,
    Key4,
    Key5,
    Key6,
    Key7,
    Key8,
    Key9,
    A,
    B,
    C,
    D,
    E,
    F,
    G,
    H,
    I,
    J,
    K,
    L,
    M,
    N,
    O,
    P,
    Q,
    R,
    S,
    T,
    U,
    V,
    W,
    X,
    Y,
    Z,
    Numpad0,
    Numpad1,
    Numpad2,
    Numpad3,
    Numpad4,
    Numpad5,
    Numpad6,
    Numpad7,
    Numpad8,
    Numpad9,
    Multiply,
    Add,
    Separator,
    Subtract,
    Decimal,
    Divide,
    F1,
    F2,
    F3,
    F4,
    F5,
    F6,
    F7,
    F8,
    F9,
    F10,
    F11,
    F12,
    F13,
    F14,
    F15,
    F16,
    F17,
    F18,
    F19,
    F20,
    F21,
    F22,
    F23,
    F24,
    Equal,
    Minus,
    ClosingBrace,
    OpeningBrace,
    Quote,
    Semicolon,
    Backslash,
    Comma,
    Slash,
    Period,
    Backquote,
    Enter,
    NumpadEnter,
    NumpadEqual,
}

impl Key {
    /// The key a host virtual key code names, if any
    pub open spec fn spec_from_xplm(xplm_key: u8) -> Option<Key> {
        match xplm_key {
            8u8 => Some(Key::Back),
            9u8 => Some(Key::Tab),
            12u8 => Some(Key::Clear),
            13u8 => Some(Key::Return),
            27u8 => Some(Key::Escape),
            32u8 => Some(Key::Space),
            33u8 => Some(Key::Prior),
            34u8 => Some(Key::Next),
            35u8 => Some(Key::End),
            36u8 => Some(Key::Home),
            37u8 => Some(Key::Left),
            38u8 => Some(Key::Up),
            39u8 => Some(Key::Right),
            40u8 => Some(Key::Down),
            41u8 => Some(Key::Select),
            42u8 => Some(Key::Print),
            43u8 => Some(Key::Execute),
            44u8 => Some(Key::Snapshot),
            45u8 => Some(Key::Insert),
            46u8 => Some(Key::Delete),
            47u8 => Some(Key::Help),
            48u8 => Some(Key::Key0),
            49u8 => Some(Key::Key1),
            50u8 => Some(Key::Key2),
            51u8 => Some(Key::Key3),
            52u8 => Some(Key::Key4),
            53u8 => Some(Key::Key5),
            54u8 => Some(Key::Key6),
            55u8 => Some(Key::Key7),
            56u8 => Some(Key::Key8),
            57u8 => Some(Key::Key9),
            65u8 => Some(Key::A),
            66u8 => Some(Key::B),
            67u8 => Some(Key::C),
            68u8 => Some(Key::D),
            69u8 => Some(Key::E),
            70u8 => Some(Key::F),
            71u8 => Some(Key::G),
            72u8 => Some(Key::H),
            73u8 => Some(Key::I),
            74u8 => Some(Key::J),
            75u8 => Some(Key::K),
            76u8 => Some(Key::L),
            77u8 => Some(Key::M),
            78u8 => Some(Key::N),
            79u8 => Some(Key::O),
            80u8 => Some(Key::P),
            81u8 => Some(Key::Q),
            82u8 => Some(Key::R),
            83u8 => Some(Key::S),
            84u8 => Some(Key::T),
            85u8 => Some(Key::U),
            86u8 => Some(Key::V),
            87u8 => Some(Key::W),
            88u8 => Some(Key::X),
            89u8 => Some(Key::Y),
            90u8 => Some(Key::Z),
            96u8 => Some(Key::Numpad0),
            97u8 => Some(Key::Numpad1),
            98u8 => Some(Key::Numpad2),
            99u8 => Some(Key::Numpad3),
            100u8 => Some(Key::Numpad4),
            101u8 => Some(Key::Numpad5),
            102u8 => Some(Key::Numpad6),
            103u8 => Some(Key::Numpad7),
            104u8 => Some(Key::Numpad8),
            105u8 => Some(Key::Numpad9),
            106u8 => Some(Key::Multiply),
            107u8 => Some(Key::Add),
            108u8 => Some(Key::Separator),
            109u8 => Some(Key::Subtract),
            110u8 => Some(Key::Decimal),
            111u8 => Some(Key::Divide),
            112u8 => Some(Key::F1),
            113u8 => Some(Key::F2),
            114u8 => Some(Key::F3),
            115u8 => Some(Key::F4),
            116u8 => Some(Key::F5),
            117u8 => Some(Key::F6),
            118u8 => Some(Key::F7),
            119u8 => Some(Key::F8),
            120u8 => Some(Key::F9),
            121u8 => Some(Key::F10),
            122u8 => Some(Key::F11),
            123u8 => Some(Key::F12),
            124u8 => Some(Key::F13),
            125u8 => Some(Key::F14),
            126u8 => Some(Key::F15),
            127u8 => Some(Key::F16),
            128u8 => Some(Key::F17),
            129u8 => Some(Key::F18),
            130u8 => Some(Key::F19),
            131u8 => Some(Key::F20),
            132u8 => Some(Key::F21),
            133u8 => Some(Key::F22),
            134u8 => Some(Key::F23),
            135u8 => Some(Key::F24),
            176u8 => Some(Key::Equal),
            177u8 => Some(Key::Minus),
            178u8 => Some(Key::ClosingBrace),
            179u8 => Some(Key::OpeningBrace),
            180u8 => Some(Key::Quote),
            181u8 => Some(Key::Semicolon),
            182u8 => Some(Key::Backslash),
            183u8 => Some(Key::Comma),
            184u8 => Some(Key::Slash),
            185u8 => Some(Key::Period),
            186u8 => Some(Key::Backquote),
            187u8 => Some(Key::Enter),
            188u8 => Some(Key::NumpadEnter),
            189u8 => Some(Key::NumpadEqual),
            _ => None,
        }
    }

    /// Converts a host virtual key code into a Key
    pub fn from_xplm(xplm_key: u8) -> (r: Option<Self>)
        ensures
            r == Key::spec_from_xplm(xplm_key),
    {
        match xplm_key {
            8u8 => Some(Key::Back),
            9u8 => Some(Key::Tab),
            12u8 => Some(Key::Clear),
            13u8 => Some(Key::Return),
            27u8 => Some(Key::Escape),
            32u8 => Some(Key::Space),
            33u8 => Some(Key::Prior),
            34u8 => Some(Key::Next),
            35u8 => Some(Key::End),
            36u8 => Some(Key::Home),
            37u8 => Some(Key::Left),
            38u8 => Some(Key::Up),
            39u8 => Some(Key::Right),
            40u8 => Some(Key::Down),
            41u8 => Some(Key::Select),
            42u8 => Some(Key::Print),
            43u8 => Some(Key::Execute),
            44u8 => Some(Key::Snapshot),
            45u8 => Some(Key::Insert),
            46u8 => Some(Key::Delete),
            47u8 => Some(Key::Help),
            48u8 => Some(Key::Key0),
            49u8 => Some(Key::Key1),
            50u8 => Some(Key::Key2),
            51u8 => Some(Key::Key3),
            52u8 => Some(Key::Key4),
            53u8 => Some(Key::Key5),
            54u8 => Some(Key::Key6),
            55u8 => Some(Key::Key7),
            56u8 => Some(Key::Key8),
            57u8 => Some(Key::Key9),
            65u8 => Some(Key::A),
            66u8 => Some(Key::B),
            67u8 => Some(Key::C),
            68u8 => Some(Key::D),
            69u8 => Some(Key::E),
            70u8 => Some(Key::F),
            71u8 => Some(Key::G),
            72u8 => Some(Key::H),
            73u8 => Some(Key::I),
            74u8 => Some(Key::J),
            75u8 => Some(Key::K),
            76u8 => Some(Key::L),
            77u8 => Some(Key::M),
            78u8 => Some(Key::N),
            79u8 => Some(Key::O),
            80u8 => Some(Key::P),
            81u8 => Some(Key::Q),
            82u8 => Some(Key::R),
            83u8 => Some(Key::S),
            84u8 => Some(Key::T),
            85u8 => Some(Key::U),
            86u8 => Some(Key::V),
            87u8 => Some(Key::W),
            88u8 => Some(Key::X),
            89u8 => Some(Key::Y),
            90u8 => Some(Key::Z),
            96u8 => Some(Key::Numpad0),
            97u8 => Some(Key::Numpad1),
            98u8 => Some(Key::Numpad2),
            99u8 => Some(Key::Numpad3),
            100u8 => Some(Key::Numpad4),
            101u8 => Some(Key::Numpad5),
            102u8 => Some(Key::Numpad6),
            103u8 => Some(Key::Numpad7),
            104u8 => Some(Key::Numpad8),
            105u8 => Some(Key::Numpad9),
            106u8 => Some(Key::Multiply),
            107u8 => Some(Key::Add),
            108u8 => Some(Key::Separator),
            109u8 => Some(Key::Subtract),
            110u8 => Some(Key::Decimal),
            111u8 => Some(Key::Divide),
            112u8 => Some(Key::F1),
            113u8 => Some(Key::F2),
            114u8 => Some(Key::F3),
            115u8 => Some(Key::F4),
            116u8 => Some(Key::F5),
            117u8 => Some(Key::F6),
            118u8 => Some(Key::F7),
            119u8 => Some(Key::F8),
            120u8 => Some(Key::F9),
            121u8 => Some(Key::F10),
            122u8 => Some(Key::F11),
            123u8 => Some(Key::F12),
            124u8 => Some(Key::F13),
            125u8 => Some(Key::F14),
            126u8 => Some(Key::F15),
            127u8 => Some(Key::F16),
            128u8 => Some(Key::F17),
            129u8 => Some(Key::F18),
            130u8 => Some(Key::F19),
            131u8 => Some(Key::F20),
            132u8 => Some(Key::F21),
            133u8 => Some(Key::F22),
            134u8 => Some(Key::F23),
            135u8 => Some(Key::F24),
            176u8 => Some(Key::Equal),
            177u8 => Some(Key::Minus),
            178u8 => Some(Key::ClosingBrace),
            179u8 => Some(Key::OpeningBrace),
            180u8 => Some(Key::Quote),
            181u8 => Some(Key::Semicolon),
            182u8 => Some(Key::Backslash),
            183u8 => Some(Key::Comma),
            184u8 => Some(Key::Slash),
            185u8 => Some(Key::Period),
            186u8 => Some(Key::Backquote),
            187u8 => Some(Key::Enter),
            188u8 => Some(Key::NumpadEnter),
            189u8 => Some(Key::NumpadEqual),
            _ => None,
        }
    }
}

/// Key event creation errors
#[derive(Debug, Clone, Copy, PartialEq, Eq, Structural)]
pub enum KeyEventError {
    /// The event's flags marked it neither a press nor a release
    InvalidFlags(i32),
    /// The event's virtual key code names no known key
    InvalidKey(u8),
}

/// An event associated with a key press
#[derive(Debug, Clone, Copy, PartialEq, Eq, Structural)]
pub struct KeyEvent {
    /// A character representing the key
    pub basic_char: Option<char>,
    /// The key
    pub key: Key,
    /// The action
    pub action: KeyAction,
    /// If the control key was pressed
    pub control_pressed: bool,
    /// If the option/alt key was pressed
    pub option_pressed: bool,
    /// If the shift key was pressed
    pub shift_pressed: bool,
}

impl KeyEvent {
    /// The printable character a key byte stands for, if any: tab, or a
    /// printable byte from space through tilde
    pub open spec fn spec_basic_char(key: u8) -> Option<char> {
        if key == 9 || (32 <= key && key <= 126) {
            Some(key as char)
        } else {
            None
        }
    }

    /// Creates a key event from the host's key information: the key byte,
    /// the flag word, and the virtual key code
    pub fn from_xplm(key: u8, flags: i32, virtual_key: u8) -> (r: Result<Self, KeyEventError>)
        ensures
            match r {
                Ok(e) => (flags & KEY_FLAG_DOWN != 0 || flags & KEY_FLAG_UP != 0)
                    && Key::spec_from_xplm(virtual_key) is Some && e == (KeyEvent {
                    basic_char: KeyEvent::spec_basic_char(key),
                    key: Key::spec_from_xplm(virtual_key)->Some_0,
                    action: if flags & KEY_FLAG_DOWN != 0 {
                        KeyAction::Press
                    } else {
                        KeyAction::Release
                    },
                    control_pressed: flags & KEY_FLAG_CONTROL != 0,
                    option_pressed: flags & KEY_FLAG_OPTION_ALT != 0,
                    shift_pressed: flags & KEY_FLAG_SHIFT != 0,
                }),
                Err(KeyEventError::InvalidFlags(f)) => f == flags && flags & KEY_FLAG_DOWN == 0
                    && flags & KEY_FLAG_UP == 0,
                Err(KeyEventError::InvalidKey(k)) => k == virtual_key && (flags & KEY_FLAG_DOWN != 0
                    || flags & KEY_FLAG_UP != 0) && Key::spec_from_xplm(virtual_key) is None,
            },
    {
        let basic_char: Option<char> = if key == 9 || (32 <= key && key <= 126) {
            Some(key as char)
        } else {
            None
        };
        let action = if flags & KEY_FLAG_DOWN != 0 {
            KeyAction::Press
        } else if flags & KEY_FLAG_UP != 0 {
            KeyAction::Release
        } else {
            return Err(KeyEventError::InvalidFlags(flags));
        };
        let control_pressed = flags & KEY_FLAG_CONTROL != 0;
        let shift_pressed = flags & KEY_FLAG_SHIFT != 0;
        let option_pressed = flags & KEY_FLAG_OPTION_ALT != 0;
        let key = match Key::from_xplm(virtual_key) {
            Some(key) => key,
            None => {
                return Err(KeyEventError::InvalidKey(virtual_key));
            },
        };
        Ok(
            KeyEvent {
                basic_char,
                key,
                action,
                control_pressed,
                option_pressed,
                shift_pressed,
            },
        )
    }

    /// Returns the character corresponding to the key associated with
    /// this event, if one exists.
    ///
    /// Some key combinations, including combinations with non-Shift
    /// modifiers, may not have corresponding characters.
    pub fn char(&self) -> (r: Option<char>)
        ensures
            r == self.basic_char,
    {
        self.basic_char
    }

    /// Returns the key associated with this event
    pub fn key(&self) -> (r: Key)
        ensures
            r == self.key,
    {
        self.key
    }

    /// Returns true if the control key was held down when the action
    /// occurred
    pub fn control_pressed(&self) -> (r: bool)
        ensures
            r == self.control_pressed,
    {
        self.control_pressed
    }

    /// Returns true if the option/alt key was held down when the action
    /// occurred
    pub fn option_pressed(&self) -> (r: bool)
        ensures
            r == self.option_pressed,
    {
        self.option_pressed
    }

    /// Returns true if a shift key was held down when the action occurred
    pub fn shift_pressed(&self) -> (r: bool)
        ensures
            r == self.shift_pressed,
    {
        self.shift_pressed
    }

    /// Returns the key action that occurred
    pub fn action(&self) -> (r: KeyAction)
        ensures
            r == self.action,
    {
        self.action
    }
}

/// Actions that the mouse/cursor can perform
#[derive(Debug, Clone, Copy, PartialEq, Eq, Structural)]
pub enum MouseAction {
    /// The user pressed the mouse button down
    Down,
    /// The user moved the mouse with the mouse button down
    Drag,
    /// The user released the mouse button
    Up,
}

impl MouseAction {
    /// Converts the host's mouse status code into a mouse action
    pub fn from_xplm(status: i32) -> (r: Option<MouseAction>)
        ensures
            r == (if status == 1 {
                Some(MouseAction::Down)
            } else if status == 2 {
                Some(MouseAction::Drag)
            } else if status == 3 {
                Some(MouseAction::Up)
            } else {
                None::<MouseAction>
            }),
    {
        if status == 1 {
            Some(MouseAction::Down)
        } else if status == 2 {
            Some(MouseAction::Drag)
        } else if status == 3 {
            Some(MouseAction::Up)
        } else {
            None
        }
    }
}

/// A mouse event
#[derive(Debug, Clone, Copy)]
pub struct MouseEvent {
    /// The position of the mouse, in global window coordinates
    pub position: Point<i32>,
    /// The action of the mouse
    pub action: MouseAction,
}

impl MouseEvent {
    /// Creates a new event
    pub fn new(position: Point<i32>, action: MouseAction) -> (r: Self)
        ensures
            r.position == position,
            r.action == action,
    {
        MouseEvent { position, action }
    }

    /// Returns the position of the mouse, in global coordinates relative
    /// to the host's main window
    pub fn position(&self) -> (r: Point<i32>)
        ensures
            r == self.position,
    {
        self.position
    }

    /// Returns the action that the user performed with the mouse
    pub fn action(&self) -> (r: MouseAction)
        ensures
            r == self.action,
    {
        self.action
    }
}

/// A scroll event
#[derive(Debug, Clone, Copy)]
pub struct ScrollEvent {
    /// The position of the mouse, in global window coordinates
    pub position: Point<i32>,
    /// The amount of scroll in the X direction
    pub scroll_x: i32,
    /// The amount of scroll in the Y direction
    pub scroll_y: i32,
}

impl ScrollEvent {
    /// Creates a new event
    pub fn new(position: Point<i32>, scroll_x: i32, scroll_y: i32) -> (r: Self)
        ensures
            r.position == position,
            r.scroll_x == scroll_x,
            r.scroll_y == scroll_y,
    {
        ScrollEvent { position, scroll_x, scroll_y }
    }

    /// Returns the position of the mouse, in global coordinates relative
    /// to the host's main window
    pub fn position(&self) -> (r: Point<i32>)
        ensures
            r == self.position,
    {
        self.position
    }

    /// Returns the amount of scroll in the X direction
    pub fn scroll_x(&self) -> (r: i32)
        ensures
            r == self.scroll_x,
    {
        self.scroll_x
    }

    /// Returns the amount of scroll in the Y direction
    pub fn scroll_y(&self) -> (r: i32)
        ensures
            r == self.scroll_y,
    {
        self.scroll_y
    }
}

} // verus!
