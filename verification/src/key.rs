use vstd::prelude::*;

verus! {

/// A pointer button.
#[derive(Debug, Clone, Copy, PartialEq, Eq, Hash, Structural)]
pub enum Button {
    Left,
    Right,
    Middle,
    Unknown(u8),
}

/// A keyboard key, independent of the platform that reported it.
#[derive(Debug, Clone, Copy, PartialEq, Eq, Hash, Structural)]
pub enum Key {
    Alt,
    AltGr,
    Backspace,
    CapsLock,
    ControlLeft,
    ControlRight,
    Delete,
    DownArrow,
    End,
    Escape,
    F1,
    F10,
    F11,
    F12,
    F2,
    F3,
    F4,
    F5,
    F6,
    F7,
    F8,
    F9,
    Home,
    LeftArrow,
    /// Also known as "windows", "super" and "command".
    MetaLeft,
    /// Also known as "windows", "super" and "command".
    MetaRight,
    PageDown,
    PageUp,
    Return,
    RightArrow,
    ShiftLeft,
    ShiftRight,
    Space,
    Tab,
    UpArrow,
    PrintScreen,
    ScrollLock,
    Pause,
    NumLock,
    BackQuote,
    Num1,
    Num2,
    Num3,
    Num4,
    Num5,
    Num6,
    Num7,
    Num8,
    Num9,
    Num0,
    Minus,
    Equal,
    KeyQ,
    KeyW,
    KeyE,
    KeyR,
    KeyT,
    KeyY,
    KeyU,
    KeyI,
    KeyO,
    KeyP,
    LeftBracket,
    RightBracket,
    KeyA,
    KeyS,
    KeyD,
    KeyF,
    KeyG,
    KeyH,
    KeyJ,
    KeyK,
    KeyL,
    SemiColon,
    Quote,
    BackSlash,
    IntlBackslash,
    KeyZ,
    KeyX,
    KeyC,
    KeyV,
    KeyB,
    KeyN,
    KeyM,
    Comma,
    Dot,
    Slash,
    Insert,
    KpReturn,
    KpMinus,
    KpPlus,
    KpMultiply,
    KpDivide,
    Kp0,
    Kp1,
    Kp2,
    Kp3,
    Kp4,
    Kp5,
    Kp6,
    Kp7,
    Kp8,
    Kp9,
    KpDelete,
    Function,
    /// A key that has no variant of its own, by its platform code.
    Unknown(u32),
}

impl Key {
    /// The name under which script text refers to the key.
    ///
    /// Every key that has a variant of its own has a name of its own;
    /// every `Unknown` key reads `Unknown`, whatever its code.
    pub open spec fn name(self) -> Seq<char> {
        match self {
            Key::Alt => "Alt"@,
            Key::AltGr => "AltGr"@,
            Key::Backspace => "Backspace"@,
            Key::CapsLock => "CapsLock"@,
            Key::ControlLeft => "ControlLeft"@,
            Key::ControlRight => "ControlRight"@,
            Key::Delete => "Delete"@,
            Key::DownArrow => "DownArrow"@,
            Key::End => "End"@,
            Key::Escape => "Escape"@,
            Key::F1 => "f1"@,
            Key::F10 => "f10"@,
            Key::F11 => "f11"@,
            Key::F12 => "f12"@,
            Key::F2 => "f2"@,
            Key::F3 => "f3"@,
            Key::F4 => "f4"@,
            Key::F5 => "f5"@,
            Key::F6 => "f6"@,
            Key::F7 => "f7"@,
            Key::F8 => "f8"@,
            Key::F9 => "f9"@,
            Key::Home => "Home"@,
            Key::LeftArrow => "LeftArrow"@,
            Key::MetaLeft => "MetaLeft"@,
            Key::MetaRight => "MetaRight"@,
            Key::PageDown => "PageDown"@,
            Key::PageUp => "PageUp"@,
            Key::Return => "Return"@,
            Key::RightArrow => "RightArrow"@,
            Key::ShiftLeft => "ShiftLeft"@,
            Key::ShiftRight => "ShiftRight"@,
            Key::Space => "Space"@,
            Key::Tab => "Tab"@,
            Key::UpArrow => "UpArrow"@,
            Key::PrintScreen => "PrintScreen"@,
            Key::ScrollLock => "ScrollLock"@,
            Key::Pause => "Pause"@,
            Key::NumLock => "NumLock"@,
            Key::BackQuote => "BackQuote"@,
            Key::Num1 => "n1"@,
            Key::Num2 => "n2"@,
            Key::Num3 => "n3"@,
            Key::Num4 => "n4"@,
            Key::Num5 => "n5"@,
            Key::Num6 => "n6"@,
            Key::Num7 => "n7"@,
            Key::Num8 => "n8"@,
            Key::Num9 => "n9"@,
            Key::Num0 => "n0"@,
            Key::Minus => "Minus"@,
            Key::Equal => "Equal"@,
            Key::KeyQ => "q"@,
            Key::KeyW => "w"@,
            Key::KeyE => "e"@,
            Key::KeyR => "r"@,
            Key::KeyT => "t"@,
            Key::KeyY => "y"@,
            Key::KeyU => "u"@,
            Key::KeyI => "i"@,
            Key::KeyO => "o"@,
            Key::KeyP => "p"@,
            Key::LeftBracket => "LeftBracket"@,
            Key::RightBracket => "RightBracket"@,
            Key::KeyA => "a"@,
            Key::KeyS => "s"@,
            Key::KeyD => "d"@,
            Key::KeyF => "f"@,
            Key::KeyG => "g"@,
            Key::KeyH => "h"@,
            Key::KeyJ => "j"@,
            Key::KeyK => "k"@,
            Key::KeyL => "l"@,
            Key::SemiColon => "SemiColon"@,
            Key::Quote => "Quote"@,
            Key::BackSlash => "BackSlash"@,
            Key::IntlBackslash => "IntlBackslash"@,
            Key::KeyZ => "z"@,
            Key::KeyX => "x"@,
            Key::KeyC => "c"@,
            Key::KeyV => "v"@,
            Key::KeyB => "b"@,
            Key::KeyN => "n"@,
            Key::KeyM => "m"@,
            Key::Comma => "Comma"@,
            Key::Dot => "Dot"@,
            Key::Slash => "Slash"@,
            Key::Insert => "Insert"@,
            Key::KpReturn => "KpReturn"@,
            Key::KpMinus => "KpMinus"@,
            Key::KpPlus => "KpPlus"@,
            Key::KpMultiply => "KpMultiply"@,
            Key::KpDivide => "KpDivide"@,
            Key::Kp0 => "Kp0"@,
            Key::Kp1 => "Kp1"@,
            Key::Kp2 => "Kp2"@,
            Key::Kp3 => "Kp3"@,
            Key::Kp4 => "Kp4"@,
            Key::Kp5 => "Kp5"@,
            Key::Kp6 => "Kp6"@,
            Key::Kp7 => "Kp7"@,
            Key::Kp8 => "Kp8"@,
            Key::Kp9 => "Kp9"@,
            Key::KpDelete => "KpDelete"@,
            Key::Function => "Function"@,
            Key::Unknown(_) => "Unknown"@,
        }
    }

    /// The key's name in script text.
    pub fn as_str(&self) -> (name: &'static str)
        ensures
            name@ == self.name(),
    {
        match self {
            Key::Alt => "Alt",
            Key::AltGr => "AltGr",
            Key::Backspace => "Backspace",
            Key::CapsLock => "CapsLock",
            Key::ControlLeft => "ControlLeft",
            Key::ControlRight => "ControlRight",
            Key::Delete => "Delete",
            Key::DownArrow => "DownArrow",
            Key::End => "End",
            Key::Escape => "Escape",
            Key::F1 => "f1",
            Key::F10 => "f10",
            Key::F11 => "f11",
            Key::F12 => "f12",
            Key::F2 => "f2",
            Key::F3 => "f3",
            Key::F4 => "f4",
            Key::F5 => "f5",
            Key::F6 => "f6",
            Key::F7 => "f7",
            Key::F8 => "f8",
            Key::F9 => "f9",
            Key::Home => "Home",
            Key::LeftArrow => "LeftArrow",
            Key::MetaLeft => "MetaLeft",
            Key::MetaRight => "MetaRight",
            Key::PageDown => "PageDown",
            Key::PageUp => "PageUp",
            Key::Return => "Return",
            Key::RightArrow => "RightArrow",
            Key::ShiftLeft => "ShiftLeft",
            Key::ShiftRight => "ShiftRight",
            Key::Space => "Space",
            Key::Tab => "Tab",
            Key::UpArrow => "UpArrow",
            Key::PrintScreen => "PrintScreen",
            Key::ScrollLock => "ScrollLock",
            Key::Pause => "Pause",
            Key::NumLock => "NumLock",
            Key::BackQuote => "BackQuote",
            Key::Num1 => "n1",
            Key::Num2 => "n2",
            Key::Num3 => "n3",
            Key::Num4 => "n4",
            Key::Num5 => "n5",
            Key::Num6 => "n6",
            Key::Num7 => "n7",
            Key::Num8 => "n8",
            Key::Num9 => "n9",
            Key::Num0 => "n0",
            Key::Minus => "Minus",
            Key::Equal => "Equal",
            Key::KeyQ => "q",
            Key::KeyW => "w",
            Key::KeyE => "e",
            Key::KeyR => "r",
            Key::KeyT => "t",
            Key::KeyY => "y",
            Key::KeyU => "u",
            Key::KeyI => "i",
            Key::KeyO => "o",
            Key::KeyP => "p",
            Key::LeftBracket => "LeftBracket",
            Key::RightBracket => "RightBracket",
            Key::KeyA => "a",
            Key::KeyS => "s",
            Key::KeyD => "d",
            Key::KeyF => "f",
            Key::KeyG => "g",
            Key::KeyH => "h",
            Key::KeyJ => "j",
            Key::KeyK => "k",
            Key::KeyL => "l",
            Key::SemiColon => "SemiColon",
            Key::Quote => "Quote",
            Key::BackSlash => "BackSlash",
            Key::IntlBackslash => "IntlBackslash",
            Key::KeyZ => "z",
            Key::KeyX => "x",
            Key::KeyC => "c",
            Key::KeyV => "v",
            Key::KeyB => "b",
            Key::KeyN => "n",
            Key::KeyM => "m",
            Key::Comma => "Comma",
            Key::Dot => "Dot",
            Key::Slash => "Slash",
            Key::Insert => "Insert",
            Key::KpReturn => "KpReturn",
            Key::KpMinus => "KpMinus",
            Key::KpPlus => "KpPlus",
            Key::KpMultiply => "KpMultiply",
            Key::KpDivide => "KpDivide",
            Key::Kp0 => "Kp0",
            Key::Kp1 => "Kp1",
            Key::Kp2 => "Kp2",
            Key::Kp3 => "Kp3",
            Key::Kp4 => "Kp4",
            Key::Kp5 => "Kp5",
            Key::Kp6 => "Kp6",
            Key::Kp7 => "Kp7",
            Key::Kp8 => "Kp8",
            Key::Kp9 => "Kp9",
            Key::KpDelete => "KpDelete",
            Key::Function => "Function",
            Key::Unknown(_) => "Unknown",
        }
    }
}

/// The number of keys that have a variant of their own.
pub const KEY_COUNT: usize = 105;

/// The key at a place in the list of the keys that have a variant of
/// their own.
pub open spec fn key_at(index: int) -> Key {
    if index == 0 {
        Key::Alt
    } else if index == 1 {
        Key::AltGr
    } else if index == 2 {
        Key::Backspace
    } else if index == 3 {
        Key::CapsLock
    } else if index == 4 {
        Key::ControlLeft
    } else if index == 5 {
        Key::ControlRight
    } else if index == 6 {
        Key::Delete
    } else if index == 7 {
        Key::DownArrow
    } else if index == 8 {
        Key::End
    } else if index == 9 {
        Key::Escape
    } else if index == 10 {
        Key::F1
    } else if index == 11 {
        Key::F10
    } else if index == 12 {
        Key::F11
    } else if index == 13 {
        Key::F12
    } else if index == 14 {
        Key::F2
    } else if index == 15 {
        Key::F3
    } else if index == 16 {
        Key::F4
    } else if index == 17 {
        Key::F5
    } else if index == 18 {
        Key::F6
    } else if index == 19 {
        Key::F7
    } else if index == 20 {
        Key::F8
    } else if index == 21 {
        Key::F9
    } else if index == 22 {
        Key::Home
    } else if index == 23 {
        Key::LeftArrow
    } else if index == 24 {
        Key::MetaLeft
    } else if index == 25 {
        Key::MetaRight
    } else if index == 26 {
        Key::PageDown
    } else if index == 27 {
        Key::PageUp
    } else if index == 28 {
        Key::Return
    } else if index == 29 {
        Key::RightArrow
    } else if index == 30 {
        Key::ShiftLeft
    } else if index == 31 {
        Key::ShiftRight
    } else if index == 32 {
        Key::Space
    } else if index == 33 {
        Key::Tab
    } else if index == 34 {
        Key::UpArrow
    } else if index == 35 {
        Key::PrintScreen
    } else if index == 36 {
        Key::ScrollLock
    } else if index == 37 {
        Key::Pause
    } else if index == 38 {
        Key::NumLock
    } else if index == 39 {
        Key::BackQuote
    } else if index == 40 {
        Key::Num1
    } else if index == 41 {
        Key::Num2
    } else if index == 42 {
        Key::Num3
    } else if index == 43 {
        Key::Num4
    } else if index == 44 {
        Key::Num5
    } else if index == 45 {
        Key::Num6
    } else if index == 46 {
        Key::Num7
    } else if index == 47 {
        Key::Num8
    } else if index == 48 {
        Key::Num9
    } else if index == 49 {
        Key::Num0
    } else if index == 50 {
        Key::Minus
    } else if index == 51 {
        Key::Equal
    } else if index == 52 {
        Key::KeyQ
    } else if index == 53 {
        Key::KeyW
    } else if index == 54 {
        Key::KeyE
    } else if index == 55 {
        Key::KeyR
    } else if index == 56 {
        Key::KeyT
    } else if index == 57 {
        Key::KeyY
    } else if index == 58 {
        Key::KeyU
    } else if index == 59 {
        Key::KeyI
    } else if index == 60 {
        Key::KeyO
    } else if index == 61 {
        Key::KeyP
    } else if index == 62 {
        Key::LeftBracket
    } else if index == 63 {
        Key::RightBracket
    } else if index == 64 {
        Key::KeyA
    } else if index == 65 {
        Key::KeyS
    } else if index == 66 {
        Key::KeyD
    } else if index == 67 {
        Key::KeyF
    } else if index == 68 {
        Key::KeyG
    } else if index == 69 {
        Key::KeyH
    } else if index == 70 {
        Key::KeyJ
    } else if index == 71 {
        Key::KeyK
    } else if index == 72 {
        Key::KeyL
    } else if index == 73 {
        Key::SemiColon
    } else if index == 74 {
        Key::Quote
    } else if index == 75 {
        Key::BackSlash
    } else if index == 76 {
        Key::IntlBackslash
    } else if index == 77 {
        Key::KeyZ
    } else if index == 78 {
        Key::KeyX
    } else if index == 79 {
        Key::KeyC
    } else if index == 80 {
        Key::KeyV
    } else if index == 81 {
        Key::KeyB
    } else if index == 82 {
        Key::KeyN
    } else if index == 83 {
        Key::KeyM
    } else if index == 84 {
        Key::Comma
    } else if index == 85 {
        Key::Dot
    } else if index == 86 {
        Key::Slash
    } else if index == 87 {
        Key::Insert
    } else if index == 88 {
        Key::KpReturn
    } else if index == 89 {
        Key::KpMinus
    } else if index == 90 {
        Key::KpPlus
    } else if index == 91 {
        Key::KpMultiply
    } else if index == 92 {
        Key::KpDivide
    } else if index == 93 {
        Key::Kp0
    } else if index == 94 {
        Key::Kp1
    } else if index == 95 {
        Key::Kp2
    } else if index == 96 {
        Key::Kp3
    } else if index == 97 {
        Key::Kp4
    } else if index == 98 {
        Key::Kp5
    } else if index == 99 {
        Key::Kp6
    } else if index == 100 {
        Key::Kp7
    } else if index == 101 {
        Key::Kp8
    } else if index == 102 {
        Key::Kp9
    } else if index == 103 {
        Key::KpDelete
    } else {
        Key::Function
    }
}

impl Key {
    /// The key's place in the list of the keys that have a variant of
    /// their own; `KEY_COUNT` for a key that has none.
    pub open spec fn ordinal(self) -> int {
        match self {
            Key::Alt => 0,
            Key::AltGr => 1,
            Key::Backspace => 2,
            Key::CapsLock => 3,
            Key::ControlLeft => 4,
            Key::ControlRight => 5,
            Key::Delete => 6,
            Key::DownArrow => 7,
            Key::End => 8,
            Key::Escape => 9,
            Key::F1 => 10,
            Key::F10 => 11,
            Key::F11 => 12,
            Key::F12 => 13,
            Key::F2 => 14,
            Key::F3 => 15,
            Key::F4 => 16,
            Key::F5 => 17,
            Key::F6 => 18,
            Key::F7 => 19,
            Key::F8 => 20,
            Key::F9 => 21,
            Key::Home => 22,
            Key::LeftArrow => 23,
            Key::MetaLeft => 24,
            Key::MetaRight => 25,
            Key::PageDown => 26,
            Key::PageUp => 27,
            Key::Return => 28,
            Key::RightArrow => 29,
            Key::ShiftLeft => 30,
            Key::ShiftRight => 31,
            Key::Space => 32,
            Key::Tab => 33,
            Key::UpArrow => 34,
            Key::PrintScreen => 35,
            Key::ScrollLock => 36,
            Key::Pause => 37,
            Key::NumLock => 38,
            Key::BackQuote => 39,
            Key::Num1 => 40,
            Key::Num2 => 41,
            Key::Num3 => 42,
            Key::Num4 => 43,
            Key::Num5 => 44,
            Key::Num6 => 45,
            Key::Num7 => 46,
            Key::Num8 => 47,
            Key::Num9 => 48,
            Key::Num0 => 49,
            Key::Minus => 50,
            Key::Equal => 51,
            Key::KeyQ => 52,
            Key::KeyW => 53,
            Key::KeyE => 54,
            Key::KeyR => 55,
            Key::KeyT => 56,
            Key::KeyY => 57,
            Key::KeyU => 58,
            Key::KeyI => 59,
            Key::KeyO => 60,
            Key::KeyP => 61,
            Key::LeftBracket => 62,
            Key::RightBracket => 63,
            Key::KeyA => 64,
            Key::KeyS => 65,
            Key::KeyD => 66,
            Key::KeyF => 67,
            Key::KeyG => 68,
            Key::KeyH => 69,
            Key::KeyJ => 70,
            Key::KeyK => 71,
            Key::KeyL => 72,
            Key::SemiColon => 73,
            Key::Quote => 74,
            Key::BackSlash => 75,
            Key::IntlBackslash => 76,
            Key::KeyZ => 77,
            Key::KeyX => 78,
            Key::KeyC => 79,
            Key::KeyV => 80,
            Key::KeyB => 81,
            Key::KeyN => 82,
            Key::KeyM => 83,
            Key::Comma => 84,
            Key::Dot => 85,
            Key::Slash => 86,
            Key::Insert => 87,
            Key::KpReturn => 88,
            Key::KpMinus => 89,
            Key::KpPlus => 90,
            Key::KpMultiply => 91,
            Key::KpDivide => 92,
            Key::Kp0 => 93,
            Key::Kp1 => 94,
            Key::Kp2 => 95,
            Key::Kp3 => 96,
            Key::Kp4 => 97,
            Key::Kp5 => 98,
            Key::Kp6 => 99,
            Key::Kp7 => 100,
            Key::Kp8 => 101,
            Key::Kp9 => 102,
            Key::KpDelete => 103,
            Key::Function => 104,
            Key::Unknown(_) => 105,
        }
    }

    /// The name of the variable that stands for the key in a script:
    /// the key's name; none for a key without a variant of its own.
    pub open spec fn binding_name(self) -> Option<Seq<char>> {
        match self {
            Key::Unknown(_) => None,
            _ => Some(self.name()),
        }
    }

    /// The key at `index` in the list of the keys that have a variant
    /// of their own, `None` past its end.
    pub fn from_index(index: usize) -> (key: Option<Key>)
        ensures
            key == if index < KEY_COUNT {
                Some(key_at(index as int))
            } else {
                None
            },
    {
        match index {
            0 => Some(Key::Alt),
            1 => Some(Key::AltGr),
            2 => Some(Key::Backspace),
            3 => Some(Key::CapsLock),
            4 => Some(Key::ControlLeft),
            5 => Some(Key::ControlRight),
            6 => Some(Key::Delete),
            7 => Some(Key::DownArrow),
            8 => Some(Key::End),
            9 => Some(Key::Escape),
            10 => Some(Key::F1),
            11 => Some(Key::F10),
            12 => Some(Key::F11),
            13 => Some(Key::F12),
            14 => Some(Key::F2),
            15 => Some(Key::F3),
            16 => Some(Key::F4),
            17 => Some(Key::F5),
            18 => Some(Key::F6),
            19 => Some(Key::F7),
            20 => Some(Key::F8),
            21 => Some(Key::F9),
            22 => Some(Key::Home),
            23 => Some(Key::LeftArrow),
            24 => Some(Key::MetaLeft),
            25 => Some(Key::MetaRight),
            26 => Some(Key::PageDown),
            27 => Some(Key::PageUp),
            28 => Some(Key::Return),
            29 => Some(Key::RightArrow),
            30 => Some(Key::ShiftLeft),
            31 => Some(Key::ShiftRight),
            32 => Some(Key::Space),
            33 => Some(Key::Tab),
            34 => Some(Key::UpArrow),
            35 => Some(Key::PrintScreen),
            36 => Some(Key::ScrollLock),
            37 => Some(Key::Pause),
            38 => Some(Key::NumLock),
            39 => Some(Key::BackQuote),
            40 => Some(Key::Num1),
            41 => Some(Key::Num2),
            42 => Some(Key::Num3),
            43 => Some(Key::Num4),
            44 => Some(Key::Num5),
            45 => Some(Key::Num6),
            46 => Some(Key::Num7),
            47 => Some(Key::Num8),
            48 => Some(Key::Num9),
            49 => Some(Key::Num0),
            50 => Some(Key::Minus),
            51 => Some(Key::Equal),
            52 => Some(Key::KeyQ),
            53 => Some(Key::KeyW),
            54 => Some(Key::KeyE),
            55 => Some(Key::KeyR),
            56 => Some(Key::KeyT),
            57 => Some(Key::KeyY),
            58 => Some(Key::KeyU),
            59 => Some(Key::KeyI),
            60 => Some(Key::KeyO),
            61 => Some(Key::KeyP),
            62 => Some(Key::LeftBracket),
            63 => Some(Key::RightBracket),
            64 => Some(Key::KeyA),
            65 => Some(Key::KeyS),
            66 => Some(Key::KeyD),
            67 => Some(Key::KeyF),
            68 => Some(Key::KeyG),
            69 => Some(Key::KeyH),
            70 => Some(Key::KeyJ),
            71 => Some(Key::KeyK),
            72 => Some(Key::KeyL),
            73 => Some(Key::SemiColon),
            74 => Some(Key::Quote),
            75 => Some(Key::BackSlash),
            76 => Some(Key::IntlBackslash),
            77 => Some(Key::KeyZ),
            78 => Some(Key::KeyX),
            79 => Some(Key::KeyC),
            80 => Some(Key::KeyV),
            81 => Some(Key::KeyB),
            82 => Some(Key::KeyN),
            83 => Some(Key::KeyM),
            84 => Some(Key::Comma),
            85 => Some(Key::Dot),
            86 => Some(Key::Slash),
            87 => Some(Key::Insert),
            88 => Some(Key::KpReturn),
            89 => Some(Key::KpMinus),
            90 => Some(Key::KpPlus),
            91 => Some(Key::KpMultiply),
            92 => Some(Key::KpDivide),
            93 => Some(Key::Kp0),
            94 => Some(Key::Kp1),
            95 => Some(Key::Kp2),
            96 => Some(Key::Kp3),
            97 => Some(Key::Kp4),
            98 => Some(Key::Kp5),
            99 => Some(Key::Kp6),
            100 => Some(Key::Kp7),
            101 => Some(Key::Kp8),
            102 => Some(Key::Kp9),
            103 => Some(Key::KpDelete),
            104 => Some(Key::Function),
            _ => None,
        }
    }

    /// The name of the variable that stands for the key in a script.
    pub fn binding(&self) -> (name: Option<&'static str>)
        ensures
            name is Some <==> self.binding_name() is Some,
            name is Some ==> name->0@ == self.binding_name()->0,
    {
        match self {
            Key::Unknown(_) => None,
            _ => Some(self.as_str()),
        }
    }
}

/// Every key that has a variant of its own stands at its place in
/// the list.
pub proof fn lemma_key_at_ordinal(key: Key)
    requires
        !(key is Unknown),
    ensures
        0 <= key.ordinal() < KEY_COUNT,
        key_at(key.ordinal()) == key,
{
}

/// Every place in the list holds a key with a variant of its own, and
/// no key stands at two places.
pub proof fn lemma_ordinal_key_at(index: int)
    requires
        0 <= index < KEY_COUNT,
    ensures
        !(key_at(index) is Unknown),
        key_at(index).ordinal() == index,
{
}

/// A number that tells the binding names apart: it is made of a name's
/// first character, its last, and the third from its end.
spec fn fingerprint(name: Seq<char>) -> int {
    let first = if name.len() > 0 {
        name[0] as int
    } else {
        0
    };
    let last = if name.len() > 0 {
        name[name.len() - 1] as int
    } else {
        0
    };
    let third = if name.len() >= 3 {
        name[name.len() - 3] as int
    } else {
        0
    };
    first + 128 * last + 16384 * third
}

/// The fingerprint of each key's binding name.
spec fn key_fingerprint(key: Key) -> int {
    match key {
        Key::Alt => 1079873,
        Key::AltGr => 1915201,
        Key::Backspace => 1602242,
        Key::CapsLock => 1832387,
        Key::ControlLeft => 1669699,
        Key::ControlRight => 1702467,
        Key::Delete => 1667780,
        Key::DownArrow => 1883076,
        Key::End => 1143365,
        Key::Escape => 1602245,
        Key::F1 => 6374,
        Key::F10 => 1677414,
        Key::F11 => 1677542,
        Key::F12 => 1677670,
        Key::F2 => 6502,
        Key::F3 => 6630,
        Key::F4 => 6758,
        Key::F5 => 6886,
        Key::F6 => 7014,
        Key::F7 => 7142,
        Key::F8 => 7270,
        Key::F9 => 7398,
        Key::Home => 1831624,
        Key::LeftArrow => 1883084,
        Key::MetaLeft => 1669709,
        Key::MetaRight => 1702477,
        Key::PageDown => 1832784,
        Key::PageUp => 1669200,
        Key::Return => 1931090,
        Key::RightArrow => 1883090,
        Key::ShiftLeft => 1669715,
        Key::ShiftRight => 1702483,
        Key::Space => 1602259,
        Key::Tab => 1388884,
        Key::UpArrow => 1883093,
        Key::PrintScreen => 1668944,
        Key::ScrollLock => 1832403,
        Key::Pause => 1929936,
        Key::NumLock => 1832398,
        Key::BackQuote => 1831618,
        Key::Num1 => 6382,
        Key::Num2 => 6510,
        Key::Num3 => 6638,
        Key::Num4 => 6766,
        Key::Num5 => 6894,
        Key::Num6 => 7022,
        Key::Num7 => 7150,
        Key::Num8 => 7278,
        Key::Num9 => 7406,
        Key::Num0 => 6254,
        Key::Minus => 1817037,
        Key::Equal => 1930821,
        Key::KeyQ => 14577,
        Key::KeyW => 15351,
        Key::KeyE => 13029,
        Key::KeyR => 14706,
        Key::KeyT => 14964,
        Key::KeyY => 15609,
        Key::KeyU => 15093,
        Key::KeyI => 13545,
        Key::KeyO => 14319,
        Key::KeyP => 14448,
        Key::LeftBracket => 1768012,
        Key::RightBracket => 1768018,
        Key::KeyA => 12513,
        Key::KeyS => 14835,
        Key::KeyD => 12900,
        Key::KeyF => 13158,
        Key::KeyG => 13287,
        Key::KeyH => 13416,
        Key::KeyJ => 13674,
        Key::KeyK => 13803,
        Key::KeyL => 13932,
        Key::SemiColon => 1783635,
        Key::Quote => 1831633,
        Key::BackSlash => 1602626,
        Key::IntlBackslash => 1602633,
        Key::KeyZ => 15738,
        Key::KeyX => 15480,
        Key::KeyC => 12771,
        Key::KeyV => 15222,
        Key::KeyB => 12642,
        Key::KeyN => 14190,
        Key::KeyM => 14061,
        Key::Comma => 1798339,
        Key::Dot => 1129028,
        Key::Slash => 1602643,
        Key::Insert => 1669705,
        Key::KpReturn => 1931083,
        Key::KpMinus => 1817035,
        Key::KpPlus => 1784267,
        Key::KpMultiply => 1850571,
        Key::KpDivide => 1733323,
        Key::Kp0 => 1235019,
        Key::Kp1 => 1235147,
        Key::Kp2 => 1235275,
        Key::Kp3 => 1235403,
        Key::Kp4 => 1235531,
        Key::Kp5 => 1235659,
        Key::Kp6 => 1235787,
        Key::Kp7 => 1235915,
        Key::Kp8 => 1236043,
        Key::Kp9 => 1236171,
        Key::KpDelete => 1667787,
        Key::Function => 1734470,
        Key::Unknown(_) => 0,
    }
}

/// The key whose binding name has the given fingerprint.
spec fn key_of_fingerprint(code: int) -> Key {
    if code == 1079873 {
        Key::Alt
    } else if code == 1915201 {
        Key::AltGr
    } else if code == 1602242 {
        Key::Backspace
    } else if code == 1832387 {
        Key::CapsLock
    } else if code == 1669699 {
        Key::ControlLeft
    } else if code == 1702467 {
        Key::ControlRight
    } else if code == 1667780 {
        Key::Delete
    } else if code == 1883076 {
        Key::DownArrow
    } else if code == 1143365 {
        Key::End
    } else if code == 1602245 {
        Key::Escape
    } else if code == 6374 {
        Key::F1
    } else if code == 1677414 {
        Key::F10
    } else if code == 1677542 {
        Key::F11
    } else if code == 1677670 {
        Key::F12
    } else if code == 6502 {
        Key::F2
    } else if code == 6630 {
        Key::F3
    } else if code == 6758 {
        Key::F4
    } else if code == 6886 {
        Key::F5
    } else if code == 7014 {
        Key::F6
    } else if code == 7142 {
        Key::F7
    } else if code == 7270 {
        Key::F8
    } else if code == 7398 {
        Key::F9
    } else if code == 1831624 {
        Key::Home
    } else if code == 1883084 {
        Key::LeftArrow
    } else if code == 1669709 {
        Key::MetaLeft
    } else if code == 1702477 {
        Key::MetaRight
    } else if code == 1832784 {
        Key::PageDown
    } else if code == 1669200 {
        Key::PageUp
    } else if code == 1931090 {
        Key::Return
    } else if code == 1883090 {
        Key::RightArrow
    } else if code == 1669715 {
        Key::ShiftLeft
    } else if code == 1702483 {
        Key::ShiftRight
    } else if code == 1602259 {
        Key::Space
    } else if code == 1388884 {
        Key::Tab
    } else if code == 1883093 {
        Key::UpArrow
    } else if code == 1668944 {
        Key::PrintScreen
    } else if code == 1832403 {
        Key::ScrollLock
    } else if code == 1929936 {
        Key::Pause
    } else if code == 1832398 {
        Key::NumLock
    } else if code == 1831618 {
        Key::BackQuote
    } else if code == 6382 {
        Key::Num1
    } else if code == 6510 {
        Key::Num2
    } else if code == 6638 {
        Key::Num3
    } else if code == 6766 {
        Key::Num4
    } else if code == 6894 {
        Key::Num5
    } else if code == 7022 {
        Key::Num6
    } else if code == 7150 {
        Key::Num7
    } else if code == 7278 {
        Key::Num8
    } else if code == 7406 {
        Key::Num9
    } else if code == 6254 {
        Key::Num0
    } else if code == 1817037 {
        Key::Minus
    } else if code == 1930821 {
        Key::Equal
    } else if code == 14577 {
        Key::KeyQ
    } else if code == 15351 {
        Key::KeyW
    } else if code == 13029 {
        Key::KeyE
    } else if code == 14706 {
        Key::KeyR
    } else if code == 14964 {
        Key::KeyT
    } else if code == 15609 {
        Key::KeyY
    } else if code == 15093 {
        Key::KeyU
    } else if code == 13545 {
        Key::KeyI
    } else if code == 14319 {
        Key::KeyO
    } else if code == 14448 {
        Key::KeyP
    } else if code == 1768012 {
        Key::LeftBracket
    } else if code == 1768018 {
        Key::RightBracket
    } else if code == 12513 {
        Key::KeyA
    } else if code == 14835 {
        Key::KeyS
    } else if code == 12900 {
        Key::KeyD
    } else if code == 13158 {
        Key::KeyF
    } else if code == 13287 {
        Key::KeyG
    } else if code == 13416 {
        Key::KeyH
    } else if code == 13674 {
        Key::KeyJ
    } else if code == 13803 {
        Key::KeyK
    } else if code == 13932 {
        Key::KeyL
    } else if code == 1783635 {
        Key::SemiColon
    } else if code == 1831633 {
        Key::Quote
    } else if code == 1602626 {
        Key::BackSlash
    } else if code == 1602633 {
        Key::IntlBackslash
    } else if code == 15738 {
        Key::KeyZ
    } else if code == 15480 {
        Key::KeyX
    } else if code == 12771 {
        Key::KeyC
    } else if code == 15222 {
        Key::KeyV
    } else if code == 12642 {
        Key::KeyB
    } else if code == 14190 {
        Key::KeyN
    } else if code == 14061 {
        Key::KeyM
    } else if code == 1798339 {
        Key::Comma
    } else if code == 1129028 {
        Key::Dot
    } else if code == 1602643 {
        Key::Slash
    } else if code == 1669705 {
        Key::Insert
    } else if code == 1931083 {
        Key::KpReturn
    } else if code == 1817035 {
        Key::KpMinus
    } else if code == 1784267 {
        Key::KpPlus
    } else if code == 1850571 {
        Key::KpMultiply
    } else if code == 1733323 {
        Key::KpDivide
    } else if code == 1235019 {
        Key::Kp0
    } else if code == 1235147 {
        Key::Kp1
    } else if code == 1235275 {
        Key::Kp2
    } else if code == 1235403 {
        Key::Kp3
    } else if code == 1235531 {
        Key::Kp4
    } else if code == 1235659 {
        Key::Kp5
    } else if code == 1235787 {
        Key::Kp6
    } else if code == 1235915 {
        Key::Kp7
    } else if code == 1236043 {
        Key::Kp8
    } else if code == 1236171 {
        Key::Kp9
    } else if code == 1667787 {
        Key::KpDelete
    } else {
        Key::Function
    }
}

proof fn lemma_binding_fingerprint(key: Key)
    requires
        !(key is Unknown),
    ensures
        fingerprint(key.binding_name()->0) == key_fingerprint(key),
        key_of_fingerprint(key_fingerprint(key)) == key,
{
    reveal_strlit("Alt");
    reveal_strlit("AltGr");
    reveal_strlit("Backspace");
    reveal_strlit("CapsLock");
    reveal_strlit("ControlLeft");
    reveal_strlit("ControlRight");
    reveal_strlit("Delete");
    reveal_strlit("DownArrow");
    reveal_strlit("End");
    reveal_strlit("Escape");
    reveal_strlit("f1");
    reveal_strlit("f10");
    reveal_strlit("f11");
    reveal_strlit("f12");
    reveal_strlit("f2");
    reveal_strlit("f3");
    reveal_strlit("f4");
    reveal_strlit("f5");
    reveal_strlit("f6");
    reveal_strlit("f7");
    reveal_strlit("f8");
    reveal_strlit("f9");
    reveal_strlit("Home");
    reveal_strlit("LeftArrow");
    reveal_strlit("MetaLeft");
    reveal_strlit("MetaRight");
    reveal_strlit("PageDown");
    reveal_strlit("PageUp");
    reveal_strlit("Return");
    reveal_strlit("RightArrow");
    reveal_strlit("ShiftLeft");
    reveal_strlit("ShiftRight");
    reveal_strlit("Space");
    reveal_strlit("Tab");
    reveal_strlit("UpArrow");
    reveal_strlit("PrintScreen");
    reveal_strlit("ScrollLock");
    reveal_strlit("Pause");
    reveal_strlit("NumLock");
    reveal_strlit("BackQuote");
    reveal_strlit("n1");
    reveal_strlit("n2");
    reveal_strlit("n3");
    reveal_strlit("n4");
    reveal_strlit("n5");
    reveal_strlit("n6");
    reveal_strlit("n7");
    reveal_strlit("n8");
    reveal_strlit("n9");
    reveal_strlit("n0");
    reveal_strlit("Minus");
    reveal_strlit("Equal");
    reveal_strlit("q");
    reveal_strlit("w");
    reveal_strlit("e");
    reveal_strlit("r");
    reveal_strlit("t");
    reveal_strlit("y");
    reveal_strlit("u");
    reveal_strlit("i");
    reveal_strlit("o");
    reveal_strlit("p");
    reveal_strlit("LeftBracket");
    reveal_strlit("RightBracket");
    reveal_strlit("a");
    reveal_strlit("s");
    reveal_strlit("d");
    reveal_strlit("f");
    reveal_strlit("g");
    reveal_strlit("h");
    reveal_strlit("j");
    reveal_strlit("k");
    reveal_strlit("l");
    reveal_strlit("SemiColon");
    reveal_strlit("Quote");
    reveal_strlit("BackSlash");
    reveal_strlit("IntlBackslash");
    reveal_strlit("z");
    reveal_strlit("x");
    reveal_strlit("c");
    reveal_strlit("v");
    reveal_strlit("b");
    reveal_strlit("n");
    reveal_strlit("m");
    reveal_strlit("Comma");
    reveal_strlit("Dot");
    reveal_strlit("Slash");
    reveal_strlit("Insert");
    reveal_strlit("KpReturn");
    reveal_strlit("KpMinus");
    reveal_strlit("KpPlus");
    reveal_strlit("KpMultiply");
    reveal_strlit("KpDivide");
    reveal_strlit("Kp0");
    reveal_strlit("Kp1");
    reveal_strlit("Kp2");
    reveal_strlit("Kp3");
    reveal_strlit("Kp4");
    reveal_strlit("Kp5");
    reveal_strlit("Kp6");
    reveal_strlit("Kp7");
    reveal_strlit("Kp8");
    reveal_strlit("Kp9");
    reveal_strlit("KpDelete");
    reveal_strlit("Function");
}

/// No two keys share a variable: keys that differ have binding names
/// that differ.
pub proof fn lemma_binding_names_differ(a: Key, b: Key)
    requires
        !(a is Unknown),
        !(b is Unknown),
        a != b,
    ensures
        a.binding_name() != b.binding_name(),
{
    lemma_binding_fingerprint(a);
    lemma_binding_fingerprint(b);
}

/// Whether a character may stand in a name: a letter or a digit.
pub open spec fn is_name_char(c: char) -> bool {
    let code = c as int;
    ||| 97 <= code <= 122
    ||| 65 <= code <= 90
    ||| 48 <= code <= 57
}

/// Whether a text can name a variable: it is not empty, is made of
/// letters and digits, and begins with a letter.
pub open spec fn is_identifier(name: Seq<char>) -> bool {
    &&& name.len() > 0
    &&& !(48 <= name[0] as int <= 57)
    &&& forall|i: int| 0 <= i < name.len() ==> is_name_char(#[trigger] name[i])
}

/// The name of every key is an identifier, so that a script can have a
/// variable of that name.
pub proof fn lemma_name_is_identifier(key: Key)
    ensures
        is_identifier(key.name()),
{
    reveal_strlit("Alt");
    reveal_strlit("AltGr");
    reveal_strlit("Backspace");
    reveal_strlit("CapsLock");
    reveal_strlit("ControlLeft");
    reveal_strlit("ControlRight");
    reveal_strlit("Delete");
    reveal_strlit("DownArrow");
    reveal_strlit("End");
    reveal_strlit("Escape");
    reveal_strlit("f1");
    reveal_strlit("f10");
    reveal_strlit("f11");
    reveal_strlit("f12");
    reveal_strlit("f2");
    reveal_strlit("f3");
    reveal_strlit("f4");
    reveal_strlit("f5");
    reveal_strlit("f6");
    reveal_strlit("f7");
    reveal_strlit("f8");
    reveal_strlit("f9");
    reveal_strlit("Home");
    reveal_strlit("LeftArrow");
    reveal_strlit("MetaLeft");
    reveal_strlit("MetaRight");
    reveal_strlit("PageDown");
    reveal_strlit("PageUp");
    reveal_strlit("Return");
    reveal_strlit("RightArrow");
    reveal_strlit("ShiftLeft");
    reveal_strlit("ShiftRight");
    reveal_strlit("Space");
    reveal_strlit("Tab");
    reveal_strlit("UpArrow");
    reveal_strlit("PrintScreen");
    reveal_strlit("ScrollLock");
    reveal_strlit("Pause");
    reveal_strlit("NumLock");
    reveal_strlit("BackQuote");
    reveal_strlit("n1");
    reveal_strlit("n2");
    reveal_strlit("n3");
    reveal_strlit("n4");
    reveal_strlit("n5");
    reveal_strlit("n6");
    reveal_strlit("n7");
    reveal_strlit("n8");
    reveal_strlit("n9");
    reveal_strlit("n0");
    reveal_strlit("Minus");
    reveal_strlit("Equal");
    reveal_strlit("q");
    reveal_strlit("w");
    reveal_strlit("e");
    reveal_strlit("r");
    reveal_strlit("t");
    reveal_strlit("y");
    reveal_strlit("u");
    reveal_strlit("i");
    reveal_strlit("o");
    reveal_strlit("p");
    reveal_strlit("LeftBracket");
    reveal_strlit("RightBracket");
    reveal_strlit("a");
    reveal_strlit("s");
    reveal_strlit("d");
    reveal_strlit("f");
    reveal_strlit("g");
    reveal_strlit("h");
    reveal_strlit("j");
    reveal_strlit("k");
    reveal_strlit("l");
    reveal_strlit("SemiColon");
    reveal_strlit("Quote");
    reveal_strlit("BackSlash");
    reveal_strlit("IntlBackslash");
    reveal_strlit("z");
    reveal_strlit("x");
    reveal_strlit("c");
    reveal_strlit("v");
    reveal_strlit("b");
    reveal_strlit("n");
    reveal_strlit("m");
    reveal_strlit("Comma");
    reveal_strlit("Dot");
    reveal_strlit("Slash");
    reveal_strlit("Insert");
    reveal_strlit("KpReturn");
    reveal_strlit("KpMinus");
    reveal_strlit("KpPlus");
    reveal_strlit("KpMultiply");
    reveal_strlit("KpDivide");
    reveal_strlit("Kp0");
    reveal_strlit("Kp1");
    reveal_strlit("Kp2");
    reveal_strlit("Kp3");
    reveal_strlit("Kp4");
    reveal_strlit("Kp5");
    reveal_strlit("Kp6");
    reveal_strlit("Kp7");
    reveal_strlit("Kp8");
    reveal_strlit("Kp9");
    reveal_strlit("KpDelete");
    reveal_strlit("Function");
    reveal_strlit("Unknown");
}

/// The script text names a key unambiguously: keys that have a variant
/// of their own and differ have names that differ.
pub proof fn lemma_names_differ(a: Key, b: Key)
    requires
        !(a is Unknown),
        !(b is Unknown),
        a != b,
    ensures
        a.name() != b.name(),
{
    lemma_binding_names_differ(a, b);
}

} // verus!
