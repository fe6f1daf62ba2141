//! Keys: egui's keys, the physical and logical keys of the window system, and the maps
//! between them.
use vstd::prelude::*;

verus! {

/// The number of keys that egui declares.
pub const EGUI_KEY_COUNT: u8 = 104;

/// A key as egui names it, listed in the order in which egui declares its key enum.
#[derive(Clone, Copy, Debug, PartialEq, Eq, Hash)]
pub enum EguiKey {
    ArrowDown,
    ArrowLeft,
    ArrowRight,
    ArrowUp,
    Escape,
    Tab,
    Backspace,
    Enter,
    Space,
    Insert,
    Delete,
    Home,
    End,
    PageUp,
    PageDown,
    Copy,
    Cut,
    Paste,
    Colon,
    Comma,
    Backslash,
    Slash,
    Pipe,
    Questionmark,
    OpenBracket,
    CloseBracket,
    Backtick,
    Minus,
    Period,
    Plus,
    Equals,
    Semicolon,
    Quote,
    Num0,
    Num1,
    Num2,
    Num3,
    Num4,
    Num5,
    Num6,
    Num7,
    Num8,
    Num9,
    A,
    B,
    C,
    D,
    E,
    F,
    G,
    H,
    I,
    J,
    K,
    L,
    M,
    N,
    O,
    P,
    Q,
    R,
    S,
    T,
    U,
    V,
    W,
    X,
    Y,
    Z,
    F1,
    F2,
    F3,
    F4,
    F5,
    F6,
    F7,
    F8,
    F9,
    F10,
    F11,
    F12,
    F13,
    F14,
    F15,
    F16,
    F17,
    F18,
    F19,
    F20,
    F21,
    F22,
    F23,
    F24,
    F25,
    F26,
    F27,
    F28,
    F29,
    F30,
    F31,
    F32,
    F33,
    F34,
    F35,
}

impl EguiKey {
    /// The position of the key in egui's declaration of its key enum.
    pub open spec fn ordinal(self) -> int {
        match self {
            EguiKey::ArrowDown => 0,
            EguiKey::ArrowLeft => 1,
            EguiKey::ArrowRight => 2,
            EguiKey::ArrowUp => 3,
            EguiKey::Escape => 4,
            EguiKey::Tab => 5,
            EguiKey::Backspace => 6,
            EguiKey::Enter => 7,
            EguiKey::Space => 8,
            EguiKey::Insert => 9,
            EguiKey::Delete => 10,
            EguiKey::Home => 11,
            EguiKey::End => 12,
            EguiKey::PageUp => 13,
            EguiKey::PageDown => 14,
            EguiKey::Copy => 15,
            EguiKey::Cut => 16,
            EguiKey::Paste => 17,
            EguiKey::Colon => 18,
            EguiKey::Comma => 19,
            EguiKey::Backslash => 20,
            EguiKey::Slash => 21,
            EguiKey::Pipe => 22,
            EguiKey::Questionmark => 23,
            EguiKey::OpenBracket => 24,
            EguiKey::CloseBracket => 25,
            EguiKey::Backtick => 26,
            EguiKey::Minus => 27,
            EguiKey::Period => 28,
            EguiKey::Plus => 29,
            EguiKey::Equals => 30,
            EguiKey::Semicolon => 31,
            EguiKey::Quote => 32,
            EguiKey::Num0 => 33,
            EguiKey::Num1 => 34,
            EguiKey::Num2 => 35,
            EguiKey::Num3 => 36,
            EguiKey::Num4 => 37,
            EguiKey::Num5 => 38,
            EguiKey::Num6 => 39,
            EguiKey::Num7 => 40,
            EguiKey::Num8 => 41,
            EguiKey::Num9 => 42,
            EguiKey::A => 43,
            EguiKey::B => 44,
            EguiKey::C => 45,
            EguiKey::D => 46,
            EguiKey::E => 47,
            EguiKey::F => 48,
            EguiKey::G => 49,
            EguiKey::H => 50,
            EguiKey::I => 51,
            EguiKey::J => 52,
            EguiKey::K => 53,
            EguiKey::L => 54,
            EguiKey::M => 55,
            EguiKey::N => 56,
            EguiKey::O => 57,
            EguiKey::P => 58,
            EguiKey::Q => 59,
            EguiKey::R => 60,
            EguiKey::S => 61,
            EguiKey::T => 62,
            EguiKey::U => 63,
            EguiKey::V => 64,
            EguiKey::W => 65,
            EguiKey::X => 66,
            EguiKey::Y => 67,
            EguiKey::Z => 68,
            EguiKey::F1 => 69,
            EguiKey::F2 => 70,
            EguiKey::F3 => 71,
            EguiKey::F4 => 72,
            EguiKey::F5 => 73,
            EguiKey::F6 => 74,
            EguiKey::F7 => 75,
            EguiKey::F8 => 76,
            EguiKey::F9 => 77,
            EguiKey::F10 => 78,
            EguiKey::F11 => 79,
            EguiKey::F12 => 80,
            EguiKey::F13 => 81,
            EguiKey::F14 => 82,
            EguiKey::F15 => 83,
            EguiKey::F16 => 84,
            EguiKey::F17 => 85,
            EguiKey::F18 => 86,
            EguiKey::F19 => 87,
            EguiKey::F20 => 88,
            EguiKey::F21 => 89,
            EguiKey::F22 => 90,
            EguiKey::F23 => 91,
            EguiKey::F24 => 92,
            EguiKey::F25 => 93,
            EguiKey::F26 => 94,
            EguiKey::F27 => 95,
            EguiKey::F28 => 96,
            EguiKey::F29 => 97,
            EguiKey::F30 => 98,
            EguiKey::F31 => 99,
            EguiKey::F32 => 100,
            EguiKey::F33 => 101,
            EguiKey::F34 => 102,
            EguiKey::F35 => 103,
        }
    }

    /// The key at the given position of egui's declaration, if there is one.
    pub fn from_ordinal(n: u8) -> (r: Option<EguiKey>)
        ensures
            r is None <==> n >= EGUI_KEY_COUNT,
            r matches Some(k) ==> k.ordinal() == n,
            r == key_with_ordinal(n as int),
    {
        let r = match n {
            0 => Some(EguiKey::ArrowDown),
            1 => Some(EguiKey::ArrowLeft),
            2 => Some(EguiKey::ArrowRight),
            3 => Some(EguiKey::ArrowUp),
            4 => Some(EguiKey::Escape),
            5 => Some(EguiKey::Tab),
            6 => Some(EguiKey::Backspace),
            7 => Some(EguiKey::Enter),
            8 => Some(EguiKey::Space),
            9 => Some(EguiKey::Insert),
            10 => Some(EguiKey::Delete),
            11 => Some(EguiKey::Home),
            12 => Some(EguiKey::End),
            13 => Some(EguiKey::PageUp),
            14 => Some(EguiKey::PageDown),
            15 => Some(EguiKey::Copy),
            16 => Some(EguiKey::Cut),
            17 => Some(EguiKey::Paste),
            18 => Some(EguiKey::Colon),
            19 => Some(EguiKey::Comma),
            20 => Some(EguiKey::Backslash),
            21 => Some(EguiKey::Slash),
            22 => Some(EguiKey::Pipe),
            23 => Some(EguiKey::Questionmark),
            24 => Some(EguiKey::OpenBracket),
            25 => Some(EguiKey::CloseBracket),
            26 => Some(EguiKey::Backtick),
            27 => Some(EguiKey::Minus),
            28 => Some(EguiKey::Period),
            29 => Some(EguiKey::Plus),
            30 => Some(EguiKey::Equals),
            31 => Some(EguiKey::Semicolon),
            32 => Some(EguiKey::Quote),
            33 => Some(EguiKey::Num0),
            34 => Some(EguiKey::Num1),
            35 => Some(EguiKey::Num2),
            36 => Some(EguiKey::Num3),
            37 => Some(EguiKey::Num4),
            38 => Some(EguiKey::Num5),
            39 => Some(EguiKey::Num6),
            40 => Some(EguiKey::Num7),
            41 => Some(EguiKey::Num8),
            42 => Some(EguiKey::Num9),
            43 => Some(EguiKey::A),
            44 => Some(EguiKey::B),
            45 => Some(EguiKey::C),
            46 => Some(EguiKey::D),
            47 => Some(EguiKey::E),
            48 => Some(EguiKey::F),
            49 => Some(EguiKey::G),
            50 => Some(EguiKey::H),
            51 => Some(EguiKey::I),
            52 => Some(EguiKey::J),
            53 => Some(EguiKey::K),
            54 => Some(EguiKey::L),
            55 => Some(EguiKey::M),
            56 => Some(EguiKey::N),
            57 => Some(EguiKey::O),
            58 => Some(EguiKey::P),
            59 => Some(EguiKey::Q),
            60 => Some(EguiKey::R),
            61 => Some(EguiKey::S),
            62 => Some(EguiKey::T),
            63 => Some(EguiKey::U),
            64 => Some(EguiKey::V),
            65 => Some(EguiKey::W),
            66 => Some(EguiKey::X),
            67 => Some(EguiKey::Y),
            68 => Some(EguiKey::Z),
            69 => Some(EguiKey::F1),
            70 => Some(EguiKey::F2),
            71 => Some(EguiKey::F3),
            72 => Some(EguiKey::F4),
            73 => Some(EguiKey::F5),
            74 => Some(EguiKey::F6),
            75 => Some(EguiKey::F7),
            76 => Some(EguiKey::F8),
            77 => Some(EguiKey::F9),
            78 => Some(EguiKey::F10),
            79 => Some(EguiKey::F11),
            80 => Some(EguiKey::F12),
            81 => Some(EguiKey::F13),
            82 => Some(EguiKey::F14),
            83 => Some(EguiKey::F15),
            84 => Some(EguiKey::F16),
            85 => Some(EguiKey::F17),
            86 => Some(EguiKey::F18),
            87 => Some(EguiKey::F19),
            88 => Some(EguiKey::F20),
            89 => Some(EguiKey::F21),
            90 => Some(EguiKey::F22),
            91 => Some(EguiKey::F23),
            92 => Some(EguiKey::F24),
            93 => Some(EguiKey::F25),
            94 => Some(EguiKey::F26),
            95 => Some(EguiKey::F27),
            96 => Some(EguiKey::F28),
            97 => Some(EguiKey::F29),
            98 => Some(EguiKey::F30),
            99 => Some(EguiKey::F31),
            100 => Some(EguiKey::F32),
            101 => Some(EguiKey::F33),
            102 => Some(EguiKey::F34),
            103 => Some(EguiKey::F35),
            _ => None,
        };
        proof {
            lemma_key_with_ordinal(n as int);
            if let Some(k) = r {
                assert(k.ordinal() == n);
            }
        }
        r
    }
}


/// The egui key at a position of egui's declaration, if the position is below the number
/// of declared keys.
pub open spec fn key_with_ordinal(n: int) -> Option<EguiKey> {
    if exists|k: EguiKey| k.ordinal() == n {
        Some(choose|k: EguiKey| k.ordinal() == n)
    } else {
        None
    }
}

/// Two keys at the same position of egui's declaration are the same key.
pub proof fn lemma_ordinal_injective(a: EguiKey, b: EguiKey)
    requires
        a.ordinal() == b.ordinal(),
    ensures
        a == b,
{
}

/// Every key's position lies below the number of declared keys.
pub proof fn lemma_ordinal_range(k: EguiKey)
    ensures
        0 <= k.ordinal() < EGUI_KEY_COUNT,
{
}

/// The key at a key's own position is that key; past the last declared key there is none.
pub proof fn lemma_key_with_ordinal(n: int)
    ensures
        forall|k: EguiKey| k.ordinal() == n ==> key_with_ordinal(n) == Some(k),
        n >= EGUI_KEY_COUNT ==> key_with_ordinal(n) is None,
{
    assert forall|k: EguiKey| k.ordinal() == n implies key_with_ordinal(n) == Some(k) by {
        let c = choose|c: EguiKey| c.ordinal() == n;
        lemma_ordinal_injective(c, k);
    }
    if n >= EGUI_KEY_COUNT {
        assert forall|k: EguiKey| k.ordinal() != n by {
            lemma_ordinal_range(k);
        }
    }
}

/// A physical key code, as far as egui has a key for it; every other code is `Other`.
#[derive(Clone, Copy, Debug, PartialEq, Eq, Hash)]
pub enum PhysicalKey {
    ArrowDown,
    ArrowLeft,
    ArrowRight,
    ArrowUp,
    Escape,
    Tab,
    Backspace,
    Enter,
    NumpadEnter,
    Insert,
    Delete,
    Home,
    End,
    PageUp,
    PageDown,
    Space,
    Comma,
    Period,
    Semicolon,
    Backslash,
    Slash,
    NumpadDivide,
    BracketLeft,
    BracketRight,
    Backquote,
    Cut,
    Copy,
    Paste,
    Minus,
    NumpadSubtract,
    NumpadAdd,
    Equal,
    Digit0,
    Numpad0,
    Digit1,
    Numpad1,
    Digit2,
    Numpad2,
    Digit3,
    Numpad3,
    Digit4,
    Numpad4,
    Digit5,
    Numpad5,
    Digit6,
    Numpad6,
    Digit7,
    Numpad7,
    Digit8,
    Numpad8,
    Digit9,
    Numpad9,
    KeyA,
    KeyB,
    KeyC,
    KeyD,
    KeyE,
    KeyF,
    KeyG,
    KeyH,
    KeyI,
    KeyJ,
    KeyK,
    KeyL,
    KeyM,
    KeyN,
    KeyO,
    KeyP,
    KeyQ,
    KeyR,
    KeyS,
    KeyT,
    KeyU,
    KeyV,
    KeyW,
    KeyX,
    KeyY,
    KeyZ,
    F1,
    F2,
    F3,
    F4,
    F5,
    F6,
    F7,
    F8,
    F9,
    F10,
    F11,
    F12,
    F13,
    F14,
    F15,
    F16,
    F17,
    F18,
    F19,
    F20,
    /// Any key code without an egui counterpart.
    Other,
}

/// The egui key that a physical key code stands for.
pub open spec fn physical_key_to_egui(key: PhysicalKey) -> Option<EguiKey> {
    match key {
        PhysicalKey::ArrowDown => Some(EguiKey::ArrowDown),
        PhysicalKey::ArrowLeft => Some(EguiKey::ArrowLeft),
        PhysicalKey::ArrowRight => Some(EguiKey::ArrowRight),
        PhysicalKey::ArrowUp => Some(EguiKey::ArrowUp),
        PhysicalKey::Escape => Some(EguiKey::Escape),
        PhysicalKey::Tab => Some(EguiKey::Tab),
        PhysicalKey::Backspace => Some(EguiKey::Backspace),
        PhysicalKey::Enter => Some(EguiKey::Enter),
        PhysicalKey::NumpadEnter => Some(EguiKey::Enter),
        PhysicalKey::Insert => Some(EguiKey::Insert),
        PhysicalKey::Delete => Some(EguiKey::Delete),
        PhysicalKey::Home => Some(EguiKey::Home),
        PhysicalKey::End => Some(EguiKey::End),
        PhysicalKey::PageUp => Some(EguiKey::PageUp),
        PhysicalKey::PageDown => Some(EguiKey::PageDown),
        PhysicalKey::Space => Some(EguiKey::Space),
        PhysicalKey::Comma => Some(EguiKey::Comma),
        PhysicalKey::Period => Some(EguiKey::Period),
        PhysicalKey::Semicolon => Some(EguiKey::Semicolon),
        PhysicalKey::Backslash => Some(EguiKey::Backslash),
        PhysicalKey::Slash => Some(EguiKey::Slash),
        PhysicalKey::NumpadDivide => Some(EguiKey::Slash),
        PhysicalKey::BracketLeft => Some(EguiKey::OpenBracket),
        PhysicalKey::BracketRight => Some(EguiKey::CloseBracket),
        PhysicalKey::Backquote => Some(EguiKey::Backtick),
        PhysicalKey::Cut => Some(EguiKey::Cut),
        PhysicalKey::Copy => Some(EguiKey::Copy),
        PhysicalKey::Paste => Some(EguiKey::Paste),
        PhysicalKey::Minus => Some(EguiKey::Minus),
        PhysicalKey::NumpadSubtract => Some(EguiKey::Minus),
        PhysicalKey::NumpadAdd => Some(EguiKey::Plus),
        PhysicalKey::Equal => Some(EguiKey::Equals),
        PhysicalKey::Digit0 => Some(EguiKey::Num0),
        PhysicalKey::Numpad0 => Some(EguiKey::Num0),
        PhysicalKey::Digit1 => Some(EguiKey::Num1),
        PhysicalKey::Numpad1 => Some(EguiKey::Num1),
        PhysicalKey::Digit2 => Some(EguiKey::Num2),
        PhysicalKey::Numpad2 => Some(EguiKey::Num2),
        PhysicalKey::Digit3 => Some(EguiKey::Num3),
        PhysicalKey::Numpad3 => Some(EguiKey::Num3),
        PhysicalKey::Digit4 => Some(EguiKey::Num4),
        PhysicalKey::Numpad4 => Some(EguiKey::Num4),
        PhysicalKey::Digit5 => Some(EguiKey::Num5),
        PhysicalKey::Numpad5 => Some(EguiKey::Num5),
        PhysicalKey::Digit6 => Some(EguiKey::Num6),
        PhysicalKey::Numpad6 => Some(EguiKey::Num6),
        PhysicalKey::Digit7 => Some(EguiKey::Num7),
        PhysicalKey::Numpad7 => Some(EguiKey::Num7),
        PhysicalKey::Digit8 => Some(EguiKey::Num8),
        PhysicalKey::Numpad8 => Some(EguiKey::Num8),
        PhysicalKey::Digit9 => Some(EguiKey::Num9),
        PhysicalKey::Numpad9 => Some(EguiKey::Num9),
        PhysicalKey::KeyA => Some(EguiKey::A),
        PhysicalKey::KeyB => Some(EguiKey::B),
        PhysicalKey::KeyC => Some(EguiKey::C),
        PhysicalKey::KeyD => Some(EguiKey::D),
        PhysicalKey::KeyE => Some(EguiKey::E),
        PhysicalKey::KeyF => Some(EguiKey::F),
        PhysicalKey::KeyG => Some(EguiKey::G),
        PhysicalKey::KeyH => Some(EguiKey::H),
        PhysicalKey::KeyI => Some(EguiKey::I),
        PhysicalKey::KeyJ => Some(EguiKey::J),
        PhysicalKey::KeyK => Some(EguiKey::K),
        PhysicalKey::KeyL => Some(EguiKey::L),
        PhysicalKey::KeyM => Some(EguiKey::M),
        PhysicalKey::KeyN => Some(EguiKey::N),
        PhysicalKey::KeyO => Some(EguiKey::O),
        PhysicalKey::KeyP => Some(EguiKey::P),
        PhysicalKey::KeyQ => Some(EguiKey::Q),
        PhysicalKey::KeyR => Some(EguiKey::R),
        PhysicalKey::KeyS => Some(EguiKey::S),
        PhysicalKey::KeyT => Some(EguiKey::T),
        PhysicalKey::KeyU => Some(EguiKey::U),
        PhysicalKey::KeyV => Some(EguiKey::V),
        PhysicalKey::KeyW => Some(EguiKey::W),
        PhysicalKey::KeyX => Some(EguiKey::X),
        PhysicalKey::KeyY => Some(EguiKey::Y),
        PhysicalKey::KeyZ => Some(EguiKey::Z),
        PhysicalKey::F1 => Some(EguiKey::F1),
        PhysicalKey::F2 => Some(EguiKey::F2),
        PhysicalKey::F3 => Some(EguiKey::F3),
        PhysicalKey::F4 => Some(EguiKey::F4),
        PhysicalKey::F5 => Some(EguiKey::F5),
        PhysicalKey::F6 => Some(EguiKey::F6),
        PhysicalKey::F7 => Some(EguiKey::F7),
        PhysicalKey::F8 => Some(EguiKey::F8),
        PhysicalKey::F9 => Some(EguiKey::F9),
        PhysicalKey::F10 => Some(EguiKey::F10),
        PhysicalKey::F11 => Some(EguiKey::F11),
        PhysicalKey::F12 => Some(EguiKey::F12),
        PhysicalKey::F13 => Some(EguiKey::F13),
        PhysicalKey::F14 => Some(EguiKey::F14),
        PhysicalKey::F15 => Some(EguiKey::F15),
        PhysicalKey::F16 => Some(EguiKey::F16),
        PhysicalKey::F17 => Some(EguiKey::F17),
        PhysicalKey::F18 => Some(EguiKey::F18),
        PhysicalKey::F19 => Some(EguiKey::F19),
        PhysicalKey::F20 => Some(EguiKey::F20),
        PhysicalKey::Other => None,
    }
}

/// Maps a physical key code to egui's key, as egui's own winit integration does.
pub fn bevy_to_egui_physical_key(key: &PhysicalKey) -> (r: Option<EguiKey>)
    ensures
        r == physical_key_to_egui(*key),
{
    match key {
        PhysicalKey::ArrowDown => Some(EguiKey::ArrowDown),
        PhysicalKey::ArrowLeft => Some(EguiKey::ArrowLeft),
        PhysicalKey::ArrowRight => Some(EguiKey::ArrowRight),
        PhysicalKey::ArrowUp => Some(EguiKey::ArrowUp),
        PhysicalKey::Escape => Some(EguiKey::Escape),
        PhysicalKey::Tab => Some(EguiKey::Tab),
        PhysicalKey::Backspace => Some(EguiKey::Backspace),
        PhysicalKey::Enter => Some(EguiKey::Enter),
        PhysicalKey::NumpadEnter => Some(EguiKey::Enter),
        PhysicalKey::Insert => Some(EguiKey::Insert),
        PhysicalKey::Delete => Some(EguiKey::Delete),
        PhysicalKey::Home => Some(EguiKey::Home),
        PhysicalKey::End => Some(EguiKey::End),
        PhysicalKey::PageUp => Some(EguiKey::PageUp),
        PhysicalKey::PageDown => Some(EguiKey::PageDown),
        PhysicalKey::Space => Some(EguiKey::Space),
        PhysicalKey::Comma => Some(EguiKey::Comma),
        PhysicalKey::Period => Some(EguiKey::Period),
        PhysicalKey::Semicolon => Some(EguiKey::Semicolon),
        PhysicalKey::Backslash => Some(EguiKey::Backslash),
        PhysicalKey::Slash => Some(EguiKey::Slash),
        PhysicalKey::NumpadDivide => Some(EguiKey::Slash),
        PhysicalKey::BracketLeft => Some(EguiKey::OpenBracket),
        PhysicalKey::BracketRight => Some(EguiKey::CloseBracket),
        PhysicalKey::Backquote => Some(EguiKey::Backtick),
        PhysicalKey::Cut => Some(EguiKey::Cut),
        PhysicalKey::Copy => Some(EguiKey::Copy),
        PhysicalKey::Paste => Some(EguiKey::Paste),
        PhysicalKey::Minus => Some(EguiKey::Minus),
        PhysicalKey::NumpadSubtract => Some(EguiKey::Minus),
        PhysicalKey::NumpadAdd => Some(EguiKey::Plus),
        PhysicalKey::Equal => Some(EguiKey::Equals),
        PhysicalKey::Digit0 => Some(EguiKey::Num0),
        PhysicalKey::Numpad0 => Some(EguiKey::Num0),
        PhysicalKey::Digit1 => Some(EguiKey::Num1),
        PhysicalKey::Numpad1 => Some(EguiKey::Num1),
        PhysicalKey::Digit2 => Some(EguiKey::Num2),
        PhysicalKey::Numpad2 => Some(EguiKey::Num2),
        PhysicalKey::Digit3 => Some(EguiKey::Num3),
        PhysicalKey::Numpad3 => Some(EguiKey::Num3),
        PhysicalKey::Digit4 => Some(EguiKey::Num4),
        PhysicalKey::Numpad4 => Some(EguiKey::Num4),
        PhysicalKey::Digit5 => Some(EguiKey::Num5),
        PhysicalKey::Numpad5 => Some(EguiKey::Num5),
        PhysicalKey::Digit6 => Some(EguiKey::Num6),
        PhysicalKey::Numpad6 => Some(EguiKey::Num6),
        PhysicalKey::Digit7 => Some(EguiKey::Num7),
        PhysicalKey::Numpad7 => Some(EguiKey::Num7),
        PhysicalKey::Digit8 => Some(EguiKey::Num8),
        PhysicalKey::Numpad8 => Some(EguiKey::Num8),
        PhysicalKey::Digit9 => Some(EguiKey::Num9),
        PhysicalKey::Numpad9 => Some(EguiKey::Num9),
        PhysicalKey::KeyA => Some(EguiKey::A),
        PhysicalKey::KeyB => Some(EguiKey::B),
        PhysicalKey::KeyC => Some(EguiKey::C),
        PhysicalKey::KeyD => Some(EguiKey::D),
        PhysicalKey::KeyE => Some(EguiKey::E),
        PhysicalKey::KeyF => Some(EguiKey::F),
        PhysicalKey::KeyG => Some(EguiKey::G),
        PhysicalKey::KeyH => Some(EguiKey::H),
        PhysicalKey::KeyI => Some(EguiKey::I),
        PhysicalKey::KeyJ => Some(EguiKey::J),
        PhysicalKey::KeyK => Some(EguiKey::K),
        PhysicalKey::KeyL => Some(EguiKey::L),
        PhysicalKey::KeyM => Some(EguiKey::M),
        PhysicalKey::KeyN => Some(EguiKey::N),
        PhysicalKey::KeyO => Some(EguiKey::O),
        PhysicalKey::KeyP => Some(EguiKey::P),
        PhysicalKey::KeyQ => Some(EguiKey::Q),
        PhysicalKey::KeyR => Some(EguiKey::R),
        PhysicalKey::KeyS => Some(EguiKey::S),
        PhysicalKey::KeyT => Some(EguiKey::T),
        PhysicalKey::KeyU => Some(EguiKey::U),
        PhysicalKey::KeyV => Some(EguiKey::V),
        PhysicalKey::KeyW => Some(EguiKey::W),
        PhysicalKey::KeyX => Some(EguiKey::X),
        PhysicalKey::KeyY => Some(EguiKey::Y),
        PhysicalKey::KeyZ => Some(EguiKey::Z),
        PhysicalKey::F1 => Some(EguiKey::F1),
        PhysicalKey::F2 => Some(EguiKey::F2),
        PhysicalKey::F3 => Some(EguiKey::F3),
        PhysicalKey::F4 => Some(EguiKey::F4),
        PhysicalKey::F5 => Some(EguiKey::F5),
        PhysicalKey::F6 => Some(EguiKey::F6),
        PhysicalKey::F7 => Some(EguiKey::F7),
        PhysicalKey::F8 => Some(EguiKey::F8),
        PhysicalKey::F9 => Some(EguiKey::F9),
        PhysicalKey::F10 => Some(EguiKey::F10),
        PhysicalKey::F11 => Some(EguiKey::F11),
        PhysicalKey::F12 => Some(EguiKey::F12),
        PhysicalKey::F13 => Some(EguiKey::F13),
        PhysicalKey::F14 => Some(EguiKey::F14),
        PhysicalKey::F15 => Some(EguiKey::F15),
        PhysicalKey::F16 => Some(EguiKey::F16),
        PhysicalKey::F17 => Some(EguiKey::F17),
        PhysicalKey::F18 => Some(EguiKey::F18),
        PhysicalKey::F19 => Some(EguiKey::F19),
        PhysicalKey::F20 => Some(EguiKey::F20),
        PhysicalKey::Other => None,
    }
}



/// The position, in egui's declaration of its key enum, of the key that egui's
/// `Key::from_name` finds for a name, if it finds one.
pub uninterp spec fn egui_key_ordinal_from_name(name: Seq<char>) -> Option<u8>;

/// Calls egui's `Key::from_name` and hands back the position of the key found in egui's
/// declaration of its key enum. The contract claims that the result is a function of the
/// name alone, and that a position it hands back is below the number of declared keys.
#[verifier::external_body]
fn egui_key_ordinal(name: &str) -> (r: Option<u8>)
    ensures
        r == egui_key_ordinal_from_name(name@),
        r matches Some(n) ==> n < EGUI_KEY_COUNT,
{
    match egui::Key::from_name(name) {
        Some(key) => Some(key as u8),
        None => None,
    }
}

/// The key that egui's `Key::from_name` finds for a name.
pub open spec fn egui_key_for_name(name: Seq<char>) -> Option<EguiKey> {
    match egui_key_ordinal_from_name(name) {
        Some(n) => key_with_ordinal(n as int),
        None => None,
    }
}

/// The egui key that a logical key stands for: a character is looked up by its text
/// through egui, a named key by its name.
pub open spec fn logical_key_to_egui(key: LogicalKey) -> Option<EguiKey> {
    match key {
        LogicalKey::Character(s) => egui_key_for_name(s@),
        _ => named_key_to_egui(key),
    }
}

/// Looks a key up by its name (such as `"a"`, `"Enter"` or `"+"`) through egui.
pub fn key_from_name(name: &str) -> (r: Option<EguiKey>)
    ensures
        r == egui_key_for_name(name@),
{
    match egui_key_ordinal(name) {
        Some(n) => EguiKey::from_ordinal(n),
        None => None,
    }
}

/// A logical key: what a key press means under the current keyboard layout.
#[derive(Clone, Debug, PartialEq, Eq)]
pub enum LogicalKey {
    /// A key that produces text.
    Character(String),
    /// A key whose meaning the platform could not identify.
    Unidentified,
    /// A dead key, which combines with the next key press.
    Dead,
    /// The shift modifier.
    Shift,
    /// The control modifier.
    Control,
    /// The alt modifier.
    Alt,
    /// The super (windows, command) key.
    Super,
    /// The meta key.
    Meta,
    Enter,
    Tab,
    Space,
    ArrowDown,
    ArrowLeft,
    ArrowRight,
    ArrowUp,
    End,
    Home,
    PageDown,
    PageUp,
    Backspace,
    Delete,
    Insert,
    Escape,
    F1,
    F2,
    F3,
    F4,
    F5,
    F6,
    F7,
    F8,
    F9,
    F10,
    F11,
    F12,
    F13,
    F14,
    F15,
    F16,
    F17,
    F18,
    F19,
    F20,
    /// Any other named key.
    Other,
}

/// The egui key that a logical key other than a character stands for.
pub open spec fn named_key_to_egui(key: LogicalKey) -> Option<EguiKey> {
    match key {
        LogicalKey::Enter => Some(EguiKey::Enter),
        LogicalKey::Tab => Some(EguiKey::Tab),
        LogicalKey::Space => Some(EguiKey::Space),
        LogicalKey::ArrowDown => Some(EguiKey::ArrowDown),
        LogicalKey::ArrowLeft => Some(EguiKey::ArrowLeft),
        LogicalKey::ArrowRight => Some(EguiKey::ArrowRight),
        LogicalKey::ArrowUp => Some(EguiKey::ArrowUp),
        LogicalKey::End => Some(EguiKey::End),
        LogicalKey::Home => Some(EguiKey::Home),
        LogicalKey::PageDown => Some(EguiKey::PageDown),
        LogicalKey::PageUp => Some(EguiKey::PageUp),
        LogicalKey::Backspace => Some(EguiKey::Backspace),
        LogicalKey::Delete => Some(EguiKey::Delete),
        LogicalKey::Insert => Some(EguiKey::Insert),
        LogicalKey::Escape => Some(EguiKey::Escape),
        LogicalKey::F1 => Some(EguiKey::F1),
        LogicalKey::F2 => Some(EguiKey::F2),
        LogicalKey::F3 => Some(EguiKey::F3),
        LogicalKey::F4 => Some(EguiKey::F4),
        LogicalKey::F5 => Some(EguiKey::F5),
        LogicalKey::F6 => Some(EguiKey::F6),
        LogicalKey::F7 => Some(EguiKey::F7),
        LogicalKey::F8 => Some(EguiKey::F8),
        LogicalKey::F9 => Some(EguiKey::F9),
        LogicalKey::F10 => Some(EguiKey::F10),
        LogicalKey::F11 => Some(EguiKey::F11),
        LogicalKey::F12 => Some(EguiKey::F12),
        LogicalKey::F13 => Some(EguiKey::F13),
        LogicalKey::F14 => Some(EguiKey::F14),
        LogicalKey::F15 => Some(EguiKey::F15),
        LogicalKey::F16 => Some(EguiKey::F16),
        LogicalKey::F17 => Some(EguiKey::F17),
        LogicalKey::F18 => Some(EguiKey::F18),
        LogicalKey::F19 => Some(EguiKey::F19),
        LogicalKey::F20 => Some(EguiKey::F20),
        _ => None,
    }
}

/// Maps a logical key to egui's key, as egui's own winit integration does: a character is
/// looked up by its text through egui, a named key by its name; unidentified and dead keys,
/// modifiers and other named keys have no egui key.
pub fn bevy_to_egui_key(key: &LogicalKey) -> (r: Option<EguiKey>)
    ensures
        r == logical_key_to_egui(*key),
{
    match key {
        LogicalKey::Character(s) => key_from_name(s.as_str()),
        LogicalKey::Enter => Some(EguiKey::Enter),
        LogicalKey::Tab => Some(EguiKey::Tab),
        LogicalKey::Space => Some(EguiKey::Space),
        LogicalKey::ArrowDown => Some(EguiKey::ArrowDown),
        LogicalKey::ArrowLeft => Some(EguiKey::ArrowLeft),
        LogicalKey::ArrowRight => Some(EguiKey::ArrowRight),
        LogicalKey::ArrowUp => Some(EguiKey::ArrowUp),
        LogicalKey::End => Some(EguiKey::End),
        LogicalKey::Home => Some(EguiKey::Home),
        LogicalKey::PageDown => Some(EguiKey::PageDown),
        LogicalKey::PageUp => Some(EguiKey::PageUp),
        LogicalKey::Backspace => Some(EguiKey::Backspace),
        LogicalKey::Delete => Some(EguiKey::Delete),
        LogicalKey::Insert => Some(EguiKey::Insert),
        LogicalKey::Escape => Some(EguiKey::Escape),
        LogicalKey::F1 => Some(EguiKey::F1),
        LogicalKey::F2 => Some(EguiKey::F2),
        LogicalKey::F3 => Some(EguiKey::F3),
        LogicalKey::F4 => Some(EguiKey::F4),
        LogicalKey::F5 => Some(EguiKey::F5),
        LogicalKey::F6 => Some(EguiKey::F6),
        LogicalKey::F7 => Some(EguiKey::F7),
        LogicalKey::F8 => Some(EguiKey::F8),
        LogicalKey::F9 => Some(EguiKey::F9),
        LogicalKey::F10 => Some(EguiKey::F10),
        LogicalKey::F11 => Some(EguiKey::F11),
        LogicalKey::F12 => Some(EguiKey::F12),
        LogicalKey::F13 => Some(EguiKey::F13),
        LogicalKey::F14 => Some(EguiKey::F14),
        LogicalKey::F15 => Some(EguiKey::F15),
        LogicalKey::F16 => Some(EguiKey::F16),
        LogicalKey::F17 => Some(EguiKey::F17),
        LogicalKey::F18 => Some(EguiKey::F18),
        LogicalKey::F19 => Some(EguiKey::F19),
        LogicalKey::F20 => Some(EguiKey::F20),
        _ => None,
    }
}

/// Law: every named logical key stands for the egui key of the same name (the up arrow
/// for the up arrow, F5 for F5, and so on), and a modifier, dead, unidentified or other key
/// for none.
pub proof fn law_named_keys_keep_their_names()
    ensures
        logical_key_to_egui(LogicalKey::Enter) == Some(EguiKey::Enter),
        logical_key_to_egui(LogicalKey::Tab) == Some(EguiKey::Tab),
        logical_key_to_egui(LogicalKey::Space) == Some(EguiKey::Space),
        logical_key_to_egui(LogicalKey::ArrowDown) == Some(EguiKey::ArrowDown),
        logical_key_to_egui(LogicalKey::ArrowLeft) == Some(EguiKey::ArrowLeft),
        logical_key_to_egui(LogicalKey::ArrowRight) == Some(EguiKey::ArrowRight),
        logical_key_to_egui(LogicalKey::ArrowUp) == Some(EguiKey::ArrowUp),
        logical_key_to_egui(LogicalKey::End) == Some(EguiKey::End),
        logical_key_to_egui(LogicalKey::Home) == Some(EguiKey::Home),
        logical_key_to_egui(LogicalKey::PageDown) == Some(EguiKey::PageDown),
        logical_key_to_egui(LogicalKey::PageUp) == Some(EguiKey::PageUp),
        logical_key_to_egui(LogicalKey::Backspace) == Some(EguiKey::Backspace),
        logical_key_to_egui(LogicalKey::Delete) == Some(EguiKey::Delete),
        logical_key_to_egui(LogicalKey::Insert) == Some(EguiKey::Insert),
        logical_key_to_egui(LogicalKey::Escape) == Some(EguiKey::Escape),
        logical_key_to_egui(LogicalKey::F1) == Some(EguiKey::F1),
        logical_key_to_egui(LogicalKey::F2) == Some(EguiKey::F2),
        logical_key_to_egui(LogicalKey::F3) == Some(EguiKey::F3),
        logical_key_to_egui(LogicalKey::F4) == Some(EguiKey::F4),
        logical_key_to_egui(LogicalKey::F5) == Some(EguiKey::F5),
        logical_key_to_egui(LogicalKey::F6) == Some(EguiKey::F6),
        logical_key_to_egui(LogicalKey::F7) == Some(EguiKey::F7),
        logical_key_to_egui(LogicalKey::F8) == Some(EguiKey::F8),
        logical_key_to_egui(LogicalKey::F9) == Some(EguiKey::F9),
        logical_key_to_egui(LogicalKey::F10) == Some(EguiKey::F10),
        logical_key_to_egui(LogicalKey::F11) == Some(EguiKey::F11),
        logical_key_to_egui(LogicalKey::F12) == Some(EguiKey::F12),
        logical_key_to_egui(LogicalKey::F13) == Some(EguiKey::F13),
        logical_key_to_egui(LogicalKey::F14) == Some(EguiKey::F14),
        logical_key_to_egui(LogicalKey::F15) == Some(EguiKey::F15),
        logical_key_to_egui(LogicalKey::F16) == Some(EguiKey::F16),
        logical_key_to_egui(LogicalKey::F17) == Some(EguiKey::F17),
        logical_key_to_egui(LogicalKey::F18) == Some(EguiKey::F18),
        logical_key_to_egui(LogicalKey::F19) == Some(EguiKey::F19),
        logical_key_to_egui(LogicalKey::F20) == Some(EguiKey::F20),
        logical_key_to_egui(LogicalKey::Unidentified) is None,
        logical_key_to_egui(LogicalKey::Dead) is None,
        logical_key_to_egui(LogicalKey::Shift) is None,
        logical_key_to_egui(LogicalKey::Control) is None,
        logical_key_to_egui(LogicalKey::Alt) is None,
        logical_key_to_egui(LogicalKey::Super) is None,
        logical_key_to_egui(LogicalKey::Meta) is None,
        logical_key_to_egui(LogicalKey::Other) is None,
{
}

/// Law: every physical key stands for the egui key printed on it in the US layout: a letter
/// key for its letter, a digit key of the main block or of the numpad for its digit, the
/// numpad's enter, divide, subtract and add keys for enter, slash, minus and plus, and a key
/// that egui does not know for none.
pub proof fn law_physical_keys_keep_their_names()
    ensures
        physical_key_to_egui(PhysicalKey::ArrowDown) == Some(EguiKey::ArrowDown),
        physical_key_to_egui(PhysicalKey::ArrowLeft) == Some(EguiKey::ArrowLeft),
        physical_key_to_egui(PhysicalKey::ArrowRight) == Some(EguiKey::ArrowRight),
        physical_key_to_egui(PhysicalKey::ArrowUp) == Some(EguiKey::ArrowUp),
        physical_key_to_egui(PhysicalKey::Escape) == Some(EguiKey::Escape),
        physical_key_to_egui(PhysicalKey::Tab) == Some(EguiKey::Tab),
        physical_key_to_egui(PhysicalKey::Backspace) == Some(EguiKey::Backspace),
        physical_key_to_egui(PhysicalKey::Enter) == Some(EguiKey::Enter),
        physical_key_to_egui(PhysicalKey::NumpadEnter) == Some(EguiKey::Enter),
        physical_key_to_egui(PhysicalKey::Insert) == Some(EguiKey::Insert),
        physical_key_to_egui(PhysicalKey::Delete) == Some(EguiKey::Delete),
        physical_key_to_egui(PhysicalKey::Home) == Some(EguiKey::Home),
        physical_key_to_egui(PhysicalKey::End) == Some(EguiKey::End),
        physical_key_to_egui(PhysicalKey::PageUp) == Some(EguiKey::PageUp),
        physical_key_to_egui(PhysicalKey::PageDown) == Some(EguiKey::PageDown),
        physical_key_to_egui(PhysicalKey::Space) == Some(EguiKey::Space),
        physical_key_to_egui(PhysicalKey::Comma) == Some(EguiKey::Comma),
        physical_key_to_egui(PhysicalKey::Period) == Some(EguiKey::Period),
        physical_key_to_egui(PhysicalKey::Semicolon) == Some(EguiKey::Semicolon),
        physical_key_to_egui(PhysicalKey::Backslash) == Some(EguiKey::Backslash),
        physical_key_to_egui(PhysicalKey::Slash) == Some(EguiKey::Slash),
        physical_key_to_egui(PhysicalKey::NumpadDivide) == Some(EguiKey::Slash),
        physical_key_to_egui(PhysicalKey::BracketLeft) == Some(EguiKey::OpenBracket),
        physical_key_to_egui(PhysicalKey::BracketRight) == Some(EguiKey::CloseBracket),
        physical_key_to_egui(PhysicalKey::Backquote) == Some(EguiKey::Backtick),
        physical_key_to_egui(PhysicalKey::Cut) == Some(EguiKey::Cut),
        physical_key_to_egui(PhysicalKey::Copy) == Some(EguiKey::Copy),
        physical_key_to_egui(PhysicalKey::Paste) == Some(EguiKey::Paste),
        physical_key_to_egui(PhysicalKey::Minus) == Some(EguiKey::Minus),
        physical_key_to_egui(PhysicalKey::NumpadSubtract) == Some(EguiKey::Minus),
        physical_key_to_egui(PhysicalKey::NumpadAdd) == Some(EguiKey::Plus),
        physical_key_to_egui(PhysicalKey::Equal) == Some(EguiKey::Equals),
        physical_key_to_egui(PhysicalKey::Digit0) == Some(EguiKey::Num0),
        physical_key_to_egui(PhysicalKey::Numpad0) == Some(EguiKey::Num0),
        physical_key_to_egui(PhysicalKey::Digit1) == Some(EguiKey::Num1),
        physical_key_to_egui(PhysicalKey::Numpad1) == Some(EguiKey::Num1),
        physical_key_to_egui(PhysicalKey::Digit2) == Some(EguiKey::Num2),
        physical_key_to_egui(PhysicalKey::Numpad2) == Some(EguiKey::Num2),
        physical_key_to_egui(PhysicalKey::Digit3) == Some(EguiKey::Num3),
        physical_key_to_egui(PhysicalKey::Numpad3) == Some(EguiKey::Num3),
        physical_key_to_egui(PhysicalKey::Digit4) == Some(EguiKey::Num4),
        physical_key_to_egui(PhysicalKey::Numpad4) == Some(EguiKey::Num4),
        physical_key_to_egui(PhysicalKey::Digit5) == Some(EguiKey::Num5),
        physical_key_to_egui(PhysicalKey::Numpad5) == Some(EguiKey::Num5),
        physical_key_to_egui(PhysicalKey::Digit6) == Some(EguiKey::Num6),
        physical_key_to_egui(PhysicalKey::Numpad6) == Some(EguiKey::Num6),
        physical_key_to_egui(PhysicalKey::Digit7) == Some(EguiKey::Num7),
        physical_key_to_egui(PhysicalKey::Numpad7) == Some(EguiKey::Num7),
        physical_key_to_egui(PhysicalKey::Digit8) == Some(EguiKey::Num8),
        physical_key_to_egui(PhysicalKey::Numpad8) == Some(EguiKey::Num8),
        physical_key_to_egui(PhysicalKey::Digit9) == Some(EguiKey::Num9),
        physical_key_to_egui(PhysicalKey::Numpad9) == Some(EguiKey::Num9),
        physical_key_to_egui(PhysicalKey::KeyA) == Some(EguiKey::A),
        physical_key_to_egui(PhysicalKey::KeyB) == Some(EguiKey::B),
        physical_key_to_egui(PhysicalKey::KeyC) == Some(EguiKey::C),
        physical_key_to_egui(PhysicalKey::KeyD) == Some(EguiKey::D),
        physical_key_to_egui(PhysicalKey::KeyE) == Some(EguiKey::E),
        physical_key_to_egui(PhysicalKey::KeyF) == Some(EguiKey::F),
        physical_key_to_egui(PhysicalKey::KeyG) == Some(EguiKey::G),
        physical_key_to_egui(PhysicalKey::KeyH) == Some(EguiKey::H),
        physical_key_to_egui(PhysicalKey::KeyI) == Some(EguiKey::I),
        physical_key_to_egui(PhysicalKey::KeyJ) == Some(EguiKey::J),
        physical_key_to_egui(PhysicalKey::KeyK) == Some(EguiKey::K),
        physical_key_to_egui(PhysicalKey::KeyL) == Some(EguiKey::L),
        physical_key_to_egui(PhysicalKey::KeyM) == Some(EguiKey::M),
        physical_key_to_egui(PhysicalKey::KeyN) == Some(EguiKey::N),
        physical_key_to_egui(PhysicalKey::KeyO) == Some(EguiKey::O),
        physical_key_to_egui(PhysicalKey::KeyP) == Some(EguiKey::P),
        physical_key_to_egui(PhysicalKey::KeyQ) == Some(EguiKey::Q),
        physical_key_to_egui(PhysicalKey::KeyR) == Some(EguiKey::R),
        physical_key_to_egui(PhysicalKey::KeyS) == Some(EguiKey::S),
        physical_key_to_egui(PhysicalKey::KeyT) == Some(EguiKey::T),
        physical_key_to_egui(PhysicalKey::KeyU) == Some(EguiKey::U),
        physical_key_to_egui(PhysicalKey::KeyV) == Some(EguiKey::V),
        physical_key_to_egui(PhysicalKey::KeyW) == Some(EguiKey::W),
        physical_key_to_egui(PhysicalKey::KeyX) == Some(EguiKey::X),
        physical_key_to_egui(PhysicalKey::KeyY) == Some(EguiKey::Y),
        physical_key_to_egui(PhysicalKey::KeyZ) == Some(EguiKey::Z),
        physical_key_to_egui(PhysicalKey::F1) == Some(EguiKey::F1),
        physical_key_to_egui(PhysicalKey::F2) == Some(EguiKey::F2),
        physical_key_to_egui(PhysicalKey::F3) == Some(EguiKey::F3),
        physical_key_to_egui(PhysicalKey::F4) == Some(EguiKey::F4),
        physical_key_to_egui(PhysicalKey::F5) == Some(EguiKey::F5),
        physical_key_to_egui(PhysicalKey::F6) == Some(EguiKey::F6),
        physical_key_to_egui(PhysicalKey::F7) == Some(EguiKey::F7),
        physical_key_to_egui(PhysicalKey::F8) == Some(EguiKey::F8),
        physical_key_to_egui(PhysicalKey::F9) == Some(EguiKey::F9),
        physical_key_to_egui(PhysicalKey::F10) == Some(EguiKey::F10),
        physical_key_to_egui(PhysicalKey::F11) == Some(EguiKey::F11),
        physical_key_to_egui(PhysicalKey::F12) == Some(EguiKey::F12),
        physical_key_to_egui(PhysicalKey::F13) == Some(EguiKey::F13),
        physical_key_to_egui(PhysicalKey::F14) == Some(EguiKey::F14),
        physical_key_to_egui(PhysicalKey::F15) == Some(EguiKey::F15),
        physical_key_to_egui(PhysicalKey::F16) == Some(EguiKey::F16),
        physical_key_to_egui(PhysicalKey::F17) == Some(EguiKey::F17),
        physical_key_to_egui(PhysicalKey::F18) == Some(EguiKey::F18),
        physical_key_to_egui(PhysicalKey::F19) == Some(EguiKey::F19),
        physical_key_to_egui(PhysicalKey::F20) == Some(EguiKey::F20),
        physical_key_to_egui(PhysicalKey::Other) is None,
{
}

} // verus!
