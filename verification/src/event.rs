//! The event taxonomy: raw `(event_type, code)` pairs classified into a
//! fixed set of categories, each with its own table of enumerated codes.
//! The tables follow the Linux input event code assignments for the
//! ranges this soundboard consumes; the key table covers the classic
//! keyboard block, codes 0 through 127 (84 is unassigned there).
//! Classification is a best-effort annotation for diagnostics: a pair
//! outside the tables, and every power event, classifies as `None`,
//! while the raw record stays usable either way.

use vstd::prelude::*;
use crate::input::InputEventWrapper;

verus! {

#[allow(non_camel_case_types)]
#[derive(Clone, Copy, Debug, PartialEq, Eq, Structural)]
pub enum Synchronization {
    SYN_REPORT,
    SYN_CONFIG,
    SYN_MT_REPORT,
    SYN_DROPPED,
}

/// The raw code of this `Synchronization` in its table.
pub open spec fn syn_repr(x: Synchronization) -> u16 {
    match x {
        Synchronization::SYN_REPORT => 0,
        Synchronization::SYN_CONFIG => 1,
        Synchronization::SYN_MT_REPORT => 2,
        Synchronization::SYN_DROPPED => 3,
    }
}

/// Is `c` a code in the `Synchronization` table?
pub open spec fn syn_code_valid(c: u16) -> bool {
    c <= 3
}

impl Synchronization {
    /// Look `code` up in the `Synchronization` table.
    pub fn from_repr(code: u16) -> (r: Option<Synchronization>)
        ensures
            match r {
                Some(x) => syn_code_valid(code) && syn_repr(x) == code,
                None => !syn_code_valid(code),
            },
    {
        match code {
            0 => Some(Synchronization::SYN_REPORT),
            1 => Some(Synchronization::SYN_CONFIG),
            2 => Some(Synchronization::SYN_MT_REPORT),
            3 => Some(Synchronization::SYN_DROPPED),
            _ => None,
        }
    }
}

#[allow(non_camel_case_types)]
#[derive(Clone, Copy, Debug, PartialEq, Eq, Structural)]
pub enum Key {
    KEY_RESERVED,
    KEY_ESC,
    KEY_1,
    KEY_2,
    KEY_3,
    KEY_4,
    KEY_5,
    KEY_6,
    KEY_7,
    KEY_8,
    KEY_9,
    KEY_0,
    KEY_MINUS,
    KEY_EQUAL,
    KEY_BACKSPACE,
    KEY_TAB,
    KEY_Q,
    KEY_W,
    KEY_E,
    KEY_R,
    KEY_T,
    KEY_Y,
    KEY_U,
    KEY_I,
    KEY_O,
    KEY_P,
    KEY_LEFTBRACE,
    KEY_RIGHTBRACE,
    KEY_ENTER,
    KEY_LEFTCTRL,
    KEY_A,
    KEY_S,
    KEY_D,
    KEY_F,
    KEY_G,
    KEY_H,
    KEY_J,
    KEY_K,
    KEY_L,
    KEY_SEMICOLON,
    KEY_APOSTROPHE,
    KEY_GRAVE,
    KEY_LEFTSHIFT,
    KEY_BACKSLASH,
    KEY_Z,
    KEY_X,
    KEY_C,
    KEY_V,
    KEY_B,
    KEY_N,
    KEY_M,
    KEY_COMMA,
    KEY_DOT,
    KEY_SLASH,
    KEY_RIGHTSHIFT,
    KEY_KPASTERISK,
    KEY_LEFTALT,
    KEY_SPACE,
    KEY_CAPSLOCK,
    KEY_F1,
    KEY_F2,
    KEY_F3,
    KEY_F4,
    KEY_F5,
    KEY_F6,
    KEY_F7,
    KEY_F8,
    KEY_F9,
    KEY_F10,
    KEY_NUMLOCK,
    KEY_SCROLLLOCK,
    KEY_KP7,
    KEY_KP8,
    KEY_KP9,
    KEY_KPMINUS,
    KEY_KP4,
    KEY_KP5,
    KEY_KP6,
    KEY_KPPLUS,
    KEY_KP1,
    KEY_KP2,
    KEY_KP3,
    KEY_KP0,
    KEY_KPDOT,
    KEY_ZENKAKUHANKAKU,
    KEY_102ND,
    KEY_F11,
    KEY_F12,
    KEY_RO,
    KEY_KATAKANA,
    KEY_HIRAGANA,
    KEY_HENKAN,
    KEY_KATAKANAHIRAGANA,
    KEY_MUHENKAN,
    KEY_KPJPCOMMA,
    KEY_KPENTER,
    KEY_RIGHTCTRL,
    KEY_KPSLASH,
    KEY_SYSRQ,
    KEY_RIGHTALT,
    KEY_LINEFEED,
    KEY_HOME,
    KEY_UP,
    KEY_PAGEUP,
    KEY_LEFT,
    KEY_RIGHT,
    KEY_END,
    KEY_DOWN,
    KEY_PAGEDOWN,
    KEY_INSERT,
    KEY_DELETE,
    KEY_MACRO,
    KEY_MUTE,
    KEY_VOLUMEDOWN,
    KEY_VOLUMEUP,
    KEY_POWER,
    KEY_KPEQUAL,
    KEY_KPPLUSMINUS,
    KEY_PAUSE,
    KEY_SCALE,
    KEY_KPCOMMA,
    KEY_HANGEUL,
    KEY_HANJA,
    KEY_YEN,
    KEY_LEFTMETA,
    KEY_RIGHTMETA,
    KEY_COMPOSE,
}

/// The raw code of this `Key` in its table.
pub open spec fn key_repr(x: Key) -> u16 {
    match x {
        Key::KEY_RESERVED => 0,
        Key::KEY_ESC => 1,
        Key::KEY_1 => 2,
        Key::KEY_2 => 3,
        Key::KEY_3 => 4,
        Key::KEY_4 => 5,
        Key::KEY_5 => 6,
        Key::KEY_6 => 7,
        Key::KEY_7 => 8,
        Key::KEY_8 => 9,
        Key::KEY_9 => 10,
        Key::KEY_0 => 11,
        Key::KEY_MINUS => 12,
        Key::KEY_EQUAL => 13,
        Key::KEY_BACKSPACE => 14,
        Key::KEY_TAB => 15,
        Key::KEY_Q => 16,
        Key::KEY_W => 17,
        Key::KEY_E => 18,
        Key::KEY_R => 19,
        Key::KEY_T => 20,
        Key::KEY_Y => 21,
        Key::KEY_U => 22,
        Key::KEY_I => 23,
        Key::KEY_O => 24,
        Key::KEY_P => 25,
        Key::KEY_LEFTBRACE => 26,
        Key::KEY_RIGHTBRACE => 27,
        Key::KEY_ENTER => 28,
        Key::KEY_LEFTCTRL => 29,
        Key::KEY_A => 30,
        Key::KEY_S => 31,
        Key::KEY_D => 32,
        Key::KEY_F => 33,
        Key::KEY_G => 34,
        Key::KEY_H => 35,
        Key::KEY_J => 36,
        Key::KEY_K => 37,
        Key::KEY_L => 38,
        Key::KEY_SEMICOLON => 39,
        Key::KEY_APOSTROPHE => 40,
        Key::KEY_GRAVE => 41,
        Key::KEY_LEFTSHIFT => 42,
        Key::KEY_BACKSLASH => 43,
        Key::KEY_Z => 44,
        Key::KEY_X => 45,
        Key::KEY_C => 46,
        Key::KEY_V => 47,
        Key::KEY_B => 48,
        Key::KEY_N => 49,
        Key::KEY_M => 50,
        Key::KEY_COMMA => 51,
        Key::KEY_DOT => 52,
        Key::KEY_SLASH => 53,
        Key::KEY_RIGHTSHIFT => 54,
        Key::KEY_KPASTERISK => 55,
        Key::KEY_LEFTALT => 56,
        Key::KEY_SPACE => 57,
        Key::KEY_CAPSLOCK => 58,
        Key::KEY_F1 => 59,
        Key::KEY_F2 => 60,
        Key::KEY_F3 => 61,
        Key::KEY_F4 => 62,
        Key::KEY_F5 => 63,
        Key::KEY_F6 => 64,
        Key::KEY_F7 => 65,
        Key::KEY_F8 => 66,
        Key::KEY_F9 => 67,
        Key::KEY_F10 => 68,
        Key::KEY_NUMLOCK => 69,
        Key::KEY_SCROLLLOCK => 70,
        Key::KEY_KP7 => 71,
        Key::KEY_KP8 => 72,
        Key::KEY_KP9 => 73,
        Key::KEY_KPMINUS => 74,
        Key::KEY_KP4 => 75,
        Key::KEY_KP5 => 76,
        Key::KEY_KP6 => 77,
        Key::KEY_KPPLUS => 78,
        Key::KEY_KP1 => 79,
        Key::KEY_KP2 => 80,
        Key::KEY_KP3 => 81,
        Key::KEY_KP0 => 82,
        Key::KEY_KPDOT => 83,
        Key::KEY_ZENKAKUHANKAKU => 85,
        Key::KEY_102ND => 86,
        Key::KEY_F11 => 87,
        Key::KEY_F12 => 88,
        Key::KEY_RO => 89,
        Key::KEY_KATAKANA => 90,
        Key::KEY_HIRAGANA => 91,
        Key::KEY_HENKAN => 92,
        Key::KEY_KATAKANAHIRAGANA => 93,
        Key::KEY_MUHENKAN => 94,
        Key::KEY_KPJPCOMMA => 95,
        Key::KEY_KPENTER => 96,
        Key::KEY_RIGHTCTRL => 97,
        Key::KEY_KPSLASH => 98,
        Key::KEY_SYSRQ => 99,
        Key::KEY_RIGHTALT => 100,
        Key::KEY_LINEFEED => 101,
        Key::KEY_HOME => 102,
        Key::KEY_UP => 103,
        Key::KEY_PAGEUP => 104,
        Key::KEY_LEFT => 105,
        Key::KEY_RIGHT => 106,
        Key::KEY_END => 107,
        Key::KEY_DOWN => 108,
        Key::KEY_PAGEDOWN => 109,
        Key::KEY_INSERT => 110,
        Key::KEY_DELETE => 111,
        Key::KEY_MACRO => 112,
        Key::KEY_MUTE => 113,
        Key::KEY_VOLUMEDOWN => 114,
        Key::KEY_VOLUMEUP => 115,
        Key::KEY_POWER => 116,
        Key::KEY_KPEQUAL => 117,
        Key::KEY_KPPLUSMINUS => 118,
        Key::KEY_PAUSE => 119,
        Key::KEY_SCALE => 120,
        Key::KEY_KPCOMMA => 121,
        Key::KEY_HANGEUL => 122,
        Key::KEY_HANJA => 123,
        Key::KEY_YEN => 124,
        Key::KEY_LEFTMETA => 125,
        Key::KEY_RIGHTMETA => 126,
        Key::KEY_COMPOSE => 127,
    }
}

/// Is `c` a code in the `Key` table?
pub open spec fn key_code_valid(c: u16) -> bool {
    c <= 127 && c != 84
}

impl Key {
    /// Look `code` up in the `Key` table.
    pub fn from_repr(code: u16) -> (r: Option<Key>)
        ensures
            match r {
                Some(x) => key_code_valid(code) && key_repr(x) == code,
                None => !key_code_valid(code),
            },
    {
        match code {
            0 => Some(Key::KEY_RESERVED),
            1 => Some(Key::KEY_ESC),
            2 => Some(Key::KEY_1),
            3 => Some(Key::KEY_2),
            4 => Some(Key::KEY_3),
            5 => Some(Key::KEY_4),
            6 => Some(Key::KEY_5),
            7 => Some(Key::KEY_6),
            8 => Some(Key::KEY_7),
            9 => Some(Key::KEY_8),
            10 => Some(Key::KEY_9),
            11 => Some(Key::KEY_0),
            12 => Some(Key::KEY_MINUS),
            13 => Some(Key::KEY_EQUAL),
            14 => Some(Key::KEY_BACKSPACE),
            15 => Some(Key::KEY_TAB),
            16 => Some(Key::KEY_Q),
            17 => Some(Key::KEY_W),
            18 => Some(Key::KEY_E),
            19 => Some(Key::KEY_R),
            20 => Some(Key::KEY_T),
            21 => Some(Key::KEY_Y),
            22 => Some(Key::KEY_U),
            23 => Some(Key::KEY_I),
            24 => Some(Key::KEY_O),
            25 => Some(Key::KEY_P),
            26 => Some(Key::KEY_LEFTBRACE),
            27 => Some(Key::KEY_RIGHTBRACE),
            28 => Some(Key::KEY_ENTER),
            29 => Some(Key::KEY_LEFTCTRL),
            30 => Some(Key::KEY_A),
            31 => Some(Key::KEY_S),
            32 => Some(Key::KEY_D),
            33 => Some(Key::KEY_F),
            34 => Some(Key::KEY_G),
            35 => Some(Key::KEY_H),
            36 => Some(Key::KEY_J),
            37 => Some(Key::KEY_K),
            38 => Some(Key::KEY_L),
            39 => Some(Key::KEY_SEMICOLON),
            40 => Some(Key::KEY_APOSTROPHE),
            41 => Some(Key::KEY_GRAVE),
            42 => Some(Key::KEY_LEFTSHIFT),
            43 => Some(Key::KEY_BACKSLASH),
            44 => Some(Key::KEY_Z),
            45 => Some(Key::KEY_X),
            46 => Some(Key::KEY_C),
            47 => Some(Key::KEY_V),
            48 => Some(Key::KEY_B),
            49 => Some(Key::KEY_N),
            50 => Some(Key::KEY_M),
            51 => Some(Key::KEY_COMMA),
            52 => Some(Key::KEY_DOT),
            53 => Some(Key::KEY_SLASH),
            54 => Some(Key::KEY_RIGHTSHIFT),
            55 => Some(Key::KEY_KPASTERISK),
            56 => Some(Key::KEY_LEFTALT),
            57 => Some(Key::KEY_SPACE),
            58 => Some(Key::KEY_CAPSLOCK),
            59 => Some(Key::KEY_F1),
            60 => Some(Key::KEY_F2),
            61 => Some(Key::KEY_F3),
            62 => Some(Key::KEY_F4),
            63 => Some(Key::KEY_F5),
            64 => Some(Key::KEY_F6),
            65 => Some(Key::KEY_F7),
            66 => Some(Key::KEY_F8),
            67 => Some(Key::KEY_F9),
            68 => Some(Key::KEY_F10),
            69 => Some(Key::KEY_NUMLOCK),
            70 => Some(Key::KEY_SCROLLLOCK),
            71 => Some(Key::KEY_KP7),
            72 => Some(Key::KEY_KP8),
            73 => Some(Key::KEY_KP9),
            74 => Some(Key::KEY_KPMINUS),
            75 => Some(Key::KEY_KP4),
            76 => Some(Key::KEY_KP5),
            77 => Some(Key::KEY_KP6),
            78 => Some(Key::KEY_KPPLUS),
            79 => Some(Key::KEY_KP1),
            80 => Some(Key::KEY_KP2),
            81 => Some(Key::KEY_KP3),
            82 => Some(Key::KEY_KP0),
            83 => Some(Key::KEY_KPDOT),
            85 => Some(Key::KEY_ZENKAKUHANKAKU),
            86 => Some(Key::KEY_102ND),
            87 => Some(Key::KEY_F11),
            88 => Some(Key::KEY_F12),
            89 => Some(Key::KEY_RO),
            90 => Some(Key::KEY_KATAKANA),
            91 => Some(Key::KEY_HIRAGANA),
            92 => Some(Key::KEY_HENKAN),
            93 => Some(Key::KEY_KATAKANAHIRAGANA),
            94 => Some(Key::KEY_MUHENKAN),
            95 => Some(Key::KEY_KPJPCOMMA),
            96 => Some(Key::KEY_KPENTER),
            97 => Some(Key::KEY_RIGHTCTRL),
            98 => Some(Key::KEY_KPSLASH),
            99 => Some(Key::KEY_SYSRQ),
            100 => Some(Key::KEY_RIGHTALT),
            101 => Some(Key::KEY_LINEFEED),
            102 => Some(Key::KEY_HOME),
            103 => Some(Key::KEY_UP),
            104 => Some(Key::KEY_PAGEUP),
            105 => Some(Key::KEY_LEFT),
            106 => Some(Key::KEY_RIGHT),
            107 => Some(Key::KEY_END),
            108 => Some(Key::KEY_DOWN),
            109 => Some(Key::KEY_PAGEDOWN),
            110 => Some(Key::KEY_INSERT),
            111 => Some(Key::KEY_DELETE),
            112 => Some(Key::KEY_MACRO),
            113 => Some(Key::KEY_MUTE),
            114 => Some(Key::KEY_VOLUMEDOWN),
            115 => Some(Key::KEY_VOLUMEUP),
            116 => Some(Key::KEY_POWER),
            117 => Some(Key::KEY_KPEQUAL),
            118 => Some(Key::KEY_KPPLUSMINUS),
            119 => Some(Key::KEY_PAUSE),
            120 => Some(Key::KEY_SCALE),
            121 => Some(Key::KEY_KPCOMMA),
            122 => Some(Key::KEY_HANGEUL),
            123 => Some(Key::KEY_HANJA),
            124 => Some(Key::KEY_YEN),
            125 => Some(Key::KEY_LEFTMETA),
            126 => Some(Key::KEY_RIGHTMETA),
            127 => Some(Key::KEY_COMPOSE),
            _ => None,
        }
    }
}

#[allow(non_camel_case_types)]
#[derive(Clone, Copy, Debug, PartialEq, Eq, Structural)]
pub enum RelativeAxis {
    REL_X,
    REL_Y,
    REL_Z,
    REL_RX,
    REL_RY,
    REL_RZ,
    REL_HWHEEL,
    REL_DIAL,
    REL_WHEEL,
    REL_MISC,
    REL_WHEEL_HI_RES,
    REL_HWHEEL_HI_RES,
}

/// The raw code of this `RelativeAxis` in its table.
pub open spec fn rel_repr(x: RelativeAxis) -> u16 {
    match x {
        RelativeAxis::REL_X => 0,
        RelativeAxis::REL_Y => 1,
        RelativeAxis::REL_Z => 2,
        RelativeAxis::REL_RX => 3,
        RelativeAxis::REL_RY => 4,
        RelativeAxis::REL_RZ => 5,
        RelativeAxis::REL_HWHEEL => 6,
        RelativeAxis::REL_DIAL => 7,
        RelativeAxis::REL_WHEEL => 8,
        RelativeAxis::REL_MISC => 9,
        RelativeAxis::REL_WHEEL_HI_RES => 11,
        RelativeAxis::REL_HWHEEL_HI_RES => 12,
    }
}

/// Is `c` a code in the `RelativeAxis` table?
pub open spec fn rel_code_valid(c: u16) -> bool {
    c <= 9 || c == 11 || c == 12
}

impl RelativeAxis {
    /// Look `code` up in the `RelativeAxis` table.
    pub fn from_repr(code: u16) -> (r: Option<RelativeAxis>)
        ensures
            match r {
                Some(x) => rel_code_valid(code) && rel_repr(x) == code,
                None => !rel_code_valid(code),
            },
    {
        match code {
            0 => Some(RelativeAxis::REL_X),
            1 => Some(RelativeAxis::REL_Y),
            2 => Some(RelativeAxis::REL_Z),
            3 => Some(RelativeAxis::REL_RX),
            4 => Some(RelativeAxis::REL_RY),
            5 => Some(RelativeAxis::REL_RZ),
            6 => Some(RelativeAxis::REL_HWHEEL),
            7 => Some(RelativeAxis::REL_DIAL),
            8 => Some(RelativeAxis::REL_WHEEL),
            9 => Some(RelativeAxis::REL_MISC),
            11 => Some(RelativeAxis::REL_WHEEL_HI_RES),
            12 => Some(RelativeAxis::REL_HWHEEL_HI_RES),
            _ => None,
        }
    }
}

#[allow(non_camel_case_types)]
#[derive(Clone, Copy, Debug, PartialEq, Eq, Structural)]
pub enum AbsoluteAxis {
    ABS_X,
    ABS_Y,
    ABS_Z,
    ABS_RX,
    ABS_RY,
    ABS_RZ,
    ABS_THROTTLE,
    ABS_RUDDER,
    ABS_WHEEL,
    ABS_GAS,
    ABS_BRAKE,
    ABS_HAT0X,
    ABS_HAT0Y,
    ABS_HAT1X,
    ABS_HAT1Y,
    ABS_HAT2X,
    ABS_HAT2Y,
    ABS_HAT3X,
    ABS_HAT3Y,
    ABS_PRESSURE,
    ABS_DISTANCE,
    ABS_TILT_X,
    ABS_TILT_Y,
    ABS_TOOL_WIDTH,
    ABS_VOLUME,
    ABS_MISC,
}

/// The raw code of this `AbsoluteAxis` in its table.
pub open spec fn abs_repr(x: AbsoluteAxis) -> u16 {
    match x {
        AbsoluteAxis::ABS_X => 0,
        AbsoluteAxis::ABS_Y => 1,
        AbsoluteAxis::ABS_Z => 2,
        AbsoluteAxis::ABS_RX => 3,
        AbsoluteAxis::ABS_RY => 4,
        AbsoluteAxis::ABS_RZ => 5,
        AbsoluteAxis::ABS_THROTTLE => 6,
        AbsoluteAxis::ABS_RUDDER => 7,
        AbsoluteAxis::ABS_WHEEL => 8,
        AbsoluteAxis::ABS_GAS => 9,
        AbsoluteAxis::ABS_BRAKE => 10,
        AbsoluteAxis::ABS_HAT0X => 16,
        AbsoluteAxis::ABS_HAT0Y => 17,
        AbsoluteAxis::ABS_HAT1X => 18,
        AbsoluteAxis::ABS_HAT1Y => 19,
        AbsoluteAxis::ABS_HAT2X => 20,
        AbsoluteAxis::ABS_HAT2Y => 21,
        AbsoluteAxis::ABS_HAT3X => 22,
        AbsoluteAxis::ABS_HAT3Y => 23,
        AbsoluteAxis::ABS_PRESSURE => 24,
        AbsoluteAxis::ABS_DISTANCE => 25,
        AbsoluteAxis::ABS_TILT_X => 26,
        AbsoluteAxis::ABS_TILT_Y => 27,
        AbsoluteAxis::ABS_TOOL_WIDTH => 28,
        AbsoluteAxis::ABS_VOLUME => 32,
        AbsoluteAxis::ABS_MISC => 40,
    }
}

/// Is `c` a code in the `AbsoluteAxis` table?
pub open spec fn abs_code_valid(c: u16) -> bool {
    c <= 10 || (16 <= c && c <= 28) || c == 32 || c == 40
}

impl AbsoluteAxis {
    /// Look `code` up in the `AbsoluteAxis` table.
    pub fn from_repr(code: u16) -> (r: Option<AbsoluteAxis>)
        ensures
            match r {
                Some(x) => abs_code_valid(code) && abs_repr(x) == code,
                None => !abs_code_valid(code),
            },
    {
        match code {
            0 => Some(AbsoluteAxis::ABS_X),
            1 => Some(AbsoluteAxis::ABS_Y),
            2 => Some(AbsoluteAxis::ABS_Z),
            3 => Some(AbsoluteAxis::ABS_RX),
            4 => Some(AbsoluteAxis::ABS_RY),
            5 => Some(AbsoluteAxis::ABS_RZ),
            6 => Some(AbsoluteAxis::ABS_THROTTLE),
            7 => Some(AbsoluteAxis::ABS_RUDDER),
            8 => Some(AbsoluteAxis::ABS_WHEEL),
            9 => Some(AbsoluteAxis::ABS_GAS),
            10 => Some(AbsoluteAxis::ABS_BRAKE),
            16 => Some(AbsoluteAxis::ABS_HAT0X),
            17 => Some(AbsoluteAxis::ABS_HAT0Y),
            18 => Some(AbsoluteAxis::ABS_HAT1X),
            19 => Some(AbsoluteAxis::ABS_HAT1Y),
            20 => Some(AbsoluteAxis::ABS_HAT2X),
            21 => Some(AbsoluteAxis::ABS_HAT2Y),
            22 => Some(AbsoluteAxis::ABS_HAT3X),
            23 => Some(AbsoluteAxis::ABS_HAT3Y),
            24 => Some(AbsoluteAxis::ABS_PRESSURE),
            25 => Some(AbsoluteAxis::ABS_DISTANCE),
            26 => Some(AbsoluteAxis::ABS_TILT_X),
            27 => Some(AbsoluteAxis::ABS_TILT_Y),
            28 => Some(AbsoluteAxis::ABS_TOOL_WIDTH),
            32 => Some(AbsoluteAxis::ABS_VOLUME),
            40 => Some(AbsoluteAxis::ABS_MISC),
            _ => None,
        }
    }
}

#[allow(non_camel_case_types)]
#[derive(Clone, Copy, Debug, PartialEq, Eq, Structural)]
pub enum Miscellaneous {
    MSC_SERIAL,
    MSC_PULSELED,
    MSC_GESTURE,
    MSC_RAW,
    MSC_SCAN,
    MSC_TIMESTAMP,
}

/// The raw code of this `Miscellaneous` in its table.
pub open spec fn msc_repr(x: Miscellaneous) -> u16 {
    match x {
        Miscellaneous::MSC_SERIAL => 0,
        Miscellaneous::MSC_PULSELED => 1,
        Miscellaneous::MSC_GESTURE => 2,
        Miscellaneous::MSC_RAW => 3,
        Miscellaneous::MSC_SCAN => 4,
        Miscellaneous::MSC_TIMESTAMP => 5,
    }
}

/// Is `c` a code in the `Miscellaneous` table?
pub open spec fn msc_code_valid(c: u16) -> bool {
    c <= 5
}

impl Miscellaneous {
    /// Look `code` up in the `Miscellaneous` table.
    pub fn from_repr(code: u16) -> (r: Option<Miscellaneous>)
        ensures
            match r {
                Some(x) => msc_code_valid(code) && msc_repr(x) == code,
                None => !msc_code_valid(code),
            },
    {
        match code {
            0 => Some(Miscellaneous::MSC_SERIAL),
            1 => Some(Miscellaneous::MSC_PULSELED),
            2 => Some(Miscellaneous::MSC_GESTURE),
            3 => Some(Miscellaneous::MSC_RAW),
            4 => Some(Miscellaneous::MSC_SCAN),
            5 => Some(Miscellaneous::MSC_TIMESTAMP),
            _ => None,
        }
    }
}

#[allow(non_camel_case_types)]
#[derive(Clone, Copy, Debug, PartialEq, Eq, Structural)]
pub enum Switch {
    SW_LID,
    SW_TABLET_MODE,
    SW_HEADPHONE_INSERT,
    SW_RFKILL_ALL,
    SW_MICROPHONE_INSERT,
    SW_DOCK,
    SW_LINEOUT_INSERT,
    SW_JACK_PHYSICAL_INSERT,
    SW_VIDEOOUT_INSERT,
    SW_CAMERA_LENS_COVER,
    SW_KEYPAD_SLIDE,
    SW_FRONT_PROXIMITY,
    SW_ROTATE_LOCK,
    SW_LINEIN_INSERT,
    SW_MUTE_DEVICE,
    SW_PEN_INSERTED,
    SW_MACHINE_COVER,
}

/// The raw code of this `Switch` in its table.
pub open spec fn sw_repr(x: Switch) -> u16 {
    match x {
        Switch::SW_LID => 0,
        Switch::SW_TABLET_MODE => 1,
        Switch::SW_HEADPHONE_INSERT => 2,
        Switch::SW_RFKILL_ALL => 3,
        Switch::SW_MICROPHONE_INSERT => 4,
        Switch::SW_DOCK => 5,
        Switch::SW_LINEOUT_INSERT => 6,
        Switch::SW_JACK_PHYSICAL_INSERT => 7,
        Switch::SW_VIDEOOUT_INSERT => 8,
        Switch::SW_CAMERA_LENS_COVER => 9,
        Switch::SW_KEYPAD_SLIDE => 10,
        Switch::SW_FRONT_PROXIMITY => 11,
        Switch::SW_ROTATE_LOCK => 12,
        Switch::SW_LINEIN_INSERT => 13,
        Switch::SW_MUTE_DEVICE => 14,
        Switch::SW_PEN_INSERTED => 15,
        Switch::SW_MACHINE_COVER => 16,
    }
}

/// Is `c` a code in the `Switch` table?
pub open spec fn sw_code_valid(c: u16) -> bool {
    c <= 16
}

impl Switch {
    /// Look `code` up in the `Switch` table.
    pub fn from_repr(code: u16) -> (r: Option<Switch>)
        ensures
            match r {
                Some(x) => sw_code_valid(code) && sw_repr(x) == code,
                None => !sw_code_valid(code),
            },
    {
        match code {
            0 => Some(Switch::SW_LID),
            1 => Some(Switch::SW_TABLET_MODE),
            2 => Some(Switch::SW_HEADPHONE_INSERT),
            3 => Some(Switch::SW_RFKILL_ALL),
            4 => Some(Switch::SW_MICROPHONE_INSERT),
            5 => Some(Switch::SW_DOCK),
            6 => Some(Switch::SW_LINEOUT_INSERT),
            7 => Some(Switch::SW_JACK_PHYSICAL_INSERT),
            8 => Some(Switch::SW_VIDEOOUT_INSERT),
            9 => Some(Switch::SW_CAMERA_LENS_COVER),
            10 => Some(Switch::SW_KEYPAD_SLIDE),
            11 => Some(Switch::SW_FRONT_PROXIMITY),
            12 => Some(Switch::SW_ROTATE_LOCK),
            13 => Some(Switch::SW_LINEIN_INSERT),
            14 => Some(Switch::SW_MUTE_DEVICE),
            15 => Some(Switch::SW_PEN_INSERTED),
            16 => Some(Switch::SW_MACHINE_COVER),
            _ => None,
        }
    }
}

#[allow(non_camel_case_types)]
#[derive(Clone, Copy, Debug, PartialEq, Eq, Structural)]
pub enum LED {
    LED_NUML,
    LED_CAPSL,
    LED_SCROLLL,
    LED_COMPOSE,
    LED_KANA,
    LED_SLEEP,
    LED_SUSPEND,
    LED_MUTE,
    LED_MISC,
    LED_MAIL,
    LED_CHARGING,
}

/// The raw code of this `LED` in its table.
pub open spec fn led_repr(x: LED) -> u16 {
    match x {
        LED::LED_NUML => 0,
        LED::LED_CAPSL => 1,
        LED::LED_SCROLLL => 2,
        LED::LED_COMPOSE => 3,
        LED::LED_KANA => 4,
        LED::LED_SLEEP => 5,
        LED::LED_SUSPEND => 6,
        LED::LED_MUTE => 7,
        LED::LED_MISC => 8,
        LED::LED_MAIL => 9,
        LED::LED_CHARGING => 10,
    }
}

/// Is `c` a code in the `LED` table?
pub open spec fn led_code_valid(c: u16) -> bool {
    c <= 10
}

impl LED {
    /// Look `code` up in the `LED` table.
    pub fn from_repr(code: u16) -> (r: Option<LED>)
        ensures
            match r {
                Some(x) => led_code_valid(code) && led_repr(x) == code,
                None => !led_code_valid(code),
            },
    {
        match code {
            0 => Some(LED::LED_NUML),
            1 => Some(LED::LED_CAPSL),
            2 => Some(LED::LED_SCROLLL),
            3 => Some(LED::LED_COMPOSE),
            4 => Some(LED::LED_KANA),
            5 => Some(LED::LED_SLEEP),
            6 => Some(LED::LED_SUSPEND),
            7 => Some(LED::LED_MUTE),
            8 => Some(LED::LED_MISC),
            9 => Some(LED::LED_MAIL),
            10 => Some(LED::LED_CHARGING),
            _ => None,
        }
    }
}

#[allow(non_camel_case_types)]
#[derive(Clone, Copy, Debug, PartialEq, Eq, Structural)]
pub enum Sound {
    SND_CLICK,
    SND_BELL,
    SND_TONE,
}

/// The raw code of this `Sound` in its table.
pub open spec fn snd_repr(x: Sound) -> u16 {
    match x {
        Sound::SND_CLICK => 0,
        Sound::SND_BELL => 1,
        Sound::SND_TONE => 2,
    }
}

/// Is `c` a code in the `Sound` table?
pub open spec fn snd_code_valid(c: u16) -> bool {
    c <= 2
}

impl Sound {
    /// Look `code` up in the `Sound` table.
    pub fn from_repr(code: u16) -> (r: Option<Sound>)
        ensures
            match r {
                Some(x) => snd_code_valid(code) && snd_repr(x) == code,
                None => !snd_code_valid(code),
            },
    {
        match code {
            0 => Some(Sound::SND_CLICK),
            1 => Some(Sound::SND_BELL),
            2 => Some(Sound::SND_TONE),
            _ => None,
        }
    }
}

#[allow(non_camel_case_types)]
#[derive(Clone, Copy, Debug, PartialEq, Eq, Structural)]
pub enum AutoRepeat {
    REP_DELAY,
    REP_PERIOD,
}

/// The raw code of this `AutoRepeat` in its table.
pub open spec fn rep_repr(x: AutoRepeat) -> u16 {
    match x {
        AutoRepeat::REP_DELAY => 0,
        AutoRepeat::REP_PERIOD => 1,
    }
}

/// Is `c` a code in the `AutoRepeat` table?
pub open spec fn rep_code_valid(c: u16) -> bool {
    c <= 1
}

impl AutoRepeat {
    /// Look `code` up in the `AutoRepeat` table.
    pub fn from_repr(code: u16) -> (r: Option<AutoRepeat>)
        ensures
            match r {
                Some(x) => rep_code_valid(code) && rep_repr(x) == code,
                None => !rep_code_valid(code),
            },
    {
        match code {
            0 => Some(AutoRepeat::REP_DELAY),
            1 => Some(AutoRepeat::REP_PERIOD),
            _ => None,
        }
    }
}

#[allow(non_camel_case_types)]
#[derive(Clone, Copy, Debug, PartialEq, Eq, Structural)]
pub enum ForceFeedback {
    FF_RUMBLE,
    FF_PERIODIC,
    FF_CONSTANT,
    FF_SPRING,
    FF_FRICTION,
    FF_DAMPER,
    FF_INERTIA,
    FF_RAMP,
    FF_SQUARE,
    FF_TRIANGLE,
    FF_SINE,
    FF_SAW_UP,
    FF_SAW_DOWN,
    FF_CUSTOM,
    FF_GAIN,
    FF_AUTOCENTER,
}

/// The raw code of this `ForceFeedback` in its table.
pub open spec fn ff_repr(x: ForceFeedback) -> u16 {
    match x {
        ForceFeedback::FF_RUMBLE => 80,
        ForceFeedback::FF_PERIODIC => 81,
        ForceFeedback::FF_CONSTANT => 82,
        ForceFeedback::FF_SPRING => 83,
        ForceFeedback::FF_FRICTION => 84,
        ForceFeedback::FF_DAMPER => 85,
        ForceFeedback::FF_INERTIA => 86,
        ForceFeedback::FF_RAMP => 87,
        ForceFeedback::FF_SQUARE => 88,
        ForceFeedback::FF_TRIANGLE => 89,
        ForceFeedback::FF_SINE => 90,
        ForceFeedback::FF_SAW_UP => 91,
        ForceFeedback::FF_SAW_DOWN => 92,
        ForceFeedback::FF_CUSTOM => 93,
        ForceFeedback::FF_GAIN => 96,
        ForceFeedback::FF_AUTOCENTER => 97,
    }
}

/// Is `c` a code in the `ForceFeedback` table?
pub open spec fn ff_code_valid(c: u16) -> bool {
    (80 <= c && c <= 93) || c == 96 || c == 97
}

impl ForceFeedback {
    /// Look `code` up in the `ForceFeedback` table.
    pub fn from_repr(code: u16) -> (r: Option<ForceFeedback>)
        ensures
            match r {
                Some(x) => ff_code_valid(code) && ff_repr(x) == code,
                None => !ff_code_valid(code),
            },
    {
        match code {
            80 => Some(ForceFeedback::FF_RUMBLE),
            81 => Some(ForceFeedback::FF_PERIODIC),
            82 => Some(ForceFeedback::FF_CONSTANT),
            83 => Some(ForceFeedback::FF_SPRING),
            84 => Some(ForceFeedback::FF_FRICTION),
            85 => Some(ForceFeedback::FF_DAMPER),
            86 => Some(ForceFeedback::FF_INERTIA),
            87 => Some(ForceFeedback::FF_RAMP),
            88 => Some(ForceFeedback::FF_SQUARE),
            89 => Some(ForceFeedback::FF_TRIANGLE),
            90 => Some(ForceFeedback::FF_SINE),
            91 => Some(ForceFeedback::FF_SAW_UP),
            92 => Some(ForceFeedback::FF_SAW_DOWN),
            93 => Some(ForceFeedback::FF_CUSTOM),
            96 => Some(ForceFeedback::FF_GAIN),
            97 => Some(ForceFeedback::FF_AUTOCENTER),
            _ => None,
        }
    }
}

#[allow(non_camel_case_types)]
#[derive(Clone, Copy, Debug, PartialEq, Eq, Structural)]
pub enum ForceFeedbackStatus {
    FF_STATUS_STOPPED,
    FF_STATUS_PLAYING,
}

/// The raw code of this `ForceFeedbackStatus` in its table.
pub open spec fn ff_status_repr(x: ForceFeedbackStatus) -> u16 {
    match x {
        ForceFeedbackStatus::FF_STATUS_STOPPED => 0,
        ForceFeedbackStatus::FF_STATUS_PLAYING => 1,
    }
}

/// Is `c` a code in the `ForceFeedbackStatus` table?
pub open spec fn ff_status_code_valid(c: u16) -> bool {
    c <= 1
}

impl ForceFeedbackStatus {
    /// Look `code` up in the `ForceFeedbackStatus` table.
    pub fn from_repr(code: u16) -> (r: Option<ForceFeedbackStatus>)
        ensures
            match r {
                Some(x) => ff_status_code_valid(code) && ff_status_repr(x) == code,
                None => !ff_status_code_valid(code),
            },
    {
        match code {
            0 => Some(ForceFeedbackStatus::FF_STATUS_STOPPED),
            1 => Some(ForceFeedbackStatus::FF_STATUS_PLAYING),
            _ => None,
        }
    }
}

#[allow(non_camel_case_types)]
#[derive(Clone, Copy, Debug, PartialEq, Eq, Structural)]
pub enum EventType {
    EV_SYN,
    EV_KEY,
    EV_REL,
    EV_ABS,
    EV_MSC,
    EV_SW,
    EV_LED,
    EV_SND,
    EV_REP,
    EV_FF,
    EV_PWR,
    EV_FF_STATUS,
}

/// The raw value of this event type.
pub open spec fn event_type_repr(t: EventType) -> u16 {
    match t {
        EventType::EV_SYN => 0,
        EventType::EV_KEY => 1,
        EventType::EV_REL => 2,
        EventType::EV_ABS => 3,
        EventType::EV_MSC => 4,
        EventType::EV_SW => 5,
        EventType::EV_LED => 17,
        EventType::EV_SND => 18,
        EventType::EV_REP => 20,
        EventType::EV_FF => 21,
        EventType::EV_PWR => 22,
        EventType::EV_FF_STATUS => 23,
    }
}

/// Is `t` the raw value of an event type in the table?
pub open spec fn event_type_valid(t: u16) -> bool {
    t == 0 || t == 1 || t == 2 || t == 3 || t == 4 || t == 5 || t == 17 || t == 18 || t == 20 || t == 21 || t == 22 || t == 23
}

impl EventType {
    /// Look `t` up in the event type table.
    pub fn from_repr(t: u16) -> (r: Option<EventType>)
        ensures
            match r {
                Some(x) => event_type_valid(t) && event_type_repr(x) == t,
                None => !event_type_valid(t),
            },
    {
        match t {
            0 => Some(EventType::EV_SYN),
            1 => Some(EventType::EV_KEY),
            2 => Some(EventType::EV_REL),
            3 => Some(EventType::EV_ABS),
            4 => Some(EventType::EV_MSC),
            5 => Some(EventType::EV_SW),
            17 => Some(EventType::EV_LED),
            18 => Some(EventType::EV_SND),
            20 => Some(EventType::EV_REP),
            21 => Some(EventType::EV_FF),
            22 => Some(EventType::EV_PWR),
            23 => Some(EventType::EV_FF_STATUS),
            _ => None,
        }
    }
}

/// A classified event: one of the fixed categories, carrying the
/// category-specific enumerated code.
#[derive(Clone, Copy, Debug, PartialEq, Eq, Structural)]
pub enum Event {
    Synchronization(Synchronization),
    Key(Key),
    RelativeAxis(RelativeAxis),
    AbsoluteAxis(AbsoluteAxis),
    Miscellaneous(Miscellaneous),
    Switch(Switch),
    LED(LED),
    Sound(Sound),
    AutoRepeat(AutoRepeat),
    ForceFeedback(ForceFeedback),
    ForceFeedbackStatus(ForceFeedbackStatus),
}

/// Is `(event_type, code)` a pair the classification tables define?
/// Power events are policy-excluded: no pair of type `EV_PWR` is in
/// the tables, so such records are delivered but never classified.
pub open spec fn defined_pair(event_type: u16, code: u16) -> bool {
    if event_type == 0 {
        syn_code_valid(code)
    } else if event_type == 1 {
        key_code_valid(code)
    } else if event_type == 2 {
        rel_code_valid(code)
    } else if event_type == 3 {
        abs_code_valid(code)
    } else if event_type == 4 {
        msc_code_valid(code)
    } else if event_type == 5 {
        sw_code_valid(code)
    } else if event_type == 17 {
        led_code_valid(code)
    } else if event_type == 18 {
        snd_code_valid(code)
    } else if event_type == 20 {
        rep_code_valid(code)
    } else if event_type == 21 {
        ff_code_valid(code)
    } else if event_type == 23 {
        ff_status_code_valid(code)
    } else {
        false
    }
}

/// Does the classified event `ev` stand for the raw pair
/// `(event_type, code)`?
pub open spec fn event_matches(ev: Event, event_type: u16, code: u16) -> bool {
    match ev {
        Event::Synchronization(x) => event_type == 0 && syn_repr(x) == code,
        Event::Key(x) => event_type == 1 && key_repr(x) == code,
        Event::RelativeAxis(x) => event_type == 2 && rel_repr(x) == code,
        Event::AbsoluteAxis(x) => event_type == 3 && abs_repr(x) == code,
        Event::Miscellaneous(x) => event_type == 4 && msc_repr(x) == code,
        Event::Switch(x) => event_type == 5 && sw_repr(x) == code,
        Event::LED(x) => event_type == 17 && led_repr(x) == code,
        Event::Sound(x) => event_type == 18 && snd_repr(x) == code,
        Event::AutoRepeat(x) => event_type == 20 && rep_repr(x) == code,
        Event::ForceFeedback(x) => event_type == 21 && ff_repr(x) == code,
        Event::ForceFeedbackStatus(x) => event_type == 23 && ff_status_repr(x) == code,
    }
}

impl InputEventWrapper {
    /// Returns the `EventType` of this record if its raw type is in the
    /// table.
    pub fn as_event_type(&self) -> (r: Option<EventType>)
        ensures
            match r {
                Some(x) => event_type_valid(self.event_type) && event_type_repr(x)
                    == self.event_type,
                None => !event_type_valid(self.event_type),
            },
    {
        EventType::from_repr(self.event_type)
    }

    /// Returns the classified `Event` of this record if its raw pair is
    /// in the tables: `Some` exactly on the defined pairs, and the
    /// classified event stands for the raw pair. Every pair outside the
    /// tables, and every power event, yields `None`.
    pub fn as_event(&self) -> (r: Option<Event>)
        ensures
            match r {
                Some(ev) => defined_pair(self.event_type, self.code) && event_matches(
                    ev,
                    self.event_type,
                    self.code,
                ),
                None => !defined_pair(self.event_type, self.code),
            },
    {
        match EventType::from_repr(self.event_type) {
            None => None,
            Some(EventType::EV_SYN) => match Synchronization::from_repr(self.code) {
                Some(x) => Some(Event::Synchronization(x)),
                None => None,
            },
            Some(EventType::EV_KEY) => match Key::from_repr(self.code) {
                Some(x) => Some(Event::Key(x)),
                None => None,
            },
            Some(EventType::EV_REL) => match RelativeAxis::from_repr(self.code) {
                Some(x) => Some(Event::RelativeAxis(x)),
                None => None,
            },
            Some(EventType::EV_ABS) => match AbsoluteAxis::from_repr(self.code) {
                Some(x) => Some(Event::AbsoluteAxis(x)),
                None => None,
            },
            Some(EventType::EV_MSC) => match Miscellaneous::from_repr(self.code) {
                Some(x) => Some(Event::Miscellaneous(x)),
                None => None,
            },
            Some(EventType::EV_SW) => match Switch::from_repr(self.code) {
                Some(x) => Some(Event::Switch(x)),
                None => None,
            },
            Some(EventType::EV_LED) => match LED::from_repr(self.code) {
                Some(x) => Some(Event::LED(x)),
                None => None,
            },
            Some(EventType::EV_SND) => match Sound::from_repr(self.code) {
                Some(x) => Some(Event::Sound(x)),
                None => None,
            },
            Some(EventType::EV_REP) => match AutoRepeat::from_repr(self.code) {
                Some(x) => Some(Event::AutoRepeat(x)),
                None => None,
            },
            Some(EventType::EV_FF) => match ForceFeedback::from_repr(self.code) {
                Some(x) => Some(Event::ForceFeedback(x)),
                None => None,
            },
            Some(EventType::EV_PWR) => None,
            Some(EventType::EV_FF_STATUS) => match ForceFeedbackStatus::from_repr(self.code) {
                Some(x) => Some(Event::ForceFeedbackStatus(x)),
                None => None,
            },
        }
    }
}

/// Power events are policy-excluded from classification: no code makes
/// a defined pair with the `EV_PWR` type.
pub proof fn lemma_power_events_unclassified(code: u16)
    ensures
        !defined_pair(event_type_repr(EventType::EV_PWR), code),
{
}

} // verus!
