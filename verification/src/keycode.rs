//! Typed key/button codes drawn from the kernel's key-code space.

use vstd::prelude::*;

use crate::text::{spec_parse_u16, parse_u16, str_eq};

verus! {

/// A key or button code.  The raw value identifies a physical key in the
/// kernel's key/button code space; ordering and equality go by that value.
#[derive(Clone, Copy, Debug, PartialEq, Eq, PartialOrd, Ord, Hash, Structural)]
pub struct KeyCode(pub u16);

/// Parsing failed: the text names no known key and is no numeric code.
#[derive(Clone, Copy, Debug, PartialEq, Eq, Structural)]
pub struct ParseKeyCodeError;

/// The symbolic name of a well-known code, if the table holds one.
pub open spec fn spec_name_of(code: u16) -> Option<Seq<char>> {
    if code == 1 {
        Some("KEY_ESC"@)
    } else if code == 2 {
        Some("KEY_1"@)
    } else if code == 3 {
        Some("KEY_2"@)
    } else if code == 4 {
        Some("KEY_3"@)
    } else if code == 5 {
        Some("KEY_4"@)
    } else if code == 6 {
        Some("KEY_5"@)
    } else if code == 7 {
        Some("KEY_6"@)
    } else if code == 8 {
        Some("KEY_7"@)
    } else if code == 9 {
        Some("KEY_8"@)
    } else if code == 10 {
        Some("KEY_9"@)
    } else if code == 11 {
        Some("KEY_0"@)
    } else if code == 12 {
        Some("KEY_MINUS"@)
    } else if code == 13 {
        Some("KEY_EQUAL"@)
    } else if code == 14 {
        Some("KEY_BACKSPACE"@)
    } else if code == 15 {
        Some("KEY_TAB"@)
    } else if code == 16 {
        Some("KEY_Q"@)
    } else if code == 17 {
        Some("KEY_W"@)
    } else if code == 18 {
        Some("KEY_E"@)
    } else if code == 19 {
        Some("KEY_R"@)
    } else if code == 20 {
        Some("KEY_T"@)
    } else if code == 21 {
        Some("KEY_Y"@)
    } else if code == 22 {
        Some("KEY_U"@)
    } else if code == 23 {
        Some("KEY_I"@)
    } else if code == 24 {
        Some("KEY_O"@)
    } else if code == 25 {
        Some("KEY_P"@)
    } else if code == 26 {
        Some("KEY_LEFTBRACE"@)
    } else if code == 27 {
        Some("KEY_RIGHTBRACE"@)
    } else if code == 28 {
        Some("KEY_ENTER"@)
    } else if code == 29 {
        Some("KEY_LEFTCTRL"@)
    } else if code == 30 {
        Some("KEY_A"@)
    } else if code == 31 {
        Some("KEY_S"@)
    } else if code == 32 {
        Some("KEY_D"@)
    } else if code == 33 {
        Some("KEY_F"@)
    } else if code == 34 {
        Some("KEY_G"@)
    } else if code == 35 {
        Some("KEY_H"@)
    } else if code == 36 {
        Some("KEY_J"@)
    } else if code == 37 {
        Some("KEY_K"@)
    } else if code == 38 {
        Some("KEY_L"@)
    } else if code == 39 {
        Some("KEY_SEMICOLON"@)
    } else if code == 40 {
        Some("KEY_APOSTROPHE"@)
    } else if code == 41 {
        Some("KEY_GRAVE"@)
    } else if code == 42 {
        Some("KEY_LEFTSHIFT"@)
    } else if code == 43 {
        Some("KEY_BACKSLASH"@)
    } else if code == 44 {
        Some("KEY_Z"@)
    } else if code == 45 {
        Some("KEY_X"@)
    } else if code == 46 {
        Some("KEY_C"@)
    } else if code == 47 {
        Some("KEY_V"@)
    } else if code == 48 {
        Some("KEY_B"@)
    } else if code == 49 {
        Some("KEY_N"@)
    } else if code == 50 {
        Some("KEY_M"@)
    } else if code == 51 {
        Some("KEY_COMMA"@)
    } else if code == 52 {
        Some("KEY_DOT"@)
    } else if code == 53 {
        Some("KEY_SLASH"@)
    } else if code == 54 {
        Some("KEY_RIGHTSHIFT"@)
    } else if code == 55 {
        Some("KEY_KPASTERISK"@)
    } else if code == 56 {
        Some("KEY_LEFTALT"@)
    } else if code == 57 {
        Some("KEY_SPACE"@)
    } else if code == 58 {
        Some("KEY_CAPSLOCK"@)
    } else if code == 59 {
        Some("KEY_F1"@)
    } else if code == 60 {
        Some("KEY_F2"@)
    } else if code == 61 {
        Some("KEY_F3"@)
    } else if code == 62 {
        Some("KEY_F4"@)
    } else if code == 63 {
        Some("KEY_F5"@)
    } else if code == 64 {
        Some("KEY_F6"@)
    } else if code == 65 {
        Some("KEY_F7"@)
    } else if code == 66 {
        Some("KEY_F8"@)
    } else if code == 67 {
        Some("KEY_F9"@)
    } else if code == 68 {
        Some("KEY_F10"@)
    } else if code == 69 {
        Some("KEY_NUMLOCK"@)
    } else if code == 70 {
        Some("KEY_SCROLLLOCK"@)
    } else if code == 71 {
        Some("KEY_KP7"@)
    } else if code == 72 {
        Some("KEY_KP8"@)
    } else if code == 73 {
        Some("KEY_KP9"@)
    } else if code == 74 {
        Some("KEY_KPMINUS"@)
    } else if code == 75 {
        Some("KEY_KP4"@)
    } else if code == 76 {
        Some("KEY_KP5"@)
    } else if code == 77 {
        Some("KEY_KP6"@)
    } else if code == 78 {
        Some("KEY_KPPLUS"@)
    } else if code == 79 {
        Some("KEY_KP1"@)
    } else if code == 80 {
        Some("KEY_KP2"@)
    } else if code == 81 {
        Some("KEY_KP3"@)
    } else if code == 82 {
        Some("KEY_KP0"@)
    } else if code == 83 {
        Some("KEY_KPDOT"@)
    } else if code == 87 {
        Some("KEY_F11"@)
    } else if code == 88 {
        Some("KEY_F12"@)
    } else if code == 96 {
        Some("KEY_KPENTER"@)
    } else if code == 97 {
        Some("KEY_RIGHTCTRL"@)
    } else if code == 98 {
        Some("KEY_KPSLASH"@)
    } else if code == 99 {
        Some("KEY_SYSRQ"@)
    } else if code == 100 {
        Some("KEY_RIGHTALT"@)
    } else if code == 102 {
        Some("KEY_HOME"@)
    } else if code == 103 {
        Some("KEY_UP"@)
    } else if code == 104 {
        Some("KEY_PAGEUP"@)
    } else if code == 105 {
        Some("KEY_LEFT"@)
    } else if code == 106 {
        Some("KEY_RIGHT"@)
    } else if code == 107 {
        Some("KEY_END"@)
    } else if code == 108 {
        Some("KEY_DOWN"@)
    } else if code == 109 {
        Some("KEY_PAGEDOWN"@)
    } else if code == 110 {
        Some("KEY_INSERT"@)
    } else if code == 111 {
        Some("KEY_DELETE"@)
    } else if code == 113 {
        Some("KEY_MUTE"@)
    } else if code == 114 {
        Some("KEY_VOLUMEDOWN"@)
    } else if code == 115 {
        Some("KEY_VOLUMEUP"@)
    } else if code == 116 {
        Some("KEY_POWER"@)
    } else if code == 117 {
        Some("KEY_KPEQUAL"@)
    } else if code == 119 {
        Some("KEY_PAUSE"@)
    } else if code == 125 {
        Some("KEY_LEFTMETA"@)
    } else if code == 126 {
        Some("KEY_RIGHTMETA"@)
    } else if code == 127 {
        Some("KEY_COMPOSE"@)
    } else if code == 128 {
        Some("KEY_STOP"@)
    } else if code == 139 {
        Some("KEY_MENU"@)
    } else if code == 140 {
        Some("KEY_CALC"@)
    } else if code == 142 {
        Some("KEY_SLEEP"@)
    } else if code == 143 {
        Some("KEY_WAKEUP"@)
    } else if code == 155 {
        Some("KEY_MAIL"@)
    } else if code == 156 {
        Some("KEY_BOOKMARKS"@)
    } else if code == 157 {
        Some("KEY_COMPUTER"@)
    } else if code == 158 {
        Some("KEY_BACK"@)
    } else if code == 159 {
        Some("KEY_FORWARD"@)
    } else if code == 163 {
        Some("KEY_NEXTSONG"@)
    } else if code == 164 {
        Some("KEY_PLAYPAUSE"@)
    } else if code == 165 {
        Some("KEY_PREVIOUSSONG"@)
    } else if code == 166 {
        Some("KEY_STOPCD"@)
    } else if code == 172 {
        Some("KEY_HOMEPAGE"@)
    } else if code == 173 {
        Some("KEY_REFRESH"@)
    } else if code == 224 {
        Some("KEY_BRIGHTNESSDOWN"@)
    } else if code == 225 {
        Some("KEY_BRIGHTNESSUP"@)
    } else if code == 272 {
        Some("BTN_LEFT"@)
    } else if code == 273 {
        Some("BTN_RIGHT"@)
    } else if code == 274 {
        Some("BTN_MIDDLE"@)
    } else {
        None
    }
}

/// The code of a symbolic name, if the table holds one.
pub open spec fn spec_code_of(name: Seq<char>) -> Option<u16> {
    if name == "KEY_ESC"@ {
        Some(1u16)
    } else if name == "KEY_1"@ {
        Some(2u16)
    } else if name == "KEY_2"@ {
        Some(3u16)
    } else if name == "KEY_3"@ {
        Some(4u16)
    } else if name == "KEY_4"@ {
        Some(5u16)
    } else if name == "KEY_5"@ {
        Some(6u16)
    } else if name == "KEY_6"@ {
        Some(7u16)
    } else if name == "KEY_7"@ {
        Some(8u16)
    } else if name == "KEY_8"@ {
        Some(9u16)
    } else if name == "KEY_9"@ {
        Some(10u16)
    } else if name == "KEY_0"@ {
        Some(11u16)
    } else if name == "KEY_MINUS"@ {
        Some(12u16)
    } else if name == "KEY_EQUAL"@ {
        Some(13u16)
    } else if name == "KEY_BACKSPACE"@ {
        Some(14u16)
    } else if name == "KEY_TAB"@ {
        Some(15u16)
    } else if name == "KEY_Q"@ {
        Some(16u16)
    } else if name == "KEY_W"@ {
        Some(17u16)
    } else if name == "KEY_E"@ {
        Some(18u16)
    } else if name == "KEY_R"@ {
        Some(19u16)
    } else if name == "KEY_T"@ {
        Some(20u16)
    } else if name == "KEY_Y"@ {
        Some(21u16)
    } else if name == "KEY_U"@ {
        Some(22u16)
    } else if name == "KEY_I"@ {
        Some(23u16)
    } else if name == "KEY_O"@ {
        Some(24u16)
    } else if name == "KEY_P"@ {
        Some(25u16)
    } else if name == "KEY_LEFTBRACE"@ {
        Some(26u16)
    } else if name == "KEY_RIGHTBRACE"@ {
        Some(27u16)
    } else if name == "KEY_ENTER"@ {
        Some(28u16)
    } else if name == "KEY_LEFTCTRL"@ {
        Some(29u16)
    } else if name == "KEY_A"@ {
        Some(30u16)
    } else if name == "KEY_S"@ {
        Some(31u16)
    } else if name == "KEY_D"@ {
        Some(32u16)
    } else if name == "KEY_F"@ {
        Some(33u16)
    } else if name == "KEY_G"@ {
        Some(34u16)
    } else if name == "KEY_H"@ {
        Some(35u16)
    } else if name == "KEY_J"@ {
        Some(36u16)
    } else if name == "KEY_K"@ {
        Some(37u16)
    } else if name == "KEY_L"@ {
        Some(38u16)
    } else if name == "KEY_SEMICOLON"@ {
        Some(39u16)
    } else if name == "KEY_APOSTROPHE"@ {
        Some(40u16)
    } else if name == "KEY_GRAVE"@ {
        Some(41u16)
    } else if name == "KEY_LEFTSHIFT"@ {
        Some(42u16)
    } else if name == "KEY_BACKSLASH"@ {
        Some(43u16)
    } else if name == "KEY_Z"@ {
        Some(44u16)
    } else if name == "KEY_X"@ {
        Some(45u16)
    } else if name == "KEY_C"@ {
        Some(46u16)
    } else if name == "KEY_V"@ {
        Some(47u16)
    } else if name == "KEY_B"@ {
        Some(48u16)
    } else if name == "KEY_N"@ {
        Some(49u16)
    } else if name == "KEY_M"@ {
        Some(50u16)
    } else if name == "KEY_COMMA"@ {
        Some(51u16)
    } else if name == "KEY_DOT"@ {
        Some(52u16)
    } else if name == "KEY_SLASH"@ {
        Some(53u16)
    } else if name == "KEY_RIGHTSHIFT"@ {
        Some(54u16)
    } else if name == "KEY_KPASTERISK"@ {
        Some(55u16)
    } else if name == "KEY_LEFTALT"@ {
        Some(56u16)
    } else if name == "KEY_SPACE"@ {
        Some(57u16)
    } else if name == "KEY_CAPSLOCK"@ {
        Some(58u16)
    } else if name == "KEY_F1"@ {
        Some(59u16)
    } else if name == "KEY_F2"@ {
        Some(60u16)
    } else if name == "KEY_F3"@ {
        Some(61u16)
    } else if name == "KEY_F4"@ {
        Some(62u16)
    } else if name == "KEY_F5"@ {
        Some(63u16)
    } else if name == "KEY_F6"@ {
        Some(64u16)
    } else if name == "KEY_F7"@ {
        Some(65u16)
    } else if name == "KEY_F8"@ {
        Some(66u16)
    } else if name == "KEY_F9"@ {
        Some(67u16)
    } else if name == "KEY_F10"@ {
        Some(68u16)
    } else if name == "KEY_NUMLOCK"@ {
        Some(69u16)
    } else if name == "KEY_SCROLLLOCK"@ {
        Some(70u16)
    } else if name == "KEY_KP7"@ {
        Some(71u16)
    } else if name == "KEY_KP8"@ {
        Some(72u16)
    } else if name == "KEY_KP9"@ {
        Some(73u16)
    } else if name == "KEY_KPMINUS"@ {
        Some(74u16)
    } else if name == "KEY_KP4"@ {
        Some(75u16)
    } else if name == "KEY_KP5"@ {
        Some(76u16)
    } else if name == "KEY_KP6"@ {
        Some(77u16)
    } else if name == "KEY_KPPLUS"@ {
        Some(78u16)
    } else if name == "KEY_KP1"@ {
        Some(79u16)
    } else if name == "KEY_KP2"@ {
        Some(80u16)
    } else if name == "KEY_KP3"@ {
        Some(81u16)
    } else if name == "KEY_KP0"@ {
        Some(82u16)
    } else if name == "KEY_KPDOT"@ {
        Some(83u16)
    } else if name == "KEY_F11"@ {
        Some(87u16)
    } else if name == "KEY_F12"@ {
        Some(88u16)
    } else if name == "KEY_KPENTER"@ {
        Some(96u16)
    } else if name == "KEY_RIGHTCTRL"@ {
        Some(97u16)
    } else if name == "KEY_KPSLASH"@ {
        Some(98u16)
    } else if name == "KEY_SYSRQ"@ {
        Some(99u16)
    } else if name == "KEY_RIGHTALT"@ {
        Some(100u16)
    } else if name == "KEY_HOME"@ {
        Some(102u16)
    } else if name == "KEY_UP"@ {
        Some(103u16)
    } else if name == "KEY_PAGEUP"@ {
        Some(104u16)
    } else if name == "KEY_LEFT"@ {
        Some(105u16)
    } else if name == "KEY_RIGHT"@ {
        Some(106u16)
    } else if name == "KEY_END"@ {
        Some(107u16)
    } else if name == "KEY_DOWN"@ {
        Some(108u16)
    } else if name == "KEY_PAGEDOWN"@ {
        Some(109u16)
    } else if name == "KEY_INSERT"@ {
        Some(110u16)
    } else if name == "KEY_DELETE"@ {
        Some(111u16)
    } else if name == "KEY_MUTE"@ {
        Some(113u16)
    } else if name == "KEY_VOLUMEDOWN"@ {
        Some(114u16)
    } else if name == "KEY_VOLUMEUP"@ {
        Some(115u16)
    } else if name == "KEY_POWER"@ {
        Some(116u16)
    } else if name == "KEY_KPEQUAL"@ {
        Some(117u16)
    } else if name == "KEY_PAUSE"@ {
        Some(119u16)
    } else if name == "KEY_LEFTMETA"@ {
        Some(125u16)
    } else if name == "KEY_RIGHTMETA"@ {
        Some(126u16)
    } else if name == "KEY_COMPOSE"@ {
        Some(127u16)
    } else if name == "KEY_STOP"@ {
        Some(128u16)
    } else if name == "KEY_MENU"@ {
        Some(139u16)
    } else if name == "KEY_CALC"@ {
        Some(140u16)
    } else if name == "KEY_SLEEP"@ {
        Some(142u16)
    } else if name == "KEY_WAKEUP"@ {
        Some(143u16)
    } else if name == "KEY_MAIL"@ {
        Some(155u16)
    } else if name == "KEY_BOOKMARKS"@ {
        Some(156u16)
    } else if name == "KEY_COMPUTER"@ {
        Some(157u16)
    } else if name == "KEY_BACK"@ {
        Some(158u16)
    } else if name == "KEY_FORWARD"@ {
        Some(159u16)
    } else if name == "KEY_NEXTSONG"@ {
        Some(163u16)
    } else if name == "KEY_PLAYPAUSE"@ {
        Some(164u16)
    } else if name == "KEY_PREVIOUSSONG"@ {
        Some(165u16)
    } else if name == "KEY_STOPCD"@ {
        Some(166u16)
    } else if name == "KEY_HOMEPAGE"@ {
        Some(172u16)
    } else if name == "KEY_REFRESH"@ {
        Some(173u16)
    } else if name == "KEY_BRIGHTNESSDOWN"@ {
        Some(224u16)
    } else if name == "KEY_BRIGHTNESSUP"@ {
        Some(225u16)
    } else if name == "BTN_LEFT"@ {
        Some(272u16)
    } else if name == "BTN_RIGHT"@ {
        Some(273u16)
    } else if name == "BTN_MIDDLE"@ {
        Some(274u16)
    } else {
        None
    }
}

/// What parsing accepts: a symbolic name from the table, or else a
/// decimal numeral that fits in the code space.
pub open spec fn spec_parse(s: Seq<char>) -> Option<u16> {
    match spec_code_of(s) {
        Some(c) => Some(c),
        None => spec_parse_u16(s),
    }
}

impl KeyCode {
    /// The size of the kernel's key-code table (`KEY_CNT`): valid codes
    /// lie below this bound.
    pub const COUNT: usize = 768;

    /// The raw code value.
    pub fn code(&self) -> (c: u16)
        ensures
            c == self.0,
    {
        self.0
    }

    /// The symbolic name of this code, if the table holds one.
    pub fn name(&self) -> (r: Option<&'static str>)
        ensures
            match r {
                Some(s) => spec_name_of(self.0) == Some(s@),
                None => spec_name_of(self.0) is None,
            },
    {
        match self.0 {
            1 => Some("KEY_ESC"),
            2 => Some("KEY_1"),
            3 => Some("KEY_2"),
            4 => Some("KEY_3"),
            5 => Some("KEY_4"),
            6 => Some("KEY_5"),
            7 => Some("KEY_6"),
            8 => Some("KEY_7"),
            9 => Some("KEY_8"),
            10 => Some("KEY_9"),
            11 => Some("KEY_0"),
            12 => Some("KEY_MINUS"),
            13 => Some("KEY_EQUAL"),
            14 => Some("KEY_BACKSPACE"),
            15 => Some("KEY_TAB"),
            16 => Some("KEY_Q"),
            17 => Some("KEY_W"),
            18 => Some("KEY_E"),
            19 => Some("KEY_R"),
            20 => Some("KEY_T"),
            21 => Some("KEY_Y"),
            22 => Some("KEY_U"),
            23 => Some("KEY_I"),
            24 => Some("KEY_O"),
            25 => Some("KEY_P"),
            26 => Some("KEY_LEFTBRACE"),
            27 => Some("KEY_RIGHTBRACE"),
            28 => Some("KEY_ENTER"),
            29 => Some("KEY_LEFTCTRL"),
            30 => Some("KEY_A"),
            31 => Some("KEY_S"),
            32 => Some("KEY_D"),
            33 => Some("KEY_F"),
            34 => Some("KEY_G"),
            35 => Some("KEY_H"),
            36 => Some("KEY_J"),
            37 => Some("KEY_K"),
            38 => Some("KEY_L"),
            39 => Some("KEY_SEMICOLON"),
            40 => Some("KEY_APOSTROPHE"),
            41 => Some("KEY_GRAVE"),
            42 => Some("KEY_LEFTSHIFT"),
            43 => Some("KEY_BACKSLASH"),
            44 => Some("KEY_Z"),
            45 => Some("KEY_X"),
            46 => Some("KEY_C"),
            47 => Some("KEY_V"),
            48 => Some("KEY_B"),
            49 => Some("KEY_N"),
            50 => Some("KEY_M"),
            51 => Some("KEY_COMMA"),
            52 => Some("KEY_DOT"),
            53 => Some("KEY_SLASH"),
            54 => Some("KEY_RIGHTSHIFT"),
            55 => Some("KEY_KPASTERISK"),
            56 => Some("KEY_LEFTALT"),
            57 => Some("KEY_SPACE"),
            58 => Some("KEY_CAPSLOCK"),
            59 => Some("KEY_F1"),
            60 => Some("KEY_F2"),
            61 => Some("KEY_F3"),
            62 => Some("KEY_F4"),
            63 => Some("KEY_F5"),
            64 => Some("KEY_F6"),
            65 => Some("KEY_F7"),
            66 => Some("KEY_F8"),
            67 => Some("KEY_F9"),
            68 => Some("KEY_F10"),
            69 => Some("KEY_NUMLOCK"),
            70 => Some("KEY_SCROLLLOCK"),
            71 => Some("KEY_KP7"),
            72 => Some("KEY_KP8"),
            73 => Some("KEY_KP9"),
            74 => Some("KEY_KPMINUS"),
            75 => Some("KEY_KP4"),
            76 => Some("KEY_KP5"),
            77 => Some("KEY_KP6"),
            78 => Some("KEY_KPPLUS"),
            79 => Some("KEY_KP1"),
            80 => Some("KEY_KP2"),
            81 => Some("KEY_KP3"),
            82 => Some("KEY_KP0"),
            83 => Some("KEY_KPDOT"),
            87 => Some("KEY_F11"),
            88 => Some("KEY_F12"),
            96 => Some("KEY_KPENTER"),
            97 => Some("KEY_RIGHTCTRL"),
            98 => Some("KEY_KPSLASH"),
            99 => Some("KEY_SYSRQ"),
            100 => Some("KEY_RIGHTALT"),
            102 => Some("KEY_HOME"),
            103 => Some("KEY_UP"),
            104 => Some("KEY_PAGEUP"),
            105 => Some("KEY_LEFT"),
            106 => Some("KEY_RIGHT"),
            107 => Some("KEY_END"),
            108 => Some("KEY_DOWN"),
            109 => Some("KEY_PAGEDOWN"),
            110 => Some("KEY_INSERT"),
            111 => Some("KEY_DELETE"),
            113 => Some("KEY_MUTE"),
            114 => Some("KEY_VOLUMEDOWN"),
            115 => Some("KEY_VOLUMEUP"),
            116 => Some("KEY_POWER"),
            117 => Some("KEY_KPEQUAL"),
            119 => Some("KEY_PAUSE"),
            125 => Some("KEY_LEFTMETA"),
            126 => Some("KEY_RIGHTMETA"),
            127 => Some("KEY_COMPOSE"),
            128 => Some("KEY_STOP"),
            139 => Some("KEY_MENU"),
            140 => Some("KEY_CALC"),
            142 => Some("KEY_SLEEP"),
            143 => Some("KEY_WAKEUP"),
            155 => Some("KEY_MAIL"),
            156 => Some("KEY_BOOKMARKS"),
            157 => Some("KEY_COMPUTER"),
            158 => Some("KEY_BACK"),
            159 => Some("KEY_FORWARD"),
            163 => Some("KEY_NEXTSONG"),
            164 => Some("KEY_PLAYPAUSE"),
            165 => Some("KEY_PREVIOUSSONG"),
            166 => Some("KEY_STOPCD"),
            172 => Some("KEY_HOMEPAGE"),
            173 => Some("KEY_REFRESH"),
            224 => Some("KEY_BRIGHTNESSDOWN"),
            225 => Some("KEY_BRIGHTNESSUP"),
            272 => Some("BTN_LEFT"),
            273 => Some("BTN_RIGHT"),
            274 => Some("BTN_MIDDLE"),
            _ => None,
        }
    }

    /// Parses a symbolic key name or a raw decimal code.
    pub fn parse(s: &str) -> (r: Result<KeyCode, ParseKeyCodeError>)
        ensures
            match r {
                Ok(k) => spec_parse(s@) == Some(k.0),
                Err(_) => spec_parse(s@) is None,
            },
    {
        if str_eq(s, "KEY_ESC") {
            Ok(KeyCode(1))
        } else if str_eq(s, "KEY_1") {
            Ok(KeyCode(2))
        } else if str_eq(s, "KEY_2") {
            Ok(KeyCode(3))
        } else if str_eq(s, "KEY_3") {
            Ok(KeyCode(4))
        } else if str_eq(s, "KEY_4") {
            Ok(KeyCode(5))
        } else if str_eq(s, "KEY_5") {
            Ok(KeyCode(6))
        } else if str_eq(s, "KEY_6") {
            Ok(KeyCode(7))
        } else if str_eq(s, "KEY_7") {
            Ok(KeyCode(8))
        } else if str_eq(s, "KEY_8") {
            Ok(KeyCode(9))
        } else if str_eq(s, "KEY_9") {
            Ok(KeyCode(10))
        } else if str_eq(s, "KEY_0") {
            Ok(KeyCode(11))
        } else if str_eq(s, "KEY_MINUS") {
            Ok(KeyCode(12))
        } else if str_eq(s, "KEY_EQUAL") {
            Ok(KeyCode(13))
        } else if str_eq(s, "KEY_BACKSPACE") {
            Ok(KeyCode(14))
        } else if str_eq(s, "KEY_TAB") {
            Ok(KeyCode(15))
        } else if str_eq(s, "KEY_Q") {
            Ok(KeyCode(16))
        } else if str_eq(s, "KEY_W") {
            Ok(KeyCode(17))
        } else if str_eq(s, "KEY_E") {
            Ok(KeyCode(18))
        } else if str_eq(s, "KEY_R") {
            Ok(KeyCode(19))
        } else if str_eq(s, "KEY_T") {
            Ok(KeyCode(20))
        } else if str_eq(s, "KEY_Y") {
            Ok(KeyCode(21))
        } else if str_eq(s, "KEY_U") {
            Ok(KeyCode(22))
        } else if str_eq(s, "KEY_I") {
            Ok(KeyCode(23))
        } else if str_eq(s, "KEY_O") {
            Ok(KeyCode(24))
        } else if str_eq(s, "KEY_P") {
            Ok(KeyCode(25))
        } else if str_eq(s, "KEY_LEFTBRACE") {
            Ok(KeyCode(26))
        } else if str_eq(s, "KEY_RIGHTBRACE") {
            Ok(KeyCode(27))
        } else if str_eq(s, "KEY_ENTER") {
            Ok(KeyCode(28))
        } else if str_eq(s, "KEY_LEFTCTRL") {
            Ok(KeyCode(29))
        } else if str_eq(s, "KEY_A") {
            Ok(KeyCode(30))
        } else if str_eq(s, "KEY_S") {
            Ok(KeyCode(31))
        } else if str_eq(s, "KEY_D") {
            Ok(KeyCode(32))
        } else if str_eq(s, "KEY_F") {
            Ok(KeyCode(33))
        } else if str_eq(s, "KEY_G") {
            Ok(KeyCode(34))
        } else if str_eq(s, "KEY_H") {
            Ok(KeyCode(35))
        } else if str_eq(s, "KEY_J") {
            Ok(KeyCode(36))
        } else if str_eq(s, "KEY_K") {
            Ok(KeyCode(37))
        } else if str_eq(s, "KEY_L") {
            Ok(KeyCode(38))
        } else if str_eq(s, "KEY_SEMICOLON") {
            Ok(KeyCode(39))
        } else if str_eq(s, "KEY_APOSTROPHE") {
            Ok(KeyCode(40))
        } else if str_eq(s, "KEY_GRAVE") {
            Ok(KeyCode(41))
        } else if str_eq(s, "KEY_LEFTSHIFT") {
            Ok(KeyCode(42))
        } else if str_eq(s, "KEY_BACKSLASH") {
            Ok(KeyCode(43))
        } else if str_eq(s, "KEY_Z") {
            Ok(KeyCode(44))
        } else if str_eq(s, "KEY_X") {
            Ok(KeyCode(45))
        } else if str_eq(s, "KEY_C") {
            Ok(KeyCode(46))
        } else if str_eq(s, "KEY_V") {
            Ok(KeyCode(47))
        } else if str_eq(s, "KEY_B") {
            Ok(KeyCode(48))
        } else if str_eq(s, "KEY_N") {
            Ok(KeyCode(49))
        } else if str_eq(s, "KEY_M") {
            Ok(KeyCode(50))
        } else if str_eq(s, "KEY_COMMA") {
            Ok(KeyCode(51))
        } else if str_eq(s, "KEY_DOT") {
            Ok(KeyCode(52))
        } else if str_eq(s, "KEY_SLASH") {
            Ok(KeyCode(53))
        } else if str_eq(s, "KEY_RIGHTSHIFT") {
            Ok(KeyCode(54))
        } else if str_eq(s, "KEY_KPASTERISK") {
            Ok(KeyCode(55))
        } else if str_eq(s, "KEY_LEFTALT") {
            Ok(KeyCode(56))
        } else if str_eq(s, "KEY_SPACE") {
            Ok(KeyCode(57))
        } else if str_eq(s, "KEY_CAPSLOCK") {
            Ok(KeyCode(58))
        } else if str_eq(s, "KEY_F1") {
            Ok(KeyCode(59))
        } else if str_eq(s, "KEY_F2") {
            Ok(KeyCode(60))
        } else if str_eq(s, "KEY_F3") {
            Ok(KeyCode(61))
        } else if str_eq(s, "KEY_F4") {
            Ok(KeyCode(62))
        } else if str_eq(s, "KEY_F5") {
            Ok(KeyCode(63))
        } else if str_eq(s, "KEY_F6") {
            Ok(KeyCode(64))
        } else if str_eq(s, "KEY_F7") {
            Ok(KeyCode(65))
        } else if str_eq(s, "KEY_F8") {
            Ok(KeyCode(66))
        } else if str_eq(s, "KEY_F9") {
            Ok(KeyCode(67))
        } else if str_eq(s, "KEY_F10") {
            Ok(KeyCode(68))
        } else if str_eq(s, "KEY_NUMLOCK") {
            Ok(KeyCode(69))
        } else if str_eq(s, "KEY_SCROLLLOCK") {
            Ok(KeyCode(70))
        } else if str_eq(s, "KEY_KP7") {
            Ok(KeyCode(71))
        } else if str_eq(s, "KEY_KP8") {
            Ok(KeyCode(72))
        } else if str_eq(s, "KEY_KP9") {
            Ok(KeyCode(73))
        } else if str_eq(s, "KEY_KPMINUS") {
            Ok(KeyCode(74))
        } else if str_eq(s, "KEY_KP4") {
            Ok(KeyCode(75))
        } else if str_eq(s, "KEY_KP5") {
            Ok(KeyCode(76))
        } else if str_eq(s, "KEY_KP6") {
            Ok(KeyCode(77))
        } else if str_eq(s, "KEY_KPPLUS") {
            Ok(KeyCode(78))
        } else if str_eq(s, "KEY_KP1") {
            Ok(KeyCode(79))
        } else if str_eq(s, "KEY_KP2") {
            Ok(KeyCode(80))
        } else if str_eq(s, "KEY_KP3") {
            Ok(KeyCode(81))
        } else if str_eq(s, "KEY_KP0") {
            Ok(KeyCode(82))
        } else if str_eq(s, "KEY_KPDOT") {
            Ok(KeyCode(83))
        } else if str_eq(s, "KEY_F11") {
            Ok(KeyCode(87))
        } else if str_eq(s, "KEY_F12") {
            Ok(KeyCode(88))
        } else if str_eq(s, "KEY_KPENTER") {
            Ok(KeyCode(96))
        } else if str_eq(s, "KEY_RIGHTCTRL") {
            Ok(KeyCode(97))
        } else if str_eq(s, "KEY_KPSLASH") {
            Ok(KeyCode(98))
        } else if str_eq(s, "KEY_SYSRQ") {
            Ok(KeyCode(99))
        } else if str_eq(s, "KEY_RIGHTALT") {
            Ok(KeyCode(100))
        } else if str_eq(s, "KEY_HOME") {
            Ok(KeyCode(102))
        } else if str_eq(s, "KEY_UP") {
            Ok(KeyCode(103))
        } else if str_eq(s, "KEY_PAGEUP") {
            Ok(KeyCode(104))
        } else if str_eq(s, "KEY_LEFT") {
            Ok(KeyCode(105))
        } else if str_eq(s, "KEY_RIGHT") {
            Ok(KeyCode(106))
        } else if str_eq(s, "KEY_END") {
            Ok(KeyCode(107))
        } else if str_eq(s, "KEY_DOWN") {
            Ok(KeyCode(108))
        } else if str_eq(s, "KEY_PAGEDOWN") {
            Ok(KeyCode(109))
        } else if str_eq(s, "KEY_INSERT") {
            Ok(KeyCode(110))
        } else if str_eq(s, "KEY_DELETE") {
            Ok(KeyCode(111))
        } else if str_eq(s, "KEY_MUTE") {
            Ok(KeyCode(113))
        } else if str_eq(s, "KEY_VOLUMEDOWN") {
            Ok(KeyCode(114))
        } else if str_eq(s, "KEY_VOLUMEUP") {
            Ok(KeyCode(115))
        } else if str_eq(s, "KEY_POWER") {
            Ok(KeyCode(116))
        } else if str_eq(s, "KEY_KPEQUAL") {
            Ok(KeyCode(117))
        } else if str_eq(s, "KEY_PAUSE") {
            Ok(KeyCode(119))
        } else if str_eq(s, "KEY_LEFTMETA") {
            Ok(KeyCode(125))
        } else if str_eq(s, "KEY_RIGHTMETA") {
            Ok(KeyCode(126))
        } else if str_eq(s, "KEY_COMPOSE") {
            Ok(KeyCode(127))
        } else if str_eq(s, "KEY_STOP") {
            Ok(KeyCode(128))
        } else if str_eq(s, "KEY_MENU") {
            Ok(KeyCode(139))
        } else if str_eq(s, "KEY_CALC") {
            Ok(KeyCode(140))
        } else if str_eq(s, "KEY_SLEEP") {
            Ok(KeyCode(142))
        } else if str_eq(s, "KEY_WAKEUP") {
            Ok(KeyCode(143))
        } else if str_eq(s, "KEY_MAIL") {
            Ok(KeyCode(155))
        } else if str_eq(s, "KEY_BOOKMARKS") {
            Ok(KeyCode(156))
        } else if str_eq(s, "KEY_COMPUTER") {
            Ok(KeyCode(157))
        } else if str_eq(s, "KEY_BACK") {
            Ok(KeyCode(158))
        } else if str_eq(s, "KEY_FORWARD") {
            Ok(KeyCode(159))
        } else if str_eq(s, "KEY_NEXTSONG") {
            Ok(KeyCode(163))
        } else if str_eq(s, "KEY_PLAYPAUSE") {
            Ok(KeyCode(164))
        } else if str_eq(s, "KEY_PREVIOUSSONG") {
            Ok(KeyCode(165))
        } else if str_eq(s, "KEY_STOPCD") {
            Ok(KeyCode(166))
        } else if str_eq(s, "KEY_HOMEPAGE") {
            Ok(KeyCode(172))
        } else if str_eq(s, "KEY_REFRESH") {
            Ok(KeyCode(173))
        } else if str_eq(s, "KEY_BRIGHTNESSDOWN") {
            Ok(KeyCode(224))
        } else if str_eq(s, "KEY_BRIGHTNESSUP") {
            Ok(KeyCode(225))
        } else if str_eq(s, "BTN_LEFT") {
            Ok(KeyCode(272))
        } else if str_eq(s, "BTN_RIGHT") {
            Ok(KeyCode(273))
        } else if str_eq(s, "BTN_MIDDLE") {
            Ok(KeyCode(274))
        } else {
            match parse_u16(s) {
                Some(c) => Ok(KeyCode(c)),
                None => Err(ParseKeyCodeError),
            }
        }
    }
}

impl From<u16> for KeyCode {
    fn from(code: u16) -> (r: KeyCode) {
        KeyCode(code)
    }
}

impl vstd::std_specs::convert::FromSpecImpl<u16> for KeyCode {
    open spec fn obeys_from_spec() -> bool {
        true
    }

    open spec fn from_spec(code: u16) -> KeyCode {
        KeyCode(code)
    }
}

/// The name table is the inverse of parsing: a code's symbolic name
/// parses back to that code.
#[verifier::rlimit(100)]
#[verifier::spinoff_prover]
pub proof fn lemma_name_table_inverse(code: u16, name: Seq<char>)
    requires
        spec_name_of(code) == Some(name),
    ensures
        spec_parse(name) == Some(code),
{
    reveal_strlit("KEY_ESC");
    reveal_strlit("KEY_1");
    reveal_strlit("KEY_2");
    reveal_strlit("KEY_3");
    reveal_strlit("KEY_4");
    reveal_strlit("KEY_5");
    reveal_strlit("KEY_6");
    reveal_strlit("KEY_7");
    reveal_strlit("KEY_8");
    reveal_strlit("KEY_9");
    reveal_strlit("KEY_0");
    reveal_strlit("KEY_MINUS");
    reveal_strlit("KEY_EQUAL");
    reveal_strlit("KEY_BACKSPACE");
    reveal_strlit("KEY_TAB");
    reveal_strlit("KEY_Q");
    reveal_strlit("KEY_W");
    reveal_strlit("KEY_E");
    reveal_strlit("KEY_R");
    reveal_strlit("KEY_T");
    reveal_strlit("KEY_Y");
    reveal_strlit("KEY_U");
    reveal_strlit("KEY_I");
    reveal_strlit("KEY_O");
    reveal_strlit("KEY_P");
    reveal_strlit("KEY_LEFTBRACE");
    reveal_strlit("KEY_RIGHTBRACE");
    reveal_strlit("KEY_ENTER");
    reveal_strlit("KEY_LEFTCTRL");
    reveal_strlit("KEY_A");
    reveal_strlit("KEY_S");
    reveal_strlit("KEY_D");
    reveal_strlit("KEY_F");
    reveal_strlit("KEY_G");
    reveal_strlit("KEY_H");
    reveal_strlit("KEY_J");
    reveal_strlit("KEY_K");
    reveal_strlit("KEY_L");
    reveal_strlit("KEY_SEMICOLON");
    reveal_strlit("KEY_APOSTROPHE");
    reveal_strlit("KEY_GRAVE");
    reveal_strlit("KEY_LEFTSHIFT");
    reveal_strlit("KEY_BACKSLASH");
    reveal_strlit("KEY_Z");
    reveal_strlit("KEY_X");
    reveal_strlit("KEY_C");
    reveal_strlit("KEY_V");
    reveal_strlit("KEY_B");
    reveal_strlit("KEY_N");
    reveal_strlit("KEY_M");
    reveal_strlit("KEY_COMMA");
    reveal_strlit("KEY_DOT");
    reveal_strlit("KEY_SLASH");
    reveal_strlit("KEY_RIGHTSHIFT");
    reveal_strlit("KEY_KPASTERISK");
    reveal_strlit("KEY_LEFTALT");
    reveal_strlit("KEY_SPACE");
    reveal_strlit("KEY_CAPSLOCK");
    reveal_strlit("KEY_F1");
    reveal_strlit("KEY_F2");
    reveal_strlit("KEY_F3");
    reveal_strlit("KEY_F4");
    reveal_strlit("KEY_F5");
    reveal_strlit("KEY_F6");
    reveal_strlit("KEY_F7");
    reveal_strlit("KEY_F8");
    reveal_strlit("KEY_F9");
    reveal_strlit("KEY_F10");
    reveal_strlit("KEY_NUMLOCK");
    reveal_strlit("KEY_SCROLLLOCK");
    reveal_strlit("KEY_KP7");
    reveal_strlit("KEY_KP8");
    reveal_strlit("KEY_KP9");
    reveal_strlit("KEY_KPMINUS");
    reveal_strlit("KEY_KP4");
    reveal_strlit("KEY_KP5");
    reveal_strlit("KEY_KP6");
    reveal_strlit("KEY_KPPLUS");
    reveal_strlit("KEY_KP1");
    reveal_strlit("KEY_KP2");
    reveal_strlit("KEY_KP3");
    reveal_strlit("KEY_KP0");
    reveal_strlit("KEY_KPDOT");
    reveal_strlit("KEY_F11");
    reveal_strlit("KEY_F12");
    reveal_strlit("KEY_KPENTER");
    reveal_strlit("KEY_RIGHTCTRL");
    reveal_strlit("KEY_KPSLASH");
    reveal_strlit("KEY_SYSRQ");
    reveal_strlit("KEY_RIGHTALT");
    reveal_strlit("KEY_HOME");
    reveal_strlit("KEY_UP");
    reveal_strlit("KEY_PAGEUP");
    reveal_strlit("KEY_LEFT");
    reveal_strlit("KEY_RIGHT");
    reveal_strlit("KEY_END");
    reveal_strlit("KEY_DOWN");
    reveal_strlit("KEY_PAGEDOWN");
    reveal_strlit("KEY_INSERT");
    reveal_strlit("KEY_DELETE");
    reveal_strlit("KEY_MUTE");
    reveal_strlit("KEY_VOLUMEDOWN");
    reveal_strlit("KEY_VOLUMEUP");
    reveal_strlit("KEY_POWER");
    reveal_strlit("KEY_KPEQUAL");
    reveal_strlit("KEY_PAUSE");
    reveal_strlit("KEY_LEFTMETA");
    reveal_strlit("KEY_RIGHTMETA");
    reveal_strlit("KEY_COMPOSE");
    reveal_strlit("KEY_STOP");
    reveal_strlit("KEY_MENU");
    reveal_strlit("KEY_CALC");
    reveal_strlit("KEY_SLEEP");
    reveal_strlit("KEY_WAKEUP");
    reveal_strlit("KEY_MAIL");
    reveal_strlit("KEY_BOOKMARKS");
    reveal_strlit("KEY_COMPUTER");
    reveal_strlit("KEY_BACK");
    reveal_strlit("KEY_FORWARD");
    reveal_strlit("KEY_NEXTSONG");
    reveal_strlit("KEY_PLAYPAUSE");
    reveal_strlit("KEY_PREVIOUSSONG");
    reveal_strlit("KEY_STOPCD");
    reveal_strlit("KEY_HOMEPAGE");
    reveal_strlit("KEY_REFRESH");
    reveal_strlit("KEY_BRIGHTNESSDOWN");
    reveal_strlit("KEY_BRIGHTNESSUP");
    reveal_strlit("BTN_LEFT");
    reveal_strlit("BTN_RIGHT");
    reveal_strlit("BTN_MIDDLE");
    // Each name, spelled out, so equal-length names are told apart.
    assert("KEY_ESC"@ =~= seq!['K', 'E', 'Y', '_', 'E', 'S', 'C']);
    assert("KEY_1"@ =~= seq!['K', 'E', 'Y', '_', '1']);
    assert("KEY_2"@ =~= seq!['K', 'E', 'Y', '_', '2']);
    assert("KEY_3"@ =~= seq!['K', 'E', 'Y', '_', '3']);
    assert("KEY_4"@ =~= seq!['K', 'E', 'Y', '_', '4']);
    assert("KEY_5"@ =~= seq!['K', 'E', 'Y', '_', '5']);
    assert("KEY_6"@ =~= seq!['K', 'E', 'Y', '_', '6']);
    assert("KEY_7"@ =~= seq!['K', 'E', 'Y', '_', '7']);
    assert("KEY_8"@ =~= seq!['K', 'E', 'Y', '_', '8']);
    assert("KEY_9"@ =~= seq!['K', 'E', 'Y', '_', '9']);
    assert("KEY_0"@ =~= seq!['K', 'E', 'Y', '_', '0']);
    assert("KEY_MINUS"@ =~= seq!['K', 'E', 'Y', '_', 'M', 'I', 'N', 'U', 'S']);
    assert("KEY_EQUAL"@ =~= seq!['K', 'E', 'Y', '_', 'E', 'Q', 'U', 'A', 'L']);
    assert("KEY_BACKSPACE"@ =~= seq!['K', 'E', 'Y', '_', 'B', 'A', 'C', 'K', 'S', 'P', 'A', 'C', 'E']);
    assert("KEY_TAB"@ =~= seq!['K', 'E', 'Y', '_', 'T', 'A', 'B']);
    assert("KEY_Q"@ =~= seq!['K', 'E', 'Y', '_', 'Q']);
    assert("KEY_W"@ =~= seq!['K', 'E', 'Y', '_', 'W']);
    assert("KEY_E"@ =~= seq!['K', 'E', 'Y', '_', 'E']);
    assert("KEY_R"@ =~= seq!['K', 'E', 'Y', '_', 'R']);
    assert("KEY_T"@ =~= seq!['K', 'E', 'Y', '_', 'T']);
    assert("KEY_Y"@ =~= seq!['K', 'E', 'Y', '_', 'Y']);
    assert("KEY_U"@ =~= seq!['K', 'E', 'Y', '_', 'U']);
    assert("KEY_I"@ =~= seq!['K', 'E', 'Y', '_', 'I']);
    assert("KEY_O"@ =~= seq!['K', 'E', 'Y', '_', 'O']);
    assert("KEY_P"@ =~= seq!['K', 'E', 'Y', '_', 'P']);
    assert("KEY_LEFTBRACE"@ =~= seq!['K', 'E', 'Y', '_', 'L', 'E', 'F', 'T', 'B', 'R', 'A', 'C', 'E']);
    assert("KEY_RIGHTBRACE"@ =~= seq!['K', 'E', 'Y', '_', 'R', 'I', 'G', 'H', 'T', 'B', 'R', 'A', 'C', 'E']);
    assert("KEY_ENTER"@ =~= seq!['K', 'E', 'Y', '_', 'E', 'N', 'T', 'E', 'R']);
    assert("KEY_LEFTCTRL"@ =~= seq!['K', 'E', 'Y', '_', 'L', 'E', 'F', 'T', 'C', 'T', 'R', 'L']);
    assert("KEY_A"@ =~= seq!['K', 'E', 'Y', '_', 'A']);
    assert("KEY_S"@ =~= seq!['K', 'E', 'Y', '_', 'S']);
    assert("KEY_D"@ =~= seq!['K', 'E', 'Y', '_', 'D']);
    assert("KEY_F"@ =~= seq!['K', 'E', 'Y', '_', 'F']);
    assert("KEY_G"@ =~= seq!['K', 'E', 'Y', '_', 'G']);
    assert("KEY_H"@ =~= seq!['K', 'E', 'Y', '_', 'H']);
    assert("KEY_J"@ =~= seq!['K', 'E', 'Y', '_', 'J']);
    assert("KEY_K"@ =~= seq!['K', 'E', 'Y', '_', 'K']);
    assert("KEY_L"@ =~= seq!['K', 'E', 'Y', '_', 'L']);
    assert("KEY_SEMICOLON"@ =~= seq!['K', 'E', 'Y', '_', 'S', 'E', 'M', 'I', 'C', 'O', 'L', 'O', 'N']);
    assert("KEY_APOSTROPHE"@ =~= seq!['K', 'E', 'Y', '_', 'A', 'P', 'O', 'S', 'T', 'R', 'O', 'P', 'H', 'E']);
    assert("KEY_GRAVE"@ =~= seq!['K', 'E', 'Y', '_', 'G', 'R', 'A', 'V', 'E']);
    assert("KEY_LEFTSHIFT"@ =~= seq!['K', 'E', 'Y', '_', 'L', 'E', 'F', 'T', 'S', 'H', 'I', 'F', 'T']);
    assert("KEY_BACKSLASH"@ =~= seq!['K', 'E', 'Y', '_', 'B', 'A', 'C', 'K', 'S', 'L', 'A', 'S', 'H']);
    assert("KEY_Z"@ =~= seq!['K', 'E', 'Y', '_', 'Z']);
    assert("KEY_X"@ =~= seq!['K', 'E', 'Y', '_', 'X']);
    assert("KEY_C"@ =~= seq!['K', 'E', 'Y', '_', 'C']);
    assert("KEY_V"@ =~= seq!['K', 'E', 'Y', '_', 'V']);
    assert("KEY_B"@ =~= seq!['K', 'E', 'Y', '_', 'B']);
    assert("KEY_N"@ =~= seq!['K', 'E', 'Y', '_', 'N']);
    assert("KEY_M"@ =~= seq!['K', 'E', 'Y', '_', 'M']);
    assert("KEY_COMMA"@ =~= seq!['K', 'E', 'Y', '_', 'C', 'O', 'M', 'M', 'A']);
    assert("KEY_DOT"@ =~= seq!['K', 'E', 'Y', '_', 'D', 'O', 'T']);
    assert("KEY_SLASH"@ =~= seq!['K', 'E', 'Y', '_', 'S', 'L', 'A', 'S', 'H']);
    assert("KEY_RIGHTSHIFT"@ =~= seq!['K', 'E', 'Y', '_', 'R', 'I', 'G', 'H', 'T', 'S', 'H', 'I', 'F', 'T']);
    assert("KEY_KPASTERISK"@ =~= seq!['K', 'E', 'Y', '_', 'K', 'P', 'A', 'S', 'T', 'E', 'R', 'I', 'S', 'K']);
    assert("KEY_LEFTALT"@ =~= seq!['K', 'E', 'Y', '_', 'L', 'E', 'F', 'T', 'A', 'L', 'T']);
    assert("KEY_SPACE"@ =~= seq!['K', 'E', 'Y', '_', 'S', 'P', 'A', 'C', 'E']);
    assert("KEY_CAPSLOCK"@ =~= seq!['K', 'E', 'Y', '_', 'C', 'A', 'P', 'S', 'L', 'O', 'C', 'K']);
    assert("KEY_F1"@ =~= seq!['K', 'E', 'Y', '_', 'F', '1']);
    assert("KEY_F2"@ =~= seq!['K', 'E', 'Y', '_', 'F', '2']);
    assert("KEY_F3"@ =~= seq!['K', 'E', 'Y', '_', 'F', '3']);
    assert("KEY_F4"@ =~= seq!['K', 'E', 'Y', '_', 'F', '4']);
    assert("KEY_F5"@ =~= seq!['K', 'E', 'Y', '_', 'F', '5']);
    assert("KEY_F6"@ =~= seq!['K', 'E', 'Y', '_', 'F', '6']);
    assert("KEY_F7"@ =~= seq!['K', 'E', 'Y', '_', 'F', '7']);
    assert("KEY_F8"@ =~= seq!['K', 'E', 'Y', '_', 'F', '8']);
    assert("KEY_F9"@ =~= seq!['K', 'E', 'Y', '_', 'F', '9']);
    assert("KEY_F10"@ =~= seq!['K', 'E', 'Y', '_', 'F', '1', '0']);
    assert("KEY_NUMLOCK"@ =~= seq!['K', 'E', 'Y', '_', 'N', 'U', 'M', 'L', 'O', 'C', 'K']);
    assert("KEY_SCROLLLOCK"@ =~= seq!['K', 'E', 'Y', '_', 'S', 'C', 'R', 'O', 'L', 'L', 'L', 'O', 'C', 'K']);
    assert("KEY_KP7"@ =~= seq!['K', 'E', 'Y', '_', 'K', 'P', '7']);
    assert("KEY_KP8"@ =~= seq!['K', 'E', 'Y', '_', 'K', 'P', '8']);
    assert("KEY_KP9"@ =~= seq!['K', 'E', 'Y', '_', 'K', 'P', '9']);
    assert("KEY_KPMINUS"@ =~= seq!['K', 'E', 'Y', '_', 'K', 'P', 'M', 'I', 'N', 'U', 'S']);
    assert("KEY_KP4"@ =~= seq!['K', 'E', 'Y', '_', 'K', 'P', '4']);
    assert("KEY_KP5"@ =~= seq!['K', 'E', 'Y', '_', 'K', 'P', '5']);
    assert("KEY_KP6"@ =~= seq!['K', 'E', 'Y', '_', 'K', 'P', '6']);
    assert("KEY_KPPLUS"@ =~= seq!['K', 'E', 'Y', '_', 'K', 'P', 'P', 'L', 'U', 'S']);
    assert("KEY_KP1"@ =~= seq!['K', 'E', 'Y', '_', 'K', 'P', '1']);
    assert("KEY_KP2"@ =~= seq!['K', 'E', 'Y', '_', 'K', 'P', '2']);
    assert("KEY_KP3"@ =~= seq!['K', 'E', 'Y', '_', 'K', 'P', '3']);
    assert("KEY_KP0"@ =~= seq!['K', 'E', 'Y', '_', 'K', 'P', '0']);
    assert("KEY_KPDOT"@ =~= seq!['K', 'E', 'Y', '_', 'K', 'P', 'D', 'O', 'T']);
    assert("KEY_F11"@ =~= seq!['K', 'E', 'Y', '_', 'F', '1', '1']);
    assert("KEY_F12"@ =~= seq!['K', 'E', 'Y', '_', 'F', '1', '2']);
    assert("KEY_KPENTER"@ =~= seq!['K', 'E', 'Y', '_', 'K', 'P', 'E', 'N', 'T', 'E', 'R']);
    assert("KEY_RIGHTCTRL"@ =~= seq!['K', 'E', 'Y', '_', 'R', 'I', 'G', 'H', 'T', 'C', 'T', 'R', 'L']);
    assert("KEY_KPSLASH"@ =~= seq!['K', 'E', 'Y', '_', 'K', 'P', 'S', 'L', 'A', 'S', 'H']);
    assert("KEY_SYSRQ"@ =~= seq!['K', 'E', 'Y', '_', 'S', 'Y', 'S', 'R', 'Q']);
    assert("KEY_RIGHTALT"@ =~= seq!['K', 'E', 'Y', '_', 'R', 'I', 'G', 'H', 'T', 'A', 'L', 'T']);
    assert("KEY_HOME"@ =~= seq!['K', 'E', 'Y', '_', 'H', 'O', 'M', 'E']);
    assert("KEY_UP"@ =~= seq!['K', 'E', 'Y', '_', 'U', 'P']);
    assert("KEY_PAGEUP"@ =~= seq!['K', 'E', 'Y', '_', 'P', 'A', 'G', 'E', 'U', 'P']);
    assert("KEY_LEFT"@ =~= seq!['K', 'E', 'Y', '_', 'L', 'E', 'F', 'T']);
    assert("KEY_RIGHT"@ =~= seq!['K', 'E', 'Y', '_', 'R', 'I', 'G', 'H', 'T']);
    assert("KEY_END"@ =~= seq!['K', 'E', 'Y', '_', 'E', 'N', 'D']);
    assert("KEY_DOWN"@ =~= seq!['K', 'E', 'Y', '_', 'D', 'O', 'W', 'N']);
    assert("KEY_PAGEDOWN"@ =~= seq!['K', 'E', 'Y', '_', 'P', 'A', 'G', 'E', 'D', 'O', 'W', 'N']);
    assert("KEY_INSERT"@ =~= seq!['K', 'E', 'Y', '_', 'I', 'N', 'S', 'E', 'R', 'T']);
    assert("KEY_DELETE"@ =~= seq!['K', 'E', 'Y', '_', 'D', 'E', 'L', 'E', 'T', 'E']);
    assert("KEY_MUTE"@ =~= seq!['K', 'E', 'Y', '_', 'M', 'U', 'T', 'E']);
    assert("KEY_VOLUMEDOWN"@ =~= seq!['K', 'E', 'Y', '_', 'V', 'O', 'L', 'U', 'M', 'E', 'D', 'O', 'W', 'N']);
    assert("KEY_VOLUMEUP"@ =~= seq!['K', 'E', 'Y', '_', 'V', 'O', 'L', 'U', 'M', 'E', 'U', 'P']);
    assert("KEY_POWER"@ =~= seq!['K', 'E', 'Y', '_', 'P', 'O', 'W', 'E', 'R']);
    assert("KEY_KPEQUAL"@ =~= seq!['K', 'E', 'Y', '_', 'K', 'P', 'E', 'Q', 'U', 'A', 'L']);
    assert("KEY_PAUSE"@ =~= seq!['K', 'E', 'Y', '_', 'P', 'A', 'U', 'S', 'E']);
    assert("KEY_LEFTMETA"@ =~= seq!['K', 'E', 'Y', '_', 'L', 'E', 'F', 'T', 'M', 'E', 'T', 'A']);
    assert("KEY_RIGHTMETA"@ =~= seq!['K', 'E', 'Y', '_', 'R', 'I', 'G', 'H', 'T', 'M', 'E', 'T', 'A']);
    assert("KEY_COMPOSE"@ =~= seq!['K', 'E', 'Y', '_', 'C', 'O', 'M', 'P', 'O', 'S', 'E']);
    assert("KEY_STOP"@ =~= seq!['K', 'E', 'Y', '_', 'S', 'T', 'O', 'P']);
    assert("KEY_MENU"@ =~= seq!['K', 'E', 'Y', '_', 'M', 'E', 'N', 'U']);
    assert("KEY_CALC"@ =~= seq!['K', 'E', 'Y', '_', 'C', 'A', 'L', 'C']);
    assert("KEY_SLEEP"@ =~= seq!['K', 'E', 'Y', '_', 'S', 'L', 'E', 'E', 'P']);
    assert("KEY_WAKEUP"@ =~= seq!['K', 'E', 'Y', '_', 'W', 'A', 'K', 'E', 'U', 'P']);
    assert("KEY_MAIL"@ =~= seq!['K', 'E', 'Y', '_', 'M', 'A', 'I', 'L']);
    assert("KEY_BOOKMARKS"@ =~= seq!['K', 'E', 'Y', '_', 'B', 'O', 'O', 'K', 'M', 'A', 'R', 'K', 'S']);
    assert("KEY_COMPUTER"@ =~= seq!['K', 'E', 'Y', '_', 'C', 'O', 'M', 'P', 'U', 'T', 'E', 'R']);
    assert("KEY_BACK"@ =~= seq!['K', 'E', 'Y', '_', 'B', 'A', 'C', 'K']);
    assert("KEY_FORWARD"@ =~= seq!['K', 'E', 'Y', '_', 'F', 'O', 'R', 'W', 'A', 'R', 'D']);
    assert("KEY_NEXTSONG"@ =~= seq!['K', 'E', 'Y', '_', 'N', 'E', 'X', 'T', 'S', 'O', 'N', 'G']);
    assert("KEY_PLAYPAUSE"@ =~= seq!['K', 'E', 'Y', '_', 'P', 'L', 'A', 'Y', 'P', 'A', 'U', 'S', 'E']);
    assert("KEY_PREVIOUSSONG"@ =~= seq!['K', 'E', 'Y', '_', 'P', 'R', 'E', 'V', 'I', 'O', 'U', 'S', 'S', 'O', 'N', 'G']);
    assert("KEY_STOPCD"@ =~= seq!['K', 'E', 'Y', '_', 'S', 'T', 'O', 'P', 'C', 'D']);
    assert("KEY_HOMEPAGE"@ =~= seq!['K', 'E', 'Y', '_', 'H', 'O', 'M', 'E', 'P', 'A', 'G', 'E']);
    assert("KEY_REFRESH"@ =~= seq!['K', 'E', 'Y', '_', 'R', 'E', 'F', 'R', 'E', 'S', 'H']);
    assert("KEY_BRIGHTNESSDOWN"@ =~= seq!['K', 'E', 'Y', '_', 'B', 'R', 'I', 'G', 'H', 'T', 'N', 'E', 'S', 'S', 'D', 'O', 'W', 'N']);
    assert("KEY_BRIGHTNESSUP"@ =~= seq!['K', 'E', 'Y', '_', 'B', 'R', 'I', 'G', 'H', 'T', 'N', 'E', 'S', 'S', 'U', 'P']);
    assert("BTN_LEFT"@ =~= seq!['B', 'T', 'N', '_', 'L', 'E', 'F', 'T']);
    assert("BTN_RIGHT"@ =~= seq!['B', 'T', 'N', '_', 'R', 'I', 'G', 'H', 'T']);
    assert("BTN_MIDDLE"@ =~= seq!['B', 'T', 'N', '_', 'M', 'I', 'D', 'D', 'L', 'E']);
    // The symbolic name of each code parses back to it.
    if code == 1 {
        assert(spec_code_of("KEY_ESC"@) == Some(1u16));
    } else if code == 2 {
        assert(spec_code_of("KEY_1"@) == Some(2u16));
    } else if code == 3 {
        assert(spec_code_of("KEY_2"@) == Some(3u16));
    } else if code == 4 {
        assert(spec_code_of("KEY_3"@) == Some(4u16));
    } else if code == 5 {
        assert(spec_code_of("KEY_4"@) == Some(5u16));
    } else if code == 6 {
        assert(spec_code_of("KEY_5"@) == Some(6u16));
    } else if code == 7 {
        assert(spec_code_of("KEY_6"@) == Some(7u16));
    } else if code == 8 {
        assert(spec_code_of("KEY_7"@) == Some(8u16));
    } else if code == 9 {
        assert(spec_code_of("KEY_8"@) == Some(9u16));
    } else if code == 10 {
        assert(spec_code_of("KEY_9"@) == Some(10u16));
    } else if code == 11 {
        assert(spec_code_of("KEY_0"@) == Some(11u16));
    } else if code == 12 {
        assert(spec_code_of("KEY_MINUS"@) == Some(12u16));
    } else if code == 13 {
        assert(spec_code_of("KEY_EQUAL"@) == Some(13u16));
    } else if code == 14 {
        assert(spec_code_of("KEY_BACKSPACE"@) == Some(14u16));
    } else if code == 15 {
        assert(spec_code_of("KEY_TAB"@) == Some(15u16));
    } else if code == 16 {
        assert(spec_code_of("KEY_Q"@) == Some(16u16));
    } else if code == 17 {
        assert(spec_code_of("KEY_W"@) == Some(17u16));
    } else if code == 18 {
        assert(spec_code_of("KEY_E"@) == Some(18u16));
    } else if code == 19 {
        assert(spec_code_of("KEY_R"@) == Some(19u16));
    } else if code == 20 {
        assert(spec_code_of("KEY_T"@) == Some(20u16));
    } else if code == 21 {
        assert(spec_code_of("KEY_Y"@) == Some(21u16));
    } else if code == 22 {
        assert(spec_code_of("KEY_U"@) == Some(22u16));
    } else if code == 23 {
        assert(spec_code_of("KEY_I"@) == Some(23u16));
    } else if code == 24 {
        assert(spec_code_of("KEY_O"@) == Some(24u16));
    } else if code == 25 {
        assert(spec_code_of("KEY_P"@) == Some(25u16));
    } else if code == 26 {
        assert(spec_code_of("KEY_LEFTBRACE"@) == Some(26u16));
    } else if code == 27 {
        assert(spec_code_of("KEY_RIGHTBRACE"@) == Some(27u16));
    } else if code == 28 {
        assert(spec_code_of("KEY_ENTER"@) == Some(28u16));
    } else if code == 29 {
        assert(spec_code_of("KEY_LEFTCTRL"@) == Some(29u16));
    } else if code == 30 {
        assert(spec_code_of("KEY_A"@) == Some(30u16));
    } else if code == 31 {
        assert(spec_code_of("KEY_S"@) == Some(31u16));
    } else if code == 32 {
        assert(spec_code_of("KEY_D"@) == Some(32u16));
    } else if code == 33 {
        assert(spec_code_of("KEY_F"@) == Some(33u16));
    } else if code == 34 {
        assert(spec_code_of("KEY_G"@) == Some(34u16));
    } else if code == 35 {
        assert(spec_code_of("KEY_H"@) == Some(35u16));
    } else if code == 36 {
        assert(spec_code_of("KEY_J"@) == Some(36u16));
    } else if code == 37 {
        assert(spec_code_of("KEY_K"@) == Some(37u16));
    } else if code == 38 {
        assert(spec_code_of("KEY_L"@) == Some(38u16));
    } else if code == 39 {
        assert(spec_code_of("KEY_SEMICOLON"@) == Some(39u16));
    } else if code == 40 {
        assert(spec_code_of("KEY_APOSTROPHE"@) == Some(40u16));
    } else if code == 41 {
        assert(spec_code_of("KEY_GRAVE"@) == Some(41u16));
    } else if code == 42 {
        assert(spec_code_of("KEY_LEFTSHIFT"@) == Some(42u16));
    } else if code == 43 {
        assert(spec_code_of("KEY_BACKSLASH"@) == Some(43u16));
    } else if code == 44 {
        assert(spec_code_of("KEY_Z"@) == Some(44u16));
    } else if code == 45 {
        assert(spec_code_of("KEY_X"@) == Some(45u16));
    } else if code == 46 {
        assert(spec_code_of("KEY_C"@) == Some(46u16));
    } else if code == 47 {
        assert(spec_code_of("KEY_V"@) == Some(47u16));
    } else if code == 48 {
        assert(spec_code_of("KEY_B"@) == Some(48u16));
    } else if code == 49 {
        assert(spec_code_of("KEY_N"@) == Some(49u16));
    } else if code == 50 {
        assert(spec_code_of("KEY_M"@) == Some(50u16));
    } else if code == 51 {
        assert(spec_code_of("KEY_COMMA"@) == Some(51u16));
    } else if code == 52 {
        assert(spec_code_of("KEY_DOT"@) == Some(52u16));
    } else if code == 53 {
        assert(spec_code_of("KEY_SLASH"@) == Some(53u16));
    } else if code == 54 {
        assert(spec_code_of("KEY_RIGHTSHIFT"@) == Some(54u16));
    } else if code == 55 {
        assert(spec_code_of("KEY_KPASTERISK"@) == Some(55u16));
    } else if code == 56 {
        assert(spec_code_of("KEY_LEFTALT"@) == Some(56u16));
    } else if code == 57 {
        assert(spec_code_of("KEY_SPACE"@) == Some(57u16));
    } else if code == 58 {
        assert(spec_code_of("KEY_CAPSLOCK"@) == Some(58u16));
    } else if code == 59 {
        assert(spec_code_of("KEY_F1"@) == Some(59u16));
    } else if code == 60 {
        assert(spec_code_of("KEY_F2"@) == Some(60u16));
    } else if code == 61 {
        assert(spec_code_of("KEY_F3"@) == Some(61u16));
    } else if code == 62 {
        assert(spec_code_of("KEY_F4"@) == Some(62u16));
    } else if code == 63 {
        assert(spec_code_of("KEY_F5"@) == Some(63u16));
    } else if code == 64 {
        assert(spec_code_of("KEY_F6"@) == Some(64u16));
    } else if code == 65 {
        assert(spec_code_of("KEY_F7"@) == Some(65u16));
    } else if code == 66 {
        assert(spec_code_of("KEY_F8"@) == Some(66u16));
    } else if code == 67 {
        assert(spec_code_of("KEY_F9"@) == Some(67u16));
    } else if code == 68 {
        assert(spec_code_of("KEY_F10"@) == Some(68u16));
    } else if code == 69 {
        assert(spec_code_of("KEY_NUMLOCK"@) == Some(69u16));
    } else if code == 70 {
        assert(spec_code_of("KEY_SCROLLLOCK"@) == Some(70u16));
    } else if code == 71 {
        assert(spec_code_of("KEY_KP7"@) == Some(71u16));
    } else if code == 72 {
        assert(spec_code_of("KEY_KP8"@) == Some(72u16));
    } else if code == 73 {
        assert(spec_code_of("KEY_KP9"@) == Some(73u16));
    } else if code == 74 {
        assert(spec_code_of("KEY_KPMINUS"@) == Some(74u16));
    } else if code == 75 {
        assert(spec_code_of("KEY_KP4"@) == Some(75u16));
    } else if code == 76 {
        assert(spec_code_of("KEY_KP5"@) == Some(76u16));
    } else if code == 77 {
        assert(spec_code_of("KEY_KP6"@) == Some(77u16));
    } else if code == 78 {
        assert(spec_code_of("KEY_KPPLUS"@) == Some(78u16));
    } else if code == 79 {
        assert(spec_code_of("KEY_KP1"@) == Some(79u16));
    } else if code == 80 {
        assert(spec_code_of("KEY_KP2"@) == Some(80u16));
    } else if code == 81 {
        assert(spec_code_of("KEY_KP3"@) == Some(81u16));
    } else if code == 82 {
        assert(spec_code_of("KEY_KP0"@) == Some(82u16));
    } else if code == 83 {
        assert(spec_code_of("KEY_KPDOT"@) == Some(83u16));
    } else if code == 87 {
        assert(spec_code_of("KEY_F11"@) == Some(87u16));
    } else if code == 88 {
        assert(spec_code_of("KEY_F12"@) == Some(88u16));
    } else if code == 96 {
        assert(spec_code_of("KEY_KPENTER"@) == Some(96u16));
    } else if code == 97 {
        assert(spec_code_of("KEY_RIGHTCTRL"@) == Some(97u16));
    } else if code == 98 {
        assert(spec_code_of("KEY_KPSLASH"@) == Some(98u16));
    } else if code == 99 {
        assert(spec_code_of("KEY_SYSRQ"@) == Some(99u16));
    } else if code == 100 {
        assert(spec_code_of("KEY_RIGHTALT"@) == Some(100u16));
    } else if code == 102 {
        assert(spec_code_of("KEY_HOME"@) == Some(102u16));
    } else if code == 103 {
        assert(spec_code_of("KEY_UP"@) == Some(103u16));
    } else if code == 104 {
        assert(spec_code_of("KEY_PAGEUP"@) == Some(104u16));
    } else if code == 105 {
        assert(spec_code_of("KEY_LEFT"@) == Some(105u16));
    } else if code == 106 {
        assert(spec_code_of("KEY_RIGHT"@) == Some(106u16));
    } else if code == 107 {
        assert(spec_code_of("KEY_END"@) == Some(107u16));
    } else if code == 108 {
        assert(spec_code_of("KEY_DOWN"@) == Some(108u16));
    } else if code == 109 {
        assert(spec_code_of("KEY_PAGEDOWN"@) == Some(109u16));
    } else if code == 110 {
        assert(spec_code_of("KEY_INSERT"@) == Some(110u16));
    } else if code == 111 {
        assert(spec_code_of("KEY_DELETE"@) == Some(111u16));
    } else if code == 113 {
        assert(spec_code_of("KEY_MUTE"@) == Some(113u16));
    } else if code == 114 {
        assert(spec_code_of("KEY_VOLUMEDOWN"@) == Some(114u16));
    } else if code == 115 {
        assert(spec_code_of("KEY_VOLUMEUP"@) == Some(115u16));
    } else if code == 116 {
        assert(spec_code_of("KEY_POWER"@) == Some(116u16));
    } else if code == 117 {
        assert(spec_code_of("KEY_KPEQUAL"@) == Some(117u16));
    } else if code == 119 {
        assert(spec_code_of("KEY_PAUSE"@) == Some(119u16));
    } else if code == 125 {
        assert(spec_code_of("KEY_LEFTMETA"@) == Some(125u16));
    } else if code == 126 {
        assert(spec_code_of("KEY_RIGHTMETA"@) == Some(126u16));
    } else if code == 127 {
        assert(spec_code_of("KEY_COMPOSE"@) == Some(127u16));
    } else if code == 128 {
        assert(spec_code_of("KEY_STOP"@) == Some(128u16));
    } else if code == 139 {
        assert(spec_code_of("KEY_MENU"@) == Some(139u16));
    } else if code == 140 {
        assert(spec_code_of("KEY_CALC"@) == Some(140u16));
    } else if code == 142 {
        assert(spec_code_of("KEY_SLEEP"@) == Some(142u16));
    } else if code == 143 {
        assert(spec_code_of("KEY_WAKEUP"@) == Some(143u16));
    } else if code == 155 {
        assert(spec_code_of("KEY_MAIL"@) == Some(155u16));
    } else if code == 156 {
        assert(spec_code_of("KEY_BOOKMARKS"@) == Some(156u16));
    } else if code == 157 {
        assert(spec_code_of("KEY_COMPUTER"@) == Some(157u16));
    } else if code == 158 {
        assert(spec_code_of("KEY_BACK"@) == Some(158u16));
    } else if code == 159 {
        assert(spec_code_of("KEY_FORWARD"@) == Some(159u16));
    } else if code == 163 {
        assert(spec_code_of("KEY_NEXTSONG"@) == Some(163u16));
    } else if code == 164 {
        assert(spec_code_of("KEY_PLAYPAUSE"@) == Some(164u16));
    } else if code == 165 {
        assert(spec_code_of("KEY_PREVIOUSSONG"@) == Some(165u16));
    } else if code == 166 {
        assert(spec_code_of("KEY_STOPCD"@) == Some(166u16));
    } else if code == 172 {
        assert(spec_code_of("KEY_HOMEPAGE"@) == Some(172u16));
    } else if code == 173 {
        assert(spec_code_of("KEY_REFRESH"@) == Some(173u16));
    } else if code == 224 {
        assert(spec_code_of("KEY_BRIGHTNESSDOWN"@) == Some(224u16));
    } else if code == 225 {
        assert(spec_code_of("KEY_BRIGHTNESSUP"@) == Some(225u16));
    } else if code == 272 {
        assert(spec_code_of("BTN_LEFT"@) == Some(272u16));
    } else if code == 273 {
        assert(spec_code_of("BTN_RIGHT"@) == Some(273u16));
    } else if code == 274 {
        assert(spec_code_of("BTN_MIDDLE"@) == Some(274u16));
    }
}

} // verus!
