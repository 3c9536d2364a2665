//! The key-code table.
//!
//! Every key the kernel can report has a stable 16-bit number; the names
//! mirror QMK conventions (`KC_F`, `KC_PAUSE`).  Conversions to and from the
//! number and the textual name are specified by mirrored tables, so a caller
//! can reason about any individual entry.

use vstd::prelude::*;

use crate::strings::{str_eq, canonical_key_name, spec_canonical_key_name};

verus! {

/// The named keys of the Linux evdev key table, plus a sentinel for codes the
/// remapper chooses not to model.
#[allow(non_camel_case_types)]
#[derive(Clone, Copy, Debug, PartialEq, Eq, Hash, Structural)]
pub enum KeyCode {
    KC_RESERVED,
    KC_ESC,
    KC_1,
    KC_2,
    KC_3,
    KC_4,
    KC_5,
    KC_6,
    KC_7,
    KC_8,
    KC_9,
    KC_0,
    KC_MINUS,
    KC_EQUAL,
    KC_BACKSPACE,
    KC_TAB,
    KC_Q,
    KC_W,
    KC_E,
    KC_R,
    KC_T,
    KC_Y,
    KC_U,
    KC_I,
    KC_O,
    KC_P,
    KC_LEFTBRACE,
    KC_RIGHTBRACE,
    KC_ENTER,
    KC_LEFTCTRL,
    KC_A,
    KC_S,
    KC_D,
    KC_F,
    KC_G,
    KC_H,
    KC_J,
    KC_K,
    KC_L,
    KC_SEMICOLON,
    KC_APOSTROPHE,
    KC_GRAVE,
    KC_LEFTSHIFT,
    KC_BACKSLASH,
    KC_Z,
    KC_X,
    KC_C,
    KC_V,
    KC_B,
    KC_N,
    KC_M,
    KC_COMMA,
    KC_DOT,
    KC_SLASH,
    KC_RIGHTSHIFT,
    KC_KPASTERISK,
    KC_LEFTALT,
    KC_SPACE,
    KC_CAPSLOCK,
    KC_F1,
    KC_F2,
    KC_F3,
    KC_F4,
    KC_F5,
    KC_F6,
    KC_F7,
    KC_F8,
    KC_F9,
    KC_F10,
    KC_NUMLOCK,
    KC_SCROLLLOCK,
    KC_KP7,
    KC_KP8,
    KC_KP9,
    KC_KPMINUS,
    KC_KP4,
    KC_KP5,
    KC_KP6,
    KC_KPPLUS,
    KC_KP1,
    KC_KP2,
    KC_KP3,
    KC_KP0,
    KC_KPDOT,
    KC_ZENKAKUHANKAKU,
    KC_102ND,
    KC_F11,
    KC_F12,
    KC_RO,
    KC_KATAKANA,
    KC_HIRAGANA,
    KC_HENKAN,
    KC_KATAKANAHIRAGANA,
    KC_MUHENKAN,
    KC_KPJPCOMMA,
    KC_KPENTER,
    KC_RIGHTCTRL,
    KC_KPSLASH,
    KC_SYSRQ,
    KC_RIGHTALT,
    KC_LINEFEED,
    KC_HOME,
    KC_UP,
    KC_PAGEUP,
    KC_LEFT,
    KC_RIGHT,
    KC_END,
    KC_DOWN,
    KC_PAGEDOWN,
    KC_INSERT,
    KC_DELETE,
    KC_MACRO,
    KC_MUTE,
    KC_VOLUMEDOWN,
    KC_VOLUMEUP,
    KC_POWER,
    KC_KPEQUAL,
    KC_KPPLUSMINUS,
    KC_PAUSE,
    KC_SCALE,
    KC_KPCOMMA,
    KC_HANGEUL,
    KC_HANJA,
    KC_YEN,
    KC_LEFTMETA,
    KC_RIGHTMETA,
    KC_COMPOSE,
    KC_STOP,
    KC_AGAIN,
    KC_PROPS,
    KC_UNDO,
    KC_FRONT,
    KC_COPY,
    KC_OPEN,
    KC_PASTE,
    KC_FIND,
    KC_CUT,
    KC_HELP,
    KC_MENU,
    KC_CALC,
    KC_SETUP,
    KC_SLEEP,
    KC_WAKEUP,
    KC_FILE,
    KC_SENDFILE,
    KC_DELETEFILE,
    KC_XFER,
    KC_PROG1,
    KC_PROG2,
    KC_WWW,
    KC_MSDOS,
    KC_COFFEE,
    KC_ROTATE_DISPLAY,
    KC_CYCLEWINDOWS,
    KC_MAIL,
    KC_BOOKMARKS,
    KC_COMPUTER,
    KC_BACK,
    KC_FORWARD,
    KC_CLOSECD,
    KC_EJECTCD,
    KC_EJECTCLOSECD,
    KC_NEXTSONG,
    KC_PLAYPAUSE,
    KC_PREVIOUSSONG,
    KC_STOPCD,
    KC_RECORD,
    KC_REWIND,
    KC_PHONE,
    KC_ISO,
    KC_CONFIG,
    KC_HOMEPAGE,
    KC_REFRESH,
    KC_EXIT,
    KC_MOVE,
    KC_EDIT,
    KC_SCROLLUP,
    KC_SCROLLDOWN,
    KC_KPLEFTPAREN,
    KC_KPRIGHTPAREN,
    KC_NEW,
    KC_REDO,
    KC_F13,
    KC_F14,
    KC_F15,
    KC_F16,
    KC_F17,
    KC_F18,
    KC_F19,
    KC_F20,
    KC_F21,
    KC_F22,
    KC_F23,
    KC_F24,
    KC_PLAYCD,
    KC_PAUSECD,
    KC_PROG3,
    KC_PROG4,
    KC_DASHBOARD,
    KC_SUSPEND,
    KC_CLOSE,
    KC_PLAY,
    KC_FASTFORWARD,
    KC_BASSBOOST,
    KC_PRINT,
    KC_HP,
    KC_CAMERA,
    KC_SOUND,
    KC_QUESTION,
    KC_EMAIL,
    KC_CHAT,
    KC_SEARCH,
    KC_CONNECT,
    KC_FINANCE,
    KC_SPORT,
    KC_SHOP,
    KC_ALTERASE,
    KC_CANCEL,
    KC_BRIGHTNESSDOWN,
    KC_BRIGHTNESSUP,
    KC_MEDIA,
    KC_SWITCHVIDEOMODE,
    KC_KBDILLUMTOGGLE,
    KC_KBDILLUMDOWN,
    KC_KBDILLUMUP,
    KC_SEND,
    KC_REPLY,
    KC_FORWARDMAIL,
    KC_SAVE,
    KC_DOCUMENTS,
    KC_BATTERY,
    KC_BLUETOOTH,
    KC_WLAN,
    KC_UWB,
    KC_UNKNOWN,
    KC_VIDEO_NEXT,
    KC_VIDEO_PREV,
    KC_BRIGHTNESS_CYCLE,
    KC_BRIGHTNESS_AUTO,
    KC_DISPLAY_OFF,
    KC_WWAN,
    KC_RFKILL,
    KC_MICMUTE,
    KC_OK,
    KC_SELECT,
    KC_GOTO,
    KC_CLEAR,
    KC_POWER2,
    KC_OPTION,
    KC_INFO,
    KC_TIME,
    KC_VENDOR,
    KC_ARCHIVE,
    KC_PROGRAM,
    KC_CHANNEL,
    KC_FAVORITES,
    KC_EPG,
    KC_PVR,
    KC_MHP,
    KC_LANGUAGE,
    KC_TITLE,
    KC_SUBTITLE,
    KC_ANGLE,
    KC_FULL_SCREEN,
    KC_MODE,
    KC_KEYBOARD,
    KC_ASPECT_RATIO,
    KC_PC,
    KC_TV,
    KC_TV2,
    KC_VCR,
    KC_VCR2,
    KC_SAT,
    KC_SAT2,
    KC_CD,
    KC_TAPE,
    KC_RADIO,
    KC_TUNER,
    KC_PLAYER,
    KC_TEXT,
    KC_DVD,
    KC_AUX,
    KC_MP3,
    KC_AUDIO,
    KC_VIDEO,
    KC_DIRECTORY,
    KC_LIST,
    KC_MEMO,
    KC_CALENDAR,
    KC_RED,
    KC_GREEN,
    KC_YELLOW,
    KC_BLUE,
    KC_CHANNELUP,
    KC_CHANNELDOWN,
    KC_FIRST,
    KC_LAST,
    KC_AB,
    KC_NEXT,
    KC_RESTART,
    KC_SLOW,
    KC_SHUFFLE,
    KC_BREAK,
    KC_PREVIOUS,
    KC_DIGITS,
    KC_TEEN,
    KC_TWEN,
    KC_VIDEOPHONE,
    KC_GAMES,
    KC_ZOOMIN,
    KC_ZOOMOUT,
    KC_ZOOMRESET,
    KC_WORDPROCESSOR,
    KC_EDITOR,
    KC_SPREADSHEET,
    KC_GRAPHICSEDITOR,
    KC_PRESENTATION,
    KC_DATABASE,
    KC_NEWS,
    KC_VOICEMAIL,
    KC_ADDRESSBOOK,
    KC_MESSENGER,
    KC_DISPLAYTOGGLE,
    KC_SPELLCHECK,
    KC_LOGOFF,
    KC_DOLLAR,
    KC_EURO,
    KC_FRAMEBACK,
    KC_FRAMEFORWARD,
    KC_CONTEXT_MENU,
    KC_MEDIA_REPEAT,
    KC_10CHANNELSUP,
    KC_10CHANNELSDOWN,
    KC_IMAGES,
    KC_DEL_EOL,
    KC_DEL_EOS,
    KC_INS_LINE,
    KC_DEL_LINE,
    KC_FN,
    KC_FN_ESC,
    KC_FN_F1,
    KC_FN_F2,
    KC_FN_F3,
    KC_FN_F4,
    KC_FN_F5,
    KC_FN_F6,
    KC_FN_F7,
    KC_FN_F8,
    KC_FN_F9,
    KC_FN_F10,
    KC_FN_F11,
    KC_FN_F12,
    KC_FN_1,
    KC_FN_2,
    KC_FN_D,
    KC_FN_E,
    KC_FN_F,
    KC_FN_S,
    KC_FN_B,
    KC_BRL_DOT1,
    KC_BRL_DOT2,
    KC_BRL_DOT3,
    KC_BRL_DOT4,
    KC_BRL_DOT5,
    KC_BRL_DOT6,
    KC_BRL_DOT7,
    KC_BRL_DOT8,
    KC_BRL_DOT9,
    KC_BRL_DOT10,
    KC_NUMERIC_0,
    KC_NUMERIC_1,
    KC_NUMERIC_2,
    KC_NUMERIC_3,
    KC_NUMERIC_4,
    KC_NUMERIC_5,
    KC_NUMERIC_6,
    KC_NUMERIC_7,
    KC_NUMERIC_8,
    KC_NUMERIC_9,
    KC_NUMERIC_STAR,
    KC_NUMERIC_POUND,
    KC_NUMERIC_A,
    KC_NUMERIC_B,
    KC_NUMERIC_C,
    KC_NUMERIC_D,
    KC_CAMERA_FOCUS,
    KC_WPS_BUTTON,
    KC_TOUCHPAD_TOGGLE,
    KC_TOUCHPAD_ON,
    KC_TOUCHPAD_OFF,
    KC_CAMERA_ZOOMIN,
    KC_CAMERA_ZOOMOUT,
    KC_CAMERA_UP,
    KC_CAMERA_DOWN,
    KC_CAMERA_LEFT,
    KC_CAMERA_RIGHT,
    KC_ATTENDANT_ON,
    KC_ATTENDANT_OFF,
    KC_ATTENDANT_TOGGLE,
    KC_LIGHTS_TOGGLE,
    KC_ALS_TOGGLE,
    KC_ROTATE_LOCK_TOGGLE,
    KC_BUTTONCONFIG,
    KC_TASKMANAGER,
    KC_JOURNAL,
    KC_CONTROLPANEL,
    KC_APPSELECT,
    KC_SCREENSAVER,
    KC_VOICECOMMAND,
    KC_ASSISTANT,
    KC_BRIGHTNESS_MIN,
    KC_BRIGHTNESS_MAX,
    KC_KBDINPUTASSIST_PREV,
    KC_KBDINPUTASSIST_NEXT,
    KC_KBDINPUTASSIST_PREVGROUP,
    KC_KBDINPUTASSIST_NEXTGROUP,
    KC_KBDINPUTASSIST_ACCEPT,
    KC_KBDINPUTASSIST_CANCEL,
    KC_RIGHT_UP,
    KC_RIGHT_DOWN,
    KC_LEFT_UP,
    KC_LEFT_DOWN,
    KC_ROOT_MENU,
    KC_MEDIA_TOP_MENU,
    KC_NUMERIC_11,
    KC_NUMERIC_12,
    KC_AUDIO_DESC,
    KC_3D_MODE,
    KC_NEXT_FAVORITE,
    KC_STOP_RECORD,
    KC_PAUSE_RECORD,
    KC_VOD,
    KC_UNMUTE,
    KC_FASTREVERSE,
    KC_SLOWREVERSE,
    KC_DATA,
    KC_ONSCREEN_KEYBOARD,
    KC_MAX,
    NotImplemented,
}

/// The evdev number of each key.
pub open spec fn key_code_number(k: KeyCode) -> u16 {
    match k {
        KeyCode::KC_RESERVED => 0,
        KeyCode::KC_ESC => 1,
        KeyCode::KC_1 => 2,
        KeyCode::KC_2 => 3,
        KeyCode::KC_3 => 4,
        KeyCode::KC_4 => 5,
        KeyCode::KC_5 => 6,
        KeyCode::KC_6 => 7,
        KeyCode::KC_7 => 8,
        KeyCode::KC_8 => 9,
        KeyCode::KC_9 => 10,
        KeyCode::KC_0 => 11,
        KeyCode::KC_MINUS => 12,
        KeyCode::KC_EQUAL => 13,
        KeyCode::KC_BACKSPACE => 14,
        KeyCode::KC_TAB => 15,
        KeyCode::KC_Q => 16,
        KeyCode::KC_W => 17,
        KeyCode::KC_E => 18,
        KeyCode::KC_R => 19,
        KeyCode::KC_T => 20,
        KeyCode::KC_Y => 21,
        KeyCode::KC_U => 22,
        KeyCode::KC_I => 23,
        KeyCode::KC_O => 24,
        KeyCode::KC_P => 25,
        KeyCode::KC_LEFTBRACE => 26,
        KeyCode::KC_RIGHTBRACE => 27,
        KeyCode::KC_ENTER => 28,
        KeyCode::KC_LEFTCTRL => 29,
        KeyCode::KC_A => 30,
        KeyCode::KC_S => 31,
        KeyCode::KC_D => 32,
        KeyCode::KC_F => 33,
        KeyCode::KC_G => 34,
        KeyCode::KC_H => 35,
        KeyCode::KC_J => 36,
        KeyCode::KC_K => 37,
        KeyCode::KC_L => 38,
        KeyCode::KC_SEMICOLON => 39,
        KeyCode::KC_APOSTROPHE => 40,
        KeyCode::KC_GRAVE => 41,
        KeyCode::KC_LEFTSHIFT => 42,
        KeyCode::KC_BACKSLASH => 43,
        KeyCode::KC_Z => 44,
        KeyCode::KC_X => 45,
        KeyCode::KC_C => 46,
        KeyCode::KC_V => 47,
        KeyCode::KC_B => 48,
        KeyCode::KC_N => 49,
        KeyCode::KC_M => 50,
        KeyCode::KC_COMMA => 51,
        KeyCode::KC_DOT => 52,
        KeyCode::KC_SLASH => 53,
        KeyCode::KC_RIGHTSHIFT => 54,
        KeyCode::KC_KPASTERISK => 55,
        KeyCode::KC_LEFTALT => 56,
        KeyCode::KC_SPACE => 57,
        KeyCode::KC_CAPSLOCK => 58,
        KeyCode::KC_F1 => 59,
        KeyCode::KC_F2 => 60,
        KeyCode::KC_F3 => 61,
        KeyCode::KC_F4 => 62,
        KeyCode::KC_F5 => 63,
        KeyCode::KC_F6 => 64,
        KeyCode::KC_F7 => 65,
        KeyCode::KC_F8 => 66,
        KeyCode::KC_F9 => 67,
        KeyCode::KC_F10 => 68,
        KeyCode::KC_NUMLOCK => 69,
        KeyCode::KC_SCROLLLOCK => 70,
        KeyCode::KC_KP7 => 71,
        KeyCode::KC_KP8 => 72,
        KeyCode::KC_KP9 => 73,
        KeyCode::KC_KPMINUS => 74,
        KeyCode::KC_KP4 => 75,
        KeyCode::KC_KP5 => 76,
        KeyCode::KC_KP6 => 77,
        KeyCode::KC_KPPLUS => 78,
        KeyCode::KC_KP1 => 79,
        KeyCode::KC_KP2 => 80,
        KeyCode::KC_KP3 => 81,
        KeyCode::KC_KP0 => 82,
        KeyCode::KC_KPDOT => 83,
        KeyCode::KC_ZENKAKUHANKAKU => 85,
        KeyCode::KC_102ND => 86,
        KeyCode::KC_F11 => 87,
        KeyCode::KC_F12 => 88,
        KeyCode::KC_RO => 89,
        KeyCode::KC_KATAKANA => 90,
        KeyCode::KC_HIRAGANA => 91,
        KeyCode::KC_HENKAN => 92,
        KeyCode::KC_KATAKANAHIRAGANA => 93,
        KeyCode::KC_MUHENKAN => 94,
        KeyCode::KC_KPJPCOMMA => 95,
        KeyCode::KC_KPENTER => 96,
        KeyCode::KC_RIGHTCTRL => 97,
        KeyCode::KC_KPSLASH => 98,
        KeyCode::KC_SYSRQ => 99,
        KeyCode::KC_RIGHTALT => 100,
        KeyCode::KC_LINEFEED => 101,
        KeyCode::KC_HOME => 102,
        KeyCode::KC_UP => 103,
        KeyCode::KC_PAGEUP => 104,
        KeyCode::KC_LEFT => 105,
        KeyCode::KC_RIGHT => 106,
        KeyCode::KC_END => 107,
        KeyCode::KC_DOWN => 108,
        KeyCode::KC_PAGEDOWN => 109,
        KeyCode::KC_INSERT => 110,
        KeyCode::KC_DELETE => 111,
        KeyCode::KC_MACRO => 112,
        KeyCode::KC_MUTE => 113,
        KeyCode::KC_VOLUMEDOWN => 114,
        KeyCode::KC_VOLUMEUP => 115,
        KeyCode::KC_POWER => 116,
        KeyCode::KC_KPEQUAL => 117,
        KeyCode::KC_KPPLUSMINUS => 118,
        KeyCode::KC_PAUSE => 119,
        KeyCode::KC_SCALE => 120,
        KeyCode::KC_KPCOMMA => 121,
        KeyCode::KC_HANGEUL => 122,
        KeyCode::KC_HANJA => 123,
        KeyCode::KC_YEN => 124,
        KeyCode::KC_LEFTMETA => 125,
        KeyCode::KC_RIGHTMETA => 126,
        KeyCode::KC_COMPOSE => 127,
        KeyCode::KC_STOP => 128,
        KeyCode::KC_AGAIN => 129,
        KeyCode::KC_PROPS => 130,
        KeyCode::KC_UNDO => 131,
        KeyCode::KC_FRONT => 132,
        KeyCode::KC_COPY => 133,
        KeyCode::KC_OPEN => 134,
        KeyCode::KC_PASTE => 135,
        KeyCode::KC_FIND => 136,
        KeyCode::KC_CUT => 137,
        KeyCode::KC_HELP => 138,
        KeyCode::KC_MENU => 139,
        KeyCode::KC_CALC => 140,
        KeyCode::KC_SETUP => 141,
        KeyCode::KC_SLEEP => 142,
        KeyCode::KC_WAKEUP => 143,
        KeyCode::KC_FILE => 144,
        KeyCode::KC_SENDFILE => 145,
        KeyCode::KC_DELETEFILE => 146,
        KeyCode::KC_XFER => 147,
        KeyCode::KC_PROG1 => 148,
        KeyCode::KC_PROG2 => 149,
        KeyCode::KC_WWW => 150,
        KeyCode::KC_MSDOS => 151,
        KeyCode::KC_COFFEE => 152,
        KeyCode::KC_ROTATE_DISPLAY => 153,
        KeyCode::KC_CYCLEWINDOWS => 154,
        KeyCode::KC_MAIL => 155,
        KeyCode::KC_BOOKMARKS => 156,
        KeyCode::KC_COMPUTER => 157,
        KeyCode::KC_BACK => 158,
        KeyCode::KC_FORWARD => 159,
        KeyCode::KC_CLOSECD => 160,
        KeyCode::KC_EJECTCD => 161,
        KeyCode::KC_EJECTCLOSECD => 162,
        KeyCode::KC_NEXTSONG => 163,
        KeyCode::KC_PLAYPAUSE => 164,
        KeyCode::KC_PREVIOUSSONG => 165,
        KeyCode::KC_STOPCD => 166,
        KeyCode::KC_RECORD => 167,
        KeyCode::KC_REWIND => 168,
        KeyCode::KC_PHONE => 169,
        KeyCode::KC_ISO => 170,
        KeyCode::KC_CONFIG => 171,
        KeyCode::KC_HOMEPAGE => 172,
        KeyCode::KC_REFRESH => 173,
        KeyCode::KC_EXIT => 174,
        KeyCode::KC_MOVE => 175,
        KeyCode::KC_EDIT => 176,
        KeyCode::KC_SCROLLUP => 177,
        KeyCode::KC_SCROLLDOWN => 178,
        KeyCode::KC_KPLEFTPAREN => 179,
        KeyCode::KC_KPRIGHTPAREN => 180,
        KeyCode::KC_NEW => 181,
        KeyCode::KC_REDO => 182,
        KeyCode::KC_F13 => 183,
        KeyCode::KC_F14 => 184,
        KeyCode::KC_F15 => 185,
        KeyCode::KC_F16 => 186,
        KeyCode::KC_F17 => 187,
        KeyCode::KC_F18 => 188,
        KeyCode::KC_F19 => 189,
        KeyCode::KC_F20 => 190,
        KeyCode::KC_F21 => 191,
        KeyCode::KC_F22 => 192,
        KeyCode::KC_F23 => 193,
        KeyCode::KC_F24 => 194,
        KeyCode::KC_PLAYCD => 200,
        KeyCode::KC_PAUSECD => 201,
        KeyCode::KC_PROG3 => 202,
        KeyCode::KC_PROG4 => 203,
        KeyCode::KC_DASHBOARD => 204,
        KeyCode::KC_SUSPEND => 205,
        KeyCode::KC_CLOSE => 206,
        KeyCode::KC_PLAY => 207,
        KeyCode::KC_FASTFORWARD => 208,
        KeyCode::KC_BASSBOOST => 209,
        KeyCode::KC_PRINT => 210,
        KeyCode::KC_HP => 211,
        KeyCode::KC_CAMERA => 212,
        KeyCode::KC_SOUND => 213,
        KeyCode::KC_QUESTION => 214,
        KeyCode::KC_EMAIL => 215,
        KeyCode::KC_CHAT => 216,
        KeyCode::KC_SEARCH => 217,
        KeyCode::KC_CONNECT => 218,
        KeyCode::KC_FINANCE => 219,
        KeyCode::KC_SPORT => 220,
        KeyCode::KC_SHOP => 221,
        KeyCode::KC_ALTERASE => 222,
        KeyCode::KC_CANCEL => 223,
        KeyCode::KC_BRIGHTNESSDOWN => 224,
        KeyCode::KC_BRIGHTNESSUP => 225,
        KeyCode::KC_MEDIA => 226,
        KeyCode::KC_SWITCHVIDEOMODE => 227,
        KeyCode::KC_KBDILLUMTOGGLE => 228,
        KeyCode::KC_KBDILLUMDOWN => 229,
        KeyCode::KC_KBDILLUMUP => 230,
        KeyCode::KC_SEND => 231,
        KeyCode::KC_REPLY => 232,
        KeyCode::KC_FORWARDMAIL => 233,
        KeyCode::KC_SAVE => 234,
        KeyCode::KC_DOCUMENTS => 235,
        KeyCode::KC_BATTERY => 236,
        KeyCode::KC_BLUETOOTH => 237,
        KeyCode::KC_WLAN => 238,
        KeyCode::KC_UWB => 239,
        KeyCode::KC_UNKNOWN => 240,
        KeyCode::KC_VIDEO_NEXT => 241,
        KeyCode::KC_VIDEO_PREV => 242,
        KeyCode::KC_BRIGHTNESS_CYCLE => 243,
        KeyCode::KC_BRIGHTNESS_AUTO => 244,
        KeyCode::KC_DISPLAY_OFF => 245,
        KeyCode::KC_WWAN => 246,
        KeyCode::KC_RFKILL => 247,
        KeyCode::KC_MICMUTE => 248,
        KeyCode::KC_OK => 352,
        KeyCode::KC_SELECT => 353,
        KeyCode::KC_GOTO => 354,
        KeyCode::KC_CLEAR => 355,
        KeyCode::KC_POWER2 => 356,
        KeyCode::KC_OPTION => 357,
        KeyCode::KC_INFO => 358,
        KeyCode::KC_TIME => 359,
        KeyCode::KC_VENDOR => 360,
        KeyCode::KC_ARCHIVE => 361,
        KeyCode::KC_PROGRAM => 362,
        KeyCode::KC_CHANNEL => 363,
        KeyCode::KC_FAVORITES => 364,
        KeyCode::KC_EPG => 365,
        KeyCode::KC_PVR => 366,
        KeyCode::KC_MHP => 367,
        KeyCode::KC_LANGUAGE => 368,
        KeyCode::KC_TITLE => 369,
        KeyCode::KC_SUBTITLE => 370,
        KeyCode::KC_ANGLE => 371,
        KeyCode::KC_FULL_SCREEN => 372,
        KeyCode::KC_MODE => 373,
        KeyCode::KC_KEYBOARD => 374,
        KeyCode::KC_ASPECT_RATIO => 375,
        KeyCode::KC_PC => 376,
        KeyCode::KC_TV => 377,
        KeyCode::KC_TV2 => 378,
        KeyCode::KC_VCR => 379,
        KeyCode::KC_VCR2 => 380,
        KeyCode::KC_SAT => 381,
        KeyCode::KC_SAT2 => 382,
        KeyCode::KC_CD => 383,
        KeyCode::KC_TAPE => 384,
        KeyCode::KC_RADIO => 385,
        KeyCode::KC_TUNER => 386,
        KeyCode::KC_PLAYER => 387,
        KeyCode::KC_TEXT => 388,
        KeyCode::KC_DVD => 389,
        KeyCode::KC_AUX => 390,
        KeyCode::KC_MP3 => 391,
        KeyCode::KC_AUDIO => 392,
        KeyCode::KC_VIDEO => 393,
        KeyCode::KC_DIRECTORY => 394,
        KeyCode::KC_LIST => 395,
        KeyCode::KC_MEMO => 396,
        KeyCode::KC_CALENDAR => 397,
        KeyCode::KC_RED => 398,
        KeyCode::KC_GREEN => 399,
        KeyCode::KC_YELLOW => 400,
        KeyCode::KC_BLUE => 401,
        KeyCode::KC_CHANNELUP => 402,
        KeyCode::KC_CHANNELDOWN => 403,
        KeyCode::KC_FIRST => 404,
        KeyCode::KC_LAST => 405,
        KeyCode::KC_AB => 406,
        KeyCode::KC_NEXT => 407,
        KeyCode::KC_RESTART => 408,
        KeyCode::KC_SLOW => 409,
        KeyCode::KC_SHUFFLE => 410,
        KeyCode::KC_BREAK => 411,
        KeyCode::KC_PREVIOUS => 412,
        KeyCode::KC_DIGITS => 413,
        KeyCode::KC_TEEN => 414,
        KeyCode::KC_TWEN => 415,
        KeyCode::KC_VIDEOPHONE => 416,
        KeyCode::KC_GAMES => 417,
        KeyCode::KC_ZOOMIN => 418,
        KeyCode::KC_ZOOMOUT => 419,
        KeyCode::KC_ZOOMRESET => 420,
        KeyCode::KC_WORDPROCESSOR => 421,
        KeyCode::KC_EDITOR => 422,
        KeyCode::KC_SPREADSHEET => 423,
        KeyCode::KC_GRAPHICSEDITOR => 424,
        KeyCode::KC_PRESENTATION => 425,
        KeyCode::KC_DATABASE => 426,
        KeyCode::KC_NEWS => 427,
        KeyCode::KC_VOICEMAIL => 428,
        KeyCode::KC_ADDRESSBOOK => 429,
        KeyCode::KC_MESSENGER => 430,
        KeyCode::KC_DISPLAYTOGGLE => 431,
        KeyCode::KC_SPELLCHECK => 432,
        KeyCode::KC_LOGOFF => 433,
        KeyCode::KC_DOLLAR => 434,
        KeyCode::KC_EURO => 435,
        KeyCode::KC_FRAMEBACK => 436,
        KeyCode::KC_FRAMEFORWARD => 437,
        KeyCode::KC_CONTEXT_MENU => 438,
        KeyCode::KC_MEDIA_REPEAT => 439,
        KeyCode::KC_10CHANNELSUP => 440,
        KeyCode::KC_10CHANNELSDOWN => 441,
        KeyCode::KC_IMAGES => 442,
        KeyCode::KC_DEL_EOL => 448,
        KeyCode::KC_DEL_EOS => 449,
        KeyCode::KC_INS_LINE => 450,
        KeyCode::KC_DEL_LINE => 451,
        KeyCode::KC_FN => 464,
        KeyCode::KC_FN_ESC => 465,
        KeyCode::KC_FN_F1 => 466,
        KeyCode::KC_FN_F2 => 467,
        KeyCode::KC_FN_F3 => 468,
        KeyCode::KC_FN_F4 => 469,
        KeyCode::KC_FN_F5 => 470,
        KeyCode::KC_FN_F6 => 471,
        KeyCode::KC_FN_F7 => 472,
        KeyCode::KC_FN_F8 => 473,
        KeyCode::KC_FN_F9 => 474,
        KeyCode::KC_FN_F10 => 475,
        KeyCode::KC_FN_F11 => 476,
        KeyCode::KC_FN_F12 => 477,
        KeyCode::KC_FN_1 => 478,
        KeyCode::KC_FN_2 => 479,
        KeyCode::KC_FN_D => 480,
        KeyCode::KC_FN_E => 481,
        KeyCode::KC_FN_F => 482,
        KeyCode::KC_FN_S => 483,
        KeyCode::KC_FN_B => 484,
        KeyCode::KC_BRL_DOT1 => 497,
        KeyCode::KC_BRL_DOT2 => 498,
        KeyCode::KC_BRL_DOT3 => 499,
        KeyCode::KC_BRL_DOT4 => 500,
        KeyCode::KC_BRL_DOT5 => 501,
        KeyCode::KC_BRL_DOT6 => 502,
        KeyCode::KC_BRL_DOT7 => 503,
        KeyCode::KC_BRL_DOT8 => 504,
        KeyCode::KC_BRL_DOT9 => 505,
        KeyCode::KC_BRL_DOT10 => 506,
        KeyCode::KC_NUMERIC_0 => 512,
        KeyCode::KC_NUMERIC_1 => 513,
        KeyCode::KC_NUMERIC_2 => 514,
        KeyCode::KC_NUMERIC_3 => 515,
        KeyCode::KC_NUMERIC_4 => 516,
        KeyCode::KC_NUMERIC_5 => 517,
        KeyCode::KC_NUMERIC_6 => 518,
        KeyCode::KC_NUMERIC_7 => 519,
        KeyCode::KC_NUMERIC_8 => 520,
        KeyCode::KC_NUMERIC_9 => 521,
        KeyCode::KC_NUMERIC_STAR => 522,
        KeyCode::KC_NUMERIC_POUND => 523,
        KeyCode::KC_NUMERIC_A => 524,
        KeyCode::KC_NUMERIC_B => 525,
        KeyCode::KC_NUMERIC_C => 526,
        KeyCode::KC_NUMERIC_D => 527,
        KeyCode::KC_CAMERA_FOCUS => 528,
        KeyCode::KC_WPS_BUTTON => 529,
        KeyCode::KC_TOUCHPAD_TOGGLE => 530,
        KeyCode::KC_TOUCHPAD_ON => 531,
        KeyCode::KC_TOUCHPAD_OFF => 532,
        KeyCode::KC_CAMERA_ZOOMIN => 533,
        KeyCode::KC_CAMERA_ZOOMOUT => 534,
        KeyCode::KC_CAMERA_UP => 535,
        KeyCode::KC_CAMERA_DOWN => 536,
        KeyCode::KC_CAMERA_LEFT => 537,
        KeyCode::KC_CAMERA_RIGHT => 538,
        KeyCode::KC_ATTENDANT_ON => 539,
        KeyCode::KC_ATTENDANT_OFF => 540,
        KeyCode::KC_ATTENDANT_TOGGLE => 541,
        KeyCode::KC_LIGHTS_TOGGLE => 542,
        KeyCode::KC_ALS_TOGGLE => 560,
        KeyCode::KC_ROTATE_LOCK_TOGGLE => 561,
        KeyCode::KC_BUTTONCONFIG => 576,
        KeyCode::KC_TASKMANAGER => 577,
        KeyCode::KC_JOURNAL => 578,
        KeyCode::KC_CONTROLPANEL => 579,
        KeyCode::KC_APPSELECT => 580,
        KeyCode::KC_SCREENSAVER => 581,
        KeyCode::KC_VOICECOMMAND => 582,
        KeyCode::KC_ASSISTANT => 583,
        KeyCode::KC_BRIGHTNESS_MIN => 592,
        KeyCode::KC_BRIGHTNESS_MAX => 593,
        KeyCode::KC_KBDINPUTASSIST_PREV => 608,
        KeyCode::KC_KBDINPUTASSIST_NEXT => 609,
        KeyCode::KC_KBDINPUTASSIST_PREVGROUP => 610,
        KeyCode::KC_KBDINPUTASSIST_NEXTGROUP => 611,
        KeyCode::KC_KBDINPUTASSIST_ACCEPT => 612,
        KeyCode::KC_KBDINPUTASSIST_CANCEL => 613,
        KeyCode::KC_RIGHT_UP => 614,
        KeyCode::KC_RIGHT_DOWN => 615,
        KeyCode::KC_LEFT_UP => 616,
        KeyCode::KC_LEFT_DOWN => 617,
        KeyCode::KC_ROOT_MENU => 618,
        KeyCode::KC_MEDIA_TOP_MENU => 619,
        KeyCode::KC_NUMERIC_11 => 620,
        KeyCode::KC_NUMERIC_12 => 621,
        KeyCode::KC_AUDIO_DESC => 622,
        KeyCode::KC_3D_MODE => 623,
        KeyCode::KC_NEXT_FAVORITE => 624,
        KeyCode::KC_STOP_RECORD => 625,
        KeyCode::KC_PAUSE_RECORD => 626,
        KeyCode::KC_VOD => 627,
        KeyCode::KC_UNMUTE => 628,
        KeyCode::KC_FASTREVERSE => 629,
        KeyCode::KC_SLOWREVERSE => 630,
        KeyCode::KC_DATA => 631,
        KeyCode::KC_ONSCREEN_KEYBOARD => 632,
        KeyCode::KC_MAX => 767,
        KeyCode::NotImplemented => 768,
    }
}

pub open spec fn spec_key_code_from_number_part0(n: u16) -> Option<KeyCode> {
    if n == 0 {
        Some(KeyCode::KC_RESERVED)
    } else if n == 1 {
        Some(KeyCode::KC_ESC)
    } else if n == 2 {
        Some(KeyCode::KC_1)
    } else if n == 3 {
        Some(KeyCode::KC_2)
    } else if n == 4 {
        Some(KeyCode::KC_3)
    } else if n == 5 {
        Some(KeyCode::KC_4)
    } else if n == 6 {
        Some(KeyCode::KC_5)
    } else if n == 7 {
        Some(KeyCode::KC_6)
    } else if n == 8 {
        Some(KeyCode::KC_7)
    } else if n == 9 {
        Some(KeyCode::KC_8)
    } else if n == 10 {
        Some(KeyCode::KC_9)
    } else if n == 11 {
        Some(KeyCode::KC_0)
    } else if n == 12 {
        Some(KeyCode::KC_MINUS)
    } else if n == 13 {
        Some(KeyCode::KC_EQUAL)
    } else if n == 14 {
        Some(KeyCode::KC_BACKSPACE)
    } else if n == 15 {
        Some(KeyCode::KC_TAB)
    } else if n == 16 {
        Some(KeyCode::KC_Q)
    } else if n == 17 {
        Some(KeyCode::KC_W)
    } else if n == 18 {
        Some(KeyCode::KC_E)
    } else if n == 19 {
        Some(KeyCode::KC_R)
    } else if n == 20 {
        Some(KeyCode::KC_T)
    } else if n == 21 {
        Some(KeyCode::KC_Y)
    } else if n == 22 {
        Some(KeyCode::KC_U)
    } else if n == 23 {
        Some(KeyCode::KC_I)
    } else if n == 24 {
        Some(KeyCode::KC_O)
    } else if n == 25 {
        Some(KeyCode::KC_P)
    } else if n == 26 {
        Some(KeyCode::KC_LEFTBRACE)
    } else if n == 27 {
        Some(KeyCode::KC_RIGHTBRACE)
    } else if n == 28 {
        Some(KeyCode::KC_ENTER)
    } else if n == 29 {
        Some(KeyCode::KC_LEFTCTRL)
    } else if n == 30 {
        Some(KeyCode::KC_A)
    } else if n == 31 {
        Some(KeyCode::KC_S)
    } else if n == 32 {
        Some(KeyCode::KC_D)
    } else if n == 33 {
        Some(KeyCode::KC_F)
    } else if n == 34 {
        Some(KeyCode::KC_G)
    } else if n == 35 {
        Some(KeyCode::KC_H)
    } else if n == 36 {
        Some(KeyCode::KC_J)
    } else if n == 37 {
        Some(KeyCode::KC_K)
    } else if n == 38 {
        Some(KeyCode::KC_L)
    } else if n == 39 {
        Some(KeyCode::KC_SEMICOLON)
    } else if n == 40 {
        Some(KeyCode::KC_APOSTROPHE)
    } else if n == 41 {
        Some(KeyCode::KC_GRAVE)
    } else if n == 42 {
        Some(KeyCode::KC_LEFTSHIFT)
    } else if n == 43 {
        Some(KeyCode::KC_BACKSLASH)
    } else if n == 44 {
        Some(KeyCode::KC_Z)
    } else if n == 45 {
        Some(KeyCode::KC_X)
    } else if n == 46 {
        Some(KeyCode::KC_C)
    } else if n == 47 {
        Some(KeyCode::KC_V)
    } else if n == 48 {
        Some(KeyCode::KC_B)
    } else if n == 49 {
        Some(KeyCode::KC_N)
    } else if n == 50 {
        Some(KeyCode::KC_M)
    } else if n == 51 {
        Some(KeyCode::KC_COMMA)
    } else if n == 52 {
        Some(KeyCode::KC_DOT)
    } else if n == 53 {
        Some(KeyCode::KC_SLASH)
    } else if n == 54 {
        Some(KeyCode::KC_RIGHTSHIFT)
    } else if n == 55 {
        Some(KeyCode::KC_KPASTERISK)
    } else {
        None
    }
}

pub open spec fn spec_key_code_from_number_part1(n: u16) -> Option<KeyCode> {
    if n == 56 {
        Some(KeyCode::KC_LEFTALT)
    } else if n == 57 {
        Some(KeyCode::KC_SPACE)
    } else if n == 58 {
        Some(KeyCode::KC_CAPSLOCK)
    } else if n == 59 {
        Some(KeyCode::KC_F1)
    } else if n == 60 {
        Some(KeyCode::KC_F2)
    } else if n == 61 {
        Some(KeyCode::KC_F3)
    } else if n == 62 {
        Some(KeyCode::KC_F4)
    } else if n == 63 {
        Some(KeyCode::KC_F5)
    } else if n == 64 {
        Some(KeyCode::KC_F6)
    } else if n == 65 {
        Some(KeyCode::KC_F7)
    } else if n == 66 {
        Some(KeyCode::KC_F8)
    } else if n == 67 {
        Some(KeyCode::KC_F9)
    } else if n == 68 {
        Some(KeyCode::KC_F10)
    } else if n == 69 {
        Some(KeyCode::KC_NUMLOCK)
    } else if n == 70 {
        Some(KeyCode::KC_SCROLLLOCK)
    } else if n == 71 {
        Some(KeyCode::KC_KP7)
    } else if n == 72 {
        Some(KeyCode::KC_KP8)
    } else if n == 73 {
        Some(KeyCode::KC_KP9)
    } else if n == 74 {
        Some(KeyCode::KC_KPMINUS)
    } else if n == 75 {
        Some(KeyCode::KC_KP4)
    } else if n == 76 {
        Some(KeyCode::KC_KP5)
    } else if n == 77 {
        Some(KeyCode::KC_KP6)
    } else if n == 78 {
        Some(KeyCode::KC_KPPLUS)
    } else if n == 79 {
        Some(KeyCode::KC_KP1)
    } else if n == 80 {
        Some(KeyCode::KC_KP2)
    } else if n == 81 {
        Some(KeyCode::KC_KP3)
    } else if n == 82 {
        Some(KeyCode::KC_KP0)
    } else if n == 83 {
        Some(KeyCode::KC_KPDOT)
    } else if n == 85 {
        Some(KeyCode::KC_ZENKAKUHANKAKU)
    } else if n == 86 {
        Some(KeyCode::KC_102ND)
    } else if n == 87 {
        Some(KeyCode::KC_F11)
    } else if n == 88 {
        Some(KeyCode::KC_F12)
    } else if n == 89 {
        Some(KeyCode::KC_RO)
    } else if n == 90 {
        Some(KeyCode::KC_KATAKANA)
    } else if n == 91 {
        Some(KeyCode::KC_HIRAGANA)
    } else if n == 92 {
        Some(KeyCode::KC_HENKAN)
    } else if n == 93 {
        Some(KeyCode::KC_KATAKANAHIRAGANA)
    } else if n == 94 {
        Some(KeyCode::KC_MUHENKAN)
    } else if n == 95 {
        Some(KeyCode::KC_KPJPCOMMA)
    } else if n == 96 {
        Some(KeyCode::KC_KPENTER)
    } else if n == 97 {
        Some(KeyCode::KC_RIGHTCTRL)
    } else if n == 98 {
        Some(KeyCode::KC_KPSLASH)
    } else if n == 99 {
        Some(KeyCode::KC_SYSRQ)
    } else if n == 100 {
        Some(KeyCode::KC_RIGHTALT)
    } else if n == 101 {
        Some(KeyCode::KC_LINEFEED)
    } else if n == 102 {
        Some(KeyCode::KC_HOME)
    } else if n == 103 {
        Some(KeyCode::KC_UP)
    } else if n == 104 {
        Some(KeyCode::KC_PAGEUP)
    } else if n == 105 {
        Some(KeyCode::KC_LEFT)
    } else if n == 106 {
        Some(KeyCode::KC_RIGHT)
    } else if n == 107 {
        Some(KeyCode::KC_END)
    } else if n == 108 {
        Some(KeyCode::KC_DOWN)
    } else if n == 109 {
        Some(KeyCode::KC_PAGEDOWN)
    } else if n == 110 {
        Some(KeyCode::KC_INSERT)
    } else if n == 111 {
        Some(KeyCode::KC_DELETE)
    } else if n == 112 {
        Some(KeyCode::KC_MACRO)
    } else {
        None
    }
}

pub open spec fn spec_key_code_from_number_part2(n: u16) -> Option<KeyCode> {
    if n == 113 {
        Some(KeyCode::KC_MUTE)
    } else if n == 114 {
        Some(KeyCode::KC_VOLUMEDOWN)
    } else if n == 115 {
        Some(KeyCode::KC_VOLUMEUP)
    } else if n == 116 {
        Some(KeyCode::KC_POWER)
    } else if n == 117 {
        Some(KeyCode::KC_KPEQUAL)
    } else if n == 118 {
        Some(KeyCode::KC_KPPLUSMINUS)
    } else if n == 119 {
        Some(KeyCode::KC_PAUSE)
    } else if n == 120 {
        Some(KeyCode::KC_SCALE)
    } else if n == 121 {
        Some(KeyCode::KC_KPCOMMA)
    } else if n == 122 {
        Some(KeyCode::KC_HANGEUL)
    } else if n == 123 {
        Some(KeyCode::KC_HANJA)
    } else if n == 124 {
        Some(KeyCode::KC_YEN)
    } else if n == 125 {
        Some(KeyCode::KC_LEFTMETA)
    } else if n == 126 {
        Some(KeyCode::KC_RIGHTMETA)
    } else if n == 127 {
        Some(KeyCode::KC_COMPOSE)
    } else if n == 128 {
        Some(KeyCode::KC_STOP)
    } else if n == 129 {
        Some(KeyCode::KC_AGAIN)
    } else if n == 130 {
        Some(KeyCode::KC_PROPS)
    } else if n == 131 {
        Some(KeyCode::KC_UNDO)
    } else if n == 132 {
        Some(KeyCode::KC_FRONT)
    } else if n == 133 {
        Some(KeyCode::KC_COPY)
    } else if n == 134 {
        Some(KeyCode::KC_OPEN)
    } else if n == 135 {
        Some(KeyCode::KC_PASTE)
    } else if n == 136 {
        Some(KeyCode::KC_FIND)
    } else if n == 137 {
        Some(KeyCode::KC_CUT)
    } else if n == 138 {
        Some(KeyCode::KC_HELP)
    } else if n == 139 {
        Some(KeyCode::KC_MENU)
    } else if n == 140 {
        Some(KeyCode::KC_CALC)
    } else if n == 141 {
        Some(KeyCode::KC_SETUP)
    } else if n == 142 {
        Some(KeyCode::KC_SLEEP)
    } else if n == 143 {
        Some(KeyCode::KC_WAKEUP)
    } else if n == 144 {
        Some(KeyCode::KC_FILE)
    } else if n == 145 {
        Some(KeyCode::KC_SENDFILE)
    } else if n == 146 {
        Some(KeyCode::KC_DELETEFILE)
    } else if n == 147 {
        Some(KeyCode::KC_XFER)
    } else if n == 148 {
        Some(KeyCode::KC_PROG1)
    } else if n == 149 {
        Some(KeyCode::KC_PROG2)
    } else if n == 150 {
        Some(KeyCode::KC_WWW)
    } else if n == 151 {
        Some(KeyCode::KC_MSDOS)
    } else if n == 152 {
        Some(KeyCode::KC_COFFEE)
    } else if n == 153 {
        Some(KeyCode::KC_ROTATE_DISPLAY)
    } else if n == 154 {
        Some(KeyCode::KC_CYCLEWINDOWS)
    } else if n == 155 {
        Some(KeyCode::KC_MAIL)
    } else if n == 156 {
        Some(KeyCode::KC_BOOKMARKS)
    } else if n == 157 {
        Some(KeyCode::KC_COMPUTER)
    } else if n == 158 {
        Some(KeyCode::KC_BACK)
    } else if n == 159 {
        Some(KeyCode::KC_FORWARD)
    } else if n == 160 {
        Some(KeyCode::KC_CLOSECD)
    } else if n == 161 {
        Some(KeyCode::KC_EJECTCD)
    } else if n == 162 {
        Some(KeyCode::KC_EJECTCLOSECD)
    } else if n == 163 {
        Some(KeyCode::KC_NEXTSONG)
    } else if n == 164 {
        Some(KeyCode::KC_PLAYPAUSE)
    } else if n == 165 {
        Some(KeyCode::KC_PREVIOUSSONG)
    } else if n == 166 {
        Some(KeyCode::KC_STOPCD)
    } else if n == 167 {
        Some(KeyCode::KC_RECORD)
    } else if n == 168 {
        Some(KeyCode::KC_REWIND)
    } else {
        None
    }
}

pub open spec fn spec_key_code_from_number_part3(n: u16) -> Option<KeyCode> {
    if n == 169 {
        Some(KeyCode::KC_PHONE)
    } else if n == 170 {
        Some(KeyCode::KC_ISO)
    } else if n == 171 {
        Some(KeyCode::KC_CONFIG)
    } else if n == 172 {
        Some(KeyCode::KC_HOMEPAGE)
    } else if n == 173 {
        Some(KeyCode::KC_REFRESH)
    } else if n == 174 {
        Some(KeyCode::KC_EXIT)
    } else if n == 175 {
        Some(KeyCode::KC_MOVE)
    } else if n == 176 {
        Some(KeyCode::KC_EDIT)
    } else if n == 177 {
        Some(KeyCode::KC_SCROLLUP)
    } else if n == 178 {
        Some(KeyCode::KC_SCROLLDOWN)
    } else if n == 179 {
        Some(KeyCode::KC_KPLEFTPAREN)
    } else if n == 180 {
        Some(KeyCode::KC_KPRIGHTPAREN)
    } else if n == 181 {
        Some(KeyCode::KC_NEW)
    } else if n == 182 {
        Some(KeyCode::KC_REDO)
    } else if n == 183 {
        Some(KeyCode::KC_F13)
    } else if n == 184 {
        Some(KeyCode::KC_F14)
    } else if n == 185 {
        Some(KeyCode::KC_F15)
    } else if n == 186 {
        Some(KeyCode::KC_F16)
    } else if n == 187 {
        Some(KeyCode::KC_F17)
    } else if n == 188 {
        Some(KeyCode::KC_F18)
    } else if n == 189 {
        Some(KeyCode::KC_F19)
    } else if n == 190 {
        Some(KeyCode::KC_F20)
    } else if n == 191 {
        Some(KeyCode::KC_F21)
    } else if n == 192 {
        Some(KeyCode::KC_F22)
    } else if n == 193 {
        Some(KeyCode::KC_F23)
    } else if n == 194 {
        Some(KeyCode::KC_F24)
    } else if n == 200 {
        Some(KeyCode::KC_PLAYCD)
    } else if n == 201 {
        Some(KeyCode::KC_PAUSECD)
    } else if n == 202 {
        Some(KeyCode::KC_PROG3)
    } else if n == 203 {
        Some(KeyCode::KC_PROG4)
    } else if n == 204 {
        Some(KeyCode::KC_DASHBOARD)
    } else if n == 205 {
        Some(KeyCode::KC_SUSPEND)
    } else if n == 206 {
        Some(KeyCode::KC_CLOSE)
    } else if n == 207 {
        Some(KeyCode::KC_PLAY)
    } else if n == 208 {
        Some(KeyCode::KC_FASTFORWARD)
    } else if n == 209 {
        Some(KeyCode::KC_BASSBOOST)
    } else if n == 210 {
        Some(KeyCode::KC_PRINT)
    } else if n == 211 {
        Some(KeyCode::KC_HP)
    } else if n == 212 {
        Some(KeyCode::KC_CAMERA)
    } else if n == 213 {
        Some(KeyCode::KC_SOUND)
    } else if n == 214 {
        Some(KeyCode::KC_QUESTION)
    } else if n == 215 {
        Some(KeyCode::KC_EMAIL)
    } else if n == 216 {
        Some(KeyCode::KC_CHAT)
    } else if n == 217 {
        Some(KeyCode::KC_SEARCH)
    } else if n == 218 {
        Some(KeyCode::KC_CONNECT)
    } else if n == 219 {
        Some(KeyCode::KC_FINANCE)
    } else if n == 220 {
        Some(KeyCode::KC_SPORT)
    } else if n == 221 {
        Some(KeyCode::KC_SHOP)
    } else if n == 222 {
        Some(KeyCode::KC_ALTERASE)
    } else if n == 223 {
        Some(KeyCode::KC_CANCEL)
    } else if n == 224 {
        Some(KeyCode::KC_BRIGHTNESSDOWN)
    } else if n == 225 {
        Some(KeyCode::KC_BRIGHTNESSUP)
    } else if n == 226 {
        Some(KeyCode::KC_MEDIA)
    } else if n == 227 {
        Some(KeyCode::KC_SWITCHVIDEOMODE)
    } else if n == 228 {
        Some(KeyCode::KC_KBDILLUMTOGGLE)
    } else if n == 229 {
        Some(KeyCode::KC_KBDILLUMDOWN)
    } else {
        None
    }
}

pub open spec fn spec_key_code_from_number_part4(n: u16) -> Option<KeyCode> {
    if n == 230 {
        Some(KeyCode::KC_KBDILLUMUP)
    } else if n == 231 {
        Some(KeyCode::KC_SEND)
    } else if n == 232 {
        Some(KeyCode::KC_REPLY)
    } else if n == 233 {
        Some(KeyCode::KC_FORWARDMAIL)
    } else if n == 234 {
        Some(KeyCode::KC_SAVE)
    } else if n == 235 {
        Some(KeyCode::KC_DOCUMENTS)
    } else if n == 236 {
        Some(KeyCode::KC_BATTERY)
    } else if n == 237 {
        Some(KeyCode::KC_BLUETOOTH)
    } else if n == 238 {
        Some(KeyCode::KC_WLAN)
    } else if n == 239 {
        Some(KeyCode::KC_UWB)
    } else if n == 240 {
        Some(KeyCode::KC_UNKNOWN)
    } else if n == 241 {
        Some(KeyCode::KC_VIDEO_NEXT)
    } else if n == 242 {
        Some(KeyCode::KC_VIDEO_PREV)
    } else if n == 243 {
        Some(KeyCode::KC_BRIGHTNESS_CYCLE)
    } else if n == 244 {
        Some(KeyCode::KC_BRIGHTNESS_AUTO)
    } else if n == 245 {
        Some(KeyCode::KC_DISPLAY_OFF)
    } else if n == 246 {
        Some(KeyCode::KC_WWAN)
    } else if n == 247 {
        Some(KeyCode::KC_RFKILL)
    } else if n == 248 {
        Some(KeyCode::KC_MICMUTE)
    } else if n == 352 {
        Some(KeyCode::KC_OK)
    } else if n == 353 {
        Some(KeyCode::KC_SELECT)
    } else if n == 354 {
        Some(KeyCode::KC_GOTO)
    } else if n == 355 {
        Some(KeyCode::KC_CLEAR)
    } else if n == 356 {
        Some(KeyCode::KC_POWER2)
    } else if n == 357 {
        Some(KeyCode::KC_OPTION)
    } else if n == 358 {
        Some(KeyCode::KC_INFO)
    } else if n == 359 {
        Some(KeyCode::KC_TIME)
    } else if n == 360 {
        Some(KeyCode::KC_VENDOR)
    } else if n == 361 {
        Some(KeyCode::KC_ARCHIVE)
    } else if n == 362 {
        Some(KeyCode::KC_PROGRAM)
    } else if n == 363 {
        Some(KeyCode::KC_CHANNEL)
    } else if n == 364 {
        Some(KeyCode::KC_FAVORITES)
    } else if n == 365 {
        Some(KeyCode::KC_EPG)
    } else if n == 366 {
        Some(KeyCode::KC_PVR)
    } else if n == 367 {
        Some(KeyCode::KC_MHP)
    } else if n == 368 {
        Some(KeyCode::KC_LANGUAGE)
    } else if n == 369 {
        Some(KeyCode::KC_TITLE)
    } else if n == 370 {
        Some(KeyCode::KC_SUBTITLE)
    } else if n == 371 {
        Some(KeyCode::KC_ANGLE)
    } else if n == 372 {
        Some(KeyCode::KC_FULL_SCREEN)
    } else if n == 373 {
        Some(KeyCode::KC_MODE)
    } else if n == 374 {
        Some(KeyCode::KC_KEYBOARD)
    } else if n == 375 {
        Some(KeyCode::KC_ASPECT_RATIO)
    } else if n == 376 {
        Some(KeyCode::KC_PC)
    } else if n == 377 {
        Some(KeyCode::KC_TV)
    } else if n == 378 {
        Some(KeyCode::KC_TV2)
    } else if n == 379 {
        Some(KeyCode::KC_VCR)
    } else if n == 380 {
        Some(KeyCode::KC_VCR2)
    } else if n == 381 {
        Some(KeyCode::KC_SAT)
    } else if n == 382 {
        Some(KeyCode::KC_SAT2)
    } else if n == 383 {
        Some(KeyCode::KC_CD)
    } else if n == 384 {
        Some(KeyCode::KC_TAPE)
    } else if n == 385 {
        Some(KeyCode::KC_RADIO)
    } else if n == 386 {
        Some(KeyCode::KC_TUNER)
    } else if n == 387 {
        Some(KeyCode::KC_PLAYER)
    } else if n == 388 {
        Some(KeyCode::KC_TEXT)
    } else {
        None
    }
}

pub open spec fn spec_key_code_from_number_part5(n: u16) -> Option<KeyCode> {
    if n == 389 {
        Some(KeyCode::KC_DVD)
    } else if n == 390 {
        Some(KeyCode::KC_AUX)
    } else if n == 391 {
        Some(KeyCode::KC_MP3)
    } else if n == 392 {
        Some(KeyCode::KC_AUDIO)
    } else if n == 393 {
        Some(KeyCode::KC_VIDEO)
    } else if n == 394 {
        Some(KeyCode::KC_DIRECTORY)
    } else if n == 395 {
        Some(KeyCode::KC_LIST)
    } else if n == 396 {
        Some(KeyCode::KC_MEMO)
    } else if n == 397 {
        Some(KeyCode::KC_CALENDAR)
    } else if n == 398 {
        Some(KeyCode::KC_RED)
    } else if n == 399 {
        Some(KeyCode::KC_GREEN)
    } else if n == 400 {
        Some(KeyCode::KC_YELLOW)
    } else if n == 401 {
        Some(KeyCode::KC_BLUE)
    } else if n == 402 {
        Some(KeyCode::KC_CHANNELUP)
    } else if n == 403 {
        Some(KeyCode::KC_CHANNELDOWN)
    } else if n == 404 {
        Some(KeyCode::KC_FIRST)
    } else if n == 405 {
        Some(KeyCode::KC_LAST)
    } else if n == 406 {
        Some(KeyCode::KC_AB)
    } else if n == 407 {
        Some(KeyCode::KC_NEXT)
    } else if n == 408 {
        Some(KeyCode::KC_RESTART)
    } else if n == 409 {
        Some(KeyCode::KC_SLOW)
    } else if n == 410 {
        Some(KeyCode::KC_SHUFFLE)
    } else if n == 411 {
        Some(KeyCode::KC_BREAK)
    } else if n == 412 {
        Some(KeyCode::KC_PREVIOUS)
    } else if n == 413 {
        Some(KeyCode::KC_DIGITS)
    } else if n == 414 {
        Some(KeyCode::KC_TEEN)
    } else if n == 415 {
        Some(KeyCode::KC_TWEN)
    } else if n == 416 {
        Some(KeyCode::KC_VIDEOPHONE)
    } else if n == 417 {
        Some(KeyCode::KC_GAMES)
    } else if n == 418 {
        Some(KeyCode::KC_ZOOMIN)
    } else if n == 419 {
        Some(KeyCode::KC_ZOOMOUT)
    } else if n == 420 {
        Some(KeyCode::KC_ZOOMRESET)
    } else if n == 421 {
        Some(KeyCode::KC_WORDPROCESSOR)
    } else if n == 422 {
        Some(KeyCode::KC_EDITOR)
    } else if n == 423 {
        Some(KeyCode::KC_SPREADSHEET)
    } else if n == 424 {
        Some(KeyCode::KC_GRAPHICSEDITOR)
    } else if n == 425 {
        Some(KeyCode::KC_PRESENTATION)
    } else if n == 426 {
        Some(KeyCode::KC_DATABASE)
    } else if n == 427 {
        Some(KeyCode::KC_NEWS)
    } else if n == 428 {
        Some(KeyCode::KC_VOICEMAIL)
    } else if n == 429 {
        Some(KeyCode::KC_ADDRESSBOOK)
    } else if n == 430 {
        Some(KeyCode::KC_MESSENGER)
    } else if n == 431 {
        Some(KeyCode::KC_DISPLAYTOGGLE)
    } else if n == 432 {
        Some(KeyCode::KC_SPELLCHECK)
    } else if n == 433 {
        Some(KeyCode::KC_LOGOFF)
    } else if n == 434 {
        Some(KeyCode::KC_DOLLAR)
    } else if n == 435 {
        Some(KeyCode::KC_EURO)
    } else if n == 436 {
        Some(KeyCode::KC_FRAMEBACK)
    } else if n == 437 {
        Some(KeyCode::KC_FRAMEFORWARD)
    } else if n == 438 {
        Some(KeyCode::KC_CONTEXT_MENU)
    } else if n == 439 {
        Some(KeyCode::KC_MEDIA_REPEAT)
    } else if n == 440 {
        Some(KeyCode::KC_10CHANNELSUP)
    } else if n == 441 {
        Some(KeyCode::KC_10CHANNELSDOWN)
    } else if n == 442 {
        Some(KeyCode::KC_IMAGES)
    } else if n == 448 {
        Some(KeyCode::KC_DEL_EOL)
    } else if n == 449 {
        Some(KeyCode::KC_DEL_EOS)
    } else {
        None
    }
}

pub open spec fn spec_key_code_from_number_part6(n: u16) -> Option<KeyCode> {
    if n == 450 {
        Some(KeyCode::KC_INS_LINE)
    } else if n == 451 {
        Some(KeyCode::KC_DEL_LINE)
    } else if n == 464 {
        Some(KeyCode::KC_FN)
    } else if n == 465 {
        Some(KeyCode::KC_FN_ESC)
    } else if n == 466 {
        Some(KeyCode::KC_FN_F1)
    } else if n == 467 {
        Some(KeyCode::KC_FN_F2)
    } else if n == 468 {
        Some(KeyCode::KC_FN_F3)
    } else if n == 469 {
        Some(KeyCode::KC_FN_F4)
    } else if n == 470 {
        Some(KeyCode::KC_FN_F5)
    } else if n == 471 {
        Some(KeyCode::KC_FN_F6)
    } else if n == 472 {
        Some(KeyCode::KC_FN_F7)
    } else if n == 473 {
        Some(KeyCode::KC_FN_F8)
    } else if n == 474 {
        Some(KeyCode::KC_FN_F9)
    } else if n == 475 {
        Some(KeyCode::KC_FN_F10)
    } else if n == 476 {
        Some(KeyCode::KC_FN_F11)
    } else if n == 477 {
        Some(KeyCode::KC_FN_F12)
    } else if n == 478 {
        Some(KeyCode::KC_FN_1)
    } else if n == 479 {
        Some(KeyCode::KC_FN_2)
    } else if n == 480 {
        Some(KeyCode::KC_FN_D)
    } else if n == 481 {
        Some(KeyCode::KC_FN_E)
    } else if n == 482 {
        Some(KeyCode::KC_FN_F)
    } else if n == 483 {
        Some(KeyCode::KC_FN_S)
    } else if n == 484 {
        Some(KeyCode::KC_FN_B)
    } else if n == 497 {
        Some(KeyCode::KC_BRL_DOT1)
    } else if n == 498 {
        Some(KeyCode::KC_BRL_DOT2)
    } else if n == 499 {
        Some(KeyCode::KC_BRL_DOT3)
    } else if n == 500 {
        Some(KeyCode::KC_BRL_DOT4)
    } else if n == 501 {
        Some(KeyCode::KC_BRL_DOT5)
    } else if n == 502 {
        Some(KeyCode::KC_BRL_DOT6)
    } else if n == 503 {
        Some(KeyCode::KC_BRL_DOT7)
    } else if n == 504 {
        Some(KeyCode::KC_BRL_DOT8)
    } else if n == 505 {
        Some(KeyCode::KC_BRL_DOT9)
    } else if n == 506 {
        Some(KeyCode::KC_BRL_DOT10)
    } else if n == 512 {
        Some(KeyCode::KC_NUMERIC_0)
    } else if n == 513 {
        Some(KeyCode::KC_NUMERIC_1)
    } else if n == 514 {
        Some(KeyCode::KC_NUMERIC_2)
    } else if n == 515 {
        Some(KeyCode::KC_NUMERIC_3)
    } else if n == 516 {
        Some(KeyCode::KC_NUMERIC_4)
    } else if n == 517 {
        Some(KeyCode::KC_NUMERIC_5)
    } else if n == 518 {
        Some(KeyCode::KC_NUMERIC_6)
    } else if n == 519 {
        Some(KeyCode::KC_NUMERIC_7)
    } else if n == 520 {
        Some(KeyCode::KC_NUMERIC_8)
    } else if n == 521 {
        Some(KeyCode::KC_NUMERIC_9)
    } else if n == 522 {
        Some(KeyCode::KC_NUMERIC_STAR)
    } else if n == 523 {
        Some(KeyCode::KC_NUMERIC_POUND)
    } else if n == 524 {
        Some(KeyCode::KC_NUMERIC_A)
    } else if n == 525 {
        Some(KeyCode::KC_NUMERIC_B)
    } else if n == 526 {
        Some(KeyCode::KC_NUMERIC_C)
    } else if n == 527 {
        Some(KeyCode::KC_NUMERIC_D)
    } else if n == 528 {
        Some(KeyCode::KC_CAMERA_FOCUS)
    } else if n == 529 {
        Some(KeyCode::KC_WPS_BUTTON)
    } else if n == 530 {
        Some(KeyCode::KC_TOUCHPAD_TOGGLE)
    } else if n == 531 {
        Some(KeyCode::KC_TOUCHPAD_ON)
    } else if n == 532 {
        Some(KeyCode::KC_TOUCHPAD_OFF)
    } else if n == 533 {
        Some(KeyCode::KC_CAMERA_ZOOMIN)
    } else if n == 534 {
        Some(KeyCode::KC_CAMERA_ZOOMOUT)
    } else {
        None
    }
}

pub open spec fn spec_key_code_from_number_part7(n: u16) -> Option<KeyCode> {
    if n == 535 {
        Some(KeyCode::KC_CAMERA_UP)
    } else if n == 536 {
        Some(KeyCode::KC_CAMERA_DOWN)
    } else if n == 537 {
        Some(KeyCode::KC_CAMERA_LEFT)
    } else if n == 538 {
        Some(KeyCode::KC_CAMERA_RIGHT)
    } else if n == 539 {
        Some(KeyCode::KC_ATTENDANT_ON)
    } else if n == 540 {
        Some(KeyCode::KC_ATTENDANT_OFF)
    } else if n == 541 {
        Some(KeyCode::KC_ATTENDANT_TOGGLE)
    } else if n == 542 {
        Some(KeyCode::KC_LIGHTS_TOGGLE)
    } else if n == 560 {
        Some(KeyCode::KC_ALS_TOGGLE)
    } else if n == 561 {
        Some(KeyCode::KC_ROTATE_LOCK_TOGGLE)
    } else if n == 576 {
        Some(KeyCode::KC_BUTTONCONFIG)
    } else if n == 577 {
        Some(KeyCode::KC_TASKMANAGER)
    } else if n == 578 {
        Some(KeyCode::KC_JOURNAL)
    } else if n == 579 {
        Some(KeyCode::KC_CONTROLPANEL)
    } else if n == 580 {
        Some(KeyCode::KC_APPSELECT)
    } else if n == 581 {
        Some(KeyCode::KC_SCREENSAVER)
    } else if n == 582 {
        Some(KeyCode::KC_VOICECOMMAND)
    } else if n == 583 {
        Some(KeyCode::KC_ASSISTANT)
    } else if n == 592 {
        Some(KeyCode::KC_BRIGHTNESS_MIN)
    } else if n == 593 {
        Some(KeyCode::KC_BRIGHTNESS_MAX)
    } else if n == 608 {
        Some(KeyCode::KC_KBDINPUTASSIST_PREV)
    } else if n == 609 {
        Some(KeyCode::KC_KBDINPUTASSIST_NEXT)
    } else if n == 610 {
        Some(KeyCode::KC_KBDINPUTASSIST_PREVGROUP)
    } else if n == 611 {
        Some(KeyCode::KC_KBDINPUTASSIST_NEXTGROUP)
    } else if n == 612 {
        Some(KeyCode::KC_KBDINPUTASSIST_ACCEPT)
    } else if n == 613 {
        Some(KeyCode::KC_KBDINPUTASSIST_CANCEL)
    } else if n == 614 {
        Some(KeyCode::KC_RIGHT_UP)
    } else if n == 615 {
        Some(KeyCode::KC_RIGHT_DOWN)
    } else if n == 616 {
        Some(KeyCode::KC_LEFT_UP)
    } else if n == 617 {
        Some(KeyCode::KC_LEFT_DOWN)
    } else if n == 618 {
        Some(KeyCode::KC_ROOT_MENU)
    } else if n == 619 {
        Some(KeyCode::KC_MEDIA_TOP_MENU)
    } else if n == 620 {
        Some(KeyCode::KC_NUMERIC_11)
    } else if n == 621 {
        Some(KeyCode::KC_NUMERIC_12)
    } else if n == 622 {
        Some(KeyCode::KC_AUDIO_DESC)
    } else if n == 623 {
        Some(KeyCode::KC_3D_MODE)
    } else if n == 624 {
        Some(KeyCode::KC_NEXT_FAVORITE)
    } else if n == 625 {
        Some(KeyCode::KC_STOP_RECORD)
    } else if n == 626 {
        Some(KeyCode::KC_PAUSE_RECORD)
    } else if n == 627 {
        Some(KeyCode::KC_VOD)
    } else if n == 628 {
        Some(KeyCode::KC_UNMUTE)
    } else if n == 629 {
        Some(KeyCode::KC_FASTREVERSE)
    } else if n == 630 {
        Some(KeyCode::KC_SLOWREVERSE)
    } else if n == 631 {
        Some(KeyCode::KC_DATA)
    } else if n == 632 {
        Some(KeyCode::KC_ONSCREEN_KEYBOARD)
    } else if n == 767 {
        Some(KeyCode::KC_MAX)
    } else {
        None
    }
}

/// The key a number denotes; the sentinel answers to no number.
pub open spec fn spec_key_code_from_number(n: u16) -> Option<KeyCode> {
    if n <= 55 { spec_key_code_from_number_part0(n) } else { if n <= 112 { spec_key_code_from_number_part1(n) } else { if n <= 168 { spec_key_code_from_number_part2(n) } else { if n <= 229 { spec_key_code_from_number_part3(n) } else { if n <= 388 { spec_key_code_from_number_part4(n) } else { if n <= 449 { spec_key_code_from_number_part5(n) } else { if n <= 534 { spec_key_code_from_number_part6(n) } else { if n <= 767 { spec_key_code_from_number_part7(n) } else { None } } } } } } } }
}

fn key_code_from_number_part0(n: u16) -> (r: Option<KeyCode>)
    ensures
        r == spec_key_code_from_number_part0(n),
{
    match n {
        0 => Some(KeyCode::KC_RESERVED),
        1 => Some(KeyCode::KC_ESC),
        2 => Some(KeyCode::KC_1),
        3 => Some(KeyCode::KC_2),
        4 => Some(KeyCode::KC_3),
        5 => Some(KeyCode::KC_4),
        6 => Some(KeyCode::KC_5),
        7 => Some(KeyCode::KC_6),
        8 => Some(KeyCode::KC_7),
        9 => Some(KeyCode::KC_8),
        10 => Some(KeyCode::KC_9),
        11 => Some(KeyCode::KC_0),
        12 => Some(KeyCode::KC_MINUS),
        13 => Some(KeyCode::KC_EQUAL),
        14 => Some(KeyCode::KC_BACKSPACE),
        15 => Some(KeyCode::KC_TAB),
        16 => Some(KeyCode::KC_Q),
        17 => Some(KeyCode::KC_W),
        18 => Some(KeyCode::KC_E),
        19 => Some(KeyCode::KC_R),
        20 => Some(KeyCode::KC_T),
        21 => Some(KeyCode::KC_Y),
        22 => Some(KeyCode::KC_U),
        23 => Some(KeyCode::KC_I),
        24 => Some(KeyCode::KC_O),
        25 => Some(KeyCode::KC_P),
        26 => Some(KeyCode::KC_LEFTBRACE),
        27 => Some(KeyCode::KC_RIGHTBRACE),
        28 => Some(KeyCode::KC_ENTER),
        29 => Some(KeyCode::KC_LEFTCTRL),
        30 => Some(KeyCode::KC_A),
        31 => Some(KeyCode::KC_S),
        32 => Some(KeyCode::KC_D),
        33 => Some(KeyCode::KC_F),
        34 => Some(KeyCode::KC_G),
        35 => Some(KeyCode::KC_H),
        36 => Some(KeyCode::KC_J),
        37 => Some(KeyCode::KC_K),
        38 => Some(KeyCode::KC_L),
        39 => Some(KeyCode::KC_SEMICOLON),
        40 => Some(KeyCode::KC_APOSTROPHE),
        41 => Some(KeyCode::KC_GRAVE),
        42 => Some(KeyCode::KC_LEFTSHIFT),
        43 => Some(KeyCode::KC_BACKSLASH),
        44 => Some(KeyCode::KC_Z),
        45 => Some(KeyCode::KC_X),
        46 => Some(KeyCode::KC_C),
        47 => Some(KeyCode::KC_V),
        48 => Some(KeyCode::KC_B),
        49 => Some(KeyCode::KC_N),
        50 => Some(KeyCode::KC_M),
        51 => Some(KeyCode::KC_COMMA),
        52 => Some(KeyCode::KC_DOT),
        53 => Some(KeyCode::KC_SLASH),
        54 => Some(KeyCode::KC_RIGHTSHIFT),
        55 => Some(KeyCode::KC_KPASTERISK),
        _ => None,
    }
}

fn key_code_from_number_part1(n: u16) -> (r: Option<KeyCode>)
    ensures
        r == spec_key_code_from_number_part1(n),
{
    match n {
        56 => Some(KeyCode::KC_LEFTALT),
        57 => Some(KeyCode::KC_SPACE),
        58 => Some(KeyCode::KC_CAPSLOCK),
        59 => Some(KeyCode::KC_F1),
        60 => Some(KeyCode::KC_F2),
        61 => Some(KeyCode::KC_F3),
        62 => Some(KeyCode::KC_F4),
        63 => Some(KeyCode::KC_F5),
        64 => Some(KeyCode::KC_F6),
        65 => Some(KeyCode::KC_F7),
        66 => Some(KeyCode::KC_F8),
        67 => Some(KeyCode::KC_F9),
        68 => Some(KeyCode::KC_F10),
        69 => Some(KeyCode::KC_NUMLOCK),
        70 => Some(KeyCode::KC_SCROLLLOCK),
        71 => Some(KeyCode::KC_KP7),
        72 => Some(KeyCode::KC_KP8),
        73 => Some(KeyCode::KC_KP9),
        74 => Some(KeyCode::KC_KPMINUS),
        75 => Some(KeyCode::KC_KP4),
        76 => Some(KeyCode::KC_KP5),
        77 => Some(KeyCode::KC_KP6),
        78 => Some(KeyCode::KC_KPPLUS),
        79 => Some(KeyCode::KC_KP1),
        80 => Some(KeyCode::KC_KP2),
        81 => Some(KeyCode::KC_KP3),
        82 => Some(KeyCode::KC_KP0),
        83 => Some(KeyCode::KC_KPDOT),
        85 => Some(KeyCode::KC_ZENKAKUHANKAKU),
        86 => Some(KeyCode::KC_102ND),
        87 => Some(KeyCode::KC_F11),
        88 => Some(KeyCode::KC_F12),
        89 => Some(KeyCode::KC_RO),
        90 => Some(KeyCode::KC_KATAKANA),
        91 => Some(KeyCode::KC_HIRAGANA),
        92 => Some(KeyCode::KC_HENKAN),
        93 => Some(KeyCode::KC_KATAKANAHIRAGANA),
        94 => Some(KeyCode::KC_MUHENKAN),
        95 => Some(KeyCode::KC_KPJPCOMMA),
        96 => Some(KeyCode::KC_KPENTER),
        97 => Some(KeyCode::KC_RIGHTCTRL),
        98 => Some(KeyCode::KC_KPSLASH),
        99 => Some(KeyCode::KC_SYSRQ),
        100 => Some(KeyCode::KC_RIGHTALT),
        101 => Some(KeyCode::KC_LINEFEED),
        102 => Some(KeyCode::KC_HOME),
        103 => Some(KeyCode::KC_UP),
        104 => Some(KeyCode::KC_PAGEUP),
        105 => Some(KeyCode::KC_LEFT),
        106 => Some(KeyCode::KC_RIGHT),
        107 => Some(KeyCode::KC_END),
        108 => Some(KeyCode::KC_DOWN),
        109 => Some(KeyCode::KC_PAGEDOWN),
        110 => Some(KeyCode::KC_INSERT),
        111 => Some(KeyCode::KC_DELETE),
        112 => Some(KeyCode::KC_MACRO),
        _ => None,
    }
}

fn key_code_from_number_part2(n: u16) -> (r: Option<KeyCode>)
    ensures
        r == spec_key_code_from_number_part2(n),
{
    match n {
        113 => Some(KeyCode::KC_MUTE),
        114 => Some(KeyCode::KC_VOLUMEDOWN),
        115 => Some(KeyCode::KC_VOLUMEUP),
        116 => Some(KeyCode::KC_POWER),
        117 => Some(KeyCode::KC_KPEQUAL),
        118 => Some(KeyCode::KC_KPPLUSMINUS),
        119 => Some(KeyCode::KC_PAUSE),
        120 => Some(KeyCode::KC_SCALE),
        121 => Some(KeyCode::KC_KPCOMMA),
        122 => Some(KeyCode::KC_HANGEUL),
        123 => Some(KeyCode::KC_HANJA),
        124 => Some(KeyCode::KC_YEN),
        125 => Some(KeyCode::KC_LEFTMETA),
        126 => Some(KeyCode::KC_RIGHTMETA),
        127 => Some(KeyCode::KC_COMPOSE),
        128 => Some(KeyCode::KC_STOP),
        129 => Some(KeyCode::KC_AGAIN),
        130 => Some(KeyCode::KC_PROPS),
        131 => Some(KeyCode::KC_UNDO),
        132 => Some(KeyCode::KC_FRONT),
        133 => Some(KeyCode::KC_COPY),
        134 => Some(KeyCode::KC_OPEN),
        135 => Some(KeyCode::KC_PASTE),
        136 => Some(KeyCode::KC_FIND),
        137 => Some(KeyCode::KC_CUT),
        138 => Some(KeyCode::KC_HELP),
        139 => Some(KeyCode::KC_MENU),
        140 => Some(KeyCode::KC_CALC),
        141 => Some(KeyCode::KC_SETUP),
        142 => Some(KeyCode::KC_SLEEP),
        143 => Some(KeyCode::KC_WAKEUP),
        144 => Some(KeyCode::KC_FILE),
        145 => Some(KeyCode::KC_SENDFILE),
        146 => Some(KeyCode::KC_DELETEFILE),
        147 => Some(KeyCode::KC_XFER),
        148 => Some(KeyCode::KC_PROG1),
        149 => Some(KeyCode::KC_PROG2),
        150 => Some(KeyCode::KC_WWW),
        151 => Some(KeyCode::KC_MSDOS),
        152 => Some(KeyCode::KC_COFFEE),
        153 => Some(KeyCode::KC_ROTATE_DISPLAY),
        154 => Some(KeyCode::KC_CYCLEWINDOWS),
        155 => Some(KeyCode::KC_MAIL),
        156 => Some(KeyCode::KC_BOOKMARKS),
        157 => Some(KeyCode::KC_COMPUTER),
        158 => Some(KeyCode::KC_BACK),
        159 => Some(KeyCode::KC_FORWARD),
        160 => Some(KeyCode::KC_CLOSECD),
        161 => Some(KeyCode::KC_EJECTCD),
        162 => Some(KeyCode::KC_EJECTCLOSECD),
        163 => Some(KeyCode::KC_NEXTSONG),
        164 => Some(KeyCode::KC_PLAYPAUSE),
        165 => Some(KeyCode::KC_PREVIOUSSONG),
        166 => Some(KeyCode::KC_STOPCD),
        167 => Some(KeyCode::KC_RECORD),
        168 => Some(KeyCode::KC_REWIND),
        _ => None,
    }
}

fn key_code_from_number_part3(n: u16) -> (r: Option<KeyCode>)
    ensures
        r == spec_key_code_from_number_part3(n),
{
    match n {
        169 => Some(KeyCode::KC_PHONE),
        170 => Some(KeyCode::KC_ISO),
        171 => Some(KeyCode::KC_CONFIG),
        172 => Some(KeyCode::KC_HOMEPAGE),
        173 => Some(KeyCode::KC_REFRESH),
        174 => Some(KeyCode::KC_EXIT),
        175 => Some(KeyCode::KC_MOVE),
        176 => Some(KeyCode::KC_EDIT),
        177 => Some(KeyCode::KC_SCROLLUP),
        178 => Some(KeyCode::KC_SCROLLDOWN),
        179 => Some(KeyCode::KC_KPLEFTPAREN),
        180 => Some(KeyCode::KC_KPRIGHTPAREN),
        181 => Some(KeyCode::KC_NEW),
        182 => Some(KeyCode::KC_REDO),
        183 => Some(KeyCode::KC_F13),
        184 => Some(KeyCode::KC_F14),
        185 => Some(KeyCode::KC_F15),
        186 => Some(KeyCode::KC_F16),
        187 => Some(KeyCode::KC_F17),
        188 => Some(KeyCode::KC_F18),
        189 => Some(KeyCode::KC_F19),
        190 => Some(KeyCode::KC_F20),
        191 => Some(KeyCode::KC_F21),
        192 => Some(KeyCode::KC_F22),
        193 => Some(KeyCode::KC_F23),
        194 => Some(KeyCode::KC_F24),
        200 => Some(KeyCode::KC_PLAYCD),
        201 => Some(KeyCode::KC_PAUSECD),
        202 => Some(KeyCode::KC_PROG3),
        203 => Some(KeyCode::KC_PROG4),
        204 => Some(KeyCode::KC_DASHBOARD),
        205 => Some(KeyCode::KC_SUSPEND),
        206 => Some(KeyCode::KC_CLOSE),
        207 => Some(KeyCode::KC_PLAY),
        208 => Some(KeyCode::KC_FASTFORWARD),
        209 => Some(KeyCode::KC_BASSBOOST),
        210 => Some(KeyCode::KC_PRINT),
        211 => Some(KeyCode::KC_HP),
        212 => Some(KeyCode::KC_CAMERA),
        213 => Some(KeyCode::KC_SOUND),
        214 => Some(KeyCode::KC_QUESTION),
        215 => Some(KeyCode::KC_EMAIL),
        216 => Some(KeyCode::KC_CHAT),
        217 => Some(KeyCode::KC_SEARCH),
        218 => Some(KeyCode::KC_CONNECT),
        219 => Some(KeyCode::KC_FINANCE),
        220 => Some(KeyCode::KC_SPORT),
        221 => Some(KeyCode::KC_SHOP),
        222 => Some(KeyCode::KC_ALTERASE),
        223 => Some(KeyCode::KC_CANCEL),
        224 => Some(KeyCode::KC_BRIGHTNESSDOWN),
        225 => Some(KeyCode::KC_BRIGHTNESSUP),
        226 => Some(KeyCode::KC_MEDIA),
        227 => Some(KeyCode::KC_SWITCHVIDEOMODE),
        228 => Some(KeyCode::KC_KBDILLUMTOGGLE),
        229 => Some(KeyCode::KC_KBDILLUMDOWN),
        _ => None,
    }
}

fn key_code_from_number_part4(n: u16) -> (r: Option<KeyCode>)
    ensures
        r == spec_key_code_from_number_part4(n),
{
    match n {
        230 => Some(KeyCode::KC_KBDILLUMUP),
        231 => Some(KeyCode::KC_SEND),
        232 => Some(KeyCode::KC_REPLY),
        233 => Some(KeyCode::KC_FORWARDMAIL),
        234 => Some(KeyCode::KC_SAVE),
        235 => Some(KeyCode::KC_DOCUMENTS),
        236 => Some(KeyCode::KC_BATTERY),
        237 => Some(KeyCode::KC_BLUETOOTH),
        238 => Some(KeyCode::KC_WLAN),
        239 => Some(KeyCode::KC_UWB),
        240 => Some(KeyCode::KC_UNKNOWN),
        241 => Some(KeyCode::KC_VIDEO_NEXT),
        242 => Some(KeyCode::KC_VIDEO_PREV),
        243 => Some(KeyCode::KC_BRIGHTNESS_CYCLE),
        244 => Some(KeyCode::KC_BRIGHTNESS_AUTO),
        245 => Some(KeyCode::KC_DISPLAY_OFF),
        246 => Some(KeyCode::KC_WWAN),
        247 => Some(KeyCode::KC_RFKILL),
        248 => Some(KeyCode::KC_MICMUTE),
        352 => Some(KeyCode::KC_OK),
        353 => Some(KeyCode::KC_SELECT),
        354 => Some(KeyCode::KC_GOTO),
        355 => Some(KeyCode::KC_CLEAR),
        356 => Some(KeyCode::KC_POWER2),
        357 => Some(KeyCode::KC_OPTION),
        358 => Some(KeyCode::KC_INFO),
        359 => Some(KeyCode::KC_TIME),
        360 => Some(KeyCode::KC_VENDOR),
        361 => Some(KeyCode::KC_ARCHIVE),
        362 => Some(KeyCode::KC_PROGRAM),
        363 => Some(KeyCode::KC_CHANNEL),
        364 => Some(KeyCode::KC_FAVORITES),
        365 => Some(KeyCode::KC_EPG),
        366 => Some(KeyCode::KC_PVR),
        367 => Some(KeyCode::KC_MHP),
        368 => Some(KeyCode::KC_LANGUAGE),
        369 => Some(KeyCode::KC_TITLE),
        370 => Some(KeyCode::KC_SUBTITLE),
        371 => Some(KeyCode::KC_ANGLE),
        372 => Some(KeyCode::KC_FULL_SCREEN),
        373 => Some(KeyCode::KC_MODE),
        374 => Some(KeyCode::KC_KEYBOARD),
        375 => Some(KeyCode::KC_ASPECT_RATIO),
        376 => Some(KeyCode::KC_PC),
        377 => Some(KeyCode::KC_TV),
        378 => Some(KeyCode::KC_TV2),
        379 => Some(KeyCode::KC_VCR),
        380 => Some(KeyCode::KC_VCR2),
        381 => Some(KeyCode::KC_SAT),
        382 => Some(KeyCode::KC_SAT2),
        383 => Some(KeyCode::KC_CD),
        384 => Some(KeyCode::KC_TAPE),
        385 => Some(KeyCode::KC_RADIO),
        386 => Some(KeyCode::KC_TUNER),
        387 => Some(KeyCode::KC_PLAYER),
        388 => Some(KeyCode::KC_TEXT),
        _ => None,
    }
}

fn key_code_from_number_part5(n: u16) -> (r: Option<KeyCode>)
    ensures
        r == spec_key_code_from_number_part5(n),
{
    match n {
        389 => Some(KeyCode::KC_DVD),
        390 => Some(KeyCode::KC_AUX),
        391 => Some(KeyCode::KC_MP3),
        392 => Some(KeyCode::KC_AUDIO),
        393 => Some(KeyCode::KC_VIDEO),
        394 => Some(KeyCode::KC_DIRECTORY),
        395 => Some(KeyCode::KC_LIST),
        396 => Some(KeyCode::KC_MEMO),
        397 => Some(KeyCode::KC_CALENDAR),
        398 => Some(KeyCode::KC_RED),
        399 => Some(KeyCode::KC_GREEN),
        400 => Some(KeyCode::KC_YELLOW),
        401 => Some(KeyCode::KC_BLUE),
        402 => Some(KeyCode::KC_CHANNELUP),
        403 => Some(KeyCode::KC_CHANNELDOWN),
        404 => Some(KeyCode::KC_FIRST),
        405 => Some(KeyCode::KC_LAST),
        406 => Some(KeyCode::KC_AB),
        407 => Some(KeyCode::KC_NEXT),
        408 => Some(KeyCode::KC_RESTART),
        409 => Some(KeyCode::KC_SLOW),
        410 => Some(KeyCode::KC_SHUFFLE),
        411 => Some(KeyCode::KC_BREAK),
        412 => Some(KeyCode::KC_PREVIOUS),
        413 => Some(KeyCode::KC_DIGITS),
        414 => Some(KeyCode::KC_TEEN),
        415 => Some(KeyCode::KC_TWEN),
        416 => Some(KeyCode::KC_VIDEOPHONE),
        417 => Some(KeyCode::KC_GAMES),
        418 => Some(KeyCode::KC_ZOOMIN),
        419 => Some(KeyCode::KC_ZOOMOUT),
        420 => Some(KeyCode::KC_ZOOMRESET),
        421 => Some(KeyCode::KC_WORDPROCESSOR),
        422 => Some(KeyCode::KC_EDITOR),
        423 => Some(KeyCode::KC_SPREADSHEET),
        424 => Some(KeyCode::KC_GRAPHICSEDITOR),
        425 => Some(KeyCode::KC_PRESENTATION),
        426 => Some(KeyCode::KC_DATABASE),
        427 => Some(KeyCode::KC_NEWS),
        428 => Some(KeyCode::KC_VOICEMAIL),
        429 => Some(KeyCode::KC_ADDRESSBOOK),
        430 => Some(KeyCode::KC_MESSENGER),
        431 => Some(KeyCode::KC_DISPLAYTOGGLE),
        432 => Some(KeyCode::KC_SPELLCHECK),
        433 => Some(KeyCode::KC_LOGOFF),
        434 => Some(KeyCode::KC_DOLLAR),
        435 => Some(KeyCode::KC_EURO),
        436 => Some(KeyCode::KC_FRAMEBACK),
        437 => Some(KeyCode::KC_FRAMEFORWARD),
        438 => Some(KeyCode::KC_CONTEXT_MENU),
        439 => Some(KeyCode::KC_MEDIA_REPEAT),
        440 => Some(KeyCode::KC_10CHANNELSUP),
        441 => Some(KeyCode::KC_10CHANNELSDOWN),
        442 => Some(KeyCode::KC_IMAGES),
        448 => Some(KeyCode::KC_DEL_EOL),
        449 => Some(KeyCode::KC_DEL_EOS),
        _ => None,
    }
}

fn key_code_from_number_part6(n: u16) -> (r: Option<KeyCode>)
    ensures
        r == spec_key_code_from_number_part6(n),
{
    match n {
        450 => Some(KeyCode::KC_INS_LINE),
        451 => Some(KeyCode::KC_DEL_LINE),
        464 => Some(KeyCode::KC_FN),
        465 => Some(KeyCode::KC_FN_ESC),
        466 => Some(KeyCode::KC_FN_F1),
        467 => Some(KeyCode::KC_FN_F2),
        468 => Some(KeyCode::KC_FN_F3),
        469 => Some(KeyCode::KC_FN_F4),
        470 => Some(KeyCode::KC_FN_F5),
        471 => Some(KeyCode::KC_FN_F6),
        472 => Some(KeyCode::KC_FN_F7),
        473 => Some(KeyCode::KC_FN_F8),
        474 => Some(KeyCode::KC_FN_F9),
        475 => Some(KeyCode::KC_FN_F10),
        476 => Some(KeyCode::KC_FN_F11),
        477 => Some(KeyCode::KC_FN_F12),
        478 => Some(KeyCode::KC_FN_1),
        479 => Some(KeyCode::KC_FN_2),
        480 => Some(KeyCode::KC_FN_D),
        481 => Some(KeyCode::KC_FN_E),
        482 => Some(KeyCode::KC_FN_F),
        483 => Some(KeyCode::KC_FN_S),
        484 => Some(KeyCode::KC_FN_B),
        497 => Some(KeyCode::KC_BRL_DOT1),
        498 => Some(KeyCode::KC_BRL_DOT2),
        499 => Some(KeyCode::KC_BRL_DOT3),
        500 => Some(KeyCode::KC_BRL_DOT4),
        501 => Some(KeyCode::KC_BRL_DOT5),
        502 => Some(KeyCode::KC_BRL_DOT6),
        503 => Some(KeyCode::KC_BRL_DOT7),
        504 => Some(KeyCode::KC_BRL_DOT8),
        505 => Some(KeyCode::KC_BRL_DOT9),
        506 => Some(KeyCode::KC_BRL_DOT10),
        512 => Some(KeyCode::KC_NUMERIC_0),
        513 => Some(KeyCode::KC_NUMERIC_1),
        514 => Some(KeyCode::KC_NUMERIC_2),
        515 => Some(KeyCode::KC_NUMERIC_3),
        516 => Some(KeyCode::KC_NUMERIC_4),
        517 => Some(KeyCode::KC_NUMERIC_5),
        518 => Some(KeyCode::KC_NUMERIC_6),
        519 => Some(KeyCode::KC_NUMERIC_7),
        520 => Some(KeyCode::KC_NUMERIC_8),
        521 => Some(KeyCode::KC_NUMERIC_9),
        522 => Some(KeyCode::KC_NUMERIC_STAR),
        523 => Some(KeyCode::KC_NUMERIC_POUND),
        524 => Some(KeyCode::KC_NUMERIC_A),
        525 => Some(KeyCode::KC_NUMERIC_B),
        526 => Some(KeyCode::KC_NUMERIC_C),
        527 => Some(KeyCode::KC_NUMERIC_D),
        528 => Some(KeyCode::KC_CAMERA_FOCUS),
        529 => Some(KeyCode::KC_WPS_BUTTON),
        530 => Some(KeyCode::KC_TOUCHPAD_TOGGLE),
        531 => Some(KeyCode::KC_TOUCHPAD_ON),
        532 => Some(KeyCode::KC_TOUCHPAD_OFF),
        533 => Some(KeyCode::KC_CAMERA_ZOOMIN),
        534 => Some(KeyCode::KC_CAMERA_ZOOMOUT),
        _ => None,
    }
}

fn key_code_from_number_part7(n: u16) -> (r: Option<KeyCode>)
    ensures
        r == spec_key_code_from_number_part7(n),
{
    match n {
        535 => Some(KeyCode::KC_CAMERA_UP),
        536 => Some(KeyCode::KC_CAMERA_DOWN),
        537 => Some(KeyCode::KC_CAMERA_LEFT),
        538 => Some(KeyCode::KC_CAMERA_RIGHT),
        539 => Some(KeyCode::KC_ATTENDANT_ON),
        540 => Some(KeyCode::KC_ATTENDANT_OFF),
        541 => Some(KeyCode::KC_ATTENDANT_TOGGLE),
        542 => Some(KeyCode::KC_LIGHTS_TOGGLE),
        560 => Some(KeyCode::KC_ALS_TOGGLE),
        561 => Some(KeyCode::KC_ROTATE_LOCK_TOGGLE),
        576 => Some(KeyCode::KC_BUTTONCONFIG),
        577 => Some(KeyCode::KC_TASKMANAGER),
        578 => Some(KeyCode::KC_JOURNAL),
        579 => Some(KeyCode::KC_CONTROLPANEL),
        580 => Some(KeyCode::KC_APPSELECT),
        581 => Some(KeyCode::KC_SCREENSAVER),
        582 => Some(KeyCode::KC_VOICECOMMAND),
        583 => Some(KeyCode::KC_ASSISTANT),
        592 => Some(KeyCode::KC_BRIGHTNESS_MIN),
        593 => Some(KeyCode::KC_BRIGHTNESS_MAX),
        608 => Some(KeyCode::KC_KBDINPUTASSIST_PREV),
        609 => Some(KeyCode::KC_KBDINPUTASSIST_NEXT),
        610 => Some(KeyCode::KC_KBDINPUTASSIST_PREVGROUP),
        611 => Some(KeyCode::KC_KBDINPUTASSIST_NEXTGROUP),
        612 => Some(KeyCode::KC_KBDINPUTASSIST_ACCEPT),
        613 => Some(KeyCode::KC_KBDINPUTASSIST_CANCEL),
        614 => Some(KeyCode::KC_RIGHT_UP),
        615 => Some(KeyCode::KC_RIGHT_DOWN),
        616 => Some(KeyCode::KC_LEFT_UP),
        617 => Some(KeyCode::KC_LEFT_DOWN),
        618 => Some(KeyCode::KC_ROOT_MENU),
        619 => Some(KeyCode::KC_MEDIA_TOP_MENU),
        620 => Some(KeyCode::KC_NUMERIC_11),
        621 => Some(KeyCode::KC_NUMERIC_12),
        622 => Some(KeyCode::KC_AUDIO_DESC),
        623 => Some(KeyCode::KC_3D_MODE),
        624 => Some(KeyCode::KC_NEXT_FAVORITE),
        625 => Some(KeyCode::KC_STOP_RECORD),
        626 => Some(KeyCode::KC_PAUSE_RECORD),
        627 => Some(KeyCode::KC_VOD),
        628 => Some(KeyCode::KC_UNMUTE),
        629 => Some(KeyCode::KC_FASTREVERSE),
        630 => Some(KeyCode::KC_SLOWREVERSE),
        631 => Some(KeyCode::KC_DATA),
        632 => Some(KeyCode::KC_ONSCREEN_KEYBOARD),
        767 => Some(KeyCode::KC_MAX),
        _ => None,
    }
}

impl KeyCode {
    /// The evdev number of this key.
    pub fn to_numeric(&self) -> (n: u16)
        ensures
            n == key_code_number(*self),
    {
        match self {
            KeyCode::KC_RESERVED => 0,
            KeyCode::KC_ESC => 1,
            KeyCode::KC_1 => 2,
            KeyCode::KC_2 => 3,
            KeyCode::KC_3 => 4,
            KeyCode::KC_4 => 5,
            KeyCode::KC_5 => 6,
            KeyCode::KC_6 => 7,
            KeyCode::KC_7 => 8,
            KeyCode::KC_8 => 9,
            KeyCode::KC_9 => 10,
            KeyCode::KC_0 => 11,
            KeyCode::KC_MINUS => 12,
            KeyCode::KC_EQUAL => 13,
            KeyCode::KC_BACKSPACE => 14,
            KeyCode::KC_TAB => 15,
            KeyCode::KC_Q => 16,
            KeyCode::KC_W => 17,
            KeyCode::KC_E => 18,
            KeyCode::KC_R => 19,
            KeyCode::KC_T => 20,
            KeyCode::KC_Y => 21,
            KeyCode::KC_U => 22,
            KeyCode::KC_I => 23,
            KeyCode::KC_O => 24,
            KeyCode::KC_P => 25,
            KeyCode::KC_LEFTBRACE => 26,
            KeyCode::KC_RIGHTBRACE => 27,
            KeyCode::KC_ENTER => 28,
            KeyCode::KC_LEFTCTRL => 29,
            KeyCode::KC_A => 30,
            KeyCode::KC_S => 31,
            KeyCode::KC_D => 32,
            KeyCode::KC_F => 33,
            KeyCode::KC_G => 34,
            KeyCode::KC_H => 35,
            KeyCode::KC_J => 36,
            KeyCode::KC_K => 37,
            KeyCode::KC_L => 38,
            KeyCode::KC_SEMICOLON => 39,
            KeyCode::KC_APOSTROPHE => 40,
            KeyCode::KC_GRAVE => 41,
            KeyCode::KC_LEFTSHIFT => 42,
            KeyCode::KC_BACKSLASH => 43,
            KeyCode::KC_Z => 44,
            KeyCode::KC_X => 45,
            KeyCode::KC_C => 46,
            KeyCode::KC_V => 47,
            KeyCode::KC_B => 48,
            KeyCode::KC_N => 49,
            KeyCode::KC_M => 50,
            KeyCode::KC_COMMA => 51,
            KeyCode::KC_DOT => 52,
            KeyCode::KC_SLASH => 53,
            KeyCode::KC_RIGHTSHIFT => 54,
            KeyCode::KC_KPASTERISK => 55,
            KeyCode::KC_LEFTALT => 56,
            KeyCode::KC_SPACE => 57,
            KeyCode::KC_CAPSLOCK => 58,
            KeyCode::KC_F1 => 59,
            KeyCode::KC_F2 => 60,
            KeyCode::KC_F3 => 61,
            KeyCode::KC_F4 => 62,
            KeyCode::KC_F5 => 63,
            KeyCode::KC_F6 => 64,
            KeyCode::KC_F7 => 65,
            KeyCode::KC_F8 => 66,
            KeyCode::KC_F9 => 67,
            KeyCode::KC_F10 => 68,
            KeyCode::KC_NUMLOCK => 69,
            KeyCode::KC_SCROLLLOCK => 70,
            KeyCode::KC_KP7 => 71,
            KeyCode::KC_KP8 => 72,
            KeyCode::KC_KP9 => 73,
            KeyCode::KC_KPMINUS => 74,
            KeyCode::KC_KP4 => 75,
            KeyCode::KC_KP5 => 76,
            KeyCode::KC_KP6 => 77,
            KeyCode::KC_KPPLUS => 78,
            KeyCode::KC_KP1 => 79,
            KeyCode::KC_KP2 => 80,
            KeyCode::KC_KP3 => 81,
            KeyCode::KC_KP0 => 82,
            KeyCode::KC_KPDOT => 83,
            KeyCode::KC_ZENKAKUHANKAKU => 85,
            KeyCode::KC_102ND => 86,
            KeyCode::KC_F11 => 87,
            KeyCode::KC_F12 => 88,
            KeyCode::KC_RO => 89,
            KeyCode::KC_KATAKANA => 90,
            KeyCode::KC_HIRAGANA => 91,
            KeyCode::KC_HENKAN => 92,
            KeyCode::KC_KATAKANAHIRAGANA => 93,
            KeyCode::KC_MUHENKAN => 94,
            KeyCode::KC_KPJPCOMMA => 95,
            KeyCode::KC_KPENTER => 96,
            KeyCode::KC_RIGHTCTRL => 97,
            KeyCode::KC_KPSLASH => 98,
            KeyCode::KC_SYSRQ => 99,
            KeyCode::KC_RIGHTALT => 100,
            KeyCode::KC_LINEFEED => 101,
            KeyCode::KC_HOME => 102,
            KeyCode::KC_UP => 103,
            KeyCode::KC_PAGEUP => 104,
            KeyCode::KC_LEFT => 105,
            KeyCode::KC_RIGHT => 106,
            KeyCode::KC_END => 107,
            KeyCode::KC_DOWN => 108,
            KeyCode::KC_PAGEDOWN => 109,
            KeyCode::KC_INSERT => 110,
            KeyCode::KC_DELETE => 111,
            KeyCode::KC_MACRO => 112,
            KeyCode::KC_MUTE => 113,
            KeyCode::KC_VOLUMEDOWN => 114,
            KeyCode::KC_VOLUMEUP => 115,
            KeyCode::KC_POWER => 116,
            KeyCode::KC_KPEQUAL => 117,
            KeyCode::KC_KPPLUSMINUS => 118,
            KeyCode::KC_PAUSE => 119,
            KeyCode::KC_SCALE => 120,
            KeyCode::KC_KPCOMMA => 121,
            KeyCode::KC_HANGEUL => 122,
            KeyCode::KC_HANJA => 123,
            KeyCode::KC_YEN => 124,
            KeyCode::KC_LEFTMETA => 125,
            KeyCode::KC_RIGHTMETA => 126,
            KeyCode::KC_COMPOSE => 127,
            KeyCode::KC_STOP => 128,
            KeyCode::KC_AGAIN => 129,
            KeyCode::KC_PROPS => 130,
            KeyCode::KC_UNDO => 131,
            KeyCode::KC_FRONT => 132,
            KeyCode::KC_COPY => 133,
            KeyCode::KC_OPEN => 134,
            KeyCode::KC_PASTE => 135,
            KeyCode::KC_FIND => 136,
            KeyCode::KC_CUT => 137,
            KeyCode::KC_HELP => 138,
            KeyCode::KC_MENU => 139,
            KeyCode::KC_CALC => 140,
            KeyCode::KC_SETUP => 141,
            KeyCode::KC_SLEEP => 142,
            KeyCode::KC_WAKEUP => 143,
            KeyCode::KC_FILE => 144,
            KeyCode::KC_SENDFILE => 145,
            KeyCode::KC_DELETEFILE => 146,
            KeyCode::KC_XFER => 147,
            KeyCode::KC_PROG1 => 148,
            KeyCode::KC_PROG2 => 149,
            KeyCode::KC_WWW => 150,
            KeyCode::KC_MSDOS => 151,
            KeyCode::KC_COFFEE => 152,
            KeyCode::KC_ROTATE_DISPLAY => 153,
            KeyCode::KC_CYCLEWINDOWS => 154,
            KeyCode::KC_MAIL => 155,
            KeyCode::KC_BOOKMARKS => 156,
            KeyCode::KC_COMPUTER => 157,
            KeyCode::KC_BACK => 158,
            KeyCode::KC_FORWARD => 159,
            KeyCode::KC_CLOSECD => 160,
            KeyCode::KC_EJECTCD => 161,
            KeyCode::KC_EJECTCLOSECD => 162,
            KeyCode::KC_NEXTSONG => 163,
            KeyCode::KC_PLAYPAUSE => 164,
            KeyCode::KC_PREVIOUSSONG => 165,
            KeyCode::KC_STOPCD => 166,
            KeyCode::KC_RECORD => 167,
            KeyCode::KC_REWIND => 168,
            KeyCode::KC_PHONE => 169,
            KeyCode::KC_ISO => 170,
            KeyCode::KC_CONFIG => 171,
            KeyCode::KC_HOMEPAGE => 172,
            KeyCode::KC_REFRESH => 173,
            KeyCode::KC_EXIT => 174,
            KeyCode::KC_MOVE => 175,
            KeyCode::KC_EDIT => 176,
            KeyCode::KC_SCROLLUP => 177,
            KeyCode::KC_SCROLLDOWN => 178,
            KeyCode::KC_KPLEFTPAREN => 179,
            KeyCode::KC_KPRIGHTPAREN => 180,
            KeyCode::KC_NEW => 181,
            KeyCode::KC_REDO => 182,
            KeyCode::KC_F13 => 183,
            KeyCode::KC_F14 => 184,
            KeyCode::KC_F15 => 185,
            KeyCode::KC_F16 => 186,
            KeyCode::KC_F17 => 187,
            KeyCode::KC_F18 => 188,
            KeyCode::KC_F19 => 189,
            KeyCode::KC_F20 => 190,
            KeyCode::KC_F21 => 191,
            KeyCode::KC_F22 => 192,
            KeyCode::KC_F23 => 193,
            KeyCode::KC_F24 => 194,
            KeyCode::KC_PLAYCD => 200,
            KeyCode::KC_PAUSECD => 201,
            KeyCode::KC_PROG3 => 202,
            KeyCode::KC_PROG4 => 203,
            KeyCode::KC_DASHBOARD => 204,
            KeyCode::KC_SUSPEND => 205,
            KeyCode::KC_CLOSE => 206,
            KeyCode::KC_PLAY => 207,
            KeyCode::KC_FASTFORWARD => 208,
            KeyCode::KC_BASSBOOST => 209,
            KeyCode::KC_PRINT => 210,
            KeyCode::KC_HP => 211,
            KeyCode::KC_CAMERA => 212,
            KeyCode::KC_SOUND => 213,
            KeyCode::KC_QUESTION => 214,
            KeyCode::KC_EMAIL => 215,
            KeyCode::KC_CHAT => 216,
            KeyCode::KC_SEARCH => 217,
            KeyCode::KC_CONNECT => 218,
            KeyCode::KC_FINANCE => 219,
            KeyCode::KC_SPORT => 220,
            KeyCode::KC_SHOP => 221,
            KeyCode::KC_ALTERASE => 222,
            KeyCode::KC_CANCEL => 223,
            KeyCode::KC_BRIGHTNESSDOWN => 224,
            KeyCode::KC_BRIGHTNESSUP => 225,
            KeyCode::KC_MEDIA => 226,
            KeyCode::KC_SWITCHVIDEOMODE => 227,
            KeyCode::KC_KBDILLUMTOGGLE => 228,
            KeyCode::KC_KBDILLUMDOWN => 229,
            KeyCode::KC_KBDILLUMUP => 230,
            KeyCode::KC_SEND => 231,
            KeyCode::KC_REPLY => 232,
            KeyCode::KC_FORWARDMAIL => 233,
            KeyCode::KC_SAVE => 234,
            KeyCode::KC_DOCUMENTS => 235,
            KeyCode::KC_BATTERY => 236,
            KeyCode::KC_BLUETOOTH => 237,
            KeyCode::KC_WLAN => 238,
            KeyCode::KC_UWB => 239,
            KeyCode::KC_UNKNOWN => 240,
            KeyCode::KC_VIDEO_NEXT => 241,
            KeyCode::KC_VIDEO_PREV => 242,
            KeyCode::KC_BRIGHTNESS_CYCLE => 243,
            KeyCode::KC_BRIGHTNESS_AUTO => 244,
            KeyCode::KC_DISPLAY_OFF => 245,
            KeyCode::KC_WWAN => 246,
            KeyCode::KC_RFKILL => 247,
            KeyCode::KC_MICMUTE => 248,
            KeyCode::KC_OK => 352,
            KeyCode::KC_SELECT => 353,
            KeyCode::KC_GOTO => 354,
            KeyCode::KC_CLEAR => 355,
            KeyCode::KC_POWER2 => 356,
            KeyCode::KC_OPTION => 357,
            KeyCode::KC_INFO => 358,
            KeyCode::KC_TIME => 359,
            KeyCode::KC_VENDOR => 360,
            KeyCode::KC_ARCHIVE => 361,
            KeyCode::KC_PROGRAM => 362,
            KeyCode::KC_CHANNEL => 363,
            KeyCode::KC_FAVORITES => 364,
            KeyCode::KC_EPG => 365,
            KeyCode::KC_PVR => 366,
            KeyCode::KC_MHP => 367,
            KeyCode::KC_LANGUAGE => 368,
            KeyCode::KC_TITLE => 369,
            KeyCode::KC_SUBTITLE => 370,
            KeyCode::KC_ANGLE => 371,
            KeyCode::KC_FULL_SCREEN => 372,
            KeyCode::KC_MODE => 373,
            KeyCode::KC_KEYBOARD => 374,
            KeyCode::KC_ASPECT_RATIO => 375,
            KeyCode::KC_PC => 376,
            KeyCode::KC_TV => 377,
            KeyCode::KC_TV2 => 378,
            KeyCode::KC_VCR => 379,
            KeyCode::KC_VCR2 => 380,
            KeyCode::KC_SAT => 381,
            KeyCode::KC_SAT2 => 382,
            KeyCode::KC_CD => 383,
            KeyCode::KC_TAPE => 384,
            KeyCode::KC_RADIO => 385,
            KeyCode::KC_TUNER => 386,
            KeyCode::KC_PLAYER => 387,
            KeyCode::KC_TEXT => 388,
            KeyCode::KC_DVD => 389,
            KeyCode::KC_AUX => 390,
            KeyCode::KC_MP3 => 391,
            KeyCode::KC_AUDIO => 392,
            KeyCode::KC_VIDEO => 393,
            KeyCode::KC_DIRECTORY => 394,
            KeyCode::KC_LIST => 395,
            KeyCode::KC_MEMO => 396,
            KeyCode::KC_CALENDAR => 397,
            KeyCode::KC_RED => 398,
            KeyCode::KC_GREEN => 399,
            KeyCode::KC_YELLOW => 400,
            KeyCode::KC_BLUE => 401,
            KeyCode::KC_CHANNELUP => 402,
            KeyCode::KC_CHANNELDOWN => 403,
            KeyCode::KC_FIRST => 404,
            KeyCode::KC_LAST => 405,
            KeyCode::KC_AB => 406,
            KeyCode::KC_NEXT => 407,
            KeyCode::KC_RESTART => 408,
            KeyCode::KC_SLOW => 409,
            KeyCode::KC_SHUFFLE => 410,
            KeyCode::KC_BREAK => 411,
            KeyCode::KC_PREVIOUS => 412,
            KeyCode::KC_DIGITS => 413,
            KeyCode::KC_TEEN => 414,
            KeyCode::KC_TWEN => 415,
            KeyCode::KC_VIDEOPHONE => 416,
            KeyCode::KC_GAMES => 417,
            KeyCode::KC_ZOOMIN => 418,
            KeyCode::KC_ZOOMOUT => 419,
            KeyCode::KC_ZOOMRESET => 420,
            KeyCode::KC_WORDPROCESSOR => 421,
            KeyCode::KC_EDITOR => 422,
            KeyCode::KC_SPREADSHEET => 423,
            KeyCode::KC_GRAPHICSEDITOR => 424,
            KeyCode::KC_PRESENTATION => 425,
            KeyCode::KC_DATABASE => 426,
            KeyCode::KC_NEWS => 427,
            KeyCode::KC_VOICEMAIL => 428,
            KeyCode::KC_ADDRESSBOOK => 429,
            KeyCode::KC_MESSENGER => 430,
            KeyCode::KC_DISPLAYTOGGLE => 431,
            KeyCode::KC_SPELLCHECK => 432,
            KeyCode::KC_LOGOFF => 433,
            KeyCode::KC_DOLLAR => 434,
            KeyCode::KC_EURO => 435,
            KeyCode::KC_FRAMEBACK => 436,
            KeyCode::KC_FRAMEFORWARD => 437,
            KeyCode::KC_CONTEXT_MENU => 438,
            KeyCode::KC_MEDIA_REPEAT => 439,
            KeyCode::KC_10CHANNELSUP => 440,
            KeyCode::KC_10CHANNELSDOWN => 441,
            KeyCode::KC_IMAGES => 442,
            KeyCode::KC_DEL_EOL => 448,
            KeyCode::KC_DEL_EOS => 449,
            KeyCode::KC_INS_LINE => 450,
            KeyCode::KC_DEL_LINE => 451,
            KeyCode::KC_FN => 464,
            KeyCode::KC_FN_ESC => 465,
            KeyCode::KC_FN_F1 => 466,
            KeyCode::KC_FN_F2 => 467,
            KeyCode::KC_FN_F3 => 468,
            KeyCode::KC_FN_F4 => 469,
            KeyCode::KC_FN_F5 => 470,
            KeyCode::KC_FN_F6 => 471,
            KeyCode::KC_FN_F7 => 472,
            KeyCode::KC_FN_F8 => 473,
            KeyCode::KC_FN_F9 => 474,
            KeyCode::KC_FN_F10 => 475,
            KeyCode::KC_FN_F11 => 476,
            KeyCode::KC_FN_F12 => 477,
            KeyCode::KC_FN_1 => 478,
            KeyCode::KC_FN_2 => 479,
            KeyCode::KC_FN_D => 480,
            KeyCode::KC_FN_E => 481,
            KeyCode::KC_FN_F => 482,
            KeyCode::KC_FN_S => 483,
            KeyCode::KC_FN_B => 484,
            KeyCode::KC_BRL_DOT1 => 497,
            KeyCode::KC_BRL_DOT2 => 498,
            KeyCode::KC_BRL_DOT3 => 499,
            KeyCode::KC_BRL_DOT4 => 500,
            KeyCode::KC_BRL_DOT5 => 501,
            KeyCode::KC_BRL_DOT6 => 502,
            KeyCode::KC_BRL_DOT7 => 503,
            KeyCode::KC_BRL_DOT8 => 504,
            KeyCode::KC_BRL_DOT9 => 505,
            KeyCode::KC_BRL_DOT10 => 506,
            KeyCode::KC_NUMERIC_0 => 512,
            KeyCode::KC_NUMERIC_1 => 513,
            KeyCode::KC_NUMERIC_2 => 514,
            KeyCode::KC_NUMERIC_3 => 515,
            KeyCode::KC_NUMERIC_4 => 516,
            KeyCode::KC_NUMERIC_5 => 517,
            KeyCode::KC_NUMERIC_6 => 518,
            KeyCode::KC_NUMERIC_7 => 519,
            KeyCode::KC_NUMERIC_8 => 520,
            KeyCode::KC_NUMERIC_9 => 521,
            KeyCode::KC_NUMERIC_STAR => 522,
            KeyCode::KC_NUMERIC_POUND => 523,
            KeyCode::KC_NUMERIC_A => 524,
            KeyCode::KC_NUMERIC_B => 525,
            KeyCode::KC_NUMERIC_C => 526,
            KeyCode::KC_NUMERIC_D => 527,
            KeyCode::KC_CAMERA_FOCUS => 528,
            KeyCode::KC_WPS_BUTTON => 529,
            KeyCode::KC_TOUCHPAD_TOGGLE => 530,
            KeyCode::KC_TOUCHPAD_ON => 531,
            KeyCode::KC_TOUCHPAD_OFF => 532,
            KeyCode::KC_CAMERA_ZOOMIN => 533,
            KeyCode::KC_CAMERA_ZOOMOUT => 534,
            KeyCode::KC_CAMERA_UP => 535,
            KeyCode::KC_CAMERA_DOWN => 536,
            KeyCode::KC_CAMERA_LEFT => 537,
            KeyCode::KC_CAMERA_RIGHT => 538,
            KeyCode::KC_ATTENDANT_ON => 539,
            KeyCode::KC_ATTENDANT_OFF => 540,
            KeyCode::KC_ATTENDANT_TOGGLE => 541,
            KeyCode::KC_LIGHTS_TOGGLE => 542,
            KeyCode::KC_ALS_TOGGLE => 560,
            KeyCode::KC_ROTATE_LOCK_TOGGLE => 561,
            KeyCode::KC_BUTTONCONFIG => 576,
            KeyCode::KC_TASKMANAGER => 577,
            KeyCode::KC_JOURNAL => 578,
            KeyCode::KC_CONTROLPANEL => 579,
            KeyCode::KC_APPSELECT => 580,
            KeyCode::KC_SCREENSAVER => 581,
            KeyCode::KC_VOICECOMMAND => 582,
            KeyCode::KC_ASSISTANT => 583,
            KeyCode::KC_BRIGHTNESS_MIN => 592,
            KeyCode::KC_BRIGHTNESS_MAX => 593,
            KeyCode::KC_KBDINPUTASSIST_PREV => 608,
            KeyCode::KC_KBDINPUTASSIST_NEXT => 609,
            KeyCode::KC_KBDINPUTASSIST_PREVGROUP => 610,
            KeyCode::KC_KBDINPUTASSIST_NEXTGROUP => 611,
            KeyCode::KC_KBDINPUTASSIST_ACCEPT => 612,
            KeyCode::KC_KBDINPUTASSIST_CANCEL => 613,
            KeyCode::KC_RIGHT_UP => 614,
            KeyCode::KC_RIGHT_DOWN => 615,
            KeyCode::KC_LEFT_UP => 616,
            KeyCode::KC_LEFT_DOWN => 617,
            KeyCode::KC_ROOT_MENU => 618,
            KeyCode::KC_MEDIA_TOP_MENU => 619,
            KeyCode::KC_NUMERIC_11 => 620,
            KeyCode::KC_NUMERIC_12 => 621,
            KeyCode::KC_AUDIO_DESC => 622,
            KeyCode::KC_3D_MODE => 623,
            KeyCode::KC_NEXT_FAVORITE => 624,
            KeyCode::KC_STOP_RECORD => 625,
            KeyCode::KC_PAUSE_RECORD => 626,
            KeyCode::KC_VOD => 627,
            KeyCode::KC_UNMUTE => 628,
            KeyCode::KC_FASTREVERSE => 629,
            KeyCode::KC_SLOWREVERSE => 630,
            KeyCode::KC_DATA => 631,
            KeyCode::KC_ONSCREEN_KEYBOARD => 632,
            KeyCode::KC_MAX => 767,
            KeyCode::NotImplemented => 768,
        }
    }

    /// The key a number denotes, if the table has it.
    pub fn from_numeric(n: u16) -> (r: Option<KeyCode>)
        ensures
            r == spec_key_code_from_number(n),
    {
        if n <= 55 {
            key_code_from_number_part0(n)
        } else if n <= 112 {
            key_code_from_number_part1(n)
        } else if n <= 168 {
            key_code_from_number_part2(n)
        } else if n <= 229 {
            key_code_from_number_part3(n)
        } else if n <= 388 {
            key_code_from_number_part4(n)
        } else if n <= 449 {
            key_code_from_number_part5(n)
        } else if n <= 534 {
            key_code_from_number_part6(n)
        } else if n <= 767 {
            key_code_from_number_part7(n)
        } else {
            None
        }
    }
}

pub open spec fn spec_key_code_by_name_part0(s: Seq<char>) -> Option<KeyCode> {
    if s == "KC_RESERVED"@ {
        Some(KeyCode::KC_RESERVED)
    } else if s == "KC_ESC"@ {
        Some(KeyCode::KC_ESC)
    } else if s == "KC_1"@ {
        Some(KeyCode::KC_1)
    } else if s == "KC_2"@ {
        Some(KeyCode::KC_2)
    } else if s == "KC_3"@ {
        Some(KeyCode::KC_3)
    } else if s == "KC_4"@ {
        Some(KeyCode::KC_4)
    } else if s == "KC_5"@ {
        Some(KeyCode::KC_5)
    } else if s == "KC_6"@ {
        Some(KeyCode::KC_6)
    } else if s == "KC_7"@ {
        Some(KeyCode::KC_7)
    } else if s == "KC_8"@ {
        Some(KeyCode::KC_8)
    } else if s == "KC_9"@ {
        Some(KeyCode::KC_9)
    } else if s == "KC_0"@ {
        Some(KeyCode::KC_0)
    } else if s == "KC_MINUS"@ {
        Some(KeyCode::KC_MINUS)
    } else if s == "KC_EQUAL"@ {
        Some(KeyCode::KC_EQUAL)
    } else if s == "KC_BACKSPACE"@ {
        Some(KeyCode::KC_BACKSPACE)
    } else if s == "KC_TAB"@ {
        Some(KeyCode::KC_TAB)
    } else if s == "KC_Q"@ {
        Some(KeyCode::KC_Q)
    } else if s == "KC_W"@ {
        Some(KeyCode::KC_W)
    } else if s == "KC_E"@ {
        Some(KeyCode::KC_E)
    } else if s == "KC_R"@ {
        Some(KeyCode::KC_R)
    } else if s == "KC_T"@ {
        Some(KeyCode::KC_T)
    } else if s == "KC_Y"@ {
        Some(KeyCode::KC_Y)
    } else if s == "KC_U"@ {
        Some(KeyCode::KC_U)
    } else if s == "KC_I"@ {
        Some(KeyCode::KC_I)
    } else if s == "KC_O"@ {
        Some(KeyCode::KC_O)
    } else if s == "KC_P"@ {
        Some(KeyCode::KC_P)
    } else if s == "KC_LEFTBRACE"@ {
        Some(KeyCode::KC_LEFTBRACE)
    } else if s == "KC_RIGHTBRACE"@ {
        Some(KeyCode::KC_RIGHTBRACE)
    } else if s == "KC_ENTER"@ {
        Some(KeyCode::KC_ENTER)
    } else if s == "KC_LEFTCTRL"@ {
        Some(KeyCode::KC_LEFTCTRL)
    } else if s == "KC_A"@ {
        Some(KeyCode::KC_A)
    } else if s == "KC_S"@ {
        Some(KeyCode::KC_S)
    } else if s == "KC_D"@ {
        Some(KeyCode::KC_D)
    } else if s == "KC_F"@ {
        Some(KeyCode::KC_F)
    } else if s == "KC_G"@ {
        Some(KeyCode::KC_G)
    } else if s == "KC_H"@ {
        Some(KeyCode::KC_H)
    } else if s == "KC_J"@ {
        Some(KeyCode::KC_J)
    } else if s == "KC_K"@ {
        Some(KeyCode::KC_K)
    } else if s == "KC_L"@ {
        Some(KeyCode::KC_L)
    } else if s == "KC_SEMICOLON"@ {
        Some(KeyCode::KC_SEMICOLON)
    } else {
        None
    }
}

pub open spec fn spec_key_code_by_name_part1(s: Seq<char>) -> Option<KeyCode> {
    if s == "KC_APOSTROPHE"@ {
        Some(KeyCode::KC_APOSTROPHE)
    } else if s == "KC_GRAVE"@ {
        Some(KeyCode::KC_GRAVE)
    } else if s == "KC_LEFTSHIFT"@ {
        Some(KeyCode::KC_LEFTSHIFT)
    } else if s == "KC_BACKSLASH"@ {
        Some(KeyCode::KC_BACKSLASH)
    } else if s == "KC_Z"@ {
        Some(KeyCode::KC_Z)
    } else if s == "KC_X"@ {
        Some(KeyCode::KC_X)
    } else if s == "KC_C"@ {
        Some(KeyCode::KC_C)
    } else if s == "KC_V"@ {
        Some(KeyCode::KC_V)
    } else if s == "KC_B"@ {
        Some(KeyCode::KC_B)
    } else if s == "KC_N"@ {
        Some(KeyCode::KC_N)
    } else if s == "KC_M"@ {
        Some(KeyCode::KC_M)
    } else if s == "KC_COMMA"@ {
        Some(KeyCode::KC_COMMA)
    } else if s == "KC_DOT"@ {
        Some(KeyCode::KC_DOT)
    } else if s == "KC_SLASH"@ {
        Some(KeyCode::KC_SLASH)
    } else if s == "KC_RIGHTSHIFT"@ {
        Some(KeyCode::KC_RIGHTSHIFT)
    } else if s == "KC_KPASTERISK"@ {
        Some(KeyCode::KC_KPASTERISK)
    } else if s == "KC_LEFTALT"@ {
        Some(KeyCode::KC_LEFTALT)
    } else if s == "KC_SPACE"@ {
        Some(KeyCode::KC_SPACE)
    } else if s == "KC_CAPSLOCK"@ {
        Some(KeyCode::KC_CAPSLOCK)
    } else if s == "KC_F1"@ {
        Some(KeyCode::KC_F1)
    } else if s == "KC_F2"@ {
        Some(KeyCode::KC_F2)
    } else if s == "KC_F3"@ {
        Some(KeyCode::KC_F3)
    } else if s == "KC_F4"@ {
        Some(KeyCode::KC_F4)
    } else if s == "KC_F5"@ {
        Some(KeyCode::KC_F5)
    } else if s == "KC_F6"@ {
        Some(KeyCode::KC_F6)
    } else if s == "KC_F7"@ {
        Some(KeyCode::KC_F7)
    } else if s == "KC_F8"@ {
        Some(KeyCode::KC_F8)
    } else if s == "KC_F9"@ {
        Some(KeyCode::KC_F9)
    } else if s == "KC_F10"@ {
        Some(KeyCode::KC_F10)
    } else if s == "KC_NUMLOCK"@ {
        Some(KeyCode::KC_NUMLOCK)
    } else if s == "KC_SCROLLLOCK"@ {
        Some(KeyCode::KC_SCROLLLOCK)
    } else if s == "KC_KP7"@ {
        Some(KeyCode::KC_KP7)
    } else if s == "KC_KP8"@ {
        Some(KeyCode::KC_KP8)
    } else if s == "KC_KP9"@ {
        Some(KeyCode::KC_KP9)
    } else if s == "KC_KPMINUS"@ {
        Some(KeyCode::KC_KPMINUS)
    } else if s == "KC_KP4"@ {
        Some(KeyCode::KC_KP4)
    } else if s == "KC_KP5"@ {
        Some(KeyCode::KC_KP5)
    } else if s == "KC_KP6"@ {
        Some(KeyCode::KC_KP6)
    } else if s == "KC_KPPLUS"@ {
        Some(KeyCode::KC_KPPLUS)
    } else if s == "KC_KP1"@ {
        Some(KeyCode::KC_KP1)
    } else {
        None
    }
}

pub open spec fn spec_key_code_by_name_part2(s: Seq<char>) -> Option<KeyCode> {
    if s == "KC_KP2"@ {
        Some(KeyCode::KC_KP2)
    } else if s == "KC_KP3"@ {
        Some(KeyCode::KC_KP3)
    } else if s == "KC_KP0"@ {
        Some(KeyCode::KC_KP0)
    } else if s == "KC_KPDOT"@ {
        Some(KeyCode::KC_KPDOT)
    } else if s == "KC_ZENKAKUHANKAKU"@ {
        Some(KeyCode::KC_ZENKAKUHANKAKU)
    } else if s == "KC_102ND"@ {
        Some(KeyCode::KC_102ND)
    } else if s == "KC_F11"@ {
        Some(KeyCode::KC_F11)
    } else if s == "KC_F12"@ {
        Some(KeyCode::KC_F12)
    } else if s == "KC_RO"@ {
        Some(KeyCode::KC_RO)
    } else if s == "KC_KATAKANA"@ {
        Some(KeyCode::KC_KATAKANA)
    } else if s == "KC_HIRAGANA"@ {
        Some(KeyCode::KC_HIRAGANA)
    } else if s == "KC_HENKAN"@ {
        Some(KeyCode::KC_HENKAN)
    } else if s == "KC_KATAKANAHIRAGANA"@ {
        Some(KeyCode::KC_KATAKANAHIRAGANA)
    } else if s == "KC_MUHENKAN"@ {
        Some(KeyCode::KC_MUHENKAN)
    } else if s == "KC_KPJPCOMMA"@ {
        Some(KeyCode::KC_KPJPCOMMA)
    } else if s == "KC_KPENTER"@ {
        Some(KeyCode::KC_KPENTER)
    } else if s == "KC_RIGHTCTRL"@ {
        Some(KeyCode::KC_RIGHTCTRL)
    } else if s == "KC_KPSLASH"@ {
        Some(KeyCode::KC_KPSLASH)
    } else if s == "KC_SYSRQ"@ {
        Some(KeyCode::KC_SYSRQ)
    } else if s == "KC_RIGHTALT"@ {
        Some(KeyCode::KC_RIGHTALT)
    } else if s == "KC_LINEFEED"@ {
        Some(KeyCode::KC_LINEFEED)
    } else if s == "KC_HOME"@ {
        Some(KeyCode::KC_HOME)
    } else if s == "KC_UP"@ {
        Some(KeyCode::KC_UP)
    } else if s == "KC_PAGEUP"@ {
        Some(KeyCode::KC_PAGEUP)
    } else if s == "KC_LEFT"@ {
        Some(KeyCode::KC_LEFT)
    } else if s == "KC_RIGHT"@ {
        Some(KeyCode::KC_RIGHT)
    } else if s == "KC_END"@ {
        Some(KeyCode::KC_END)
    } else if s == "KC_DOWN"@ {
        Some(KeyCode::KC_DOWN)
    } else if s == "KC_PAGEDOWN"@ {
        Some(KeyCode::KC_PAGEDOWN)
    } else if s == "KC_INSERT"@ {
        Some(KeyCode::KC_INSERT)
    } else if s == "KC_DELETE"@ {
        Some(KeyCode::KC_DELETE)
    } else if s == "KC_MACRO"@ {
        Some(KeyCode::KC_MACRO)
    } else if s == "KC_MUTE"@ {
        Some(KeyCode::KC_MUTE)
    } else if s == "KC_VOLUMEDOWN"@ {
        Some(KeyCode::KC_VOLUMEDOWN)
    } else if s == "KC_VOLUMEUP"@ {
        Some(KeyCode::KC_VOLUMEUP)
    } else if s == "KC_POWER"@ {
        Some(KeyCode::KC_POWER)
    } else if s == "KC_KPEQUAL"@ {
        Some(KeyCode::KC_KPEQUAL)
    } else if s == "KC_KPPLUSMINUS"@ {
        Some(KeyCode::KC_KPPLUSMINUS)
    } else if s == "KC_PAUSE"@ {
        Some(KeyCode::KC_PAUSE)
    } else if s == "KC_SCALE"@ {
        Some(KeyCode::KC_SCALE)
    } else {
        None
    }
}

pub open spec fn spec_key_code_by_name_part3(s: Seq<char>) -> Option<KeyCode> {
    if s == "KC_KPCOMMA"@ {
        Some(KeyCode::KC_KPCOMMA)
    } else if s == "KC_HANGEUL"@ {
        Some(KeyCode::KC_HANGEUL)
    } else if s == "KC_HANJA"@ {
        Some(KeyCode::KC_HANJA)
    } else if s == "KC_YEN"@ {
        Some(KeyCode::KC_YEN)
    } else if s == "KC_LEFTMETA"@ {
        Some(KeyCode::KC_LEFTMETA)
    } else if s == "KC_RIGHTMETA"@ {
        Some(KeyCode::KC_RIGHTMETA)
    } else if s == "KC_COMPOSE"@ {
        Some(KeyCode::KC_COMPOSE)
    } else if s == "KC_STOP"@ {
        Some(KeyCode::KC_STOP)
    } else if s == "KC_AGAIN"@ {
        Some(KeyCode::KC_AGAIN)
    } else if s == "KC_PROPS"@ {
        Some(KeyCode::KC_PROPS)
    } else if s == "KC_UNDO"@ {
        Some(KeyCode::KC_UNDO)
    } else if s == "KC_FRONT"@ {
        Some(KeyCode::KC_FRONT)
    } else if s == "KC_COPY"@ {
        Some(KeyCode::KC_COPY)
    } else if s == "KC_OPEN"@ {
        Some(KeyCode::KC_OPEN)
    } else if s == "KC_PASTE"@ {
        Some(KeyCode::KC_PASTE)
    } else if s == "KC_FIND"@ {
        Some(KeyCode::KC_FIND)
    } else if s == "KC_CUT"@ {
        Some(KeyCode::KC_CUT)
    } else if s == "KC_HELP"@ {
        Some(KeyCode::KC_HELP)
    } else if s == "KC_MENU"@ {
        Some(KeyCode::KC_MENU)
    } else if s == "KC_CALC"@ {
        Some(KeyCode::KC_CALC)
    } else if s == "KC_SETUP"@ {
        Some(KeyCode::KC_SETUP)
    } else if s == "KC_SLEEP"@ {
        Some(KeyCode::KC_SLEEP)
    } else if s == "KC_WAKEUP"@ {
        Some(KeyCode::KC_WAKEUP)
    } else if s == "KC_FILE"@ {
        Some(KeyCode::KC_FILE)
    } else if s == "KC_SENDFILE"@ {
        Some(KeyCode::KC_SENDFILE)
    } else if s == "KC_DELETEFILE"@ {
        Some(KeyCode::KC_DELETEFILE)
    } else if s == "KC_XFER"@ {
        Some(KeyCode::KC_XFER)
    } else if s == "KC_PROG1"@ {
        Some(KeyCode::KC_PROG1)
    } else if s == "KC_PROG2"@ {
        Some(KeyCode::KC_PROG2)
    } else if s == "KC_WWW"@ {
        Some(KeyCode::KC_WWW)
    } else if s == "KC_MSDOS"@ {
        Some(KeyCode::KC_MSDOS)
    } else if s == "KC_COFFEE"@ {
        Some(KeyCode::KC_COFFEE)
    } else if s == "KC_ROTATE_DISPLAY"@ {
        Some(KeyCode::KC_ROTATE_DISPLAY)
    } else if s == "KC_CYCLEWINDOWS"@ {
        Some(KeyCode::KC_CYCLEWINDOWS)
    } else if s == "KC_MAIL"@ {
        Some(KeyCode::KC_MAIL)
    } else if s == "KC_BOOKMARKS"@ {
        Some(KeyCode::KC_BOOKMARKS)
    } else if s == "KC_COMPUTER"@ {
        Some(KeyCode::KC_COMPUTER)
    } else if s == "KC_BACK"@ {
        Some(KeyCode::KC_BACK)
    } else if s == "KC_FORWARD"@ {
        Some(KeyCode::KC_FORWARD)
    } else if s == "KC_CLOSECD"@ {
        Some(KeyCode::KC_CLOSECD)
    } else {
        None
    }
}

pub open spec fn spec_key_code_by_name_part4(s: Seq<char>) -> Option<KeyCode> {
    if s == "KC_EJECTCD"@ {
        Some(KeyCode::KC_EJECTCD)
    } else if s == "KC_EJECTCLOSECD"@ {
        Some(KeyCode::KC_EJECTCLOSECD)
    } else if s == "KC_NEXTSONG"@ {
        Some(KeyCode::KC_NEXTSONG)
    } else if s == "KC_PLAYPAUSE"@ {
        Some(KeyCode::KC_PLAYPAUSE)
    } else if s == "KC_PREVIOUSSONG"@ {
        Some(KeyCode::KC_PREVIOUSSONG)
    } else if s == "KC_STOPCD"@ {
        Some(KeyCode::KC_STOPCD)
    } else if s == "KC_RECORD"@ {
        Some(KeyCode::KC_RECORD)
    } else if s == "KC_REWIND"@ {
        Some(KeyCode::KC_REWIND)
    } else if s == "KC_PHONE"@ {
        Some(KeyCode::KC_PHONE)
    } else if s == "KC_ISO"@ {
        Some(KeyCode::KC_ISO)
    } else if s == "KC_CONFIG"@ {
        Some(KeyCode::KC_CONFIG)
    } else if s == "KC_HOMEPAGE"@ {
        Some(KeyCode::KC_HOMEPAGE)
    } else if s == "KC_REFRESH"@ {
        Some(KeyCode::KC_REFRESH)
    } else if s == "KC_EXIT"@ {
        Some(KeyCode::KC_EXIT)
    } else if s == "KC_MOVE"@ {
        Some(KeyCode::KC_MOVE)
    } else if s == "KC_EDIT"@ {
        Some(KeyCode::KC_EDIT)
    } else if s == "KC_SCROLLUP"@ {
        Some(KeyCode::KC_SCROLLUP)
    } else if s == "KC_SCROLLDOWN"@ {
        Some(KeyCode::KC_SCROLLDOWN)
    } else if s == "KC_KPLEFTPAREN"@ {
        Some(KeyCode::KC_KPLEFTPAREN)
    } else if s == "KC_KPRIGHTPAREN"@ {
        Some(KeyCode::KC_KPRIGHTPAREN)
    } else if s == "KC_NEW"@ {
        Some(KeyCode::KC_NEW)
    } else if s == "KC_REDO"@ {
        Some(KeyCode::KC_REDO)
    } else if s == "KC_F13"@ {
        Some(KeyCode::KC_F13)
    } else if s == "KC_F14"@ {
        Some(KeyCode::KC_F14)
    } else if s == "KC_F15"@ {
        Some(KeyCode::KC_F15)
    } else if s == "KC_F16"@ {
        Some(KeyCode::KC_F16)
    } else if s == "KC_F17"@ {
        Some(KeyCode::KC_F17)
    } else if s == "KC_F18"@ {
        Some(KeyCode::KC_F18)
    } else if s == "KC_F19"@ {
        Some(KeyCode::KC_F19)
    } else if s == "KC_F20"@ {
        Some(KeyCode::KC_F20)
    } else if s == "KC_F21"@ {
        Some(KeyCode::KC_F21)
    } else if s == "KC_F22"@ {
        Some(KeyCode::KC_F22)
    } else if s == "KC_F23"@ {
        Some(KeyCode::KC_F23)
    } else if s == "KC_F24"@ {
        Some(KeyCode::KC_F24)
    } else if s == "KC_PLAYCD"@ {
        Some(KeyCode::KC_PLAYCD)
    } else if s == "KC_PAUSECD"@ {
        Some(KeyCode::KC_PAUSECD)
    } else if s == "KC_PROG3"@ {
        Some(KeyCode::KC_PROG3)
    } else if s == "KC_PROG4"@ {
        Some(KeyCode::KC_PROG4)
    } else if s == "KC_DASHBOARD"@ {
        Some(KeyCode::KC_DASHBOARD)
    } else if s == "KC_SUSPEND"@ {
        Some(KeyCode::KC_SUSPEND)
    } else {
        None
    }
}

pub open spec fn spec_key_code_by_name_part5(s: Seq<char>) -> Option<KeyCode> {
    if s == "KC_CLOSE"@ {
        Some(KeyCode::KC_CLOSE)
    } else if s == "KC_PLAY"@ {
        Some(KeyCode::KC_PLAY)
    } else if s == "KC_FASTFORWARD"@ {
        Some(KeyCode::KC_FASTFORWARD)
    } else if s == "KC_BASSBOOST"@ {
        Some(KeyCode::KC_BASSBOOST)
    } else if s == "KC_PRINT"@ {
        Some(KeyCode::KC_PRINT)
    } else if s == "KC_HP"@ {
        Some(KeyCode::KC_HP)
    } else if s == "KC_CAMERA"@ {
        Some(KeyCode::KC_CAMERA)
    } else if s == "KC_SOUND"@ {
        Some(KeyCode::KC_SOUND)
    } else if s == "KC_QUESTION"@ {
        Some(KeyCode::KC_QUESTION)
    } else if s == "KC_EMAIL"@ {
        Some(KeyCode::KC_EMAIL)
    } else if s == "KC_CHAT"@ {
        Some(KeyCode::KC_CHAT)
    } else if s == "KC_SEARCH"@ {
        Some(KeyCode::KC_SEARCH)
    } else if s == "KC_CONNECT"@ {
        Some(KeyCode::KC_CONNECT)
    } else if s == "KC_FINANCE"@ {
        Some(KeyCode::KC_FINANCE)
    } else if s == "KC_SPORT"@ {
        Some(KeyCode::KC_SPORT)
    } else if s == "KC_SHOP"@ {
        Some(KeyCode::KC_SHOP)
    } else if s == "KC_ALTERASE"@ {
        Some(KeyCode::KC_ALTERASE)
    } else if s == "KC_CANCEL"@ {
        Some(KeyCode::KC_CANCEL)
    } else if s == "KC_BRIGHTNESSDOWN"@ {
        Some(KeyCode::KC_BRIGHTNESSDOWN)
    } else if s == "KC_BRIGHTNESSUP"@ {
        Some(KeyCode::KC_BRIGHTNESSUP)
    } else if s == "KC_MEDIA"@ {
        Some(KeyCode::KC_MEDIA)
    } else if s == "KC_SWITCHVIDEOMODE"@ {
        Some(KeyCode::KC_SWITCHVIDEOMODE)
    } else if s == "KC_KBDILLUMTOGGLE"@ {
        Some(KeyCode::KC_KBDILLUMTOGGLE)
    } else if s == "KC_KBDILLUMDOWN"@ {
        Some(KeyCode::KC_KBDILLUMDOWN)
    } else if s == "KC_KBDILLUMUP"@ {
        Some(KeyCode::KC_KBDILLUMUP)
    } else if s == "KC_SEND"@ {
        Some(KeyCode::KC_SEND)
    } else if s == "KC_REPLY"@ {
        Some(KeyCode::KC_REPLY)
    } else if s == "KC_FORWARDMAIL"@ {
        Some(KeyCode::KC_FORWARDMAIL)
    } else if s == "KC_SAVE"@ {
        Some(KeyCode::KC_SAVE)
    } else if s == "KC_DOCUMENTS"@ {
        Some(KeyCode::KC_DOCUMENTS)
    } else if s == "KC_BATTERY"@ {
        Some(KeyCode::KC_BATTERY)
    } else if s == "KC_BLUETOOTH"@ {
        Some(KeyCode::KC_BLUETOOTH)
    } else if s == "KC_WLAN"@ {
        Some(KeyCode::KC_WLAN)
    } else if s == "KC_UWB"@ {
        Some(KeyCode::KC_UWB)
    } else if s == "KC_UNKNOWN"@ {
        Some(KeyCode::KC_UNKNOWN)
    } else if s == "KC_VIDEO_NEXT"@ {
        Some(KeyCode::KC_VIDEO_NEXT)
    } else if s == "KC_VIDEO_PREV"@ {
        Some(KeyCode::KC_VIDEO_PREV)
    } else if s == "KC_BRIGHTNESS_CYCLE"@ {
        Some(KeyCode::KC_BRIGHTNESS_CYCLE)
    } else if s == "KC_BRIGHTNESS_AUTO"@ {
        Some(KeyCode::KC_BRIGHTNESS_AUTO)
    } else if s == "KC_DISPLAY_OFF"@ {
        Some(KeyCode::KC_DISPLAY_OFF)
    } else {
        None
    }
}

pub open spec fn spec_key_code_by_name_part6(s: Seq<char>) -> Option<KeyCode> {
    if s == "KC_WWAN"@ {
        Some(KeyCode::KC_WWAN)
    } else if s == "KC_RFKILL"@ {
        Some(KeyCode::KC_RFKILL)
    } else if s == "KC_MICMUTE"@ {
        Some(KeyCode::KC_MICMUTE)
    } else if s == "KC_OK"@ {
        Some(KeyCode::KC_OK)
    } else if s == "KC_SELECT"@ {
        Some(KeyCode::KC_SELECT)
    } else if s == "KC_GOTO"@ {
        Some(KeyCode::KC_GOTO)
    } else if s == "KC_CLEAR"@ {
        Some(KeyCode::KC_CLEAR)
    } else if s == "KC_POWER2"@ {
        Some(KeyCode::KC_POWER2)
    } else if s == "KC_OPTION"@ {
        Some(KeyCode::KC_OPTION)
    } else if s == "KC_INFO"@ {
        Some(KeyCode::KC_INFO)
    } else if s == "KC_TIME"@ {
        Some(KeyCode::KC_TIME)
    } else if s == "KC_VENDOR"@ {
        Some(KeyCode::KC_VENDOR)
    } else if s == "KC_ARCHIVE"@ {
        Some(KeyCode::KC_ARCHIVE)
    } else if s == "KC_PROGRAM"@ {
        Some(KeyCode::KC_PROGRAM)
    } else if s == "KC_CHANNEL"@ {
        Some(KeyCode::KC_CHANNEL)
    } else if s == "KC_FAVORITES"@ {
        Some(KeyCode::KC_FAVORITES)
    } else if s == "KC_EPG"@ {
        Some(KeyCode::KC_EPG)
    } else if s == "KC_PVR"@ {
        Some(KeyCode::KC_PVR)
    } else if s == "KC_MHP"@ {
        Some(KeyCode::KC_MHP)
    } else if s == "KC_LANGUAGE"@ {
        Some(KeyCode::KC_LANGUAGE)
    } else if s == "KC_TITLE"@ {
        Some(KeyCode::KC_TITLE)
    } else if s == "KC_SUBTITLE"@ {
        Some(KeyCode::KC_SUBTITLE)
    } else if s == "KC_ANGLE"@ {
        Some(KeyCode::KC_ANGLE)
    } else if s == "KC_FULL_SCREEN"@ {
        Some(KeyCode::KC_FULL_SCREEN)
    } else if s == "KC_MODE"@ {
        Some(KeyCode::KC_MODE)
    } else if s == "KC_KEYBOARD"@ {
        Some(KeyCode::KC_KEYBOARD)
    } else if s == "KC_ASPECT_RATIO"@ {
        Some(KeyCode::KC_ASPECT_RATIO)
    } else if s == "KC_PC"@ {
        Some(KeyCode::KC_PC)
    } else if s == "KC_TV"@ {
        Some(KeyCode::KC_TV)
    } else if s == "KC_TV2"@ {
        Some(KeyCode::KC_TV2)
    } else if s == "KC_VCR"@ {
        Some(KeyCode::KC_VCR)
    } else if s == "KC_VCR2"@ {
        Some(KeyCode::KC_VCR2)
    } else if s == "KC_SAT"@ {
        Some(KeyCode::KC_SAT)
    } else if s == "KC_SAT2"@ {
        Some(KeyCode::KC_SAT2)
    } else if s == "KC_CD"@ {
        Some(KeyCode::KC_CD)
    } else if s == "KC_TAPE"@ {
        Some(KeyCode::KC_TAPE)
    } else if s == "KC_RADIO"@ {
        Some(KeyCode::KC_RADIO)
    } else if s == "KC_TUNER"@ {
        Some(KeyCode::KC_TUNER)
    } else if s == "KC_PLAYER"@ {
        Some(KeyCode::KC_PLAYER)
    } else if s == "KC_TEXT"@ {
        Some(KeyCode::KC_TEXT)
    } else {
        None
    }
}

pub open spec fn spec_key_code_by_name_part7(s: Seq<char>) -> Option<KeyCode> {
    if s == "KC_DVD"@ {
        Some(KeyCode::KC_DVD)
    } else if s == "KC_AUX"@ {
        Some(KeyCode::KC_AUX)
    } else if s == "KC_MP3"@ {
        Some(KeyCode::KC_MP3)
    } else if s == "KC_AUDIO"@ {
        Some(KeyCode::KC_AUDIO)
    } else if s == "KC_VIDEO"@ {
        Some(KeyCode::KC_VIDEO)
    } else if s == "KC_DIRECTORY"@ {
        Some(KeyCode::KC_DIRECTORY)
    } else if s == "KC_LIST"@ {
        Some(KeyCode::KC_LIST)
    } else if s == "KC_MEMO"@ {
        Some(KeyCode::KC_MEMO)
    } else if s == "KC_CALENDAR"@ {
        Some(KeyCode::KC_CALENDAR)
    } else if s == "KC_RED"@ {
        Some(KeyCode::KC_RED)
    } else if s == "KC_GREEN"@ {
        Some(KeyCode::KC_GREEN)
    } else if s == "KC_YELLOW"@ {
        Some(KeyCode::KC_YELLOW)
    } else if s == "KC_BLUE"@ {
        Some(KeyCode::KC_BLUE)
    } else if s == "KC_CHANNELUP"@ {
        Some(KeyCode::KC_CHANNELUP)
    } else if s == "KC_CHANNELDOWN"@ {
        Some(KeyCode::KC_CHANNELDOWN)
    } else if s == "KC_FIRST"@ {
        Some(KeyCode::KC_FIRST)
    } else if s == "KC_LAST"@ {
        Some(KeyCode::KC_LAST)
    } else if s == "KC_AB"@ {
        Some(KeyCode::KC_AB)
    } else if s == "KC_NEXT"@ {
        Some(KeyCode::KC_NEXT)
    } else if s == "KC_RESTART"@ {
        Some(KeyCode::KC_RESTART)
    } else if s == "KC_SLOW"@ {
        Some(KeyCode::KC_SLOW)
    } else if s == "KC_SHUFFLE"@ {
        Some(KeyCode::KC_SHUFFLE)
    } else if s == "KC_BREAK"@ {
        Some(KeyCode::KC_BREAK)
    } else if s == "KC_PREVIOUS"@ {
        Some(KeyCode::KC_PREVIOUS)
    } else if s == "KC_DIGITS"@ {
        Some(KeyCode::KC_DIGITS)
    } else if s == "KC_TEEN"@ {
        Some(KeyCode::KC_TEEN)
    } else if s == "KC_TWEN"@ {
        Some(KeyCode::KC_TWEN)
    } else if s == "KC_VIDEOPHONE"@ {
        Some(KeyCode::KC_VIDEOPHONE)
    } else if s == "KC_GAMES"@ {
        Some(KeyCode::KC_GAMES)
    } else if s == "KC_ZOOMIN"@ {
        Some(KeyCode::KC_ZOOMIN)
    } else if s == "KC_ZOOMOUT"@ {
        Some(KeyCode::KC_ZOOMOUT)
    } else if s == "KC_ZOOMRESET"@ {
        Some(KeyCode::KC_ZOOMRESET)
    } else if s == "KC_WORDPROCESSOR"@ {
        Some(KeyCode::KC_WORDPROCESSOR)
    } else if s == "KC_EDITOR"@ {
        Some(KeyCode::KC_EDITOR)
    } else if s == "KC_SPREADSHEET"@ {
        Some(KeyCode::KC_SPREADSHEET)
    } else if s == "KC_GRAPHICSEDITOR"@ {
        Some(KeyCode::KC_GRAPHICSEDITOR)
    } else if s == "KC_PRESENTATION"@ {
        Some(KeyCode::KC_PRESENTATION)
    } else if s == "KC_DATABASE"@ {
        Some(KeyCode::KC_DATABASE)
    } else if s == "KC_NEWS"@ {
        Some(KeyCode::KC_NEWS)
    } else if s == "KC_VOICEMAIL"@ {
        Some(KeyCode::KC_VOICEMAIL)
    } else {
        None
    }
}

pub open spec fn spec_key_code_by_name_part8(s: Seq<char>) -> Option<KeyCode> {
    if s == "KC_ADDRESSBOOK"@ {
        Some(KeyCode::KC_ADDRESSBOOK)
    } else if s == "KC_MESSENGER"@ {
        Some(KeyCode::KC_MESSENGER)
    } else if s == "KC_DISPLAYTOGGLE"@ {
        Some(KeyCode::KC_DISPLAYTOGGLE)
    } else if s == "KC_SPELLCHECK"@ {
        Some(KeyCode::KC_SPELLCHECK)
    } else if s == "KC_LOGOFF"@ {
        Some(KeyCode::KC_LOGOFF)
    } else if s == "KC_DOLLAR"@ {
        Some(KeyCode::KC_DOLLAR)
    } else if s == "KC_EURO"@ {
        Some(KeyCode::KC_EURO)
    } else if s == "KC_FRAMEBACK"@ {
        Some(KeyCode::KC_FRAMEBACK)
    } else if s == "KC_FRAMEFORWARD"@ {
        Some(KeyCode::KC_FRAMEFORWARD)
    } else if s == "KC_CONTEXT_MENU"@ {
        Some(KeyCode::KC_CONTEXT_MENU)
    } else if s == "KC_MEDIA_REPEAT"@ {
        Some(KeyCode::KC_MEDIA_REPEAT)
    } else if s == "KC_10CHANNELSUP"@ {
        Some(KeyCode::KC_10CHANNELSUP)
    } else if s == "KC_10CHANNELSDOWN"@ {
        Some(KeyCode::KC_10CHANNELSDOWN)
    } else if s == "KC_IMAGES"@ {
        Some(KeyCode::KC_IMAGES)
    } else if s == "KC_DEL_EOL"@ {
        Some(KeyCode::KC_DEL_EOL)
    } else if s == "KC_DEL_EOS"@ {
        Some(KeyCode::KC_DEL_EOS)
    } else if s == "KC_INS_LINE"@ {
        Some(KeyCode::KC_INS_LINE)
    } else if s == "KC_DEL_LINE"@ {
        Some(KeyCode::KC_DEL_LINE)
    } else if s == "KC_FN"@ {
        Some(KeyCode::KC_FN)
    } else if s == "KC_FN_ESC"@ {
        Some(KeyCode::KC_FN_ESC)
    } else if s == "KC_FN_F1"@ {
        Some(KeyCode::KC_FN_F1)
    } else if s == "KC_FN_F2"@ {
        Some(KeyCode::KC_FN_F2)
    } else if s == "KC_FN_F3"@ {
        Some(KeyCode::KC_FN_F3)
    } else if s == "KC_FN_F4"@ {
        Some(KeyCode::KC_FN_F4)
    } else if s == "KC_FN_F5"@ {
        Some(KeyCode::KC_FN_F5)
    } else if s == "KC_FN_F6"@ {
        Some(KeyCode::KC_FN_F6)
    } else if s == "KC_FN_F7"@ {
        Some(KeyCode::KC_FN_F7)
    } else if s == "KC_FN_F8"@ {
        Some(KeyCode::KC_FN_F8)
    } else if s == "KC_FN_F9"@ {
        Some(KeyCode::KC_FN_F9)
    } else if s == "KC_FN_F10"@ {
        Some(KeyCode::KC_FN_F10)
    } else if s == "KC_FN_F11"@ {
        Some(KeyCode::KC_FN_F11)
    } else if s == "KC_FN_F12"@ {
        Some(KeyCode::KC_FN_F12)
    } else if s == "KC_FN_1"@ {
        Some(KeyCode::KC_FN_1)
    } else if s == "KC_FN_2"@ {
        Some(KeyCode::KC_FN_2)
    } else if s == "KC_FN_D"@ {
        Some(KeyCode::KC_FN_D)
    } else if s == "KC_FN_E"@ {
        Some(KeyCode::KC_FN_E)
    } else if s == "KC_FN_F"@ {
        Some(KeyCode::KC_FN_F)
    } else if s == "KC_FN_S"@ {
        Some(KeyCode::KC_FN_S)
    } else if s == "KC_FN_B"@ {
        Some(KeyCode::KC_FN_B)
    } else if s == "KC_BRL_DOT1"@ {
        Some(KeyCode::KC_BRL_DOT1)
    } else {
        None
    }
}

pub open spec fn spec_key_code_by_name_part9(s: Seq<char>) -> Option<KeyCode> {
    if s == "KC_BRL_DOT2"@ {
        Some(KeyCode::KC_BRL_DOT2)
    } else if s == "KC_BRL_DOT3"@ {
        Some(KeyCode::KC_BRL_DOT3)
    } else if s == "KC_BRL_DOT4"@ {
        Some(KeyCode::KC_BRL_DOT4)
    } else if s == "KC_BRL_DOT5"@ {
        Some(KeyCode::KC_BRL_DOT5)
    } else if s == "KC_BRL_DOT6"@ {
        Some(KeyCode::KC_BRL_DOT6)
    } else if s == "KC_BRL_DOT7"@ {
        Some(KeyCode::KC_BRL_DOT7)
    } else if s == "KC_BRL_DOT8"@ {
        Some(KeyCode::KC_BRL_DOT8)
    } else if s == "KC_BRL_DOT9"@ {
        Some(KeyCode::KC_BRL_DOT9)
    } else if s == "KC_BRL_DOT10"@ {
        Some(KeyCode::KC_BRL_DOT10)
    } else if s == "KC_NUMERIC_0"@ {
        Some(KeyCode::KC_NUMERIC_0)
    } else if s == "KC_NUMERIC_1"@ {
        Some(KeyCode::KC_NUMERIC_1)
    } else if s == "KC_NUMERIC_2"@ {
        Some(KeyCode::KC_NUMERIC_2)
    } else if s == "KC_NUMERIC_3"@ {
        Some(KeyCode::KC_NUMERIC_3)
    } else if s == "KC_NUMERIC_4"@ {
        Some(KeyCode::KC_NUMERIC_4)
    } else if s == "KC_NUMERIC_5"@ {
        Some(KeyCode::KC_NUMERIC_5)
    } else if s == "KC_NUMERIC_6"@ {
        Some(KeyCode::KC_NUMERIC_6)
    } else if s == "KC_NUMERIC_7"@ {
        Some(KeyCode::KC_NUMERIC_7)
    } else if s == "KC_NUMERIC_8"@ {
        Some(KeyCode::KC_NUMERIC_8)
    } else if s == "KC_NUMERIC_9"@ {
        Some(KeyCode::KC_NUMERIC_9)
    } else if s == "KC_NUMERIC_STAR"@ {
        Some(KeyCode::KC_NUMERIC_STAR)
    } else if s == "KC_NUMERIC_POUND"@ {
        Some(KeyCode::KC_NUMERIC_POUND)
    } else if s == "KC_NUMERIC_A"@ {
        Some(KeyCode::KC_NUMERIC_A)
    } else if s == "KC_NUMERIC_B"@ {
        Some(KeyCode::KC_NUMERIC_B)
    } else if s == "KC_NUMERIC_C"@ {
        Some(KeyCode::KC_NUMERIC_C)
    } else if s == "KC_NUMERIC_D"@ {
        Some(KeyCode::KC_NUMERIC_D)
    } else if s == "KC_CAMERA_FOCUS"@ {
        Some(KeyCode::KC_CAMERA_FOCUS)
    } else if s == "KC_WPS_BUTTON"@ {
        Some(KeyCode::KC_WPS_BUTTON)
    } else if s == "KC_TOUCHPAD_TOGGLE"@ {
        Some(KeyCode::KC_TOUCHPAD_TOGGLE)
    } else if s == "KC_TOUCHPAD_ON"@ {
        Some(KeyCode::KC_TOUCHPAD_ON)
    } else if s == "KC_TOUCHPAD_OFF"@ {
        Some(KeyCode::KC_TOUCHPAD_OFF)
    } else if s == "KC_CAMERA_ZOOMIN"@ {
        Some(KeyCode::KC_CAMERA_ZOOMIN)
    } else if s == "KC_CAMERA_ZOOMOUT"@ {
        Some(KeyCode::KC_CAMERA_ZOOMOUT)
    } else if s == "KC_CAMERA_UP"@ {
        Some(KeyCode::KC_CAMERA_UP)
    } else if s == "KC_CAMERA_DOWN"@ {
        Some(KeyCode::KC_CAMERA_DOWN)
    } else if s == "KC_CAMERA_LEFT"@ {
        Some(KeyCode::KC_CAMERA_LEFT)
    } else if s == "KC_CAMERA_RIGHT"@ {
        Some(KeyCode::KC_CAMERA_RIGHT)
    } else if s == "KC_ATTENDANT_ON"@ {
        Some(KeyCode::KC_ATTENDANT_ON)
    } else if s == "KC_ATTENDANT_OFF"@ {
        Some(KeyCode::KC_ATTENDANT_OFF)
    } else if s == "KC_ATTENDANT_TOGGLE"@ {
        Some(KeyCode::KC_ATTENDANT_TOGGLE)
    } else if s == "KC_LIGHTS_TOGGLE"@ {
        Some(KeyCode::KC_LIGHTS_TOGGLE)
    } else {
        None
    }
}

pub open spec fn spec_key_code_by_name_part10(s: Seq<char>) -> Option<KeyCode> {
    if s == "KC_ALS_TOGGLE"@ {
        Some(KeyCode::KC_ALS_TOGGLE)
    } else if s == "KC_ROTATE_LOCK_TOGGLE"@ {
        Some(KeyCode::KC_ROTATE_LOCK_TOGGLE)
    } else if s == "KC_BUTTONCONFIG"@ {
        Some(KeyCode::KC_BUTTONCONFIG)
    } else if s == "KC_TASKMANAGER"@ {
        Some(KeyCode::KC_TASKMANAGER)
    } else if s == "KC_JOURNAL"@ {
        Some(KeyCode::KC_JOURNAL)
    } else if s == "KC_CONTROLPANEL"@ {
        Some(KeyCode::KC_CONTROLPANEL)
    } else if s == "KC_APPSELECT"@ {
        Some(KeyCode::KC_APPSELECT)
    } else if s == "KC_SCREENSAVER"@ {
        Some(KeyCode::KC_SCREENSAVER)
    } else if s == "KC_VOICECOMMAND"@ {
        Some(KeyCode::KC_VOICECOMMAND)
    } else if s == "KC_ASSISTANT"@ {
        Some(KeyCode::KC_ASSISTANT)
    } else if s == "KC_BRIGHTNESS_MIN"@ {
        Some(KeyCode::KC_BRIGHTNESS_MIN)
    } else if s == "KC_BRIGHTNESS_MAX"@ {
        Some(KeyCode::KC_BRIGHTNESS_MAX)
    } else if s == "KC_KBDINPUTASSIST_PREV"@ {
        Some(KeyCode::KC_KBDINPUTASSIST_PREV)
    } else if s == "KC_KBDINPUTASSIST_NEXT"@ {
        Some(KeyCode::KC_KBDINPUTASSIST_NEXT)
    } else if s == "KC_KBDINPUTASSIST_PREVGROUP"@ {
        Some(KeyCode::KC_KBDINPUTASSIST_PREVGROUP)
    } else if s == "KC_KBDINPUTASSIST_NEXTGROUP"@ {
        Some(KeyCode::KC_KBDINPUTASSIST_NEXTGROUP)
    } else if s == "KC_KBDINPUTASSIST_ACCEPT"@ {
        Some(KeyCode::KC_KBDINPUTASSIST_ACCEPT)
    } else if s == "KC_KBDINPUTASSIST_CANCEL"@ {
        Some(KeyCode::KC_KBDINPUTASSIST_CANCEL)
    } else if s == "KC_RIGHT_UP"@ {
        Some(KeyCode::KC_RIGHT_UP)
    } else if s == "KC_RIGHT_DOWN"@ {
        Some(KeyCode::KC_RIGHT_DOWN)
    } else if s == "KC_LEFT_UP"@ {
        Some(KeyCode::KC_LEFT_UP)
    } else if s == "KC_LEFT_DOWN"@ {
        Some(KeyCode::KC_LEFT_DOWN)
    } else if s == "KC_ROOT_MENU"@ {
        Some(KeyCode::KC_ROOT_MENU)
    } else if s == "KC_MEDIA_TOP_MENU"@ {
        Some(KeyCode::KC_MEDIA_TOP_MENU)
    } else if s == "KC_NUMERIC_11"@ {
        Some(KeyCode::KC_NUMERIC_11)
    } else if s == "KC_NUMERIC_12"@ {
        Some(KeyCode::KC_NUMERIC_12)
    } else if s == "KC_AUDIO_DESC"@ {
        Some(KeyCode::KC_AUDIO_DESC)
    } else if s == "KC_3D_MODE"@ {
        Some(KeyCode::KC_3D_MODE)
    } else if s == "KC_NEXT_FAVORITE"@ {
        Some(KeyCode::KC_NEXT_FAVORITE)
    } else if s == "KC_STOP_RECORD"@ {
        Some(KeyCode::KC_STOP_RECORD)
    } else if s == "KC_PAUSE_RECORD"@ {
        Some(KeyCode::KC_PAUSE_RECORD)
    } else if s == "KC_VOD"@ {
        Some(KeyCode::KC_VOD)
    } else if s == "KC_UNMUTE"@ {
        Some(KeyCode::KC_UNMUTE)
    } else if s == "KC_FASTREVERSE"@ {
        Some(KeyCode::KC_FASTREVERSE)
    } else if s == "KC_SLOWREVERSE"@ {
        Some(KeyCode::KC_SLOWREVERSE)
    } else if s == "KC_DATA"@ {
        Some(KeyCode::KC_DATA)
    } else if s == "KC_ONSCREEN_KEYBOARD"@ {
        Some(KeyCode::KC_ONSCREEN_KEYBOARD)
    } else if s == "KC_MAX"@ {
        Some(KeyCode::KC_MAX)
    } else {
        None
    }
}

/// The key a canonical (`KC_`-prefixed) name denotes.
pub open spec fn spec_key_code_by_canonical_name(s: Seq<char>) -> Option<KeyCode> {
    if spec_key_code_by_name_part0(s) is Some {
        spec_key_code_by_name_part0(s)
    } else     if spec_key_code_by_name_part1(s) is Some {
        spec_key_code_by_name_part1(s)
    } else     if spec_key_code_by_name_part2(s) is Some {
        spec_key_code_by_name_part2(s)
    } else     if spec_key_code_by_name_part3(s) is Some {
        spec_key_code_by_name_part3(s)
    } else     if spec_key_code_by_name_part4(s) is Some {
        spec_key_code_by_name_part4(s)
    } else     if spec_key_code_by_name_part5(s) is Some {
        spec_key_code_by_name_part5(s)
    } else     if spec_key_code_by_name_part6(s) is Some {
        spec_key_code_by_name_part6(s)
    } else     if spec_key_code_by_name_part7(s) is Some {
        spec_key_code_by_name_part7(s)
    } else     if spec_key_code_by_name_part8(s) is Some {
        spec_key_code_by_name_part8(s)
    } else     if spec_key_code_by_name_part9(s) is Some {
        spec_key_code_by_name_part9(s)
    } else     if spec_key_code_by_name_part10(s) is Some {
        spec_key_code_by_name_part10(s)
    } else {
        None
    }
}

fn key_code_by_name_part0(s: &str) -> (r: Option<KeyCode>)
    ensures
        r == spec_key_code_by_name_part0(s@),
{
    if str_eq(s, "KC_RESERVED") {
        Some(KeyCode::KC_RESERVED)
    } else if str_eq(s, "KC_ESC") {
        Some(KeyCode::KC_ESC)
    } else if str_eq(s, "KC_1") {
        Some(KeyCode::KC_1)
    } else if str_eq(s, "KC_2") {
        Some(KeyCode::KC_2)
    } else if str_eq(s, "KC_3") {
        Some(KeyCode::KC_3)
    } else if str_eq(s, "KC_4") {
        Some(KeyCode::KC_4)
    } else if str_eq(s, "KC_5") {
        Some(KeyCode::KC_5)
    } else if str_eq(s, "KC_6") {
        Some(KeyCode::KC_6)
    } else if str_eq(s, "KC_7") {
        Some(KeyCode::KC_7)
    } else if str_eq(s, "KC_8") {
        Some(KeyCode::KC_8)
    } else if str_eq(s, "KC_9") {
        Some(KeyCode::KC_9)
    } else if str_eq(s, "KC_0") {
        Some(KeyCode::KC_0)
    } else if str_eq(s, "KC_MINUS") {
        Some(KeyCode::KC_MINUS)
    } else if str_eq(s, "KC_EQUAL") {
        Some(KeyCode::KC_EQUAL)
    } else if str_eq(s, "KC_BACKSPACE") {
        Some(KeyCode::KC_BACKSPACE)
    } else if str_eq(s, "KC_TAB") {
        Some(KeyCode::KC_TAB)
    } else if str_eq(s, "KC_Q") {
        Some(KeyCode::KC_Q)
    } else if str_eq(s, "KC_W") {
        Some(KeyCode::KC_W)
    } else if str_eq(s, "KC_E") {
        Some(KeyCode::KC_E)
    } else if str_eq(s, "KC_R") {
        Some(KeyCode::KC_R)
    } else if str_eq(s, "KC_T") {
        Some(KeyCode::KC_T)
    } else if str_eq(s, "KC_Y") {
        Some(KeyCode::KC_Y)
    } else if str_eq(s, "KC_U") {
        Some(KeyCode::KC_U)
    } else if str_eq(s, "KC_I") {
        Some(KeyCode::KC_I)
    } else if str_eq(s, "KC_O") {
        Some(KeyCode::KC_O)
    } else if str_eq(s, "KC_P") {
        Some(KeyCode::KC_P)
    } else if str_eq(s, "KC_LEFTBRACE") {
        Some(KeyCode::KC_LEFTBRACE)
    } else if str_eq(s, "KC_RIGHTBRACE") {
        Some(KeyCode::KC_RIGHTBRACE)
    } else if str_eq(s, "KC_ENTER") {
        Some(KeyCode::KC_ENTER)
    } else if str_eq(s, "KC_LEFTCTRL") {
        Some(KeyCode::KC_LEFTCTRL)
    } else if str_eq(s, "KC_A") {
        Some(KeyCode::KC_A)
    } else if str_eq(s, "KC_S") {
        Some(KeyCode::KC_S)
    } else if str_eq(s, "KC_D") {
        Some(KeyCode::KC_D)
    } else if str_eq(s, "KC_F") {
        Some(KeyCode::KC_F)
    } else if str_eq(s, "KC_G") {
        Some(KeyCode::KC_G)
    } else if str_eq(s, "KC_H") {
        Some(KeyCode::KC_H)
    } else if str_eq(s, "KC_J") {
        Some(KeyCode::KC_J)
    } else if str_eq(s, "KC_K") {
        Some(KeyCode::KC_K)
    } else if str_eq(s, "KC_L") {
        Some(KeyCode::KC_L)
    } else if str_eq(s, "KC_SEMICOLON") {
        Some(KeyCode::KC_SEMICOLON)
    } else {
        None
    }
}

fn key_code_by_name_part1(s: &str) -> (r: Option<KeyCode>)
    ensures
        r == spec_key_code_by_name_part1(s@),
{
    if str_eq(s, "KC_APOSTROPHE") {
        Some(KeyCode::KC_APOSTROPHE)
    } else if str_eq(s, "KC_GRAVE") {
        Some(KeyCode::KC_GRAVE)
    } else if str_eq(s, "KC_LEFTSHIFT") {
        Some(KeyCode::KC_LEFTSHIFT)
    } else if str_eq(s, "KC_BACKSLASH") {
        Some(KeyCode::KC_BACKSLASH)
    } else if str_eq(s, "KC_Z") {
        Some(KeyCode::KC_Z)
    } else if str_eq(s, "KC_X") {
        Some(KeyCode::KC_X)
    } else if str_eq(s, "KC_C") {
        Some(KeyCode::KC_C)
    } else if str_eq(s, "KC_V") {
        Some(KeyCode::KC_V)
    } else if str_eq(s, "KC_B") {
        Some(KeyCode::KC_B)
    } else if str_eq(s, "KC_N") {
        Some(KeyCode::KC_N)
    } else if str_eq(s, "KC_M") {
        Some(KeyCode::KC_M)
    } else if str_eq(s, "KC_COMMA") {
        Some(KeyCode::KC_COMMA)
    } else if str_eq(s, "KC_DOT") {
        Some(KeyCode::KC_DOT)
    } else if str_eq(s, "KC_SLASH") {
        Some(KeyCode::KC_SLASH)
    } else if str_eq(s, "KC_RIGHTSHIFT") {
        Some(KeyCode::KC_RIGHTSHIFT)
    } else if str_eq(s, "KC_KPASTERISK") {
        Some(KeyCode::KC_KPASTERISK)
    } else if str_eq(s, "KC_LEFTALT") {
        Some(KeyCode::KC_LEFTALT)
    } else if str_eq(s, "KC_SPACE") {
        Some(KeyCode::KC_SPACE)
    } else if str_eq(s, "KC_CAPSLOCK") {
        Some(KeyCode::KC_CAPSLOCK)
    } else if str_eq(s, "KC_F1") {
        Some(KeyCode::KC_F1)
    } else if str_eq(s, "KC_F2") {
        Some(KeyCode::KC_F2)
    } else if str_eq(s, "KC_F3") {
        Some(KeyCode::KC_F3)
    } else if str_eq(s, "KC_F4") {
        Some(KeyCode::KC_F4)
    } else if str_eq(s, "KC_F5") {
        Some(KeyCode::KC_F5)
    } else if str_eq(s, "KC_F6") {
        Some(KeyCode::KC_F6)
    } else if str_eq(s, "KC_F7") {
        Some(KeyCode::KC_F7)
    } else if str_eq(s, "KC_F8") {
        Some(KeyCode::KC_F8)
    } else if str_eq(s, "KC_F9") {
        Some(KeyCode::KC_F9)
    } else if str_eq(s, "KC_F10") {
        Some(KeyCode::KC_F10)
    } else if str_eq(s, "KC_NUMLOCK") {
        Some(KeyCode::KC_NUMLOCK)
    } else if str_eq(s, "KC_SCROLLLOCK") {
        Some(KeyCode::KC_SCROLLLOCK)
    } else if str_eq(s, "KC_KP7") {
        Some(KeyCode::KC_KP7)
    } else if str_eq(s, "KC_KP8") {
        Some(KeyCode::KC_KP8)
    } else if str_eq(s, "KC_KP9") {
        Some(KeyCode::KC_KP9)
    } else if str_eq(s, "KC_KPMINUS") {
        Some(KeyCode::KC_KPMINUS)
    } else if str_eq(s, "KC_KP4") {
        Some(KeyCode::KC_KP4)
    } else if str_eq(s, "KC_KP5") {
        Some(KeyCode::KC_KP5)
    } else if str_eq(s, "KC_KP6") {
        Some(KeyCode::KC_KP6)
    } else if str_eq(s, "KC_KPPLUS") {
        Some(KeyCode::KC_KPPLUS)
    } else if str_eq(s, "KC_KP1") {
        Some(KeyCode::KC_KP1)
    } else {
        None
    }
}

fn key_code_by_name_part2(s: &str) -> (r: Option<KeyCode>)
    ensures
        r == spec_key_code_by_name_part2(s@),
{
    if str_eq(s, "KC_KP2") {
        Some(KeyCode::KC_KP2)
    } else if str_eq(s, "KC_KP3") {
        Some(KeyCode::KC_KP3)
    } else if str_eq(s, "KC_KP0") {
        Some(KeyCode::KC_KP0)
    } else if str_eq(s, "KC_KPDOT") {
        Some(KeyCode::KC_KPDOT)
    } else if str_eq(s, "KC_ZENKAKUHANKAKU") {
        Some(KeyCode::KC_ZENKAKUHANKAKU)
    } else if str_eq(s, "KC_102ND") {
        Some(KeyCode::KC_102ND)
    } else if str_eq(s, "KC_F11") {
        Some(KeyCode::KC_F11)
    } else if str_eq(s, "KC_F12") {
        Some(KeyCode::KC_F12)
    } else if str_eq(s, "KC_RO") {
        Some(KeyCode::KC_RO)
    } else if str_eq(s, "KC_KATAKANA") {
        Some(KeyCode::KC_KATAKANA)
    } else if str_eq(s, "KC_HIRAGANA") {
        Some(KeyCode::KC_HIRAGANA)
    } else if str_eq(s, "KC_HENKAN") {
        Some(KeyCode::KC_HENKAN)
    } else if str_eq(s, "KC_KATAKANAHIRAGANA") {
        Some(KeyCode::KC_KATAKANAHIRAGANA)
    } else if str_eq(s, "KC_MUHENKAN") {
        Some(KeyCode::KC_MUHENKAN)
    } else if str_eq(s, "KC_KPJPCOMMA") {
        Some(KeyCode::KC_KPJPCOMMA)
    } else if str_eq(s, "KC_KPENTER") {
        Some(KeyCode::KC_KPENTER)
    } else if str_eq(s, "KC_RIGHTCTRL") {
        Some(KeyCode::KC_RIGHTCTRL)
    } else if str_eq(s, "KC_KPSLASH") {
        Some(KeyCode::KC_KPSLASH)
    } else if str_eq(s, "KC_SYSRQ") {
        Some(KeyCode::KC_SYSRQ)
    } else if str_eq(s, "KC_RIGHTALT") {
        Some(KeyCode::KC_RIGHTALT)
    } else if str_eq(s, "KC_LINEFEED") {
        Some(KeyCode::KC_LINEFEED)
    } else if str_eq(s, "KC_HOME") {
        Some(KeyCode::KC_HOME)
    } else if str_eq(s, "KC_UP") {
        Some(KeyCode::KC_UP)
    } else if str_eq(s, "KC_PAGEUP") {
        Some(KeyCode::KC_PAGEUP)
    } else if str_eq(s, "KC_LEFT") {
        Some(KeyCode::KC_LEFT)
    } else if str_eq(s, "KC_RIGHT") {
        Some(KeyCode::KC_RIGHT)
    } else if str_eq(s, "KC_END") {
        Some(KeyCode::KC_END)
    } else if str_eq(s, "KC_DOWN") {
        Some(KeyCode::KC_DOWN)
    } else if str_eq(s, "KC_PAGEDOWN") {
        Some(KeyCode::KC_PAGEDOWN)
    } else if str_eq(s, "KC_INSERT") {
        Some(KeyCode::KC_INSERT)
    } else if str_eq(s, "KC_DELETE") {
        Some(KeyCode::KC_DELETE)
    } else if str_eq(s, "KC_MACRO") {
        Some(KeyCode::KC_MACRO)
    } else if str_eq(s, "KC_MUTE") {
        Some(KeyCode::KC_MUTE)
    } else if str_eq(s, "KC_VOLUMEDOWN") {
        Some(KeyCode::KC_VOLUMEDOWN)
    } else if str_eq(s, "KC_VOLUMEUP") {
        Some(KeyCode::KC_VOLUMEUP)
    } else if str_eq(s, "KC_POWER") {
        Some(KeyCode::KC_POWER)
    } else if str_eq(s, "KC_KPEQUAL") {
        Some(KeyCode::KC_KPEQUAL)
    } else if str_eq(s, "KC_KPPLUSMINUS") {
        Some(KeyCode::KC_KPPLUSMINUS)
    } else if str_eq(s, "KC_PAUSE") {
        Some(KeyCode::KC_PAUSE)
    } else if str_eq(s, "KC_SCALE") {
        Some(KeyCode::KC_SCALE)
    } else {
        None
    }
}

fn key_code_by_name_part3(s: &str) -> (r: Option<KeyCode>)
    ensures
        r == spec_key_code_by_name_part3(s@),
{
    if str_eq(s, "KC_KPCOMMA") {
        Some(KeyCode::KC_KPCOMMA)
    } else if str_eq(s, "KC_HANGEUL") {
        Some(KeyCode::KC_HANGEUL)
    } else if str_eq(s, "KC_HANJA") {
        Some(KeyCode::KC_HANJA)
    } else if str_eq(s, "KC_YEN") {
        Some(KeyCode::KC_YEN)
    } else if str_eq(s, "KC_LEFTMETA") {
        Some(KeyCode::KC_LEFTMETA)
    } else if str_eq(s, "KC_RIGHTMETA") {
        Some(KeyCode::KC_RIGHTMETA)
    } else if str_eq(s, "KC_COMPOSE") {
        Some(KeyCode::KC_COMPOSE)
    } else if str_eq(s, "KC_STOP") {
        Some(KeyCode::KC_STOP)
    } else if str_eq(s, "KC_AGAIN") {
        Some(KeyCode::KC_AGAIN)
    } else if str_eq(s, "KC_PROPS") {
        Some(KeyCode::KC_PROPS)
    } else if str_eq(s, "KC_UNDO") {
        Some(KeyCode::KC_UNDO)
    } else if str_eq(s, "KC_FRONT") {
        Some(KeyCode::KC_FRONT)
    } else if str_eq(s, "KC_COPY") {
        Some(KeyCode::KC_COPY)
    } else if str_eq(s, "KC_OPEN") {
        Some(KeyCode::KC_OPEN)
    } else if str_eq(s, "KC_PASTE") {
        Some(KeyCode::KC_PASTE)
    } else if str_eq(s, "KC_FIND") {
        Some(KeyCode::KC_FIND)
    } else if str_eq(s, "KC_CUT") {
        Some(KeyCode::KC_CUT)
    } else if str_eq(s, "KC_HELP") {
        Some(KeyCode::KC_HELP)
    } else if str_eq(s, "KC_MENU") {
        Some(KeyCode::KC_MENU)
    } else if str_eq(s, "KC_CALC") {
        Some(KeyCode::KC_CALC)
    } else if str_eq(s, "KC_SETUP") {
        Some(KeyCode::KC_SETUP)
    } else if str_eq(s, "KC_SLEEP") {
        Some(KeyCode::KC_SLEEP)
    } else if str_eq(s, "KC_WAKEUP") {
        Some(KeyCode::KC_WAKEUP)
    } else if str_eq(s, "KC_FILE") {
        Some(KeyCode::KC_FILE)
    } else if str_eq(s, "KC_SENDFILE") {
        Some(KeyCode::KC_SENDFILE)
    } else if str_eq(s, "KC_DELETEFILE") {
        Some(KeyCode::KC_DELETEFILE)
    } else if str_eq(s, "KC_XFER") {
        Some(KeyCode::KC_XFER)
    } else if str_eq(s, "KC_PROG1") {
        Some(KeyCode::KC_PROG1)
    } else if str_eq(s, "KC_PROG2") {
        Some(KeyCode::KC_PROG2)
    } else if str_eq(s, "KC_WWW") {
        Some(KeyCode::KC_WWW)
    } else if str_eq(s, "KC_MSDOS") {
        Some(KeyCode::KC_MSDOS)
    } else if str_eq(s, "KC_COFFEE") {
        Some(KeyCode::KC_COFFEE)
    } else if str_eq(s, "KC_ROTATE_DISPLAY") {
        Some(KeyCode::KC_ROTATE_DISPLAY)
    } else if str_eq(s, "KC_CYCLEWINDOWS") {
        Some(KeyCode::KC_CYCLEWINDOWS)
    } else if str_eq(s, "KC_MAIL") {
        Some(KeyCode::KC_MAIL)
    } else if str_eq(s, "KC_BOOKMARKS") {
        Some(KeyCode::KC_BOOKMARKS)
    } else if str_eq(s, "KC_COMPUTER") {
        Some(KeyCode::KC_COMPUTER)
    } else if str_eq(s, "KC_BACK") {
        Some(KeyCode::KC_BACK)
    } else if str_eq(s, "KC_FORWARD") {
        Some(KeyCode::KC_FORWARD)
    } else if str_eq(s, "KC_CLOSECD") {
        Some(KeyCode::KC_CLOSECD)
    } else {
        None
    }
}

fn key_code_by_name_part4(s: &str) -> (r: Option<KeyCode>)
    ensures
        r == spec_key_code_by_name_part4(s@),
{
    if str_eq(s, "KC_EJECTCD") {
        Some(KeyCode::KC_EJECTCD)
    } else if str_eq(s, "KC_EJECTCLOSECD") {
        Some(KeyCode::KC_EJECTCLOSECD)
    } else if str_eq(s, "KC_NEXTSONG") {
        Some(KeyCode::KC_NEXTSONG)
    } else if str_eq(s, "KC_PLAYPAUSE") {
        Some(KeyCode::KC_PLAYPAUSE)
    } else if str_eq(s, "KC_PREVIOUSSONG") {
        Some(KeyCode::KC_PREVIOUSSONG)
    } else if str_eq(s, "KC_STOPCD") {
        Some(KeyCode::KC_STOPCD)
    } else if str_eq(s, "KC_RECORD") {
        Some(KeyCode::KC_RECORD)
    } else if str_eq(s, "KC_REWIND") {
        Some(KeyCode::KC_REWIND)
    } else if str_eq(s, "KC_PHONE") {
        Some(KeyCode::KC_PHONE)
    } else if str_eq(s, "KC_ISO") {
        Some(KeyCode::KC_ISO)
    } else if str_eq(s, "KC_CONFIG") {
        Some(KeyCode::KC_CONFIG)
    } else if str_eq(s, "KC_HOMEPAGE") {
        Some(KeyCode::KC_HOMEPAGE)
    } else if str_eq(s, "KC_REFRESH") {
        Some(KeyCode::KC_REFRESH)
    } else if str_eq(s, "KC_EXIT") {
        Some(KeyCode::KC_EXIT)
    } else if str_eq(s, "KC_MOVE") {
        Some(KeyCode::KC_MOVE)
    } else if str_eq(s, "KC_EDIT") {
        Some(KeyCode::KC_EDIT)
    } else if str_eq(s, "KC_SCROLLUP") {
        Some(KeyCode::KC_SCROLLUP)
    } else if str_eq(s, "KC_SCROLLDOWN") {
        Some(KeyCode::KC_SCROLLDOWN)
    } else if str_eq(s, "KC_KPLEFTPAREN") {
        Some(KeyCode::KC_KPLEFTPAREN)
    } else if str_eq(s, "KC_KPRIGHTPAREN") {
        Some(KeyCode::KC_KPRIGHTPAREN)
    } else if str_eq(s, "KC_NEW") {
        Some(KeyCode::KC_NEW)
    } else if str_eq(s, "KC_REDO") {
        Some(KeyCode::KC_REDO)
    } else if str_eq(s, "KC_F13") {
        Some(KeyCode::KC_F13)
    } else if str_eq(s, "KC_F14") {
        Some(KeyCode::KC_F14)
    } else if str_eq(s, "KC_F15") {
        Some(KeyCode::KC_F15)
    } else if str_eq(s, "KC_F16") {
        Some(KeyCode::KC_F16)
    } else if str_eq(s, "KC_F17") {
        Some(KeyCode::KC_F17)
    } else if str_eq(s, "KC_F18") {
        Some(KeyCode::KC_F18)
    } else if str_eq(s, "KC_F19") {
        Some(KeyCode::KC_F19)
    } else if str_eq(s, "KC_F20") {
        Some(KeyCode::KC_F20)
    } else if str_eq(s, "KC_F21") {
        Some(KeyCode::KC_F21)
    } else if str_eq(s, "KC_F22") {
        Some(KeyCode::KC_F22)
    } else if str_eq(s, "KC_F23") {
        Some(KeyCode::KC_F23)
    } else if str_eq(s, "KC_F24") {
        Some(KeyCode::KC_F24)
    } else if str_eq(s, "KC_PLAYCD") {
        Some(KeyCode::KC_PLAYCD)
    } else if str_eq(s, "KC_PAUSECD") {
        Some(KeyCode::KC_PAUSECD)
    } else if str_eq(s, "KC_PROG3") {
        Some(KeyCode::KC_PROG3)
    } else if str_eq(s, "KC_PROG4") {
        Some(KeyCode::KC_PROG4)
    } else if str_eq(s, "KC_DASHBOARD") {
        Some(KeyCode::KC_DASHBOARD)
    } else if str_eq(s, "KC_SUSPEND") {
        Some(KeyCode::KC_SUSPEND)
    } else {
        None
    }
}

fn key_code_by_name_part5(s: &str) -> (r: Option<KeyCode>)
    ensures
        r == spec_key_code_by_name_part5(s@),
{
    if str_eq(s, "KC_CLOSE") {
        Some(KeyCode::KC_CLOSE)
    } else if str_eq(s, "KC_PLAY") {
        Some(KeyCode::KC_PLAY)
    } else if str_eq(s, "KC_FASTFORWARD") {
        Some(KeyCode::KC_FASTFORWARD)
    } else if str_eq(s, "KC_BASSBOOST") {
        Some(KeyCode::KC_BASSBOOST)
    } else if str_eq(s, "KC_PRINT") {
        Some(KeyCode::KC_PRINT)
    } else if str_eq(s, "KC_HP") {
        Some(KeyCode::KC_HP)
    } else if str_eq(s, "KC_CAMERA") {
        Some(KeyCode::KC_CAMERA)
    } else if str_eq(s, "KC_SOUND") {
        Some(KeyCode::KC_SOUND)
    } else if str_eq(s, "KC_QUESTION") {
        Some(KeyCode::KC_QUESTION)
    } else if str_eq(s, "KC_EMAIL") {
        Some(KeyCode::KC_EMAIL)
    } else if str_eq(s, "KC_CHAT") {
        Some(KeyCode::KC_CHAT)
    } else if str_eq(s, "KC_SEARCH") {
        Some(KeyCode::KC_SEARCH)
    } else if str_eq(s, "KC_CONNECT") {
        Some(KeyCode::KC_CONNECT)
    } else if str_eq(s, "KC_FINANCE") {
        Some(KeyCode::KC_FINANCE)
    } else if str_eq(s, "KC_SPORT") {
        Some(KeyCode::KC_SPORT)
    } else if str_eq(s, "KC_SHOP") {
        Some(KeyCode::KC_SHOP)
    } else if str_eq(s, "KC_ALTERASE") {
        Some(KeyCode::KC_ALTERASE)
    } else if str_eq(s, "KC_CANCEL") {
        Some(KeyCode::KC_CANCEL)
    } else if str_eq(s, "KC_BRIGHTNESSDOWN") {
        Some(KeyCode::KC_BRIGHTNESSDOWN)
    } else if str_eq(s, "KC_BRIGHTNESSUP") {
        Some(KeyCode::KC_BRIGHTNESSUP)
    } else if str_eq(s, "KC_MEDIA") {
        Some(KeyCode::KC_MEDIA)
    } else if str_eq(s, "KC_SWITCHVIDEOMODE") {
        Some(KeyCode::KC_SWITCHVIDEOMODE)
    } else if str_eq(s, "KC_KBDILLUMTOGGLE") {
        Some(KeyCode::KC_KBDILLUMTOGGLE)
    } else if str_eq(s, "KC_KBDILLUMDOWN") {
        Some(KeyCode::KC_KBDILLUMDOWN)
    } else if str_eq(s, "KC_KBDILLUMUP") {
        Some(KeyCode::KC_KBDILLUMUP)
    } else if str_eq(s, "KC_SEND") {
        Some(KeyCode::KC_SEND)
    } else if str_eq(s, "KC_REPLY") {
        Some(KeyCode::KC_REPLY)
    } else if str_eq(s, "KC_FORWARDMAIL") {
        Some(KeyCode::KC_FORWARDMAIL)
    } else if str_eq(s, "KC_SAVE") {
        Some(KeyCode::KC_SAVE)
    } else if str_eq(s, "KC_DOCUMENTS") {
        Some(KeyCode::KC_DOCUMENTS)
    } else if str_eq(s, "KC_BATTERY") {
        Some(KeyCode::KC_BATTERY)
    } else if str_eq(s, "KC_BLUETOOTH") {
        Some(KeyCode::KC_BLUETOOTH)
    } else if str_eq(s, "KC_WLAN") {
        Some(KeyCode::KC_WLAN)
    } else if str_eq(s, "KC_UWB") {
        Some(KeyCode::KC_UWB)
    } else if str_eq(s, "KC_UNKNOWN") {
        Some(KeyCode::KC_UNKNOWN)
    } else if str_eq(s, "KC_VIDEO_NEXT") {
        Some(KeyCode::KC_VIDEO_NEXT)
    } else if str_eq(s, "KC_VIDEO_PREV") {
        Some(KeyCode::KC_VIDEO_PREV)
    } else if str_eq(s, "KC_BRIGHTNESS_CYCLE") {
        Some(KeyCode::KC_BRIGHTNESS_CYCLE)
    } else if str_eq(s, "KC_BRIGHTNESS_AUTO") {
        Some(KeyCode::KC_BRIGHTNESS_AUTO)
    } else if str_eq(s, "KC_DISPLAY_OFF") {
        Some(KeyCode::KC_DISPLAY_OFF)
    } else {
        None
    }
}

fn key_code_by_name_part6(s: &str) -> (r: Option<KeyCode>)
    ensures
        r == spec_key_code_by_name_part6(s@),
{
    if str_eq(s, "KC_WWAN") {
        Some(KeyCode::KC_WWAN)
    } else if str_eq(s, "KC_RFKILL") {
        Some(KeyCode::KC_RFKILL)
    } else if str_eq(s, "KC_MICMUTE") {
        Some(KeyCode::KC_MICMUTE)
    } else if str_eq(s, "KC_OK") {
        Some(KeyCode::KC_OK)
    } else if str_eq(s, "KC_SELECT") {
        Some(KeyCode::KC_SELECT)
    } else if str_eq(s, "KC_GOTO") {
        Some(KeyCode::KC_GOTO)
    } else if str_eq(s, "KC_CLEAR") {
        Some(KeyCode::KC_CLEAR)
    } else if str_eq(s, "KC_POWER2") {
        Some(KeyCode::KC_POWER2)
    } else if str_eq(s, "KC_OPTION") {
        Some(KeyCode::KC_OPTION)
    } else if str_eq(s, "KC_INFO") {
        Some(KeyCode::KC_INFO)
    } else if str_eq(s, "KC_TIME") {
        Some(KeyCode::KC_TIME)
    } else if str_eq(s, "KC_VENDOR") {
        Some(KeyCode::KC_VENDOR)
    } else if str_eq(s, "KC_ARCHIVE") {
        Some(KeyCode::KC_ARCHIVE)
    } else if str_eq(s, "KC_PROGRAM") {
        Some(KeyCode::KC_PROGRAM)
    } else if str_eq(s, "KC_CHANNEL") {
        Some(KeyCode::KC_CHANNEL)
    } else if str_eq(s, "KC_FAVORITES") {
        Some(KeyCode::KC_FAVORITES)
    } else if str_eq(s, "KC_EPG") {
        Some(KeyCode::KC_EPG)
    } else if str_eq(s, "KC_PVR") {
        Some(KeyCode::KC_PVR)
    } else if str_eq(s, "KC_MHP") {
        Some(KeyCode::KC_MHP)
    } else if str_eq(s, "KC_LANGUAGE") {
        Some(KeyCode::KC_LANGUAGE)
    } else if str_eq(s, "KC_TITLE") {
        Some(KeyCode::KC_TITLE)
    } else if str_eq(s, "KC_SUBTITLE") {
        Some(KeyCode::KC_SUBTITLE)
    } else if str_eq(s, "KC_ANGLE") {
        Some(KeyCode::KC_ANGLE)
    } else if str_eq(s, "KC_FULL_SCREEN") {
        Some(KeyCode::KC_FULL_SCREEN)
    } else if str_eq(s, "KC_MODE") {
        Some(KeyCode::KC_MODE)
    } else if str_eq(s, "KC_KEYBOARD") {
        Some(KeyCode::KC_KEYBOARD)
    } else if str_eq(s, "KC_ASPECT_RATIO") {
        Some(KeyCode::KC_ASPECT_RATIO)
    } else if str_eq(s, "KC_PC") {
        Some(KeyCode::KC_PC)
    } else if str_eq(s, "KC_TV") {
        Some(KeyCode::KC_TV)
    } else if str_eq(s, "KC_TV2") {
        Some(KeyCode::KC_TV2)
    } else if str_eq(s, "KC_VCR") {
        Some(KeyCode::KC_VCR)
    } else if str_eq(s, "KC_VCR2") {
        Some(KeyCode::KC_VCR2)
    } else if str_eq(s, "KC_SAT") {
        Some(KeyCode::KC_SAT)
    } else if str_eq(s, "KC_SAT2") {
        Some(KeyCode::KC_SAT2)
    } else if str_eq(s, "KC_CD") {
        Some(KeyCode::KC_CD)
    } else if str_eq(s, "KC_TAPE") {
        Some(KeyCode::KC_TAPE)
    } else if str_eq(s, "KC_RADIO") {
        Some(KeyCode::KC_RADIO)
    } else if str_eq(s, "KC_TUNER") {
        Some(KeyCode::KC_TUNER)
    } else if str_eq(s, "KC_PLAYER") {
        Some(KeyCode::KC_PLAYER)
    } else if str_eq(s, "KC_TEXT") {
        Some(KeyCode::KC_TEXT)
    } else {
        None
    }
}

fn key_code_by_name_part7(s: &str) -> (r: Option<KeyCode>)
    ensures
        r == spec_key_code_by_name_part7(s@),
{
    if str_eq(s, "KC_DVD") {
        Some(KeyCode::KC_DVD)
    } else if str_eq(s, "KC_AUX") {
        Some(KeyCode::KC_AUX)
    } else if str_eq(s, "KC_MP3") {
        Some(KeyCode::KC_MP3)
    } else if str_eq(s, "KC_AUDIO") {
        Some(KeyCode::KC_AUDIO)
    } else if str_eq(s, "KC_VIDEO") {
        Some(KeyCode::KC_VIDEO)
    } else if str_eq(s, "KC_DIRECTORY") {
        Some(KeyCode::KC_DIRECTORY)
    } else if str_eq(s, "KC_LIST") {
        Some(KeyCode::KC_LIST)
    } else if str_eq(s, "KC_MEMO") {
        Some(KeyCode::KC_MEMO)
    } else if str_eq(s, "KC_CALENDAR") {
        Some(KeyCode::KC_CALENDAR)
    } else if str_eq(s, "KC_RED") {
        Some(KeyCode::KC_RED)
    } else if str_eq(s, "KC_GREEN") {
        Some(KeyCode::KC_GREEN)
    } else if str_eq(s, "KC_YELLOW") {
        Some(KeyCode::KC_YELLOW)
    } else if str_eq(s, "KC_BLUE") {
        Some(KeyCode::KC_BLUE)
    } else if str_eq(s, "KC_CHANNELUP") {
        Some(KeyCode::KC_CHANNELUP)
    } else if str_eq(s, "KC_CHANNELDOWN") {
        Some(KeyCode::KC_CHANNELDOWN)
    } else if str_eq(s, "KC_FIRST") {
        Some(KeyCode::KC_FIRST)
    } else if str_eq(s, "KC_LAST") {
        Some(KeyCode::KC_LAST)
    } else if str_eq(s, "KC_AB") {
        Some(KeyCode::KC_AB)
    } else if str_eq(s, "KC_NEXT") {
        Some(KeyCode::KC_NEXT)
    } else if str_eq(s, "KC_RESTART") {
        Some(KeyCode::KC_RESTART)
    } else if str_eq(s, "KC_SLOW") {
        Some(KeyCode::KC_SLOW)
    } else if str_eq(s, "KC_SHUFFLE") {
        Some(KeyCode::KC_SHUFFLE)
    } else if str_eq(s, "KC_BREAK") {
        Some(KeyCode::KC_BREAK)
    } else if str_eq(s, "KC_PREVIOUS") {
        Some(KeyCode::KC_PREVIOUS)
    } else if str_eq(s, "KC_DIGITS") {
        Some(KeyCode::KC_DIGITS)
    } else if str_eq(s, "KC_TEEN") {
        Some(KeyCode::KC_TEEN)
    } else if str_eq(s, "KC_TWEN") {
        Some(KeyCode::KC_TWEN)
    } else if str_eq(s, "KC_VIDEOPHONE") {
        Some(KeyCode::KC_VIDEOPHONE)
    } else if str_eq(s, "KC_GAMES") {
        Some(KeyCode::KC_GAMES)
    } else if str_eq(s, "KC_ZOOMIN") {
        Some(KeyCode::KC_ZOOMIN)
    } else if str_eq(s, "KC_ZOOMOUT") {
        Some(KeyCode::KC_ZOOMOUT)
    } else if str_eq(s, "KC_ZOOMRESET") {
        Some(KeyCode::KC_ZOOMRESET)
    } else if str_eq(s, "KC_WORDPROCESSOR") {
        Some(KeyCode::KC_WORDPROCESSOR)
    } else if str_eq(s, "KC_EDITOR") {
        Some(KeyCode::KC_EDITOR)
    } else if str_eq(s, "KC_SPREADSHEET") {
        Some(KeyCode::KC_SPREADSHEET)
    } else if str_eq(s, "KC_GRAPHICSEDITOR") {
        Some(KeyCode::KC_GRAPHICSEDITOR)
    } else if str_eq(s, "KC_PRESENTATION") {
        Some(KeyCode::KC_PRESENTATION)
    } else if str_eq(s, "KC_DATABASE") {
        Some(KeyCode::KC_DATABASE)
    } else if str_eq(s, "KC_NEWS") {
        Some(KeyCode::KC_NEWS)
    } else if str_eq(s, "KC_VOICEMAIL") {
        Some(KeyCode::KC_VOICEMAIL)
    } else {
        None
    }
}

fn key_code_by_name_part8(s: &str) -> (r: Option<KeyCode>)
    ensures
        r == spec_key_code_by_name_part8(s@),
{
    if str_eq(s, "KC_ADDRESSBOOK") {
        Some(KeyCode::KC_ADDRESSBOOK)
    } else if str_eq(s, "KC_MESSENGER") {
        Some(KeyCode::KC_MESSENGER)
    } else if str_eq(s, "KC_DISPLAYTOGGLE") {
        Some(KeyCode::KC_DISPLAYTOGGLE)
    } else if str_eq(s, "KC_SPELLCHECK") {
        Some(KeyCode::KC_SPELLCHECK)
    } else if str_eq(s, "KC_LOGOFF") {
        Some(KeyCode::KC_LOGOFF)
    } else if str_eq(s, "KC_DOLLAR") {
        Some(KeyCode::KC_DOLLAR)
    } else if str_eq(s, "KC_EURO") {
        Some(KeyCode::KC_EURO)
    } else if str_eq(s, "KC_FRAMEBACK") {
        Some(KeyCode::KC_FRAMEBACK)
    } else if str_eq(s, "KC_FRAMEFORWARD") {
        Some(KeyCode::KC_FRAMEFORWARD)
    } else if str_eq(s, "KC_CONTEXT_MENU") {
        Some(KeyCode::KC_CONTEXT_MENU)
    } else if str_eq(s, "KC_MEDIA_REPEAT") {
        Some(KeyCode::KC_MEDIA_REPEAT)
    } else if str_eq(s, "KC_10CHANNELSUP") {
        Some(KeyCode::KC_10CHANNELSUP)
    } else if str_eq(s, "KC_10CHANNELSDOWN") {
        Some(KeyCode::KC_10CHANNELSDOWN)
    } else if str_eq(s, "KC_IMAGES") {
        Some(KeyCode::KC_IMAGES)
    } else if str_eq(s, "KC_DEL_EOL") {
        Some(KeyCode::KC_DEL_EOL)
    } else if str_eq(s, "KC_DEL_EOS") {
        Some(KeyCode::KC_DEL_EOS)
    } else if str_eq(s, "KC_INS_LINE") {
        Some(KeyCode::KC_INS_LINE)
    } else if str_eq(s, "KC_DEL_LINE") {
        Some(KeyCode::KC_DEL_LINE)
    } else if str_eq(s, "KC_FN") {
        Some(KeyCode::KC_FN)
    } else if str_eq(s, "KC_FN_ESC") {
        Some(KeyCode::KC_FN_ESC)
    } else if str_eq(s, "KC_FN_F1") {
        Some(KeyCode::KC_FN_F1)
    } else if str_eq(s, "KC_FN_F2") {
        Some(KeyCode::KC_FN_F2)
    } else if str_eq(s, "KC_FN_F3") {
        Some(KeyCode::KC_FN_F3)
    } else if str_eq(s, "KC_FN_F4") {
        Some(KeyCode::KC_FN_F4)
    } else if str_eq(s, "KC_FN_F5") {
        Some(KeyCode::KC_FN_F5)
    } else if str_eq(s, "KC_FN_F6") {
        Some(KeyCode::KC_FN_F6)
    } else if str_eq(s, "KC_FN_F7") {
        Some(KeyCode::KC_FN_F7)
    } else if str_eq(s, "KC_FN_F8") {
        Some(KeyCode::KC_FN_F8)
    } else if str_eq(s, "KC_FN_F9") {
        Some(KeyCode::KC_FN_F9)
    } else if str_eq(s, "KC_FN_F10") {
        Some(KeyCode::KC_FN_F10)
    } else if str_eq(s, "KC_FN_F11") {
        Some(KeyCode::KC_FN_F11)
    } else if str_eq(s, "KC_FN_F12") {
        Some(KeyCode::KC_FN_F12)
    } else if str_eq(s, "KC_FN_1") {
        Some(KeyCode::KC_FN_1)
    } else if str_eq(s, "KC_FN_2") {
        Some(KeyCode::KC_FN_2)
    } else if str_eq(s, "KC_FN_D") {
        Some(KeyCode::KC_FN_D)
    } else if str_eq(s, "KC_FN_E") {
        Some(KeyCode::KC_FN_E)
    } else if str_eq(s, "KC_FN_F") {
        Some(KeyCode::KC_FN_F)
    } else if str_eq(s, "KC_FN_S") {
        Some(KeyCode::KC_FN_S)
    } else if str_eq(s, "KC_FN_B") {
        Some(KeyCode::KC_FN_B)
    } else if str_eq(s, "KC_BRL_DOT1") {
        Some(KeyCode::KC_BRL_DOT1)
    } else {
        None
    }
}

fn key_code_by_name_part9(s: &str) -> (r: Option<KeyCode>)
    ensures
        r == spec_key_code_by_name_part9(s@),
{
    if str_eq(s, "KC_BRL_DOT2") {
        Some(KeyCode::KC_BRL_DOT2)
    } else if str_eq(s, "KC_BRL_DOT3") {
        Some(KeyCode::KC_BRL_DOT3)
    } else if str_eq(s, "KC_BRL_DOT4") {
        Some(KeyCode::KC_BRL_DOT4)
    } else if str_eq(s, "KC_BRL_DOT5") {
        Some(KeyCode::KC_BRL_DOT5)
    } else if str_eq(s, "KC_BRL_DOT6") {
        Some(KeyCode::KC_BRL_DOT6)
    } else if str_eq(s, "KC_BRL_DOT7") {
        Some(KeyCode::KC_BRL_DOT7)
    } else if str_eq(s, "KC_BRL_DOT8") {
        Some(KeyCode::KC_BRL_DOT8)
    } else if str_eq(s, "KC_BRL_DOT9") {
        Some(KeyCode::KC_BRL_DOT9)
    } else if str_eq(s, "KC_BRL_DOT10") {
        Some(KeyCode::KC_BRL_DOT10)
    } else if str_eq(s, "KC_NUMERIC_0") {
        Some(KeyCode::KC_NUMERIC_0)
    } else if str_eq(s, "KC_NUMERIC_1") {
        Some(KeyCode::KC_NUMERIC_1)
    } else if str_eq(s, "KC_NUMERIC_2") {
        Some(KeyCode::KC_NUMERIC_2)
    } else if str_eq(s, "KC_NUMERIC_3") {
        Some(KeyCode::KC_NUMERIC_3)
    } else if str_eq(s, "KC_NUMERIC_4") {
        Some(KeyCode::KC_NUMERIC_4)
    } else if str_eq(s, "KC_NUMERIC_5") {
        Some(KeyCode::KC_NUMERIC_5)
    } else if str_eq(s, "KC_NUMERIC_6") {
        Some(KeyCode::KC_NUMERIC_6)
    } else if str_eq(s, "KC_NUMERIC_7") {
        Some(KeyCode::KC_NUMERIC_7)
    } else if str_eq(s, "KC_NUMERIC_8") {
        Some(KeyCode::KC_NUMERIC_8)
    } else if str_eq(s, "KC_NUMERIC_9") {
        Some(KeyCode::KC_NUMERIC_9)
    } else if str_eq(s, "KC_NUMERIC_STAR") {
        Some(KeyCode::KC_NUMERIC_STAR)
    } else if str_eq(s, "KC_NUMERIC_POUND") {
        Some(KeyCode::KC_NUMERIC_POUND)
    } else if str_eq(s, "KC_NUMERIC_A") {
        Some(KeyCode::KC_NUMERIC_A)
    } else if str_eq(s, "KC_NUMERIC_B") {
        Some(KeyCode::KC_NUMERIC_B)
    } else if str_eq(s, "KC_NUMERIC_C") {
        Some(KeyCode::KC_NUMERIC_C)
    } else if str_eq(s, "KC_NUMERIC_D") {
        Some(KeyCode::KC_NUMERIC_D)
    } else if str_eq(s, "KC_CAMERA_FOCUS") {
        Some(KeyCode::KC_CAMERA_FOCUS)
    } else if str_eq(s, "KC_WPS_BUTTON") {
        Some(KeyCode::KC_WPS_BUTTON)
    } else if str_eq(s, "KC_TOUCHPAD_TOGGLE") {
        Some(KeyCode::KC_TOUCHPAD_TOGGLE)
    } else if str_eq(s, "KC_TOUCHPAD_ON") {
        Some(KeyCode::KC_TOUCHPAD_ON)
    } else if str_eq(s, "KC_TOUCHPAD_OFF") {
        Some(KeyCode::KC_TOUCHPAD_OFF)
    } else if str_eq(s, "KC_CAMERA_ZOOMIN") {
        Some(KeyCode::KC_CAMERA_ZOOMIN)
    } else if str_eq(s, "KC_CAMERA_ZOOMOUT") {
        Some(KeyCode::KC_CAMERA_ZOOMOUT)
    } else if str_eq(s, "KC_CAMERA_UP") {
        Some(KeyCode::KC_CAMERA_UP)
    } else if str_eq(s, "KC_CAMERA_DOWN") {
        Some(KeyCode::KC_CAMERA_DOWN)
    } else if str_eq(s, "KC_CAMERA_LEFT") {
        Some(KeyCode::KC_CAMERA_LEFT)
    } else if str_eq(s, "KC_CAMERA_RIGHT") {
        Some(KeyCode::KC_CAMERA_RIGHT)
    } else if str_eq(s, "KC_ATTENDANT_ON") {
        Some(KeyCode::KC_ATTENDANT_ON)
    } else if str_eq(s, "KC_ATTENDANT_OFF") {
        Some(KeyCode::KC_ATTENDANT_OFF)
    } else if str_eq(s, "KC_ATTENDANT_TOGGLE") {
        Some(KeyCode::KC_ATTENDANT_TOGGLE)
    } else if str_eq(s, "KC_LIGHTS_TOGGLE") {
        Some(KeyCode::KC_LIGHTS_TOGGLE)
    } else {
        None
    }
}

fn key_code_by_name_part10(s: &str) -> (r: Option<KeyCode>)
    ensures
        r == spec_key_code_by_name_part10(s@),
{
    if str_eq(s, "KC_ALS_TOGGLE") {
        Some(KeyCode::KC_ALS_TOGGLE)
    } else if str_eq(s, "KC_ROTATE_LOCK_TOGGLE") {
        Some(KeyCode::KC_ROTATE_LOCK_TOGGLE)
    } else if str_eq(s, "KC_BUTTONCONFIG") {
        Some(KeyCode::KC_BUTTONCONFIG)
    } else if str_eq(s, "KC_TASKMANAGER") {
        Some(KeyCode::KC_TASKMANAGER)
    } else if str_eq(s, "KC_JOURNAL") {
        Some(KeyCode::KC_JOURNAL)
    } else if str_eq(s, "KC_CONTROLPANEL") {
        Some(KeyCode::KC_CONTROLPANEL)
    } else if str_eq(s, "KC_APPSELECT") {
        Some(KeyCode::KC_APPSELECT)
    } else if str_eq(s, "KC_SCREENSAVER") {
        Some(KeyCode::KC_SCREENSAVER)
    } else if str_eq(s, "KC_VOICECOMMAND") {
        Some(KeyCode::KC_VOICECOMMAND)
    } else if str_eq(s, "KC_ASSISTANT") {
        Some(KeyCode::KC_ASSISTANT)
    } else if str_eq(s, "KC_BRIGHTNESS_MIN") {
        Some(KeyCode::KC_BRIGHTNESS_MIN)
    } else if str_eq(s, "KC_BRIGHTNESS_MAX") {
        Some(KeyCode::KC_BRIGHTNESS_MAX)
    } else if str_eq(s, "KC_KBDINPUTASSIST_PREV") {
        Some(KeyCode::KC_KBDINPUTASSIST_PREV)
    } else if str_eq(s, "KC_KBDINPUTASSIST_NEXT") {
        Some(KeyCode::KC_KBDINPUTASSIST_NEXT)
    } else if str_eq(s, "KC_KBDINPUTASSIST_PREVGROUP") {
        Some(KeyCode::KC_KBDINPUTASSIST_PREVGROUP)
    } else if str_eq(s, "KC_KBDINPUTASSIST_NEXTGROUP") {
        Some(KeyCode::KC_KBDINPUTASSIST_NEXTGROUP)
    } else if str_eq(s, "KC_KBDINPUTASSIST_ACCEPT") {
        Some(KeyCode::KC_KBDINPUTASSIST_ACCEPT)
    } else if str_eq(s, "KC_KBDINPUTASSIST_CANCEL") {
        Some(KeyCode::KC_KBDINPUTASSIST_CANCEL)
    } else if str_eq(s, "KC_RIGHT_UP") {
        Some(KeyCode::KC_RIGHT_UP)
    } else if str_eq(s, "KC_RIGHT_DOWN") {
        Some(KeyCode::KC_RIGHT_DOWN)
    } else if str_eq(s, "KC_LEFT_UP") {
        Some(KeyCode::KC_LEFT_UP)
    } else if str_eq(s, "KC_LEFT_DOWN") {
        Some(KeyCode::KC_LEFT_DOWN)
    } else if str_eq(s, "KC_ROOT_MENU") {
        Some(KeyCode::KC_ROOT_MENU)
    } else if str_eq(s, "KC_MEDIA_TOP_MENU") {
        Some(KeyCode::KC_MEDIA_TOP_MENU)
    } else if str_eq(s, "KC_NUMERIC_11") {
        Some(KeyCode::KC_NUMERIC_11)
    } else if str_eq(s, "KC_NUMERIC_12") {
        Some(KeyCode::KC_NUMERIC_12)
    } else if str_eq(s, "KC_AUDIO_DESC") {
        Some(KeyCode::KC_AUDIO_DESC)
    } else if str_eq(s, "KC_3D_MODE") {
        Some(KeyCode::KC_3D_MODE)
    } else if str_eq(s, "KC_NEXT_FAVORITE") {
        Some(KeyCode::KC_NEXT_FAVORITE)
    } else if str_eq(s, "KC_STOP_RECORD") {
        Some(KeyCode::KC_STOP_RECORD)
    } else if str_eq(s, "KC_PAUSE_RECORD") {
        Some(KeyCode::KC_PAUSE_RECORD)
    } else if str_eq(s, "KC_VOD") {
        Some(KeyCode::KC_VOD)
    } else if str_eq(s, "KC_UNMUTE") {
        Some(KeyCode::KC_UNMUTE)
    } else if str_eq(s, "KC_FASTREVERSE") {
        Some(KeyCode::KC_FASTREVERSE)
    } else if str_eq(s, "KC_SLOWREVERSE") {
        Some(KeyCode::KC_SLOWREVERSE)
    } else if str_eq(s, "KC_DATA") {
        Some(KeyCode::KC_DATA)
    } else if str_eq(s, "KC_ONSCREEN_KEYBOARD") {
        Some(KeyCode::KC_ONSCREEN_KEYBOARD)
    } else if str_eq(s, "KC_MAX") {
        Some(KeyCode::KC_MAX)
    } else {
        None
    }
}

/// The key a name denotes, the `KC_` prefix being optional.
pub open spec fn spec_key_code_from_name(s: Seq<char>) -> Option<KeyCode> {
    spec_key_code_by_canonical_name(spec_canonical_key_name(s))
}

impl KeyCode {
    /// Parses a key name, with or without its `KC_` prefix.
    pub fn from_name(s: &str) -> (r: Option<KeyCode>)
        ensures
            r == spec_key_code_from_name(s@),
    {
        let canon = canonical_key_name(s);
        let r0 = key_code_by_name_part0(canon.as_str());
        if r0.is_some() {
            return r0;
        }
        let r1 = key_code_by_name_part1(canon.as_str());
        if r1.is_some() {
            return r1;
        }
        let r2 = key_code_by_name_part2(canon.as_str());
        if r2.is_some() {
            return r2;
        }
        let r3 = key_code_by_name_part3(canon.as_str());
        if r3.is_some() {
            return r3;
        }
        let r4 = key_code_by_name_part4(canon.as_str());
        if r4.is_some() {
            return r4;
        }
        let r5 = key_code_by_name_part5(canon.as_str());
        if r5.is_some() {
            return r5;
        }
        let r6 = key_code_by_name_part6(canon.as_str());
        if r6.is_some() {
            return r6;
        }
        let r7 = key_code_by_name_part7(canon.as_str());
        if r7.is_some() {
            return r7;
        }
        let r8 = key_code_by_name_part8(canon.as_str());
        if r8.is_some() {
            return r8;
        }
        let r9 = key_code_by_name_part9(canon.as_str());
        if r9.is_some() {
            return r9;
        }
        let r10 = key_code_by_name_part10(canon.as_str());
        if r10.is_some() {
            return r10;
        }
        None
    }
}

} // verus!
