use vstd::prelude::*;
verus! {
use crate::keys::{Layer, ScanCode};
/// A keyboard key identifier, one per HID usage id that the keymap can bind.
/// The numeric usage id of each variant is given by [`KeyCodes::byte`].
#[derive(Copy, Clone, PartialEq, Eq, Structural, Debug)]
#[allow(unused)]
pub enum KeyCodes {
    KeyboardErrorRollOver,
    KeyboardPOSTFail,
    KeyboardErrorUndefined,
    KeyboardAa,
    KeyboardBb,
    KeyboardCc,
    KeyboardDd,
    KeyboardEe,
    KeyboardFf,
    KeyboardGg,
    KeyboardHh,
    KeyboardIi,
    KeyboardJj,
    KeyboardKk,
    KeyboardLl,
    KeyboardMm,
    KeyboardNn,
    KeyboardOo,
    KeyboardPp,
    KeyboardQq,
    KeyboardRr,
    KeyboardSs,
    KeyboardTt,
    KeyboardUu,
    KeyboardVv,
    KeyboardWw,
    KeyboardXx,
    KeyboardYy,
    KeyboardZz,
    Keyboard1Exclamation,
    Keyboard2At,
    Keyboard3Hash,
    Keyboard4Dollar,
    Keyboard5Percent,
    Keyboard6Caret,
    Keyboard7Ampersand,
    Keyboard8Asterisk,
    Keyboard9OpenParens,
    Keyboard0CloseParens,
    KeyboardEnter,
    KeyboardEscape,
    KeyboardBackspace,
    KeyboardTab,
    KeyboardSpacebar,
    KeyboardDashUnderscore,
    KeyboardEqualPlus,
    KeyboardOpenBracketBrace,
    KeyboardCloseBracketBrace,
    KeyboardBackslashBar,
    KeyboardNonUSHash,
    KeyboardSemiColon,
    KeyboardSingleDoubleQuote,
    KeyboardBacktickTilde,
    KeyboardCommaLess,
    KeyboardPeriodGreater,
    KeyboardSlashQuestion,
    KeyboardCapsLock,
    KeyboardF1,
    KeyboardF2,
    KeyboardF3,
    KeyboardF4,
    KeyboardF5,
    KeyboardF6,
    KeyboardF7,
    KeyboardF8,
    KeyboardF9,
    KeyboardF10,
    KeyboardF11,
    KeyboardF12,
    KeyboardPrintScreen,
    KeyboardScrollLock,
    KeyboardPause,
    KeyboardInsert,
    KeyboardHome,
    KeyboardPageUp,
    KeyboardDelete,
    KeyboardEnd,
    KeyboardPageDown,
    KeyboardRightArrow,
    KeyboardLeftArrow,
    KeyboardDownArrow,
    KeyboardUpArrow,
    KeypadNumLock,
    KeypadDivide,
    KeypadMultiply,
    KeypadMinus,
    KeypadPlus,
    KeypadEnter,
    Keypad1End,
    Keypad2DownArrow,
    Keypad3PageDown,
    Keypad4LeftArrow,
    Keypad5,
    Keypad6RightArrow,
    Keypad7Home,
    Keypad8UpArrow,
    Keypad9PageUp,
    Keypad0Insert,
    KeypadPeriodDelete,
    KeyboardNonUSSlash,
    KeyboardApplication,
    KeyboardPower,
    KeypadEqual,
    KeyboardF13,
    KeyboardF14,
    KeyboardF15,
    KeyboardF16,
    KeyboardF17,
    KeyboardF18,
    KeyboardF19,
    KeyboardF20,
    KeyboardF21,
    KeyboardF22,
    KeyboardF23,
    KeyboardF24,
    KeyboardExecute,
    KeyboardHelp,
    KeyboardMenu,
    KeyboardSelect,
    KeyboardStop,
    KeyboardAgain,
    KeyboardUndo,
    KeyboardCut,
    KeyboardCopy,
    KeyboardPaste,
    KeyboardFind,
    KeyboardMute,
    KeyboardVolumeUp,
    KeyboardVolumeDown,
    KeyboardLockingCapsLock,
    KeyboardLockingNumLock,
    KeyboardLockingScrollLock,
    KeypadComma,
    KeypadEqualSign,
    KeyboardInternational1,
    KeyboardInternational2,
    KeyboardInternational3,
    KeyboardInternational4,
    KeyboardInternational5,
    KeyboardInternational6,
    KeyboardInternational7,
    KeyboardInternational8,
    KeyboardInternational9,
    KeyboardLANG1,
    KeyboardLANG2,
    KeyboardLANG3,
    KeyboardLANG4,
    KeyboardLANG5,
    KeyboardLANG6,
    KeyboardLANG7,
    KeyboardLANG8,
    KeyboardLANG9,
    KeyboardAlternateErase,
    KeyboardSysReqAttention,
    KeyboardCancel,
    KeyboardClear,
    KeyboardPrior,
    KeyboardReturn,
    KeyboardSeparator,
    KeyboardOut,
    KeyboardOper,
    KeyboardClearAgain,
    KeyboardCrSelProps,
    KeyboardExSel,
    Keypad00,
    Keypad000,
    ThousandsSeparator,
    DecimalSeparator,
    CurrencyUnit,
    CurrencySubunit,
    KeypadOpenParens,
    KeypadCloseParens,
    KeypadOpenBrace,
    KeypadCloseBrace,
    KeypadTab,
    KeypadBackspace,
    KeypadA,
    KeypadB,
    KeypadC,
    KeypadD,
    KeypadE,
    KeypadF,
    KeypadBitwiseXor,
    KeypadLogicalXor,
    KeypadModulo,
    KeypadLeftShift,
    KeypadRightShift,
    KeypadBitwiseAnd,
    KeypadLogicalAnd,
    KeypadBitwiseOr,
    KeypadLogicalOr,
    KeypadColon,
    KeypadHash,
    KeypadSpace,
    KeypadAt,
    KeypadExclamation,
    KeypadMemoryStore,
    KeypadMemoryRecall,
    KeypadMemoryClear,
    KeypadMemoryAdd,
    KeypadMemorySubtract,
    KeypadMemoryMultiply,
    KeypadMemoryDivide,
    KeypadPositiveNegative,
    KeypadClear,
    KeypadClearEntry,
    KeypadBinary,
    KeypadOctal,
    KeypadDecimal,
    KeypadHexadecimal,
    KeyboardLeftControl,
    KeyboardLeftShift,
    KeyboardLeftAlt,
    KeyboardLeftGUI,
    KeyboardRightControl,
    KeyboardRightShift,
    KeyboardRightAlt,
    KeyboardRightGUI,
    Reserved,
    Layer0,
    Layer1,
    Layer2,
    Layer3,
    Layer4,
    Layer5,
    Layer6,
    Layer7,
    Layer8,
    Layer9,
    Layer10,
    MouseLeftClick,
    MouseRightClick,
    MouseMiddleClick,
    MousePositiveX,
    MouseNegativeX,
    MousePositiveY,
    MouseNegativeY,
    MouseScrollUp,
    MouseScrollDown,
}

impl KeyCodes {
    /// The HID usage id (or, for layer and mouse keys, the private usage id)
    /// that this key identifier stands for.
    pub open spec fn byte(self) -> u8 {
        match self {
            KeyCodes::KeyboardErrorRollOver => 0x01,
            KeyCodes::KeyboardPOSTFail => 0x02,
            KeyCodes::KeyboardErrorUndefined => 0x03,
            KeyCodes::KeyboardAa => 0x04,
            KeyCodes::KeyboardBb => 0x05,
            KeyCodes::KeyboardCc => 0x06,
            KeyCodes::KeyboardDd => 0x07,
            KeyCodes::KeyboardEe => 0x08,
            KeyCodes::KeyboardFf => 0x09,
            KeyCodes::KeyboardGg => 0x0A,
            KeyCodes::KeyboardHh => 0x0B,
            KeyCodes::KeyboardIi => 0x0C,
            KeyCodes::KeyboardJj => 0x0D,
            KeyCodes::KeyboardKk => 0x0E,
            KeyCodes::KeyboardLl => 0x0F,
            KeyCodes::KeyboardMm => 0x10,
            KeyCodes::KeyboardNn => 0x11,
            KeyCodes::KeyboardOo => 0x12,
            KeyCodes::KeyboardPp => 0x13,
            KeyCodes::KeyboardQq => 0x14,
            KeyCodes::KeyboardRr => 0x15,
            KeyCodes::KeyboardSs => 0x16,
            KeyCodes::KeyboardTt => 0x17,
            KeyCodes::KeyboardUu => 0x18,
            KeyCodes::KeyboardVv => 0x19,
            KeyCodes::KeyboardWw => 0x1A,
            KeyCodes::KeyboardXx => 0x1B,
            KeyCodes::KeyboardYy => 0x1C,
            KeyCodes::KeyboardZz => 0x1D,
            KeyCodes::Keyboard1Exclamation => 0x1E,
            KeyCodes::Keyboard2At => 0x1F,
            KeyCodes::Keyboard3Hash => 0x20,
            KeyCodes::Keyboard4Dollar => 0x21,
            KeyCodes::Keyboard5Percent => 0x22,
            KeyCodes::Keyboard6Caret => 0x23,
            KeyCodes::Keyboard7Ampersand => 0x24,
            KeyCodes::Keyboard8Asterisk => 0x25,
            KeyCodes::Keyboard9OpenParens => 0x26,
            KeyCodes::Keyboard0CloseParens => 0x27,
            KeyCodes::KeyboardEnter => 0x28,
            KeyCodes::KeyboardEscape => 0x29,
            KeyCodes::KeyboardBackspace => 0x2A,
            KeyCodes::KeyboardTab => 0x2B,
            KeyCodes::KeyboardSpacebar => 0x2C,
            KeyCodes::KeyboardDashUnderscore => 0x2D,
            KeyCodes::KeyboardEqualPlus => 0x2E,
            KeyCodes::KeyboardOpenBracketBrace => 0x2F,
            KeyCodes::KeyboardCloseBracketBrace => 0x30,
            KeyCodes::KeyboardBackslashBar => 0x31,
            KeyCodes::KeyboardNonUSHash => 0x32,
            KeyCodes::KeyboardSemiColon => 0x33,
            KeyCodes::KeyboardSingleDoubleQuote => 0x34,
            KeyCodes::KeyboardBacktickTilde => 0x35,
            KeyCodes::KeyboardCommaLess => 0x36,
            KeyCodes::KeyboardPeriodGreater => 0x37,
            KeyCodes::KeyboardSlashQuestion => 0x38,
            KeyCodes::KeyboardCapsLock => 0x39,
            KeyCodes::KeyboardF1 => 0x3A,
            KeyCodes::KeyboardF2 => 0x3B,
            KeyCodes::KeyboardF3 => 0x3C,
            KeyCodes::KeyboardF4 => 0x3D,
            KeyCodes::KeyboardF5 => 0x3E,
            KeyCodes::KeyboardF6 => 0x3F,
            KeyCodes::KeyboardF7 => 0x40,
            KeyCodes::KeyboardF8 => 0x41,
            KeyCodes::KeyboardF9 => 0x42,
            KeyCodes::KeyboardF10 => 0x43,
            KeyCodes::KeyboardF11 => 0x44,
            KeyCodes::KeyboardF12 => 0x45,
            KeyCodes::KeyboardPrintScreen => 0x46,
            KeyCodes::KeyboardScrollLock => 0x47,
            KeyCodes::KeyboardPause => 0x48,
            KeyCodes::KeyboardInsert => 0x49,
            KeyCodes::KeyboardHome => 0x4A,
            KeyCodes::KeyboardPageUp => 0x4B,
            KeyCodes::KeyboardDelete => 0x4C,
            KeyCodes::KeyboardEnd => 0x4D,
            KeyCodes::KeyboardPageDown => 0x4E,
            KeyCodes::KeyboardRightArrow => 0x4F,
            KeyCodes::KeyboardLeftArrow => 0x50,
            KeyCodes::KeyboardDownArrow => 0x51,
            KeyCodes::KeyboardUpArrow => 0x52,
            KeyCodes::KeypadNumLock => 0x53,
            KeyCodes::KeypadDivide => 0x54,
            KeyCodes::KeypadMultiply => 0x55,
            KeyCodes::KeypadMinus => 0x56,
            KeyCodes::KeypadPlus => 0x57,
            KeyCodes::KeypadEnter => 0x58,
            KeyCodes::Keypad1End => 0x59,
            KeyCodes::Keypad2DownArrow => 0x5A,
            KeyCodes::Keypad3PageDown => 0x5B,
            KeyCodes::Keypad4LeftArrow => 0x5C,
            KeyCodes::Keypad5 => 0x5D,
            KeyCodes::Keypad6RightArrow => 0x5E,
            KeyCodes::Keypad7Home => 0x5F,
            KeyCodes::Keypad8UpArrow => 0x60,
            KeyCodes::Keypad9PageUp => 0x61,
            KeyCodes::Keypad0Insert => 0x62,
            KeyCodes::KeypadPeriodDelete => 0x63,
            KeyCodes::KeyboardNonUSSlash => 0x64,
            KeyCodes::KeyboardApplication => 0x65,
            KeyCodes::KeyboardPower => 0x66,
            KeyCodes::KeypadEqual => 0x67,
            KeyCodes::KeyboardF13 => 0x68,
            KeyCodes::KeyboardF14 => 0x69,
            KeyCodes::KeyboardF15 => 0x6A,
            KeyCodes::KeyboardF16 => 0x6B,
            KeyCodes::KeyboardF17 => 0x6C,
            KeyCodes::KeyboardF18 => 0x6D,
            KeyCodes::KeyboardF19 => 0x6E,
            KeyCodes::KeyboardF20 => 0x6F,
            KeyCodes::KeyboardF21 => 0x70,
            KeyCodes::KeyboardF22 => 0x71,
            KeyCodes::KeyboardF23 => 0x72,
            KeyCodes::KeyboardF24 => 0x73,
            KeyCodes::KeyboardExecute => 0x74,
            KeyCodes::KeyboardHelp => 0x75,
            KeyCodes::KeyboardMenu => 0x76,
            KeyCodes::KeyboardSelect => 0x77,
            KeyCodes::KeyboardStop => 0x78,
            KeyCodes::KeyboardAgain => 0x79,
            KeyCodes::KeyboardUndo => 0x7A,
            KeyCodes::KeyboardCut => 0x7B,
            KeyCodes::KeyboardCopy => 0x7C,
            KeyCodes::KeyboardPaste => 0x7D,
            KeyCodes::KeyboardFind => 0x7E,
            KeyCodes::KeyboardMute => 0x7F,
            KeyCodes::KeyboardVolumeUp => 0x80,
            KeyCodes::KeyboardVolumeDown => 0x81,
            KeyCodes::KeyboardLockingCapsLock => 0x82,
            KeyCodes::KeyboardLockingNumLock => 0x83,
            KeyCodes::KeyboardLockingScrollLock => 0x84,
            KeyCodes::KeypadComma => 0x85,
            KeyCodes::KeypadEqualSign => 0x86,
            KeyCodes::KeyboardInternational1 => 0x87,
            KeyCodes::KeyboardInternational2 => 0x88,
            KeyCodes::KeyboardInternational3 => 0x89,
            KeyCodes::KeyboardInternational4 => 0x8A,
            KeyCodes::KeyboardInternational5 => 0x8B,
            KeyCodes::KeyboardInternational6 => 0x8C,
            KeyCodes::KeyboardInternational7 => 0x8D,
            KeyCodes::KeyboardInternational8 => 0x8E,
            KeyCodes::KeyboardInternational9 => 0x8F,
            KeyCodes::KeyboardLANG1 => 0x90,
            KeyCodes::KeyboardLANG2 => 0x91,
            KeyCodes::KeyboardLANG3 => 0x92,
            KeyCodes::KeyboardLANG4 => 0x93,
            KeyCodes::KeyboardLANG5 => 0x94,
            KeyCodes::KeyboardLANG6 => 0x95,
            KeyCodes::KeyboardLANG7 => 0x96,
            KeyCodes::KeyboardLANG8 => 0x97,
            KeyCodes::KeyboardLANG9 => 0x98,
            KeyCodes::KeyboardAlternateErase => 0x99,
            KeyCodes::KeyboardSysReqAttention => 0x9A,
            KeyCodes::KeyboardCancel => 0x9B,
            KeyCodes::KeyboardClear => 0x9C,
            KeyCodes::KeyboardPrior => 0x9D,
            KeyCodes::KeyboardReturn => 0x9E,
            KeyCodes::KeyboardSeparator => 0x9F,
            KeyCodes::KeyboardOut => 0xA0,
            KeyCodes::KeyboardOper => 0xA1,
            KeyCodes::KeyboardClearAgain => 0xA2,
            KeyCodes::KeyboardCrSelProps => 0xA3,
            KeyCodes::KeyboardExSel => 0xA4,
            KeyCodes::Keypad00 => 0xB0,
            KeyCodes::Keypad000 => 0xB1,
            KeyCodes::ThousandsSeparator => 0xB2,
            KeyCodes::DecimalSeparator => 0xB3,
            KeyCodes::CurrencyUnit => 0xB4,
            KeyCodes::CurrencySubunit => 0xB5,
            KeyCodes::KeypadOpenParens => 0xB6,
            KeyCodes::KeypadCloseParens => 0xB7,
            KeyCodes::KeypadOpenBrace => 0xB8,
            KeyCodes::KeypadCloseBrace => 0xB9,
            KeyCodes::KeypadTab => 0xBA,
            KeyCodes::KeypadBackspace => 0xBB,
            KeyCodes::KeypadA => 0xBC,
            KeyCodes::KeypadB => 0xBD,
            KeyCodes::KeypadC => 0xBE,
            KeyCodes::KeypadD => 0xBF,
            KeyCodes::KeypadE => 0xC0,
            KeyCodes::KeypadF => 0xC1,
            KeyCodes::KeypadBitwiseXor => 0xC2,
            KeyCodes::KeypadLogicalXor => 0xC3,
            KeyCodes::KeypadModulo => 0xC4,
            KeyCodes::KeypadLeftShift => 0xC5,
            KeyCodes::KeypadRightShift => 0xC6,
            KeyCodes::KeypadBitwiseAnd => 0xC7,
            KeyCodes::KeypadLogicalAnd => 0xC8,
            KeyCodes::KeypadBitwiseOr => 0xC9,
            KeyCodes::KeypadLogicalOr => 0xCA,
            KeyCodes::KeypadColon => 0xCB,
            KeyCodes::KeypadHash => 0xCC,
            KeyCodes::KeypadSpace => 0xCD,
            KeyCodes::KeypadAt => 0xCE,
            KeyCodes::KeypadExclamation => 0xCF,
            KeyCodes::KeypadMemoryStore => 0xD0,
            KeyCodes::KeypadMemoryRecall => 0xD1,
            KeyCodes::KeypadMemoryClear => 0xD2,
            KeyCodes::KeypadMemoryAdd => 0xD3,
            KeyCodes::KeypadMemorySubtract => 0xD4,
            KeyCodes::KeypadMemoryMultiply => 0xD5,
            KeyCodes::KeypadMemoryDivide => 0xD6,
            KeyCodes::KeypadPositiveNegative => 0xD7,
            KeyCodes::KeypadClear => 0xD8,
            KeyCodes::KeypadClearEntry => 0xD9,
            KeyCodes::KeypadBinary => 0xDA,
            KeyCodes::KeypadOctal => 0xDB,
            KeyCodes::KeypadDecimal => 0xDC,
            KeyCodes::KeypadHexadecimal => 0xDD,
            KeyCodes::KeyboardLeftControl => 0xE0,
            KeyCodes::KeyboardLeftShift => 0xE1,
            KeyCodes::KeyboardLeftAlt => 0xE2,
            KeyCodes::KeyboardLeftGUI => 0xE3,
            KeyCodes::KeyboardRightControl => 0xE4,
            KeyCodes::KeyboardRightShift => 0xE5,
            KeyCodes::KeyboardRightAlt => 0xE6,
            KeyCodes::KeyboardRightGUI => 0xE7,
            KeyCodes::Reserved => 0xE8,
            KeyCodes::Layer0 => 0xE9,
            KeyCodes::Layer1 => 0xEA,
            KeyCodes::Layer2 => 0xEB,
            KeyCodes::Layer3 => 0xEC,
            KeyCodes::Layer4 => 0xED,
            KeyCodes::Layer5 => 0xEE,
            KeyCodes::Layer6 => 0xEF,
            KeyCodes::Layer7 => 0xF0,
            KeyCodes::Layer8 => 0xF1,
            KeyCodes::Layer9 => 0xF2,
            KeyCodes::Layer10 => 0xF3,
            KeyCodes::MouseLeftClick => 0xF4,
            KeyCodes::MouseRightClick => 0xF5,
            KeyCodes::MouseMiddleClick => 0xF6,
            KeyCodes::MousePositiveX => 0xF7,
            KeyCodes::MouseNegativeX => 0xF8,
            KeyCodes::MousePositiveY => 0xF9,
            KeyCodes::MouseNegativeY => 0xFA,
            KeyCodes::MouseScrollUp => 0xFB,
            KeyCodes::MouseScrollDown => 0xFC,
        }
    }

    /// Runtime evaluation of [`KeyCodes::byte`].
    pub fn as_byte(&self) -> (r: u8)
        ensures
            r == self.byte(),
    {
        match self {
            KeyCodes::KeyboardErrorRollOver => 0x01,
            KeyCodes::KeyboardPOSTFail => 0x02,
            KeyCodes::KeyboardErrorUndefined => 0x03,
            KeyCodes::KeyboardAa => 0x04,
            KeyCodes::KeyboardBb => 0x05,
            KeyCodes::KeyboardCc => 0x06,
            KeyCodes::KeyboardDd => 0x07,
            KeyCodes::KeyboardEe => 0x08,
            KeyCodes::KeyboardFf => 0x09,
            KeyCodes::KeyboardGg => 0x0A,
            KeyCodes::KeyboardHh => 0x0B,
            KeyCodes::KeyboardIi => 0x0C,
            KeyCodes::KeyboardJj => 0x0D,
            KeyCodes::KeyboardKk => 0x0E,
            KeyCodes::KeyboardLl => 0x0F,
            KeyCodes::KeyboardMm => 0x10,
            KeyCodes::KeyboardNn => 0x11,
            KeyCodes::KeyboardOo => 0x12,
            KeyCodes::KeyboardPp => 0x13,
            KeyCodes::KeyboardQq => 0x14,
            KeyCodes::KeyboardRr => 0x15,
            KeyCodes::KeyboardSs => 0x16,
            KeyCodes::KeyboardTt => 0x17,
            KeyCodes::KeyboardUu => 0x18,
            KeyCodes::KeyboardVv => 0x19,
            KeyCodes::KeyboardWw => 0x1A,
            KeyCodes::KeyboardXx => 0x1B,
            KeyCodes::KeyboardYy => 0x1C,
            KeyCodes::KeyboardZz => 0x1D,
            KeyCodes::Keyboard1Exclamation => 0x1E,
            KeyCodes::Keyboard2At => 0x1F,
            KeyCodes::Keyboard3Hash => 0x20,
            KeyCodes::Keyboard4Dollar => 0x21,
            KeyCodes::Keyboard5Percent => 0x22,
            KeyCodes::Keyboard6Caret => 0x23,
            KeyCodes::Keyboard7Ampersand => 0x24,
            KeyCodes::Keyboard8Asterisk => 0x25,
            KeyCodes::Keyboard9OpenParens => 0x26,
            KeyCodes::Keyboard0CloseParens => 0x27,
            KeyCodes::KeyboardEnter => 0x28,
            KeyCodes::KeyboardEscape => 0x29,
            KeyCodes::KeyboardBackspace => 0x2A,
            KeyCodes::KeyboardTab => 0x2B,
            KeyCodes::KeyboardSpacebar => 0x2C,
            KeyCodes::KeyboardDashUnderscore => 0x2D,
            KeyCodes::KeyboardEqualPlus => 0x2E,
            KeyCodes::KeyboardOpenBracketBrace => 0x2F,
            KeyCodes::KeyboardCloseBracketBrace => 0x30,
            KeyCodes::KeyboardBackslashBar => 0x31,
            KeyCodes::KeyboardNonUSHash => 0x32,
            KeyCodes::KeyboardSemiColon => 0x33,
            KeyCodes::KeyboardSingleDoubleQuote => 0x34,
            KeyCodes::KeyboardBacktickTilde => 0x35,
            KeyCodes::KeyboardCommaLess => 0x36,
            KeyCodes::KeyboardPeriodGreater => 0x37,
            KeyCodes::KeyboardSlashQuestion => 0x38,
            KeyCodes::KeyboardCapsLock => 0x39,
            KeyCodes::KeyboardF1 => 0x3A,
            KeyCodes::KeyboardF2 => 0x3B,
            KeyCodes::KeyboardF3 => 0x3C,
            KeyCodes::KeyboardF4 => 0x3D,
            KeyCodes::KeyboardF5 => 0x3E,
            KeyCodes::KeyboardF6 => 0x3F,
            KeyCodes::KeyboardF7 => 0x40,
            KeyCodes::KeyboardF8 => 0x41,
            KeyCodes::KeyboardF9 => 0x42,
            KeyCodes::KeyboardF10 => 0x43,
            KeyCodes::KeyboardF11 => 0x44,
            KeyCodes::KeyboardF12 => 0x45,
            KeyCodes::KeyboardPrintScreen => 0x46,
            KeyCodes::KeyboardScrollLock => 0x47,
            KeyCodes::KeyboardPause => 0x48,
            KeyCodes::KeyboardInsert => 0x49,
            KeyCodes::KeyboardHome => 0x4A,
            KeyCodes::KeyboardPageUp => 0x4B,
            KeyCodes::KeyboardDelete => 0x4C,
            KeyCodes::KeyboardEnd => 0x4D,
            KeyCodes::KeyboardPageDown => 0x4E,
            KeyCodes::KeyboardRightArrow => 0x4F,
            KeyCodes::KeyboardLeftArrow => 0x50,
            KeyCodes::KeyboardDownArrow => 0x51,
            KeyCodes::KeyboardUpArrow => 0x52,
            KeyCodes::KeypadNumLock => 0x53,
            KeyCodes::KeypadDivide => 0x54,
            KeyCodes::KeypadMultiply => 0x55,
            KeyCodes::KeypadMinus => 0x56,
            KeyCodes::KeypadPlus => 0x57,
            KeyCodes::KeypadEnter => 0x58,
            KeyCodes::Keypad1End => 0x59,
            KeyCodes::Keypad2DownArrow => 0x5A,
            KeyCodes::Keypad3PageDown => 0x5B,
            KeyCodes::Keypad4LeftArrow => 0x5C,
            KeyCodes::Keypad5 => 0x5D,
            KeyCodes::Keypad6RightArrow => 0x5E,
            KeyCodes::Keypad7Home => 0x5F,
            KeyCodes::Keypad8UpArrow => 0x60,
            KeyCodes::Keypad9PageUp => 0x61,
            KeyCodes::Keypad0Insert => 0x62,
            KeyCodes::KeypadPeriodDelete => 0x63,
            KeyCodes::KeyboardNonUSSlash => 0x64,
            KeyCodes::KeyboardApplication => 0x65,
            KeyCodes::KeyboardPower => 0x66,
            KeyCodes::KeypadEqual => 0x67,
            KeyCodes::KeyboardF13 => 0x68,
            KeyCodes::KeyboardF14 => 0x69,
            KeyCodes::KeyboardF15 => 0x6A,
            KeyCodes::KeyboardF16 => 0x6B,
            KeyCodes::KeyboardF17 => 0x6C,
            KeyCodes::KeyboardF18 => 0x6D,
            KeyCodes::KeyboardF19 => 0x6E,
            KeyCodes::KeyboardF20 => 0x6F,
            KeyCodes::KeyboardF21 => 0x70,
            KeyCodes::KeyboardF22 => 0x71,
            KeyCodes::KeyboardF23 => 0x72,
            KeyCodes::KeyboardF24 => 0x73,
            KeyCodes::KeyboardExecute => 0x74,
            KeyCodes::KeyboardHelp => 0x75,
            KeyCodes::KeyboardMenu => 0x76,
            KeyCodes::KeyboardSelect => 0x77,
            KeyCodes::KeyboardStop => 0x78,
            KeyCodes::KeyboardAgain => 0x79,
            KeyCodes::KeyboardUndo => 0x7A,
            KeyCodes::KeyboardCut => 0x7B,
            KeyCodes::KeyboardCopy => 0x7C,
            KeyCodes::KeyboardPaste => 0x7D,
            KeyCodes::KeyboardFind => 0x7E,
            KeyCodes::KeyboardMute => 0x7F,
            KeyCodes::KeyboardVolumeUp => 0x80,
            KeyCodes::KeyboardVolumeDown => 0x81,
            KeyCodes::KeyboardLockingCapsLock => 0x82,
            KeyCodes::KeyboardLockingNumLock => 0x83,
            KeyCodes::KeyboardLockingScrollLock => 0x84,
            KeyCodes::KeypadComma => 0x85,
            KeyCodes::KeypadEqualSign => 0x86,
            KeyCodes::KeyboardInternational1 => 0x87,
            KeyCodes::KeyboardInternational2 => 0x88,
            KeyCodes::KeyboardInternational3 => 0x89,
            KeyCodes::KeyboardInternational4 => 0x8A,
            KeyCodes::KeyboardInternational5 => 0x8B,
            KeyCodes::KeyboardInternational6 => 0x8C,
            KeyCodes::KeyboardInternational7 => 0x8D,
            KeyCodes::KeyboardInternational8 => 0x8E,
            KeyCodes::KeyboardInternational9 => 0x8F,
            KeyCodes::KeyboardLANG1 => 0x90,
            KeyCodes::KeyboardLANG2 => 0x91,
            KeyCodes::KeyboardLANG3 => 0x92,
            KeyCodes::KeyboardLANG4 => 0x93,
            KeyCodes::KeyboardLANG5 => 0x94,
            KeyCodes::KeyboardLANG6 => 0x95,
            KeyCodes::KeyboardLANG7 => 0x96,
            KeyCodes::KeyboardLANG8 => 0x97,
            KeyCodes::KeyboardLANG9 => 0x98,
            KeyCodes::KeyboardAlternateErase => 0x99,
            KeyCodes::KeyboardSysReqAttention => 0x9A,
            KeyCodes::KeyboardCancel => 0x9B,
            KeyCodes::KeyboardClear => 0x9C,
            KeyCodes::KeyboardPrior => 0x9D,
            KeyCodes::KeyboardReturn => 0x9E,
            KeyCodes::KeyboardSeparator => 0x9F,
            KeyCodes::KeyboardOut => 0xA0,
            KeyCodes::KeyboardOper => 0xA1,
            KeyCodes::KeyboardClearAgain => 0xA2,
            KeyCodes::KeyboardCrSelProps => 0xA3,
            KeyCodes::KeyboardExSel => 0xA4,
            KeyCodes::Keypad00 => 0xB0,
            KeyCodes::Keypad000 => 0xB1,
            KeyCodes::ThousandsSeparator => 0xB2,
            KeyCodes::DecimalSeparator => 0xB3,
            KeyCodes::CurrencyUnit => 0xB4,
            KeyCodes::CurrencySubunit => 0xB5,
            KeyCodes::KeypadOpenParens => 0xB6,
            KeyCodes::KeypadCloseParens => 0xB7,
            KeyCodes::KeypadOpenBrace => 0xB8,
            KeyCodes::KeypadCloseBrace => 0xB9,
            KeyCodes::KeypadTab => 0xBA,
            KeyCodes::KeypadBackspace => 0xBB,
            KeyCodes::KeypadA => 0xBC,
            KeyCodes::KeypadB => 0xBD,
            KeyCodes::KeypadC => 0xBE,
            KeyCodes::KeypadD => 0xBF,
            KeyCodes::KeypadE => 0xC0,
            KeyCodes::KeypadF => 0xC1,
            KeyCodes::KeypadBitwiseXor => 0xC2,
            KeyCodes::KeypadLogicalXor => 0xC3,
            KeyCodes::KeypadModulo => 0xC4,
            KeyCodes::KeypadLeftShift => 0xC5,
            KeyCodes::KeypadRightShift => 0xC6,
            KeyCodes::KeypadBitwiseAnd => 0xC7,
            KeyCodes::KeypadLogicalAnd => 0xC8,
            KeyCodes::KeypadBitwiseOr => 0xC9,
            KeyCodes::KeypadLogicalOr => 0xCA,
            KeyCodes::KeypadColon => 0xCB,
            KeyCodes::KeypadHash => 0xCC,
            KeyCodes::KeypadSpace => 0xCD,
            KeyCodes::KeypadAt => 0xCE,
            KeyCodes::KeypadExclamation => 0xCF,
            KeyCodes::KeypadMemoryStore => 0xD0,
            KeyCodes::KeypadMemoryRecall => 0xD1,
            KeyCodes::KeypadMemoryClear => 0xD2,
            KeyCodes::KeypadMemoryAdd => 0xD3,
            KeyCodes::KeypadMemorySubtract => 0xD4,
            KeyCodes::KeypadMemoryMultiply => 0xD5,
            KeyCodes::KeypadMemoryDivide => 0xD6,
            KeyCodes::KeypadPositiveNegative => 0xD7,
            KeyCodes::KeypadClear => 0xD8,
            KeyCodes::KeypadClearEntry => 0xD9,
            KeyCodes::KeypadBinary => 0xDA,
            KeyCodes::KeypadOctal => 0xDB,
            KeyCodes::KeypadDecimal => 0xDC,
            KeyCodes::KeypadHexadecimal => 0xDD,
            KeyCodes::KeyboardLeftControl => 0xE0,
            KeyCodes::KeyboardLeftShift => 0xE1,
            KeyCodes::KeyboardLeftAlt => 0xE2,
            KeyCodes::KeyboardLeftGUI => 0xE3,
            KeyCodes::KeyboardRightControl => 0xE4,
            KeyCodes::KeyboardRightShift => 0xE5,
            KeyCodes::KeyboardRightAlt => 0xE6,
            KeyCodes::KeyboardRightGUI => 0xE7,
            KeyCodes::Reserved => 0xE8,
            KeyCodes::Layer0 => 0xE9,
            KeyCodes::Layer1 => 0xEA,
            KeyCodes::Layer2 => 0xEB,
            KeyCodes::Layer3 => 0xEC,
            KeyCodes::Layer4 => 0xED,
            KeyCodes::Layer5 => 0xEE,
            KeyCodes::Layer6 => 0xEF,
            KeyCodes::Layer7 => 0xF0,
            KeyCodes::Layer8 => 0xF1,
            KeyCodes::Layer9 => 0xF2,
            KeyCodes::Layer10 => 0xF3,
            KeyCodes::MouseLeftClick => 0xF4,
            KeyCodes::MouseRightClick => 0xF5,
            KeyCodes::MouseMiddleClick => 0xF6,
            KeyCodes::MousePositiveX => 0xF7,
            KeyCodes::MouseNegativeX => 0xF8,
            KeyCodes::MousePositiveY => 0xF9,
            KeyCodes::MouseNegativeY => 0xFA,
            KeyCodes::MouseScrollUp => 0xFB,
            KeyCodes::MouseScrollDown => 0xFC,
        }
    }
}


/// The scan code that a key byte resolves to: plain HID usage bytes stay
/// letters, the modifier range folds down to a bit offset, the private layer
/// and mouse ranges become layer and mouse actions, and reserved values fall
/// back to the null letter.
pub open spec fn spec_scan_code(b: u8) -> ScanCode {
    if b <= 0xDF {
        ScanCode::Letter(b)
    } else if b <= 0xE8 {
        ScanCode::Modifier((b - 0xE0) as u8)
    } else if b <= 0xF3 {
        ScanCode::Layer(Layer { pos: (b - 0xE9) as usize, toggle: false })
    } else if b <= 0xF6 {
        ScanCode::MouseButton((b - 0xF4) as u8)
    } else if b == 0xF7 {
        ScanCode::MouseX(1)
    } else if b == 0xF8 {
        ScanCode::MouseX(-1i8)
    } else if b == 0xF9 {
        ScanCode::MouseY(1)
    } else if b == 0xFA {
        ScanCode::MouseY(-1i8)
    } else if b == 0xFB {
        ScanCode::Scroll(1)
    } else if b == 0xFC {
        ScanCode::Scroll(-1i8)
    } else {
        ScanCode::Letter(0)
    }
}

impl KeyCodes {
    /// Converts the key identifier to its scan code.
    pub fn get_scan_code(&self) -> (r: ScanCode)
        ensures
            r == spec_scan_code(self.byte()),
    {
        let b = self.as_byte();
        if b <= 0xDF {
            ScanCode::Letter(b)
        } else if b <= 0xE8 {
            ScanCode::Modifier(b - 0xE0)
        } else if b <= 0xF3 {
            ScanCode::Layer(Layer { pos: (b - 0xE9) as usize, toggle: false })
        } else if b <= 0xF6 {
            ScanCode::MouseButton(b - 0xF4)
        } else if b == 0xF7 {
            ScanCode::MouseX(1)
        } else if b == 0xF8 {
            ScanCode::MouseX(-1i8)
        } else if b == 0xF9 {
            ScanCode::MouseY(1)
        } else if b == 0xFA {
            ScanCode::MouseY(-1i8)
        } else if b == 0xFB {
            ScanCode::Scroll(1)
        } else if b == 0xFC {
            ScanCode::Scroll(-1i8)
        } else {
            ScanCode::Letter(0)
        }
    }
}

} // verus!
