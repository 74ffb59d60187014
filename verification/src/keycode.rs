//! Where a switch sits in the matrix, and what it reports.

use vstd::prelude::*;

verus! {

/// Key coordinates
#[derive(Debug, Clone, Copy, PartialEq, Eq, Structural, Hash, PartialOrd, Ord)]
pub struct Coordinate {
    row: usize,
    col: usize,
}

impl View for Coordinate {
    type V = (int, int);

    /// The pair of row and column.
    closed spec fn view(&self) -> (int, int) {
        (self.row as int, self.col as int)
    }
}

impl Coordinate {
    /// Create a new `Coordinate` instance
    pub fn new(row: usize, col: usize) -> (coordinate: Coordinate)
        ensures
            coordinate@ == (row as int, col as int),
    {
        Coordinate { row, col }
    }

    /// The row of the switch.
    pub fn row(&self) -> (row: usize)
        ensures
            row == self@.0,
    {
        self.row
    }

    /// The column of the switch.
    pub fn col(&self) -> (col: usize)
        ensures
            col == self@.1,
    {
        self.col
    }

    /// A coordinate is its row and column and nothing more: two coordinates
    /// of one row and one column are the same.
    pub proof fn lemma_same_place(self, other: Coordinate)
        requires
            self@ == other@,
        ensures
            self == other,
    {
    }
}

/// Key Events
#[derive(Debug, Clone, Copy, PartialEq, Eq, Structural, Hash, PartialOrd, Ord)]
pub enum KeyEvent {
    /// No event to report
    NoEvent,
    /// Key change from released to pressed
    KeyDown(Coordinate),
    /// Key change from pressed to released
    KeyUp(Coordinate),
}

impl KeyEvent {
    /// What a switch reports when its settled output goes from `before` to
    /// `after` over one scan.
    pub open spec fn of_transition(at: Coordinate, before: bool, after: bool) -> KeyEvent {
        if !before && after {
            KeyEvent::KeyDown(at)
        } else if before && !after {
            KeyEvent::KeyUp(at)
        } else {
            KeyEvent::NoEvent
        }
    }

    /// The event of the switch at `at` whose settled output was `before` and
    /// is now `after`: a press, a release, or nothing when it did not change.
    pub fn transition(at: Coordinate, before: bool, after: bool) -> (event: KeyEvent)
        ensures
            event == KeyEvent::of_transition(at, before, after),
    {
        if !before && after {
            KeyEvent::KeyDown(at)
        } else if before && !after {
            KeyEvent::KeyUp(at)
        } else {
            KeyEvent::NoEvent
        }
    }
}

/// Representation for all Keycodes.
#[derive(Debug, Clone, Copy, PartialEq, Eq, Structural, Hash, PartialOrd, Ord)]
#[non_exhaustive]
pub enum KeyCode {
    NoEvent,
    ErrorRollOver,
    PostFail,
    ErrorUndefined,
    KA,
    KB,
    KC,
    KD,
    KE,
    KF,
    KG,
    KH,
    KI,
    KJ,
    KK,
    KL,
    KM,
    KN,
    KO,
    KP,
    KQ,
    KR,
    KS,
    KT,
    KU,
    KV,
    KW,
    KX,
    KY,
    KZ,
    K1,
    K2,
    K3,
    K4,
    K5,
    K6,
    K7,
    K8,
    K9,
    K0,
    /// Return
    KEnter,
    KEscape,
    /// Delete backward
    KBackspace,
    KTab,
    KSpaceBar,
    /// - and _
    KDash,
    /// = and +
    KEqual,
    /// [ and {
    KLeftBracket,
    /// ] and }
    KRightBracket,
    /// \ and |
    KBackslash,
    /// Non-US # and ~
    KNonUSPound,
    /// ; and :
    KSemiColon,
    /// ' and "
    KQuote,
    /// ` and ~,
    KGrave,
    /// , and <
    KComma,
    /// . and >
    KDot,
    /// / and ?
    KSlash,
    KCapsLock,
    KF1,
    KF2,
    KF3,
    KF4,
    KF5,
    KF6,
    KF7,
    KF8,
    KF9,
    KF10,
    KF11,
    KF12,
    KPrintScreen,
    KScrollLock,
    KPause,
    KInsert,
    KHome,
    KPageUp,
    /// Delete forward
    KDelete,
    KEnd,
    KPageDown,
    KRightArrow,
    KLeftArrow,
    KDownArrow,
    KUpArrow,
    /// Keypad Num Lock
    KpNumLock,
    /// Keypad /
    KpSlash,
    /// Keypad *
    KpAsterisk,
    /// Keypad -
    KpMinus,
    /// Keypad +
    KpPlus,
    /// Keypad Enter
    KpEnter,
    Kp1,
    Kp2,
    Kp3,
    Kp4,
    Kp5,
    Kp6,
    Kp7,
    Kp8,
    Kp9,
    Kp0,
    KpDot,
    /// Non-US \ and |
    KNonUSBackslash,
    KApplication,
    KpEqual,
    KF13,
    KF14,
    KF15,
    KF16,
    KF17,
    KF18,
    KF19,
    KF20,
    KF21,
    KF22,
    KF23,
    KF24,
    KExecute,
    KHelp,
    KMenu,
    KSelect,
    KStop,
    KAgain,
    KUndo,
    KCut,
    KCopy,
    KPaste,
    KFind,
    KMute,
    KVolumeUp,
    KVolumeDown,
    KLockingCapsLock,
    KLockingNumLock,
    KLockingScrollLock,
    KpComma,
    /// Keypad Equal Sign on AS/400 Keyboards
    KpEqualAS400,
    KIntl1,
    KIntl2,
    KIntl3,
    KIntl4,
    KIntl5,
    KIntl6,
    KIntl7,
    KIntl8,
    KIntl9,
    KLang1,
    KLang2,
    KLang3,
    KLang4,
    KLang5,
    KLang6,
    KLang7,
    KLang8,
    KLang9,
    KAltErase,
    KSysReq,
    KCancel,
    KClear,
    KPrior,
    KReturn,
    KSeparator,
    KOut,
    KOper,
    KClearAgain,
    KCrSel,
    KExSel,
    Kp00,
    Kp000,
    KpThousandsSeparator,
    KpDecimalSeparator,
    KpCurrencyUnit,
    KpSubunit,
    KpLeftParenthesis,
    KpRightParenthesis,
    KpLeftBrace,
    KpRightBrace,
    KpTab,
    KpBackspace,
    KpA,
    KpB,
    KpC,
    KpD,
    KpE,
    KpF,
    KpXor,
    KpCaret,
    KpPercent,
    KpLessThan,
    KpGreaterThan,
    KpAmpersand,
    KpDoubleAmpersand,
    KpVerticalPipe,
    KpDoubleVerticalPipe,
    KpColon,
    KpPound,
    KpSpace,
    KpAt,
    KpExclamationMark,
    KpMemoryStore,
    KpMemoryRecall,
    KpMemoryClear,
    KpMemoryAdd,
    KpMemorySubtract,
    KpMemoryMultiply,
    KpMemoryDivide,
    KpPlusMinus,
    KpClear,
    KpClearEntry,
    KpBinary,
    KpOctal,
    KpDecimal,
    KpHexadecimal,
    KpLeftControl,
    KpLeftShift,
    KpLeftAlt,
    KpLeftGUI,
    KpRightControl,
    KpRightShift,
    KpRightAlt,
    KpRightGUI,
}

impl KeyCode {
    /// The number that stands for the key in a report.
    pub open spec fn value(self) -> u16 {
        match self {
            KeyCode::NoEvent => 0x0000,
            KeyCode::ErrorRollOver => 0x0001,
            KeyCode::PostFail => 0x0002,
            KeyCode::ErrorUndefined => 0x0003,
            KeyCode::KA => 0x0004,
            KeyCode::KB => 0x0005,
            KeyCode::KC => 0x0006,
            KeyCode::KD => 0x0007,
            KeyCode::KE => 0x0008,
            KeyCode::KF => 0x0009,
            KeyCode::KG => 0x000a,
            KeyCode::KH => 0x000b,
            KeyCode::KI => 0x000c,
            KeyCode::KJ => 0x000d,
            KeyCode::KK => 0x000e,
            KeyCode::KL => 0x000f,
            KeyCode::KM => 0x0010,
            KeyCode::KN => 0x0011,
            KeyCode::KO => 0x0012,
            KeyCode::KP => 0x0013,
            KeyCode::KQ => 0x0014,
            KeyCode::KR => 0x0015,
            KeyCode::KS => 0x0016,
            KeyCode::KT => 0x0017,
            KeyCode::KU => 0x0018,
            KeyCode::KV => 0x0019,
            KeyCode::KW => 0x001a,
            KeyCode::KX => 0x001b,
            KeyCode::KY => 0x001c,
            KeyCode::KZ => 0x001d,
            KeyCode::K1 => 0x001e,
            KeyCode::K2 => 0x001f,
            KeyCode::K3 => 0x0020,
            KeyCode::K4 => 0x0021,
            KeyCode::K5 => 0x0022,
            KeyCode::K6 => 0x0023,
            KeyCode::K7 => 0x0024,
            KeyCode::K8 => 0x0025,
            KeyCode::K9 => 0x0026,
            KeyCode::K0 => 0x0027,
            KeyCode::KEnter => 0x0028,
            KeyCode::KEscape => 0x0029,
            KeyCode::KBackspace => 0x002a,
            KeyCode::KTab => 0x002b,
            KeyCode::KSpaceBar => 0x002c,
            KeyCode::KDash => 0x002d,
            KeyCode::KEqual => 0x002e,
            KeyCode::KLeftBracket => 0x002f,
            KeyCode::KRightBracket => 0x0030,
            KeyCode::KBackslash => 0x0031,
            KeyCode::KNonUSPound => 0x0032,
            KeyCode::KSemiColon => 0x0033,
            KeyCode::KQuote => 0x0034,
            KeyCode::KGrave => 0x0035,
            KeyCode::KComma => 0x0036,
            KeyCode::KDot => 0x0037,
            KeyCode::KSlash => 0x0038,
            KeyCode::KCapsLock => 0x0039,
            KeyCode::KF1 => 0x003a,
            KeyCode::KF2 => 0x003b,
            KeyCode::KF3 => 0x003c,
            KeyCode::KF4 => 0x003d,
            KeyCode::KF5 => 0x003e,
            KeyCode::KF6 => 0x003f,
            KeyCode::KF7 => 0x0040,
            KeyCode::KF8 => 0x0041,
            KeyCode::KF9 => 0x0042,
            KeyCode::KF10 => 0x0043,
            KeyCode::KF11 => 0x0044,
            KeyCode::KF12 => 0x0045,
            KeyCode::KPrintScreen => 0x0046,
            KeyCode::KScrollLock => 0x0047,
            KeyCode::KPause => 0x0048,
            KeyCode::KInsert => 0x0049,
            KeyCode::KHome => 0x004a,
            KeyCode::KPageUp => 0x004b,
            KeyCode::KDelete => 0x004c,
            KeyCode::KEnd => 0x004d,
            KeyCode::KPageDown => 0x004e,
            KeyCode::KRightArrow => 0x004f,
            KeyCode::KLeftArrow => 0x0050,
            KeyCode::KDownArrow => 0x0051,
            KeyCode::KUpArrow => 0x0052,
            KeyCode::KpNumLock => 0x0053,
            KeyCode::KpSlash => 0x0054,
            KeyCode::KpAsterisk => 0x0055,
            KeyCode::KpMinus => 0x0056,
            KeyCode::KpPlus => 0x0057,
            KeyCode::KpEnter => 0x0058,
            KeyCode::Kp1 => 0x0059,
            KeyCode::Kp2 => 0x005a,
            KeyCode::Kp3 => 0x005b,
            KeyCode::Kp4 => 0x005c,
            KeyCode::Kp5 => 0x005d,
            KeyCode::Kp6 => 0x005e,
            KeyCode::Kp7 => 0x005f,
            KeyCode::Kp8 => 0x0060,
            KeyCode::Kp9 => 0x0061,
            KeyCode::Kp0 => 0x0062,
            KeyCode::KpDot => 0x0063,
            KeyCode::KNonUSBackslash => 0x0064,
            KeyCode::KApplication => 0x0065,
            KeyCode::KpEqual => 0x0067,
            KeyCode::KF13 => 0x0068,
            KeyCode::KF14 => 0x0069,
            KeyCode::KF15 => 0x006a,
            KeyCode::KF16 => 0x006b,
            KeyCode::KF17 => 0x006c,
            KeyCode::KF18 => 0x006d,
            KeyCode::KF19 => 0x006e,
            KeyCode::KF20 => 0x006f,
            KeyCode::KF21 => 0x0070,
            KeyCode::KF22 => 0x0071,
            KeyCode::KF23 => 0x0072,
            KeyCode::KF24 => 0x0073,
            KeyCode::KExecute => 0x0074,
            KeyCode::KHelp => 0x0075,
            KeyCode::KMenu => 0x0076,
            KeyCode::KSelect => 0x0077,
            KeyCode::KStop => 0x0078,
            KeyCode::KAgain => 0x0079,
            KeyCode::KUndo => 0x007a,
            KeyCode::KCut => 0x007b,
            KeyCode::KCopy => 0x007c,
            KeyCode::KPaste => 0x007d,
            KeyCode::KFind => 0x007e,
            KeyCode::KMute => 0x007f,
            KeyCode::KVolumeUp => 0x0080,
            KeyCode::KVolumeDown => 0x0081,
            KeyCode::KLockingCapsLock => 0x0082,
            KeyCode::KLockingNumLock => 0x0083,
            KeyCode::KLockingScrollLock => 0x0084,
            KeyCode::KpComma => 0x0085,
            KeyCode::KpEqualAS400 => 0x0086,
            KeyCode::KIntl1 => 0x0087,
            KeyCode::KIntl2 => 0x0088,
            KeyCode::KIntl3 => 0x0089,
            KeyCode::KIntl4 => 0x008a,
            KeyCode::KIntl5 => 0x008b,
            KeyCode::KIntl6 => 0x008c,
            KeyCode::KIntl7 => 0x008d,
            KeyCode::KIntl8 => 0x008e,
            KeyCode::KIntl9 => 0x008f,
            KeyCode::KLang1 => 0x0090,
            KeyCode::KLang2 => 0x0091,
            KeyCode::KLang3 => 0x0092,
            KeyCode::KLang4 => 0x0093,
            KeyCode::KLang5 => 0x0094,
            KeyCode::KLang6 => 0x0095,
            KeyCode::KLang7 => 0x0096,
            KeyCode::KLang8 => 0x0097,
            KeyCode::KLang9 => 0x0098,
            KeyCode::KAltErase => 0x0099,
            KeyCode::KSysReq => 0x009a,
            KeyCode::KCancel => 0x009b,
            KeyCode::KClear => 0x009c,
            KeyCode::KPrior => 0x009d,
            KeyCode::KReturn => 0x009e,
            KeyCode::KSeparator => 0x009f,
            KeyCode::KOut => 0x00a0,
            KeyCode::KOper => 0x00a1,
            KeyCode::KClearAgain => 0x00a2,
            KeyCode::KCrSel => 0x00a3,
            KeyCode::KExSel => 0x00a4,
            KeyCode::Kp00 => 0x00b0,
            KeyCode::Kp000 => 0x00b1,
            KeyCode::KpThousandsSeparator => 0x00b2,
            KeyCode::KpDecimalSeparator => 0x00b3,
            KeyCode::KpCurrencyUnit => 0x00b4,
            KeyCode::KpSubunit => 0x00b5,
            KeyCode::KpLeftParenthesis => 0x00b6,
            KeyCode::KpRightParenthesis => 0x00b7,
            KeyCode::KpLeftBrace => 0x00b8,
            KeyCode::KpRightBrace => 0x00b9,
            KeyCode::KpTab => 0x00ba,
            KeyCode::KpBackspace => 0x00bb,
            KeyCode::KpA => 0x00bc,
            KeyCode::KpB => 0x00bd,
            KeyCode::KpC => 0x00be,
            KeyCode::KpD => 0x00bf,
            KeyCode::KpE => 0x00c0,
            KeyCode::KpF => 0x00c1,
            KeyCode::KpXor => 0x00c2,
            KeyCode::KpCaret => 0x00c3,
            KeyCode::KpPercent => 0x00c4,
            KeyCode::KpLessThan => 0x00c5,
            KeyCode::KpGreaterThan => 0x00c6,
            KeyCode::KpAmpersand => 0x00c7,
            KeyCode::KpDoubleAmpersand => 0x00c8,
            KeyCode::KpVerticalPipe => 0x00c9,
            KeyCode::KpDoubleVerticalPipe => 0x00ca,
            KeyCode::KpColon => 0x00cb,
            KeyCode::KpPound => 0x00cc,
            KeyCode::KpSpace => 0x00cd,
            KeyCode::KpAt => 0x00ce,
            KeyCode::KpExclamationMark => 0x00cf,
            KeyCode::KpMemoryStore => 0x00d0,
            KeyCode::KpMemoryRecall => 0x00d1,
            KeyCode::KpMemoryClear => 0x00d2,
            KeyCode::KpMemoryAdd => 0x00d3,
            KeyCode::KpMemorySubtract => 0x00d4,
            KeyCode::KpMemoryMultiply => 0x00d5,
            KeyCode::KpMemoryDivide => 0x00d6,
            KeyCode::KpPlusMinus => 0x00d7,
            KeyCode::KpClear => 0x00d8,
            KeyCode::KpClearEntry => 0x00d9,
            KeyCode::KpBinary => 0x00da,
            KeyCode::KpOctal => 0x00db,
            KeyCode::KpDecimal => 0x00dc,
            KeyCode::KpHexadecimal => 0x00dd,
            KeyCode::KpLeftControl => 0x00e0,
            KeyCode::KpLeftShift => 0x00e1,
            KeyCode::KpLeftAlt => 0x00e2,
            KeyCode::KpLeftGUI => 0x00e3,
            KeyCode::KpRightControl => 0x00e4,
            KeyCode::KpRightShift => 0x00e5,
            KeyCode::KpRightAlt => 0x00e6,
            KeyCode::KpRightGUI => 0x00e7,
        }
    }

    /// Whether some key bears the number `code`. The numbers in between are
    /// reserved.
    pub open spec fn assigned(code: u16) -> bool {
        ||| code <= 0x0065
        ||| 0x0067 <= code <= 0x00a4
        ||| 0x00b0 <= code <= 0x00dd
        ||| 0x00e0 <= code <= 0x00e7
    }

    /// The number that stands for the key in a report.
    pub fn code(self) -> (code: u16)
        ensures
            code == self.value(),
    {
        match self {
            KeyCode::NoEvent => 0x0000,
            KeyCode::ErrorRollOver => 0x0001,
            KeyCode::PostFail => 0x0002,
            KeyCode::ErrorUndefined => 0x0003,
            KeyCode::KA => 0x0004,
            KeyCode::KB => 0x0005,
            KeyCode::KC => 0x0006,
            KeyCode::KD => 0x0007,
            KeyCode::KE => 0x0008,
            KeyCode::KF => 0x0009,
            KeyCode::KG => 0x000a,
            KeyCode::KH => 0x000b,
            KeyCode::KI => 0x000c,
            KeyCode::KJ => 0x000d,
            KeyCode::KK => 0x000e,
            KeyCode::KL => 0x000f,
            KeyCode::KM => 0x0010,
            KeyCode::KN => 0x0011,
            KeyCode::KO => 0x0012,
            KeyCode::KP => 0x0013,
            KeyCode::KQ => 0x0014,
            KeyCode::KR => 0x0015,
            KeyCode::KS => 0x0016,
            KeyCode::KT => 0x0017,
            KeyCode::KU => 0x0018,
            KeyCode::KV => 0x0019,
            KeyCode::KW => 0x001a,
            KeyCode::KX => 0x001b,
            KeyCode::KY => 0x001c,
            KeyCode::KZ => 0x001d,
            KeyCode::K1 => 0x001e,
            KeyCode::K2 => 0x001f,
            KeyCode::K3 => 0x0020,
            KeyCode::K4 => 0x0021,
            KeyCode::K5 => 0x0022,
            KeyCode::K6 => 0x0023,
            KeyCode::K7 => 0x0024,
            KeyCode::K8 => 0x0025,
            KeyCode::K9 => 0x0026,
            KeyCode::K0 => 0x0027,
            KeyCode::KEnter => 0x0028,
            KeyCode::KEscape => 0x0029,
            KeyCode::KBackspace => 0x002a,
            KeyCode::KTab => 0x002b,
            KeyCode::KSpaceBar => 0x002c,
            KeyCode::KDash => 0x002d,
            KeyCode::KEqual => 0x002e,
            KeyCode::KLeftBracket => 0x002f,
            KeyCode::KRightBracket => 0x0030,
            KeyCode::KBackslash => 0x0031,
            KeyCode::KNonUSPound => 0x0032,
            KeyCode::KSemiColon => 0x0033,
            KeyCode::KQuote => 0x0034,
            KeyCode::KGrave => 0x0035,
            KeyCode::KComma => 0x0036,
            KeyCode::KDot => 0x0037,
            KeyCode::KSlash => 0x0038,
            KeyCode::KCapsLock => 0x0039,
            KeyCode::KF1 => 0x003a,
            KeyCode::KF2 => 0x003b,
            KeyCode::KF3 => 0x003c,
            KeyCode::KF4 => 0x003d,
            KeyCode::KF5 => 0x003e,
            KeyCode::KF6 => 0x003f,
            KeyCode::KF7 => 0x0040,
            KeyCode::KF8 => 0x0041,
            KeyCode::KF9 => 0x0042,
            KeyCode::KF10 => 0x0043,
            KeyCode::KF11 => 0x0044,
            KeyCode::KF12 => 0x0045,
            KeyCode::KPrintScreen => 0x0046,
            KeyCode::KScrollLock => 0x0047,
            KeyCode::KPause => 0x0048,
            KeyCode::KInsert => 0x0049,
            KeyCode::KHome => 0x004a,
            KeyCode::KPageUp => 0x004b,
            KeyCode::KDelete => 0x004c,
            KeyCode::KEnd => 0x004d,
            KeyCode::KPageDown => 0x004e,
            KeyCode::KRightArrow => 0x004f,
            KeyCode::KLeftArrow => 0x0050,
            KeyCode::KDownArrow => 0x0051,
            KeyCode::KUpArrow => 0x0052,
            KeyCode::KpNumLock => 0x0053,
            KeyCode::KpSlash => 0x0054,
            KeyCode::KpAsterisk => 0x0055,
            KeyCode::KpMinus => 0x0056,
            KeyCode::KpPlus => 0x0057,
            KeyCode::KpEnter => 0x0058,
            KeyCode::Kp1 => 0x0059,
            KeyCode::Kp2 => 0x005a,
            KeyCode::Kp3 => 0x005b,
            KeyCode::Kp4 => 0x005c,
            KeyCode::Kp5 => 0x005d,
            KeyCode::Kp6 => 0x005e,
            KeyCode::Kp7 => 0x005f,
            KeyCode::Kp8 => 0x0060,
            KeyCode::Kp9 => 0x0061,
            KeyCode::Kp0 => 0x0062,
            KeyCode::KpDot => 0x0063,
            KeyCode::KNonUSBackslash => 0x0064,
            KeyCode::KApplication => 0x0065,
            KeyCode::KpEqual => 0x0067,
            KeyCode::KF13 => 0x0068,
            KeyCode::KF14 => 0x0069,
            KeyCode::KF15 => 0x006a,
            KeyCode::KF16 => 0x006b,
            KeyCode::KF17 => 0x006c,
            KeyCode::KF18 => 0x006d,
            KeyCode::KF19 => 0x006e,
            KeyCode::KF20 => 0x006f,
            KeyCode::KF21 => 0x0070,
            KeyCode::KF22 => 0x0071,
            KeyCode::KF23 => 0x0072,
            KeyCode::KF24 => 0x0073,
            KeyCode::KExecute => 0x0074,
            KeyCode::KHelp => 0x0075,
            KeyCode::KMenu => 0x0076,
            KeyCode::KSelect => 0x0077,
            KeyCode::KStop => 0x0078,
            KeyCode::KAgain => 0x0079,
            KeyCode::KUndo => 0x007a,
            KeyCode::KCut => 0x007b,
            KeyCode::KCopy => 0x007c,
            KeyCode::KPaste => 0x007d,
            KeyCode::KFind => 0x007e,
            KeyCode::KMute => 0x007f,
            KeyCode::KVolumeUp => 0x0080,
            KeyCode::KVolumeDown => 0x0081,
            KeyCode::KLockingCapsLock => 0x0082,
            KeyCode::KLockingNumLock => 0x0083,
            KeyCode::KLockingScrollLock => 0x0084,
            KeyCode::KpComma => 0x0085,
            KeyCode::KpEqualAS400 => 0x0086,
            KeyCode::KIntl1 => 0x0087,
            KeyCode::KIntl2 => 0x0088,
            KeyCode::KIntl3 => 0x0089,
            KeyCode::KIntl4 => 0x008a,
            KeyCode::KIntl5 => 0x008b,
            KeyCode::KIntl6 => 0x008c,
            KeyCode::KIntl7 => 0x008d,
            KeyCode::KIntl8 => 0x008e,
            KeyCode::KIntl9 => 0x008f,
            KeyCode::KLang1 => 0x0090,
            KeyCode::KLang2 => 0x0091,
            KeyCode::KLang3 => 0x0092,
            KeyCode::KLang4 => 0x0093,
            KeyCode::KLang5 => 0x0094,
            KeyCode::KLang6 => 0x0095,
            KeyCode::KLang7 => 0x0096,
            KeyCode::KLang8 => 0x0097,
            KeyCode::KLang9 => 0x0098,
            KeyCode::KAltErase => 0x0099,
            KeyCode::KSysReq => 0x009a,
            KeyCode::KCancel => 0x009b,
            KeyCode::KClear => 0x009c,
            KeyCode::KPrior => 0x009d,
            KeyCode::KReturn => 0x009e,
            KeyCode::KSeparator => 0x009f,
            KeyCode::KOut => 0x00a0,
            KeyCode::KOper => 0x00a1,
            KeyCode::KClearAgain => 0x00a2,
            KeyCode::KCrSel => 0x00a3,
            KeyCode::KExSel => 0x00a4,
            KeyCode::Kp00 => 0x00b0,
            KeyCode::Kp000 => 0x00b1,
            KeyCode::KpThousandsSeparator => 0x00b2,
            KeyCode::KpDecimalSeparator => 0x00b3,
            KeyCode::KpCurrencyUnit => 0x00b4,
            KeyCode::KpSubunit => 0x00b5,
            KeyCode::KpLeftParenthesis => 0x00b6,
            KeyCode::KpRightParenthesis => 0x00b7,
            KeyCode::KpLeftBrace => 0x00b8,
            KeyCode::KpRightBrace => 0x00b9,
            KeyCode::KpTab => 0x00ba,
            KeyCode::KpBackspace => 0x00bb,
            KeyCode::KpA => 0x00bc,
            KeyCode::KpB => 0x00bd,
            KeyCode::KpC => 0x00be,
            KeyCode::KpD => 0x00bf,
            KeyCode::KpE => 0x00c0,
            KeyCode::KpF => 0x00c1,
            KeyCode::KpXor => 0x00c2,
            KeyCode::KpCaret => 0x00c3,
            KeyCode::KpPercent => 0x00c4,
            KeyCode::KpLessThan => 0x00c5,
            KeyCode::KpGreaterThan => 0x00c6,
            KeyCode::KpAmpersand => 0x00c7,
            KeyCode::KpDoubleAmpersand => 0x00c8,
            KeyCode::KpVerticalPipe => 0x00c9,
            KeyCode::KpDoubleVerticalPipe => 0x00ca,
            KeyCode::KpColon => 0x00cb,
            KeyCode::KpPound => 0x00cc,
            KeyCode::KpSpace => 0x00cd,
            KeyCode::KpAt => 0x00ce,
            KeyCode::KpExclamationMark => 0x00cf,
            KeyCode::KpMemoryStore => 0x00d0,
            KeyCode::KpMemoryRecall => 0x00d1,
            KeyCode::KpMemoryClear => 0x00d2,
            KeyCode::KpMemoryAdd => 0x00d3,
            KeyCode::KpMemorySubtract => 0x00d4,
            KeyCode::KpMemoryMultiply => 0x00d5,
            KeyCode::KpMemoryDivide => 0x00d6,
            KeyCode::KpPlusMinus => 0x00d7,
            KeyCode::KpClear => 0x00d8,
            KeyCode::KpClearEntry => 0x00d9,
            KeyCode::KpBinary => 0x00da,
            KeyCode::KpOctal => 0x00db,
            KeyCode::KpDecimal => 0x00dc,
            KeyCode::KpHexadecimal => 0x00dd,
            KeyCode::KpLeftControl => 0x00e0,
            KeyCode::KpLeftShift => 0x00e1,
            KeyCode::KpLeftAlt => 0x00e2,
            KeyCode::KpLeftGUI => 0x00e3,
            KeyCode::KpRightControl => 0x00e4,
            KeyCode::KpRightShift => 0x00e5,
            KeyCode::KpRightAlt => 0x00e6,
            KeyCode::KpRightGUI => 0x00e7,
        }
    }

    /// The key that bears the number `code`, and `NoEvent` for a reserved
    /// number.
    pub fn from_code(code: u16) -> (key: KeyCode)
        ensures
            KeyCode::assigned(code) ==> key.value() == code,
            !KeyCode::assigned(code) ==> key == KeyCode::NoEvent,
    {
        match code {
            0x0000 => KeyCode::NoEvent,
            0x0001 => KeyCode::ErrorRollOver,
            0x0002 => KeyCode::PostFail,
            0x0003 => KeyCode::ErrorUndefined,
            0x0004 => KeyCode::KA,
            0x0005 => KeyCode::KB,
            0x0006 => KeyCode::KC,
            0x0007 => KeyCode::KD,
            0x0008 => KeyCode::KE,
            0x0009 => KeyCode::KF,
            0x000a => KeyCode::KG,
            0x000b => KeyCode::KH,
            0x000c => KeyCode::KI,
            0x000d => KeyCode::KJ,
            0x000e => KeyCode::KK,
            0x000f => KeyCode::KL,
            0x0010 => KeyCode::KM,
            0x0011 => KeyCode::KN,
            0x0012 => KeyCode::KO,
            0x0013 => KeyCode::KP,
            0x0014 => KeyCode::KQ,
            0x0015 => KeyCode::KR,
            0x0016 => KeyCode::KS,
            0x0017 => KeyCode::KT,
            0x0018 => KeyCode::KU,
            0x0019 => KeyCode::KV,
            0x001a => KeyCode::KW,
            0x001b => KeyCode::KX,
            0x001c => KeyCode::KY,
            0x001d => KeyCode::KZ,
            0x001e => KeyCode::K1,
            0x001f => KeyCode::K2,
            0x0020 => KeyCode::K3,
            0x0021 => KeyCode::K4,
            0x0022 => KeyCode::K5,
            0x0023 => KeyCode::K6,
            0x0024 => KeyCode::K7,
            0x0025 => KeyCode::K8,
            0x0026 => KeyCode::K9,
            0x0027 => KeyCode::K0,
            0x0028 => KeyCode::KEnter,
            0x0029 => KeyCode::KEscape,
            0x002a => KeyCode::KBackspace,
            0x002b => KeyCode::KTab,
            0x002c => KeyCode::KSpaceBar,
            0x002d => KeyCode::KDash,
            0x002e => KeyCode::KEqual,
            0x002f => KeyCode::KLeftBracket,
            0x0030 => KeyCode::KRightBracket,
            0x0031 => KeyCode::KBackslash,
            0x0032 => KeyCode::KNonUSPound,
            0x0033 => KeyCode::KSemiColon,
            0x0034 => KeyCode::KQuote,
            0x0035 => KeyCode::KGrave,
            0x0036 => KeyCode::KComma,
            0x0037 => KeyCode::KDot,
            0x0038 => KeyCode::KSlash,
            0x0039 => KeyCode::KCapsLock,
            0x003a => KeyCode::KF1,
            0x003b => KeyCode::KF2,
            0x003c => KeyCode::KF3,
            0x003d => KeyCode::KF4,
            0x003e => KeyCode::KF5,
            0x003f => KeyCode::KF6,
            0x0040 => KeyCode::KF7,
            0x0041 => KeyCode::KF8,
            0x0042 => KeyCode::KF9,
            0x0043 => KeyCode::KF10,
            0x0044 => KeyCode::KF11,
            0x0045 => KeyCode::KF12,
            0x0046 => KeyCode::KPrintScreen,
            0x0047 => KeyCode::KScrollLock,
            0x0048 => KeyCode::KPause,
            0x0049 => KeyCode::KInsert,
            0x004a => KeyCode::KHome,
            0x004b => KeyCode::KPageUp,
            0x004c => KeyCode::KDelete,
            0x004d => KeyCode::KEnd,
            0x004e => KeyCode::KPageDown,
            0x004f => KeyCode::KRightArrow,
            0x0050 => KeyCode::KLeftArrow,
            0x0051 => KeyCode::KDownArrow,
            0x0052 => KeyCode::KUpArrow,
            0x0053 => KeyCode::KpNumLock,
            0x0054 => KeyCode::KpSlash,
            0x0055 => KeyCode::KpAsterisk,
            0x0056 => KeyCode::KpMinus,
            0x0057 => KeyCode::KpPlus,
            0x0058 => KeyCode::KpEnter,
            0x0059 => KeyCode::Kp1,
            0x005a => KeyCode::Kp2,
            0x005b => KeyCode::Kp3,
            0x005c => KeyCode::Kp4,
            0x005d => KeyCode::Kp5,
            0x005e => KeyCode::Kp6,
            0x005f => KeyCode::Kp7,
            0x0060 => KeyCode::Kp8,
            0x0061 => KeyCode::Kp9,
            0x0062 => KeyCode::Kp0,
            0x0063 => KeyCode::KpDot,
            0x0064 => KeyCode::KNonUSBackslash,
            0x0065 => KeyCode::KApplication,
            0x0067 => KeyCode::KpEqual,
            0x0068 => KeyCode::KF13,
            0x0069 => KeyCode::KF14,
            0x006a => KeyCode::KF15,
            0x006b => KeyCode::KF16,
            0x006c => KeyCode::KF17,
            0x006d => KeyCode::KF18,
            0x006e => KeyCode::KF19,
            0x006f => KeyCode::KF20,
            0x0070 => KeyCode::KF21,
            0x0071 => KeyCode::KF22,
            0x0072 => KeyCode::KF23,
            0x0073 => KeyCode::KF24,
            0x0074 => KeyCode::KExecute,
            0x0075 => KeyCode::KHelp,
            0x0076 => KeyCode::KMenu,
            0x0077 => KeyCode::KSelect,
            0x0078 => KeyCode::KStop,
            0x0079 => KeyCode::KAgain,
            0x007a => KeyCode::KUndo,
            0x007b => KeyCode::KCut,
            0x007c => KeyCode::KCopy,
            0x007d => KeyCode::KPaste,
            0x007e => KeyCode::KFind,
            0x007f => KeyCode::KMute,
            0x0080 => KeyCode::KVolumeUp,
            0x0081 => KeyCode::KVolumeDown,
            0x0082 => KeyCode::KLockingCapsLock,
            0x0083 => KeyCode::KLockingNumLock,
            0x0084 => KeyCode::KLockingScrollLock,
            0x0085 => KeyCode::KpComma,
            0x0086 => KeyCode::KpEqualAS400,
            0x0087 => KeyCode::KIntl1,
            0x0088 => KeyCode::KIntl2,
            0x0089 => KeyCode::KIntl3,
            0x008a => KeyCode::KIntl4,
            0x008b => KeyCode::KIntl5,
            0x008c => KeyCode::KIntl6,
            0x008d => KeyCode::KIntl7,
            0x008e => KeyCode::KIntl8,
            0x008f => KeyCode::KIntl9,
            0x0090 => KeyCode::KLang1,
            0x0091 => KeyCode::KLang2,
            0x0092 => KeyCode::KLang3,
            0x0093 => KeyCode::KLang4,
            0x0094 => KeyCode::KLang5,
            0x0095 => KeyCode::KLang6,
            0x0096 => KeyCode::KLang7,
            0x0097 => KeyCode::KLang8,
            0x0098 => KeyCode::KLang9,
            0x0099 => KeyCode::KAltErase,
            0x009a => KeyCode::KSysReq,
            0x009b => KeyCode::KCancel,
            0x009c => KeyCode::KClear,
            0x009d => KeyCode::KPrior,
            0x009e => KeyCode::KReturn,
            0x009f => KeyCode::KSeparator,
            0x00a0 => KeyCode::KOut,
            0x00a1 => KeyCode::KOper,
            0x00a2 => KeyCode::KClearAgain,
            0x00a3 => KeyCode::KCrSel,
            0x00a4 => KeyCode::KExSel,
            0x00b0 => KeyCode::Kp00,
            0x00b1 => KeyCode::Kp000,
            0x00b2 => KeyCode::KpThousandsSeparator,
            0x00b3 => KeyCode::KpDecimalSeparator,
            0x00b4 => KeyCode::KpCurrencyUnit,
            0x00b5 => KeyCode::KpSubunit,
            0x00b6 => KeyCode::KpLeftParenthesis,
            0x00b7 => KeyCode::KpRightParenthesis,
            0x00b8 => KeyCode::KpLeftBrace,
            0x00b9 => KeyCode::KpRightBrace,
            0x00ba => KeyCode::KpTab,
            0x00bb => KeyCode::KpBackspace,
            0x00bc => KeyCode::KpA,
            0x00bd => KeyCode::KpB,
            0x00be => KeyCode::KpC,
            0x00bf => KeyCode::KpD,
            0x00c0 => KeyCode::KpE,
            0x00c1 => KeyCode::KpF,
            0x00c2 => KeyCode::KpXor,
            0x00c3 => KeyCode::KpCaret,
            0x00c4 => KeyCode::KpPercent,
            0x00c5 => KeyCode::KpLessThan,
            0x00c6 => KeyCode::KpGreaterThan,
            0x00c7 => KeyCode::KpAmpersand,
            0x00c8 => KeyCode::KpDoubleAmpersand,
            0x00c9 => KeyCode::KpVerticalPipe,
            0x00ca => KeyCode::KpDoubleVerticalPipe,
            0x00cb => KeyCode::KpColon,
            0x00cc => KeyCode::KpPound,
            0x00cd => KeyCode::KpSpace,
            0x00ce => KeyCode::KpAt,
            0x00cf => KeyCode::KpExclamationMark,
            0x00d0 => KeyCode::KpMemoryStore,
            0x00d1 => KeyCode::KpMemoryRecall,
            0x00d2 => KeyCode::KpMemoryClear,
            0x00d3 => KeyCode::KpMemoryAdd,
            0x00d4 => KeyCode::KpMemorySubtract,
            0x00d5 => KeyCode::KpMemoryMultiply,
            0x00d6 => KeyCode::KpMemoryDivide,
            0x00d7 => KeyCode::KpPlusMinus,
            0x00d8 => KeyCode::KpClear,
            0x00d9 => KeyCode::KpClearEntry,
            0x00da => KeyCode::KpBinary,
            0x00db => KeyCode::KpOctal,
            0x00dc => KeyCode::KpDecimal,
            0x00dd => KeyCode::KpHexadecimal,
            0x00e0 => KeyCode::KpLeftControl,
            0x00e1 => KeyCode::KpLeftShift,
            0x00e2 => KeyCode::KpLeftAlt,
            0x00e3 => KeyCode::KpLeftGUI,
            0x00e4 => KeyCode::KpRightControl,
            0x00e5 => KeyCode::KpRightShift,
            0x00e6 => KeyCode::KpRightAlt,
            0x00e7 => KeyCode::KpRightGUI,
            _ => KeyCode::NoEvent,
        }
    }
}

/// No two keys bear the same number, so a key is found again by its number.
pub proof fn lemma_codes_are_distinct(first: KeyCode, second: KeyCode)
    requires
        first.value() == second.value(),
    ensures
        first == second,
{
}

/// Every key bears an assigned number, and zero stands for `NoEvent` alone.
pub proof fn lemma_no_event_is_zero(key: KeyCode)
    ensures
        KeyCode::assigned(key.value()),
        key.value() == 0 <==> key == KeyCode::NoEvent,
{
}

} // verus!
