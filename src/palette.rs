//! Attribute and color codes, the name tables, and their decimal text.

use vstd::prelude::*;
use crate::text::text_eq;

verus! {

/// A text attribute of the terminal.
#[derive(Debug, Clone, Copy, PartialEq, Eq, Hash, Structural)]
pub enum CgrcAttrib {
    CgrcNone,
    CgrcReset,
    CgrcBright,
    CgrcDim,
    CgrcItalic,
    CgrcUnderline,
    CgrcBlink,
    CgrcRapidBlink,
    CgrcReverse,
    CgrcHidden,
    CgrcStrikethrough,
}

/// The code that switches an attribute off.
#[derive(Debug, Clone, Copy, PartialEq, Eq, Structural)]
pub enum CgrcResetAttrib {
    CgrcResetNone,
    CgrcResetBright,
    CgrcResetDim,
    CgrcResetItalic,
    CgrcResetUnderline,
    CgrcResetBlink,
    CgrcResetRapidBlink,
    CgrcResetReverse,
    CgrcResetHidden,
    CgrcResetStrikethrough,
}

/// Cross-line counting mode of a rule; carried, never consulted by matching.
#[derive(Debug, Clone, Copy, PartialEq, Eq, Structural)]
pub enum CgrcCountMode {
    CgrcCountOnce,
    CgrcCountMore,
    CgrcCountStop,
    CgrcCountPrevious,
    CgrcCountBlock,
    CgrcCountUnblock,
}

/// A base hue; foreground and background codes are offsets of its value.
#[derive(Debug, Clone, Copy, PartialEq, Eq, Structural)]
pub enum CgrcColor {
    LcBlack,
    LcRed,
    LcGreen,
    LcYellow,
    LcBlue,
    LcMagenta,
    LcCyan,
    LcWhite,
    LcDefault,
}

/// A background color: normal (40 + hue), bright (100 + hue) or default (49).
#[derive(Debug, Clone, Copy, PartialEq, Eq, Hash, Structural)]
pub enum LcBackColor {
    LcBackColBlack,
    LcBackColRed,
    LcBackColGreen,
    LcBackColYellow,
    LcBackColBlue,
    LcBackColMagenta,
    LcBackColCyan,
    LcBackColWhite,
    LcBackBrightColBlack,
    LcBackBrightColRed,
    LcBackBrightColGreen,
    LcBackBrightColYellow,
    LcBackBrightColBlue,
    LcBackBrightColMagenta,
    LcBackBrightColCyan,
    LcBackBrightColWhite,
    LcBackColDefault,
}

/// A foreground color: normal (30 + hue), bright (90 + hue) or default (39).
#[derive(Debug, Clone, Copy, PartialEq, Eq, Hash, Structural)]
pub enum LcLogColor {
    LcForgColBlack,
    LcForgColRed,
    LcForgColGreen,
    LcForgColYellow,
    LcForgColBlue,
    LcForgColMagenta,
    LcForgColCyan,
    LcForgColWhite,
    LcForgBrightColBlack,
    LcForgBrightColRed,
    LcForgBrightColGreen,
    LcForgBrightColYellow,
    LcForgBrightColBlue,
    LcForgBrightColMagenta,
    LcForgBrightColCyan,
    LcForgBrightColWhite,
    LcForgColDefault,
}

impl CgrcAttrib {
    /// Activation code; `CgrcNone` has none.
    pub open spec fn spec_code(self) -> Option<u8> {
        match self {
            CgrcAttrib::CgrcNone => None,
            CgrcAttrib::CgrcReset => Some(0),
            CgrcAttrib::CgrcBright => Some(1),
            CgrcAttrib::CgrcDim => Some(2),
            CgrcAttrib::CgrcItalic => Some(3),
            CgrcAttrib::CgrcUnderline => Some(4),
            CgrcAttrib::CgrcBlink => Some(5),
            CgrcAttrib::CgrcRapidBlink => Some(6),
            CgrcAttrib::CgrcReverse => Some(7),
            CgrcAttrib::CgrcHidden => Some(8),
            CgrcAttrib::CgrcStrikethrough => Some(9),
        }
    }

    pub fn code(&self) -> (r: Option<u8>)
        ensures
            r == self.spec_code(),
    {
        match self {
            CgrcAttrib::CgrcNone => None,
            CgrcAttrib::CgrcReset => Some(0),
            CgrcAttrib::CgrcBright => Some(1),
            CgrcAttrib::CgrcDim => Some(2),
            CgrcAttrib::CgrcItalic => Some(3),
            CgrcAttrib::CgrcUnderline => Some(4),
            CgrcAttrib::CgrcBlink => Some(5),
            CgrcAttrib::CgrcRapidBlink => Some(6),
            CgrcAttrib::CgrcReverse => Some(7),
            CgrcAttrib::CgrcHidden => Some(8),
            CgrcAttrib::CgrcStrikethrough => Some(9),
        }
    }
}

impl CgrcResetAttrib {
    pub open spec fn spec_code(self) -> u8 {
        match self {
            CgrcResetAttrib::CgrcResetNone => 0,
            CgrcResetAttrib::CgrcResetBright => 21,
            CgrcResetAttrib::CgrcResetDim => 22,
            CgrcResetAttrib::CgrcResetItalic => 23,
            CgrcResetAttrib::CgrcResetUnderline => 24,
            CgrcResetAttrib::CgrcResetBlink => 25,
            CgrcResetAttrib::CgrcResetRapidBlink => 26,
            CgrcResetAttrib::CgrcResetReverse => 27,
            CgrcResetAttrib::CgrcResetHidden => 28,
            CgrcResetAttrib::CgrcResetStrikethrough => 29,
        }
    }

    pub fn code(&self) -> (r: u8)
        ensures
            r == self.spec_code(),
    {
        match self {
            CgrcResetAttrib::CgrcResetNone => 0,
            CgrcResetAttrib::CgrcResetBright => 21,
            CgrcResetAttrib::CgrcResetDim => 22,
            CgrcResetAttrib::CgrcResetItalic => 23,
            CgrcResetAttrib::CgrcResetUnderline => 24,
            CgrcResetAttrib::CgrcResetBlink => 25,
            CgrcResetAttrib::CgrcResetRapidBlink => 26,
            CgrcResetAttrib::CgrcResetReverse => 27,
            CgrcResetAttrib::CgrcResetHidden => 28,
            CgrcResetAttrib::CgrcResetStrikethrough => 29,
        }
    }
}

impl CgrcColor {
    pub open spec fn spec_value(self) -> u8 {
        match self {
            CgrcColor::LcBlack => 0,
            CgrcColor::LcRed => 1,
            CgrcColor::LcGreen => 2,
            CgrcColor::LcYellow => 3,
            CgrcColor::LcBlue => 4,
            CgrcColor::LcMagenta => 5,
            CgrcColor::LcCyan => 6,
            CgrcColor::LcWhite => 7,
            CgrcColor::LcDefault => 9,
        }
    }

    pub fn value(&self) -> (r: u8)
        ensures
            r == self.spec_value(),
    {
        match self {
            CgrcColor::LcBlack => 0,
            CgrcColor::LcRed => 1,
            CgrcColor::LcGreen => 2,
            CgrcColor::LcYellow => 3,
            CgrcColor::LcBlue => 4,
            CgrcColor::LcMagenta => 5,
            CgrcColor::LcCyan => 6,
            CgrcColor::LcWhite => 7,
            CgrcColor::LcDefault => 9,
        }
    }
}

impl LcBackColor {
    /// The hue and whether it is the bright variant.
    pub open spec fn spec_hue(self) -> (CgrcColor, bool) {
        match self {
            LcBackColor::LcBackColBlack => (CgrcColor::LcBlack, false),
            LcBackColor::LcBackColRed => (CgrcColor::LcRed, false),
            LcBackColor::LcBackColGreen => (CgrcColor::LcGreen, false),
            LcBackColor::LcBackColYellow => (CgrcColor::LcYellow, false),
            LcBackColor::LcBackColBlue => (CgrcColor::LcBlue, false),
            LcBackColor::LcBackColMagenta => (CgrcColor::LcMagenta, false),
            LcBackColor::LcBackColCyan => (CgrcColor::LcCyan, false),
            LcBackColor::LcBackColWhite => (CgrcColor::LcWhite, false),
            LcBackColor::LcBackBrightColBlack => (CgrcColor::LcBlack, true),
            LcBackColor::LcBackBrightColRed => (CgrcColor::LcRed, true),
            LcBackColor::LcBackBrightColGreen => (CgrcColor::LcGreen, true),
            LcBackColor::LcBackBrightColYellow => (CgrcColor::LcYellow, true),
            LcBackColor::LcBackBrightColBlue => (CgrcColor::LcBlue, true),
            LcBackColor::LcBackBrightColMagenta => (CgrcColor::LcMagenta, true),
            LcBackColor::LcBackBrightColCyan => (CgrcColor::LcCyan, true),
            LcBackColor::LcBackBrightColWhite => (CgrcColor::LcWhite, true),
            LcBackColor::LcBackColDefault => (CgrcColor::LcDefault, false),
        }
    }

    pub open spec fn spec_code(self) -> u8 {
        let (hue, bright) = self.spec_hue();
        if bright {
            (100 + hue.spec_value()) as u8
        } else {
            (40 + hue.spec_value()) as u8
        }
    }

    pub fn hue(&self) -> (r: (CgrcColor, bool))
        ensures
            r == self.spec_hue(),
    {
        match self {
            LcBackColor::LcBackColBlack => (CgrcColor::LcBlack, false),
            LcBackColor::LcBackColRed => (CgrcColor::LcRed, false),
            LcBackColor::LcBackColGreen => (CgrcColor::LcGreen, false),
            LcBackColor::LcBackColYellow => (CgrcColor::LcYellow, false),
            LcBackColor::LcBackColBlue => (CgrcColor::LcBlue, false),
            LcBackColor::LcBackColMagenta => (CgrcColor::LcMagenta, false),
            LcBackColor::LcBackColCyan => (CgrcColor::LcCyan, false),
            LcBackColor::LcBackColWhite => (CgrcColor::LcWhite, false),
            LcBackColor::LcBackBrightColBlack => (CgrcColor::LcBlack, true),
            LcBackColor::LcBackBrightColRed => (CgrcColor::LcRed, true),
            LcBackColor::LcBackBrightColGreen => (CgrcColor::LcGreen, true),
            LcBackColor::LcBackBrightColYellow => (CgrcColor::LcYellow, true),
            LcBackColor::LcBackBrightColBlue => (CgrcColor::LcBlue, true),
            LcBackColor::LcBackBrightColMagenta => (CgrcColor::LcMagenta, true),
            LcBackColor::LcBackBrightColCyan => (CgrcColor::LcCyan, true),
            LcBackColor::LcBackBrightColWhite => (CgrcColor::LcWhite, true),
            LcBackColor::LcBackColDefault => (CgrcColor::LcDefault, false),
        }
    }

    pub fn code(&self) -> (r: u8)
        ensures
            r == self.spec_code(),
    {
        let (hue, bright) = self.hue();
        if bright {
            100 + hue.value()
        } else {
            40 + hue.value()
        }
    }
}

impl LcLogColor {
    /// The hue and whether it is the bright variant.
    pub open spec fn spec_hue(self) -> (CgrcColor, bool) {
        match self {
            LcLogColor::LcForgColBlack => (CgrcColor::LcBlack, false),
            LcLogColor::LcForgColRed => (CgrcColor::LcRed, false),
            LcLogColor::LcForgColGreen => (CgrcColor::LcGreen, false),
            LcLogColor::LcForgColYellow => (CgrcColor::LcYellow, false),
            LcLogColor::LcForgColBlue => (CgrcColor::LcBlue, false),
            LcLogColor::LcForgColMagenta => (CgrcColor::LcMagenta, false),
            LcLogColor::LcForgColCyan => (CgrcColor::LcCyan, false),
            LcLogColor::LcForgColWhite => (CgrcColor::LcWhite, false),
            LcLogColor::LcForgBrightColBlack => (CgrcColor::LcBlack, true),
            LcLogColor::LcForgBrightColRed => (CgrcColor::LcRed, true),
            LcLogColor::LcForgBrightColGreen => (CgrcColor::LcGreen, true),
            LcLogColor::LcForgBrightColYellow => (CgrcColor::LcYellow, true),
            LcLogColor::LcForgBrightColBlue => (CgrcColor::LcBlue, true),
            LcLogColor::LcForgBrightColMagenta => (CgrcColor::LcMagenta, true),
            LcLogColor::LcForgBrightColCyan => (CgrcColor::LcCyan, true),
            LcLogColor::LcForgBrightColWhite => (CgrcColor::LcWhite, true),
            LcLogColor::LcForgColDefault => (CgrcColor::LcDefault, false),
        }
    }

    pub open spec fn spec_code(self) -> u8 {
        let (hue, bright) = self.spec_hue();
        if bright {
            (90 + hue.spec_value()) as u8
        } else {
            (30 + hue.spec_value()) as u8
        }
    }

    pub fn hue(&self) -> (r: (CgrcColor, bool))
        ensures
            r == self.spec_hue(),
    {
        match self {
            LcLogColor::LcForgColBlack => (CgrcColor::LcBlack, false),
            LcLogColor::LcForgColRed => (CgrcColor::LcRed, false),
            LcLogColor::LcForgColGreen => (CgrcColor::LcGreen, false),
            LcLogColor::LcForgColYellow => (CgrcColor::LcYellow, false),
            LcLogColor::LcForgColBlue => (CgrcColor::LcBlue, false),
            LcLogColor::LcForgColMagenta => (CgrcColor::LcMagenta, false),
            LcLogColor::LcForgColCyan => (CgrcColor::LcCyan, false),
            LcLogColor::LcForgColWhite => (CgrcColor::LcWhite, false),
            LcLogColor::LcForgBrightColBlack => (CgrcColor::LcBlack, true),
            LcLogColor::LcForgBrightColRed => (CgrcColor::LcRed, true),
            LcLogColor::LcForgBrightColGreen => (CgrcColor::LcGreen, true),
            LcLogColor::LcForgBrightColYellow => (CgrcColor::LcYellow, true),
            LcLogColor::LcForgBrightColBlue => (CgrcColor::LcBlue, true),
            LcLogColor::LcForgBrightColMagenta => (CgrcColor::LcMagenta, true),
            LcLogColor::LcForgBrightColCyan => (CgrcColor::LcCyan, true),
            LcLogColor::LcForgBrightColWhite => (CgrcColor::LcWhite, true),
            LcLogColor::LcForgColDefault => (CgrcColor::LcDefault, false),
        }
    }

    pub fn code(&self) -> (r: u8)
        ensures
            r == self.spec_code(),
    {
        let (hue, bright) = self.hue();
        if bright {
            90 + hue.value()
        } else {
            30 + hue.value()
        }
    }
}

/// The deactivation code of each attribute; those without one map to `CgrcResetNone`.
pub open spec fn spec_attr_clear(attr: CgrcAttrib) -> CgrcResetAttrib {
    match attr {
        CgrcAttrib::CgrcBright => CgrcResetAttrib::CgrcResetBright,
        CgrcAttrib::CgrcDim => CgrcResetAttrib::CgrcResetDim,
        CgrcAttrib::CgrcItalic => CgrcResetAttrib::CgrcResetItalic,
        CgrcAttrib::CgrcUnderline => CgrcResetAttrib::CgrcResetUnderline,
        CgrcAttrib::CgrcBlink => CgrcResetAttrib::CgrcResetBlink,
        CgrcAttrib::CgrcRapidBlink => CgrcResetAttrib::CgrcResetRapidBlink,
        CgrcAttrib::CgrcReverse => CgrcResetAttrib::CgrcResetReverse,
        CgrcAttrib::CgrcHidden => CgrcResetAttrib::CgrcResetHidden,
        CgrcAttrib::CgrcStrikethrough => CgrcResetAttrib::CgrcResetStrikethrough,
        _ => CgrcResetAttrib::CgrcResetNone,
    }
}

pub fn colors_attr_clear(attr: &CgrcAttrib) -> (r: CgrcResetAttrib)
    ensures
        r == spec_attr_clear(*attr),
{
    match attr {
        CgrcAttrib::CgrcBright => CgrcResetAttrib::CgrcResetBright,
        CgrcAttrib::CgrcDim => CgrcResetAttrib::CgrcResetDim,
        CgrcAttrib::CgrcItalic => CgrcResetAttrib::CgrcResetItalic,
        CgrcAttrib::CgrcUnderline => CgrcResetAttrib::CgrcResetUnderline,
        CgrcAttrib::CgrcBlink => CgrcResetAttrib::CgrcResetBlink,
        CgrcAttrib::CgrcRapidBlink => CgrcResetAttrib::CgrcResetRapidBlink,
        CgrcAttrib::CgrcReverse => CgrcResetAttrib::CgrcResetReverse,
        CgrcAttrib::CgrcHidden => CgrcResetAttrib::CgrcResetHidden,
        CgrcAttrib::CgrcStrikethrough => CgrcResetAttrib::CgrcResetStrikethrough,
        _ => CgrcResetAttrib::CgrcResetNone,
    }
}

/// The character of a decimal digit.
pub open spec fn digit_char(d: nat) -> char {
    if d == 0 { '0' }
    else if d == 1 { '1' }
    else if d == 2 { '2' }
    else if d == 3 { '3' }
    else if d == 4 { '4' }
    else if d == 5 { '5' }
    else if d == 6 { '6' }
    else if d == 7 { '7' }
    else if d == 8 { '8' }
    else { '9' }
}

/// The decimal text of a number, without leading zeros.
pub open spec fn decimal(n: nat) -> Seq<char>
    decreases n,
{
    if n < 10 {
        seq![digit_char(n)]
    } else {
        decimal(n / 10).push(digit_char(n % 10))
    }
}

fn digit_text(d: u8) -> (r: &'static str)
    requires
        d < 10,
    ensures
        r@ == seq![digit_char(d as nat)],
{
    proof {
        reveal_strlit("0");
        reveal_strlit("1");
        reveal_strlit("2");
        reveal_strlit("3");
        reveal_strlit("4");
        reveal_strlit("5");
        reveal_strlit("6");
        reveal_strlit("7");
        reveal_strlit("8");
        reveal_strlit("9");
    }
    match d {
        0 => "0",
        1 => "1",
        2 => "2",
        3 => "3",
        4 => "4",
        5 => "5",
        6 => "6",
        7 => "7",
        8 => "8",
        _ => "9",
    }
}

/// Appends the decimal text of `n` to `out`.
pub fn push_decimal(out: &mut String, n: u8)
    ensures
        final(out)@ == old(out)@ + decimal(n as nat),
{
    if n >= 100 {
        out.append(digit_text(n / 100));
        out.append(digit_text((n / 10) % 10));
        out.append(digit_text(n % 10));
        let ghost t = (n / 10) as nat;
        assert(t / 10 == (n / 100) as nat);
        assert(decimal(t) == decimal(t / 10).push(digit_char(t % 10)));
        assert(decimal(n as nat) == decimal(t).push(digit_char((n % 10) as nat)));
    } else if n >= 10 {
        out.append(digit_text(n / 10));
        out.append(digit_text(n % 10));
        assert(decimal(n as nat) == decimal((n / 10) as nat).push(digit_char((n % 10) as nat)));
    } else {
        out.append(digit_text(n));
    }
}

/// The attribute table: exact, case-sensitive names.
pub open spec fn spec_attr_by_name(name: Seq<char>) -> Option<CgrcAttrib> {
    if name == "none"@ {
        Some(CgrcAttrib::CgrcNone)
    } else if name == "unchanged"@ {
        Some(CgrcAttrib::CgrcNone)
    } else if name == "default"@ {
        Some(CgrcAttrib::CgrcReset)
    } else if name == "bold"@ {
        Some(CgrcAttrib::CgrcBright)
    } else if name == "underline"@ {
        Some(CgrcAttrib::CgrcUnderline)
    } else if name == "blink"@ {
        Some(CgrcAttrib::CgrcBlink)
    } else if name == "reverse"@ {
        Some(CgrcAttrib::CgrcReverse)
    } else if name == "concealed"@ {
        Some(CgrcAttrib::CgrcHidden)
    } else if name == "dark"@ {
        Some(CgrcAttrib::CgrcDim)
    } else if name == "italic"@ {
        Some(CgrcAttrib::CgrcItalic)
    } else if name == "rapidblink"@ {
        Some(CgrcAttrib::CgrcRapidBlink)
    } else if name == "strikethrough"@ {
        Some(CgrcAttrib::CgrcStrikethrough)
    } else {
        None
    }
}

pub fn attr_by_name(name: &str) -> (r: Option<CgrcAttrib>)
    ensures
        r == spec_attr_by_name(name@),
{
    if text_eq(name, "none") {
        Some(CgrcAttrib::CgrcNone)
    } else if text_eq(name, "unchanged") {
        Some(CgrcAttrib::CgrcNone)
    } else if text_eq(name, "default") {
        Some(CgrcAttrib::CgrcReset)
    } else if text_eq(name, "bold") {
        Some(CgrcAttrib::CgrcBright)
    } else if text_eq(name, "underline") {
        Some(CgrcAttrib::CgrcUnderline)
    } else if text_eq(name, "blink") {
        Some(CgrcAttrib::CgrcBlink)
    } else if text_eq(name, "reverse") {
        Some(CgrcAttrib::CgrcReverse)
    } else if text_eq(name, "concealed") {
        Some(CgrcAttrib::CgrcHidden)
    } else if text_eq(name, "dark") {
        Some(CgrcAttrib::CgrcDim)
    } else if text_eq(name, "italic") {
        Some(CgrcAttrib::CgrcItalic)
    } else if text_eq(name, "rapidblink") {
        Some(CgrcAttrib::CgrcRapidBlink)
    } else if text_eq(name, "strikethrough") {
        Some(CgrcAttrib::CgrcStrikethrough)
    } else {
        None
    }
}

/// The background table: exact, case-sensitive names.
pub open spec fn spec_back_by_name(name: Seq<char>) -> Option<LcBackColor> {
    if name == "on_black"@ {
        Some(LcBackColor::LcBackColBlack)
    } else if name == "on_red"@ {
        Some(LcBackColor::LcBackColRed)
    } else if name == "on_green"@ {
        Some(LcBackColor::LcBackColGreen)
    } else if name == "on_yellow"@ {
        Some(LcBackColor::LcBackColYellow)
    } else if name == "on_blue"@ {
        Some(LcBackColor::LcBackColBlue)
    } else if name == "on_magenta"@ {
        Some(LcBackColor::LcBackColMagenta)
    } else if name == "on_cyan"@ {
        Some(LcBackColor::LcBackColCyan)
    } else if name == "on_white"@ {
        Some(LcBackColor::LcBackColWhite)
    } else if name == "on_bright_black"@ {
        Some(LcBackColor::LcBackBrightColBlack)
    } else if name == "on_bright_red"@ {
        Some(LcBackColor::LcBackBrightColRed)
    } else if name == "on_bright_green"@ {
        Some(LcBackColor::LcBackBrightColGreen)
    } else if name == "on_bright_yellow"@ {
        Some(LcBackColor::LcBackBrightColYellow)
    } else if name == "on_bright_blue"@ {
        Some(LcBackColor::LcBackBrightColBlue)
    } else if name == "on_bright_magenta"@ {
        Some(LcBackColor::LcBackBrightColMagenta)
    } else if name == "on_bright_cyan"@ {
        Some(LcBackColor::LcBackBrightColCyan)
    } else if name == "on_bright_white"@ {
        Some(LcBackColor::LcBackBrightColWhite)
    } else {
        None
    }
}

pub fn back_by_name(name: &str) -> (r: Option<LcBackColor>)
    ensures
        r == spec_back_by_name(name@),
{
    if text_eq(name, "on_black") {
        Some(LcBackColor::LcBackColBlack)
    } else if text_eq(name, "on_red") {
        Some(LcBackColor::LcBackColRed)
    } else if text_eq(name, "on_green") {
        Some(LcBackColor::LcBackColGreen)
    } else if text_eq(name, "on_yellow") {
        Some(LcBackColor::LcBackColYellow)
    } else if text_eq(name, "on_blue") {
        Some(LcBackColor::LcBackColBlue)
    } else if text_eq(name, "on_magenta") {
        Some(LcBackColor::LcBackColMagenta)
    } else if text_eq(name, "on_cyan") {
        Some(LcBackColor::LcBackColCyan)
    } else if text_eq(name, "on_white") {
        Some(LcBackColor::LcBackColWhite)
    } else if text_eq(name, "on_bright_black") {
        Some(LcBackColor::LcBackBrightColBlack)
    } else if text_eq(name, "on_bright_red") {
        Some(LcBackColor::LcBackBrightColRed)
    } else if text_eq(name, "on_bright_green") {
        Some(LcBackColor::LcBackBrightColGreen)
    } else if text_eq(name, "on_bright_yellow") {
        Some(LcBackColor::LcBackBrightColYellow)
    } else if text_eq(name, "on_bright_blue") {
        Some(LcBackColor::LcBackBrightColBlue)
    } else if text_eq(name, "on_bright_magenta") {
        Some(LcBackColor::LcBackBrightColMagenta)
    } else if text_eq(name, "on_bright_cyan") {
        Some(LcBackColor::LcBackBrightColCyan)
    } else if text_eq(name, "on_bright_white") {
        Some(LcBackColor::LcBackBrightColWhite)
    } else {
        None
    }
}

/// The foreground table: exact, case-sensitive names.
pub open spec fn spec_forg_by_name(name: Seq<char>) -> Option<LcLogColor> {
    if name == "black"@ {
        Some(LcLogColor::LcForgColBlack)
    } else if name == "red"@ {
        Some(LcLogColor::LcForgColRed)
    } else if name == "green"@ {
        Some(LcLogColor::LcForgColGreen)
    } else if name == "yellow"@ {
        Some(LcLogColor::LcForgColYellow)
    } else if name == "blue"@ {
        Some(LcLogColor::LcForgColBlue)
    } else if name == "magenta"@ {
        Some(LcLogColor::LcForgColMagenta)
    } else if name == "cyan"@ {
        Some(LcLogColor::LcForgColCyan)
    } else if name == "white"@ {
        Some(LcLogColor::LcForgColWhite)
    } else if name == "bright_black"@ {
        Some(LcLogColor::LcForgBrightColBlack)
    } else if name == "bright_red"@ {
        Some(LcLogColor::LcForgBrightColRed)
    } else if name == "bright_green"@ {
        Some(LcLogColor::LcForgBrightColGreen)
    } else if name == "bright_yellow"@ {
        Some(LcLogColor::LcForgBrightColYellow)
    } else if name == "bright_blue"@ {
        Some(LcLogColor::LcForgBrightColBlue)
    } else if name == "bright_magenta"@ {
        Some(LcLogColor::LcForgBrightColMagenta)
    } else if name == "bright_cyan"@ {
        Some(LcLogColor::LcForgBrightColCyan)
    } else if name == "bright_white"@ {
        Some(LcLogColor::LcForgBrightColWhite)
    } else {
        None
    }
}

pub fn forg_by_name(name: &str) -> (r: Option<LcLogColor>)
    ensures
        r == spec_forg_by_name(name@),
{
    if text_eq(name, "black") {
        Some(LcLogColor::LcForgColBlack)
    } else if text_eq(name, "red") {
        Some(LcLogColor::LcForgColRed)
    } else if text_eq(name, "green") {
        Some(LcLogColor::LcForgColGreen)
    } else if text_eq(name, "yellow") {
        Some(LcLogColor::LcForgColYellow)
    } else if text_eq(name, "blue") {
        Some(LcLogColor::LcForgColBlue)
    } else if text_eq(name, "magenta") {
        Some(LcLogColor::LcForgColMagenta)
    } else if text_eq(name, "cyan") {
        Some(LcLogColor::LcForgColCyan)
    } else if text_eq(name, "white") {
        Some(LcLogColor::LcForgColWhite)
    } else if text_eq(name, "bright_black") {
        Some(LcLogColor::LcForgBrightColBlack)
    } else if text_eq(name, "bright_red") {
        Some(LcLogColor::LcForgBrightColRed)
    } else if text_eq(name, "bright_green") {
        Some(LcLogColor::LcForgBrightColGreen)
    } else if text_eq(name, "bright_yellow") {
        Some(LcLogColor::LcForgBrightColYellow)
    } else if text_eq(name, "bright_blue") {
        Some(LcLogColor::LcForgBrightColBlue)
    } else if text_eq(name, "bright_magenta") {
        Some(LcLogColor::LcForgBrightColMagenta)
    } else if text_eq(name, "bright_cyan") {
        Some(LcLogColor::LcForgBrightColCyan)
    } else if text_eq(name, "bright_white") {
        Some(LcLogColor::LcForgBrightColWhite)
    } else {
        None
    }
}

/// The attributes that the names resolve to, in the order given; unknown names are dropped.
pub open spec fn attrs_of_names(names: Seq<Seq<char>>) -> Seq<CgrcAttrib>
    decreases names.len(),
{
    if names.len() == 0 {
        Seq::empty()
    } else {
        attrs_of_names(names.drop_last()) + match spec_attr_by_name(names.last()) {
            Some(a) => seq![a],
            None => Seq::empty(),
        }
    }
}

pub fn attrs_from_names(names: &Vec<String>) -> (r: Vec<CgrcAttrib>)
    ensures
        r@ == attrs_of_names(names@.map_values(|n: String| n@)),
{
    let ghost texts = names@.map_values(|n: String| n@);
    let mut attrs: Vec<CgrcAttrib> = Vec::new();
    let mut i: usize = 0;
    assert(texts.take(0) =~= Seq::<Seq<char>>::empty());
    while i < names.len()
        invariant
            i <= names.len(),
            texts == names@.map_values(|n: String| n@),
            attrs@ == attrs_of_names(texts.take(i as int)),
        decreases names.len() - i,
    {
        assert(texts.take(i + 1).drop_last() == texts.take(i as int));
        assert(texts.take(i + 1).last() == names@[i as int]@);
        let ghost before = attrs@;
        match attr_by_name(names[i].as_str()) {
            Some(a) => {
                attrs.push(a);
                assert(attrs@ =~= before + seq![a]);
            },
            None => {
                assert(attrs@ =~= before + Seq::<CgrcAttrib>::empty());
            },
        }
        i += 1;
    }
    assert(texts.take(names.len() as int) == texts);
    attrs
}

} // verus!
