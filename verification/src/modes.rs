//! Firmware enumerations: built-in lighting effects, brightness levels, and
//! preset accent-color selectors, each with its stable firmware byte code.

use vstd::prelude::*;

verus! {

/// Firmware accent-color selector: seven preset colors plus a cycling mode.
#[derive(Debug, Clone, Copy, PartialEq, Eq, Structural)]
pub enum CbColor {
    Color1,
    Color2,
    Color3,
    Color4,
    Color5,
    Color6,
    Color7,
    ColorLoop,
}

/// The byte code the firmware expects for each accent-color selector.
pub open spec fn color_code(c: CbColor) -> u8 {
    match c {
        CbColor::Color1 => 0x00,
        CbColor::Color2 => 0x01,
        CbColor::Color3 => 0x02,
        CbColor::Color4 => 0x03,
        CbColor::Color5 => 0x04,
        CbColor::Color6 => 0x05,
        CbColor::Color7 => 0x06,
        CbColor::ColorLoop => 0x07,
    }
}

impl CbColor {
    pub fn code(&self) -> (r: u8)
        ensures
            r == color_code(*self),
    {
        match self {
            CbColor::Color1 => 0x00,
            CbColor::Color2 => 0x01,
            CbColor::Color3 => 0x02,
            CbColor::Color4 => 0x03,
            CbColor::Color5 => 0x04,
            CbColor::Color6 => 0x05,
            CbColor::Color7 => 0x06,
            CbColor::ColorLoop => 0x07,
        }
    }
}

impl Default for CbColor {
    fn default() -> (r: Self)
        ensures
            r == CbColor::Color5,
    {
        CbColor::Color5
    }
}

/// A built-in lighting effect: twelve named firmware modes plus five
/// user-defined picture slots. The firmware byte codes are not contiguous:
/// the user-defined slots start at a gap value.
#[derive(Debug, Clone, Copy, PartialEq, Eq, Structural)]
pub enum CbEffect {
    Static,
    Breathe,
    Fade,
    GettingOff,
    LittleStars,
    Laser,
    Wave,
    Neon,
    RainDrop,
    Ripple,
    Wave2,
    Swirl,
    USERDEFINE1,
    USERDEFINE2,
    USERDEFINE3,
    USERDEFINE4,
    USERDEFINE5,
}

/// The byte code the firmware expects for each effect. The user-defined
/// slots begin at 0x33, leaving a gap after the named modes.
pub open spec fn effect_code(e: CbEffect) -> u8 {
    match e {
        CbEffect::Static => 0x00,
        CbEffect::Breathe => 0x01,
        CbEffect::Fade => 0x02,
        CbEffect::GettingOff => 0x03,
        CbEffect::LittleStars => 0x04,
        CbEffect::Laser => 0x05,
        CbEffect::Wave => 0x06,
        CbEffect::Neon => 0x07,
        CbEffect::RainDrop => 0x08,
        CbEffect::Ripple => 0x09,
        CbEffect::Wave2 => 0x0A,
        CbEffect::Swirl => 0x0B,
        CbEffect::USERDEFINE1 => 0x33,
        CbEffect::USERDEFINE2 => 0x34,
        CbEffect::USERDEFINE3 => 0x35,
        CbEffect::USERDEFINE4 => 0x36,
        CbEffect::USERDEFINE5 => 0x37,
    }
}

/// The effect a slider index selects: indices 1 through 16 pick the variants
/// in declaration order after `Static`; every other index picks `Static`.
pub open spec fn effect_of_index(index: u8) -> CbEffect {
    match index {
        1 => CbEffect::Breathe,
        2 => CbEffect::Fade,
        3 => CbEffect::GettingOff,
        4 => CbEffect::LittleStars,
        5 => CbEffect::Laser,
        6 => CbEffect::Wave,
        7 => CbEffect::Neon,
        8 => CbEffect::RainDrop,
        9 => CbEffect::Ripple,
        10 => CbEffect::Wave2,
        11 => CbEffect::Swirl,
        12 => CbEffect::USERDEFINE1,
        13 => CbEffect::USERDEFINE2,
        14 => CbEffect::USERDEFINE3,
        15 => CbEffect::USERDEFINE4,
        16 => CbEffect::USERDEFINE5,
        _ => CbEffect::Static,
    }
}

impl CbEffect {
    pub fn code(&self) -> (r: u8)
        ensures
            r == effect_code(*self),
    {
        match self {
            CbEffect::Static => 0x00,
            CbEffect::Breathe => 0x01,
            CbEffect::Fade => 0x02,
            CbEffect::GettingOff => 0x03,
            CbEffect::LittleStars => 0x04,
            CbEffect::Laser => 0x05,
            CbEffect::Wave => 0x06,
            CbEffect::Neon => 0x07,
            CbEffect::RainDrop => 0x08,
            CbEffect::Ripple => 0x09,
            CbEffect::Wave2 => 0x0A,
            CbEffect::Swirl => 0x0B,
            CbEffect::USERDEFINE1 => 0x33,
            CbEffect::USERDEFINE2 => 0x34,
            CbEffect::USERDEFINE3 => 0x35,
            CbEffect::USERDEFINE4 => 0x36,
            CbEffect::USERDEFINE5 => 0x37,
        }
    }

    /// Converts a simple slider index (0-16) to the hardware effect.
    pub fn from_index(index: u8) -> (r: Self)
        ensures
            r == effect_of_index(index),
    {
        match index {
            1 => CbEffect::Breathe,
            2 => CbEffect::Fade,
            3 => CbEffect::GettingOff,
            4 => CbEffect::LittleStars,
            5 => CbEffect::Laser,
            6 => CbEffect::Wave,
            7 => CbEffect::Neon,
            8 => CbEffect::RainDrop,
            9 => CbEffect::Ripple,
            10 => CbEffect::Wave2,
            11 => CbEffect::Swirl,
            12 => CbEffect::USERDEFINE1,
            13 => CbEffect::USERDEFINE2,
            14 => CbEffect::USERDEFINE3,
            15 => CbEffect::USERDEFINE4,
            16 => CbEffect::USERDEFINE5,
            _ => CbEffect::Static,
        }
    }
}

impl Default for CbEffect {
    fn default() -> (r: Self)
        ensures
            r == CbEffect::Wave,
    {
        CbEffect::Wave
    }
}

/// A brightness level: eight discrete steps, each mapped to a non-linear
/// firmware byte value.
#[derive(Debug, Clone, Copy, PartialEq, Eq, Structural)]
pub enum CbBrightness {
    Level0,
    Level1,
    Level2,
    Level3,
    Level4,
    Level5,
    Level6,
    Level7,
}

/// The byte code the firmware expects for each brightness level.
pub open spec fn brightness_code(b: CbBrightness) -> u8 {
    match b {
        CbBrightness::Level0 => 0x00,
        CbBrightness::Level1 => 0x09,
        CbBrightness::Level2 => 0x12,
        CbBrightness::Level3 => 0x1B,
        CbBrightness::Level4 => 0x24,
        CbBrightness::Level5 => 0x2D,
        CbBrightness::Level6 => 0x36,
        CbBrightness::Level7 => 0x3F,
    }
}

/// The brightness level a slider index selects: indices 0 through 6 pick the
/// matching level; every other index picks the maximum, `Level7`.
pub open spec fn brightness_of_index(index: u8) -> CbBrightness {
    match index {
        0 => CbBrightness::Level0,
        1 => CbBrightness::Level1,
        2 => CbBrightness::Level2,
        3 => CbBrightness::Level3,
        4 => CbBrightness::Level4,
        5 => CbBrightness::Level5,
        6 => CbBrightness::Level6,
        _ => CbBrightness::Level7,
    }
}

impl CbBrightness {
    pub fn code(&self) -> (r: u8)
        ensures
            r == brightness_code(*self),
    {
        match self {
            CbBrightness::Level0 => 0x00,
            CbBrightness::Level1 => 0x09,
            CbBrightness::Level2 => 0x12,
            CbBrightness::Level3 => 0x1B,
            CbBrightness::Level4 => 0x24,
            CbBrightness::Level5 => 0x2D,
            CbBrightness::Level6 => 0x36,
            CbBrightness::Level7 => 0x3F,
        }
    }

    /// Converts a simple slider index (0-7) to the hardware brightness level.
    pub fn from_index(index: u8) -> (r: Self)
        ensures
            r == brightness_of_index(index),
    {
        match index {
            0 => CbBrightness::Level0,
            1 => CbBrightness::Level1,
            2 => CbBrightness::Level2,
            3 => CbBrightness::Level3,
            4 => CbBrightness::Level4,
            5 => CbBrightness::Level5,
            6 => CbBrightness::Level6,
            _ => CbBrightness::Level7,
        }
    }
}

impl Default for CbBrightness {
    fn default() -> (r: Self)
        ensures
            r == CbBrightness::Level7,
    {
        CbBrightness::Level7
    }
}

} // verus!
