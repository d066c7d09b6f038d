use vstd::prelude::*;

verus! {

/// Brightness of a solid status colour.
pub const LEVEL: u8 = 0x10;

/// One pixel's colour, in the order a WS2812 expects its bytes.
#[derive(Clone, Copy, Debug, PartialEq, Eq, Structural)]
pub struct Grb {
    pub g: u8,
    pub r: u8,
    pub b: u8,
}

impl Grb {
    /// Dark.
    #[verifier::allow_in_spec]
    pub fn off() -> Grb
        returns (Grb { g: 0, r: 0, b: 0 }),
    {
        Grb { g: 0, r: 0, b: 0 }
    }

    /// Red at the status brightness.
    #[verifier::allow_in_spec]
    pub fn red() -> Grb
        returns (Grb { g: 0, r: LEVEL, b: 0 }),
    {
        Grb { g: 0, r: LEVEL, b: 0 }
    }

    /// Green at the status brightness.
    #[verifier::allow_in_spec]
    pub fn green() -> Grb
        returns (Grb { g: LEVEL, r: 0, b: 0 }),
    {
        Grb { g: LEVEL, r: 0, b: 0 }
    }

    /// Blue at the status brightness.
    #[verifier::allow_in_spec]
    pub fn blue() -> Grb
        returns (Grb { g: 0, r: 0, b: LEVEL }),
    {
        Grb { g: 0, r: 0, b: LEVEL }
    }

    /// Whether any channel is lit.
    #[verifier::allow_in_spec]
    pub fn is_lit(&self) -> bool
        returns self.g != 0 || self.r != 0 || self.b != 0,
    {
        self.g != 0 || self.r != 0 || self.b != 0
    }
}

/// What a pixel shows: nothing, a steady colour, a colour that breathes, or
/// the red low-battery blink.
#[derive(Clone, Copy, Debug, PartialEq, Eq, Structural)]
pub enum LightEffect {
    Off,
    Solid(Grb),
    Breath(Grb),
    LowBattery,
}

} // verus!
