use vstd::prelude::*;

verus! {

/// One RGB color value for a single addressable LED: a triple of 8-bit
/// channel intensities, immutable once constructed.
#[derive(Clone, Copy, Debug, PartialEq, Eq, Structural)]
pub struct Led {
    pub red: u8,
    pub green: u8,
    pub blue: u8,
}

impl Led {
    /// The all-channels-off color, sent for every pixel that a frame does
    /// not address.
    pub open spec fn spec_black() -> Led {
        Led { red: 0, green: 0, blue: 0 }
    }

    pub fn new(red: u8, green: u8, blue: u8) -> (led: Self)
        ensures
            led == (Led { red, green, blue }),
    {
        Self { red, green, blue }
    }

    pub fn black() -> (led: Self)
        ensures
            led == Led::spec_black(),
    {
        Self { red: 0, green: 0, blue: 0 }
    }
}

} // verus!
