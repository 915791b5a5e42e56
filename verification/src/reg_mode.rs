use vstd::prelude::*;

verus! {

/// Radio power supply selection.
#[derive(Debug, PartialEq, Eq, Structural, PartialOrd, Ord, Hash, Clone, Copy)]
pub enum RegMode {
    /// Linear dropout regulator
    Ldo,
    /// Switch mode power supply.
    ///
    /// Used in standby with HSE32, FS, RX, and TX modes.
    Smps,
}

impl RegMode {
    /// The code of each supply.
    pub open spec fn spec_code(self) -> u8 {
        match self {
            RegMode::Ldo => 0b0,
            RegMode::Smps => 0b1,
        }
    }

    /// The one-bit code that the radio uses for this supply.
    #[verifier::when_used_as_spec(spec_code)]
    pub fn code(self) -> (r: u8)
        ensures
            r == self.spec_code(),
            r <= 1,
    {
        match self {
            RegMode::Ldo => 0b0,
            RegMode::Smps => 0b1,
        }
    }

    /// The two supplies have different codes.
    pub proof fn lemma_code_injective(a: RegMode, b: RegMode)
        requires
            a.code() == b.code(),
        ensures
            a == b,
    {
    }
}

impl Default for RegMode {
    fn default() -> (r: RegMode)
        ensures
            r == RegMode::Ldo,
    {
        RegMode::Ldo
    }
}

} // verus!
