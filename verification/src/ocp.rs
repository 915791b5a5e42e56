use vstd::prelude::*;

verus! {

/// Power amplifier over current protection.
#[derive(Debug, PartialEq, Eq, Structural, PartialOrd, Ord, Hash, Clone, Copy)]
pub enum Ocp {
    /// Maximum 60mA current for LP PA mode.
    Max60m,
    /// Maximum 140mA for HP PA mode.
    Max140m,
}

impl Ocp {
    /// The register value of each limit.
    pub open spec fn spec_code(self) -> u8 {
        match self {
            Ocp::Max60m => 0x18,
            Ocp::Max140m => 0x38,
        }
    }

    /// The value that the over current protection register takes for this
    /// limit.
    #[verifier::when_used_as_spec(spec_code)]
    pub fn code(self) -> (r: u8)
        ensures
            r == self.spec_code(),
    {
        match self {
            Ocp::Max60m => 0x18,
            Ocp::Max140m => 0x38,
        }
    }

    /// The two limits have different codes.
    pub proof fn lemma_code_injective(a: Ocp, b: Ocp)
        requires
            a.code() == b.code(),
        ensures
            a == b,
    {
    }
}

} // verus!
