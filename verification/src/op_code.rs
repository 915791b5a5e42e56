use vstd::prelude::*;

verus! {

/// Operation code: the first byte of a command buffer, naming the radio
/// setting that the parameter bytes configure.
#[derive(Debug, PartialEq, Eq, Structural, Clone, Copy, Hash)]
pub enum OpCode {
    /// Sets the RF carrier frequency.
    SetRfFrequency,
    /// Sets the power amplifier configuration.
    SetPaConfig,
    /// Sets the TCXO trim and the HSE32 ready timeout.
    SetTcxoMode,
}

impl OpCode {
    /// The 8-bit code of each operation.
    pub open spec fn spec_code(self) -> u8 {
        match self {
            OpCode::SetRfFrequency => 0x86,
            OpCode::SetPaConfig => 0x95,
            OpCode::SetTcxoMode => 0x97,
        }
    }

    /// The byte that opens a command buffer of this operation.
    #[verifier::when_used_as_spec(spec_code)]
    pub fn code(self) -> (r: u8)
        ensures
            r == self.spec_code(),
    {
        match self {
            OpCode::SetRfFrequency => 0x86,
            OpCode::SetPaConfig => 0x95,
            OpCode::SetTcxoMode => 0x97,
        }
    }

    /// No two operations share a code.
    pub proof fn lemma_code_injective(a: OpCode, b: OpCode)
        requires
            a.code() == b.code(),
        ensures
            a == b,
    {
    }
}

} // verus!
