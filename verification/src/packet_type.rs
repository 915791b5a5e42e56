use vstd::prelude::*;

verus! {

/// Packet type definition.
#[derive(Debug, PartialEq, Eq, Structural, Clone, Copy, Hash)]
pub enum PacketType {
    /// FSK (frequency shift keying) generic packet type.
    Fsk,
    /// LoRa (long range) packet type.
    LoRa,
    /// BPSK (binary phase shift keying) packet type.
    Bpsk,
    /// MSK (minimum shift keying) generic packet type.
    Msk,
}

impl PacketType {
    /// The code of each packet type.
    pub open spec fn spec_code(self) -> u8 {
        match self {
            PacketType::Fsk => 0,
            PacketType::LoRa => 1,
            PacketType::Bpsk => 2,
            PacketType::Msk => 3,
        }
    }

    /// The packet type that `bits` names, or `bits` itself where it names
    /// none.
    pub open spec fn spec_from_bits(bits: u8) -> Result<PacketType, u8> {
        if bits == 0 {
            Ok(PacketType::Fsk)
        } else if bits == 1 {
            Ok(PacketType::LoRa)
        } else if bits == 2 {
            Ok(PacketType::Bpsk)
        } else if bits == 3 {
            Ok(PacketType::Msk)
        } else {
            Err(bits)
        }
    }

    /// The code that the radio uses for this packet type.
    #[verifier::when_used_as_spec(spec_code)]
    pub fn code(self) -> (r: u8)
        ensures
            r == self.spec_code(),
            r <= 3,
    {
        match self {
            PacketType::Fsk => 0,
            PacketType::LoRa => 1,
            PacketType::Bpsk => 2,
            PacketType::Msk => 3,
        }
    }

    /// Create a new `PacketType` from bits.
    ///
    /// The codes 0 to 3 name a packet type.  Every other value is reserved
    /// and comes back unchanged as the error.
    #[verifier::when_used_as_spec(spec_from_bits)]
    pub fn from_bits(bits: u8) -> (r: Result<PacketType, u8>)
        ensures
            r == Self::spec_from_bits(bits),
            bits <= 3 <==> r is Ok,
            r matches Ok(packet_type) ==> packet_type.code() == bits,
            r matches Err(rejected) ==> rejected == bits,
    {
        match bits {
            0 => Ok(PacketType::Fsk),
            1 => Ok(PacketType::LoRa),
            2 => Ok(PacketType::Bpsk),
            3 => Ok(PacketType::Msk),
            _ => Err(bits),
        }
    }

    /// No two packet types share a code, and the codes are 0 to 3.
    pub proof fn lemma_code_injective(a: PacketType, b: PacketType)
        ensures
            a.code() <= 3,
            a.code() == b.code() ==> a == b,
    {
    }

    /// Decoding inverts the code: the code of a packet type decodes to that
    /// packet type, a byte that decodes has the code of what it decodes to,
    /// and a byte above 3 is handed back as it came.
    pub proof fn lemma_from_bits_inverts_code(packet_type: PacketType, bits: u8)
        ensures
            Self::from_bits(packet_type.code()) == Ok::<PacketType, u8>(packet_type),
            bits <= 3 <==> Self::from_bits(bits) is Ok,
            Self::from_bits(bits) matches Ok(decoded) ==> decoded.code() == bits,
            bits > 3 ==> Self::from_bits(bits) == Err::<PacketType, u8>(bits),
    {
    }
}

} // verus!
