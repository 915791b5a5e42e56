use crate::op_code::OpCode;
use vstd::prelude::*;

verus! {

/// Frequency of the reference oscillator, in hertz.
pub const REFERENCE_HZ: u64 = 32_000_000;

/// Number of register steps that make up `REFERENCE_HZ`: 2<sup>25</sup>.
pub const STEPS: u64 = 0x200_0000;

/// The highest frequency, in hertz, whose register value fits in 32 bits.
pub const MAX_HZ: u32 = 4_095_999_999;

/// RF frequency command.
///
/// A five-byte command: the operation code, then the 32-bit PLL register
/// value, most significant byte first.  The register counts steps of
/// `REFERENCE_HZ / STEPS` hertz, a little under half a hertz.
#[derive(Debug, Eq, Clone, Copy, Hash, PartialOrd, Ord)]
pub struct RfFreq {
    buf: [u8; 5],
}

impl View for RfFreq {
    type V = Seq<u8>;

    closed spec fn view(&self) -> Seq<u8> {
        self.buf@
    }
}

impl PartialEq for RfFreq {
    fn eq(&self, other: &RfFreq) -> (r: bool) {
        let r = self.buf[0] == other.buf[0] && self.buf[1] == other.buf[1] && self.buf[2]
            == other.buf[2] && self.buf[3] == other.buf[3] && self.buf[4] == other.buf[4];
        proof {
            if r {
                assert(self@ =~= other@);
            }
        }
        r
    }
}

impl vstd::std_specs::cmp::PartialEqSpecImpl for RfFreq {
    open spec fn obeys_eq_spec() -> bool {
        true
    }

    open spec fn eq_spec(&self, other: &RfFreq) -> bool {
        self@ == other@
    }
}

impl RfFreq {
    /// What every value of the type holds: five bytes, the operation code
    /// first.
    pub open spec fn is_frame(frame: Seq<u8>) -> bool {
        &&& frame.len() == 5
        &&& frame[0] == OpCode::SetRfFrequency.spec_code()
    }

    #[verifier::type_invariant]
    spec fn inv(self) -> bool {
        Self::is_frame(self@)
    }

    /// The four bytes of `bits`, most significant first.
    pub open spec fn register_bytes(bits: u32) -> Seq<u8> {
        seq![
            (bits / 0x100_0000) as u8,
            (bits / 0x1_0000 % 0x100) as u8,
            (bits / 0x100 % 0x100) as u8,
            (bits % 0x100) as u8,
        ]
    }

    /// The number that four bytes write, most significant first.
    pub open spec fn register_value(bytes: Seq<u8>) -> int
        recommends
            bytes.len() == 4,
    {
        bytes[0] * 0x100_0000 + bytes[1] * 0x1_0000 + bytes[2] * 0x100 + bytes[3]
    }

    /// The command that holds the register value `bits`.
    pub open spec fn frame(bits: u32) -> Seq<u8> {
        seq![OpCode::SetRfFrequency.spec_code()] + Self::register_bytes(bits)
    }

    /// The register value of a frequency: `freq` x 2<sup>25</sup> / 32 MHz,
    /// rounded down, in unbounded arithmetic.
    pub open spec fn bits_of_frequency(freq: int) -> int {
        freq * STEPS / (REFERENCE_HZ as int)
    }

    /// The frequency of a register value: 32 MHz x `bits` / 2<sup>25</sup>,
    /// rounded down, in unbounded arithmetic.
    pub open spec fn frequency_of_bits(bits: int) -> int {
        REFERENCE_HZ * bits / (STEPS as int)
    }

    /// The register value that the command holds.
    pub open spec fn bits(&self) -> int {
        Self::register_value(self@.subrange(1, 5))
    }

    /// 915MHz, often used in Australia and North America.
    pub fn f915() -> (r: RfFreq)
        ensures
            r@ == Self::frame(0x39_30_00_00),
            r.bits() == 0x39_30_00_00,
            r.bits() == Self::bits_of_frequency(915_000_000),
            Self::frequency_of_bits(r.bits()) == 915_000_000,
    {
        Self::from_bits(0x39_30_00_00)
    }

    /// 868MHz, often used in Europe.
    pub fn f868() -> (r: RfFreq)
        ensures
            r@ == Self::frame(0x36_40_00_00),
            r.bits() == 0x36_40_00_00,
            r.bits() == Self::bits_of_frequency(868_000_000),
            Self::frequency_of_bits(r.bits()) == 868_000_000,
    {
        Self::from_bits(0x36_40_00_00)
    }

    /// 433MHz, often used in Europe.
    pub fn f433() -> (r: RfFreq)
        ensures
            r@ == Self::frame(0x1B_10_00_00),
            r.bits() == 0x1B_10_00_00,
            r.bits() == Self::bits_of_frequency(433_000_000),
            Self::frequency_of_bits(r.bits()) == 433_000_000,
    {
        Self::from_bits(0x1B_10_00_00)
    }

    /// Create a new `RfFreq` from a raw bit value.
    ///
    /// The PLL frequency of the raw bits is 32e6 x bits / 2<sup>25</sup>.
    /// Every value is accepted.
    pub fn from_bits(bits: u32) -> (r: RfFreq)
        ensures
            r@ == Self::frame(bits),
            r@.subrange(1, 5) == Self::register_bytes(bits),
            r.bits() == bits,
            Self::is_frame(r@),
    {
        proof {
            Self::lemma_shifted_bytes(bits);
            Self::lemma_split(bits);
        }
        let r = RfFreq {
            buf: [
                OpCode::SetRfFrequency.code(),
                ((bits >> 24) & 0xFF) as u8,
                ((bits >> 16) & 0xFF) as u8,
                ((bits >> 8) & 0xFF) as u8,
                (bits & 0xFF) as u8,
            ],
        };
        proof {
            assert(r@ =~= Self::frame(bits));
            assert(r@.subrange(1, 5) =~= Self::register_bytes(bits));
        }
        r
    }

    /// Create a new `RfFreq` from a PLL frequency in hertz.
    ///
    /// The raw bits are `freq` x 2<sup>25</sup> / 32e6, rounded down; the
    /// product is taken in 64 bits, so it never overflows.  Above `MAX_HZ`
    /// the quotient no longer fits the register and its low 32 bits are kept.
    pub fn from_frequency(freq: u32) -> (r: RfFreq)
        ensures
            r.bits() == Self::bits_of_frequency(freq as int) % 0x1_0000_0000,
            freq <= MAX_HZ ==> r.bits() == Self::bits_of_frequency(freq as int),
            r@ == Self::frame(r.bits() as u32),
            Self::is_frame(r@),
    {
        proof {
            Self::lemma_rounds_down(freq * STEPS, REFERENCE_HZ as int);
        }
        let wide: u64 = (freq as u64) * STEPS / REFERENCE_HZ;
        assert(wide as u32 == wide % 0x1_0000_0000) by (bit_vector);
        Self::from_bits(#[verifier::truncate] (wide as u32))
    }

    /// Get the frequency bit value.
    fn as_bits(&self) -> (r: u32)
        ensures
            r == self.bits(),
    {
        let (b3, b2, b1, b0) = (self.buf[1], self.buf[2], self.buf[3], self.buf[4]);
        proof {
            Self::lemma_joined_bytes(b3, b2, b1, b0);
        }
        ((b3 as u32) << 24) | ((b2 as u32) << 16) | ((b1 as u32) << 8) | (b0 as u32)
    }

    /// Get the actual frequency, in hertz.
    ///
    /// The product 32e6 x bits is taken in 64 bits, so it never overflows,
    /// and the quotient always fits in 32 bits.
    pub fn freq(&self) -> (r: u32)
        ensures
            r == Self::frequency_of_bits(self.bits()),
            r <= MAX_HZ,
    {
        let bits = self.as_bits();
        proof {
            Self::lemma_rounds_down(REFERENCE_HZ * bits, STEPS as int);
        }
        let hz: u64 = REFERENCE_HZ * (bits as u64) / STEPS;
        hz as u32
    }

    /// Extracts a slice containing the packet.
    pub fn as_slice(&self) -> (r: &[u8])
        ensures
            r@ == self@,
            Self::is_frame(self@),
    {
        proof {
            use_type_invariant(self);
        }
        &self.buf
    }

    /// A command is the operation code and then the bytes of the register
    /// value from bits 31 to 24 down to bits 7 to 0.
    pub proof fn lemma_frame_is_big_endian(bits: u32)
        ensures
            Self::is_frame(Self::frame(bits)),
            Self::frame(bits).subrange(1, 5) == Self::register_bytes(bits),
            Self::frame(bits)[1] == (bits >> 24) & 0xFF,
            Self::frame(bits)[2] == (bits >> 16) & 0xFF,
            Self::frame(bits)[3] == (bits >> 8) & 0xFF,
            Self::frame(bits)[4] == bits & 0xFF,
    {
        Self::lemma_shifted_bytes(bits);
        Self::lemma_split(bits);
    }

    /// Splitting a register value into bytes and reading them back gives
    /// the value.
    pub proof fn lemma_register_roundtrip(bits: u32)
        ensures
            Self::register_bytes(bits).len() == 4,
            Self::register_value(Self::register_bytes(bits)) == bits,
    {
        Self::lemma_split(bits);
    }

    /// Four bytes write a 32-bit number, and are the bytes of that number.
    pub proof fn lemma_register_bytes_unique(bytes: Seq<u8>)
        requires
            bytes.len() == 4,
        ensures
            0 <= Self::register_value(bytes) <= u32::MAX,
            Self::register_bytes(Self::register_value(bytes) as u32) == bytes,
    {
        Self::lemma_joined_bytes(bytes[0], bytes[1], bytes[2], bytes[3]);
        assert(Self::register_bytes(Self::register_value(bytes) as u32) =~= bytes);
    }

    /// A command is the frame of its own register value.
    pub proof fn lemma_frame_of_bits(command: RfFreq)
        requires
            Self::is_frame(command@),
        ensures
            0 <= command.bits() <= u32::MAX,
            command@ == Self::frame(command.bits() as u32),
    {
        Self::lemma_register_bytes_unique(command@.subrange(1, 5));
        assert(command@ =~= Self::frame(command.bits() as u32));
    }

    /// Two commands with the same bytes are the same command.
    pub proof fn lemma_view_injective(a: RfFreq, b: RfFreq)
        requires
            a@ == b@,
        ensures
            a == b,
    {
        assert(a.buf =~= b.buf);
    }

    /// Up to `MAX_HZ` the register value of a frequency fits in 32 bits, and
    /// reading it back gives the frequency or one hertz less: the register
    /// step is a little under half a hertz and both conversions round down.
    pub proof fn lemma_frequency_within_one_hertz(freq: u32)
        requires
            freq <= MAX_HZ,
        ensures
            0 <= Self::bits_of_frequency(freq as int) <= u32::MAX,
            freq - 1 <= Self::frequency_of_bits(Self::bits_of_frequency(freq as int)) <= freq,
    {
        let bits = Self::bits_of_frequency(freq as int);
        Self::lemma_rounds_down(freq * STEPS, REFERENCE_HZ as int);
        Self::lemma_rounds_down(REFERENCE_HZ * bits, STEPS as int);
    }

    /// A 32-bit register value read as hertz and converted back comes out
    /// at most two steps lower; a hertz is a little over two steps.
    pub proof fn lemma_bits_within_two_steps(bits: u32)
        ensures
            0 <= Self::frequency_of_bits(bits as int) <= MAX_HZ,
            bits - 2 <= Self::bits_of_frequency(Self::frequency_of_bits(bits as int)) <= bits,
    {
        let hz = Self::frequency_of_bits(bits as int);
        Self::lemma_rounds_down(REFERENCE_HZ * bits, STEPS as int);
        Self::lemma_rounds_down(hz * STEPS, REFERENCE_HZ as int);
    }

    /// A frequency that is a multiple of 15 625 Hz (32 MHz / 2<sup>11</sup>)
    /// has a register value that is a multiple of 2<sup>14</sup>, and the
    /// two conversions are then exact inverses of each other.
    pub proof fn lemma_exact_on_grid(k: u32)
        requires
            k <= MAX_HZ / 15_625,
        ensures
            Self::bits_of_frequency(k * 15_625) == k * 0x4000,
            Self::frequency_of_bits(k * 0x4000) == k * 15_625,
    {
        Self::lemma_rounds_down(k * 15_625 * STEPS, REFERENCE_HZ as int);
        Self::lemma_rounds_down(REFERENCE_HZ * (k * 0x4000), STEPS as int);
    }

    /// Both conversions keep the order of their arguments.
    pub proof fn lemma_conversions_monotonic(a: u32, b: u32)
        requires
            a <= b,
        ensures
            Self::frequency_of_bits(a as int) <= Self::frequency_of_bits(b as int),
            Self::bits_of_frequency(a as int) <= Self::bits_of_frequency(b as int),
    {
        Self::lemma_rounds_down(REFERENCE_HZ * a, STEPS as int);
        Self::lemma_rounds_down(REFERENCE_HZ * b, STEPS as int);
        Self::lemma_rounds_down(a * STEPS, REFERENCE_HZ as int);
        Self::lemma_rounds_down(b * STEPS, REFERENCE_HZ as int);
    }

    /// Division rounds down: the quotient times the divisor is the greatest
    /// multiple of the divisor that is not above the dividend.
    proof fn lemma_rounds_down(x: int, d: int)
        requires
            0 <= x,
            0 < d,
        ensures
            0 <= x / d,
            d * (x / d) <= x < d * (x / d) + d,
    {
        vstd::arithmetic::div_mod::lemma_fundamental_div_mod(x, d);
        vstd::arithmetic::div_mod::lemma_mod_bound(x, d);
        vstd::arithmetic::div_mod::lemma_div_pos_is_pos(x, d);
    }

    /// Shifting and masking pick the same bytes as dividing by powers of 256.
    proof fn lemma_shifted_bytes(bits: u32)
        by (bit_vector)
        ensures
            (bits >> 24) & 0xFF == bits / 0x100_0000,
            (bits >> 16) & 0xFF == bits / 0x1_0000 % 0x100,
            (bits >> 8) & 0xFF == bits / 0x100 % 0x100,
            bits & 0xFF == bits % 0x100,
    {
    }

    /// A 32-bit number is the sum of its four bytes, each times its power
    /// of 256.
    proof fn lemma_split(bits: u32)
        by (bit_vector)
        ensures
            bits / 0x100_0000 <= 0xFF,
            bits == (bits / 0x100_0000) * 0x100_0000 + (bits / 0x1_0000 % 0x100) * 0x1_0000 + (bits
                / 0x100 % 0x100) * 0x100 + bits % 0x100,
    {
    }

    /// Shifting and joining four bytes adds them up by powers of 256, and
    /// dividing the sum by those powers gives the bytes back.
    proof fn lemma_joined_bytes(b3: u8, b2: u8, b1: u8, b0: u8)
        by (bit_vector)
        ensures
            ((b3 as u32) << 24) | ((b2 as u32) << 16) | ((b1 as u32) << 8) | (b0 as u32) == b3
                * 0x100_0000 + b2 * 0x1_0000 + b1 * 0x100 + b0,
            b3 * 0x100_0000 + b2 * 0x1_0000 + b1 * 0x100 + b0 <= 0xFFFF_FFFF,
            (b3 * 0x100_0000 + b2 * 0x1_0000 + b1 * 0x100 + b0) / 0x100_0000 == b3,
            (b3 * 0x100_0000 + b2 * 0x1_0000 + b1 * 0x100 + b0) / 0x1_0000 % 0x100 == b2,
            (b3 * 0x100_0000 + b2 * 0x1_0000 + b1 * 0x100 + b0) / 0x100 % 0x100 == b1,
            (b3 * 0x100_0000 + b2 * 0x1_0000 + b1 * 0x100 + b0) % 0x100 == b0,
    {
    }
}

} // verus!
