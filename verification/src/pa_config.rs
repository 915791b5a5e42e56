use crate::op_code::OpCode;
use std::cmp::Ordering;
use vstd::prelude::*;
use vstd::std_specs::cmp::PartialOrdSpec;

verus! {

/// Power amplifier selection.
///
/// The low power amplifier comes first, so the order that `derive` gives
/// `Ord` is the order of `partial_cmp`: `Lp < Hp`, against the order of the
/// codes.
#[derive(Debug, PartialEq, Eq, Structural, Ord, Clone, Copy, Hash)]
pub enum PaSel {
    /// Low power amplifier.
    Lp,
    /// High power amplifier.
    Hp,
}

impl PaSel {
    /// The code of each amplifier.
    pub open spec fn spec_code(self) -> u8 {
        match self {
            PaSel::Hp => 0b0,
            PaSel::Lp => 0b1,
        }
    }

    /// How `self` compares with `other`: the low power amplifier is the
    /// lesser of the two.
    pub open spec fn ordering(self, other: PaSel) -> Ordering {
        match (self, other) {
            (PaSel::Lp, PaSel::Hp) => Ordering::Less,
            (PaSel::Hp, PaSel::Lp) => Ordering::Greater,
            _ => Ordering::Equal,
        }
    }

    /// The one-bit code that `PaConfig` stores for this amplifier.
    #[verifier::when_used_as_spec(spec_code)]
    pub fn code(self) -> (r: u8)
        ensures
            r == self.spec_code(),
            r <= 1,
    {
        match self {
            PaSel::Hp => 0b0,
            PaSel::Lp => 0b1,
        }
    }

    /// Compares two amplifiers: `Lp` is less than `Hp`.
    pub fn cmp(&self, other: &PaSel) -> (r: Ordering)
        ensures
            r == self.ordering(*other),
    {
        match (self, other) {
            (PaSel::Hp, PaSel::Hp) | (PaSel::Lp, PaSel::Lp) => Ordering::Equal,
            (PaSel::Hp, PaSel::Lp) => Ordering::Greater,
            (PaSel::Lp, PaSel::Hp) => Ordering::Less,
        }
    }

    /// The two amplifiers have different codes.
    pub proof fn lemma_code_injective(a: PaSel, b: PaSel)
        requires
            a.code() == b.code(),
        ensures
            a == b,
    {
    }

    /// The order is total, and the reverse of the order of the codes: of
    /// two amplifiers exactly one of less, equal and greater holds, equal
    /// only of an amplifier and itself; swapping the two swaps less and
    /// greater; less is transitive; and `Lp` is less than `Hp`.
    pub proof fn lemma_total_order(a: PaSel, b: PaSel, c: PaSel)
        ensures
            a.partial_cmp_spec(&b) == Some(a.ordering(b)),
            a.ordering(b) == Ordering::Equal <==> a == b,
            a.ordering(b) == Ordering::Less <==> b.ordering(a) == Ordering::Greater,
            a.ordering(b) == Ordering::Less && b.ordering(c) == Ordering::Less ==> a.ordering(c)
                == Ordering::Less,
            a.ordering(b) == Ordering::Less <==> a.code() > b.code(),
            PaSel::Lp.ordering(PaSel::Hp) == Ordering::Less,
    {
    }
}

impl PartialOrd for PaSel {
    fn partial_cmp(&self, other: &PaSel) -> (r: Option<Ordering>) {
        Some(self.cmp(other))
    }
}

impl vstd::std_specs::cmp::PartialOrdSpecImpl for PaSel {
    open spec fn obeys_partial_cmp_spec() -> bool {
        true
    }

    open spec fn partial_cmp_spec(&self, other: &PaSel) -> Option<Ordering> {
        Some(self.ordering(*other))
    }
}

impl Default for PaSel {
    fn default() -> (r: PaSel)
        ensures
            r == PaSel::Lp,
    {
        PaSel::Lp
    }
}

/// Power amplifier configuration parameters.
///
/// A five-byte command: the operation code, the duty cycle, the high power
/// maximum, the amplifier selection, and a reserved byte that is always 1.
#[derive(Debug, Eq, Clone, Copy)]
pub struct PaConfig {
    buf: [u8; 5],
}

impl View for PaConfig {
    type V = Seq<u8>;

    closed spec fn view(&self) -> Seq<u8> {
        self.buf@
    }
}

impl PartialEq for PaConfig {
    fn eq(&self, other: &PaConfig) -> (r: bool) {
        let r = self.buf[0] == other.buf[0] && self.buf[1] == other.buf[1] && self.buf[2]
            == other.buf[2] && self.buf[3] == other.buf[3] && self.buf[4] == other.buf[4];
        proof {
            if r {
                assert(self@ =~= other@);
            }
        }
        r
    }
}

impl vstd::std_specs::cmp::PartialEqSpecImpl for PaConfig {
    open spec fn obeys_eq_spec() -> bool {
        true
    }

    open spec fn eq_spec(&self, other: &PaConfig) -> bool {
        self@ == other@
    }
}

impl PaConfig {
    /// What every value of the type holds: five bytes, the operation code
    /// first, two fields of three bits, a field of one bit, and the reserved
    /// byte.
    pub open spec fn is_frame(frame: Seq<u8>) -> bool {
        &&& frame.len() == 5
        &&& frame[0] == OpCode::SetPaConfig.spec_code()
        &&& frame[1] <= 7
        &&& frame[2] <= 7
        &&& frame[3] <= 1
        &&& frame[4] == 0x01
    }

    #[verifier::type_invariant]
    spec fn inv(self) -> bool {
        Self::is_frame(self@)
    }

    /// The command before any setter ran: duty cycle 1, high power maximum
    /// 0, the high power amplifier, and the reserved byte.
    pub open spec fn default_frame() -> Seq<u8> {
        seq![OpCode::SetPaConfig.spec_code(), 0x01, 0x00, PaSel::Hp.spec_code(), 0x01]
    }

    /// The low three bits of `value`: all that a three-bit field keeps.
    pub open spec fn low_three_bits(value: u8) -> u8 {
        value & 0b111
    }

    /// `frame` with the low three bits of `pa_duty_cycle` in byte 1.
    pub open spec fn with_pa_duty_cycle(frame: Seq<u8>, pa_duty_cycle: u8) -> Seq<u8> {
        frame.update(1, Self::low_three_bits(pa_duty_cycle))
    }

    /// `frame` with the low three bits of `hp_max` in byte 2.
    pub open spec fn with_hp_max(frame: Seq<u8>, hp_max: u8) -> Seq<u8> {
        frame.update(2, Self::low_three_bits(hp_max))
    }

    /// `frame` with the code of `pa` in byte 3.
    pub open spec fn with_pa(frame: Seq<u8>, pa: PaSel) -> Seq<u8> {
        frame.update(3, pa.spec_code())
    }

    /// Create a new `PaConfig` struct.
    pub fn new() -> (r: PaConfig)
        ensures
            r@ == Self::default_frame(),
            Self::is_frame(r@),
    {
        PaConfig { buf: [OpCode::SetPaConfig.code(), 0x01, 0x00, PaSel::Hp.code(), 0x01] }
    }

    /// Set the power amplifier duty cycle (conduit angle) control.
    ///
    /// Only the low three bits of `pa_duty_cycle` are used; the others are
    /// dropped without an error.
    ///
    /// # Caution
    ///
    /// The caller must observe these limits to avoid over-stress on the PA;
    /// they are not checked here:
    /// * LP PA mode with synthesis frequency > 400 MHz: duty cycle < 0x7.
    /// * LP PA mode with synthesis frequency < 400 MHz: duty cycle < 0x4.
    /// * HP PA mode: duty cycle < 0x4.
    #[must_use]
    pub fn set_pa_duty_cycle(self, pa_duty_cycle: u8) -> (r: PaConfig)
        ensures
            r@ == Self::with_pa_duty_cycle(self@, pa_duty_cycle),
            r@[1] == pa_duty_cycle & 0b111,
            r@[1] == pa_duty_cycle % 8,
            Self::is_frame(r@),
    {
        proof {
            use_type_invariant(&self);
            Self::lemma_low_three_bits(pa_duty_cycle);
        }
        let mut out = self;
        out.buf[1] = pa_duty_cycle & 0b111;
        out
    }

    /// Set the high power amplifier output power.
    ///
    /// Only the low three bits of `hp_max` are used; the others are dropped
    /// without an error.
    #[must_use]
    pub fn set_hp_max(self, hp_max: u8) -> (r: PaConfig)
        ensures
            r@ == Self::with_hp_max(self@, hp_max),
            r@[2] == hp_max & 0b111,
            r@[2] == hp_max % 8,
            Self::is_frame(r@),
    {
        proof {
            use_type_invariant(&self);
            Self::lemma_low_three_bits(hp_max);
        }
        let mut out = self;
        out.buf[2] = hp_max & 0b111;
        out
    }

    /// Set the power amplifier to use, low or high power.
    #[must_use]
    pub fn set_pa(self, pa: PaSel) -> (r: PaConfig)
        ensures
            r@ == Self::with_pa(self@, pa),
            r@[3] == pa.code(),
            Self::is_frame(r@),
    {
        proof {
            use_type_invariant(&self);
        }
        let mut out = self;
        out.buf[3] = pa.code();
        out
    }

    /// Extracts a slice containing the packet.
    pub fn as_slice(&self) -> (r: &[u8])
        ensures
            r@ == self@,
            Self::is_frame(self@),
    {
        proof {
            use_type_invariant(self);
        }
        &self.buf
    }

    /// Masking with `0b111` keeps the value modulo 8: a value below 8 is
    /// kept as it is, and each higher bit is dropped.
    pub proof fn lemma_low_three_bits(value: u8)
        by (bit_vector)
        ensures
            value & 0b111 == value % 8,
            value & 0b111 <= 7,
            value <= 7 ==> value & 0b111 == value,
            (value & 0b111) & 0b111 == value & 0b111,
    {
    }

    /// After the duty cycle is set on a new configuration, byte 1 of the
    /// command is the low three bits of what was given, whatever was given.
    pub proof fn lemma_duty_cycle_of_new(pa_duty_cycle: u8)
        ensures
            Self::with_pa_duty_cycle(Self::default_frame(), pa_duty_cycle)[1] == pa_duty_cycle
                & 0b111,
            Self::is_frame(Self::with_pa_duty_cycle(Self::default_frame(), pa_duty_cycle)),
    {
        Self::lemma_low_three_bits(pa_duty_cycle);
    }

    /// Each setter writes one byte and leaves the other four as they were.
    pub proof fn lemma_setters_write_one_byte(frame: Seq<u8>, value: u8, pa: PaSel, i: int)
        requires
            frame.len() == 5,
            0 <= i < 5,
        ensures
            i != 1 ==> Self::with_pa_duty_cycle(frame, value)[i] == frame[i],
            i != 2 ==> Self::with_hp_max(frame, value)[i] == frame[i],
            i != 3 ==> Self::with_pa(frame, pa)[i] == frame[i],
    {
    }

    /// Setters of different fields may run in any order, and a second call
    /// of one setter replaces what the first wrote.
    pub proof fn lemma_setters_independent(frame: Seq<u8>, x: u8, y: u8, p: PaSel, q: PaSel)
        requires
            frame.len() == 5,
        ensures
            Self::with_hp_max(Self::with_pa_duty_cycle(frame, x), y) == Self::with_pa_duty_cycle(
                Self::with_hp_max(frame, y),
                x,
            ),
            Self::with_pa(Self::with_pa_duty_cycle(frame, x), p) == Self::with_pa_duty_cycle(
                Self::with_pa(frame, p),
                x,
            ),
            Self::with_pa(Self::with_hp_max(frame, y), p) == Self::with_hp_max(
                Self::with_pa(frame, p),
                y,
            ),
            Self::with_pa_duty_cycle(Self::with_pa_duty_cycle(frame, x), y)
                == Self::with_pa_duty_cycle(frame, y),
            Self::with_hp_max(Self::with_hp_max(frame, x), y) == Self::with_hp_max(frame, y),
            Self::with_pa(Self::with_pa(frame, p), q) == Self::with_pa(frame, q),
    {
    }

    /// Two commands with the same bytes are the same command.
    pub proof fn lemma_view_injective(a: PaConfig, b: PaConfig)
        requires
            a@ == b@,
        ensures
            a == b,
    {
        assert(a.buf =~= b.buf);
    }
}

impl Default for PaConfig {
    fn default() -> (r: PaConfig)
        ensures
            r@ == PaConfig::default_frame(),
            PaConfig::is_frame(r@),
    {
        PaConfig::new()
    }
}

} // verus!
