use crate::op_code::OpCode;
use vstd::prelude::*;

verus! {

/// TCXO trim voltage.
///
/// To use V<sub>DDTCXO</sub>, the V<sub>DDRF</sub> supply must be at least
/// 200 mV higher than the selected level.
#[derive(Debug, PartialEq, Eq, Structural, PartialOrd, Ord, Clone, Copy, Hash)]
pub enum TcxoTrim {
    /// 1.6V
    Volts1pt6,
    /// 1.7V
    Volts1pt7,
    /// 1.8V
    Volts1pt8,
    /// 2.2V
    Volts2pt2,
    /// 2.4V
    Volts2pt4,
    /// 2.7V
    Volts2pt7,
    /// 3.0V
    Volts3pt0,
    /// 3.3V
    Volts3pt3,
}

impl TcxoTrim {
    /// The 3-bit trim code of each level.
    pub open spec fn spec_code(self) -> u8 {
        match self {
            TcxoTrim::Volts1pt6 => 0x0,
            TcxoTrim::Volts1pt7 => 0x1,
            TcxoTrim::Volts1pt8 => 0x2,
            TcxoTrim::Volts2pt2 => 0x3,
            TcxoTrim::Volts2pt4 => 0x4,
            TcxoTrim::Volts2pt7 => 0x5,
            TcxoTrim::Volts3pt0 => 0x6,
            TcxoTrim::Volts3pt3 => 0x7,
        }
    }

    /// The trim level in millivolts.
    pub open spec fn spec_as_millivolts(&self) -> u16 {
        match self {
            TcxoTrim::Volts1pt6 => 1600,
            TcxoTrim::Volts1pt7 => 1700,
            TcxoTrim::Volts1pt8 => 1800,
            TcxoTrim::Volts2pt2 => 2200,
            TcxoTrim::Volts2pt4 => 2400,
            TcxoTrim::Volts2pt7 => 2700,
            TcxoTrim::Volts3pt0 => 3000,
            TcxoTrim::Volts3pt3 => 3300,
        }
    }

    /// The character that writes the decimal digit `d`.
    pub open spec fn digit(d: int) -> char
        recommends
            0 <= d <= 9,
    {
        ('0' as int + d) as char
    }

    /// The label of a level of `millivolts`: whole volts, a point, tenths of
    /// a volt and the unit, as in `1.6V`.
    pub open spec fn label_of(millivolts: int) -> Seq<char>
        recommends
            0 <= millivolts < 10_000,
    {
        seq![Self::digit(millivolts / 1000), '.', Self::digit(millivolts / 100 % 10), 'V']
    }

    /// The human-readable label of the level.
    pub open spec fn label(&self) -> Seq<char> {
        Self::label_of(self.spec_as_millivolts() as int)
    }

    /// The code that `TcxoMode` stores for this level.
    #[verifier::when_used_as_spec(spec_code)]
    pub fn code(self) -> (r: u8)
        ensures
            r == self.spec_code(),
            r <= 7,
    {
        match self {
            TcxoTrim::Volts1pt6 => 0x0,
            TcxoTrim::Volts1pt7 => 0x1,
            TcxoTrim::Volts1pt8 => 0x2,
            TcxoTrim::Volts2pt2 => 0x3,
            TcxoTrim::Volts2pt4 => 0x4,
            TcxoTrim::Volts2pt7 => 0x5,
            TcxoTrim::Volts3pt0 => 0x6,
            TcxoTrim::Volts3pt3 => 0x7,
        }
    }

    /// Get the value of the TCXO trim in millivolts.
    #[verifier::when_used_as_spec(spec_as_millivolts)]
    pub fn as_millivolts(&self) -> (r: u16)
        ensures
            r == self.spec_as_millivolts(),
    {
        match self {
            TcxoTrim::Volts1pt6 => 1600,
            TcxoTrim::Volts1pt7 => 1700,
            TcxoTrim::Volts1pt8 => 1800,
            TcxoTrim::Volts2pt2 => 2200,
            TcxoTrim::Volts2pt4 => 2400,
            TcxoTrim::Volts2pt7 => 2700,
            TcxoTrim::Volts3pt0 => 3000,
            TcxoTrim::Volts3pt3 => 3300,
        }
    }

    /// The label of the level, such as `1.6V`.
    pub fn to_string(&self) -> (r: String)
        ensures
            r@ == self.label(),
    {
        let text = match self {
            TcxoTrim::Volts1pt6 => "1.6V",
            TcxoTrim::Volts1pt7 => "1.7V",
            TcxoTrim::Volts1pt8 => "1.8V",
            TcxoTrim::Volts2pt2 => "2.2V",
            TcxoTrim::Volts2pt4 => "2.4V",
            TcxoTrim::Volts2pt7 => "2.7V",
            TcxoTrim::Volts3pt0 => "3.0V",
            TcxoTrim::Volts3pt3 => "3.3V",
        };
        proof {
            reveal_strlit("1.6V");
            reveal_strlit("1.7V");
            reveal_strlit("1.8V");
            reveal_strlit("2.2V");
            reveal_strlit("2.4V");
            reveal_strlit("2.7V");
            reveal_strlit("3.0V");
            reveal_strlit("3.3V");
            assert(text@ =~= self.label());
        }
        text.to_owned()
    }

    /// No two levels share a code, and every code fits in three bits.
    pub proof fn lemma_code_injective(a: TcxoTrim, b: TcxoTrim)
        ensures
            a.code() <= 7,
            a.code() == b.code() ==> a == b,
    {
    }

    /// The millivolt table rises with the code, from 1600 mV to 3300 mV.
    pub proof fn lemma_millivolts_increasing(a: TcxoTrim, b: TcxoTrim)
        ensures
            1600 <= a.as_millivolts() <= 3300,
            a.as_millivolts() % 100 == 0,
            a.code() < b.code() <==> a.as_millivolts() < b.as_millivolts(),
    {
    }
}

/// TCXO trim and HSE32 ready timeout.
///
/// A five-byte command: the operation code, the trim code, and the timeout
/// as a 24-bit tick count, most significant byte first.
#[derive(Debug, Eq, Clone, Copy)]
pub struct TcxoMode {
    buf: [u8; 5],
}

impl View for TcxoMode {
    type V = Seq<u8>;

    closed spec fn view(&self) -> Seq<u8> {
        self.buf@
    }
}

impl PartialEq for TcxoMode {
    fn eq(&self, other: &TcxoMode) -> (r: bool) {
        let r = self.buf[0] == other.buf[0] && self.buf[1] == other.buf[1] && self.buf[2]
            == other.buf[2] && self.buf[3] == other.buf[3] && self.buf[4] == other.buf[4];
        proof {
            if r {
                assert(self@ =~= other@);
            }
        }
        r
    }
}

impl vstd::std_specs::cmp::PartialEqSpecImpl for TcxoMode {
    open spec fn obeys_eq_spec() -> bool {
        true
    }

    open spec fn eq_spec(&self, other: &TcxoMode) -> bool {
        self@ == other@
    }
}

impl TcxoMode {
    /// What every value of the type holds: five bytes, the operation code
    /// first, then a trim code of three bits.
    pub open spec fn is_frame(frame: Seq<u8>) -> bool {
        &&& frame.len() == 5
        &&& frame[0] == OpCode::SetTcxoMode.spec_code()
        &&& frame[1] <= 7
    }

    #[verifier::type_invariant]
    spec fn inv(self) -> bool {
        Self::is_frame(self@)
    }

    /// The command before any setter ran: trim 1.6V, timeout 0.
    pub open spec fn default_frame() -> Seq<u8> {
        seq![OpCode::SetTcxoMode.spec_code(), 0x00, 0x00, 0x00, 0x00]
    }

    /// The low 24 bits of `ticks` as three bytes, most significant first.
    pub open spec fn timeout_bytes(ticks: u32) -> Seq<u8> {
        seq![(ticks / 0x1_0000 % 0x100) as u8, (ticks / 0x100 % 0x100) as u8, (ticks % 0x100) as u8]
    }

    /// `frame` with the trim code of `tcxo_trim` in byte 1.
    pub open spec fn with_trim(frame: Seq<u8>, tcxo_trim: TcxoTrim) -> Seq<u8> {
        frame.update(1, tcxo_trim.spec_code())
    }

    /// `frame` with the low 24 bits of `ticks` in bytes 2 to 4.
    pub open spec fn with_timeout(frame: Seq<u8>, ticks: u32) -> Seq<u8> {
        frame.subrange(0, 2) + Self::timeout_bytes(ticks)
    }

    /// The trim code that the command holds.
    pub open spec fn trim_code(&self) -> u8 {
        self@[1]
    }

    /// The tick count that the command holds.
    pub open spec fn timeout(&self) -> int {
        self@[2] * 0x1_0000 + self@[3] * 0x100 + self@[4]
    }

    /// Create a new `TcxoMode` struct.
    pub fn new() -> (r: TcxoMode)
        ensures
            r@ == Self::default_frame(),
            Self::is_frame(r@),
    {
        TcxoMode { buf: [OpCode::SetTcxoMode.code(), 0x00, 0x00, 0x00, 0x00] }
    }

    /// Set the TCXO trim.
    ///
    /// To use V<sub>DDTCXO</sub>, the V<sub>DDRF</sub> supply must be at
    /// least 200 mV higher than the selected `TcxoTrim` voltage level.
    #[must_use]
    pub fn set_txco_trim(self, tcxo_trim: TcxoTrim) -> (r: TcxoMode)
        ensures
            r@ == Self::with_trim(self@, tcxo_trim),
            r.trim_code() == tcxo_trim.code(),
            r.timeout() == self.timeout(),
            Self::is_frame(r@),
    {
        proof {
            use_type_invariant(&self);
        }
        let mut out = self;
        out.buf[1] = tcxo_trim.code();
        out
    }

    /// Set the ready timeout, in ticks.
    ///
    /// Only the low 24 bits of `ticks` are used.
    #[must_use]
    pub fn set_timeout(self, ticks: u32) -> (r: TcxoMode)
        ensures
            r@ == Self::with_timeout(self@, ticks),
            r.timeout() == ticks % 0x100_0000,
            r.trim_code() == self.trim_code(),
            Self::is_frame(r@),
    {
        proof {
            use_type_invariant(&self);
            Self::lemma_shifted_bytes(ticks);
        }
        let mut out = self;
        out.buf[2] = ((ticks >> 16) & 0xFF) as u8;
        out.buf[3] = ((ticks >> 8) & 0xFF) as u8;
        out.buf[4] = (ticks & 0xFF) as u8;
        proof {
            assert(out@ =~= Self::with_timeout(self@, ticks));
        }
        out
    }

    /// Extracts a slice containing the packet.
    pub fn as_slice(&self) -> (r: &[u8])
        ensures
            r@ == self@,
            Self::is_frame(self@),
    {
        proof {
            use_type_invariant(self);
        }
        &self.buf
    }

    /// Shifting and masking pick the same bytes as dividing by powers of
    /// 256, and the three low bytes add up to the low 24 bits.
    proof fn lemma_shifted_bytes(ticks: u32)
        by (bit_vector)
        ensures
            (ticks >> 16) & 0xFF == ticks / 0x1_0000 % 0x100,
            (ticks >> 8) & 0xFF == ticks / 0x100 % 0x100,
            ticks & 0xFF == ticks % 0x100,
            (ticks / 0x1_0000 % 0x100) * 0x1_0000 + (ticks / 0x100 % 0x100) * 0x100 + ticks % 0x100
                == ticks % 0x100_0000,
    {
    }

    /// The three timeout bytes hold `ticks` without its bits above the 24th:
    /// a tick count below 2<sup>24</sup> is held as it is.
    pub proof fn lemma_timeout_roundtrip(frame: Seq<u8>, ticks: u32)
        requires
            frame.len() == 5,
        ensures
            Self::with_timeout(frame, ticks).len() == 5,
            Self::with_timeout(frame, ticks)[0] == frame[0],
            Self::with_timeout(frame, ticks)[1] == frame[1],
            Self::with_timeout(frame, ticks)[2] * 0x1_0000 + Self::with_timeout(frame, ticks)[3]
                * 0x100 + Self::with_timeout(frame, ticks)[4] == ticks % 0x100_0000,
            ticks < 0x100_0000 ==> ticks % 0x100_0000 == ticks,
    {
        Self::lemma_shifted_bytes(ticks);
    }

    /// The two setters write different bytes: their order does not matter,
    /// and a second call of one setter replaces what the first wrote.
    pub proof fn lemma_setters_independent(
        frame: Seq<u8>,
        a: TcxoTrim,
        b: TcxoTrim,
        s: u32,
        t: u32,
    )
        requires
            frame.len() == 5,
        ensures
            Self::with_trim(Self::with_timeout(frame, t), a) == Self::with_timeout(
                Self::with_trim(frame, a),
                t,
            ),
            Self::with_trim(Self::with_trim(frame, a), b) == Self::with_trim(frame, b),
            Self::with_timeout(Self::with_timeout(frame, s), t) == Self::with_timeout(frame, t),
    {
    }

    /// Two commands with the same bytes are the same command.
    pub proof fn lemma_view_injective(a: TcxoMode, b: TcxoMode)
        requires
            a@ == b@,
        ensures
            a == b,
    {
        assert(a.buf =~= b.buf);
    }
}

impl Default for TcxoMode {
    fn default() -> (r: TcxoMode)
        ensures
            r@ == TcxoMode::default_frame(),
            TcxoMode::is_frame(r@),
    {
        TcxoMode::new()
    }
}

} // verus!
