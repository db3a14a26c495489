//! The register model: addresses, bit-field masks, and the set / clear
//! primitives on register words.
use vstd::arithmetic::power2::{lemma2_to64, pow2};
use vstd::prelude::*;

verus! {

/// Global configuration.
pub const GCONF: u8 = 0x00;

/// Global status flags.
pub const GSTAT: u8 = 0x01;

/// Interface transmission counter: counts accepted writes, modulo 256.
pub const IFCNT: u8 = 0x02;

/// Input pin states.
pub const IOIN: u8 = 0x06;

/// Run and hold current.
pub const IHOLD_IRUN: u8 = 0x10;

/// Chopper configuration.
pub const CHOPCONF: u8 = 0x6C;

/// Driver status flags.
pub const DRVSTATUS: u8 = 0x6F;

// GCONF fields.
pub const I_SCALE_ANALOG: u32 = 0x01;

pub const INTERNAL_RSENSE: u32 = 0x02;

pub const EN_SPREADCYCLE: u32 = 0x04;

pub const SHAFT: u32 = 0x08;

pub const INDEX_OTPW: u32 = 0x10;

pub const INDEX_STEP: u32 = 0x20;

pub const MSTEP_REG_SELECT: u32 = 0x80;

// GSTAT fields.
pub const RESET: u32 = 0x01;

pub const DRV_ERR: u32 = 0x02;

// CHOPCONF fields.
pub const VSENSE: u32 = 0x0002_0000;

/// The four MRES bits, 24 to 27, that hold the microstep resolution.
pub const MSRES_MASK: u32 = 0x0F00_0000;

pub const INTPOL: u32 = 0x1000_0000;

// IOIN fields.
pub const IO_ENN: u32 = 0x01;

pub const IO_STEP: u32 = 0x80;

pub const IO_SPREAD: u32 = 0x100;

pub const IO_DIR: u32 = 0x200;

// DRVSTATUS fields.
pub const STST: u32 = 0x8000_0000;

pub const STEALTH: u32 = 0x4000_0000;

pub const OLB: u32 = 0x80;

pub const OLA: u32 = 0x40;

pub const S2VSB: u32 = 0x20;

pub const S2VSA: u32 = 0x10;

pub const S2GB: u32 = 0x08;

pub const S2GA: u32 = 0x04;

pub const OT: u32 = 0x02;

pub const OTPW: u32 = 0x01;

/// Whether any bit of `mask` is set in `word`.
pub open spec fn has_bits(word: u32, mask: u32) -> bool {
    word & mask != 0
}

/// `word` with the bits under `mask` replaced by those of `bits`.
pub open spec fn with_field(word: u32, mask: u32, bits: u32) -> u32 {
    (word & !mask) | (bits & mask)
}

/// An unsigned register word (8, 16 or 32 bits) on which bits are set and
/// cleared by mask.
pub trait RegisterWord: Copy + Sized {
    /// `word | mask`.
    spec fn spec_set(self, mask: Self) -> Self;

    /// `word & !mask`.
    spec fn spec_clear(self, mask: Self) -> Self;

    /// Sets the bits of `mask`.
    fn set_bits(self, mask: Self) -> (r: Self)
        ensures
            r == self.spec_set(mask),
    ;

    /// Clears the bits of `mask`.
    fn clear_bits(self, mask: Self) -> (r: Self)
        ensures
            r == self.spec_clear(mask),
    ;

    /// Setting a mask twice is setting it once; clearing a mask twice is
    /// clearing it once; clearing after setting is clearing alone.
    proof fn lemma_mask_laws(x: Self, m: Self)
        ensures
            x.spec_set(m).spec_set(m) == x.spec_set(m),
            x.spec_clear(m).spec_clear(m) == x.spec_clear(m),
            x.spec_set(m).spec_clear(m) == x.spec_clear(m),
    ;
}

impl RegisterWord for u8 {
    open spec fn spec_set(self, mask: u8) -> u8 {
        self | mask
    }

    open spec fn spec_clear(self, mask: u8) -> u8 {
        self & !mask
    }

    fn set_bits(self, mask: u8) -> (r: u8) {
        self | mask
    }

    fn clear_bits(self, mask: u8) -> (r: u8) {
        self & !mask
    }

    proof fn lemma_mask_laws(x: u8, m: u8) {
        assert((x | m) | m == x | m) by (bit_vector);
        assert((x & !m) & !m == x & !m) by (bit_vector);
        assert((x | m) & !m == x & !m) by (bit_vector);
    }
}

impl RegisterWord for u16 {
    open spec fn spec_set(self, mask: u16) -> u16 {
        self | mask
    }

    open spec fn spec_clear(self, mask: u16) -> u16 {
        self & !mask
    }

    fn set_bits(self, mask: u16) -> (r: u16) {
        self | mask
    }

    fn clear_bits(self, mask: u16) -> (r: u16) {
        self & !mask
    }

    proof fn lemma_mask_laws(x: u16, m: u16) {
        assert((x | m) | m == x | m) by (bit_vector);
        assert((x & !m) & !m == x & !m) by (bit_vector);
        assert((x | m) & !m == x & !m) by (bit_vector);
    }
}

impl RegisterWord for u32 {
    open spec fn spec_set(self, mask: u32) -> u32 {
        self | mask
    }

    open spec fn spec_clear(self, mask: u32) -> u32 {
        self & !mask
    }

    fn set_bits(self, mask: u32) -> (r: u32) {
        self | mask
    }

    fn clear_bits(self, mask: u32) -> (r: u32) {
        self & !mask
    }

    proof fn lemma_mask_laws(x: u32, m: u32) {
        assert((x | m) | m == x | m) by (bit_vector);
        assert((x & !m) & !m == x & !m) by (bit_vector);
        assert((x | m) & !m == x & !m) by (bit_vector);
    }
}

/// Options of the GCONF register that can be switched on and off.
#[derive(Clone, Copy, Debug, PartialEq, Eq, Structural)]
pub enum GConfOption {
    Direction,
    IScaleAnalogue,
    InternalRSense,
    SpreadCycle,
    MStepResolution,
}

impl GConfOption {
    pub open spec fn spec_mask(self) -> u32 {
        match self {
            GConfOption::Direction => SHAFT,
            GConfOption::IScaleAnalogue => I_SCALE_ANALOG,
            GConfOption::InternalRSense => INTERNAL_RSENSE,
            GConfOption::SpreadCycle => EN_SPREADCYCLE,
            GConfOption::MStepResolution => MSTEP_REG_SELECT,
        }
    }

    /// The GCONF bit of this option.
    pub fn mask(self) -> (r: u32)
        ensures
            r == self.spec_mask(),
    {
        match self {
            GConfOption::Direction => SHAFT,
            GConfOption::IScaleAnalogue => I_SCALE_ANALOG,
            GConfOption::InternalRSense => INTERNAL_RSENSE,
            GConfOption::SpreadCycle => EN_SPREADCYCLE,
            GConfOption::MStepResolution => MSTEP_REG_SELECT,
        }
    }
}

/// Options of the CHOPCONF register that can be switched on and off.
#[derive(Clone, Copy, Debug, PartialEq, Eq, Structural)]
pub enum ChopConfOption {
    Vsense,
    Intpol,
}

impl ChopConfOption {
    pub open spec fn spec_mask(self) -> u32 {
        match self {
            ChopConfOption::Vsense => VSENSE,
            ChopConfOption::Intpol => INTPOL,
        }
    }

    /// The CHOPCONF bit of this option.
    pub fn mask(self) -> (r: u32)
        ensures
            r == self.spec_mask(),
    {
        match self {
            ChopConfOption::Vsense => VSENSE,
            ChopConfOption::Intpol => INTPOL,
        }
    }
}

/// The stored MRES value of a CHOPCONF word (bits 24 to 27).
pub open spec fn microstep_nibble(chopconf: u32) -> u32 {
    (chopconf & MSRES_MASK) >> 24u32
}

/// Microsteps per full step for a stored MRES value `v`: `2^(8 - v)`.
pub open spec fn microsteps_of_nibble(v: u32) -> nat
    recommends
        v <= 8,
{
    pow2((8 - v) as nat)
}

/// Decodes a stored MRES value into microsteps per full step.
pub fn decode_microsteps(v: u32) -> (r: u16)
    requires
        v <= 8,
    ensures
        r as nat == microsteps_of_nibble(v),
{
    proof {
        lemma2_to64();
    }
    match v {
        0 => 256,
        1 => 128,
        2 => 64,
        3 => 32,
        4 => 16,
        5 => 8,
        6 => 4,
        7 => 2,
        _ => 1,
    }
}

/// Reads the stored MRES value out of a CHOPCONF word.
pub fn chopconf_microstep_nibble(chopconf: u32) -> (r: u32)
    ensures
        r == microstep_nibble(chopconf),
        r < 16,
{
    assert((chopconf & MSRES_MASK) >> 24u32 < 16) by (bit_vector);
    (chopconf & MSRES_MASK) >> 24u32
}

/// Microstep resolutions: microsteps per full step, powers of two from 1 to
/// 256.
#[derive(Clone, Copy, Debug, PartialEq, Eq, Structural)]
pub enum MicrostepRes {
    One,
    Two,
    Four,
    Eight,
    Sixteen,
    ThirtyTwo,
    SixtyFour,
    /// 128 microsteps.
    OneTwoFive,
    TwoFiveSix,
}

impl MicrostepRes {
    /// log2 of the number of microsteps.
    pub open spec fn spec_log2(self) -> u32 {
        match self {
            MicrostepRes::One => 0,
            MicrostepRes::Two => 1,
            MicrostepRes::Four => 2,
            MicrostepRes::Eight => 3,
            MicrostepRes::Sixteen => 4,
            MicrostepRes::ThirtyTwo => 5,
            MicrostepRes::SixtyFour => 6,
            MicrostepRes::OneTwoFive => 7,
            MicrostepRes::TwoFiveSix => 8,
        }
    }

    pub open spec fn spec_microsteps(self) -> nat {
        pow2(self.spec_log2() as nat)
    }

    /// The stored MRES value: `8 - log2(microsteps)`.
    pub open spec fn spec_nibble(self) -> u32 {
        (8 - self.spec_log2()) as u32
    }

    /// Microsteps per full step.
    pub fn microsteps(self) -> (r: u16)
        ensures
            r as nat == self.spec_microsteps(),
    {
        proof {
            lemma2_to64();
        }
        match self {
            MicrostepRes::One => 1,
            MicrostepRes::Two => 2,
            MicrostepRes::Four => 4,
            MicrostepRes::Eight => 8,
            MicrostepRes::Sixteen => 16,
            MicrostepRes::ThirtyTwo => 32,
            MicrostepRes::SixtyFour => 64,
            MicrostepRes::OneTwoFive => 128,
            MicrostepRes::TwoFiveSix => 256,
        }
    }

    /// The value stored in the MRES bits for this resolution.
    pub fn nibble(self) -> (r: u32)
        ensures
            r == self.spec_nibble(),
            r <= 8,
    {
        match self {
            MicrostepRes::One => 8,
            MicrostepRes::Two => 7,
            MicrostepRes::Four => 6,
            MicrostepRes::Eight => 5,
            MicrostepRes::Sixteen => 4,
            MicrostepRes::ThirtyTwo => 3,
            MicrostepRes::SixtyFour => 2,
            MicrostepRes::OneTwoFive => 1,
            MicrostepRes::TwoFiveSix => 0,
        }
    }

    /// The CHOPCONF word `chopconf` with its MRES bits set for this
    /// resolution and every other bit kept.
    pub open spec fn spec_apply(self, chopconf: u32) -> u32 {
        with_field(chopconf, MSRES_MASK, self.spec_nibble() << 24u32)
    }
}

/// Writing a resolution into CHOPCONF stores `8 - log2(microsteps)` in bits
/// 24 to 27, which decodes back to the same resolution, and leaves every
/// other bit as it was.
pub proof fn lemma_microstep_encoding(chopconf: u32, res: MicrostepRes)
    ensures
        microstep_nibble(res.spec_apply(chopconf)) == res.spec_nibble(),
        microsteps_of_nibble(microstep_nibble(res.spec_apply(chopconf))) == res.spec_microsteps(),
        res.spec_apply(chopconf) & !MSRES_MASK == chopconf & !MSRES_MASK,
{
    let v = res.spec_nibble();
    let c2 = res.spec_apply(chopconf);
    assert(v <= 8);
    assert((((chopconf & !0x0F00_0000u32) | ((v << 24u32) & 0x0F00_0000u32)) & 0x0F00_0000u32)
        >> 24u32 == v) by (bit_vector)
        requires
            v <= 8,
    ;
    assert(((chopconf & !0x0F00_0000u32) | ((v << 24u32) & 0x0F00_0000u32)) & !0x0F00_0000u32
        == chopconf & !0x0F00_0000u32) by (bit_vector);
}

} // verus!
