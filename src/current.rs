//! The current model: from a requested run current to the IRUN and IHOLD
//! current-scale values of the IHOLD_IRUN register.
//!
//! `cs_irun = 32 * sqrt(2) * I / 1000 * (R_sense + 0.02) / V_fs - 1`, clamped
//! to [0, 31]; `cs_ihold = 0.5 * cs_irun`; both rounded to the nearest
//! integer, halves away from zero. The arithmetic is exact over rationals,
//! with sqrt(2) taken as 1.41421.
use vstd::prelude::*;

verus! {

/// sqrt(2) scaled by 10^5.
pub const SQRT2_E5: u64 = 141421;

/// Sense resistor plus the 0.02 ohm of the driver's own path, in milliohms.
pub const RSENSE_TOTAL_MILLIOHM: u64 = 130;

/// Full-scale sense voltage with VSENSE clear (0.325 V * 1.2 / 2.5), in
/// units of 10^-4 V.
pub const VFS_LOW_SENSITIVITY_E4: u64 = 1560;

/// Full-scale sense voltage with VSENSE set (0.180 V * 1.2 / 2.5), in units
/// of 10^-4 V.
pub const VFS_HIGH_SENSITIVITY_E4: u64 = 864;

/// Largest current-scale value.
pub const CS_MAX: u64 = 31;

/// Hold-current delay written with every current setting.
pub const HOLD_CURRENT_DELAY: u32 = 10;

pub open spec fn full_scale_e4(vsense: bool) -> int {
    if vsense {
        VFS_HIGH_SENSITIVITY_E4 as int
    } else {
        VFS_LOW_SENSITIVITY_E4 as int
    }
}

/// `(cs_irun + 1) * scale_den(vsense)`: the unclamped run current scale plus
/// one, as a numerator over `scale_den`.
pub open spec fn scale_num(milliamps: int) -> int {
    32 * SQRT2_E5 * RSENSE_TOTAL_MILLIOHM * milliamps
}

pub open spec fn scale_den(vsense: bool) -> int {
    10_000_000 * full_scale_e4(vsense)
}

/// Numerator over `scale_den` of the run current scale clamped to [0, 31].
pub open spec fn clamped_num(milliamps: int, vsense: bool) -> int {
    let x = scale_num(milliamps) - scale_den(vsense);
    if x < 0 {
        0
    } else if x > CS_MAX * scale_den(vsense) {
        CS_MAX * scale_den(vsense)
    } else {
        x
    }
}

/// `num / den` rounded to the nearest integer, halves upward (for
/// `num >= 0`, `den > 0`).
pub open spec fn round_ratio(num: int, den: int) -> int {
    (2 * num + den) / (2 * den)
}

/// The run current scale `cs_irun`.
pub open spec fn spec_irun(milliamps: int, vsense: bool) -> int {
    round_ratio(clamped_num(milliamps, vsense), scale_den(vsense))
}

/// The hold current scale: half of the clamped run scale, rounded.
pub open spec fn spec_ihold(milliamps: int, vsense: bool) -> int {
    round_ratio(clamped_num(milliamps, vsense), 2 * scale_den(vsense))
}

/// The IHOLD_IRUN word: IHOLD in bits 0..4, IRUN in bits 8..12, the hold
/// delay in bits 16..19.
pub open spec fn ihold_irun_word(ihold: u32, irun: u32, delay: u32) -> u32 {
    ihold | (irun << 8u32) | (delay << 16u32)
}

/// Run and hold current scales.
#[derive(Clone, Copy, Debug, PartialEq, Eq, Structural)]
pub struct CurrentScale {
    pub irun: u32,
    pub ihold: u32,
}

/// Computes the run and hold current scales for a run current of
/// `milliamps`, with the full-scale voltage chosen by `vsense`.
pub fn current_scale(milliamps: u16, vsense: bool) -> (r: CurrentScale)
    ensures
        r.irun as int == spec_irun(milliamps as int, vsense),
        r.ihold as int == spec_ihold(milliamps as int, vsense),
        r.irun <= 31,
        r.ihold <= 16,
{
    let vfs: u64 = if vsense {
        VFS_HIGH_SENSITIVITY_E4
    } else {
        VFS_LOW_SENSITIVITY_E4
    };
    let den: u64 = 10_000_000 * vfs;
    let per_milliamp: u64 = 32 * SQRT2_E5 * RSENSE_TOTAL_MILLIOHM;
    let ma = milliamps as u64;
    assert(per_milliamp * ma <= 588_311_360 * 65535) by (nonlinear_arith)
        requires
            per_milliamp == 588_311_360,
            ma <= 65535,
    ;
    let num: u64 = per_milliamp * ma;
    let clamped: u64 = if num < den {
        0
    } else if num - den > CS_MAX * den {
        CS_MAX * den
    } else {
        num - den
    };
    assert(clamped as int == clamped_num(milliamps as int, vsense));
    let irun = (2 * clamped + den) / (2 * den);
    let ihold = (2 * clamped + 2 * den) / (4 * den);
    assert(irun <= 31) by (nonlinear_arith)
        requires
            irun == (2 * clamped + den) / (2 * den),
            clamped <= 31 * den,
            den > 0,
    ;
    assert(ihold <= 16) by (nonlinear_arith)
        requires
            ihold == (2 * clamped + 2 * den) / (4 * den),
            clamped <= 31 * den,
            den > 0,
    ;
    CurrentScale { irun: irun as u32, ihold: ihold as u32 }
}

/// Packs the IHOLD_IRUN register word.
pub fn pack_ihold_irun(ihold: u32, irun: u32, delay: u32) -> (r: u32)
    ensures
        r == ihold_irun_word(ihold, irun, delay),
{
    ihold | (irun << 8u32) | (delay << 16u32)
}

} // verus!
