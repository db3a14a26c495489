//! Decoding of the diagnostic registers: IOIN, CHOPCONF, DRVSTATUS and GCONF.
use crate::error::DriverError;
use crate::registers::{
    chopconf_microstep_nibble, has_bits, microstep_nibble, EN_SPREADCYCLE, INDEX_OTPW, INDEX_STEP,
    INTERNAL_RSENSE, INTPOL, IO_DIR, IO_ENN, IO_SPREAD, IO_STEP, I_SCALE_ANALOG, MSTEP_REG_SELECT,
    OLA, OLB, OT, OTPW, S2GA, S2GB, S2VSA, S2VSB, SHAFT, STEALTH, STST, VSENSE,
};
use vstd::prelude::*;

verus! {

/// Levels of the input pins.
#[derive(Clone, Copy, Debug, PartialEq, Eq, Structural)]
pub struct IoinStatus {
    pub spread: bool,
    pub dir: bool,
    pub step: bool,
    pub enn: bool,
}

/// Decodes an IOIN word.
pub fn decode_ioin(ioin: u32) -> (r: IoinStatus)
    ensures
        r == (IoinStatus {
            spread: has_bits(ioin, IO_SPREAD),
            dir: has_bits(ioin, IO_DIR),
            step: has_bits(ioin, IO_STEP),
            enn: has_bits(ioin, IO_ENN),
        }),
{
    IoinStatus {
        spread: ioin & IO_SPREAD != 0,
        dir: ioin & IO_DIR != 0,
        step: ioin & IO_STEP != 0,
        enn: ioin & IO_ENN != 0,
    }
}

/// Chopper settings.
#[derive(Clone, Copy, Debug, PartialEq, Eq, Structural)]
pub struct ChopconfStatus {
    /// Interpolation to 256 microsteps.
    pub interpolation: bool,
    /// High sensitivity, low sense resistor voltage.
    pub vsense: bool,
    /// The stored MRES value.
    pub microstep_nibble: u32,
}

/// Decodes a CHOPCONF word.
pub fn decode_chopconf(chopconf: u32) -> (r: ChopconfStatus)
    ensures
        r == (ChopconfStatus {
            interpolation: has_bits(chopconf, INTPOL),
            vsense: has_bits(chopconf, VSENSE),
            microstep_nibble: microstep_nibble(chopconf),
        }),
{
    ChopconfStatus {
        interpolation: chopconf & INTPOL != 0,
        vsense: chopconf & VSENSE != 0,
        microstep_nibble: chopconf_microstep_nibble(chopconf),
    }
}

/// Driver status flags.
#[derive(Clone, Copy, Debug, PartialEq, Eq, Structural)]
pub struct DrvStatus {
    /// The motor stands still (else it runs).
    pub standstill: bool,
    /// StealthChop mode (else SpreadCycle).
    pub stealth_chop: bool,
    pub open_load_b: bool,
    pub open_load_a: bool,
    /// Short on the low-side MOSFET of phase B; the driver is disabled.
    pub short_low_side_b: bool,
    pub short_low_side_a: bool,
    /// Short to ground on phase B; the driver is disabled.
    pub short_ground_b: bool,
    pub short_ground_a: bool,
    pub overtemperature: bool,
    pub overtemperature_prewarning: bool,
}

/// Decodes a DRVSTATUS word.
pub fn decode_drvstatus(drvstatus: u32) -> (r: DrvStatus)
    ensures
        r == (DrvStatus {
            standstill: has_bits(drvstatus, STST),
            stealth_chop: has_bits(drvstatus, STEALTH),
            open_load_b: has_bits(drvstatus, OLB),
            open_load_a: has_bits(drvstatus, OLA),
            short_low_side_b: has_bits(drvstatus, S2VSB),
            short_low_side_a: has_bits(drvstatus, S2VSA),
            short_ground_b: has_bits(drvstatus, S2GB),
            short_ground_a: has_bits(drvstatus, S2GA),
            overtemperature: has_bits(drvstatus, OT),
            overtemperature_prewarning: has_bits(drvstatus, OTPW),
        }),
{
    DrvStatus {
        standstill: drvstatus & STST != 0,
        stealth_chop: drvstatus & STEALTH != 0,
        open_load_b: drvstatus & OLB != 0,
        open_load_a: drvstatus & OLA != 0,
        short_low_side_b: drvstatus & S2VSB != 0,
        short_low_side_a: drvstatus & S2VSA != 0,
        short_ground_b: drvstatus & S2GB != 0,
        short_ground_a: drvstatus & S2GA != 0,
        overtemperature: drvstatus & OT != 0,
        overtemperature_prewarning: drvstatus & OTPW != 0,
    }
}

/// Global configuration, for a device running on external sense resistors.
#[derive(Clone, Copy, Debug, PartialEq, Eq, Structural)]
pub struct GconfStatus {
    /// VREF is the current reference (else the internal reference from
    /// 5VOUT).
    pub i_scale_analog: bool,
    /// SpreadCycle (else StealthChop PWM mode).
    pub spread_cycle: bool,
    /// Inverse motor direction.
    pub shaft: bool,
    /// INDEX outputs the overtemperature prewarning flag (else the first
    /// microstep position).
    pub index_otpw: bool,
    /// INDEX outputs step pulses of the internal generator.
    pub index_step: bool,
    /// Microstep resolution selected by the MRES register (else by the MS1,
    /// MS2 pins).
    pub mstep_reg_select: bool,
}

/// Decodes a GCONF word. Internal sense resistors drive VREF to ground and
/// are likely to destroy the driver: that configuration is refused.
pub fn decode_gconf(gconf: u32) -> (r: Result<GconfStatus, DriverError>)
    ensures
        r is Err <==> has_bits(gconf, INTERNAL_RSENSE),
        r is Err ==> r == Err::<GconfStatus, DriverError>(DriverError::UnsafeConfigurationDetected),
        r is Ok ==> r->Ok_0 == (GconfStatus {
            i_scale_analog: has_bits(gconf, I_SCALE_ANALOG),
            spread_cycle: has_bits(gconf, EN_SPREADCYCLE),
            shaft: has_bits(gconf, SHAFT),
            index_otpw: has_bits(gconf, INDEX_OTPW),
            index_step: has_bits(gconf, INDEX_STEP),
            mstep_reg_select: has_bits(gconf, MSTEP_REG_SELECT),
        }),
{
    if gconf & INTERNAL_RSENSE != 0 {
        return Err(DriverError::UnsafeConfigurationDetected);
    }
    Ok(
        GconfStatus {
            i_scale_analog: gconf & I_SCALE_ANALOG != 0,
            spread_cycle: gconf & EN_SPREADCYCLE != 0,
            shaft: gconf & SHAFT != 0,
            index_otpw: gconf & INDEX_OTPW != 0,
            index_step: gconf & INDEX_STEP != 0,
            mstep_reg_select: gconf & MSTEP_REG_SELECT != 0,
        },
    )
}

} // verus!
