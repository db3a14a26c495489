//! The TMC2209 driver: the device configuration engine and the step
//! sequencer.
//!
//! The driver owns the motion state. Each configuration operation returns
//! the verified register write (`RegisterWrite`) that carries it out; the
//! caller runs it on the bus. `step` returns the pulse to make and, when the
//! direction changes, the write that switches it first.
use crate::codec::{check_byte, crc8, encode_read, encode_write, read_frame, write_frame};
use crate::current::{ihold_irun_word, pack_ihold_irun};
use crate::error::{DriverError, NoStepsRemaining};
use crate::protocol::{Edit, RegisterWrite};
pub use crate::registers::{ChopConfOption, GConfOption, MicrostepRes};
use crate::registers::{
    chopconf_microstep_nibble, decode_microsteps, microstep_nibble, microsteps_of_nibble,
    RegisterWord, CHOPCONF, DRV_ERR, GCONF, GSTAT, IHOLD_IRUN, MSRES_MASK, MSTEP_REG_SELECT, RESET,
    SHAFT, VSENSE,
};
use crate::stepper::{Direction, StepPulse, Stepper};
use vstd::prelude::*;

verus! {

/// Whether the motor driver stage is enabled.
#[derive(Clone, Copy, Debug, PartialEq, Eq, Structural)]
pub enum Motor {
    Enabled,
    Disabled,
}

impl Motor {
    /// Level of the active-low enable line.
    pub open spec fn spec_level(self) -> u8 {
        match self {
            Motor::Enabled => 0,
            Motor::Disabled => 1,
        }
    }
}

/// A GPIO line and the level to drive it to.
#[derive(Clone, Copy, Debug, PartialEq, Eq, Structural)]
pub struct PinLevel {
    pub pin: u8,
    pub level: u8,
}

/// Microsteps per full step assumed until the CHOPCONF register is read.
pub const DEFAULT_MICROSTEPS: u16 = 256;

/// The driver's state as the contracts see it.
#[derive(Clone, Copy, Debug)]
pub struct Tmc2209View {
    /// Step, direction and enable pins. The direction pin is accepted but
    /// unused: direction is a GCONF bit.
    pub pins: (u8, u8, u8),
    pub position: i32,
    pub direction: Direction,
    pub steps_to_move: i32,
    pub msres: u16,
}

/// Configuration collected before the driver is built: the pins and the
/// GPIO chip `C` the lines belong to.
pub struct Tmc2209Builder<C> {
    pins: (u8, u8, u8),
    chip: Option<C>,
}

impl<C> Tmc2209Builder<C> {
    pub closed spec fn spec_pins(&self) -> (u8, u8, u8) {
        self.pins
    }

    pub closed spec fn spec_chip(&self) -> Option<C> {
        self.chip
    }

    /// Attaches the GPIO chip, or records that none could be opened.
    pub fn set_chip(self, chip: Option<C>) -> (r: Self)
        ensures
            r.spec_pins() == self.spec_pins(),
            r.spec_chip() == chip,
    {
        Tmc2209Builder { pins: self.pins, chip }
    }

    /// Builds the driver, handing back the chip with it. Without a chip the
    /// configuration is incomplete and is refused.
    pub fn build(self) -> (r: Result<(Tmc2209, C), DriverError>)
        ensures
            r is Err <==> self.spec_chip() is None,
            r is Err ==> r == Err::<(Tmc2209, C), DriverError>(DriverError::GpioConfigurationError),
            r is Ok ==> r->Ok_0.1 == self.spec_chip()->Some_0 && r->Ok_0.0@ == (Tmc2209View {
                pins: self.spec_pins(),
                position: 0,
                direction: Direction::CW,
                steps_to_move: 0,
                msres: DEFAULT_MICROSTEPS,
            }),
    {
        match self.chip {
            Some(chip) => Ok(
                (
                    Tmc2209 {
                        pins: self.pins,
                        current_position: 0,
                        current_direction: Direction::CW,
                        steps_to_move: 0,
                        msres: DEFAULT_MICROSTEPS,
                    },
                    chip,
                ),
            ),
            None => Err(DriverError::GpioConfigurationError),
        }
    }
}

/// The TMC2209 driver state: pins, logical position, direction, steps still
/// to make, and the microstep resolution last read.
pub struct Tmc2209 {
    pins: (u8, u8, u8),
    current_position: i32,
    current_direction: Direction,
    steps_to_move: i32,
    msres: u16,
}

impl View for Tmc2209 {
    type V = Tmc2209View;

    closed spec fn view(&self) -> Tmc2209View {
        Tmc2209View {
            pins: self.pins,
            position: self.current_position,
            direction: self.current_direction,
            steps_to_move: self.steps_to_move,
            msres: self.msres,
        }
    }
}

/// The direction a signed step count moves in.
pub open spec fn direction_of(steps: i32) -> Direction {
    if steps > 0 {
        Direction::CW
    } else {
        Direction::CCW
    }
}

/// The register write that switches the GCONF direction bit to `direction`.
pub open spec fn direction_write(direction: Direction) -> RegisterWrite {
    match direction {
        Direction::CW => RegisterWrite::spec_new(GCONF, Edit::ClearBits(SHAFT)),
        Direction::CCW => RegisterWrite::spec_new(GCONF, Edit::SetBits(SHAFT)),
    }
}

/// The state after one step; unchanged where no steps remain.
pub open spec fn spec_step(v: Tmc2209View) -> Tmc2209View {
    if v.steps_to_move > 0 {
        Tmc2209View {
            steps_to_move: (v.steps_to_move - 1) as i32,
            position: v.position.wrapping_add(1),
            direction: Direction::CW,
            ..v
        }
    } else if v.steps_to_move < 0 {
        Tmc2209View {
            steps_to_move: (v.steps_to_move + 1) as i32,
            position: v.position.wrapping_sub(1),
            direction: Direction::CCW,
            ..v
        }
    } else {
        v
    }
}

/// Whether the next step switches direction.
pub open spec fn step_switches_direction(v: Tmc2209View) -> bool {
    v.steps_to_move != 0 && v.direction != direction_of(v.steps_to_move)
}

impl Tmc2209 {
    /// Starts the configuration of a driver on the given step, direction and
    /// enable pins.
    pub fn new<C>(pins: (u8, u8, u8)) -> (r: Tmc2209Builder<C>)
        ensures
            r.spec_pins() == pins,
            r.spec_chip() is None,
    {
        Tmc2209Builder { pins, chip: None }
    }

    pub fn pins(&self) -> (r: (u8, u8, u8))
        ensures
            r == self@.pins,
    {
        self.pins
    }

    pub fn current_position(&self) -> (r: i32)
        ensures
            r == self@.position,
    {
        self.current_position
    }

    pub fn current_direction(&self) -> (r: Direction)
        ensures
            r == self@.direction,
    {
        self.current_direction
    }

    pub fn steps_to_move(&self) -> (r: i32)
        ensures
            r == self@.steps_to_move,
    {
        self.steps_to_move
    }

    pub fn msres(&self) -> (r: u16)
        ensures
            r == self@.msres,
    {
        self.msres
    }

    /// Moves to the absolute `position`: makes as many steps as the
    /// difference from the current position, and returns their pulses in
    /// order.
    pub fn move_to_position(&mut self, position: i32) -> (r: Vec<StepPulse>)
        requires
            i32::MIN <= position - old(self)@.position <= i32::MAX,
        ensures
            ({
                let start = Tmc2209View {
                    steps_to_move: (position - old(self)@.position) as i32,
                    ..old(self)@
                };
                &&& final(self)@ == run_steps(start, abs(start.steps_to_move))
                &&& moves_as(r@, start)
            }),
            final(self)@.position == position,
            final(self)@.steps_to_move == 0,
            r@.len() == abs((position - old(self)@.position) as i32),
    {
        let delta = position - self.current_position;
        self.move_steps(delta)
    }

    /// Moves `steps` steps from where the motor stands: makes every step,
    /// and returns their pulses in order. Only the first pulse may carry a
    /// direction write, and it does exactly when the direction changes.
    pub fn move_steps(&mut self, steps: i32) -> (r: Vec<StepPulse>)
        requires
            i32::MIN <= old(self)@.position + steps <= i32::MAX,
        ensures
            ({
                let start = Tmc2209View { steps_to_move: steps, ..old(self)@ };
                &&& final(self)@ == run_steps(start, abs(steps))
                &&& moves_as(r@, start)
            }),
            final(self)@.position == old(self)@.position + steps,
            final(self)@.steps_to_move == 0,
            steps != 0 ==> final(self)@.direction == direction_of(steps),
            final(self)@.pins == old(self)@.pins,
            final(self)@.msres == old(self)@.msres,
            r@.len() == abs(steps),
    {
        self.set_steps_to_move(steps);
        let ghost start = self@;
        proof {
            lemma_run_prefix(start, abs(steps));
        }
        let mut pulses: Vec<StepPulse> = Vec::new();
        while self.steps_to_move != 0
            invariant
                start == (Tmc2209View { steps_to_move: steps, ..old(self)@ }),
                i32::MIN <= start.position + start.steps_to_move <= i32::MAX,
                pulses@.len() <= abs(steps),
                self@ == run_steps(start, pulses@.len()),
                pulses_from(pulses@, start),
            decreases abs(steps) - pulses@.len(),
        {
            let ghost k = pulses@.len();
            let ghost before = pulses@;
            proof {
                lemma_run_prefix(start, k);
                lemma_run_steps_last(start, k);
            }
            let r = self.step();
            match r {
                Ok(p) => {
                    pulses.push(p);
                },
                Err(_) => {},
            }
            proof {
                lemma_run_prefix(start, k + 1);
                assert forall|i: int| 0 < i < pulses@.len() implies pulses@[i].direction_change
                    is None by {
                    if i < k {
                        assert(pulses@[i] == before[i]);
                    }
                }
            }
        }
        proof {
            lemma_run_prefix(start, pulses@.len());
        }
        pulses
    }

    /// The default settings leave the state as it is.
    pub fn init_default_settings(&mut self)
        ensures
            final(self)@ == old(self)@,
    {
    }

    /// Decodes the microstep resolution of a CHOPCONF word and remembers it.
    pub fn get_steps_per_rev(&mut self, chopconf: u32) -> (r: u16)
        requires
            microstep_nibble(chopconf) <= 8,
        ensures
            r as nat == microsteps_of_nibble(microstep_nibble(chopconf)),
            final(self)@ == (Tmc2209View { msres: r, ..old(self)@ }),
    {
        let v = chopconf_microstep_nibble(chopconf);
        self.msres = decode_microsteps(v);
        self.msres
    }

    /// The CRC check byte of a datagram: computed over every byte but the
    /// last.
    pub fn calculate_crc(&self, datagram: &Vec<u8>) -> (r: u8)
        requires
            datagram@.len() >= 1,
        ensures
            r == check_byte(datagram@),
    {
        crc8(datagram)
    }

    /// Sets the bits of `setting_bits` in `register_bits`.
    pub fn set_bit<T: RegisterWord>(register_bits: T, setting_bits: T) -> (r: T)
        ensures
            r == register_bits.spec_set(setting_bits),
    {
        register_bits.set_bits(setting_bits)
    }

    /// Clears the bits of `setting_bits` in `register_bits`.
    pub fn clear_bit<T: RegisterWord>(register_bits: T, setting_bits: T) -> (r: T)
        ensures
            r == register_bits.spec_clear(setting_bits),
    {
        register_bits.clear_bits(setting_bits)
    }

    /// The write frame for `reg`: sync, address, register | write flag, the
    /// value big-endian, CRC.
    pub fn get_write_bytes(&self, reg: u8, val: u32) -> (r: Vec<u8>)
        ensures
            r@ == write_frame(reg, val),
    {
        encode_write(reg, val)
    }

    /// The read frame for `reg`: sync, address, register, CRC.
    pub fn get_read_bytes(&self, reg: u8) -> (r: Vec<u8>)
        ensures
            r@ == read_frame(reg),
    {
        encode_read(reg)
    }

    /// Clears the sticky reset and driver-error flags of GSTAT by writing
    /// ones to them.
    pub fn clear_gstat(&self) -> (r: RegisterWrite)
        ensures
            r == RegisterWrite::spec_new(GSTAT, Edit::SetBits(RESET | DRV_ERR)),
    {
        RegisterWrite::new(GSTAT, Edit::SetBits(RESET | DRV_ERR))
    }

    pub fn enable_gconf_option(&self, option: GConfOption) -> (r: RegisterWrite)
        ensures
            r == RegisterWrite::spec_new(GCONF, Edit::SetBits(option.spec_mask())),
    {
        RegisterWrite::new(GCONF, Edit::SetBits(option.mask()))
    }

    pub fn disable_gconf_option(&self, option: GConfOption) -> (r: RegisterWrite)
        ensures
            r == RegisterWrite::spec_new(GCONF, Edit::ClearBits(option.spec_mask())),
    {
        RegisterWrite::new(GCONF, Edit::ClearBits(option.mask()))
    }

    pub fn enable_chopconf_option(&self, option: ChopConfOption) -> (r: RegisterWrite)
        ensures
            r == RegisterWrite::spec_new(CHOPCONF, Edit::SetBits(option.spec_mask())),
    {
        RegisterWrite::new(CHOPCONF, Edit::SetBits(option.mask()))
    }

    pub fn disable_chopconf_option(&self, option: ChopConfOption) -> (r: RegisterWrite)
        ensures
            r == RegisterWrite::spec_new(CHOPCONF, Edit::ClearBits(option.spec_mask())),
    {
        RegisterWrite::new(CHOPCONF, Edit::ClearBits(option.mask()))
    }

    /// The VSENSE bit of a CHOPCONF word.
    pub fn get_vsense(&self, chopconf: u32) -> (r: u32)
        ensures
            r == chopconf & VSENSE,
    {
        chopconf & VSENSE
    }

    /// Sets the run current to `current` milliamps, and the hold current to
    /// half of it; the full-scale voltage follows the VSENSE bit read from
    /// CHOPCONF.
    pub fn set_current(&self, current: u16) -> (r: RegisterWrite)
        ensures
            r == RegisterWrite::spec_new(IHOLD_IRUN, Edit::Current(current)),
    {
        RegisterWrite::new(IHOLD_IRUN, Edit::Current(current))
    }

    /// Writes the given hold and run current scales and hold delay.
    pub fn set_irun_ihold(&self, ihold: u32, irun: u32, hold_current_delay: u32) -> (r:
        RegisterWrite)
        ensures
            r == RegisterWrite::spec_new(
                IHOLD_IRUN,
                Edit::Assign(ihold_irun_word(ihold, irun, hold_current_delay)),
            ),
    {
        RegisterWrite::new(IHOLD_IRUN, Edit::Assign(pack_ihold_irun(ihold, irun, hold_current_delay)))
    }

    /// Sets the microstep resolution: stores `8 - log2(microsteps)` in the
    /// MRES bits of CHOPCONF, then selects the MRES register over the MS1 /
    /// MS2 pins in GCONF. The writes are to be run in order.
    pub fn set_microstepping_resolution(&self, resolution: MicrostepRes) -> (r: Vec<
        RegisterWrite,
    >)
        ensures
            r@ == seq![
                RegisterWrite::spec_new(
                    CHOPCONF,
                    Edit::Field { mask: MSRES_MASK, bits: resolution.spec_nibble() << 24u32 },
                ),
                RegisterWrite::spec_new(GCONF, Edit::SetBits(MSTEP_REG_SELECT)),
            ],
    {
        let bits = resolution.nibble() << 24u32;
        let mut writes: Vec<RegisterWrite> = Vec::new();
        writes.push(RegisterWrite::new(CHOPCONF, Edit::Field { mask: MSRES_MASK, bits }));
        writes.push(RegisterWrite::new(GCONF, Edit::SetBits(MSTEP_REG_SELECT)));
        writes
    }

    /// The enable line and its level: the line is active low.
    pub fn set_motor_enabled(&self, enabled: Motor) -> (r: PinLevel)
        ensures
            r == (PinLevel { pin: self@.pins.2, level: enabled.spec_level() }),
    {
        match enabled {
            Motor::Enabled => PinLevel { pin: self.pins.2, level: 0 },
            Motor::Disabled => PinLevel { pin: self.pins.2, level: 1 },
        }
    }
}

impl Stepper for Tmc2209 {
    fn set_steps_to_move(&mut self, steps: i32)
        ensures
            final(self)@ == (Tmc2209View { steps_to_move: steps, ..old(self)@ }),
    {
        self.steps_to_move = steps;
    }

    fn step(&mut self) -> (r: Result<StepPulse, NoStepsRemaining>)
        ensures
            old(self)@.steps_to_move == 0 <==> r is Err,
            final(self)@ == spec_step(old(self)@),
            r is Ok ==> r->Ok_0.pin == old(self)@.pins.0,
            r is Ok ==> (r->Ok_0.direction_change is Some <==> step_switches_direction(
                old(self)@,
            )),
            r is Ok && step_switches_direction(old(self)@) ==> r->Ok_0.direction_change
                == Some(direction_write(direction_of(old(self)@.steps_to_move))),
    {
        let change;
        if self.steps_to_move > 0 {
            self.steps_to_move = self.steps_to_move - 1;
            self.current_position = self.current_position.wrapping_add(1);
            change = self.set_direction(Direction::CW);
        } else if self.steps_to_move < 0 {
            self.steps_to_move = self.steps_to_move + 1;
            self.current_position = self.current_position.wrapping_sub(1);
            change = self.set_direction(Direction::CCW);
        } else {
            return Err(NoStepsRemaining);
        }
        Ok(StepPulse { pin: self.pins.0, direction_change: change })
    }

    fn set_direction(&mut self, direction: Direction) -> (r: Option<RegisterWrite>)
        ensures
            final(self)@ == (Tmc2209View { direction, ..old(self)@ }),
            direction == old(self)@.direction ==> r is None,
            direction != old(self)@.direction ==> r == Some(direction_write(direction)),
    {
        if direction == self.current_direction {
            None
        } else {
            let edit = match direction {
                Direction::CW => Edit::ClearBits(SHAFT),
                Direction::CCW => Edit::SetBits(SHAFT),
            };
            self.current_direction = direction;
            Some(RegisterWrite::new(GCONF, edit))
        }
    }
}

/// The state after `k` steps.
pub open spec fn run_steps(v: Tmc2209View, k: nat) -> Tmc2209View
    decreases k,
{
    if k == 0 {
        v
    } else {
        run_steps(spec_step(v), (k - 1) as nat)
    }
}

/// Whether `pulses` are the pulses of the first steps from `start`: each on
/// the step pin, the first carrying a direction write exactly when the
/// first step switches direction, the others none.
pub open spec fn pulses_from(pulses: Seq<StepPulse>, start: Tmc2209View) -> bool {
    &&& forall|i: int| 0 <= i < pulses.len() ==> #[trigger] pulses[i].pin == start.pins.0
    &&& forall|i: int| 0 < i < pulses.len() ==> (#[trigger] pulses[i]).direction_change is None
    &&& pulses.len() > 0 ==> (pulses[0].direction_change is Some <==> step_switches_direction(
        start,
    ))
    &&& pulses.len() > 0 && step_switches_direction(start) ==> pulses[0].direction_change
        == Some(direction_write(direction_of(start.steps_to_move)))
}

/// Whether `pulses` are the pulses of a whole move from `start`.
pub open spec fn moves_as(pulses: Seq<StepPulse>, start: Tmc2209View) -> bool {
    pulses.len() == abs(start.steps_to_move) && pulses_from(pulses, start)
}

proof fn lemma_run_steps_last(v: Tmc2209View, k: nat)
    ensures
        run_steps(v, k + 1) == spec_step(run_steps(v, k)),
    decreases k,
{
    assert(run_steps(v, k + 1) == run_steps(spec_step(v), k));
    if k > 0 {
        lemma_run_steps_last(spec_step(v), (k - 1) as nat);
        assert(run_steps(v, k) == run_steps(spec_step(v), (k - 1) as nat));
    } else {
        assert(run_steps(spec_step(v), 0) == spec_step(v));
    }
}

/// How many of the next `k` steps write the direction register.
pub open spec fn direction_writes(v: Tmc2209View, k: nat) -> nat
    decreases k,
{
    if k == 0 {
        0
    } else {
        (if step_switches_direction(v) {
            1nat
        } else {
            0nat
        }) + direction_writes(spec_step(v), (k - 1) as nat)
    }
}

pub open spec fn abs(n: i32) -> nat {
    if n < 0 {
        (-n) as nat
    } else {
        n as nat
    }
}

proof fn lemma_run_prefix(v: Tmc2209View, k: nat)
    requires
        k <= abs(v.steps_to_move),
        i32::MIN <= v.position + v.steps_to_move <= i32::MAX,
    ensures
        ({
            let end = run_steps(v, k);
            &&& v.steps_to_move > 0 ==> end.steps_to_move == v.steps_to_move - k
                && end.position == v.position + k
            &&& v.steps_to_move < 0 ==> end.steps_to_move == v.steps_to_move + k
                && end.position == v.position - k
            &&& k > 0 ==> end.direction == direction_of(v.steps_to_move)
            &&& k == 0 ==> end == v
            &&& end.pins == v.pins
            &&& end.msres == v.msres
            &&& direction_writes(v, k) == if k > 0 && step_switches_direction(v) {
                1nat
            } else {
                0nat
            }
        }),
    decreases k,
{
    if k > 0 {
        let v1 = spec_step(v);
        lemma_run_prefix(v1, (k - 1) as nat);
        if k > 1 {
            assert(!step_switches_direction(v1));
        }
    }
}

/// A move runs to completion: from a state with `n` steps to make, where
/// the target position `position + n` fits in an `i32`, `|n|` steps reach
/// that position and leave no steps, so that the next step reports that none
/// remain. Among them only the first may write the direction register, and
/// it does exactly when the current direction differs from the move's.
pub proof fn lemma_move_completes(v: Tmc2209View)
    requires
        i32::MIN <= v.position + v.steps_to_move <= i32::MAX,
    ensures
        ({
            let end = run_steps(v, abs(v.steps_to_move));
            &&& end.steps_to_move == 0
            &&& end.position == v.position + v.steps_to_move
            &&& v.steps_to_move != 0 ==> end.direction == direction_of(v.steps_to_move)
            &&& end.pins == v.pins
            &&& end.msres == v.msres
            &&& direction_writes(v, abs(v.steps_to_move)) == if step_switches_direction(v) {
                1nat
            } else {
                0nat
            }
        }),
{
    lemma_run_prefix(v, abs(v.steps_to_move));
}

} // verus!
