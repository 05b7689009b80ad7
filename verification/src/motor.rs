//! Stepper motor of the lock firmware: speed levels, commands decoded from the
//! GATT control value, and the coil drive patterns of a full-step sequence.

use vstd::prelude::*;

verus! {

/// Speed level of the motor, `_1` being the slowest.
#[derive(PartialEq, Eq, Structural, Clone, Copy, Debug)]
pub enum Speed {
    _1,
    _2,
    _3,
    _4,
    _5,
    _6,
}

/// Magnitude of a signed control value.
pub open spec fn magnitude(value: i8) -> int {
    if value < 0 { -(value as int) } else { value as int }
}

/// The speed level that a control value selects: its magnitude in steps of 22.
pub open spec fn speed_of(value: i8) -> Speed {
    let m = magnitude(value);
    if m >= 110 {
        Speed::_6
    } else if m >= 88 {
        Speed::_5
    } else if m >= 66 {
        Speed::_4
    } else if m >= 44 {
        Speed::_3
    } else if m >= 22 {
        Speed::_2
    } else {
        Speed::_1
    }
}

/// Rank of a speed level, from 1 (slowest) to 6.
pub open spec fn rank(s: Speed) -> int {
    match s {
        Speed::_1 => 1,
        Speed::_2 => 2,
        Speed::_3 => 3,
        Speed::_4 => 4,
        Speed::_5 => 5,
        Speed::_6 => 6,
    }
}

/// PWM duty of a speed level: 2500 at the slowest, 500 less per level.
pub open spec fn duty_of(s: Speed) -> u16 {
    match s {
        Speed::_1 => 2500,
        Speed::_2 => 2000,
        Speed::_3 => 1500,
        Speed::_4 => 1000,
        Speed::_5 => 500,
        Speed::_6 => 0,
    }
}

impl Speed {
    /// Selects the speed level of a control value by its magnitude.
    pub fn new(value: i8) -> (s: Speed)
        ensures
            s == speed_of(value),
            rank(s) == (if magnitude(value) / 22 < 5 { magnitude(value) / 22 } else { 5 }) + 1,
    {
        let wide: i16 = value as i16;
        let value: i16 = if wide < 0 { -wide } else { wide };
        if value >= 110 {
            Speed::_6
        } else if value >= 88 {
            Speed::_5
        } else if value >= 66 {
            Speed::_4
        } else if value >= 44 {
            Speed::_3
        } else if value >= 22 {
            Speed::_2
        } else {
            Speed::_1
        }
    }

    /// The PWM duty that drives the motor at this speed.
    pub fn duty(&self) -> (d: u16)
        ensures
            d == duty_of(*self),
    {
        match self {
            Speed::_1 => 2500,
            Speed::_2 => 2000,
            Speed::_3 => 1500,
            Speed::_4 => 1000,
            Speed::_5 => 500,
            Speed::_6 => 0,
        }
    }
}

/// A motor command, as written to the motor control characteristic.
#[derive(PartialEq, Eq, Structural, Clone, Copy, Debug)]
pub enum MotorCommand {
    Forward(Speed),
    Stop,
    Reverse(Speed),
}

/// The command that a control value stands for: its sign gives the direction.
pub open spec fn command_of(value: i8) -> MotorCommand {
    if value == 0 {
        MotorCommand::Stop
    } else if value > 0 {
        MotorCommand::Forward(speed_of(value))
    } else {
        MotorCommand::Reverse(speed_of(value))
    }
}

impl MotorCommand {
    /// Decodes a control value: zero stops, a positive value drives forward and
    /// a negative one in reverse, at the speed that its magnitude selects.
    pub fn new(value: i8) -> (c: MotorCommand)
        ensures
            c == command_of(value),
    {
        if value == 0 {
            MotorCommand::Stop
        } else if value > 0 {
            MotorCommand::Forward(Speed::new(value))
        } else {
            MotorCommand::Reverse(Speed::new(value))
        }
    }
}

/// The speed level depends on the magnitude of the control value alone.
pub proof fn lemma_speed_ignores_sign(a: i8, b: i8)
    requires
        magnitude(a) == magnitude(b),
    ensures
        speed_of(a) == speed_of(b),
{
}

/// A larger control magnitude never selects a slower speed, and a faster speed
/// always drives with a smaller duty.
pub proof fn lemma_speed_monotonic(a: i8, b: i8)
    requires
        magnitude(a) <= magnitude(b),
    ensures
        rank(speed_of(a)) <= rank(speed_of(b)),
        rank(speed_of(a)) < rank(speed_of(b)) ==> duty_of(speed_of(b)) < duty_of(speed_of(a)),
        rank(speed_of(a)) == rank(speed_of(b)) ==> speed_of(a) == speed_of(b),
{
}

/// The level is fixed by the magnitude of the control value in bands of 22:
/// below 22 the slowest, then one level up per band, and from 110 on the
/// fastest.
pub proof fn lemma_speed_bands(v: i8)
    ensures
        rank(speed_of(v)) == (if magnitude(v) / 22 < 5 { magnitude(v) / 22 } else { 5 }) + 1,
        0 <= magnitude(v) < 22 ==> speed_of(v) == Speed::_1,
        22 <= magnitude(v) < 44 ==> speed_of(v) == Speed::_2,
        44 <= magnitude(v) < 66 ==> speed_of(v) == Speed::_3,
        66 <= magnitude(v) < 88 ==> speed_of(v) == Speed::_4,
        88 <= magnitude(v) < 110 ==> speed_of(v) == Speed::_5,
        110 <= magnitude(v) ==> speed_of(v) == Speed::_6,
{
}

/// The duty falls by 500 per level, from 2500 at the slowest to 0 at the
/// fastest.
pub proof fn lemma_duty_steps(s: Speed)
    ensures
        duty_of(s) == 2500 - 500 * (rank(s) - 1),
        s == Speed::_1 ==> duty_of(s) == 2500,
        s == Speed::_6 ==> duty_of(s) == 0,
{
}

/// Zero stops the motor, and the direction of a command follows the sign.
pub proof fn lemma_command_direction(value: i8)
    ensures
        command_of(value) is Stop <==> value == 0,
        command_of(value) is Forward <==> value > 0,
        command_of(value) is Reverse <==> value < 0,
{
}

/// Output level of a GPIO pin.
#[derive(PartialEq, Eq, Structural, Clone, Copy, Debug)]
pub enum Level {
    Low,
    High,
}

/// Levels of the four H-bridge inputs: `ain1`/`ain2` drive coil A,
/// `bin1`/`bin2` drive coil B.
#[derive(PartialEq, Eq, Structural, Clone, Copy, Debug)]
pub struct Coils {
    pub ain1: Level,
    pub ain2: Level,
    pub bin1: Level,
    pub bin2: Level,
}

/// A coil drive pattern with each of the given inputs high and the rest low.
pub open spec fn coils(ain1: bool, ain2: bool, bin1: bool, bin2: bool) -> Coils {
    Coils {
        ain1: if ain1 { Level::High } else { Level::Low },
        ain2: if ain2 { Level::High } else { Level::Low },
        bin1: if bin1 { Level::High } else { Level::Low },
        bin2: if bin2 { Level::High } else { Level::Low },
    }
}

/// The four phases of the full-step sequence that turns the motor forward.
pub open spec fn forward_phase(i: int) -> Coils {
    if i % 4 == 0 {
        coils(true, false, true, false)
    } else if i % 4 == 1 {
        coils(false, true, true, false)
    } else if i % 4 == 2 {
        coils(false, true, false, true)
    } else {
        coils(true, false, false, true)
    }
}

/// All four bridge inputs low: no coil is driven.
pub open spec fn released() -> Coils {
    coils(false, false, false, false)
}

/// Coil A is driven in exactly one direction.
pub open spec fn drives_a(c: Coils) -> bool {
    (c.ain1 == Level::High) != (c.ain2 == Level::High)
}

/// Coil B is driven in exactly one direction.
pub open spec fn drives_b(c: Coils) -> bool {
    (c.bin1 == Level::High) != (c.bin2 == Level::High)
}

/// Coil A is driven the other way round in `d` than in `c`.
pub open spec fn a_flipped(c: Coils, d: Coils) -> bool {
    c.ain1 != d.ain1 && c.ain2 != d.ain2
}

/// Coil B is driven the other way round in `d` than in `c`.
pub open spec fn b_flipped(c: Coils, d: Coils) -> bool {
    c.bin1 != d.bin1 && c.bin2 != d.bin2
}

/// The dual H-bridge that drives the stepper, with its standby input.
/// `position` counts the net steps taken, forward positive.
pub struct Motor {
    coils: Coils,
    standby: Level,
    speed: Option<u32>,
    position: Ghost<int>,
}

impl Motor {
    /// Current levels of the bridge inputs.
    pub closed spec fn coils_spec(&self) -> Coils {
        self.coils
    }

    /// Current level of the standby input (high: bridge powered).
    pub closed spec fn standby_spec(&self) -> Level {
        self.standby
    }

    /// Speed last set, if any.
    pub closed spec fn speed_spec(&self) -> Option<u32> {
        self.speed
    }

    /// Net steps taken since the motor was set up.
    pub closed spec fn position(&self) -> int {
        self.position@
    }

    /// The bridge is powered.
    pub open spec fn is_enabled(&self) -> bool {
        self.standby_spec() == Level::High
    }

    /// The bridge is unpowered and no coil is driven.
    pub open spec fn is_disabled(&self) -> bool {
        &&& self.standby_spec() == Level::Low
        &&& self.coils_spec() == released()
    }

    /// Current levels of the bridge inputs.
    pub fn coils(&self) -> (c: Coils)
        ensures
            c == self.coils_spec(),
    {
        self.coils
    }

    /// Current level of the standby input.
    pub fn standby(&self) -> (l: Level)
        ensures
            l == self.standby_spec(),
    {
        self.standby
    }

    /// Speed last set, if any.
    pub fn speed(&self) -> (s: Option<u32>)
        ensures
            s == self.speed_spec(),
    {
        self.speed
    }

    /// A motor whose pins start at the given levels, with no speed set.
    pub fn new(ain1: Level, ain2: Level, bin1: Level, bin2: Level, standby: Level) -> (m: Motor)
        ensures
            m.coils_spec() == (Coils { ain1, ain2, bin1, bin2 }),
            m.standby_spec() == standby,
            m.speed_spec() is None,
            m.position() == 0,
    {
        Motor { coils: Coils { ain1, ain2, bin1, bin2 }, standby, speed: None, position: Ghost(0) }
    }

    /// Releases both coils, then takes the bridge out of standby.
    pub fn enable(&mut self)
        ensures
            final(self).coils_spec() == released(),
            final(self).standby_spec() == Level::High,
            final(self).speed_spec() == old(self).speed_spec(),
            final(self).position() == old(self).position(),
        no_unwind
    {
        self.coils = Coils { ain1: Level::Low, ain2: Level::Low, bin1: Level::Low, bin2: Level::Low };
        self.standby = Level::High;
    }

    /// Puts the bridge into standby and releases both coils.
    pub fn disable(&mut self)
        ensures
            final(self).is_disabled(),
            final(self).speed_spec() == old(self).speed_spec(),
            final(self).position() == old(self).position(),
        no_unwind
    {
        self.standby = Level::Low;
        self.coils = Coils { ain1: Level::Low, ain2: Level::Low, bin1: Level::Low, bin2: Level::Low };
    }

    /// One full forward step: drives the four phases of the full-step sequence
    /// in order and returns them; the caller holds each for a millisecond.
    /// The coils stay at the last phase.
    pub fn forward(&mut self) -> (phases: Vec<Coils>)
        ensures
            phases@.len() == 4,
            forall|i: int| 0 <= i < 4 ==> #[trigger] phases@[i] == forward_phase(i),
            final(self).coils_spec() == forward_phase(3),
            final(self).standby_spec() == old(self).standby_spec(),
            final(self).speed_spec() == old(self).speed_spec(),
            final(self).position() == old(self).position(),
    {
        let mut phases: Vec<Coils> = Vec::new();
        self.coils = Coils { ain1: Level::High, ain2: Level::Low, bin1: Level::High, bin2: Level::Low };
        phases.push(self.coils);
        self.coils = Coils { ain1: Level::Low, ain2: Level::High, bin1: Level::High, bin2: Level::Low };
        phases.push(self.coils);
        self.coils = Coils { ain1: Level::Low, ain2: Level::High, bin1: Level::Low, bin2: Level::High };
        phases.push(self.coils);
        self.coils = Coils { ain1: Level::High, ain2: Level::Low, bin1: Level::Low, bin2: Level::High };
        phases.push(self.coils);
        phases
    }

    /// The duty that driving in reverse at `speed` asks for; the pins are left
    /// as they are.
    pub fn reverse(&mut self, speed: Speed) -> (duty: u16)
        ensures
            duty == duty_of(speed),
            final(self).coils_spec() == old(self).coils_spec(),
            final(self).standby_spec() == old(self).standby_spec(),
            final(self).speed_spec() == old(self).speed_spec(),
            final(self).position() == old(self).position(),
    {
        speed.duty()
    }

    /// Sets the speed at which later steps are taken.
    pub fn set_speed(&mut self, speed: u32)
        ensures
            final(self).speed_spec() == Some(speed),
            final(self).coils_spec() == old(self).coils_spec(),
            final(self).standby_spec() == old(self).standby_spec(),
            final(self).position() == old(self).position(),
        no_unwind
    {
        self.speed = Some(speed);
    }

    /// Turns the powered motor by `steps` steps, backwards when negative.
    pub fn step(&mut self, steps: i16)
        requires
            old(self).is_enabled(),
        ensures
            final(self).position() == old(self).position() + steps,
            final(self).coils_spec() == old(self).coils_spec(),
            final(self).standby_spec() == old(self).standby_spec(),
            final(self).speed_spec() == old(self).speed_spec(),
        no_unwind
    {
        self.position = Ghost(self.position@ + steps);
    }

    /// One cycle of the motor task: powers the bridge, runs 99 forward steps,
    /// and powers it down again. Returns the coil patterns in the order driven.
    pub fn run_cycle(&mut self) -> (phases: Vec<Coils>)
        ensures
            phases@.len() == 396,
            forall|i: int| 0 <= i < 396 ==> #[trigger] phases@[i] == forward_phase(i),
            final(self).is_disabled(),
            final(self).speed_spec() == old(self).speed_spec(),
            final(self).position() == old(self).position(),
    {
        self.enable();
        let mut phases: Vec<Coils> = Vec::new();
        let mut n: usize = 1;
        while n < 100
            invariant
                1 <= n <= 100,
                phases@.len() == 4 * (n - 1),
                forall|i: int| 0 <= i < phases@.len() ==> #[trigger] phases@[i] == forward_phase(i),
                self.speed_spec() == old(self).speed_spec(),
                self.position() == old(self).position(),
            decreases 100 - n,
        {
            let step = self.forward();
            let ghost before = phases@;
            let mut k: usize = 0;
            while k < 4
                invariant
                    0 <= k <= 4,
                    step@.len() == 4,
                    forall|i: int| 0 <= i < 4 ==> #[trigger] step@[i] == forward_phase(i),
                    before.len() == 4 * (n - 1),
                    phases@.len() == before.len() + k,
                    forall|i: int| 0 <= i < phases@.len() ==> #[trigger] phases@[i] == forward_phase(i),
                decreases 4 - k,
            {
                proof {
                    assert(forward_phase(before.len() + k) == forward_phase(k as int)) by {
                        assert((4 * (n - 1) + k) % 4 == k % 4) by (nonlinear_arith)
                            requires 0 <= k < 4, n >= 1;
                    }
                }
                phases.push(step[k]);
                k = k + 1;
            }
            n = n + 1;
        }
        self.disable();
        phases
    }
}

/// Each phase of the forward sequence drives both coils, and each phase
/// reverses exactly one coil with respect to the one before it, the first
/// phase following the last.
pub proof fn lemma_full_step_sequence(i: int)
    ensures
        drives_a(forward_phase(i)),
        drives_b(forward_phase(i)),
        a_flipped(forward_phase(i), forward_phase(i + 1)) != b_flipped(forward_phase(i), forward_phase(i + 1)),
        forward_phase(i + 4) == forward_phase(i),
{
    assert((i + 4) % 4 == i % 4);
    assert(i % 4 == 0 ==> (i + 1) % 4 == 1);
    assert(i % 4 == 1 ==> (i + 1) % 4 == 2);
    assert(i % 4 == 2 ==> (i + 1) % 4 == 3);
    assert(i % 4 == 3 ==> (i + 1) % 4 == 0);
}

} // verus!
