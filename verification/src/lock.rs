//! The lock mechanism: a stepper that turns a set number of steps one way to
//! lock and the same number back to unlock, driven by commands from a channel.

use vstd::prelude::*;
use crate::motor::Motor;

verus! {

/// Steps the lock turns unless told otherwise.
pub const DEFAULT_STEPS: u16 = 2900;

/// Step counts are kept below this bound, so that they fit an `i16` either way.
pub const STEP_BOUND: u16 = 32767;

/// A command for the lock task.
#[derive(PartialEq, Eq, Structural, Clone, Copy, Debug)]
pub enum LockCommand {
    Lock,
    Unlock,
    SetSpeed(u32),
    SetSteps(u16),
}

/// The lock: its motor and the number of steps between locked and unlocked.
pub struct Lock {
    motor: Motor,
    steps: u16,
}

impl Lock {
    #[verifier::type_invariant]
    spec fn wf(self) -> bool {
        self.steps < STEP_BOUND
    }

    /// The motor that turns the bolt.
    pub closed spec fn motor_spec(&self) -> Motor {
        self.motor
    }

    /// Steps turned per lock or unlock.
    pub closed spec fn steps_spec(&self) -> u16 {
        self.steps
    }

    /// Steps turned per lock or unlock.
    pub fn steps(&self) -> (s: u16)
        ensures
            s == self.steps_spec(),
            s < STEP_BOUND,
    {
        proof { use_type_invariant(self); }
        self.steps
    }

    /// The motor that turns the bolt.
    pub fn motor(&self) -> (m: &Motor)
        ensures
            *m == self.motor_spec(),
    {
        &self.motor
    }

    /// A lock on `motor` that turns the default number of steps.
    pub fn new(motor: Motor) -> (l: Lock)
        ensures
            l.motor_spec() == motor,
            l.steps_spec() == DEFAULT_STEPS,
    {
        Lock { motor, steps: DEFAULT_STEPS }
    }

    /// Powers the motor, turns it forward by the step count, and powers it
    /// down. Returns the signed step count handed to the motor.
    pub fn lock(&mut self) -> (moved: i16)
        ensures
            moved == old(self).steps_spec(),
            final(self).steps_spec() == old(self).steps_spec(),
            final(self).motor_spec().position() == old(self).motor_spec().position() + old(self).steps_spec(),
            final(self).motor_spec().is_disabled(),
            final(self).motor_spec().speed_spec() == old(self).motor_spec().speed_spec(),
        no_unwind
    {
        proof { use_type_invariant(&*self); }
        let moved: i16 = self.steps as i16;
        self.motor.enable();
        self.motor.step(moved);
        self.motor.disable();
        moved
    }

    /// Powers the motor, turns it back by the step count, and powers it down.
    /// Returns the signed step count handed to the motor.
    pub fn unlock(&mut self) -> (moved: i16)
        ensures
            moved == -(old(self).steps_spec() as int),
            final(self).steps_spec() == old(self).steps_spec(),
            final(self).motor_spec().position() == old(self).motor_spec().position() - old(self).steps_spec(),
            final(self).motor_spec().is_disabled(),
            final(self).motor_spec().speed_spec() == old(self).motor_spec().speed_spec(),
        no_unwind
    {
        proof { use_type_invariant(&*self); }
        let moved: i16 = self.steps as i16 * -1;
        self.motor.enable();
        self.motor.step(moved);
        self.motor.disable();
        moved
    }

    /// Sets the step count, reduced modulo the bound so that it stays within it.
    pub fn set_steps(&mut self, steps: u16)
        ensures
            final(self).steps_spec() == steps % STEP_BOUND,
            final(self).motor_spec() == old(self).motor_spec(),
    {
        self.steps = steps % STEP_BOUND;
    }

    /// Sets the speed of the motor.
    pub fn set_speed(&mut self, speed: u32)
        ensures
            final(self).steps_spec() == old(self).steps_spec(),
            final(self).motor_spec().speed_spec() == Some(speed),
            final(self).motor_spec().coils_spec() == old(self).motor_spec().coils_spec(),
            final(self).motor_spec().standby_spec() == old(self).motor_spec().standby_spec(),
            final(self).motor_spec().position() == old(self).motor_spec().position(),
        no_unwind
    {
        proof { use_type_invariant(&*self); }
        self.motor.set_speed(speed);
    }
}

/// What handling a command does to a lock: the steps it keeps, the speed and
/// position of its motor, and whether the motor was powered down.
pub open spec fn handled(l: Lock, c: LockCommand, after: Lock) -> bool {
    match c {
        LockCommand::Lock => {
            &&& after.steps_spec() == l.steps_spec()
            &&& after.motor_spec().position() == l.motor_spec().position() + l.steps_spec()
            &&& after.motor_spec().is_disabled()
            &&& after.motor_spec().speed_spec() == l.motor_spec().speed_spec()
        },
        LockCommand::Unlock => {
            &&& after.steps_spec() == l.steps_spec()
            &&& after.motor_spec().position() == l.motor_spec().position() - l.steps_spec()
            &&& after.motor_spec().is_disabled()
            &&& after.motor_spec().speed_spec() == l.motor_spec().speed_spec()
        },
        LockCommand::SetSpeed(speed) => {
            &&& after.steps_spec() == l.steps_spec()
            &&& after.motor_spec().speed_spec() == Some(speed)
            &&& after.motor_spec().coils_spec() == l.motor_spec().coils_spec()
            &&& after.motor_spec().standby_spec() == l.motor_spec().standby_spec()
            &&& after.motor_spec().position() == l.motor_spec().position()
        },
        LockCommand::SetSteps(steps) => {
            &&& after.steps_spec() == steps % STEP_BOUND
            &&& after.motor_spec() == l.motor_spec()
        },
    }
}

impl Lock {
    /// Carries out one command received by the lock task.
    pub fn handle(&mut self, command: LockCommand)
        ensures
            handled(*old(self), command, *final(self)),
            command matches LockCommand::SetSpeed(speed) ==> final(self).motor_spec().speed_spec() == Some(speed),
            command matches LockCommand::SetSteps(steps) ==> final(self).steps_spec() == steps % 32767,
            command is Lock ==> final(self).motor_spec().position() == old(self).motor_spec().position() + old(self).steps_spec(),
            command is Unlock ==> final(self).motor_spec().position() == old(self).motor_spec().position() - old(self).steps_spec(),
            command is Lock || command is Unlock ==> final(self).steps_spec() == old(self).steps_spec(),
            !(command is SetSpeed) ==> final(self).motor_spec().speed_spec() == old(self).motor_spec().speed_spec(),
    {
        match command {
            LockCommand::Lock => {
                self.lock();
            },
            LockCommand::Unlock => {
                self.unlock();
            },
            LockCommand::SetSpeed(speed) => {
                self.set_speed(speed);
            },
            LockCommand::SetSteps(steps) => {
                self.set_steps(steps);
            },
        }
    }
}

/// Each command does what it names, for every argument: setting the speed
/// hands the motor exactly that speed, setting the steps keeps them modulo
/// 32767, locking turns forward by the step count and unlocking back by it,
/// and only a speed command changes the speed.
pub proof fn lemma_commands_do_what_they_say(l0: Lock, c: LockCommand, l1: Lock)
    requires
        handled(l0, c, l1),
    ensures
        c matches LockCommand::SetSpeed(speed) ==> l1.motor_spec().speed_spec() == Some(speed),
        c matches LockCommand::SetSteps(steps) ==> l1.steps_spec() == steps % 32767,
        c is Lock ==> l1.motor_spec().position() == l0.motor_spec().position() + l0.steps_spec(),
        c is Unlock ==> l1.motor_spec().position() == l0.motor_spec().position() - l0.steps_spec(),
        !(c is SetSpeed) ==> l1.motor_spec().speed_spec() == l0.motor_spec().speed_spec(),
{
}

/// Unlocking undoes locking: with the step count unchanged in between, the
/// motor comes back to where it started, keeps its speed, and is left powered
/// down; the same holds the other way round.
pub proof fn lemma_unlock_undoes_lock(l0: Lock, l1: Lock, l2: Lock)
    ensures
        handled(l0, LockCommand::Lock, l1) && handled(l1, LockCommand::Unlock, l2) ==> {
            &&& l2.motor_spec().position() == l0.motor_spec().position()
            &&& l2.steps_spec() == l0.steps_spec()
            &&& l2.motor_spec().speed_spec() == l0.motor_spec().speed_spec()
            &&& l2.motor_spec().is_disabled()
        },
        handled(l0, LockCommand::Unlock, l1) && handled(l1, LockCommand::Lock, l2) ==> {
            &&& l2.motor_spec().position() == l0.motor_spec().position()
            &&& l2.steps_spec() == l0.steps_spec()
            &&& l2.motor_spec().speed_spec() == l0.motor_spec().speed_spec()
            &&& l2.motor_spec().is_disabled()
        },
{
}

/// Setting the step count never takes it out of the range that `lock` and
/// `unlock` can turn, and a count already in range is kept as given.
pub proof fn lemma_set_steps_in_range(l0: Lock, steps: u16, l1: Lock)
    requires
        handled(l0, LockCommand::SetSteps(steps), l1),
    ensures
        l1.steps_spec() < STEP_BOUND,
        steps < STEP_BOUND ==> l1.steps_spec() == steps,
{
}

} // verus!
