use doorlock::lock::{Lock, LockCommand, DEFAULT_STEPS};
use doorlock::motor::{Coils, Level, Motor};

fn released() -> Coils {
    Coils { ain1: Level::Low, ain2: Level::Low, bin1: Level::Low, bin2: Level::Low }
}

fn new_lock() -> Lock {
    Lock::new(Motor::new(Level::Low, Level::Low, Level::Low, Level::Low, Level::Low))
}

#[test]
fn new_lock_uses_default_steps() {
    let l = new_lock();
    assert_eq!(l.steps(), 2900);
    assert_eq!(DEFAULT_STEPS, 2900);
}

#[test]
fn lock_and_unlock_turn_opposite_ways() {
    let mut l = new_lock();
    assert_eq!(l.lock(), 2900);
    assert_eq!(l.motor().standby(), Level::Low);
    assert_eq!(l.motor().coils(), released());
    assert_eq!(l.unlock(), -2900);
    assert_eq!(l.motor().standby(), Level::Low);
}

#[test]
fn set_steps_reduces_modulo_bound() {
    let mut l = new_lock();
    l.set_steps(100);
    assert_eq!(l.steps(), 100);
    l.set_steps(32767);
    assert_eq!(l.steps(), 0);
    l.set_steps(65535);
    assert_eq!(l.steps(), 1);
    l.set_steps(32766);
    assert_eq!(l.steps(), 32766);
    assert_eq!(l.lock(), 32766);
    assert_eq!(l.unlock(), -32766);
}

#[test]
fn handle_dispatches_commands() {
    let mut l = new_lock();
    l.handle(LockCommand::SetSteps(500));
    assert_eq!(l.steps(), 500);
    l.handle(LockCommand::SetSpeed(1200));
    assert_eq!(l.motor().speed(), Some(1200));
    l.handle(LockCommand::Lock);
    assert_eq!(l.motor().standby(), Level::Low);
    l.handle(LockCommand::Unlock);
    assert_eq!(l.steps(), 500);
    assert_eq!(l.motor().speed(), Some(1200));
}
