use doorlock::motor::{Coils, Level, Motor, MotorCommand, Speed};

fn phase(ain1: Level, ain2: Level, bin1: Level, bin2: Level) -> Coils {
    Coils { ain1, ain2, bin1, bin2 }
}

#[test]
fn speed_levels_follow_magnitude() {
    assert_eq!(Speed::new(0), Speed::_1);
    assert_eq!(Speed::new(21), Speed::_1);
    assert_eq!(Speed::new(22), Speed::_2);
    assert_eq!(Speed::new(43), Speed::_2);
    assert_eq!(Speed::new(44), Speed::_3);
    assert_eq!(Speed::new(66), Speed::_4);
    assert_eq!(Speed::new(88), Speed::_5);
    assert_eq!(Speed::new(109), Speed::_5);
    assert_eq!(Speed::new(110), Speed::_6);
    assert_eq!(Speed::new(127), Speed::_6);
}

#[test]
fn speed_ignores_sign() {
    assert_eq!(Speed::new(-22), Speed::_2);
    assert_eq!(Speed::new(-66), Speed::new(66));
    assert_eq!(Speed::new(-128), Speed::_6);
    assert_eq!(Speed::new(-1), Speed::_1);
}

#[test]
fn duty_per_speed() {
    assert_eq!(Speed::_1.duty(), 2500);
    assert_eq!(Speed::_2.duty(), 2000);
    assert_eq!(Speed::_3.duty(), 1500);
    assert_eq!(Speed::_4.duty(), 1000);
    assert_eq!(Speed::_5.duty(), 500);
    assert_eq!(Speed::_6.duty(), 0);
}

#[test]
fn command_from_control_value() {
    assert_eq!(MotorCommand::new(0), MotorCommand::Stop);
    assert_eq!(MotorCommand::new(50), MotorCommand::Forward(Speed::_3));
    assert_eq!(MotorCommand::new(-100), MotorCommand::Reverse(Speed::_5));
    assert_eq!(MotorCommand::new(i8::MIN), MotorCommand::Reverse(Speed::_6));
    assert_eq!(MotorCommand::new(1), MotorCommand::Forward(Speed::_1));
}

#[test]
fn enable_and_disable() {
    let mut m = Motor::new(Level::High, Level::High, Level::Low, Level::High, Level::Low);
    assert_eq!(m.coils(), phase(Level::High, Level::High, Level::Low, Level::High));
    assert_eq!(m.speed(), None);
    m.enable();
    assert_eq!(m.standby(), Level::High);
    assert_eq!(m.coils(), phase(Level::Low, Level::Low, Level::Low, Level::Low));
    m.disable();
    assert_eq!(m.standby(), Level::Low);
    assert_eq!(m.coils(), phase(Level::Low, Level::Low, Level::Low, Level::Low));
}

#[test]
fn forward_full_step_sequence() {
    let mut m = Motor::new(Level::Low, Level::Low, Level::Low, Level::Low, Level::Low);
    m.enable();
    let phases = m.forward();
    assert_eq!(
        phases,
        vec![
            phase(Level::High, Level::Low, Level::High, Level::Low),
            phase(Level::Low, Level::High, Level::High, Level::Low),
            phase(Level::Low, Level::High, Level::Low, Level::High),
            phase(Level::High, Level::Low, Level::Low, Level::High),
        ]
    );
    assert_eq!(m.coils(), phase(Level::High, Level::Low, Level::Low, Level::High));
    assert_eq!(m.standby(), Level::High);
}

#[test]
fn full_step_changes_one_coil_at_a_time() {
    let mut m = Motor::new(Level::Low, Level::Low, Level::Low, Level::Low, Level::Low);
    let phases = m.forward();
    for i in 0..4 {
        let c = phases[i];
        let d = phases[(i + 1) % 4];
        assert!((c.ain1 == Level::High) != (c.ain2 == Level::High));
        assert!((c.bin1 == Level::High) != (c.bin2 == Level::High));
        let a_flip = c.ain1 != d.ain1 && c.ain2 != d.ain2;
        let b_flip = c.bin1 != d.bin1 && c.bin2 != d.bin2;
        assert!(a_flip != b_flip);
    }
}

#[test]
fn reverse_reports_duty_and_keeps_pins() {
    let mut m = Motor::new(Level::Low, Level::Low, Level::Low, Level::Low, Level::Low);
    m.enable();
    assert_eq!(m.reverse(Speed::_4), 1000);
    assert_eq!(m.standby(), Level::High);
    assert_eq!(m.coils(), phase(Level::Low, Level::Low, Level::Low, Level::Low));
}

#[test]
fn motor_task_cycle() {
    let mut m = Motor::new(Level::Low, Level::Low, Level::Low, Level::Low, Level::Low);
    m.set_speed(7);
    let phases = m.run_cycle();
    assert_eq!(phases.len(), 396);
    assert_eq!(phases[0], phase(Level::High, Level::Low, Level::High, Level::Low));
    assert_eq!(phases[5], phase(Level::Low, Level::High, Level::High, Level::Low));
    assert_eq!(phases[395], phase(Level::High, Level::Low, Level::Low, Level::High));
    assert_eq!(m.standby(), Level::Low);
    assert_eq!(m.coils(), phase(Level::Low, Level::Low, Level::Low, Level::Low));
    assert_eq!(m.speed(), Some(7));
}
