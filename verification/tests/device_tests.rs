use doorlock::device::{
    connect_action, find_char, lock_state, ConnectAction, GattService, LockDevice, LOCK_CHAR_UUID, LOCK_SERVICE_UUID, SPEED_CHAR_UUID,
    STEP_CHAR_UUID,
};

fn device() -> LockDevice {
    LockDevice::new([0xAA, 0xBB, 0xCC, 0xDD, 0xEE, 0xFF])
}

#[test]
fn uuids() {
    assert_eq!(LOCK_SERVICE_UUID, 0x00002000_b0cd_11ec_871f_d45ddf138840);
    assert_eq!(LOCK_CHAR_UUID, 0x00002001_b0cd_11ec_871f_d45ddf138840);
    assert_eq!(SPEED_CHAR_UUID, 0x00002002_b0cd_11ec_871f_d45ddf138840);
    assert_eq!(STEP_CHAR_UUID, 0x00002003_b0cd_11ec_871f_d45ddf138840);
}

#[test]
fn lock_and_unlock_writes() {
    let w = device().lock();
    assert_eq!((w.service, w.characteristic, w.value), (LOCK_SERVICE_UUID, LOCK_CHAR_UUID, vec![1]));
    let w = device().unlock();
    assert_eq!((w.service, w.characteristic, w.value), (LOCK_SERVICE_UUID, LOCK_CHAR_UUID, vec![0]));
}

#[test]
fn speed_and_step_are_little_endian() {
    let w = device().set_speed(0x1234_5678);
    assert_eq!(w.characteristic, SPEED_CHAR_UUID);
    assert_eq!(w.value, 0x1234_5678u32.to_le_bytes().to_vec());
    let w = device().set_step(2900);
    assert_eq!(w.characteristic, STEP_CHAR_UUID);
    assert_eq!(w.value, vec![0x54, 0x0B]);
    assert_eq!(device().set_speed(u32::MAX).value, vec![0xFF; 4]);
}

#[test]
fn address_match() {
    let d = device();
    assert!(d.is_lock(&[0xAA, 0xBB, 0xCC, 0xDD, 0xEE, 0xFF]));
    assert!(!d.is_lock(&[0xAA, 0xBB, 0xCC, 0xDD, 0xEE, 0xFE]));
    assert_eq!(d.address(), [0xAA, 0xBB, 0xCC, 0xDD, 0xEE, 0xFF]);
}

#[test]
fn finds_first_matching_characteristic() {
    let services = vec![
        GattService { uuid: 1, characteristics: vec![LOCK_CHAR_UUID] },
        GattService { uuid: LOCK_SERVICE_UUID, characteristics: vec![SPEED_CHAR_UUID] },
        GattService { uuid: LOCK_SERVICE_UUID, characteristics: vec![STEP_CHAR_UUID, LOCK_CHAR_UUID, LOCK_CHAR_UUID] },
    ];
    assert_eq!(find_char(&services, LOCK_SERVICE_UUID, LOCK_CHAR_UUID), Some((2, 1)));
    assert_eq!(find_char(&services, LOCK_SERVICE_UUID, SPEED_CHAR_UUID), Some((1, 0)));
    assert_eq!(find_char(&services, 1, LOCK_CHAR_UUID), Some((0, 0)));
    assert_eq!(find_char(&services, 2, LOCK_CHAR_UUID), None);
    assert_eq!(find_char(&services, LOCK_SERVICE_UUID, 99), None);
    assert_eq!(find_char(&vec![], LOCK_SERVICE_UUID, LOCK_CHAR_UUID), None);
}

#[test]
fn connection_actions() {
    assert_eq!(connect_action(Some(true)), ConnectAction::Adopt);
    assert_eq!(connect_action(Some(false)), ConnectAction::ConnectAndDiscover);
    assert_eq!(connect_action(None), ConnectAction::Skip);
}

#[test]
fn lock_state_reads_back_writes() {
    assert_eq!(lock_state(&device().lock().value), Some(true));
    assert_eq!(lock_state(&device().unlock().value), Some(false));
    assert_eq!(lock_state(&[2]), None);
    assert_eq!(lock_state(&[]), None);
    assert_eq!(lock_state(&[1, 0]), None);
}
