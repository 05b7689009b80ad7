//! The gateway's view of the lock over Bluetooth: which GATT characteristic
//! each operation writes and with what bytes, how a characteristic is found
//! among the services the lock offers, and how a connection is taken up.
//! UUIDs are held as their 128-bit values.

use vstd::prelude::*;

verus! {

/// The lock service.
pub const LOCK_SERVICE_UUID: u128 = 0x00002000b0cd11ec871fd45ddf138840;

/// The characteristic that locks (1) or unlocks (0).
pub const LOCK_CHAR_UUID: u128 = 0x00002001b0cd11ec871fd45ddf138840;

/// The characteristic that sets the motor speed.
pub const SPEED_CHAR_UUID: u128 = 0x00002002b0cd11ec871fd45ddf138840;

/// The characteristic that sets the number of steps.
pub const STEP_CHAR_UUID: u128 = 0x00002003b0cd11ec871fd45ddf138840;

/// A write of `value` to `characteristic` of `service`, with response.
pub struct CharWrite {
    pub service: u128,
    pub characteristic: u128,
    pub value: Vec<u8>,
}

/// The value of bytes read little-endian.
pub open spec fn le_value(bytes: Seq<u8>) -> int
    decreases bytes.len(),
{
    if bytes.len() == 0 {
        0
    } else {
        bytes[0] + 256 * le_value(bytes.drop_first())
    }
}

/// The four bytes of `v`, least significant first.
pub fn le_bytes_u32(v: u32) -> (b: Vec<u8>)
    ensures
        b@.len() == 4,
        le_value(b@) == v,
{
    let b0: u8 = (v % 256) as u8;
    let v1: u32 = v / 256;
    let b1: u8 = (v1 % 256) as u8;
    let v2: u32 = v1 / 256;
    let b2: u8 = (v2 % 256) as u8;
    let b3: u8 = (v2 / 256) as u8;
    let mut b: Vec<u8> = Vec::new();
    b.push(b0);
    b.push(b1);
    b.push(b2);
    b.push(b3);
    proof {
        let s3 = seq![b3];
        let s2 = seq![b2, b3];
        let s1 = seq![b1, b2, b3];
        assert(b@ =~= seq![b0, b1, b2, b3]);
        assert(b@.drop_first() =~= s1);
        assert(s1.drop_first() =~= s2);
        assert(s2.drop_first() =~= s3);
        assert(s3.drop_first() =~= Seq::<u8>::empty());
        assert(le_value(Seq::<u8>::empty()) == 0);
        assert(le_value(s3) == b3);
        assert(le_value(s2) == b2 + 256 * b3);
        assert(le_value(s1) == b1 + 256 * (b2 + 256 * b3));
    }
    b
}

/// The two bytes of `v`, least significant first.
pub fn le_bytes_u16(v: u16) -> (b: Vec<u8>)
    ensures
        b@.len() == 2,
        le_value(b@) == v,
{
    let b0: u8 = (v % 256) as u8;
    let b1: u8 = (v / 256) as u8;
    let mut b: Vec<u8> = Vec::new();
    b.push(b0);
    b.push(b1);
    proof {
        let s1 = seq![b1];
        assert(b@ =~= seq![b0, b1]);
        assert(b@.drop_first() =~= s1);
        assert(s1.drop_first() =~= Seq::<u8>::empty());
        assert(le_value(Seq::<u8>::empty()) == 0);
        assert(le_value(s1) == b1);
    }
    b
}

/// The value written to the lock characteristic to lock (1) or unlock (0).
pub open spec fn lock_value(locked: bool) -> Seq<u8> {
    if locked { seq![1u8] } else { seq![0u8] }
}

/// The lock, known by its Bluetooth device address.
pub struct LockDevice {
    address: [u8; 6],
}

/// How to take up a peripheral with the lock's address, after it was
/// disconnected for a fresh start and asked whether it is connected.
#[derive(PartialEq, Eq, Structural, Clone, Copy, Debug)]
pub enum ConnectAction {
    /// Connected already: use it as it is.
    Adopt,
    /// Not connected: connect until that succeeds, discover its services, use it.
    ConnectAndDiscover,
    /// The check failed: go on with the next peripheral.
    Skip,
}

impl LockDevice {
    /// The address of the lock.
    pub closed spec fn address_spec(&self) -> Seq<u8> {
        self.address@
    }

    /// The address of the lock.
    pub fn address(&self) -> (a: [u8; 6])
        ensures
            a@ == self.address_spec(),
    {
        self.address
    }

    /// The lock at `address`.
    pub fn new(address: [u8; 6]) -> (d: LockDevice)
        ensures
            d.address_spec() == address@,
    {
        LockDevice { address }
    }

    /// Whether a peripheral with `address` is this lock.
    pub fn is_lock(&self, address: &[u8; 6]) -> (r: bool)
        ensures
            r == (address@ == self.address_spec()),
    {
        let mut i: usize = 0;
        while i < 6
            invariant
                0 <= i <= 6,
                self.address@.len() == 6,
                address@.len() == 6,
                forall|j: int| 0 <= j < i ==> self.address@[j] == address@[j],
            decreases 6 - i,
        {
            if self.address[i] != address[i] {
                return false;
            }
            i = i + 1;
        }
        proof {
            assert(address@ =~= self.address@);
        }
        true
    }

    /// Locks: writes 1 to the lock characteristic.
    pub fn lock(&self) -> (w: CharWrite)
        ensures
            w.service == LOCK_SERVICE_UUID,
            w.characteristic == LOCK_CHAR_UUID,
            w.value@ == lock_value(true),
    {
        let mut value: Vec<u8> = Vec::new();
        value.push(1);
        assert(value@ =~= seq![1u8]);
        CharWrite { service: LOCK_SERVICE_UUID, characteristic: LOCK_CHAR_UUID, value }
    }

    /// Unlocks: writes 0 to the lock characteristic.
    pub fn unlock(&self) -> (w: CharWrite)
        ensures
            w.service == LOCK_SERVICE_UUID,
            w.characteristic == LOCK_CHAR_UUID,
            w.value@ == lock_value(false),
    {
        let mut value: Vec<u8> = Vec::new();
        value.push(0);
        assert(value@ =~= seq![0u8]);
        CharWrite { service: LOCK_SERVICE_UUID, characteristic: LOCK_CHAR_UUID, value }
    }

    /// Sets the motor speed: writes it little-endian to the speed characteristic.
    pub fn set_speed(&self, speed: u32) -> (w: CharWrite)
        ensures
            w.service == LOCK_SERVICE_UUID,
            w.characteristic == SPEED_CHAR_UUID,
            w.value@.len() == 4,
            le_value(w.value@) == speed,
    {
        CharWrite { service: LOCK_SERVICE_UUID, characteristic: SPEED_CHAR_UUID, value: le_bytes_u32(speed) }
    }

    /// Sets the step count: writes it little-endian to the step characteristic.
    pub fn set_step(&self, step: u16) -> (w: CharWrite)
        ensures
            w.service == LOCK_SERVICE_UUID,
            w.characteristic == STEP_CHAR_UUID,
            w.value@.len() == 2,
            le_value(w.value@) == step,
    {
        CharWrite { service: LOCK_SERVICE_UUID, characteristic: STEP_CHAR_UUID, value: le_bytes_u16(step) }
    }
}

/// The lock state that a value of the lock characteristic stands for: 1 is
/// locked, 0 unlocked, anything else no state.
pub open spec fn state_of(value: Seq<u8>) -> Option<bool> {
    if value == seq![1u8] {
        Some(true)
    } else if value == seq![0u8] {
        Some(false)
    } else {
        None
    }
}

/// Reads the lock state from a value of the lock characteristic.
pub fn lock_state(value: &[u8]) -> (r: Option<bool>)
    ensures
        r == state_of(value@),
{
    if value.len() == 1 && value[0] == 1 {
        assert(value@ =~= seq![1u8]);
        Some(true)
    } else if value.len() == 1 && value[0] == 0 {
        assert(value@ =~= seq![0u8]);
        Some(false)
    } else {
        None
    }
}

/// Reading the lock characteristic gives back the state that locking or
/// unlocking wrote to it.
pub proof fn lemma_state_reads_back(locked: bool)
    ensures
        state_of(lock_value(locked)) == Some(locked),
{
    if !locked {
        assert(seq![0u8][0] != seq![1u8][0]);
    }
}

/// How a peripheral is taken up, given whether it reported being connected
/// (`None`: asking failed).
pub fn connect_action(connected: Option<bool>) -> (a: ConnectAction)
    ensures
        a == (match connected {
            Some(true) => ConnectAction::Adopt,
            Some(false) => ConnectAction::ConnectAndDiscover,
            None => ConnectAction::Skip,
        }),
{
    match connected {
        Some(true) => ConnectAction::Adopt,
        Some(false) => ConnectAction::ConnectAndDiscover,
        None => ConnectAction::Skip,
    }
}

/// A GATT service of the peripheral: its UUID and those of its characteristics.
pub struct GattService {
    pub uuid: u128,
    pub characteristics: Vec<u128>,
}

/// Service `i` is `service` and holds `characteristic` at `j`.
pub open spec fn found_at(services: Seq<GattService>, service: u128, characteristic: u128, i: int, j: int) -> bool {
    &&& 0 <= i < services.len()
    &&& services[i].uuid == service
    &&& 0 <= j < services[i].characteristics@.len()
    &&& services[i].characteristics@[j] == characteristic
}

/// Some service with UUID `service` holds `characteristic`, among the first `n`.
pub open spec fn found_before(services: Seq<GattService>, service: u128, characteristic: u128, n: int) -> bool {
    exists|i: int, j: int| i < n && #[trigger] found_at(services, service, characteristic, i, j)
}

/// Finds `characteristic` in a service with UUID `service`: the first match,
/// services in order and characteristics in order within each; `None` if no
/// such service holds it.
pub fn find_char(services: &Vec<GattService>, service: u128, characteristic: u128) -> (r: Option<(usize, usize)>)
    ensures
        r is None <==> !found_before(services@, service, characteristic, services@.len() as int),
        r matches Some((i, j)) ==> {
            &&& found_at(services@, service, characteristic, i as int, j as int)
            &&& !found_before(services@, service, characteristic, i as int)
            &&& forall|k: int| 0 <= k < j ==> services@[i as int].characteristics@[k] != characteristic
        },
{
    let mut i: usize = 0;
    while i < services.len()
        invariant
            0 <= i <= services@.len(),
            !found_before(services@, service, characteristic, i as int),
        decreases services@.len() - i,
    {
        if services[i].uuid == service {
            let chars = &services[i].characteristics;
            let mut j: usize = 0;
            while j < chars.len()
                invariant
                    0 <= i < services@.len(),
                    !found_before(services@, service, characteristic, i as int),
                    0 <= j <= chars@.len(),
                    chars@ == services@[i as int].characteristics@,
                    services@[i as int].uuid == service,
                    forall|k: int| 0 <= k < j ==> chars@[k] != characteristic,
                decreases chars@.len() - j,
            {
                if chars[j] == characteristic {
                    proof {
                        assert(found_at(services@, service, characteristic, i as int, j as int));
                    }
                    return Some((i, j));
                }
                j = j + 1;
            }
        }
        proof {
            assert forall|a: int, b: int| a < i + 1 && #[trigger] found_at(services@, service, characteristic, a, b)
                implies false by {
                if a < i {
                    assert(found_before(services@, service, characteristic, i as int));
                }
            }
        }
        i = i + 1;
    }
    None
}

} // verus!
