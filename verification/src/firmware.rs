//! Byte-level pieces of the firmware: the Bluetooth advertisement it sends,
//! and the interrupt number that the bootloader's fault handler reports.

use vstd::prelude::*;
use vstd::string::*;

verus! {

/// Capacity of a legacy advertising payload.
pub const ADV_CAPACITY: usize = 31;

/// The advertising flags "LE only, general discoverable mode" of the softdevice.
pub const ADV_FLAGS_LE_ONLY_GENERAL_DISC: u8 = 0x06;

#[verifier::external_type_specification]
#[verifier::external_body]
#[verifier::reject_recursive_types(T)]
pub struct ExHeaplessVec<T, const N: usize>(heapless::Vec<T, N>);

/// The bytes held by a fixed-capacity advertising buffer.
pub uninterp spec fn adv_contents(buffer: heapless::Vec<u8, 31>) -> Seq<u8>;

/// `heapless::Vec::new`: an empty buffer.
#[verifier::external_body]
fn adv_buffer_new() -> (buffer: heapless::Vec<u8, 31>)
    ensures
        adv_contents(buffer) == Seq::<u8>::empty(),
{
    heapless::Vec::new()
}

/// `heapless::Vec::extend_from_slice`: appends `bytes` when they fit the
/// capacity of 31 and returns `Ok`; otherwise leaves the buffer as it was and
/// returns `Err`.
#[verifier::external_body]
fn adv_buffer_extend(buffer: &mut heapless::Vec<u8, 31>, bytes: &[u8]) -> (r: Result<(), ()>)
    ensures
        adv_contents(*old(buffer)).len() + bytes@.len() <= 31 ==> {
            &&& r is Ok
            &&& adv_contents(*final(buffer)) == adv_contents(*old(buffer)) + bytes@
        },
        adv_contents(*old(buffer)).len() + bytes@.len() > 31 ==> {
            &&& r is Err
            &&& adv_contents(*final(buffer)) == adv_contents(*old(buffer))
        },
{
    buffer.extend_from_slice(bytes)
}

/// `heapless::Vec::as_slice`: the bytes held.
#[verifier::external_body]
fn adv_buffer_bytes(buffer: &heapless::Vec<u8, 31>) -> (bytes: &[u8])
    ensures
        bytes@ == adv_contents(*buffer),
{
    buffer.as_slice()
}

/// The advertising payload for a device called `name`: the flags field, the
/// 16-bit service list (0x6100), and the complete local name.
pub open spec fn advertisement(name: Seq<u8>) -> Seq<u8> {
    seq![0x02u8, 0x01u8, ADV_FLAGS_LE_ONLY_GENERAL_DISC, 0x03u8, 0x03u8, 0x00u8, 0x61u8, (1 + name.len()) as u8, 0x09u8]
        + name
}

/// The payload is the fixed nine-byte header, whose length byte counts the
/// name and its type byte, followed by the name's bytes exactly as given.
pub proof fn lemma_advertisement_layout(name: Seq<u8>)
    ensures
        advertisement(name).len() == 9 + name.len(),
        advertisement(name).subrange(0, 9) == seq![0x02u8, 0x01u8, 0x06u8, 0x03u8, 0x03u8, 0x00u8, 0x61u8, (1 + name.len()) as u8, 0x09u8],
        advertisement(name).subrange(9, 9 + name.len() as int) == name,
{
    assert(advertisement(name).subrange(0, 9) =~= seq![0x02u8, 0x01u8, 0x06u8, 0x03u8, 0x03u8, 0x00u8, 0x61u8, (1 + name.len()) as u8, 0x09u8]);
    assert(advertisement(name).subrange(9, 9 + name.len() as int) =~= name);
}

/// Builds the advertising payload for `name` in a buffer of 31 bytes.
/// The name must leave room for the 9 header bytes.
pub fn advertisement_data(name: &str) -> (data: Vec<u8>)
    requires
        name.spec_bytes().len() + 9 <= ADV_CAPACITY,
    ensures
        data@ == advertisement(name.spec_bytes()),
        data@.len() <= ADV_CAPACITY,
        data@.len() == 9 + name.spec_bytes().len(),
        data@.subrange(0, 9) == seq![0x02u8, 0x01u8, 0x06u8, 0x03u8, 0x03u8, 0x00u8, 0x61u8, (1 + name.spec_bytes().len()) as u8, 0x09u8],
        data@.subrange(9, data@.len() as int) == name.spec_bytes(),
{
    let bytes: &[u8] = name.as_bytes();
    let name_len: u8 = bytes.len() as u8;
    let mut buffer = adv_buffer_new();
    let header: [u8; 9] = [0x02, 0x01, ADV_FLAGS_LE_ONLY_GENERAL_DISC, 0x03, 0x03, 0x00, 0x61, 1 + name_len, 0x09];
    let r1 = adv_buffer_extend(&mut buffer, &header);
    let r2 = adv_buffer_extend(&mut buffer, bytes);
    let held: &[u8] = adv_buffer_bytes(&buffer);
    let mut data: Vec<u8> = Vec::new();
    let mut i: usize = 0;
    while i < held.len()
        invariant
            0 <= i <= held@.len(),
            data@ == held@.subrange(0, i as int),
        decreases held@.len() - i,
    {
        data.push(held[i]);
        i = i + 1;
    }
    proof {
        assert(header@ =~= seq![0x02u8, 0x01u8, ADV_FLAGS_LE_ONLY_GENERAL_DISC, 0x03u8, 0x03u8, 0x00u8, 0x61u8, (1 + bytes@.len()) as u8, 0x09u8]);
        assert(held@.subrange(0, held@.len() as int) =~= held@);
    }
    data
}

/// The scan response: the 16-bit service list holding 0x180A.
pub fn scan_response_data() -> (data: Vec<u8>)
    ensures
        data@ == seq![0x03u8, 0x03u8, 0x0Au8, 0x18u8],
{
    let mut data: Vec<u8> = Vec::new();
    data.push(0x03);
    data.push(0x03);
    data.push(0x0A);
    data.push(0x18);
    data
}

/// The number of the active interrupt, from the low byte of the interrupt
/// control and state register: exception numbers start 16 below the IRQs.
pub fn interrupt_number(icsr: u32) -> (irqn: i16)
    ensures
        irqn == (icsr % 256) - 16,
{
    let low: u8 = icsr as u8;
    assert(low == icsr % 256) by (bit_vector)
        requires low == icsr as u8;
    low as i16 - 16
}

} // verus!
