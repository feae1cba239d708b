//! Identifiers and time values of the OSR USB-FX2 driver: GUIDs, the device
//! interface GUID, relative timeouts and activity identifiers.
use vstd::prelude::*;

verus! {

/// A globally unique identifier, laid out as the Windows `GUID` structure.
#[derive(Clone, Copy, Debug, PartialEq, Eq)]
pub struct Guid {
    pub data1: u32,
    pub data2: u16,
    pub data3: u16,
    pub data4: [u8; 8],
}

/// Builds a GUID from its eleven components, the last eight forming `data4`
/// in order.
pub fn make_guid(
    data1: u32,
    data2: u16,
    data3: u16,
    data4: u8,
    data5: u8,
    data6: u8,
    data7: u8,
    data8: u8,
    data9: u8,
    data10: u8,
    data11: u8,
) -> (guid: Guid)
    ensures
        guid.data1 == data1,
        guid.data2 == data2,
        guid.data3 == data3,
        guid.data4@ == seq![data4, data5, data6, data7, data8, data9, data10, data11],
{
    let guid = Guid {
        data1: data1,
        data2: data2,
        data3: data3,
        data4: [data4, data5, data6, data7, data8, data9, data10, data11],
    };
    assert(guid.data4@ =~= seq![data4, data5, data6, data7, data8, data9, data10, data11]);
    guid
}

/// The device interface GUID through which applications find the board:
/// {573E8C73-0CB4-4471-A1BF-FAB26C31D384}.
pub fn guid_devinterface_osrusbfx2() -> (guid: Guid)
    ensures
        guid.data1 == 0x573E8C73,
        guid.data2 == 0x0CB4,
        guid.data3 == 0x4471,
        guid.data4@ == seq![0xA1u8, 0xBFu8, 0xFAu8, 0xB2u8, 0x6Cu8, 0x31u8, 0xD3u8, 0x84u8],
{
    make_guid(0x573E8C73, 0xCB4, 0x4471, 0xA1, 0xBF, 0xFA, 0xB2, 0x6C, 0x31, 0xD3, 0x84)
}

/// Number of 100-nanosecond units in a second, the unit of WDF timeouts.
pub const WDF_TIMEOUT_TO_SEC: u64 = 1 * 10 * 1000 * 1000;

/// The value of a `u64` read as an `i64` of the same bits.
pub open spec fn as_signed(value: u64) -> int {
    if value <= i64::MAX {
        value as int
    } else {
        value - 0x1_0000_0000_0000_0000
    }
}

/// The relative WDF timeout for `time` seconds: the seconds read as a signed
/// number, times minus the number of 100-nanosecond units in a second, or
/// `i64::MAX` where that product does not fit in an `i64`.
pub open spec fn spec_rel_timeout_in_sec(time: u64) -> i64 {
    let product = as_signed(time) * (-10_000_000);
    if i64::MIN <= product <= i64::MAX {
        product as i64
    } else {
        i64::MAX
    }
}

/// The largest number of seconds whose timeout fits in an `i64`.
pub const MAX_TIMEOUT_SECONDS: u64 = 922_337_203_685;

/// Converts seconds into a relative WDF timeout (negative, in units of
/// 100 nanoseconds).
pub fn wdf_rel_timeout_in_sec(time: u64) -> (timeout: i64)
    ensures
        timeout == spec_rel_timeout_in_sec(time),
        time <= MAX_TIMEOUT_SECONDS ==> timeout == -10_000_000 * time,
{
    let signed = time as i64;
    proof {
        if time > 0x7fff_ffff_ffff_ffffu64 {
            assert(signed < 0 && signed as int == time as int - 0x1_0000_0000_0000_0000) by (bit_vector)
                requires
                    signed == time as i64,
                    time > 0x7fff_ffff_ffff_ffffu64,
            ;
        }
    }
    assert(WDF_TIMEOUT_TO_SEC == 10_000_000);
    let per_second = WDF_TIMEOUT_TO_SEC as i64;
    match signed.checked_mul(-1 * per_second) {
        Some(result) => result,
        None => i64::MAX,
    }
}

/// Relative timeouts of a number of seconds that fits only grow more
/// negative (longer) as the number of seconds grows.
pub proof fn law_rel_timeout_monotonic(shorter: u64, longer: u64)
    requires
        shorter <= longer <= MAX_TIMEOUT_SECONDS,
    ensures
        spec_rel_timeout_in_sec(longer) <= spec_rel_timeout_in_sec(shorter) <= 0,
{
}

/// The timeout of the board's control transfers: five seconds.
pub const DEFAULT_CONTROL_TRANSFER_TIMEOUT: i64 = -50_000_000;

/// The control-transfer timeout is the relative timeout of five seconds.
pub proof fn lemma_default_control_transfer_timeout()
    ensures
        DEFAULT_CONTROL_TRANSFER_TIMEOUT == spec_rel_timeout_in_sec(5),
{
}

/// Size of the board's test transfer buffer, in bytes.
pub const TEST_BOARD_TRANSFER_BUFFER_SIZE: u32 = 64 * 1024;

/// Length of a device description, in characters.
pub const DEVICE_DESC_LENGTH: u16 = 256;

/// The `DEVPROP_BOOLEAN` value true.
pub const DEVPROP_TRUE: i8 = -1;

/// The `DEVPROP_BOOLEAN` value false.
pub const DEVPROP_FALSE: i8 = 0;

/// The activity identifier of a device: the bytes of its handle, as a
/// little-endian machine lays them out, copied into the start of an all-zero
/// GUID. The handle takes at most eight of the GUID's sixteen bytes.
pub fn device_to_activity_id(device: usize) -> (guid: Guid)
    ensures
        guid.data1 == (device as int) % 0x1_0000_0000,
        guid.data2 == ((device as int) / 0x1_0000_0000) % 0x1_0000,
        guid.data3 == ((device as int) / 0x1_0000_0000_0000) % 0x1_0000,
        guid.data4@ == seq![0u8, 0u8, 0u8, 0u8, 0u8, 0u8, 0u8, 0u8],
{
    let handle = device as u64;
    let data1 = (handle % 0x1_0000_0000) as u32;
    let data2 = ((handle / 0x1_0000_0000) % 0x1_0000) as u16;
    let data3 = ((handle / 0x1_0000_0000_0000) % 0x1_0000) as u16;
    make_guid(data1, data2, data3, 0, 0, 0, 0, 0, 0, 0, 0)
}

} // verus!

verus! {

/// The activity identifier keeps the whole handle: its first three fields,
/// read as one little-endian number, give the handle back, so distinct
/// devices get distinct identifiers.
pub proof fn law_activity_id_keeps_the_handle(device: usize, guid: Guid)
    requires
        guid.data1 == (device as int) % 0x1_0000_0000,
        guid.data2 == ((device as int) / 0x1_0000_0000) % 0x1_0000,
        guid.data3 == ((device as int) / 0x1_0000_0000_0000) % 0x1_0000,
    ensures
        guid.data1 + guid.data2 * 0x1_0000_0000 + guid.data3 * 0x1_0000_0000_0000 == device,
{
    let d = device as int;
    assert(d < 0x1_0000_0000_0000_0000);
    assert(d % 0x1_0000_0000 + ((d / 0x1_0000_0000) % 0x1_0000) * 0x1_0000_0000 + ((d
        / 0x1_0000_0000_0000) % 0x1_0000) * 0x1_0000_0000_0000 == d) by (nonlinear_arith)
        requires
            0 <= d < 0x1_0000_0000_0000_0000,
    ;
}

} // verus!
