use osrusbfx2::interop::rust_add_function;
use osrusbfx2::osrusbfx2::{
    device_to_activity_id, guid_devinterface_osrusbfx2, make_guid, wdf_rel_timeout_in_sec, Guid,
    DEFAULT_CONTROL_TRANSFER_TIMEOUT, MAX_TIMEOUT_SECONDS, WDF_TIMEOUT_TO_SEC,
};
use osrusbfx2::status::{nt_success, STATUS_SUCCESS};

#[test]
fn make_guid_places_components() {
    let g = make_guid(1, 2, 3, 4, 5, 6, 7, 8, 9, 10, 11);
    assert_eq!(
        g,
        Guid { data1: 1, data2: 2, data3: 3, data4: [4, 5, 6, 7, 8, 9, 10, 11] }
    );
}

#[test]
fn device_interface_guid() {
    let g = guid_devinterface_osrusbfx2();
    assert_eq!(g.data1, 0x573E8C73);
    assert_eq!(g.data2, 0x0CB4);
    assert_eq!(g.data3, 0x4471);
    assert_eq!(g.data4, [0xA1, 0xBF, 0xFA, 0xB2, 0x6C, 0x31, 0xD3, 0x84]);
}

#[test]
fn timeout_of_five_seconds() {
    assert_eq!(WDF_TIMEOUT_TO_SEC, 10_000_000);
    assert_eq!(wdf_rel_timeout_in_sec(5), -50_000_000);
    assert_eq!(wdf_rel_timeout_in_sec(5), DEFAULT_CONTROL_TRANSFER_TIMEOUT);
    assert_eq!(wdf_rel_timeout_in_sec(0), 0);
}

#[test]
fn timeout_at_the_limit() {
    assert_eq!(wdf_rel_timeout_in_sec(MAX_TIMEOUT_SECONDS), -9_223_372_036_850_000_000);
    assert_eq!(wdf_rel_timeout_in_sec(MAX_TIMEOUT_SECONDS + 1), i64::MAX);
    assert_eq!(wdf_rel_timeout_in_sec(1u64 << 62), i64::MAX);
}

#[test]
fn timeout_of_seconds_read_as_negative() {
    // u64::MAX reads as -1 second, which gives a positive product.
    assert_eq!(wdf_rel_timeout_in_sec(u64::MAX), 10_000_000);
    assert_eq!(wdf_rel_timeout_in_sec(1u64 << 63), i64::MAX);
}

#[test]
fn longer_timeouts_are_more_negative() {
    assert!(wdf_rel_timeout_in_sec(10) < wdf_rel_timeout_in_sec(9));
}

#[test]
fn activity_id_holds_the_handle_bytes() {
    let g = device_to_activity_id(0x1122_3344_5566_7788usize);
    assert_eq!(g.data1, 0x5566_7788);
    assert_eq!(g.data2, 0x3344);
    assert_eq!(g.data3, 0x1122);
    assert_eq!(g.data4, [0; 8]);
    let g = device_to_activity_id(0xdead_beef);
    assert_eq!(
        g,
        Guid { data1: 0xdead_beef, data2: 0, data3: 0, data4: [0; 8] }
    );
}

#[test]
fn nt_success_classifies_statuses() {
    assert!(nt_success(STATUS_SUCCESS));
    assert!(nt_success(0x4000_0000));
    assert!(nt_success(i32::MAX));
    assert!(!nt_success(-1));
    assert!(!nt_success(0xC000_0001u32 as i32));
}

#[test]
fn add_function_adds() {
    assert_eq!(rust_add_function(2, 3), 5);
    assert_eq!(rust_add_function(u32::MAX - 1, 1), u32::MAX);
}

#[test]
fn activity_id_gives_the_handle_back() {
    let handle = 0x0000_7ff6_1234_5678usize;
    let g = device_to_activity_id(handle);
    let back = g.data1 as u64 + ((g.data2 as u64) << 32) + ((g.data3 as u64) << 48);
    assert_eq!(back, handle as u64);
}
