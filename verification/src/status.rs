//! `NTSTATUS` values and their classification.
use vstd::prelude::*;

verus! {

/// The success status.
pub const STATUS_SUCCESS: i32 = 0;

/// A status is a success or an informational status when it is not negative.
pub open spec fn spec_nt_success(status: i32) -> bool {
    status >= 0
}

/// Tells whether `status` is a success or an informational status
/// (`0x00000000` to `0x7FFFFFFF`), as `NT_SUCCESS` does.
pub fn nt_success(status: i32) -> (success: bool)
    ensures
        success == spec_nt_success(status),
{
    status >= 0
}

} // verus!

verus! {

/// The severity of a status is the top two bits of its 32-bit code:
/// success (0) and informational (1) statuses count as success, warning (2)
/// and error (3) statuses do not.
pub proof fn law_nt_success_is_severity_below_warning(status: i32)
    ensures
        spec_nt_success(status) <==> ((status as u32) >> 30u32) < 2,
        ((status as u32) >> 30u32) >= 2 ==> !spec_nt_success(status),
{
    assert((status >= 0) == (((status as u32) >> 30u32) < 2)) by (bit_vector);
}

/// Every warning status (`0x80000000` to `0xBFFFFFFF`) and every error
/// status (`0xC0000000` to `0xFFFFFFFF`) is a failure; every status from
/// `0x00000000` to `0x7FFFFFFF` is a success.
pub proof fn law_nt_success_ranges(code: u32)
    ensures
        code >= 0x8000_0000 ==> !spec_nt_success(code as i32),
        code < 0x8000_0000 ==> spec_nt_success(code as i32),
{
    assert((code >= 0x8000_0000u32 ==> (code as i32) < 0i32) && (code < 0x8000_0000u32 ==> (
    code as i32) >= 0i32)) by (bit_vector);
}

} // verus!
