//! Switch and bar-graph register states of the OSR USB-FX2 board, and the
//! I/O control codes that the driver publishes to applications.
use vstd::prelude::*;

verus! {

/// Errors reported when a register bit is read by a run-time index.
pub enum OsrUSBFxError {
    /// The index does not name one of the eight bits of the register.
    BitAccessError,
}

/// The eight bits of a register byte, lowest bit first: bit `i` is set when
/// the byte masked with `1 << i` is not zero.
pub open spec fn u8_bits(value: u8) -> Seq<bool> {
    Seq::new(8, |i: int| value & (1u8 << (i as u8)) != 0u8)
}

/// The byte that results from forcing bit `index` of `value` to `toggle`.
pub open spec fn with_bit(value: u8, index: u8, toggle: bool) -> u8 {
    if toggle {
        value | (1u8 << index)
    } else {
        value & !(1u8 << index)
    }
}

/// What forcing one bit does to the eight bits of a byte.
pub proof fn lemma_with_bit_bits(value: u8, index: u8, toggle: bool)
    requires
        index < 8,
    ensures
        u8_bits(with_bit(value, index, toggle)) == u8_bits(value).update(index as int, toggle),
{
    let r = with_bit(value, index, toggle);
    assert(forall|j: u8|
        j < 8 ==> ((#[trigger] (r & (1u8 << j)) != 0u8) == (if j == index {
            toggle
        } else {
            value & (1u8 << j) != 0u8
        }))) by (bit_vector)
        requires
            index < 8,
            r == (if toggle {
                value | (1u8 << index)
            } else {
                value & !(1u8 << index)
            }),
    ;
    assert forall|j: int| 0 <= j < 8 implies u8_bits(r)[j] == u8_bits(value).update(
        index as int,
        toggle,
    )[j] by {
        let k = j as u8;
        assert(r & (1u8 << k) != 0u8 == (if k == index {
            toggle
        } else {
            value & (1u8 << k) != 0u8
        }));
    }
    assert(u8_bits(r) =~= u8_bits(value).update(index as int, toggle));
}

/// Two bytes with the same eight bits are the same byte.
pub proof fn lemma_u8_bits_injective(a: u8, b: u8)
    requires
        u8_bits(a) == u8_bits(b),
    ensures
        a == b,
{
    assert forall|k: u8| k < 8 implies (a & (1u8 << k) != 0u8) == (b & (1u8 << k) != 0u8) by {
        assert(u8_bits(a)[k as int] == u8_bits(b)[k as int]);
        assert((k as int) as u8 == k);
        assert(u8_bits(a)[k as int] == (a & (1u8 << ((k as int) as u8)) != 0u8));
        assert(u8_bits(a)[k as int] == (a & (1u8 << k) != 0u8));
    }
    assert(a == b) by (bit_vector)
        requires
            (a & (1u8 << 0u8) != 0u8) == (b & (1u8 << 0u8) != 0u8),
            (a & (1u8 << 1u8) != 0u8) == (b & (1u8 << 1u8) != 0u8),
            (a & (1u8 << 2u8) != 0u8) == (b & (1u8 << 2u8) != 0u8),
            (a & (1u8 << 3u8) != 0u8) == (b & (1u8 << 3u8) != 0u8),
            (a & (1u8 << 4u8) != 0u8) == (b & (1u8 << 4u8) != 0u8),
            (a & (1u8 << 5u8) != 0u8) == (b & (1u8 << 5u8) != 0u8),
            (a & (1u8 << 6u8) != 0u8) == (b & (1u8 << 6u8) != 0u8),
            (a & (1u8 << 7u8) != 0u8) == (b & (1u8 << 7u8) != 0u8),
    ;
}

/// Reading a bit back after forcing it gives the value written, and every
/// other bit keeps its value.
pub proof fn law_set_then_get(value: u8, index: u8, toggle: bool)
    requires
        index < 8,
    ensures
        u8_bits(with_bit(value, index, toggle))[index as int] == toggle,
        forall|j: int|
            0 <= j < 8 && j != index ==> #[trigger] u8_bits(with_bit(value, index, toggle))[j]
                == u8_bits(value)[j],
{
    lemma_with_bit_bits(value, index, toggle);
}

/// Forcing a bit to the value it already has leaves the byte unchanged.
pub proof fn law_set_current_value_is_identity(value: u8, index: u8)
    requires
        index < 8,
    ensures
        with_bit(value, index, u8_bits(value)[index as int]) == value,
{
    lemma_with_bit_bits(value, index, u8_bits(value)[index as int]);
    assert(u8_bits(value).update(index as int, u8_bits(value)[index as int]) =~= u8_bits(value));
    lemma_u8_bits_injective(with_bit(value, index, u8_bits(value)[index as int]), value);
}

/// Of two writes to the same bit, only the last one counts.
pub proof fn law_last_set_wins(value: u8, index: u8, first: bool, second: bool)
    requires
        index < 8,
    ensures
        with_bit(with_bit(value, index, first), index, second) == with_bit(value, index, second),
{
    let once = with_bit(value, index, first);
    lemma_with_bit_bits(value, index, first);
    lemma_with_bit_bits(once, index, second);
    lemma_with_bit_bits(value, index, second);
    assert(u8_bits(once).update(index as int, second) =~= u8_bits(value).update(
        index as int,
        second,
    ));
    lemma_u8_bits_injective(with_bit(once, index, second), with_bit(value, index, second));
}

/// Writes to two different bits can be made in either order.
pub proof fn law_distinct_sets_commute(value: u8, i: u8, a: bool, j: u8, b: bool)
    requires
        i < 8,
        j < 8,
        i != j,
    ensures
        with_bit(with_bit(value, i, a), j, b) == with_bit(with_bit(value, j, b), i, a),
{
    let left = with_bit(value, i, a);
    let right = with_bit(value, j, b);
    lemma_with_bit_bits(value, i, a);
    lemma_with_bit_bits(left, j, b);
    lemma_with_bit_bits(value, j, b);
    lemma_with_bit_bits(right, i, a);
    assert(u8_bits(left).update(j as int, b) =~= u8_bits(right).update(i as int, a));
    lemma_u8_bits_injective(with_bit(left, j, b), with_bit(right, i, a));
}

/// The state of the eight switches on the board, one bit per switch.
pub struct SwitchState(pub u8);

impl View for SwitchState {
    type V = Seq<bool>;

    open spec fn view(&self) -> Seq<bool> {
        u8_bits(self.0)
    }
}

impl SwitchState {
    /// Sets the bit at `INDEX` to `toggle`; `INDEX` must name one of the eight bits.
    pub fn set_bit<const INDEX: u8>(&mut self, toggle: bool)
        requires
            INDEX < 8,
        ensures
            final(self).0 == with_bit(old(self).0, INDEX, toggle),
            final(self)@ == old(self)@.update(INDEX as int, toggle),
    {
        proof {
            lemma_with_bit_bits(self.0, INDEX, toggle);
        }
        if toggle {
            self.0 = self.0 | (1u8 << INDEX);
        } else {
            let mask: u8 = !(1u8 << INDEX);
            self.0 = self.0 & mask;
        }
    }

    /// Reads the bit at `INDEX`; `INDEX` must name one of the eight bits.
    pub fn get_bit_const<const INDEX: u8>(&self) -> (set: bool)
        requires
            INDEX < 8,
        ensures
            set == self@[INDEX as int],
    {
        (self.0 & (1u8 << INDEX)) > 0
    }

    /// Reads the bit at a run-time `index`, which must name one of the eight
    /// bits.
    pub fn get_bit(&self, index: u8) -> (result: Result<bool, OsrUSBFxError>)
        ensures
            index <= 7 ==> result == Ok::<bool, OsrUSBFxError>(self@[index as int]),
            index > 7 ==> result matches Err(OsrUSBFxError::BitAccessError),
    {
        if index <= 7 {
            Ok((self.0 & (1u8 << index)) > 0)
        } else {
            Err(OsrUSBFxError::BitAccessError)
        }
    }
}

/// The state of the eight-segment bar graph on the board, one bit per bar.
pub struct BarGraphState(pub u8);

impl View for BarGraphState {
    type V = Seq<bool>;

    open spec fn view(&self) -> Seq<bool> {
        u8_bits(self.0)
    }
}

impl BarGraphState {
    /// Sets the bar at `INDEX` on or off; `INDEX` must name one of the eight bits.
    pub fn set_bit<const INDEX: u8>(&mut self, toggle: bool)
        requires
            INDEX < 8,
        ensures
            final(self).0 == with_bit(old(self).0, INDEX, toggle),
            final(self)@ == old(self)@.update(INDEX as int, toggle),
    {
        proof {
            lemma_with_bit_bits(self.0, INDEX, toggle);
        }
        if toggle {
            self.0 = self.0 | (1u8 << INDEX);
        } else {
            let mask: u8 = !(1u8 << INDEX);
            self.0 = self.0 & mask;
        }
    }

    /// Reads the bar at `INDEX`; `INDEX` must name one of the eight bits.
    pub fn get_bit<const INDEX: u8>(&self) -> (set: bool)
        requires
            INDEX < 8,
        ensures
            set == self@[INDEX as int],
    {
        (self.0 & (1u8 << INDEX)) > 0
    }
}

/// The `CTL_CODE` layout of a Windows I/O control code: the device type in the
/// upper half, then the required access, the function number and the transfer
/// method, each shifted into its field (bits that do not fit are dropped).
pub open spec fn spec_ctl_code(device_type: u32, function: u32, method: u32, access: u32) -> u32 {
    ((device_type << 16u32) | (access << 14u32) | (function << 2u32) | method)
}

/// Builds an I/O control code from its four fields.
pub fn ctl_code(device_type: u32, function: u32, method: u32, access: u32) -> (code: u32)
    ensures
        code == spec_ctl_code(device_type, function, method, access),
        device_type < 0x10000 && access < 4 && function < 0x1000 && method < 4 ==> {
            &&& code as int == device_type * 0x10000 + access * 0x4000 + function * 4 + method
            &&& code >> 16u32 == device_type
            &&& (code >> 14u32) & 3 == access
            &&& (code >> 2u32) & 0xfff == function
            &&& code & 3 == method
        },
{
    let code = (device_type << 16u32) | (access << 14u32) | (function << 2u32) | method;
    proof {
        if device_type < 0x10000 && access < 4 && function < 0x1000 && method < 4 {
            assert(code as int == device_type * 0x10000 + access * 0x4000 + function * 4 + method
                && code >> 16u32 == device_type && (code >> 14u32) & 3 == access
                && (code >> 2u32) & 0xfff == function && code & 3 == method) by (bit_vector)
                requires
                    code == (device_type << 16u32) | (access << 14u32) | (function << 2u32) | method,
                    device_type < 0x10000,
                    access < 4,
                    function < 0x1000,
                    method < 4,
            ;
        }
    }
    code
}

} // verus!

verus! {

/// Transfer method: buffered I/O.
pub const METHOD_BUFFERED: u32 = 0;

/// Transfer method: direct I/O on the output buffer.
pub const METHOD_OUT_DIRECT: u32 = 2;

/// Required access: read.
pub const FILE_READ_ACCESS: u32 = 1;

/// Required access: write.
pub const FILE_WRITE_ACCESS: u32 = 2;

/// First function number of the board's control codes.
pub const IOCTL_INDEX: u32 = 0x800;

/// Device type of the board. It does not fit in the sixteen bits of the
/// device-type field, so the codes below keep only its lower sixteen bits.
pub const FILE_DEVICE_OSRUSBFX2: u32 = 65550;

/// Reads the configuration descriptor.
pub const IOCTL_OSRUSBFX2_GET_CONFIG_DESCRIPTOR: u32 = 0x000E_6000;

/// Resets the device.
pub const IOCTL_OSRUSBFX2_RESET_DEVICE: u32 = 0x000E_A004;

/// Re-enumerates the device.
pub const IOCTL_OSRUSBFX2_REENUMERATE_DEVICE: u32 = 0x000E_A00C;

/// Reads the bar-graph display.
pub const IOCTL_OSRUSBFX2_GET_BAR_GRAPH_DISPLAY: u32 = 0x000E_6010;

/// Writes the bar-graph display.
pub const IOCTL_OSRUSBFX2_SET_BAR_GRAPH_DISPLAY: u32 = 0x000E_A014;

/// Reads the switches.
pub const IOCTL_OSRUSBFX2_READ_SWITCHES: u32 = 0x000E_6018;

/// Reads the seven-segment display.
pub const IOCTL_OSRUSBFX2_GET_7_SEGMENT_DISPLAY: u32 = 0x000E_601C;

/// Writes the seven-segment display.
pub const IOCTL_OSRUSBFX2_SET_7_SEGMENT_DISPLAY: u32 = 0x000E_A020;

/// Waits for an interrupt message from the board.
pub const IOCTL_OSRUSBFX2_GET_INTERRUPT_MESSAGE: u32 = 0x000E_6026;

/// Each of the board's control codes is `CTL_CODE` of the board's device type,
/// its function number, its transfer method and its access.
pub proof fn lemma_ioctl_codes()
    ensures
        IOCTL_OSRUSBFX2_GET_CONFIG_DESCRIPTOR == spec_ctl_code(
            FILE_DEVICE_OSRUSBFX2, IOCTL_INDEX, METHOD_BUFFERED, FILE_READ_ACCESS),
        IOCTL_OSRUSBFX2_RESET_DEVICE == spec_ctl_code(
            FILE_DEVICE_OSRUSBFX2, (IOCTL_INDEX + 1) as u32, METHOD_BUFFERED, FILE_WRITE_ACCESS),
        IOCTL_OSRUSBFX2_REENUMERATE_DEVICE == spec_ctl_code(
            FILE_DEVICE_OSRUSBFX2, (IOCTL_INDEX + 3) as u32, METHOD_BUFFERED, FILE_WRITE_ACCESS),
        IOCTL_OSRUSBFX2_GET_BAR_GRAPH_DISPLAY == spec_ctl_code(
            FILE_DEVICE_OSRUSBFX2, (IOCTL_INDEX + 4) as u32, METHOD_BUFFERED, FILE_READ_ACCESS),
        IOCTL_OSRUSBFX2_SET_BAR_GRAPH_DISPLAY == spec_ctl_code(
            FILE_DEVICE_OSRUSBFX2, (IOCTL_INDEX + 5) as u32, METHOD_BUFFERED, FILE_WRITE_ACCESS),
        IOCTL_OSRUSBFX2_READ_SWITCHES == spec_ctl_code(
            FILE_DEVICE_OSRUSBFX2, (IOCTL_INDEX + 6) as u32, METHOD_BUFFERED, FILE_READ_ACCESS),
        IOCTL_OSRUSBFX2_GET_7_SEGMENT_DISPLAY == spec_ctl_code(
            FILE_DEVICE_OSRUSBFX2, (IOCTL_INDEX + 7) as u32, METHOD_BUFFERED, FILE_READ_ACCESS),
        IOCTL_OSRUSBFX2_SET_7_SEGMENT_DISPLAY == spec_ctl_code(
            FILE_DEVICE_OSRUSBFX2, (IOCTL_INDEX + 8) as u32, METHOD_BUFFERED, FILE_WRITE_ACCESS),
        IOCTL_OSRUSBFX2_GET_INTERRUPT_MESSAGE == spec_ctl_code(
            FILE_DEVICE_OSRUSBFX2, (IOCTL_INDEX + 9) as u32, METHOD_OUT_DIRECT, FILE_READ_ACCESS),
{
    assert(
        0x000E_6000u32 == (65550u32 << 16u32) | (1u32 << 14u32) | (0x800u32 << 2u32) | 0u32
        && 0x000E_A004u32 == (65550u32 << 16u32) | (2u32 << 14u32) | (0x801u32 << 2u32) | 0u32
        && 0x000E_A00Cu32 == (65550u32 << 16u32) | (2u32 << 14u32) | (0x803u32 << 2u32) | 0u32
        && 0x000E_6010u32 == (65550u32 << 16u32) | (1u32 << 14u32) | (0x804u32 << 2u32) | 0u32
        && 0x000E_A014u32 == (65550u32 << 16u32) | (2u32 << 14u32) | (0x805u32 << 2u32) | 0u32
        && 0x000E_6018u32 == (65550u32 << 16u32) | (1u32 << 14u32) | (0x806u32 << 2u32) | 0u32
        && 0x000E_601Cu32 == (65550u32 << 16u32) | (1u32 << 14u32) | (0x807u32 << 2u32) | 0u32
        && 0x000E_A020u32 == (65550u32 << 16u32) | (2u32 << 14u32) | (0x808u32 << 2u32) | 0u32
        && 0x000E_6026u32 == (65550u32 << 16u32) | (1u32 << 14u32) | (0x809u32 << 2u32) | 2u32
    ) by (bit_vector);
}

} // verus!
