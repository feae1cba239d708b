//! The decisions the driver takes while the framework adds a device: which
//! framework call comes next, when a failure ends the sequence, and which
//! status the driver returns.
//!
//! The caller performs each call and reports its status back; these functions
//! never touch the framework themselves.
use vstd::prelude::*;
use crate::status::{nt_success, spec_nt_success, STATUS_SUCCESS};
use crate::wdf::{
    initial_io_queue_config, initial_object_attributes, initial_pnp_capabilities,
    wdf_device_pnp_capabilities_init, wdf_io_queue_config_init,
    wdf_io_queue_config_init_default_queue, wdf_object_attributes_init, WDFError,
    WdfDevicePnpCapabilities, WdfExecutionLevel, WdfIoQueueConfig, WdfIoQueueDispatchType,
    WdfObjectAttributes, WdfSynchronizationScope, WdfTriState,
};
use crate::osrusbfx2::DEVPROP_TRUE;
use crate::wide::{lemma_utf16_encode_len_bmp, nul_only_at_end, utf16_encode, wide_string_units};

verus! {

/// The framework calls that add a device, in the order the driver makes
/// them.
#[derive(Clone, Copy, Debug, PartialEq, Eq)]
pub enum DeviceAddCall {
    /// `WdfDeviceCreate`.
    CreateDevice,
    /// Reading the device's friendly name and location for logging.
    QueryLoggingNames,
    /// `WdfDeviceSetPnpCapabilities`, with surprise removal allowed.
    SetPnpCapabilities,
    /// `WdfIoQueueCreate` of the parallel default queue for device controls.
    CreateDefaultQueue,
    /// `WdfIoQueueCreate` of the sequential queue for reads.
    CreateReadQueue,
    /// `WdfDeviceConfigureRequestDispatching` of read requests to the read
    /// queue.
    ConfigureReadDispatching,
    /// `WdfIoQueueCreate` of the sequential queue for writes.
    CreateWriteQueue,
    /// `WdfDeviceConfigureRequestDispatching` of write requests to the write
    /// queue.
    ConfigureWriteDispatching,
    /// `WdfIoQueueCreate` of the manual queue for interrupt messages.
    CreateInterruptMessageQueue,
    /// `WdfDeviceCreateDeviceInterface` with the board's interface GUID.
    CreateDeviceInterface,
    /// `WdfWaitLockCreate` of the lock that serialises device resets.
    CreateResetDeviceWaitLock,
    /// `WdfStringCreate` of the string for the interface's symbolic link.
    CreateSymbolicLinkString,
    /// `WdfDeviceRetrieveDeviceInterfaceString`.
    RetrieveDeviceInterfaceString,
    /// `WdfStringGetUnicodeString`.
    GetSymbolicLinkName,
    /// `IoSetDeviceInterfacePropertyData` of the restricted property.
    SetRestrictedProperty,
    /// `IoSetDeviceInterfacePropertyData` of the custom capabilities.
    SetCustomCapabilities,
    /// `WdfObjectDelete` of the symbolic-link string.
    DeleteSymbolicLinkString,
}

/// What the driver does next while adding a device.
#[derive(Clone, Copy, Debug, PartialEq, Eq)]
pub enum DeviceAddAction {
    /// Make this call and report its status.
    Call(DeviceAddCall),
    /// This call failed: log it and return its status.
    Fail { call: DeviceAddCall, status: i32 },
    /// Every call is made: log the exit and return this status.
    Complete { status: i32 },
}

/// The calls that add a device. The calls on the interface's symbolic link
/// are made only when the kernel offers `IoSetDeviceInterfacePropertyData`.
pub open spec fn device_add_calls(property_routine_available: bool) -> Seq<DeviceAddCall> {
    let base = seq![
        DeviceAddCall::CreateDevice,
        DeviceAddCall::QueryLoggingNames,
        DeviceAddCall::SetPnpCapabilities,
        DeviceAddCall::CreateDefaultQueue,
        DeviceAddCall::CreateReadQueue,
        DeviceAddCall::ConfigureReadDispatching,
        DeviceAddCall::CreateWriteQueue,
        DeviceAddCall::ConfigureWriteDispatching,
        DeviceAddCall::CreateInterruptMessageQueue,
        DeviceAddCall::CreateDeviceInterface,
        DeviceAddCall::CreateResetDeviceWaitLock,
    ];
    if property_routine_available {
        base + seq![
            DeviceAddCall::CreateSymbolicLinkString,
            DeviceAddCall::RetrieveDeviceInterfaceString,
            DeviceAddCall::GetSymbolicLinkName,
            DeviceAddCall::SetRestrictedProperty,
            DeviceAddCall::SetCustomCapabilities,
            DeviceAddCall::DeleteSymbolicLinkString,
        ]
    } else {
        base
    }
}

/// Position of `CreateResetDeviceWaitLock` among the calls: its status is
/// the one the driver returns when nothing fails.
pub const RESET_LOCK_POSITION: usize = 10;

/// Whether the driver looks at the status of a call. Reading the logging
/// names, setting the capabilities, reading the link's name and deleting the
/// link's string report no status.
pub open spec fn status_checked(call: DeviceAddCall) -> bool {
    match call {
        DeviceAddCall::QueryLoggingNames => false,
        DeviceAddCall::SetPnpCapabilities => false,
        DeviceAddCall::GetSymbolicLinkName => false,
        DeviceAddCall::DeleteSymbolicLinkString => false,
        _ => true,
    }
}

/// Where the driver stands while adding a device.
#[derive(Clone, Copy, Debug, PartialEq, Eq)]
pub struct DeviceAddState {
    /// Position of the call whose status is awaited; the number of calls once
    /// the sequence has ended.
    pub position: usize,
    pub property_routine_available: bool,
    /// Status of the wait-lock creation, once it is made.
    pub lock_status: i32,
}

impl DeviceAddState {
    /// A call's status is awaited.
    pub open spec fn running(self) -> bool {
        self.position < device_add_calls(self.property_routine_available).len()
    }
}

/// The state at the start, before `CreateDevice`.
pub open spec fn device_add_initial_state(property_routine_available: bool) -> DeviceAddState {
    DeviceAddState {
        position: 0,
        property_routine_available: property_routine_available,
        lock_status: STATUS_SUCCESS,
    }
}

/// One step: the awaited call reported `status`. A checked call that failed
/// ends the sequence with its status; otherwise the next call follows, or,
/// after the last call, the sequence completes with the wait lock's status.
pub open spec fn device_add_transition(state: DeviceAddState, status: i32) -> (
    DeviceAddState,
    DeviceAddAction,
) {
    let calls = device_add_calls(state.property_routine_available);
    let call = calls[state.position as int];
    let lock_status = if state.position == RESET_LOCK_POSITION {
        status
    } else {
        state.lock_status
    };
    let ended = DeviceAddState { position: calls.len() as usize, lock_status: lock_status, ..state };
    if status_checked(call) && !spec_nt_success(status) {
        (ended, DeviceAddAction::Fail { call: call, status: status })
    } else if state.position + 1 < calls.len() {
        (
            DeviceAddState { position: (state.position + 1) as usize, lock_status: lock_status, ..state },
            DeviceAddAction::Call(calls[state.position + 1]),
        )
    } else {
        (ended, DeviceAddAction::Complete { status: lock_status })
    }
}

/// The terminal action reached when the awaited calls report `statuses` in
/// turn, or `None` when the statuses run out first.
pub open spec fn device_add_run(state: DeviceAddState, statuses: Seq<i32>) -> Option<
    DeviceAddAction,
>
    decreases statuses.len(),
{
    if statuses.len() == 0 || !state.running() {
        None
    } else {
        let (next, action) = device_add_transition(state, statuses[0]);
        match action {
            DeviceAddAction::Call(_) => device_add_run(next, statuses.drop_first()),
            _ => Some(action),
        }
    }
}

/// Position of the first call, from `from` on, whose status is checked and
/// failed.
pub open spec fn first_failed_call(calls: Seq<DeviceAddCall>, statuses: Seq<i32>, from: int) -> Option<
    int,
>
    decreases calls.len() - from,
{
    if from < 0 || from >= calls.len() {
        None
    } else if status_checked(calls[from]) && !spec_nt_success(statuses[from]) {
        Some(from)
    } else {
        first_failed_call(calls, statuses, from + 1)
    }
}

/// How adding a device ends when its calls report `statuses`: the first
/// checked call that failed ends it with that call's status; when none
/// fails, it completes with the status of the wait-lock creation.
pub open spec fn device_add_outcome(property_routine_available: bool, statuses: Seq<i32>) -> DeviceAddAction {
    let calls = device_add_calls(property_routine_available);
    match first_failed_call(calls, statuses, 0) {
        Some(i) => DeviceAddAction::Fail { call: calls[i], status: statuses[i] },
        None => DeviceAddAction::Complete { status: statuses[RESET_LOCK_POSITION as int] },
    }
}

proof fn lemma_device_add_run_from(state: DeviceAddState, statuses: Seq<i32>)
    requires
        state.running(),
        statuses.len() >= device_add_calls(state.property_routine_available).len(),
        state.position > RESET_LOCK_POSITION ==> state.lock_status
            == statuses[RESET_LOCK_POSITION as int],
    ensures
        device_add_run(state, statuses.subrange(state.position as int, statuses.len() as int))
            == Some(
            match first_failed_call(
                device_add_calls(state.property_routine_available),
                statuses,
                state.position as int,
            ) {
                Some(i) => DeviceAddAction::Fail {
                    call: device_add_calls(state.property_routine_available)[i],
                    status: statuses[i],
                },
                None => DeviceAddAction::Complete { status: statuses[RESET_LOCK_POSITION as int] },
            },
        ),
    decreases device_add_calls(state.property_routine_available).len() - state.position,
{
    let calls = device_add_calls(state.property_routine_available);
    let p = state.position as int;
    let rest = statuses.subrange(p, statuses.len() as int);
    assert(rest[0] == statuses[p]);
    let (next, action) = device_add_transition(state, statuses[p]);
    if status_checked(calls[p]) && !spec_nt_success(statuses[p]) {
    } else if p + 1 < calls.len() {
        assert(rest.drop_first() =~= statuses.subrange(p + 1, statuses.len() as int));
        lemma_device_add_run_from(next, statuses);
    } else {
        assert(first_failed_call(calls, statuses, p + 1) is None);
    }
}

/// Adding a device makes its calls in order and stops at the first checked
/// call that fails, returning that call's status; when none fails it
/// completes with the status of the wait-lock creation.
pub proof fn law_device_add_stops_at_first_failure(
    property_routine_available: bool,
    statuses: Seq<i32>,
)
    requires
        statuses.len() >= device_add_calls(property_routine_available).len(),
    ensures
        device_add_run(device_add_initial_state(property_routine_available), statuses) == Some(
            device_add_outcome(property_routine_available, statuses),
        ),
{
    let state = device_add_initial_state(property_routine_available);
    assert(statuses.subrange(0, statuses.len() as int) =~= statuses);
    lemma_device_add_run_from(state, statuses);
}

proof fn lemma_first_failed_call(calls: Seq<DeviceAddCall>, statuses: Seq<i32>, from: int)
    requires
        0 <= from,
    ensures
        first_failed_call(calls, statuses, from) is None <==> forall|i: int|
            from <= i < calls.len() ==> (status_checked(#[trigger] calls[i]) ==> spec_nt_success(
                statuses[i],
            )),
        first_failed_call(calls, statuses, from) matches Some(i) ==> from <= i < calls.len()
            && status_checked(calls[i]) && !spec_nt_success(statuses[i]) && forall|j: int|
            from <= j < i ==> (status_checked(#[trigger] calls[j]) ==> spec_nt_success(
                statuses[j],
            )),
    decreases calls.len() - from,
{
    if from < calls.len() {
        lemma_first_failed_call(calls, statuses, from + 1);
    }
}

/// Adding a device completes exactly when every checked call succeeds; when
/// it fails, the failing call is checked, failed, and every checked call
/// before it succeeded.
pub proof fn law_device_add_completes_iff_all_succeed(
    property_routine_available: bool,
    statuses: Seq<i32>,
)
    ensures
        device_add_outcome(property_routine_available, statuses) is Complete <==> forall|i: int|
            0 <= i < device_add_calls(property_routine_available).len() ==> (status_checked(
                #[trigger] device_add_calls(property_routine_available)[i],
            ) ==> spec_nt_success(statuses[i])),
        device_add_outcome(property_routine_available, statuses) matches DeviceAddAction::Fail {
            call,
            status,
        } ==> status_checked(call) && !spec_nt_success(status),
{
    lemma_first_failed_call(device_add_calls(property_routine_available), statuses, 0);
}

fn device_add_call_at(position: usize, property_routine_available: bool) -> (call: DeviceAddCall)
    requires
        position < device_add_calls(property_routine_available).len(),
    ensures
        call == device_add_calls(property_routine_available)[position as int],
{
    match position {
        0 => DeviceAddCall::CreateDevice,
        1 => DeviceAddCall::QueryLoggingNames,
        2 => DeviceAddCall::SetPnpCapabilities,
        3 => DeviceAddCall::CreateDefaultQueue,
        4 => DeviceAddCall::CreateReadQueue,
        5 => DeviceAddCall::ConfigureReadDispatching,
        6 => DeviceAddCall::CreateWriteQueue,
        7 => DeviceAddCall::ConfigureWriteDispatching,
        8 => DeviceAddCall::CreateInterruptMessageQueue,
        9 => DeviceAddCall::CreateDeviceInterface,
        10 => DeviceAddCall::CreateResetDeviceWaitLock,
        11 => DeviceAddCall::CreateSymbolicLinkString,
        12 => DeviceAddCall::RetrieveDeviceInterfaceString,
        13 => DeviceAddCall::GetSymbolicLinkName,
        14 => DeviceAddCall::SetRestrictedProperty,
        15 => DeviceAddCall::SetCustomCapabilities,
        _ => DeviceAddCall::DeleteSymbolicLinkString,
    }
}

fn device_add_call_count(property_routine_available: bool) -> (count: usize)
    ensures
        count == device_add_calls(property_routine_available).len(),
{
    if property_routine_available {
        17
    } else {
        11
    }
}

fn call_status_checked(call: DeviceAddCall) -> (checked: bool)
    ensures
        checked == status_checked(call),
{
    match call {
        DeviceAddCall::QueryLoggingNames => false,
        DeviceAddCall::SetPnpCapabilities => false,
        DeviceAddCall::GetSymbolicLinkName => false,
        DeviceAddCall::DeleteSymbolicLinkString => false,
        _ => true,
    }
}

/// Starts adding a device: the first call is `CreateDevice`.
pub fn osr_fx_evt_device_add_start(property_routine_available: bool) -> (start: (
    DeviceAddState,
    DeviceAddAction,
))
    ensures
        start.0 == device_add_initial_state(property_routine_available),
        start.1 == DeviceAddAction::Call(DeviceAddCall::CreateDevice),
{
    (
        DeviceAddState {
            position: 0,
            property_routine_available: property_routine_available,
            lock_status: STATUS_SUCCESS,
        },
        DeviceAddAction::Call(DeviceAddCall::CreateDevice),
    )
}

/// Takes the status of the awaited call and says what the driver does next.
/// For a call that reports no status, any value may be passed.
pub fn osr_fx_evt_device_add_step(state: &mut DeviceAddState, status: i32) -> (action:
    DeviceAddAction)
    requires
        old(state).running(),
    ensures
        (*final(state), action) == device_add_transition(*old(state), status),
{
    let count = device_add_call_count(state.property_routine_available);
    let call = device_add_call_at(state.position, state.property_routine_available);
    if state.position == RESET_LOCK_POSITION {
        state.lock_status = status;
    }
    if call_status_checked(call) && !nt_success(status) {
        state.position = count;
        DeviceAddAction::Fail { call: call, status: status }
    } else if state.position + 1 < count {
        state.position = state.position + 1;
        DeviceAddAction::Call(device_add_call_at(state.position, state.property_routine_available))
    } else {
        state.position = count;
        DeviceAddAction::Complete { status: state.lock_status }
    }
}

} // verus!

verus! {

/// A device registry property the driver reads for its log messages.
#[derive(Clone, Copy, Debug, PartialEq, Eq)]
pub enum DeviceProperty {
    FriendlyName,
    DeviceDescription,
    LocationInformation,
}

/// A text the device context keeps for log messages.
#[derive(Clone, Copy, Debug, PartialEq, Eq)]
pub enum LoggingText {
    /// The buffer of the memory that the query of this property returned.
    Property(DeviceProperty),
    /// The fixed text "(error retrieving name)".
    ErrorRetrievingName,
    /// The fixed text "(error retrieving location)".
    ErrorRetrievingLocation,
}

/// A memory handle the device context keeps.
#[derive(Clone, Copy, Debug, PartialEq, Eq)]
pub enum MemoryHandle {
    /// No memory.
    Null,
    /// The memory returned by the name query that succeeded.
    DeviceNameMemory,
    /// The memory returned by the location query.
    LocationMemory,
}

/// The names the device context keeps for log messages, each with the
/// memory that holds it (null for a fixed text).
#[derive(Clone, Copy, Debug, PartialEq, Eq)]
pub struct DeviceLoggingNames {
    pub device_name: LoggingText,
    pub device_name_memory: MemoryHandle,
    pub location: LoggingText,
    pub location_memory: MemoryHandle,
}

/// What the driver does next while it reads the logging names.
#[derive(Clone, Copy, Debug, PartialEq, Eq)]
pub enum LoggingNamesAction {
    /// Query this property (`WdfDeviceAllocAndQueryProperty`), with object
    /// attributes whose parent is the device when `with_parent_attributes`
    /// holds and with no attributes otherwise, and report the status.
    Query { property: DeviceProperty, with_parent_attributes: bool },
    /// Store these names in the device context.
    Done(DeviceLoggingNames),
}

/// Where the driver stands while it reads the logging names.
#[derive(Clone, Copy, Debug, PartialEq, Eq)]
pub struct LoggingNamesState {
    /// The property whose query's status is awaited.
    pub pending: DeviceProperty,
    pub device_name: LoggingText,
    pub device_name_memory: MemoryHandle,
    /// The names have been handed out.
    pub done: bool,
}

/// The state at the start, before the friendly name is queried.
pub open spec fn logging_names_initial_state() -> LoggingNamesState {
    LoggingNamesState {
        pending: DeviceProperty::FriendlyName,
        device_name: LoggingText::ErrorRetrievingName,
        device_name_memory: MemoryHandle::Null,
        done: false,
    }
}

/// One step: the pending query reported `status`. The friendly name is tried
/// first and the device description only when it fails; then the location
/// is queried and the names are done.
pub open spec fn logging_names_transition(state: LoggingNamesState, status: i32) -> (
    LoggingNamesState,
    LoggingNamesAction,
) {
    let ok = spec_nt_success(status);
    let query_location = LoggingNamesAction::Query {
        property: DeviceProperty::LocationInformation,
        with_parent_attributes: false,
    };
    match state.pending {
        DeviceProperty::FriendlyName => if ok {
            (
                LoggingNamesState {
                    pending: DeviceProperty::LocationInformation,
                    device_name: LoggingText::Property(DeviceProperty::FriendlyName),
                    device_name_memory: MemoryHandle::DeviceNameMemory,
                    done: false,
                },
                query_location,
            )
        } else {
            (
                LoggingNamesState { pending: DeviceProperty::DeviceDescription, ..state },
                LoggingNamesAction::Query {
                    property: DeviceProperty::DeviceDescription,
                    with_parent_attributes: true,
                },
            )
        },
        DeviceProperty::DeviceDescription => (
            LoggingNamesState {
                pending: DeviceProperty::LocationInformation,
                device_name: if ok {
                    LoggingText::Property(DeviceProperty::DeviceDescription)
                } else {
                    LoggingText::ErrorRetrievingName
                },
                device_name_memory: if ok {
                    MemoryHandle::DeviceNameMemory
                } else {
                    MemoryHandle::Null
                },
                done: false,
            },
            query_location,
        ),
        DeviceProperty::LocationInformation => (
            LoggingNamesState { done: true, ..state },
            LoggingNamesAction::Done(
                DeviceLoggingNames {
                    device_name: state.device_name,
                    device_name_memory: state.device_name_memory,
                    location: if ok {
                        LoggingText::Property(DeviceProperty::LocationInformation)
                    } else {
                        LoggingText::ErrorRetrievingLocation
                    },
                    location_memory: if ok {
                        MemoryHandle::LocationMemory
                    } else {
                        MemoryHandle::Null
                    },
                },
            ),
        ),
    }
}

/// Starts reading the logging names: the friendly name is queried first.
pub fn get_device_logging_names_start() -> (start: (LoggingNamesState, LoggingNamesAction))
    ensures
        start.0 == logging_names_initial_state(),
        start.1 == (LoggingNamesAction::Query {
            property: DeviceProperty::FriendlyName,
            with_parent_attributes: true,
        }),
{
    (
        LoggingNamesState {
            pending: DeviceProperty::FriendlyName,
            device_name: LoggingText::ErrorRetrievingName,
            device_name_memory: MemoryHandle::Null,
            done: false,
        },
        LoggingNamesAction::Query { property: DeviceProperty::FriendlyName, with_parent_attributes: true },
    )
}

/// Takes the status of the pending query and says what the driver does next.
pub fn get_device_logging_names_step(state: &mut LoggingNamesState, status: i32) -> (action:
    LoggingNamesAction)
    requires
        !old(state).done,
    ensures
        (*final(state), action) == logging_names_transition(*old(state), status),
{
    let ok = nt_success(status);
    let query_location = LoggingNamesAction::Query {
        property: DeviceProperty::LocationInformation,
        with_parent_attributes: false,
    };
    match state.pending {
        DeviceProperty::FriendlyName => {
            if ok {
                state.pending = DeviceProperty::LocationInformation;
                state.device_name = LoggingText::Property(DeviceProperty::FriendlyName);
                state.device_name_memory = MemoryHandle::DeviceNameMemory;
                query_location
            } else {
                state.pending = DeviceProperty::DeviceDescription;
                LoggingNamesAction::Query {
                    property: DeviceProperty::DeviceDescription,
                    with_parent_attributes: true,
                }
            }
        },
        DeviceProperty::DeviceDescription => {
            state.pending = DeviceProperty::LocationInformation;
            if ok {
                state.device_name = LoggingText::Property(DeviceProperty::DeviceDescription);
                state.device_name_memory = MemoryHandle::DeviceNameMemory;
            } else {
                state.device_name = LoggingText::ErrorRetrievingName;
                state.device_name_memory = MemoryHandle::Null;
            }
            query_location
        },
        DeviceProperty::LocationInformation => {
            state.done = true;
            let (location, location_memory) = if ok {
                (
                    LoggingText::Property(DeviceProperty::LocationInformation),
                    MemoryHandle::LocationMemory,
                )
            } else {
                (LoggingText::ErrorRetrievingLocation, MemoryHandle::Null)
            };
            LoggingNamesAction::Done(
                DeviceLoggingNames {
                    device_name: state.device_name,
                    device_name_memory: state.device_name_memory,
                    location: location,
                    location_memory: location_memory,
                },
            )
        },
    }
}

/// The names kept when the friendly-name, device-description and location
/// queries succeed as given.
pub open spec fn expected_logging_names(
    friendly_name_ok: bool,
    description_ok: bool,
    location_ok: bool,
) -> DeviceLoggingNames {
    let name_ok = friendly_name_ok || description_ok;
    DeviceLoggingNames {
        device_name: if friendly_name_ok {
            LoggingText::Property(DeviceProperty::FriendlyName)
        } else if description_ok {
            LoggingText::Property(DeviceProperty::DeviceDescription)
        } else {
            LoggingText::ErrorRetrievingName
        },
        device_name_memory: if name_ok {
            MemoryHandle::DeviceNameMemory
        } else {
            MemoryHandle::Null
        },
        location: if location_ok {
            LoggingText::Property(DeviceProperty::LocationInformation)
        } else {
            LoggingText::ErrorRetrievingLocation
        },
        location_memory: if location_ok {
            MemoryHandle::LocationMemory
        } else {
            MemoryHandle::Null
        },
    }
}

/// Reading the logging names: the device description is queried only when
/// the friendly name fails, the location always, and the names kept are the
/// first name that could be read (or the error text) and the location (or
/// its error text).
pub proof fn law_logging_names(friendly_name: i32, description: i32, location: i32)
    ensures
        ({
            let (after_name, first) = logging_names_transition(
                logging_names_initial_state(),
                friendly_name,
            );
            if spec_nt_success(friendly_name) {
                &&& first == (LoggingNamesAction::Query {
                    property: DeviceProperty::LocationInformation,
                    with_parent_attributes: false,
                })
                &&& logging_names_transition(after_name, location).1 == LoggingNamesAction::Done(
                    expected_logging_names(true, false, spec_nt_success(location)),
                )
            } else {
                let (after_description, second) = logging_names_transition(after_name, description);
                &&& first == (LoggingNamesAction::Query {
                    property: DeviceProperty::DeviceDescription,
                    with_parent_attributes: true,
                })
                &&& second == (LoggingNamesAction::Query {
                    property: DeviceProperty::LocationInformation,
                    with_parent_attributes: false,
                })
                &&& logging_names_transition(after_description, location).1
                    == LoggingNamesAction::Done(
                    expected_logging_names(
                        false,
                        spec_nt_success(description),
                        spec_nt_success(location),
                    ),
                )
            }
        }),
{
}

} // verus!

verus! {

/// The device's capabilities: the defaults, but with surprise removal
/// allowed, so that users get no warning when they unplug the board.
pub open spec fn spec_device_pnp_capabilities(size: u32) -> WdfDevicePnpCapabilities {
    WdfDevicePnpCapabilities { surprise_removal_ok: WdfTriState::True, ..initial_pnp_capabilities(size) }
}

/// The capabilities passed with `SetPnpCapabilities`. `struct_size` is the
/// size of `WDF_DEVICE_PNP_CAPABILITIES`.
pub fn device_pnp_capabilities(struct_size: usize) -> (caps: WdfDevicePnpCapabilities)
    requires
        struct_size < u32::MAX,
    ensures
        caps == spec_device_pnp_capabilities(struct_size as u32),
{
    let mut caps = WdfDevicePnpCapabilities {
        size: 0,
        lock_supported: WdfTriState::False,
        eject_supported: WdfTriState::False,
        removable: WdfTriState::False,
        dock_device: WdfTriState::False,
        unique_id: WdfTriState::False,
        silent_install: WdfTriState::False,
        surprise_removal_ok: WdfTriState::False,
        hardware_disabled: WdfTriState::False,
        no_display_in_ui: WdfTriState::False,
        address: 0,
        ui_number: 0,
    };
    wdf_device_pnp_capabilities_init(&mut caps, struct_size);
    caps.surprise_removal_ok = WdfTriState::True;
    caps
}

/// The driver's request callbacks: device controls, reads and the read
/// queue's stop, writes and the write queue's stop.
#[derive(Clone, Copy, Debug, PartialEq, Eq)]
pub struct QueueCallbacks<Io, Ctl, Stop> {
    pub device_control: Ctl,
    pub read: Io,
    pub read_stop: Stop,
    pub write: Io,
    pub write_stop: Stop,
}

/// The queues the driver creates for a device.
#[derive(Clone, Copy, Debug, PartialEq, Eq)]
pub enum DeviceQueue {
    /// The parallel default queue, for device controls.
    Default,
    /// The sequential queue for reads.
    Read,
    /// The sequential queue for writes.
    Write,
    /// The manual queue that parks interrupt-message requests.
    InterruptMessage,
}

/// The kinds of request the driver sends to a queue of its own.
#[derive(Clone, Copy, Debug, PartialEq, Eq)]
pub enum WdfRequestType {
    Read,
    Write,
}

/// The queue a call creates, if it creates one.
pub open spec fn spec_device_add_created_queue(call: DeviceAddCall) -> Option<DeviceQueue> {
    match call {
        DeviceAddCall::CreateDefaultQueue => Some(DeviceQueue::Default),
        DeviceAddCall::CreateReadQueue => Some(DeviceQueue::Read),
        DeviceAddCall::CreateWriteQueue => Some(DeviceQueue::Write),
        DeviceAddCall::CreateInterruptMessageQueue => Some(DeviceQueue::InterruptMessage),
        _ => None,
    }
}

/// The queue a call creates, or `None` when it creates none.
pub fn device_add_created_queue(call: DeviceAddCall) -> (queue: Option<DeviceQueue>)
    ensures
        queue == spec_device_add_created_queue(call),
{
    match call {
        DeviceAddCall::CreateDefaultQueue => Some(DeviceQueue::Default),
        DeviceAddCall::CreateReadQueue => Some(DeviceQueue::Read),
        DeviceAddCall::CreateWriteQueue => Some(DeviceQueue::Write),
        DeviceAddCall::CreateInterruptMessageQueue => Some(DeviceQueue::InterruptMessage),
        _ => None,
    }
}

/// The dispatching a call configures: read requests to the read queue,
/// write requests to the write queue.
pub open spec fn spec_device_add_dispatching(call: DeviceAddCall) -> Option<
    (DeviceQueue, WdfRequestType),
> {
    match call {
        DeviceAddCall::ConfigureReadDispatching => Some((DeviceQueue::Read, WdfRequestType::Read)),
        DeviceAddCall::ConfigureWriteDispatching => Some(
            (DeviceQueue::Write, WdfRequestType::Write),
        ),
        _ => None,
    }
}

/// The queue and request type a call passes to
/// `WdfDeviceConfigureRequestDispatching`, or `None` for another call.
pub fn device_add_dispatching(call: DeviceAddCall) -> (dispatching: Option<
    (DeviceQueue, WdfRequestType),
>)
    ensures
        dispatching == spec_device_add_dispatching(call),
{
    match call {
        DeviceAddCall::ConfigureReadDispatching => Some((DeviceQueue::Read, WdfRequestType::Read)),
        DeviceAddCall::ConfigureWriteDispatching => Some(
            (DeviceQueue::Write, WdfRequestType::Write),
        ),
        _ => None,
    }
}

/// The queue a dispatching call sends requests to.
pub open spec fn dispatching_queue(call: DeviceAddCall) -> Option<DeviceQueue> {
    match spec_device_add_dispatching(call) {
        Some((queue, _)) => Some(queue),
        None => None,
    }
}

/// Every dispatching call names a queue created earlier in the sequence.
pub proof fn law_dispatching_follows_queue_creation(
    property_routine_available: bool,
    position: int,
)
    requires
        0 <= position < device_add_calls(property_routine_available).len(),
        spec_device_add_dispatching(device_add_calls(property_routine_available)[position]) is Some,
    ensures
        exists|earlier: int|
            0 <= earlier < position && spec_device_add_created_queue(
                #[trigger] device_add_calls(property_routine_available)[earlier],
            ) == dispatching_queue(device_add_calls(property_routine_available)[position]),
{
    let calls = device_add_calls(property_routine_available);
    if position == 5 {
        assert(spec_device_add_created_queue(calls[4]) == Some(DeviceQueue::Read));
    } else {
        assert(position == 7);
        assert(spec_device_add_created_queue(calls[6]) == Some(DeviceQueue::Write));
    }
}

/// The configuration of the queue that a queue-creating call creates: a
/// parallel default queue for device controls, sequential queues for reads
/// (with the read and read-stop callbacks) and for writes (with the write and
/// write-stop callbacks), and a manual queue, without callbacks and not
/// power-managed, that parks interrupt-message requests.
pub open spec fn spec_device_add_queue_config<Io, Ctl, Stop>(
    call: DeviceAddCall,
    callbacks: QueueCallbacks<Io, Ctl, Stop>,
    size: u32,
) -> Option<WdfIoQueueConfig<Io, Ctl, Stop>> {
    match call {
        DeviceAddCall::CreateDefaultQueue => Some(
            WdfIoQueueConfig {
                evt_io_device_control: Some(callbacks.device_control),
                ..initial_io_queue_config(size, WdfIoQueueDispatchType::Parallel, true)
            },
        ),
        DeviceAddCall::CreateReadQueue => Some(
            WdfIoQueueConfig {
                evt_io_read: Some(callbacks.read),
                evt_io_stop: Some(callbacks.read_stop),
                ..initial_io_queue_config(size, WdfIoQueueDispatchType::Sequential, false)
            },
        ),
        DeviceAddCall::CreateWriteQueue => Some(
            WdfIoQueueConfig {
                evt_io_write: Some(callbacks.write),
                evt_io_stop: Some(callbacks.write_stop),
                ..initial_io_queue_config(size, WdfIoQueueDispatchType::Sequential, false)
            },
        ),
        DeviceAddCall::CreateInterruptMessageQueue => Some(
            WdfIoQueueConfig {
                power_managed: WdfTriState::False,
                ..initial_io_queue_config(size, WdfIoQueueDispatchType::Manual, false)
            },
        ),
        _ => None,
    }
}

/// The queue configuration for `call`, or `None` when `call` creates no
/// queue. `struct_size` is the size of `WDF_IO_QUEUE_CONFIG`.
pub fn device_add_queue_config<Io: Copy, Ctl: Copy, Stop: Copy>(
    call: DeviceAddCall,
    callbacks: QueueCallbacks<Io, Ctl, Stop>,
    struct_size: usize,
) -> (config: Option<WdfIoQueueConfig<Io, Ctl, Stop>>)
    requires
        struct_size <= u32::MAX,
    ensures
        config == spec_device_add_queue_config(call, callbacks, struct_size as u32),
{
    let mut config: WdfIoQueueConfig<Io, Ctl, Stop> = WdfIoQueueConfig {
        size: 0,
        dispatch_type: WdfIoQueueDispatchType::Invalid,
        power_managed: WdfTriState::False,
        allow_zero_length_requests: false,
        default_queue: false,
        evt_io_read: None,
        evt_io_write: None,
        evt_io_device_control: None,
        evt_io_internal_device_control: None,
        evt_io_stop: None,
        number_of_presented_requests: 0,
    };
    match call {
        DeviceAddCall::CreateDefaultQueue => {
            wdf_io_queue_config_init_default_queue(
                &mut config,
                WdfIoQueueDispatchType::Parallel,
                struct_size,
            );
            config.evt_io_device_control = Some(callbacks.device_control);
            Some(config)
        },
        DeviceAddCall::CreateReadQueue => {
            wdf_io_queue_config_init(&mut config, WdfIoQueueDispatchType::Sequential, struct_size);
            config.evt_io_read = Some(callbacks.read);
            config.evt_io_stop = Some(callbacks.read_stop);
            Some(config)
        },
        DeviceAddCall::CreateWriteQueue => {
            wdf_io_queue_config_init(&mut config, WdfIoQueueDispatchType::Sequential, struct_size);
            config.evt_io_write = Some(callbacks.write);
            config.evt_io_stop = Some(callbacks.write_stop);
            Some(config)
        },
        DeviceAddCall::CreateInterruptMessageQueue => {
            wdf_io_queue_config_init(&mut config, WdfIoQueueDispatchType::Manual, struct_size);
            config.power_managed = WdfTriState::False;
            Some(config)
        },
        _ => None,
    }
}

/// Sets up the attributes of an object the device owns (the memory of its
/// logging names, its reset lock): initialised, with the device as parent.
/// Where `struct_size`, the size of `WDF_OBJECT_ATTRIBUTES`, does not fit in a
/// `u32`, the attributes are left as they were.
pub fn device_child_attributes<C>(
    attributes: &mut WdfObjectAttributes<C>,
    device: usize,
    struct_size: usize,
) -> (result: Result<(), WDFError>)
    ensures
        struct_size <= u32::MAX ==> result is Ok && *final(attributes) == (WdfObjectAttributes {
            parent_object: device,
            ..initial_object_attributes::<C>(struct_size as u32)
        }),
        struct_size > u32::MAX ==> (result matches Err(WDFError::UsizeMismatchError)),
        struct_size > u32::MAX ==> *final(attributes) == *old(attributes),
{
    let result = wdf_object_attributes_init(attributes, struct_size);
    match result {
        Ok(()) => {
            attributes.parent_object = device;
            Ok(())
        },
        Err(e) => Err(e),
    }
}

/// The attributes passed to `WdfDeviceCreate`: the size of
/// `WDF_OBJECT_ATTRIBUTES` (cut to 32 bits), execution level and
/// synchronisation scope inherited from the parent, and the device context's
/// type information at `context_type_info`; everything else zero.
pub fn device_create_attributes<C>(context_type_info: usize, struct_size: usize) -> (attributes:
    WdfObjectAttributes<C>)
    ensures
        attributes == (WdfObjectAttributes {
            context_type_info: context_type_info,
            ..initial_object_attributes::<C>(struct_size as u32)
        }),
{
    WdfObjectAttributes {
        size: struct_size as u32,
        evt_cleanup_callback: None,
        evt_destroy_callback: None,
        execution_level: WdfExecutionLevel::InheritFromParent,
        synchronization_scope: WdfSynchronizationScope::InheritFromParent,
        parent_object: 0,
        context_size_override: 0,
        context_type_info: context_type_info,
    }
}

/// Size in bytes of a `DEVPROP_BOOLEAN`, the restricted property's value.
pub const DEVPROP_BOOLEAN_SIZE: u32 = 1;

/// A property of the device interface that the driver sets.
#[derive(Clone, Copy, Debug, PartialEq, Eq)]
pub enum InterfacePropertyKey {
    /// `DEVPKEY_DeviceInterface_Restricted`.
    Restricted,
    /// `DEVPKEY_DeviceInterface_UnrestrictedAppCapabilities`.
    UnrestrictedAppCapabilities,
}

/// The value of an interface property, with its `DEVPROPTYPE`.
#[derive(Clone, Debug, PartialEq, Eq)]
pub enum InterfacePropertyData {
    /// `DEVPROP_TYPE_BOOLEAN`.
    Boolean(i8),
    /// `DEVPROP_TYPE_STRING_LIST`: UTF-16 units, each string nul-terminated.
    StringList(Vec<u16>),
}

/// What `IoSetDeviceInterfacePropertyData` is given: the key, the value,
/// and the value's size in bytes.
#[derive(Clone, Debug, PartialEq, Eq)]
pub struct InterfaceProperty {
    pub key: InterfacePropertyKey,
    pub data: InterfacePropertyData,
    pub size: u32,
}

/// The custom capability that lets a store app reach the interface.
pub open spec fn custom_capability_name() -> Seq<char> {
    "microsoft.hsaTestCustomCapability_q536wpkpf5cy2"@
}

/// The UTF-16 units of the custom capability, without the terminating nul.
pub fn custom_capabilities() -> (units: Vec<u16>)
    ensures
        units@ == utf16_encode(custom_capability_name()),
        units.len() == 47,
{
    let name = "microsoft.hsaTestCustomCapability_q536wpkpf5cy2";
    proof {
        reveal_strlit("microsoft.hsaTestCustomCapability_q536wpkpf5cy2");
        assert(name@.len() == 47);
        assert(forall|i: int| 0 <= i < name@.len() ==> 0 < (#[trigger] name@[i] as int) < 0x80);
        assert(nul_only_at_end(name@));
        lemma_utf16_encode_len_bmp(name@);
    }
    match wide_string_units(name) {
        Some(units) => units,
        None => Vec::new(),
    }
}

/// The size in bytes of a string-list property holding `units` UTF-16 units
/// and their terminating nul.
pub fn string_list_property_size(units: usize) -> (size: u32)
    requires
        (units + 1) * 2 <= u32::MAX,
    ensures
        size == (units + 1) * 2,
{
    ((units + 1) * 2) as u32
}

/// The property a property-setting call sets: the interface is marked
/// restricted (`DEVPROP_TRUE`), so that only applications bound by device
/// metadata reach it, and the custom capability is listed as the one that
/// lets store apps reach it anyway; `None` for another call.
pub fn device_add_interface_property(call: DeviceAddCall) -> (property: Option<InterfaceProperty>)
    ensures
        call == DeviceAddCall::SetRestrictedProperty ==> property == Some(
            InterfaceProperty {
                key: InterfacePropertyKey::Restricted,
                data: InterfacePropertyData::Boolean(DEVPROP_TRUE),
                size: DEVPROP_BOOLEAN_SIZE,
            },
        ),
        call == DeviceAddCall::SetCustomCapabilities ==> (property matches Some(p) && p.key
            == InterfacePropertyKey::UnrestrictedAppCapabilities && p.size == 96 && (
        p.data matches InterfacePropertyData::StringList(units) && units@ == utf16_encode(
            custom_capability_name(),
        ).push(0u16))),
        call != DeviceAddCall::SetRestrictedProperty && call != DeviceAddCall::SetCustomCapabilities
            ==> property is None,
{
    match call {
        DeviceAddCall::SetRestrictedProperty => Some(
            InterfaceProperty {
                key: InterfacePropertyKey::Restricted,
                data: InterfacePropertyData::Boolean(DEVPROP_TRUE),
                size: DEVPROP_BOOLEAN_SIZE,
            },
        ),
        DeviceAddCall::SetCustomCapabilities => {
            let mut units = custom_capabilities();
            let size = string_list_property_size(units.len());
            units.push(0);
            Some(
                InterfaceProperty {
                    key: InterfacePropertyKey::UnrestrictedAppCapabilities,
                    data: InterfacePropertyData::StringList(units),
                    size: size,
                },
            )
        },
        _ => None,
    }
}

} // verus!

verus! {

/// Every call that creates or configures a framework object or sets an
/// interface property decides the outcome: when it is the first call to
/// fail, adding the device ends there with its status. Only reading the
/// logging names, setting the capabilities, reading the link's name and
/// deleting the link's string report no status.
pub proof fn law_device_add_fails_at_every_framework_call(
    property_routine_available: bool,
    statuses: Seq<i32>,
    position: int,
)
    requires
        statuses.len() >= device_add_calls(property_routine_available).len(),
        0 <= position < device_add_calls(property_routine_available).len(),
        device_add_calls(property_routine_available)[position] != DeviceAddCall::QueryLoggingNames,
        device_add_calls(property_routine_available)[position] != DeviceAddCall::SetPnpCapabilities,
        device_add_calls(property_routine_available)[position] != DeviceAddCall::GetSymbolicLinkName,
        device_add_calls(property_routine_available)[position]
            != DeviceAddCall::DeleteSymbolicLinkString,
        forall|j: int| 0 <= j < position ==> #[trigger] statuses[j] >= 0,
        statuses[position] < 0,
    ensures
        device_add_run(device_add_initial_state(property_routine_available), statuses) == Some(
            DeviceAddAction::Fail {
                call: device_add_calls(property_routine_available)[position],
                status: statuses[position],
            },
        ),
{
    let calls = device_add_calls(property_routine_available);
    law_device_add_stops_at_first_failure(property_routine_available, statuses);
    lemma_first_failed_call(calls, statuses, 0);
    assert(status_checked(calls[position]));
    match first_failed_call(calls, statuses, 0) {
        Some(i) => {
            if i < position {
                assert(statuses[i] >= 0);
            } else if i > position {
                assert(status_checked(calls[position]) ==> spec_nt_success(statuses[position]));
            }
        },
        None => {
            assert(status_checked(calls[position]) ==> spec_nt_success(statuses[position]));
        },
    }
}

/// When every call that reports a status succeeds, adding the device
/// completes with the status of the wait-lock creation, whatever the calls
/// that report no status gave.
pub proof fn law_device_add_completes_when_framework_calls_succeed(
    property_routine_available: bool,
    statuses: Seq<i32>,
)
    requires
        statuses.len() >= device_add_calls(property_routine_available).len(),
        forall|i: int|
            0 <= i < device_add_calls(property_routine_available).len() && (
            #[trigger] device_add_calls(property_routine_available)[i])
                != DeviceAddCall::QueryLoggingNames && device_add_calls(
                property_routine_available,
            )[i] != DeviceAddCall::SetPnpCapabilities && device_add_calls(
                property_routine_available,
            )[i] != DeviceAddCall::GetSymbolicLinkName && device_add_calls(
                property_routine_available,
            )[i] != DeviceAddCall::DeleteSymbolicLinkString ==> statuses[i] >= 0,
    ensures
        device_add_calls(property_routine_available)[RESET_LOCK_POSITION as int]
            == DeviceAddCall::CreateResetDeviceWaitLock,
        device_add_run(device_add_initial_state(property_routine_available), statuses) == Some(
            DeviceAddAction::Complete { status: statuses[RESET_LOCK_POSITION as int] },
        ),
{
    let calls = device_add_calls(property_routine_available);
    law_device_add_stops_at_first_failure(property_routine_available, statuses);
    lemma_first_failed_call(calls, statuses, 0);
    assert forall|i: int| 0 <= i < calls.len() implies (status_checked(#[trigger] calls[i])
        ==> spec_nt_success(statuses[i])) by {
        if status_checked(calls[i]) {
            assert(calls[i] != DeviceAddCall::QueryLoggingNames);
        }
    }
}

/// The queues a device gets: only the parallel queue for device controls is
/// the default queue; reads and writes each get a sequential queue with
/// their own callback and stop callback; only the manual interrupt-message
/// queue is kept out of power management, the others leave it to the
/// framework; no other call creates a queue.
pub proof fn law_device_add_queues<Io, Ctl, Stop>(
    call: DeviceAddCall,
    callbacks: QueueCallbacks<Io, Ctl, Stop>,
    size: u32,
)
    ensures
        spec_device_add_queue_config(call, callbacks, size) is Some <==> (call
            == DeviceAddCall::CreateDefaultQueue || call == DeviceAddCall::CreateReadQueue || call
            == DeviceAddCall::CreateWriteQueue || call
            == DeviceAddCall::CreateInterruptMessageQueue),
        spec_device_add_queue_config(call, callbacks, size) matches Some(q) ==> {
            &&& q.size == size
            &&& q.default_queue <==> call == DeviceAddCall::CreateDefaultQueue
            &&& (q.power_managed == WdfTriState::False) <==> call
                == DeviceAddCall::CreateInterruptMessageQueue
            &&& call != DeviceAddCall::CreateInterruptMessageQueue ==> q.power_managed
                == WdfTriState::UseDefault
            &&& (q.dispatch_type == WdfIoQueueDispatchType::Parallel) <==> call
                == DeviceAddCall::CreateDefaultQueue
            &&& (q.dispatch_type == WdfIoQueueDispatchType::Manual) <==> call
                == DeviceAddCall::CreateInterruptMessageQueue
            &&& (q.dispatch_type == WdfIoQueueDispatchType::Sequential) <==> (call
                == DeviceAddCall::CreateReadQueue || call == DeviceAddCall::CreateWriteQueue)
            &&& q.evt_io_device_control == (if call == DeviceAddCall::CreateDefaultQueue {
                Some(callbacks.device_control)
            } else {
                None
            })
            &&& q.evt_io_read == (if call == DeviceAddCall::CreateReadQueue {
                Some(callbacks.read)
            } else {
                None
            })
            &&& q.evt_io_write == (if call == DeviceAddCall::CreateWriteQueue {
                Some(callbacks.write)
            } else {
                None
            })
            &&& q.evt_io_stop == (if call == DeviceAddCall::CreateReadQueue {
                Some(callbacks.read_stop)
            } else if call == DeviceAddCall::CreateWriteQueue {
                Some(callbacks.write_stop)
            } else {
                None
            })
            &&& q.evt_io_internal_device_control is None
            &&& !q.allow_zero_length_requests
            &&& q.number_of_presented_requests == (if call == DeviceAddCall::CreateDefaultQueue {
                u32::MAX
            } else {
                0
            })
        },
{
}

/// The device's capabilities are the framework's defaults in every field,
/// but surprise removal, which is allowed.
pub proof fn law_device_pnp_capabilities(size: u32)
    ensures
        spec_device_pnp_capabilities(size).size == size,
        spec_device_pnp_capabilities(size).surprise_removal_ok == WdfTriState::True,
        spec_device_pnp_capabilities(size).lock_supported == WdfTriState::UseDefault,
        spec_device_pnp_capabilities(size).eject_supported == WdfTriState::UseDefault,
        spec_device_pnp_capabilities(size).removable == WdfTriState::UseDefault,
        spec_device_pnp_capabilities(size).dock_device == WdfTriState::UseDefault,
        spec_device_pnp_capabilities(size).unique_id == WdfTriState::UseDefault,
        spec_device_pnp_capabilities(size).silent_install == WdfTriState::UseDefault,
        spec_device_pnp_capabilities(size).hardware_disabled == WdfTriState::UseDefault,
        spec_device_pnp_capabilities(size).no_display_in_ui == WdfTriState::UseDefault,
        spec_device_pnp_capabilities(size).address == u32::MAX,
        spec_device_pnp_capabilities(size).ui_number == u32::MAX,
{
}

} // verus!
