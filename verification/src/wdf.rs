//! The WDF configuration records that the driver fills in before it hands
//! them to the framework, and the functions that set them to their defaults.
//!
//! Each record holds the framework structure's fields as plain values:
//! callbacks are generic, object handles and pointers are addresses (`0` is
//! null), and the structure's size, which only the framework's headers know,
//! is passed in by the caller.
use vstd::prelude::*;

verus! {

/// Errors of the WDF initialisation helpers.
#[derive(Debug)]
pub enum WDFError {
    /// The size of a framework structure does not fit in its `u32` size field.
    UsizeMismatchError,
}

/// `WDF_EXECUTION_LEVEL`; all-zero memory reads as `Invalid`.
#[derive(Clone, Copy, Debug, PartialEq, Eq)]
pub enum WdfExecutionLevel {
    Invalid,
    InheritFromParent,
    Passive,
    Dispatch,
}

/// `WDF_SYNCHRONIZATION_SCOPE`; all-zero memory reads as `Invalid`.
#[derive(Clone, Copy, Debug, PartialEq, Eq)]
pub enum WdfSynchronizationScope {
    Invalid,
    InheritFromParent,
    Device,
    Queue,
    ScopeNone,
}

/// `WDF_TRI_STATE`; all-zero memory reads as `False`.
#[derive(Clone, Copy, Debug, PartialEq, Eq)]
pub enum WdfTriState {
    False,
    True,
    UseDefault,
}

/// `WDF_IO_QUEUE_DISPATCH_TYPE`; all-zero memory reads as `Invalid`.
#[derive(Clone, Copy, Debug, PartialEq, Eq)]
pub enum WdfIoQueueDispatchType {
    Invalid,
    Sequential,
    Parallel,
    Manual,
}

/// `WDF_DRIVER_CONFIG`, with the add-device callback of type `A` and the
/// unload callback of type `U`.
pub struct WdfDriverConfig<A, U> {
    pub size: u32,
    pub evt_driver_device_add: Option<A>,
    pub evt_driver_unload: Option<U>,
    pub driver_init_flags: u32,
    pub driver_pool_tag: u32,
}

/// `WDF_OBJECT_ATTRIBUTES`, with cleanup and destroy callbacks of type `C`.
pub struct WdfObjectAttributes<C> {
    pub size: u32,
    pub evt_cleanup_callback: Option<C>,
    pub evt_destroy_callback: Option<C>,
    pub execution_level: WdfExecutionLevel,
    pub synchronization_scope: WdfSynchronizationScope,
    /// Address of the parent object's handle, `0` for none.
    pub parent_object: usize,
    pub context_size_override: usize,
    /// Address of the context type information, `0` for none.
    pub context_type_info: usize,
}

/// `WDF_DEVICE_PNP_CAPABILITIES`.
#[derive(Clone, Copy, Debug, PartialEq, Eq)]
pub struct WdfDevicePnpCapabilities {
    pub size: u32,
    pub lock_supported: WdfTriState,
    pub eject_supported: WdfTriState,
    pub removable: WdfTriState,
    pub dock_device: WdfTriState,
    pub unique_id: WdfTriState,
    pub silent_install: WdfTriState,
    pub surprise_removal_ok: WdfTriState,
    pub hardware_disabled: WdfTriState,
    pub no_display_in_ui: WdfTriState,
    pub address: u32,
    pub ui_number: u32,
}

/// `WDF_IO_QUEUE_CONFIG`, with read and write callbacks of type `Io`,
/// device-control callbacks of type `Ctl` and the stop callback of type
/// `Stop`. The default, resume and cancel callbacks, which this driver never
/// sets, are not held: they stay null.
#[derive(Clone, Copy, Debug, PartialEq, Eq)]
pub struct WdfIoQueueConfig<Io, Ctl, Stop> {
    pub size: u32,
    pub dispatch_type: WdfIoQueueDispatchType,
    pub power_managed: WdfTriState,
    pub allow_zero_length_requests: bool,
    pub default_queue: bool,
    pub evt_io_read: Option<Io>,
    pub evt_io_write: Option<Io>,
    pub evt_io_device_control: Option<Ctl>,
    pub evt_io_internal_device_control: Option<Ctl>,
    pub evt_io_stop: Option<Stop>,
    /// `Settings.Parallel.NumberOfPresentedRequests`.
    pub number_of_presented_requests: u32,
}

/// The driver configuration after initialisation: all zero but for its size
/// and the add-device callback.
pub open spec fn initial_driver_config<A, U>(size: u32, device_add: Option<A>) -> WdfDriverConfig<
    A,
    U,
> {
    WdfDriverConfig {
        size: size,
        evt_driver_device_add: device_add,
        evt_driver_unload: None,
        driver_init_flags: 0,
        driver_pool_tag: 0,
    }
}

/// Initialises a driver configuration and assigns the add-device callback.
/// `struct_size` is the size of `WDF_DRIVER_CONFIG`, which must fit in a
/// `u32`.
pub fn wdf_driver_config_init<A, U>(
    config: &mut WdfDriverConfig<A, U>,
    device_add: Option<A>,
    struct_size: usize,
)
    requires
        struct_size <= u32::MAX,
    ensures
        *final(config) == initial_driver_config::<A, U>(struct_size as u32, device_add),
{
    *config = WdfDriverConfig {
        size: 0,
        evt_driver_device_add: None,
        evt_driver_unload: None,
        driver_init_flags: 0,
        driver_pool_tag: 0,
    };
    config.size = struct_size as u32;
    config.evt_driver_device_add = device_add;
}

/// Object attributes after initialisation: all zero but for the size and
/// the execution level and synchronisation scope, both inherited from the
/// parent.
pub open spec fn initial_object_attributes<C>(size: u32) -> WdfObjectAttributes<C> {
    WdfObjectAttributes {
        size: size,
        evt_cleanup_callback: None,
        evt_destroy_callback: None,
        execution_level: WdfExecutionLevel::InheritFromParent,
        synchronization_scope: WdfSynchronizationScope::InheritFromParent,
        parent_object: 0,
        context_size_override: 0,
        context_type_info: 0,
    }
}

/// Initialises object attributes. `struct_size` is the size of
/// `WDF_OBJECT_ATTRIBUTES`; where it does not fit in a `u32` the attributes
/// are left as they were and the error is returned.
pub fn wdf_object_attributes_init<C>(
    attributes: &mut WdfObjectAttributes<C>,
    struct_size: usize,
) -> (result: Result<(), WDFError>)
    ensures
        struct_size <= u32::MAX ==> result is Ok
            && *final(attributes) == initial_object_attributes::<C>(struct_size as u32),
        struct_size > u32::MAX ==> (result matches Err(WDFError::UsizeMismatchError)),
        struct_size > u32::MAX ==> *final(attributes) == *old(attributes),
{
    let attribute_size = match u32::try_from(struct_size) {
        Ok(size) => size,
        Err(_) => {
            return Err(WDFError::UsizeMismatchError);
        },
    };
    *attributes = WdfObjectAttributes {
        size: 0,
        evt_cleanup_callback: None,
        evt_destroy_callback: None,
        execution_level: WdfExecutionLevel::Invalid,
        synchronization_scope: WdfSynchronizationScope::Invalid,
        parent_object: 0,
        context_size_override: 0,
        context_type_info: 0,
    };
    attributes.size = attribute_size;
    attributes.execution_level = WdfExecutionLevel::InheritFromParent;
    attributes.synchronization_scope = WdfSynchronizationScope::InheritFromParent;
    Ok(())
}

/// Device capabilities after initialisation: every tri-state left to the
/// default, and no address or UI number (`u32::MAX`).
pub open spec fn initial_pnp_capabilities(size: u32) -> WdfDevicePnpCapabilities {
    WdfDevicePnpCapabilities {
        size: size,
        lock_supported: WdfTriState::UseDefault,
        eject_supported: WdfTriState::UseDefault,
        removable: WdfTriState::UseDefault,
        dock_device: WdfTriState::UseDefault,
        unique_id: WdfTriState::UseDefault,
        silent_install: WdfTriState::UseDefault,
        surprise_removal_ok: WdfTriState::UseDefault,
        hardware_disabled: WdfTriState::UseDefault,
        no_display_in_ui: WdfTriState::UseDefault,
        address: u32::MAX,
        ui_number: u32::MAX,
    }
}

/// Initialises device capabilities. `struct_size` is the size of
/// `WDF_DEVICE_PNP_CAPABILITIES`, which must be below `u32::MAX`.
pub fn wdf_device_pnp_capabilities_init(caps: &mut WdfDevicePnpCapabilities, struct_size: usize)
    requires
        struct_size < u32::MAX,
    ensures
        *final(caps) == initial_pnp_capabilities(struct_size as u32),
{
    *caps = WdfDevicePnpCapabilities {
        size: 0,
        lock_supported: WdfTriState::False,
        eject_supported: WdfTriState::False,
        removable: WdfTriState::False,
        dock_device: WdfTriState::False,
        unique_id: WdfTriState::False,
        silent_install: WdfTriState::False,
        surprise_removal_ok: WdfTriState::False,
        hardware_disabled: WdfTriState::False,
        no_display_in_ui: WdfTriState::False,
        address: 0,
        ui_number: 0,
    };
    caps.size = struct_size as u32;
    caps.lock_supported = WdfTriState::UseDefault;
    caps.eject_supported = WdfTriState::UseDefault;
    caps.removable = WdfTriState::UseDefault;
    caps.dock_device = WdfTriState::UseDefault;
    caps.unique_id = WdfTriState::UseDefault;
    caps.silent_install = WdfTriState::UseDefault;
    caps.surprise_removal_ok = WdfTriState::UseDefault;
    caps.hardware_disabled = WdfTriState::UseDefault;
    caps.no_display_in_ui = WdfTriState::UseDefault;
    caps.address = u32::MAX;
    caps.ui_number = u32::MAX;
}

/// A queue configuration after initialisation: no callbacks, power
/// management left to the default, the given dispatch type, and, for a
/// parallel queue, no limit on the number of requests presented at once.
pub open spec fn initial_io_queue_config<Io, Ctl, Stop>(
    size: u32,
    dispatch_type: WdfIoQueueDispatchType,
    default_queue: bool,
) -> WdfIoQueueConfig<Io, Ctl, Stop> {
    WdfIoQueueConfig {
        size: size,
        dispatch_type: dispatch_type,
        power_managed: WdfTriState::UseDefault,
        allow_zero_length_requests: false,
        default_queue: default_queue,
        evt_io_read: None,
        evt_io_write: None,
        evt_io_device_control: None,
        evt_io_internal_device_control: None,
        evt_io_stop: None,
        number_of_presented_requests: if dispatch_type == WdfIoQueueDispatchType::Parallel {
            u32::MAX
        } else {
            0
        },
    }
}

/// Initialises a queue configuration (`WDF_IO_QUEUE_CONFIG_INIT`).
/// `struct_size` is the size of `WDF_IO_QUEUE_CONFIG`, which must fit in a
/// `u32`.
pub fn wdf_io_queue_config_init<Io, Ctl, Stop>(
    config: &mut WdfIoQueueConfig<Io, Ctl, Stop>,
    dispatch_type: WdfIoQueueDispatchType,
    struct_size: usize,
)
    requires
        struct_size <= u32::MAX,
    ensures
        *final(config) == initial_io_queue_config::<Io, Ctl, Stop>(
            struct_size as u32,
            dispatch_type,
            false,
        ),
{
    *config = WdfIoQueueConfig {
        size: struct_size as u32,
        dispatch_type: dispatch_type,
        power_managed: WdfTriState::UseDefault,
        allow_zero_length_requests: false,
        default_queue: false,
        evt_io_read: None,
        evt_io_write: None,
        evt_io_device_control: None,
        evt_io_internal_device_control: None,
        evt_io_stop: None,
        number_of_presented_requests: 0,
    };
    match dispatch_type {
        WdfIoQueueDispatchType::Parallel => {
            config.number_of_presented_requests = u32::MAX;
        },
        _ => {},
    }
}

/// Initialises the configuration of a device's default queue
/// (`WDF_IO_QUEUE_CONFIG_INIT_DEFAULT_QUEUE`).
pub fn wdf_io_queue_config_init_default_queue<Io, Ctl, Stop>(
    config: &mut WdfIoQueueConfig<Io, Ctl, Stop>,
    dispatch_type: WdfIoQueueDispatchType,
    struct_size: usize,
)
    requires
        struct_size <= u32::MAX,
    ensures
        *final(config) == initial_io_queue_config::<Io, Ctl, Stop>(
            struct_size as u32,
            dispatch_type,
            true,
        ),
{
    wdf_io_queue_config_init(config, dispatch_type, struct_size);
    config.default_queue = true;
}

/// Initialising capabilities forgets what they held: two records
/// initialised with the same size are equal whatever they held before, and
/// initialising an initialised record again changes nothing.
pub proof fn law_pnp_capabilities_init_forgets_contents(
    first_after: WdfDevicePnpCapabilities,
    second_after: WdfDevicePnpCapabilities,
    again: WdfDevicePnpCapabilities,
    struct_size: usize,
)
    requires
        struct_size < u32::MAX,
        first_after == initial_pnp_capabilities(struct_size as u32),
        second_after == initial_pnp_capabilities(struct_size as u32),
        again == initial_pnp_capabilities(struct_size as u32),
    ensures
        first_after == second_after,
        again == first_after,
{
}

/// Initialising object attributes that fit forgets what they held, and
/// initialising them again changes nothing.
pub proof fn law_object_attributes_init_forgets_contents<C>(
    first_after: WdfObjectAttributes<C>,
    second_after: WdfObjectAttributes<C>,
    struct_size: usize,
)
    requires
        struct_size <= u32::MAX,
        first_after == initial_object_attributes::<C>(struct_size as u32),
        second_after == initial_object_attributes::<C>(struct_size as u32),
    ensures
        first_after == second_after,
{
}

/// Initialising a queue configuration forgets what it held, callbacks
/// included.
pub proof fn law_io_queue_config_init_forgets_contents<Io, Ctl, Stop>(
    first_after: WdfIoQueueConfig<Io, Ctl, Stop>,
    second_after: WdfIoQueueConfig<Io, Ctl, Stop>,
    dispatch_type: WdfIoQueueDispatchType,
    default_queue: bool,
    struct_size: usize,
)
    requires
        struct_size <= u32::MAX,
        first_after == initial_io_queue_config::<Io, Ctl, Stop>(
            struct_size as u32,
            dispatch_type,
            default_queue,
        ),
        second_after == initial_io_queue_config::<Io, Ctl, Stop>(
            struct_size as u32,
            dispatch_type,
            default_queue,
        ),
    ensures
        first_after == second_after,
        first_after.evt_io_read is None && first_after.evt_io_write is None
            && first_after.evt_io_device_control is None && first_after.evt_io_stop is None,
{
}

} // verus!
