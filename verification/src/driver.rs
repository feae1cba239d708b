//! The decisions of the driver's entry point: the configuration it hands to
//! the framework, and the lookup of kernel routines by name.
use vstd::prelude::*;
use crate::wdf::{
    initial_driver_config, initial_object_attributes, wdf_driver_config_init,
    wdf_object_attributes_init, WdfDriverConfig, WdfExecutionLevel, WdfObjectAttributes,
    WdfSynchronizationScope,
};
use crate::wide::{nul_only_at_end, utf16_encode, wide_string_units, without_trailing_nul};

verus! {

/// The driver's configuration and attributes as the entry point passes them
/// to `WdfDriverCreate`: `device_add` as the add-device callback, and
/// `cleanup` as the cleanup callback of the driver object. The sizes are
/// those of `WDF_DRIVER_CONFIG` and `WDF_OBJECT_ATTRIBUTES`, which must fit in
/// a `u32`.
pub fn driver_entry_configuration<A, U, C>(
    device_add: A,
    cleanup: C,
    config_size: usize,
    attributes_size: usize,
) -> (configuration: (WdfDriverConfig<A, U>, WdfObjectAttributes<C>))
    requires
        config_size <= u32::MAX,
        attributes_size <= u32::MAX,
    ensures
        configuration.0 == initial_driver_config::<A, U>(config_size as u32, Some(device_add)),
        configuration.1 == (WdfObjectAttributes {
            evt_cleanup_callback: Some(cleanup),
            ..initial_object_attributes::<C>(attributes_size as u32)
        }),
{
    let mut config: WdfDriverConfig<A, U> = WdfDriverConfig {
        size: 0,
        evt_driver_device_add: None,
        evt_driver_unload: None,
        driver_init_flags: 0,
        driver_pool_tag: 0,
    };
    let mut attributes: WdfObjectAttributes<C> = WdfObjectAttributes {
        size: 0,
        evt_cleanup_callback: None,
        evt_destroy_callback: None,
        execution_level: WdfExecutionLevel::Invalid,
        synchronization_scope: WdfSynchronizationScope::Invalid,
        parent_object: 0,
        context_size_override: 0,
        context_type_info: 0,
    };
    wdf_driver_config_init(&mut config, Some(device_add), config_size);
    let _ = wdf_object_attributes_init(&mut attributes, attributes_size);
    attributes.evt_cleanup_callback = Some(cleanup);
    (config, attributes)
}

/// The name under which a kernel routine is looked up: the UTF-16 units of
/// `routine_name`, or `None` when the name holds a nul character before its
/// end, in which case no lookup is made.
pub fn system_routine_name(routine_name: &str) -> (name: Option<Vec<u16>>)
    ensures
        name is Some <==> nul_only_at_end(routine_name@),
        name matches Some(units) ==> units@ == utf16_encode(without_trailing_nul(routine_name@)),
{
    wide_string_units(routine_name)
}

/// The routine that a lookup found at `address`, or `None` for a null
/// address.
pub fn system_routine_from_address(address: usize) -> (routine: Option<usize>)
    ensures
        address == 0 ==> routine is None,
        address != 0 ==> routine == Some(address),
{
    if address == 0 {
        None
    } else {
        Some(address)
    }
}

} // verus!
