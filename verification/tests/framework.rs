use osrusbfx2::driver::{
    driver_entry_configuration, system_routine_from_address, system_routine_name,
};
use osrusbfx2::wdf::{
    wdf_device_pnp_capabilities_init, wdf_driver_config_init, wdf_io_queue_config_init,
    wdf_io_queue_config_init_default_queue, wdf_object_attributes_init, WDFError,
    WdfDevicePnpCapabilities, WdfDriverConfig, WdfExecutionLevel, WdfIoQueueConfig,
    WdfIoQueueDispatchType, WdfObjectAttributes, WdfSynchronizationScope, WdfTriState,
};
use osrusbfx2::wide::wide_string_units;

fn zero_attributes() -> WdfObjectAttributes<u8> {
    WdfObjectAttributes {
        size: 7,
        evt_cleanup_callback: Some(1),
        evt_destroy_callback: Some(2),
        execution_level: WdfExecutionLevel::Dispatch,
        synchronization_scope: WdfSynchronizationScope::Queue,
        parent_object: 99,
        context_size_override: 5,
        context_type_info: 6,
    }
}

#[test]
fn driver_config_init_sets_size_and_callback() {
    let mut config: WdfDriverConfig<u8, u16> = WdfDriverConfig {
        size: 1,
        evt_driver_device_add: None,
        evt_driver_unload: Some(3),
        driver_init_flags: 4,
        driver_pool_tag: 5,
    };
    wdf_driver_config_init(&mut config, Some(42), 32);
    assert_eq!(config.size, 32);
    assert_eq!(config.evt_driver_device_add, Some(42));
    assert_eq!(config.evt_driver_unload, None);
    assert_eq!(config.driver_init_flags, 0);
    assert_eq!(config.driver_pool_tag, 0);
}

#[test]
fn object_attributes_init_inherits_from_parent() {
    let mut attributes = zero_attributes();
    assert!(wdf_object_attributes_init(&mut attributes, 56).is_ok());
    assert_eq!(attributes.size, 56);
    assert_eq!(attributes.evt_cleanup_callback, None);
    assert_eq!(attributes.evt_destroy_callback, None);
    assert_eq!(attributes.execution_level, WdfExecutionLevel::InheritFromParent);
    assert_eq!(attributes.synchronization_scope, WdfSynchronizationScope::InheritFromParent);
    assert_eq!(attributes.parent_object, 0);
    assert_eq!(attributes.context_size_override, 0);
    assert_eq!(attributes.context_type_info, 0);
}

#[test]
fn object_attributes_init_refuses_an_oversized_structure() {
    if usize::BITS > 32 {
        let mut attributes = zero_attributes();
        let result = wdf_object_attributes_init(&mut attributes, (u32::MAX as usize) + 1);
        assert!(matches!(result, Err(WDFError::UsizeMismatchError)));
        assert_eq!(attributes.size, 7);
        assert_eq!(attributes.parent_object, 99);
    }
}

#[test]
fn pnp_capabilities_init_uses_defaults() {
    let mut caps = WdfDevicePnpCapabilities {
        size: 0,
        lock_supported: WdfTriState::True,
        eject_supported: WdfTriState::True,
        removable: WdfTriState::True,
        dock_device: WdfTriState::True,
        unique_id: WdfTriState::True,
        silent_install: WdfTriState::True,
        surprise_removal_ok: WdfTriState::True,
        hardware_disabled: WdfTriState::True,
        no_display_in_ui: WdfTriState::True,
        address: 1,
        ui_number: 2,
    };
    wdf_device_pnp_capabilities_init(&mut caps, 48);
    assert_eq!(
        caps,
        WdfDevicePnpCapabilities {
            size: 48,
            lock_supported: WdfTriState::UseDefault,
            eject_supported: WdfTriState::UseDefault,
            removable: WdfTriState::UseDefault,
            dock_device: WdfTriState::UseDefault,
            unique_id: WdfTriState::UseDefault,
            silent_install: WdfTriState::UseDefault,
            surprise_removal_ok: WdfTriState::UseDefault,
            hardware_disabled: WdfTriState::UseDefault,
            no_display_in_ui: WdfTriState::UseDefault,
            address: u32::MAX,
            ui_number: u32::MAX,
        }
    );
}

#[test]
fn queue_config_init_by_dispatch_type() {
    let mut config: WdfIoQueueConfig<u8, u8, u8> = WdfIoQueueConfig {
        size: 0,
        dispatch_type: WdfIoQueueDispatchType::Invalid,
        power_managed: WdfTriState::True,
        allow_zero_length_requests: true,
        default_queue: true,
        evt_io_read: Some(1),
        evt_io_write: Some(2),
        evt_io_device_control: Some(3),
        evt_io_internal_device_control: Some(4),
        evt_io_stop: Some(5),
        number_of_presented_requests: 3,
    };
    wdf_io_queue_config_init(&mut config, WdfIoQueueDispatchType::Sequential, 104);
    assert_eq!(
        config,
        WdfIoQueueConfig {
            size: 104,
            dispatch_type: WdfIoQueueDispatchType::Sequential,
            power_managed: WdfTriState::UseDefault,
            allow_zero_length_requests: false,
            default_queue: false,
            evt_io_read: None,
            evt_io_write: None,
            evt_io_device_control: None,
            evt_io_internal_device_control: None,
            evt_io_stop: None,
            number_of_presented_requests: 0,
        }
    );
    wdf_io_queue_config_init_default_queue(&mut config, WdfIoQueueDispatchType::Parallel, 104);
    assert_eq!(config.dispatch_type, WdfIoQueueDispatchType::Parallel);
    assert!(config.default_queue);
    assert_eq!(config.number_of_presented_requests, u32::MAX);
}

#[test]
fn driver_entry_configuration_registers_callbacks() {
    let (config, attributes): (WdfDriverConfig<u8, u8>, WdfObjectAttributes<u16>) =
        driver_entry_configuration(7u8, 9u16, 32, 56);
    assert_eq!(config.size, 32);
    assert_eq!(config.evt_driver_device_add, Some(7));
    assert_eq!(config.evt_driver_unload, None);
    assert_eq!(attributes.size, 56);
    assert_eq!(attributes.evt_cleanup_callback, Some(9));
    assert_eq!(attributes.evt_destroy_callback, None);
    assert_eq!(attributes.execution_level, WdfExecutionLevel::InheritFromParent);
    assert_eq!(attributes.synchronization_scope, WdfSynchronizationScope::InheritFromParent);
}

#[test]
fn routine_names_are_utf16() {
    let name = system_routine_name("IoGetActivityIdIrp").unwrap();
    let expected: Vec<u16> = "IoGetActivityIdIrp".encode_utf16().collect();
    assert_eq!(name, expected);
    assert_eq!(name.len(), 18);
}

#[test]
fn routine_name_with_nul_is_refused() {
    assert!(system_routine_name("Io\0Get").is_none());
    assert_eq!(system_routine_name("IoGet\0"), Some(vec![0x49, 0x6f, 0x47, 0x65, 0x74]));
}

#[test]
fn wide_units_use_surrogate_pairs() {
    assert_eq!(wide_string_units("a\u{1F600}"), Some(vec![0x61, 0xD83D, 0xDE00]));
    assert_eq!(wide_string_units(""), Some(vec![]));
}

#[test]
fn routine_from_address() {
    assert_eq!(system_routine_from_address(0), None);
    assert_eq!(system_routine_from_address(0x1000), Some(0x1000));
}
