use osrusbfx2::device::{
    custom_capabilities, device_add_created_queue, device_add_dispatching,
    device_add_interface_property, device_add_queue_config, device_create_attributes,
    device_pnp_capabilities, DeviceQueue, InterfaceProperty, InterfacePropertyData,
    InterfacePropertyKey, QueueCallbacks, WdfRequestType,
    get_device_logging_names_start, get_device_logging_names_step, osr_fx_evt_device_add_start,
    osr_fx_evt_device_add_step, device_child_attributes, string_list_property_size,
    DeviceAddAction, DeviceAddCall, DeviceLoggingNames, DeviceProperty, LoggingNamesAction,
    LoggingText, MemoryHandle, DEVPROP_BOOLEAN_SIZE,
};
use osrusbfx2::osrusbfx2::DEVPROP_TRUE;
use osrusbfx2::wdf::{
    WdfExecutionLevel, WdfIoQueueDispatchType, WdfObjectAttributes, WdfSynchronizationScope,
    WdfTriState,
};

const FAILED: i32 = 0xC000_0001u32 as i32;

fn run(available: bool, statuses: &[i32]) -> (Vec<DeviceAddCall>, DeviceAddAction) {
    let (mut state, mut action) = osr_fx_evt_device_add_start(available);
    let mut calls = Vec::new();
    let mut i = 0;
    while let DeviceAddAction::Call(call) = action {
        calls.push(call);
        action = osr_fx_evt_device_add_step(&mut state, statuses[i]);
        i += 1;
    }
    (calls, action)
}

#[test]
fn device_add_makes_every_call_in_order() {
    let (calls, action) = run(true, &[0; 17]);
    assert_eq!(
        calls,
        vec![
            DeviceAddCall::CreateDevice,
            DeviceAddCall::QueryLoggingNames,
            DeviceAddCall::SetPnpCapabilities,
            DeviceAddCall::CreateDefaultQueue,
            DeviceAddCall::CreateReadQueue,
            DeviceAddCall::ConfigureReadDispatching,
            DeviceAddCall::CreateWriteQueue,
            DeviceAddCall::ConfigureWriteDispatching,
            DeviceAddCall::CreateInterruptMessageQueue,
            DeviceAddCall::CreateDeviceInterface,
            DeviceAddCall::CreateResetDeviceWaitLock,
            DeviceAddCall::CreateSymbolicLinkString,
            DeviceAddCall::RetrieveDeviceInterfaceString,
            DeviceAddCall::GetSymbolicLinkName,
            DeviceAddCall::SetRestrictedProperty,
            DeviceAddCall::SetCustomCapabilities,
            DeviceAddCall::DeleteSymbolicLinkString,
        ]
    );
    assert_eq!(action, DeviceAddAction::Complete { status: 0 });
}

#[test]
fn device_add_without_property_routine_skips_the_interface_properties() {
    let (calls, action) = run(false, &[0; 11]);
    assert_eq!(calls.len(), 11);
    assert_eq!(calls[10], DeviceAddCall::CreateResetDeviceWaitLock);
    assert_eq!(action, DeviceAddAction::Complete { status: 0 });
}

#[test]
fn device_add_returns_the_wait_lock_status() {
    let mut statuses = [0; 17];
    statuses[10] = 0x4000_0001;
    statuses[14] = 5;
    let (_, action) = run(true, &statuses);
    assert_eq!(action, DeviceAddAction::Complete { status: 0x4000_0001 });
}

#[test]
fn device_add_stops_at_the_first_failure() {
    let mut statuses = [0; 17];
    statuses[4] = FAILED;
    statuses[6] = FAILED - 1;
    let (calls, action) = run(true, &statuses);
    assert_eq!(calls.len(), 5);
    assert_eq!(
        action,
        DeviceAddAction::Fail { call: DeviceAddCall::CreateReadQueue, status: FAILED }
    );
}

#[test]
fn device_add_failure_of_device_creation() {
    let (calls, action) = run(true, &[FAILED; 17]);
    assert_eq!(calls, vec![DeviceAddCall::CreateDevice]);
    assert_eq!(action, DeviceAddAction::Fail { call: DeviceAddCall::CreateDevice, status: FAILED });
}

#[test]
fn device_add_ignores_statuses_of_unchecked_calls() {
    let mut statuses = [0; 17];
    statuses[1] = FAILED;
    statuses[2] = FAILED;
    statuses[13] = FAILED;
    statuses[16] = FAILED;
    let (calls, action) = run(true, &statuses);
    assert_eq!(calls.len(), 17);
    assert_eq!(action, DeviceAddAction::Complete { status: 0 });
}

#[test]
fn device_add_failure_of_custom_capabilities() {
    let mut statuses = [0; 17];
    statuses[15] = FAILED;
    let (_, action) = run(true, &statuses);
    assert_eq!(
        action,
        DeviceAddAction::Fail { call: DeviceAddCall::SetCustomCapabilities, status: FAILED }
    );
}

fn names(statuses: &[i32]) -> (Vec<LoggingNamesAction>, DeviceLoggingNames) {
    let (mut state, mut action) = get_device_logging_names_start();
    let mut queries = Vec::new();
    let mut i = 0;
    loop {
        match action {
            LoggingNamesAction::Done(names) => return (queries, names),
            query => {
                queries.push(query);
                action = get_device_logging_names_step(&mut state, statuses[i]);
                i += 1;
            }
        }
    }
}

#[test]
fn logging_names_from_friendly_name() {
    let (queries, result) = names(&[0, 0]);
    assert_eq!(
        queries,
        vec![
            LoggingNamesAction::Query {
                property: DeviceProperty::FriendlyName,
                with_parent_attributes: true
            },
            LoggingNamesAction::Query {
                property: DeviceProperty::LocationInformation,
                with_parent_attributes: false
            },
        ]
    );
    assert_eq!(
        result,
        DeviceLoggingNames {
            device_name: LoggingText::Property(DeviceProperty::FriendlyName),
            device_name_memory: MemoryHandle::DeviceNameMemory,
            location: LoggingText::Property(DeviceProperty::LocationInformation),
            location_memory: MemoryHandle::LocationMemory,
        }
    );
}

#[test]
fn logging_names_fall_back_to_description() {
    let (queries, result) = names(&[FAILED, 0, FAILED]);
    assert_eq!(queries.len(), 3);
    assert_eq!(
        queries[1],
        LoggingNamesAction::Query {
            property: DeviceProperty::DeviceDescription,
            with_parent_attributes: true
        }
    );
    assert_eq!(result.device_name, LoggingText::Property(DeviceProperty::DeviceDescription));
    assert_eq!(result.location, LoggingText::ErrorRetrievingLocation);
    assert_eq!(result.location_memory, MemoryHandle::Null);
}

#[test]
fn logging_names_fall_back_to_error_texts() {
    let (_, result) = names(&[FAILED, FAILED, FAILED]);
    assert_eq!(
        result,
        DeviceLoggingNames {
            device_name: LoggingText::ErrorRetrievingName,
            device_name_memory: MemoryHandle::Null,
            location: LoggingText::ErrorRetrievingLocation,
            location_memory: MemoryHandle::Null,
        }
    );
}

#[test]
fn device_capabilities_allow_surprise_removal() {
    let caps = device_pnp_capabilities(48);
    assert_eq!(caps.size, 48);
    assert_eq!(caps.surprise_removal_ok, WdfTriState::True);
    assert_eq!(caps.removable, WdfTriState::UseDefault);
    assert_eq!(caps.address, u32::MAX);
}

const CALLBACKS: QueueCallbacks<u8, u16, u32> =
    QueueCallbacks { device_control: 1, read: 2, read_stop: 3, write: 4, write_stop: 5 };

#[test]
fn queue_configurations() {
    let default = device_add_queue_config(DeviceAddCall::CreateDefaultQueue, CALLBACKS, 104).unwrap();
    assert_eq!(default.dispatch_type, WdfIoQueueDispatchType::Parallel);
    assert!(default.default_queue);
    assert_eq!(default.power_managed, WdfTriState::UseDefault);
    assert_eq!(default.evt_io_device_control, Some(1));
    assert_eq!(default.evt_io_read, None);
    assert_eq!(default.evt_io_stop, None);
    let read = device_add_queue_config(DeviceAddCall::CreateReadQueue, CALLBACKS, 104).unwrap();
    assert_eq!(read.dispatch_type, WdfIoQueueDispatchType::Sequential);
    assert!(!read.default_queue);
    assert_eq!(read.evt_io_read, Some(2));
    assert_eq!(read.evt_io_stop, Some(3));
    assert_eq!(read.evt_io_write, None);
    assert_eq!(read.evt_io_device_control, None);
    let write = device_add_queue_config(DeviceAddCall::CreateWriteQueue, CALLBACKS, 104).unwrap();
    assert_eq!(write.dispatch_type, WdfIoQueueDispatchType::Sequential);
    assert_eq!(write.evt_io_write, Some(4));
    assert_eq!(write.evt_io_stop, Some(5));
    assert_eq!(write.evt_io_read, None);
    let manual =
        device_add_queue_config(DeviceAddCall::CreateInterruptMessageQueue, CALLBACKS, 104).unwrap();
    assert_eq!(manual.dispatch_type, WdfIoQueueDispatchType::Manual);
    assert_eq!(manual.power_managed, WdfTriState::False);
    assert_eq!(manual.evt_io_read, None);
    assert_eq!(manual.evt_io_write, None);
    assert_eq!(manual.evt_io_device_control, None);
    assert_eq!(manual.evt_io_stop, None);
    assert!(device_add_queue_config(DeviceAddCall::CreateDevice, CALLBACKS, 104).is_none());
}

#[test]
fn requests_go_to_their_own_queues() {
    assert_eq!(
        device_add_dispatching(DeviceAddCall::ConfigureReadDispatching),
        Some((DeviceQueue::Read, WdfRequestType::Read))
    );
    assert_eq!(
        device_add_dispatching(DeviceAddCall::ConfigureWriteDispatching),
        Some((DeviceQueue::Write, WdfRequestType::Write))
    );
    assert_eq!(device_add_dispatching(DeviceAddCall::CreateReadQueue), None);
    assert_eq!(device_add_created_queue(DeviceAddCall::CreateReadQueue), Some(DeviceQueue::Read));
    assert_eq!(device_add_created_queue(DeviceAddCall::CreateWriteQueue), Some(DeviceQueue::Write));
    assert_eq!(device_add_created_queue(DeviceAddCall::CreateDefaultQueue), Some(DeviceQueue::Default));
    assert_eq!(
        device_add_created_queue(DeviceAddCall::CreateInterruptMessageQueue),
        Some(DeviceQueue::InterruptMessage)
    );
    assert_eq!(device_add_created_queue(DeviceAddCall::ConfigureWriteDispatching), None);
}

#[test]
fn dispatching_comes_after_its_queue() {
    let (calls, _) = run(true, &[0; 17]);
    let read_queue = calls.iter().position(|c| *c == DeviceAddCall::CreateReadQueue).unwrap();
    let read_dispatch =
        calls.iter().position(|c| *c == DeviceAddCall::ConfigureReadDispatching).unwrap();
    let write_queue = calls.iter().position(|c| *c == DeviceAddCall::CreateWriteQueue).unwrap();
    let write_dispatch =
        calls.iter().position(|c| *c == DeviceAddCall::ConfigureWriteDispatching).unwrap();
    assert!(read_queue < read_dispatch);
    assert!(write_queue < write_dispatch);
}

#[test]
fn device_create_attributes_carry_the_context_type() {
    let attributes: WdfObjectAttributes<u8> = device_create_attributes(0x7000, 56);
    assert_eq!(attributes.context_type_info, 0x7000);
    assert_eq!(attributes.size, 56);
    assert_eq!(attributes.execution_level, WdfExecutionLevel::InheritFromParent);
    assert_eq!(attributes.synchronization_scope, WdfSynchronizationScope::InheritFromParent);
    assert_eq!(attributes.parent_object, 0);
    assert_eq!(attributes.evt_cleanup_callback, None);
}

#[test]
fn interface_properties() {
    assert_eq!(
        device_add_interface_property(DeviceAddCall::SetRestrictedProperty),
        Some(InterfaceProperty {
            key: InterfacePropertyKey::Restricted,
            data: InterfacePropertyData::Boolean(DEVPROP_TRUE),
            size: 1,
        })
    );
    let mut expected: Vec<u16> =
        "microsoft.hsaTestCustomCapability_q536wpkpf5cy2".encode_utf16().collect();
    expected.push(0);
    assert_eq!(
        device_add_interface_property(DeviceAddCall::SetCustomCapabilities),
        Some(InterfaceProperty {
            key: InterfacePropertyKey::UnrestrictedAppCapabilities,
            data: InterfacePropertyData::StringList(expected),
            size: 96,
        })
    );
    assert_eq!(device_add_interface_property(DeviceAddCall::CreateDevice), None);
}

#[test]
fn child_attributes_have_the_device_as_parent() {
    let mut attributes: WdfObjectAttributes<u8> = WdfObjectAttributes {
        size: 1,
        evt_cleanup_callback: Some(3),
        evt_destroy_callback: None,
        execution_level: WdfExecutionLevel::Passive,
        synchronization_scope: WdfSynchronizationScope::Device,
        parent_object: 0,
        context_size_override: 0,
        context_type_info: 0x5000,
    };
    assert!(device_child_attributes(&mut attributes, 0xABC0, 56).is_ok());
    assert_eq!(attributes.parent_object, 0xABC0);
    assert_eq!(attributes.size, 56);
    assert_eq!(attributes.context_type_info, 0);
    assert_eq!(attributes.evt_cleanup_callback, None);
    assert_eq!(attributes.execution_level, WdfExecutionLevel::InheritFromParent);
}

#[test]
fn custom_capability_property() {
    let units = custom_capabilities();
    let expected: Vec<u16> =
        "microsoft.hsaTestCustomCapability_q536wpkpf5cy2".encode_utf16().collect();
    assert_eq!(units, expected);
    assert_eq!(string_list_property_size(units.len()), 96);
    assert_eq!(DEVPROP_BOOLEAN_SIZE, 1);
}
