use platy_tap::{
    build_for_input_capture, build_for_output_capture, check_property_read, check_status,
    AggregateDescriptor, CATapDescription, CATapMuteBehavior, CaptureSession, CaptureSetup,
    CreateAggregateDeviceResult, DescriptorKey, HalError, HalEvent, SetupAction, SetupPhase, SetupStep, SubDeviceSpec,
    TapMode, TapSpec, TapUuid, TeardownAction,
};

const TAP_TEXT: &str = "550e8400-e29b-41d4-a716-446655440000";
const TAP_VALUE: u128 = 0x550e8400_e29b_41d4_a716_446655440000;

fn session_with_tap() -> (CaptureSession, platy_tap::TapHandle) {
    let mut s = CaptureSession::new();
    let h = s.finish_process_tap(0, 77, TAP_TEXT).unwrap();
    (s, h)
}

#[test]
fn mono_global_tap_keeps_exclusion_set() {
    let d = CATapDescription::new_mono_global_tap_but_exclude(vec![42, 7, 1001]);
    assert_eq!(d.mode, TapMode::MonoGlobalExcluding);
    assert_eq!(d.processes, vec![42, 7, 1001]);
    assert!(d.is_exclusive());
    let e = CATapDescription::new_mono_global_tap_but_exclude(vec![]);
    assert!(e.processes.is_empty());
}

#[test]
fn stereo_mixdown_is_not_exclusive() {
    let d = CATapDescription::new_stereo_mixdown(vec![5]);
    assert_eq!(d.mode, TapMode::StereoMixdown);
    assert_eq!(d.processes, vec![5]);
    assert!(!d.is_exclusive());
}

#[test]
fn descriptor_setters() {
    let mut d = CATapDescription::new_mono_global_tap_but_exclude(vec![3]);
    assert_eq!(d.get_uuid(), None);
    assert_eq!(d.mute_behavior, CATapMuteBehavior::Unmuted);
    d.set_name("platy-speaker-tap");
    d.set_mute_behavior(CATapMuteBehavior::MutedWhenTapped);
    d.set_uuid(TapUuid { value: 9 });
    assert_eq!(d.name, "platy-speaker-tap");
    assert_eq!(d.mute_behavior, CATapMuteBehavior::MutedWhenTapped);
    assert_eq!(d.get_uuid(), Some(TapUuid { value: 9 }));
    assert_eq!(d.processes, vec![3]);
}

#[test]
fn uuid_text_round_trip() {
    let u = TapUuid::parse(TAP_TEXT).unwrap();
    assert_eq!(u.value, TAP_VALUE);
    assert_eq!(u.to_hyphenated(), TAP_TEXT);
    assert_eq!(TapUuid::parse(&u.to_hyphenated()), Some(u));
}

#[test]
fn uuid_upper_case_text_reads_back_lower_case() {
    let u = TapUuid::parse("550E8400-E29B-41D4-A716-446655440000").unwrap();
    assert_eq!(u.value, TAP_VALUE);
    assert_eq!(u.to_hyphenated(), TAP_TEXT);
}

#[test]
fn uuid_malformed_text_is_rejected() {
    assert_eq!(TapUuid::parse("not-a-uuid"), None);
    assert_eq!(TapUuid::parse(""), None);
}

#[test]
fn tap_identity_is_normalised_on_creation() {
    let mut s = CaptureSession::new();
    let h = s.finish_process_tap(0, 12, "550E8400-E29B-41D4-A716-446655440000").unwrap();
    assert_eq!(h.tap_id, 12);
    assert_eq!(h.identity.value, TAP_VALUE);
    assert_eq!(h.identity_text, TAP_TEXT);
    assert_eq!(s.taps.len(), 1);
}

#[test]
fn tap_creation_errors() {
    let mut s = CaptureSession::new();
    assert_eq!(
        s.finish_process_tap(-50, 12, TAP_TEXT).err(),
        Some(HalError::Status { step: SetupStep::CreateProcessTap, status: -50 })
    );
    assert_eq!(
        s.finish_process_tap(0, 0, TAP_TEXT).err(),
        Some(HalError::UnknownObject { step: SetupStep::CreateProcessTap })
    );
    assert_eq!(s.finish_process_tap(0, 12, "garbage").err(), Some(HalError::InvalidIdentity));
    assert!(s.taps.is_empty());
}

#[test]
fn output_descriptor_shape() {
    let (_, h) = session_with_tap();
    let d = build_for_output_capture(&h, "BuiltInSpeakerDevice");
    assert_eq!(d.name, "Platy Speaker");
    assert_eq!(d.uid, "platy-speaker-uid");
    assert_eq!(d.main_sub_device.as_deref(), Some("BuiltInSpeakerDevice"));
    assert_eq!(d.master_sub_device, None);
    assert!(d.is_private);
    assert_eq!(d.tap_auto_start, Some(true));
    assert_eq!(d.sub_devices.len(), 1);
    assert_eq!(d.sub_devices[0].uid, "BuiltInSpeakerDevice");
    assert_eq!(d.taps.len(), 1);
    assert_eq!(d.taps[0].tap_uid, TAP_TEXT);
    assert!(!d.taps[0].drift_compensation);
    assert_eq!(
        d.keys(),
        vec![
            DescriptorKey::Name,
            DescriptorKey::Uid,
            DescriptorKey::MainSubDevice,
            DescriptorKey::IsPrivate,
            DescriptorKey::TapAutoStart,
            DescriptorKey::SubDeviceList,
            DescriptorKey::TapList,
        ]
    );
}

#[test]
fn input_descriptor_shape() {
    let d = build_for_input_capture("USBMicDevice");
    assert_eq!(d.name, "Platy Microphone");
    assert_eq!(d.uid, "platy-microphone-uid");
    assert_eq!(d.main_sub_device.as_deref(), Some("USBMicDevice"));
    assert_eq!(d.master_sub_device.as_deref(), Some("USBMicDevice"));
    assert!(!d.is_private);
    assert_eq!(d.tap_auto_start, None);
    assert_eq!(d.sub_devices.len(), 1);
    assert_eq!(d.sub_devices[0].uid, "USBMicDevice");
    assert!(d.taps.is_empty());
    assert_eq!(
        d.keys(),
        vec![
            DescriptorKey::Name,
            DescriptorKey::Uid,
            DescriptorKey::MainSubDevice,
            DescriptorKey::MasterSubDevice,
            DescriptorKey::IsPrivate,
            DescriptorKey::SubDeviceList,
        ]
    );
}

#[test]
fn dangling_tap_is_left_to_host() {
    let mut s = CaptureSession::new();
    let mut other = CaptureSession::new();
    let foreign = other.finish_process_tap(0, 5, TAP_TEXT).unwrap();
    let d = build_for_output_capture(&foreign, "BuiltInSpeakerDevice");
    assert_eq!(
        s.finish_aggregate(&d, 560947818, 0).err(),
        Some(HalError::Status { step: SetupStep::CreateAggregateDevice, status: 560947818 })
    );
    assert!(s.aggregates.is_empty());
}

#[test]
fn duplicate_uid_refused_by_host_fails_second_creation() {
    let (mut s, h) = session_with_tap();
    let d1 = build_for_output_capture(&h, "BuiltInSpeakerDevice");
    assert_eq!(s.finish_aggregate(&d1, 0, 90).map(|a| a.device_id), Ok(90));
    let d2 = build_for_output_capture(&h, "OtherDevice");
    assert_eq!(
        s.finish_aggregate(&d2, 1852797029, 0).err(),
        Some(HalError::Status { step: SetupStep::CreateAggregateDevice, status: 1852797029 })
    );
    assert_eq!(s.aggregates.len(), 1);
    assert_eq!(s.aggregates[0].device_id, 90);
}

#[test]
fn empty_sub_device_list_fails() {
    let mut s = CaptureSession::new();
    let d = AggregateDescriptor {
        name: "x".to_string(),
        uid: "y".to_string(),
        main_sub_device: None,
        master_sub_device: None,
        is_private: true,
        tap_auto_start: None,
        sub_devices: Vec::new(),
        taps: Vec::new(),
    };
    assert_eq!(
        s.finish_aggregate(&d, 1852797029, 0).err(),
        Some(HalError::Status { step: SetupStep::CreateAggregateDevice, status: 1852797029 })
    );
    assert!(s.aggregates.is_empty());
}

#[test]
fn aggregate_host_failure_registers_nothing() {
    let (mut s, h) = session_with_tap();
    let d = build_for_output_capture(&h, "BuiltInSpeakerDevice");
    assert_eq!(
        s.finish_aggregate(&d, 1852797029, 0).err(),
        Some(HalError::Status { step: SetupStep::CreateAggregateDevice, status: 1852797029 })
    );
    assert_eq!(
        s.finish_aggregate(&d, 0, 0).err(),
        Some(HalError::UnknownObject { step: SetupStep::CreateAggregateDevice })
    );
    assert!(s.aggregates.is_empty());
}

#[test]
fn tap_spec_and_sub_device_spec_fields() {
    let t = TapSpec { tap_uid: TAP_TEXT.to_string(), drift_compensation: true };
    let sd = SubDeviceSpec { uid: "A".to_string() };
    assert!(t.drift_compensation);
    assert_eq!(sd.uid, "A");
}

#[test]
fn status_and_property_read_checks() {
    assert_eq!(check_status(SetupStep::StartDevice, 0), Ok(()));
    assert_eq!(
        check_status(SetupStep::StartDevice, -1),
        Err(HalError::Status { step: SetupStep::StartDevice, status: -1 })
    );
    assert_eq!(check_property_read(SetupStep::ReadDeviceUid, 0, 8, 8), Ok(()));
    assert_eq!(
        check_property_read(SetupStep::ReadDeviceUid, 0, 8, 4),
        Err(HalError::SizeMismatch { step: SetupStep::ReadDeviceUid, expected: 8, returned: 4 })
    );
    assert_eq!(
        check_property_read(SetupStep::ReadDeviceUid, 2003332927, 8, 4),
        Err(HalError::Status { step: SetupStep::ReadDeviceUid, status: 2003332927 })
    );
}

#[test]
fn scenario_output_capture_end_to_end() {
    let mut m = CaptureSetup::new_output_capture(CaptureSession::new());
    assert_eq!(m.tap_description.mode, TapMode::MonoGlobalExcluding);
    assert!(m.tap_description.processes.is_empty());
    assert_eq!(m.tap_description.name, "platy-speaker-tap");
    assert_eq!(m.next_action(), SetupAction::CreateProcessTap);
    let a = m.on_event(HalEvent::TapCreated { status: 0, tap_id: 71, identity: TAP_TEXT.to_string() });
    assert_eq!(a, SetupAction::ReadDefaultOutputDevice);
    let a = m.on_event(HalEvent::DefaultOutputRead {
        status: 0,
        expected_size: 4,
        returned_size: 4,
        device_id: 44,
    });
    assert_eq!(a, SetupAction::ReadDeviceUid { device_id: 44 });
    let a = m.on_event(HalEvent::DeviceUidRead {
        status: 0,
        expected_size: 8,
        returned_size: 8,
        uid: "BuiltInSpeakerDevice".to_string(),
    });
    assert_eq!(a, SetupAction::CreateAggregateDevice);
    {
        let d = m.aggregate.as_ref().unwrap();
        assert_eq!(d.name, "Platy Speaker");
        assert_eq!(d.uid, "platy-speaker-uid");
        assert_eq!(d.main_sub_device.as_deref(), Some("BuiltInSpeakerDevice"));
        assert_eq!(d.sub_devices.len(), 1);
        assert_eq!(d.taps.len(), 1);
        assert_eq!(d.taps[0].tap_uid, TAP_TEXT);
        assert!(!d.taps[0].drift_compensation);
    }
    let a = m.on_event(HalEvent::AggregateCreated { status: 0, device_id: 120 });
    assert_eq!(a, SetupAction::CreateIoProc { device_id: 120 });
    let a = m.on_event(HalEvent::IoProcCreated { status: 0 });
    assert_eq!(a, SetupAction::StartDevice { device_id: 120 });
    let a = m.on_event(HalEvent::DeviceStarted { status: 0 });
    assert_eq!(a, SetupAction::Done);
    assert_eq!(m.phase, SetupPhase::Running);
    assert_ne!(m.aggregate_device.unwrap().device_id, 0);
}

#[test]
fn scenario_input_capture_end_to_end() {
    let mut m = CaptureSetup::new_input_capture(CaptureSession::new(), "USBMicDevice");
    assert_eq!(m.next_action(), SetupAction::CreateAggregateDevice);
    {
        let d = m.aggregate.as_ref().unwrap();
        assert!(!d.is_private);
        assert_eq!(d.master_sub_device.as_deref(), Some("USBMicDevice"));
        assert!(d.taps.is_empty());
    }
    let a = m.on_event(HalEvent::AggregateCreated { status: 0, device_id: 130 });
    assert_eq!(a, SetupAction::CreateIoProc { device_id: 130 });
    let a = m.on_event(HalEvent::IoProcCreated { status: 0 });
    assert_eq!(a, SetupAction::StartDevice { device_id: 130 });
    assert_eq!(m.on_event(HalEvent::DeviceStarted { status: 0 }), SetupAction::Done);
}

#[test]
fn setup_aborts_on_size_mismatch() {
    let mut m = CaptureSetup::new_output_capture(CaptureSession::new());
    m.on_event(HalEvent::TapCreated { status: 0, tap_id: 71, identity: TAP_TEXT.to_string() });
    let a = m.on_event(HalEvent::DefaultOutputRead {
        status: 0,
        expected_size: 4,
        returned_size: 2,
        device_id: 44,
    });
    let e = HalError::SizeMismatch { step: SetupStep::ReadDefaultOutputDevice, expected: 4, returned: 2 };
    assert_eq!(a, SetupAction::Abort { error: e });
    assert_eq!(m.on_event(HalEvent::DeviceStarted { status: 0 }), SetupAction::Abort { error: e });
    assert_eq!(m.phase, SetupPhase::Failed);
}

#[test]
fn setup_aborts_on_out_of_order_answer() {
    let mut m = CaptureSetup::new_output_capture(CaptureSession::new());
    let a = m.on_event(HalEvent::IoProcCreated { status: 0 });
    assert_eq!(
        a,
        SetupAction::Abort { error: HalError::OutOfOrder { pending: SetupStep::CreateProcessTap } }
    );
}

#[test]
fn setup_aborts_when_start_fails() {
    let mut m = CaptureSetup::new_input_capture(CaptureSession::new(), "USBMicDevice");
    m.on_event(HalEvent::AggregateCreated { status: 0, device_id: 130 });
    m.on_event(HalEvent::IoProcCreated { status: 0 });
    let a = m.on_event(HalEvent::DeviceStarted { status: 561214578 });
    assert_eq!(
        a,
        SetupAction::Abort { error: HalError::Status { step: SetupStep::StartDevice, status: 561214578 } }
    );
}

#[test]
fn second_input_setup_on_same_session_reaches_host() {
    let mut m = CaptureSetup::new_input_capture(CaptureSession::new(), "USBMicDevice");
    m.on_event(HalEvent::AggregateCreated { status: 0, device_id: 130 });
    let mut again = CaptureSetup::new_input_capture(m.session, "USBMicDevice");
    assert_eq!(again.next_action(), SetupAction::CreateAggregateDevice);
    let a = again.on_event(HalEvent::AggregateCreated { status: 1852797029, device_id: 0 });
    assert_eq!(
        a,
        SetupAction::Abort {
            error: HalError::Status { step: SetupStep::CreateAggregateDevice, status: 1852797029 }
        }
    );
    assert_eq!(again.session.aggregates.len(), 1);
}

#[test]
fn created_reports_tap_and_aggregate() {
    let mut m = CaptureSetup::new_output_capture(CaptureSession::new());
    m.on_event(HalEvent::TapCreated { status: 0, tap_id: 71, identity: TAP_TEXT.to_string() });
    assert_eq!(m.created(), None);
    m.on_event(HalEvent::DefaultOutputRead { status: 0, expected_size: 4, returned_size: 4, device_id: 44 });
    m.on_event(HalEvent::DeviceUidRead {
        status: 0,
        expected_size: 8,
        returned_size: 8,
        uid: "BuiltInSpeakerDevice".to_string(),
    });
    m.on_event(HalEvent::AggregateCreated { status: 0, device_id: 120 });
    assert_eq!(
        m.created(),
        Some(CreateAggregateDeviceResult { tap_id: 71, aggregate_device_id: 120 })
    );
}

#[test]
fn teardown_of_running_output_capture() {
    let mut m = CaptureSetup::new_output_capture(CaptureSession::new());
    assert!(m.teardown().is_empty());
    m.on_event(HalEvent::TapCreated { status: 0, tap_id: 71, identity: TAP_TEXT.to_string() });
    m.on_event(HalEvent::DefaultOutputRead { status: 0, expected_size: 4, returned_size: 4, device_id: 44 });
    m.on_event(HalEvent::DeviceUidRead {
        status: 0,
        expected_size: 8,
        returned_size: 8,
        uid: "BuiltInSpeakerDevice".to_string(),
    });
    m.on_event(HalEvent::AggregateCreated { status: 0, device_id: 120 });
    m.on_event(HalEvent::IoProcCreated { status: 0 });
    m.on_event(HalEvent::DeviceStarted { status: 0 });
    assert_eq!(
        m.teardown(),
        vec![
            TeardownAction::StopDevice { device_id: 120 },
            TeardownAction::DestroyIoProc { device_id: 120 },
            TeardownAction::DestroyAggregateDevice { device_id: 120 },
            TeardownAction::DestroyProcessTap { tap_id: 71 },
        ]
    );
}

#[test]
fn teardown_after_failed_aggregate_creation_releases_tap_only() {
    let mut m = CaptureSetup::new_output_capture(CaptureSession::new());
    m.on_event(HalEvent::TapCreated { status: 0, tap_id: 71, identity: TAP_TEXT.to_string() });
    m.on_event(HalEvent::DefaultOutputRead { status: 0, expected_size: 4, returned_size: 4, device_id: 44 });
    m.on_event(HalEvent::DeviceUidRead {
        status: 0,
        expected_size: 8,
        returned_size: 8,
        uid: "BuiltInSpeakerDevice".to_string(),
    });
    let a = m.on_event(HalEvent::AggregateCreated { status: -1, device_id: 0 });
    assert_eq!(
        a,
        SetupAction::Abort { error: HalError::Status { step: SetupStep::CreateAggregateDevice, status: -1 } }
    );
    assert_eq!(m.teardown(), vec![TeardownAction::DestroyProcessTap { tap_id: 71 }]);
}

#[test]
fn teardown_after_failed_start_keeps_io_proc_release() {
    let mut m = CaptureSetup::new_input_capture(CaptureSession::new(), "USBMicDevice");
    m.on_event(HalEvent::AggregateCreated { status: 0, device_id: 130 });
    m.on_event(HalEvent::IoProcCreated { status: 0 });
    m.on_event(HalEvent::DeviceStarted { status: 7 });
    assert_eq!(
        m.teardown(),
        vec![
            TeardownAction::DestroyIoProc { device_id: 130 },
            TeardownAction::DestroyAggregateDevice { device_id: 130 },
        ]
    );
}

#[test]
fn uuid_text_digit_order_and_hyphens() {
    assert_eq!(TapUuid { value: 1 }.to_hyphenated(), "00000000-0000-0000-0000-000000000001");
    assert_eq!(TapUuid { value: u128::MAX }.to_hyphenated(), "ffffffff-ffff-ffff-ffff-ffffffffffff");
    assert_eq!(
        TapUuid { value: 0xabcdef01_2345_6789_abcd_ef0123456789 }.to_hyphenated(),
        "abcdef01-2345-6789-abcd-ef0123456789"
    );
}
