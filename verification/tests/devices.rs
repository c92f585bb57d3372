use cpvc::bridge::ContextState;
use cpvc::bridge::Event;
use cpvc::bridge::OperationState;
use cpvc::bridge::SinkRecord;
use cpvc::coreaudio::CoreAudio;
use cpvc::coreaudio::CoreAudioDevice;
use cpvc::coreaudio::CoreAudioProbe;
use cpvc::device::AudioDevice;
use cpvc::device::DeviceId;
use cpvc::device::Error;
use cpvc::device::VolumeError;
use cpvc::error::EnumFault;
use cpvc::error::Error as BackendError;
use cpvc::pulseaudio::PulseAudio;
use cpvc::pulseaudio::PulseAudioDevice;
use cpvc::scan::scan_devices;
use cpvc::wasapi::EndpointProbe;
use cpvc::wasapi::WASAPI;
use cpvc::wasapi::WASAPIDevice;
use cpvc::DeviceType;

fn output_probe(id: u32, name: &str, channels: u32) -> CoreAudioProbe {
    CoreAudioProbe {
        device_id: id,
        name: Some(name.to_string()),
        hw_name: Some(format!("HW {}", name)),
        output_streams: Some(1),
        input_streams: None,
        channels: Some(channels),
    }
}

fn input_probe(id: u32, name: &str) -> CoreAudioProbe {
    CoreAudioProbe {
        device_id: id,
        name: Some(name.to_string()),
        hw_name: None,
        output_streams: Some(0),
        input_streams: Some(1),
        channels: None,
    }
}

fn endpoint(uid: &str, name: &str, channels: u32) -> EndpointProbe {
    EndpointProbe {
        uid: uid.to_string(),
        name: Some(name.to_string()),
        renders: true,
        active: true,
        channels,
    }
}

#[test]
fn get_audio_device() {
    let probes = vec![
        output_probe(7, "External Headphones", 2),
        input_probe(9, "Internal Microphone"),
    ];
    let device = AudioDevice::get_default_device(&Some(probes[0].clone())).unwrap();
    assert_eq!(device.device_name, "External Headphones");
    assert_eq!(device.hw_name, "External Headphones");
    assert_eq!(device.channels, 2);
    assert!(matches!(device.device_id, DeviceId::MacOS(7)));

    let by_name = AudioDevice::get_device_from_name("External Headphones".to_string(), &probes)
        .unwrap();
    assert_eq!(by_name.channels, 2);
    let vol_ctl = by_name.default_volume_control();
    assert_eq!(vol_ctl.channels, 2);
    assert!(matches!(vol_ctl.hw_id, DeviceId::MacOS(7)));

    assert_eq!(
        AudioDevice::get_device_from_name("Absent".to_string(), &probes).unwrap_err(),
        Error::DeviceNotFound
    );
    assert_eq!(
        AudioDevice::get_default_device(&None).unwrap_err(),
        Error::DeviceCaptureFailed
    );
}

#[test]
fn get_audio_device_from_id() {
    let probes = vec![output_probe(7, "Speakers", 2)];
    let endpoints = vec![endpoint("{uid-1}", "Desk Speakers", 4)];

    let mac = AudioDevice::get_device_from_id(DeviceId::MacOS(7), &probes, &endpoints).unwrap();
    assert_eq!(mac.device_name, "Speakers");
    assert_eq!(mac.channels, 2);

    let win =
        AudioDevice::get_device_from_id(DeviceId::Windows("{uid-1}".to_string()), &probes, &endpoints)
            .unwrap();
    assert_eq!(win.device_name, "Desk Speakers");
    assert_eq!(win.channels, 4);

    assert_eq!(
        AudioDevice::get_device_from_id(DeviceId::MacOS(8), &probes, &endpoints).unwrap_err(),
        Error::DeviceNotFound
    );
    assert_eq!(
        AudioDevice::get_device_from_id(DeviceId::Windows("{gone}".to_string()), &probes, &endpoints)
            .unwrap_err(),
        Error::DeviceCaptureFailed
    );
}

#[test]
fn missing_channel_details_surface() {
    let mut probe = output_probe(7, "Speakers", 2);
    probe.channels = None;
    let probes = vec![probe];
    assert_eq!(
        AudioDevice::get_device_from_name("Speakers".to_string(), &probes).unwrap_err(),
        Error::DeviceDetailsCaptureFailed
    );
}

#[test]
fn vol_control_reads_and_mutes() {
    let probes = vec![output_probe(3, "Deck", 1)];
    let device = AudioDevice::get_device_from_name("Deck".to_string(), &probes).unwrap();
    let ctl = device.default_volume_control();
    assert_eq!(ctl.get_vol(false, &vec![Some(4000), Some(6000)]), Ok(50));
    assert_eq!(ctl.get_vol(true, &vec![Some(4000), Some(6000)]), Ok(0));
    // Not a single channel answered: the aggregate failure surfaces.
    assert_eq!(
        ctl.get_vol(false, &vec![None, None]),
        Err(cpvc::error::Error::VolumeCaptureFailed(
            cpvc::error::CaptureFault::NoChannelsCaptured {
                channel_count: 2,
                channels_captured: 0,
            }
        ))
    );
    assert_eq!(ctl.is_mute(Some(1)), Ok(true));
    assert_eq!(ctl.is_mute(Some(0)), Ok(false));
    assert_eq!(ctl.is_mute(None), Err(VolumeError::MuteStatusCaptureFailed));
    assert!(ctl.set_mute(true, true));
    assert!(!ctl.set_mute(true, false));
    // Channels 0..=1 take the level, then mute toggles on and off: four
    // acknowledgements in plan order.
    assert!(ctl.set_vol(40, &vec![true, false, true, true]));
    assert!(!ctl.set_vol(40, &vec![false, false, true, true]));
}

#[test]
fn get_dev_hw_name() {
    let probes = vec![output_probe(5, "Mac mini Speakers", 2)];
    let device = CoreAudioDevice::from_hw_id(5, &vec![(5, "Mac mini Speakers".to_string())])
        .unwrap();
    assert_eq!(device.get_device_hw_id(), 5);
    assert_eq!(
        device.get_hardware_device_name(&probes).unwrap(),
        "HW Mac mini Speakers"
    );
    assert_eq!(device.get_name(&probes).unwrap(), "Mac mini Speakers");
}

#[test]
fn get_audio_device_volume() {
    let probes = vec![output_probe(6, "Mac mini Speakers", 2)];
    let device = AudioDevice::get_device_from_name("Mac mini Speakers".to_string(), &probes)
        .unwrap();
    let vol_ctl = device.default_volume_control();
    assert_eq!(
        vol_ctl.get_vol(false, &vec![Some(6500), Some(6500), Some(6500)]),
        Ok(65)
    );
    assert_eq!(device.device_name, "Mac mini Speakers");
}

#[test]
fn check_muted() {
    let probe = output_probe(8, "Desk Speakers", 2);
    let device = AudioDevice::get_default_device(&Some(probe)).unwrap();
    let vol_ctl = device.default_volume_control();
    assert_eq!(vol_ctl.is_mute(Some(0)), Ok(false));
    assert!(vol_ctl.set_mute(true, true));
    assert_eq!(vol_ctl.is_mute(Some(1)), Ok(true));
}

#[test]
fn test_non_default_device() {
    let identifiers = vec![(0u32, "Null Device".to_string())];
    let probes = vec![output_probe(0, "Null Device", 1)];
    let device = CoreAudioDevice::from_hw_id(0, &identifiers).unwrap();
    assert_eq!(device.get_device_hw_id(), 0);
    assert_eq!(device.get_name(&probes).unwrap(), "Null Device");
    assert_eq!(device.set_mute(true, true), Ok(()));
    assert_eq!(device.get_vol(Some(0), &vec![Some(1000), Some(1000)]), Ok(10));
    assert_eq!(device.set_vol(10, Some(1), &vec![true, true, true, true]), Ok(()));

    let endpoints = vec![endpoint("", "Unnamed Endpoint", 2)];
    let wdevice = WASAPIDevice::from_uid("".to_string(), &endpoints).unwrap();
    assert_eq!(wdevice.get_device_uid().unwrap(), "");
    assert_eq!(wdevice.get_name(&endpoints).unwrap(), "Unnamed Endpoint");
    assert_eq!(wdevice.set_mute(false, true), Ok(()));

    let rows = vec![("".to_string(), "Unnamed Sink".to_string())];
    let pdevice = PulseAudioDevice::from_id("".to_string(), &rows).unwrap();
    assert_eq!(pdevice.get_device_str(), "");
    assert_eq!(pdevice.get_name(&rows).unwrap(), "Unnamed Sink");
}

#[test]
fn get_device_idents() {
    let endpoints = vec![
        endpoint("{uid-1}", "Desk Speakers", 2),
        endpoint("{uid-2}", "Headset", 2),
    ];
    let wrows = WASAPI::get_device_identifiers(&endpoints).unwrap();
    for (device_id, name) in &wrows {
        assert!(!device_id.is_empty());
        assert!(!name.is_empty());
    }
    assert_eq!(wrows.len(), 2);

    let mut session = PulseAudio::listing_session();
    session.step(Event::Context(ContextState::Ready));
    session.step(Event::Sink(SinkRecord {
        name: "sink.usb".to_string(),
        description: "USB Audio".to_string(),
        index: 1,
        mute: false,
        volume_text: b"40%".to_vec(),
        has_active_port: true,
    }));
    session.step(Event::Operation(OperationState::Done));
    let prows = PulseAudio::get_device_identifiers(&session).unwrap();
    for (device_str, name) in &prows {
        assert!(!device_str.is_empty());
        assert!(!name.is_empty());
    }
    assert_eq!(prows.len(), 1);
}

#[test]
fn coreaudio_identity() {
    let identifiers = vec![
        (11, "Speakers".to_string()),
        (12, "Headphones".to_string()),
    ];
    let by_name = CoreAudioDevice::from_name("Headphones".to_string(), &identifiers).unwrap();
    assert_eq!(by_name.get_device_hw_id(), 12);
    assert_eq!(
        CoreAudioDevice::from_name("Absent".to_string(), &identifiers).unwrap_err(),
        BackendError::DeviceNotFound
    );

    let uid_rows = vec![("uid-speakers".to_string(), 11u32)];
    let by_uid = CoreAudioDevice::from_uid("uid-speakers".to_string(), &uid_rows).unwrap();
    assert_eq!(by_uid.get_device_hw_id(), 11);
    assert_eq!(
        CoreAudioDevice::from_uid("uid-gone".to_string(), &uid_rows).unwrap_err(),
        BackendError::DeviceNotFound
    );

    assert_eq!(
        CoreAudioDevice::from_hw_id(13, &identifiers).unwrap_err(),
        BackendError::DeviceNotFound
    );
}

#[test]
fn coreaudio_enumeration_filters_inputs() {
    let probes = vec![
        output_probe(1, "Speakers", 2),
        input_probe(2, "Microphone"),
        CoreAudioProbe {
            device_id: 0,
            name: None,
            hw_name: None,
            output_streams: None,
            input_streams: None,
            channels: None,
        },
    ];
    let rows = CoreAudio::get_device_identifiers(&probes).unwrap();
    assert_eq!(rows, vec![(1, "Speakers".to_string())]);
    assert_eq!(
        CoreAudio::check_device_type(&probes[0]),
        DeviceType::Output
    );
    assert_eq!(CoreAudio::check_device_type(&probes[1]), DeviceType::Input);
    assert_eq!(
        CoreAudio::check_device_type(&probes[2]),
        DeviceType::Unknown
    );
    // A successful input-scope read alone classifies a zero-output
    // device as an input; the input stream count is not inspected.
    let idle_input = CoreAudioProbe {
        device_id: 3,
        name: Some("Idle Capture".to_string()),
        hw_name: None,
        output_streams: Some(0),
        input_streams: Some(0),
        channels: None,
    };
    assert_eq!(CoreAudio::check_device_type(&idle_input), DeviceType::Input);
}

#[test]
fn coreaudio_unnamed_output_fails_enumeration() {
    let mut unnamed = output_probe(4, "x", 2);
    unnamed.name = None;
    let probes = vec![unnamed];
    assert_eq!(
        CoreAudio::get_device_identifiers(&probes).unwrap_err(),
        BackendError::DeviceEnumerationFailed(EnumFault::NameMissing)
    );
}

#[test]
fn scan_maps_output_names_to_ids() {
    let probes = vec![
        output_probe(21, "Speakers", 2),
        input_probe(22, "Microphone"),
        output_probe(23, "Headphones", 2),
    ];
    let rows = scan_devices(&probes);
    assert_eq!(
        rows,
        vec![("Speakers".to_string(), 21), ("Headphones".to_string(), 23)]
    );
}

#[test]
fn pulseaudio_identity() {
    let identifiers = vec![
        ("alsa_output.internal".to_string(), "Built-in Audio".to_string()),
        ("alsa_output.usb".to_string(), "USB Audio".to_string()),
    ];
    let device = PulseAudioDevice::from_name("USB Audio".to_string(), &identifiers).unwrap();
    assert_eq!(device.get_device_str(), "alsa_output.usb");
    assert_eq!(device.get_name(&identifiers).unwrap(), "USB Audio");

    let by_id = PulseAudioDevice::from_id("alsa_output.internal".to_string(), &identifiers)
        .unwrap();
    assert_eq!(by_id.get_device_str(), "alsa_output.internal");

    assert_eq!(
        PulseAudioDevice::from_name("Absent".to_string(), &identifiers).unwrap_err(),
        BackendError::DeviceNotFound
    );
    assert_eq!(
        PulseAudioDevice::from_id("gone".to_string(), &identifiers).unwrap_err(),
        BackendError::DeviceNotFound
    );

    assert_eq!(
        PulseAudio::get_device_id("Built-in Audio".to_string(), &identifiers).unwrap(),
        "alsa_output.internal"
    );
    assert_eq!(
        PulseAudio::get_device_name("alsa_output.usb".to_string(), &identifiers).unwrap(),
        "USB Audio"
    );
    assert_eq!(
        PulseAudio::get_device_name("gone".to_string(), &identifiers).unwrap_err(),
        BackendError::DeviceNotFound
    );
}

#[test]
fn wasapi_identity_and_enumeration() {
    let probes = vec![
        endpoint("{uid-a}", "Speakers", 2),
        EndpointProbe {
            uid: "{uid-b}".to_string(),
            name: Some("Microphone".to_string()),
            renders: false,
            active: true,
            channels: 1,
        },
        EndpointProbe {
            uid: "{uid-c}".to_string(),
            name: Some("Sleeping Card".to_string()),
            renders: true,
            active: false,
            channels: 2,
        },
    ];
    let rows = WASAPI::get_device_identifiers(&probes).unwrap();
    assert_eq!(
        rows,
        vec![("{uid-a}".to_string(), "Speakers".to_string())]
    );

    let device = WASAPIDevice::from_name("Speakers".to_string(), &probes).unwrap();
    assert_eq!(device.get_device_uid().unwrap(), "{uid-a}");
    assert_eq!(device.get_name(&probes).unwrap(), "Speakers");

    let by_uid = WASAPIDevice::from_uid("{uid-a}".to_string(), &probes).unwrap();
    assert_eq!(by_uid.get_device_uid().unwrap(), "{uid-a}");

    // The capture-only endpoint never resolves as an output.
    assert_eq!(
        WASAPIDevice::from_uid("{uid-b}".to_string(), &probes).unwrap_err(),
        BackendError::DeviceNotFound
    );

    let default = WASAPI::get_default_output_device(Some("{uid-a}".to_string()), &probes).unwrap();
    assert_eq!(default.get_device_uid().unwrap(), "{uid-a}");
    assert_eq!(
        WASAPI::get_default_output_device(Some("{gone}".to_string()), &probes).unwrap_err(),
        BackendError::DeviceNotFound
    );
}
