use cpvc::bridge::parse_percent;
use cpvc::bridge::Action;
use cpvc::bridge::ContextState;
use cpvc::bridge::Event;
use cpvc::bridge::OperationState;
use cpvc::bridge::Request;
use cpvc::bridge::Session;
use cpvc::bridge::SinkRecord;
use cpvc::error::AccessFault;
use cpvc::error::CaptureFault;
use cpvc::error::Error;
use cpvc::pulseaudio::PulseAudio;
use cpvc::pulseaudio::PulseAudioDevice;

fn sink(name: &str, description: &str, index: u32, mute: bool, volume: &str) -> SinkRecord {
    SinkRecord {
        name: name.to_string(),
        description: description.to_string(),
        index,
        mute,
        volume_text: volume.as_bytes().to_vec(),
        has_active_port: true,
    }
}

#[test]
fn get_volume_session_runs_to_completion() {
    let device = PulseAudioDevice::from_id(
        "sink.usb".to_string(),
        &vec![("sink.usb".to_string(), "USB Audio".to_string())],
    )
    .unwrap();
    let mut session = device.volume_session();

    // The connection is pumped until it is ready, then the one listing
    // request is submitted.
    assert_eq!(session.step(Event::Context(ContextState::Connecting)), Action::Pump);
    assert_eq!(session.step(Event::Context(ContextState::Ready)), Action::SubmitListing);

    // Records for other sinks are ignored; the target's record lands in
    // the result cell.
    assert_eq!(
        session.step(Event::Sink(sink("sink.hdmi", "HDMI Audio", 1, false, "20%"))),
        Action::Pump
    );
    assert_eq!(
        session.step(Event::Sink(sink("sink.usb", "USB Audio", 2, false, " 42%"))),
        Action::Pump
    );
    assert_eq!(session.step(Event::ListingEnded), Action::Pump);

    // The loop is pumped while the operation runs; when it stops
    // running, a read session completes and the loop is told to quit.
    assert_eq!(session.step(Event::Operation(OperationState::Running)), Action::Pump);
    assert_eq!(session.step(Event::Operation(OperationState::Done)), Action::Quit);
    assert!(session.complete());

    assert_eq!(session.volume_outcome(), Ok(42));
}

#[test]
fn muted_sink_reads_zero() {
    let device = PulseAudioDevice {
        dev_str: "sink.usb".to_string(),
    };
    let mut session = device.volume_session();
    session.step(Event::Context(ContextState::Ready));
    session.step(Event::Sink(sink("sink.usb", "USB Audio", 2, true, "42%")));
    session.step(Event::Operation(OperationState::Done));
    assert_eq!(session.volume_outcome(), Ok(0));
}

#[test]
fn malformed_volume_text_surfaces() {
    let device = PulseAudioDevice {
        dev_str: "sink.usb".to_string(),
    };
    let mut session = device.volume_session();
    session.step(Event::Context(ContextState::Ready));
    session.step(Event::Sink(sink("sink.usb", "USB Audio", 2, false, "loud")));
    session.step(Event::Operation(OperationState::Done));
    assert_eq!(
        session.volume_outcome(),
        Err(Error::VolumeCaptureFailed(CaptureFault::MalformedVolume))
    );
}

#[test]
fn vanished_device_is_reported() {
    // The target resolved earlier but never appeared in the listing: the
    // transient race is surfaced, not defaulted.
    let device = PulseAudioDevice {
        dev_str: "sink.unplugged".to_string(),
    };
    let mut session = device.volume_session();
    session.step(Event::Context(ContextState::Ready));
    session.step(Event::Sink(sink("sink.usb", "USB Audio", 2, false, "42%")));
    session.step(Event::Operation(OperationState::Done));
    assert_eq!(
        session.volume_outcome(),
        Err(Error::DeviceAccessFailed(AccessFault::DeviceVanished))
    );
}

#[test]
fn failed_connection_completes_immediately() {
    // A connection that reports Failed while connecting surfaces as
    // DeviceAccessFailed at once: the loop is told to quit, not pumped
    // forever.
    let device = PulseAudioDevice {
        dev_str: "sink.usb".to_string(),
    };
    let mut session = device.volume_session();
    assert_eq!(session.step(Event::Context(ContextState::Connecting)), Action::Pump);
    assert_eq!(session.step(Event::Context(ContextState::Failed)), Action::Quit);
    assert!(session.complete());
    assert_eq!(
        session.volume_outcome(),
        Err(Error::DeviceAccessFailed(AccessFault::ConnectionFailed))
    );
}

#[test]
fn terminated_connection_completes_immediately() {
    let mut session = Session::new(Request::GetMute {
        target: "sink.usb".to_string(),
    });
    assert_eq!(session.step(Event::Context(ContextState::Terminated)), Action::Quit);
    assert!(session.complete());
    assert_eq!(
        session.mute_outcome(),
        Err(Error::DeviceAccessFailed(AccessFault::ConnectionTerminated))
    );
}

#[test]
fn set_volume_session_applies_then_syncs() {
    let device = PulseAudioDevice {
        dev_str: "sink.usb".to_string(),
    };
    let mut session = device.set_volume_session(60);
    assert_eq!(session.step(Event::Context(ContextState::Ready)), Action::SubmitListing);
    assert_eq!(
        session.step(Event::Sink(sink("sink.usb", "USB Audio", 7, false, "20%"))),
        Action::Pump
    );
    // When the listing stops running, the level write for the matched
    // sink's index is submitted.
    assert_eq!(
        session.step(Event::Operation(OperationState::Done)),
        Action::SubmitVolumeWrite {
            index: 7,
            percent: 60
        }
    );
    assert_eq!(session.step(Event::Operation(OperationState::Running)), Action::Pump);
    // The level write completed: mute is toggled on, then off, so the
    // hardware level indicator re-synchronizes.
    assert_eq!(
        session.step(Event::Operation(OperationState::Done)),
        Action::SubmitMuteWrite {
            index: 7,
            mute: true
        }
    );
    assert_eq!(
        session.step(Event::Operation(OperationState::Done)),
        Action::SubmitMuteWrite {
            index: 7,
            mute: false
        }
    );
    assert_eq!(session.step(Event::Operation(OperationState::Done)), Action::Quit);
    assert!(session.complete());
    assert_eq!(session.apply_outcome(), Ok(()));
}

#[test]
fn set_volume_zero_engages_mute_and_stays() {
    // A write of zero applies the level, engages mute, and stops: no
    // toggle back off, leaving the sink muted.
    let device = PulseAudioDevice {
        dev_str: "sink.usb".to_string(),
    };
    let mut session = device.set_volume_session(0);
    session.step(Event::Context(ContextState::Ready));
    session.step(Event::Sink(sink("sink.usb", "USB Audio", 7, false, "20%")));
    assert_eq!(
        session.step(Event::Operation(OperationState::Done)),
        Action::SubmitVolumeWrite {
            index: 7,
            percent: 0
        }
    );
    assert_eq!(
        session.step(Event::Operation(OperationState::Done)),
        Action::SubmitMuteWrite {
            index: 7,
            mute: true
        }
    );
    assert_eq!(session.step(Event::Operation(OperationState::Done)), Action::Quit);
    assert!(session.complete());
    assert_eq!(session.apply_outcome(), Ok(()));
}

#[test]
fn set_mute_session_targets_the_matched_index() {
    let device = PulseAudioDevice {
        dev_str: "sink.usb".to_string(),
    };
    let mut session = device.set_mute_session(true);
    session.step(Event::Context(ContextState::Ready));
    session.step(Event::Sink(sink("sink.usb", "USB Audio", 3, false, "20%")));
    assert_eq!(
        session.step(Event::Operation(OperationState::Done)),
        Action::SubmitMuteWrite {
            index: 3,
            mute: true
        }
    );
    assert_eq!(session.step(Event::Operation(OperationState::Done)), Action::Quit);
    assert_eq!(session.apply_outcome(), Ok(()));
}

#[test]
fn set_session_for_vanished_sink_never_writes() {
    let device = PulseAudioDevice {
        dev_str: "sink.unplugged".to_string(),
    };
    let mut session = device.set_volume_session(60);
    session.step(Event::Context(ContextState::Ready));
    session.step(Event::Sink(sink("sink.usb", "USB Audio", 7, false, "20%")));
    // No match: the session completes without submitting a write.
    assert_eq!(session.step(Event::Operation(OperationState::Done)), Action::Quit);
    assert_eq!(
        session.apply_outcome(),
        Err(Error::DeviceAccessFailed(AccessFault::DeviceVanished))
    );
}

#[test]
fn listing_session_collects_every_sink() {
    let mut session = PulseAudio::listing_session();
    session.step(Event::Context(ContextState::Ready));
    session.step(Event::Sink(sink("sink.usb", "USB Audio", 1, false, "10%")));
    session.step(Event::Sink(sink("sink.hdmi", "HDMI Audio", 2, false, "20%")));
    session.step(Event::ListingEnded);
    session.step(Event::Operation(OperationState::Done));
    let rows = PulseAudio::get_device_identifiers(&session).unwrap();
    assert_eq!(
        rows,
        vec![
            ("sink.usb".to_string(), "USB Audio".to_string()),
            ("sink.hdmi".to_string(), "HDMI Audio".to_string()),
        ]
    );
}

#[test]
fn listing_error_lands_in_the_error_cell() {
    let mut session = PulseAudio::listing_session();
    session.step(Event::Context(ContextState::Ready));
    session.step(Event::ListingFailed);
    session.step(Event::Operation(OperationState::Done));
    assert!(PulseAudio::get_device_identifiers(&session).is_err());
}

#[test]
fn default_sink_takes_the_last_active_port() {
    let mut first = sink("sink.a", "Built-in Audio", 1, false, "10%");
    first.has_active_port = false;
    let second = sink("sink.b", "USB Audio", 2, false, "20%");
    let third = sink("sink.c", "HDMI Audio", 3, false, "30%");
    let sinks = vec![first, second, third];
    let identifiers = vec![
        ("sink.b".to_string(), "USB Audio".to_string()),
        ("sink.c".to_string(), "HDMI Audio".to_string()),
    ];
    let device = PulseAudio::get_default_output_dev(&sinks, &identifiers).unwrap();
    assert_eq!(device.get_device_str(), "sink.c");

    let no_ports: Vec<SinkRecord> = Vec::new();
    assert_eq!(
        PulseAudio::get_default_output_dev(&no_ports, &identifiers).unwrap_err(),
        Error::DeviceNotFound
    );
}

#[test]
fn percent_text_parsing() {
    assert_eq!(parse_percent(&b" 50%".to_vec()), Some(50));
    assert_eq!(parse_percent(&b"0%".to_vec()), Some(0));
    assert_eq!(parse_percent(&b"255%".to_vec()), Some(255));
    assert_eq!(parse_percent(&b"100% ".to_vec()), Some(100));
    assert_eq!(parse_percent(&b"007%".to_vec()), Some(7));
    assert_eq!(parse_percent(&b"256%".to_vec()), None);
    assert_eq!(parse_percent(&b"50".to_vec()), None);
    assert_eq!(parse_percent(&b"%".to_vec()), None);
    assert_eq!(parse_percent(&b"".to_vec()), None);
    assert_eq!(parse_percent(&b"5a%".to_vec()), None);
}
