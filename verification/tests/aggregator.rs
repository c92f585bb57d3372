use cpvc::aggregate::read_volume;
use cpvc::coreaudio::CoreAudioDevice;
use cpvc::aggregate::volume_write_plan;
use cpvc::aggregate::write_verdict;
use cpvc::aggregate::AudioAction;
use cpvc::coreaudio::CoreAudio;
use cpvc::error::CaptureFault;
use cpvc::error::Error;
use cpvc::error::MuteFault;
use cpvc::error::SetFault;
use cpvc::state::apply_plan;
use cpvc::state::DeviceState;
use cpvc::wasapi::WASAPI;
use cpvc::VolumeControl;
use cpvc::VolumeReading;

#[test]
fn average_excludes_failed_channels() {
    // Four channels, one read fails: the average is over the other
    // three, not an error and not a zero standing in for the failure.
    let reads = vec![Some(5000), None, Some(5000), Some(5000)];
    assert_eq!(read_volume(false, &reads), Ok(50));
}

#[test]
fn all_channels_failing_is_an_error() {
    // Every read failed: the error names how many channels were probed
    // and that none answered.
    let reads = vec![None, None, None, None, None];
    assert_eq!(
        read_volume(false, &reads),
        Err(Error::VolumeCaptureFailed(CaptureFault::NoChannelsCaptured {
            channel_count: 5,
            channels_captured: 0,
        }))
    );
}

#[test]
fn mute_dominates_the_read() {
    // A muted device reads as zero without consulting the channels —
    // even channels that would fail to read.
    let reads = vec![None, None];
    assert_eq!(read_volume(true, &reads), Ok(0));
    assert_eq!(read_volume(true, &vec![Some(10000)]), Ok(0));
}

#[test]
fn average_rounds_to_the_nearest_point() {
    // The scaled sum is rounded once, then divided by the captured
    // count: 33.33% twice sums to 6666 units, rounds to 67, and the
    // integer average is 33.
    assert_eq!(read_volume(false, &vec![Some(3333), Some(3333)]), Ok(33));
    // 0.5% on one channel rounds half up.
    assert_eq!(read_volume(false, &vec![Some(50)]), Ok(1));
    assert_eq!(read_volume(false, &vec![Some(49)]), Ok(0));
}

#[test]
fn write_plan_broadcasts_then_toggles() {
    // Setting 75% on a two-channel device writes channels 0..=2 (the
    // master channel included), then toggles mute on and off so the
    // hardware indicator re-synchronizes.
    let plan = volume_write_plan(75, 2);
    assert_eq!(
        plan,
        vec![
            AudioAction::SetChannel { channel: 0, level: 7500 },
            AudioAction::SetChannel { channel: 1, level: 7500 },
            AudioAction::SetChannel { channel: 2, level: 7500 },
            AudioAction::SetMute { mute: true },
            AudioAction::SetMute { mute: false },
        ]
    );
}

#[test]
fn write_plan_for_zero_stays_muted() {
    // Setting zero engages mute and stops: no toggle back off.
    let plan = volume_write_plan(0, 1);
    assert_eq!(
        plan,
        vec![
            AudioAction::SetChannel { channel: 0, level: 0 },
            AudioAction::SetChannel { channel: 1, level: 0 },
            AudioAction::SetMute { mute: true },
        ]
    );
}

#[test]
fn applying_the_plan_sets_the_state() {
    let mut dev = DeviceState {
        levels: vec![1000, 2000, 3000],
        mute: false,
    };
    let plan = volume_write_plan(75, 2);
    apply_plan(&mut dev, &plan);
    assert_eq!(dev.levels, vec![7500, 7500, 7500]);
    assert!(!dev.mute);

    let zero_plan = volume_write_plan(0, 2);
    apply_plan(&mut dev, &zero_plan);
    assert_eq!(dev.levels, vec![0, 0, 0]);
    assert!(dev.mute);
}

#[test]
fn verdict_absorbs_single_channel_refusals() {
    let plan = volume_write_plan(40, 2);
    // One channel refused, the rest and the sync steps succeeded.
    assert_eq!(
        write_verdict(&plan, &vec![true, false, true, true, true]),
        Ok(())
    );
}

#[test]
fn verdict_failures() {
    let plan = volume_write_plan(40, 1);
    assert_eq!(
        write_verdict(&plan, &vec![false, false, true, true]),
        Err(Error::VolumeSetFailed(SetFault::NoChannelAccepted))
    );
    assert_eq!(
        write_verdict(&plan, &vec![true, true, false, true]),
        Err(Error::VolumeSetFailed(SetFault::SyncFailed))
    );
    assert_eq!(
        write_verdict(&plan, &vec![true, true]),
        Err(Error::VolumeSetFailed(SetFault::NotApplied))
    );
}

#[test]
fn backends_share_the_capability_contract() {
    let reading = VolumeReading {
        mute: false,
        channels: vec![Some(2000), Some(4000)],
    };
    assert_eq!(<CoreAudio as VolumeControl>::get_vol(&reading), Ok(30));
    assert_eq!(<WASAPI as VolumeControl>::get_vol(&reading), Ok(30));

    let muted = VolumeReading {
        mute: true,
        channels: vec![None],
    };
    assert_eq!(<CoreAudio as VolumeControl>::get_vol(&muted), Ok(0));

    assert_eq!(
        <CoreAudio as VolumeControl>::set_vol(40, 1, &vec![true, true, true, true]),
        Ok(())
    );
    assert_eq!(<CoreAudio as VolumeControl>::get_mute(Some(true)), Ok(true));
    assert_eq!(
        <WASAPI as VolumeControl>::set_mute(true, false),
        Err(Error::MuteSetFailed(MuteFault::WriteRejected))
    );
    assert_eq!(<WASAPI as VolumeControl>::set_mute(false, true), Ok(()));
}

#[test]
fn coreaudio_device_ops() {
    let device = CoreAudioDevice::from_hw_id(5, &vec![(5, "Deck".to_string())]).unwrap();
    // The mute property holds one when muted; a failed read falls back
    // to unmuted.
    assert_eq!(device.get_mute(Some(1)), Ok(true));
    assert_eq!(device.get_mute(Some(0)), Ok(false));
    assert_eq!(device.get_mute(None), Ok(false));
    // Muted: the volume is zero without reading channels.
    assert_eq!(device.get_vol(Some(1), &vec![None]), Ok(0));
    // Unmuted: aggregate over the channel reads.
    assert_eq!(
        device.get_vol(Some(0), &vec![Some(5000), Some(7000)]),
        Ok(60)
    );
    assert_eq!(
        device.set_vol(30, Some(1), &vec![true, true, true, true]),
        Ok(())
    );
    assert_eq!(
        device.set_vol(30, None, &vec![]),
        Err(Error::VolumeSetFailed(SetFault::NotApplied))
    );
    assert_eq!(device.set_mute(true, true), Ok(()));
    assert_eq!(
        device.set_mute(true, false),
        Err(Error::MuteSetFailed(MuteFault::WriteRejected))
    );
}
