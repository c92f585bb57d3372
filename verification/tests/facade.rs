use cpvc::coreaudio::CoreAudioProbe;
use cpvc::get_default_output_dev;
use cpvc::get_mute;
use cpvc::get_sound_devices;
use cpvc::get_system_volume;
use cpvc::set_mute;
use cpvc::set_system_volume;
use cpvc::state::DeviceState;
use cpvc::OutputListing;

fn listing(name: &str, outputs: u32, inputs: u32) -> OutputListing {
    OutputListing {
        name: name.to_string(),
        output_streams: outputs,
        input_streams: inputs,
    }
}

fn stereo(left: u32, right: u32, mute: bool) -> DeviceState {
    DeviceState {
        levels: vec![left, right],
        mute,
    }
}

#[test]
fn sound_devices() {
    let devices = vec![
        listing("Speakers", 2, 0),
        listing("Microphone", 0, 1),
        listing("Headset", 1, 1),
    ];
    let names = get_sound_devices(&devices);
    assert_eq!(names, vec!["Speakers".to_string(), "Headset".to_string()]);
}

#[test]
fn sound_devices_skips_input_only() {
    // A device exposing only input streams never appears, however many.
    let devices = vec![listing("Line In", 0, 8), listing("Webcam Mic", 0, 1)];
    let names = get_sound_devices(&devices);
    assert!(names.is_empty());
}

#[test]
fn get_sound_test() {
    // Two channels at 50%/50%, unmuted: the read returns exactly 50.
    let dev = stereo(5000, 5000, false);
    assert_eq!(get_system_volume(&dev), 50);
}

#[test]
fn get_sound_rounding() {
    // 33.33% on both channels: the sum is rounded to the nearest
    // percentage point before the average is taken.
    let dev = stereo(3333, 3333, false);
    assert_eq!(get_system_volume(&dev), 33);
}

#[test]
fn set_sound_test() {
    let mut dev = stereo(9000, 1000, false);
    assert!(set_system_volume(&mut dev, 2));
    assert_eq!(dev.levels, vec![200, 200]);
    assert!(!dev.mute);
    assert_eq!(get_system_volume(&dev), 2);
}

#[test]
fn set_volume_round_trip() {
    // For every level, writing then reading returns the level exactly,
    // and zero leaves the device muted.
    for level in 0..=100u8 {
        let mut dev = stereo(1234, 8765, false);
        assert!(set_system_volume(&mut dev, level));
        assert_eq!(get_system_volume(&dev), level);
        assert_eq!(get_mute(&dev), level == 0);
    }
}

#[test]
fn set_zero_engages_mute() {
    // Writing zero mutes, whatever the channels held before, and the
    // following read is exactly zero through mute dominance.
    let mut dev = stereo(10000, 10000, false);
    assert!(set_system_volume(&mut dev, 0));
    assert!(get_mute(&dev));
    assert_eq!(get_system_volume(&dev), 0);
}

#[test]
fn set_mute_test() {
    let mut dev = stereo(7500, 7500, false);
    assert!(set_mute(&mut dev, true));
    assert_eq!(get_system_volume(&dev), 0);
}

#[test]
fn get_mute_status() {
    let mut dev = stereo(6000, 6000, false);
    assert!(!get_mute(&dev));
    assert_eq!(get_system_volume(&dev), 60);
    assert!(set_mute(&mut dev, true));
    assert!(get_mute(&dev));
    assert_eq!(get_system_volume(&dev), 0);
}

#[test]
fn mute_then_unmute_restores_level() {
    // Muting reads as zero; unmuting restores the previously-set level,
    // because the channel levels are never touched by a mute write.
    let mut dev = stereo(0, 0, false);
    assert!(set_system_volume(&mut dev, 75));
    assert_eq!(get_system_volume(&dev), 75);
    assert!(set_mute(&mut dev, true));
    assert_eq!(get_system_volume(&dev), 0);
    assert!(set_mute(&mut dev, false));
    assert_eq!(get_system_volume(&dev), 75);
}

#[test]
fn default_output_name() {
    let probe = CoreAudioProbe {
        device_id: 41,
        name: Some("Studio Monitors".to_string()),
        hw_name: None,
        output_streams: Some(1),
        input_streams: None,
        channels: Some(2),
    };
    assert_eq!(get_default_output_dev(&Some(probe)), "Studio Monitors");
    assert_eq!(get_default_output_dev(&None), "");
}
