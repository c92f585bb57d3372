use vstd::prelude::*;

verus! {

/// Why reaching a device, or the audio service behind it, failed.
#[derive(Clone, Copy, Debug, PartialEq, Eq, Structural)]
pub enum AccessFault {
    /// The connection to the audio service reached its failed state.
    ConnectionFailed,
    /// The connection to the audio service was terminated before it became ready.
    ConnectionTerminated,
    /// The device existed when it was resolved but was absent from the
    /// listing delivered during the operation: a transient race, reported
    /// distinctly from an ordinary lookup miss.
    DeviceVanished,
    /// A device record arrived without the description it must carry.
    DescriptionMissing,
    /// The mute-property read failed, so the mute state is unknown.
    MuteStateUnknown,
}

/// Why enumerating the device inventory failed.
#[derive(Clone, Copy, Debug, PartialEq, Eq, Structural)]
pub enum EnumFault {
    /// The platform refused to hand out the device inventory.
    ProbeFailed,
    /// A device was listed but its human-readable name could not be read.
    NameMissing,
}

/// Why reading a volume failed.
#[derive(Clone, Copy, Debug, PartialEq, Eq, Structural)]
pub enum CaptureFault {
    /// Every per-channel read failed, so no average could be formed.
    /// `channel_count` is the number of channels probed (master included);
    /// `channels_captured` is how many reads succeeded.
    NoChannelsCaptured { channel_count: u32, channels_captured: u32 },
    /// The volume text reported by the audio service did not parse as a percentage.
    MalformedVolume,
    /// The listing callback reported an error instead of device records.
    ListingFailed,
}

/// Why writing a volume failed.
#[derive(Clone, Copy, Debug, PartialEq, Eq, Structural)]
pub enum SetFault {
    /// No channel accepted the written level.
    NoChannelAccepted,
    /// The mute-toggle step that re-synchronizes the hardware indicator failed.
    SyncFailed,
    /// The write was never handed to the audio service.
    NotApplied,
}

/// Why changing the mute state failed.
#[derive(Clone, Copy, Debug, PartialEq, Eq, Structural)]
pub enum MuteFault {
    /// The mute property write was rejected.
    WriteRejected,
}

/// The error taxonomy shared by every backend.
#[derive(Clone, Copy, Debug, PartialEq, Eq, Structural)]
pub enum Error {
    /// No enumerated device matched the requested name or identifier.
    DeviceNotFound,
    DeviceAccessFailed(AccessFault),
    DeviceEnumerationFailed(EnumFault),
    VolumeCaptureFailed(CaptureFault),
    VolumeSetFailed(SetFault),
    MuteSetFailed(MuteFault),
    /// The operation was invoked on an operating system without a backend.
    PlatformUnsupported,
}

} // verus!
