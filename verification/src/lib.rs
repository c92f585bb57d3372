//! Control-plane operations for the operating system's default audio output:
//! reading and adjusting volume, mute state, and the output-device inventory.
//!
//! The crate verifies the parts that carry real design weight: the
//! multi-channel volume aggregation and broadcast algorithm, the device
//! identity model and output-device filtering, and the synchronous bridge
//! that turns a callback-driven, event-loop-based audio service into
//! blocking calls.  Platform glue performs the native calls and hands the
//! results to these functions as plain values.

use vstd::prelude::*;

pub mod aggregate;
pub mod bridge;
pub mod coreaudio;
pub mod device;
pub mod error;
pub mod pulseaudio;
pub mod scan;
pub mod state;
pub mod wasapi;

use crate::aggregate::AudioAction;
use crate::aggregate::all_mutes_acked;
use crate::aggregate::averaged_percent;
use crate::aggregate::captured_count;
use crate::aggregate::read_volume;
use crate::aggregate::reads_in_scale;
use crate::aggregate::some_channel_acked;
use crate::aggregate::volume_write_plan;
use crate::aggregate::write_plan;
use crate::error::AccessFault;
use crate::error::CaptureFault;
use crate::error::Error;
use crate::error::MuteFault;
use crate::error::SetFault;
use crate::state::DeviceState;
use crate::state::apply_plan;
use crate::state::broadcast_levels;
use crate::state::lemma_as_reads_captures;
use crate::state::lemma_write_plan_applies;
use crate::state::as_reads;
use crate::state::read_percent;

verus! {

/// Whether a probed device turned out to be an input, an output, or neither.
#[derive(Clone, Copy, Debug, PartialEq, Eq, Structural)]
pub enum DeviceType {
    Input,
    Output,
    Unknown,
}

/// One enumerated device, reduced to what the inventory scan needs: its
/// human-readable name and how many output and input streams it exposes.
#[derive(Clone, Debug)]
pub struct OutputListing {
    pub name: String,
    pub output_streams: u32,
    pub input_streams: u32,
}

/// The names of the devices that expose at least one output stream, in
/// enumeration order.  A device with no output stream — in particular an
/// input-only device — contributes nothing, whatever else it exposes.
pub open spec fn output_names(devices: Seq<OutputListing>) -> Seq<String>
    decreases devices.len(),
{
    if devices.len() == 0 {
        Seq::empty()
    } else {
        let rest = output_names(devices.drop_last());
        if devices.last().output_streams > 0 {
            rest.push(devices.last().name)
        } else {
            rest
        }
    }
}

/// The output-only enumeration law: every name in the scan result comes from a
/// device exposing at least one output stream, so a device that exposes
/// only input streams never appears.
pub proof fn lemma_enumeration_outputs_only(devices: Seq<OutputListing>)
    ensures
        forall|j: int|
            0 <= j < output_names(devices).len() ==> exists|i: int|
                0 <= i < devices.len() && #[trigger] devices[i].output_streams > 0
                    && devices[i].name == #[trigger] output_names(devices)[j],
    decreases devices.len(),
{
    if devices.len() > 0 {
        lemma_enumeration_outputs_only(devices.drop_last());
        let names = output_names(devices);
        let rest = output_names(devices.drop_last());
        assert forall|j: int| 0 <= j < names.len() implies exists|i: int|
            0 <= i < devices.len() && #[trigger] devices[i].output_streams > 0 && devices[i].name
                == #[trigger] names[j] by {
            if j < rest.len() {
                let w = choose|i: int|
                    0 <= i < devices.drop_last().len() && #[trigger] devices.drop_last()[i].output_streams
                        > 0 && devices.drop_last()[i].name == rest[j];
                assert(devices[w].output_streams > 0 && devices[w].name == names[j]);
            } else {
                assert(devices[devices.len() - 1].output_streams > 0);
            }
        }
    }
}

/// The capability contract every backend implements: the five control
/// operations, each over the plain values that its platform's probing or
/// write attempts produced.
pub trait VolumeControl {
    /// The output-device names found in a probed inventory.
    fn get_sound_devices(devices: &Vec<OutputListing>) -> (r: Result<Vec<String>, Error>)
        ensures
            r matches Ok(names) && names@ == output_names(devices@),
    ;

    /// The volume of the default device, from its mute state and its
    /// per-channel read outcomes, as a fraction of full scale in whole
    /// percentage points.
    fn get_vol(reading: &VolumeReading) -> (r: Result<u8, Error>)
        requires
            reading.wf(),
        ensures
            reading.mute ==> r == Ok::<u8, Error>(0u8),
            !reading.mute && captured_count(reading.channels@) == 0 ==> r == Err::<u8, Error>(
                Error::VolumeCaptureFailed(
                    CaptureFault::NoChannelsCaptured {
                        channel_count: reading.channels@.len() as u32,
                        channels_captured: 0u32,
                    },
                ),
            ),
            !reading.mute && captured_count(reading.channels@) > 0 ==> r == Ok::<u8, Error>(
                averaged_percent(reading.channels@) as u8,
            ),
    ;

    /// Judge one performed volume write: the plan for `percent` over
    /// channels `0..=channels`, with one acknowledgement per action.
    fn set_vol(percent: u8, channels: u32, acks: &Vec<bool>) -> (r: Result<(), Error>)
        requires
            percent <= 100,
            channels + 3 <= usize::MAX,
        ensures
            ({
                let plan = write_plan(percent, channels);
                &&& plan.len() != acks@.len() ==> r == Err::<(), Error>(
                    Error::VolumeSetFailed(SetFault::NotApplied),
                )
                &&& plan.len() == acks@.len() && !some_channel_acked(plan, acks@) ==> r
                    == Err::<(), Error>(Error::VolumeSetFailed(SetFault::NoChannelAccepted))
                &&& plan.len() == acks@.len() && some_channel_acked(plan, acks@)
                    && !all_mutes_acked(plan, acks@) ==> r == Err::<(), Error>(
                    Error::VolumeSetFailed(SetFault::SyncFailed),
                )
                &&& plan.len() == acks@.len() && some_channel_acked(plan, acks@) && all_mutes_acked(
                    plan,
                    acks@,
                ) ==> r == Ok::<(), Error>(())
            }),
    ;

    /// The mute state of the default device, from the outcome of the
    /// single mute-property read.
    fn get_mute(read: Option<bool>) -> (r: Result<bool, Error>)
        ensures
            read matches Some(m) ==> r == Ok::<bool, Error>(m),
            read is None ==> r == Err::<bool, Error>(
                Error::DeviceAccessFailed(AccessFault::MuteStateUnknown),
            ),
    ;

    /// Judge one performed mute write, from its acknowledgement.
    fn set_mute(state: bool, ack: bool) -> (r: Result<(), Error>)
        ensures
            ack ==> r == Ok::<(), Error>(()),
            !ack ==> r == Err::<(), Error>(Error::MuteSetFailed(MuteFault::WriteRejected)),
    ;
}

/// One probing of the default device for a volume read: its mute state and
/// the outcome of each per-channel level read, in scalar units.
#[derive(Clone, Debug)]
pub struct VolumeReading {
    pub mute: bool,
    pub channels: Vec<Option<u32>>,
}

impl VolumeReading {
    /// Each successful read is in scale, and the channel count fits the
    /// platform's 32-bit channel numbering.
    pub open spec fn wf(&self) -> bool {
        &&& reads_in_scale(self.channels@)
        &&& self.channels@.len() <= u32::MAX
    }
}

/// Gathers the human-readable device name of each output device in a
/// probed inventory.
pub fn get_sound_devices(devices: &Vec<OutputListing>) -> (names: Vec<String>)
    ensures
        names@ == output_names(devices@),
{
    let mut names: Vec<String> = Vec::new();
    let mut i: usize = 0;
    while i < devices.len()
        invariant
            0 <= i <= devices@.len(),
            names@ == output_names(devices@.subrange(0, i as int)),
        decreases devices@.len() - i,
    {
        proof {
            assert(devices@.subrange(0, i + 1).drop_last() =~= devices@.subrange(0, i as int));
            assert(devices@.subrange(0, i + 1).last() == devices@[i as int]);
        }
        if devices[i].output_streams > 0 {
            names.push(devices[i].name.clone());
        }
        i = i + 1;
    }
    proof {
        assert(devices@.subrange(0, devices@.len() as int) =~= devices@);
    }
    names
}

/// Gathers the current volume of the default output device, in percent:
/// zero when the device is muted, otherwise the rounded average of its
/// channel levels.
///
/// This and the three operations below state the semantics of the
/// capability contract against the device-state model of
/// [`crate::state`]: a device on which every read and write lands.  The
/// backends realize the same operations over fallible probe outcomes —
/// see [`VolumeControl`] and the backend modules.
pub fn get_system_volume(dev: &DeviceState) -> (vol: u8)
    requires
        dev.wf(),
    ensures
        vol == read_percent(dev.levels@, dev.mute),
        vol <= 100,
{
    if dev.mute {
        return 0;
    }
    let mut reads: Vec<Option<u32>> = Vec::new();
    let mut i: usize = 0;
    while i < dev.levels.len()
        invariant
            0 <= i <= dev.levels@.len() <= u32::MAX,
            dev.wf(),
            reads@ == as_reads(dev.levels@).subrange(0, i as int),
        decreases dev.levels@.len() - i,
    {
        reads.push(Some(dev.levels[i]));
        proof {
            assert(reads@ =~= as_reads(dev.levels@).subrange(0, i + 1));
        }
        i = i + 1;
    }
    proof {
        assert(reads@ =~= as_reads(dev.levels@));
        lemma_as_reads_captures(dev.levels@);
        crate::aggregate::lemma_averaged_percent_bounds(reads@);
    }
    match read_volume(false, &reads) {
        Ok(vol) => vol,
        Err(_) => {
            proof {
                assert(false);
            }
            0
        },
    }
}

/// Sets the volume of the default output device, in percent, by applying
/// the aggregator's write plan: the level is broadcast to every channel,
/// then mute is toggled on and off so the hardware level indicator
/// re-synchronizes — except that a write of zero engages mute and leaves
/// the device muted.
pub fn set_system_volume(dev: &mut DeviceState, percent: u8) -> (ok: bool)
    requires
        old(dev).wf(),
        percent <= 100,
        old(dev).levels@.len() + 2 <= usize::MAX,
    ensures
        final(dev).levels@ == broadcast_levels(old(dev).levels@.len(), percent),
        final(dev).mute == (percent == 0),
        final(dev).wf(),
        ok,
{
    let channels: u32 = (dev.levels.len() - 1) as u32;
    let plan = volume_write_plan(percent, channels);
    proof {
        assert forall|i: int|
            0 <= i < plan@.len() implies (#[trigger] plan@[i] matches AudioAction::SetChannel {
            level,
            ..
        } ==> level <= crate::aggregate::FULL_SCALE) by {
            if i < channels + 1 {
                assert(plan@[i] == (AudioAction::SetChannel {
                    channel: i as u32,
                    level: (percent * 100) as u32,
                }));
            }
        }
        lemma_write_plan_applies(dev.levels@, dev.mute, percent, channels);
    }
    apply_plan(dev, &plan);
    true
}

/// Sets the mute state of the default output device, leaving the stored
/// channel levels untouched.
pub fn set_mute(dev: &mut DeviceState, mute: bool) -> (ok: bool)
    requires
        old(dev).wf(),
    ensures
        final(dev).levels@ == old(dev).levels@,
        final(dev).mute == mute,
        final(dev).wf(),
        ok,
{
    dev.mute = mute;
    true
}

/// Reads the mute state of the default output device.
pub fn get_mute(dev: &DeviceState) -> (mute: bool)
    ensures
        mute == dev.mute,
{
    dev.mute
}

/// The human-readable name of the current default output device, from
/// the platform's probe of it — or the empty string where the probe, or
/// the name within it, failed.
pub fn get_default_output_dev(probe: &Option<crate::coreaudio::CoreAudioProbe>) -> (name: String)
    ensures
        name@ == (match *probe {
            Option::Some(p) => (match p.name {
                Option::Some(n) => n@,
                Option::None => Seq::<char>::empty(),
            }),
            Option::None => Seq::<char>::empty(),
        }),
{
    match probe {
        Some(p) => match &p.name {
            Some(n) => n.clone(),
            None => String::new(),
        },
        None => String::new(),
    }
}

} // verus!
