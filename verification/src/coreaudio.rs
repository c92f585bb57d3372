//! The backend for the object-property audio subsystem: devices are
//! numbered hardware objects whose name, stream counts, channel count,
//! per-channel levels and mute flag are read and written property by
//! property.  The platform glue performs those one-shot property calls and
//! hands their outcomes in as plain values; the filtering, identity
//! resolution and aggregation over them is verified here.

use vstd::prelude::*;

use crate::DeviceType;
use crate::OutputListing;
use crate::VolumeControl;
use crate::VolumeReading;
use crate::aggregate::read_volume;
use crate::aggregate::volume_write_plan;
use crate::aggregate::write_plan;
use crate::aggregate::write_verdict;
use crate::error::AccessFault;
use crate::error::EnumFault;
use crate::error::Error;
use crate::error::MuteFault;
use crate::error::SetFault;
use crate::output_names;

verus! {

/// One hardware object as the platform's probing reported it: its object
/// id (zero marks an empty slot, not a device), and the outcome of each
/// property read — the human-readable name, the hardware model name, the
/// stream counts in output and input scope, and the output channel count.
#[derive(Clone, Debug)]
pub struct CoreAudioProbe {
    pub device_id: u32,
    pub name: Option<String>,
    pub hw_name: Option<String>,
    pub output_streams: Option<u32>,
    pub input_streams: Option<u32>,
    pub channels: Option<u32>,
}

/// How a probe classifies: a device exposing an output stream is an
/// output, whatever else it exposes.  One with zero output streams is an
/// input whenever its input-scope read succeeded — the input stream count
/// itself is not inspected — and unknown when that read failed, as when
/// the output-scope read itself failed.
pub open spec fn device_type_of(p: CoreAudioProbe) -> DeviceType {
    match p.output_streams {
        Option::None => DeviceType::Unknown,
        Option::Some(outs) => {
            if outs > 0 {
                DeviceType::Output
            } else {
                match p.input_streams {
                    Option::None => DeviceType::Unknown,
                    Option::Some(_) => DeviceType::Input,
                }
            }
        },
    }
}

/// A probe that belongs in the output-device inventory: a real object id,
/// classified as an output.
pub open spec fn is_listed_output(p: CoreAudioProbe) -> bool {
    p.device_id != 0 && device_type_of(p) is Output
}

/// The identifier rows of an inventory: the id and name of every listed
/// output device that has a name, in probe order.
pub open spec fn identifier_rows(probes: Seq<CoreAudioProbe>) -> Seq<(u32, String)>
    decreases probes.len(),
{
    if probes.len() == 0 {
        Seq::empty()
    } else {
        let rest = identifier_rows(probes.drop_last());
        let p = probes.last();
        if is_listed_output(p) && p.name is Some {
            rest.push((p.device_id, p.name.unwrap()))
        } else {
            rest
        }
    }
}

/// Some listed output device is missing its name.
pub open spec fn some_output_unnamed(probes: Seq<CoreAudioProbe>) -> bool {
    exists|i: int|
        0 <= i < probes.len() && is_listed_output(#[trigger] probes[i]) && probes[i].name is None
}

/// The name of the first probe carrying this object id and a readable
/// name, in probe order.
pub open spec fn find_probe_name(probes: Seq<CoreAudioProbe>, id: u32) -> Option<String>
    decreases probes.len(),
{
    if probes.len() == 0 {
        Option::None
    } else if probes[0].device_id == id && probes[0].name is Some {
        Option::Some(probes[0].name.unwrap())
    } else {
        find_probe_name(probes.drop_first(), id)
    }
}

/// The hardware model name of the first probe carrying this object id
/// and a readable model name, in probe order.
pub open spec fn find_probe_hw_name(probes: Seq<CoreAudioProbe>, id: u32) -> Option<String>
    decreases probes.len(),
{
    if probes.len() == 0 {
        Option::None
    } else if probes[0].device_id == id && probes[0].hw_name is Some {
        Option::Some(probes[0].hw_name.unwrap())
    } else {
        find_probe_hw_name(probes.drop_first(), id)
    }
}

/// The backend facade for the object-property audio subsystem.
pub struct CoreAudio {}

impl CoreAudio {
    /// Classify one probed device, from the outcomes of its stream-count
    /// reads in output and input scope.
    pub fn check_device_type(probe: &CoreAudioProbe) -> (t: DeviceType)
        ensures
            t == device_type_of(*probe),
    {
        match probe.output_streams {
            Some(outs) => {
                if outs > 0 {
                    DeviceType::Output
                } else {
                    match probe.input_streams {
                        Some(_) => DeviceType::Input,
                        None => DeviceType::Unknown,
                    }
                }
            },
            None => DeviceType::Unknown,
        }
    }

    /// The id and name of every output device in a probed inventory.  A
    /// listed output device without a readable name fails the whole
    /// enumeration, surfaced rather than dropped.
    pub fn get_device_identifiers(probes: &Vec<CoreAudioProbe>) -> (r: Result<
        Vec<(u32, String)>,
        Error,
    >)
        ensures
            some_output_unnamed(probes@) ==> r == Err::<Vec<(u32, String)>, Error>(
                Error::DeviceEnumerationFailed(EnumFault::NameMissing),
            ),
            !some_output_unnamed(probes@) ==> (r matches Ok(rows) && rows@ == identifier_rows(
                probes@,
            )),
    {
        let mut rows: Vec<(u32, String)> = Vec::new();
        let mut i: usize = 0;
        while i < probes.len()
            invariant
                0 <= i <= probes@.len(),
                !some_output_unnamed(probes@.subrange(0, i as int)),
                rows@ == identifier_rows(probes@.subrange(0, i as int)),
            decreases probes@.len() - i,
        {
            proof {
                assert(probes@.subrange(0, i + 1).drop_last() =~= probes@.subrange(0, i as int));
                assert(probes@.subrange(0, i + 1).last() == probes@[i as int]);
            }
            let mut listed = false;
            if probes[i].device_id != 0 {
                let dt = CoreAudio::check_device_type(&probes[i]);
                match dt {
                    DeviceType::Output => {
                        listed = true;
                    },
                    _ => {},
                }
            }
            if listed {
                match &probes[i].name {
                    Some(name) => {
                        rows.push((probes[i].device_id, name.clone()));
                    },
                    None => {
                        proof {
                            assert(is_listed_output(probes@[i as int]));
                        }
                        return Err(Error::DeviceEnumerationFailed(EnumFault::NameMissing));
                    },
                }
            }
            proof {
                let pre = probes@.subrange(0, i as int);
                let cur = probes@.subrange(0, i + 1);
                assert forall|j: int|
                    0 <= j < cur.len() && is_listed_output(#[trigger] cur[j]) implies !(cur[j].name
                    is None) by {
                    if j < i as int {
                        assert(cur[j] == pre[j]);
                    }
                }
            }
            i = i + 1;
        }
        proof {
            assert(probes@.subrange(0, probes@.len() as int) =~= probes@);
        }
        Ok(rows)
    }

    /// The name of the device with a given object id, from a probed
    /// inventory: the first probe of that id with a readable name wins,
    /// and only an inventory holding none fails.
    pub fn get_device_name(device_id: u32, probes: &Vec<CoreAudioProbe>) -> (r: Result<
        String,
        Error,
    >)
        ensures
            find_probe_name(probes@, device_id) matches Some(name) ==> r == Ok::<String, Error>(
                name,
            ),
            find_probe_name(probes@, device_id) is None ==> r == Err::<String, Error>(
                Error::DeviceEnumerationFailed(EnumFault::NameMissing),
            ),
    {
        let mut i: usize = 0;
        proof {
            assert(probes@.skip(0) =~= probes@);
        }
        while i < probes.len()
            invariant
                0 <= i <= probes@.len(),
                find_probe_name(probes@, device_id) == find_probe_name(
                    probes@.skip(i as int),
                    device_id,
                ),
            decreases probes@.len() - i,
        {
            proof {
                assert(probes@.skip(i as int)[0] == probes@[i as int]);
                assert(probes@.skip(i as int).drop_first() =~= probes@.skip(i + 1));
            }
            if probes[i].device_id == device_id {
                match &probes[i].name {
                    Some(name) => {
                        return Ok(name.clone());
                    },
                    None => {},
                }
            }
            i = i + 1;
        }
        proof {
            assert(probes@.skip(i as int).len() == 0);
        }
        Err(Error::DeviceEnumerationFailed(EnumFault::NameMissing))
    }
}

impl VolumeControl for CoreAudio {
    fn get_sound_devices(devices: &Vec<OutputListing>) -> (r: Result<Vec<String>, Error>) {
        Ok(crate::get_sound_devices(devices))
    }

    fn get_vol(reading: &VolumeReading) -> (r: Result<u8, Error>) {
        read_volume(reading.mute, &reading.channels)
    }

    fn set_vol(percent: u8, channels: u32, acks: &Vec<bool>) -> (r: Result<(), Error>) {
        let plan = volume_write_plan(percent, channels);
        write_verdict(&plan, acks)
    }

    fn get_mute(read: Option<bool>) -> (r: Result<bool, Error>) {
        match read {
            Some(m) => Ok(m),
            None => Err(Error::DeviceAccessFailed(AccessFault::MuteStateUnknown)),
        }
    }

    fn set_mute(state: bool, ack: bool) -> (r: Result<(), Error>) {
        if ack {
            Ok(())
        } else {
            Err(Error::MuteSetFailed(MuteFault::WriteRejected))
        }
    }
}

/// The first identifier row bearing a name, scanned in order.
pub open spec fn find_id_by_name(rows: Seq<(u32, String)>, name: Seq<char>) -> Option<u32>
    decreases rows.len(),
{
    if rows.len() == 0 {
        Option::None
    } else if rows[0].1@ == name {
        Option::Some(rows[0].0)
    } else {
        find_id_by_name(rows.drop_first(), name)
    }
}

/// Whether some identifier row carries this object id.
pub open spec fn has_id(rows: Seq<(u32, String)>, id: u32) -> bool {
    exists|i: int| 0 <= i < rows.len() && (#[trigger] rows[i]).0 == id
}

/// One resolved device of the object-property backend, held by its
/// hardware object id.
#[derive(Clone, Copy, Debug, PartialEq, Eq, Structural)]
pub struct CoreAudioDevice {
    pub device_id: u32,
}

impl CoreAudioDevice {
    /// Resolve a device by exact human-readable name, by linear scan of
    /// the enumerated identifier rows.
    pub fn from_name(name: String, identifiers: &Vec<(u32, String)>) -> (r: Result<
        CoreAudioDevice,
        Error,
    >)
        ensures
            find_id_by_name(identifiers@, name@) matches Some(id) ==> r == Ok::<
                CoreAudioDevice,
                Error,
            >(CoreAudioDevice { device_id: id }),
            find_id_by_name(identifiers@, name@) is None ==> r == Err::<CoreAudioDevice, Error>(
                Error::DeviceNotFound,
            ),
    {
        let mut i: usize = 0;
        proof {
            assert(identifiers@.skip(0) =~= identifiers@);
        }
        while i < identifiers.len()
            invariant
                0 <= i <= identifiers@.len(),
                find_id_by_name(identifiers@, name@) == find_id_by_name(
                    identifiers@.skip(i as int),
                    name@,
                ),
            decreases identifiers@.len() - i,
        {
            proof {
                assert(identifiers@.skip(i as int)[0] == identifiers@[i as int]);
                assert(identifiers@.skip(i as int).drop_first() =~= identifiers@.skip(i + 1));
            }
            if identifiers[i].1 == name {
                return Ok(CoreAudioDevice { device_id: identifiers[i].0 });
            }
            i = i + 1;
        }
        proof {
            assert(identifiers@.skip(i as int).len() == 0);
        }
        Err(Error::DeviceNotFound)
    }

    /// Resolve a device by its stable unique-id string, through the
    /// platform's uid-to-object-id rows.
    pub fn from_uid(uid: String, uid_rows: &Vec<(String, u32)>) -> (r: Result<
        CoreAudioDevice,
        Error,
    >)
        ensures
            r matches Ok(d) ==> exists|i: int|
                0 <= i < uid_rows@.len() && (#[trigger] uid_rows@[i]).0@ == uid@ && uid_rows@[i].1
                    == d.device_id,
            r is Err ==> r == Err::<CoreAudioDevice, Error>(Error::DeviceNotFound) && (forall|
                i: int,
            |
                0 <= i < uid_rows@.len() ==> (#[trigger] uid_rows@[i]).0@ != uid@),
    {
        let mut i: usize = 0;
        while i < uid_rows.len()
            invariant
                0 <= i <= uid_rows@.len(),
                forall|j: int| 0 <= j < i ==> (#[trigger] uid_rows@[j]).0@ != uid@,
            decreases uid_rows@.len() - i,
        {
            if uid_rows[i].0 == uid {
                return Ok(CoreAudioDevice { device_id: uid_rows[i].1 });
            }
            i = i + 1;
        }
        Err(Error::DeviceNotFound)
    }

    /// Resolve a device by object id, confirming it is currently listed.
    pub fn from_hw_id(hw_id: u32, identifiers: &Vec<(u32, String)>) -> (r: Result<
        CoreAudioDevice,
        Error,
    >)
        ensures
            has_id(identifiers@, hw_id) ==> r == Ok::<CoreAudioDevice, Error>(
                CoreAudioDevice { device_id: hw_id },
            ),
            !has_id(identifiers@, hw_id) ==> r == Err::<CoreAudioDevice, Error>(
                Error::DeviceNotFound,
            ),
    {
        let mut i: usize = 0;
        while i < identifiers.len()
            invariant
                0 <= i <= identifiers@.len(),
                forall|j: int| 0 <= j < i ==> (#[trigger] identifiers@[j]).0 != hw_id,
            decreases identifiers@.len() - i,
        {
            if identifiers[i].0 == hw_id {
                return Ok(CoreAudioDevice { device_id: hw_id });
            }
            i = i + 1;
        }
        Err(Error::DeviceNotFound)
    }

    /// The hardware object id this device was resolved to.
    pub fn get_device_hw_id(&self) -> (id: u32)
        ensures
            id == self.device_id,
    {
        self.device_id
    }

    /// The device's human-readable name, looked up afresh in the probed
    /// inventory: the first probe of this device's id with a readable
    /// name wins, and only an inventory holding none fails.
    pub fn get_name(&self, probes: &Vec<CoreAudioProbe>) -> (r: Result<String, Error>)
        ensures
            find_probe_name(probes@, self.device_id) matches Some(name) ==> r == Ok::<
                String,
                Error,
            >(name),
            find_probe_name(probes@, self.device_id) is None ==> r == Err::<String, Error>(
                Error::DeviceEnumerationFailed(EnumFault::NameMissing),
            ),
    {
        CoreAudio::get_device_name(self.device_id, probes)
    }

    /// The device's hardware model name, from the probed inventory: the
    /// first probe of this device's id with a readable model name wins,
    /// and only an inventory holding none fails.
    pub fn get_hardware_device_name(&self, probes: &Vec<CoreAudioProbe>) -> (r: Result<
        String,
        Error,
    >)
        ensures
            find_probe_hw_name(probes@, self.device_id) matches Some(name) ==> r == Ok::<
                String,
                Error,
            >(name),
            find_probe_hw_name(probes@, self.device_id) is None ==> r == Err::<String, Error>(
                Error::DeviceAccessFailed(AccessFault::DescriptionMissing),
            ),
    {
        let mut i: usize = 0;
        proof {
            assert(probes@.skip(0) =~= probes@);
        }
        while i < probes.len()
            invariant
                0 <= i <= probes@.len(),
                find_probe_hw_name(probes@, self.device_id) == find_probe_hw_name(
                    probes@.skip(i as int),
                    self.device_id,
                ),
            decreases probes@.len() - i,
        {
            proof {
                assert(probes@.skip(i as int)[0] == probes@[i as int]);
                assert(probes@.skip(i as int).drop_first() =~= probes@.skip(i + 1));
            }
            if probes[i].device_id == self.device_id {
                match &probes[i].hw_name {
                    Some(name) => {
                        return Ok(name.clone());
                    },
                    None => {},
                }
            }
            i = i + 1;
        }
        proof {
            assert(probes@.skip(i as int).len() == 0);
        }
        Err(Error::DeviceAccessFailed(AccessFault::DescriptionMissing))
    }

    /// How a mute-property read is interpreted: the property holds one
    /// when muted; a failed read is treated as unmuted — the documented
    /// fallback of this backend, whose callers demand a non-failing
    /// answer.
    pub open spec fn mute_read_means(read: Option<u32>) -> bool {
        read == Some(1u32)
    }

    /// The device's volume: mute first — a muted device reads as zero —
    /// then the average over the per-channel reads, channel 0 (the master
    /// channel) included.
    pub fn get_vol(&self, mute_read: Option<u32>, reads: &Vec<Option<u32>>) -> (r: Result<
        u8,
        Error,
    >)
        requires
            crate::aggregate::reads_in_scale(reads@),
            reads@.len() <= u32::MAX,
        ensures
            Self::mute_read_means(mute_read) ==> r == Ok::<u8, Error>(0u8),
            !Self::mute_read_means(mute_read) && crate::aggregate::captured_count(reads@) == 0
                ==> r == Err::<u8, Error>(
                Error::VolumeCaptureFailed(
                    crate::error::CaptureFault::NoChannelsCaptured {
                        channel_count: reads@.len() as u32,
                        channels_captured: 0u32,
                    },
                ),
            ),
            !Self::mute_read_means(mute_read) && crate::aggregate::captured_count(reads@) > 0
                ==> r == Ok::<u8, Error>(crate::aggregate::averaged_percent(reads@) as u8),
    {
        let muted = self.get_mute(mute_read);
        let muted = match muted {
            Ok(m) => m,
            Err(_) => false,
        };
        read_volume(muted, reads)
    }

    /// Write a volume to the device: judge the performed write plan for
    /// `percent` over channels `0..=channels`, one acknowledgement per
    /// action.  A device whose channel count could not be read accepts no
    /// write at all.
    pub fn set_vol(&self, percent: u8, channels: Option<u32>, acks: &Vec<bool>) -> (r: Result<
        (),
        Error,
    >)
        requires
            percent <= 100,
            channels matches Some(n) ==> n + 3 <= usize::MAX,
        ensures
            channels is None ==> r == Err::<(), Error>(
                Error::VolumeSetFailed(SetFault::NotApplied),
            ),
            channels matches Some(n) ==> ({
                let plan = write_plan(percent, n);
                &&& plan.len() != acks@.len() ==> r == Err::<(), Error>(
                    Error::VolumeSetFailed(SetFault::NotApplied),
                )
                &&& plan.len() == acks@.len() && !crate::aggregate::some_channel_acked(plan, acks@)
                    ==> r == Err::<(), Error>(Error::VolumeSetFailed(SetFault::NoChannelAccepted))
                &&& plan.len() == acks@.len() && crate::aggregate::some_channel_acked(plan, acks@)
                    && !crate::aggregate::all_mutes_acked(plan, acks@) ==> r == Err::<(), Error>(
                    Error::VolumeSetFailed(SetFault::SyncFailed),
                )
                &&& plan.len() == acks@.len() && crate::aggregate::some_channel_acked(plan, acks@)
                    && crate::aggregate::all_mutes_acked(plan, acks@) ==> r == Ok::<(), Error>(())
            }),
    {
        match channels {
            None => Err(Error::VolumeSetFailed(SetFault::NotApplied)),
            Some(n) => {
                let plan = volume_write_plan(percent, n);
                write_verdict(&plan, acks)
            },
        }
    }

    /// The device's mute state, from the outcome of the mute-property
    /// read.  A failed read is treated as unmuted: the documented
    /// fallback, chosen over failing, because this backend's callers
    /// demand an answer.
    pub fn get_mute(&self, read: Option<u32>) -> (r: Result<bool, Error>)
        ensures
            r == Ok::<bool, Error>(Self::mute_read_means(read)),
    {
        match read {
            Some(v) => {
                if v == 1 {
                    Ok(true)
                } else {
                    Ok(false)
                }
            },
            None => Ok(false),
        }
    }

    /// Write the device's mute state: judge the acknowledgement of the
    /// mute-property write.
    pub fn set_mute(&self, state: bool, ack: bool) -> (r: Result<(), Error>)
        ensures
            ack ==> r == Ok::<(), Error>(()),
            !ack ==> r == Err::<(), Error>(Error::MuteSetFailed(MuteFault::WriteRejected)),
    {
        if ack {
            Ok(())
        } else {
            Err(Error::MuteSetFailed(MuteFault::WriteRejected))
        }
    }
}

} // verus!
