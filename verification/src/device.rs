//! The cross-backend device identity model: a backend-local handle, the
//! cached names and channel count of a resolved device, and the volume
//! control bound to that handle.  A handle is resolved afresh for each
//! logical operation; one that no longer resolves surfaces as an error,
//! never a crash.

use vstd::prelude::*;

use crate::aggregate::all_mutes_acked;
use crate::aggregate::averaged_percent;
use crate::aggregate::captured_count;
use crate::aggregate::read_volume;
use crate::aggregate::reads_in_scale;
use crate::aggregate::some_channel_acked;
use crate::aggregate::volume_write_plan;
use crate::aggregate::write_plan;
use crate::aggregate::write_verdict;
use crate::coreaudio::CoreAudioProbe;
use crate::coreaudio::is_listed_output;
use crate::wasapi::EndpointProbe;
use crate::wasapi::find_endpoint;

verus! {

/// A backend-local device handle: an object id on the object-property
/// backend, a unique-id string on the endpoint backend.  No handle is
/// portable across backends.
#[derive(Debug)]
pub enum DeviceId {
    MacOS(u32),
    Windows(String),
}

impl Clone for DeviceId {
    fn clone(&self) -> (r: Self)
        ensures
            r == *self,
    {
        match self {
            DeviceId::MacOS(id) => DeviceId::MacOS(*id),
            DeviceId::Windows(uid) => DeviceId::Windows(uid.clone()),
        }
    }
}

/// How resolving a device can fail.
#[derive(Clone, Copy, Debug, PartialEq, Eq, Structural)]
pub enum Error {
    /// No backend exists for this operating system.
    UnsupportedOS,
    /// The platform would not hand the device out.
    DeviceCaptureFailed,
    /// The device exists but its details could not be read.
    DeviceDetailsCaptureFailed,
    /// No device matched the requested name or identifier.
    DeviceNotFound,
}

/// How a volume-control query can fail.
#[derive(Clone, Copy, Debug, PartialEq, Eq, Structural)]
pub enum VolumeError {
    /// The mute-property read failed.
    MuteStatusCaptureFailed,
}

/// The volume control of one device: its handle and its channel count,
/// enough to aggregate reads and broadcast writes.
#[derive(Debug)]
pub struct VolControl {
    pub hw_id: DeviceId,
    pub channels: u32,
}

impl Clone for VolControl {
    fn clone(&self) -> (r: Self)
        ensures
            r == *self,
    {
        VolControl { hw_id: self.hw_id.clone(), channels: self.channels }
    }
}

impl VolControl {
    fn new(hw_id: DeviceId, channels: u32) -> (vc: VolControl)
        ensures
            vc.hw_id == hw_id,
            vc.channels == channels,
    {
        VolControl { hw_id, channels }
    }

    /// Broadcast a level to channels `0..=channels` and judge the
    /// outcome: true when at least one channel accepted the level and the
    /// mute-toggle sync steps all succeeded.
    pub fn set_vol(&self, percent: u8, acks: &Vec<bool>) -> (ok: bool)
        requires
            percent <= 100,
            self.channels + 3 <= usize::MAX,
        ensures
            ok == (write_plan(percent, self.channels).len() == acks@.len() && some_channel_acked(
                write_plan(percent, self.channels),
                acks@,
            ) && all_mutes_acked(write_plan(percent, self.channels), acks@)),
    {
        let plan = volume_write_plan(percent, self.channels);
        match write_verdict(&plan, acks) {
            Ok(_) => true,
            Err(_) => false,
        }
    }

    /// The device's volume in percent: zero when muted, the average over
    /// the successful channel reads otherwise.  When not a single channel
    /// could be read, the aggregate failure surfaces, naming how many
    /// channels were probed and that none answered.
    pub fn get_vol(&self, mute: bool, reads: &Vec<Option<u32>>) -> (r: Result<
        u8,
        crate::error::Error,
    >)
        requires
            reads_in_scale(reads@),
            reads@.len() <= u32::MAX,
        ensures
            mute ==> r == Ok::<u8, crate::error::Error>(0u8),
            !mute && captured_count(reads@) == 0 ==> r == Err::<u8, crate::error::Error>(
                crate::error::Error::VolumeCaptureFailed(
                    crate::error::CaptureFault::NoChannelsCaptured {
                        channel_count: reads@.len() as u32,
                        channels_captured: 0u32,
                    },
                ),
            ),
            !mute && captured_count(reads@) > 0 ==> r == Ok::<u8, crate::error::Error>(
                averaged_percent(reads@) as u8,
            ),
    {
        read_volume(mute, reads)
    }

    /// Write the device's mute flag: true exactly when the write was
    /// acknowledged.
    pub fn set_mute(&self, mute: bool, ack: bool) -> (ok: bool)
        ensures
            ok == ack,
    {
        ack
    }

    /// The device's mute flag, from the outcome of the mute-property
    /// read: the property holds one when muted.
    pub fn is_mute(&self, read: Option<u32>) -> (r: Result<bool, VolumeError>)
        ensures
            read matches Some(v) ==> r == Ok::<bool, VolumeError>((v == 1u32)),
            read is None ==> r == Err::<bool, VolumeError>(VolumeError::MuteStatusCaptureFailed),
    {
        match read {
            Some(v) => Ok(v == 1),
            None => Err(VolumeError::MuteStatusCaptureFailed),
        }
    }
}

/// The first probe carrying this object id.
pub open spec fn find_probe(probes: Seq<CoreAudioProbe>, id: u32) -> Option<CoreAudioProbe>
    decreases probes.len(),
{
    if probes.len() == 0 {
        Option::None
    } else if probes[0].device_id == id {
        Option::Some(probes[0])
    } else {
        find_probe(probes.drop_first(), id)
    }
}

/// The first listed output probe with this human-readable name.
pub open spec fn find_output_by_name(probes: Seq<CoreAudioProbe>, name: Seq<char>) -> Option<
    CoreAudioProbe,
>
    decreases probes.len(),
{
    if probes.len() == 0 {
        Option::None
    } else if is_listed_output(probes[0]) && (probes[0].name matches Some(n) && n@ == name) {
        Option::Some(probes[0])
    } else {
        find_output_by_name(probes.drop_first(), name)
    }
}

/// One resolved device with its cached names, channel count and volume
/// control.
#[derive(Debug)]
pub struct AudioDevice {
    pub device_name: String,
    pub hw_name: String,
    pub device_id: DeviceId,
    pub channels: u32,
    pub vol_ctl: VolControl,
}

/// The device an object-property probe resolves to: every field is read
/// from the probe, with the empty name and a zero channel count standing
/// in for unreadable details.
pub open spec fn device_of_probe(d: AudioDevice, p: CoreAudioProbe) -> bool {
    &&& d.device_id == DeviceId::MacOS(p.device_id)
    &&& d.device_name@ == (match p.name {
        Option::Some(n) => n@,
        Option::None => Seq::<char>::empty(),
    })
    &&& d.hw_name@ == d.device_name@
    &&& d.channels == (match p.channels {
        Option::Some(c) => c,
        Option::None => 0u32,
    })
    &&& d.vol_ctl.hw_id == DeviceId::MacOS(p.device_id)
    &&& d.vol_ctl.channels == d.channels
}

impl AudioDevice {
    /// Resolve the current default output device from the platform's
    /// probe of it; the probe is taken afresh on every call, because the
    /// default can change between calls.
    pub fn get_default_device(probe: &Option<CoreAudioProbe>) -> (r: Result<AudioDevice, Error>)
        ensures
            probe is None ==> r == Err::<AudioDevice, Error>(Error::DeviceCaptureFailed),
            probe matches Some(p) ==> (r matches Ok(d) && device_of_probe(d, *p)),
    {
        match probe {
            None => Err(Error::DeviceCaptureFailed),
            Some(p) => {
                let device_name = match &p.name {
                    Some(n) => n.clone(),
                    None => String::new(),
                };
                let channels = match p.channels {
                    Some(c) => c,
                    None => 0,
                };
                Ok(
                    AudioDevice {
                        device_name: device_name.clone(),
                        hw_name: device_name,
                        device_id: DeviceId::MacOS(p.device_id),
                        channels,
                        vol_ctl: VolControl::new(DeviceId::MacOS(p.device_id), channels),
                    },
                )
            },
        }
    }

    /// Resolve a device from a backend-local handle, against the probed
    /// inventory of the handle's own backend.  A handle whose device has
    /// gone, or whose details cannot be read, surfaces as an error.
    pub fn get_device_from_id(
        device_id: DeviceId,
        probes: &Vec<CoreAudioProbe>,
        endpoints: &Vec<EndpointProbe>,
    ) -> (r: Result<AudioDevice, Error>)
        ensures
            device_id matches DeviceId::MacOS(id) ==> (match find_probe(probes@, id) {
                Option::None => r == Err::<AudioDevice, Error>(Error::DeviceNotFound),
                Option::Some(p) => {
                    if p.name is None {
                        r == Err::<AudioDevice, Error>(Error::DeviceNotFound)
                    } else if p.channels is None {
                        r == Err::<AudioDevice, Error>(Error::DeviceDetailsCaptureFailed)
                    } else {
                        r matches Ok(d) && device_of_probe(d, p)
                    }
                },
            }),
            device_id matches DeviceId::Windows(uid) ==> (match find_endpoint(endpoints@, uid@) {
                Option::None => r == Err::<AudioDevice, Error>(Error::DeviceCaptureFailed),
                Option::Some(p) => {
                    if p.name is None {
                        r == Err::<AudioDevice, Error>(Error::DeviceCaptureFailed)
                    } else {
                        r matches Ok(d) && d.device_id == DeviceId::Windows(uid)
                            && d.device_name@ == p.name.unwrap()@ && d.hw_name@ == p.name.unwrap()@
                            && d.channels == p.channels && d.vol_ctl.hw_id == DeviceId::Windows(
                            uid,
                        ) && d.vol_ctl.channels == p.channels
                    }
                },
            }),
    {
        match device_id {
            DeviceId::MacOS(id) => {
                let mut i: usize = 0;
                proof {
                    assert(probes@.skip(0) =~= probes@);
                }
                while i < probes.len()
                    invariant
                        0 <= i <= probes@.len(),
                        device_id == DeviceId::MacOS(id),
                        find_probe(probes@, id) == find_probe(probes@.skip(i as int), id),
                    decreases probes@.len() - i,
                {
                    proof {
                        assert(probes@.skip(i as int)[0] == probes@[i as int]);
                        assert(probes@.skip(i as int).drop_first() =~= probes@.skip(i + 1));
                    }
                    if probes[i].device_id == id {
                        let device_name = match &probes[i].name {
                            Some(n) => n.clone(),
                            None => {
                                return Err(Error::DeviceNotFound);
                            },
                        };
                        let channels = match probes[i].channels {
                            Some(c) => c,
                            None => {
                                return Err(Error::DeviceDetailsCaptureFailed);
                            },
                        };
                        return Ok(
                            AudioDevice {
                                device_name: device_name.clone(),
                                hw_name: device_name,
                                device_id: DeviceId::MacOS(id),
                                channels,
                                vol_ctl: VolControl::new(DeviceId::MacOS(id), channels),
                            },
                        );
                    }
                    i = i + 1;
                }
                proof {
                    assert(probes@.skip(i as int).len() == 0);
                }
                Err(Error::DeviceNotFound)
            },
            DeviceId::Windows(uid) => {
                let mut i: usize = 0;
                proof {
                    assert(endpoints@.skip(0) =~= endpoints@);
                }
                while i < endpoints.len()
                    invariant
                        0 <= i <= endpoints@.len(),
                        device_id == DeviceId::Windows(uid),
                        find_endpoint(endpoints@, uid@) == find_endpoint(
                            endpoints@.skip(i as int),
                            uid@,
                        ),
                    decreases endpoints@.len() - i,
                {
                    proof {
                        assert(endpoints@.skip(i as int)[0] == endpoints@[i as int]);
                        assert(endpoints@.skip(i as int).drop_first() =~= endpoints@.skip(i + 1));
                    }
                    if endpoints[i].renders && endpoints[i].active && endpoints[i].uid == uid {
                        let device_name = match &endpoints[i].name {
                            Some(n) => n.clone(),
                            None => {
                                return Err(Error::DeviceCaptureFailed);
                            },
                        };
                        let channels = endpoints[i].channels;
                        return Ok(
                            AudioDevice {
                                device_name: device_name.clone(),
                                hw_name: device_name,
                                device_id: DeviceId::Windows(uid.clone()),
                                channels,
                                vol_ctl: VolControl::new(DeviceId::Windows(uid), channels),
                            },
                        );
                    }
                    i = i + 1;
                }
                proof {
                    assert(endpoints@.skip(i as int).len() == 0);
                }
                Err(Error::DeviceCaptureFailed)
            },
        }
    }

    /// Resolve a device by exact human-readable name, by linear scan of
    /// the probed inventory of output devices.
    pub fn get_device_from_name(name: String, probes: &Vec<CoreAudioProbe>) -> (r: Result<
        AudioDevice,
        Error,
    >)
        ensures
            find_output_by_name(probes@, name@) is None ==> r == Err::<AudioDevice, Error>(
                Error::DeviceNotFound,
            ),
            find_output_by_name(probes@, name@) matches Some(p) ==> ({
                if p.channels is None {
                    r == Err::<AudioDevice, Error>(Error::DeviceDetailsCaptureFailed)
                } else {
                    r matches Ok(d) && device_of_probe(d, p)
                }
            }),
    {
        let mut i: usize = 0;
        proof {
            assert(probes@.skip(0) =~= probes@);
        }
        while i < probes.len()
            invariant
                0 <= i <= probes@.len(),
                find_output_by_name(probes@, name@) == find_output_by_name(
                    probes@.skip(i as int),
                    name@,
                ),
            decreases probes@.len() - i,
        {
            proof {
                assert(probes@.skip(i as int)[0] == probes@[i as int]);
                assert(probes@.skip(i as int).drop_first() =~= probes@.skip(i + 1));
            }
            let mut matches_name = false;
            if probes[i].device_id != 0 {
                let dt = crate::coreaudio::CoreAudio::check_device_type(&probes[i]);
                match dt {
                    crate::DeviceType::Output => {
                        match &probes[i].name {
                            Some(n) => {
                                if *n == name {
                                    matches_name = true;
                                }
                            },
                            None => {},
                        }
                    },
                    _ => {},
                }
            }
            if matches_name {
                let device_name = match &probes[i].name {
                    Some(n) => n.clone(),
                    None => String::new(),
                };
                let channels = match probes[i].channels {
                    Some(c) => c,
                    None => {
                        return Err(Error::DeviceDetailsCaptureFailed);
                    },
                };
                let id = probes[i].device_id;
                return Ok(
                    AudioDevice {
                        device_name: device_name.clone(),
                        hw_name: device_name,
                        device_id: DeviceId::MacOS(id),
                        channels,
                        vol_ctl: VolControl::new(DeviceId::MacOS(id), channels),
                    },
                );
            }
            i = i + 1;
        }
        proof {
            assert(probes@.skip(i as int).len() == 0);
        }
        Err(Error::DeviceNotFound)
    }

    /// The volume control bound to this device's handle and channel
    /// count.
    pub fn default_volume_control(&self) -> (vc: VolControl)
        ensures
            vc == self.vol_ctl,
    {
        self.vol_ctl.clone()
    }
}

} // verus!
