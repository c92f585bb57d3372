//! The backend for the endpoint-based audio subsystem: devices are
//! endpoints enumerated by data-flow direction and state, addressed by a
//! stable unique-id string.  The platform glue enumerates and activates
//! endpoints and hands their properties in as plain values; the filtering,
//! identity resolution and aggregation over them is verified here.

use vstd::prelude::*;

use crate::OutputListing;
use crate::VolumeControl;
use crate::VolumeReading;
use crate::aggregate::read_volume;
use crate::aggregate::volume_write_plan;
use crate::aggregate::write_verdict;
use crate::error::AccessFault;
use crate::error::EnumFault;
use crate::error::Error;
use crate::error::MuteFault;

verus! {

/// One endpoint as the platform's enumeration reported it: its stable
/// unique id, the outcome of its friendly-name property read, whether its
/// data flow renders output, whether it is active, and its channel count.
#[derive(Clone, Debug)]
pub struct EndpointProbe {
    pub uid: String,
    pub name: Option<String>,
    pub renders: bool,
    pub active: bool,
    pub channels: u32,
}

/// An endpoint that belongs in the output inventory: an active endpoint
/// whose data flow renders output.  An endpoint that only captures input
/// never qualifies.
pub open spec fn is_listed_endpoint(p: EndpointProbe) -> bool {
    p.renders && p.active
}

/// The identifier rows of an endpoint inventory: the uid and name of
/// every listed endpoint that has a name, in enumeration order.
pub open spec fn endpoint_rows(probes: Seq<EndpointProbe>) -> Seq<(String, String)>
    decreases probes.len(),
{
    if probes.len() == 0 {
        Seq::empty()
    } else {
        let rest = endpoint_rows(probes.drop_last());
        let p = probes.last();
        if is_listed_endpoint(p) && p.name is Some {
            rest.push((p.uid, p.name.unwrap()))
        } else {
            rest
        }
    }
}

/// Some listed endpoint is missing its friendly name.
pub open spec fn some_endpoint_unnamed(probes: Seq<EndpointProbe>) -> bool {
    exists|i: int|
        0 <= i < probes.len() && is_listed_endpoint(#[trigger] probes[i]) && probes[i].name is None
}

/// The first listed endpoint carrying this uid.
pub open spec fn find_endpoint(probes: Seq<EndpointProbe>, uid: Seq<char>) -> Option<EndpointProbe>
    decreases probes.len(),
{
    if probes.len() == 0 {
        Option::None
    } else if is_listed_endpoint(probes[0]) && probes[0].uid@ == uid {
        Option::Some(probes[0])
    } else {
        find_endpoint(probes.drop_first(), uid)
    }
}

/// The first listed endpoint carrying this friendly name.
pub open spec fn find_endpoint_by_name(probes: Seq<EndpointProbe>, name: Seq<char>) -> Option<
    EndpointProbe,
>
    decreases probes.len(),
{
    if probes.len() == 0 {
        Option::None
    } else if is_listed_endpoint(probes[0]) && (probes[0].name matches Some(n) && n@ == name) {
        Option::Some(probes[0])
    } else {
        find_endpoint_by_name(probes.drop_first(), name)
    }
}

/// The friendly name of the first endpoint carrying this uid and a
/// readable name, in enumeration order.
pub open spec fn find_endpoint_name(probes: Seq<EndpointProbe>, uid: Seq<char>) -> Option<String>
    decreases probes.len(),
{
    if probes.len() == 0 {
        Option::None
    } else if probes[0].uid@ == uid && probes[0].name is Some {
        Option::Some(probes[0].name.unwrap())
    } else {
        find_endpoint_name(probes.drop_first(), uid)
    }
}

/// The backend facade for the endpoint-based audio subsystem.
pub struct WASAPI {}

impl WASAPI {
    /// The uid and name of every active render endpoint in a probed
    /// inventory.  A listed endpoint without a readable name fails the
    /// whole enumeration, surfaced rather than dropped.
    pub fn get_device_identifiers(probes: &Vec<EndpointProbe>) -> (r: Result<
        Vec<(String, String)>,
        Error,
    >)
        ensures
            some_endpoint_unnamed(probes@) ==> r == Err::<Vec<(String, String)>, Error>(
                Error::DeviceEnumerationFailed(EnumFault::NameMissing),
            ),
            !some_endpoint_unnamed(probes@) ==> (r matches Ok(rows) && rows@ == endpoint_rows(
                probes@,
            )),
    {
        let mut rows: Vec<(String, String)> = Vec::new();
        let mut i: usize = 0;
        while i < probes.len()
            invariant
                0 <= i <= probes@.len(),
                !some_endpoint_unnamed(probes@.subrange(0, i as int)),
                rows@ == endpoint_rows(probes@.subrange(0, i as int)),
            decreases probes@.len() - i,
        {
            proof {
                assert(probes@.subrange(0, i + 1).drop_last() =~= probes@.subrange(0, i as int));
                assert(probes@.subrange(0, i + 1).last() == probes@[i as int]);
            }
            if probes[i].renders && probes[i].active {
                match &probes[i].name {
                    Some(name) => {
                        rows.push((probes[i].uid.clone(), name.clone()));
                    },
                    None => {
                        proof {
                            assert(is_listed_endpoint(probes@[i as int]));
                        }
                        return Err(Error::DeviceEnumerationFailed(EnumFault::NameMissing));
                    },
                }
            }
            proof {
                let pre = probes@.subrange(0, i as int);
                let cur = probes@.subrange(0, i + 1);
                assert forall|j: int|
                    0 <= j < cur.len() && is_listed_endpoint(#[trigger] cur[j]) implies !(
                cur[j].name is None) by {
                    if j < i as int {
                        assert(cur[j] == pre[j]);
                    }
                }
            }
            i = i + 1;
        }
        proof {
            assert(probes@.subrange(0, probes@.len() as int) =~= probes@);
        }
        Ok(rows)
    }

    /// Resolve the endpoint the platform named as its default render
    /// endpoint, confirming it is currently listed.  A platform that
    /// named none surfaces as an access failure, never a crash.
    pub fn get_default_output_device(default_uid: Option<String>, probes: &Vec<EndpointProbe>)
        -> (r: Result<WASAPIDevice, Error>)
        ensures
            default_uid is None ==> r == Err::<WASAPIDevice, Error>(
                Error::DeviceAccessFailed(AccessFault::ConnectionFailed),
            ),
            default_uid matches Some(uid) ==> (match find_endpoint(probes@, uid@) {
                Option::Some(_) => r matches Ok(d) && d.uid@ == uid@,
                Option::None => r == Err::<WASAPIDevice, Error>(Error::DeviceNotFound),
            }),
    {
        match default_uid {
            None => Err(Error::DeviceAccessFailed(AccessFault::ConnectionFailed)),
            Some(uid) => WASAPIDevice::from_uid(uid, probes),
        }
    }
}

impl VolumeControl for WASAPI {
    fn get_sound_devices(devices: &Vec<OutputListing>) -> (r: Result<Vec<String>, Error>) {
        Ok(crate::get_sound_devices(devices))
    }

    fn get_vol(reading: &VolumeReading) -> (r: Result<u8, Error>) {
        read_volume(reading.mute, &reading.channels)
    }

    fn set_vol(percent: u8, channels: u32, acks: &Vec<bool>) -> (r: Result<(), Error>) {
        let plan = volume_write_plan(percent, channels);
        write_verdict(&plan, acks)
    }

    fn get_mute(read: Option<bool>) -> (r: Result<bool, Error>) {
        match read {
            Some(m) => Ok(m),
            None => Err(Error::DeviceAccessFailed(AccessFault::MuteStateUnknown)),
        }
    }

    fn set_mute(state: bool, ack: bool) -> (r: Result<(), Error>) {
        if ack {
            Ok(())
        } else {
            Err(Error::MuteSetFailed(MuteFault::WriteRejected))
        }
    }
}

/// One resolved endpoint of the endpoint-based backend, held by its
/// stable unique-id string.
#[derive(Clone, Debug)]
pub struct WASAPIDevice {
    pub uid: String,
}

impl WASAPIDevice {
    /// Resolve an endpoint by exact friendly name, by linear scan of the
    /// probed inventory: the first listed endpoint bearing the name wins,
    /// and the lookup fails only when none does.
    pub fn from_name(name: String, probes: &Vec<EndpointProbe>) -> (r: Result<WASAPIDevice, Error>)
        ensures
            find_endpoint_by_name(probes@, name@) matches Some(p) ==> (r matches Ok(d) && d.uid
                == p.uid),
            find_endpoint_by_name(probes@, name@) is None ==> r == Err::<WASAPIDevice, Error>(
                Error::DeviceNotFound,
            ),
    {
        let mut i: usize = 0;
        proof {
            assert(probes@.skip(0) =~= probes@);
        }
        while i < probes.len()
            invariant
                0 <= i <= probes@.len(),
                find_endpoint_by_name(probes@, name@) == find_endpoint_by_name(
                    probes@.skip(i as int),
                    name@,
                ),
            decreases probes@.len() - i,
        {
            proof {
                assert(probes@.skip(i as int)[0] == probes@[i as int]);
                assert(probes@.skip(i as int).drop_first() =~= probes@.skip(i + 1));
            }
            if probes[i].renders && probes[i].active {
                match &probes[i].name {
                    Some(n) => {
                        if *n == name {
                            return Ok(WASAPIDevice { uid: probes[i].uid.clone() });
                        }
                    },
                    None => {},
                }
            }
            i = i + 1;
        }
        proof {
            assert(probes@.skip(i as int).len() == 0);
        }
        Err(Error::DeviceNotFound)
    }

    /// Resolve an endpoint by uid, confirming it is currently listed.
    pub fn from_uid(uid: String, probes: &Vec<EndpointProbe>) -> (r: Result<WASAPIDevice, Error>)
        ensures
            find_endpoint(probes@, uid@) is Some ==> (r matches Ok(d) && d.uid@ == uid@),
            find_endpoint(probes@, uid@) is None ==> r == Err::<WASAPIDevice, Error>(
                Error::DeviceNotFound,
            ),
    {
        let mut i: usize = 0;
        proof {
            assert(probes@.skip(0) =~= probes@);
        }
        while i < probes.len()
            invariant
                0 <= i <= probes@.len(),
                find_endpoint(probes@, uid@) == find_endpoint(probes@.skip(i as int), uid@),
            decreases probes@.len() - i,
        {
            proof {
                assert(probes@.skip(i as int)[0] == probes@[i as int]);
                assert(probes@.skip(i as int).drop_first() =~= probes@.skip(i + 1));
            }
            if probes[i].renders && probes[i].active && probes[i].uid == uid {
                return Ok(WASAPIDevice { uid });
            }
            i = i + 1;
        }
        proof {
            assert(probes@.skip(i as int).len() == 0);
        }
        Err(Error::DeviceNotFound)
    }

    /// The stable unique id this endpoint was resolved to.
    pub fn get_device_uid(&self) -> (r: Result<String, Error>)
        ensures
            r == Ok::<String, Error>(self.uid),
    {
        Ok(self.uid.clone())
    }

    /// The endpoint's friendly name, looked up afresh in the probed
    /// inventory: the first probe of this endpoint's uid with a readable
    /// name wins; only when the inventory holds none — the endpoint is
    /// gone, or its name cannot be read — does an access failure surface.
    pub fn get_name(&self, probes: &Vec<EndpointProbe>) -> (r: Result<String, Error>)
        ensures
            find_endpoint_name(probes@, self.uid@) matches Some(name) ==> r == Ok::<String, Error>(
                name,
            ),
            find_endpoint_name(probes@, self.uid@) is None ==> r == Err::<String, Error>(
                Error::DeviceAccessFailed(AccessFault::DescriptionMissing),
            ),
    {
        let mut i: usize = 0;
        proof {
            assert(probes@.skip(0) =~= probes@);
        }
        while i < probes.len()
            invariant
                0 <= i <= probes@.len(),
                find_endpoint_name(probes@, self.uid@) == find_endpoint_name(
                    probes@.skip(i as int),
                    self.uid@,
                ),
            decreases probes@.len() - i,
        {
            proof {
                assert(probes@.skip(i as int)[0] == probes@[i as int]);
                assert(probes@.skip(i as int).drop_first() =~= probes@.skip(i + 1));
            }
            if probes[i].uid == self.uid {
                match &probes[i].name {
                    Some(name) => {
                        return Ok(name.clone());
                    },
                    None => {},
                }
            }
            i = i + 1;
        }
        proof {
            assert(probes@.skip(i as int).len() == 0);
        }
        Err(Error::DeviceAccessFailed(AccessFault::DescriptionMissing))
    }

    /// The endpoint's volume: zero when muted, otherwise the average over
    /// its per-channel reads.
    pub fn get_vol(&self, reading: &VolumeReading) -> (r: Result<u8, Error>)
        requires
            reading.wf(),
        ensures
            reading.mute ==> r == Ok::<u8, Error>(0u8),
            !reading.mute && crate::aggregate::captured_count(reading.channels@) == 0 ==> r
                == Err::<u8, Error>(
                Error::VolumeCaptureFailed(
                    crate::error::CaptureFault::NoChannelsCaptured {
                        channel_count: reading.channels@.len() as u32,
                        channels_captured: 0u32,
                    },
                ),
            ),
            !reading.mute && crate::aggregate::captured_count(reading.channels@) > 0 ==> r == Ok::<
                u8,
                Error,
            >(crate::aggregate::averaged_percent(reading.channels@) as u8),
    {
        read_volume(reading.mute, &reading.channels)
    }

    /// Write a volume to the endpoint: judge the performed write plan for
    /// `percent` over channels `0..=channels`.
    pub fn set_vol(&self, percent: u8, channels: u32, acks: &Vec<bool>) -> (r: Result<(), Error>)
        requires
            percent <= 100,
            channels + 3 <= usize::MAX,
        ensures
            ({
                let plan = crate::aggregate::write_plan(percent, channels);
                &&& plan.len() != acks@.len() ==> r == Err::<(), Error>(
                    Error::VolumeSetFailed(crate::error::SetFault::NotApplied),
                )
                &&& plan.len() == acks@.len() && !crate::aggregate::some_channel_acked(plan, acks@)
                    ==> r == Err::<(), Error>(
                    Error::VolumeSetFailed(crate::error::SetFault::NoChannelAccepted),
                )
                &&& plan.len() == acks@.len() && crate::aggregate::some_channel_acked(plan, acks@)
                    && !crate::aggregate::all_mutes_acked(plan, acks@) ==> r == Err::<(), Error>(
                    Error::VolumeSetFailed(crate::error::SetFault::SyncFailed),
                )
                &&& plan.len() == acks@.len() && crate::aggregate::some_channel_acked(plan, acks@)
                    && crate::aggregate::all_mutes_acked(plan, acks@) ==> r == Ok::<(), Error>(())
            }),
    {
        let plan = volume_write_plan(percent, channels);
        write_verdict(&plan, acks)
    }

    /// The endpoint's mute state, from the outcome of the mute read; a
    /// failed read surfaces, never crashes.
    pub fn get_mute(&self, read: Option<bool>) -> (r: Result<bool, Error>)
        ensures
            read matches Some(m) ==> r == Ok::<bool, Error>(m),
            read is None ==> r == Err::<bool, Error>(
                Error::DeviceAccessFailed(AccessFault::MuteStateUnknown),
            ),
    {
        match read {
            Some(m) => Ok(m),
            None => Err(Error::DeviceAccessFailed(AccessFault::MuteStateUnknown)),
        }
    }

    /// Write the endpoint's mute state: judge the acknowledgement.
    pub fn set_mute(&self, mute: bool, ack: bool) -> (r: Result<(), Error>)
        ensures
            ack ==> r == Ok::<(), Error>(()),
            !ack ==> r == Err::<(), Error>(Error::MuteSetFailed(MuteFault::WriteRejected)),
    {
        if ack {
            Ok(())
        } else {
            Err(Error::MuteSetFailed(MuteFault::WriteRejected))
        }
    }
}

} // verus!
