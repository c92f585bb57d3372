//! The backend for the callback-driven sound server: every operation runs
//! through one bridge session ([`crate::bridge`]), which the platform glue
//! drives against the server's event loop.  Identity resolution over the
//! listed sinks, the choice of the default output sink, and the
//! interpretation of drained sessions are verified here.

use vstd::prelude::*;

use crate::OutputListing;
use crate::VolumeControl;
use crate::VolumeReading;
use crate::aggregate::read_volume;
use crate::aggregate::volume_write_plan;
use crate::aggregate::write_verdict;
use crate::bridge::Phase;
use crate::bridge::Request;
use crate::bridge::Session;
use crate::bridge::SinkRecord;
use crate::error::AccessFault;
use crate::error::Error;
use crate::error::MuteFault;

verus! {

/// The identifier of the first row whose human-readable name matches, in
/// listing order.  A row pairs a sink's stable identifier with its
/// description.
pub open spec fn find_dev_by_name(rows: Seq<(String, String)>, name: Seq<char>) -> Option<String>
    decreases rows.len(),
{
    if rows.len() == 0 {
        Option::None
    } else if rows[0].1@ == name {
        Option::Some(rows[0].0)
    } else {
        find_dev_by_name(rows.drop_first(), name)
    }
}

/// The description of the first row whose identifier matches.
pub open spec fn find_name_by_dev(rows: Seq<(String, String)>, id: Seq<char>) -> Option<String>
    decreases rows.len(),
{
    if rows.len() == 0 {
        Option::None
    } else if rows[0].0@ == id {
        Option::Some(rows[0].1)
    } else {
        find_name_by_dev(rows.drop_first(), id)
    }
}

/// Whether some row carries this identifier.
pub open spec fn has_dev(rows: Seq<(String, String)>, id: Seq<char>) -> bool {
    exists|i: int| 0 <= i < rows.len() && (#[trigger] rows[i]).0@ == id
}

/// The description of the sink the server routes output to: the last
/// listed sink with an active port.
pub open spec fn default_sink_description_spec(sinks: Seq<SinkRecord>) -> Option<String>
    decreases sinks.len(),
{
    if sinks.len() == 0 {
        Option::None
    } else if sinks.last().has_active_port {
        Option::Some(sinks.last().description)
    } else {
        default_sink_description_spec(sinks.drop_last())
    }
}

/// One resolved sink of the sound server, held by its stable identifier.
#[derive(Clone, Debug)]
pub struct PulseAudioDevice {
    pub dev_str: String,
}

impl PulseAudioDevice {
    /// Resolve a sink by exact human-readable name, by linear scan of the
    /// listed identifier rows.
    pub fn from_name(name: String, identifiers: &Vec<(String, String)>) -> (r: Result<
        PulseAudioDevice,
        Error,
    >)
        ensures
            find_dev_by_name(identifiers@, name@) matches Some(id) ==> (r matches Ok(d)
                && d.dev_str == id),
            find_dev_by_name(identifiers@, name@) is None ==> r == Err::<PulseAudioDevice, Error>(
                Error::DeviceNotFound,
            ),
    {
        let mut i: usize = 0;
        proof {
            assert(identifiers@.skip(0) =~= identifiers@);
        }
        while i < identifiers.len()
            invariant
                0 <= i <= identifiers@.len(),
                find_dev_by_name(identifiers@, name@) == find_dev_by_name(
                    identifiers@.skip(i as int),
                    name@,
                ),
            decreases identifiers@.len() - i,
        {
            proof {
                assert(identifiers@.skip(i as int)[0] == identifiers@[i as int]);
                assert(identifiers@.skip(i as int).drop_first() =~= identifiers@.skip(i + 1));
            }
            if identifiers[i].1 == name {
                return Ok(PulseAudioDevice { dev_str: identifiers[i].0.clone() });
            }
            i = i + 1;
        }
        proof {
            assert(identifiers@.skip(i as int).len() == 0);
        }
        Err(Error::DeviceNotFound)
    }

    /// Resolve a sink by its stable identifier, confirming it is listed.
    pub fn from_id(id: String, identifiers: &Vec<(String, String)>) -> (r: Result<
        PulseAudioDevice,
        Error,
    >)
        ensures
            has_dev(identifiers@, id@) ==> (r matches Ok(d) && d.dev_str@ == id@),
            !has_dev(identifiers@, id@) ==> r == Err::<PulseAudioDevice, Error>(
                Error::DeviceNotFound,
            ),
    {
        let mut i: usize = 0;
        while i < identifiers.len()
            invariant
                0 <= i <= identifiers@.len(),
                forall|j: int| 0 <= j < i ==> (#[trigger] identifiers@[j]).0@ != id@,
            decreases identifiers@.len() - i,
        {
            if identifiers[i].0 == id {
                return Ok(PulseAudioDevice { dev_str: identifiers[i].0.clone() });
            }
            i = i + 1;
        }
        Err(Error::DeviceNotFound)
    }

    /// The sink's human-readable name, looked up afresh in the listing; a
    /// sink that is no longer listed surfaces as not found.
    pub fn get_name(&self, identifiers: &Vec<(String, String)>) -> (r: Result<String, Error>)
        ensures
            find_name_by_dev(identifiers@, self.dev_str@) matches Some(n) ==> (r matches Ok(name)
                && name == n),
            find_name_by_dev(identifiers@, self.dev_str@) is None ==> r == Err::<String, Error>(
                Error::DeviceNotFound,
            ),
    {
        PulseAudio::get_device_name_of(&self.dev_str, identifiers)
    }

    /// The stable identifier this sink was resolved to.
    pub fn get_device_str(&self) -> (id: String)
        ensures
            id == self.dev_str,
    {
        self.dev_str.clone()
    }

    /// A fresh bridge session that reads this sink's volume.
    pub fn volume_session(&self) -> (s: Session)
        ensures
            s.request == (Request::GetVolume { target: self.dev_str }),
            s.phase is Connecting,
            s.inv(),
    {
        Session::new(Request::GetVolume { target: self.dev_str.clone() })
    }

    /// A fresh bridge session that writes `percent` to this sink.
    pub fn set_volume_session(&self, percent: u8) -> (s: Session)
        ensures
            s.request == (Request::SetVolume { target: self.dev_str, percent }),
            s.phase is Connecting,
            s.inv(),
    {
        Session::new(Request::SetVolume { target: self.dev_str.clone(), percent })
    }

    /// A fresh bridge session that reads this sink's mute state.
    pub fn mute_session(&self) -> (s: Session)
        ensures
            s.request == (Request::GetMute { target: self.dev_str }),
            s.phase is Connecting,
            s.inv(),
    {
        Session::new(Request::GetMute { target: self.dev_str.clone() })
    }

    /// A fresh bridge session that writes this sink's mute state.
    pub fn set_mute_session(&self, mute: bool) -> (s: Session)
        ensures
            s.request == (Request::SetMute { target: self.dev_str, mute }),
            s.phase is Connecting,
            s.inv(),
    {
        Session::new(Request::SetMute { target: self.dev_str.clone(), mute })
    }

    /// This sink's volume, drained from a completed volume session of
    /// this sink.
    pub fn get_vol(&self, session: &Session) -> (r: Result<u8, Error>)
        requires
            session.phase is Complete,
            session.request matches Request::GetVolume { target } && target@ == self.dev_str@,
        ensures
            session.fault matches Some(e) ==> r == Err::<u8, Error>(e),
            session.fault is None && session.matched is None ==> r == Err::<u8, Error>(
                Error::DeviceAccessFailed(AccessFault::DeviceVanished),
            ),
            session.matched matches Some(rec) ==> (session.fault is None && rec.mute ==> r
                == Ok::<u8, Error>(0u8)),
            session.matched matches Some(rec) ==> (session.fault is None && !rec.mute ==> r == (
            match crate::bridge::percent_text_value(rec.volume_text@) {
                Option::Some(p) => Ok::<u8, Error>(p),
                Option::None => Err::<u8, Error>(
                    Error::VolumeCaptureFailed(crate::error::CaptureFault::MalformedVolume),
                ),
            })),
    {
        session.volume_outcome()
    }

    /// The outcome of a completed volume write of this sink.
    pub fn set_vol(&self, session: &Session) -> (r: Result<(), Error>)
        requires
            session.phase is Complete,
            session.request matches Request::SetVolume { target, .. } && target@ == self.dev_str@,
        ensures
            session.fault matches Some(e) ==> r == Err::<(), Error>(e),
            session.fault is None && session.matched is None ==> r == Err::<(), Error>(
                Error::DeviceAccessFailed(AccessFault::DeviceVanished),
            ),
            session.fault is None && session.matched is Some && session.applied ==> r == Ok::<
                (),
                Error,
            >(()),
            session.fault is None && session.matched is Some && !session.applied ==> r == Err::<
                (),
                Error,
            >(Error::VolumeSetFailed(crate::error::SetFault::NotApplied)),
    {
        session.apply_outcome()
    }

    /// This sink's mute state, drained from a completed mute session of
    /// this sink.
    pub fn get_mute(&self, session: &Session) -> (r: Result<bool, Error>)
        requires
            session.phase is Complete,
            session.request matches Request::GetMute { target } && target@ == self.dev_str@,
        ensures
            session.fault matches Some(e) ==> r == Err::<bool, Error>(e),
            session.fault is None && session.matched is None ==> r == Err::<bool, Error>(
                Error::DeviceAccessFailed(AccessFault::DeviceVanished),
            ),
            session.matched matches Some(rec) ==> (session.fault is None ==> r == Ok::<
                bool,
                Error,
            >(rec.mute)),
    {
        session.mute_outcome()
    }

    /// The outcome of a completed mute write of this sink.
    pub fn set_mute(&self, session: &Session) -> (r: Result<(), Error>)
        requires
            session.phase is Complete,
            session.request matches Request::SetMute { target, .. } && target@ == self.dev_str@,
        ensures
            session.fault matches Some(e) ==> r == Err::<(), Error>(e),
            session.fault is None && session.matched is None ==> r == Err::<(), Error>(
                Error::DeviceAccessFailed(AccessFault::DeviceVanished),
            ),
            session.fault is None && session.matched is Some && session.applied ==> r == Ok::<
                (),
                Error,
            >(()),
            session.fault is None && session.matched is Some && !session.applied ==> r == Err::<
                (),
                Error,
            >(Error::VolumeSetFailed(crate::error::SetFault::NotApplied)),
    {
        session.apply_outcome()
    }
}

/// The backend facade for the callback-driven sound server.
pub struct PulseAudio {}

impl PulseAudio {
    /// A fresh bridge session that lists every sink.
    pub fn listing_session() -> (s: Session)
        ensures
            s.request is ListDevices,
            s.phase is Connecting,
            s.inv(),
    {
        Session::new(Request::ListDevices)
    }

    /// Drain a completed listing session into identifier rows: each
    /// sink's stable identifier paired with its description.
    pub fn get_device_identifiers(session: &Session) -> (r: Result<Vec<(String, String)>, Error>)
        requires
            session.phase is Complete,
            session.request is ListDevices,
        ensures
            session.fault matches Some(e) ==> r == Err::<Vec<(String, String)>, Error>(e),
            session.fault is None ==> (r matches Ok(ids) && ids@.len() == session.sinks@.len() && (
            forall|i: int|
                0 <= i < ids@.len() ==> (#[trigger] ids@[i]).0 == session.sinks@[i].name
                    && ids@[i].1 == session.sinks@[i].description)),
    {
        session.identifiers_outcome()
    }

    /// The description of the sink the server currently routes output to:
    /// the last listed sink with an active port.
    pub fn default_sink_description(sinks: &Vec<SinkRecord>) -> (r: Option<String>)
        ensures
            r == default_sink_description_spec(sinks@),
    {
        let mut found: Option<String> = None;
        let mut i: usize = 0;
        while i < sinks.len()
            invariant
                0 <= i <= sinks@.len(),
                found == default_sink_description_spec(sinks@.subrange(0, i as int)),
            decreases sinks@.len() - i,
        {
            proof {
                assert(sinks@.subrange(0, i + 1).drop_last() =~= sinks@.subrange(0, i as int));
                assert(sinks@.subrange(0, i + 1).last() == sinks@[i as int]);
            }
            if sinks[i].has_active_port {
                found = Some(sinks[i].description.clone());
            }
            i = i + 1;
        }
        proof {
            assert(sinks@.subrange(0, sinks@.len() as int) =~= sinks@);
        }
        found
    }

    /// Resolve the default output sink: the last listed sink with an
    /// active port, by description — or, when no port is active, the
    /// empty name, which resolves only if a sink is listed under it.
    pub fn get_default_output_dev(sinks: &Vec<SinkRecord>, identifiers: &Vec<(String, String)>)
        -> (r: Result<PulseAudioDevice, Error>)
        ensures
            ({
                let chosen = match default_sink_description_spec(sinks@) {
                    Option::Some(d) => d@,
                    Option::None => Seq::empty(),
                };
                &&& find_dev_by_name(identifiers@, chosen) matches Some(id) ==> (r matches Ok(d)
                    && d.dev_str == id)
                &&& find_dev_by_name(identifiers@, chosen) is None ==> r == Err::<
                    PulseAudioDevice,
                    Error,
                >(Error::DeviceNotFound)
            }),
    {
        let name = match PulseAudio::default_sink_description(sinks) {
            Some(d) => d,
            None => String::new(),
        };
        PulseAudioDevice::from_name(name, identifiers)
    }

    /// The stable identifier of the sink with a given human-readable
    /// name.
    pub fn get_device_id(name: String, identifiers: &Vec<(String, String)>) -> (r: Result<
        String,
        Error,
    >)
        ensures
            find_dev_by_name(identifiers@, name@) matches Some(id) ==> (r matches Ok(d) && d
                == id),
            find_dev_by_name(identifiers@, name@) is None ==> r == Err::<String, Error>(
                Error::DeviceNotFound,
            ),
    {
        match PulseAudioDevice::from_name(name, identifiers) {
            Ok(d) => Ok(d.dev_str),
            Err(e) => Err(e),
        }
    }

    /// The human-readable name of the sink with a given stable
    /// identifier.
    pub fn get_device_name(id: String, identifiers: &Vec<(String, String)>) -> (r: Result<
        String,
        Error,
    >)
        ensures
            find_name_by_dev(identifiers@, id@) matches Some(n) ==> (r matches Ok(name) && name
                == n),
            find_name_by_dev(identifiers@, id@) is None ==> r == Err::<String, Error>(
                Error::DeviceNotFound,
            ),
    {
        PulseAudio::get_device_name_of(&id, identifiers)
    }

    fn get_device_name_of(id: &String, identifiers: &Vec<(String, String)>) -> (r: Result<
        String,
        Error,
    >)
        ensures
            find_name_by_dev(identifiers@, id@) matches Some(n) ==> (r matches Ok(name) && name
                == n),
            find_name_by_dev(identifiers@, id@) is None ==> r == Err::<String, Error>(
                Error::DeviceNotFound,
            ),
    {
        let mut i: usize = 0;
        proof {
            assert(identifiers@.skip(0) =~= identifiers@);
        }
        while i < identifiers.len()
            invariant
                0 <= i <= identifiers@.len(),
                find_name_by_dev(identifiers@, id@) == find_name_by_dev(
                    identifiers@.skip(i as int),
                    id@,
                ),
            decreases identifiers@.len() - i,
        {
            proof {
                assert(identifiers@.skip(i as int)[0] == identifiers@[i as int]);
                assert(identifiers@.skip(i as int).drop_first() =~= identifiers@.skip(i + 1));
            }
            if identifiers[i].0 == *id {
                return Ok(identifiers[i].1.clone());
            }
            i = i + 1;
        }
        proof {
            assert(identifiers@.skip(i as int).len() == 0);
        }
        Err(Error::DeviceNotFound)
    }
}

impl VolumeControl for PulseAudio {
    fn get_sound_devices(devices: &Vec<OutputListing>) -> (r: Result<Vec<String>, Error>) {
        Ok(crate::get_sound_devices(devices))
    }

    fn get_vol(reading: &VolumeReading) -> (r: Result<u8, Error>) {
        read_volume(reading.mute, &reading.channels)
    }

    fn set_vol(percent: u8, channels: u32, acks: &Vec<bool>) -> (r: Result<(), Error>) {
        let plan = volume_write_plan(percent, channels);
        write_verdict(&plan, acks)
    }

    fn get_mute(read: Option<bool>) -> (r: Result<bool, Error>) {
        match read {
            Some(m) => Ok(m),
            None => Err(Error::DeviceAccessFailed(AccessFault::MuteStateUnknown)),
        }
    }

    fn set_mute(state: bool, ack: bool) -> (r: Result<(), Error>) {
        if ack {
            Ok(())
        } else {
            Err(Error::MuteSetFailed(MuteFault::WriteRejected))
        }
    }
}

} // verus!
