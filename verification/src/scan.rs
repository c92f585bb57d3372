//! The device registry scan: the probed inventory reduced to a table from
//! human-readable name to hardware object id, holding exactly the output
//! devices.

use vstd::prelude::*;

use crate::coreaudio::CoreAudioProbe;
use crate::coreaudio::is_listed_output;

verus! {

/// The name-to-id rows of an inventory: every listed output device with a
/// readable name, in probe order.  A device without a readable name
/// cannot be addressed by name and is left out.
pub open spec fn scan_rows(probes: Seq<CoreAudioProbe>) -> Seq<(String, u32)>
    decreases probes.len(),
{
    if probes.len() == 0 {
        Seq::empty()
    } else {
        let rest = scan_rows(probes.drop_last());
        let p = probes.last();
        if is_listed_output(p) && p.name is Some {
            rest.push((p.name.unwrap(), p.device_id))
        } else {
            rest
        }
    }
}

/// Scan a probed inventory into the name-to-id table of its output
/// devices.
pub fn scan_devices(probes: &Vec<CoreAudioProbe>) -> (rows: Vec<(String, u32)>)
    ensures
        rows@ == scan_rows(probes@),
{
    let mut rows: Vec<(String, u32)> = Vec::new();
    let mut i: usize = 0;
    while i < probes.len()
        invariant
            0 <= i <= probes@.len(),
            rows@ == scan_rows(probes@.subrange(0, i as int)),
        decreases probes@.len() - i,
    {
        proof {
            assert(probes@.subrange(0, i + 1).drop_last() =~= probes@.subrange(0, i as int));
            assert(probes@.subrange(0, i + 1).last() == probes@[i as int]);
        }
        let mut listed = false;
        if probes[i].device_id != 0 {
            let dt = crate::coreaudio::CoreAudio::check_device_type(&probes[i]);
            match dt {
                crate::DeviceType::Output => {
                    listed = true;
                },
                _ => {},
            }
        }
        if listed {
            match &probes[i].name {
                Some(name) => {
                    rows.push((name.clone(), probes[i].device_id));
                },
                None => {},
            }
        }
        i = i + 1;
    }
    proof {
        assert(probes@.subrange(0, probes@.len() as int) =~= probes@);
    }
    rows
}

} // verus!
