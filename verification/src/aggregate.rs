//! The channel volume aggregator: averaging per-channel levels on read and
//! broadcasting one level to every channel on write, including the
//! mute-toggle step that re-synchronizes the hardware level indicator.
//!
//! Channel levels are carried as scalar units: an integer number of
//! hundredths of a percent of full scale, so `10_000` units is full volume.
//! The aggregate volume is a whole percentage point in `0..=100`.

use vstd::prelude::*;

use crate::error::CaptureFault;
use crate::error::Error;
use crate::error::SetFault;

verus! {

/// Full scale of a channel level, in scalar units (hundredths of a percent).
pub const FULL_SCALE: u32 = 10_000;

/// One step of the write path: what the platform glue is asked to perform
/// against the device, in order.
#[derive(Clone, Copy, Debug, PartialEq, Eq, Structural)]
pub enum AudioAction {
    /// Set one channel's level, in scalar units.
    SetChannel { channel: u32, level: u32 },
    /// Set the device's mute flag.
    SetMute { mute: bool },
}

/// How many of the attempted per-channel reads succeeded.
pub open spec fn captured_count(reads: Seq<Option<u32>>) -> nat
    decreases reads.len(),
{
    if reads.len() == 0 {
        0
    } else {
        captured_count(reads.drop_last()) + (if reads.last() is Some {
            1nat
        } else {
            0nat
        })
    }
}

/// The sum of the successfully read channel levels, in scalar units.
pub open spec fn captured_sum(reads: Seq<Option<u32>>) -> int
    decreases reads.len(),
{
    if reads.len() == 0 {
        0
    } else {
        captured_sum(reads.drop_last()) + (match reads.last() {
            Some(v) => v as int,
            None => 0,
        })
    }
}

/// Every successful read is at most full scale.
pub open spec fn reads_in_scale(reads: Seq<Option<u32>>) -> bool {
    forall|i: int|
        0 <= i < reads.len() ==> (#[trigger] reads[i] matches Some(v) ==> v <= FULL_SCALE)
}

/// The aggregate volume of a set of reads, as a whole percentage point:
/// the captured sum is rounded to the nearest percentage point and then
/// averaged over the captured channels.
pub open spec fn averaged_percent(reads: Seq<Option<u32>>) -> int
    recommends
        captured_count(reads) > 0,
{
    ((captured_sum(reads) + 50) / 100) / (captured_count(reads) as int)
}

proof fn lemma_captured_sum_bound(reads: Seq<Option<u32>>)
    requires
        reads_in_scale(reads),
    ensures
        0 <= captured_sum(reads) <= captured_count(reads) * (FULL_SCALE as int),
        captured_count(reads) <= reads.len(),
    decreases reads.len(),
{
    if reads.len() > 0 {
        assert(reads_in_scale(reads.drop_last()));
        lemma_captured_sum_bound(reads.drop_last());
        let c0 = captured_count(reads.drop_last()) as int;
        let c = captured_count(reads) as int;
        assert(c0 * (FULL_SCALE as int) + (FULL_SCALE as int) == (c0 + 1) * (FULL_SCALE as int))
            by (nonlinear_arith);
        assert(reads[reads.len() - 1] == reads.last());
    }
}

/// The average of in-scale reads is itself in scale: at most 100 percent.
pub proof fn lemma_averaged_percent_bounds(reads: Seq<Option<u32>>)
    requires
        reads_in_scale(reads),
        captured_count(reads) > 0,
    ensures
        0 <= averaged_percent(reads) <= 100,
{
    let sum = captured_sum(reads);
    let count = captured_count(reads) as int;
    lemma_captured_sum_bound(reads);
    assert(((sum + 50) / 100) / count <= 100 && ((sum + 50) / 100) / count >= 0)
        by (nonlinear_arith)
        requires
            0 <= sum <= count * 10_000,
            count >= 1,
    ;
}

/// The read path of the aggregator.  Mute dominates: a muted device reads
/// as zero without consulting the channels.  Otherwise the successful
/// channel reads are averaged; a failed channel is excluded from the
/// average, and only when every channel failed does the read fail, naming
/// how many channels were probed and how many answered.
pub fn read_volume(mute: bool, reads: &Vec<Option<u32>>) -> (r: Result<u8, Error>)
    requires
        reads_in_scale(reads@),
        reads@.len() <= u32::MAX,
    ensures
        mute ==> r == Ok::<u8, Error>(0u8),
        !mute && captured_count(reads@) == 0 ==> r == Err::<u8, Error>(
            Error::VolumeCaptureFailed(
                CaptureFault::NoChannelsCaptured {
                    channel_count: reads@.len() as u32,
                    channels_captured: 0u32,
                },
            ),
        ),
        !mute && captured_count(reads@) > 0 ==> r == Ok::<u8, Error>(
            averaged_percent(reads@) as u8,
        ),
{
    if mute {
        return Ok(0);
    }
    let mut sum: u64 = 0;
    let mut count: u32 = 0;
    let mut i: usize = 0;
    while i < reads.len()
        invariant
            0 <= i <= reads@.len() <= u32::MAX,
            reads_in_scale(reads@),
            count == captured_count(reads@.subrange(0, i as int)),
            sum == captured_sum(reads@.subrange(0, i as int)),
            count <= i,
        decreases reads@.len() - i,
    {
        proof {
            assert(reads@.subrange(0, i + 1).drop_last() =~= reads@.subrange(0, i as int));
            assert(reads@.subrange(0, i + 1).last() == reads@[i as int]);
            lemma_captured_sum_bound(reads@.subrange(0, i as int));
        }
        match reads[i] {
            Some(level) => {
                assert(sum + level <= (i + 1) * 10_000 <= u64::MAX) by (nonlinear_arith)
                    requires
                        sum <= i * 10_000,
                        level <= 10_000,
                        i + 1 <= u32::MAX,
                ;
                sum = sum + level as u64;
                count = count + 1;
            },
            None => {},
        }
        i = i + 1;
    }
    proof {
        assert(reads@.subrange(0, reads@.len() as int) =~= reads@);
    }
    if count == 0 {
        Err(
            Error::VolumeCaptureFailed(
                CaptureFault::NoChannelsCaptured {
                    channel_count: reads.len() as u32,
                    channels_captured: 0,
                },
            ),
        )
    } else {
        proof {
            lemma_averaged_percent_bounds(reads@);
            lemma_captured_sum_bound(reads@);
            assert(captured_sum(reads@) <= 0xffff_ffff * 10_000) by (nonlinear_arith)
                requires
                    captured_sum(reads@) <= captured_count(reads@) * 10_000,
                    captured_count(reads@) <= 0xffff_ffff,
            ;
        }
        let rounded: u64 = (sum + 50) / 100;
        let percent: u64 = rounded / (count as u64);
        Ok(percent as u8)
    }
}

/// The action sequence that writes `percent` to a device whose channels
/// are numbered `0..=channels` (channel 0 being the master channel): the
/// level is broadcast to every channel, then mute is toggled on and off so
/// the hardware indicator re-synchronizes with the written level — except
/// that writing zero engages mute and leaves the device muted.
pub open spec fn write_plan(percent: u8, channels: u32) -> Seq<AudioAction> {
    let sets = Seq::new(
        (channels + 1) as nat,
        |i: int| AudioAction::SetChannel { channel: i as u32, level: (percent * 100) as u32 },
    );
    if percent == 0 {
        sets.push(AudioAction::SetMute { mute: true })
    } else {
        sets.push(AudioAction::SetMute { mute: true }).push(AudioAction::SetMute { mute: false })
    }
}

/// Build the write plan for one volume write.
pub fn volume_write_plan(percent: u8, channels: u32) -> (plan: Vec<AudioAction>)
    requires
        percent <= 100,
        channels + 3 <= usize::MAX,
    ensures
        plan@ == write_plan(percent, channels),
{
    let mut plan: Vec<AudioAction> = Vec::new();
    let count: usize = channels as usize + 1;
    let level: u32 = percent as u32 * 100;
    let mut i: usize = 0;
    while i < count
        invariant
            0 <= i <= count,
            count == channels + 1 <= usize::MAX,
            level == percent * 100,
            plan@ =~= Seq::new(
                i as nat,
                |j: int| AudioAction::SetChannel { channel: j as u32, level: level },
            ),
        decreases count - i,
    {
        plan.push(AudioAction::SetChannel { channel: i as u32, level: level });
        i = i + 1;
    }
    plan.push(AudioAction::SetMute { mute: true });
    if percent != 0 {
        plan.push(AudioAction::SetMute { mute: false });
    }
    proof {
        assert(plan@ =~= write_plan(percent, channels));
    }
    plan
}

/// Some channel write in the plan was acknowledged.
pub open spec fn some_channel_acked(plan: Seq<AudioAction>, acks: Seq<bool>) -> bool {
    exists|i: int| 0 <= i < plan.len() && #[trigger] plan[i] is SetChannel && acks[i]
}

/// Every mute write in the plan was acknowledged.
pub open spec fn all_mutes_acked(plan: Seq<AudioAction>, acks: Seq<bool>) -> bool {
    forall|i: int| 0 <= i < plan.len() && #[trigger] plan[i] is SetMute ==> acks[i]
}

/// Judge the outcome of a performed write plan, given one acknowledgement
/// per action.  The write succeeded if at least one channel accepted the
/// level and the mute-sync steps all succeeded; per-channel refusals by
/// themselves are absorbed.
pub fn write_verdict(plan: &Vec<AudioAction>, acks: &Vec<bool>) -> (r: Result<(), Error>)
    ensures
        plan@.len() != acks@.len() ==> r == Err::<(), Error>(
            Error::VolumeSetFailed(SetFault::NotApplied),
        ),
        plan@.len() == acks@.len() && !some_channel_acked(plan@, acks@) ==> r == Err::<(), Error>(
            Error::VolumeSetFailed(SetFault::NoChannelAccepted),
        ),
        plan@.len() == acks@.len() && some_channel_acked(plan@, acks@) && !all_mutes_acked(
            plan@,
            acks@,
        ) ==> r == Err::<(), Error>(Error::VolumeSetFailed(SetFault::SyncFailed)),
        plan@.len() == acks@.len() && some_channel_acked(plan@, acks@) && all_mutes_acked(
            plan@,
            acks@,
        ) ==> r == Ok::<(), Error>(()),
{
    if plan.len() != acks.len() {
        return Err(Error::VolumeSetFailed(SetFault::NotApplied));
    }
    let mut channel_ok: bool = false;
    let mut mutes_ok: bool = true;
    let mut i: usize = 0;
    while i < plan.len()
        invariant
            0 <= i <= plan@.len() == acks@.len(),
            channel_ok == some_channel_acked(plan@.subrange(0, i as int), acks@.subrange(0, i as int)),
            mutes_ok == all_mutes_acked(plan@.subrange(0, i as int), acks@.subrange(0, i as int)),
        decreases plan@.len() - i,
    {
        let ghost pre_p = plan@.subrange(0, i as int);
        let ghost pre_a = acks@.subrange(0, i as int);
        let ghost cur_p = plan@.subrange(0, i + 1);
        let ghost cur_a = acks@.subrange(0, i + 1);
        match plan[i] {
            AudioAction::SetChannel { .. } => {
                if acks[i] {
                    channel_ok = true;
                }
            },
            AudioAction::SetMute { .. } => {
                if !acks[i] {
                    mutes_ok = false;
                }
            },
        }
        proof {
            assert forall|j: int| 0 <= j < cur_p.len() implies cur_p[j] == plan@[j] && cur_a[j]
                == acks@[j] by {}
            if channel_ok {
                if some_channel_acked(pre_p, pre_a) {
                    let w = choose|j: int|
                        0 <= j < pre_p.len() && #[trigger] pre_p[j] is SetChannel && pre_a[j];
                    assert(cur_p[w] is SetChannel && cur_a[w]);
                } else {
                    assert(cur_p[i as int] is SetChannel && cur_a[i as int]);
                }
                assert(some_channel_acked(cur_p, cur_a));
            } else {
                assert forall|j: int|
                    0 <= j < cur_p.len() && #[trigger] cur_p[j] is SetChannel implies !cur_a[j] by {
                    if j < i as int {
                        assert(pre_p[j] is SetChannel);
                    }
                }
            }
            if mutes_ok {
                assert forall|j: int|
                    0 <= j < cur_p.len() && #[trigger] cur_p[j] is SetMute implies cur_a[j] by {
                    if j < i as int {
                        assert(pre_p[j] is SetMute);
                    }
                }
            } else {
                if all_mutes_acked(pre_p, pre_a) {
                    assert(cur_p[i as int] is SetMute && !cur_a[i as int]);
                } else {
                    let w = choose|j: int|
                        0 <= j < pre_p.len() && #[trigger] pre_p[j] is SetMute && !pre_a[j];
                    assert(cur_p[w] is SetMute && !cur_a[w]);
                }
            }
        }
        i = i + 1;
    }
    proof {
        assert(plan@.subrange(0, plan@.len() as int) =~= plan@);
        assert(acks@.subrange(0, acks@.len() as int) =~= acks@);
    }
    if !channel_ok {
        Err(Error::VolumeSetFailed(SetFault::NoChannelAccepted))
    } else if !mutes_ok {
        Err(Error::VolumeSetFailed(SetFault::SyncFailed))
    } else {
        Ok(())
    }
}

} // verus!
