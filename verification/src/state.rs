//! The control-plane model of one output device: per-channel levels plus a
//! mute flag.  The write plan of the aggregator is given its meaning here
//! — applying a plan to a device state — and the laws tying a write to the
//! following read are proved against that meaning.

use vstd::prelude::*;

use crate::aggregate::AudioAction;
use crate::aggregate::FULL_SCALE;
use crate::aggregate::averaged_percent;
use crate::aggregate::captured_count;
use crate::aggregate::captured_sum;
use crate::aggregate::reads_in_scale;
use crate::aggregate::write_plan;

verus! {

/// The control state of one output device: the level of each channel in
/// scalar units (index 0 is the master channel) and the mute flag.
#[derive(Clone, Debug)]
pub struct DeviceState {
    pub levels: Vec<u32>,
    pub mute: bool,
}

/// Every level is at most full scale.
pub open spec fn levels_in_scale(levels: Seq<u32>) -> bool {
    forall|i: int| 0 <= i < levels.len() ==> #[trigger] levels[i] <= FULL_SCALE
}

impl DeviceState {
    /// A device has at least one channel, and every level is in scale.
    pub open spec fn wf(&self) -> bool {
        &&& 1 <= self.levels@.len() <= u32::MAX
        &&& levels_in_scale(self.levels@)
    }
}

/// The channel levels as a set of reads in which every channel answered.
pub open spec fn as_reads(levels: Seq<u32>) -> Seq<Option<u32>> {
    Seq::new(levels.len(), |i: int| Some(levels[i]))
}

/// What a read of the device state returns, as a whole percentage point:
/// zero when muted, otherwise the rounded average of the channel levels.
pub open spec fn read_percent(levels: Seq<u32>, mute: bool) -> int {
    if mute {
        0
    } else {
        averaged_percent(as_reads(levels))
    }
}

/// The level, in scalar units, that a write of `percent` puts on a channel.
pub open spec fn scale_of_percent(percent: u8) -> u32 {
    (percent * 100) as u32
}

/// The channel levels after `percent` has been broadcast to `n` channels.
pub open spec fn broadcast_levels(n: nat, percent: u8) -> Seq<u32> {
    Seq::new(n, |i: int| scale_of_percent(percent))
}

/// One action applied to a device state.  A write to a channel the device
/// does not have changes nothing, mirroring a per-channel write the
/// hardware refuses.
pub open spec fn apply_action_spec(levels: Seq<u32>, mute: bool, a: AudioAction) -> (Seq<
    u32,
>, bool) {
    match a {
        AudioAction::SetChannel { channel, level } => {
            if channel < levels.len() {
                (levels.update(channel as int, level), mute)
            } else {
                (levels, mute)
            }
        },
        AudioAction::SetMute { mute: m } => (levels, m),
    }
}

/// A plan applied to a device state, action by action, in order.
pub open spec fn apply_plan_spec(levels: Seq<u32>, mute: bool, plan: Seq<AudioAction>) -> (Seq<
    u32,
>, bool)
    decreases plan.len(),
{
    if plan.len() == 0 {
        (levels, mute)
    } else {
        let prior = apply_plan_spec(levels, mute, plan.drop_last());
        apply_action_spec(prior.0, prior.1, plan.last())
    }
}

/// Every channel write in the plan stays in scale.
pub open spec fn plan_in_scale(plan: Seq<AudioAction>) -> bool {
    forall|i: int|
        0 <= i < plan.len() ==> (#[trigger] plan[i] matches AudioAction::SetChannel {
            level,
            ..
        } ==> level <= FULL_SCALE)
}

/// Apply one action to a device state.
pub fn apply_action(dev: &mut DeviceState, action: AudioAction)
    requires
        old(dev).wf(),
        (action matches AudioAction::SetChannel { level, .. } ==> level <= FULL_SCALE),
    ensures
        (final(dev).levels@, final(dev).mute) == apply_action_spec(
            old(dev).levels@,
            old(dev).mute,
            action,
        ),
        final(dev).wf(),
{
    match action {
        AudioAction::SetChannel { channel, level } => {
            if (channel as usize) < dev.levels.len() {
                dev.levels.set(channel as usize, level);
            }
        },
        AudioAction::SetMute { mute } => {
            dev.mute = mute;
        },
    }
}

/// Apply a whole plan to a device state, in order.
pub fn apply_plan(dev: &mut DeviceState, plan: &Vec<AudioAction>)
    requires
        old(dev).wf(),
        plan_in_scale(plan@),
    ensures
        (final(dev).levels@, final(dev).mute) == apply_plan_spec(
            old(dev).levels@,
            old(dev).mute,
            plan@,
        ),
        final(dev).wf(),
{
    let ghost levels0 = dev.levels@;
    let ghost mute0 = dev.mute;
    let mut i: usize = 0;
    while i < plan.len()
        invariant
            0 <= i <= plan@.len(),
            plan_in_scale(plan@),
            (dev.levels@, dev.mute) == apply_plan_spec(levels0, mute0, plan@.subrange(0, i as int)),
            dev.wf(),
        decreases plan@.len() - i,
    {
        proof {
            assert(plan@.subrange(0, i + 1).drop_last() =~= plan@.subrange(0, i as int));
            assert(plan@.subrange(0, i + 1).last() == plan@[i as int]);
        }
        apply_action(dev, plan[i]);
        i = i + 1;
    }
    proof {
        assert(plan@.subrange(0, plan@.len() as int) =~= plan@);
    }
}

/// Applying the prefix of `k` channel writes of a broadcast sets the first
/// `k` levels and leaves the rest, and does not touch the mute flag.
proof fn lemma_broadcast_prefix(levels: Seq<u32>, mute: bool, level: u32, k: nat)
    requires
        k <= levels.len(),
        k <= 0x1_0000_0000,
    ensures
        apply_plan_spec(
            levels,
            mute,
            Seq::new(k, |i: int| AudioAction::SetChannel { channel: i as u32, level: level }),
        ) == (Seq::new(levels.len(), |i: int| if i < k { level } else { levels[i] }), mute),
    decreases k,
{
    let sets = Seq::new(
        k,
        |i: int| AudioAction::SetChannel { channel: i as u32, level: level },
    );
    if k == 0 {
        assert(Seq::new(levels.len(), |i: int| if i < k { level } else { levels[i] }) =~= levels);
    } else {
        let prev = Seq::new(
            (k - 1) as nat,
            |i: int| AudioAction::SetChannel { channel: i as u32, level: level },
        );
        assert(sets.drop_last() =~= prev);
        lemma_broadcast_prefix(levels, mute, level, (k - 1) as nat);
        let before = Seq::new(
            levels.len(),
            |i: int| if i < k - 1 {
                level
            } else {
                levels[i]
            },
        );
        assert(sets.last() == AudioAction::SetChannel { channel: (k - 1) as u32, level: level });
        assert(before.update(k - 1, level) =~= Seq::new(
            levels.len(),
            |i: int| if i < k {
                level
            } else {
                levels[i]
            },
        ));
    }
}

/// The write-plan law: applying the write plan for `percent` to a device
/// with channels `0..=channels` broadcasts the level to every channel, and
/// leaves the device muted exactly when `percent` is zero.
pub proof fn lemma_write_plan_applies(levels: Seq<u32>, mute: bool, percent: u8, channels: u32)
    requires
        levels.len() == channels + 1,
        percent <= 100,
    ensures
        apply_plan_spec(levels, mute, write_plan(percent, channels)) == (
            broadcast_levels(levels.len(), percent),
            percent == 0,
        ),
{
    let level = scale_of_percent(percent);
    let sets = Seq::new(
        (channels + 1) as nat,
        |i: int| AudioAction::SetChannel { channel: i as u32, level: level },
    );
    lemma_broadcast_prefix(levels, mute, level, (channels + 1) as nat);
    assert(Seq::new(levels.len(), |i: int| if i < channels + 1 { level } else { levels[i] })
        =~= broadcast_levels(levels.len(), percent));
    let muted = sets.push(AudioAction::SetMute { mute: true });
    assert(muted.drop_last() =~= sets);
    assert(apply_plan_spec(levels, mute, muted) == (broadcast_levels(levels.len(), percent), true));
    if percent == 0 {
        assert(write_plan(percent, channels) =~= muted);
    } else {
        let toggled = muted.push(AudioAction::SetMute { mute: false });
        assert(toggled.drop_last() =~= muted);
        assert(apply_plan_spec(levels, mute, toggled) == (
            broadcast_levels(levels.len(), percent),
            false,
        ));
        assert(write_plan(percent, channels) =~= toggled);
    }
}

/// In a read set where every channel answered, the captured count is the
/// channel count, and the reads are in scale when the levels are.
pub proof fn lemma_as_reads_captures(levels: Seq<u32>)
    ensures
        captured_count(as_reads(levels)) == levels.len(),
        levels_in_scale(levels) ==> reads_in_scale(as_reads(levels)),
    decreases levels.len(),
{
    if levels.len() > 0 {
        lemma_as_reads_captures(levels.drop_last());
        assert(as_reads(levels).drop_last() =~= as_reads(levels.drop_last()));
        assert(as_reads(levels).last() == Some(levels.last()));
    }
}

proof fn lemma_uniform_reads(n: nat, level: u32)
    ensures
        captured_count(as_reads(Seq::new(n, |i: int| level))) == n,
        captured_sum(as_reads(Seq::new(n, |i: int| level))) == n * level,
    decreases n,
{
    let reads = as_reads(Seq::new(n, |i: int| level));
    if n == 0 {
        assert(reads.len() == 0);
    } else {
        lemma_uniform_reads((n - 1) as nat, level);
        assert(reads.drop_last() =~= as_reads(Seq::new((n - 1) as nat, |i: int| level)));
        assert(reads.last() == Some(level));
        assert((n - 1) * level + level == n * level) by (nonlinear_arith);
    }
}

/// The round-trip law: after `percent` is broadcast to a device, a read
/// returns exactly `percent`; and a write of zero leaves the device muted,
/// so the read returns zero through mute-dominance alone.
pub proof fn lemma_set_then_get(n: nat, percent: u8)
    requires
        1 <= n,
        percent <= 100,
    ensures
        read_percent(broadcast_levels(n, percent), percent == 0) == percent,
{
    if percent != 0 {
        lemma_read_of_broadcast(n, percent);
    }
}

/// A read of an unmuted device carrying a broadcast level returns exactly
/// that level, whatever the level is.
pub proof fn lemma_read_of_broadcast(n: nat, percent: u8)
    requires
        1 <= n,
        percent <= 100,
    ensures
        read_percent(broadcast_levels(n, percent), false) == percent,
{
    let level = scale_of_percent(percent);
    let reads = as_reads(broadcast_levels(n, percent));
    assert(broadcast_levels(n, percent) =~= Seq::new(n, |i: int| level));
    lemma_uniform_reads(n, level);
    let sum = captured_sum(reads);
    assert(sum == n * level);
    assert(n * (percent * 100) == 100 * (n * percent)) by (nonlinear_arith);
    assert((100 * (n * percent) + 50) / 100 == n * percent) by {
        vstd::arithmetic::div_mod::lemma_div_multiples_vanish_fancy(n * percent as int, 50, 100);
    }
    assert((n * percent as int) / (n as int) == percent) by {
        vstd::arithmetic::div_mod::lemma_div_multiples_vanish(percent as int, n as int);
    }
}

/// Mute dominance: a muted device reads as zero, whatever its levels hold.
pub proof fn lemma_mute_dominates(levels: Seq<u32>)
    ensures
        read_percent(levels, true) == 0,
{
}

/// The mute round-trip law: after a broadcast of a non-zero level, muting
/// makes the device read as zero, and unmuting again — which leaves the
/// channel levels untouched — restores the previously-set level exactly.
pub proof fn lemma_mute_then_unmute_restores(n: nat, percent: u8)
    requires
        1 <= n,
        0 < percent <= 100,
    ensures
        read_percent(broadcast_levels(n, percent), true) == 0,
        read_percent(broadcast_levels(n, percent), false) == percent,
{
    lemma_read_of_broadcast(n, percent);
}

} // verus!
