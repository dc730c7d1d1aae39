//! The merge stage: validity-flag-gated fusion of joint samples into
//! per-bone state.

use vstd::prelude::*;

use crate::skeleton::HAND_BONE_COUNT;
use crate::state::BoneEntity;
use crate::state::BoneState;
use crate::state::BoneStore;
use crate::state::HandTracker;
use crate::state::QuatBits;
use crate::state::Vec3Bits;
use crate::state::XrVelocity;
use crate::state::ids_resolve;
use crate::state::resolve_bones;

verus! {

/// Pose reported for one joint: position and orientation, as bit patterns.
#[derive(Clone, Copy, PartialEq, Eq, Structural, Debug)]
pub struct JointPose {
    pub position: Vec3Bits,
    pub orientation: QuatBits,
}

/// One joint's sample from the tracking source for one frame: pose, radius,
/// velocities, and four independent validity flags. Transient: it exists
/// only for the duration of one merge step.
#[derive(Clone, Copy, PartialEq, Eq, Structural, Debug)]
pub struct JointSample {
    pub pose: JointPose,
    pub radius: u32,
    pub position_valid: bool,
    pub orientation_valid: bool,
    pub linear_velocity: Vec3Bits,
    pub angular_velocity: Vec3Bits,
    pub linear_valid: bool,
    pub angular_valid: bool,
}

/// What one query of the tracking source produced for one hand.
#[derive(Debug)]
pub enum JointQueryOutcome {
    /// A full sample set: exactly one sample per skeleton joint, in order.
    Located(Vec<JointSample>),
    /// The source has not produced a sample for this timestamp; not an error.
    NoData,
    /// The hand-tracking capability is not present on this runtime.
    CapabilityUnavailable,
    /// Any other transient query failure (bad handle, device hiccup).
    TransientFailure,
}

/// A located outcome carries exactly one sample per skeleton joint.
pub open spec fn full_sample_set(outcome: JointQueryOutcome) -> bool {
    outcome matches JointQueryOutcome::Located(samples) ==> samples@.len() == HAND_BONE_COUNT
}

/// How the merge stage disposed of one hand this tick.
#[derive(Clone, Copy, PartialEq, Eq, Structural, Debug)]
pub enum MergeOutcome {
    /// A full sample set was merged into the hand's bone states.
    Merged,
    /// The source had no data for this timestamp; silently skipped.
    SkippedNoData,
    /// The hand-tracking capability is missing; skipped, worth an error-level
    /// diagnostic once per occurrence.
    SkippedCapabilityUnavailable,
    /// A transient query failure; skipped, worth a warning, retried next tick.
    SkippedTransientFailure,
    /// A bone entity could not be resolved; the whole hand's merge was
    /// aborted with no partial state applied.
    SkippedEntityResolution,
}

/// One bone's state after merging one sample into it: the radius is always
/// overwritten; position and orientation are overwritten only when their
/// validity flags are set, and kept otherwise; the velocities are overwritten
/// when valid and reset to zero when not.
pub open spec fn merged_bone(prev: BoneState, sample: JointSample) -> BoneState {
    BoneState {
        radius: sample.radius,
        position: if sample.position_valid {
            sample.pose.position
        } else {
            prev.position
        },
        orientation: if sample.orientation_valid {
            sample.pose.orientation
        } else {
            prev.orientation
        },
        velocity: XrVelocity {
            linear: if sample.linear_valid {
                sample.linear_velocity
            } else {
                Vec3Bits::zero_spec()
            },
            angular: if sample.angular_valid {
                sample.angular_velocity
            } else {
                Vec3Bits::zero_spec()
            },
        },
    }
}

/// Merges one joint sample into one bone's state, gated by the sample's
/// validity flags. The physics velocity of the bone is untouched; only the
/// transfer stage writes it.
pub fn merge_bone(state: &mut BoneState, sample: &JointSample)
    ensures
        *final(state) == merged_bone(*old(state), *sample),
        final(state).radius == sample.radius,
        sample.position_valid ==> final(state).position == sample.pose.position,
        !sample.position_valid ==> final(state).position == old(state).position,
        sample.orientation_valid ==> final(state).orientation == sample.pose.orientation,
        !sample.orientation_valid ==> final(state).orientation == old(state).orientation,
        sample.linear_valid ==> final(state).velocity.linear == sample.linear_velocity,
        !sample.linear_valid ==> final(state).velocity.linear == Vec3Bits::zero_spec(),
        sample.angular_valid ==> final(state).velocity.angular == sample.angular_velocity,
        !sample.angular_valid ==> final(state).velocity.angular == Vec3Bits::zero_spec(),
{
    state.radius = sample.radius;
    if sample.position_valid {
        state.position = sample.pose.position;
    }
    if sample.orientation_valid {
        state.orientation = sample.pose.orientation;
    }
    if sample.linear_valid {
        state.velocity.linear = sample.linear_velocity;
    } else {
        state.velocity.linear = Vec3Bits::zero();
    }
    if sample.angular_valid {
        state.velocity.angular = sample.angular_velocity;
    } else {
        state.velocity.angular = Vec3Bits::zero();
    }
}

/// An unset position flag leaves the merged position exactly as it was:
/// the value is preserved, not zeroed.
pub proof fn lemma_invalid_position_preserved(prev: BoneState, sample: JointSample)
    requires
        !sample.position_valid,
    ensures
        merged_bone(prev, sample).position == prev.position,
{
}

/// An unset orientation flag leaves the merged orientation exactly as it
/// was: the value is preserved, not zeroed.
pub proof fn lemma_invalid_orientation_preserved(prev: BoneState, sample: JointSample)
    requires
        !sample.orientation_valid,
    ensures
        merged_bone(prev, sample).orientation == prev.orientation,
{
}

/// An unset linear-velocity flag resets the merged linear velocity to
/// exactly the zero vector, regardless of the prior value.
pub proof fn lemma_invalid_linear_velocity_zeroed(prev: BoneState, sample: JointSample)
    requires
        !sample.linear_valid,
    ensures
        merged_bone(prev, sample).velocity.linear == Vec3Bits::zero_spec(),
{
}

/// An unset angular-velocity flag resets the merged angular velocity to
/// exactly the zero vector, regardless of the prior value.
pub proof fn lemma_invalid_angular_velocity_zeroed(prev: BoneState, sample: JointSample)
    requires
        !sample.angular_valid,
    ensures
        merged_bone(prev, sample).velocity.angular == Vec3Bits::zero_spec(),
{
}

/// The radius is always overwritten from the sample whenever a sample is
/// merged, independent of every validity flag.
pub proof fn lemma_radius_always_overwritten(prev: BoneState, sample: JointSample)
    ensures
        merged_bone(prev, sample).radius == sample.radius,
{
}

/// One store slot after merging a sample into the entity it holds, if any.
/// Merging touches the merged state only, never the physics velocity.
pub open spec fn merged_slot(slot: Option<BoneEntity>, sample: JointSample) -> Option<
    BoneEntity,
> {
    match slot {
        Some(e) => Some(BoneEntity { state: merged_bone(e.state, sample), physics: e.physics }),
        None => None,
    }
}

/// The whole store after merging one hand's full sample set: the slot of
/// bone `i` takes sample `i`; every slot the hand does not name is unchanged.
pub open spec fn merged_store(
    slots: Seq<Option<BoneEntity>>,
    ids: Seq<usize>,
    samples: Seq<JointSample>,
) -> Seq<Option<BoneEntity>> {
    Seq::new(
        slots.len(),
        |j: int|
            if ids.contains(j as usize) {
                merged_slot(slots[j], samples[ids.index_of(j as usize)])
            } else {
                slots[j]
            },
    )
}

/// The store after merging the first `n` samples of a hand, bone by bone in
/// skeleton order: the order the merge loop walks the hand's bones in.
pub open spec fn merged_prefix(
    slots: Seq<Option<BoneEntity>>,
    ids: Seq<usize>,
    samples: Seq<JointSample>,
    n: int,
) -> Seq<Option<BoneEntity>>
    decreases n,
{
    if n <= 0 {
        slots
    } else {
        let prev = merged_prefix(slots, ids, samples, n - 1);
        prev.update(ids[n - 1] as int, merged_slot(prev[ids[n - 1] as int], samples[n - 1]))
    }
}

/// In a duplicate-free id sequence, `index_of` maps each id back to its own
/// position.
pub proof fn lemma_distinct_index_of(ids: Seq<usize>, i: int)
    requires
        0 <= i < ids.len(),
        forall|a: int, b: int| 0 <= a < b < ids.len() ==> ids[a] != ids[b],
    ensures
        ids.contains(ids[i]),
        ids.index_of(ids[i]) == i,
{
    assert(ids.contains(ids[i]));
    let k = ids.index_of(ids[i]);
    assert(0 <= k < ids.len() && ids[k] == ids[i]);
    if k < i {
        assert(ids[k] != ids[i]);
    } else if i < k {
        assert(ids[i] != ids[k]);
    }
}

/// Pointwise reading of `merged_store` for a hand that resolves: bone `i`'s
/// slot is merged with sample `i`, and slots the hand does not name keep
/// their value.
pub proof fn lemma_merged_store_pointwise(
    slots: Seq<Option<BoneEntity>>,
    ids: Seq<usize>,
    samples: Seq<JointSample>,
)
    requires
        ids_resolve(slots, ids),
        samples.len() == HAND_BONE_COUNT,
    ensures
        merged_store(slots, ids, samples).len() == slots.len(),
        forall|i: int|
            0 <= i < ids.len() ==> merged_store(slots, ids, samples)[ids[i] as int]
                == merged_slot(slots[ids[i] as int], samples[i]),
        forall|j: int|
            0 <= j < slots.len() && !ids.contains(j as usize) ==> merged_store(
                slots,
                ids,
                samples,
            )[j] == slots[j],
{
    assert forall|i: int| 0 <= i < ids.len() implies merged_store(slots, ids, samples)[ids[i] as int]
        == merged_slot(slots[ids[i] as int], samples[i]) by {
        lemma_distinct_index_of(ids, i);
        assert(ids[i] < slots.len());
    }
}

/// Merging never spawns or despawns: the store keeps its length and every
/// slot keeps its liveness.
pub proof fn lemma_merged_store_preserves_liveness(
    slots: Seq<Option<BoneEntity>>,
    ids: Seq<usize>,
    samples: Seq<JointSample>,
)
    ensures
        merged_store(slots, ids, samples).len() == slots.len(),
        forall|j: int|
            0 <= j < slots.len() ==> merged_store(slots, ids, samples)[j].is_some()
                == slots[j].is_some(),
{
}

/// A merge prefix never spawns or despawns: the store keeps its length and
/// every slot keeps its liveness.
pub proof fn lemma_merged_prefix_preserves_liveness(
    slots: Seq<Option<BoneEntity>>,
    ids: Seq<usize>,
    samples: Seq<JointSample>,
    n: int,
)
    requires
        0 <= n <= ids.len(),
        forall|i: int| 0 <= i < ids.len() ==> (#[trigger] ids[i]) < slots.len(),
    ensures
        merged_prefix(slots, ids, samples, n).len() == slots.len(),
        forall|j: int|
            0 <= j < slots.len() ==> merged_prefix(slots, ids, samples, n)[j].is_some()
                == slots[j].is_some(),
    decreases n,
{
    if n > 0 {
        lemma_merged_prefix_preserves_liveness(slots, ids, samples, n - 1);
    }
}

/// Pointwise reading of a merge prefix: bone `k`'s slot is merged with
/// sample `k` for every `k` already walked, and every slot the walked ids do
/// not name keeps its value.
pub proof fn lemma_merged_prefix_pointwise(
    slots: Seq<Option<BoneEntity>>,
    ids: Seq<usize>,
    samples: Seq<JointSample>,
    n: int,
)
    requires
        0 <= n <= ids.len(),
        forall|i: int| 0 <= i < ids.len() ==> (#[trigger] ids[i]) < slots.len(),
        forall|a: int, b: int| 0 <= a < b < ids.len() ==> ids[a] != ids[b],
    ensures
        merged_prefix(slots, ids, samples, n).len() == slots.len(),
        forall|k: int|
            0 <= k < n ==> merged_prefix(slots, ids, samples, n)[ids[k] as int] == merged_slot(
                slots[ids[k] as int],
                samples[k],
            ),
        forall|j: int|
            0 <= j < slots.len() && !ids.take(n).contains(j as usize) ==> merged_prefix(
                slots,
                ids,
                samples,
                n,
            )[j] == slots[j],
    decreases n,
{
    if n > 0 {
        lemma_merged_prefix_pointwise(slots, ids, samples, n - 1);
        let prev = merged_prefix(slots, ids, samples, n - 1);
        let cur = merged_prefix(slots, ids, samples, n);
        assert(!ids.take(n - 1).contains(ids[n - 1])) by {
            if ids.take(n - 1).contains(ids[n - 1]) {
                let k = choose|k: int| 0 <= k < n - 1 && #[trigger] ids.take(n - 1)[k] == ids[n - 1];
                assert(ids[k] == ids[n - 1]);
            }
        }
        assert(prev[ids[n - 1] as int] == slots[ids[n - 1] as int]);
        assert forall|k: int| 0 <= k < n implies cur[ids[k] as int] == merged_slot(
            slots[ids[k] as int],
            samples[k],
        ) by {
            if k < n - 1 {
                assert(ids[k] != ids[n - 1]);
            }
        }
        assert forall|j: int|
            0 <= j < slots.len() && !ids.take(n).contains(j as usize) implies cur[j]
            == slots[j] by {
            assert(ids.take(n)[n - 1] == ids[n - 1]);
            assert(ids[n - 1] as int != j);
            assert(!ids.take(n - 1).contains(j as usize)) by {
                if ids.take(n - 1).contains(j as usize) {
                    let k = choose|k: int| 0 <= k < n - 1 && #[trigger] ids.take(n - 1)[k] == j as usize;
                    assert(ids.take(n)[k] == j as usize);
                }
            }
        }
    }
}

/// Walking a resolving hand's bones to the end is exactly the whole-hand
/// merge.
pub proof fn lemma_merged_prefix_is_merged_store(
    slots: Seq<Option<BoneEntity>>,
    ids: Seq<usize>,
    samples: Seq<JointSample>,
)
    requires
        ids_resolve(slots, ids),
        samples.len() == HAND_BONE_COUNT,
        slots.len() <= usize::MAX,
    ensures
        merged_prefix(slots, ids, samples, ids.len() as int) == merged_store(slots, ids, samples),
{
    let n = ids.len() as int;
    lemma_merged_prefix_pointwise(slots, ids, samples, n);
    lemma_merged_store_pointwise(slots, ids, samples);
    let a = merged_prefix(slots, ids, samples, n);
    let b = merged_store(slots, ids, samples);
    assert forall|j: int| 0 <= j < slots.len() implies a[j] == b[j] by {
        if ids.contains(j as usize) {
            let i0 = ids.index_of(j as usize);
            assert(0 <= i0 < ids.len() && ids[i0] == j as usize);
            lemma_distinct_index_of(ids, i0);
            assert(a[ids[i0] as int] == merged_slot(slots[ids[i0] as int], samples[i0]));
            assert(b[ids[i0] as int] == merged_slot(slots[ids[i0] as int], samples[i0]));
        } else {
            assert(!ids.take(n).contains(j as usize)) by {
                if ids.take(n).contains(j as usize) {
                    let k = choose|k: int| 0 <= k < n && #[trigger] ids.take(n)[k] == j as usize;
                    assert(ids[k] == j as usize);
                }
            }
        }
    }
    assert(a =~= b);
}

/// What one hand's merge makes of the store: a full sample set that resolves
/// is merged bone by bone; anything else leaves the store exactly as it was.
pub open spec fn hand_step(
    slots: Seq<Option<BoneEntity>>,
    tracker: HandTracker,
    outcome: JointQueryOutcome,
) -> Seq<Option<BoneEntity>> {
    match outcome {
        JointQueryOutcome::Located(samples) => if ids_resolve(slots, tracker.bone_ids@) {
            merged_store(slots, tracker.bone_ids@, samples@)
        } else {
            slots
        },
        _ => slots,
    }
}

/// How the merge stage reports one hand's disposition for the tick.
pub open spec fn hand_report(
    slots: Seq<Option<BoneEntity>>,
    tracker: HandTracker,
    outcome: JointQueryOutcome,
) -> MergeOutcome {
    match outcome {
        JointQueryOutcome::Located(_) => if ids_resolve(slots, tracker.bone_ids@) {
            MergeOutcome::Merged
        } else {
            MergeOutcome::SkippedEntityResolution
        },
        JointQueryOutcome::NoData => MergeOutcome::SkippedNoData,
        JointQueryOutcome::CapabilityUnavailable => MergeOutcome::SkippedCapabilityUnavailable,
        JointQueryOutcome::TransientFailure => MergeOutcome::SkippedTransientFailure,
    }
}

/// Merges one hand's query outcome into the store.
///
/// A located outcome whose bone entities all resolve is merged whole: bone
/// `i` takes sample `i`, every other slot is untouched. A no-data outcome,
/// either failure outcome, or a failed entity resolution leaves the store
/// exactly as it was — never partially merged.
#[verifier::loop_isolation(false)]
pub fn merge_hand(store: &mut BoneStore, tracker: &HandTracker, outcome: &JointQueryOutcome) -> (r:
    MergeOutcome)
    requires
        full_sample_set(*outcome),
    ensures
        final(store).slots@ == hand_step(old(store).slots@, *tracker, *outcome),
        r == hand_report(old(store).slots@, *tracker, *outcome),
{
    match outcome {
        JointQueryOutcome::Located(samples) => {
            if !resolve_bones(store, &tracker.bone_ids) {
                return MergeOutcome::SkippedEntityResolution;
            }
            let ghost slots0 = store.slots@;
            let ghost ids = tracker.bone_ids@;
            let mut i: usize = 0;
            while i < HAND_BONE_COUNT
                invariant
                    i <= HAND_BONE_COUNT,
                    store.slots@ == merged_prefix(slots0, ids, samples@, i as int),
                decreases HAND_BONE_COUNT - i,
            {
                let ghost prev = store.slots@;
                proof {
                    lemma_merged_prefix_preserves_liveness(slots0, ids, samples@, i as int);
                    assert(ids[i as int] < slots0.len());
                    assert(store.slots@[ids[i as int] as int].is_some());
                }
                let id = tracker.bone_ids[i];
                let mut e = store.slots[id].unwrap();
                merge_bone(&mut e.state, &samples[i]);
                store.slots[id] = Some(e);
                proof {
                    assert(Some(e) == merged_slot(prev[id as int], samples@[i as int]));
                    assert(store.slots@ =~= merged_prefix(slots0, ids, samples@, i + 1));
                }
                i += 1;
            }
            proof {
                lemma_merged_prefix_is_merged_store(slots0, ids, samples@);
            }
            MergeOutcome::Merged
        },
        JointQueryOutcome::NoData => MergeOutcome::SkippedNoData,
        JointQueryOutcome::CapabilityUnavailable => MergeOutcome::SkippedCapabilityUnavailable,
        JointQueryOutcome::TransientFailure => MergeOutcome::SkippedTransientFailure,
    }
}

} // verus!
