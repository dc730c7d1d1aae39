//! The per-tick pipeline: session-gated merge of every hand's query outcome,
//! then the velocity transfer, strictly in that order.

use vstd::prelude::*;

use crate::merge::JointQueryOutcome;
use crate::merge::MergeOutcome;
use crate::merge::full_sample_set;
use crate::merge::hand_report;
use crate::merge::hand_step;
use crate::merge::lemma_merged_store_pointwise;
use crate::merge::lemma_merged_store_preserves_liveness;
use crate::merge::merge_hand;
use crate::merge::merged_bone;
use crate::merge::merged_slot;
use crate::skeleton::HAND_BONE_COUNT;
use crate::state::BoneEntity;
use crate::state::BoneStore;
use crate::state::HandTracker;
use crate::state::Vec3Bits;
use crate::state::ids_resolve;
use crate::transfer::transfer_velocities;
use crate::transfer::transferred_slot;
use crate::transfer::transferred_store;

verus! {

/// The store after the merge phase of one tick: every hand's outcome merged
/// in order, each against the store the hands before it left behind.
pub open spec fn merged_hands(
    slots: Seq<Option<BoneEntity>>,
    trackers: Seq<HandTracker>,
    outcomes: Seq<JointQueryOutcome>,
    n: int,
) -> Seq<Option<BoneEntity>>
    decreases n,
{
    if n <= 0 {
        slots
    } else {
        hand_step(merged_hands(slots, trackers, outcomes, n - 1), trackers[n - 1], outcomes[n - 1])
    }
}

/// The store after one whole tick: nothing at all while the session gate is
/// closed; merge every hand, then transfer every velocity, while it is open.
pub open spec fn tick_spec(
    slots: Seq<Option<BoneEntity>>,
    trackers: Seq<HandTracker>,
    outcomes: Seq<JointQueryOutcome>,
    session_running: bool,
) -> Seq<Option<BoneEntity>> {
    if session_running {
        transferred_store(merged_hands(slots, trackers, outcomes, trackers.len() as int))
    } else {
        slots
    }
}

/// No two trackers name a common bone entity: hands are independent, each
/// bone entity belongs to exactly one tracked hand.
pub open spec fn trackers_disjoint(trackers: Seq<HandTracker>) -> bool {
    forall|g1: int, g2: int, a: int, b: int|
        0 <= g1 < trackers.len() && 0 <= g2 < trackers.len() && g1 != g2 && 0 <= a
            < trackers[g1].bone_ids@.len() && 0 <= b < trackers[g2].bone_ids@.len()
            ==> #[trigger] trackers[g1].bone_ids@[a] != #[trigger] trackers[g2].bone_ids@[b]
}

/// One hand's merge never spawns or despawns: the store keeps its length and
/// every slot keeps its liveness.
pub proof fn lemma_hand_step_preserves_liveness(
    slots: Seq<Option<BoneEntity>>,
    tracker: HandTracker,
    outcome: JointQueryOutcome,
)
    ensures
        hand_step(slots, tracker, outcome).len() == slots.len(),
        forall|j: int|
            0 <= j < slots.len() ==> hand_step(slots, tracker, outcome)[j].is_some()
                == slots[j].is_some(),
{
    match outcome {
        JointQueryOutcome::Located(samples) => {
            lemma_merged_store_preserves_liveness(slots, tracker.bone_ids@, samples@);
        },
        _ => {},
    }
}

/// Two stores of equal length whose slots are pointwise equally live resolve
/// the same trackers.
pub proof fn lemma_same_liveness_same_resolve(
    slots1: Seq<Option<BoneEntity>>,
    slots2: Seq<Option<BoneEntity>>,
    ids: Seq<usize>,
)
    requires
        slots1.len() == slots2.len(),
        forall|j: int| 0 <= j < slots1.len() ==> slots1[j].is_some() == slots2[j].is_some(),
    ensures
        ids_resolve(slots1, ids) == ids_resolve(slots2, ids),
{
}

/// The merge phase never spawns or despawns: the store keeps its length and
/// every slot keeps its liveness.
pub proof fn lemma_merged_hands_preserves_liveness(
    slots: Seq<Option<BoneEntity>>,
    trackers: Seq<HandTracker>,
    outcomes: Seq<JointQueryOutcome>,
    n: int,
)
    ensures
        merged_hands(slots, trackers, outcomes, n).len() == slots.len(),
        forall|j: int|
            0 <= j < slots.len() ==> merged_hands(slots, trackers, outcomes, n)[j].is_some()
                == slots[j].is_some(),
    decreases n,
{
    if n > 0 {
        lemma_merged_hands_preserves_liveness(slots, trackers, outcomes, n - 1);
        lemma_hand_step_preserves_liveness(
            merged_hands(slots, trackers, outcomes, n - 1),
            trackers[n - 1],
            outcomes[n - 1],
        );
    }
}

/// A slot that a hand's tracker does not name is untouched by that hand's
/// merge, whatever its outcome was.
pub proof fn lemma_hand_step_frame(
    slots: Seq<Option<BoneEntity>>,
    tracker: HandTracker,
    outcome: JointQueryOutcome,
    j: int,
)
    requires
        0 <= j < slots.len(),
        !tracker.bone_ids@.contains(j as usize),
    ensures
        hand_step(slots, tracker, outcome)[j] == slots[j],
{
}

/// A slot that no located hand's tracker names is untouched by the whole
/// merge phase.
pub proof fn lemma_merged_hands_frame(
    slots: Seq<Option<BoneEntity>>,
    trackers: Seq<HandTracker>,
    outcomes: Seq<JointQueryOutcome>,
    n: int,
    j: int,
)
    requires
        0 <= n <= trackers.len(),
        0 <= j < slots.len(),
        forall|g: int|
            0 <= g < n ==> !(#[trigger] outcomes[g] is Located) || !trackers[g].bone_ids@.contains(
                j as usize,
            ),
    ensures
        merged_hands(slots, trackers, outcomes, n)[j] == slots[j],
    decreases n,
{
    if n > 0 {
        lemma_merged_hands_frame(slots, trackers, outcomes, n - 1, j);
        let prev = merged_hands(slots, trackers, outcomes, n - 1);
        lemma_merged_hands_preserves_liveness(slots, trackers, outcomes, n - 1);
        if outcomes[n - 1] is Located {
            lemma_hand_step_frame(prev, trackers[n - 1], outcomes[n - 1], j);
        }
    }
}

/// Bone `i` of a located hand whose entities resolve leaves the merge phase
/// carrying sample `i` merged into the state it entered the tick with; no
/// other hand disturbs it.
pub proof fn lemma_merged_hands_at_bone(
    slots: Seq<Option<BoneEntity>>,
    trackers: Seq<HandTracker>,
    outcomes: Seq<JointQueryOutcome>,
    n: int,
    h: int,
    i: int,
)
    requires
        trackers_disjoint(trackers),
        outcomes.len() == trackers.len(),
        0 <= h < n <= trackers.len(),
        full_sample_set(outcomes[h]),
        outcomes[h] is Located,
        ids_resolve(slots, trackers[h].bone_ids@),
        0 <= i < HAND_BONE_COUNT,
    ensures
        outcomes[h] matches JointQueryOutcome::Located(samples) ==> merged_hands(
            slots,
            trackers,
            outcomes,
            n,
        )[trackers[h].bone_ids@[i] as int] == merged_slot(
            slots[trackers[h].bone_ids@[i] as int],
            samples@[i],
        ),
    decreases n,
{
    let ids = trackers[h].bone_ids@;
    let j = ids[i] as int;
    assert(0 <= j < slots.len());
    if n - 1 > h {
        lemma_merged_hands_at_bone(slots, trackers, outcomes, n - 1, h, i);
        let prev = merged_hands(slots, trackers, outcomes, n - 1);
        lemma_merged_hands_preserves_liveness(slots, trackers, outcomes, n - 1);
        assert(!trackers[n - 1].bone_ids@.contains(j as usize)) by {
            if trackers[n - 1].bone_ids@.contains(j as usize) {
                let b = choose|b: int|
                    0 <= b < trackers[n - 1].bone_ids@.len() && #[trigger] trackers[n
                        - 1].bone_ids@[b] == j as usize;
                assert(trackers[h].bone_ids@[i] != trackers[n - 1].bone_ids@[b]);
            }
        }
        lemma_hand_step_frame(prev, trackers[n - 1], outcomes[n - 1], j);
    } else {
        let prev = merged_hands(slots, trackers, outcomes, h);
        lemma_merged_hands_preserves_liveness(slots, trackers, outcomes, h);
        assert forall|g: int|
            0 <= g < h implies !(#[trigger] outcomes[g] is Located) || !trackers[
            g
        ].bone_ids@.contains(j as usize) by {
            if trackers[g].bone_ids@.contains(j as usize) {
                let b = choose|b: int|
                    0 <= b < trackers[g].bone_ids@.len() && #[trigger] trackers[g].bone_ids@[b]
                        == j as usize;
                assert(trackers[h].bone_ids@[i] != trackers[g].bone_ids@[b]);
            }
        }
        lemma_merged_hands_frame(slots, trackers, outcomes, h, j);
        lemma_same_liveness_same_resolve(slots, prev, ids);
        match outcomes[h] {
            JointQueryOutcome::Located(samples) => {
                lemma_merged_store_pointwise(prev, ids, samples@);
            },
            _ => {},
        }
    }
}

/// A hand whose query produced no data — or failed — contributes nothing to
/// the merge phase: the store leaves its merge exactly as it entered.
pub proof fn lemma_skip_leaves_store_unchanged(
    slots: Seq<Option<BoneEntity>>,
    tracker: HandTracker,
    outcome: JointQueryOutcome,
)
    requires
        !(outcome is Located),
    ensures
        hand_step(slots, tracker, outcome) == slots,
{
}

/// A hand whose entity resolution fails has its whole merge aborted: no
/// partial state is applied, the store leaves its merge exactly as it
/// entered — in particular no bone of any other hand is altered by it.
pub proof fn lemma_resolution_failure_leaves_store_unchanged(
    slots: Seq<Option<BoneEntity>>,
    tracker: HandTracker,
    outcome: JointQueryOutcome,
)
    requires
        !ids_resolve(slots, tracker.bone_ids@),
    ensures
        hand_step(slots, tracker, outcome) == slots,
{
}

/// A hand whose entity resolution fails at the state the tick began with is
/// inert for the whole tick: the merge phase ends exactly as it would had
/// that hand reported no data, so every other hand's bones are exactly what
/// that other hand's own merge made of them.
pub proof fn lemma_failed_hand_is_inert(
    slots: Seq<Option<BoneEntity>>,
    trackers: Seq<HandTracker>,
    outcomes: Seq<JointQueryOutcome>,
    n: int,
    a: int,
)
    requires
        0 <= n <= trackers.len(),
        0 <= a < trackers.len(),
        outcomes.len() == trackers.len(),
        !ids_resolve(slots, trackers[a].bone_ids@),
    ensures
        merged_hands(slots, trackers, outcomes, n) == merged_hands(
            slots,
            trackers,
            outcomes.update(a, JointQueryOutcome::NoData),
            n,
        ),
    decreases n,
{
    let skipped = outcomes.update(a, JointQueryOutcome::NoData);
    if n > 0 {
        lemma_failed_hand_is_inert(slots, trackers, outcomes, n - 1, a);
        let prev = merged_hands(slots, trackers, outcomes, n - 1);
        if n - 1 == a {
            lemma_merged_hands_preserves_liveness(slots, trackers, outcomes, n - 1);
            lemma_same_liveness_same_resolve(slots, prev, trackers[a].bone_ids@);
            assert(hand_step(prev, trackers[a], outcomes[a]) == prev);
            assert(hand_step(prev, trackers[a], skipped[a]) == prev);
        } else {
            assert(skipped[n - 1] == outcomes[n - 1]);
        }
    }
}

/// Merge-then-transfer ordering: for a bone merged this tick, the physics
/// velocity the tick publishes is the velocity fused by this same tick's
/// merge — the sampled value when the flag is set, exactly zero when it is
/// unset — never the previous tick's value.
pub proof fn lemma_merge_then_transfer(
    slots: Seq<Option<BoneEntity>>,
    trackers: Seq<HandTracker>,
    outcomes: Seq<JointQueryOutcome>,
    h: int,
    i: int,
)
    requires
        trackers_disjoint(trackers),
        outcomes.len() == trackers.len(),
        0 <= h < trackers.len(),
        full_sample_set(outcomes[h]),
        outcomes[h] is Located,
        ids_resolve(slots, trackers[h].bone_ids@),
        0 <= i < HAND_BONE_COUNT,
    ensures
        outcomes[h] matches JointQueryOutcome::Located(samples) ==> ({
            let j = trackers[h].bone_ids@[i] as int;
            let after = tick_spec(slots, trackers, outcomes, true);
            &&& after[j] is Some
            &&& after[j].unwrap().physics.linear == merged_bone(
                slots[j].unwrap().state,
                samples@[i],
            ).velocity.linear
            &&& after[j].unwrap().physics.angular == merged_bone(
                slots[j].unwrap().state,
                samples@[i],
            ).velocity.angular
            &&& samples@[i].linear_valid ==> after[j].unwrap().physics.linear
                == samples@[i].linear_velocity
            &&& !samples@[i].linear_valid ==> after[j].unwrap().physics.linear
                == Vec3Bits::zero_spec()
            &&& samples@[i].angular_valid ==> after[j].unwrap().physics.angular
                == samples@[i].angular_velocity
            &&& !samples@[i].angular_valid ==> after[j].unwrap().physics.angular
                == Vec3Bits::zero_spec()
        }),
{
    let n = trackers.len() as int;
    let j = trackers[h].bone_ids@[i] as int;
    lemma_merged_hands_at_bone(slots, trackers, outcomes, n, h, i);
    let merged = merged_hands(slots, trackers, outcomes, n);
    lemma_merged_hands_preserves_liveness(slots, trackers, outcomes, n);
    assert(tick_spec(slots, trackers, outcomes, true)[j] == transferred_slot(merged[j]));
}

/// A hand whose query produced no data keeps every bone's merged state
/// through the whole tick: position, orientation, radius and fused velocity
/// are exactly what they were when the tick began, and no other hand's merge
/// disturbs them.
pub proof fn lemma_no_data_keeps_bone_state(
    slots: Seq<Option<BoneEntity>>,
    trackers: Seq<HandTracker>,
    outcomes: Seq<JointQueryOutcome>,
    h: int,
    i: int,
)
    requires
        trackers_disjoint(trackers),
        outcomes.len() == trackers.len(),
        0 <= h < trackers.len(),
        outcomes[h] is NoData,
        0 <= i < trackers[h].bone_ids@.len(),
        trackers[h].bone_ids@[i] < slots.len(),
    ensures
        ({
            let j = trackers[h].bone_ids@[i] as int;
            let after = tick_spec(slots, trackers, outcomes, true);
            &&& after[j] == transferred_slot(slots[j])
            &&& slots[j] matches Some(e) ==> after[j] is Some && after[j].unwrap().state == e.state
        }),
{
    let n = trackers.len() as int;
    let j = trackers[h].bone_ids@[i] as int;
    assert forall|g: int|
        0 <= g < n implies !(#[trigger] outcomes[g] is Located) || !trackers[g].bone_ids@.contains(
        j as usize,
    ) by {
        if g != h && trackers[g].bone_ids@.contains(j as usize) {
            let b = choose|b: int|
                0 <= b < trackers[g].bone_ids@.len() && #[trigger] trackers[g].bone_ids@[b]
                    == j as usize;
            assert(trackers[h].bone_ids@[i] != trackers[g].bone_ids@[b]);
        }
    }
    lemma_merged_hands_frame(slots, trackers, outcomes, n, j);
    lemma_merged_hands_preserves_liveness(slots, trackers, outcomes, n);
    assert(tick_spec(slots, trackers, outcomes, true)[j] == transferred_slot(
        merged_hands(slots, trackers, outcomes, n)[j],
    ));
}

/// Runs one simulation tick of the pipeline.
///
/// While the session gate is closed nothing runs and the store is untouched.
/// While it is open, each hand's query outcome is merged in order — each
/// hand independently skipped on no-data, on either query failure, or on a
/// failed entity resolution — and then, strictly after all merges, every
/// live bone's fused velocity is copied into its rigid-body velocity fields.
/// Returns one merge report per hand, in tracker order.
#[verifier::loop_isolation(false)]
pub fn run_tick(
    store: &mut BoneStore,
    trackers: &Vec<HandTracker>,
    outcomes: &Vec<JointQueryOutcome>,
    session_running: bool,
) -> (reports: Vec<MergeOutcome>)
    requires
        session_running ==> outcomes@.len() == trackers@.len(),
        forall|h: int| 0 <= h < outcomes@.len() ==> full_sample_set(#[trigger] outcomes@[h]),
    ensures
        final(store).slots@ == tick_spec(old(store).slots@, trackers@, outcomes@, session_running),
        !session_running ==> final(store).slots@ == old(store).slots@ && reports@.len() == 0,
        session_running ==> reports@.len() == trackers@.len(),
        session_running ==> forall|h: int|
            0 <= h < trackers@.len() ==> reports@[h] == hand_report(
                old(store).slots@,
                trackers@[h],
                #[trigger] outcomes@[h],
            ),
{
    if !session_running {
        return Vec::new();
    }
    let ghost slots0 = store.slots@;
    let mut reports: Vec<MergeOutcome> = Vec::new();
    let mut h: usize = 0;
    while h < trackers.len()
        invariant
            h <= trackers@.len(),
            store.slots@ == merged_hands(slots0, trackers@, outcomes@, h as int),
            reports@.len() == h as int,
            forall|k: int|
                0 <= k < h ==> reports@[k] == hand_report(
                    slots0,
                    trackers@[k],
                    #[trigger] outcomes@[k],
                ),
        decreases trackers@.len() - h,
    {
        let ghost prev = store.slots@;
        let r = merge_hand(store, &trackers[h], &outcomes[h]);
        proof {
            lemma_merged_hands_preserves_liveness(slots0, trackers@, outcomes@, h as int);
            lemma_same_liveness_same_resolve(slots0, prev, trackers@[h as int].bone_ids@);
            assert(hand_report(prev, trackers@[h as int], outcomes@[h as int]) == hand_report(
                slots0,
                trackers@[h as int],
                outcomes@[h as int],
            ));
            assert(merged_hands(slots0, trackers@, outcomes@, h + 1) == hand_step(
                prev,
                trackers@[h as int],
                outcomes@[h as int],
            ));
        }
        reports.push(r);
        h += 1;
    }
    transfer_velocities(store);
    reports
}

} // verus!
