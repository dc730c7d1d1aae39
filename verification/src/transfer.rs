//! The transfer stage: copying fused velocities into the physics engine's
//! rigid-body velocity fields.

use vstd::prelude::*;

use crate::state::BoneEntity;
use crate::state::BoneStore;
use crate::state::PhysicsVelocity;

verus! {

/// One store slot after the velocity transfer: a live bone's physics
/// velocity becomes a copy of its fused velocity; everything else about the
/// bone, and every dead slot, is untouched.
pub open spec fn transferred_slot(slot: Option<BoneEntity>) -> Option<BoneEntity> {
    match slot {
        Some(e) => Some(
            BoneEntity {
                state: e.state,
                physics: PhysicsVelocity {
                    linear: e.state.velocity.linear,
                    angular: e.state.velocity.angular,
                },
            },
        ),
        None => None,
    }
}

/// The whole store after the velocity transfer.
pub open spec fn transferred_store(slots: Seq<Option<BoneEntity>>) -> Seq<Option<BoneEntity>> {
    slots.map(|j: int, slot: Option<BoneEntity>| transferred_slot(slot))
}

/// Copies every live bone's fused linear and angular velocity into its
/// rigid-body velocity fields.
///
/// Runs after all merges of a tick, every tick the session gate is open,
/// whether or not this tick's queries produced new data: a bone with stale
/// state has its last-known velocity re-applied (an idempotent copy).
#[verifier::loop_isolation(false)]
pub fn transfer_velocities(store: &mut BoneStore)
    ensures
        final(store).slots@ == transferred_store(old(store).slots@),
        final(store).slots@.len() == old(store).slots@.len(),
        forall|j: int|
            0 <= j < old(store).slots@.len() ==> final(store).slots@[j] == transferred_slot(
                old(store).slots@[j],
            ),
{
    let slot_count = store.slots.len();
    let mut j: usize = 0;
    while j < slot_count
        invariant
            j <= slot_count,
            store.slots@.len() == old(store).slots@.len(),
            forall|k: int|
                0 <= k < j ==> store.slots@[k] == transferred_slot(old(store).slots@[k]),
            forall|k: int| j <= k < slot_count ==> store.slots@[k] == old(store).slots@[k],
        decreases slot_count - j,
    {
        match store.slots[j] {
            Some(e) => {
                store.slots[j] = Some(
                    BoneEntity {
                        state: e.state,
                        physics: PhysicsVelocity {
                            linear: e.state.velocity.linear,
                            angular: e.state.velocity.angular,
                        },
                    },
                );
            },
            None => {},
        }
        j += 1;
    }
    proof {
        assert(store.slots@ =~= transferred_store(old(store).slots@));
    }
}

} // verus!
