//! Per-bone state, the bone-entity store, and per-hand trackers.

use vstd::prelude::*;

use crate::skeleton::HAND_BONE_COUNT;
use crate::skeleton::Handedness;

verus! {

/// A 3-vector whose components are IEEE-754 single-precision bit patterns.
///
/// The pipeline never interprets the components numerically; it only selects
/// and copies them, so carrying the raw bit patterns loses nothing. The
/// all-zero pattern is exactly the bit pattern of the zero vector.
#[derive(Clone, Copy, PartialEq, Eq, Structural, Debug)]
pub struct Vec3Bits {
    pub x: u32,
    pub y: u32,
    pub z: u32,
}

impl Vec3Bits {
    /// The zero vector: every component is the bit pattern of +0.0.
    pub open spec fn zero_spec() -> Vec3Bits {
        Vec3Bits { x: 0, y: 0, z: 0 }
    }

    /// The zero vector: every component is the bit pattern of +0.0.
    pub fn zero() -> (v: Vec3Bits)
        ensures
            v == Vec3Bits::zero_spec(),
    {
        Vec3Bits { x: 0, y: 0, z: 0 }
    }
}

/// A quaternion whose components are IEEE-754 single-precision bit patterns.
/// Passed through as four components, never renormalized.
#[derive(Clone, Copy, PartialEq, Eq, Structural, Debug)]
pub struct QuatBits {
    pub x: u32,
    pub y: u32,
    pub z: u32,
    pub w: u32,
}

impl QuatBits {
    /// The identity rotation: x, y and z are the bit pattern of +0.0 and w is
    /// the bit pattern of 1.0 (0x3F80_0000).
    pub open spec fn identity_spec() -> QuatBits {
        QuatBits { x: 0, y: 0, z: 0, w: 0x3F80_0000 }
    }

    /// The identity rotation: x, y and z are the bit pattern of +0.0 and w is
    /// the bit pattern of 1.0 (0x3F80_0000).
    pub fn identity() -> (q: QuatBits)
        ensures
            q == QuatBits::identity_spec(),
    {
        QuatBits { x: 0, y: 0, z: 0, w: 0x3F80_0000 }
    }
}

/// Fused linear and angular velocity of one bone, as merged from the
/// tracking source; the source the physics velocities are copied from.
#[derive(Clone, Copy, PartialEq, Eq, Structural, Debug)]
pub struct XrVelocity {
    pub linear: Vec3Bits,
    pub angular: Vec3Bits,
}

impl XrVelocity {
    /// Both components zero.
    pub open spec fn zero_spec() -> XrVelocity {
        XrVelocity { linear: Vec3Bits::zero_spec(), angular: Vec3Bits::zero_spec() }
    }

    /// Both components zero.
    pub fn zero() -> (v: XrVelocity)
        ensures
            v == XrVelocity::zero_spec(),
    {
        XrVelocity { linear: Vec3Bits::zero(), angular: Vec3Bits::zero() }
    }
}

/// The mutable per-bone record owned by a simulated hand skeleton: joint
/// radius, pose, and fused velocity. Written by the merge stage, read by the
/// transfer stage and by downstream physics and rendering.
#[derive(Clone, Copy, PartialEq, Eq, Structural, Debug)]
pub struct BoneState {
    pub radius: u32,
    pub position: Vec3Bits,
    pub orientation: QuatBits,
    pub velocity: XrVelocity,
}

impl BoneState {
    /// State of a freshly spawned bone: zero radius, at the origin, identity
    /// orientation, at rest.
    pub open spec fn initial_spec() -> BoneState {
        BoneState {
            radius: 0,
            position: Vec3Bits::zero_spec(),
            orientation: QuatBits::identity_spec(),
            velocity: XrVelocity::zero_spec(),
        }
    }

    /// State of a freshly spawned bone: zero radius, at the origin, identity
    /// orientation, at rest.
    pub fn initial() -> (s: BoneState)
        ensures
            s == BoneState::initial_spec(),
    {
        BoneState {
            radius: 0,
            position: Vec3Bits::zero(),
            orientation: QuatBits::identity(),
            velocity: XrVelocity::zero(),
        }
    }
}

/// The rigid-body velocity fields of one bone as the physics engine sees
/// them. Overwritten from the fused velocity by the transfer stage.
#[derive(Clone, Copy, PartialEq, Eq, Structural, Debug)]
pub struct PhysicsVelocity {
    pub linear: Vec3Bits,
    pub angular: Vec3Bits,
}

impl PhysicsVelocity {
    /// Both components zero.
    pub open spec fn zero_spec() -> PhysicsVelocity {
        PhysicsVelocity { linear: Vec3Bits::zero_spec(), angular: Vec3Bits::zero_spec() }
    }

    /// Both components zero.
    pub fn zero() -> (v: PhysicsVelocity)
        ensures
            v == PhysicsVelocity::zero_spec(),
    {
        PhysicsVelocity { linear: Vec3Bits::zero(), angular: Vec3Bits::zero() }
    }
}

/// One simulated bone entity: its merged state and its physics velocity.
#[derive(Clone, Copy, PartialEq, Eq, Structural, Debug)]
pub struct BoneEntity {
    pub state: BoneState,
    pub physics: PhysicsVelocity,
}

impl BoneEntity {
    /// A freshly spawned bone entity, at rest.
    pub open spec fn initial_spec() -> BoneEntity {
        BoneEntity { state: BoneState::initial_spec(), physics: PhysicsVelocity::zero_spec() }
    }

    /// A freshly spawned bone entity, at rest.
    pub fn initial() -> (e: BoneEntity)
        ensures
            e == BoneEntity::initial_spec(),
    {
        BoneEntity { state: BoneState::initial(), physics: PhysicsVelocity::zero() }
    }
}

/// The store of bone entities, indexed by entity id. A `None` slot is a
/// despawned entity; a tracker whose ids point at such a slot fails entity
/// resolution until the skeleton is respawned.
pub struct BoneStore {
    pub slots: Vec<Option<BoneEntity>>,
}

/// Identifies one hand's tracking session: its handedness and the entity ids
/// of its bones, one per skeleton joint, in skeleton order.
pub struct HandTracker {
    pub handedness: Handedness,
    pub bone_ids: Vec<usize>,
}

/// Entity resolution for one hand: the tracker names one entity per skeleton
/// joint, all ids are distinct, and every id points at a live slot.
pub open spec fn ids_resolve(slots: Seq<Option<BoneEntity>>, ids: Seq<usize>) -> bool {
    &&& ids.len() == HAND_BONE_COUNT
    &&& forall|i: int|
        0 <= i < ids.len() ==> (#[trigger] ids[i]) < slots.len() && slots[ids[i] as int].is_some()
    &&& forall|i: int, j: int| 0 <= i < j < ids.len() ==> ids[i] != ids[j]
}

impl BoneStore {
    /// An empty store, holding no bone entities.
    pub fn new() -> (store: BoneStore)
        ensures
            store.slots@ == Seq::<Option<BoneEntity>>::empty(),
    {
        BoneStore { slots: Vec::new() }
    }

    /// Despawns one bone entity, leaving its slot dead. Any tracker whose ids
    /// include `id` fails entity resolution from now on.
    pub fn despawn_bone(&mut self, id: usize)
        requires
            id < old(self).slots@.len(),
        ensures
            final(self).slots@ == old(self).slots@.update(id as int, None::<BoneEntity>),
    {
        self.slots[id] = None;
    }
}

/// Checks entity resolution for one hand against the current store.
#[verifier::loop_isolation(false)]
pub fn resolve_bones(store: &BoneStore, ids: &Vec<usize>) -> (ok: bool)
    ensures
        ok == ids_resolve(store.slots@, ids@),
        store.slots@.len() <= usize::MAX,
{
    let slot_count = store.slots.len();
    if ids.len() != HAND_BONE_COUNT {
        return false;
    }
    let mut i: usize = 0;
    while i < ids.len()
        invariant
            i <= ids@.len(),
            forall|a: int|
                0 <= a < i ==> (#[trigger] ids@[a]) < store.slots@.len()
                    && store.slots@[ids@[a] as int].is_some(),
            forall|a: int, b: int| 0 <= a < b < i ==> ids@[a] != ids@[b],
        decreases ids@.len() - i,
    {
        let id = ids[i];
        if id >= slot_count {
            return false;
        }
        if store.slots[id].is_none() {
            return false;
        }
        let mut k: usize = 0;
        while k < i
            invariant
                k <= i,
                forall|b: int| 0 <= b < k ==> ids@[b] != ids@[i as int],
            decreases i - k,
        {
            if ids[k] == id {
                return false;
            }
            k += 1;
        }
        i += 1;
    }
    true
}

/// Spawns the fixed-size bone-entity array for one hand, tagged with its
/// handedness, and returns the tracker that names the new entities. The new
/// tracker resolves against the resulting store.
#[verifier::loop_isolation(false)]
pub fn spawn_hand_bones(store: &mut BoneStore, handedness: Handedness) -> (tracker: HandTracker)
    requires
        old(store).slots@.len() + HAND_BONE_COUNT <= usize::MAX,
    ensures
        tracker.handedness == handedness,
        tracker.bone_ids@.len() == HAND_BONE_COUNT,
        forall|i: int|
            0 <= i < HAND_BONE_COUNT ==> tracker.bone_ids@[i] == old(store).slots@.len() + i,
        final(store).slots@.len() == old(store).slots@.len() + HAND_BONE_COUNT,
        forall|j: int|
            0 <= j < old(store).slots@.len() ==> final(store).slots@[j] == old(store).slots@[j],
        forall|j: int|
            old(store).slots@.len() <= j < final(store).slots@.len() ==> final(store).slots@[j]
                == Some(BoneEntity::initial_spec()),
        ids_resolve(final(store).slots@, tracker.bone_ids@),
{
    let base = store.slots.len();
    let mut bone_ids: Vec<usize> = Vec::new();
    let mut i: usize = 0;
    while i < HAND_BONE_COUNT
        invariant
            i <= HAND_BONE_COUNT,
            bone_ids@.len() == i,
            forall|k: int| 0 <= k < i ==> bone_ids@[k] == base + k,
            store.slots@.len() == base + i,
            forall|j: int| 0 <= j < base ==> store.slots@[j] == old(store).slots@[j],
            forall|j: int|
                base <= j < store.slots@.len() ==> store.slots@[j]
                    == Some(BoneEntity::initial_spec()),
        decreases HAND_BONE_COUNT - i,
    {
        bone_ids.push(store.slots.len());
        store.slots.push(Some(BoneEntity::initial()));
        i += 1;
    }
    HandTracker { handedness, bone_ids }
}

} // verus!
