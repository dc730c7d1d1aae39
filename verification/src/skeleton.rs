//! The fixed hand skeleton: named joints and handedness.

use vstd::prelude::*;

verus! {

/// Number of joints in the fixed hand skeleton.
pub const HAND_BONE_COUNT: usize = 26;

/// Which hand a tracker and its bones belong to.
#[derive(Clone, Copy, PartialEq, Eq, Structural, Debug)]
pub enum Handedness {
    Left,
    Right,
}

/// One named joint of the fixed hand skeleton.
///
/// The declaration order is the order joint samples arrive in from the
/// tracking source, and the order a hand's bone entities are spawned in;
/// `index` gives a bone's position in that order.
#[derive(Clone, Copy, PartialEq, Eq, Structural, Debug)]
pub enum HandBone {
    Palm,
    Wrist,
    ThumbMetacarpal,
    ThumbProximal,
    ThumbDistal,
    ThumbTip,
    IndexMetacarpal,
    IndexProximal,
    IndexIntermediate,
    IndexDistal,
    IndexTip,
    MiddleMetacarpal,
    MiddleProximal,
    MiddleIntermediate,
    MiddleDistal,
    MiddleTip,
    RingMetacarpal,
    RingProximal,
    RingIntermediate,
    RingDistal,
    RingTip,
    LittleMetacarpal,
    LittleProximal,
    LittleIntermediate,
    LittleDistal,
    LittleTip,
}

impl HandBone {
    /// A bone's position in the fixed skeleton order.
    pub open spec fn index_spec(self) -> int {
        match self {
            HandBone::Palm => 0,
            HandBone::Wrist => 1,
            HandBone::ThumbMetacarpal => 2,
            HandBone::ThumbProximal => 3,
            HandBone::ThumbDistal => 4,
            HandBone::ThumbTip => 5,
            HandBone::IndexMetacarpal => 6,
            HandBone::IndexProximal => 7,
            HandBone::IndexIntermediate => 8,
            HandBone::IndexDistal => 9,
            HandBone::IndexTip => 10,
            HandBone::MiddleMetacarpal => 11,
            HandBone::MiddleProximal => 12,
            HandBone::MiddleIntermediate => 13,
            HandBone::MiddleDistal => 14,
            HandBone::MiddleTip => 15,
            HandBone::RingMetacarpal => 16,
            HandBone::RingProximal => 17,
            HandBone::RingIntermediate => 18,
            HandBone::RingDistal => 19,
            HandBone::RingTip => 20,
            HandBone::LittleMetacarpal => 21,
            HandBone::LittleProximal => 22,
            HandBone::LittleIntermediate => 23,
            HandBone::LittleDistal => 24,
            HandBone::LittleTip => 25,
        }
    }

    /// A bone's position in the fixed skeleton order.
    pub fn index(self) -> (i: usize)
        ensures
            i == self.index_spec(),
            i < HAND_BONE_COUNT,
    {
        match self {
            HandBone::Palm => 0,
            HandBone::Wrist => 1,
            HandBone::ThumbMetacarpal => 2,
            HandBone::ThumbProximal => 3,
            HandBone::ThumbDistal => 4,
            HandBone::ThumbTip => 5,
            HandBone::IndexMetacarpal => 6,
            HandBone::IndexProximal => 7,
            HandBone::IndexIntermediate => 8,
            HandBone::IndexDistal => 9,
            HandBone::IndexTip => 10,
            HandBone::MiddleMetacarpal => 11,
            HandBone::MiddleProximal => 12,
            HandBone::MiddleIntermediate => 13,
            HandBone::MiddleDistal => 14,
            HandBone::MiddleTip => 15,
            HandBone::RingMetacarpal => 16,
            HandBone::RingProximal => 17,
            HandBone::RingIntermediate => 18,
            HandBone::RingDistal => 19,
            HandBone::RingTip => 20,
            HandBone::LittleMetacarpal => 21,
            HandBone::LittleProximal => 22,
            HandBone::LittleIntermediate => 23,
            HandBone::LittleDistal => 24,
            HandBone::LittleTip => 25,
        }
    }
}

} // verus!
