use hand_velocities::frame::FrameTiming;
use hand_velocities::frame::select_query_time;
use hand_velocities::merge::JointPose;
use hand_velocities::merge::JointQueryOutcome;
use hand_velocities::merge::JointSample;
use hand_velocities::merge::MergeOutcome;
use hand_velocities::skeleton::HAND_BONE_COUNT;
use hand_velocities::skeleton::HandBone;
use hand_velocities::skeleton::Handedness;
use hand_velocities::state::BoneEntity;
use hand_velocities::state::BoneStore;
use hand_velocities::state::HandTracker;
use hand_velocities::state::QuatBits;
use hand_velocities::state::Vec3Bits;
use hand_velocities::state::resolve_bones;
use hand_velocities::state::spawn_hand_bones;
use hand_velocities::tick::run_tick;

fn vec3(x: f32, y: f32, z: f32) -> Vec3Bits {
    Vec3Bits { x: x.to_bits(), y: y.to_bits(), z: z.to_bits() }
}

fn quiet_sample() -> JointSample {
    JointSample {
        pose: JointPose {
            position: vec3(0.0, 0.0, 0.0),
            orientation: QuatBits { x: 0, y: 0, z: 0, w: 1.0f32.to_bits() },
        },
        radius: 0.01f32.to_bits(),
        position_valid: false,
        orientation_valid: false,
        linear_velocity: vec3(0.0, 0.0, 0.0),
        angular_velocity: vec3(0.0, 0.0, 0.0),
        linear_valid: false,
        angular_valid: false,
    }
}

fn full_set(sample_for: impl Fn(usize) -> JointSample) -> Vec<JointSample> {
    let mut samples = Vec::new();
    for i in 0..HAND_BONE_COUNT {
        samples.push(sample_for(i));
    }
    samples
}

fn two_hands() -> (BoneStore, HandTracker, HandTracker) {
    let mut store = BoneStore::new();
    let left = spawn_hand_bones(&mut store, Handedness::Left);
    let right = spawn_hand_bones(&mut store, Handedness::Right);
    (store, left, right)
}

fn bone_entity(store: &BoneStore, tracker: &HandTracker, bone: HandBone) -> BoneEntity {
    store.slots[tracker.bone_ids[bone.index()]].unwrap()
}

#[test]
fn spawn_gives_one_resolving_skeleton_per_hand() {
    let (store, left, right) = two_hands();
    assert_eq!(left.bone_ids.len(), HAND_BONE_COUNT);
    assert_eq!(right.bone_ids.len(), HAND_BONE_COUNT);
    assert_eq!(store.slots.len(), 2 * HAND_BONE_COUNT);
    assert!(resolve_bones(&store, &left.bone_ids));
    assert!(resolve_bones(&store, &right.bone_ids));
    for id in &left.bone_ids {
        assert!(!right.bone_ids.contains(id));
    }
}

#[test]
fn duplicate_bone_ids_do_not_resolve() {
    let (store, left, _right) = two_hands();
    let mut ids = left.bone_ids.clone();
    ids[3] = ids[4];
    assert!(!resolve_bones(&store, &ids));
}

#[test]
fn closed_session_gate_runs_nothing() {
    let (mut store, left, right) = two_hands();
    let before = store.slots.clone();
    let outcomes = vec![
        JointQueryOutcome::Located(full_set(|_| quiet_sample())),
        JointQueryOutcome::Located(full_set(|_| quiet_sample())),
    ];
    let reports = run_tick(&mut store, &vec![left, right], &outcomes, false);
    assert!(reports.is_empty());
    assert_eq!(store.slots, before);
}

#[test]
fn no_data_skips_hand_and_leaves_bone_state_unchanged() {
    let (mut store, left, right) = two_hands();
    let before: Vec<BoneEntity> =
        left.bone_ids.iter().map(|id| store.slots[*id].unwrap()).collect();
    let outcomes = vec![JointQueryOutcome::NoData, JointQueryOutcome::NoData];
    let trackers = vec![left, right];
    let reports = run_tick(&mut store, &trackers, &outcomes, true);
    assert_eq!(reports, vec![MergeOutcome::SkippedNoData, MergeOutcome::SkippedNoData]);
    for (k, id) in trackers[0].bone_ids.iter().enumerate() {
        assert_eq!(store.slots[*id].unwrap().state, before[k].state);
    }
}

#[test]
fn query_failures_skip_hand_with_distinct_reports() {
    let (mut store, left, right) = two_hands();
    let before = store.slots.clone();
    let outcomes = vec![JointQueryOutcome::CapabilityUnavailable, JointQueryOutcome::TransientFailure];
    let reports = run_tick(&mut store, &vec![left, right], &outcomes, true);
    assert_eq!(
        reports,
        vec![
            MergeOutcome::SkippedCapabilityUnavailable,
            MergeOutcome::SkippedTransientFailure,
        ]
    );
    for (slot, old) in store.slots.iter().zip(before.iter()) {
        assert_eq!(slot.unwrap().state, old.unwrap().state);
    }
}

#[test]
fn resolution_failure_aborts_whole_hand_but_not_the_other() {
    let (mut store, left, right) = two_hands();
    // Despawn one bone of the left hand: the left merge must abort whole,
    // with no partial state applied, while the right hand merges normally.
    store.despawn_bone(left.bone_ids[HandBone::IndexTip.index()]);
    let before = store.slots.clone();
    let moving = |_: usize| {
        let mut s = quiet_sample();
        s.position_valid = true;
        s.pose.position = vec3(4.0, 5.0, 6.0);
        s
    };
    let outcomes = vec![
        JointQueryOutcome::Located(full_set(moving)),
        JointQueryOutcome::Located(full_set(moving)),
    ];
    let trackers = vec![left, right];
    let reports = run_tick(&mut store, &trackers, &outcomes, true);
    assert_eq!(reports[0], MergeOutcome::SkippedEntityResolution);
    assert_eq!(reports[1], MergeOutcome::Merged);
    // No bone of the left hand moved, not even those spawned before the
    // despawned one.
    for id in &trackers[0].bone_ids {
        match (&store.slots[*id], &before[*id]) {
            (Some(now), Some(old)) => assert_eq!(now.state.position, old.state.position),
            (None, None) => {}
            _ => panic!("liveness changed during merge"),
        }
    }
    // Every bone of the right hand took the sampled position.
    for id in &trackers[1].bone_ids {
        assert_eq!(store.slots[*id].unwrap().state.position, vec3(4.0, 5.0, 6.0));
    }
}

#[test]
fn merged_velocity_reaches_physics_in_the_same_tick() {
    let (mut store, left, right) = two_hands();
    let sampled = |_: usize| {
        let mut s = quiet_sample();
        s.linear_valid = true;
        s.linear_velocity = vec3(3.0, 2.0, 1.0);
        s
    };
    let outcomes = vec![JointQueryOutcome::Located(full_set(sampled)), JointQueryOutcome::NoData];
    let trackers = vec![left, right];
    let reports = run_tick(&mut store, &trackers, &outcomes, true);
    assert_eq!(reports[0], MergeOutcome::Merged);
    let wrist = bone_entity(&store, &trackers[0], HandBone::Wrist);
    // The physics field carries this tick's merged value, not the spawn-time
    // zero it held when the tick began.
    assert_eq!(wrist.physics.linear, vec3(3.0, 2.0, 1.0));
    assert_eq!(wrist.state.velocity.linear, vec3(3.0, 2.0, 1.0));
}

#[test]
fn stale_hand_gets_last_known_velocity_reapplied() {
    let (mut store, left, right) = two_hands();
    let sampled = |_: usize| {
        let mut s = quiet_sample();
        s.linear_valid = true;
        s.linear_velocity = vec3(3.0, 2.0, 1.0);
        s
    };
    let trackers = vec![left, right];
    let first = vec![JointQueryOutcome::Located(full_set(sampled)), JointQueryOutcome::NoData];
    run_tick(&mut store, &trackers, &first, true);
    // Next tick produces no data: the merge is skipped, but the transfer
    // still re-applies the last-known fused velocity.
    let second = vec![JointQueryOutcome::NoData, JointQueryOutcome::NoData];
    run_tick(&mut store, &trackers, &second, true);
    let wrist = bone_entity(&store, &trackers[0], HandBone::Wrist);
    assert_eq!(wrist.physics.linear, vec3(3.0, 2.0, 1.0));
}

#[test]
fn end_to_end_wrist_scenario() {
    // Non-pipelined mode: the query goes out for exactly the predicted
    // display time.
    let timing =
        FrameTiming { predicted_display_time: 1_000_000_000, predicted_display_period: 16_666_666 };
    assert_eq!(select_query_time(&timing, false), 1_000_000_000);

    let mut store = BoneStore::new();
    let left = spawn_hand_bones(&mut store, Handedness::Left);
    // Prior wrist state: identity orientation, angular velocity (1,1,1).
    {
        let id = left.bone_ids[HandBone::Wrist.index()];
        let mut wrist = store.slots[id].unwrap();
        assert_eq!(wrist.state.orientation, QuatBits { x: 0, y: 0, z: 0, w: 1.0f32.to_bits() });
        wrist.state.velocity.angular = vec3(1.0, 1.0, 1.0);
        store.slots[id] = Some(wrist);
    }
    let sample_for_wrist = |i: usize| {
        let mut s = quiet_sample();
        if i == HandBone::Wrist.index() {
            s.pose.position = vec3(0.1, 0.2, 0.3);
            s.position_valid = true;
            s.orientation_valid = false;
            s.linear_velocity = vec3(0.5, 0.0, -0.5);
            s.linear_valid = true;
            s.angular_valid = false;
            s.radius = 0.02f32.to_bits();
        }
        s
    };
    let outcomes = vec![JointQueryOutcome::Located(full_set(sample_for_wrist))];
    let trackers = vec![left];
    let reports = run_tick(&mut store, &trackers, &outcomes, true);
    assert_eq!(reports, vec![MergeOutcome::Merged]);

    let wrist = bone_entity(&store, &trackers[0], HandBone::Wrist);
    // After merge: sampled position and linear velocity, orientation still
    // the identity, angular velocity reset to zero, radius 0.02.
    assert_eq!(wrist.state.position, vec3(0.1, 0.2, 0.3));
    assert_eq!(wrist.state.orientation, QuatBits { x: 0, y: 0, z: 0, w: 1.0f32.to_bits() });
    assert_eq!(wrist.state.velocity.linear, vec3(0.5, 0.0, -0.5));
    assert_eq!(wrist.state.velocity.angular, vec3(0.0, 0.0, 0.0));
    assert_eq!(wrist.state.radius, 0.02f32.to_bits());
    assert_eq!(f32::from_bits(wrist.state.radius), 0.02);
    // After transfer: the physics fields carry the fused values.
    assert_eq!(wrist.physics.linear, vec3(0.5, 0.0, -0.5));
    assert_eq!(wrist.physics.angular, vec3(0.0, 0.0, 0.0));
}
