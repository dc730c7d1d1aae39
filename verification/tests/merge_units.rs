use hand_velocities::frame::FrameTiming;
use hand_velocities::frame::select_query_time;
use hand_velocities::merge::JointPose;
use hand_velocities::merge::JointSample;
use hand_velocities::merge::merge_bone;
use hand_velocities::skeleton::HAND_BONE_COUNT;
use hand_velocities::skeleton::HandBone;
use hand_velocities::state::BoneState;
use hand_velocities::state::QuatBits;
use hand_velocities::state::Vec3Bits;
use hand_velocities::state::XrVelocity;

fn vec3(x: f32, y: f32, z: f32) -> Vec3Bits {
    Vec3Bits { x: x.to_bits(), y: y.to_bits(), z: z.to_bits() }
}

fn prior_state() -> BoneState {
    BoneState {
        radius: 0.5f32.to_bits(),
        position: vec3(1.0, 2.0, 3.0),
        orientation: QuatBits {
            x: 0.1f32.to_bits(),
            y: 0.2f32.to_bits(),
            z: 0.3f32.to_bits(),
            w: 0.9f32.to_bits(),
        },
        velocity: XrVelocity { linear: vec3(9.0, 9.0, 9.0), angular: vec3(8.0, 8.0, 8.0) },
    }
}

fn sample_all_valid() -> JointSample {
    JointSample {
        pose: JointPose {
            position: vec3(10.0, 11.0, 12.0),
            orientation: QuatBits {
                x: 0.4f32.to_bits(),
                y: 0.5f32.to_bits(),
                z: 0.6f32.to_bits(),
                w: 0.7f32.to_bits(),
            },
        },
        radius: 0.02f32.to_bits(),
        position_valid: true,
        orientation_valid: true,
        linear_velocity: vec3(5.0, 6.0, 7.0),
        angular_velocity: vec3(0.1, 0.2, 0.3),
        linear_valid: true,
        angular_valid: true,
    }
}

#[test]
fn query_time_non_pipelined_is_display_time() {
    let timing =
        FrameTiming { predicted_display_time: 1_000_000_000, predicted_display_period: 16_666_666 };
    assert_eq!(select_query_time(&timing, false), 1_000_000_000);
}

#[test]
fn query_time_pipelined_adds_exactly_one_period() {
    let timing =
        FrameTiming { predicted_display_time: 1_000_000_000, predicted_display_period: 16_666_666 };
    assert_eq!(select_query_time(&timing, true), 1_016_666_666);
}

#[test]
fn invalid_position_flag_preserves_position() {
    let mut state = prior_state();
    let before = state;
    let mut sample = sample_all_valid();
    sample.position_valid = false;
    merge_bone(&mut state, &sample);
    assert_eq!(state.position, before.position);
    assert_ne!(state.position, vec3(0.0, 0.0, 0.0));
}

#[test]
fn valid_position_flag_overwrites_position() {
    let mut state = prior_state();
    let sample = sample_all_valid();
    merge_bone(&mut state, &sample);
    assert_eq!(state.position, vec3(10.0, 11.0, 12.0));
}

#[test]
fn invalid_orientation_flag_preserves_orientation() {
    let mut state = prior_state();
    let before = state;
    let mut sample = sample_all_valid();
    sample.orientation_valid = false;
    merge_bone(&mut state, &sample);
    assert_eq!(state.orientation, before.orientation);
}

#[test]
fn valid_orientation_is_passed_through_unnormalized() {
    let mut state = prior_state();
    let mut sample = sample_all_valid();
    // A deliberately non-unit quaternion: the merge must copy the four
    // components as they are, never renormalize them.
    sample.pose.orientation = QuatBits {
        x: 2.0f32.to_bits(),
        y: 0.0f32.to_bits(),
        z: 0.0f32.to_bits(),
        w: 2.0f32.to_bits(),
    };
    merge_bone(&mut state, &sample);
    assert_eq!(state.orientation, sample.pose.orientation);
}

#[test]
fn invalid_linear_velocity_flag_zeroes_linear_velocity() {
    let mut state = prior_state();
    let mut sample = sample_all_valid();
    sample.linear_valid = false;
    merge_bone(&mut state, &sample);
    assert_eq!(state.velocity.linear, Vec3Bits { x: 0, y: 0, z: 0 });
}

#[test]
fn invalid_angular_velocity_flag_zeroes_angular_velocity() {
    let mut state = prior_state();
    let mut sample = sample_all_valid();
    sample.angular_valid = false;
    merge_bone(&mut state, &sample);
    assert_eq!(state.velocity.angular, Vec3Bits { x: 0, y: 0, z: 0 });
}

#[test]
fn radius_is_overwritten_even_with_every_flag_unset() {
    let mut state = prior_state();
    let mut sample = sample_all_valid();
    sample.position_valid = false;
    sample.orientation_valid = false;
    sample.linear_valid = false;
    sample.angular_valid = false;
    merge_bone(&mut state, &sample);
    assert_eq!(state.radius, 0.02f32.to_bits());
}

#[test]
fn skeleton_has_26_bones_in_fixed_order() {
    assert_eq!(HAND_BONE_COUNT, 26);
    assert_eq!(HandBone::Palm.index(), 0);
    assert_eq!(HandBone::Wrist.index(), 1);
    assert_eq!(HandBone::ThumbTip.index(), 5);
    assert_eq!(HandBone::IndexTip.index(), 10);
    assert_eq!(HandBone::LittleTip.index(), 25);
}

#[test]
fn zero_vector_is_the_zero_float_bit_pattern() {
    assert_eq!(Vec3Bits::zero(), vec3(0.0, 0.0, 0.0));
    assert_eq!(f32::from_bits(Vec3Bits::zero().x), 0.0);
}
