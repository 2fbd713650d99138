use player_controller::orbit::{camera_update, MouseDelta, PlayerCamera, MAX_PITCH};

fn d(x: i32, y: i32) -> MouseDelta {
    MouseDelta { x, y }
}

#[test]
fn yaw_and_pitch_follow_scaled_sums() {
    let mut c = PlayerCamera::new();
    // 16 ms frame; sums x = 1500, y = -400 thousandths of a pixel.
    let samples = vec![d(1000, -100), d(-500, 200), d(1000, -500)];
    assert!(c.apply_mouse(&samples, 16_000));
    assert_eq!(c.yaw(), -3 * 16_000 * 1500);
    assert_eq!(c.pitch(), 3 * 16_000 * 400);
}

#[test]
fn pitch_is_held_at_the_limit() {
    let mut c = PlayerCamera::new();
    assert!(c.apply_mouse(&vec![d(0, -2_000_000_000)], 1_000_000));
    assert_eq!(c.pitch(), MAX_PITCH);
    assert!(c.apply_mouse(&vec![d(0, 2_000_000_000), d(0, 2_000_000_000)], 1_000_000));
    assert_eq!(c.pitch(), -MAX_PITCH);
    for _ in 0..5 {
        assert!(c.apply_mouse(&vec![d(7, i32::MAX); 64], u32::MAX));
        assert!(c.pitch() >= -MAX_PITCH && c.pitch() <= MAX_PITCH);
    }
}

#[test]
fn max_pitch_is_a_quarter_turn_less_a_tenth() {
    let expected = (std::f64::consts::FRAC_PI_2 - 0.1) * 1e10;
    assert!((MAX_PITCH as f64 - expected).abs() <= 0.5);
}

#[test]
fn no_motion_keeps_orientation() {
    let mut c = PlayerCamera { pitch: 1234, yaw: -98765 };
    for _ in 0..3 {
        assert!(c.apply_mouse(&vec![], 16_000));
        assert!(c.apply_mouse(&vec![d(0, 0), d(0, 0)], 16_000));
    }
    assert_eq!(c, PlayerCamera { pitch: 1234, yaw: -98765 });
}

#[test]
fn zero_frame_time_turns_nothing() {
    let mut c = PlayerCamera::new();
    assert!(c.apply_mouse(&vec![d(i32::MAX, i32::MIN)], 0));
    assert_eq!(c, PlayerCamera::new());
}

#[test]
fn yaw_beyond_the_integer_range_is_refused() {
    let mut c = PlayerCamera { pitch: 5, yaw: i64::MIN + 10 };
    assert!(!c.apply_mouse(&vec![d(1, 1)], 1_000));
    assert_eq!(c, PlayerCamera { pitch: 5 - 3_000, yaw: i64::MIN + 10 });
}

#[test]
fn pitch_is_clamped_when_the_yaw_is_refused() {
    let mut c = PlayerCamera::new();
    assert!(!c.apply_mouse(&vec![d(i32::MAX, 1000)], u32::MAX));
    assert_eq!(c, PlayerCamera { pitch: -MAX_PITCH, yaw: 0 });
    let mut far = PlayerCamera { pitch: i64::MAX, yaw: i64::MAX };
    assert!(!far.apply_mouse(&vec![d(-1, 0)], 1));
    assert_eq!(far, PlayerCamera { pitch: MAX_PITCH, yaw: i64::MAX });
}

#[test]
fn out_of_range_pitch_is_brought_within_the_limit() {
    let mut c = PlayerCamera { pitch: -i64::MAX, yaw: 7 };
    assert!(c.apply_mouse(&vec![], 16_000));
    assert_eq!(c, PlayerCamera { pitch: -MAX_PITCH, yaw: 7 });
    let mut rigs = vec![PlayerCamera { pitch: i64::MAX, yaw: i64::MIN }];
    assert!(!camera_update(&mut rigs, &vec![d(1, 0)], 1));
    assert_eq!(rigs, vec![PlayerCamera { pitch: MAX_PITCH, yaw: i64::MIN }]);
}

#[test]
fn camera_update_needs_exactly_one_rig() {
    let samples = vec![d(10, 10)];
    let mut none: Vec<PlayerCamera> = vec![];
    assert!(!camera_update(&mut none, &samples, 1_000));
    assert!(none.is_empty());
    let mut two = vec![PlayerCamera::new(), PlayerCamera::new()];
    assert!(!camera_update(&mut two, &samples, 1_000));
    assert_eq!(two, vec![PlayerCamera::new(), PlayerCamera::new()]);
    let mut one = vec![PlayerCamera::new()];
    assert!(camera_update(&mut one, &samples, 1_000));
    assert_eq!(one, vec![PlayerCamera { pitch: -30_000, yaw: -30_000 }]);
}
