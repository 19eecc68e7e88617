use platformer::platform::{
    path_offsets, BellActivate, GridVec, PlatformDirection, PlatformPathState, PlatformTarget,
};

fn state(index: usize, direction: PlatformDirection) -> PlatformPathState {
    PlatformPathState { active: true, index, direction }
}

#[test]
fn default_state_rests_at_first_point() {
    let s = PlatformPathState::default();
    assert!(!s.active);
    assert_eq!(s.index, 0);
    assert_eq!(s.direction, PlatformDirection::Forward);
    assert_eq!(PlatformDirection::default(), PlatformDirection::Forward);
    assert_eq!(BellActivate::default(), BellActivate(false));
}

#[test]
fn go_to_next_moves_forward_inside_path() {
    let mut s = state(1, PlatformDirection::Forward);
    s.go_to_next(4);
    assert_eq!(s, state(2, PlatformDirection::Forward));
}

#[test]
fn go_to_next_turns_back_at_last_point() {
    let mut s = state(3, PlatformDirection::Forward);
    s.go_to_next(4);
    assert_eq!(s, state(2, PlatformDirection::Backward));
}

#[test]
fn go_to_next_turns_forward_at_first_point() {
    let mut s = state(0, PlatformDirection::Backward);
    s.go_to_next(4);
    assert_eq!(s, state(1, PlatformDirection::Forward));
}

#[test]
fn go_to_next_keeps_going_back() {
    let mut s = state(2, PlatformDirection::Backward);
    s.go_to_next(4);
    assert_eq!(s, state(1, PlatformDirection::Backward));
}

#[test]
fn go_to_next_keeps_active_flag() {
    let mut s = PlatformPathState { active: false, index: 0, direction: PlatformDirection::Forward };
    s.go_to_next(3);
    assert!(!s.active);
    assert_eq!(s.index, 1);
}

#[test]
fn go_to_next_single_point_path_leaves_the_path() {
    // With one point the platform steps past the end and then finds no point.
    let mut s = state(0, PlatformDirection::Forward);
    s.go_to_next(1);
    assert_eq!(s, state(1, PlatformDirection::Forward));
    assert_eq!(s.current_target(1), PlatformTarget::Missing);
}

#[test]
fn go_to_next_past_end_backs_up() {
    let mut s = state(5, PlatformDirection::Forward);
    s.go_to_next(3);
    assert_eq!(s, state(4, PlatformDirection::Backward));
}

#[test]
fn ping_pong_sequence_on_three_points() {
    let mut s = PlatformPathState::default();
    let mut seen = vec![s.index];
    for _ in 0..9 {
        s.go_to_next(3);
        seen.push(s.index);
    }
    assert_eq!(seen, vec![0, 1, 2, 1, 0, 1, 2, 1, 0, 1]);
}

#[test]
fn ping_pong_sequence_on_two_points() {
    let mut s = PlatformPathState::default();
    let mut seen = vec![s.index];
    for _ in 0..5 {
        s.go_to_next(2);
        seen.push(s.index);
        assert!(s.index < 2);
    }
    assert_eq!(seen, vec![0, 1, 0, 1, 0, 1]);
}

#[test]
fn ping_pong_matches_triangle_wave() {
    // After k steps on a path of len points the index is r or 2(len-1)-r,
    // where r = k mod 2(len-1).
    for len in 2usize..7 {
        let period = 2 * (len - 1);
        let mut s = PlatformPathState::default();
        for k in 0..40usize {
            let r = k % period;
            let expected = if r < len { r } else { period - r };
            assert_eq!(s.index, expected, "len {len} step {k}");
            s.go_to_next(len);
        }
    }
}

#[test]
fn current_target_cases() {
    let idle = PlatformPathState { active: false, index: 0, direction: PlatformDirection::Forward };
    assert_eq!(idle.current_target(3), PlatformTarget::Idle);
    assert_eq!(state(2, PlatformDirection::Forward).current_target(3), PlatformTarget::Point(2));
    assert_eq!(state(3, PlatformDirection::Forward).current_target(3), PlatformTarget::Missing);
    assert_eq!(state(0, PlatformDirection::Forward).current_target(0), PlatformTarget::Missing);
}

#[test]
fn activation_without_bell_starts_platform() {
    let mut s = PlatformPathState::default();
    s.activate_path(BellActivate(false));
    assert!(s.active);
    assert_eq!(s.index, 0);
    assert_eq!(s.direction, PlatformDirection::Forward);
}

#[test]
fn activation_with_bell_waits() {
    let mut s = PlatformPathState::default();
    s.activate_path(BellActivate(true));
    assert!(!s.active);
    s.respond_to_bell(BellActivate(true));
    assert!(s.active);
    s.activate_path(BellActivate(true));
    assert!(s.active);
}

#[test]
fn bell_hit_ignored_without_bell_activation() {
    let mut s = PlatformPathState::default();
    s.respond_to_bell(BellActivate(false));
    assert!(!s.active);
}

#[test]
fn activation_never_stops_a_platform() {
    let mut s = state(2, PlatformDirection::Backward);
    s.activate_path(BellActivate(true));
    s.respond_to_bell(BellActivate(false));
    assert_eq!(s, state(2, PlatformDirection::Backward));
}

#[test]
fn path_offsets_without_path_is_empty() {
    let offsets = path_offsets(GridVec { x: 3, y: 4 }, None);
    assert!(offsets.is_empty());
}

#[test]
fn path_offsets_flip_y_and_start_at_zero() {
    let platform = GridVec { x: 3, y: 4 };
    let cells = vec![GridVec { x: 5, y: 4 }, GridVec { x: 5, y: 1 }, GridVec { x: 0, y: 7 }];
    let offsets = path_offsets(platform, Some(cells));
    assert_eq!(
        offsets,
        vec![
            GridVec { x: 0, y: 0 },
            GridVec { x: 2, y: 0 },
            GridVec { x: 2, y: 3 },
            GridVec { x: -3, y: -3 },
        ]
    );
}

#[test]
fn path_offsets_empty_path_keeps_start() {
    let offsets = path_offsets(GridVec { x: 0, y: 0 }, Some(vec![]));
    assert_eq!(offsets, vec![GridVec { x: 0, y: 0 }]);
}
