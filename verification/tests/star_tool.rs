use runebender_lib::keys::KbKey;
use runebender_lib::star::{make_star_path, GestureState, Star, StarDrag, StarVertex};

type Pt = (f64, f64);

#[test]
fn new_star_is_ready_and_unlocked() {
    let star: Star<Pt> = Star::new();
    assert_eq!(star.gesture(), GestureState::Ready);
    assert!(!star.shift_locked());
    let dflt: Star<Pt> = Star::default();
    assert_eq!(dflt.gesture(), GestureState::Ready);
    assert!(!dflt.shift_locked());
}

#[test]
fn star_name() {
    let star: Star<Pt> = Star::new();
    assert_eq!(star.name(), "Star");
}

#[test]
fn complete_gesture_yields_star_and_resets() {
    let mut star: Star<Pt> = Star::new();
    star.left_down(1, (10.0, 20.0), false);
    assert_eq!(star.gesture(), GestureState::Down((10.0, 20.0)));
    assert_eq!(star.pts_for_star(), None);
    star.left_drag_began((12.0, 22.0));
    assert_eq!(
        star.gesture(),
        GestureState::Begun { start: (10.0, 20.0), current: (12.0, 22.0) }
    );
    star.left_drag_changed((30.0, 5.0));
    star.left_drag_changed((40.0, 50.0));
    let expected = StarDrag { start: (10.0, 20.0), current: (40.0, 50.0), square: false };
    assert_eq!(star.pts_for_star(), Some(expected));
    assert_eq!(star.left_up(), Some(expected));
    assert_eq!(star.gesture(), GestureState::Finished);
    assert!(star.finish_event());
    assert_eq!(star.gesture(), GestureState::Ready);
    assert!(!star.finish_event());
}

#[test]
fn release_without_drag_does_nothing() {
    let mut star: Star<Pt> = Star::new();
    assert_eq!(star.left_up(), None);
    assert_eq!(star.gesture(), GestureState::Ready);
    star.left_down(1, (1.0, 1.0), false);
    assert_eq!(star.left_up(), None);
    assert_eq!(star.gesture(), GestureState::Down((1.0, 1.0)));
    assert!(!star.finish_event());
}

#[test]
fn double_click_starts_no_gesture() {
    let mut star: Star<Pt> = Star::new();
    star.left_down(2, (1.0, 1.0), true);
    assert_eq!(star.gesture(), GestureState::Ready);
    assert!(!star.shift_locked());
}

#[test]
fn drag_without_down_is_ignored() {
    let mut star: Star<Pt> = Star::new();
    star.left_drag_began((5.0, 5.0));
    star.left_drag_changed((6.0, 6.0));
    assert_eq!(star.gesture(), GestureState::Ready);
}

#[test]
fn shift_at_click_squares_the_star() {
    let mut star: Star<Pt> = Star::new();
    star.left_down(1, (0.0, 0.0), true);
    star.left_drag_began((3.0, 7.0));
    assert_eq!(
        star.left_up(),
        Some(StarDrag { start: (0.0, 0.0), current: (3.0, 7.0), square: true })
    );
}

#[test]
fn shift_key_locks_and_unlocks() {
    let mut star: Star<Pt> = Star::new();
    let shift = KbKey::named("Shift");
    let other = KbKey::character("s");
    assert!(!star.key_down(&other));
    assert!(!star.shift_locked());
    assert!(star.key_down(&shift));
    assert!(star.shift_locked());
    star.left_down(1, (0.0, 0.0), true);
    star.left_drag_began((1.0, 2.0));
    assert!(star.key_up(&shift));
    assert!(!star.shift_locked());
    assert_eq!(
        star.pts_for_star(),
        Some(StarDrag { start: (0.0, 0.0), current: (1.0, 2.0), square: false })
    );
    assert!(!star.key_up(&KbKey::named("Control")));
}

#[test]
fn cancel_resets_gesture() {
    let mut star: Star<Pt> = Star::new();
    star.left_down(1, (0.0, 0.0), true);
    star.left_drag_began((1.0, 2.0));
    star.cancel();
    assert_eq!(star.gesture(), GestureState::Ready);
    assert!(star.shift_locked());
    assert_eq!(star.left_up(), None);
}

#[test]
fn star_outline_has_ten_alternating_points() {
    let path = make_star_path((100.0, 100.0), (100.0, 50.0));
    assert!(path.closed);
    assert_eq!(path.center, (100.0, 100.0));
    assert_eq!(path.outer, (100.0, 50.0));
    assert_eq!(path.vertices.len(), 10);
    assert_eq!(path.vertices[0], StarVertex { angle_degrees: -90, radius_permille: 1000 });
    assert_eq!(path.vertices[1], StarVertex { angle_degrees: -54, radius_permille: 382 });
    assert_eq!(path.vertices[9], StarVertex { angle_degrees: 234, radius_permille: 382 });
    for (i, v) in path.vertices.iter().enumerate() {
        assert_eq!(v.angle_degrees, -90 + 36 * i as i32);
        assert_eq!(v.radius_permille, if i % 2 == 0 { 1000 } else { 382 });
    }
    assert_eq!(path.vertices[9].angle_degrees + 36, path.vertices[0].angle_degrees + 360);
}
