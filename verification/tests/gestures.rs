use crownpositor::input::gestures::{swipe_gesture, Axis, Fingers, GestureBindings, SwipeGesture};
use crownpositor::input::shortcuts::action::{Action, WorkspaceRef};

#[test]
fn only_two_to_five_fingers_are_a_gesture() {
    assert_eq!(Fingers::from_count(1), None);
    assert_eq!(Fingers::from_count(2), Some(Fingers::Two));
    assert_eq!(Fingers::from_count(3), Some(Fingers::Three));
    assert_eq!(Fingers::from_count(4), Some(Fingers::Four));
    assert_eq!(Fingers::from_count(5), Some(Fingers::Five));
    assert_eq!(Fingers::from_count(6), None);
}

#[test]
fn the_swipe_direction_follows_the_travel_sign() {
    assert_eq!(swipe_gesture(Fingers::Four, Axis::Vertical, false), SwipeGesture::BottomToTop(Fingers::Four));
    assert_eq!(swipe_gesture(Fingers::Four, Axis::Vertical, true), SwipeGesture::TopToBottom(Fingers::Four));
    assert_eq!(swipe_gesture(Fingers::Three, Axis::Horizontal, true), SwipeGesture::LeftToRight(Fingers::Three));
    assert_eq!(swipe_gesture(Fingers::Three, Axis::Horizontal, false), SwipeGesture::RightToLeft(Fingers::Three));
}

#[test]
fn the_default_gestures_step_workspaces_and_open_the_overview() {
    let bindings = GestureBindings::defaults();
    assert_eq!(
        bindings.lookup(SwipeGesture::LeftToRight(Fingers::Three)),
        Some(Action::Workspace(WorkspaceRef::Relative(-1)))
    );
    assert_eq!(
        bindings.lookup(SwipeGesture::RightToLeft(Fingers::Three)),
        Some(Action::Workspace(WorkspaceRef::Relative(1)))
    );
    assert_eq!(bindings.lookup(SwipeGesture::BottomToTop(Fingers::Four)), Some(Action::OpenWorkspaceView));
    assert_eq!(bindings.lookup(SwipeGesture::TopToBottom(Fingers::Four)), Some(Action::CloseWorkspaceView));
    assert_eq!(bindings.lookup(SwipeGesture::LeftToRight(Fingers::Two)), None);
}

#[test]
fn binding_a_gesture_replaces_what_it_had() {
    let mut bindings = GestureBindings::new();
    bindings.bind(SwipeGesture::TopToBottom(Fingers::Five), Action::Quit);
    bindings.bind(SwipeGesture::TopToBottom(Fingers::Five), Action::CloseWindow);
    assert_eq!(bindings.lookup(SwipeGesture::TopToBottom(Fingers::Five)), Some(Action::CloseWindow));
    assert_eq!(bindings.lookup(SwipeGesture::TopToBottom(Fingers::Four)), None);
}
