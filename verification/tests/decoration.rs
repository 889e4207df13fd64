use crownpositor::input::decoration::{
    Control, FrameAction, FramePress, FramePressOutcome, MenuPress, PointerFocus, LEFT_BUTTON,
};
use crownpositor::input::mouse::{ButtonRoute, ButtonTarget};
use crownpositor::input::shortcuts::bindings::Bindings;
use crownpositor::input::State;
use crownpositor::menu::model::{MenuBar, MenuItem};
use crownpositor::menu::MenuAddress;

fn state() -> State<()> {
    State::new(Bindings::new())
}

fn address() -> MenuAddress {
    MenuAddress { service: "org.app".to_owned(), path: "/MenuBar".to_owned() }
}

/// A window with a "File" menu holding a plain item, a hidden one and a
/// submenu.
fn with_menu() -> State<()> {
    let mut state = state();
    let file = MenuItem {
        id: 1,
        label: "File".into(),
        children: vec![
            MenuItem { id: 10, label: "New".into(), ..MenuItem::default() },
            MenuItem { id: 11, label: "Hidden".into(), visible: false, ..MenuItem::default() },
            MenuItem { id: 12, label: "Recent".into(), has_submenu: true, ..MenuItem::default() },
        ],
        has_submenu: true,
        ..MenuItem::default()
    };
    state.menus.set_address(7, Some(address()));
    state.menus.set_bar(7, &address(), MenuBar { items: vec![file], revision: 1 });
    state
}

#[test]
fn hovering_a_control_lights_it_once() {
    let mut state = state();
    state.track_frame_hover(true, Some((7, Control::Close)));
    assert_eq!(state.hovered_control, Some((7, Control::Close)));
    assert!(state.pointer_redraw_queued);
    state.pointer_redraw_queued = false;
    state.track_frame_hover(true, Some((7, Control::Close)));
    assert!(!state.pointer_redraw_queued, "nothing changed, nothing to draw");
    state.track_frame_hover(false, Some((7, Control::Close)));
    assert_eq!(state.hovered_control, None, "off the frame, nothing is lit");
}

#[test]
fn a_click_fires_only_where_it_was_pressed() {
    let mut state = state();
    assert_eq!(state.press_frame(7, None, Some((7, Control::Maximize)), false), FramePressOutcome::Armed);
    assert_eq!(state.frame_press, Some(FramePress { window: 7, control: Control::Maximize }));
    assert_eq!(state.release_frame(7, Some((7, Control::Maximize))), Some(FrameAction::ToggleMaximize(7)));
    assert_eq!(state.frame_press, None);

    state.press_frame(7, None, Some((7, Control::Close)), false);
    assert_eq!(state.release_frame(7, Some((7, Control::Minimize))), None, "dragged off: cancelled");
    assert_eq!(state.release_frame(7, Some((7, Control::Close))), None, "and disarmed");

    state.press_frame(7, None, Some((7, Control::Minimize)), false);
    assert_eq!(state.release_frame(7, Some((7, Control::Minimize))), Some(FrameAction::Lower(7)));
    state.press_frame(7, None, Some((7, Control::Close)), false);
    assert_eq!(state.release_frame(7, Some((7, Control::Close))), Some(FrameAction::Close(7)));
}

#[test]
fn the_bar_moves_and_a_double_click_maximizes() {
    let mut state = state();
    assert_eq!(state.press_frame(7, None, None, false), FramePressOutcome::StartMove);
    assert_eq!(state.press_frame(7, None, None, true), FramePressOutcome::ToggleMaximize);
}

#[test]
fn a_menu_label_opens_and_closes_its_menu() {
    let mut state = with_menu();
    assert_eq!(
        state.press_frame(7, Some((7, 1)), None, false),
        FramePressOutcome::MenuToggled { window: 7, item: 1, opened: true }
    );
    assert_eq!(
        state.press_frame(7, Some((7, 1)), None, false),
        FramePressOutcome::MenuToggled { window: 7, item: 1, opened: false }
    );
}

#[test]
fn the_open_popup_lists_only_visible_rows() {
    let mut state = with_menu();
    state.press_frame(7, Some((7, 1)), None, false);
    let labels: Vec<_> = state.open_menu_items().into_iter().map(|item| item.label).collect();
    assert_eq!(labels, ["New", "Recent"]);
}

#[test]
fn a_press_on_a_row_chooses_it_or_opens_its_submenu() {
    let mut state = with_menu();
    state.press_frame(7, Some((7, 1)), None, false);
    assert_eq!(state.on_menu_press(None), MenuPress::Ignored);
    assert_eq!(state.on_menu_press(Some((7, 10))), MenuPress::Activate { window: 7, item: 10 });
    assert_eq!(state.on_menu_press(Some((7, 12))), MenuPress::Descended { window: 7, item: 12 });
    assert!(state.redraw_queued);
    assert_eq!(state.menus.open().unwrap().path, vec![1, 12]);
}

#[test]
fn motion_highlights_and_a_click_outside_dismisses() {
    let mut state = with_menu();
    state.press_frame(7, Some((7, 1)), None, false);
    state.on_menu_motion(Some((7, 10)));
    assert!(state.pointer_redraw_queued);
    assert_eq!(state.menus.open().unwrap().highlighted, Some(10));
    assert!(state.dismiss_menu());
    assert!(!state.dismiss_menu(), "nothing left to dismiss");
}

#[test]
fn only_a_frame_under_the_pointer_counts() {
    let state = state();
    assert_eq!(state.frame_under_pointer(Some(PointerFocus { decoration: true, window: Some(3) })), Some(3));
    assert_eq!(state.frame_under_pointer(Some(PointerFocus { decoration: false, window: Some(3) })), None);
    assert_eq!(state.frame_under_pointer(None), None);
}

#[test]
fn an_open_menu_owns_the_next_press() {
    let mut state = with_menu();
    assert_eq!(state.menu_button_route(true, false, false), ButtonRoute::Elsewhere);
    state.press_frame(7, Some((7, 1)), None, false);
    assert_eq!(state.menu_button_route(true, false, true), ButtonRoute::MenuPress);
    assert_eq!(state.menu_button_route(true, false, false), ButtonRoute::DismissMenu);
    assert_eq!(state.menu_button_route(false, false, false), ButtonRoute::Elsewhere);
    assert_eq!(state.menu_button_route(true, true, false), ButtonRoute::Elsewhere);
}

#[test]
fn a_release_belongs_to_the_frame_that_armed_it() {
    let mut state = state();
    assert_eq!(
        state.button_target(true, false, LEFT_BUTTON, Some(4)),
        ButtonTarget { frame: Some(4), focus_under_pointer: false }
    );
    assert_eq!(
        state.button_target(true, false, LEFT_BUTTON + 1, Some(4)),
        ButtonTarget { frame: None, focus_under_pointer: true }
    );
    state.press_frame(4, None, Some((4, Control::Close)), false);
    assert_eq!(
        state.button_target(false, false, LEFT_BUTTON, None),
        ButtonTarget { frame: Some(4), focus_under_pointer: false }
    );
}

#[test]
fn controls_have_their_slots() {
    assert_eq!(Control::Close.index(), 0);
    assert_eq!(Control::Minimize.index(), 1);
    assert_eq!(Control::Maximize.index(), 2);
}
