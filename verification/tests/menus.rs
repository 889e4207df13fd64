use crownpositor::menu::model::{MenuBar, MenuItem};
use crownpositor::menu::{MenuAddress, Menus};

fn address(service: &str) -> MenuAddress {
    MenuAddress { service: service.to_owned(), path: "/MenuBar".to_owned() }
}

fn bar(labels: &[&str]) -> MenuBar {
    MenuBar {
        items: labels
            .iter()
            .enumerate()
            .map(|(index, label)| MenuItem {
                id: index as i32 + 1,
                label: (*label).to_owned(),
                ..MenuItem::default()
            })
            .collect(),
        revision: 1,
    }
}

fn same(a: Option<MenuAddress>, b: Option<MenuAddress>) -> bool {
    match (a, b) {
        (Some(a), Some(b)) => a.same_as(&b),
        (None, None) => true,
        _ => false,
    }
}

#[test]
fn a_new_address_asks_for_a_fetch_and_the_same_one_does_not() {
    let mut menus: Menus<()> = Menus::new();
    let window = 1;
    assert!(same(menus.set_address(window, Some(address("org.app"))), Some(address("org.app"))));
    assert!(menus.set_address(window, Some(address("org.app"))).is_none());
}

#[test]
fn changing_the_address_drops_the_menu_it_had() {
    let mut menus: Menus<()> = Menus::new();
    let window = 1;
    menus.set_address(window, Some(address("org.app")));
    menus.set_bar(window, &address("org.app"), bar(&["File"]));
    assert!(menus.bar(window).is_some());

    menus.set_address(window, Some(address("org.other")));
    assert!(menus.bar(window).is_none(), "the old menu is not the new one");
}

#[test]
fn a_reply_for_a_stale_address_is_dropped() {
    let mut menus: Menus<()> = Menus::new();
    let window = 1;
    menus.set_address(window, Some(address("org.new")));
    assert!(!menus.set_bar(window, &address("org.old"), bar(&["File"])));
    assert!(menus.bar(window).is_none());
}

#[test]
fn an_empty_menubar_reads_as_no_menu() {
    let mut menus: Menus<()> = Menus::new();
    let window = 1;
    menus.set_address(window, Some(address("org.app")));
    menus.set_bar(window, &address("org.app"), MenuBar::default());
    assert!(menus.bar(window).is_none());
}

#[test]
fn clicking_the_same_label_twice_closes_the_menu() {
    let mut menus: Menus<()> = Menus::new();
    let window = 1;
    menus.toggle(window, 1);
    assert_eq!(menus.open().unwrap().path, vec![1]);
    menus.toggle(window, 1);
    assert!(menus.open().is_none());
}

#[test]
fn clicking_another_label_moves_to_it() {
    let mut menus: Menus<()> = Menus::new();
    let window = 1;
    menus.toggle(window, 1);
    menus.toggle(window, 2);
    assert_eq!(menus.open().unwrap().path, vec![2]);
}

#[test]
fn descending_and_backing_out_walk_the_same_path() {
    let mut menus: Menus<()> = Menus::new();
    let window = 1;
    menus.toggle(window, 1);
    menus.descend(10);
    assert_eq!(menus.open().unwrap().path, vec![1, 10]);
    menus.ascend();
    assert_eq!(menus.open().unwrap().path, vec![1]);
    menus.ascend();
    assert!(menus.open().is_none(), "backing out of the top closes it");
}

#[test]
fn descending_into_the_open_submenu_again_does_nothing() {
    let mut menus: Menus<()> = Menus::new();
    let window = 1;
    menus.toggle(window, 1);
    menus.descend(10);
    assert!(!menus.descend(10));
}

#[test]
fn highlighting_reports_only_real_changes() {
    let mut menus: Menus<()> = Menus::new();
    let window = 1;
    menus.toggle(window, 1);
    assert!(menus.highlight(Some(5)));
    assert!(!menus.highlight(Some(5)));
    assert!(menus.highlight(None));
}

#[test]
fn the_open_menus_items_are_the_ones_at_the_end_of_the_path() {
    let mut menus: Menus<()> = Menus::new();
    let window = 1;
    let mut bar = bar(&["File"]);
    bar.items[0].children = vec![MenuItem { id: 10, label: "New".into(), ..MenuItem::default() }];
    menus.set_address(window, Some(address("org.app")));
    menus.set_bar(window, &address("org.app"), bar);

    menus.toggle(window, 1);
    let (_, items) = menus.open_items().expect("File is open");
    assert_eq!(items[0].label, "New");
}

#[test]
fn nothing_is_open_when_no_menu_is() {
    assert!(Menus::<()>::new().open_items().is_none());
}

#[test]
fn a_closing_window_takes_its_menu_with_it() {
    let mut menus: Menus<()> = Menus::new();
    let window = 1;
    menus.set_address(window, Some(address("org.app")));
    menus.set_bar(window, &address("org.app"), bar(&["File"]));
    menus.toggle(window, 1);

    menus.forget(window);
    assert!(menus.bar(window).is_none());
    assert!(menus.address(window).is_none());
    assert!(menus.open().is_none());
}

/// Another window's menu closing must not close the one that is open.
#[test]
fn forgetting_one_window_leaves_anothers_menu_alone() {
    let mut menus: Menus<()> = Menus::new();
    let (open, other) = (1, 2);
    menus.toggle(open, 1);
    menus.forget(other);
    assert!(menus.open().is_some());
}

#[test]
fn clearing_an_address_closes_that_windows_menu_and_its_drawing() {
    let mut menus: Menus<&str> = Menus::new();
    menus.set_address(1, Some(address("org.app")));
    menus.toggle(1, 1);
    menus.record_layout(1, "row");
    assert!(menus.set_address(1, None).is_none());
    assert!(menus.open().is_none());
    assert!(menus.drawn_layout().is_none());
    assert!(menus.address(1).is_none());
}

#[test]
fn a_submenu_reply_is_grafted_into_the_right_window() {
    let mut menus: Menus<()> = Menus::new();
    menus.set_address(1, Some(address("org.app")));
    menus.set_bar(1, &address("org.app"), bar(&["File", "Edit"]));
    assert!(menus.graft(1, 2, vec![MenuItem { id: 20, label: "Undo".into(), ..MenuItem::default() }]));
    assert!(!menus.graft(2, 2, Vec::new()), "no such window");
    assert!(!menus.graft(1, 99, Vec::new()), "no such item");
    menus.toggle(1, 2);
    let (window, items) = menus.open_items().expect("Edit is open");
    assert_eq!(window, 1);
    assert_eq!(items[0].label, "Undo");
    assert!(menus.close());
    assert!(!menus.close());
}

#[test]
fn a_path_through_a_missing_item_opens_nothing() {
    let mut menus: Menus<()> = Menus::new();
    menus.set_address(1, Some(address("org.app")));
    menus.set_bar(1, &address("org.app"), bar(&["File"]));
    menus.toggle(1, 7);
    assert!(menus.open_items().is_none());
}
