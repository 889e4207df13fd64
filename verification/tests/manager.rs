use crownpositor::geometry::Point;
use crownpositor::layout::manager::{LayoutManager, LayoutMode, WindowState};

#[test]
fn toggling_the_mode_flips_between_the_two() {
    let mut manager: LayoutManager<&str> = LayoutManager::new(LayoutMode::Floating);
    manager.toggle_mode();
    manager.toggle_mode();
    assert_eq!(manager.add_window("first"), Point::new(100, 100));
    assert_eq!(manager.add_window("second"), Point::new(100, 100));
    manager.remove_window(0);
    let _ = WindowState::new();
}
