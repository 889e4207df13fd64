use crownpositor::geometry::{Point, Rectangle, Size};
use crownpositor::layout::scrolling::{column_neighbour, ribbon_columns, try_ribbon_columns};
use crownpositor::layout::{Direction, TileInfo};

fn area(w: i32, h: i32) -> Rectangle {
    Rectangle::new(Point::new(0, 0), Size::new(w, h))
}

fn tiles(count: u64) -> Vec<TileInfo> {
    (1..=count).map(TileInfo::new).collect()
}

/// Each column's width in pixels for a fraction of the area, as the
/// layout's owner rounds it.
fn widths(area: Rectangle, fractions: &[f64]) -> Vec<i32> {
    let full = area.size.w.max(1) as f64;
    fractions.iter().map(|f| ((full * f).round() as i32).max(1)).collect()
}

#[test]
fn columns_run_off_the_edge_instead_of_shrinking() {
    let tiles = tiles(4);
    let rects = ribbon_columns(area(800, 600), &tiles, &widths(area(800, 600), &[0.5; 4]), 0);
    assert_eq!(rects.len(), tiles.len(), "one rect per tile");
    // Every column keeps its width; the ribbon is simply wider than the view.
    assert!(rects.iter().all(|rect| rect.size.w == 400));
    let last = rects.last().unwrap();
    assert!(last.loc.x + last.size.w > 800);
}

#[test]
fn opening_a_window_does_not_move_the_others() {
    let many = tiles(3);
    let two = ribbon_columns(area(800, 600), &many[..2], &widths(area(800, 600), &[0.5; 2]), 0);
    let three = ribbon_columns(area(800, 600), &many, &widths(area(800, 600), &[0.5; 3]), 0);
    assert_eq!(&three[..2], &two[..]);
}

#[test]
fn columns_span_the_full_height() {
    let tiles = tiles(3);
    let rects = ribbon_columns(area(800, 600), &tiles, &widths(area(800, 600), &[0.5; 3]), 0);
    assert!(rects.iter().all(|rect| rect.size.h == 600));
}

#[test]
fn min_size_widens_a_column() {
    let mut tiles = tiles(2);
    tiles[0].min_size = Size::new(500, 0);
    let rects = ribbon_columns(area(800, 600), &tiles, &widths(area(800, 600), &[0.5; 2]), 0);
    assert_eq!(rects[0].size.w, 500);
    assert_eq!(rects[1].loc.x, 500, "the next column starts after the widened one");
}

#[test]
fn gaps_separate_the_columns() {
    let tiles = tiles(2);
    let rects = ribbon_columns(area(800, 600), &tiles, &vec![300, 200], 10);
    assert_eq!(rects[0], Rectangle::new(Point::new(0, 0), Size::new(300, 600)));
    assert_eq!(rects[1], Rectangle::new(Point::new(310, 0), Size::new(200, 600)));
}

#[test]
fn neighbours_run_along_the_ribbon() {
    let tiles = tiles(3);
    assert_eq!(column_neighbour(&tiles, tiles[1].id, Direction::Left), Some(tiles[0].id));
    assert_eq!(column_neighbour(&tiles, tiles[1].id, Direction::Right), Some(tiles[2].id));
    assert_eq!(column_neighbour(&tiles, tiles[0].id, Direction::Left), None);
    assert_eq!(column_neighbour(&tiles, tiles[2].id, Direction::Right), None);
    assert_eq!(column_neighbour(&tiles, tiles[1].id, Direction::Up), None);
}

#[test]
fn a_ribbon_that_fits_is_laid_out_as_usual() {
    let tiles = tiles(3);
    let ws = widths(area(800, 600), &[0.5, 0.25, 1.0]);
    assert_eq!(try_ribbon_columns(area(800, 600), &tiles, &ws, 10), Some(ribbon_columns(area(800, 600), &tiles, &ws, 10)));
}

#[test]
fn a_ribbon_past_the_integer_range_is_refused() {
    let tiles = tiles(3);
    let ws = vec![i32::MAX / 2, i32::MAX / 2, 10];
    assert_eq!(try_ribbon_columns(area(800, 600), &tiles, &ws, 10), None);
    assert_eq!(try_ribbon_columns(area(800, 600), &tiles, &ws[..2].to_vec(), 10), None);
}
