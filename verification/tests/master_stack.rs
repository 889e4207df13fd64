use crownpositor::geometry::{Point, Rectangle, Size};
use crownpositor::layout::master_stack::{
    master_neighbour, master_stack_layout, promote_demote, try_master_stack_layout, usable_width,
    DEFAULT_MASTER_COUNT,
};
use crownpositor::layout::{index_of, Direction, Gaps, TileInfo};

const NO_GAPS: Gaps = Gaps { inner: 0, outer: 0 };

fn area(w: i32, h: i32) -> Rectangle {
    Rectangle::new(Point::new(0, 0), Size::new(w, h))
}

fn tiles(count: u64) -> Vec<TileInfo> {
    (1..=count).map(TileInfo::new).collect()
}

/// The master column's width for a ratio, as the layout's owner rounds it.
fn master_width(area: Rectangle, ratio: f64, gap: i32) -> i32 {
    let usable = usable_width(area, gap);
    ((usable as f64 * ratio).round() as i32).clamp(1, usable - 1)
}

fn run(area: Rectangle, count: usize, masters: usize, ratio: f64, gaps: Gaps) -> Vec<Rectangle> {
    let rects =
        master_stack_layout(area, count, masters, master_width(area, ratio, gaps.inner), gaps.inner);
    assert_eq!(rects.len(), count, "one rect per tile");
    rects
}

fn assert_covers_vertically(rects: &[Rectangle], area: Rectangle, gap: i32) {
    assert_eq!(rects.first().unwrap().loc.y, area.loc.y);
    let last = rects.last().unwrap();
    assert_eq!(last.loc.y + last.size.h, area.loc.y + area.size.h);
    for pair in rects.windows(2) {
        assert_eq!(pair[1].loc.y - (pair[0].loc.y + pair[0].size.h), gap);
    }
}

#[test]
fn a_lone_window_fills_the_area() {
    let rects = run(area(800, 600), 1, DEFAULT_MASTER_COUNT, 0.55, NO_GAPS);
    assert_eq!(rects[0], area(800, 600));
}

#[test]
fn the_master_column_gets_its_ratio() {
    let rects = run(area(800, 600), 2, DEFAULT_MASTER_COUNT, 0.5, NO_GAPS);
    assert_eq!(rects[0], Rectangle::new(Point::new(0, 0), Size::new(400, 600)));
    assert_eq!(rects[1], Rectangle::new(Point::new(400, 0), Size::new(400, 600)));
}

#[test]
fn the_stack_splits_evenly_and_fills_the_column() {
    let rects = run(area(800, 601), 4, DEFAULT_MASTER_COUNT, 0.5, NO_GAPS);
    assert_covers_vertically(&rects[1..], area(800, 601), 0);
}

#[test]
fn gaps_sit_between_tiles_not_around_them() {
    let gaps = Gaps { inner: 10, outer: 0 };
    let rects = run(area(800, 600), 3, DEFAULT_MASTER_COUNT, 0.5, gaps);

    assert_eq!(rects[0].loc.x, 0, "no gap at the outer edge");
    assert_eq!(rects[1].loc.x - (rects[0].loc.x + rects[0].size.w), 10);
    assert_eq!(rects[2].loc.y - (rects[1].loc.y + rects[1].size.h), 10);
    let last = rects[2];
    assert_eq!(last.loc.y + last.size.h, 600);
}

#[test]
fn a_clamped_ratio_still_leaves_both_columns_visible() {
    let rects = run(area(800, 600), 2, DEFAULT_MASTER_COUNT, 0.9, NO_GAPS);
    assert!(rects[0].size.w > 0 && rects[1].size.w > 0);
    assert_eq!(rects[0].size.w + rects[1].size.w, 800);
}

#[test]
fn promote_moves_a_stack_window_into_master() {
    let tiles = tiles(3);
    let (masters, changed) = promote_demote(DEFAULT_MASTER_COUNT, index_of(&tiles, tiles[2].id), tiles.len());
    assert!(changed);
    let rects = run(area(800, 600), 3, masters, 0.55, NO_GAPS);
    // Two masters now share the left column.
    assert_eq!(rects[0].loc.x, rects[1].loc.x);
    assert_ne!(rects[0].loc.x, rects[2].loc.x);
}

#[test]
fn demote_never_empties_the_master_area() {
    let tiles = tiles(2);
    let (masters, changed) = promote_demote(DEFAULT_MASTER_COUNT, index_of(&tiles, tiles[0].id), tiles.len());
    assert!(!changed, "the last master cannot be demoted");
    assert_eq!(masters, 1);
}

#[test]
fn horizontal_neighbours_cross_the_split() {
    let tiles = tiles(3);
    assert_eq!(master_neighbour(&tiles, DEFAULT_MASTER_COUNT, tiles[0].id, Direction::Right), Some(tiles[1].id));
    assert_eq!(master_neighbour(&tiles, DEFAULT_MASTER_COUNT, tiles[2].id, Direction::Left), Some(tiles[0].id));
    assert_eq!(
        master_neighbour(&tiles, DEFAULT_MASTER_COUNT, tiles[0].id, Direction::Down),
        None,
        "vertical falls back to list order"
    );
}

#[test]
fn promoting_an_unknown_window_changes_nothing() {
    assert_eq!(promote_demote(2, None, 5), (2, false));
    assert_eq!(promote_demote(3, Some(4), 4), (4, true));
    assert_eq!(promote_demote(4, Some(3), 4), (3, true));
}

#[test]
fn a_layout_that_fits_is_laid_out_as_usual() {
    let a = area(1000, 800);
    let w = master_width(a, 0.55, 8);
    assert_eq!(try_master_stack_layout(a, 4, 1, w, 8), Some(master_stack_layout(a, 4, 1, w, 8)));
    assert_eq!(try_master_stack_layout(a, 1, 1, w, 8), Some(master_stack_layout(a, 1, 1, w, 8)));
}

#[test]
fn a_layout_past_the_integer_range_is_refused() {
    let a = area(1000, 800);
    // The gaps between a million rows add up past i32.
    assert_eq!(try_master_stack_layout(a, 1_000_000, 1_000_000, 500, 5_000), None);
    // A master column wider than the area leaves no stack.
    assert_eq!(try_master_stack_layout(a, 3, 1, 2_000, 0), None);
}
