use crownpositor::geometry::{Point, Rectangle, Size};
use crownpositor::layout::{index_of, split_rows, Gaps, LayoutInput, LayoutOutput, TileInfo};

fn area(w: i32, h: i32) -> Rectangle {
    Rectangle::new(Point::new(0, 0), Size::new(w, h))
}

/// The rects must cover the area on the split axis with exactly `gap`
/// between them and nothing left over.
fn assert_covers_vertically(rects: &[Rectangle], area: Rectangle, gap: i32) {
    assert_eq!(rects.first().unwrap().loc.y, area.loc.y);
    let last = rects.last().unwrap();
    assert_eq!(last.loc.y + last.size.h, area.loc.y + area.size.h);
    for pair in rects.windows(2) {
        assert_eq!(pair[1].loc.y - (pair[0].loc.y + pair[0].size.h), gap);
    }
}

#[test]
fn rows_fill_the_area_exactly() {
    // 100 does not divide by 3, so this is the remainder case.
    let rects = split_rows(area(200, 100), 3, 4);
    assert_covers_vertically(&rects, area(200, 100), 4);
}

#[test]
fn a_single_row_takes_everything() {
    let rects = split_rows(area(200, 100), 1, 8);
    assert_eq!(rects, vec![area(200, 100)]);
}

#[test]
fn splitting_survives_an_area_smaller_than_its_gaps() {
    // Every tile ends up 1px rather than zero or negative.
    let rects = split_rows(area(50, 4), 4, 8);
    assert_eq!(rects.len(), 4);
    assert!(rects.iter().all(|rect| rect.size.h >= 1));
}

#[test]
fn constrain_respects_min_and_max() {
    let tile = TileInfo { id: 1, min_size: Size::new(100, 0), max_size: Size::new(0, 300) };
    let size = tile.constrain(Size::new(40, 900));
    assert_eq!(size.w, 100, "below min widens");
    assert_eq!(size.h, 300, "above max shrinks");
    // A zero component is unconstrained on that axis.
    assert_eq!(tile.constrain(Size::new(500, 10)), Size::new(500, 10));
}

#[test]
fn the_remainder_goes_to_the_leading_rows() {
    let rects = split_rows(area(200, 100), 3, 4);
    // 100 - 2 * 4 = 92 = 3 * 30 + 2.
    assert_eq!(rects.iter().map(|r| r.size.h).collect::<Vec<_>>(), vec![31, 31, 30]);
    assert_eq!(rects[1].loc.y, 35);
    assert!(split_rows(area(200, 100), 0, 4).is_empty());
}

#[test]
fn a_window_is_found_at_its_first_position() {
    let tiles = [TileInfo::new(7), TileInfo::new(9), TileInfo::new(7)];
    assert_eq!(index_of(&tiles, 7), Some(0));
    assert_eq!(index_of(&tiles, 9), Some(1));
    assert_eq!(index_of(&tiles, 3), None);
    let input = LayoutInput { area: area(10, 10), gaps: Gaps::default(), focused: None, tiles: &tiles };
    assert_eq!(input.index_of(9), Some(1));
}

#[test]
fn gaps_default_to_eight_pixels() {
    assert_eq!(Gaps::default(), Gaps { inner: 8, outer: 8 });
    let mut out = LayoutOutput::default();
    out.rects.push(area(1, 1));
    out.clear();
    assert!(out.rects.is_empty());
}
