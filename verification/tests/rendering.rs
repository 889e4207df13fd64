use crownpositor::menu::layout::{popup_anchor, RowEntry};
use crownpositor::rendering::label::paint_glyph;
use crownpositor::geometry::{Point, Rectangle, Size};
use crownpositor::input::decoration::Control;
use crownpositor::rendering::appearance_key;
use crownpositor::rendering::blur::{
    grow, kawase_plan, level_area, level_extent, level_sizes, needs_reblur, pyramid_depth,
    KawaseStep, Texture,
};
use crownpositor::rendering::color::ColorPass;
use crownpositor::rendering::cursor::{image_is_valid, BuiltinSource, MIN_SIZE};

fn rect(x: i32, y: i32, w: i32, h: i32) -> Rectangle {
    Rectangle::new(Point::new(x, y), Size::new(w, h))
}

#[test]
fn the_default_pass_is_the_one_that_changes_nothing() {
    assert_eq!(ColorPass::default(), ColorPass::Passthrough);
    assert!(!ColorPass::default().is_managed());
    assert!(ColorPass::Managed.is_managed());
}

#[test]
fn a_frames_appearance_packs_into_bytes() {
    assert_eq!(appearance_key(false, None, false), 255);
    assert_eq!(appearance_key(true, Some(Control::Close), false), 0x1_0000);
    assert_eq!(appearance_key(true, Some(Control::Maximize), true), 0x1_0102);
    assert_ne!(appearance_key(false, Some(Control::Minimize), false), appearance_key(false, None, false));
}

#[test]
fn the_pyramid_depth_is_clamped() {
    assert_eq!(pyramid_depth(0), 1);
    assert_eq!(pyramid_depth(3), 3);
    assert_eq!(pyramid_depth(200), 8);
}

#[test]
fn each_level_halves_the_one_before() {
    assert_eq!(level_extent(1920, 0), 960);
    assert_eq!(level_extent(1920, 2), 240);
    assert_eq!(level_extent(3, 4), 1, "never below a pixel");
    assert_eq!(level_extent(-5, 0), 1);
    let sizes = level_sizes(Size::new(1920, 1080), 3);
    assert_eq!(sizes, vec![Size::new(960, 540), Size::new(480, 270), Size::new(240, 135)]);
}

#[test]
fn the_chain_goes_down_and_back_up() {
    let step = |source, destination, down| KawaseStep { source, destination, down };
    assert_eq!(
        kawase_plan(3, true),
        vec![
            step(Texture::Scene, Texture::Level(0), true),
            step(Texture::Level(0), Texture::Level(1), true),
            step(Texture::Level(1), Texture::Level(2), true),
            step(Texture::Level(2), Texture::Level(1), false),
            step(Texture::Level(1), Texture::Level(0), false),
            step(Texture::Level(0), Texture::Blurred, false),
        ]
    );
    assert_eq!(kawase_plan(1, false), vec![step(Texture::Scene, Texture::Level(0), true)]);
}

#[test]
fn the_blur_reruns_only_when_something_changed() {
    assert!(needs_reblur(false, false, false), "never filled yet");
    assert!(!needs_reblur(true, false, false));
    assert!(needs_reblur(true, true, false));
    assert!(needs_reblur(true, false, true));
}

#[test]
fn a_skirt_grows_every_side() {
    assert_eq!(grow(rect(50, 50, 20, 20), 4), rect(46, 46, 28, 28));
    assert_eq!(grow(rect(i32::MAX - 1, 0, 1, 1), 4).size.w, 5, "corners saturate");
}

#[test]
fn a_footprint_rounds_outward_at_each_level() {
    let size = Size::new(100, 100);
    assert_eq!(level_area(rect(3, 5, 10, 10), 1, size), rect(1, 2, 6, 6));
    assert_eq!(level_area(rect(-3, 0, 4, 4), 1, size), rect(-2, 0, 3, 2));
    assert_eq!(level_area(rect(190, 190, 30, 30), 1, size), rect(95, 95, 5, 5), "held to the level");
}

#[test]
fn an_absurd_cursor_size_is_raised_to_the_floor() {
    let source = BuiltinSource;
    assert_eq!(source.size_for(1), MIN_SIZE);
    assert_eq!(source.size_for(48), 48);
    assert_eq!(source.describe(), "the built-in arrow");
}

#[test]
fn a_truncated_cursor_image_is_refused() {
    assert!(image_is_valid(2, 3, 24));
    assert!(!image_is_valid(2, 3, 23));
    assert!(!image_is_valid(0, 3, 0));
    assert!(!image_is_valid(2, -3, 24));
}

#[test]
fn a_glyph_is_clipped_to_the_label_and_premultiplied() {
    let (width, height) = (4, 2);
    let mut pixels = vec![0u8; 4 * 2 * 4];
    // Two pixels wide, hanging one pixel off the left edge and one below.
    let drew = paint_glyph(&mut pixels, width, height, -1, 1, 2, 2, (255, 128, 0, 102));
    assert!(drew);
    // Only pixel (0, 1) is inside: blue, green, red, coverage.
    let index = (1 * 4 + 0) * 4;
    assert_eq!(&pixels[index..index + 4], &[0, 51, 102, 102]);
    assert_eq!(pixels.iter().filter(|b| **b != 0).count(), 3);
}

#[test]
fn a_glyph_with_no_coverage_or_off_the_label_paints_nothing() {
    let mut pixels = vec![7u8; 2 * 2 * 4];
    assert!(!paint_glyph(&mut pixels, 2, 2, 0, 0, 2, 2, (255, 255, 255, 0)));
    assert!(!paint_glyph(&mut pixels, 2, 2, 5, 0, 2, 2, (255, 255, 255, 255)));
    assert!(pixels.iter().all(|b| *b == 7));
}

#[test]
fn a_popup_hangs_below_the_label_that_opened_it() {
    let row = [
        RowEntry { id: 1, rect: rect(100, 0, 40, 24) },
        RowEntry { id: 2, rect: rect(140, 0, 40, 24) },
    ];
    let fallback = rect(90, 0, 300, 24);
    assert_eq!(popup_anchor(&row, Some(2), fallback), Point::new(140, 24));
    assert_eq!(popup_anchor(&row, Some(9), fallback), Point::new(90, 24), "squeezed out");
    assert_eq!(popup_anchor(&row, None, fallback), Point::new(90, 24));
}
