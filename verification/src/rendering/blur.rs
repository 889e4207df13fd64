//! The shape of the blur: how deep the kawase pyramid goes, how large each of
//! its levels is, the order its passes run in, and the rectangles a pass
//! touches at each level.
//!
//! The passes themselves are GPU work the caller runs; what is decided here is
//! which ones, on what, and when the blurred texture is stale.

use vstd::prelude::*;

use crate::geometry::{fits, max, min, sat, Point, Rectangle, Size};

verus! {

/// The deepest pyramid worth running: past it the smallest level of any real
/// output is a pixel and the extra passes only burn time.
pub const MAX_PASSES: u8 = 8;

/// How many halvings the pyramid runs for a configured `passes`: at least
/// one, or the pyramid does not exist, and at most [`MAX_PASSES`].
pub open spec fn spec_pyramid_depth(passes: u8) -> int {
    clamp_int(passes as int, 1, MAX_PASSES as int)
}

pub open spec fn clamp_int(v: int, lo: int, hi: int) -> int {
    if v < lo {
        lo
    } else if v > hi {
        hi
    } else {
        v
    }
}

pub fn pyramid_depth(passes: u8) -> (n: usize)
    ensures
        n == spec_pyramid_depth(passes),
        1 <= n <= MAX_PASSES,
{
    if passes < 1 {
        1
    } else if passes > MAX_PASSES {
        MAX_PASSES as usize
    } else {
        passes as usize
    }
}

/// `2^s`.
pub open spec fn two_pow(s: nat) -> int
    decreases s,
{
    if s == 0 {
        1
    } else {
        2 * two_pow((s - 1) as nat)
    }
}

proof fn lemma_two_pow_grows(a: nat, b: nat)
    requires
        a <= b,
    ensures
        1 <= two_pow(a) <= two_pow(b),
    decreases b,
{
    if b > a {
        lemma_two_pow_grows(a, (b - 1) as nat);
    } else if b > 0 {
        lemma_two_pow_grows(0, (b - 1) as nat);
    }
}

fn pow2(s: u32) -> (p: i64)
    requires
        s <= 30,
    ensures
        p == two_pow(s as nat),
        1 <= p <= 0x4000_0000,
{
    let mut p: i64 = 1;
    let mut k: u32 = 0;
    while k < s
        invariant
            k <= s <= 30,
            p == two_pow(k as nat),
        decreases s - k,
    {
        proof {
            lemma_two_pow_grows((k + 1) as nat, 30);
            assert(two_pow(30) == 0x4000_0000) by {
                reveal_with_fuel(two_pow, 31);
            }
        }
        p = p * 2;
        k = k + 1;
    }
    proof {
        lemma_two_pow_grows(s as nat, 30);
        assert(two_pow(30) == 0x4000_0000) by {
            reveal_with_fuel(two_pow, 31);
        }
    }
    p
}

/// One side of pyramid level `pass` (counting from zero) for an output side
/// of `extent` pixels: halved once more than the level before, never below a
/// pixel.
pub open spec fn spec_level_extent(extent: i32, pass: nat) -> int {
    max(max(extent as int, 1) / two_pow(pass + 1), 1)
}

pub fn level_extent(extent: i32, pass: u32) -> (e: i32)
    requires
        pass < 30,
    ensures
        e == spec_level_extent(extent, pass as nat),
        e >= 1,
{
    let whole: i64 = if extent > 1 {
        extent as i64
    } else {
        1
    };
    let e = whole / pow2(pass + 1);
    if e > 1 {
        e as i32
    } else {
        1
    }
}

/// The sizes of the pyramid's levels for an output of `size`, largest first.
pub fn level_sizes(size: Size, passes: usize) -> (levels: Vec<Size>)
    requires
        passes <= 30,
    ensures
        levels@.len() == passes,
        forall|i: int| 0 <= i < passes ==> (#[trigger] levels@[i]).w == spec_level_extent(size.w, i as nat)
            && levels@[i].h == spec_level_extent(size.h, i as nat),
{
    let mut levels: Vec<Size> = Vec::new();
    let mut pass: usize = 0;
    while pass < passes
        invariant
            pass <= passes <= 30,
            levels@.len() == pass,
            forall|i: int| 0 <= i < pass ==> (#[trigger] levels@[i]).w == spec_level_extent(size.w, i as nat)
                && levels@[i].h == spec_level_extent(size.h, i as nat),
        decreases passes - pass,
    {
        levels.push(Size { w: level_extent(size.w, pass as u32), h: level_extent(size.h, pass as u32) });
        pass = pass + 1;
    }
    levels
}

/// A texture a kawase pass reads or writes.
#[derive(Debug, Clone, Copy, PartialEq, Eq, Structural)]
pub enum Texture {
    /// The un-blurred scene under the windows.
    Scene,
    /// Pyramid level `i`, halved `i + 1` times.
    Level(usize),
    /// The full-resolution result windows sample from.
    Blurred,
}

/// One kawase pass: downsampling or upsampling `source` into `destination`.
#[derive(Debug, Clone, Copy, PartialEq, Eq, Structural)]
pub struct KawaseStep {
    pub source: Texture,
    pub destination: Texture,
    pub down: bool,
}

/// Step `i` of the chain for a pyramid `n` levels deep: down from the scene
/// through every level, back up to the top level, and, when `finish` is set,
/// a last upsample into the full-resolution result.
pub open spec fn spec_step(n: int, i: int) -> KawaseStep {
    if i < n {
        KawaseStep {
            source: if i == 0 {
                Texture::Scene
            } else {
                Texture::Level((i - 1) as usize)
            },
            destination: Texture::Level(i as usize),
            down: true,
        }
    } else if i < 2 * n - 1 {
        let level = 2 * n - 2 - i;
        KawaseStep {
            source: Texture::Level((level + 1) as usize),
            destination: Texture::Level(level as usize),
            down: false,
        }
    } else {
        KawaseStep { source: Texture::Level(0), destination: Texture::Blurred, down: false }
    }
}

/// The passes that blur the scene, in the order they run.
pub fn kawase_plan(levels: usize, finish: bool) -> (steps: Vec<KawaseStep>)
    requires
        1 <= levels <= 30,
    ensures
        steps@.len() == (if finish {
            2 * levels
        } else {
            2 * levels - 1
        }),
        forall|i: int| 0 <= i < steps@.len() ==> #[trigger] steps@[i] == spec_step(levels as int, i),
{
    let mut steps: Vec<KawaseStep> = Vec::new();
    let mut i: usize = 0;
    while i < levels
        invariant
            1 <= levels <= 30,
            i <= levels,
            steps@.len() == i,
            forall|j: int| 0 <= j < i ==> #[trigger] steps@[j] == spec_step(levels as int, j),
        decreases levels - i,
    {
        let source = if i == 0 {
            Texture::Scene
        } else {
            Texture::Level(i - 1)
        };
        steps.push(KawaseStep { source, destination: Texture::Level(i), down: true });
        i = i + 1;
    }
    let mut level: usize = levels - 1;
    while level > 0
        invariant
            1 <= levels <= 30,
            level < levels,
            steps@.len() == 2 * levels - 1 - level,
            forall|j: int| 0 <= j < steps@.len() ==> #[trigger] steps@[j] == spec_step(levels as int, j),
        decreases level,
    {
        level = level - 1;
        steps.push(KawaseStep { source: Texture::Level(level + 1), destination: Texture::Level(level), down: false });
    }
    if finish {
        steps.push(KawaseStep { source: Texture::Level(0), destination: Texture::Blurred, down: false });
    }
    steps
}

/// Whether the kawase chain has to run again: always before the blurred
/// texture was first filled, and afterwards only when the scene under the
/// windows changed or the settings that shape the blur did.
pub fn needs_reblur(primed: bool, scene_damaged: bool, config_changed: bool) -> (r: bool)
    ensures
        r == (!primed || scene_damaged || config_changed),
{
    !(primed && !scene_damaged && !config_changed)
}

/// `r` grown by `margin` on every side, its corners saturating at the limits
/// of `i32`.
pub open spec fn spec_grow(r: Rectangle, margin: i32) -> Rectangle {
    let x1 = sat(r.loc.x - margin);
    let y1 = sat(r.loc.y - margin);
    let x2 = sat(sat(r.loc.x + r.size.w) + margin);
    let y2 = sat(sat(r.loc.y + r.size.h) + margin);
    Rectangle { loc: Point { x: x1 as i32, y: y1 as i32 }, size: Size { w: sat(x2 - x1) as i32, h: sat(y2 - y1) as i32 } }
}

fn sat_add(a: i32, b: i32) -> (r: i32)
    ensures
        r == sat(a + b),
{
    let v = a as i64 + b as i64;
    if v > i32::MAX as i64 {
        i32::MAX
    } else if v < i32::MIN as i64 {
        i32::MIN
    } else {
        v as i32
    }
}

fn sat_sub(a: i32, b: i32) -> (r: i32)
    ensures
        r == sat(a - b),
{
    let v = a as i64 - b as i64;
    if v > i32::MAX as i64 {
        i32::MAX
    } else if v < i32::MIN as i64 {
        i32::MIN
    } else {
        v as i32
    }
}

/// `r` grown by `margin` on every side: the skirt a blur of that radius
/// reaches into.
pub fn grow(r: Rectangle, margin: i32) -> (g: Rectangle)
    requires
        margin >= 0,
        r.size.w >= 0,
        r.size.h >= 0,
    ensures
        g == spec_grow(r, margin),
        g.size.w >= 0 && g.size.h >= 0,
{
    let x1 = sat_sub(r.loc.x, margin);
    let y1 = sat_sub(r.loc.y, margin);
    let x2 = sat_add(sat_add(r.loc.x, r.size.w), margin);
    let y2 = sat_add(sat_add(r.loc.y, r.size.h), margin);
    Rectangle { loc: Point { x: x1, y: y1 }, size: Size { w: sat_sub(x2, x1), h: sat_sub(y2, y1) } }
}

proof fn lemma_floor_of_negative(m: int, p: int)
    requires
        m > 0,
        p > 0,
    ensures
        (-m) / p == -((m + p - 1) / p),
{
    let a = m / p;
    let b = m % p;
    assert(m == a * p + b && 0 <= b < p) by (nonlinear_arith)
        requires
            p > 0,
            a == m / p,
            b == m % p,
    ;
    if b == 0 {
        assert((-m) / p == -a) by (nonlinear_arith)
            requires
                m == a * p,
                p > 0,
        ;
        assert((m + p - 1) / p == a) by (nonlinear_arith)
            requires
                m == a * p,
                p > 0,
        ;
    } else {
        assert((-m) / p == -a - 1) by (nonlinear_arith)
            requires
                m == a * p + b,
                0 < b < p,
        ;
        assert((m + p - 1) / p == a + 1) by (nonlinear_arith)
            requires
                m == a * p + b,
                0 < b < p,
        ;
    }
}

/// `v / p` rounded toward negative infinity, as an arithmetic shift does.
fn floor_div(v: i64, p: i64) -> (q: i64)
    requires
        1 <= p <= 0x4000_0000,
        -0x1_0000_0000 <= v <= 0x1_0000_0000,
    ensures
        q == v as int / p as int,
        -0x1_0000_0000 <= q <= 0x1_0000_0000,
{
    proof {
        assert(-0x1_0000_0000 <= v as int / p as int <= 0x1_0000_0000) by (nonlinear_arith)
            requires
                1 <= p,
                -0x1_0000_0000 <= v <= 0x1_0000_0000,
        ;
    }
    if v >= 0 {
        v / p
    } else {
        proof {
            lemma_floor_of_negative(-v as int, p as int);
        }
        -((-v + p - 1) / p)
    }
}

/// `footprint`, expressed in the pixels of a level `shift` halvings down of
/// `size`: its start rounded down, its end rounded up, both held to the
/// level's extent.
pub open spec fn spec_level_area(footprint: Rectangle, shift: nat, size: Size) -> Rectangle {
    let p = two_pow(shift);
    let x1 = min(footprint.loc.x as int / p, size.w as int);
    let y1 = min(footprint.loc.y as int / p, size.h as int);
    let x2 = min((footprint.loc.x + footprint.size.w + p - 1) / p, size.w as int);
    let y2 = min((footprint.loc.y + footprint.size.h + p - 1) / p, size.h as int);
    Rectangle { loc: Point { x: x1 as i32, y: y1 as i32 }, size: Size { w: sat(x2 - x1) as i32, h: sat(y2 - y1) as i32 } }
}

pub open spec fn level_area_fits(footprint: Rectangle, shift: nat, size: Size) -> bool {
    &&& shift <= 30
    &&& footprint.size.w >= 0
    &&& footprint.size.h >= 0
    &&& fits(footprint.loc.x + footprint.size.w)
    &&& fits(footprint.loc.y + footprint.size.h)
    &&& fits(footprint.loc.x + footprint.size.w + two_pow(shift))
    &&& fits(footprint.loc.y + footprint.size.h + two_pow(shift))
}

/// `footprint`, expressed in the pixels of a level `shift` halvings down.
pub fn level_area(footprint: Rectangle, shift: u32, size: Size) -> (a: Rectangle)
    requires
        level_area_fits(footprint, shift as nat, size),
    ensures
        a == spec_level_area(footprint, shift as nat, size),
{
    let p = pow2(shift);
    let lo_x = floor_div(footprint.loc.x as i64, p);
    let lo_y = floor_div(footprint.loc.y as i64, p);
    let hi_x = floor_div(footprint.loc.x as i64 + footprint.size.w as i64 + p - 1, p);
    let hi_y = floor_div(footprint.loc.y as i64 + footprint.size.h as i64 + p - 1, p);
    let x1 = if lo_x < size.w as i64 {
        lo_x
    } else {
        size.w as i64
    };
    let y1 = if lo_y < size.h as i64 {
        lo_y
    } else {
        size.h as i64
    };
    let x2 = if hi_x < size.w as i64 {
        hi_x
    } else {
        size.w as i64
    };
    let y2 = if hi_y < size.h as i64 {
        hi_y
    } else {
        size.h as i64
    };
    proof {
        assert(x1 <= x2 && y1 <= y2) by (nonlinear_arith)
            requires
                lo_x == footprint.loc.x as int / p as int,
                hi_x == (footprint.loc.x + footprint.size.w + p - 1) as int / p as int,
                lo_y == footprint.loc.y as int / p as int,
                hi_y == (footprint.loc.y + footprint.size.h + p - 1) as int / p as int,
                footprint.size.w >= 0,
                footprint.size.h >= 0,
                p >= 1,
                x1 == min(lo_x as int, size.w as int),
                x2 == min(hi_x as int, size.w as int),
                y1 == min(lo_y as int, size.h as int),
                y2 == min(hi_y as int, size.h as int),
        ;
    }
    proof {
        assert(fits(x1 as int) && fits(y1 as int) && fits(x2 as int) && fits(y2 as int)) by (nonlinear_arith)
            requires
                lo_x == footprint.loc.x as int / p as int,
                lo_y == footprint.loc.y as int / p as int,
                fits(footprint.loc.x as int),
                fits(footprint.loc.y as int),
                p >= 1,
                x1 == min(lo_x as int, size.w as int),
                y1 == min(lo_y as int, size.h as int),
                x1 <= x2 <= size.w,
                y1 <= y2 <= size.h,
        ;
    }
    Rectangle {
        loc: Point { x: x1 as i32, y: y1 as i32 },
        size: Size { w: sat_sub(x2 as i32, x1 as i32), h: sat_sub(y2 as i32, y1 as i32) },
    }
}

} // verus!
