//! Input-to-color mapping: a clear color in fixed point, driven by pointer
//! position and scroll input, with a lock toggle that pauses updates.

use vstd::prelude::*;

verus! {

/// One full unit of a normalized color channel, in millionths.
pub const COLOR_ONE: u64 = 1_000_000;

/// Green-channel change per scroll line: a fifth of a unit.
pub const SCROLL_STEP: u64 = 200_000;

/// A clear color; each channel is a nonnegative value in millionths of a
/// unit, so `COLOR_ONE` stands for 1.0. Red and blue may exceed one unit
/// when the pointer leaves the surface; green is kept clamped to [0, 1].
#[derive(Clone, Copy, PartialEq, Eq, Structural, Debug)]
pub struct ClearColor {
    pub r: u64,
    pub g: u64,
    pub b: u64,
    pub a: u64,
}

/// The fully opaque white the model starts from.
pub open spec fn white() -> ClearColor {
    ClearColor { r: COLOR_ONE, g: COLOR_ONE, b: COLOR_ONE, a: COLOR_ONE }
}

/// `x / w` as a channel value in millionths, rounded down.
pub open spec fn scaled_ratio(x: int, w: int) -> int {
    (x * (COLOR_ONE as int)) / w
}

/// Clamp a channel value to [0, COLOR_ONE].
pub open spec fn clamp_unit(v: int) -> int {
    if v < 0 {
        0
    } else if v > COLOR_ONE as int {
        COLOR_ONE as int
    } else {
        v
    }
}

/// The green channel after scrolling by `delta` lines: a fifth of a unit per
/// line, clamped to [0, COLOR_ONE].
pub open spec fn scrolled_green(g: int, delta: int) -> int {
    clamp_unit(g + delta * (SCROLL_STEP as int))
}

/// Mutable input state: the current clear color, the lock gating color
/// updates, and the last observed pointer position.
pub struct InputColorModel {
    pub color: ClearColor,
    pub locked: bool,
    pub last_x: u32,
    pub last_y: u32,
}

/// The state a pointer move to `(x, y)` over a `w` by `h` surface leads to:
/// the position is always recorded; red and blue become `x/w` and `y/h`
/// unless the lock is on or a dimension is zero.
pub open spec fn spec_pointer_move(
    m: InputColorModel,
    x: u32,
    y: u32,
    w: u32,
    h: u32,
) -> InputColorModel {
    let recolored = if !m.locked && w > 0 && h > 0 {
        ClearColor {
            r: scaled_ratio(x as int, w as int) as u64,
            b: scaled_ratio(y as int, h as int) as u64,
            ..m.color
        }
    } else {
        m.color
    };
    InputColorModel { color: recolored, last_x: x, last_y: y, ..m }
}

/// The state a scroll by `delta` lines leads to: green moves by a fifth of a
/// unit per line and is clamped, unless the lock is on.
pub open spec fn spec_scroll(m: InputColorModel, delta: i32) -> InputColorModel {
    if !m.locked {
        InputColorModel {
            color: ClearColor {
                g: scrolled_green(m.color.g as int, delta as int) as u64,
                ..m.color
            },
            ..m
        }
    } else {
        m
    }
}

/// The state a primary-button press leads to: the lock flips, and then red
/// and blue are re-derived once from the last recorded pointer position,
/// whatever the new lock state (degenerate dimensions leave them alone).
pub open spec fn spec_primary_press(m: InputColorModel, w: u32, h: u32) -> InputColorModel {
    let flipped = InputColorModel { locked: !m.locked, ..m };
    let recolored = if w > 0 && h > 0 {
        ClearColor {
            r: scaled_ratio(m.last_x as int, w as int) as u64,
            b: scaled_ratio(m.last_y as int, h as int) as u64,
            ..m.color
        }
    } else {
        m.color
    };
    InputColorModel { color: recolored, ..flipped }
}

/// The starting input state: opaque white, unlocked, pointer at the origin.
pub open spec fn initial_colors() -> InputColorModel {
    InputColorModel { color: white(), locked: false, last_x: 0, last_y: 0 }
}

impl InputColorModel {
    /// The green channel never leaves [0, COLOR_ONE]; every operation keeps
    /// this, so scroll arithmetic cannot overflow.
    pub open spec fn wf(self) -> bool {
        self.color.g <= COLOR_ONE
    }

    /// Fully opaque white, unlocked, pointer at the origin.
    pub fn new() -> (m: InputColorModel)
        ensures
            m == initial_colors(),
            m.color == white(),
            !m.locked,
            m.last_x == 0,
            m.last_y == 0,
            m.wf(),
    {
        InputColorModel {
            color: ClearColor { r: COLOR_ONE, g: COLOR_ONE, b: COLOR_ONE, a: COLOR_ONE },
            locked: false,
            last_x: 0,
            last_y: 0,
        }
    }

    /// Record the pointer at `(x, y)` over a `w` by `h` surface and, unless
    /// locked or a dimension is zero, drive red to `x/w` and blue to `y/h`.
    pub fn on_pointer_move(&mut self, x: u32, y: u32, w: u32, h: u32)
        requires
            old(self).wf(),
        ensures
            *final(self) == spec_pointer_move(*old(self), x, y, w, h),
            final(self).wf(),
    {
        self.last_x = x;
        self.last_y = y;
        if !self.locked && w > 0 && h > 0 {
            self.color.r = ((x as u64) * COLOR_ONE) / (w as u64);
            self.color.b = ((y as u64) * COLOR_ONE) / (h as u64);
        }
    }

    /// Unless locked, move green by a fifth of a unit per scroll line,
    /// clamped to [0, COLOR_ONE].
    pub fn on_scroll(&mut self, delta: i32)
        requires
            old(self).wf(),
        ensures
            *final(self) == spec_scroll(*old(self), delta),
            final(self).wf(),
    {
        if !self.locked {
            let step: i64 = (delta as i64) * 200_000i64;
            let sum: i64 = (self.color.g as i64) + step;
            self.color.g = if sum < 0 {
                0
            } else if sum > COLOR_ONE as i64 {
                COLOR_ONE
            } else {
                sum as u64
            };
        }
    }

    /// Flip the lock, then re-derive red and blue once from the last
    /// recorded pointer position over a `w` by `h` surface, whatever the
    /// new lock state; zero dimensions leave the color untouched.
    pub fn on_primary_press(&mut self, w: u32, h: u32)
        requires
            old(self).wf(),
        ensures
            *final(self) == spec_primary_press(*old(self), w, h),
            final(self).wf(),
    {
        self.locked = !self.locked;
        if w > 0 && h > 0 {
            self.color.r = ((self.last_x as u64) * COLOR_ONE) / (w as u64);
            self.color.b = ((self.last_y as u64) * COLOR_ONE) / (h as u64);
        }
    }
}

/// With the lock off and positive surface dimensions, a pointer move drives
/// red to exactly `x/w` and blue to exactly `y/h` (in millionths, rounded
/// down), and leaves green and alpha unchanged.
pub proof fn lemma_pointer_sets_red_blue(m: InputColorModel, x: u32, y: u32, w: u32, h: u32)
    requires
        !m.locked,
        w > 0,
        h > 0,
    ensures
        spec_pointer_move(m, x, y, w, h).color.r as int == scaled_ratio(x as int, w as int),
        spec_pointer_move(m, x, y, w, h).color.b as int == scaled_ratio(y as int, h as int),
        spec_pointer_move(m, x, y, w, h).color.g == m.color.g,
        spec_pointer_move(m, x, y, w, h).color.a == m.color.a,
{
    lemma_ratio_fits(x, w);
    lemma_ratio_fits(y, h);
}

/// A pointer move over a surface with a zero dimension records the position
/// but leaves the color exactly as it was.
pub proof fn lemma_pointer_degenerate_is_noop(m: InputColorModel, x: u32, y: u32, w: u32, h: u32)
    requires
        w == 0 || h == 0,
    ensures
        spec_pointer_move(m, x, y, w, h).color == m.color,
        spec_pointer_move(m, x, y, w, h).locked == m.locked,
{
}

/// The scaled ratio of two u32 values fits in a u64, so the spec-level cast
/// in the transition functions never truncates.
pub proof fn lemma_ratio_fits(x: u32, w: u32)
    requires
        w > 0,
    ensures
        0 <= scaled_ratio(x as int, w as int) <= (u32::MAX as int) * (COLOR_ONE as int),
        scaled_ratio(x as int, w as int) as u64 as int == scaled_ratio(x as int, w as int),
{
    let p = (x as int) * (COLOR_ONE as int);
    assert(0 <= p <= (u32::MAX as int) * (COLOR_ONE as int));
    vstd::arithmetic::div_mod::lemma_div_pos_is_pos(p, w as int);
    vstd::arithmetic::div_mod::lemma_div_is_ordered_by_denominator(p, 1, w as int);
    vstd::arithmetic::div_mod::lemma_div_basics(p);
}

/// Scrolling cannot push green past its bounds: at a full unit any further
/// upward scroll leaves it pinned there, and at zero any further downward
/// scroll leaves it at zero.
pub proof fn lemma_scroll_pinned_at_bounds(g: int, delta: int)
    ensures
        g == COLOR_ONE && delta >= 0 ==> scrolled_green(g, delta) == COLOR_ONE,
        g == 0 && delta <= 0 ==> scrolled_green(g, delta) == 0,
{
    if delta >= 0 {
        vstd::arithmetic::mul::lemma_mul_nonnegative(delta, SCROLL_STEP as int);
    } else {
        assert(delta * (SCROLL_STEP as int) <= 0) by (nonlinear_arith)
            requires
                delta <= 0,
        ;
    }
}

/// A primary press always flips the lock, and the lock alone gates pointer
/// input: if the press engaged the lock, a subsequent pointer move records
/// the position but cannot change the color; if it released the lock, a
/// subsequent move over a live surface drives red and blue to the derived
/// values.
pub proof fn lemma_lock_gates_pointer(m: InputColorModel, x: u32, y: u32, w: u32, h: u32)
    ensures
        spec_primary_press(m, w, h).locked == !m.locked,
        spec_primary_press(m, w, h).locked ==> spec_pointer_move(
            spec_primary_press(m, w, h),
            x,
            y,
            w,
            h,
        ).color == spec_primary_press(m, w, h).color,
        !spec_primary_press(m, w, h).locked && w > 0 && h > 0 ==> spec_pointer_move(
            spec_primary_press(m, w, h),
            x,
            y,
            w,
            h,
        ).color.r as int == scaled_ratio(x as int, w as int) && spec_pointer_move(
            spec_primary_press(m, w, h),
            x,
            y,
            w,
            h,
        ).color.b as int == scaled_ratio(y as int, h as int),
{
    if !spec_primary_press(m, w, h).locked && w > 0 && h > 0 {
        lemma_pointer_sets_red_blue(spec_primary_press(m, w, h), x, y, w, h);
    }
}

} // verus!
