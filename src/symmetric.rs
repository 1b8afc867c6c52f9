//! Mirror algebra: reflection of a placement across a vertical axis, and the
//! helpers that restrict sampling to the left half of the strip.
use vstd::prelude::*;

verus! {

/// Rotations are measured counter-clockwise from the +x axis in millidegrees,
/// so half a turn is this many units.
pub const HALF_TURN: i64 = 180000;

/// A rigid placement: translation `(x, y)` and rotation `r` (in millidegrees).
#[derive(Clone, Copy, Debug, PartialEq, Eq, Structural)]
pub struct Transform {
    pub x: i64,
    pub y: i64,
    pub r: i64,
}

impl Transform {
    pub fn new(r: i64, x: i64, y: i64) -> (t: Transform)
        ensures
            t == (Transform { x, y, r }),
    {
        Transform { x, y, r }
    }
}

/// The mirror of `t` across the axis exists in machine integers. Axes are given
/// doubled: `axis_x2` is twice the axis's x-coordinate, so that the axis of a
/// strip of any integer width (its width halved) is held exactly.
pub open spec fn mirror_fits(t: Transform, axis_x2: int) -> bool {
    &&& i64::MIN <= axis_x2 - t.x <= i64::MAX
    &&& i64::MIN <= HALF_TURN - t.r <= i64::MAX
}

/// Reflection across the vertical line `x = axis_x2 / 2`: `x ↦ axis_x2 − x`
/// (that is `2·axis − x`), `y ↦ y`, `r ↦ π − r`.
pub open spec fn mirror_of(t: Transform, axis_x2: int) -> Transform {
    Transform { x: (axis_x2 - t.x) as i64, y: t.y, r: (HALF_TURN - t.r) as i64 }
}

/// Whether the mirror of `t` across the axis `axis_x2 / 2` can be represented.
pub fn can_mirror(t: Transform, axis_x2: i64) -> (b: bool)
    ensures
        b == mirror_fits(t, axis_x2 as int),
{
    let x = (axis_x2 as i128) - (t.x as i128);
    let r = HALF_TURN as i128 - (t.r as i128);
    i64::MIN as i128 <= x && x <= i64::MAX as i128 && i64::MIN as i128 <= r && r <= i64::MAX as i128
}

/// Computes the mirror of a placement around the symmetry axis `axis_x2 / 2`.
pub fn mirror_transformation(t: Transform, axis_x2: i64) -> (m: Transform)
    requires
        mirror_fits(t, axis_x2 as int),
    ensures
        m == mirror_of(t, axis_x2 as int),
        m.x + t.x == axis_x2,
        m.y == t.y,
        m.r == HALF_TURN - t.r,
{
    let x = (axis_x2 as i128) - (t.x as i128);
    let r = HALF_TURN - t.r;
    Transform { x: x as i64, y: t.y, r }
}

/// Mirroring twice across the same axis gives back the original placement.
pub proof fn lemma_mirror_involutive(t: Transform, axis_x2: int)
    requires
        mirror_fits(t, axis_x2),
    ensures
        mirror_fits(mirror_of(t, axis_x2), axis_x2),
        mirror_of(mirror_of(t, axis_x2), axis_x2) == t,
{
}

/// The mirror lies as far beyond the axis as the original lies before it, at the
/// same height: `mirror.x + t.x == 2·axis`.
pub proof fn lemma_mirror_axis(t: Transform, axis_x2: int)
    requires
        mirror_fits(t, axis_x2),
    ensures
        mirror_of(t, axis_x2).x + t.x == axis_x2,
        mirror_of(t, axis_x2).y == t.y,
{
}

/// A placement may be sampled in symmetric mode only on the left of the axis
/// `axis_x2 / 2` (or on it).
pub fn is_in_valid_region(t: Transform, axis_x2: i64) -> (b: bool)
    ensures
        b == (2 * t.x <= axis_x2),
{
    2 * (t.x as i128) <= axis_x2 as i128
}

/// An axis-aligned rectangle; a well-formed one has positive width and height.
#[derive(Clone, Copy, Debug, PartialEq, Eq, Structural)]
pub struct Rect {
    pub x_min: i64,
    pub y_min: i64,
    pub x_max: i64,
    pub y_max: i64,
}

impl Rect {
    pub open spec fn wf(self) -> bool {
        self.x_min < self.x_max && self.y_min < self.y_max
    }

    /// Builds a rectangle from its corners, or `None` when it would be empty.
    pub fn try_new(x_min: i64, y_min: i64, x_max: i64, y_max: i64) -> (r: Option<Rect>)
        ensures
            r == (if x_min < x_max && y_min < y_max {
                Some(Rect { x_min, y_min, x_max, y_max })
            } else {
                None
            }),
    {
        if x_min < x_max && y_min < y_max {
            Some(Rect { x_min, y_min, x_max, y_max })
        } else {
            None
        }
    }
}

/// A rectangle whose right edge is held doubled, like the symmetry axis, so
/// that it can stand exactly at half a length unit. It covers the points with
/// `x_min <= x <= x_max2 / 2` and `y_min <= y <= y_max`.
#[derive(Clone, Copy, Debug, PartialEq, Eq, Structural)]
pub struct SampleRegion {
    pub x_min: i64,
    pub y_min: i64,
    pub x_max2: i64,
    pub y_max: i64,
}

impl SampleRegion {
    /// A placement whose translation lies in the region.
    pub open spec fn contains(self, t: Transform) -> bool {
        self.x_min <= t.x && 2 * t.x <= self.x_max2 && self.y_min <= t.y <= self.y_max
    }
}

/// The region from which candidates are drawn in symmetric mode: the container
/// clipped on the right exactly at the axis `axis_x2 / 2`. `None` when nothing
/// of the container lies left of the axis.
pub fn get_symmetric_sample_bbox(container_bbox: Rect, axis_x2: i64) -> (r: Option<SampleRegion>)
    ensures
        r == (if 2 * container_bbox.x_min < axis_x2 && container_bbox.y_min < container_bbox.y_max {
            Some(
                SampleRegion {
                    x_min: container_bbox.x_min,
                    y_min: container_bbox.y_min,
                    x_max2: axis_x2,
                    y_max: container_bbox.y_max,
                },
            )
        } else {
            None
        }),
{
    if 2 * (container_bbox.x_min as i128) < axis_x2 as i128 && container_bbox.y_min < container_bbox.y_max {
        Some(
            SampleRegion {
                x_min: container_bbox.x_min,
                y_min: container_bbox.y_min,
                x_max2: axis_x2,
                y_max: container_bbox.y_max,
            },
        )
    } else {
        None
    }
}

/// Every placement drawn from the symmetric sample region of a container lies
/// inside the container and in the valid (left) half.
pub proof fn lemma_sample_region_valid(container_bbox: Rect, axis_x2: i64, r: SampleRegion, t: Transform)
    requires
        container_bbox.wf(),
        2 * container_bbox.x_min < axis_x2 <= 2 * container_bbox.x_max,
        r == (SampleRegion {
            x_min: container_bbox.x_min,
            y_min: container_bbox.y_min,
            x_max2: axis_x2,
            y_max: container_bbox.y_max,
        }),
        r.contains(t),
    ensures
        2 * t.x <= axis_x2,
        container_bbox.x_min <= t.x <= container_bbox.x_max,
        container_bbox.y_min <= t.y <= container_bbox.y_max,
{
}

/// Configuration of symmetric packing: where the axis stands and whether the
/// mode is on.
#[derive(Clone, Copy, Debug, PartialEq, Eq, Structural)]
pub struct SymmetricConfig {
    /// Twice the x-coordinate of the symmetry axis; the axis stands at half the
    /// strip width, so this is the strip width itself.
    pub axis_x2: i64,
    pub enabled: bool,
}

impl SymmetricConfig {
    /// The axis stands exactly at `strip_width / 2`.
    pub fn new(strip_width: i64, enabled: bool) -> (c: SymmetricConfig)
        ensures
            c.axis_x2 == strip_width,
            c.enabled == enabled,
    {
        SymmetricConfig { axis_x2: strip_width, enabled }
    }

    pub fn disabled() -> (c: SymmetricConfig)
        ensures
            c.axis_x2 == 0,
            !c.enabled,
    {
        SymmetricConfig { axis_x2: 0, enabled: false }
    }

    /// Moves the axis to the middle of a strip of the new width.
    pub fn update_axis(&mut self, new_strip_width: i64)
        ensures
            final(self).axis_x2 == new_strip_width,
            final(self).enabled == old(self).enabled,
    {
        self.axis_x2 = new_strip_width;
    }
}

} // verus!
