use vstd::prelude::*;

verus! {

/// An axis-aligned hit region in screen coordinates, given by its center
/// point and its full width and height.
///
/// The extents are not validated: a zero extent admits only points exactly
/// on the matching center line, and a negative extent admits no point at
/// all, so degenerate regions simply never hit.
#[derive(Clone, Copy, PartialEq, Eq, Structural, Debug)]
pub struct HitRegion {
    pub x: i64,
    pub y: i64,
    pub width: i64,
    pub height: i64,
}

/// A cursor position sampled from the windowing system, in the same
/// screen coordinates as `HitRegion`.
#[derive(Clone, Copy, PartialEq, Eq, Structural, Debug)]
pub struct CursorPoint {
    pub x: i64,
    pub y: i64,
}

impl HitRegion {
    /// The placeholder region that holds from process start until the
    /// first bounds update arrives.
    pub fn initial() -> (r: HitRegion)
        ensures
            r == (HitRegion { x: 0, y: 0, width: 128, height: 128 }),
    {
        HitRegion { x: 0, y: 0, width: 128, height: 128 }
    }
}

/// The point `(px, py)` lies in the closed rectangle centered at
/// `(r.x, r.y)` with half-extents `r.width / 2` and `r.height / 2`.
/// Both sides of each inequality are scaled by two, so the condition is
/// exact for odd extents as well and a negative extent is unsatisfiable.
pub open spec fn region_contains(r: HitRegion, px: int, py: int) -> bool {
    &&& 2 * r.x - r.width <= 2 * px <= 2 * r.x + r.width
    &&& 2 * r.y - r.height <= 2 * py <= 2 * r.y + r.height
}

/// Closed-rectangle hit test: true exactly when the cursor lies within the
/// region, boundary points included.
pub fn hit_test(p: CursorPoint, r: HitRegion) -> (hit: bool)
    ensures
        hit == region_contains(r, p.x as int, p.y as int),
{
    let px2: i128 = 2 * (p.x as i128);
    let py2: i128 = 2 * (p.y as i128);
    let cx2: i128 = 2 * (r.x as i128);
    let cy2: i128 = 2 * (r.y as i128);
    let w: i128 = r.width as i128;
    let h: i128 = r.height as i128;
    cx2 - w <= px2 && px2 <= cx2 + w && cy2 - h <= py2 && py2 <= cy2 + h
}

/// For nonnegative extents the scaled containment test agrees with the
/// usual half-extent form: the point lies within `width / 2` of the center
/// column and within `height / 2` of the center row.
pub proof fn lemma_contains_iff_within_half_extents(r: HitRegion, px: int, py: int)
    requires
        r.width >= 0,
        r.height >= 0,
    ensures
        region_contains(r, px, py) <==> {
            &&& r.x - r.width / 2 <= px <= r.x + r.width / 2
            &&& r.y - r.height / 2 <= py <= r.y + r.height / 2
        },
{
    assert(r.width == 2 * (r.width / 2) + r.width % 2);
    assert(r.height == 2 * (r.height / 2) + r.height % 2);
}

/// Degenerate and inverted extents: a zero extent pins the matching
/// coordinate to the center exactly, and a negative extent admits no
/// point whatever the other extent is.
pub proof fn lemma_degenerate_region(r: HitRegion, px: int, py: int)
    ensures
        r.width == 0 ==> (region_contains(r, px, py) <==> px == r.x && 2 * r.y - r.height <= 2
            * py <= 2 * r.y + r.height),
        r.height == 0 ==> (region_contains(r, px, py) <==> py == r.y && 2 * r.x - r.width <= 2
            * px <= 2 * r.x + r.width),
        r.width == 0 && r.height == 0 ==> (region_contains(r, px, py) <==> px == r.x && py
            == r.y),
        r.width < 0 ==> !region_contains(r, px, py),
        r.height < 0 ==> !region_contains(r, px, py),
{
}

} // verus!
