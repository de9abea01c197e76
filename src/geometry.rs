use vstd::prelude::*;

verus! {

/// A point on the screen, in fixed-point pixel units.
#[derive(Clone, Copy, Debug, PartialEq, Eq, Structural)]
pub struct ScreenPoint {
    pub x: i64,
    pub y: i64,
}

/// An axis-aligned screen rectangle given by its lower and upper corners.
#[derive(Clone, Copy, Debug, PartialEq, Eq, Structural)]
pub struct SelectionRectScreen {
    pub min: ScreenPoint,
    pub max: ScreenPoint,
}

pub open spec fn min_int(a: int, b: int) -> int {
    if a <= b { a } else { b }
}

pub open spec fn max_int(a: int, b: int) -> int {
    if a <= b { b } else { a }
}

/// `v` lies in the closed interval spanned by `a` and `b`, in either order.
pub open spec fn between(v: int, a: int, b: int) -> bool {
    min_int(a, b) <= v <= max_int(a, b)
}

/// `p` lies in the closed axis-aligned rectangle with opposite corners `c1` and `c2`.
pub open spec fn in_rect(p: ScreenPoint, c1: ScreenPoint, c2: ScreenPoint) -> bool {
    between(p.x as int, c1.x as int, c2.x as int) && between(p.y as int, c1.y as int, c2.y as int)
}

/// The closed intervals spanned by `a1, a2` and by `b1, b2` share a point.
pub open spec fn intervals_overlap(a1: int, a2: int, b1: int, b2: int) -> bool {
    min_int(a1, a2) <= max_int(b1, b2) && min_int(b1, b2) <= max_int(a1, a2)
}

/// The closed rectangles with opposite corners `(a1, a2)` and `(b1, b2)`
/// share a point (touching edges count).
pub open spec fn rects_overlap(
    a1: ScreenPoint,
    a2: ScreenPoint,
    b1: ScreenPoint,
    b2: ScreenPoint,
) -> bool {
    intervals_overlap(a1.x as int, a2.x as int, b1.x as int, b2.x as int)
        && intervals_overlap(a1.y as int, a2.y as int, b1.y as int, b2.y as int)
}

fn min_i64(a: i64, b: i64) -> (r: i64)
    ensures
        r == min_int(a as int, b as int),
{
    if a <= b {
        a
    } else {
        b
    }
}

fn max_i64(a: i64, b: i64) -> (r: i64)
    ensures
        r == max_int(a as int, b as int),
{
    if a <= b {
        b
    } else {
        a
    }
}

/// Whether `position` lies in the rectangle spanned by the two corners,
/// borders included; the corners may be given in any order.
pub fn helper_in_rect(
    position: &ScreenPoint,
    corner_1: &ScreenPoint,
    corner_2: &ScreenPoint,
) -> (r: bool)
    ensures
        r == in_rect(*position, *corner_1, *corner_2),
{
    let min_x = min_i64(corner_1.x, corner_2.x);
    let max_x = max_i64(corner_1.x, corner_2.x);
    let min_y = min_i64(corner_1.y, corner_2.y);
    let max_y = max_i64(corner_1.y, corner_2.y);
    position.x >= min_x && position.x <= max_x && position.y >= min_y && position.y <= max_y
}

/// Whether two rectangles, each given by two opposite corners in any order,
/// share a point. Tests whether the lower-left corner of either lies within
/// the span of the other on each axis.
pub fn helper_rect_in_rect(
    r1: (&ScreenPoint, &ScreenPoint),
    r2: (&ScreenPoint, &ScreenPoint),
) -> (r: bool)
    ensures
        r == rects_overlap(*r1.0, *r1.1, *r2.0, *r2.1),
{
    let min_x = min_i64(r1.0.x, r1.1.x);
    let max_x = max_i64(r1.0.x, r1.1.x);
    let min_y = min_i64(r1.0.y, r1.1.y);
    let max_y = max_i64(r1.0.y, r1.1.y);

    let other_min_x = min_i64(r2.0.x, r2.1.x);
    let other_max_x = max_i64(r2.0.x, r2.1.x);
    let other_min_y = min_i64(r2.0.y, r2.1.y);
    let other_max_y = max_i64(r2.0.y, r2.1.y);

    let other_x_touch = min_x <= other_min_x && other_min_x <= max_x;
    let other_y_touch = min_y <= other_min_y && other_min_y <= max_y;
    let x_touch = other_min_x <= min_x && min_x <= other_max_x;
    let y_touch = other_min_y <= min_y && min_y <= other_max_y;
    (other_x_touch || x_touch) && (other_y_touch || y_touch)
}

/// The rectangle normalised from two opposite corners given in any order.
pub open spec fn normalized(c1: ScreenPoint, c2: ScreenPoint) -> SelectionRectScreen {
    SelectionRectScreen {
        min: ScreenPoint {
            x: min_int(c1.x as int, c2.x as int) as i64,
            y: min_int(c1.y as int, c2.y as int) as i64,
        },
        max: ScreenPoint {
            x: max_int(c1.x as int, c2.x as int) as i64,
            y: max_int(c1.y as int, c2.y as int) as i64,
        },
    }
}

/// `rect` is the tightest rectangle holding every point of `pts`: each bound
/// is met or exceeded by no point, and is reached by some point.
pub open spec fn is_bounding_rect(pts: Seq<ScreenPoint>, rect: SelectionRectScreen) -> bool {
    &&& forall|i: int|
        0 <= i < pts.len() ==> rect.min.x <= #[trigger] pts[i].x <= rect.max.x && rect.min.y
            <= pts[i].y <= rect.max.y
    &&& exists|i: int| 0 <= i < pts.len() && pts[i].x == rect.min.x
    &&& exists|i: int| 0 <= i < pts.len() && pts[i].x == rect.max.x
    &&& exists|i: int| 0 <= i < pts.len() && pts[i].y == rect.min.y
    &&& exists|i: int| 0 <= i < pts.len() && pts[i].y == rect.max.y
}

/// Normalises two opposite corners into a rectangle with `min <= max` on both axes.
pub fn normalize_rect(c1: &ScreenPoint, c2: &ScreenPoint) -> (r: SelectionRectScreen)
    ensures
        r == normalized(*c1, *c2),
{
    SelectionRectScreen {
        min: ScreenPoint { x: min_i64(c1.x, c2.x), y: min_i64(c1.y, c2.y) },
        max: ScreenPoint { x: max_i64(c1.x, c2.x), y: max_i64(c1.y, c2.y) },
    }
}

/// The bounding rectangle of a set of points; `None` when there are none.
pub fn get_min_max(points: &Vec<ScreenPoint>) -> (r: Option<SelectionRectScreen>)
    ensures
        r is None <==> points@.len() == 0,
        r matches Some(rect) ==> is_bounding_rect(points@, rect),
{
    if points.len() == 0 {
        return None;
    }
    let first = points[0];
    let mut min_x: i64 = first.x;
    let mut max_x: i64 = first.x;
    let mut min_y: i64 = first.y;
    let mut max_y: i64 = first.y;
    let mut ix_min_x: usize = 0;
    let mut ix_max_x: usize = 0;
    let mut ix_min_y: usize = 0;
    let mut ix_max_y: usize = 0;
    let mut k: usize = 1;
    while k < points.len()
        invariant
            1 <= k <= points@.len(),
            ix_min_x < k && points@[ix_min_x as int].x == min_x,
            ix_max_x < k && points@[ix_max_x as int].x == max_x,
            ix_min_y < k && points@[ix_min_y as int].y == min_y,
            ix_max_y < k && points@[ix_max_y as int].y == max_y,
            forall|i: int|
                0 <= i < k ==> min_x <= #[trigger] points@[i].x <= max_x && min_y
                    <= points@[i].y <= max_y,
        decreases points@.len() - k,
    {
        let p = points[k];
        if p.x < min_x {
            min_x = p.x;
            ix_min_x = k;
        }
        if p.x > max_x {
            max_x = p.x;
            ix_max_x = k;
        }
        if p.y < min_y {
            min_y = p.y;
            ix_min_y = k;
        }
        if p.y > max_y {
            max_y = p.y;
            ix_max_y = k;
        }
        assert(min_x <= points@[k as int].x <= max_x && min_y <= points@[k as int].y <= max_y);
        k = k + 1;
    }
    let rect = SelectionRectScreen {
        min: ScreenPoint { x: min_x, y: min_y },
        max: ScreenPoint { x: max_x, y: max_y },
    };
    assert(points@[ix_min_x as int].x == rect.min.x);
    assert(points@[ix_max_x as int].x == rect.max.x);
    assert(points@[ix_min_y as int].y == rect.min.y);
    assert(points@[ix_max_y as int].y == rect.max.y);
    Some(rect)
}

/// The screen rectangle of an object from the projections of its corners.
/// A corner that could not be projected (`None`) leaves the object without a
/// rectangle, so that it takes no part in hit-testing.
pub fn convert_box_to_rect(projected: &Vec<Option<ScreenPoint>>) -> (r: Option<SelectionRectScreen>)
    ensures
        r is Some <==> projected@.len() > 0 && forall|i: int|
            0 <= i < projected@.len() ==> #[trigger] projected@[i] is Some,
        r matches Some(rect) ==> is_bounding_rect(projected@.map_values(|o: Option<ScreenPoint>| o->0), rect),
{
    let mut pts: Vec<ScreenPoint> = Vec::new();
    let mut k: usize = 0;
    while k < projected.len()
        invariant
            k <= projected@.len(),
            forall|i: int| 0 <= i < k ==> #[trigger] projected@[i] is Some,
            pts@ == projected@.subrange(0, k as int).map_values(|o: Option<ScreenPoint>| o->0),
        decreases projected@.len() - k,
    {
        match projected[k] {
            Some(p) => pts.push(p),
            None => return None,
        }
        assert(pts@ =~= projected@.subrange(0, k + 1).map_values(|o: Option<ScreenPoint>| o->0));
        k = k + 1;
    }
    assert(projected@.subrange(0, k as int) =~= projected@);
    get_min_max(&pts)
}

/// Two calls of `helper_in_rect` that differ only in the order of the
/// corners agree: the corners span the same rectangle either way.
pub proof fn lemma_in_rect_corner_symmetric(p: ScreenPoint, c1: ScreenPoint, c2: ScreenPoint)
    ensures
        in_rect(p, c1, c2) == in_rect(p, c2, c1),
{
}

/// Rectangle overlap does not depend on which rectangle comes first.
pub proof fn lemma_rects_overlap_symmetric(
    a1: ScreenPoint,
    a2: ScreenPoint,
    b1: ScreenPoint,
    b2: ScreenPoint,
)
    ensures
        rects_overlap(a1, a2, b1, b2) == rects_overlap(b1, b2, a1, a2),
{
}

} // verus!
