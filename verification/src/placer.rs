//! Placing a popup beside its target: at one fixed anchor, or at the anchor
//! that keeps most of the popup inside the viewport.

use vstd::prelude::*;
use crate::anchor::{lemma_declared_order, Alignment, Anchor, Side, ANCHOR_COUNT};
use crate::geometry::{
    in_range, lemma_full_area_is_enclosed, lemma_intersection_of_enclosed, lemma_intersection_within,
    model_of, Rect, Rectangle, Vec2, Vector,
};

verus! {

/// Where a popup of extent `size` goes at `anchor`: beside the target, or at
/// the origin when there is no target to sit beside.
pub open spec fn placement(anchor: Anchor, target: Option<Rectangle>, size: Vector) -> Vector {
    match target {
        Some(t) => anchor.position(t, size),
        None => Vector::zero(),
    }
}

/// Target and popup size are well formed, and `anchor` gives the popup a
/// position that a [`Vec2`] can hold.
pub open spec fn placeable_at(anchor: Anchor, target: Rectangle, size: Vector) -> bool {
    &&& target.valid()
    &&& size.is_extent()
    &&& anchor.position(target, size).fits()
}

/// Target and popup size are well formed, and every anchor of the target
/// gives the popup a position that a [`Vec2`] can hold.
pub open spec fn placeable(target: Rectangle, size: Vector) -> bool {
    &&& target.valid()
    &&& size.is_extent()
    &&& target.position.minus(size).fits()
    &&& target.end().fits()
}

/// How much of `popup` the viewport shows: the area that the two have in
/// common, or -1 when they have nothing in common. A popup that only touches
/// the viewport's edge scores 0 and so ranks above one that is off screen.
pub open spec fn visibility(popup: Rectangle, viewport: Rectangle) -> int {
    match popup.intersection(viewport) {
        Some(common) => common.area(),
        None => -1,
    }
}

/// The visibility of the popup at `anchor`.
pub open spec fn score(anchor: Anchor, target: Rectangle, size: Vector, viewport: Rectangle) -> int {
    visibility(anchor.candidate(target, size), viewport)
}

/// `anchor` scores at least as high as every other anchor, and strictly
/// higher than every anchor declared before it.
pub open spec fn is_best(anchor: Anchor, target: Rectangle, size: Vector, viewport: Rectangle) -> bool {
    &&& forall|other: Anchor| #[trigger]
        score(other, target, size, viewport) <= score(anchor, target, size, viewport)
    &&& forall|other: Anchor|
        other.ordinal() < anchor.ordinal() ==> #[trigger] score(other, target, size, viewport) < score(
            anchor,
            target,
            size,
            viewport,
        )
}

/// The anchor that smart placement settles on.
pub open spec fn smart_anchor(target: Rectangle, size: Vector, viewport: Rectangle) -> Anchor {
    choose|anchor: Anchor| is_best(anchor, target, size, viewport)
}

/// Where smart placement puts a popup of extent `size`: at the best anchor of
/// the target, or at the origin when target or viewport is missing.
pub open spec fn smart_placement(
    target: Option<Rectangle>,
    size: Vector,
    viewport: Option<Rectangle>,
) -> Vector {
    match (target, viewport) {
        (Some(t), Some(v)) => smart_anchor(t, size, v).position(t, size),
        _ => Vector::zero(),
    }
}

/// Every anchor of a placeable target yields a position within the span
/// from `position - size` to `end()`, which a [`Vec2`] can hold.
pub proof fn lemma_placeable(anchor: Anchor, target: Rectangle, size: Vector)
    requires
        placeable(target, size),
    ensures
        placeable_at(anchor, target, size),
        target.position.x - size.x <= anchor.position(target, size).x <= target.end().x,
        target.position.y - size.y <= anchor.position(target, size).y <= target.end().y,
{
}

/// The popup lies against the outside of the given side of the target: the
/// two share the line through that side.
pub open spec fn adjoins(popup: Rectangle, target: Rectangle, side: Side) -> bool {
    match side {
        Side::Top => popup.end().y == target.position.y,
        Side::Bottom => popup.position.y == target.end().y,
        Side::Left => popup.end().x == target.position.x,
        Side::Right => popup.position.x == target.end().x,
    }
}

/// Along the given side of the target, the popup starts where the target
/// starts, ends where it ends, or has its middle where the target has its
/// middle.
pub open spec fn aligned(popup: Rectangle, target: Rectangle, side: Side, alignment: Alignment) -> bool {
    match side {
        Side::Top | Side::Bottom => match alignment {
            Alignment::Near => popup.position.x == target.position.x,
            Alignment::Center => popup.center().x == target.center().x,
            Alignment::Far => popup.end().x == target.end().x,
        },
        Side::Left | Side::Right => match alignment {
            Alignment::Near => popup.position.y == target.position.y,
            Alignment::Center => popup.center().y == target.center().y,
            Alignment::Far => popup.end().y == target.end().y,
        },
    }
}

/// At every anchor the popup lies against the side of the target that the
/// anchor names, aligned along that side as the anchor says.
pub proof fn lemma_anchor_adjoins_target(anchor: Anchor, target: Rectangle, size: Vector)
    ensures
        adjoins(anchor.candidate(target, size), target, anchor.side()),
        aligned(anchor.candidate(target, size), target, anchor.side(), anchor.alignment()),
{
}

/// At an anchor that centres the popup, the position lies within half a unit
/// of the exact middle: along the target's side, twice the position differs
/// from `2 * target.position + target.size - size` by at most 1, and by
/// nothing where the two extents are both even or both odd. Across the side
/// the position is exact.
pub proof fn lemma_center_anchor_within_half_unit(anchor: Anchor, target: Rectangle, size: Vector)
    requires
        anchor.alignment() == Alignment::Center,
    ensures
        match anchor.side() {
            Side::Top | Side::Bottom => {
                let exact_twice = 2 * target.position.x + target.size.x - size.x;
                &&& -1 <= 2 * anchor.position(target, size).x - exact_twice <= 1
                &&& target.size.x % 2 == size.x % 2 ==> 2 * anchor.position(target, size).x
                    == exact_twice
            },
            Side::Left | Side::Right => {
                let exact_twice = 2 * target.position.y + target.size.y - size.y;
                &&& -1 <= 2 * anchor.position(target, size).y - exact_twice <= 1
                &&& target.size.y % 2 == size.y % 2 ==> 2 * anchor.position(target, size).y
                    == exact_twice
            },
        },
{
}

/// A score is -1 or an area, and no area exceeds that of the popup.
pub proof fn lemma_score_bounds(anchor: Anchor, target: Rectangle, size: Vector, viewport: Rectangle)
    requires
        size.is_extent(),
        viewport.valid(),
    ensures
        -1 <= score(anchor, target, size, viewport) <= size.x * size.y,
        score(anchor, target, size, viewport) == -1 <==> !anchor.candidate(target, size).meets(viewport),
{
    let popup = anchor.candidate(target, size);
    lemma_intersection_within(popup, viewport);
    assert(0 <= size.x * size.y) by (nonlinear_arith)
        requires
            0 <= size.x,
            0 <= size.y,
    ;
}

/// Among the first `count` anchors there is one that scores at least as high
/// as each of them and strictly higher than those before it.
proof fn lemma_best_among(target: Rectangle, size: Vector, viewport: Rectangle, count: int) -> (best: Anchor)
    requires
        1 <= count <= ANCHOR_COUNT,
    ensures
        best.ordinal() < count,
        forall|other: Anchor|
            other.ordinal() < count ==> #[trigger] score(other, target, size, viewport) <= score(
                best,
                target,
                size,
                viewport,
            ),
        forall|other: Anchor|
            other.ordinal() < best.ordinal() ==> #[trigger] score(other, target, size, viewport) < score(
                best,
                target,
                size,
                viewport,
            ),
    decreases count,
{
    lemma_declared_order();
    if count == 1 {
        Anchor::TopLeft
    } else {
        let before = lemma_best_among(target, size, viewport, count - 1);
        let last = Anchor::declared()[count - 1];
        assert forall|other: Anchor| other.ordinal() < count implies other.ordinal() < count - 1
            || other == last by {
            assert(Anchor::declared()[other.ordinal()] == other);
        }
        if score(last, target, size, viewport) > score(before, target, size, viewport) {
            last
        } else {
            before
        }
    }
}

/// Smart placement always has an anchor to settle on, and no other anchor
/// shows more of the popup; an anchor that shows as much was declared later.
pub proof fn lemma_smart_anchor_is_best(target: Rectangle, size: Vector, viewport: Rectangle)
    ensures
        is_best(smart_anchor(target, size, viewport), target, size, viewport),
{
    lemma_declared_order();
    let best = lemma_best_among(target, size, viewport, ANCHOR_COUNT as int);
    assert(is_best(best, target, size, viewport));
}

/// Where some anchor shows the whole of a popup with area, smart placement
/// shows the whole of it too.
pub proof fn lemma_smart_keeps_popup_inside(
    witness: Anchor,
    target: Rectangle,
    size: Vector,
    viewport: Rectangle,
)
    requires
        size.x > 0,
        size.y > 0,
        viewport.valid(),
        viewport.encloses(witness.candidate(target, size)),
    ensures
        viewport.encloses(smart_anchor(target, size, viewport).candidate(target, size)),
{
    let chosen = smart_anchor(target, size, viewport);
    lemma_smart_anchor_is_best(target, size, viewport);
    lemma_intersection_of_enclosed(witness.candidate(target, size), viewport);
    assert(score(witness, target, size, viewport) == size.x * size.y);
    lemma_score_bounds(chosen, target, size, viewport);
    assert(score(chosen, target, size, viewport) == size.x * size.y);
    assert(size.x * size.y > 0) by (nonlinear_arith)
        requires
            size.x > 0,
            size.y > 0,
    ;
    lemma_full_area_is_enclosed(chosen.candidate(target, size), viewport);
}

/// At most one anchor is best: two best anchors are the same anchor.
pub proof fn lemma_best_is_unique(
    first: Anchor,
    second: Anchor,
    target: Rectangle,
    size: Vector,
    viewport: Rectangle,
)
    requires
        is_best(first, target, size, viewport),
        is_best(second, target, size, viewport),
    ensures
        first == second,
{
    lemma_declared_order();
    let a = score(first, target, size, viewport);
    let b = score(second, target, size, viewport);
    assert(a <= b && b <= a);
    if first.ordinal() < second.ordinal() {
        assert(a < b);
    } else if second.ordinal() < first.ordinal() {
        assert(b < a);
    }
    assert(Anchor::declared()[first.ordinal()] == first);
    assert(Anchor::declared()[second.ordinal()] == second);
}

/// Whether every anchor of `target` gives a popup of extent `popup_size` a
/// position on the grid.
pub fn is_placeable(target: &Rect, popup_size: Vec2) -> (r: bool)
    ensures
        r == placeable(target@, popup_size@),
{
    if !target.is_valid() || popup_size.x < 0 || popup_size.y < 0 {
        return false;
    }
    let low_x: i128 = target.position.x as i128 - popup_size.x as i128;
    let low_y: i128 = target.position.y as i128 - popup_size.y as i128;
    let high_x: i128 = target.position.x as i128 + target.size.x as i128;
    let high_y: i128 = target.position.y as i128 + target.size.y as i128;
    in_range(low_x) && in_range(low_y) && in_range(high_x) && in_range(high_y)
}

/// The position of the popup at `anchor`, computed where it cannot overflow.
fn wide_position(anchor: Anchor, target: &Rect, popup_size: Vec2) -> (r: (i128, i128))
    requires
        target@.valid(),
        popup_size@.is_extent(),
    ensures
        r.0 == anchor.position(target@, popup_size@).x,
        r.1 == anchor.position(target@, popup_size@).y,
{
    let tx: i128 = target.position.x as i128;
    let ty: i128 = target.position.y as i128;
    let tw: i128 = target.size.x as i128;
    let th: i128 = target.size.y as i128;
    let sx: i128 = popup_size.x as i128;
    let sy: i128 = popup_size.y as i128;
    let cx: i128 = tx + tw / 2;
    let cy: i128 = ty + th / 2;
    match anchor {
        Anchor::TopLeft => (tx, ty - sy),
        Anchor::TopCenter => (cx - sx / 2, ty - sy),
        Anchor::TopRight => (tx + tw - sx, ty - sy),
        Anchor::BottomLeft => (tx, ty + th),
        Anchor::BottomCenter => (cx - sx / 2, ty + th),
        Anchor::BottomRight => (tx + tw - sx, ty + th),
        Anchor::LeftTop => (tx - sx, ty),
        Anchor::LeftCenter => (tx - sx, cy - sy / 2),
        Anchor::LeftBottom => (tx - sx, ty + th - sy),
        Anchor::RightTop => (tx + tw, ty),
        Anchor::RightCenter => (tx + tw, cy - sy / 2),
        Anchor::RightBottom => (tx + tw, ty + th - sy),
    }
}

/// Whether `anchor` of `target` gives a popup of extent `popup_size` a
/// position on the grid.
pub fn is_placeable_at(anchor: Anchor, target: &Rect, popup_size: Vec2) -> (r: bool)
    ensures
        r == placeable_at(anchor, target@, popup_size@),
{
    if !target.is_valid() || popup_size.x < 0 || popup_size.y < 0 {
        return false;
    }
    let (x, y): (i128, i128) = wide_position(anchor, target, popup_size);
    in_range(x) && in_range(y)
}

/// The position of a popup of extent `popup_size` at `anchor` of `target`,
/// or the origin when the target is missing.
pub fn place(anchor: Anchor, target: Option<Rect>, popup_size: Vec2) -> (r: Vec2)
    requires
        target matches Some(t) ==> placeable_at(anchor, t@, popup_size@),
    ensures
        r@ == placement(anchor, model_of(target), popup_size@),
{
    match target {
        Some(t) => {
            let (x, y): (i128, i128) = wide_position(anchor, &t, popup_size);
            Vec2 { x: x as i64, y: y as i64 }
        },
        None => Vec2::zero(),
    }
}

/// The rectangle that a popup of extent `popup_size` covers at `anchor` of
/// `target`; at the origin when the target is missing.
pub fn popup_rect(anchor: Anchor, target: Option<Rect>, popup_size: Vec2) -> (r: Rect)
    requires
        target matches Some(t) ==> placeable_at(anchor, t@, popup_size@),
    ensures
        r@ == (Rectangle {
            position: placement(anchor, model_of(target), popup_size@),
            size: popup_size@,
        }),
{
    Rect { position: place(anchor, target, popup_size), size: popup_size }
}

/// The area of `popup` that `viewport` shows, or `None` when the two have
/// nothing in common.
pub fn visible_area(popup: &Rect, viewport: &Rect) -> (r: Option<i128>)
    ensures
        match r {
            Some(area) => popup@.intersection(viewport@) matches Some(common) && area == common.area(),
            None => popup@.intersection(viewport@) is None,
        },
{
    match popup.intersection(viewport) {
        Some(common) => Some(common.area()),
        None => None,
    }
}

/// The visibility of the popup at `anchor` of `target`.
pub fn score_at(anchor: Anchor, target: &Rect, popup_size: Vec2, viewport: &Rect) -> (r: i128)
    requires
        placeable_at(anchor, target@, popup_size@),
    ensures
        r == score(anchor, target@, popup_size@, viewport@),
{
    let popup = popup_rect(anchor, Some(*target), popup_size);
    match visible_area(&popup, viewport) {
        Some(area) => area,
        None => -1,
    }
}

/// The anchor that shows most of the popup inside the viewport; among equals,
/// the one declared first.
pub fn best_anchor(target: &Rect, popup_size: Vec2, viewport: &Rect) -> (r: Anchor)
    requires
        placeable(target@, popup_size@),
    ensures
        is_best(r, target@, popup_size@, viewport@),
        r == smart_anchor(target@, popup_size@, viewport@),
{
    let anchors = Anchor::all();
    let mut best: Anchor = Anchor::TopLeft;
    proof {
        lemma_declared_order();
        lemma_placeable(best, target@, popup_size@);
    }
    let mut best_score: i128 = score_at(best, target, popup_size, viewport);
    let mut i: usize = 1;
    while i < ANCHOR_COUNT
        invariant
            1 <= i <= ANCHOR_COUNT,
            anchors@ == Anchor::declared(),
            placeable(target@, popup_size@),
            best.ordinal() < i,
            best_score == score(best, target@, popup_size@, viewport@),
            forall|j: int|
                0 <= j < i ==> score(#[trigger] Anchor::declared()[j], target@, popup_size@, viewport@)
                    <= best_score,
            forall|j: int|
                0 <= j < best.ordinal() ==> score(
                    #[trigger] Anchor::declared()[j],
                    target@,
                    popup_size@,
                    viewport@,
                ) < best_score,
        decreases ANCHOR_COUNT - i,
    {
        let anchor = anchors[i];
        proof {
            lemma_declared_order();
            lemma_placeable(anchor, target@, popup_size@);
        }
        let anchor_score: i128 = score_at(anchor, target, popup_size, viewport);
        if anchor_score > best_score {
            best = anchor;
            best_score = anchor_score;
        }
        i += 1;
    }
    proof {
        lemma_declared_order();
        assert forall|other: Anchor| #[trigger]
            score(other, target@, popup_size@, viewport@) <= score(
                best,
                target@,
                popup_size@,
                viewport@,
            ) by {
            assert(Anchor::declared()[other.ordinal()] == other);
        }
        assert forall|other: Anchor| other.ordinal() < best.ordinal() implies #[trigger] score(
            other,
            target@,
            popup_size@,
            viewport@,
        ) < score(best, target@, popup_size@, viewport@) by {
            assert(Anchor::declared()[other.ordinal()] == other);
        }
        assert(is_best(best, target@, popup_size@, viewport@));
        let chosen = smart_anchor(target@, popup_size@, viewport@);
        lemma_best_is_unique(best, chosen, target@, popup_size@, viewport@);
    }
    best
}

/// The position of a popup of extent `popup_size` at the anchor of `target`
/// that keeps most of it inside `viewport`. Without a viewport, and without
/// a target, the popup goes to the origin.
pub fn place_smart(target: Option<Rect>, popup_size: Vec2, viewport: Option<Rect>) -> (r: Vec2)
    requires
        target matches Some(t) ==> viewport is Some ==> placeable(t@, popup_size@),
    ensures
        r@ == smart_placement(model_of(target), popup_size@, model_of(viewport)),
{
    match (target, viewport) {
        (Some(t), Some(v)) => {
            let anchor = best_anchor(&t, popup_size, &v);
            proof {
                lemma_placeable(anchor, t@, popup_size@);
            }
            place(anchor, Some(t), popup_size)
        },
        _ => Vec2::zero(),
    }
}

} // verus!
