use gdtour::anchor::{Anchor, ANCHOR_COUNT};
use gdtour::geometry::{Rect, Vec2};
use gdtour::placer::{
    best_anchor, is_placeable, is_placeable_at, place, place_smart, popup_rect, score_at,
    visible_area,
};

fn rect(x: i64, y: i64, w: i64, h: i64) -> Rect {
    Rect::from_components(x, y, w, h)
}

fn popup_at(anchor: Anchor, target: Rect, size: Vec2) -> Rect {
    Rect::new(place(anchor, Some(target), size), size)
}

#[test]
fn anchors_are_listed_in_declared_order() {
    let all: [Anchor; 12] = Anchor::all();
    assert_eq!(
        all,
        [
            Anchor::TopLeft,
            Anchor::TopCenter,
            Anchor::TopRight,
            Anchor::BottomLeft,
            Anchor::BottomCenter,
            Anchor::BottomRight,
            Anchor::LeftTop,
            Anchor::LeftCenter,
            Anchor::LeftBottom,
            Anchor::RightTop,
            Anchor::RightCenter,
            Anchor::RightBottom,
        ]
    );
    assert_eq!(ANCHOR_COUNT, 12);
}

#[test]
fn index_and_from_index_are_inverse() {
    let all: [Anchor; 12] = Anchor::all();
    let mut i: usize = 0;
    while i < 12 {
        assert_eq!(all[i].index(), i);
        assert_eq!(Anchor::from_index(i), Some(all[i]));
        i += 1;
    }
    assert_eq!(Anchor::from_index(12), None);
    assert_eq!(Anchor::from_index(usize::MAX), None);
}

#[test]
fn place_follows_the_formula_of_each_anchor() {
    let t: Rect = rect(100, 100, 50, 20);
    let s: Vec2 = Vec2::new(80, 30);
    assert_eq!(place(Anchor::TopLeft, Some(t), s), Vec2::new(100, 70));
    assert_eq!(place(Anchor::TopCenter, Some(t), s), Vec2::new(85, 70));
    assert_eq!(place(Anchor::TopRight, Some(t), s), Vec2::new(70, 70));
    assert_eq!(place(Anchor::BottomLeft, Some(t), s), Vec2::new(100, 120));
    assert_eq!(place(Anchor::BottomCenter, Some(t), s), Vec2::new(85, 120));
    assert_eq!(place(Anchor::BottomRight, Some(t), s), Vec2::new(70, 120));
    assert_eq!(place(Anchor::LeftTop, Some(t), s), Vec2::new(20, 100));
    assert_eq!(place(Anchor::LeftCenter, Some(t), s), Vec2::new(20, 95));
    assert_eq!(place(Anchor::LeftBottom, Some(t), s), Vec2::new(20, 90));
    assert_eq!(place(Anchor::RightTop, Some(t), s), Vec2::new(150, 100));
    assert_eq!(place(Anchor::RightCenter, Some(t), s), Vec2::new(150, 95));
    assert_eq!(place(Anchor::RightBottom, Some(t), s), Vec2::new(150, 90));
}

#[test]
fn place_agrees_with_the_formulas_over_the_reals() {
    let t: Rect = rect(-40, 260, 120, 64);
    let s: Vec2 = Vec2::new(90, 36);
    let (tx, ty, tw, th): (f64, f64, f64, f64) = (-40.0, 260.0, 120.0, 64.0);
    let (sx, sy): (f64, f64) = (90.0, 36.0);
    let (cx, cy): (f64, f64) = (tx + tw / 2.0, ty + th / 2.0);
    let expected: [(Anchor, f64, f64); 12] = [
        (Anchor::TopLeft, tx, ty - sy),
        (Anchor::TopCenter, cx - sx / 2.0, ty - sy),
        (Anchor::TopRight, tx + tw - sx, ty - sy),
        (Anchor::BottomLeft, tx, ty + th),
        (Anchor::BottomCenter, cx - sx / 2.0, ty + th),
        (Anchor::BottomRight, tx + tw - sx, ty + th),
        (Anchor::LeftTop, tx - sx, ty),
        (Anchor::LeftCenter, tx - sx, cy - sy / 2.0),
        (Anchor::LeftBottom, tx - sx, ty + th - sy),
        (Anchor::RightTop, tx + tw, ty),
        (Anchor::RightCenter, tx + tw, cy - sy / 2.0),
        (Anchor::RightBottom, tx + tw, ty + th - sy),
    ];
    for (anchor, x, y) in expected {
        let p: Vec2 = place(anchor, Some(t), s);
        assert!((p.x as f64 - x).abs() < 1e-6, "{:?}", anchor);
        assert!((p.y as f64 - y).abs() < 1e-6, "{:?}", anchor);
    }
}

#[test]
fn place_halves_odd_extents_downwards() {
    let t: Rect = rect(0, 0, 5, 7);
    let s: Vec2 = Vec2::new(3, 1);
    assert_eq!(place(Anchor::TopCenter, Some(t), s), Vec2::new(1, -1));
    assert_eq!(place(Anchor::BottomCenter, Some(t), s), Vec2::new(1, 7));
    assert_eq!(place(Anchor::LeftCenter, Some(t), s), Vec2::new(-3, 3));
    assert_eq!(place(Anchor::RightCenter, Some(t), s), Vec2::new(5, 3));
}

#[test]
fn popup_shares_an_edge_with_the_target_at_every_anchor() {
    let t: Rect = rect(100, 100, 50, 20);
    let s: Vec2 = Vec2::new(80, 30);
    for anchor in [Anchor::TopLeft, Anchor::TopCenter, Anchor::TopRight] {
        assert_eq!(popup_at(anchor, t, s).end().y, t.position.y);
    }
    for anchor in [Anchor::BottomLeft, Anchor::BottomCenter, Anchor::BottomRight] {
        assert_eq!(popup_at(anchor, t, s).position.y, t.end().y);
    }
    for anchor in [Anchor::LeftTop, Anchor::LeftCenter, Anchor::LeftBottom] {
        assert_eq!(popup_at(anchor, t, s).end().x, t.position.x);
    }
    for anchor in [Anchor::RightTop, Anchor::RightCenter, Anchor::RightBottom] {
        assert_eq!(popup_at(anchor, t, s).position.x, t.end().x);
    }
    assert_eq!(popup_at(Anchor::TopLeft, t, s).position.x, t.position.x);
    assert_eq!(popup_at(Anchor::BottomRight, t, s).end().x, t.end().x);
    assert_eq!(popup_at(Anchor::LeftTop, t, s).position.y, t.position.y);
    assert_eq!(popup_at(Anchor::RightBottom, t, s).end().y, t.end().y);
    assert_eq!(popup_at(Anchor::TopCenter, t, s).center().x, t.center().x);
    assert_eq!(popup_at(Anchor::RightCenter, t, s).center().y, t.center().y);
}

#[test]
fn popup_rect_is_the_popup_at_its_place() {
    let t: Rect = rect(100, 100, 50, 20);
    let s: Vec2 = Vec2::new(80, 30);
    assert_eq!(popup_rect(Anchor::RightCenter, Some(t), s), rect(150, 95, 80, 30));
    assert_eq!(popup_rect(Anchor::TopLeft, Some(t), s), rect(100, 70, 80, 30));
    assert_eq!(popup_rect(Anchor::TopLeft, None, s), rect(0, 0, 80, 30));
}

#[test]
fn place_without_a_target_is_the_origin() {
    for anchor in Anchor::all() {
        assert_eq!(place(anchor, None, Vec2::new(80, 30)), Vec2::zero());
    }
}

#[test]
fn place_reaches_the_limits_of_the_grid() {
    let t: Rect = rect(i64::MIN, 0, i64::MAX, 10);
    assert_eq!(place(Anchor::RightTop, Some(t), Vec2::new(i64::MAX, 5)), Vec2::new(-1, 0));
    assert_eq!(place(Anchor::TopLeft, Some(t), Vec2::new(i64::MAX, 5)), Vec2::new(i64::MIN, -5));
}

#[test]
fn visible_area_tells_touching_from_disjoint() {
    let viewport: Rect = rect(0, 0, 100, 100);
    assert_eq!(visible_area(&rect(10, 10, 20, 30), &viewport), Some(600));
    assert_eq!(visible_area(&rect(90, 90, 20, 30), &viewport), Some(100));
    assert_eq!(visible_area(&rect(100, 0, 10, 10), &viewport), Some(0));
    assert_eq!(visible_area(&rect(101, 0, 10, 10), &viewport), None);
}

#[test]
fn score_is_the_visible_area_or_minus_one() {
    let viewport: Rect = rect(0, 0, 100, 100);
    let s: Vec2 = Vec2::new(10, 10);
    let inside: Rect = rect(40, 40, 20, 20);
    assert_eq!(score_at(Anchor::TopLeft, &inside, s, &viewport), 100);
    let at_left_edge: Rect = rect(0, 40, 20, 20);
    assert_eq!(score_at(Anchor::LeftTop, &at_left_edge, s, &viewport), 0);
    let outside: Rect = rect(-50, 40, 20, 20);
    assert_eq!(score_at(Anchor::LeftTop, &outside, s, &viewport), -1);
    assert_eq!(score_at(Anchor::RightTop, &outside, s, &viewport), -1);
}

#[test]
fn smart_placement_scenario() {
    let target: Rect = rect(100, 100, 50, 20);
    let size: Vec2 = Vec2::new(80, 30);
    let viewport: Rect = rect(0, 0, 400, 300);
    let position: Vec2 = place_smart(Some(target), size, Some(viewport));
    let popup: Rect = Rect::new(position, size);
    assert!(viewport.encloses(&popup));
    let chosen: Anchor = best_anchor(&target, size, &viewport);
    assert!(
        score_at(chosen, &target, size, &viewport)
            >= score_at(Anchor::RightCenter, &target, size, &viewport)
    );
    assert_eq!(score_at(chosen, &target, size, &viewport), 2400);
    assert_eq!(place(Anchor::RightCenter, Some(target), size), Vec2::new(150, 95));
    assert_eq!(chosen, Anchor::TopLeft);
    assert_eq!(position, Vec2::new(100, 70));
}

#[test]
fn smart_placement_never_scores_below_another_anchor() {
    let viewport: Rect = rect(0, 0, 400, 300);
    let sizes: [Vec2; 4] =
        [Vec2::new(80, 30), Vec2::new(500, 30), Vec2::new(30, 700), Vec2::new(0, 0)];
    let targets: [Rect; 6] = [
        rect(100, 100, 50, 20),
        rect(0, 0, 50, 20),
        rect(350, 280, 50, 20),
        rect(-200, -200, 50, 20),
        rect(390, 0, 50, 20),
        rect(1000, 1000, 5, 5),
    ];
    for target in targets {
        for size in sizes {
            let chosen: Anchor = best_anchor(&target, size, &viewport);
            let best: i128 = score_at(chosen, &target, size, &viewport);
            for other in Anchor::all() {
                let s: i128 = score_at(other, &target, size, &viewport);
                assert!(s <= best);
                if other.index() < chosen.index() {
                    assert!(s < best);
                }
            }
            assert_eq!(
                place_smart(Some(target), size, Some(viewport)),
                place(chosen, Some(target), size)
            );
        }
    }
}

#[test]
fn smart_placement_with_a_popup_wider_than_the_viewport() {
    let viewport: Rect = rect(0, 0, 400, 300);
    let target: Rect = rect(180, 200, 40, 20);
    let size: Vec2 = Vec2::new(500, 100);
    let chosen: Anchor = best_anchor(&target, size, &viewport);
    assert_eq!(chosen, Anchor::TopCenter);
    assert_eq!(score_at(chosen, &target, size, &viewport), 40000);
    assert_eq!(place_smart(Some(target), size, Some(viewport)), Vec2::new(-50, 100));
}

#[test]
fn smart_placement_breaks_ties_by_declared_order() {
    let viewport: Rect = rect(0, 0, 300, 300);
    let target: Rect = rect(100, 100, 100, 100);
    let size: Vec2 = Vec2::new(150, 150);
    for anchor in Anchor::all() {
        assert_eq!(score_at(anchor, &target, size, &viewport), 15000);
    }
    for _ in 0..10 {
        assert_eq!(best_anchor(&target, size, &viewport), Anchor::TopLeft);
        assert_eq!(place_smart(Some(target), size, Some(viewport)), Vec2::new(100, -50));
    }
}

#[test]
fn smart_placement_takes_the_first_of_several_best_anchors() {
    let viewport: Rect = rect(0, 0, 400, 300);
    let target: Rect = rect(0, 0, 50, 20);
    let size: Vec2 = Vec2::new(80, 30);
    assert_eq!(score_at(Anchor::TopLeft, &target, size, &viewport), 0);
    assert_eq!(score_at(Anchor::BottomLeft, &target, size, &viewport), 2400);
    assert_eq!(score_at(Anchor::BottomCenter, &target, size, &viewport), 1950);
    assert_eq!(score_at(Anchor::RightTop, &target, size, &viewport), 2400);
    assert_eq!(best_anchor(&target, size, &viewport), Anchor::BottomLeft);
    assert_eq!(place_smart(Some(target), size, Some(viewport)), Vec2::new(0, 20));
}

#[test]
fn smart_placement_prefers_touching_to_off_screen() {
    let viewport: Rect = rect(0, 0, 100, 100);
    let size: Vec2 = Vec2::new(10, 10);
    let touching: Rect = rect(-50, 40, 40, 20);
    let scores: [i128; 12] = [-1, -1, -1, -1, -1, -1, -1, -1, -1, 0, 0, 0];
    for anchor in Anchor::all() {
        assert_eq!(score_at(anchor, &touching, size, &viewport), scores[anchor.index()]);
    }
    assert_eq!(best_anchor(&touching, size, &viewport), Anchor::RightTop);
    assert_eq!(place_smart(Some(touching), size, Some(viewport)), Vec2::new(-10, 40));
}

#[test]
fn smart_placement_off_screen_everywhere_takes_the_first_anchor() {
    let viewport: Rect = rect(0, 0, 100, 100);
    let target: Rect = rect(1000, 1000, 5, 5);
    let size: Vec2 = Vec2::new(10, 10);
    for anchor in Anchor::all() {
        assert_eq!(score_at(anchor, &target, size, &viewport), -1);
    }
    assert_eq!(best_anchor(&target, size, &viewport), Anchor::TopLeft);
    assert_eq!(place_smart(Some(target), size, Some(viewport)), Vec2::new(1000, 990));
}

#[test]
fn smart_placement_without_viewport_or_target_is_the_origin() {
    let target: Rect = rect(100, 100, 50, 20);
    let viewport: Rect = rect(0, 0, 400, 300);
    let size: Vec2 = Vec2::new(80, 30);
    assert_eq!(place_smart(Some(target), size, None), Vec2::zero());
    assert_eq!(place_smart(None, size, Some(viewport)), Vec2::zero());
    assert_eq!(place_smart(None, size, None), Vec2::zero());
}

#[test]
fn placeable_means_every_anchor_stays_on_the_grid() {
    assert!(is_placeable(&rect(100, 100, 50, 20), Vec2::new(80, 30)));
    assert!(is_placeable(&rect(i64::MIN + 80, i64::MIN + 30, 50, 20), Vec2::new(80, 30)));
    assert!(!is_placeable(&rect(i64::MIN + 79, 0, 50, 20), Vec2::new(80, 30)));
    assert!(!is_placeable(&rect(0, i64::MAX - 19, 50, 20), Vec2::new(80, 30)));
    assert!(is_placeable(&rect(0, i64::MAX - 20, 50, 20), Vec2::new(80, 30)));
    assert!(!is_placeable(&rect(0, 0, -1, 20), Vec2::new(80, 30)));
    assert!(!is_placeable(&rect(0, 0, 50, 20), Vec2::new(80, -1)));
}

#[test]
fn placeable_at_one_anchor_asks_less_than_placeable() {
    let near_left: Rect = rect(i64::MIN + 10, 0, 50, 20);
    let size: Vec2 = Vec2::new(80, 30);
    assert!(!is_placeable(&near_left, size));
    assert!(!is_placeable_at(Anchor::LeftTop, &near_left, size));
    assert!(!is_placeable_at(Anchor::TopRight, &near_left, size));
    assert!(is_placeable_at(Anchor::TopLeft, &near_left, size));
    assert!(is_placeable_at(Anchor::RightBottom, &near_left, size));
    assert_eq!(place(Anchor::RightTop, Some(near_left), size), Vec2::new(i64::MIN + 60, 0));
    assert!(!is_placeable_at(Anchor::TopLeft, &rect(0, 0, -1, 0), size));
    assert!(!is_placeable_at(Anchor::TopLeft, &rect(0, 0, 1, 1), Vec2::new(-1, 0)));
    for anchor in Anchor::all() {
        assert!(is_placeable_at(anchor, &rect(100, 100, 50, 20), size));
    }
}

#[test]
fn centre_anchors_lie_within_half_a_unit_of_the_exact_middle() {
    let cases: [(Rect, Vec2); 4] = [
        (rect(0, 0, 5, 7), Vec2::new(3, 1)),
        (rect(0, 0, 5, 7), Vec2::new(4, 2)),
        (rect(10, -10, 6, 8), Vec2::new(3, 5)),
        (rect(10, -10, 6, 8), Vec2::new(2, 4)),
    ];
    for (t, s) in cases {
        for anchor in [Anchor::TopCenter, Anchor::BottomCenter] {
            let p: Vec2 = place(anchor, Some(t), s);
            let exact_twice: i64 = 2 * t.position.x + t.size.x - s.x;
            assert!((2 * p.x - exact_twice).abs() <= 1);
            if t.size.x % 2 == s.x % 2 {
                assert_eq!(2 * p.x, exact_twice);
            }
        }
        for anchor in [Anchor::LeftCenter, Anchor::RightCenter] {
            let p: Vec2 = place(anchor, Some(t), s);
            let exact_twice: i64 = 2 * t.position.y + t.size.y - s.y;
            assert!((2 * p.y - exact_twice).abs() <= 1);
            if t.size.y % 2 == s.y % 2 {
                assert_eq!(2 * p.y, exact_twice);
            }
        }
    }
    assert_eq!(place(Anchor::TopCenter, Some(rect(0, 0, 5, 7)), Vec2::new(4, 2)), Vec2::new(0, -2));
    assert_eq!(place(Anchor::TopCenter, Some(rect(0, 0, 4, 7)), Vec2::new(3, 2)), Vec2::new(1, -2));
}
