use gdtour::anchor::Anchor;
use gdtour::geometry::{Rect, Vec2};
use gdtour::guard::{GuardState, Notification};
use gdtour::popup::PopupState;

fn rect(x: i64, y: i64, w: i64, h: i64) -> Rect {
    Rect::from_components(x, y, w, h)
}

#[test]
fn new_popup_places_smartly_from_the_origin() {
    let p: PopupState = PopupState::new();
    assert_eq!(p.anchor(), Anchor::RightTop);
    assert!(p.smart());
    assert_eq!(p.size(), Vec2::zero());
    assert_eq!(p.position(), Vec2::zero());
    assert_eq!(p.guard(), GuardState::Active);
}

#[test]
fn update_places_smartly_by_default() {
    let mut p: PopupState = PopupState::new();
    p.update(Some(rect(0, 0, 50, 20)), Vec2::new(80, 30), Some(rect(0, 0, 400, 300)));
    assert_eq!(p.position(), Vec2::new(0, 20));
    assert_eq!(p.size(), Vec2::new(80, 30));
    assert_eq!(p.rect(), rect(0, 20, 80, 30));
}

#[test]
fn update_uses_the_fixed_anchor_when_smart_placement_is_off() {
    let mut p: PopupState = PopupState::new();
    p.set_smart(false);
    assert!(!p.smart());
    p.update(Some(rect(0, 0, 50, 20)), Vec2::new(80, 30), Some(rect(0, 0, 400, 300)));
    assert_eq!(p.position(), Vec2::new(50, 0));
    p.set_anchor(Anchor::LeftCenter);
    assert_eq!(p.anchor(), Anchor::LeftCenter);
    assert_eq!(p.position(), Vec2::new(50, 0));
    p.update(Some(rect(0, 0, 50, 20)), Vec2::new(80, 30), None);
    assert_eq!(p.position(), Vec2::new(-80, -5));
}

#[test]
fn popup_returns_to_the_origin_when_the_target_is_absent() {
    let mut p: PopupState = PopupState::new();
    p.update(Some(rect(100, 100, 50, 20)), Vec2::new(80, 30), Some(rect(0, 0, 400, 300)));
    assert_eq!(p.position(), Vec2::new(100, 70));
    p.update(None, Vec2::new(80, 30), Some(rect(0, 0, 400, 300)));
    assert_eq!(p.position(), Vec2::zero());
    assert_eq!(p.size(), Vec2::new(80, 30));
    p.set_smart(false);
    p.update(Some(rect(100, 100, 50, 20)), Vec2::new(80, 30), None);
    assert_eq!(p.position(), Vec2::new(150, 100));
    p.update(None, Vec2::new(80, 30), None);
    assert_eq!(p.position(), Vec2::zero());
}

#[test]
fn smart_popup_without_a_viewport_stays_at_the_origin() {
    let mut p: PopupState = PopupState::new();
    p.update(Some(rect(100, 100, 50, 20)), Vec2::new(80, 30), None);
    assert_eq!(p.position(), Vec2::zero());
    assert_eq!(p.size(), Vec2::new(80, 30));
}

#[test]
fn reset_clears_extent_and_position() {
    let mut p: PopupState = PopupState::new();
    p.update(Some(rect(100, 100, 50, 20)), Vec2::new(80, 30), Some(rect(0, 0, 400, 300)));
    p.reset();
    assert_eq!(p.position(), Vec2::zero());
    assert_eq!(p.size(), Vec2::zero());
    assert_eq!(p.guard(), GuardState::Active);
    assert!(p.smart());
}

#[test]
fn popup_is_held_at_zero_during_serialization() {
    let target: Option<Rect> = Some(rect(100, 100, 50, 20));
    let viewport: Option<Rect> = Some(rect(0, 0, 400, 300));
    let size: Vec2 = Vec2::new(80, 30);
    let mut p: PopupState = PopupState::new();
    p.update(target, size, viewport);
    p.pre_serialize();
    assert_eq!(p.guard(), GuardState::Suspended);
    assert_eq!(p.position(), Vec2::zero());
    assert_eq!(p.size(), Vec2::zero());
    p.update(target, size, viewport);
    assert_eq!(p.position(), Vec2::zero());
    assert_eq!(p.size(), Vec2::zero());
    p.pre_serialize();
    assert_eq!(p.guard(), GuardState::Suspended);
    assert_eq!(p.position(), Vec2::zero());
    p.post_serialize(target, size, viewport);
    assert_eq!(p.guard(), GuardState::Active);
    assert_eq!(p.position(), Vec2::new(100, 70));
    assert_eq!(p.size(), size);
}

#[test]
fn popup_reacts_to_notifications() {
    let target: Option<Rect> = Some(rect(100, 100, 50, 20));
    let viewport: Option<Rect> = Some(rect(0, 0, 400, 300));
    let size: Vec2 = Vec2::new(80, 30);
    let mut p: PopupState = PopupState::new();
    p.update(target, size, viewport);
    p.on_notification(Notification::Other, None, Vec2::zero(), None);
    assert_eq!(p.position(), Vec2::new(100, 70));
    p.on_notification(Notification::PreSerialize, target, size, viewport);
    assert_eq!(p.guard(), GuardState::Suspended);
    assert_eq!(p.rect(), Rect::zero());
    p.on_notification(Notification::Other, target, size, viewport);
    assert_eq!(p.rect(), Rect::zero());
    p.on_notification(Notification::PostSerialize, target, size, viewport);
    assert_eq!(p.guard(), GuardState::Active);
    assert_eq!(p.rect(), rect(100, 70, 80, 30));
}

#[test]
fn can_place_follows_the_placement_mode() {
    let near_left: Option<Rect> = Some(rect(i64::MIN + 10, 0, 50, 20));
    let viewport: Option<Rect> = Some(rect(0, 0, 400, 300));
    let size: Vec2 = Vec2::new(80, 30);
    let mut p: PopupState = PopupState::new();
    assert!(p.can_place(None, size, viewport));
    assert!(p.can_place(Some(rect(100, 100, 50, 20)), size, viewport));
    assert!(!p.can_place(near_left, size, viewport));
    assert!(p.can_place(near_left, size, None));
    p.set_smart(false);
    assert!(p.can_place(near_left, size, viewport));
    p.update(near_left, size, viewport);
    assert_eq!(p.position(), Vec2::new(i64::MIN + 60, 0));
    p.set_anchor(Anchor::LeftTop);
    assert!(!p.can_place(near_left, size, viewport));
    assert!(!p.can_place(near_left, size, None));
}
