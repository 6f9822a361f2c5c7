//! The twelve placements of a popup around a target rectangle.

use vstd::prelude::*;
use crate::geometry::{Rect, Rectangle, Vec2, Vector};

verus! {

/// Where a popup sits relative to its target. The first word names the side
/// of the target that the popup is attached to, the second where along that
/// side it sits.
///
/// The order of declaration matters only when two placements are equally
/// good: the earlier one is preferred.
#[derive(Clone, Copy, Debug, PartialEq, Eq, Structural)]
pub enum Anchor {
    TopLeft,
    TopCenter,
    TopRight,
    BottomLeft,
    BottomCenter,
    BottomRight,
    LeftTop,
    LeftCenter,
    LeftBottom,
    RightTop,
    RightCenter,
    RightBottom,
}

/// How many anchors there are.
pub const ANCHOR_COUNT: usize = 12;

/// The side of the target that an anchor attaches the popup to.
pub enum Side {
    Top,
    Bottom,
    Left,
    Right,
}

/// Where along the target's side the popup sits: flush with the side's near
/// end, centred on it, or flush with its far end.
pub enum Alignment {
    Near,
    Center,
    Far,
}

impl Anchor {
    /// All anchors in order of declaration.
    pub open spec fn declared() -> Seq<Anchor> {
        seq![
            Anchor::TopLeft,
            Anchor::TopCenter,
            Anchor::TopRight,
            Anchor::BottomLeft,
            Anchor::BottomCenter,
            Anchor::BottomRight,
            Anchor::LeftTop,
            Anchor::LeftCenter,
            Anchor::LeftBottom,
            Anchor::RightTop,
            Anchor::RightCenter,
            Anchor::RightBottom,
        ]
    }

    /// The anchor's place in the order of declaration, counted from zero.
    pub open spec fn ordinal(self) -> int {
        match self {
            Anchor::TopLeft => 0,
            Anchor::TopCenter => 1,
            Anchor::TopRight => 2,
            Anchor::BottomLeft => 3,
            Anchor::BottomCenter => 4,
            Anchor::BottomRight => 5,
            Anchor::LeftTop => 6,
            Anchor::LeftCenter => 7,
            Anchor::LeftBottom => 8,
            Anchor::RightTop => 9,
            Anchor::RightCenter => 10,
            Anchor::RightBottom => 11,
        }
    }

    /// The side of the target that the popup is attached to.
    pub open spec fn side(self) -> Side {
        match self {
            Anchor::TopLeft | Anchor::TopCenter | Anchor::TopRight => Side::Top,
            Anchor::BottomLeft | Anchor::BottomCenter | Anchor::BottomRight => Side::Bottom,
            Anchor::LeftTop | Anchor::LeftCenter | Anchor::LeftBottom => Side::Left,
            Anchor::RightTop | Anchor::RightCenter | Anchor::RightBottom => Side::Right,
        }
    }

    /// Where along that side the popup sits.
    pub open spec fn alignment(self) -> Alignment {
        match self {
            Anchor::TopLeft | Anchor::BottomLeft | Anchor::LeftTop | Anchor::RightTop => Alignment::Near,
            Anchor::TopCenter | Anchor::BottomCenter | Anchor::LeftCenter | Anchor::RightCenter => Alignment::Center,
            Anchor::TopRight | Anchor::BottomRight | Anchor::LeftBottom | Anchor::RightBottom => Alignment::Far,
        }
    }

    /// The position that places a popup of extent `size` at this anchor of
    /// `target`.
    pub open spec fn position(self, target: Rectangle, size: Vector) -> Vector {
        let tp = target.position;
        let ts = target.size;
        let tc = target.center();
        match self {
            Anchor::TopLeft => tp.minus(Vector { x: 0, y: size.y }),
            Anchor::TopCenter => Vector { x: tc.x, y: tp.y }.minus(Vector { x: size.x / 2, y: size.y }),
            Anchor::TopRight => Vector { x: tp.x + ts.x, y: tp.y }.minus(size),
            Anchor::BottomLeft => Vector { x: tp.x, y: tp.y + ts.y },
            Anchor::BottomCenter => Vector { x: tc.x, y: tp.y + ts.y }.minus(Vector { x: size.x / 2, y: 0 }),
            Anchor::BottomRight => tp.plus(ts).minus(Vector { x: size.x, y: 0 }),
            Anchor::LeftTop => tp.minus(Vector { x: size.x, y: 0 }),
            Anchor::LeftCenter => Vector { x: tp.x, y: tc.y }.minus(Vector { x: size.x, y: size.y / 2 }),
            Anchor::LeftBottom => Vector { x: tp.x, y: tp.y + ts.y }.minus(size),
            Anchor::RightTop => Vector { x: tp.x + ts.x, y: tp.y },
            Anchor::RightCenter => Vector { x: tp.x + ts.x, y: tc.y }.minus(Vector { x: 0, y: size.y / 2 }),
            Anchor::RightBottom => tp.plus(ts).minus(Vector { x: 0, y: size.y }),
        }
    }

    /// The rectangle that a popup of extent `size` covers at this anchor.
    pub open spec fn candidate(self, target: Rectangle, size: Vector) -> Rectangle {
        Rectangle { position: self.position(target, size), size }
    }

    /// All anchors in order of declaration.
    pub fn all() -> (r: [Anchor; 12])
        ensures
            r@ == Anchor::declared(),
    {
        let r = [
            Anchor::TopLeft,
            Anchor::TopCenter,
            Anchor::TopRight,
            Anchor::BottomLeft,
            Anchor::BottomCenter,
            Anchor::BottomRight,
            Anchor::LeftTop,
            Anchor::LeftCenter,
            Anchor::LeftBottom,
            Anchor::RightTop,
            Anchor::RightCenter,
            Anchor::RightBottom,
        ];
        assert(r@ =~= Anchor::declared());
        r
    }

    /// The anchor's place in the order of declaration, counted from zero.
    pub fn index(&self) -> (r: usize)
        ensures
            r == self.ordinal(),
            r < ANCHOR_COUNT,
            Anchor::declared()[r as int] == *self,
    {
        match self {
            Anchor::TopLeft => 0,
            Anchor::TopCenter => 1,
            Anchor::TopRight => 2,
            Anchor::BottomLeft => 3,
            Anchor::BottomCenter => 4,
            Anchor::BottomRight => 5,
            Anchor::LeftTop => 6,
            Anchor::LeftCenter => 7,
            Anchor::LeftBottom => 8,
            Anchor::RightTop => 9,
            Anchor::RightCenter => 10,
            Anchor::RightBottom => 11,
        }
    }

    /// The anchor at place `index` of the order of declaration, if there is
    /// one.
    pub fn from_index(index: usize) -> (r: Option<Anchor>)
        ensures
            index < ANCHOR_COUNT ==> r == Some(Anchor::declared()[index as int]),
            index >= ANCHOR_COUNT ==> r is None,
            r matches Some(a) ==> a.ordinal() == index,
    {
        match index {
            0 => Some(Anchor::TopLeft),
            1 => Some(Anchor::TopCenter),
            2 => Some(Anchor::TopRight),
            3 => Some(Anchor::BottomLeft),
            4 => Some(Anchor::BottomCenter),
            5 => Some(Anchor::BottomRight),
            6 => Some(Anchor::LeftTop),
            7 => Some(Anchor::LeftCenter),
            8 => Some(Anchor::LeftBottom),
            9 => Some(Anchor::RightTop),
            10 => Some(Anchor::RightCenter),
            11 => Some(Anchor::RightBottom),
            _ => None,
        }
    }
}

/// The order of declaration lists every anchor once, at its ordinal.
pub proof fn lemma_declared_order()
    ensures
        Anchor::declared().len() == ANCHOR_COUNT,
        forall|a: Anchor| 0 <= #[trigger] a.ordinal() < ANCHOR_COUNT,
        forall|a: Anchor| Anchor::declared()[#[trigger] a.ordinal()] == a,
        forall|i: int| 0 <= i < ANCHOR_COUNT ==> (#[trigger] Anchor::declared()[i]).ordinal() == i,
{
}

} // verus!
