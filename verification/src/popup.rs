//! The state of one popup that follows a target.

use vstd::prelude::*;
use crate::anchor::Anchor;
use crate::geometry::{model_of, Rect, Rectangle, Vec2, Vector};
use crate::guard::{GuardState, Notification};
use crate::placer::{
    is_placeable, is_placeable_at, place, place_smart, placeable, placeable_at, placement,
    smart_placement,
};

verus! {

/// A popup as contracts see it.
pub struct PopupModel {
    /// The anchor used when smart placement is off.
    pub anchor: Anchor,
    /// Whether the anchor is chosen anew on every tick for visibility.
    pub smart: bool,
    /// The popup's extent as last measured.
    pub size: Vector,
    /// Where the popup's corner goes.
    pub position: Vector,
    /// Whether the popup follows its target or is held at zero.
    pub guard: GuardState,
}

impl PopupModel {
    /// A popup before its first tick: smart placement on, right of the
    /// target's top when it is switched off, nothing measured or placed yet.
    pub open spec fn initial() -> PopupModel {
        PopupModel {
            anchor: Anchor::RightTop,
            smart: true,
            size: Vector::zero(),
            position: Vector::zero(),
            guard: GuardState::Active,
        }
    }

    /// Where a popup of extent `size` goes on this tick: at the origin
    /// without a target, else where its placement mode says.
    pub open spec fn target_position(
        self,
        target: Option<Rectangle>,
        size: Vector,
        viewport: Option<Rectangle>,
    ) -> Vector {
        if self.smart {
            smart_placement(target, size, viewport)
        } else {
            placement(self.anchor, target, size)
        }
    }

    /// The popup with extent `size`, placed for this tick.
    pub open spec fn placed(
        self,
        target: Option<Rectangle>,
        size: Vector,
        viewport: Option<Rectangle>,
    ) -> PopupModel {
        PopupModel {
            size,
            position: self.target_position(target, size, viewport),
            guard: GuardState::Active,
            ..self
        }
    }

    /// The popup after one tick: placed while active, untouched while
    /// suspended.
    pub open spec fn updated(
        self,
        target: Option<Rectangle>,
        size: Vector,
        viewport: Option<Rectangle>,
    ) -> PopupModel {
        if self.guard == GuardState::Active {
            self.placed(target, size, viewport)
        } else {
            self
        }
    }

    /// The popup with extent and position at zero.
    pub open spec fn cleared(self) -> PopupModel {
        PopupModel { size: Vector::zero(), position: Vector::zero(), ..self }
    }

    /// The popup as serialization finds it: suspended, with extent and
    /// position at zero.
    pub open spec fn suspended(self) -> PopupModel {
        PopupModel { guard: GuardState::Suspended, ..self.cleared() }
    }

    /// The popup after the host's notification `what`.
    pub open spec fn notified(
        self,
        what: Notification,
        target: Option<Rectangle>,
        size: Vector,
        viewport: Option<Rectangle>,
    ) -> PopupModel {
        match what {
            Notification::PreSerialize => self.suspended(),
            Notification::PostSerialize => self.placed(target, size, viewport),
            Notification::Other => self,
        }
    }

    /// While the popup is held at zero, its extent and position are zero.
    /// Every [`PopupState`] is well formed at all times.
    pub open spec fn wf(self) -> bool {
        self.guard == GuardState::Suspended ==> self.size == Vector::zero() && self.position
            == Vector::zero()
    }

    /// Placing a popup of extent `size` on this tick stays within what a
    /// [`Vec2`] can hold.
    pub open spec fn can_place(
        self,
        target: Option<Rectangle>,
        size: Vector,
        viewport: Option<Rectangle>,
    ) -> bool {
        target matches Some(t) ==> if self.smart {
            viewport is Some ==> placeable(t, size)
        } else {
            placeable_at(self.anchor, t, size)
        }
    }
}

/// A popup that follows a target rectangle. The host hands in, on every
/// tick, what the target and the viewport currently resolve to and what the
/// popup itself measures; the state answers with the popup's position.
pub struct PopupState {
    anchor: Anchor,
    smart: bool,
    size: Vec2,
    position: Vec2,
    guard: GuardState,
}

impl View for PopupState {
    type V = PopupModel;

    closed spec fn view(&self) -> PopupModel {
        PopupModel {
            anchor: self.anchor,
            smart: self.smart,
            size: self.size@,
            position: self.position@,
            guard: self.guard,
        }
    }
}

impl PopupState {
    /// What holds of every popup at all times.
    #[verifier::type_invariant]
    spec fn well_formed(&self) -> bool {
        self@.wf()
    }

    /// A popup before its first tick.
    pub fn new() -> (r: PopupState)
        ensures
            r@ == PopupModel::initial(),
            r@.wf(),
    {
        PopupState {
            anchor: Anchor::RightTop,
            smart: true,
            size: Vec2::zero(),
            position: Vec2::zero(),
            guard: GuardState::Active,
        }
    }

    /// The anchor used when smart placement is off.
    pub fn anchor(&self) -> (r: Anchor)
        ensures
            r == self@.anchor,
    {
        self.anchor
    }

    /// Chooses the anchor used when smart placement is off; the position
    /// follows on the next tick.
    pub fn set_anchor(&mut self, anchor: Anchor)
        ensures
            final(self)@ == (PopupModel { anchor, ..old(self)@ }),
            final(self)@.wf(),
    {
        proof {
            use_type_invariant(&*self);
        }
        self.anchor = anchor;
    }

    /// Whether the anchor is chosen anew on every tick for visibility.
    pub fn smart(&self) -> (r: bool)
        ensures
            r == self@.smart,
    {
        self.smart
    }

    /// Switches smart placement on or off; the position follows on the next
    /// tick.
    pub fn set_smart(&mut self, smart: bool)
        ensures
            final(self)@ == (PopupModel { smart, ..old(self)@ }),
            final(self)@.wf(),
    {
        proof {
            use_type_invariant(&*self);
        }
        self.smart = smart;
    }

    /// The popup's extent as last measured.
    pub fn size(&self) -> (r: Vec2)
        ensures
            r@ == self@.size,
    {
        self.size
    }

    /// Where the popup's corner goes.
    pub fn position(&self) -> (r: Vec2)
        ensures
            r@ == self@.position,
    {
        self.position
    }

    /// The rectangle that the popup covers.
    pub fn rect(&self) -> (r: Rect)
        ensures
            r@ == (Rectangle { position: self@.position, size: self@.size }),
    {
        Rect { position: self.position, size: self.size }
    }

    /// Whether the popup follows its target or is held at zero.
    pub fn guard(&self) -> (r: GuardState)
        ensures
            r == self@.guard,
            self@.wf(),
    {
        proof {
            use_type_invariant(self);
        }
        self.guard
    }

    /// Whether the popup can be placed with these rectangles without leaving
    /// the grid, as [`PopupState::update`] and
    /// [`PopupState::post_serialize`] ask.
    pub fn can_place(&self, target: Option<Rect>, measured_size: Vec2, viewport: Option<Rect>) -> (r: bool)
        ensures
            r == self@.can_place(model_of(target), measured_size@, model_of(viewport)),
    {
        match target {
            Some(t) => if self.smart {
                viewport.is_none() || is_placeable(&t, measured_size)
            } else {
                is_placeable_at(self.anchor, &t, measured_size)
            },
            None => true,
        }
    }

    /// Recomputes the popup's position for this tick from what target and
    /// viewport resolve to now and what the popup measures now. While
    /// suspended nothing changes.
    pub fn update(&mut self, target: Option<Rect>, measured_size: Vec2, viewport: Option<Rect>)
        requires
            old(self)@.guard == GuardState::Active ==> old(self)@.can_place(
                model_of(target),
                measured_size@,
                model_of(viewport),
            ),
        ensures
            final(self)@ == old(self)@.updated(model_of(target), measured_size@, model_of(viewport)),
            final(self)@.wf(),
    {
        if self.guard.is_suspended() {
            proof {
                use_type_invariant(&*self);
            }
            return ;
        }
        self.place_now(target, measured_size, viewport);
    }

    /// Places the popup whatever the guard says, and leaves it active.
    fn place_now(&mut self, target: Option<Rect>, measured_size: Vec2, viewport: Option<Rect>)
        requires
            old(self)@.can_place(model_of(target), measured_size@, model_of(viewport)),
        ensures
            final(self)@ == old(self)@.placed(model_of(target), measured_size@, model_of(viewport)),
            final(self)@.wf(),
    {
        let position = if self.smart {
            place_smart(target, measured_size, viewport)
        } else {
            place(self.anchor, target, measured_size)
        };
        self.guard = GuardState::Active;
        self.size = measured_size;
        self.position = position;
    }

    /// Puts extent and position back to zero.
    pub fn reset(&mut self)
        ensures
            final(self)@ == old(self)@.cleared(),
            final(self)@.wf(),
    {
        proof {
            use_type_invariant(&*self);
        }
        self.size = Vec2::zero();
        self.position = Vec2::zero();
    }

    /// Serialization is about to begin: the popup goes to zero and stays
    /// there until [`PopupState::post_serialize`].
    pub fn pre_serialize(&mut self)
        ensures
            final(self)@ == old(self)@.suspended(),
            final(self)@.wf(),
    {
        self.reset();
        self.guard = GuardState::Suspended;
    }

    /// Serialization has ended: the popup is active again and placed at
    /// once.
    pub fn post_serialize(&mut self, target: Option<Rect>, measured_size: Vec2, viewport: Option<Rect>)
        requires
            old(self)@.can_place(model_of(target), measured_size@, model_of(viewport)),
        ensures
            final(self)@ == old(self)@.placed(model_of(target), measured_size@, model_of(viewport)),
            final(self)@.wf(),
    {
        self.place_now(target, measured_size, viewport);
    }

    /// Reacts to a notification of the host; the rectangles are read only
    /// when serialization has ended.
    pub fn on_notification(
        &mut self,
        what: Notification,
        target: Option<Rect>,
        measured_size: Vec2,
        viewport: Option<Rect>,
    )
        requires
            what == Notification::PostSerialize ==> old(self)@.can_place(
                model_of(target),
                measured_size@,
                model_of(viewport),
            ),
        ensures
            final(self)@ == old(self)@.notified(
                what,
                model_of(target),
                measured_size@,
                model_of(viewport),
            ),
            final(self)@.wf(),
    {
        match what {
            Notification::PreSerialize => self.pre_serialize(),
            Notification::PostSerialize => self.post_serialize(target, measured_size, viewport),
            Notification::Other => {
                proof {
                    use_type_invariant(&*self);
                }
            },
        }
    }
}

/// Suspending twice is suspending once, a suspended popup has extent and
/// position at zero, and ticks leave it so.
pub proof fn lemma_popup_suspend_is_idempotent(
    popup: PopupModel,
    target: Option<Rectangle>,
    size: Vector,
    viewport: Option<Rectangle>,
)
    ensures
        popup.suspended().suspended() == popup.suspended(),
        popup.suspended().size == Vector::zero(),
        popup.suspended().position == Vector::zero(),
        popup.suspended().updated(target, size, viewport) == popup.suspended(),
{
}

/// The end of serialization restores exactly where the rectangles now put
/// the popup; that is what a tick gives while the popup is active.
pub proof fn lemma_popup_resume_matches_update(
    popup: PopupModel,
    target: Option<Rectangle>,
    size: Vector,
    viewport: Option<Rectangle>,
)
    ensures
        popup.suspended().placed(target, size, viewport) == popup.placed(target, size, viewport),
        popup.guard == GuardState::Active ==> popup.placed(target, size, viewport) == popup.updated(
            target,
            size,
            viewport,
        ),
{
}

} // verus!
