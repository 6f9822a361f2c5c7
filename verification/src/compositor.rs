//! The focus compositor: from what the focus descriptors resolve to on a
//! tick, the rectangles to cut out of the dimmed layer, their corner radii,
//! and where the decorative overlays go.

use vstd::prelude::*;
use crate::geometry::{in_range, lemma_grown_encloses, model_of, Rect, Rectangle, Vec2, Vector};
use crate::guard::{GuardState, Notification};

verus! {

/// How far an overlay reaches beyond the rectangle it decorates, so that its
/// border lies just outside the cut-out.
pub const OVERLAY_MARGIN: i64 = 1;

/// How far a style reaches beyond its element on each side.
#[derive(Clone, Copy, Debug, PartialEq, Eq)]
pub struct Margins {
    pub left: i64,
    pub top: i64,
    pub right: i64,
    pub bottom: i64,
}

/// What an overlay's visual style says about the region it decorates.
#[derive(Clone, Copy, Debug, PartialEq, Eq)]
pub struct StyleHint {
    /// The inflation of the cut-out on each side.
    pub margins: Margins,
    /// The radius of the cut-out's corners, where the style has one.
    pub corner_radius: Option<i32>,
}

/// What a descriptor's overlay reference resolves to on a tick.
#[derive(Clone, Copy, Debug, PartialEq, Eq)]
pub enum Overlay {
    /// No element is found.
    Unresolved,
    /// An element without a style of its own.
    Plain,
    /// An element with a style.
    Styled(StyleHint),
}

/// One region to spotlight, as the host resolved it for the current tick:
/// the target's rectangle, if the target is found, and the overlay that
/// decorates it.
#[derive(Clone, Copy, Debug, PartialEq, Eq)]
pub struct FocusDescriptor {
    pub target: Option<Rect>,
    pub overlay: Overlay,
}

/// The element that focus has moved to, as the host resolved it.
#[derive(Clone, Copy, Debug, PartialEq, Eq)]
pub struct FocusedControl {
    /// The rectangle that the element covers.
    pub area: Rect,
    /// Whether the element is itself the target of one of the descriptors.
    pub is_target: bool,
}

/// What callers configure.
#[derive(Clone, Copy, Debug, PartialEq, Eq)]
pub struct Config {
    /// The uniform inflation of a cut-out whose overlay has no style.
    pub padding: i64,
    /// The corner radius of a cut-out whose overlay's style has none.
    pub corner_radius_default: i32,
    /// Whether input outside the cut-outs is suppressed.
    pub confine_input: bool,
}

impl Default for Config {
    /// No padding, square corners, input confined.
    fn default() -> (r: Config)
        ensures
            r == (Config { padding: 0, corner_radius_default: 0, confine_input: true }),
    {
        Config { padding: 0, corner_radius_default: 0, confine_input: true }
    }
}

/// One published region as contracts see it.
pub struct RegionModel {
    /// Whether the target was found. Where it was not, the region is a
    /// placeholder that keeps the descriptor's slot and spotlights nothing.
    pub found: bool,
    /// The rectangle to cut out of the dimmed layer.
    pub rect: Rectangle,
    /// The radius of its corners.
    pub radius: int,
    /// Where the overlay goes, if there is an overlay to move.
    pub overlay: Option<Rectangle>,
}

/// One published region: a cut-out, its corner radius, and where its overlay
/// goes. Where the target was not found, the cut-out is the zero rectangle
/// and stands for nothing on screen.
#[derive(Clone, Copy, Debug, PartialEq, Eq)]
pub struct Region {
    pub found: bool,
    pub rect: Rect,
    pub radius: i32,
    pub overlay: Option<Rect>,
}

impl View for Region {
    type V = RegionModel;

    open spec fn view(&self) -> RegionModel {
        RegionModel {
            found: self.found,
            rect: self.rect@,
            radius: self.radius as int,
            overlay: model_of(self.overlay),
        }
    }
}

impl Overlay {
    /// An element was found.
    pub open spec fn resolved(self) -> bool {
        self != Overlay::Unresolved
    }
}

impl FocusDescriptor {
    /// The rectangle to cut out: the target inflated by the margins of the
    /// overlay's style, or by `padding` where there is no such style; the
    /// zero rectangle where the target is not found.
    pub open spec fn rect(self, padding: int) -> Rectangle {
        match self.target {
            Some(t) => match self.overlay {
                Overlay::Styled(style) => t@.grow_individual(
                    style.margins.left as int,
                    style.margins.top as int,
                    style.margins.right as int,
                    style.margins.bottom as int,
                ),
                _ => t@.grow(padding),
            },
            None => Rectangle::zero(),
        }
    }

    /// The corner radius of the cut-out: that of the overlay's style, or
    /// `default` where no style gives one.
    pub open spec fn radius(self, default: int) -> int {
        match self.overlay {
            Overlay::Styled(StyleHint { corner_radius: Some(radius), .. }) => radius as int,
            _ => default,
        }
    }

    /// Where the overlay goes: around the cut-out, [`OVERLAY_MARGIN`] beyond
    /// it on every side. `None` where there is no overlay to move.
    pub open spec fn overlay_rect(self, padding: int) -> Option<Rectangle> {
        if self.overlay.resolved() {
            Some(self.rect(padding).grow(OVERLAY_MARGIN as int))
        } else {
            None
        }
    }

    /// The region that this descriptor publishes under `config`.
    pub open spec fn region(self, config: Config) -> RegionModel {
        RegionModel {
            found: self.target is Some,
            rect: self.rect(config.padding as int),
            radius: self.radius(config.corner_radius_default as int),
            overlay: self.overlay_rect(config.padding as int),
        }
    }

    /// The region that this descriptor publishes while geometry is held at
    /// zero: a placeholder, whether the target is found or not.
    pub open spec fn neutral_region(self) -> RegionModel {
        RegionModel {
            found: false,
            rect: Rectangle::zero(),
            radius: 0,
            overlay: if self.overlay.resolved() {
                Some(Rectangle::zero())
            } else {
                None
            },
        }
    }

    /// Cut-out and overlay rectangle can each be held in a [`Rect`].
    pub open spec fn fits(self, padding: int) -> bool {
        &&& self.rect(padding).fits()
        &&& self.overlay_rect(padding) matches Some(o) ==> o.fits()
    }

    /// Whether cut-out and overlay rectangle can each be held in a [`Rect`].
    pub fn is_fitting(&self, padding: i64) -> (r: bool)
        ensures
            r == self.fits(padding as int),
    {
        let t = match self.target {
            Some(t) => t,
            None => {
                return true;
            },
        };
        let (left, top, right, bottom): (i64, i64, i64, i64) = match self.overlay {
            Overlay::Styled(style) => (
                style.margins.left,
                style.margins.top,
                style.margins.right,
                style.margins.bottom,
            ),
            _ => (padding, padding, padding, padding),
        };
        let x: i128 = t.position.x as i128 - left as i128;
        let y: i128 = t.position.y as i128 - top as i128;
        let w: i128 = t.size.x as i128 + left as i128 + right as i128;
        let h: i128 = t.size.y as i128 + top as i128 + bottom as i128;
        let margin: i128 = OVERLAY_MARGIN as i128;
        let rect_fits = in_range(x) && in_range(y) && in_range(w) && in_range(h);
        let overlay_fits = in_range(x - margin) && in_range(y - margin) && in_range(w + 2 * margin)
            && in_range(h + 2 * margin);
        match self.overlay {
            Overlay::Unresolved => rect_fits,
            _ => rect_fits && overlay_fits,
        }
    }

    /// The region that this descriptor publishes under `config`.
    pub fn resolve(&self, config: &Config) -> (r: Region)
        requires
            self.fits(config.padding as int),
        ensures
            r@ == self.region(*config),
    {
        let rect = match self.target {
            Some(t) => match self.overlay {
                Overlay::Styled(style) => t.grow_individual(
                    style.margins.left,
                    style.margins.top,
                    style.margins.right,
                    style.margins.bottom,
                ),
                _ => t.grow(config.padding),
            },
            None => Rect::zero(),
        };
        let radius = match self.overlay {
            Overlay::Styled(StyleHint { corner_radius: Some(radius), .. }) => radius,
            _ => config.corner_radius_default,
        };
        let overlay = match self.overlay {
            Overlay::Unresolved => None,
            _ => Some(rect.grow(OVERLAY_MARGIN)),
        };
        Region { found: self.target.is_some(), rect, radius, overlay }
    }

    /// The region that this descriptor publishes while geometry is held at
    /// zero.
    pub fn neutral(&self) -> (r: Region)
        ensures
            r@ == self.neutral_region(),
    {
        let overlay = match self.overlay {
            Overlay::Unresolved => None,
            _ => Some(Rect::zero()),
        };
        Region { found: false, rect: Rect::zero(), radius: 0, overlay }
    }
}

/// The compositor as contracts see it.
pub struct CompositorModel {
    /// What callers configured.
    pub config: Config,
    /// Whether geometry follows the targets or is held at zero.
    pub guard: GuardState,
    /// Whether the host is writing to the overlays right now.
    pub syncing: bool,
    /// The published regions, one per descriptor, in the descriptors' order.
    pub regions: Seq<RegionModel>,
}

/// Every descriptor's cut-out and overlay rectangle can be held in a
/// [`Rect`].
pub open spec fn all_fit(descriptors: Seq<FocusDescriptor>, padding: int) -> bool {
    forall|i: int| 0 <= i < descriptors.len() ==> (#[trigger] descriptors[i]).fits(padding)
}

impl CompositorModel {
    /// A compositor that has published nothing yet.
    pub open spec fn initial(config: Config) -> CompositorModel {
        CompositorModel { config, guard: GuardState::Active, syncing: false, regions: Seq::empty() }
    }

    /// The rectangles to cut out, in the descriptors' order.
    pub open spec fn rects(self) -> Seq<Rectangle> {
        Seq::new(self.regions.len(), |i: int| self.regions[i].rect)
    }

    /// The corner radii, in the descriptors' order.
    pub open spec fn radii(self) -> Seq<int> {
        Seq::new(self.regions.len(), |i: int| self.regions[i].radius)
    }

    /// Where the overlays go, in the descriptors' order; `None` where there
    /// is no overlay to move.
    pub open spec fn overlays(self) -> Seq<Option<Rectangle>> {
        Seq::new(self.regions.len(), |i: int| self.regions[i].overlay)
    }

    /// Whether a tick is carried out: not while geometry is held at zero,
    /// and not while the host is writing to the overlays.
    pub open spec fn accepts_update(self) -> bool {
        self.guard == GuardState::Active && !self.syncing
    }

    /// The active compositor with one region per descriptor, computed from
    /// what the descriptors resolve to now.
    pub open spec fn composed(self, descriptors: Seq<FocusDescriptor>) -> CompositorModel {
        CompositorModel {
            guard: GuardState::Active,
            regions: Seq::new(descriptors.len(), |i: int| descriptors[i].region(self.config)),
            ..self
        }
    }

    /// The compositor after one tick: recomposed where the tick is carried
    /// out, untouched where it is not.
    pub open spec fn updated(self, descriptors: Seq<FocusDescriptor>) -> CompositorModel {
        if self.accepts_update() {
            self.composed(descriptors)
        } else {
            self
        }
    }

    /// The compositor as serialization finds it: suspended, with one region
    /// per descriptor, all at zero. One that is suspended already stays as
    /// it is.
    pub open spec fn suspended(self, descriptors: Seq<FocusDescriptor>) -> CompositorModel {
        if self.guard == GuardState::Suspended {
            self
        } else {
            CompositorModel {
                guard: GuardState::Suspended,
                regions: Seq::new(descriptors.len(), |i: int| descriptors[i].neutral_region()),
                ..self
            }
        }
    }

    /// The compositor after the host's notification `what`.
    pub open spec fn notified(self, what: Notification, descriptors: Seq<FocusDescriptor>) -> CompositorModel {
        match what {
            Notification::PreSerialize => self.suspended(descriptors),
            Notification::PostSerialize => self.composed(descriptors),
            Notification::Other => self,
        }
    }

    /// `p` lies in one of the cut-outs.
    pub open spec fn contains_point(self, p: Vector) -> bool {
        exists|i: int| 0 <= i < self.regions.len() && (#[trigger] self.regions[i]).rect.has_point(p)
    }

    /// The cut-out of a target that was found covers all of `area`. A
    /// placeholder covers nothing, not even an empty area at the origin.
    pub open spec fn encloses(self, area: Rectangle) -> bool {
        exists|i: int|
            0 <= i < self.regions.len() && (#[trigger] self.regions[i]).found
                && self.regions[i].rect.encloses(area)
    }

    /// Focus may rest on `control`: it is a target itself, or the cut-out of
    /// a target that was found covers all of it.
    pub open spec fn admits_focus(self, control: FocusedControl) -> bool {
        control.is_target || self.encloses(control.area@)
    }

    /// Focus is taken back from the element it has moved to: while the focus
    /// layer is visible and input is confined, from every element on which
    /// focus may not rest.
    pub open spec fn suppresses_focus(self, visible: bool, focused: Option<FocusedControl>) -> bool {
        match focused {
            Some(control) => visible && self.config.confine_input && !self.admits_focus(control),
            None => false,
        }
    }

    /// Every region is a placeholder at zero: cut-out, radius, and overlay
    /// where there is one.
    pub open spec fn is_neutral(self) -> bool {
        forall|i: int|
            0 <= i < self.regions.len() ==> {
                &&& !(#[trigger] self.regions[i]).found
                &&& self.regions[i].rect == Rectangle::zero()
                &&& self.regions[i].radius == 0
                &&& self.regions[i].overlay matches Some(o) ==> o == Rectangle::zero()
            }
    }
}

impl CompositorModel {
    /// Every placeholder has the zero rectangle for its cut-out.
    pub open spec fn placeholders_are_empty(self) -> bool {
        forall|i: int|
            0 <= i < self.regions.len() && !(#[trigger] self.regions[i]).found
                ==> self.regions[i].rect == Rectangle::zero()
    }

    /// Placeholders are empty, and while geometry is held at zero, every
    /// region is a placeholder at zero. Every [`Compositor`] is well formed
    /// at all times.
    pub open spec fn wf(self) -> bool {
        &&& self.placeholders_are_empty()
        &&& self.guard == GuardState::Suspended ==> self.is_neutral()
    }
}

/// Rectangles, radii and overlays always come in equal numbers, one of each
/// per region.
pub proof fn lemma_sequences_agree(compositor: CompositorModel)
    ensures
        compositor.rects().len() == compositor.regions.len(),
        compositor.radii().len() == compositor.regions.len(),
        compositor.overlays().len() == compositor.regions.len(),
{
}

/// A tick that is carried out publishes exactly one rectangle and one radius
/// per descriptor, found or not; a descriptor whose target is not found
/// publishes the zero rectangle.
pub proof fn lemma_one_region_per_descriptor(
    compositor: CompositorModel,
    descriptors: Seq<FocusDescriptor>,
)
    requires
        compositor.accepts_update(),
    ensures
        compositor.updated(descriptors).rects().len() == descriptors.len(),
        compositor.updated(descriptors).radii().len() == descriptors.len(),
        forall|i: int|
            0 <= i < descriptors.len() && (#[trigger] descriptors[i]).target is None
                ==> compositor.updated(descriptors).rects()[i] == Rectangle::zero(),
{
}

/// An overlay lies around its cut-out, [`OVERLAY_MARGIN`] beyond it on
/// every side, so that the cut-out never clips the overlay's border.
pub proof fn lemma_overlay_surrounds_cutout(descriptor: FocusDescriptor, config: Config)
    requires
        descriptor.overlay.resolved(),
    ensures
        descriptor.region(config).overlay matches Some(overlay) && {
            let cutout = descriptor.region(config).rect;
            let margin = Vector { x: OVERLAY_MARGIN as int, y: OVERLAY_MARGIN as int };
            &&& overlay.encloses(cutout)
            &&& overlay.position == cutout.position.minus(margin)
            &&& overlay.end() == cutout.end().plus(margin)
        },
{
    let margin = OVERLAY_MARGIN as int;
    lemma_grown_encloses(descriptor.rect(config.padding as int), margin, margin, margin, margin);
}

/// A new compositor is well formed.
pub proof fn lemma_initial_is_wf(config: Config)
    ensures
        CompositorModel::initial(config).wf(),
{
}

/// Every transition keeps a suspended compositor's regions at zero.
pub proof fn lemma_transitions_keep_wf(
    compositor: CompositorModel,
    what: Notification,
    descriptors: Seq<FocusDescriptor>,
)
    requires
        compositor.wf(),
    ensures
        compositor.updated(descriptors).wf(),
        compositor.suspended(descriptors).wf(),
        compositor.composed(descriptors).wf(),
        compositor.notified(what, descriptors).wf(),
{
}

/// Suspending a second time changes nothing, whatever the descriptors have
/// become, and ticks leave a suspended compositor as it is.
pub proof fn lemma_suspend_is_idempotent(
    compositor: CompositorModel,
    first: Seq<FocusDescriptor>,
    second: Seq<FocusDescriptor>,
)
    ensures
        compositor.suspended(first).guard == GuardState::Suspended,
        compositor.suspended(first).suspended(second) == compositor.suspended(first),
        compositor.suspended(first).updated(second) == compositor.suspended(first),
{
}

/// A suspended compositor has every region at zero.
pub proof fn lemma_suspended_is_neutral(compositor: CompositorModel, descriptors: Seq<FocusDescriptor>)
    requires
        compositor.wf(),
    ensures
        compositor.suspended(descriptors).is_neutral(),
{
}

/// The end of serialization restores, however often serialization was
/// announced, exactly what the descriptors now resolve to; that is what a
/// tick publishes where it is carried out.
pub proof fn lemma_resume_matches_update(
    compositor: CompositorModel,
    before: Seq<FocusDescriptor>,
    now: Seq<FocusDescriptor>,
)
    ensures
        compositor.suspended(before).composed(now) == compositor.composed(now),
        compositor.suspended(before).suspended(before).composed(now) == compositor.composed(now),
        compositor.accepts_update() ==> compositor.composed(now) == compositor.updated(now),
{
}

/// After recomposing, a cut-out covers `area` exactly when some descriptor's
/// target is found and its inflated rectangle encloses `area`. A descriptor
/// whose target is not found contributes nothing, whatever `area` is.
pub proof fn lemma_encloses_found_targets_only(
    compositor: CompositorModel,
    descriptors: Seq<FocusDescriptor>,
    area: Rectangle,
)
    ensures
        compositor.composed(descriptors).encloses(area) <==> exists|i: int|
            0 <= i < descriptors.len() && (#[trigger] descriptors[i]).target is Some
                && descriptors[i].rect(compositor.config.padding as int).encloses(area),
{
    let after = compositor.composed(descriptors);
    let padding = compositor.config.padding as int;
    if after.encloses(area) {
        let i = choose|i: int|
            0 <= i < after.regions.len() && (#[trigger] after.regions[i]).found
                && after.regions[i].rect.encloses(area);
        assert(descriptors[i].target is Some && descriptors[i].rect(padding).encloses(area));
    }
    if exists|i: int|
        0 <= i < descriptors.len() && (#[trigger] descriptors[i]).target is Some
            && descriptors[i].rect(padding).encloses(area) {
        let i = choose|i: int|
            0 <= i < descriptors.len() && (#[trigger] descriptors[i]).target is Some
                && descriptors[i].rect(padding).encloses(area);
        assert(after.regions[i].found && after.regions[i].rect.encloses(area));
    }
}

/// Where every region is a placeholder, as it is while geometry is held at
/// zero, no area is covered and no point is inside, so that focus rests on
/// targets only.
pub proof fn lemma_placeholders_cover_nothing(compositor: CompositorModel, area: Rectangle, p: Vector)
    requires
        compositor.wf(),
        forall|i: int| 0 <= i < compositor.regions.len() ==> !(#[trigger] compositor.regions[i]).found,
    ensures
        !compositor.encloses(area),
        !compositor.contains_point(p),
{
}

/// A point lies in a cut-out exactly when some published rectangle has it.
pub proof fn lemma_contains_point_is_union(compositor: CompositorModel, p: Vector)
    ensures
        compositor.contains_point(p) <==> exists|i: int|
            0 <= i < compositor.rects().len() && (#[trigger] compositor.rects()[i]).has_point(p),
{
    if compositor.contains_point(p) {
        let i = choose|i: int|
            0 <= i < compositor.regions.len() && (#[trigger] compositor.regions[i]).rect.has_point(p);
        assert(compositor.rects()[i].has_point(p));
    }
    if exists|i: int|
        0 <= i < compositor.rects().len() && (#[trigger] compositor.rects()[i]).has_point(p) {
        let i = choose|i: int|
            0 <= i < compositor.rects().len() && (#[trigger] compositor.rects()[i]).has_point(p);
        assert(compositor.regions[i].rect.has_point(p));
    }
}

/// The focus compositor. The host hands in, on every tick, what the focus
/// descriptors currently resolve to; the compositor publishes one region per
/// descriptor. It calls nothing back: the host reads the regions and writes
/// to the overlays itself, between [`Compositor::begin_sync`] and
/// [`Compositor::end_sync`].
pub struct Compositor {
    config: Config,
    guard: GuardState,
    syncing: bool,
    regions: Vec<Region>,
}

impl View for Compositor {
    type V = CompositorModel;

    closed spec fn view(&self) -> CompositorModel {
        CompositorModel {
            config: self.config,
            guard: self.guard,
            syncing: self.syncing,
            regions: Seq::new(self.regions@.len(), |i: int| self.regions@[i]@),
        }
    }
}

/// Whether every descriptor's cut-out and overlay rectangle can be held in a
/// [`Rect`], as [`Compositor::update`] and [`Compositor::post_serialize`]
/// ask.
pub fn all_fitting(descriptors: &Vec<FocusDescriptor>, padding: i64) -> (r: bool)
    ensures
        r == all_fit(descriptors@, padding as int),
{
    let mut i: usize = 0;
    while i < descriptors.len()
        invariant
            i <= descriptors@.len(),
            forall|j: int| 0 <= j < i ==> (#[trigger] descriptors@[j]).fits(padding as int),
        decreases descriptors@.len() - i,
    {
        if !descriptors[i].is_fitting(padding) {
            return false;
        }
        i += 1;
    }
    true
}

/// The regions that the descriptors publish under `config`.
fn compose(descriptors: &Vec<FocusDescriptor>, config: &Config) -> (r: Vec<Region>)
    requires
        all_fit(descriptors@, config.padding as int),
    ensures
        r@.len() == descriptors@.len(),
        forall|i: int| 0 <= i < r@.len() ==> (#[trigger] r@[i])@ == descriptors@[i].region(*config),
{
    let mut regions: Vec<Region> = Vec::new();
    let mut i: usize = 0;
    while i < descriptors.len()
        invariant
            i <= descriptors@.len(),
            all_fit(descriptors@, config.padding as int),
            regions@.len() == i,
            forall|j: int| 0 <= j < i ==> (#[trigger] regions@[j])@ == descriptors@[j].region(*config),
        decreases descriptors@.len() - i,
    {
        let region = descriptors[i].resolve(config);
        regions.push(region);
        i += 1;
    }
    regions
}

/// The regions that the descriptors publish while geometry is held at zero.
fn neutralize(descriptors: &Vec<FocusDescriptor>) -> (r: Vec<Region>)
    ensures
        r@.len() == descriptors@.len(),
        forall|i: int| 0 <= i < r@.len() ==> (#[trigger] r@[i])@ == descriptors@[i].neutral_region(),
{
    let mut regions: Vec<Region> = Vec::new();
    let mut i: usize = 0;
    while i < descriptors.len()
        invariant
            i <= descriptors@.len(),
            regions@.len() == i,
            forall|j: int| 0 <= j < i ==> (#[trigger] regions@[j])@ == descriptors@[j].neutral_region(),
        decreases descriptors@.len() - i,
    {
        let region = descriptors[i].neutral();
        regions.push(region);
        i += 1;
    }
    regions
}

impl Compositor {
    /// What holds of every compositor at all times.
    #[verifier::type_invariant]
    spec fn well_formed(&self) -> bool {
        self@.wf()
    }

    /// A compositor that has published nothing yet.
    pub fn new(config: Config) -> (r: Compositor)
        ensures
            r@ == CompositorModel::initial(config),
            r@.wf(),
    {
        let r = Compositor { config, guard: GuardState::Active, syncing: false, regions: Vec::new() };
        assert(r@.regions =~= Seq::empty());
        r
    }

    /// One tick: recomputes every region from what the descriptors resolve
    /// to now. Returns whether the tick was carried out; it is not while
    /// geometry is held at zero, nor while the host is writing to the
    /// overlays, and then nothing changes.
    pub fn update(&mut self, descriptors: &Vec<FocusDescriptor>) -> (carried_out: bool)
        requires
            old(self)@.accepts_update() ==> all_fit(descriptors@, old(self)@.config.padding as int),
        ensures
            carried_out == old(self)@.accepts_update(),
            final(self)@ == old(self)@.updated(descriptors@),
            final(self)@.wf(),
    {
        if self.guard.is_suspended() || self.syncing {
            proof {
                use_type_invariant(&*self);
            }
            return false;
        }
        self.recompose(descriptors);
        true
    }

    /// One tick with a single region to spotlight.
    pub fn update_single(&mut self, descriptor: FocusDescriptor) -> (carried_out: bool)
        requires
            old(self)@.accepts_update() ==> descriptor.fits(old(self)@.config.padding as int),
        ensures
            carried_out == old(self)@.accepts_update(),
            final(self)@ == old(self)@.updated(seq![descriptor]),
            final(self)@.wf(),
    {
        let mut descriptors: Vec<FocusDescriptor> = Vec::new();
        descriptors.push(descriptor);
        assert(descriptors@ =~= seq![descriptor]);
        self.update(&descriptors)
    }

    /// Recomputes every region whatever the guard says, and leaves the
    /// compositor active.
    fn recompose(&mut self, descriptors: &Vec<FocusDescriptor>)
        requires
            all_fit(descriptors@, old(self)@.config.padding as int),
        ensures
            final(self)@ == old(self)@.composed(descriptors@),
            final(self)@.wf(),
    {
        proof {
            use_type_invariant(&*self);
        }
        let regions = compose(descriptors, &self.config);
        self.guard = GuardState::Active;
        self.regions = regions;
        assert(self@.regions =~= old(self)@.composed(descriptors@).regions);
    }

    /// Serialization is about to begin: every region goes to zero, the
    /// overlays with them, and stays there until
    /// [`Compositor::post_serialize`]. While suspended already, nothing
    /// changes.
    pub fn pre_serialize(&mut self, descriptors: &Vec<FocusDescriptor>)
        ensures
            final(self)@ == old(self)@.suspended(descriptors@),
            final(self)@.guard == GuardState::Suspended,
            final(self)@.is_neutral(),
            final(self)@.wf(),
    {
        proof {
            use_type_invariant(&*self);
        }
        if self.guard.is_suspended() {
            return ;
        }
        let regions = neutralize(descriptors);
        self.regions = regions;
        self.guard = GuardState::Suspended;
        assert(self@.regions =~= old(self)@.suspended(descriptors@).regions);
    }

    /// Serialization has ended: the compositor is active again and every
    /// region is recomputed at once.
    pub fn post_serialize(&mut self, descriptors: &Vec<FocusDescriptor>)
        requires
            all_fit(descriptors@, old(self)@.config.padding as int),
        ensures
            final(self)@ == old(self)@.composed(descriptors@),
            final(self)@.wf(),
    {
        self.recompose(descriptors);
    }

    /// Reacts to a notification of the host; the descriptors are not read
    /// for one that leaves the guard alone.
    pub fn on_notification(&mut self, what: Notification, descriptors: &Vec<FocusDescriptor>)
        requires
            what == Notification::PostSerialize ==> all_fit(
                descriptors@,
                old(self)@.config.padding as int,
            ),
        ensures
            final(self)@ == old(self)@.notified(what, descriptors@),
            final(self)@.wf(),
    {
        match what {
            Notification::PreSerialize => self.pre_serialize(descriptors),
            Notification::PostSerialize => self.post_serialize(descriptors),
            Notification::Other => {
                proof {
                    use_type_invariant(&*self);
                }
            },
        }
    }

    /// The host is about to write to the overlays. Returns whether it may:
    /// not while it is doing so already, and not while geometry is held at
    /// zero. Until [`Compositor::end_sync`], ticks are ignored, so that a
    /// notification fired by such a write cannot start another round.
    pub fn begin_sync(&mut self) -> (granted: bool)
        ensures
            granted == old(self)@.accepts_update(),
            final(self)@ == (CompositorModel { syncing: old(self)@.syncing || granted, ..old(self)@ }),
            final(self)@.wf(),
    {
        proof {
            use_type_invariant(&*self);
        }
        if self.guard.is_suspended() || self.syncing {
            return false;
        }
        self.syncing = true;
        true
    }

    /// The host has finished writing to the overlays.
    pub fn end_sync(&mut self)
        ensures
            final(self)@ == (CompositorModel { syncing: false, ..old(self)@ }),
            final(self)@.wf(),
    {
        proof {
            use_type_invariant(&*self);
        }
        self.syncing = false;
    }

    /// What callers configured.
    pub fn config(&self) -> (r: Config)
        ensures
            r == self@.config,
    {
        self.config
    }

    /// Replaces the configuration; the regions follow on the next tick.
    pub fn set_config(&mut self, config: Config)
        ensures
            final(self)@ == (CompositorModel { config, ..old(self)@ }),
            final(self)@.wf(),
    {
        proof {
            use_type_invariant(&*self);
        }
        self.config = config;
    }

    /// Whether geometry follows the targets or is held at zero.
    pub fn guard(&self) -> (r: GuardState)
        ensures
            r == self@.guard,
            self@.wf(),
    {
        proof {
            use_type_invariant(self);
        }
        self.guard
    }

    /// Whether the host is writing to the overlays right now.
    pub fn is_syncing(&self) -> (r: bool)
        ensures
            r == self@.syncing,
    {
        self.syncing
    }

    /// Whether the renderer's transient resource belongs on the focus layer:
    /// it does while the compositor is active, and is taken off for the time
    /// of serialization.
    pub fn resource_attached(&self) -> (r: bool)
        ensures
            r == (self@.guard == GuardState::Active),
    {
        !self.guard.is_suspended()
    }

    /// How many regions are published.
    pub fn len(&self) -> (r: usize)
        ensures
            r == self@.regions.len(),
    {
        self.regions.len()
    }

    /// The published regions, in the descriptors' order.
    pub fn regions(&self) -> (r: &Vec<Region>)
        ensures
            r@.len() == self@.regions.len(),
            forall|i: int| 0 <= i < r@.len() ==> (#[trigger] r@[i])@ == self@.regions[i],
            self@.wf(),
    {
        proof {
            use_type_invariant(self);
        }
        &self.regions
    }

    /// A copy of the rectangles to cut out, in the descriptors' order.
    pub fn rects(&self) -> (r: Vec<Rect>)
        ensures
            r@.len() == self@.rects().len(),
            forall|i: int| 0 <= i < r@.len() ==> (#[trigger] r@[i])@ == self@.rects()[i],
    {
        let mut rects: Vec<Rect> = Vec::new();
        let mut i: usize = 0;
        while i < self.regions.len()
            invariant
                i <= self.regions@.len(),
                rects@.len() == i,
                forall|j: int| 0 <= j < i ==> (#[trigger] rects@[j])@ == self@.regions[j].rect,
            decreases self.regions@.len() - i,
        {
            rects.push(self.regions[i].rect);
            i += 1;
        }
        rects
    }

    /// A copy of the corner radii, in the descriptors' order.
    pub fn corner_radii(&self) -> (r: Vec<i32>)
        ensures
            r@.len() == self@.radii().len(),
            forall|i: int| 0 <= i < r@.len() ==> #[trigger] r@[i] == self@.radii()[i],
    {
        let mut radii: Vec<i32> = Vec::new();
        let mut i: usize = 0;
        while i < self.regions.len()
            invariant
                i <= self.regions@.len(),
                radii@.len() == i,
                forall|j: int| 0 <= j < i ==> #[trigger] radii@[j] == self@.regions[j].radius,
            decreases self.regions@.len() - i,
        {
            radii.push(self.regions[i].radius);
            i += 1;
        }
        radii
    }

    /// A copy of where the overlays go, in the descriptors' order; `None`
    /// where there is no overlay to move.
    pub fn overlays(&self) -> (r: Vec<Option<Rect>>)
        ensures
            r@.len() == self@.overlays().len(),
            forall|i: int| 0 <= i < r@.len() ==> model_of(#[trigger] r@[i]) == self@.overlays()[i],
    {
        let mut overlays: Vec<Option<Rect>> = Vec::new();
        let mut i: usize = 0;
        while i < self.regions.len()
            invariant
                i <= self.regions@.len(),
                overlays@.len() == i,
                forall|j: int|
                    0 <= j < i ==> model_of(#[trigger] overlays@[j]) == self@.regions[j].overlay,
            decreases self.regions@.len() - i,
        {
            overlays.push(self.regions[i].overlay);
            i += 1;
        }
        overlays
    }

    /// Rectangles and corner radii of one and the same tick, copied
    /// together.
    pub fn snapshot(&self) -> (r: (Vec<Rect>, Vec<i32>))
        ensures
            r.0@.len() == self@.regions.len(),
            r.1@.len() == self@.regions.len(),
            forall|i: int| 0 <= i < r.0@.len() ==> (#[trigger] r.0@[i])@ == self@.rects()[i],
            forall|i: int| 0 <= i < r.1@.len() ==> #[trigger] r.1@[i] == self@.radii()[i],
    {
        (self.rects(), self.corner_radii())
    }

    /// Whether `p` lies in one of the cut-outs; not merely in the box around
    /// them all.
    pub fn contains_point(&self, p: Vec2) -> (r: bool)
        ensures
            r == self@.contains_point(p@),
    {
        let mut i: usize = 0;
        while i < self.regions.len()
            invariant
                i <= self.regions@.len(),
                forall|j: int| 0 <= j < i ==> !(#[trigger] self@.regions[j]).rect.has_point(p@),
            decreases self.regions@.len() - i,
        {
            if self.regions[i].rect.has_point(p) {
                assert(self@.regions[i as int].rect.has_point(p@));
                return true;
            }
            i += 1;
        }
        false
    }

    /// Whether the cut-out of a target that was found covers all of `area`.
    pub fn encloses(&self, area: &Rect) -> (r: bool)
        ensures
            r == self@.encloses(area@),
    {
        let mut i: usize = 0;
        while i < self.regions.len()
            invariant
                i <= self.regions@.len(),
                forall|j: int|
                    0 <= j < i ==> !((#[trigger] self@.regions[j]).found
                        && self@.regions[j].rect.encloses(area@)),
            decreases self.regions@.len() - i,
        {
            if self.regions[i].found && self.regions[i].rect.encloses(area) {
                assert(self@.regions[i as int].found && self@.regions[i as int].rect.encloses(area@));
                return true;
            }
            i += 1;
        }
        false
    }

    /// Whether a pointer event at `p` is kept from the host's input routing:
    /// while the focus layer is visible and input is confined, every event
    /// outside the cut-outs is.
    pub fn suppresses_pointer(&self, visible: bool, p: Vec2) -> (r: bool)
        ensures
            r == (visible && self@.config.confine_input && !self@.contains_point(p@)),
    {
        visible && self.config.confine_input && !self.contains_point(p)
    }

    /// Whether focus is taken back from the element it has moved to: while
    /// the focus layer is visible and input is confined, from every element
    /// that is no target itself and that no found target's cut-out covers.
    /// Where focus has moved to no element, there is nothing to take it from.
    pub fn suppresses_focus(&self, visible: bool, focused: Option<FocusedControl>) -> (r: bool)
        ensures
            r == self@.suppresses_focus(visible, focused),
    {
        match focused {
            Some(control) => visible && self.config.confine_input && !control.is_target
                && !self.encloses(&control.area),
            None => false,
        }
    }
}

} // verus!
