//! The component protocol: events carrying narrowing geometry, the
//! `HandleEvent` and `Render` capability traits, and the composition
//! algebra that chains heterogeneous components together.
//!
//! A chain of components processes events and render passes strictly
//! front-to-back. Each link may narrow the geometry it passes on — clip it
//! by an offset, cap it to a size — but can never widen it, and never
//! changes the kind of an event. Per-component state is threaded through
//! the chain as a tuple whose shape mirrors the chain itself, so the whole
//! composition is built and checked statically, with no dynamic tree.

use vstd::prelude::*;

use crate::geom::clamp_i32;
use crate::geom::imax;
use crate::geom::imin;
use crate::geom::rect::clamp_to_i32;
use crate::geom::rect::Rect;
use crate::geom::size::Size;
use crate::geom::vector::Vector;
use crate::geom::Point;
use crate::mouse::MouseButton;
use crate::render::BlitSurface;
use crate::render::RenderConstraints;
use crate::VuiResult;

pub mod frame;
pub mod mouse_aware;
pub mod mouse_sensor;
pub mod noop;
pub mod position;

pub use frame::Frame;
pub use mouse_sensor::MouseSensor;
pub use mouse_sensor::MouseSensorState;
pub use noop::Noop;
pub use position::Position;

verus! {

/// The event-time geometry handle: an absolute pointer position paired with
/// the hit rectangle of the chain processed so far. It is built once per
/// event at the root and narrowed at each composition step; the position
/// itself never changes.
#[derive(Debug, Clone, Copy, PartialEq, Eq, Structural)]
pub struct FramedPosition {
    pub position: Point,
    pub frame: Rect,
}

impl FramedPosition {
    pub fn new(position: Point, frame: Rect) -> (r: Self)
        ensures
            r == (FramedPosition { position, frame }),
    {
        Self { position, frame }
    }

    /// Whether the pointer lies within the accumulated hit rectangle.
    pub open spec fn spec_is_hit(self) -> bool {
        self.frame.spec_contains(self.position)
    }

    /// Whether the pointer lies within the accumulated hit rectangle.
    pub fn is_hit(&self) -> (r: bool)
        ensures
            r == self.spec_is_hit(),
    {
        self.frame.contains(self.position)
    }

    /// The handle with its hit rectangle clipped by a translation.
    pub open spec fn spec_clip(self, v: Vector) -> Self {
        FramedPosition { position: self.position, frame: self.frame.spec_clip(v) }
    }

    /// The handle with its hit rectangle clipped by a translation.
    pub fn clip(self, v: Vector) -> (r: Self)
        ensures
            r == self.spec_clip(v),
    {
        Self { position: self.position, frame: self.frame.clip(v) }
    }

    /// The handle with its hit rectangle capped to at most `size`.
    pub open spec fn spec_shrink(self, size: Size) -> Self {
        FramedPosition { position: self.position, frame: self.frame.spec_shrink(size) }
    }

    /// The handle with its hit rectangle capped to at most `size`.
    pub fn shrink(self, size: Size) -> (r: Self)
        ensures
            r == self.spec_shrink(size),
    {
        Self { position: self.position, frame: self.frame.shrink(size) }
    }
}

/// The closed set of events a component can receive. `LoopStart` marks a
/// frame boundary and carries no geometry; the pointer events carry a
/// [`FramedPosition`]. A composition layer may rewrite the geometry payload
/// but never the variant kind.
#[derive(Debug, Clone, Copy, PartialEq, Eq, Structural)]
pub enum ComponentEvent {
    LoopStart,
    MouseMotion(FramedPosition),
    MouseButtonDown(MouseButton, FramedPosition),
    MouseButtonUp(MouseButton, FramedPosition),
}

impl ComponentEvent {
    /// The event with its geometry clipped by a translation.
    pub open spec fn spec_clip(self, v: Vector) -> Self {
        match self {
            ComponentEvent::LoopStart => ComponentEvent::LoopStart,
            ComponentEvent::MouseMotion(fp) => ComponentEvent::MouseMotion(fp.spec_clip(v)),
            ComponentEvent::MouseButtonDown(btn, fp) => ComponentEvent::MouseButtonDown(
                btn,
                fp.spec_clip(v),
            ),
            ComponentEvent::MouseButtonUp(btn, fp) => ComponentEvent::MouseButtonUp(
                btn,
                fp.spec_clip(v),
            ),
        }
    }

    /// The event with its geometry clipped by a translation.
    pub fn clip(self, v: Vector) -> (r: Self)
        ensures
            r == self.spec_clip(v),
    {
        match self {
            ComponentEvent::LoopStart => ComponentEvent::LoopStart,
            ComponentEvent::MouseMotion(fp) => ComponentEvent::MouseMotion(fp.clip(v)),
            ComponentEvent::MouseButtonDown(btn, fp) => ComponentEvent::MouseButtonDown(
                btn,
                fp.clip(v),
            ),
            ComponentEvent::MouseButtonUp(btn, fp) => ComponentEvent::MouseButtonUp(
                btn,
                fp.clip(v),
            ),
        }
    }

    /// The event with its geometry capped to at most `size`.
    pub open spec fn spec_shrink(self, size: Size) -> Self {
        match self {
            ComponentEvent::LoopStart => ComponentEvent::LoopStart,
            ComponentEvent::MouseMotion(fp) => ComponentEvent::MouseMotion(fp.spec_shrink(size)),
            ComponentEvent::MouseButtonDown(btn, fp) => ComponentEvent::MouseButtonDown(
                btn,
                fp.spec_shrink(size),
            ),
            ComponentEvent::MouseButtonUp(btn, fp) => ComponentEvent::MouseButtonUp(
                btn,
                fp.spec_shrink(size),
            ),
        }
    }

    /// The event with its geometry capped to at most `size`.
    pub fn shrink(self, size: Size) -> (r: Self)
        ensures
            r == self.spec_shrink(size),
    {
        match self {
            ComponentEvent::LoopStart => ComponentEvent::LoopStart,
            ComponentEvent::MouseMotion(fp) => ComponentEvent::MouseMotion(fp.shrink(size)),
            ComponentEvent::MouseButtonDown(btn, fp) => ComponentEvent::MouseButtonDown(
                btn,
                fp.shrink(size),
            ),
            ComponentEvent::MouseButtonUp(btn, fp) => ComponentEvent::MouseButtonUp(
                btn,
                fp.shrink(size),
            ),
        }
    }
}

/// The narrowing discipline of the composition algebra: `post` is the same
/// kind of event as `pre`, for the same button and pointer position, and
/// its hit rectangle lies within `pre`'s. Every event handler must relate
/// its input to its output this way.
pub open spec fn event_narrows(pre: ComponentEvent, post: ComponentEvent) -> bool {
    match (pre, post) {
        (ComponentEvent::LoopStart, ComponentEvent::LoopStart) => true,
        (ComponentEvent::MouseMotion(a), ComponentEvent::MouseMotion(b)) => b.position
            == a.position && b.frame.sub_rect_of(a.frame),
        (
            ComponentEvent::MouseButtonDown(ba, a),
            ComponentEvent::MouseButtonDown(bb, b),
        ) => bb == ba && b.position == a.position && b.frame.sub_rect_of(a.frame),
        (ComponentEvent::MouseButtonUp(ba, a), ComponentEvent::MouseButtonUp(bb, b)) => bb == ba
            && b.position == a.position && b.frame.sub_rect_of(a.frame),
        _ => false,
    }
}

/// Narrowing composes: what each link guarantees towards its neighbour
/// holds across a whole chain.
pub proof fn lemma_event_narrows_trans(e1: ComponentEvent, e2: ComponentEvent, e3: ComponentEvent)
    requires
        event_narrows(e1, e2),
        event_narrows(e2, e3),
    ensures
        event_narrows(e1, e3),
{
    match (e1, e2, e3) {
        (
            ComponentEvent::MouseMotion(a),
            ComponentEvent::MouseMotion(b),
            ComponentEvent::MouseMotion(c),
        ) => {
            crate::geom::rect::lemma_sub_rect_trans(c.frame, b.frame, a.frame);
        },
        (
            ComponentEvent::MouseButtonDown(_, a),
            ComponentEvent::MouseButtonDown(_, b),
            ComponentEvent::MouseButtonDown(_, c),
        ) => {
            crate::geom::rect::lemma_sub_rect_trans(c.frame, b.frame, a.frame);
        },
        (
            ComponentEvent::MouseButtonUp(_, a),
            ComponentEvent::MouseButtonUp(_, b),
            ComponentEvent::MouseButtonUp(_, c),
        ) => {
            crate::geom::rect::lemma_sub_rect_trans(c.frame, b.frame, a.frame);
        },
        _ => {},
    }
}

/// Clipping an event narrows it.
pub proof fn lemma_event_clip_narrows(e: ComponentEvent, v: Vector)
    ensures
        event_narrows(e, e.spec_clip(v)),
{
    match e {
        ComponentEvent::LoopStart => {},
        ComponentEvent::MouseMotion(fp) => {
            crate::geom::rect::lemma_spec_clip_sub_rect(fp.frame, v);
        },
        ComponentEvent::MouseButtonDown(_, fp) => {
            crate::geom::rect::lemma_spec_clip_sub_rect(fp.frame, v);
        },
        ComponentEvent::MouseButtonUp(_, fp) => {
            crate::geom::rect::lemma_spec_clip_sub_rect(fp.frame, v);
        },
    }
}

/// Shrinking an event narrows it.
pub proof fn lemma_event_shrink_narrows(e: ComponentEvent, size: Size)
    ensures
        event_narrows(e, e.spec_shrink(size)),
{
}

/// The event-handling capability. Each component declares the per-instance
/// mutable state it needs — an empty marker for stateless components — and
/// receives that state by unique borrow together with the event as narrowed
/// by every component before it in the chain.
pub trait HandleEvent {
    /// The per-instance state this component threads through a chain.
    type State;

    /// The event this component hands to the next link.
    spec fn event_out(&self, event: ComponentEvent) -> ComponentEvent;

    /// How the state after handling `event` relates to the state before.
    spec fn handled(&self, pre: Self::State, post: Self::State, event: ComponentEvent) -> bool;

    /// Performs this component's side effects on `state` and returns the
    /// (possibly narrowed) event for the next link to consume.
    fn handle_event(&self, state: &mut Self::State, event: ComponentEvent) -> (out: ComponentEvent)
        ensures
            out == self.event_out(event),
            self.handled(*old(state), *final(state), event),
            event_narrows(event, out),
    ;
}

/// The rendering capability, parameterized by the render backend `R`. A
/// component draws into the accumulated clip region and returns the
/// (possibly narrowed) region for the next link, or propagates a backend
/// error, aborting the render pass for this subtree.
pub trait Render<R> {
    /// The per-instance state this component reads while rendering.
    type State;

    /// The clip region this component hands to the next link when it
    /// succeeds.
    spec fn render_out(&self, constraints: RenderConstraints) -> RenderConstraints;

    fn render(&self, state: &Self::State, constraints: RenderConstraints, target: &mut R) -> (out:
        VuiResult<RenderConstraints>)
        ensures
            out matches Ok(c) ==> c == self.render_out(constraints),
            out matches Ok(c) ==> c.clip_rect.sub_rect_of(constraints.clip_rect),
    ;
}

/// The size-query capability for components that can report a fixed extent.
pub trait CalculateSize {
    spec fn spec_size(&self) -> Size;

    fn calculate_size(&self) -> (r: Size)
        ensures
            r == self.spec_size(),
    ;
}

/// An ordered pair of composition links: `first` processes an event or a
/// render pass before `rest` does, and `rest` receives whatever geometry
/// `first` left. A chain of N components is built by nesting pairs; its
/// state is a tuple of the same shape.
pub struct Chain<A, B> {
    pub first: A,
    pub rest: B,
}

impl<A, B> Chain<A, B> {
    pub fn new(first: A, rest: B) -> (r: Self)
        ensures
            r.first == first,
            r.rest == rest,
    {
        Self { first, rest }
    }
}

impl<A: HandleEvent, B: HandleEvent> HandleEvent for Chain<A, B> {
    type State = (A::State, B::State);

    open spec fn event_out(&self, event: ComponentEvent) -> ComponentEvent {
        self.rest.event_out(self.first.event_out(event))
    }

    open spec fn handled(
        &self,
        pre: (A::State, B::State),
        post: (A::State, B::State),
        event: ComponentEvent,
    ) -> bool {
        &&& self.first.handled(pre.0, post.0, event)
        &&& self.rest.handled(pre.1, post.1, self.first.event_out(event))
    }

    fn handle_event(&self, state: &mut (A::State, B::State), event: ComponentEvent) -> (out:
        ComponentEvent) {
        let mid = self.first.handle_event(&mut state.0, event);
        let out = self.rest.handle_event(&mut state.1, mid);
        proof {
            lemma_event_narrows_trans(event, mid, out);
        }
        out
    }
}

impl<A, B, R> Render<R> for Chain<A, B> where A: Render<R>, B: Render<R> {
    type State = (A::State, B::State);

    open spec fn render_out(&self, constraints: RenderConstraints) -> RenderConstraints {
        self.rest.render_out(self.first.render_out(constraints))
    }

    fn render(
        &self,
        state: &(A::State, B::State),
        constraints: RenderConstraints,
        target: &mut R,
    ) -> (out: VuiResult<RenderConstraints>) {
        let mid = match self.first.render(&state.0, constraints, target) {
            Ok(c) => c,
            Err(e) => {
                return Err(e);
            },
        };
        let narrowed = match self.rest.render(&state.1, mid, target) {
            Ok(c) => c,
            Err(e) => {
                return Err(e);
            },
        };
        proof {
            crate::geom::rect::lemma_sub_rect_trans(
                narrowed.clip_rect,
                mid.clip_rect,
                constraints.clip_rect,
            );
        }
        Ok(narrowed)
    }
}

/// Per-component state is threaded through a chain without being
/// duplicated, reordered, or lost: the chain relates each slot of its state
/// tuple to exactly the corresponding component, and to no other.
pub proof fn lemma_chain_threads_state<A: HandleEvent, B: HandleEvent>(
    chain: Chain<A, B>,
    pre: (A::State, B::State),
    post: (A::State, B::State),
    event: ComponentEvent,
)
    requires
        chain.handled(pre, post, event),
    ensures
        chain.first.handled(pre.0, post.0, event),
        chain.rest.handled(pre.1, post.1, chain.first.event_out(event)),
{
}

/// The full capability set of a standalone component: it handles events,
/// renders against the backend `R`, and reports a size. Chains whose links
/// all carry these capabilities carry them as a whole.
pub trait PositionalComponent<R>: HandleEvent + Render<R> + CalculateSize {

}

impl<T, R> PositionalComponent<R> for T where T: HandleEvent + Render<R> + CalculateSize {

}

/// The text measurement and rasterization capability of the render backend.
/// Implemented outside the library, against a real font; failures (a
/// missing glyph, an exhausted backend) propagate as errors.
pub trait TextRenderer {
    /// Measures the pixel extent `text` would occupy.
    fn size_of(&self, text: &str) -> VuiResult<Size>;

    /// Rasterizes `text` and returns a handle to the resulting drawable.
    fn render(&self, text: &str) -> VuiResult<u64>;
}

/// The measured size of a text, or zero where measurement failed: the
/// render path must not panic on a measurement failure, and a zero extent
/// is the documented fallback.
pub fn size_or_zero(measured: VuiResult<Size>) -> (r: Size)
    ensures
        measured matches Ok(s) ==> r == s,
        measured matches Err(_) ==> r == (Size { width: 0, height: 0 }),
{
    match measured {
        Ok(s) => s,
        Err(_) => Size::zero(),
    }
}

/// A leaf component holding a fixed text and the renderer that rasterizes
/// it. It transforms no geometry and ignores events.
pub struct Text<R> {
    pub text: String,
    pub renderer: R,
}

impl<R> Text<R> {
    pub fn new(text: String, renderer: R) -> (r: Self)
        ensures
            r.text == text,
            r.renderer == renderer,
    {
        Self { text, renderer }
    }
}

impl<R: TextRenderer> Text<R> {
    /// The measured extent of the text, zero where measurement fails.
    pub fn size(&self) -> Size {
        size_or_zero(self.renderer.size_of(self.text.as_str()))
    }
}

impl<R: TextRenderer> HandleEvent for Text<R> {
    type State = ();

    open spec fn event_out(&self, event: ComponentEvent) -> ComponentEvent {
        event
    }

    open spec fn handled(&self, pre: (), post: (), event: ComponentEvent) -> bool {
        true
    }

    fn handle_event(&self, state: &mut (), event: ComponentEvent) -> (out: ComponentEvent) {
        event
    }
}

impl<R: TextRenderer, X: BlitSurface> Render<X> for Text<R> {
    type State = ();

    open spec fn render_out(&self, constraints: RenderConstraints) -> RenderConstraints {
        constraints
    }

    fn render(&self, state: &(), constraints: RenderConstraints, target: &mut X) -> (out: VuiResult<
        RenderConstraints,
    >)
        ensures
            constraints.clip_rect.is_empty() ==> out is Ok,
    {
        if constraints.is_degenerate() {
            return Ok(constraints);
        }
        let texture = match self.renderer.render(self.text.as_str()) {
            Ok(t) => t,
            Err(e) => {
                return Err(e);
            },
        };
        match target.blit_surface(&constraints, texture) {
            Ok(_) => Ok(constraints),
            Err(e) => Err(e),
        }
    }
}

/// A homogeneous collection of components visited once per event or frame,
/// independently of one another: siblings never narrow each other's
/// geometry, only an enclosing component affects them all uniformly.
pub struct Collection<C> {
    pub components: C,
}

impl<C> Collection<C> {
    pub fn new(components: C) -> (r: Self)
        ensures
            r.components == components,
    {
        Self { components }
    }
}

impl<T> Collection<Vec<T>> {
    /// Hands `event` to every component, pairing each with its own state
    /// slot; every component sees the same, un-narrowed event, and the
    /// original event is re-emitted for the enclosing chain.
    pub fn handle_event(&self, state: &mut Vec<<T as HandleEvent>::State>, event: ComponentEvent) -> (out:
        ComponentEvent) where T: HandleEvent
        requires
            old(state).len() == self.components.len(),
        ensures
            final(state).len() == old(state).len(),
            forall|j: int|
                0 <= j < self.components@.len() ==> self.components@[j].handled(
                    #[trigger] old(state)@[j],
                    final(state)@[j],
                    event,
                ),
            out == event,
    {
        let n = self.components.len();
        let mut i: usize = 0;
        while i < n
            invariant
                n == self.components.len(),
                state.len() == n,
                0 <= i <= n,
                forall|j: int|
                    0 <= j < i ==> self.components@[j].handled(
                        #[trigger] old(state)@[j],
                        state@[j],
                        event,
                    ),
                forall|j: int| i <= j < n ==> state@[j] == old(state)@[j],
            decreases n - i,
        {
            let ghost pre_loop = state@;
            let mut elem = state.remove(i);
            let _ = self.components[i].handle_event(&mut elem, event);
            state.insert(i, elem);
            proof {
                assert(state@ =~= pre_loop.update(i as int, state@[i as int]));
            }
            i = i + 1;
        }
        event
    }

    /// Renders every component against the same accumulated clip region; a
    /// backend error aborts the pass, and the region is handed on
    /// unchanged.
    pub fn render<R>(
        &self,
        state: &Vec<<T as Render<R>>::State>,
        constraints: RenderConstraints,
        target: &mut R,
    ) -> (out: VuiResult<RenderConstraints>) where T: Render<R>
        requires
            state.len() == self.components.len(),
        ensures
            out matches Ok(c) ==> c == constraints,
            self.components@.len() == 0 ==> out is Ok,
    {
        let n = self.components.len();
        let mut i: usize = 0;
        while i < n
            invariant
                n == self.components.len(),
                state.len() == n,
                0 <= i <= n,
            decreases n - i,
        {
            match self.components[i].render(&state[i], constraints, target) {
                Ok(_) => {
                },
                Err(e) => {
                    return Err(e);
                },
            }
            i = i + 1;
        }
        Ok(constraints)
    }
}

/// The rectangle each positioned component of a collection occupies: its
/// offset paired with its reported size.
pub open spec fn positioned_rects<T: CalculateSize>(components: Seq<Chain<Position, T>>) -> Seq<
    Rect,
> {
    components.map(
        |i: int, c: Chain<Position, T>|
            (Rect { origin: c.first.value, size: c.rest.spec_size() }),
    )
}

/// The right edge of the corner one past every rectangle of the sequence,
/// no closer to the origin than the origin itself.
pub open spec fn spec_corner_x(rects: Seq<Rect>) -> int
    decreases rects.len(),
{
    if rects.len() == 0 {
        0
    } else {
        imax(spec_corner_x(rects.drop_last()), rects.last().right())
    }
}

/// The bottom edge of that corner.
pub open spec fn spec_corner_y(rects: Seq<Rect>) -> int
    decreases rects.len(),
{
    if rects.len() == 0 {
        0
    } else {
        imax(spec_corner_y(rects.drop_last()), rects.last().bottom())
    }
}

/// The leftmost origin of any rectangle of the sequence, no further from
/// the coordinate origin than zero.
pub open spec fn spec_floor_x(rects: Seq<Rect>) -> int
    decreases rects.len(),
{
    if rects.len() == 0 {
        0
    } else {
        imin(spec_floor_x(rects.drop_last()), rects.last().origin.x as int)
    }
}

/// The topmost origin of any rectangle of the sequence, no further from
/// the coordinate origin than zero.
pub open spec fn spec_floor_y(rects: Seq<Rect>) -> int
    decreases rects.len(),
{
    if rects.len() == 0 {
        0
    } else {
        imin(spec_floor_y(rects.drop_last()), rects.last().origin.y as int)
    }
}

/// The extent of the smallest region covering the coordinate origin and
/// every rectangle of the sequence: from the leftmost and topmost origin
/// (or zero, whichever is nearer) to the far corner, forced back into
/// coordinate range where the span outgrows it.
pub open spec fn spec_bounding_size(rects: Seq<Rect>) -> Size {
    Size {
        width: clamp_i32(spec_corner_x(rects) - spec_floor_x(rects)) as i32,
        height: clamp_i32(spec_corner_y(rects) - spec_floor_y(rects)) as i32,
    }
}

impl<T: CalculateSize> Collection<Vec<Chain<Position, T>>> {
    /// The extent of the smallest region covering the coordinate origin
    /// and every positioned component: the size an ancestor sees for the
    /// whole collection. A component at a negative offset widens the
    /// extent just as one past the far corner does.
    pub fn size(&self) -> (r: Size)
        ensures
            r == spec_bounding_size(positioned_rects(self.components@)),
    {
        let ghost rects = positioned_rects(self.components@);
        let n = self.components.len();
        let mut corner_x: i64 = 0;
        let mut corner_y: i64 = 0;
        let mut floor_x: i64 = 0;
        let mut floor_y: i64 = 0;
        let mut i: usize = 0;
        while i < n
            invariant
                n == self.components.len(),
                rects == positioned_rects(self.components@),
                rects.len() == n,
                0 <= i <= n,
                corner_x == spec_corner_x(rects.take(i as int)),
                corner_y == spec_corner_y(rects.take(i as int)),
                floor_x == spec_floor_x(rects.take(i as int)),
                floor_y == spec_floor_y(rects.take(i as int)),
                0 <= corner_x < 0x1_0000_0000,
                0 <= corner_y < 0x1_0000_0000,
                -0x8000_0000 <= floor_x <= 0,
                -0x8000_0000 <= floor_y <= 0,
            decreases n - i,
        {
            let position = self.components[i].first.position();
            let size = self.components[i].rest.calculate_size();
            let right: i64 = position.x as i64 + size.width as i64;
            let bottom: i64 = position.y as i64 + size.height as i64;
            proof {
                assert(rects.take(i + 1 as int).drop_last() =~= rects.take(i as int));
                assert(rects.take(i + 1 as int).last() == rects[i as int]);
            }
            if right > corner_x {
                corner_x = right;
            }
            if bottom > corner_y {
                corner_y = bottom;
            }
            if (position.x as i64) < floor_x {
                floor_x = position.x as i64;
            }
            if (position.y as i64) < floor_y {
                floor_y = position.y as i64;
            }
            i = i + 1;
        }
        proof {
            assert(rects.take(n as int) =~= rects);
        }
        Size::new(clamp_to_i32(corner_x - floor_x), clamp_to_i32(corner_y - floor_y))
    }
}

} // verus!
