//! The push-button widget: a fixed outer size, a hit-testing sensor, a
//! background chosen between two pre-rendered faces by the current click
//! state, and an inset label. The recipe is fixed when the button is
//! built; changing the label means rebuilding the button value.

use vstd::prelude::*;

use crate::component::Chain;
use crate::component::ComponentEvent;
use crate::component::FramedPosition;
use crate::component::HandleEvent;
use crate::component::MouseSensor;
use crate::component::MouseSensorState;
use crate::component::Position;
use crate::component::Render;
use crate::component::CalculateSize;
use crate::component::Frame;
use crate::geom::point::Point;
use crate::geom::size::Size;
use crate::geom::vector::Vector;
use crate::mouse::MouseButton;
use crate::render::BlitSurface;
use crate::render::RenderConstraints;
use crate::VuiResult;

verus! {

/// A stateless leaf that draws one pre-rendered drawable at the current
/// clip region's origin.
#[derive(Debug, Clone, Copy)]
pub struct Prerendered {
    pub texture: u64,
}

impl Prerendered {
    pub fn new(texture: u64) -> (r: Self)
        ensures
            r == (Prerendered { texture }),
    {
        Self { texture }
    }
}

impl HandleEvent for Prerendered {
    type State = ();

    open spec fn event_out(&self, event: ComponentEvent) -> ComponentEvent {
        event
    }

    open spec fn handled(&self, pre: (), post: (), event: ComponentEvent) -> bool {
        true
    }

    fn handle_event(&self, state: &mut (), event: ComponentEvent) -> (out: ComponentEvent) {
        event
    }
}

impl<R: BlitSurface> Render<R> for Prerendered {
    type State = ();

    open spec fn render_out(&self, constraints: RenderConstraints) -> RenderConstraints {
        constraints
    }

    fn render(&self, state: &(), constraints: RenderConstraints, target: &mut R) -> (out: VuiResult<
        RenderConstraints,
    >)
        ensures
            constraints.clip_rect.is_empty() ==> out is Ok,
    {
        if constraints.is_degenerate() {
            return Ok(constraints);
        }
        match target.blit_surface(&constraints, self.texture) {
            Ok(_) => Ok(constraints),
            Err(e) => Err(e),
        }
    }
}

/// The two faces of a button's background: one shown while the tracked
/// button is up, one while it is down.
#[derive(Debug, Clone, Copy)]
pub struct ButtonRender {
    pub unclicked: Prerendered,
    pub clicked: Prerendered,
}

impl ButtonRender {
    pub fn new(unclicked: u64, clicked: u64) -> (r: Self)
        ensures
            r.unclicked.texture == unclicked,
            r.clicked.texture == clicked,
    {
        Self { unclicked: Prerendered::new(unclicked), clicked: Prerendered::new(clicked) }
    }

    /// The face shown for a given pressed state.
    pub fn texture_for(&self, down: bool) -> (r: u64)
        ensures
            r == if down {
                self.clicked.texture
            } else {
                self.unclicked.texture
            },
    {
        if down {
            self.clicked.texture
        } else {
            self.unclicked.texture
        }
    }
}

/// A chain pair whose head does not take part in event handling: events
/// skip the head and go straight to the tail.
pub struct EzTuple<T, U>(pub T, pub U);

/// Stacks a new head onto a component, yielding an [`EzTuple`].
pub trait EzStack: Sized {
    fn ez_stack<N>(self, next: N) -> (r: EzTuple<N, Self>)
        ensures
            r.0 == next,
            r.1 == self,
    ;
}

impl<T: Sized> EzStack for T {
    fn ez_stack<N>(self, next: N) -> (r: EzTuple<N, Self>) {
        EzTuple(next, self)
    }
}


impl<T, C: HandleEvent> HandleEvent for EzTuple<T, C> {
    type State = C::State;

    open spec fn event_out(&self, event: ComponentEvent) -> ComponentEvent {
        self.1.event_out(event)
    }

    open spec fn handled(&self, pre: C::State, post: C::State, event: ComponentEvent) -> bool {
        self.1.handled(pre, post, event)
    }

    fn handle_event(&self, state: &mut C::State, event: ComponentEvent) -> (out: ComponentEvent) {
        self.1.handle_event(state, event)
    }
}

/// The state a button owns: the interaction state of its mouse sensor.
#[derive(Debug, Clone, Copy)]
pub struct ButtonState {
    pub mouse_sensor: MouseSensorState,
}

impl Default for ButtonState {
    fn default() -> (r: Self)
        ensures
            r.mouse_sensor.hover_state.flags == 0,
            r.mouse_sensor.click_states.click_state == 0,
            r.mouse_sensor.click_states.event_state == 0,
    {
        ButtonState { mouse_sensor: MouseSensorState::default() }
    }
}

impl ButtonState {
    /// Whether a left click on the button completed this frame.
    pub fn was_clicked(&self) -> (r: bool)
        ensures
            r == self.mouse_sensor.click_states.spec_has_click_completed(MouseButton::Left),
    {
        self.mouse_sensor.click_states().has_click_completed(MouseButton::Left)
    }
}

/// The push-button recipe: frame, sensor, two-faced background, and an
/// inset label.
pub struct Button {
    pub component: Chain<
        Frame,
        Chain<MouseSensor, EzTuple<ButtonRender, Chain<Position, Prerendered>>>,
    >,
}

/// The fixed inset between a button's edge and its label.
pub const LABEL_INSET: i32 = 2;

impl Button {
    /// Builds a button of the given outer size from three pre-rendered
    /// drawables: the pressed face, the released face, and the label.
    pub fn new(button_clicked: u64, button_unclicked: u64, label: u64, size: Size) -> (r: Self)
        ensures
            r.component.first.size == size,
            r.component.rest.rest.0.clicked.texture == button_clicked,
            r.component.rest.rest.0.unclicked.texture == button_unclicked,
            r.component.rest.rest.1.first.value == (Point { x: LABEL_INSET, y: LABEL_INSET }),
            r.component.rest.rest.1.rest.texture == label,
    {
        let component = Chain::new(
            Frame::new(size),
            Chain::new(
                MouseSensor::new(),
                Chain::new(
                    Position::new(Point::new(LABEL_INSET, LABEL_INSET)),
                    Prerendered::new(label),
                ).ez_stack(ButtonRender::new(button_unclicked, button_clicked)),
            ),
        );
        Self { component }
    }
}

impl CalculateSize for Button {
    open spec fn spec_size(&self) -> Size {
        self.component.first.size
    }

    fn calculate_size(&self) -> (r: Size) {
        self.component.first.calculate_size()
    }
}

impl HandleEvent for Button {
    type State = ButtonState;

    open spec fn event_out(&self, event: ComponentEvent) -> ComponentEvent {
        event.spec_shrink(self.component.first.size).spec_clip(
            self.component.rest.rest.1.first.spec_offset(),
        )
    }

    open spec fn handled(&self, pre: ButtonState, post: ButtonState, event: ComponentEvent) -> bool {
        post.mouse_sensor == pre.mouse_sensor.spec_handle(
            event.spec_shrink(self.component.first.size),
        )
    }

    fn handle_event(&self, state: &mut ButtonState, event: ComponentEvent) -> (out:
        ComponentEvent) {
        let mut chain_state = ((), (state.mouse_sensor, ((), ())));
        let out = self.component.handle_event(&mut chain_state, event);
        state.mouse_sensor = chain_state.1.0;
        out
    }
}

/// From any prior state, a left-button press and release that both land
/// inside the button's framed region complete a click: the button reports
/// it was clicked.
pub proof fn lemma_button_press_release_clicks(
    button: Button,
    s1: ButtonState,
    s2: ButtonState,
    s3: ButtonState,
    down: FramedPosition,
    up: FramedPosition,
)
    requires
        button.handled(s1, s2, ComponentEvent::MouseButtonDown(MouseButton::Left, down)),
        button.handled(s2, s3, ComponentEvent::MouseButtonUp(MouseButton::Left, up)),
        down.spec_shrink(button.component.first.size).spec_is_hit(),
        up.spec_shrink(button.component.first.size).spec_is_hit(),
    ensures
        s3.mouse_sensor.click_states.spec_has_click_completed(MouseButton::Left),
{
    let size = button.component.first.size;
    crate::component::mouse_sensor::lemma_sensor_click_cycle(
        s1.mouse_sensor,
        MouseButton::Left,
        down.spec_shrink(size),
        up.spec_shrink(size),
    );
}

/// A press that missed the button's framed region never turns a later
/// release into a click, wherever the release lands.
pub proof fn lemma_button_missed_press_never_clicks(
    button: Button,
    s1: ButtonState,
    s2: ButtonState,
    s3: ButtonState,
    down: FramedPosition,
    up: FramedPosition,
)
    requires
        button.handled(s1, s2, ComponentEvent::MouseButtonDown(MouseButton::Left, down)),
        button.handled(s2, s3, ComponentEvent::MouseButtonUp(MouseButton::Left, up)),
        !down.spec_shrink(button.component.first.size).spec_is_hit(),
    ensures
        !s3.mouse_sensor.click_states.spec_has_click_completed(MouseButton::Left),
{
    let size = button.component.first.size;
    crate::component::mouse_sensor::lemma_sensor_missed_press_never_completes(
        s1.mouse_sensor,
        MouseButton::Left,
        down.spec_shrink(size),
        up.spec_shrink(size),
    );
}

impl<R: BlitSurface> Render<R> for Button {
    type State = ButtonState;

    open spec fn render_out(&self, constraints: RenderConstraints) -> RenderConstraints {
        RenderConstraints {
            clip_rect: constraints.clip_rect.spec_shrink(self.component.first.size).spec_clip(
                self.component.rest.rest.1.first.spec_offset(),
            ),
        }
    }

    fn render(
        &self,
        state: &ButtonState,
        constraints: RenderConstraints,
        target: &mut R,
    ) -> (out: VuiResult<RenderConstraints>)
        ensures
            constraints.clip_rect.is_empty() ==> out is Ok,
    {
        let framed = constraints.clip_size(self.component.first.size);
        let down = state.mouse_sensor.click_states().is_down(MouseButton::Left);
        let background = &self.component.rest.rest.0;
        if !framed.is_degenerate() {
            match target.blit_surface(&framed, background.texture_for(down)) {
                Ok(_) => {
                },
                Err(e) => {
                    return Err(e);
                },
            }
        }
        let inset = &self.component.rest.rest.1.first;
        let label_region = framed.clip_topleft(inset.value.as_vector());
        let label = &self.component.rest.rest.1.rest;
        if !label_region.is_degenerate() {
            match target.blit_surface(&label_region, label.texture) {
                Ok(_) => {
                },
                Err(e) => {
                    return Err(e);
                },
            }
        }
        proof {
            crate::geom::rect::lemma_sub_rect_trans(
                label_region.clip_rect,
                framed.clip_rect,
                constraints.clip_rect,
            );
        }
        Ok(label_region)
    }
}

} // verus!
