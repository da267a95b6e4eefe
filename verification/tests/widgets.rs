use amulet::component::Chain;
use amulet::component::Frame;
use amulet::component::HandleEvent;
use amulet::component::MouseSensor;
use amulet::component::MouseSensorState;
use amulet::component::Position;
use amulet::component::Render;
use amulet::component::TextRenderer;
use amulet::geom::Point;
use amulet::geom::Rect;
use amulet::geom::Size;
use amulet::mouse::MouseButton;
use amulet::render::BlitSurface;
use amulet::render::RenderConstraints;
use amulet::widget::button::ButtonRender;
use amulet::widget::button::EzStack;
use amulet::widget::button::Prerendered;
use amulet::widget::Button;
use amulet::widget::ButtonState;
use amulet::widget::DynText;
use amulet::widget::Image;
use amulet::widget::TextInput;
use amulet::widget::TextInputState;
use amulet::GlobalEvent;
use amulet::VuiError;
use amulet::VuiResult;

#[derive(Default)]
struct RecordingBackend {
    blits: Vec<(u64, Rect)>,
    fills: Vec<((u8, u8, u8), Rect)>,
}

impl BlitSurface for RecordingBackend {
    fn blit_surface(&mut self, constraints: &RenderConstraints, texture: u64) -> VuiResult<()> {
        self.blits.push((texture, constraints.clip_rect()));
        Ok(())
    }

    fn fill(&mut self, constraints: &RenderConstraints, red: u8, green: u8, blue: u8) -> VuiResult<()> {
        self.fills.push(((red, green, blue), constraints.clip_rect()));
        Ok(())
    }
}

struct FailingBackend;

impl BlitSurface for FailingBackend {
    fn blit_surface(&mut self, _constraints: &RenderConstraints, _texture: u64) -> VuiResult<()> {
        Err(VuiError::new(String::from("texture creation failed")))
    }

    fn fill(&mut self, _constraints: &RenderConstraints, _red: u8, _green: u8, _blue: u8) -> VuiResult<()> {
        Err(VuiError::new(String::from("fill failed")))
    }
}

struct FixedTextRenderer;

impl TextRenderer for FixedTextRenderer {
    fn size_of(&self, text: &str) -> VuiResult<Size> {
        Ok(Size::new(8 * text.len() as i32, 16))
    }

    fn render(&self, _text: &str) -> VuiResult<u64> {
        Ok(42)
    }
}

struct FailingTextRenderer;

impl TextRenderer for FailingTextRenderer {
    fn size_of(&self, _text: &str) -> VuiResult<Size> {
        Err(VuiError::new(String::from("no font")))
    }

    fn render(&self, _text: &str) -> VuiResult<u64> {
        Err(VuiError::new(String::from("no font")))
    }
}

fn root_rect() -> Rect {
    Rect::from_xywh(0, 0, 800, 600)
}

#[test]
fn button_click_inside_completes() {
    // A button positioned at (10,10) with size 100x30; down and up both at
    // (50,20), inside, within one frame: the click completes.
    let chain = Chain::new(
        Position::new(Point::new(10, 10)),
        Button::new(1, 2, 3, Size::new(100, 30)),
    );
    let mut state = ((), ButtonState::default());
    let events = [
        GlobalEvent::LoopStart,
        GlobalEvent::MouseButtonDown(MouseButton::Left, Point::new(50, 20)),
        GlobalEvent::MouseButtonUp(MouseButton::Left, Point::new(50, 20)),
    ];
    for event in events {
        chain.handle_event(&mut state, event.into_component_event(root_rect()));
    }
    assert!(state.1.was_clicked());
}

#[test]
fn button_click_started_outside_does_not_complete() {
    // The same button, but the button-down lands at (5,5), outside: the
    // later button-up inside is not a completed click.
    let chain = Chain::new(
        Position::new(Point::new(10, 10)),
        Button::new(1, 2, 3, Size::new(100, 30)),
    );
    let mut state = ((), ButtonState::default());
    let events = [
        GlobalEvent::LoopStart,
        GlobalEvent::MouseButtonDown(MouseButton::Left, Point::new(5, 5)),
        GlobalEvent::MouseButtonUp(MouseButton::Left, Point::new(50, 20)),
    ];
    for event in events {
        chain.handle_event(&mut state, event.into_component_event(root_rect()));
    }
    assert!(!state.1.was_clicked());
}

#[test]
fn sensor_hit_through_position_and_frame() {
    // Position(20,20) wrapping Frame(50,50) wrapping a sensor: absolute
    // (25,25) translates to local (5,5) and hits; absolute (5,5) translates
    // to local (-15,-15) and misses.
    let chain = Chain::new(
        Position::new(Point::new(20, 20)),
        Chain::new(Frame::new(Size::new(50, 50)), MouseSensor::new()),
    );
    let mut state = ((), ((), MouseSensorState::default()));

    let motion = GlobalEvent::MouseMotion(Point::new(25, 25));
    chain.handle_event(&mut state, motion.into_component_event(root_rect()));
    assert!(state.1 .1.hover_state().is_hovering());
    assert!(state.1 .1.hover_state().has_entered());

    let motion = GlobalEvent::MouseMotion(Point::new(5, 5));
    chain.handle_event(&mut state, motion.into_component_event(root_rect()));
    assert!(!state.1 .1.hover_state().is_hovering());
    assert!(state.1 .1.hover_state().has_left());
}

#[test]
fn state_round_trip_through_render_and_event() {
    // Composing a chain's state tuple, running a render - event - render
    // cycle, and decomposing it again preserves each component's state:
    // the sensor's slot holds exactly what the sensor recorded, the
    // stateless slot stays empty, nothing is duplicated or lost.
    let chain = Chain::new(Frame::new(Size::new(40, 40)), MouseSensor::new());
    let sensor_state = MouseSensorState::default();
    let mut state = ((), sensor_state);

    let mut backend = RecordingBackend::default();
    let constraints = RenderConstraints::new(Rect::from_xywh(0, 0, 100, 100));
    chain.render(&state, constraints, &mut backend).unwrap();

    let down = GlobalEvent::MouseButtonDown(MouseButton::Left, Point::new(5, 5));
    chain.handle_event(&mut state, down.into_component_event(Rect::from_xywh(0, 0, 100, 100)));

    chain.render(&state, constraints, &mut backend).unwrap();

    let ((), out_sensor) = state;
    assert!(out_sensor.click_states().is_down(MouseButton::Left));
    assert!(out_sensor.click_states().has_click_started(MouseButton::Left));
    assert_eq!(0, out_sensor.hover_state().flags);
}

#[test]
fn button_renders_released_then_pressed_face() {
    let button = Button::new(11, 22, 33, Size::new(100, 30));
    let mut state = ButtonState::default();
    let constraints = RenderConstraints::new(root_rect());

    let mut backend = RecordingBackend::default();
    button.render(&state, constraints, &mut backend).unwrap();
    assert_eq!((22, Rect::from_xywh(0, 0, 100, 30)), backend.blits[0]);
    assert_eq!((33, Rect::from_xywh(2, 2, 98, 28)), backend.blits[1]);

    let down = GlobalEvent::MouseButtonDown(MouseButton::Left, Point::new(50, 20));
    button.handle_event(&mut state, down.into_component_event(root_rect()));

    let mut backend = RecordingBackend::default();
    button.render(&state, constraints, &mut backend).unwrap();
    assert_eq!((11, Rect::from_xywh(0, 0, 100, 30)), backend.blits[0]);
}

#[test]
fn button_render_propagates_backend_error() {
    let button = Button::new(11, 22, 33, Size::new(100, 30));
    let state = ButtonState::default();
    let mut backend = FailingBackend;
    let out = button.render(&state, RenderConstraints::new(root_rect()), &mut backend);
    assert!(out.is_err());
    assert_eq!("texture creation failed", out.unwrap_err().message);
}

#[test]
fn button_render_helpers() {
    let faces = ButtonRender::new(7, 8);
    assert_eq!(7, faces.texture_for(false));
    assert_eq!(8, faces.texture_for(true));
    assert_eq!(5, Prerendered::new(5).texture);
    let stacked = Prerendered::new(1).ez_stack(ButtonRender::new(2, 3));
    assert_eq!(2, stacked.0.unclicked.texture);
    assert_eq!(1, stacked.1.texture);
}

#[test]
fn text_input_accumulates_text_and_tracks_clicks() {
    let text_input = TextInput::new(
        Chain::new(Frame::new(Size::new(120, 24)), MouseSensor::new()),
        Chain::new(
            Position::new(Point::new(5, 3)),
            Chain::new(Frame::new(Size::new(110, 18)), Position::new(Point::new(0, 0))),
        ),
        Image::new(7, Size::new(120, 24)),
        DynText::new(FixedTextRenderer),
    );
    let mut state = TextInputState::default();
    assert_eq!("", state.text);
    state.update("hel");
    state.update("lo");
    assert_eq!("hello", state.text);

    let events = [
        GlobalEvent::LoopStart,
        GlobalEvent::MouseButtonDown(MouseButton::Left, Point::new(60, 12)),
        GlobalEvent::MouseButtonUp(MouseButton::Left, Point::new(60, 12)),
    ];
    for event in events {
        text_input.handle_event(&mut state, event.into_component_event(root_rect()));
    }
    assert!(state.mouse_sensor.click_states().has_click_completed(MouseButton::Left));
    assert_eq!("hello", state.text);

    let mut backend = RecordingBackend::default();
    text_input
        .render(&state, RenderConstraints::new(root_rect()), &mut backend)
        .unwrap();
    assert_eq!((7, Rect::from_xywh(0, 0, 120, 24)), backend.blits[0]);
    assert_eq!((42, Rect::from_xywh(5, 3, 110, 18)), backend.blits[1]);
}

#[test]
fn dyn_text_skips_empty_text() {
    let dyn_text = DynText::new(FixedTextRenderer);
    let mut backend = RecordingBackend::default();
    let constraints = RenderConstraints::new(root_rect());
    let out = dyn_text.render_text("", constraints, &mut backend);
    assert!(out.is_ok());
    assert!(backend.blits.is_empty());

    let out = dyn_text.render_text("hi", constraints, &mut backend);
    assert!(out.is_ok());
    assert_eq!((42, root_rect()), backend.blits[0]);
}

#[test]
fn dyn_text_propagates_rasterizer_error() {
    let dyn_text = DynText::new(FailingTextRenderer);
    let mut backend = RecordingBackend::default();
    let out = dyn_text.render_text("hi", RenderConstraints::new(root_rect()), &mut backend);
    assert_eq!("no font", out.unwrap_err().message);
}

#[test]
fn degenerate_region_skips_draw_calls() {
    // Once the clip region has degenerated, the pass skips silently: the
    // backend sees no draw call and the empty region is handed on.
    let button = Button::new(11, 22, 33, Size::new(100, 30));
    let state = ButtonState::default();
    let empty = RenderConstraints::new(Rect::from_xywh(40, 40, 0, 0));
    let mut backend = RecordingBackend::default();
    let out = button.render(&state, empty, &mut backend).unwrap();
    assert!(backend.blits.is_empty());
    assert_eq!(Rect::from_xywh(42, 42, 0, 0), out.clip_rect());

    // Even a backend that fails every call is never reached.
    let mut failing = FailingBackend;
    assert!(button.render(&state, empty, &mut failing).is_ok());

    let image = Image::new(9, Size::new(16, 16));
    let mut backend = RecordingBackend::default();
    image.render(&(), empty, &mut backend).unwrap();
    assert!(backend.blits.is_empty());

    let dyn_text = DynText::new(FixedTextRenderer);
    let mut backend = RecordingBackend::default();
    dyn_text.render_text("hi", empty, &mut backend).unwrap();
    assert!(backend.blits.is_empty());
}

#[test]
fn image_draws_its_texture() {
    let image = Image::new(9, Size::new(16, 16));
    let mut backend = RecordingBackend::default();
    let out = image.render(&(), RenderConstraints::new(root_rect()), &mut backend);
    assert!(out.is_ok());
    assert_eq!((9, root_rect()), backend.blits[0]);
}
