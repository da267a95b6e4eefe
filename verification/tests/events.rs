use amulet::component::mouse_aware::ClickState;
use amulet::component::mouse_aware::MouseAware;
use amulet::component::mouse_aware::MouseAwareState;
use amulet::component::CalculateSize;
use amulet::component::Collection;
use amulet::component::ComponentEvent;
use amulet::component::Chain;
use amulet::component::Frame;
use amulet::component::FramedPosition;
use amulet::component::HandleEvent;
use amulet::component::MouseSensor;
use amulet::component::MouseSensorState;
use amulet::component::Noop;
use amulet::component::Position;
use amulet::component::Text;
use amulet::component::TextRenderer;
use amulet::generator::Generator;
use amulet::generator::GeneratorMut;
use amulet::geom::Point;
use amulet::geom::Rect;
use amulet::geom::Size;
use amulet::geom::Vector;
use amulet::mouse::MouseButton;
use amulet::util::TupleExtend;
use amulet::GlobalEvent;
use amulet::VuiError;
use amulet::VuiResult;

struct FixedTextRenderer;

impl TextRenderer for FixedTextRenderer {
    fn size_of(&self, text: &str) -> VuiResult<Size> {
        Ok(Size::new(8 * text.len() as i32, 16))
    }

    fn render(&self, _text: &str) -> VuiResult<u64> {
        Ok(42)
    }
}

struct FailingTextRenderer;

impl TextRenderer for FailingTextRenderer {
    fn size_of(&self, _text: &str) -> VuiResult<Size> {
        Err(VuiError::new(String::from("no font")))
    }

    fn render(&self, _text: &str) -> VuiResult<u64> {
        Err(VuiError::new(String::from("no font")))
    }
}

fn root_rect() -> Rect {
    Rect::from_xywh(0, 0, 800, 600)
}

#[test]
fn global_event_carries_frame_and_position() {
    let event = GlobalEvent::MouseMotion(Point::new(3, 4)).into_component_event(root_rect());
    match event {
        ComponentEvent::MouseMotion(fp) => {
            assert_eq!(Point::new(3, 4), fp.position);
            assert_eq!(root_rect(), fp.frame);
        }
        other => panic!("unexpected event {:?}", other),
    }
    assert_eq!(
        ComponentEvent::LoopStart,
        GlobalEvent::LoopStart.into_component_event(root_rect())
    );
}

#[test]
fn framed_position_narrows_and_hit_tests() {
    let fp = FramedPosition::new(Point::new(30, 30), root_rect());
    assert!(fp.is_hit());
    let narrowed = fp.clip(Vector::new(20, 20)).shrink(Size::new(50, 50));
    assert_eq!(Rect::from_xywh(20, 20, 50, 50), narrowed.frame);
    assert_eq!(Point::new(30, 30), narrowed.position);
    assert!(narrowed.is_hit());
    let far = narrowed.clip(Vector::new(100, 0));
    assert!(!far.is_hit());
}

#[test]
fn event_geometry_narrows_through_variants() {
    let down = GlobalEvent::MouseButtonDown(MouseButton::Right, Point::new(1, 2))
        .into_component_event(root_rect());
    match down.shrink(Size::new(10, 10)) {
        ComponentEvent::MouseButtonDown(btn, fp) => {
            assert_eq!(MouseButton::Right, btn);
            assert_eq!(Rect::from_xywh(0, 0, 10, 10), fp.frame);
            assert_eq!(Point::new(1, 2), fp.position);
        }
        other => panic!("unexpected event {:?}", other),
    }
    assert_eq!(ComponentEvent::LoopStart, ComponentEvent::LoopStart.clip(Vector::new(5, 5)));
}

#[test]
fn noop_and_frame_report_sizes() {
    assert_eq!(Size::new(0, 0), Noop.calculate_size());
    assert_eq!(Size::new(12, 34), Frame::new(Size::new(12, 34)).calculate_size());
}

#[test]
fn mouse_aware_click_machine() {
    let aware = MouseAware::new();
    let mut state = MouseAwareState::default();

    let motion = GlobalEvent::MouseMotion(Point::new(10, 10));
    aware.handle_event(&mut state, motion.into_component_event(root_rect()));
    assert!(state.hovering());

    let down = GlobalEvent::MouseButtonDown(MouseButton::Left, Point::new(10, 10));
    aware.handle_event(&mut state, down.into_component_event(root_rect()));
    assert!(state.click_started(MouseButton::Left));

    let frame_boundary = GlobalEvent::LoopStart.into_component_event(root_rect());
    aware.handle_event(&mut state, frame_boundary);
    assert!(!state.click_started(MouseButton::Left));
    assert_eq!(ClickState::Active, state.click_states.get(MouseButton::Left));

    let up = GlobalEvent::MouseButtonUp(MouseButton::Left, Point::new(10, 10));
    aware.handle_event(&mut state, up.into_component_event(root_rect()));
    assert!(state.click_completed(MouseButton::Left));

    aware.handle_event(&mut state, frame_boundary);
    assert_eq!(ClickState::Neutral, state.click_states.get(MouseButton::Left));
}

#[test]
fn mouse_aware_release_without_press_stays_neutral() {
    let aware = MouseAware::new();
    let mut state = MouseAwareState::default();
    let up = GlobalEvent::MouseButtonUp(MouseButton::Left, Point::new(10, 10));
    aware.handle_event(&mut state, up.into_component_event(root_rect()));
    assert!(!state.click_completed(MouseButton::Left));
    assert_eq!(ClickState::Neutral, state.click_states.get(MouseButton::Left));
}

#[test]
fn mouse_aware_release_outside_dissolves_click() {
    let aware = MouseAware::new();
    let mut state = MouseAwareState::default();
    let small = Rect::from_xywh(0, 0, 20, 20);
    let down = GlobalEvent::MouseButtonDown(MouseButton::Left, Point::new(10, 10));
    aware.handle_event(&mut state, down.into_component_event(small));
    let up = GlobalEvent::MouseButtonUp(MouseButton::Left, Point::new(100, 100));
    aware.handle_event(&mut state, up.into_component_event(small));
    assert!(!state.click_completed(MouseButton::Left));
}

#[test]
fn collection_hands_every_component_the_same_event() {
    let collection = Collection::new(vec![MouseSensor::new(), MouseSensor::new()]);
    let mut state = vec![MouseSensorState::default(), MouseSensorState::default()];
    let motion = GlobalEvent::MouseMotion(Point::new(10, 10));
    let out = collection.handle_event(&mut state, motion.into_component_event(root_rect()));
    assert!(state[0].hover_state().is_hovering());
    assert!(state[1].hover_state().is_hovering());
    assert_eq!(motion.into_component_event(root_rect()), out);
}

#[test]
fn generator_walks_a_vector() {
    let items = vec![10u32, 20, 30];
    let mut cursor: usize = 0;
    assert_eq!(Some(&10), items.next(&mut cursor));
    assert_eq!(Some(&20), items.next(&mut cursor));
    assert_eq!(Some(&30), items.next(&mut cursor));
    assert_eq!(None, items.next(&mut cursor));
    assert_eq!(3, cursor);
}

#[test]
fn generator_mut_updates_in_place() {
    let mut items = vec![10u32, 20, 30];
    let mut cursor: usize = 0;
    while let Some(element) = items.next_mut(&mut cursor) {
        *element += 1;
    }
    assert_eq!(vec![11u32, 21, 31], items);
    assert_eq!(3, cursor);
}

#[test]
fn tuple_extend_appends() {
    let pair = ().extend(1u32).extend("label");
    assert_eq!((1, "label"), pair);
    let triple = pair.extend(true);
    assert_eq!((1, "label", true), triple);
    let quad = triple.extend(7u8);
    assert_eq!((1, "label", true, 7), quad);
}

#[test]
fn text_measures_or_falls_back_to_zero() {
    let text = Text::new(String::from("abcd"), FixedTextRenderer);
    assert_eq!(Size::new(32, 16), text.size());
    let broken = Text::new(String::from("abcd"), FailingTextRenderer);
    assert_eq!(Size::new(0, 0), broken.size());
}

#[test]
fn button_codes_map_to_the_closed_set() {
    assert_eq!(Some(MouseButton::Left), MouseButton::from_code(1));
    assert_eq!(Some(MouseButton::Middle), MouseButton::from_code(2));
    assert_eq!(Some(MouseButton::Right), MouseButton::from_code(3));
    assert_eq!(None, MouseButton::from_code(0));
    assert_eq!(None, MouseButton::from_code(4));
    assert_eq!(None, MouseButton::from_code(255));
}

#[test]
fn collection_size_spans_positioned_components() {
    let collection = Collection::new(vec![
        Chain::new(Position::new(Point::new(10, 20)), Frame::new(Size::new(30, 5))),
        Chain::new(Position::new(Point::new(0, 0)), Frame::new(Size::new(15, 60))),
    ]);
    assert_eq!(Size::new(40, 60), collection.size());

    let empty: Collection<Vec<Chain<Position, Frame>>> = Collection::new(Vec::new());
    assert_eq!(Size::new(0, 0), empty.size());

    // A component at a negative offset widens the span just as one past
    // the far corner does: the region still covers the coordinate origin.
    let off_screen = Collection::new(vec![Chain::new(
        Position::new(Point::new(-50, -50)),
        Frame::new(Size::new(10, 10)),
    )]);
    assert_eq!(Size::new(50, 50), off_screen.size());

    let straddling = Collection::new(vec![
        Chain::new(Position::new(Point::new(-20, 5)), Frame::new(Size::new(10, 10))),
        Chain::new(Position::new(Point::new(30, -5)), Frame::new(Size::new(10, 10))),
    ]);
    assert_eq!(Size::new(60, 20), straddling.size());
}

#[test]
fn error_wraps_message() {
    let error = VuiError::new(String::from("boom"));
    assert_eq!("boom", error.message());
}
