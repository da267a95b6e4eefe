//! A retained-mode UI component toolkit: composable widgets over an abstract
//! 2D render surface, with a mouse-event routing and hit-testing pipeline.
//!
//! Heterogeneous components are combined into nested chains; each link of a
//! chain transforms the event-time and render-time geometry as events and
//! render instructions flow through it. Correctness rests on static
//! composition rules: geometry only ever narrows on its way from the root to
//! a leaf, and per-component state is threaded through the chain as a tuple
//! whose shape mirrors the chain itself.

use vstd::prelude::*;

pub mod bitops;
pub mod component;
pub mod geom;
pub mod math;
pub mod mouse;
pub mod generator;
pub mod render;
pub mod util;
pub mod widget;

verus! {

/// The uniform error type: every fallible operation of the toolkit wraps a
/// message in this type and aborts the current render or event pass.
#[derive(Debug)]
pub struct VuiError {
    pub message: String,
}

impl VuiError {
    pub fn new(message: String) -> (r: Self)
        ensures
            r.message == message,
    {
        Self { message }
    }

    /// The wrapped message.
    pub fn message(&self) -> (r: &String)
        ensures
            r == self.message,
    {
        &self.message
    }
}

pub type VuiResult<T> = Result<T, VuiError>;

/// A raw pointer event as the input source hands it in: a frame boundary
/// or a pointer event with an absolute position, not yet tied to any
/// component's geometry.
#[derive(Debug, Clone, Copy, PartialEq, Eq, Structural)]
pub enum GlobalEvent {
    LoopStart,
    MouseMotion(geom::Point),
    MouseButtonDown(mouse::MouseButton, geom::Point),
    MouseButtonUp(mouse::MouseButton, geom::Point),
}

impl GlobalEvent {
    /// Ties this raw event to a component tree: the pointer position is
    /// paired with the tree's root rectangle, which the chain then narrows
    /// step by step.
    pub fn into_component_event(self, comp_rect: geom::Rect) -> (r: component::ComponentEvent)
        ensures
            r == match self {
                GlobalEvent::LoopStart => component::ComponentEvent::LoopStart,
                GlobalEvent::MouseMotion(pos) => component::ComponentEvent::MouseMotion(
                    component::FramedPosition { position: pos, frame: comp_rect },
                ),
                GlobalEvent::MouseButtonDown(btn, pos) => component::ComponentEvent::MouseButtonDown(
                    btn,
                    component::FramedPosition { position: pos, frame: comp_rect },
                ),
                GlobalEvent::MouseButtonUp(btn, pos) => component::ComponentEvent::MouseButtonUp(
                    btn,
                    component::FramedPosition { position: pos, frame: comp_rect },
                ),
            },
    {
        match self {
            GlobalEvent::LoopStart => component::ComponentEvent::LoopStart,
            GlobalEvent::MouseMotion(pos) => component::ComponentEvent::MouseMotion(
                component::FramedPosition::new(pos, comp_rect),
            ),
            GlobalEvent::MouseButtonDown(btn, pos) => component::ComponentEvent::MouseButtonDown(
                btn,
                component::FramedPosition::new(pos, comp_rect),
            ),
            GlobalEvent::MouseButtonUp(btn, pos) => component::ComponentEvent::MouseButtonUp(
                btn,
                component::FramedPosition::new(pos, comp_rect),
            ),
        }
    }
}

} // verus!
