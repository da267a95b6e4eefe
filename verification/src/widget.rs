//! Composite widgets: fixed recipes built by chaining primitive
//! components, each owning its own state struct.

pub mod button;
pub mod dyn_text;
pub mod image;
pub mod text_input;

pub use button::Button;
pub use button::ButtonState;
pub use dyn_text::DynText;
pub use image::Image;
pub use text_input::TextInput;
pub use text_input::TextInputState;
