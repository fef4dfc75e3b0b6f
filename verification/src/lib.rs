//! A renderer that turns the draw data of an immediate-mode GUI frame into the
//! calls a fixed-function Direct3D 9 device expects.

pub mod buffers;
pub mod device;
pub mod draw;
pub mod draw_data;
pub mod draw_laws;
pub mod font;
pub mod frame;
pub mod guard;
pub mod laws;
pub mod pass;
pub mod pipeline;
pub mod registry;
pub mod renderer;
pub mod sums;
pub mod vertex;

pub use renderer::Renderer;
