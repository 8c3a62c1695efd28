//! A minimal 2D scene-rendering core: exact-rational coordinates, a camera
//! with stable zoom-at-a-point, a closed set of drawable shapes, and a
//! per-frame update/render protocol whose ordering guarantees are verified.
//!
//! Platform work (window, GPU, fonts, event plumbing) is not part of this
//! crate: the application loop here produces ordered draw commands as plain
//! data, and an embedding program executes them.

pub mod app;
pub mod camera;
pub mod color;
pub mod rational;
pub mod shapes;
pub mod vec2;

pub use app::App;
pub use app::FrameInput;
pub use app::LoopState;
pub use app::PositionUpdate;
pub use camera::Camera2D;
pub use color::Color;
pub use rational::Q;
pub use rational::Qv;
pub use shapes::Circle;
pub use shapes::DrawCommand;
pub use shapes::Rectangle;
pub use shapes::Renderer;
pub use shapes::ShapeKind;
pub use shapes::ShapeRenderable;
pub use shapes::ShapeStyle;
pub use shapes::Text;
pub use shapes::Triangle;
pub use vec2::Vec2;
