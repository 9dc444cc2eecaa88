pub mod options;
pub mod render_options;
pub mod shapes;
pub mod strokes;
pub mod shadows;
