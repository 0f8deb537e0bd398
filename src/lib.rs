//! Text-mode console engine: a scrollback store many screens tall, a cursor
//! with line wrapping, and a window of it projected onto a screen image.

pub mod color;
pub mod laws;
pub mod vga_buffer;
