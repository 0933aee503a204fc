//! Escape-time rendering of the Mandelbrot set as text.
//!
//! The library holds the integer side of the picture: the glyph ramp that
//! turns escape counts into characters, the decisions of the escape-time
//! loop, the row-major assembly of the escape grid and the rendering of a
//! grid into lines of text. The floating-point orbit itself is computed by
//! the caller, which feeds each decision with whether the orbit has left the
//! escape disk.
pub mod escape;
pub mod glyph;
pub mod grid;
pub mod render;
