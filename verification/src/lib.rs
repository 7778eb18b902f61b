//! Rectangles with 16-bit unsigned sides and their exactly specified area.

pub mod decimal;
pub mod demo;
pub mod rectangle;
