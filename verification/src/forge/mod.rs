//! What a raster backend needs to decide before it draws: colours, the shapes that make up
//! a box, a circle or an ellipse, where the bars and modules of a barcode go, which
//! pixels of a bitmap are set, and what a colour image decodes to.
//!
//! Everything here is computed on plain numbers. Coordinates are 64-bit so that no sum
//! of label coordinates can overflow; a backend draws what falls on its canvas.

pub mod barcode;
pub mod color;
pub mod image;
pub mod layout;
