//! Byteplug: a minimal multimedia library.
//!
//! The verified core holds the pixel-grid image model with its PNG framing,
//! integer geometry, the drawing enumerations with their graphics-API codes,
//! and the input-device declarations.

pub mod image;
pub mod geometry;
pub mod draw;
pub mod controller;
pub mod animation;
pub mod application;
pub mod input;
pub mod renderer;
pub mod widget;
