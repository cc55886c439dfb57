//! A pan-and-zoom viewport library for a widget tree.
//!
//! Two cooperating pieces: a gesture tracker ([`canvas::Canvas`]) that turns
//! pointer and wheel input into viewport commands, and a viewport state
//! ([`transform::Transform`]) that holds the affine translation/scale pair and
//! remaps pointer events into the coordinate space of a wrapped child.
//! Coordinates are exact rationals, so every transform is verified exactly.

pub mod canvas;
pub mod event;
pub mod geom;
pub mod laws;
pub mod rat;
pub mod transform;
