//! Compiles a card catalog and its rulings into Elm source literals.

pub mod emit;
pub mod encode;
pub mod laws;
pub mod lookup;
pub mod model;
pub mod page;
pub mod readback;
pub mod resize;
pub mod text;
