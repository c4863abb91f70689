//! A 3x3x3 twisty cube: its 54 facelets and the quarter turns of its six faces.

pub mod face;
pub mod layout;
pub mod rearrange;
pub mod twist;
pub mod cube;
pub mod laws;
pub mod shuffle;
pub mod render;
pub mod text;
pub mod session;
