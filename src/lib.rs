//! A scribble canvas: a white backing surface that primary-button presses and
//! drags paint small black squares into, and that the secondary button wipes.

pub mod canvas;
pub mod surface;
