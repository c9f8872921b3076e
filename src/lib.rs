//! Status-bar segment that reduces the latest builds of tracked CI jobs to
//! coloured Pango markup.
pub mod markup;
pub mod classify;
pub mod group;
pub mod render;
pub mod widget;
