//! Focus-border overlay logic: decides, on each desktop event, whether a
//! border should be drawn around the foreground window, where, and at what
//! stroke width and corner radius.

pub mod geometry;
pub mod controller;
pub mod matcher;
pub mod render;
