//! The discrete core of a small 3-D viewer: the input state machine of an
//! orbit camera and the triangle-list layout of a UV sphere.
//!
//! Everything here is exact: the scalar quantities of the camera are carried
//! as values of the caller's own type and are never computed with, and the
//! sphere is laid out over the integer lines of its grid.
pub mod camera;
pub mod sphere;
