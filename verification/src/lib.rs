//! Core of a small GPU renderer for rounded, antialiased rectangles.
//!
//! The library holds the verified parts of the pipeline: turning a scene of
//! rectangles into vertex and index data, snapshotting the window state into
//! the uniform that the shader uses to map pixel coordinates to clip space,
//! and the frame controller's decisions (resize, error recovery, event
//! dispatch). All GPU and window-system calls live outside the library and
//! consume the plain values produced here.

pub mod controller;
pub mod mesh;
pub mod scene;
pub mod uniform;
