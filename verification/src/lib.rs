//! Verified core of a small mesh-viewer bring-up sample.
//!
//! The sample opens a native window, builds one fixed render pipeline,
//! loads one mesh, and redraws it on demand. Everything that can be
//! stated and checked as plain logic lives here: the per-event decision
//! of the render loop, the selection of a mesh file among candidates,
//! the flattening and validation pass of the mesh loader, and the fixed
//! vertex-layout and buffer-size arithmetic. Window, GPU and file-system
//! calls stay outside the library and hand it plain values.

pub mod events;
pub mod layout;
pub mod mesh;
pub mod paths;
