//! A verified resource-management layer over an immediate-mode GPU
//! rendering API.
//!
//! The library models the driver's binding protocol explicitly: every
//! operation that the driver would perform is described by a
//! [`command::GlCommand`] value, and the implicit "current context" of the
//! rendering API is an explicit [`binding::BindingState`] value that each
//! binding operation updates. Unverified glue code executes the commands
//! against the real driver; everything that decides *which* calls to make,
//! with *which* arguments, is verified here.

pub mod binding;
pub mod buffer_object;
pub mod command;
pub mod data;
pub mod drawcall;
pub mod element_buffer_object;
pub mod error;
pub mod mesh;
pub mod object;
pub mod shader;
pub mod vertex_array_object;
pub mod vertex_attribute;
pub mod vertex_buffer_object;

