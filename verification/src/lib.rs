//! A verified model of a GPU texture resource layer.
//!
//! The crate covers four concerns:
//! * a format vocabulary and a pure format negotiator that maps a requested
//!   logical format and a driver capability snapshot to the concrete storage
//!   and transfer formats to use;
//! * an owned texture resource with immutable shape metadata and mipmap/layer
//!   views with derived per-level sizes;
//! * an upload/readback engine that sequences driver commands for creation,
//!   partial update and readback, re-establishing the pixel-store state it
//!   depends on instead of assuming it;
//! * a lifecycle rule that ties destruction to invalidation of cached
//!   framebuffer objects and texture-unit binding slots.
//!
//! The shared driver context is modelled as an explicit value: every
//! operation takes it as an argument, records the driver commands it issues,
//! and tracks the driver-visible state (alignment, bindings, resident texture
//! data) that later operations depend on.

pub mod context;
pub mod error;
pub mod format;
pub mod generate;
pub mod negotiate;
pub mod texture;
pub mod upload;
pub mod version;
