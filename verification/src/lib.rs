//! Marshaling core for exposing a library across an unmanaged-language
//! boundary: a buffer-writing protocol that renders text into caller-owned
//! fixed-size buffers (size-query-then-fill with a single retry), and an
//! opaque shared-value handle with read / exclusive-write views.

pub mod array;
pub mod buffer;
pub mod shared;
