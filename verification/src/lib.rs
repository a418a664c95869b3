//! Interop between CPU-side image data and GPU texture resources.
//!
//! The heart of the crate is a bidirectional, partial mapping between image
//! color types and GPU texture formats, together with the plumbing that loads
//! image buffers into textures and reads texture contents back out. Texture
//! formats are constrained to power-of-two byte sizes per texel, which is why
//! some color types (such as 24-bit RGB) have no texture format counterpart.

pub mod color;
pub mod convert;
pub mod format;
pub mod gpu;
pub mod image_buffer;
pub mod pixel;
pub mod readback;
pub mod texture;
