//! Tier-gated rendering of obfuscated text fragments.
//!
//! A request's fragments are decrypted, flattened onto a raster surface and
//! snapshot into an image for every viewer; only a viewer promoted on a
//! positive entitlement tier can also have them laid out as copyable
//! elements. The library computes the host output as a list of entries;
//! drawing them is left to the caller.
use vstd::prelude::*;

pub mod codec;
pub mod fragment;
pub mod page;
pub mod pipeline;
pub mod viewer;

pub use fragment::Params;
pub use pipeline::encrypt_canvas;

verus! {

} // verus!
