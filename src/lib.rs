//! Ownership of native, externally reference-counted objects, and the rendering
//! layer built on it.
//!
//! A native object is known here by its address (`usize`, never zero). The
//! library decides which message goes to which object and when the one owned
//! reference is given back; the caller performs each native call through a
//! closure (a port) that the library invokes while it holds the object.
use vstd::prelude::*;

pub mod properties;
pub mod layer;
