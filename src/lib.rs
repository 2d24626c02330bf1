//! Parameter handling and request planning for a protocol-buffer compiler plugin
//! that emits JSON serialization bindings for the described message types.

pub mod grammar;
pub mod builder;
pub mod descriptors;
pub mod params;
pub mod plugin;
