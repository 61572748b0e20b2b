//! Input and device translation between the OpenVR input model and OpenXR
//! primitives: handles, custom binding evaluators, tracked devices, the
//! legacy controller state and the per-frame pose cache.

pub mod handles;
pub mod fixed;
pub mod runtime;
pub mod custom_bindings;
pub mod strings;
pub mod profiles;
pub mod events;
pub mod devices;
pub mod error;
pub mod extended_display;
pub mod legacy;
pub mod action_manifest;
pub mod input;
