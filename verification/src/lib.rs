//! Verified input-translation core for a windowing-system-to-UI adapter.
//!
//! The crate models the stateful mapping from native windowing events
//! (pointer, keyboard, touch, scroll, resize, modifiers) into an ordered,
//! frame-scoped queue of UI-model input events, together with the inverse
//! mapping from renderer output (cursor requests, clipboard writes, URL
//! opens) into host-level actions. All geometry is carried in thousandths
//! of a pixel so that every conversion rule is stated and proved exactly.

pub mod cursor;
pub mod devices;
pub mod events;
pub mod keys;
pub mod laws;
pub mod platform;
