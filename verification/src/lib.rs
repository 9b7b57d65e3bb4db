//! An editor core for building a flat JSON object one key/value pair at a time.
//!
//! The crate holds the model of an editing session, the controller that turns
//! key presses into model changes, the JSON text that a finished session emits,
//! and the presentation decisions (labels, hints and screen geometry) that a
//! terminal front end draws.

pub mod text;
pub mod pairs;
pub mod json;
pub mod model;
pub mod controller;
pub mod screen;
pub mod layout;
