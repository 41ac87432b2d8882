//! Lighting control for Logitech keyboards: what to send to a keyboard of a
//! known model so that its keys, regions and built-in effects show what was
//! asked for. The library works the reports out and leaves the sending to
//! its caller.
//!
//! - `model`, `model_spec`: the models and the registry of their protocol
//!   parameters.
//! - `packet`: the single reports. `effects`: the reports of a built-in
//!   effect. `keyset`: the reports of a batch of key colours.
//! - `api`: the operations of a keyboard, and a keyboard that keeps its
//!   reports instead of sending them.
//! - `parser`, `colors`, `text`: the texts that name keys, colours, effects
//!   and numbers.
//! - `profile`, `structured`: profiles, line by line and as tables.
//! - `device`: the choices made when a device is looked for, opened, written
//!   to and closed.

pub mod api;
pub mod colors;
pub mod device;
pub mod effects;
pub mod keyset;
pub mod model;
pub mod model_spec;
pub mod packet;
pub mod parser;
pub mod profile;
pub mod structured;
pub mod text;
pub mod types;
