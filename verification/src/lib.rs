//! The input-dispatch and focus-routing core of a terminal dashboard for a
//! topic/subscription message service.
//!
//! The crate holds the state and the rules: text fields with a cursor, the
//! registry of fields and its focus, the routes, the filtered topic list and
//! the dispatcher that turns keys and ticks into state changes. Reading keys,
//! drawing and talking to the service are left to the program around it.

pub mod text;
pub mod input;
pub mod component;
pub mod route;
pub mod app;
pub mod event;
pub mod gcp;
pub mod ui;
