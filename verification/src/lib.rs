//! A verified core for an event-loop adapter: it consumes a native windowing
//! system's event queue and produces a normalized, platform-independent stream
//! of input/window events.
//!
//! The native side (event queue, application dispatcher, window geometry) is
//! modeled as plain data injected by the caller, so the translation and loop
//! logic here is ordinary safe code with proved contracts. Real-valued native
//! quantities (coordinates, DPI scale factors, scroll deltas) are carried as
//! fixed-point integers in thousandths ("milli-units"); the platform glue is
//! expected to convert at the boundary.

pub mod callback;
pub mod driver;
pub mod events;
pub mod keycodes;
pub mod modifiers;
pub mod native;
pub mod translate;
