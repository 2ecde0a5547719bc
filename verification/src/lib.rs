//! Conversion core of a scoring-engine configuration editor.
//!
//! A hand-edited, loosely constrained editor document (teams, machines,
//! monitored services, an address generation scheme) is validated and
//! deterministically resolved into a final configuration for the scoring
//! engine, or rejected with a precise error. The behaviour of the whole
//! pipeline is given by a spec-level model and every executable function is
//! proved against it.

pub mod convert;
pub mod laws;
pub mod model;
pub mod resolver;
pub mod services;
pub mod structural;
pub mod text;
