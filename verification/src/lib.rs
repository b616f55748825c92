//! The core of a conversion gateway for declarative visualization
//! specifications.
//!
//! Callers hand in the text of a Vega or Vega-Lite specification together
//! with the parameters of the target form they want. The gateway validates
//! the request, resolves the options of the call and names the one capability
//! of the rendering engine that has to run. The engine is a single instance
//! that must never be entered twice at the same time: the guard owns it and
//! decides who may enter. What the engine hands back is turned into the
//! caller-facing result.
//!
//! Nothing here performs the rendering or blocks a thread. The embedding
//! program runs the engine and waits on its behalf; this crate makes the
//! decisions.

pub mod dispatch;
pub mod document;
pub mod error;
pub mod guard;
pub mod operations;
pub mod options;
pub mod outcome;
