//! Rich presence derivation: turns a configuration document into the
//! activity payload that a refresh loop publishes every few seconds.

pub mod text;

pub mod diagnostic;
pub mod document;
pub mod duration;
pub mod editor;
pub mod laws;
pub mod presence;
pub mod refresh;
