//! Parsing, classification, validation and code synthesis for native methods
//! exposed to a Ruby runtime through attribute declarations.

pub mod util;
pub mod token;
pub mod render;
pub mod diagnostic;
pub mod argument;
pub mod signature;
pub mod method;
pub mod rbdef;
pub mod synth;
pub mod binding;
pub mod registry;
pub mod rbclass;
pub mod rbmethods;
