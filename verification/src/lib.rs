//! Test-input generation for a fuzzing engine's corpus-seeding phase.
//!
//! A [`Generator`] produces one byte-sequence input per call, either by a
//! native randomized strategy ([`RandBytesGenerator`],
//! [`RandPrintablesGenerator`]), through a content-preserving adapter
//! ([`GeneralizedInputBytesGenerator`]), or by dispatching to an
//! implementation supplied by an embedded Python runtime
//! ([`pybind::PythonGenerator`]).

pub mod errors;
pub mod generators;
pub mod inputs;
pub mod pybind;
pub mod rands;
