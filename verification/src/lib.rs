//! A device-agnostic model of user input: leaf inputs and chords, axis
//! descriptions, and composable pipelines of axis processing stages.
//!
//! Every numeric parameter is held by its bit pattern, so that configuration
//! values have a total, reflexive equality and can be hashed.
pub mod arithmetic;
pub mod axislike;
pub mod input_like;
pub mod input_processing;
pub mod scalar;
