//! Conversion algebra between the integer representations of audio samples.
//!
//! Each representation has an equilibrium (`mid`), an amplitude (`amp`), a
//! `peak` and a `trough`. Conversions rescale a sample's distance from
//! equilibrium by the ratio of the amplitudes, so that equilibrium, peak and
//! trough map onto their counterparts; `flip` reflects a sample across
//! equilibrium. The laws these obey are proved in `laws`.
pub mod model;
pub mod traits;
pub mod convert;
pub mod unsigned;
pub mod signed;
pub mod pairs;
pub mod laws;

pub use model::Representation;
pub use traits::{FlipSample, FromSample, IntoSample, Sample, SampleValue};
