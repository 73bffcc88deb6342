//! Core pipeline of a stem separator: short-time spectral analysis and
//! synthesis, and the chunked overlap-add driver that feeds fixed-size
//! windows of a mixture through an external mask predictor.
//!
//! Everything that decides an index, a shape or a schedule is verified here.
//! The sample scalar itself is an opaque type parameter: the numeric kernels
//! (cosine tables, FFTs, multiply-accumulate) run outside the library, which
//! states exactly where every sample comes from and where it goes.

pub mod config;
pub mod demix;
pub mod error;
pub mod model;
pub mod stft;
pub mod window;
