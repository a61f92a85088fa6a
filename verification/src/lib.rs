//! The account of a sample-rate converter.
//!
//! An engine outside this library interpolates the samples. What is kept
//! here is everything around it that is exact: which kernels and ratios it
//! takes, how buffers count as frames, what its reports come to, and where a
//! stream stands from its first call to its last. Each operation comes in two
//! parts: one says what to ask the engine, the other takes what it answered.
//!
//!   * `convert` accounts for a single batch of samples.
//!   * `Converter` accounts for a continuous stream of samples.

pub mod converter;
pub mod decimal;
pub mod error;
pub mod frames;
pub mod interpolator;
pub mod oneshot;
pub mod ratio;
pub mod validate;

pub use converter::{Converter, Phase};
pub use error::Error;
pub use frames::{Report, Request};
pub use interpolator::Interpolator;
pub use oneshot::convert;
