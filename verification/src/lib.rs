//! Live transcription of several audio sources: the verified core.
//!
//! Each source has a worker that collects its samples into overlapping windows of
//! fixed length, lets silence pass, and hands the rest to a speech-recognition engine.
//! This crate holds what is decided along the way, with its proofs:
//!
//! - [`window`]: the rolling buffer of a source and its windows;
//! - [`convert`]: the index arithmetic of downmixing, resampling and PCM decoding;
//! - [`transcript`]: from the engine's segments to the text that is emitted;
//! - [`worker`] and [`supervisor`]: the state machines of a source and of a run;
//! - [`capture`], [`devices`], [`system_audio`], [`model`]: devices, feeds and the
//!   engine's model, read from what the platform's tools print;
//! - [`ui`], [`nav`], [`data`]: the state of the front end and the data that is
//!   exchanged;
//! - [`text`]: the text helpers that the others share.
//!
//! Nothing here touches a device, a file or the network, and nothing computes with
//! sample values: the caller does, and reports what came of it.

pub mod capture;
pub mod convert;
pub mod data;
pub mod devices;
pub mod model;
pub mod nav;
pub mod supervisor;
pub mod system_audio;
pub mod text;
pub mod transcript;
pub mod ui;
pub mod window;
pub mod worker;
