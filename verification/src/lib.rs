//! Core of a desktop window capture and recording tool.
//!
//! The library holds the verified logic of the recorder: window geometry and
//! padding arithmetic, the interactive selection engine, the pacing clock, the
//! timed recording engine, and the GIF frame pipeline (encode, decode, cut,
//! speed scaling, split naming). Display access, input polling and file
//! handling are performed by the surrounding application, which feeds this
//! library plain values.

pub mod clock;
pub mod codec;
pub mod command;
pub mod edit;
pub mod error;
pub mod frame;
pub mod geometry;
pub mod input;
pub mod recorder;
pub mod selector;
pub mod settings;
pub mod split;
pub mod window;
