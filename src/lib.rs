//! Core of a personal audio-playback daemon: an append-only store of decoded
//! samples, cursors that read it for the output device, the controller that
//! seeks within a song, the play queue with its transport controls, and the
//! catalog with its search and the decisions of the library scan.
//!
//! File access, decoding, the output device and the network stay with the
//! program around this library; they hand it plain values and carry out what
//! it decides.
use vstd::prelude::*;

pub mod media;
pub mod store;
pub mod cursor;
pub mod controller;
pub mod catalog;
pub mod playback;
pub mod scan;
