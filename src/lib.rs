//! Core of a desktop wallpaper utility: where images and their history are
//! kept, the document format of that history, and the decisions of the image
//! acquisition strategies (a local or placeholder mock, and a remote
//! image-generation service).
//!
//! Everything that touches the disk, the network or the clock is left to the
//! caller, which performs the actions these functions decide on and hands the
//! results back as plain values.
use vstd::prelude::*;

pub mod json;
pub mod paths;
pub mod ai;
pub mod storage;
pub mod serve;
pub mod commands;
pub mod clock;

verus! {

} // verus!
