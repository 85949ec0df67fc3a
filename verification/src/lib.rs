//! Decide whether a media file's audio needs a stereo downmix, and plan the
//! external tool invocations that carry it out.
//!
//! The library holds the run's logic: validating the request, reading the
//! channel counts out of the probing tool's JSON report, deciding whether any
//! stream exceeds two channels, and building the exact argument lists for the
//! probing and transcoding tools. Running those tools, the filesystem checks
//! and the console output belong to the surrounding program.

pub mod channels;
pub mod command;
pub mod errors;
pub mod metadata;
pub mod session;
