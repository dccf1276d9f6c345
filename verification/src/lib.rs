//! Brute-force search engine for vanity blockchain addresses: candidate
//! keypair generation, prefix/suffix pattern matching with a boundary-class
//! rule, a batched parallel search orchestrator, and a throughput
//! calibrator.

pub mod calibrate;
pub mod clock;
pub mod config;
pub mod duration;
pub mod keys;
pub mod pattern;
pub mod search;
