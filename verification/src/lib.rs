//! Tide-prediction core: a single-slot, stampede-safe cache of tide
//! predictions, the nearest-extremum locator that derives "current" and
//! "next" tide facts from a prediction set and the wall clock, the
//! timestamp and time-window helpers shared by both, and the decoder and
//! encoder for the upstream timestamp format.

pub mod cache;
pub mod config;
pub mod locator;
pub mod tide;
pub mod window;
pub mod wire;
