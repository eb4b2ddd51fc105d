//! Core of a continuous playout engine: choosing the media source that feeds
//! the encoder, reading from the shared play list without ever leaving its
//! bounds, and assembling the argument list of the encoder process.

pub mod input;
pub mod output;
pub mod utils;
