//! Planning and decoding for the command-line surface of a provider node: where
//! its companion programs are found, how each query to them is invoked, and what
//! their replies mean.

pub mod text;
pub mod network;
pub mod amount;
pub mod payment;
pub mod activity;
pub mod error;
pub mod command;
pub mod path;
pub mod pattern;
pub mod version;
