//! Detection and normalisation of media links in chat messages, and the
//! decisions of the republication flow that follows.

pub mod commands;
pub mod matcher;
pub mod normalizer;
pub mod pipeline;
pub mod republish;
