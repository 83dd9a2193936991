pub mod chunker;
pub mod commands;
pub mod constants;
pub mod endpoints;
pub mod instructions;
pub mod misc;
pub mod navigation;
pub mod network;
pub mod pipeline;
pub mod storage;
pub mod tracker;
pub mod types;
