pub mod base;
pub mod cli;
pub mod common;
pub mod data_science;
pub mod web;
