pub mod engine;
pub mod tags;

pub use engine::{TemplateFile, TemplatingEngine};
