pub mod cli;
pub mod config;
pub mod error;
pub mod languages;
pub mod model;
pub mod templating;
pub mod text;
pub mod utils;

pub use config::Config;
pub use error::ProjectError;
pub use model::generator::ProjectGenerator;
