pub mod configs;
pub mod errors;
pub mod text;
