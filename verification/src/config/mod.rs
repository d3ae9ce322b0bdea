pub mod display;
pub mod model;
pub mod parser;
