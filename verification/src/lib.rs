pub mod json;
pub mod model;
pub mod parse;
pub mod service;
