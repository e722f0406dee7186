pub mod constants;
pub mod encode;
pub mod engine;
pub mod numstr;
pub mod orchestrate;
pub mod query;
pub mod symbols;
pub mod time_parse;
pub mod types;
