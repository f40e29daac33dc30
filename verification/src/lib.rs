pub mod commands;
pub mod options;
pub mod results;
pub mod text;
pub mod numbers;
pub mod args;
pub mod cli;
pub mod json;
pub mod backend;
pub mod request_json;
pub mod http;
pub mod cxn0102;
