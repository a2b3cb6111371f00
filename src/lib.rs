//! A small command-line toolbox: timestamps, JSON, crontab, translation
//! prompts and URL escaping, with the computing part of each command
//! verified.
pub mod config;
pub mod crontab;
pub mod dispatch;
pub mod json;
pub mod text;
pub mod timestamp;
pub mod translate;
pub mod url;
