//! From a parsed command-line selection to one validated command.
use crate::crontab::{cron_accepts, cron_of, normalized, CronError, CrontabCommand};
use crate::json::{document_of, json_accepts, path_accepts, path_of, JsonCommand, JsonError};
use crate::timestamp::TimestampCommand;
use crate::translate::{parsed_language, Language, TranslateCommand, TranslateError};
use crate::url::{Direction, UrlCommand};
use vstd::prelude::*;

verus! {

/// One command as selected on the command line, with its raw arguments.
pub enum Selection {
    Timestamp { timestamp: Option<i64> },
    Json { data: String, path: Option<String>, compress: bool },
    Crontab { expression: String },
    Translate { text: String, from: Option<String>, to: Option<String> },
    Url { text: String, decode: bool },
}

/// A validated command, ready to run once.
pub enum Tool {
    Timestamp(TimestampCommand),
    Json(JsonCommand),
    Crontab(CrontabCommand),
    Translate(TranslateCommand),
    Url(UrlCommand),
}

/// Why a command could not be built.
#[derive(Debug)]
pub enum ToolError {
    Json(JsonError),
    Crontab(CronError),
    Translate(TranslateError),
}

/// Whether an optional language argument is absent or names a language.
pub open spec fn language_arg_ok(v: Option<String>) -> bool {
    match v {
        Some(s) => parsed_language(s@) is Some,
        None => true,
    }
}

/// Whether the selection's arguments are valid.
pub open spec fn selection_valid(sel: Selection) -> bool {
    match sel {
        Selection::Timestamp { .. } => true,
        Selection::Json { data, path, .. } => json_accepts(data@) && match path {
            Some(p) => path_accepts(p@),
            None => true,
        },
        Selection::Crontab { expression } => match normalized(expression@) {
            Some(n) => cron_accepts(n),
            None => false,
        },
        Selection::Translate { from, to, .. } => language_arg_ok(from) && language_arg_ok(to),
        Selection::Url { .. } => true,
    }
}

fn as_opt_str(v: &Option<String>) -> (r: Option<&str>)
    ensures
        r is Some <==> v is Some,
        r is Some ==> r->Some_0@ == v->Some_0@,
{
    match v {
        Some(s) => Some(s.as_str()),
        None => None,
    }
}

impl Tool {
    /// Builds the command that `sel` selects; fails exactly where its
    /// arguments are invalid, with the error of that command's constructor.
    pub fn build(sel: &Selection) -> (r: Result<Tool, ToolError>)
        ensures
            r is Ok <==> selection_valid(*sel),
            match (*sel, r) {
                (Selection::Timestamp { timestamp }, Ok(Tool::Timestamp(c))) => c.timestamp
                    == timestamp,
                (Selection::Json { data, path, compress }, Ok(Tool::Json(c))) => c.compress
                    == compress && c.data == document_of(data@) && match path {
                    Some(p) => c.path == Some(path_of(p@)),
                    None => c.path is None,
                },
                (Selection::Json { data, .. }, Err(ToolError::Json(JsonError::Parse(_)))) => !json_accepts(data@),
                (Selection::Json { data, path, .. }, Err(ToolError::Json(JsonError::Path(_)))) =>
                    json_accepts(data@) && path is Some && !path_accepts(path->Some_0@),
                (Selection::Crontab { expression }, Ok(Tool::Crontab(c))) => Some(c.expression@)
                    == normalized(expression@) && c.cron == cron_of(c.expression@),
                (Selection::Crontab { expression }, Err(ToolError::Crontab(CronError::FieldCount))) =>
                    normalized(expression@) is None,
                (Selection::Crontab { expression }, Err(ToolError::Crontab(CronError::Parse(_)))) =>
                    normalized(expression@) is Some && !cron_accepts(normalized(expression@)->Some_0),
                (Selection::Translate { text, from, to }, Ok(Tool::Translate(c))) => c.text@ == text@
                    && c.from == match from {
                    Some(f) => parsed_language(f@),
                    None => None,
                } && c.to == match to {
                    Some(t) => parsed_language(t@)->Some_0,
                    None => Language::Chinese,
                },
                (
                    Selection::Translate { from, to, .. },
                    Err(ToolError::Translate(TranslateError::UnsupportedLanguage(v))),
                ) => if !language_arg_ok(from) {
                    v@ == from->Some_0@
                } else {
                    !language_arg_ok(to) && v@ == to->Some_0@
                },
                (Selection::Url { text, decode }, Ok(Tool::Url(c))) => c.text@ == text@
                    && c.direction == if decode {
                    Direction::Decode
                } else {
                    Direction::Encode
                },
                _ => false,
            },
    {
        match sel {
            Selection::Timestamp { timestamp } => Ok(
                Tool::Timestamp(TimestampCommand::new(*timestamp)),
            ),
            Selection::Json { data, path, compress } => {
                match JsonCommand::new(data.as_str(), as_opt_str(path), *compress) {
                    Ok(c) => Ok(Tool::Json(c)),
                    Err(e) => Err(ToolError::Json(e)),
                }
            },
            Selection::Crontab { expression } => match CrontabCommand::new(expression.as_str()) {
                Ok(c) => Ok(Tool::Crontab(c)),
                Err(e) => Err(ToolError::Crontab(e)),
            },
            Selection::Translate { text, from, to } => {
                match TranslateCommand::new(text.as_str(), as_opt_str(from), as_opt_str(to)) {
                    Ok(c) => Ok(Tool::Translate(c)),
                    Err(e) => Err(ToolError::Translate(e)),
                }
            },
            Selection::Url { text, decode } => {
                let direction = if *decode {
                    Direction::Decode
                } else {
                    Direction::Encode
                };
                Ok(Tool::Url(UrlCommand::new(text.as_str(), direction)))
            },
        }
    }
}

} // verus!
