//! Settings of the service: where its data lives, its host name, and the
//! log level names it accepts.
use vstd::prelude::*;
use crate::text::{join, str_eq};

verus! {

/// File name of the database inside the data directory.
pub const DATABASE_URL: &'static str = "db";

/// Settings read from the environment and from `config.yaml`.
pub struct Config {
    pub hostname: String,
}

/// The data directory: the value of `URL_DATA_DIR` where it is set, else
/// the working directory.
pub fn get_db_path(data_dir: Option<String>) -> (r: String)
    ensures
        r@ == match data_dir {
            Some(d) => d@,
            None => "./"@,
        },
{
    match data_dir {
        Some(d) => d,
        None => "./".to_owned(),
    }
}

/// `file` inside the directory `dir`.
pub fn file_in(dir: &str, file: &str) -> (r: String)
    ensures
        r@ == dir@ + "/"@ + file@,
{
    let d = join(dir, "/");
    join(d.as_str(), file)
}

/// The path of the database file in the data directory `dir`.
pub fn db_file_path(dir: &str) -> (r: String)
    ensures
        r@ == dir@ + "/"@ + "db"@,
{
    file_in(dir, DATABASE_URL)
}

/// The path of the optional settings file in the data directory `dir`.
pub fn config_file_path(dir: &str) -> (r: String)
    ensures
        r@ == dir@ + "/"@ + "config.yaml"@,
{
    file_in(dir, "config.yaml")
}

/// The levels of detail of the service's log.
#[derive(PartialEq, Eq, Structural, Clone, Copy, Debug)]
pub enum LogLevel {
    Trace,
    Debug,
    Info,
    Warn,
    Error,
}

/// The upper-case form of `s`, as Unicode defines it.
pub uninterp spec fn upper_of(s: Seq<char>) -> Seq<char>;

/// Relies on `str::to_uppercase`: the result depends on the characters of
/// `s` alone.
#[verifier::external_body]
fn uppercase(s: &str) -> (r: String)
    ensures
        r@ == upper_of(s@),
{
    s.to_uppercase()
}

/// The level that an upper-case name stands for.
pub open spec fn level_named(name: Seq<char>) -> Option<LogLevel> {
    if name == "TRACE"@ {
        Some(LogLevel::Trace)
    } else if name == "DEBUG"@ {
        Some(LogLevel::Debug)
    } else if name == "INFO"@ {
        Some(LogLevel::Info)
    } else if name == "WARN"@ {
        Some(LogLevel::Warn)
    } else if name == "ERROR"@ {
        Some(LogLevel::Error)
    } else {
        None
    }
}

/// The level that the upper-case name `name` stands for, if any.
pub fn level_from_upper(name: &str) -> (r: Option<LogLevel>)
    ensures
        r == level_named(name@),
{
    if str_eq(name, "TRACE") {
        Some(LogLevel::Trace)
    } else if str_eq(name, "DEBUG") {
        Some(LogLevel::Debug)
    } else if str_eq(name, "INFO") {
        Some(LogLevel::Info)
    } else if str_eq(name, "WARN") {
        Some(LogLevel::Warn)
    } else if str_eq(name, "ERROR") {
        Some(LogLevel::Error)
    } else {
        None
    }
}

/// The level that `input` names, in any case.
pub fn get_trace_level(input: &str) -> (r: Option<LogLevel>)
    ensures
        r == level_named(upper_of(input@)),
{
    let upper = uppercase(input);
    level_from_upper(upper.as_str())
}

} // verus!
