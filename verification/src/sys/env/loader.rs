//! Settings read from an [`Environment`]: as text, as numbers, as switches.

use super::error::{EnvironmentError, EnvironmentErrorView};
use super::models::{lookup, Environment};
use crate::text::{lowercase, parse_unsigned, same_text, to_lowercase, unsigned_value};
use vstd::prelude::*;
use vstd::string::*;

verus! {

/// A type of setting that can be read from the text of an environment variable:
/// numbers without sign, written in base ten.
pub trait EnvValue: Sized {
    /// The value that `text` stands for, if it stands for one.
    spec fn from_text(text: Seq<char>) -> Option<Self>;

    /// The name by which the type is reported when a value does not parse.
    spec fn type_label() -> Seq<char>;

    /// Reads a value from the text of a variable.
    fn parse(text: &str) -> (value: Option<Self>)
        ensures
            value == Self::from_text(text@),
    ;

    /// The name by which the type is reported when a value does not parse.
    fn label() -> (name: &'static str)
        ensures
            name@ == Self::type_label(),
    ;
}

impl EnvValue for u64 {
    open spec fn from_text(text: Seq<char>) -> Option<u64> {
        match unsigned_value(text, u64::MAX as nat) {
            Some(n) => Some(n as u64),
            None => None,
        }
    }

    open spec fn type_label() -> Seq<char> {
        "u64"@
    }

    fn parse(text: &str) -> (value: Option<u64>) {
        parse_unsigned(text, u64::MAX)
    }

    fn label() -> (name: &'static str) {
        "u64"
    }
}

impl EnvValue for u16 {
    open spec fn from_text(text: Seq<char>) -> Option<u16> {
        match unsigned_value(text, u16::MAX as nat) {
            Some(n) => Some(n as u16),
            None => None,
        }
    }

    open spec fn type_label() -> Seq<char> {
        "u16"@
    }

    fn parse(text: &str) -> (value: Option<u16>) {
        match parse_unsigned(text, u16::MAX as u64) {
            Some(n) => Some(n as u16),
            None => None,
        }
    }

    fn label() -> (name: &'static str) {
        "u16"
    }
}

/// The value of `key` in `vars`, or `default` where `key` is not set.
pub open spec fn value_or(vars: Seq<(Seq<char>, Seq<char>)>, key: Seq<char>, default: Seq<char>) -> Seq<
    char,
> {
    match lookup(vars, key) {
        Some(value) => value,
        None => default,
    }
}

/// What `get_parsed` owes for `key` in `vars`: the value that the text stands for, or
/// the error that says what is wrong with it.
pub open spec fn parsed<T: EnvValue>(vars: Seq<(Seq<char>, Seq<char>)>, key: Seq<char>) -> Result<
    T,
    EnvironmentErrorView,
> {
    match lookup(vars, key) {
        None => Err(EnvironmentErrorView::NotFoundError(key)),
        Some(text) => match T::from_text(text) {
            Some(value) => Ok(value),
            None => Err(
                EnvironmentErrorView::ParseError { key, value: text, value_type: T::type_label() },
            ),
        },
    }
}

/// The value that `key` stands for in `vars`, or `default` where `key` is not set or
/// its text stands for no value.
pub open spec fn parsed_or<T: EnvValue>(vars: Seq<(Seq<char>, Seq<char>)>, key: Seq<char>, default: T) -> T {
    match parsed::<T>(vars, key) {
        Ok(value) => value,
        Err(_) => default,
    }
}

/// The switch that a lowercase word stands for.
pub open spec fn switch_of(word: Seq<char>) -> Option<bool> {
    if word == "true"@ || word == "1"@ || word == "yes"@ || word == "on"@ {
        Some(true)
    } else if word == "false"@ || word == "0"@ || word == "no"@ || word == "off"@ {
        Some(false)
    } else {
        None
    }
}

/// The switch that `key` stands for in `vars`, whatever the case of its letters, or
/// `default` where `key` is not set or is no such word.
pub open spec fn switch_or(vars: Seq<(Seq<char>, Seq<char>)>, key: Seq<char>, default: bool) -> bool {
    match lookup(vars, key) {
        Some(text) => match switch_of(lowercase(text)) {
            Some(on) => on,
            None => default,
        },
        None => default,
    }
}

/// The value of a variable that has to be set.
pub fn get_required(env: &Environment, key: &str) -> (found: Result<String, EnvironmentError>)
    ensures
        match lookup(env@, key@) {
            Some(value) => found matches Ok(text) && text@ == value,
            None => found matches Err(e) && e@ == EnvironmentErrorView::NotFoundError(key@),
        },
{
    match env.get(key) {
        Some(value) => Ok(value),
        None => Err(EnvironmentError::NotFoundError(String::from_str(key))),
    }
}

/// The value of a variable, or `default` where it is not set.
pub fn get_or_default(env: &Environment, key: &str, default: &str) -> (value: String)
    ensures
        value@ == value_or(env@, key@, default@),
{
    match env.get(key) {
        Some(value) => value,
        None => String::from_str(default),
    }
}

/// The value of a variable that has to be set, read as a `T`.
pub fn get_parsed<T: EnvValue>(env: &Environment, key: &str) -> (found: Result<T, EnvironmentError>)
    ensures
        match parsed::<T>(env@, key@) {
            Ok(value) => found == Ok::<T, EnvironmentError>(value),
            Err(error) => found matches Err(e) && e@ == error,
        },
{
    match get_required(env, key) {
        Err(e) => Err(e),
        Ok(text) => match T::parse(text.as_str()) {
            Some(value) => Ok(value),
            None => Err(
                EnvironmentError::ParseError {
                    key: String::from_str(key),
                    value: text,
                    value_type: T::label(),
                },
            ),
        },
    }
}

/// The value of a variable read as a `T`, or `default` where it is not set or does
/// not read as one.
pub fn get_parsed_or_default<T: EnvValue>(env: &Environment, key: &str, default: T) -> (value: T)
    ensures
        value == parsed_or::<T>(env@, key@, default),
{
    match env.get(key) {
        Some(text) => match T::parse(text.as_str()) {
            Some(value) => value,
            None => default,
        },
        None => default,
    }
}

/// The switch that a word in lowercase stands for: `true`, `1`, `yes` and `on` switch
/// on, `false`, `0`, `no` and `off` switch off, and no other word is a switch.
pub fn parse_switch(word: &str) -> (switch: Option<bool>)
    ensures
        switch == switch_of(word@),
{
    if same_text(word, "true") || same_text(word, "1") || same_text(word, "yes") || same_text(
        word,
        "on",
    ) {
        Some(true)
    } else if same_text(word, "false") || same_text(word, "0") || same_text(word, "no")
        || same_text(word, "off") {
        Some(false)
    } else {
        None
    }
}

/// A variable read as a switch, whatever the case of its letters, or `default` where
/// it is not set or is no switch.
pub fn get_bool(env: &Environment, key: &str, default: bool) -> (on: bool)
    ensures
        on == switch_or(env@, key@, default),
{
    match env.get(key) {
        Some(text) => {
            let word = to_lowercase(text.as_str());
            match parse_switch(word.as_str()) {
                Some(on) => on,
                None => default,
            }
        },
        None => default,
    }
}

} // verus!
