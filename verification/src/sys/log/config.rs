//! The logging configuration that the environment gives.

use super::models::{LogConfig, LogConfigView, LogFormat, LogLayout};
use crate::sys::env::loader::{get_or_default, value_or};
use crate::sys::env::models::Environment;
use crate::text::{lowercase, same_text, to_lowercase};
use vstd::prelude::*;

verus! {

/// The format that a build uses where none is chosen: compact lines while
/// developing, JSON in a release.
pub open spec fn default_format(debug_build: bool) -> LogFormat {
    if debug_build {
        LogFormat::Compact
    } else {
        LogFormat::Json
    }
}

/// The format that a name in lowercase chooses.
pub open spec fn format_of(name: Seq<char>, debug_build: bool) -> LogFormat {
    if name == "json"@ {
        LogFormat::Json
    } else if name == "compact"@ {
        LogFormat::Compact
    } else {
        default_format(debug_build)
    }
}

/// The filter that a build uses where none is set.
pub open spec fn default_filter(debug_build: bool) -> Seq<char> {
    if debug_build {
        "axum_backend=debug,tower_http=debug,info"@
    } else {
        "axum_backend=info,tower_http=info,warn"@
    }
}

/// The filter to fall back on where the configured one cannot be used.
pub const FALLBACK_FILTER: &'static str = "info";

/// What the lines of a format hold: JSON lines are for machines and leave the place
/// in the source out, compact lines are for people and tell it.
pub open spec fn layout_of(format: LogFormat) -> LogLayout {
    match format {
        LogFormat::Json => LogLayout {
            target: true,
            line_number: false,
            file: false,
            thread_ids: false,
            level: true,
            current_span: true,
        },
        LogFormat::Compact => LogLayout {
            target: true,
            line_number: true,
            file: true,
            thread_ids: false,
            level: true,
            current_span: false,
        },
    }
}

impl LogConfigView {
    /// What the variables `LOG_FORMAT` and `RUST_LOG` of `vars` configure.
    pub open spec fn from_env(vars: Seq<(Seq<char>, Seq<char>)>, debug_build: bool) -> LogConfigView {
        LogConfigView {
            format: format_of(lowercase(value_or(vars, "LOG_FORMAT"@, "auto"@)), debug_build),
            filter: value_or(vars, "RUST_LOG"@, default_filter(debug_build)),
        }
    }
}

impl LogFormat {
    /// The format that `name`, a word in lowercase, chooses: `json` and `compact`
    /// choose themselves, any other word leaves the choice to the build.
    pub fn from_name(name: &str, debug_build: bool) -> (format: LogFormat)
        ensures
            format == format_of(name@, debug_build),
    {
        if same_text(name, "json") {
            LogFormat::Json
        } else if same_text(name, "compact") {
            LogFormat::Compact
        } else if debug_build {
            LogFormat::Compact
        } else {
            LogFormat::Json
        }
    }

    /// What the lines of this format hold.
    pub fn layout(&self) -> (layout: LogLayout)
        ensures
            layout == layout_of(*self),
    {
        match self {
            LogFormat::Json => LogLayout {
                target: true,
                line_number: false,
                file: false,
                thread_ids: false,
                level: true,
                current_span: true,
            },
            LogFormat::Compact => LogLayout {
                target: true,
                line_number: true,
                file: true,
                thread_ids: false,
                level: true,
                current_span: false,
            },
        }
    }

    /// The format that the variable `LOG_FORMAT` chooses, whatever the case of its
    /// letters. `debug_build` says whether the service was built for development.
    pub fn from_env(env: &Environment, debug_build: bool) -> (format: LogFormat)
        ensures
            format == LogConfigView::from_env(env@, debug_build).format,
    {
        let chosen = get_or_default(env, "LOG_FORMAT", "auto");
        let name = to_lowercase(chosen.as_str());
        LogFormat::from_name(name.as_str(), debug_build)
    }
}

impl LogConfig {
    /// The logging configuration that the environment gives. `debug_build` says
    /// whether the service was built for development.
    pub fn from_env(env: &Environment, debug_build: bool) -> (config: LogConfig)
        ensures
            config@ == LogConfigView::from_env(env@, debug_build),
    {
        let format = LogFormat::from_env(env, debug_build);
        let filter = get_or_default(
            env,
            "RUST_LOG",
            if debug_build {
                "axum_backend=debug,tower_http=debug,info"
            } else {
                "axum_backend=info,tower_http=info,warn"
            },
        );
        LogConfig { format, filter }
    }
}

} // verus!
