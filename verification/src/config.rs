//! Run configuration: the immutable server settings, the run mode chosen
//! from command-line flags, and the merge of file-backed settings with
//! command-line overrides.

use vstd::prelude::*;

use crate::strutil::{parse_u64, spec_parse_u64};

verus! {

/// Immutable configuration of one server run. The host is kept in textual
/// form and the directory as a platform path string; the embedding shell
/// parses and canonicalizes them.
#[derive(Debug, Clone)]
pub struct ServerConfig {
    pub host: String,
    pub port: u16,
    pub dir: String,
    pub server_side_path_regex: Vec<String>,
    pub enable_server_side_file_size_limit: bool,
    pub max_server_side_file_size: u64,
}

#[derive(Debug, Clone, Copy, PartialEq, Eq, Structural)]
pub enum RunMode {
    CheckUpdate,
    DownloadUpdate,
    CliServer,
    Gui,
}

/// The run mode selected by the command-line flags, in priority order:
/// update check, then download, then forced headless, then the GUI when
/// the build carries one.
pub fn select_run_mode(update: bool, download: bool, cli: bool, gui_available: bool) -> (r:
    RunMode)
    ensures
        r == (if update {
            RunMode::CheckUpdate
        } else if download {
            RunMode::DownloadUpdate
        } else if cli {
            RunMode::CliServer
        } else if gui_available {
            RunMode::Gui
        } else {
            RunMode::CliServer
        }),
{
    if update {
        RunMode::CheckUpdate
    } else if download {
        RunMode::DownloadUpdate
    } else if cli {
        RunMode::CliServer
    } else if gui_available {
        RunMode::Gui
    } else {
        RunMode::CliServer
    }
}

/// Settings of the embedding shell's window, persisted between runs.
#[derive(Debug, Clone)]
pub struct UiConfig {
    pub follow_system_theme: bool,
    pub dark_mode: bool,
    pub show_advanced: bool,
    pub follow_logs: bool,
}

impl Default for UiConfig {
    fn default() -> (r: Self)
        ensures
            r.follow_system_theme,
            !r.dark_mode,
            !r.show_advanced,
            r.follow_logs,
    {
        UiConfig { follow_system_theme: true, dark_mode: false, show_advanced: false, follow_logs: true }
    }
}

/// Fallback for the server-side size cap when the textual setting does not
/// parse, in bytes.
pub const DEFAULT_MAX_FILE_SIZE: u64 = 256000;

/// The size cap read from its textual form, or the default when the text
/// is not a number.
pub fn parse_max_server_side_file_size(max_size: &str) -> (r: u64)
    ensures
        r == (match spec_parse_u64(max_size@) {
            Some(v) => v,
            None => DEFAULT_MAX_FILE_SIZE,
        }),
{
    match parse_u64(max_size) {
        Some(v) => v,
        None => DEFAULT_MAX_FILE_SIZE,
    }
}

/// Command-line overrides for the file-backed settings: a present field
/// was given on the command line and replaces the stored value.
#[derive(Debug, Clone)]
pub struct CliOverrides {
    pub host: Option<String>,
    pub port: Option<u16>,
    pub dir: Option<String>,
    pub path_regex: Option<Vec<String>>,
    pub enable_file_size_limit: Option<bool>,
    pub max_file_size: Option<u64>,
}

/// The file-backed settings overlaid with the command-line overrides.
/// An empty regex list on the command line does not clear the stored list.
pub fn merge_server_config(base: ServerConfig, cli: CliOverrides) -> (r: ServerConfig)
    ensures
        r.host == (if cli.host is Some {
            cli.host->0
        } else {
            base.host
        }),
        r.port == (if cli.port is Some {
            cli.port->0
        } else {
            base.port
        }),
        r.dir == (if cli.dir is Some {
            cli.dir->0
        } else {
            base.dir
        }),
        r.server_side_path_regex == (if cli.path_regex is Some && cli.path_regex->0@.len() > 0 {
            cli.path_regex->0
        } else {
            base.server_side_path_regex
        }),
        r.enable_server_side_file_size_limit == (if cli.enable_file_size_limit is Some {
            cli.enable_file_size_limit->0
        } else {
            base.enable_server_side_file_size_limit
        }),
        r.max_server_side_file_size == (if cli.max_file_size is Some {
            cli.max_file_size->0
        } else {
            base.max_server_side_file_size
        }),
{
    let mut out = base;
    match cli.host {
        Some(h) => {
            out.host = h;
        },
        None => {},
    }
    match cli.port {
        Some(p) => {
            out.port = p;
        },
        None => {},
    }
    match cli.dir {
        Some(d) => {
            out.dir = d;
        },
        None => {},
    }
    match cli.path_regex {
        Some(re) => {
            if re.len() > 0 {
                out.server_side_path_regex = re;
            }
        },
        None => {},
    }
    match cli.enable_file_size_limit {
        Some(e) => {
            out.enable_server_side_file_size_limit = e;
        },
        None => {},
    }
    match cli.max_file_size {
        Some(m) => {
            out.max_server_side_file_size = m;
        },
        None => {},
    }
    out
}

} // verus!
