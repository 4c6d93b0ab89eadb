use vstd::prelude::*;

use crate::args::Args;

verus! {

/// Resolved configuration of one broadcasting session, established before the
/// pipeline starts and immutable afterwards.
///
/// `file` is the optional custom name for the local recording; `None` means a
/// name derived from the current time is used.
pub struct Config {
    pub username: String,
    pub password: String,
    pub ip: String,
    pub port: u16,
    pub broadcast_port: u16,
    pub audio_interface: String,
    pub file: Option<String>,
}

/// Everything that can go wrong while the configuration is assembled.
///
/// `Io` and `Toml` carry the message of the underlying failure as text; the
/// conversion from the originating error values happens outside the library.
#[derive(Debug)]
pub enum TauConfigError {
    Io(String),
    Toml(String),
    InvalidIp(String),
    InvalidPort(u16),
    Input(String),
}

impl Config {
    /// Overrides the stored settings with whatever the command line supplied.
    ///
    /// Every field with a corresponding argument takes the argument's value
    /// when one is present and keeps its own otherwise; fields without a
    /// corresponding argument are untouched.
    pub fn merge_cli_args(self, args: &Args) -> (r: Config)
        ensures
            r.username@ == (match args.username {
                Some(u) => u@,
                None => self.username@,
            }),
            r.password@ == (match args.password {
                Some(p) => p@,
                None => self.password@,
            }),
            r.ip@ == (match args.ip {
                Some(i) => i@,
                None => self.ip@,
            }),
            r.port == (match args.port {
                Some(p) => p,
                None => self.port,
            }),
            (match (args.file, self.file) {
                (Some(f), _) => r.file matches Some(g) && g@ == f@,
                (None, Some(f)) => r.file matches Some(g) && g@ == f@,
                (None, None) => r.file is None,
            }),
            r.broadcast_port == self.broadcast_port,
            r.audio_interface@ == self.audio_interface@,
    {
        let mut merged = self;
        if let Some(un) = &args.username {
            merged.username = un.clone();
        }
        if let Some(pw) = &args.password {
            merged.password = pw.clone();
        }
        if let Some(u) = &args.ip {
            merged.ip = u.clone();
        }
        if let Some(p) = args.port {
            merged.port = p;
        }
        if let Some(f) = &args.file {
            merged.file = Some(f.clone());
        }
        merged
    }
}

} // verus!
