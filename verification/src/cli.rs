use vstd::prelude::*;

verus! {

/// The command line: a subcommand and the settings that every subcommand shares.
#[derive(Debug)]
pub struct Args {
    pub command: Command,
    /// Path of the configuration file.
    pub config: String,
    /// Upload directory; overrides the configuration file.
    pub dir: Option<String>,
    /// Upload token; overrides the configuration file.
    pub token: Option<String>,
}

/// The subcommands.
#[derive(Debug)]
pub enum Command {
    /// Serve uploads and files on the given listen address.
    Web { listen: String },
    /// Write a systemd unit file to the given path.
    InstallService { path: String },
    /// Write a configuration file, asking for what the arguments leave open.
    Init { dir: Option<String>, token: Option<String>, force: bool },
}

} // verus!
