use vstd::prelude::*;
use crate::cli::{Args, Command};
use crate::conf::Config;

verus! {

/// What the program does once its arguments and configuration file are read.
#[derive(Debug)]
pub enum Startup {
    /// Write a configuration file at `config`, with the values given to `init`.
    Init { config: String, dir: Option<String>, token: Option<String>, force: bool },
    /// Serve on `listen`, accepting uploads with `token`, from the directory `dir`.
    Web { listen: String, token: String, dir: String },
    /// Write a systemd unit file at `path`.
    InstallService { path: String },
}

/// Why the program cannot start.
#[derive(Debug)]
pub enum StartupError {
    /// Neither the command line nor the configuration file gives a token.
    TokenRequired,
}

pub open spec fn opt_view(o: Option<String>) -> Option<Seq<char>> {
    match o {
        Some(s) => Some(s@),
        None => None,
    }
}

/// The first value that is set.
pub open spec fn first_set(a: Option<Seq<char>>, b: Option<Seq<char>>) -> Option<Seq<char>> {
    match a {
        Some(x) => Some(x),
        None => b,
    }
}

/// The upload directory: the command line's, else the file's, else ".uploads".
pub open spec fn resolved_dir(args: Args, conf: Config) -> Seq<char> {
    match first_set(opt_view(args.dir), opt_view(conf.dir)) {
        Some(d) => d,
        None => ".uploads"@,
    }
}

/// The upload token: the command line's, else the file's.
pub open spec fn resolved_token(args: Args, conf: Config) -> Option<Seq<char>> {
    first_set(opt_view(args.token), opt_view(conf.token))
}

fn either(a: Option<String>, b: Option<String>) -> (r: Option<String>)
    ensures
        opt_view(r) == first_set(opt_view(a), opt_view(b)),
{
    match a {
        Some(x) => Some(x),
        None => b,
    }
}

/// Decides what to run from the command line and the configuration file.
/// `init` runs with its own arguments and needs no token; the other commands
/// need a token, from the command line or else from the file, and `web` serves
/// the directory from the command line, else from the file, else ".uploads".
pub fn plan_startup(args: Args, file_conf: Config) -> (res: Result<Startup, StartupError>)
    ensures
        match args.command {
            Command::Init { dir, token, force } => res matches Ok(
                Startup::Init { config: c, dir: d, token: t, force: f },
            ) && c@ == args.config@ && opt_view(d) == opt_view(dir) && opt_view(t) == opt_view(
                token,
            ) && f == force,
            Command::Web { listen } => match resolved_token(args, file_conf) {
                None => res matches Err(StartupError::TokenRequired),
                Some(tok) => res matches Ok(Startup::Web { listen: l, token: t, dir: d }) && l@
                    == listen@ && t@ == tok && d@ == resolved_dir(args, file_conf),
            },
            Command::InstallService { path } => match resolved_token(args, file_conf) {
                None => res matches Err(StartupError::TokenRequired),
                Some(_) => res matches Ok(Startup::InstallService { path: p }) && p@ == path@,
            },
        },
{
    let Args { command, config, dir, token } = args;
    let Config { dir: file_dir, token: file_token } = file_conf;
    match command {
        Command::Init { dir, token, force } => Ok(Startup::Init { config, dir, token, force }),
        Command::Web { listen } => {
            let token = match either(token, file_token) {
                Some(t) => t,
                None => return Err(StartupError::TokenRequired),
            };
            let dir = match either(dir, file_dir) {
                Some(d) => d,
                None => String::from_str(".uploads"),
            };
            Ok(Startup::Web { listen, token, dir })
        },
        Command::InstallService { path } => {
            match either(token, file_token) {
                Some(_) => Ok(Startup::InstallService { path }),
                None => Err(StartupError::TokenRequired),
            }
        },
    }
}

/// Law: the served directory is the command line's `--dir` whenever it is
/// given, whatever the file says; the file's `dir` only when the command line
/// gives none; ".uploads" only when neither does.
pub proof fn law_dir_precedence(args: Args, conf: Config)
    ensures
        args.dir matches Some(d) ==> resolved_dir(args, conf) == d@,
        args.dir is None && conf.dir is Some ==> resolved_dir(args, conf) == conf.dir->0@,
        args.dir is None && conf.dir is None ==> resolved_dir(args, conf) == ".uploads"@,
{
}

/// Law: the token is the command line's `--token` whenever it is given; the
/// file's `token` only when the command line gives none; there is none only
/// when neither gives one.
pub proof fn law_token_precedence(args: Args, conf: Config)
    ensures
        args.token matches Some(t) ==> resolved_token(args, conf) == Some(t@),
        args.token is None && conf.token is Some ==> resolved_token(args, conf) == Some(conf.token->0@),
        args.token is None && conf.token is None ==> resolved_token(args, conf) is None,
{
}

} // verus!
