use vstd::prelude::*;
use crate::cli::{Cli, TopLevelCommand};
use crate::ipc::{trim_from, trimmed};
use crate::lines::{text_view, to_chars};
use crate::platform::runtime_dir;

verus! {

/// What was piped in, as it is handed on: the text without the white space
/// around it, or nothing where nothing else is left.
pub open spec fn piped_text(content: Seq<char>) -> Option<Seq<char>> {
    if trimmed(content).len() > 0 {
        Some(trimmed(content))
    } else {
        None
    }
}

/// Takes what was piped in: see [`piped_text`].
pub fn piped_input(content: &str) -> (out: Option<String>)
    ensures
        text_view(out) == piped_text(content@),
{
    let chars = to_chars(content);
    assert(chars@.skip(0) =~= content@);
    let text = trim_from(&chars, 0);
    if text.as_str().unicode_len() > 0 {
        Some(text)
    } else {
        None
    }
}

/// The name of the level at which is logged.
pub open spec fn level_name(verbose: bool) -> Seq<char> {
    if verbose {
        "DEBUG"@
    } else {
        "INFO"@
    }
}

/// The filter for what is logged: the level for the program, under its
/// name, and the same level for `tokio`.
pub fn log_filter(program: &str, verbose: bool) -> (out: String)
    ensures
        out@ == program@ + "="@ + level_name(verbose) + ",tokio="@ + level_name(verbose),
{
    let level = if verbose {
        "DEBUG"
    } else {
        "INFO"
    };
    let mut out = program.to_owned();
    out.append("=");
    out.append(level);
    out.append(",tokio=");
    out.append(level);
    out
}

/// A name below a directory, as a path.
pub open spec fn path_below(directory: Seq<char>, name: Seq<char>) -> Seq<char> {
    if directory.len() == 0 {
        name
    } else if directory.last() == '/' {
        directory + name
    } else {
        directory + "/"@ + name
    }
}

/// The path of the socket where none is given: `paws.sock` in the directory
/// for what lives as long as the session, or in `/tmp` where there is none.
pub fn default_socket_path(runtime_dir: Option<&str>) -> (out: String)
    ensures
        out@ == path_below(
            match runtime_dir {
                Some(d) => d@,
                None => "/tmp"@,
            },
            "paws.sock"@,
        ),
{
    let directory = match runtime_dir {
        Some(d) => d,
        None => "/tmp",
    };
    let chars = to_chars(directory);
    let mut out = directory.to_owned();
    if chars.len() > 0 && chars[chars.len() - 1] != '/' {
        out.append("/");
    }
    out.append("paws.sock");
    proof {
        if chars@.len() == 0 {
            assert(out@ =~= "paws.sock"@);
        }
    }
    out
}

/// The path of the socket where none is given, in the directory that the
/// environment names for what lives as long as the session: see
/// [`default_socket_path`].
pub fn socket_path_here() -> (out: String)
    ensures
        exists|directory: Seq<char>| out@ == path_below(directory, "paws.sock"@),
{
    let directory = runtime_dir();
    match &directory {
        Some(d) => default_socket_path(Some(d.as_str())),
        None => default_socket_path(None),
    }
}

/// What the program runs as.
#[derive(Debug)]
pub enum Mode {
    /// The server, on the socket given or on the default one.
    Server { socket: Option<String>, verbose: bool },
    /// The client.
    Client,
}

/// What the program runs as: the server where the command line asks for it,
/// else the client.
pub fn mode_of(cli: &Cli) -> (out: Mode)
    ensures
        out == match cli.subcommands {
            Some(TopLevelCommand::Server { socket, verbose }) => Mode::Server { socket, verbose },
            _ => Mode::Client,
        },
{
    match &cli.subcommands {
        Some(TopLevelCommand::Server { socket, verbose }) => Mode::Server {
            socket: socket.clone(),
            verbose: *verbose,
        },
        _ => Mode::Client,
    }
}

/// The arguments with which the program is started as a server on a socket.
pub fn server_arguments(socket: &str) -> (out: Vec<String>)
    ensures
        out@.len() == 3,
        out@[0]@ == "server"@,
        out@[1]@ == "--socket"@,
        out@[2]@ == socket@,
{
    let mut out: Vec<String> = Vec::new();
    out.push("server".to_owned());
    out.push("--socket".to_owned());
    out.push(socket.to_owned());
    out
}

} // verus!
