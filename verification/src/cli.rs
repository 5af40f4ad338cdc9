//! The command line: its arguments and what the program does with them.
use vstd::prelude::*;

use crate::browser::TargetOs;

verus! {

/// The subcommands of the program.
#[derive(Debug, Clone, Copy, PartialEq, Eq, Structural)]
pub enum Commands {
    /// Run the background routing daemon.
    Daemon,
    /// Install and register as the default browser.
    Install,
}

/// The parsed command line: an optional subcommand and an optional link to route.
#[derive(Debug, Clone)]
pub struct Cli {
    pub command: Option<Commands>,
    pub url: Option<String>,
}

/// What the program does for a command line.
#[derive(Debug, Clone)]
pub enum Invocation {
    /// Run the daemon and the tray icon.
    StartDaemon,
    /// Install as the default browser.
    Install,
    /// Route one link and exit.
    RouteUrl(String),
    /// Tell the user how to use the program.
    ShowUsage,
}

/// Chooses what to do: a subcommand wins over a link; with neither, macOS
/// (where links arrive through the application's event loop) starts the
/// daemon and other systems show the usage.
pub fn plan_invocation(cli: Cli, os: TargetOs) -> (r: Invocation)
    ensures
        match cli.command {
            Some(Commands::Daemon) => r is StartDaemon,
            Some(Commands::Install) => r is Install,
            None => match cli.url {
                Some(u) => r matches Invocation::RouteUrl(v) && v == u,
                None => if os == TargetOs::MacOs {
                    r is StartDaemon
                } else {
                    r is ShowUsage
                },
            },
        },
{
    match cli.command {
        Some(Commands::Daemon) => Invocation::StartDaemon,
        Some(Commands::Install) => Invocation::Install,
        None => match cli.url {
            Some(u) => Invocation::RouteUrl(u),
            None => match os {
                TargetOs::MacOs => Invocation::StartDaemon,
                _ => Invocation::ShowUsage,
            },
        },
    }
}

} // verus!
