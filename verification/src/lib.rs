//! A browser profile router: decides which browser and profile open a link,
//! from a list of domain and pattern rules with a default fallback.

pub mod browser;
pub mod cli;
pub mod config;
pub mod debounce;
pub mod glob;
pub mod install;
pub mod messaging;
pub mod outside;
pub mod router;

pub use browser::{browser_command_for, get_browser_command, BrowserCommand, TargetOs};
pub use cli::{plan_invocation, Cli, Commands, Invocation};
pub use config::{
    count_invalid_rules, decide_load, default_timeout, Config, ConfigError, ConfigFileOutcome, ConfigProblem,
    ConfigStore, DefaultFallback, FallbackStep, LoadDecision, RedirectPolicy, Rule,
};
pub use debounce::{RecentRequests, DEBOUNCE_WINDOW_NS};
pub use install::{
    install, install_linux, install_macos, install_native_messaging_hosts, install_windows, native_host_manifest,
    InstallStep, PathBase, PlannedArg, PlannedPath,
};
pub use messaging::{
    daemon_step, payload_length, routing_reply, AckData, DaemonAction, ErrorData, ExtensionMessage, NativeMessage,
    ReadOutcome, ResolvedUrlData,
};
pub use router::{open_url, route_domain, route_url, LaunchPlan, RouteError, RouteResult};
