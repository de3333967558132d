//! The root command tree of `auv` after parsing: the parsed arguments, and
//! the command the frontend runs for them, with the selected Device and Run
//! handed on to every command that can use them.

use std::path::PathBuf;
use std::time::Duration;
use vstd::prelude::*;
use crate::args::{
    DeviceProfilesCommand, DeviceTrustAction, DevicesArgs, DevicesCommand, InvokeArgs, LifecycleArg, McpArgs,
    McpCommand, PairingCommand, ParentContextOptions, PluginArgs, PluginCommand, RunnerArgs, RunnerCommand, ServeArgs,
};
use crate::text::{owned, viewed};

verus! {

/// The duration of a whole number of seconds.
pub uninterp spec fn duration_from_secs_spec(secs: u64) -> Duration;

/// `Duration::from_secs`: the contract names its result, which depends on
/// the second count alone.
#[verifier::external_body]
fn duration_from_secs(secs: u64) -> (d: Duration)
    ensures
        d == duration_from_secs_spec(secs),
{
    Duration::from_secs(secs)
}

/// Hidden repository development tasks.
#[derive(Clone, Copy, Debug, PartialEq, Eq)]
pub enum Xtask {
    GenerateSwiftBridge,
}

/// `auv doctor`.
#[derive(Clone, Debug, PartialEq, Eq)]
pub struct DoctorArgs {
    pub json: bool,
}

/// `auv api-server serve`.
#[derive(Clone, Debug, PartialEq, Eq)]
pub struct ApiServerServeArgs {
    pub host: String,
    pub port: u16,
    pub remote_listen: Option<String>,
    pub pairing_store: Option<PathBuf>,
    pub unix_socket: Option<PathBuf>,
    pub store_root: Option<PathBuf>,
    pub discovery_file: Option<PathBuf>,
    pub no_discovery: bool,
    pub daemon_idle_timeout: Option<u64>,
    pub runner_providers: Vec<PathBuf>,
}

#[derive(Clone, Debug, PartialEq, Eq)]
pub enum ApiServerCommand {
    Serve(ApiServerServeArgs),
}

/// `auv api-server`.
#[derive(Clone, Debug, PartialEq, Eq)]
pub struct ApiServerArgs {
    pub command: ApiServerCommand,
}

/// How a stopped Run ended.
#[derive(Clone, Copy, Debug, PartialEq, Eq)]
pub enum RunOutcomeArg {
    Succeeded,
    Failed,
    Canceled,
}

#[derive(Clone, Debug, PartialEq, Eq)]
pub enum RunCommand {
    Create { endpoint: Option<String>, device_ids: Vec<String>, json: bool },
    List { endpoint: Option<String>, json: bool },
    Get { endpoint: Option<String>, run_id: String, json: bool },
    Stop { endpoint: Option<String>, run_id: String, outcome: RunOutcomeArg, json: bool },
}

/// `auv run`.
#[derive(Clone, Debug, PartialEq, Eq)]
pub struct RunArgs {
    pub command: RunCommand,
}

/// The subcommands of the root command.
#[derive(Clone)]
pub enum RootCommand {
    Doctor(DoctorArgs),
    Invoke(InvokeArgs),
    ApiServer(ApiServerArgs),
    Serve(ServeArgs),
    Devices(DevicesArgs),
    Runner(RunnerArgs),
    Run(RunArgs),
    Mcp(McpArgs),
    Plugin(PluginArgs),
    /// An installed `auv-*` command: its name, then its arguments.
    External(Vec<String>),
}

/// The parsed root command line.
#[derive(Clone)]
pub struct RootArgs {
    pub verbose: u8,
    pub xtask: Option<Xtask>,
    pub device: Option<String>,
    pub device_id: Option<String>,
    pub run: Option<String>,
    pub command: Option<RootCommand>,
}

/// The command the frontend runs.
#[allow(inconsistent_fields)]
pub enum CliCommand {
    Help(String),
    Version,
    PermissionCheck { json: bool },
    /// `auv invoke`: the arguments for the invoke registry's parser.
    Invoke { arguments: Vec<String>, parent_context: ParentContextOptions },
    ApiServerServe {
        host: String,
        port: u16,
        remote_listen: Option<String>,
        pairing_store: Option<PathBuf>,
        unix_socket: Option<PathBuf>,
        store_root: Option<PathBuf>,
        discovery_file: Option<PathBuf>,
        no_discovery: bool,
        daemon_idle_timeout: Option<Duration>,
        runner_providers: Vec<PathBuf>,
    },
    Serve {
        listeners: Vec<String>,
        pairing_store: Option<PathBuf>,
        store_root: Option<PathBuf>,
        discovery_file: Option<PathBuf>,
        no_discovery: bool,
        daemon_idle_timeout: Option<Duration>,
        runner_providers: Vec<PathBuf>,
    },
    DeviceList { endpoint: Option<String>, json: bool, parent_context: ParentContextOptions },
    DeviceGet { endpoint: Option<String>, device_id: String, json: bool, parent_context: ParentContextOptions },
    DeviceProfiles { command: DeviceProfilesCommand },
    DeviceTrust { store: Option<PathBuf>, device: String, action: DeviceTrustAction },
    RunnerCreate {
        endpoint: Option<String>,
        runner_class: String,
        lifecycle: LifecycleArg,
        json: bool,
        parent_context: ParentContextOptions,
    },
    RunnerList { endpoint: Option<String>, json: bool, parent_context: ParentContextOptions },
    RunnerClassList { endpoint: Option<String>, json: bool, parent_context: ParentContextOptions },
    RunnerGet { endpoint: Option<String>, runner_id: String, json: bool, parent_context: ParentContextOptions },
    RunnerStop {
        endpoint: Option<String>,
        runner_id: String,
        timeout: Option<u64>,
        force: bool,
        json: bool,
        parent_context: ParentContextOptions,
    },
    RunCreate { endpoint: Option<String>, device_ids: Vec<String>, json: bool, parent_context: ParentContextOptions },
    RunList { endpoint: Option<String>, json: bool, parent_context: ParentContextOptions },
    RunGet { endpoint: Option<String>, run_id: String, json: bool, parent_context: ParentContextOptions },
    RunStop {
        endpoint: Option<String>,
        run_id: String,
        outcome: RunOutcomeArg,
        json: bool,
        parent_context: ParentContextOptions,
    },
    Pairing { store: Option<PathBuf>, endpoint: Option<String>, command: PairingCommand },
    McpServe,
    PluginList,
    External { command_name: String, arguments: Vec<String>, parent_context: ParentContextOptions },
    XtaskGenerateSwiftBridge,
}

pub open spec fn seconds_duration(secs: Option<u64>) -> Option<Duration> {
    match secs {
        Some(s) => Some(duration_from_secs_spec(s)),
        None => None,
    }
}

fn seconds(secs: Option<u64>) -> (d: Option<Duration>)
    ensures
        d == seconds_duration(secs),
{
    match secs {
        Some(s) => Some(duration_from_secs(s)),
        None => None,
    }
}

/// The Device and Run a parsed command line selects.
pub open spec fn selected_context(parsed: RootArgs) -> ParentContextOptions {
    ParentContextOptions { device_name: parsed.device, device_id: parsed.device_id, run_id: parsed.run }
}

/// Whether an `api-server serve` command line is refused, and why: a
/// remote listener needs a pairing store, and cannot share the daemon with
/// a Unix socket.
pub open spec fn api_server_refusal(args: ApiServerServeArgs) -> Option<Seq<char>> {
    if args.remote_listen is Some && args.pairing_store is None {
        Some("--remote-listen requires --pairing-store"@)
    } else if args.remote_listen is Some && args.unix_socket is Some {
        Some("--remote-listen conflicts with --unix-socket"@)
    } else {
        None
    }
}

/// Whether the command line names an external command with its name.
pub open spec fn well_formed_root(parsed: RootArgs) -> bool {
    parsed.command matches Some(RootCommand::External(arguments)) ==> arguments.len() > 0
}

/// The command the frontend runs for a parsed command line; `root_help` is
/// the rendered root help, shown when no command is named. An external
/// command is described by `is_external_command` instead.
pub open spec fn cli_command_spec(parsed: RootArgs, root_help: String) -> Result<CliCommand, Seq<char>> {
    let context = selected_context(parsed);
    if parsed.xtask is Some {
        Ok(CliCommand::XtaskGenerateSwiftBridge)
    } else {
        match parsed.command {
            None => Ok(CliCommand::Help(root_help)),
            Some(RootCommand::Doctor(args)) => Ok(CliCommand::PermissionCheck { json: args.json }),
            Some(RootCommand::Invoke(args)) => Ok(
                CliCommand::Invoke { arguments: args.arguments, parent_context: context },
            ),
            Some(RootCommand::ApiServer(args)) => match args.command {
                ApiServerCommand::Serve(serve) => match api_server_refusal(serve) {
                    Some(message) => Err(message),
                    None => Ok(
                        CliCommand::ApiServerServe {
                            host: serve.host,
                            port: serve.port,
                            remote_listen: serve.remote_listen,
                            pairing_store: serve.pairing_store,
                            unix_socket: serve.unix_socket,
                            store_root: serve.store_root,
                            discovery_file: serve.discovery_file,
                            no_discovery: serve.no_discovery,
                            daemon_idle_timeout: seconds_duration(serve.daemon_idle_timeout),
                            runner_providers: serve.runner_providers,
                        },
                    ),
                },
            },
            Some(RootCommand::Serve(args)) => Ok(
                CliCommand::Serve {
                    listeners: args.listeners,
                    pairing_store: args.pairing_store,
                    store_root: args.store_root,
                    discovery_file: args.discovery_file,
                    no_discovery: args.no_discovery,
                    daemon_idle_timeout: seconds_duration(args.daemon_idle_timeout),
                    runner_providers: args.runner_providers,
                },
            ),
            Some(RootCommand::Devices(args)) => Ok(devices_command(args.command, context)),
            Some(RootCommand::Runner(args)) => Ok(runner_command(args.command, context)),
            Some(RootCommand::Run(args)) => Ok(run_command(args.command, context)),
            Some(RootCommand::Mcp(args)) => match args.command {
                McpCommand::Serve => Ok(CliCommand::McpServe),
            },
            Some(RootCommand::Plugin(args)) => match args.command {
                PluginCommand::List => Ok(CliCommand::PluginList),
            },
            Some(RootCommand::External(arguments)) => Err(Seq::empty()),
        }
    }
}

pub open spec fn devices_command(command: DevicesCommand, context: ParentContextOptions) -> CliCommand {
    match command {
        DevicesCommand::List(args) => CliCommand::DeviceList { endpoint: args.endpoint, json: args.json, parent_context: context },
        DevicesCommand::Get(args) => CliCommand::DeviceGet {
            endpoint: args.endpoint,
            device_id: args.device_id,
            json: args.json,
            parent_context: context,
        },
        DevicesCommand::Pair(args) => CliCommand::Pairing { store: args.store, endpoint: args.endpoint, command: args.command },
        DevicesCommand::Unpair(args) => CliCommand::DeviceTrust { store: args.store, device: args.device, action: DeviceTrustAction::Unpair },
        DevicesCommand::Enable(args) => CliCommand::DeviceTrust { store: args.store, device: args.device, action: DeviceTrustAction::Enable },
        DevicesCommand::Disable(args) => CliCommand::DeviceTrust {
            store: args.store,
            device: args.device,
            action: DeviceTrustAction::Disable,
        },
        DevicesCommand::Profiles(args) => CliCommand::DeviceProfiles { command: args.command },
    }
}

pub open spec fn runner_command(command: RunnerCommand, context: ParentContextOptions) -> CliCommand {
    match command {
        RunnerCommand::Create(args) => CliCommand::RunnerCreate {
            endpoint: args.endpoint,
            runner_class: args.runner_class,
            lifecycle: args.lifecycle,
            json: args.json,
            parent_context: context,
        },
        RunnerCommand::List(args) => CliCommand::RunnerList { endpoint: args.endpoint, json: args.json, parent_context: context },
        RunnerCommand::Classes(args) => CliCommand::RunnerClassList { endpoint: args.endpoint, json: args.json, parent_context: context },
        RunnerCommand::Get(args) => CliCommand::RunnerGet {
            endpoint: args.endpoint,
            runner_id: args.runner_id,
            json: args.json,
            parent_context: context,
        },
        RunnerCommand::Stop(args) => CliCommand::RunnerStop {
            endpoint: args.endpoint,
            runner_id: args.runner_id,
            timeout: args.timeout,
            force: args.force,
            json: args.json,
            parent_context: context,
        },
    }
}

pub open spec fn run_command(command: RunCommand, context: ParentContextOptions) -> CliCommand {
    match command {
        RunCommand::Create { endpoint, device_ids, json } => CliCommand::RunCreate { endpoint, device_ids, json, parent_context: context },
        RunCommand::List { endpoint, json } => CliCommand::RunList { endpoint, json, parent_context: context },
        RunCommand::Get { endpoint, run_id, json } => CliCommand::RunGet { endpoint, run_id, json, parent_context: context },
        RunCommand::Stop { endpoint, run_id, outcome, json } => CliCommand::RunStop {
            endpoint,
            run_id,
            outcome,
            json,
            parent_context: context,
        },
    }
}

/// Whether the parsed command line runs an installed `auv-*` command.
pub open spec fn names_external(parsed: RootArgs) -> bool {
    parsed.xtask is None && parsed.command matches Some(RootCommand::External(_))
}

/// The command a parsed command line runs. The parser hands over an external
/// command with its name first, which `requires` states.
pub fn cli_command(parsed: RootArgs, root_help: String) -> (r: Result<CliCommand, String>)
    requires
        well_formed_root(parsed),
    ensures
        !names_external(parsed) ==> viewed(r) == cli_command_spec(parsed, root_help),
        names_external(parsed) ==> (parsed.command matches Some(RootCommand::External(a)) && r matches Ok(
            CliCommand::External { command_name, arguments, parent_context },
        ) && command_name == a@[0] && arguments@ == a@.drop_first() && parent_context == selected_context(parsed)),
{
    let parent_context = ParentContextOptions { device_name: parsed.device, device_id: parsed.device_id, run_id: parsed.run };
    if parsed.xtask.is_some() {
        return Ok(CliCommand::XtaskGenerateSwiftBridge);
    }
    match parsed.command {
        None => Ok(CliCommand::Help(root_help)),
        Some(RootCommand::Doctor(args)) => Ok(CliCommand::PermissionCheck { json: args.json }),
        Some(RootCommand::Invoke(args)) => Ok(CliCommand::Invoke { arguments: args.arguments, parent_context }),
        Some(RootCommand::ApiServer(args)) => match args.command {
            ApiServerCommand::Serve(serve) => {
                if serve.remote_listen.is_some() && serve.pairing_store.is_none() {
                    return Err(owned("--remote-listen requires --pairing-store"));
                }
                if serve.remote_listen.is_some() && serve.unix_socket.is_some() {
                    return Err(owned("--remote-listen conflicts with --unix-socket"));
                }
                Ok(
                    CliCommand::ApiServerServe {
                        host: serve.host,
                        port: serve.port,
                        remote_listen: serve.remote_listen,
                        pairing_store: serve.pairing_store,
                        unix_socket: serve.unix_socket,
                        store_root: serve.store_root,
                        discovery_file: serve.discovery_file,
                        no_discovery: serve.no_discovery,
                        daemon_idle_timeout: seconds(serve.daemon_idle_timeout),
                        runner_providers: serve.runner_providers,
                    },
                )
            },
        },
        Some(RootCommand::Serve(args)) => Ok(
            CliCommand::Serve {
                listeners: args.listeners,
                pairing_store: args.pairing_store,
                store_root: args.store_root,
                discovery_file: args.discovery_file,
                no_discovery: args.no_discovery,
                daemon_idle_timeout: seconds(args.daemon_idle_timeout),
                runner_providers: args.runner_providers,
            },
        ),
        Some(RootCommand::Devices(args)) => Ok(
            match args.command {
                DevicesCommand::List(args) => CliCommand::DeviceList { endpoint: args.endpoint, json: args.json, parent_context },
                DevicesCommand::Get(args) => CliCommand::DeviceGet {
                    endpoint: args.endpoint,
                    device_id: args.device_id,
                    json: args.json,
                    parent_context,
                },
                DevicesCommand::Pair(args) => CliCommand::Pairing { store: args.store, endpoint: args.endpoint, command: args.command },
                DevicesCommand::Unpair(args) => CliCommand::DeviceTrust {
                    store: args.store,
                    device: args.device,
                    action: DeviceTrustAction::Unpair,
                },
                DevicesCommand::Enable(args) => CliCommand::DeviceTrust {
                    store: args.store,
                    device: args.device,
                    action: DeviceTrustAction::Enable,
                },
                DevicesCommand::Disable(args) => CliCommand::DeviceTrust {
                    store: args.store,
                    device: args.device,
                    action: DeviceTrustAction::Disable,
                },
                DevicesCommand::Profiles(args) => CliCommand::DeviceProfiles { command: args.command },
            },
        ),
        Some(RootCommand::Runner(args)) => Ok(
            match args.command {
                RunnerCommand::Create(args) => CliCommand::RunnerCreate {
                    endpoint: args.endpoint,
                    runner_class: args.runner_class,
                    lifecycle: args.lifecycle,
                    json: args.json,
                    parent_context,
                },
                RunnerCommand::List(args) => CliCommand::RunnerList { endpoint: args.endpoint, json: args.json, parent_context },
                RunnerCommand::Classes(args) => CliCommand::RunnerClassList { endpoint: args.endpoint, json: args.json, parent_context },
                RunnerCommand::Get(args) => CliCommand::RunnerGet {
                    endpoint: args.endpoint,
                    runner_id: args.runner_id,
                    json: args.json,
                    parent_context,
                },
                RunnerCommand::Stop(args) => CliCommand::RunnerStop {
                    endpoint: args.endpoint,
                    runner_id: args.runner_id,
                    timeout: args.timeout,
                    force: args.force,
                    json: args.json,
                    parent_context,
                },
            },
        ),
        Some(RootCommand::Run(args)) => Ok(
            match args.command {
                RunCommand::Create { endpoint, device_ids, json } => CliCommand::RunCreate { endpoint, device_ids, json, parent_context },
                RunCommand::List { endpoint, json } => CliCommand::RunList { endpoint, json, parent_context },
                RunCommand::Get { endpoint, run_id, json } => CliCommand::RunGet { endpoint, run_id, json, parent_context },
                RunCommand::Stop { endpoint, run_id, outcome, json } => CliCommand::RunStop {
                    endpoint,
                    run_id,
                    outcome,
                    json,
                    parent_context,
                },
            },
        ),
        Some(RootCommand::Mcp(args)) => match args.command {
            McpCommand::Serve => Ok(CliCommand::McpServe),
        },
        Some(RootCommand::Plugin(args)) => match args.command {
            PluginCommand::List => Ok(CliCommand::PluginList),
        },
        Some(RootCommand::External(arguments)) => {
            let mut arguments = arguments;
            let command_name = arguments.remove(0);
            Ok(CliCommand::External { command_name, arguments, parent_context })
        },
    }
}

/// Where `auv api-server serve` listens.
#[derive(Debug, PartialEq, Eq)]
pub enum ApiServerListener {
    /// Paired Devices reach the server on this host and port.
    Remote { host: String, port: u16 },
    /// Local clients reach the server on this Unix socket (relative paths are
    /// resolved against the project root by the caller).
    Unix { path: PathBuf },
    /// Local clients reach the server on this host and port.
    Tcp { host: String, port: u16 },
}

/// The listener of `auv api-server serve`: a remote listener when one is
/// given, else the Unix socket when one is given, else TCP on the host and
/// port.
pub fn api_server_listener(host: String, port: u16, remote_listen: Option<String>, unix_socket: Option<PathBuf>) -> (l: ApiServerListener)
    ensures
        match remote_listen {
            Some(remote) => l == ApiServerListener::Remote { host: remote, port },
            None => match unix_socket {
                Some(path) => l == ApiServerListener::Unix { path },
                None => l == ApiServerListener::Tcp { host, port },
            },
        },
{
    match remote_listen {
        Some(remote) => ApiServerListener::Remote { host: remote, port },
        None => match unix_socket {
            Some(path) => ApiServerListener::Unix { path },
            None => ApiServerListener::Tcp { host, port },
        },
    }
}

/// The listeners `auv serve` binds: the given ones, or the default local
/// listener when none is given.
pub enum ServeListeners {
    Given(Vec<String>),
    DefaultLocal,
}

/// Chooses the listeners of `auv serve`.
pub fn serve_listeners(listeners: Vec<String>) -> (r: ServeListeners)
    ensures
        listeners@.len() == 0 ==> r is DefaultLocal,
        listeners@.len() > 0 ==> r == ServeListeners::Given(listeners),
{
    if listeners.len() == 0 {
        ServeListeners::DefaultLocal
    } else {
        ServeListeners::Given(listeners)
    }
}

/// The text `auv --version` prints for a package version.
pub fn version_text(version: &str) -> (text: String)
    ensures
        text@ == "auv "@ + version@ + "\n"@,
{
    let mut text = owned("auv ");
    text.append(version);
    text.append("\n");
    text
}

/// The listener a daemon binds first and the ones it adds, or the error
/// when there is none.
pub fn split_listeners<T>(listeners: Vec<T>) -> (r: Result<(T, Vec<T>), String>)
    ensures
        listeners@.len() == 0 ==> (r matches Err(e) && e@ == "auv serve requires at least one listener"@),
        listeners@.len() > 0 ==> (r matches Ok(split) && split.0 == listeners@[0] && split.1@ == listeners@.drop_first()),
{
    let mut listeners = listeners;
    if listeners.len() == 0 {
        return Err(owned("auv serve requires at least one listener"));
    }
    let first = listeners.remove(0);
    Ok((first, listeners))
}

/// Where a foreground daemon publishes its discovery descriptor.
pub enum DiscoveryTarget {
    /// Discovery is off.
    Unpublished,
    /// The given descriptor path.
    At(PathBuf),
    /// The default descriptor path of this machine.
    DefaultPath,
}

/// Chooses where `auv serve` publishes discovery: nowhere with
/// `--no-discovery`, else the given `--discovery-file`, else the default
/// path.
pub fn discovery_target(no_discovery: bool, discovery_file: Option<PathBuf>) -> (r: DiscoveryTarget)
    ensures
        no_discovery ==> r is Unpublished,
        !no_discovery ==> match discovery_file {
            Some(path) => r == DiscoveryTarget::At(path),
            None => r is DefaultPath,
        },
{
    if no_discovery {
        DiscoveryTarget::Unpublished
    } else {
        match discovery_file {
            Some(path) => DiscoveryTarget::At(path),
            None => DiscoveryTarget::DefaultPath,
        }
    }
}

/// `auv devices unpair|enable|disable D` runs the Device trust command on
/// `D` (with the given store) whose action is the subcommand's own: enable
/// enables, disable disables, unpair unpairs. In particular enabling and
/// disabling never run the same action.
pub proof fn lemma_device_trust_follows_the_subcommand(parsed: RootArgs, root_help: String)
    requires
        parsed.xtask is None,
    ensures
        parsed.command matches Some(RootCommand::Devices(d)) ==> (d.command matches DevicesCommand::Enable(a)
            ==> cli_command_spec(parsed, root_help) == Ok::<CliCommand, Seq<char>>(
            CliCommand::DeviceTrust { store: a.store, device: a.device, action: DeviceTrustAction::Enable },
        )),
        parsed.command matches Some(RootCommand::Devices(d)) ==> (d.command matches DevicesCommand::Disable(a)
            ==> cli_command_spec(parsed, root_help) == Ok::<CliCommand, Seq<char>>(
            CliCommand::DeviceTrust { store: a.store, device: a.device, action: DeviceTrustAction::Disable },
        )),
        parsed.command matches Some(RootCommand::Devices(d)) ==> (d.command matches DevicesCommand::Unpair(a)
            ==> cli_command_spec(parsed, root_help) == Ok::<CliCommand, Seq<char>>(
            CliCommand::DeviceTrust { store: a.store, device: a.device, action: DeviceTrustAction::Unpair },
        )),
{
}

/// Two `devices` trust command lines on one Device run the same action
/// exactly when they name the same subcommand.
pub proof fn lemma_device_trust_actions_are_distinct(p1: RootArgs, p2: RootArgs, root_help: String)
    requires
        p1.xtask is None,
        p2.xtask is None,
        p1.command matches Some(RootCommand::Devices(d)) && (d.command is Enable || d.command is Disable
            || d.command is Unpair),
        p2.command matches Some(RootCommand::Devices(d)) && (d.command is Enable || d.command is Disable
            || d.command is Unpair),
    ensures
        cli_command_spec(p1, root_help) matches Ok(CliCommand::DeviceTrust { action: a1, .. }) && cli_command_spec(
            p2,
            root_help,
        ) matches Ok(CliCommand::DeviceTrust { action: a2, .. }) && (a1 == a2 <==> (
        p1.command->Some_0->Devices_0.command is Enable && p2.command->Some_0->Devices_0.command is Enable
            || p1.command->Some_0->Devices_0.command is Disable && p2.command->Some_0->Devices_0.command is Disable
            || p1.command->Some_0->Devices_0.command is Unpair && p2.command->Some_0->Devices_0.command is Unpair)),
{
    lemma_device_trust_follows_the_subcommand(p1, root_help);
    lemma_device_trust_follows_the_subcommand(p2, root_help);
}

/// Every `devices`, `runner` and `run` subcommand runs the command of the
/// same name with the arguments it was given, and those that reach a daemon
/// carry the root `--device`, `--device-id` and `--run` selection.
pub proof fn lemma_subcommands_run_with_their_arguments(parsed: RootArgs, root_help: String)
    requires
        parsed.xtask is None,
    ensures
        parsed.command matches Some(RootCommand::Devices(d)) ==> (d.command matches DevicesCommand::List(a)
            ==> cli_command_spec(parsed, root_help) == Ok::<CliCommand, Seq<char>>(CliCommand::DeviceList { endpoint: a.endpoint, json: a.json, parent_context: ParentContextOptions { device_name: parsed.device, device_id: parsed.device_id, run_id: parsed.run } })),
        parsed.command matches Some(RootCommand::Devices(d)) ==> (d.command matches DevicesCommand::Get(a)
            ==> cli_command_spec(parsed, root_help) == Ok::<CliCommand, Seq<char>>(CliCommand::DeviceGet { endpoint: a.endpoint, device_id: a.device_id, json: a.json, parent_context: ParentContextOptions { device_name: parsed.device, device_id: parsed.device_id, run_id: parsed.run } })),
        parsed.command matches Some(RootCommand::Devices(d)) ==> (d.command matches DevicesCommand::Pair(a)
            ==> cli_command_spec(parsed, root_help) == Ok::<CliCommand, Seq<char>>(CliCommand::Pairing { store: a.store, endpoint: a.endpoint, command: a.command })),
        parsed.command matches Some(RootCommand::Devices(d)) ==> (d.command matches DevicesCommand::Profiles(a)
            ==> cli_command_spec(parsed, root_help) == Ok::<CliCommand, Seq<char>>(CliCommand::DeviceProfiles { command: a.command })),
        parsed.command matches Some(RootCommand::Runner(x)) ==> (x.command matches RunnerCommand::Create(a)
            ==> cli_command_spec(parsed, root_help) == Ok::<CliCommand, Seq<char>>(CliCommand::RunnerCreate { endpoint: a.endpoint, runner_class: a.runner_class, lifecycle: a.lifecycle, json: a.json, parent_context: ParentContextOptions { device_name: parsed.device, device_id: parsed.device_id, run_id: parsed.run } })),
        parsed.command matches Some(RootCommand::Runner(x)) ==> (x.command matches RunnerCommand::List(a)
            ==> cli_command_spec(parsed, root_help) == Ok::<CliCommand, Seq<char>>(CliCommand::RunnerList { endpoint: a.endpoint, json: a.json, parent_context: ParentContextOptions { device_name: parsed.device, device_id: parsed.device_id, run_id: parsed.run } })),
        parsed.command matches Some(RootCommand::Runner(x)) ==> (x.command matches RunnerCommand::Classes(a)
            ==> cli_command_spec(parsed, root_help) == Ok::<CliCommand, Seq<char>>(CliCommand::RunnerClassList { endpoint: a.endpoint, json: a.json, parent_context: ParentContextOptions { device_name: parsed.device, device_id: parsed.device_id, run_id: parsed.run } })),
        parsed.command matches Some(RootCommand::Runner(x)) ==> (x.command matches RunnerCommand::Get(a)
            ==> cli_command_spec(parsed, root_help) == Ok::<CliCommand, Seq<char>>(CliCommand::RunnerGet { endpoint: a.endpoint, runner_id: a.runner_id, json: a.json, parent_context: ParentContextOptions { device_name: parsed.device, device_id: parsed.device_id, run_id: parsed.run } })),
        parsed.command matches Some(RootCommand::Runner(x)) ==> (x.command matches RunnerCommand::Stop(a)
            ==> cli_command_spec(parsed, root_help) == Ok::<CliCommand, Seq<char>>(CliCommand::RunnerStop { endpoint: a.endpoint, runner_id: a.runner_id, timeout: a.timeout, force: a.force, json: a.json, parent_context: ParentContextOptions { device_name: parsed.device, device_id: parsed.device_id, run_id: parsed.run } })),
        parsed.command matches Some(RootCommand::Run(x)) ==> (x.command matches RunCommand::Create { endpoint, device_ids, json }
            ==> cli_command_spec(parsed, root_help) == Ok::<CliCommand, Seq<char>>(CliCommand::RunCreate { endpoint, device_ids, json, parent_context: ParentContextOptions { device_name: parsed.device, device_id: parsed.device_id, run_id: parsed.run } })),
        parsed.command matches Some(RootCommand::Run(x)) ==> (x.command matches RunCommand::List { endpoint, json }
            ==> cli_command_spec(parsed, root_help) == Ok::<CliCommand, Seq<char>>(CliCommand::RunList { endpoint, json, parent_context: ParentContextOptions { device_name: parsed.device, device_id: parsed.device_id, run_id: parsed.run } })),
        parsed.command matches Some(RootCommand::Run(x)) ==> (x.command matches RunCommand::Get { endpoint, run_id, json }
            ==> cli_command_spec(parsed, root_help) == Ok::<CliCommand, Seq<char>>(CliCommand::RunGet { endpoint, run_id, json, parent_context: ParentContextOptions { device_name: parsed.device, device_id: parsed.device_id, run_id: parsed.run } })),
        parsed.command matches Some(RootCommand::Run(x)) ==> (x.command matches RunCommand::Stop { endpoint, run_id, outcome, json }
            ==> cli_command_spec(parsed, root_help) == Ok::<CliCommand, Seq<char>>(CliCommand::RunStop { endpoint, run_id, outcome, json, parent_context: ParentContextOptions { device_name: parsed.device, device_id: parsed.device_id, run_id: parsed.run } })),
        parsed.command is None ==> cli_command_spec(parsed, root_help) == Ok::<CliCommand, Seq<char>>(CliCommand::Help(root_help)),
        parsed.command matches Some(RootCommand::Doctor(a)) ==> cli_command_spec(parsed, root_help) == Ok::<
            CliCommand,
            Seq<char>,
        >(CliCommand::PermissionCheck { json: a.json }),
{
}

} // verus!
