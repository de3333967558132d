//! The typed arguments of the root `auv` command tree, as the command-line
//! parser hands them over: one type per subcommand and its options.

use std::path::PathBuf;
use vstd::prelude::*;

verus! {

#[verifier::external_type_specification]
#[verifier::external_body]
pub struct ExPathBuf(std::path::PathBuf);

/// Where invoke tracing records its runs.
#[derive(Clone, Debug, PartialEq, Eq)]
pub struct TracingOptions {
    pub store_root: Option<PathBuf>,
}

impl Default for TracingOptions {
    fn default() -> (options: Self)
        ensures
            options.store_root is None,
    {
        TracingOptions { store_root: None }
    }
}

/// The Device and Run a command line selects for the command it runs.
#[derive(Clone, Debug, PartialEq, Eq)]
pub struct ParentContextOptions {
    pub device_name: Option<String>,
    pub device_id: Option<String>,
    pub run_id: Option<String>,
}

impl Default for ParentContextOptions {
    fn default() -> (options: Self)
        ensures
            options.device_name is None,
            options.device_id is None,
            options.run_id is None,
    {
        ParentContextOptions { device_name: None, device_id: None, run_id: None }
    }
}

/// What a Device trust command does to a paired Device.
#[derive(Clone, Copy, Debug, PartialEq, Eq)]
pub enum DeviceTrustAction {
    Unpair,
    Enable,
    Disable,
}

/// `auv devices`.
#[derive(Clone, PartialEq, Eq)]
pub struct DevicesArgs {
    pub command: DevicesCommand,
}

#[derive(Clone, PartialEq, Eq)]
pub enum DevicesCommand {
    List(DeviceListArgs),
    Get(DeviceGetArgs),
    Pair(PairingArgs),
    Unpair(DeviceTrustArgs),
    Enable(DeviceTrustArgs),
    Disable(DeviceTrustArgs),
    Profiles(DeviceProfilesArgs),
}

/// A paired Device, by stable id or name, and the pairing store.
#[derive(Clone, Debug, PartialEq, Eq)]
pub struct DeviceTrustArgs {
    pub device: String,
    pub store: Option<PathBuf>,
}

/// `auv devices profiles`.
#[derive(Clone, PartialEq, Eq)]
pub struct DeviceProfilesArgs {
    pub command: DeviceProfilesCommand,
}

#[derive(Clone, PartialEq, Eq)]
pub enum DeviceProfilesCommand {
    List(ProfileOutputArgs),
    Get(ProfileGetArgs),
    Create(ProfileWriteArgs),
    Update(ProfileWriteArgs),
    Delete(ProfileDeleteArgs),
}

#[derive(Clone, Debug, PartialEq, Eq)]
pub struct ProfileOutputArgs {
    pub json: bool,
}

#[derive(Clone, Debug, PartialEq, Eq)]
pub struct ProfileGetArgs {
    pub name: String,
    pub json: bool,
}

#[derive(Clone, Debug, PartialEq, Eq)]
pub struct ProfileDeleteArgs {
    pub name: String,
}

/// A Device profile to create or update. The credential is a secret, so
/// this type, and those that hold it, have no `Debug`.
#[derive(Clone, PartialEq, Eq)]
pub struct ProfileWriteArgs {
    pub name: String,
    pub device_id: String,
    pub device_name: String,
    pub endpoint: String,
    pub device_credential: String,
}

#[derive(Clone, Debug, PartialEq, Eq)]
pub struct DeviceListArgs {
    pub endpoint: Option<String>,
    pub json: bool,
}

#[derive(Clone, Debug, PartialEq, Eq)]
pub struct DeviceGetArgs {
    pub device_id: String,
    pub endpoint: Option<String>,
    pub json: bool,
}

/// `auv invoke`: the command id and its arguments, for the invoke registry.
#[derive(Clone, Debug, PartialEq, Eq)]
pub struct InvokeArgs {
    pub arguments: Vec<String>,
}

/// `auv mcp`.
#[derive(Clone, Debug, PartialEq, Eq)]
pub struct McpArgs {
    pub command: McpCommand,
}

#[derive(Clone, Copy, Debug, PartialEq, Eq)]
pub enum McpCommand {
    Serve,
}

/// `auv devices pair`: enrollment tokens and paired-Device administration.
#[derive(Clone, PartialEq, Eq)]
pub struct PairingArgs {
    pub endpoint: Option<String>,
    pub store: Option<PathBuf>,
    pub command: PairingCommand,
}

/// A pairing action. A connect token is a secret, so this type, and those
/// that hold it, have no `Debug`.
#[derive(Clone, PartialEq, Eq)]
pub enum PairingCommand {
    CreateToken { ttl: Option<u64> },
    Connect {
        token: String,
        device_id: Option<String>,
        label: String,
        profile: Option<String>,
        json: bool,
    },
    Enable { pair_id: String },
    Disable { pair_id: String },
}

/// `auv permissions`.
#[derive(Clone, Debug, PartialEq, Eq)]
pub struct PermissionsArgs {
    pub command: PermissionsCommand,
}

#[derive(Clone, Debug, PartialEq, Eq)]
pub enum PermissionsCommand {
    Check(PermissionsCheckArgs),
}

#[derive(Clone, Debug, PartialEq, Eq)]
pub struct PermissionsCheckArgs {
    pub json: bool,
}

/// `auv plugin`.
#[derive(Clone, Debug, PartialEq, Eq)]
pub struct PluginArgs {
    pub command: PluginCommand,
}

#[derive(Clone, Copy, Debug, PartialEq, Eq)]
pub enum PluginCommand {
    List,
}

/// `auv runner`.
#[derive(Clone, Debug, PartialEq, Eq)]
pub struct RunnerArgs {
    pub command: RunnerCommand,
}

#[derive(Clone, Debug, PartialEq, Eq)]
pub enum RunnerCommand {
    Create(CreateRunnerArgs),
    List(ListRunnersArgs),
    Classes(ListRunnersArgs),
    Get(GetRunnerArgs),
    Stop(StopRunnerArgs),
}

/// When a created Runner is reaped.
#[derive(Clone, Copy, Debug, PartialEq, Eq)]
pub enum LifecycleArg {
    Ephemeral,
    UnlessIdle,
    UnlessShutdown,
}

#[derive(Clone, Debug, PartialEq, Eq)]
pub struct CreateRunnerArgs {
    pub runner_class: String,
    pub lifecycle: LifecycleArg,
    pub endpoint: Option<String>,
    pub json: bool,
}

#[derive(Clone, Debug, PartialEq, Eq)]
pub struct ListRunnersArgs {
    pub endpoint: Option<String>,
    pub json: bool,
}

#[derive(Clone, Debug, PartialEq, Eq)]
pub struct GetRunnerArgs {
    pub runner_id: String,
    pub endpoint: Option<String>,
    pub json: bool,
}

#[derive(Clone, Debug, PartialEq, Eq)]
pub struct StopRunnerArgs {
    pub runner_id: String,
    pub timeout: Option<u64>,
    pub force: bool,
    pub endpoint: Option<String>,
    pub json: bool,
}

/// `auv serve`: the daemon in the foreground.
#[derive(Clone, Debug, PartialEq, Eq)]
pub struct ServeArgs {
    pub listeners: Vec<String>,
    pub pairing_store: Option<PathBuf>,
    pub store_root: Option<PathBuf>,
    pub discovery_file: Option<PathBuf>,
    pub no_discovery: bool,
    pub daemon_idle_timeout: Option<u64>,
    pub runner_providers: Vec<PathBuf>,
}

/// `auv session`.
#[derive(Clone, Debug, PartialEq, Eq)]
pub struct SessionArgs {
    pub command: SessionCommand,
}

#[derive(Clone, Debug, PartialEq, Eq)]
pub enum SessionCommand {
    Serve(SessionServeArgs),
}

#[derive(Clone, Debug, PartialEq, Eq)]
pub struct SessionServeArgs {
    pub host: String,
    pub port: u16,
    pub store_root: Option<PathBuf>,
}

} // verus!
