use std::path::PathBuf;

use auv_cli::args::{
    DeviceListArgs, DeviceTrustAction, DeviceTrustArgs, DevicesArgs, DevicesCommand, InvokeArgs, ParentContextOptions,
    PluginArgs, PluginCommand, ServeArgs,
};
use auv_cli::cli::{discovery_target, split_listeners, DiscoveryTarget};
use auv_cli::cli::{api_server_listener, serve_listeners, version_text, ApiServerListener, ServeListeners};
use auv_cli::cli::{cli_command, ApiServerArgs, ApiServerCommand, ApiServerServeArgs, CliCommand, RootArgs, RootCommand, Xtask};

fn root(command: Option<RootCommand>) -> RootArgs {
    RootArgs { verbose: 0, xtask: None, device: None, device_id: None, run: None, command }
}

fn serve(listeners: &[&str], pairing_store: Option<&str>, runner_providers: &[&str]) -> ServeArgs {
    ServeArgs {
        listeners: listeners.iter().map(|l| l.to_string()).collect(),
        pairing_store: pairing_store.map(PathBuf::from),
        store_root: None,
        discovery_file: None,
        no_discovery: false,
        daemon_idle_timeout: None,
        runner_providers: runner_providers.iter().map(PathBuf::from).collect(),
    }
}

#[test]
fn invoke_preserves_root_device_and_run_selection() {
    let mut parsed = root(Some(RootCommand::Invoke(InvokeArgs {
        arguments: vec!["display.list".to_string(), "--json".to_string()],
    })));
    parsed.device_id = Some("device_local".to_string());
    parsed.run = Some("run_parent".to_string());
    let command = cli_command(parsed, String::new()).ok().expect("parse selected invoke command");

    let CliCommand::Invoke { parent_context, arguments } = command else {
        panic!("expected invoke command");
    };
    assert_eq!(parent_context.device_id.as_deref(), Some("device_local"));
    assert_eq!(parent_context.run_id.as_deref(), Some("run_parent"));
    assert_eq!(arguments, vec!["display.list".to_string(), "--json".to_string()]);
}

#[test]
fn serve_accepts_repeated_trusted_runner_provider_manifests() {
    let parsed = root(Some(RootCommand::Serve(serve(&[], None, &["first.json", "second.json"]))));
    let command = cli_command(parsed, String::new()).ok().expect("parse Runner provider manifests");

    match command {
        CliCommand::Serve { runner_providers, .. } => {
            assert_eq!(runner_providers, vec![PathBuf::from("first.json"), PathBuf::from("second.json")]);
        }
        _ => panic!("unexpected command"),
    }
}

#[test]
fn serve_accepts_repeated_local_and_paired_bearer_listeners() {
    let parsed = root(Some(RootCommand::Serve(serve(
        &["unix:///tmp/auv.sock", "http://0.0.0.0:9847"],
        Some("pairings.json"),
        &[],
    ))));
    let command = cli_command(parsed, String::new()).ok().expect("parse local and paired listeners");

    let CliCommand::Serve { listeners, pairing_store, .. } = command else {
        panic!("expected serve command");
    };
    assert_eq!(listeners, ["unix:///tmp/auv.sock", "http://0.0.0.0:9847"]);
    assert_eq!(pairing_store, Some(PathBuf::from("pairings.json")));
}

fn api_server(remote_listen: Option<&str>, pairing_store: Option<&str>, unix_socket: Option<&str>) -> RootArgs {
    root(Some(RootCommand::ApiServer(ApiServerArgs {
        command: ApiServerCommand::Serve(ApiServerServeArgs {
            host: "127.0.0.1".to_string(),
            port: 9847,
            remote_listen: remote_listen.map(str::to_string),
            pairing_store: pairing_store.map(PathBuf::from),
            unix_socket: unix_socket.map(PathBuf::from),
            store_root: None,
            discovery_file: None,
            no_discovery: true,
            daemon_idle_timeout: Some(30),
            runner_providers: Vec::new(),
        }),
    })))
}

#[test]
fn api_server_remote_listener_requires_pairing_store() {
    let error = cli_command(api_server(Some("0.0.0.0"), None, None), String::new())
        .err()
        .expect("remote listener needs a bearer authentication store");
    assert!(error.contains("requires --pairing-store"));
}

#[test]
fn api_server_remote_listener_conflicts_with_a_unix_socket() {
    let error = cli_command(api_server(Some("0.0.0.0"), Some("pairings.json"), Some("/tmp/auv.sock")), String::new()).err().unwrap();
    assert_eq!(error, "--remote-listen conflicts with --unix-socket");
    let Ok(CliCommand::ApiServerServe { daemon_idle_timeout, .. }) =
        cli_command(api_server(Some("0.0.0.0"), Some("pairings.json"), None), String::new())
    else {
        panic!("expected api-server command");
    };
    assert_eq!(daemon_idle_timeout, Some(std::time::Duration::from_secs(30)));
}

#[test]
fn no_command_shows_the_root_help_and_xtasks_take_precedence() {
    let Ok(CliCommand::Help(help)) = cli_command(root(None), "usage".to_string()) else {
        panic!("expected help");
    };
    assert_eq!(help, "usage");
    let mut parsed = root(Some(RootCommand::Plugin(PluginArgs { command: PluginCommand::List })));
    assert!(matches!(cli_command(parsed.clone(), String::new()), Ok(CliCommand::PluginList)));
    parsed.xtask = Some(Xtask::GenerateSwiftBridge);
    assert!(matches!(cli_command(parsed, String::new()), Ok(CliCommand::XtaskGenerateSwiftBridge)));
}

#[test]
fn device_commands_carry_the_selection_and_trust_action() {
    let mut parsed = root(Some(RootCommand::Devices(DevicesArgs {
        command: DevicesCommand::List(DeviceListArgs { endpoint: None, json: true }),
    })));
    parsed.device = Some("studio".to_string());
    let Ok(CliCommand::DeviceList { json, parent_context, .. }) = cli_command(parsed, String::new()) else {
        panic!("expected device list");
    };
    assert!(json);
    assert_eq!(
        parent_context,
        ParentContextOptions { device_name: Some("studio".to_string()), ..ParentContextOptions::default() }
    );
    let parsed = root(Some(RootCommand::Devices(DevicesArgs {
        command: DevicesCommand::Disable(DeviceTrustArgs { device: "studio".to_string(), store: None }),
    })));
    let Ok(CliCommand::DeviceTrust { device, action, .. }) = cli_command(parsed, String::new()) else {
        panic!("expected device trust");
    };
    assert_eq!((device.as_str(), action), ("studio", DeviceTrustAction::Disable));
}

#[test]
fn external_commands_split_their_name_from_their_arguments() {
    let parsed = root(Some(RootCommand::External(vec!["balatro".to_string(), "--help".to_string()])));
    let Ok(CliCommand::External { command_name, arguments, .. }) = cli_command(parsed, String::new()) else {
        panic!("expected external command");
    };
    assert_eq!(command_name, "balatro");
    assert_eq!(arguments, vec!["--help".to_string()]);
}

#[test]
fn the_api_server_listens_remotely_then_on_a_socket_then_on_tcp() {
    assert_eq!(
        api_server_listener("127.0.0.1".to_string(), 9847, Some("0.0.0.0".to_string()), None),
        ApiServerListener::Remote { host: "0.0.0.0".to_string(), port: 9847 }
    );
    assert_eq!(
        api_server_listener("127.0.0.1".to_string(), 9847, None, Some(PathBuf::from("auv.sock"))),
        ApiServerListener::Unix { path: PathBuf::from("auv.sock") }
    );
    assert_eq!(
        api_server_listener("127.0.0.1".to_string(), 9847, None, None),
        ApiServerListener::Tcp { host: "127.0.0.1".to_string(), port: 9847 }
    );
}

#[test]
fn serve_falls_back_to_the_default_local_listener() {
    assert!(matches!(serve_listeners(Vec::new()), ServeListeners::DefaultLocal));
    let given = vec!["unix:///tmp/auv.sock".to_string()];
    assert!(matches!(serve_listeners(given.clone()), ServeListeners::Given(ref listeners) if *listeners == given));
}

#[test]
fn the_version_text_names_the_package_version() {
    assert_eq!(version_text("0.3.1"), "auv 0.3.1\n");
}

#[test]
fn a_daemon_binds_its_first_listener_and_adds_the_rest() {
    assert_eq!(split_listeners(Vec::<String>::new()), Err("auv serve requires at least one listener".to_string()));
    let (first, rest) = split_listeners(vec!["a".to_string(), "b".to_string(), "c".to_string()]).unwrap();
    assert_eq!(first, "a");
    assert_eq!(rest, vec!["b".to_string(), "c".to_string()]);
}

#[test]
fn discovery_is_published_where_asked() {
    assert!(matches!(discovery_target(true, Some(PathBuf::from("d.json"))), DiscoveryTarget::Unpublished));
    assert!(matches!(discovery_target(false, Some(PathBuf::from("d.json"))), DiscoveryTarget::At(ref p) if p == &PathBuf::from("d.json")));
    assert!(matches!(discovery_target(false, None), DiscoveryTarget::DefaultPath));
}
