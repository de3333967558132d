use auv_cli::clap_model::ClapFailure;
use auv_cli::registry_cli::{
    command_help, failure_action, registry_request, ArgSpec, InvokeCli, InvokeCliAction, InvokeRegistry,
    RegisteredCommand,
};

fn registry() -> InvokeRegistry {
    InvokeRegistry {
        commands: vec![
            RegisteredCommand {
                id: "display.capture",
                description: "Capture one display.",
                args: vec![
                    ArgSpec { flag: "--display", value_name: "ID", required: false, help: "Display to capture." },
                    ArgSpec { flag: "--overlay", value_name: "BOOL", required: false, help: "Show capture overlays." },
                ],
            },
            RegisteredCommand {
                id: "overlay.status",
                description: "Present one status layer.",
                args: vec![ArgSpec { flag: "--text", value_name: "TEXT", required: true, help: "Status text." }],
            },
        ],
    }
}

#[test]
fn registered_commands_resolve_by_id() {
    let registry = registry();
    assert_eq!(registry.resolve("overlay.status").map(|c| c.description), Some("Present one status layer."));
    assert!(registry.resolve("overlay.cursor").is_none());
}

#[test]
fn a_command_line_becomes_a_request_with_its_declared_inputs() {
    let registry = registry();
    let cli = InvokeCli::new(&registry, "auv invoke");
    let arguments = vec!["display.capture".to_string(), "--display".to_string(), "-1".to_string(), "--dry-run".to_string()];
    let Ok(InvokeCliAction::Invoke(request)) = cli.parse(&arguments) else {
        panic!("expected an invoke request");
    };
    assert_eq!(request.command_id, "display.capture");
    assert_eq!(request.inputs.get("display").map(String::as_str), Some("-1"));
    assert!(!request.inputs.contains_key("overlay"));
    assert_eq!(request.inputs.len(), 1);
    assert!(request.dry_run);
}

#[test]
fn help_requests_and_errors_come_back_as_text() {
    let registry = registry();
    let cli = InvokeCli::new(&registry, "auv invoke");
    let Ok(InvokeCliAction::Help(help)) = cli.parse(&vec!["--help".to_string()]) else {
        panic!("expected help");
    };
    assert!(help.contains("display.capture"));
    assert!(cli.render_help().contains("overlay.status"));
    let command_help = cli.render_command_help("overlay.status").unwrap();
    assert!(command_help.contains("Present one status layer."));
    assert!(command_help.contains("--text"));
    let Err(error) = cli.parse(&vec!["overlay.status".to_string()]) else {
        panic!("a required argument is missing");
    };
    assert!(error.contains("--text"));
    assert!(cli.parse(&vec!["missing.command".to_string()]).is_err());
}

#[test]
fn requests_keep_only_given_values() {
    let registry = registry();
    let command = registry.resolve("display.capture").unwrap();
    let request = registry_request(command, "display.capture".to_string(), vec![None, Some("false".to_string())], false);
    assert_eq!(request.inputs.get("overlay").map(String::as_str), Some("false"));
    assert_eq!(request.inputs.len(), 1);
    assert!(!request.dry_run);
}

#[test]
fn refused_command_lines_become_help_or_errors() {
    let help = failure_action(ClapFailure { is_help: true, text: "usage".to_string() });
    assert!(matches!(help, Ok(InvokeCliAction::Help(ref h)) if h == "usage"));
    let error = failure_action(ClapFailure { is_help: false, text: "bad flag".to_string() });
    assert!(matches!(error, Err(ref e) if e == "bad flag"));
    assert_eq!(command_help(Ok(InvokeCliAction::Help("h".to_string())), "x"), Ok("h".to_string()));
    assert_eq!(command_help(Err("e".to_string()), "x"), Err("e".to_string()));
    let registry = registry();
    let cli = InvokeCli::new(&registry, "auv invoke");
    let request = cli.parse(&vec!["overlay.status".to_string(), "--text".to_string(), "hi".to_string()]).unwrap();
    assert_eq!(command_help(Ok(request), "overlay.status"), Err("failed to render help for command overlay.status".to_string()));
}

#[test]
fn a_bare_invoke_shows_help() {
    let registry = registry();
    let cli = InvokeCli::new(&registry, "auv invoke");
    let Ok(InvokeCliAction::Help(help)) = cli.parse(&Vec::new()) else {
        panic!("expected help");
    };
    assert!(help.contains("overlay.status"));
}

#[test]
fn unknown_command_ids_are_refused() {
    let registry = registry();
    let cli = InvokeCli::new(&registry, "auv invoke");
    assert!(cli.parse(&vec!["overlay.cursor".to_string()]).is_err());
    assert!(cli.parse(&vec!["help".to_string()]).is_err());
    assert!(cli.render_command_help("overlay.cursor").is_err());
    assert!(cli.render_command_help("display.capture").is_ok());
}

#[test]
fn the_dry_run_switch_is_read_before_or_after_the_command_id() {
    let registry = registry();
    let cli = InvokeCli::new(&registry, "auv invoke");
    let before = vec!["--dry-run".to_string(), "overlay.status".to_string(), "--text".to_string(), "hi".to_string()];
    let Ok(InvokeCliAction::Invoke(request)) = cli.parse(&before) else {
        panic!("expected an invoke request");
    };
    assert!(request.dry_run);
    assert_eq!(request.inputs.get("text").map(String::as_str), Some("hi"));
    let without = vec!["overlay.status".to_string(), "--text".to_string(), "--hi".to_string()];
    let Ok(InvokeCliAction::Invoke(request)) = cli.parse(&without) else {
        panic!("expected an invoke request");
    };
    assert!(!request.dry_run);
    assert_eq!(request.inputs.get("text").map(String::as_str), Some("--hi"));
}

#[test]
fn registry_help_names_every_command_and_the_dry_run_switch() {
    let registry = registry();
    let cli = InvokeCli::new(&registry, "auv invoke");
    let help = cli.render_help();
    assert!(help.contains("display.capture"));
    assert!(help.contains("overlay.status"));
    assert!(help.contains("--dry-run"));
    assert_eq!(help, cli.render_help());
}
