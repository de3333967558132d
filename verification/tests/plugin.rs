use auv_cli::plugin::{executable_name, is_builtin, list_plugins, plugin_command_name, resolve_executable, PluginCandidate};

fn entry(file_name: &str, path: &str, executable: bool) -> PluginCandidate {
    PluginCandidate { file_name: file_name.to_string(), path: path.to_string(), executable }
}

#[test]
fn plugin_names_carry_the_auv_prefix() {
    assert_eq!(executable_name("balatro"), "auv-balatro");
    assert_eq!(plugin_command_name("auv-balatro"), Some("balatro".to_string()));
    assert_eq!(plugin_command_name("auv-"), Some(String::new()));
    assert_eq!(plugin_command_name("balatro"), None);
    assert!(is_builtin("invoke"));
    assert!(is_builtin("plugin"));
    assert!(!is_builtin("balatro"));
}

#[test]
fn listing_sorts_each_directory_and_reports_problems() {
    let directories = vec![
        vec![
            entry("auv-osu", "/a/auv-osu", true),
            entry("ls", "/a/ls", true),
            entry("auv-balatro", "/a/auv-balatro", true),
            entry("auv-broken", "/a/auv-broken", false),
        ],
        vec![entry("auv-balatro", "/b/auv-balatro", true), entry("auv-doctor", "/b/auv-doctor", true)],
    ];
    let listing = list_plugins(directories);
    assert_eq!(listing.plugins, vec!["/a/auv-balatro", "/a/auv-osu", "/b/auv-doctor"]);
    assert_eq!(
        listing.warnings,
        vec![
            "/a/auv-broken is named like an AUV plugin but is not executable",
            "/b/auv-balatro is shadowed by /a/auv-balatro earlier on PATH",
            "/b/auv-doctor collides with built-in command `doctor`",
        ]
    );
    assert_eq!(listing.exit_code, 1);
}

#[test]
fn a_clean_listing_exits_zero() {
    let listing = list_plugins(vec![vec![entry("auv-osu", "/a/auv-osu", true)], vec![]]);
    assert_eq!(listing.plugins, vec!["/a/auv-osu"]);
    assert!(listing.warnings.is_empty());
    assert_eq!(listing.exit_code, 0);
    let empty = list_plugins(Vec::new());
    assert!(empty.plugins.is_empty());
    assert_eq!(empty.exit_code, 0);
}

#[test]
fn resolving_takes_the_first_executable_on_path() {
    let candidates = vec![
        entry("auv-osu", "/a/auv-osu", false),
        entry("auv-osu", "/b/auv-osu", true),
        entry("auv-osu", "/c/auv-osu", true),
    ];
    assert_eq!(resolve_executable("osu", &candidates), Ok("/b/auv-osu".to_string()));
    assert_eq!(
        resolve_executable("osu", &vec![entry("auv-osu", "/a/auv-osu", false)]),
        Err("unknown command \"osu\"; no \"auv-osu\" executable was found on PATH".to_string())
    );
}
