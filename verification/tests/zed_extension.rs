use ark::zed_extension::ark_not_found_message;
use ark::zed_extension::language_server_command;
use ark::zed_extension::BinarySettings;

fn env(pairs: &[(&str, &str)]) -> Vec<(String, String)> {
    pairs.iter().map(|(k, v)| (k.to_string(), v.to_string())).collect()
}

const EXPECTED_MESSAGE: &str = "Could not find an `ark` binary on your PATH.\n\n\
     Build it from the ark repository with `cargo build` (this produces \
     `target/debug/ark`), then either add that `target/debug` directory to your \
     PATH, or point Zed at the binary directly in your settings.json:\n\n\
     {\n  \"lsp\": {\n    \"ark\": {\n      \"binary\": {\n        \
     \"path\": \"/absolute/path/to/ark/target/debug/ark\",\n        \
     \"arguments\": [\"lsp\"]\n      }\n    }\n  }\n}";

#[test]
fn not_found_message_text() {
    assert_eq!(ark_not_found_message(), EXPECTED_MESSAGE);
}

#[test]
fn ark_on_path_runs_in_lsp_mode() {
    let shell = env(&[("PATH", "/usr/bin"), ("R_HOME", "/opt/R")]);
    let cmd = language_server_command(shell.clone(), None, Some("/usr/bin/ark".to_string())).unwrap();
    assert_eq!(cmd.command, "/usr/bin/ark");
    assert_eq!(cmd.args, vec!["lsp".to_string()]);
    assert_eq!(cmd.env, shell);
}

#[test]
fn path_override_wins_over_path_lookup() {
    let binary = BinarySettings {
        path: Some("/home/me/ark/target/debug/ark".to_string()),
        arguments: None,
        env: None,
    };
    let cmd = language_server_command(vec![], Some(binary), Some("/usr/bin/ark".to_string())).unwrap();
    assert_eq!(cmd.command, "/home/me/ark/target/debug/ark");
    assert_eq!(cmd.args, vec!["lsp".to_string()]);
}

#[test]
fn argument_and_env_overrides_apply() {
    let binary = BinarySettings {
        path: None,
        arguments: Some(vec!["lsp".to_string(), "--log".to_string(), "/tmp/ark.log".to_string()]),
        env: Some(env(&[("R_HOME", "/custom/R")])),
    };
    let shell = env(&[("PATH", "/usr/bin"), ("R_HOME", "/opt/R")]);
    let cmd = language_server_command(shell, Some(binary), Some("/usr/bin/ark".to_string())).unwrap();
    assert_eq!(cmd.command, "/usr/bin/ark");
    assert_eq!(cmd.args, vec!["lsp".to_string(), "--log".to_string(), "/tmp/ark.log".to_string()]);
    assert_eq!(cmd.env, env(&[("PATH", "/usr/bin"), ("R_HOME", "/opt/R"), ("R_HOME", "/custom/R")]));
    let last_r_home = cmd.env.iter().rev().find(|(k, _)| k == "R_HOME").map(|(_, v)| v.clone());
    assert_eq!(last_r_home, Some("/custom/R".to_string()));
}

#[test]
fn no_binary_anywhere_is_an_error() {
    let binary = BinarySettings { path: None, arguments: Some(vec![]), env: None };
    match language_server_command(vec![], Some(binary), None) {
        Err(msg) => assert_eq!(msg, EXPECTED_MESSAGE),
        Ok(_) => panic!("expected an error"),
    }
    assert!(language_server_command(vec![], None, None).is_err());
}

#[test]
fn empty_argument_override_is_kept() {
    let binary = BinarySettings { path: Some("ark".to_string()), arguments: Some(vec![]), env: None };
    let cmd = language_server_command(vec![], Some(binary), None).unwrap();
    assert_eq!(cmd.command, "ark");
    assert!(cmd.args.is_empty());
}
