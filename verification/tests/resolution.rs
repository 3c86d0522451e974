use pinecone_extension::command::{
    build_command, LaunchCommand, API_KEY_VAR, DEFAULT_TOOL, INDEX_NAME_VAR, PYTHON_PATH_VAR,
};
use pinecone_extension::error::ResolveError;
use pinecone_extension::resolve::{
    check_identity, check_preflight, resolve_command, resolve_decoded, Preflight, SERVER_ID,
};
use pinecone_extension::settings::{DecodeFault, PineconeSettings, SettingKey};
use serde_json::Value;

fn json(text: &str) -> Value {
    serde_json::from_str(text).unwrap()
}

fn pair(name: &str, value: &str) -> (String, String) {
    (name.to_string(), value.to_string())
}

fn resolve(text: &str) -> Result<LaunchCommand, ResolveError> {
    resolve_command(Some(json(text)), Preflight::Skipped)
}

#[test]
fn required_settings_give_the_two_variables() {
    let launch = resolve(r#"{"api_key": "k1", "index_name": "idx1"}"#).unwrap();
    assert_eq!(
        launch.env,
        vec![pair("PINECONE_API_KEY", "k1"), pair("PINECONE_INDEX_NAME", "idx1")]
    );
    assert!(launch.env.iter().all(|(name, _)| name != "PYTHON_PATH"));
}

#[test]
fn required_settings_run_the_default_tool() {
    let launch = resolve(r#"{"api_key": "k1", "index_name": "idx1"}"#).unwrap();
    assert_eq!(launch.command, "uv");
    assert_eq!(launch.args, vec!["run".to_string(), "mcp-pinecone".to_string()]);
}

#[test]
fn empty_object_is_invalid() {
    assert_eq!(
        resolve("{}"),
        Err(ResolveError::InvalidConfiguration(DecodeFault::MissingField(SettingKey::ApiKey)))
    );
}

#[test]
fn absent_settings_are_missing() {
    assert_eq!(
        resolve_command(None, Preflight::Skipped),
        Err(ResolveError::MissingConfiguration)
    );
}

#[test]
fn python_path_names_the_program() {
    let launch =
        resolve(r#"{"api_key": "k1", "index_name": "idx1", "python_path": "uv"}"#).unwrap();
    assert_eq!(launch.command, "uv");
    assert_eq!(
        launch.env,
        vec![
            pair("PINECONE_API_KEY", "k1"),
            pair("PINECONE_INDEX_NAME", "idx1"),
            pair("PYTHON_PATH", "uv"),
        ]
    );
}

#[test]
fn python_path_other_than_the_default() {
    let launch = resolve(
        r#"{"api_key": "k1", "index_name": "idx1", "python_path": "/opt/tools/uv"}"#,
    )
    .unwrap();
    assert_eq!(launch.command, "/opt/tools/uv");
    assert_eq!(launch.args, vec!["run".to_string(), "mcp-pinecone".to_string()]);
    assert!(launch.env.contains(&pair("PYTHON_PATH", "/opt/tools/uv")));
    assert_eq!(launch.env.len(), 3);
}

#[test]
fn failed_probe_gives_no_command() {
    let probe = Preflight::Exited {
        status: 1,
        stderr: "ModuleNotFoundError: No module named 'mcp_pinecone'".to_string(),
    };
    let outcome = resolve_command(
        Some(json(r#"{"api_key": "k1", "index_name": "idx1"}"#)),
        probe,
    );
    assert_eq!(
        outcome,
        Err(ResolveError::DependencyMissing(
            "ModuleNotFoundError: No module named 'mcp_pinecone'".to_string()
        ))
    );
}

#[test]
fn negative_exit_status_is_a_failure() {
    let probe = Preflight::Exited { status: -1, stderr: "killed".to_string() };
    assert_eq!(
        check_preflight(probe),
        Err(ResolveError::DependencyMissing("killed".to_string()))
    );
}

#[test]
fn probe_that_did_not_run_is_a_failure() {
    let probe = Preflight::Failed { reason: "python3: command not found".to_string() };
    let outcome = resolve_command(
        Some(json(r#"{"api_key": "k1", "index_name": "idx1"}"#)),
        probe,
    );
    assert_eq!(
        outcome,
        Err(ResolveError::DependencyMissing("python3: command not found".to_string()))
    );
}

#[test]
fn passed_probe_lets_the_command_through() {
    let probe = Preflight::Exited { status: 0, stderr: "a warning".to_string() };
    assert_eq!(check_preflight(probe.clone()), Ok(()));
    assert_eq!(check_preflight(Preflight::Skipped), Ok(()));
    let outcome = resolve_command(
        Some(json(r#"{"api_key": "k1", "index_name": "idx1"}"#)),
        probe,
    );
    assert_eq!(outcome, resolve(r#"{"api_key": "k1", "index_name": "idx1"}"#));
    assert!(outcome.is_ok());
}

#[test]
fn resolution_twice_gives_the_same_command() {
    let text = r#"{"api_key": "k1", "index_name": "idx1", "python_path": "python3"}"#;
    let first = resolve(text).unwrap();
    let second = resolve(text).unwrap();
    assert_eq!(first, second);
    assert_eq!(first.command.as_bytes(), second.command.as_bytes());
    assert_eq!(first.args, second.args);
    assert_eq!(first.env, second.env);
}

#[test]
fn resolution_twice_gives_the_same_error() {
    let text = r#"{"api_key": "k1"}"#;
    assert_eq!(resolve(text), resolve(text));
    assert_eq!(
        resolve(text),
        Err(ResolveError::InvalidConfiguration(DecodeFault::MissingField(SettingKey::IndexName)))
    );
}

#[test]
fn own_server_is_recognized() {
    assert_eq!(SERVER_ID, "pinecone-context-server");
    assert_eq!(check_identity("pinecone-context-server"), Ok(()));
    assert_eq!(check_identity(SERVER_ID), Ok(()));
}

#[test]
fn other_server_is_not_recognized() {
    assert_eq!(
        check_identity("some-other-server"),
        Err(ResolveError::UnrecognizedServerIdentity)
    );
    assert_eq!(check_identity(""), Err(ResolveError::UnrecognizedServerIdentity));
    assert_eq!(
        check_identity("pinecone-context-server "),
        Err(ResolveError::UnrecognizedServerIdentity)
    );
    assert_eq!(
        check_identity("Pinecone-Context-Server"),
        Err(ResolveError::UnrecognizedServerIdentity)
    );
}

#[test]
fn settings_are_checked_before_the_probe() {
    let probe = Preflight::Exited { status: 2, stderr: "no module".to_string() };
    assert_eq!(
        resolve_command(None, probe.clone()),
        Err(ResolveError::MissingConfiguration)
    );
    assert_eq!(
        resolve_command(Some(json(r#"{"index_name": "idx1"}"#)), probe),
        Err(ResolveError::InvalidConfiguration(DecodeFault::MissingField(SettingKey::ApiKey)))
    );
}

#[test]
fn decoded_settings_resolve_without_a_value() {
    let settings = PineconeSettings {
        api_key: "secret".to_string(),
        index_name: "notes".to_string(),
        python_path: None,
    };
    let launch = resolve_decoded(Some(Ok(settings)), Preflight::Skipped).unwrap();
    assert_eq!(launch.command, DEFAULT_TOOL);
    assert_eq!(launch.env, vec![pair(API_KEY_VAR, "secret"), pair(INDEX_NAME_VAR, "notes")]);
    assert_eq!(
        resolve_decoded(
            Some(Err(DecodeFault::NotAString(SettingKey::PythonPath))),
            Preflight::Skipped
        ),
        Err(ResolveError::InvalidConfiguration(DecodeFault::NotAString(SettingKey::PythonPath)))
    );
    assert_eq!(
        resolve_decoded(None, Preflight::Skipped),
        Err(ResolveError::MissingConfiguration)
    );
}

#[test]
fn built_command_sets_no_variable_twice() {
    let settings = PineconeSettings {
        api_key: "PYTHON_PATH".to_string(),
        index_name: "PINECONE_API_KEY".to_string(),
        python_path: Some("PINECONE_INDEX_NAME".to_string()),
    };
    let launch = build_command(settings);
    let names: Vec<&str> = launch.env.iter().map(|(name, _)| name.as_str()).collect();
    assert_eq!(names, vec![API_KEY_VAR, INDEX_NAME_VAR, PYTHON_PATH_VAR]);
    assert_eq!(
        launch.env,
        vec![
            pair("PINECONE_API_KEY", "PYTHON_PATH"),
            pair("PINECONE_INDEX_NAME", "PINECONE_API_KEY"),
            pair("PYTHON_PATH", "PINECONE_INDEX_NAME"),
        ]
    );
    assert_eq!(launch.command, "PINECONE_INDEX_NAME");
}

#[test]
fn empty_strings_are_values_like_others() {
    let launch = resolve(r#"{"api_key": "", "index_name": "", "python_path": ""}"#).unwrap();
    assert_eq!(launch.command, "");
    assert_eq!(
        launch.env,
        vec![pair("PINECONE_API_KEY", ""), pair("PINECONE_INDEX_NAME", ""), pair("PYTHON_PATH", "")]
    );
}

#[test]
fn variables_are_found_by_name() {
    let launch =
        resolve(r#"{"api_key": "k1", "index_name": "idx1", "python_path": "python3"}"#).unwrap();
    assert_eq!(launch.variable("PINECONE_API_KEY"), Some("k1"));
    assert_eq!(launch.variable("PINECONE_INDEX_NAME"), Some("idx1"));
    assert_eq!(launch.variable("PYTHON_PATH"), Some("python3"));
    assert_eq!(launch.variable("PATH"), None);
    assert_eq!(launch.variable(""), None);
}

#[test]
fn missing_python_path_leaves_the_variable_out() {
    let launch = resolve(r#"{"api_key": "k1", "index_name": "idx1"}"#).unwrap();
    assert_eq!(launch.variable(PYTHON_PATH_VAR), None);
    assert_eq!(launch.env.len(), 2);
    let launch =
        resolve(r#"{"api_key": "k1", "index_name": "idx1", "python_path": null}"#).unwrap();
    assert_eq!(launch.variable(PYTHON_PATH_VAR), None);
    assert_eq!(launch.command, "uv");
}

#[test]
fn the_first_entry_of_a_name_is_found() {
    let launch = LaunchCommand {
        command: "uv".to_string(),
        args: Vec::new(),
        env: vec![pair("A", "1"), pair("B", "2"), pair("A", "3")],
    };
    assert_eq!(launch.variable("A"), Some("1"));
    assert_eq!(launch.variable("B"), Some("2"));
    assert_eq!(launch.variable("C"), None);
}
