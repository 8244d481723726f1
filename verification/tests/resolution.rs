use git_context_server::{
    decode_settings, resolve, resolve_executable, ConfigEntry, ConfigValue, Error, FieldValue,
    RepositoryFacts,
};

fn repo_config(path: &str) -> Option<ConfigValue> {
    Some(ConfigValue::Object(vec![ConfigEntry {
        key: "repository".to_string(),
        value: FieldValue::Text(path.to_string()),
    }]))
}

fn valid_facts() -> RepositoryFacts {
    RepositoryFacts {
        exists: true,
        has_git_entry: true,
    }
}

#[test]
fn missing_configuration() {
    let r = resolve(&None, valid_facts(), Some("/usr/local/bin/uvx".to_string()));
    assert!(matches!(r, Err(Error::MissingConfiguration)));
}

#[test]
fn configuration_not_an_object() {
    let r = decode_settings(&Some(ConfigValue::Other));
    match r {
        Err(Error::InvalidConfiguration { detail }) => {
            assert_eq!(detail, "expected a configuration object");
        }
        _ => panic!("expected InvalidConfiguration"),
    }
}

#[test]
fn configuration_without_repository_key() {
    let config = Some(ConfigValue::Object(vec![ConfigEntry {
        key: "respository".to_string(),
        value: FieldValue::Text("/tmp/realrepo".to_string()),
    }]));
    let r = resolve(&config, valid_facts(), Some("/usr/local/bin/uvx".to_string()));
    match r {
        Err(Error::InvalidConfiguration { detail }) => {
            assert_eq!(detail, "missing field `repository`");
        }
        _ => panic!("expected InvalidConfiguration"),
    }
}

#[test]
fn configuration_with_empty_object() {
    let config = Some(ConfigValue::Object(vec![]));
    let r = decode_settings(&config);
    match r {
        Err(Error::InvalidConfiguration { detail }) => {
            assert_eq!(detail, "missing field `repository`");
        }
        _ => panic!("expected InvalidConfiguration"),
    }
}

#[test]
fn repository_field_not_a_string() {
    let config = Some(ConfigValue::Object(vec![ConfigEntry {
        key: "repository".to_string(),
        value: FieldValue::Other,
    }]));
    match decode_settings(&config) {
        Err(Error::InvalidConfiguration { detail }) => {
            assert_eq!(detail, "the `repository` field must be a string");
        }
        _ => panic!("expected InvalidConfiguration"),
    }
}

#[test]
fn repository_string_passed_through_verbatim() {
    let config = repo_config(" /tmp/repo/ ");
    let settings = decode_settings(&config).unwrap();
    assert_eq!(settings.repository, " /tmp/repo/ ");
}

#[test]
fn first_repository_member_wins() {
    let config = Some(ConfigValue::Object(vec![
        ConfigEntry {
            key: "repository".to_string(),
            value: FieldValue::Text("/first".to_string()),
        },
        ConfigEntry {
            key: "repository".to_string(),
            value: FieldValue::Text("/second".to_string()),
        },
    ]));
    let settings = decode_settings(&config).unwrap();
    assert_eq!(settings.repository, "/first");
}

#[test]
fn nonexistent_repository() {
    let config = repo_config("/tmp/nonexistent");
    let facts = RepositoryFacts {
        exists: false,
        has_git_entry: false,
    };
    let r = resolve(&config, facts, Some("/usr/local/bin/uvx".to_string()));
    match r {
        Err(Error::RepositoryNotFound { path }) => assert_eq!(path, "/tmp/nonexistent"),
        _ => panic!("expected RepositoryNotFound"),
    }
}

#[test]
fn plain_folder_is_not_a_git_repository() {
    let config = repo_config("/tmp/plainfolder");
    let facts = RepositoryFacts {
        exists: true,
        has_git_entry: false,
    };
    let r = resolve(&config, facts, Some("/usr/local/bin/uvx".to_string()));
    match r {
        Err(Error::NotAGitRepository { path }) => assert_eq!(path, "/tmp/plainfolder"),
        _ => panic!("expected NotAGitRepository"),
    }
}

#[test]
fn valid_repository_yields_full_descriptor() {
    let config = repo_config("/tmp/realrepo");
    let r = resolve(&config, valid_facts(), Some("/usr/local/bin/helper".to_string()));
    let c = r.unwrap();
    assert_eq!(c.command, "/usr/local/bin/helper");
    assert_eq!(
        c.args,
        vec![
            "mcp-server-git".to_string(),
            "--repository".to_string(),
            "/tmp/realrepo".to_string()
        ]
    );
    assert_eq!(
        c.env,
        vec![
            ("MCP_DEBUG".to_string(), "1".to_string()),
            ("RUST_LOG".to_string(), "debug".to_string())
        ]
    );
}

#[test]
fn resolution_is_idempotent() {
    let config = repo_config("/tmp/realrepo");
    let c1 = resolve(&config, valid_facts(), Some("/usr/local/bin/helper".to_string())).unwrap();
    let c2 = resolve(&config, valid_facts(), Some("/usr/local/bin/helper".to_string())).unwrap();
    assert_eq!(c1.command, c2.command);
    assert_eq!(c1.args, c2.args);
    assert_eq!(c1.env, c2.env);
}

#[test]
fn missing_helper_with_valid_repository() {
    let config = repo_config("/tmp/realrepo");
    let r = resolve(&config, valid_facts(), None);
    match r {
        Err(Error::ExecutableNotFound { name }) => assert_eq!(name, "uvx"),
        _ => panic!("expected ExecutableNotFound"),
    }
}

#[test]
fn invalid_repository_wins_over_missing_helper() {
    let config = repo_config("/tmp/nonexistent");
    let facts = RepositoryFacts {
        exists: false,
        has_git_entry: false,
    };
    let r = resolve(&config, facts, None);
    assert!(matches!(r, Err(Error::RepositoryNotFound { .. })));
}

#[test]
fn resolve_executable_keeps_found_path() {
    let r = resolve_executable(Some("/opt/tools/uvx".to_string()), "uvx");
    assert_eq!(r.unwrap(), "/opt/tools/uvx");
}

