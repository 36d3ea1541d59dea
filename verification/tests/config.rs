use alfred_gitlab::config::{Command, Config, Kind};
use alfred_gitlab::text::same;
use alfred_gitlab::text::chars;

fn vars(pairs: &[(&str, &str)]) -> Vec<(String, String)> {
    pairs.iter().map(|(k, v)| (k.to_string(), v.to_string())).collect()
}

fn command(kind: Kind, name: &str, project: &str) -> Command {
    Command { kind, name: name.to_string(), project: project.to_string() }
}

#[test]
fn config_load_reads_token_and_commands() {
    let config = Config::load(&vars(&[
        ("HOME", "/home/me"),
        ("GITLAB_TOKEN", "secret"),
        ("GITLAB_ISSUES_MY_PROJECT", "group/project"),
        ("GITLAB_MERGE_REQUESTS_Reviews", "group/other"),
    ]));
    assert_eq!(config.token, Some("secret".to_string()));
    assert_eq!(
        config.commands,
        vec![
            command(Kind::Issues, "my-project", "group/project"),
            command(Kind::MergeRequests, "reviews", "group/other"),
        ]
    );
}

#[test]
fn config_load_of_nothing_is_empty() {
    let config = Config::load(&vars(&[]));
    assert_eq!(config, Config { token: None, commands: vec![] });
    let config = Config::load(&vars(&[("PATH", "/bin"), ("GITLAB", "x"), ("gitlab_token", "t")]));
    assert_eq!(config, Config { token: None, commands: vec![] });
}

#[test]
fn config_load_skips_empty_values() {
    let config = Config::load(&vars(&[
        ("GITLAB_TOKEN", "first"),
        ("GITLAB_TOKEN", ""),
        ("GITLAB_ISSUES_A", ""),
        ("GITLAB_MERGE_REQUESTS_B", ""),
    ]));
    assert_eq!(config, Config { token: Some("first".to_string()), commands: vec![] });
}

#[test]
fn config_load_last_token_wins_and_commands_keep_their_order() {
    let config = Config::load(&vars(&[
        ("GITLAB_MERGE_REQUESTS_Z", "z"),
        ("GITLAB_TOKEN", "first"),
        ("GITLAB_ISSUES_A", "a"),
        ("GITLAB_TOKEN", "second"),
        ("GITLAB_ISSUES_A", "again"),
    ]));
    assert_eq!(config.token, Some("second".to_string()));
    assert_eq!(
        config.commands,
        vec![
            command(Kind::MergeRequests, "z", "z"),
            command(Kind::Issues, "a", "a"),
            command(Kind::Issues, "a", "again"),
        ]
    );
}

#[test]
fn config_load_names_are_lower_case_with_dashes() {
    let config = Config::load(&vars(&[
        ("GITLAB_ISSUES_", "empty/name"),
        ("GITLAB_ISSUES__X__", "u"),
        ("GITLAB_ISSUES_ÄB_c-D", "v"),
        ("GITLAB_TOKEN_X", "not a token"),
        ("XGITLAB_ISSUES_A", "no prefix"),
    ]));
    assert_eq!(config.token, None);
    assert_eq!(
        config.commands,
        vec![
            command(Kind::Issues, "", "empty/name"),
            command(Kind::Issues, "-x--", "u"),
            command(Kind::Issues, "äb-c-d", "v"),
        ]
    );
}

#[test]
fn same_compares_texts() {
    assert!(same(&chars("abc"), &chars("abc")));
    assert!(same(&chars(""), &chars("")));
    assert!(!same(&chars("abc"), &chars("abd")));
    assert!(!same(&chars("abc"), &chars("ab")));
    assert!(!same(&chars("ab"), &chars("abc")));
}
