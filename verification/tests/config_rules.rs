use linear_tasks::config::{blocks_missing_among, horizons_missing_among};
use linear_tasks::config::{
    config_from_wizard, config_path, get_api_key, join_path, missing_block_labels,
    missing_horizon_labels, templates_path,
};
use linear_tasks::models::{AppConfig, DaytimeBlock, Label, TimeHorizon};

fn label(name: &str) -> Label {
    Label { id: format!("id-{}", name), name: name.to_string(), color: None }
}

#[test]
fn paths_are_joined() {
    assert_eq!(config_path("/home/a/.config/linear-tasks"), "/home/a/.config/linear-tasks/config.toml");
    assert_eq!(templates_path("/home/a/.config/linear-tasks/"), "/home/a/.config/linear-tasks/templates.json");
    assert_eq!(join_path("", "x.toml"), "x.toml");
    assert_eq!(join_path("/etc", "/abs/x"), "/abs/x");
}

#[test]
fn environment_key_wins() {
    let mut c = AppConfig::default();
    assert_eq!(get_api_key(None, &c), None);
    c.linear_api_key = "lin_file".to_string();
    assert_eq!(get_api_key(None, &c), Some("lin_file".to_string()));
    assert_eq!(get_api_key(Some("lin_env".to_string()), &c), Some("lin_env".to_string()));
}

#[test]
fn wizard_configuration() {
    let c = config_from_wizard("lin_key".to_string(), "".to_string());
    assert_eq!(c.linear_api_key, "lin_key");
    assert_eq!(c.default_team_name, None);
    assert_eq!(c.default_team_id, None);
    assert_eq!(c.time_horizon_labels.weekly, "Weekly");
    let c = config_from_wizard("k".to_string(), "Engineering".to_string());
    assert_eq!(c.default_team_name, Some("Engineering".to_string()));
}

#[test]
fn config_set_known_and_unknown_keys() {
    let mut c = AppConfig::default();
    assert!(c.set_value("api_key", "lin_1".to_string()).is_ok());
    assert_eq!(c.linear_api_key, "lin_1");
    assert!(c.set_value("default_team", "Ops".to_string()).is_ok());
    assert_eq!(c.default_team_name, Some("Ops".to_string()));
    let err = c.set_value("colour", "red".to_string()).unwrap_err();
    assert_eq!(err.key, "colour");
    assert_eq!(c.linear_api_key, "lin_1");
}

#[test]
fn api_key_is_masked() {
    let mut c = AppConfig::default();
    assert_eq!(c.api_key_display(), "Not set");
    c.linear_api_key = "secret".to_string();
    assert_eq!(c.api_key_display(), "********");
}

#[test]
fn missing_labels_compare_case_insensitively() {
    let existing = vec![label("annual"), label("WEEKLY"), label("Bug"), label("Evening")];
    assert_eq!(missing_horizon_labels(&existing), vec![TimeHorizon::Monthly, TimeHorizon::Daily]);
    assert_eq!(
        missing_block_labels(&existing),
        vec![DaytimeBlock::Morning, DaytimeBlock::Work, DaytimeBlock::Afternoon]
    );
    assert_eq!(missing_horizon_labels(&vec![]).len(), 4);
    let all = vec![label("Morning"), label("work"), label("AFTERNOON"), label("evening")];
    assert!(missing_block_labels(&all).is_empty());
}

#[test]
fn stored_key_is_used_unless_the_environment_has_one() {
    let mut c = AppConfig::default();
    c.set_value("api_key", "lin_api_stored".to_string()).unwrap();
    assert_eq!(get_api_key(None, &c), Some("lin_api_stored".to_string()));
    assert_eq!(get_api_key(Some("lin_api_env".to_string()), &c), Some("lin_api_env".to_string()));
    c.set_value("default_team", "Day-to-day operations".to_string()).unwrap();
    assert_eq!(c.default_team_name.as_deref(), Some("Day-to-day operations"));
    assert_eq!(c.linear_api_key, "lin_api_stored");
}

#[test]
fn missing_among_lowered_names() {
    let names = vec!["daily".to_string(), "monthly".to_string(), "Weekly".to_string(), "work".to_string()];
    assert_eq!(horizons_missing_among(&names), vec![TimeHorizon::Annual, TimeHorizon::Weekly]);
    assert_eq!(
        blocks_missing_among(&names),
        vec![DaytimeBlock::Morning, DaytimeBlock::Afternoon, DaytimeBlock::Evening]
    );
}
