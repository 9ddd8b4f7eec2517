use priority_class_policy::settings::Settings;

#[test]
fn validate_empty_settings() {
    let settings = Settings {
        ..Default::default()
    };
    assert!(settings.validate().is_err());
}

#[test]
fn validate_both_settings() {
    let settings = Settings {
        allowed_priority_classes: vec!["high-priority".to_string(), "low-priority".to_string()],
        denied_priority_classes: vec!["high-priority".to_string(), "low-priority".to_string()],
        ..Default::default()
    };
    assert!(settings.validate().is_err());
}

#[test]
fn validate_allowlist_settings() {
    let settings = Settings {
        allowed_priority_classes: vec!["high-priority".to_string(), "low-priority".to_string()],
        default_priority_class: Some("low-priority".to_string()),
        ..Default::default()
    };
    assert!(settings.validate().is_ok());
}

#[test]
fn validate_denylist_settings() {
    let settings = Settings {
        denied_priority_classes: vec!["high-priority".to_string(), "low-priority".to_string()],
        ..Default::default()
    };
    assert!(settings.validate().is_ok());
}

#[test]
fn default_priority_class_should_be_in_allowed_list() {
    let settings = Settings {
        allowed_priority_classes: vec!["high-priority".to_string()],
        default_priority_class: Some("low-priority".to_string()),
        ..Default::default()
    };
    assert!(settings.validate().is_err());
    assert_eq!(
        settings.validate().unwrap_err(),
        "The default priority class 'low-priority' is not in the allowed priority classes list"
    );
}

#[test]
fn default_priority_class_should_not_be_in_denied_list() {
    let settings = Settings {
        denied_priority_classes: vec!["high-priority".to_string()],
        default_priority_class: Some("high-priority".to_string()),
        ..Default::default()
    };
    assert!(settings.validate().is_err());
    assert_eq!(
        settings.validate().unwrap_err(),
        "The default priority class 'high-priority' cannot be defined in the denied priority classes list",
    );
}

#[test]
fn validate_empty_default_priority_class() {
    let settings = Settings {
        denied_priority_classes: vec!["high-priority".to_string()],
        default_priority_class: Some("".to_string()),
        ..Default::default()
    };
    assert_eq!(
        settings.validate().expect_err("Missing validation error"),
        "The default priority class cannot be an empty string"
    );
}

#[test]
fn validate_both_lists_set_message() {
    let settings = Settings {
        allowed_priority_classes: vec!["a".to_string()],
        denied_priority_classes: vec!["b".to_string()],
        ..Default::default()
    };
    assert_eq!(
        settings.validate().unwrap_err(),
        "Both allowed and denied priority class lists cannot be set at the same time"
    );
}

#[test]
fn validate_empty_lists_message() {
    let settings = Settings {
        ..Default::default()
    };
    assert_eq!(
        settings.validate().unwrap_err(),
        "The priority class lists cannot be empty"
    );
}

#[test]
fn validate_duplicate_entries_are_harmless() {
    let settings = Settings {
        allowed_priority_classes: vec!["high-priority".to_string(), "high-priority".to_string()],
        default_priority_class: Some("high-priority".to_string()),
        ..Default::default()
    };
    assert!(settings.validate().is_ok());
}
