use veil::{EnvRedactConfig, FallbackBehavior, VeilConfig, VeilConfigError};

fn strings(values: &[&str]) -> Vec<String> {
    values.iter().map(|v| v.to_string()).collect()
}

fn app_env_config(fallback: FallbackBehavior) -> VeilConfig {
    let env = vec![(
        "APP_ENV".to_string(),
        EnvRedactConfig {
            redact: strings(&["production", "staging"]),
            skip_redact: strings(&["dev", "qa"]),
        },
    )];
    VeilConfig::from_parts(fallback, env).ok().unwrap()
}

fn vars(name: &str, value: &str) -> Vec<(String, String)> {
    vec![(name.to_string(), value.to_string())]
}

#[test]
fn test_production() {
    let config = app_env_config(FallbackBehavior::Redact(true));
    assert_eq!(config.redaction_enabled(&vars("APP_ENV", "production")), Some(true));
}

#[test]
fn test_staging() {
    let config = app_env_config(FallbackBehavior::Redact(true));
    assert_eq!(config.redaction_enabled(&vars("APP_ENV", "staging")), Some(true));
}

#[test]
fn test_dev() {
    let config = app_env_config(FallbackBehavior::Redact(true));
    assert_eq!(config.redaction_enabled(&vars("APP_ENV", "dev")), Some(false));
}

#[test]
fn test_qa() {
    let config = app_env_config(FallbackBehavior::Redact(true));
    assert_eq!(config.redaction_enabled(&vars("APP_ENV", "qa")), Some(false));
}

#[test]
fn unset_or_unlisted_variable_falls_back() {
    let on = app_env_config(FallbackBehavior::Redact(true));
    assert_eq!(on.redaction_enabled(&vec![]), Some(true));
    let off = app_env_config(FallbackBehavior::Redact(false));
    assert_eq!(off.redaction_enabled(&vars("APP_ENV", "test")), Some(false));
    let panic = app_env_config(FallbackBehavior::Panic("panic".to_string()));
    assert_eq!(panic.redaction_enabled(&vars("OTHER", "dev")), None);
    assert_eq!(VeilConfig::new().redaction_enabled(&vars("APP_ENV", "dev")), Some(true));
}

#[test]
fn first_deciding_variable_wins() {
    let env = vec![
        ("A".to_string(), EnvRedactConfig { redact: strings(&["x"]), skip_redact: vec![] }),
        ("B".to_string(), EnvRedactConfig { redact: vec![], skip_redact: strings(&["y"]) }),
    ];
    let config = VeilConfig::from_parts(FallbackBehavior::Redact(true), env).ok().unwrap();
    let set = vec![("B".to_string(), "y".to_string()), ("A".to_string(), "z".to_string())];
    assert_eq!(config.redaction_enabled(&set), Some(false));
    let set = vec![("B".to_string(), "y".to_string()), ("A".to_string(), "x".to_string())];
    assert_eq!(config.redaction_enabled(&set), Some(true));
}

#[test]
fn rejects_empty_variable() {
    let env = vec![("APP_ENV".to_string(), EnvRedactConfig { redact: vec![], skip_redact: vec![] })];
    match VeilConfig::from_parts(FallbackBehavior::Redact(true), env) {
        Err(VeilConfigError::EmptyConfiguration(k)) => assert_eq!(k, "APP_ENV"),
        _ => panic!("expected an empty configuration error"),
    }
}

#[test]
fn rejects_duplicate_pair() {
    let env = vec![(
        "APP_ENV".to_string(),
        EnvRedactConfig { redact: strings(&["dev"]), skip_redact: strings(&["qa", "dev"]) },
    )];
    match VeilConfig::from_parts(FallbackBehavior::Redact(true), env) {
        Err(VeilConfigError::DuplicatePair(k, v)) => {
            assert_eq!(k, "APP_ENV");
            assert_eq!(v, "dev");
        }
        _ => panic!("expected a duplicate pair error"),
    }
}

#[test]
fn rejects_duplicate_key() {
    let env = vec![
        ("APP_ENV".to_string(), EnvRedactConfig { redact: strings(&["a"]), skip_redact: vec![] }),
        ("APP_ENV".to_string(), EnvRedactConfig { redact: strings(&["b"]), skip_redact: vec![] }),
    ];
    match VeilConfig::from_parts(FallbackBehavior::Redact(true), env) {
        Err(VeilConfigError::DuplicateKey(k)) => assert_eq!(k, "APP_ENV"),
        _ => panic!("expected a duplicate key error"),
    }
}

#[test]
fn rejects_bad_fallback_word() {
    let env = vec![];
    assert!(matches!(
        VeilConfig::from_parts(FallbackBehavior::Panic("explode".to_string()), env),
        Err(VeilConfigError::InvalidFallback)
    ));
    assert!(VeilConfig::from_parts(FallbackBehavior::Panic("panic".to_string()), vec![]).is_ok());
}
