use veil::{
    disable, env_disables_redaction, redact, RedactFlags, RedactionBehavior, RedactionLength,
    RedactionStyle, RedactionToggle,
};

#[test]
fn redaction_cant_be_set_after_reading() {
    let mut toggle = RedactionToggle::new();
    assert!(toggle.behavior(false).is_redact());
    disable(&mut toggle).unwrap_err();
    assert!(toggle.behavior(false).is_redact());
}

#[test]
fn disable_before_reading_wins() {
    let mut toggle = RedactionToggle::new();
    assert_eq!(disable(&mut toggle), Ok(()));
    assert!(toggle.behavior(false).is_plaintext());
    assert_eq!(disable(&mut toggle), Err(RedactionBehavior::Plaintext));
}

#[test]
fn environment_decides_first_read() {
    let mut toggle = RedactionToggle::new();
    assert!(toggle.behavior(true).is_plaintext());
    assert!(toggle.behavior(false).is_plaintext());
}

#[test]
fn later_disable_keeps_redact_output() {
    let f = RedactFlags { redact_length: RedactionLength::Full, redact_style: RedactionStyle::Asterisks };
    let mut toggle = RedactionToggle::new();
    let before = toggle.behavior(false);
    assert!(toggle.disable().is_err());
    let after = toggle.behavior(true);
    assert_eq!(before, after);
    assert!(!after.is_plaintext());
    assert_eq!(redact("William", f, None), "*******");
}

#[test]
fn truthy_environment_values() {
    for v in ["1", "true", "TRUE", "True", "on", "ON", "oN"] {
        assert!(env_disables_redaction(v), "{v}");
    }
    for v in ["", "0", "false", "off", "yes", "tru", "onn", " 1", "truee"] {
        assert!(!env_disables_redaction(v), "{v}");
    }
}
