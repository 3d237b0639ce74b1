use veil::{Redactor, RedactorBuilder};

#[test]
fn redact_with_builder() {
    let redactor = RedactorBuilder::new().char('X').partial().build().unwrap();
    let email = redactor.redact("john.doe@prima.it".to_string());
    let name = redactor.redact("John Doe".to_string());
    assert_eq!(format!("{} <{}>", name, email), "JoXX Xoe <johX.XXX@XXXXa.it>");
}

#[test]
fn redact_in_place_chains() {
    let mut email = "john.doe@prima.it".to_string();
    let mut name = "John Doe".to_string();
    Redactor::builder()
        .char('X')
        .partial()
        .build()
        .unwrap()
        .redact_in_place(&mut email)
        .redact_in_place(&mut name);
    assert_eq!(format!("{} <{}>", name, email), "JoXX Xoe <johX.XXX@XXXXa.it>");
}

#[test]
fn and_redact_chains() {
    let mut email = "john.doe@prima.it".to_string();
    let mut name = "John Doe".to_string();
    RedactorBuilder::new()
        .char('X')
        .partial()
        .build()
        .unwrap()
        .and_redact(&mut email)
        .and_redact(&mut name);
    assert_eq!(format!("{} <{}>", name, email), "JoXX Xoe <johX.XXX@XXXXa.it>");
}

#[test]
fn wrap_renders_redacted() {
    let email = "john.doe@prima.it".to_string();
    let name = "John Doe".to_string();
    let redactor = Redactor::builder().char('X').partial().build().unwrap();
    let email = redactor.wrap(&email);
    let name = redactor.wrap(&name);
    assert_eq!(
        format!("{} <{}>", name.to_string(), email.to_string()),
        "JoXX Xoe <johX.XXX@XXXXa.it>"
    );
}

#[test]
fn default_builder_is_full_asterisks() {
    let redactor = RedactorBuilder::default().build().unwrap();
    assert_eq!(redactor.redact("John Doe".to_string()), "**** ***");
}

#[test]
fn str_builder_replaces_whole_value() {
    let redactor = RedactorBuilder::new().str("[REDACTED]").build().unwrap();
    assert_eq!(redactor.redact("John Doe".to_string()), "[REDACTED]");
}
