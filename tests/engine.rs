use veil::engine::{redact_full_marked, redact_partial_marked};
use veil::{
    derived_redactable, redact, RedactFlags, RedactSpecialization, RedactionBehavior,
    RedactionFormatter, RedactionLength, RedactionStyle, RedactionTarget,
};

fn flags(redact_length: RedactionLength, redact_style: RedactionStyle) -> RedactFlags {
    RedactFlags { redact_length, redact_style }
}

#[test]
fn partial_with_char_keeps_three_at_each_end() {
    let f = flags(RedactionLength::Partial, RedactionStyle::Char('X'));
    assert_eq!(redact("Hello, world!", f, None), "HelXX, XXrld!");
}

#[test]
fn partial_email() {
    let f = flags(RedactionLength::Partial, RedactionStyle::Char('X'));
    assert_eq!(redact("john.doe@prima.it", f, None), "johX.XXX@XXXXa.it");
}

#[test]
fn option_none_passes_through() {
    let f = flags(RedactionLength::Partial, RedactionStyle::Asterisks);
    assert_eq!(redact("None", f, Some(RedactSpecialization::Option)), "None");
}

#[test]
fn option_some_redacts_inner_only() {
    let f = flags(RedactionLength::Partial, RedactionStyle::Asterisks);
    assert_eq!(redact("Some(Doe)", f, Some(RedactSpecialization::Option)), "Some(***)");
}

#[test]
fn option_unrecognised_shape_redacts_fully() {
    let f = flags(RedactionLength::Partial, RedactionStyle::Asterisks);
    assert_eq!(redact("Maybe(Johnny)", f, Some(RedactSpecialization::Option)), "*****(******)");
}

#[test]
fn option_some_partial_inner() {
    let f = flags(RedactionLength::Partial, RedactionStyle::Asterisks);
    assert_eq!(
        redact("Some(\"William\")", f, Some(RedactSpecialization::Option)),
        "Some(\"Wi***am\")"
    );
}

#[test]
fn fixed_asterisks_ignores_text() {
    let f = flags(RedactionLength::Fixed(4), RedactionStyle::Asterisks);
    assert_eq!(redact("anything at all", f, None), "****");
    assert_eq!(redact("", f, None), "****");
    assert_eq!(redact("None", f, Some(RedactSpecialization::Option)), "****");
}

#[test]
fn fixed_char() {
    let f = flags(RedactionLength::Fixed(3), RedactionStyle::Char('-'));
    assert_eq!(redact("William", f, None), "---");
}

#[test]
fn fixed_str_is_verbatim() {
    let f = flags(RedactionLength::Fixed(2), RedactionStyle::Str("[REDACTED]"));
    assert_eq!(redact("William", f, None), "[REDACTED]");
}

#[test]
fn full_str_replaces_whole_value() {
    let f = flags(RedactionLength::Full, RedactionStyle::Str("<hidden>"));
    assert_eq!(redact("William", f, None), "<hidden>");
}

#[test]
fn full_keeps_punctuation_and_whitespace() {
    let f = flags(RedactionLength::Full, RedactionStyle::Asterisks);
    assert_eq!(redact("10 Downing Street!", f, None), "** ******* ******!");
}

#[test]
fn full_is_unicode_aware() {
    let f = flags(RedactionLength::Full, RedactionStyle::Asterisks);
    assert_eq!(redact("Zoë ٣ €", f, None), "*** * €");
}

#[test]
fn short_partial_equals_full() {
    let p = flags(RedactionLength::Partial, RedactionStyle::Char('#'));
    let f = flags(RedactionLength::Full, RedactionStyle::Char('#'));
    for s in ["", "a", "ab-cd", "x.y.z.w", "Doe"] {
        assert_eq!(redact(s, p, None), redact(s, f, None));
    }
}

#[test]
fn partial_exposes_a_third_when_short() {
    let f = flags(RedactionLength::Partial, RedactionStyle::Asterisks);
    assert_eq!(redact("abcdef", f, None), "ab**ef");
    assert_eq!(redact("abcde", f, None), "a***e");
    assert_eq!(redact("Assicurazioni", f, None), "Ass*******oni");
}

#[test]
fn full_twice_is_full_once() {
    let f = flags(RedactionLength::Full, RedactionStyle::Char('X'));
    let once = redact("John Doe, 42", f, None);
    assert_eq!(once, "XXXX XXX, XX");
    assert_eq!(redact(&once, f, None), once);
}

#[test]
fn partial_keeps_non_alphanumerics_in_place() {
    let f = flags(RedactionLength::Partial, RedactionStyle::Asterisks);
    let s = "a-b_c d.e/f+g";
    let r = redact(s, f, None);
    assert_eq!(r.chars().count(), s.chars().count());
    for (a, b) in s.chars().zip(r.chars()) {
        if !a.is_alphanumeric() {
            assert_eq!(a, b);
        }
    }
}

#[test]
fn formatter_plaintext_passes_through() {
    let formatter = RedactionFormatter {
        this: RedactionTarget::Debug("\"William\"".to_string()),
        flags: flags(RedactionLength::Full, RedactionStyle::Asterisks),
        specialization: None,
    };
    assert_eq!(formatter.format(RedactionBehavior::Plaintext), "\"William\"");
    assert_eq!(formatter.format(RedactionBehavior::Redact), "\"*******\"");
    assert_eq!(formatter.this.passthrough(), "\"William\"");
}

#[test]
fn derived_redactable_uses_display_text() {
    let f = flags(RedactionLength::Fixed(3), RedactionStyle::Char('-'));
    assert_eq!(derived_redactable("William", f, RedactionBehavior::Redact), "---");
    assert_eq!(derived_redactable("William", f, RedactionBehavior::Plaintext), "William");
}

#[test]
fn test_derive_sensitive_modifiers() {
    let f = flags(RedactionLength::Fixed(3), RedactionStyle::Char('-'));
    assert_eq!(derived_redactable("William", f, RedactionBehavior::Redact), "---");
    let mut buffer = String::new();
    buffer.push_str(&derived_redactable("William", f, RedactionBehavior::Redact));
    assert_eq!(buffer, "---");
}

#[test]
fn full_twice_on_optional_values() {
    let f = flags(RedactionLength::Full, RedactionStyle::Asterisks);
    let sp = Some(RedactSpecialization::Option);
    let once = redact("Some(\"John Doe\")", f, sp);
    assert_eq!(once, "Some(\"**** ***\")");
    assert_eq!(redact(&once, f, sp), once);
    assert_eq!(redact(&redact("None", f, sp), f, sp), "None");
}

#[test]
fn partial_str_replaces_whole_value() {
    let f = flags(RedactionLength::Partial, RedactionStyle::Str("[hidden]"));
    assert_eq!(redact("Assicurazioni", f, None), "[hidden]");
}

#[test]
fn marked_redaction_follows_marks() {
    assert_eq!(redact_full_marked("ab-c", &vec![true, true, false, true], '*'), "**-*");
    assert_eq!(redact_full_marked("abcd", &vec![false, true], '#'), "a#cd");
    let marks: Vec<bool> = "Hello, world!".chars().map(|c| c.is_alphanumeric()).collect();
    assert_eq!(redact_partial_marked("Hello, world!", &marks, 'X'), "HelXX, XXrld!");
    assert_eq!(redact_partial_marked("abcd", &vec![true; 4], 'X'), "XXXX");
}

#[test]
fn classify_marks_alphanumerics() {
    assert_eq!(veil::text::classify("a1 é-"), vec![true, true, false, true, false]);
}
