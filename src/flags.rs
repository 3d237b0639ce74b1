//! The unit of configuration: how much to redact and with what.
use vstd::prelude::*;

verus! {

/// How much of the data to redact.
#[derive(Clone, Copy, Debug)]
pub enum RedactionLength {
    /// Redact every alphanumeric character.
    Full,
    /// Keep a short prefix and suffix of long enough data, redact the rest.
    Partial,
    /// Ignore the data and emit a mask of this many characters.
    Fixed(u8),
}

/// What the redacted characters are replaced with.
#[derive(Clone, Copy, Debug)]
pub enum RedactionStyle {
    /// The fill character `*`.
    Asterisks,
    /// A fill character of the user's choice.
    Char(char),
    /// A literal replacement emitted verbatim in place of the whole value.
    Str(&'static str),
}

/// A redaction policy: a length and a style.
#[derive(Clone, Copy, Debug)]
pub struct RedactFlags {
    /// How much of the data to redact.
    pub redact_length: RedactionLength,
    /// What to redact it with. Defaults to `*`.
    pub redact_style: RedactionStyle,
}

/// Specialised handling of rendered values, chosen from what the schema
/// knows of a field's declared type.
#[derive(Clone, Copy, Debug)]
pub enum RedactSpecialization {
    /// The value is an optional value rendered as `None` or `Some(...)`.
    Option,
}

impl RedactionLength {
    /// A fixed width is never zero.
    pub open spec fn wf(self) -> bool {
        self matches RedactionLength::Fixed(n) ==> n > 0
    }
}

impl RedactFlags {
    /// The policy's length is well formed.
    pub open spec fn wf(self) -> bool {
        self.redact_length.wf()
    }

    /// The default policy: full redaction with asterisks.
    pub fn full() -> (r: RedactFlags)
        ensures
            r.redact_length is Full,
            r.redact_style is Asterisks,
    {
        RedactFlags { redact_length: RedactionLength::Full, redact_style: RedactionStyle::Asterisks }
    }
}

} // verus!
