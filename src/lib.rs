//! Redaction of sensitive data in diagnostic text.
//!
//! The engine turns an already rendered value into redacted text: every
//! alphanumeric character is masked (full), or all but a short prefix and
//! suffix (partial), or the whole text is replaced by a fixed-width mask.
use vstd::prelude::*;

pub mod annotation;
pub mod config;
pub mod engine;
pub mod flags;
pub mod formatter;
pub mod laws;
pub mod redactor;
pub mod render;
pub mod resolve;
pub mod text;
pub mod toggle;

pub use config::{EnvRedactConfig, FallbackBehavior, VeilConfig, VeilConfigError};
pub use annotation::{FieldFlags, FieldFlagsParse, Modifier, ParseMeta, PolicyErrorKind};
pub use flags::{RedactFlags, RedactionLength, RedactionStyle, RedactSpecialization};
pub use formatter::{derived_redactable, redact, RedactionFormatter, RedactionTarget};
pub use redactor::{RedactWrapped, Redactor, RedactorBuilder, WrappedPii};
pub use render::{format_field, format_value, format_variant, FieldValue};
pub use resolve::{
    resolve_enum, resolve_struct, EnumSchema, FieldPolicy, FieldSchema, FieldsKind, Location,
    PolicyError, StructSchema, VariantPolicy, VariantSchema,
};
pub use toggle::{disable, env_disables_redaction, RedactionBehavior, RedactionToggle};

verus! {

/// Values that render themselves with their sensitive data redacted.
pub trait Redactable {
    /// This value's rendering, redacted.
    fn redact(&self) -> String;
}

} // verus!
