//! Redaction of arbitrary strings with a policy built once.
use vstd::prelude::*;
use crate::engine::redact_spec;
use crate::flags::{RedactFlags, RedactionLength, RedactionStyle};
use crate::formatter::redact;

verus! {

/// Redacts strings with a fixed policy. Built by a [`RedactorBuilder`].
pub struct Redactor(RedactFlags);

/// A borrowed string that renders redacted.
pub struct RedactWrapped<'a> {
    data: &'a str,
    flags: &'a RedactFlags,
}

/// Another name of [`RedactWrapped`].
pub type WrappedPii<'a> = RedactWrapped<'a>;

impl<'a> RedactWrapped<'a> {
    /// The wrapped text.
    pub closed spec fn data(&self) -> Seq<char> {
        self.data@
    }

    /// The policy it renders under.
    pub closed spec fn flags(&self) -> RedactFlags {
        *self.flags
    }

    /// The redacted rendering.
    pub fn to_string(&self) -> (r: String)
        ensures
            r@ == redact_spec(self.data(), self.flags(), None),
    {
        redact(self.data, *self.flags, None)
    }
}

impl Redactor {
    /// The policy this redactor applies.
    pub closed spec fn flags(&self) -> RedactFlags {
        self.0
    }

    /// A builder for a redactor.
    pub fn builder() -> (r: RedactorBuilder)
        ensures
            r.style() is None,
            !r.is_partial(),
    {
        RedactorBuilder::new()
    }

    /// The redaction of `data`.
    pub fn redact(&self, data: String) -> (r: String)
        ensures
            r@ == redact_spec(data@, self.flags(), None),
    {
        redact(data.as_str(), self.0, None)
    }

    /// Redacts `data` in place; returns the redactor for chaining.
    pub fn redact_in_place(&self, data: &mut String) -> (r: &Self)
        ensures
            final(data)@ == redact_spec(old(data)@, self.flags(), None),
            r == self,
    {
        let redacted = redact(data.as_str(), self.0, None);
        *data = redacted;
        self
    }

    /// Redacts `data` in place; returns the redactor for chaining.
    pub fn and_redact(&self, data: &mut String) -> (r: &Self)
        ensures
            final(data)@ == redact_spec(old(data)@, self.flags(), None),
            r == self,
    {
        self.redact_in_place(data)
    }

    /// Wraps `data` so that it renders redacted.
    pub fn wrap<'a>(&'a self, data: &'a str) -> (r: RedactWrapped<'a>)
        ensures
            r.data() == data@,
            r.flags() == self.flags(),
    {
        RedactWrapped { data, flags: &self.0 }
    }
}

/// A builder for [`Redactor`]s.
pub struct RedactorBuilder {
    redact_style: Option<RedactionStyle>,
    partial: bool,
}

impl RedactorBuilder {
    /// The style chosen so far, if any.
    pub closed spec fn style(&self) -> Option<RedactionStyle> {
        self.redact_style
    }

    /// Whether partial redaction was chosen.
    pub closed spec fn is_partial(&self) -> bool {
        self.partial
    }

    /// A builder for full redaction with asterisks.
    pub fn new() -> (r: RedactorBuilder)
        ensures
            r.style() is None,
            !r.is_partial(),
    {
        RedactorBuilder { redact_style: None, partial: false }
    }

    /// Redact with the character `c`.
    pub fn char(self, c: char) -> (r: RedactorBuilder)
        ensures
            r.style() == Some(RedactionStyle::Char(c)),
            r.is_partial() == self.is_partial(),
    {
        RedactorBuilder { redact_style: Some(RedactionStyle::Char(c)), partial: self.partial }
    }

    /// Replace the data with the literal `s`.
    pub fn str(self, s: &'static str) -> (r: RedactorBuilder)
        ensures
            r.style() == Some(RedactionStyle::Str(s)),
            r.is_partial() == self.is_partial(),
    {
        RedactorBuilder { redact_style: Some(RedactionStyle::Str(s)), partial: self.partial }
    }

    /// Redact only partially.
    pub fn partial(self) -> (r: RedactorBuilder)
        ensures
            r.style() == self.style(),
            r.is_partial(),
    {
        RedactorBuilder { redact_style: self.redact_style, partial: true }
    }

    /// The redactor: partial if chosen, else full; with the chosen style, else
    /// asterisks. Every builder state is valid.
    pub fn build(self) -> (r: Result<Redactor, &'static str>)
        ensures
            r matches Ok(red) && red.flags() == (RedactFlags {
                redact_length: if self.is_partial() {
                    RedactionLength::Partial
                } else {
                    RedactionLength::Full
                },
                redact_style: match self.style() {
                    Some(style) => style,
                    None => RedactionStyle::Asterisks,
                },
            }),
    {
        let flags = RedactFlags {
            redact_length: if self.partial {
                RedactionLength::Partial
            } else {
                RedactionLength::Full
            },
            redact_style: match self.redact_style {
                Some(style) => style,
                None => RedactionStyle::Asterisks,
            },
        };
        Ok(Redactor(flags))
    }
}

impl Default for RedactorBuilder {
    fn default() -> (r: RedactorBuilder)
        ensures
            r.style() is None,
            !r.is_partial(),
    {
        RedactorBuilder::new()
    }
}

} // verus!
