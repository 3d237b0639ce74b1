//! Redaction of one rendered value under a policy, honouring the toggle.
use vstd::prelude::*;
use vstd::string::StrSliceExecFns;
use vstd::string::StringExecFns;
use crate::engine::{
    is_some_shape, masked, none_text, redact_fixed_char, redact_fixed_str,
    redact_spec, some_inner, some_open,
};
use crate::flags::{RedactFlags, RedactionLength, RedactionStyle, RedactSpecialization};
use crate::text::push_char;
use crate::toggle::RedactionBehavior;

verus! {

/// What the engine emits for the rendered text `s`: the text itself in
/// plain-text mode, else the redaction of it.
pub open spec fn render_spec(
    s: Seq<char>,
    flags: RedactFlags,
    specialization: Option<RedactSpecialization>,
    behavior: RedactionBehavior,
) -> Seq<char> {
    if behavior is Plaintext {
        s
    } else {
        redact_spec(s, flags, specialization)
    }
}

/// Whether `s` is exactly `None`.
fn is_none_text(s: &str) -> (r: bool)
    ensures
        r == (s@ == none_text()),
{
    let len = s.unicode_len();
    if len != 4 {
        return false;
    }
    let r = s.get_char(0) == 'N' && s.get_char(1) == 'o' && s.get_char(2) == 'n' && s.get_char(
        3,
    ) == 'e';
    assert(r ==> s@ =~= none_text());
    r
}

/// The inner text of `s` if it reads `Some(` + inner + `)`.
fn strip_some(s: &str) -> (r: Option<&str>)
    ensures
        r is Some <==> is_some_shape(s@),
        r matches Some(inner) ==> inner@ == some_inner(s@),
{
    let len = s.unicode_len();
    if len < 6 {
        return None;
    }
    let shaped = s.get_char(0) == 'S' && s.get_char(1) == 'o' && s.get_char(2) == 'm'
        && s.get_char(3) == 'e' && s.get_char(4) == '(' && s.get_char(len - 1) == ')';
    proof {
        if shaped {
            assert(s@.take(5) =~= some_open());
        } else if s@.take(5) == some_open() {
            assert(s@.take(5)[0] == 'S' && s@.take(5)[1] == 'o' && s@.take(5)[2] == 'm');
            assert(s@.take(5)[3] == 'e' && s@.take(5)[4] == '(');
        }
    }
    if shaped {
        Some(s.substring_char(5, len - 1))
    } else {
        None
    }
}

/// Redacts the rendered text `source` under `flags`. An optional value's
/// absence passes through; a present one has only its inner text redacted;
/// a fixed width ignores the text altogether.
pub fn redact(source: &str, flags: RedactFlags, specialization: Option<RedactSpecialization>) -> (r:
    String)
    ensures
        r@ == redact_spec(source@, flags, specialization),
{
    match flags.redact_length {
        RedactionLength::Fixed(n) => {
            return match flags.redact_style {
                RedactionStyle::Asterisks => redact_fixed_char(n as usize, '*'),
                RedactionStyle::Char(c) => redact_fixed_char(n as usize, c),
                RedactionStyle::Str(t) => redact_fixed_str(t),
            };
        },
        _ => {},
    }
    if specialization.is_some() {
        if is_none_text(source) {
            return String::from_str(source);
        }
        match strip_some(source) {
            Some(inner) => {
                let mut out = String::from_str("Some(");
                proof {
                    reveal_strlit("Some(");
                    assert("Some("@ =~= some_open());
                }
                let body = flags.redact_masked(inner);
                out.append(body.as_str());
                push_char(&mut out, ')');
                assert(out@ =~= some_open() + masked(some_inner(source@), flags) + seq![')']);
                return out;
            },
            None => {
                return flags.redact_full(source);
            },
        }
    }
    flags.redact_masked(source)
}

/// The rendered form of a value that is to be redacted.
pub enum RedactionTarget {
    /// The value's debug rendering.
    Debug(String),
    /// The value's display rendering.
    Display(String),
}

impl RedactionTarget {
    /// The rendered text.
    pub open spec fn text(&self) -> Seq<char> {
        match self {
            RedactionTarget::Debug(s) => s@,
            RedactionTarget::Display(s) => s@,
        }
    }

    /// The rendered text, unredacted.
    pub fn passthrough(&self) -> (r: String)
        ensures
            r@ == self.text(),
    {
        match self {
            RedactionTarget::Debug(s) => String::from_str(s.as_str()),
            RedactionTarget::Display(s) => String::from_str(s.as_str()),
        }
    }

    fn as_str(&self) -> (r: &str)
        ensures
            r@ == self.text(),
    {
        match self {
            RedactionTarget::Debug(s) => s.as_str(),
            RedactionTarget::Display(s) => s.as_str(),
        }
    }
}

/// A rendered value together with the policy it is redacted under.
pub struct RedactionFormatter {
    pub this: RedactionTarget,
    pub flags: RedactFlags,
    pub specialization: Option<RedactSpecialization>,
}

impl RedactionFormatter {
    /// The output under `behavior`: the rendering itself in plain-text mode,
    /// else its redaction.
    pub fn format(&self, behavior: RedactionBehavior) -> (r: String)
        ensures
            r@ == render_spec(self.this.text(), self.flags, self.specialization, behavior),
    {
        if behavior.is_plaintext() {
            return self.this.passthrough();
        }
        redact(self.this.as_str(), self.flags, self.specialization)
    }
}

/// Redacts the display rendering `this` of a value under `flags`.
pub fn derived_redactable(this: &str, flags: RedactFlags, behavior: RedactionBehavior) -> (r:
    String)
    ensures
        r@ == render_spec(this@, flags, None, behavior),
{
    let formatter = RedactionFormatter {
        this: RedactionTarget::Display(String::from_str(this)),
        flags,
        specialization: None,
    };
    formatter.format(behavior)
}

} // verus!
