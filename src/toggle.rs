//! A set-once switch that can turn redaction off for a whole process.
//!
//! The value is fixed the first time it is read or set, and never changes
//! afterwards: masking cannot be switched off once output has been produced.
use vstd::prelude::*;
use vstd::string::StrSliceExecFns;

verus! {

/// How values are rendered.
#[derive(Clone, Copy, Debug, PartialEq, Eq, Structural)]
pub enum RedactionBehavior {
    /// Redact as the policies say.
    Redact,
    /// Print the data as plain text.
    Plaintext,
}

impl RedactionBehavior {
    /// Whether data is redacted.
    pub fn is_redact(&self) -> (r: bool)
        ensures
            r <==> *self is Redact,
    {
        matches!(self, RedactionBehavior::Redact)
    }

    /// Whether data is printed as plain text.
    pub fn is_plaintext(&self) -> (r: bool)
        ensures
            r <==> *self is Plaintext,
    {
        matches!(self, RedactionBehavior::Plaintext)
    }
}

/// The state of a toggle after a `disable` request.
pub open spec fn disable_spec(state: Option<RedactionBehavior>) -> (
    Option<RedactionBehavior>,
    Result<(), RedactionBehavior>,
) {
    match state {
        None => (Some(RedactionBehavior::Plaintext), Ok(())),
        Some(b) => (state, Err(RedactionBehavior::Plaintext)),
    }
}

/// The state of a toggle after a read, and the behavior read; `env_disable`
/// says whether the environment asks for plain text.
pub open spec fn read_spec(state: Option<RedactionBehavior>, env_disable: bool) -> (
    Option<RedactionBehavior>,
    RedactionBehavior,
) {
    match state {
        Some(b) => (state, b),
        None => {
            let b = if env_disable {
                RedactionBehavior::Plaintext
            } else {
                RedactionBehavior::Redact
            };
            (Some(b), b)
        },
    }
}

/// A cell that is set at most once, by a `disable` request or by the first
/// read, and then stays fixed.
pub struct RedactionToggle {
    value: Option<RedactionBehavior>,
}

impl RedactionToggle {
    /// The fixed value, if any.
    pub closed spec fn state(&self) -> Option<RedactionBehavior> {
        self.value
    }

    /// A toggle that has been neither read nor set.
    pub fn new() -> (r: RedactionToggle)
        ensures
            r.state() is None,
    {
        RedactionToggle { value: None }
    }

    /// Fixes the value to plain text, unless it is already fixed; then
    /// returns the rejected value as the error and changes nothing.
    pub fn disable(&mut self) -> (r: Result<(), RedactionBehavior>)
        ensures
            (final(self).state(), r) == disable_spec(old(self).state()),
    {
        match self.value {
            None => {
                self.value = Some(RedactionBehavior::Plaintext);
                Ok(())
            },
            Some(_) => Err(RedactionBehavior::Plaintext),
        }
    }

    /// Reads the behavior. The first read fixes it: to plain text if
    /// `env_disable` holds, else to redaction.
    pub fn behavior(&mut self, env_disable: bool) -> (r: RedactionBehavior)
        ensures
            (final(self).state(), r) == read_spec(old(self).state(), env_disable),
    {
        match self.value {
            Some(b) => b,
            None => {
                let b = if env_disable {
                    RedactionBehavior::Plaintext
                } else {
                    RedactionBehavior::Redact
                };
                self.value = Some(b);
                b
            },
        }
    }
}

/// Requests plain-text rendering on `toggle`; fails once the value is fixed.
pub fn disable(toggle: &mut RedactionToggle) -> (r: Result<(), RedactionBehavior>)
    ensures
        (final(toggle).state(), r) == disable_spec(old(toggle).state()),
{
    toggle.disable()
}

/// Once a toggle has been read, a `disable` request fails, leaves the toggle
/// as it was, and every later read returns what the first read returned.
pub proof fn lemma_read_freezes(state: Option<RedactionBehavior>, env: bool, later_env: bool)
    ensures
        ({
            let (s1, b) = read_spec(state, env);
            let (s2, r) = disable_spec(s1);
            &&& r is Err
            &&& s2 == s1
            &&& read_spec(s2, later_env).1 == b
        }),
{
}

/// Whether `c` equals the lower-case ASCII letter or digit `l`, ignoring
/// ASCII case.
pub open spec fn ci_eq(c: char, l: char) -> bool {
    c == l || ('a' <= l && l <= 'z' && (c as u32) + 32 == (l as u32))
}

/// Whether an environment value asks for plain text: `1`, `true` or `on`,
/// in any ASCII case.
pub open spec fn is_truthy(v: Seq<char>) -> bool {
    ||| v.len() == 1 && v[0] == '1'
    ||| v.len() == 2 && ci_eq(v[0], 'o') && ci_eq(v[1], 'n')
    ||| v.len() == 4 && ci_eq(v[0], 't') && ci_eq(v[1], 'r') && ci_eq(v[2], 'u') && ci_eq(v[3], 'e')
}

fn char_ci_eq(c: char, l: char) -> (r: bool)
    ensures
        r == ci_eq(c, l),
{
    c == l || ('a' <= l && l <= 'z' && (c as u32) + 32 == (l as u32))
}

/// Whether the value of the switch-off variable asks for plain text.
pub fn env_disables_redaction(value: &str) -> (r: bool)
    ensures
        r == is_truthy(value@),
{
    let len = value.unicode_len();
    if len == 1 {
        value.get_char(0) == '1'
    } else if len == 2 {
        char_ci_eq(value.get_char(0), 'o') && char_ci_eq(value.get_char(1), 'n')
    } else if len == 4 {
        char_ci_eq(value.get_char(0), 't') && char_ci_eq(value.get_char(1), 'r')
            && char_ci_eq(value.get_char(2), 'u') && char_ci_eq(value.get_char(3), 'e')
    } else {
        false
    }
}

} // verus!
