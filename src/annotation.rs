//! Annotations and their parsing into field flags.
use vstd::prelude::*;
use crate::flags::{RedactFlags, RedactionLength, RedactionStyle};

verus! {

/// One modifier of a redaction annotation.
#[derive(Clone, Copy, Debug)]
pub enum Modifier {
    /// Redact every field of the struct or variant (`all`).
    All,
    /// Redact the name of an enum variant (`variant`).
    Variant,
    /// Exempt a field or variant name from an enclosing `all` (`skip`).
    Skip,
    /// Redact the display rendering instead of the debug one (`display`).
    Display,
    /// Redact partially (`partial`).
    Partial,
    /// Redact to a fixed width (`fixed = n`).
    Fixed(u8),
    /// Redact with a character (`with = 'X'`).
    WithChar(char),
    /// Replace with a literal (`with = "..."`).
    WithStr(&'static str),
}

/// Why a schema's annotations cannot be resolved.
#[derive(Clone, Copy, Debug, PartialEq, Eq, Structural)]
pub enum PolicyErrorKind {
    /// Two length modifiers (`partial`, `fixed`) in one annotation.
    LengthClash,
    /// `fixed = 0`.
    ZeroWidth,
    /// More annotations than the item allows.
    TooManyAnnotations,
    /// `skip` where no `all` applies.
    SkipNotAllowed,
    /// `skip` together with other modifiers.
    SkipWithModifiers,
    /// `variant` on a struct.
    VariantOnStruct,
    /// `variant` on a field.
    VariantOnField,
    /// `all` on a field.
    AllOnField,
    /// A struct annotation without `all`.
    MissingAll,
    /// An enum annotation without both `all` and `variant`.
    MissingAllVariant,
    /// `all` and `variant` in one annotation on a variant.
    AllVariantOnVariant,
    /// A variant annotation with neither `all` nor `variant`.
    NeedsAllOrVariant,
    /// Two `all` annotations on one variant.
    DuplicateAll,
    /// Two `variant` annotations on one variant.
    DuplicateVariant,
    /// `display` on a variant name, which has no display rendering.
    DisplayOnVariantName,
    /// `all` on a variant without fields.
    UnitVariantFields,
    /// A struct without fields.
    UnitStruct,
    /// Nothing in the type ends up redacted.
    Unused,
}

/// Whether a modifier was taken by a parser.
#[derive(Clone, Copy, Debug, PartialEq, Eq, Structural)]
pub enum ParseMeta {
    /// The modifier was applied.
    Consumed,
    /// The modifier belongs to another parser.
    Unrecognised,
}

/// What an annotation sets.
#[derive(Clone, Copy, Debug)]
pub struct FieldFlags {
    /// Redact every field (`all`).
    pub all: bool,
    /// Redact a variant's name (`variant`).
    pub variant: bool,
    /// Exempt from an enclosing `all` (`skip`).
    pub skip: bool,
    /// Use the display rendering (`display`).
    pub display: bool,
    /// The redaction policy.
    pub redact: RedactFlags,
}

/// Options of [`FieldFlags::validate`].
#[derive(Clone, Copy, Debug)]
pub struct FieldFlagsParse {
    /// Whether an enclosing `all` makes `skip` meaningful.
    pub skip_allowed: bool,
}

/// Flags before any modifier.
pub open spec fn default_flags() -> FieldFlags {
    FieldFlags {
        all: false,
        variant: false,
        skip: false,
        display: false,
        redact: RedactFlags {
            redact_length: RedactionLength::Full,
            redact_style: RedactionStyle::Asterisks,
        },
    }
}

/// The effect of one modifier on `f`.
pub open spec fn step_spec(f: FieldFlags, m: Modifier) -> Result<FieldFlags, PolicyErrorKind> {
    match m {
        Modifier::Partial => if f.redact.redact_length is Full {
            Ok(FieldFlags { redact: RedactFlags { redact_length: RedactionLength::Partial, ..f.redact }, ..f })
        } else {
            Err(PolicyErrorKind::LengthClash)
        },
        Modifier::Fixed(n) => if !(f.redact.redact_length is Full) {
            Err(PolicyErrorKind::LengthClash)
        } else if n == 0 {
            Err(PolicyErrorKind::ZeroWidth)
        } else {
            Ok(FieldFlags { redact: RedactFlags { redact_length: RedactionLength::Fixed(n), ..f.redact }, ..f })
        },
        Modifier::WithChar(c) => Ok(
            FieldFlags { redact: RedactFlags { redact_style: RedactionStyle::Char(c), ..f.redact }, ..f },
        ),
        Modifier::WithStr(s) => Ok(
            FieldFlags { redact: RedactFlags { redact_style: RedactionStyle::Str(s), ..f.redact }, ..f },
        ),
        Modifier::All => Ok(FieldFlags { all: true, ..f }),
        Modifier::Variant => Ok(FieldFlags { variant: true, ..f }),
        Modifier::Skip => Ok(FieldFlags { skip: true, ..f }),
        Modifier::Display => Ok(FieldFlags { display: true, ..f }),
    }
}

/// The flags of an annotation: its modifiers applied from left to right,
/// failing at the first that cannot apply.
pub open spec fn parse_spec(mods: Seq<Modifier>) -> Result<FieldFlags, PolicyErrorKind>
    decreases mods.len(),
{
    if mods.len() == 0 {
        Ok(default_flags())
    } else {
        match parse_spec(mods.drop_last()) {
            Ok(f) => step_spec(f, mods.last()),
            Err(e) => Err(e),
        }
    }
}

/// Whether flags that carry `skip` carry anything else but `variant`.
pub open spec fn skip_has_others(f: FieldFlags) -> bool {
    f.all || f.display || !(f.redact.redact_length is Full) || !(f.redact.redact_style is Asterisks)
}

/// The check of parsed flags against where they stand.
pub open spec fn validate_spec(f: FieldFlags, skip_allowed: bool) -> Result<(), PolicyErrorKind> {
    if f.skip && !skip_allowed {
        Err(PolicyErrorKind::SkipNotAllowed)
    } else if f.skip && skip_has_others(f) {
        Err(PolicyErrorKind::SkipWithModifiers)
    } else {
        Ok(())
    }
}

/// Parsing then validating one annotation.
pub open spec fn checked_spec(mods: Seq<Modifier>, skip_allowed: bool) -> Result<
    FieldFlags,
    PolicyErrorKind,
> {
    match parse_spec(mods) {
        Ok(f) => match validate_spec(f, skip_allowed) {
            Ok(_) => Ok(f),
            Err(e) => Err(e),
        },
        Err(e) => Err(e),
    }
}

impl RedactFlags {
    /// Applies a length or style modifier; others are left to the caller.
    pub fn try_parse_meta(&mut self, m: Modifier) -> (r: Result<ParseMeta, PolicyErrorKind>)
        ensures
            ({
                let f = FieldFlags { redact: *old(self), ..default_flags() };
                match m {
                    Modifier::Partial | Modifier::Fixed(_) | Modifier::WithChar(_)
                    | Modifier::WithStr(_) => match step_spec(f, m) {
                        Ok(g) => r == Ok::<ParseMeta, PolicyErrorKind>(ParseMeta::Consumed)
                            && *final(self) == g.redact,
                        Err(e) => r == Err::<ParseMeta, PolicyErrorKind>(e),
                    },
                    _ => r == Ok::<ParseMeta, PolicyErrorKind>(ParseMeta::Unrecognised)
                        && *final(self) == *old(self),
                }
            }),
    {
        match m {
            Modifier::Partial => {
                if !matches!(self.redact_length, RedactionLength::Full) {
                    return Err(PolicyErrorKind::LengthClash);
                }
                self.redact_length = RedactionLength::Partial;
            },
            Modifier::Fixed(n) => {
                if !matches!(self.redact_length, RedactionLength::Full) {
                    return Err(PolicyErrorKind::LengthClash);
                }
                if n == 0 {
                    return Err(PolicyErrorKind::ZeroWidth);
                }
                self.redact_length = RedactionLength::Fixed(n);
            },
            Modifier::WithChar(c) => {
                self.redact_style = RedactionStyle::Char(c);
            },
            Modifier::WithStr(s) => {
                self.redact_style = RedactionStyle::Str(s);
            },
            _ => {
                return Ok(ParseMeta::Unrecognised);
            },
        }
        Ok(ParseMeta::Consumed)
    }
}

impl FieldFlags {
    /// Flags before any modifier: full redaction with asterisks.
    pub fn new() -> (r: FieldFlags)
        ensures
            r == default_flags(),
    {
        FieldFlags {
            all: false,
            variant: false,
            skip: false,
            display: false,
            redact: RedactFlags {
                redact_length: RedactionLength::Full,
                redact_style: RedactionStyle::Asterisks,
            },
        }
    }

    /// Applies one modifier.
    pub fn try_parse_meta(&mut self, m: Modifier) -> (r: Result<ParseMeta, PolicyErrorKind>)
        ensures
            match step_spec(*old(self), m) {
                Ok(g) => r == Ok::<ParseMeta, PolicyErrorKind>(ParseMeta::Consumed)
                    && *final(self) == g,
                Err(e) => r == Err::<ParseMeta, PolicyErrorKind>(e),
            },
    {
        match self.redact.try_parse_meta(m) {
            Ok(ParseMeta::Consumed) => return Ok(ParseMeta::Consumed),
            Err(e) => return Err(e),
            Ok(ParseMeta::Unrecognised) => {},
        }
        match m {
            Modifier::All => {
                self.all = true;
            },
            Modifier::Variant => {
                self.variant = true;
            },
            Modifier::Skip => {
                self.skip = true;
            },
            _ => {
                self.display = true;
            },
        }
        Ok(ParseMeta::Consumed)
    }

    /// Parses the modifiers of one annotation.
    pub fn parse(mods: &Vec<Modifier>) -> (r: Result<FieldFlags, PolicyErrorKind>)
        ensures
            r == parse_spec(mods@),
            r matches Ok(f) ==> f.redact.wf(),
    {
        proof {
            lemma_parse_wf(mods@);
        }
        let mut flags = FieldFlags::new();
        let mut i: usize = 0;
        while i < mods.len()
            invariant
                i <= mods.len(),
                parse_spec(mods@.take(i as int)) == Ok::<FieldFlags, PolicyErrorKind>(flags),
            decreases mods.len() - i,
        {
            assert(mods@.take(i + 1).drop_last() == mods@.take(i as int));
            match flags.try_parse_meta(mods[i]) {
                Err(e) => {
                    proof {
                        lemma_parse_error_sticks(mods@, i + 1);
                    }
                    return Err(e);
                },
                Ok(_) => {},
            }
            i = i + 1;
        }
        assert(mods@.take(i as int) == mods@);
        Ok(flags)
    }

    /// Checks flags against where they stand: `skip` needs an enclosing
    /// `all` and may come with `variant` alone.
    pub fn validate(&self, options: &FieldFlagsParse) -> (r: Result<(), PolicyErrorKind>)
        ensures
            r == validate_spec(*self, options.skip_allowed),
    {
        if self.skip {
            if !options.skip_allowed {
                return Err(PolicyErrorKind::SkipNotAllowed);
            }
            if self.all || self.display || !matches!(self.redact.redact_length, RedactionLength::Full)
                || !matches!(self.redact.redact_style, RedactionStyle::Asterisks) {
                return Err(PolicyErrorKind::SkipWithModifiers);
            }
        }
        Ok(())
    }

    /// Parses and validates one annotation.
    pub fn extract(mods: &Vec<Modifier>, options: &FieldFlagsParse) -> (r: Result<
        FieldFlags,
        PolicyErrorKind,
    >)
        ensures
            r == checked_spec(mods@, options.skip_allowed),
    {
        let flags = FieldFlags::parse(mods)?;
        flags.validate(options)?;
        Ok(flags)
    }
}

/// Once parsing a prefix fails, parsing any longer prefix fails the same way.
proof fn lemma_parse_error_sticks(mods: Seq<Modifier>, i: int)
    requires
        0 <= i <= mods.len(),
        parse_spec(mods.take(i)) is Err,
    ensures
        parse_spec(mods) == parse_spec(mods.take(i)),
    decreases mods.len() - i,
{
    if i < mods.len() {
        assert(mods.take(i + 1).drop_last() == mods.take(i));
        lemma_parse_error_sticks(mods, i + 1);
    } else {
        assert(mods.take(i) == mods);
    }
}

/// Parsed flags never carry a zero fixed width.
pub proof fn lemma_parse_wf(mods: Seq<Modifier>)
    ensures
        parse_spec(mods) matches Ok(f) ==> f.redact.wf(),
    decreases mods.len(),
{
    if mods.len() > 0 {
        lemma_parse_wf(mods.drop_last());
    }
}

} // verus!
