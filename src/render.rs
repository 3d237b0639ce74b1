//! Assembly of a whole value's output from its fields' renderings and
//! resolved policies.
use vstd::prelude::*;
use vstd::string::StringExecFns;
use crate::flags::RedactFlags;
use crate::formatter::{render_spec, RedactionFormatter, RedactionTarget};
use crate::resolve::{FieldPolicy, FieldsKind};
use crate::text::push_char;
use crate::toggle::RedactionBehavior;

verus! {

/// One field of a value: its name (empty for a positional field), its
/// renderings, and its resolved policy.
pub struct FieldValue {
    pub name: String,
    /// The field's debug rendering, shown for unredacted fields.
    pub debug: String,
    /// The field's display rendering, redacted where the policy asks for it.
    pub display: String,
    pub policy: FieldPolicy,
}

/// What a field contributes to the output.
pub open spec fn field_text(f: FieldValue, behavior: RedactionBehavior) -> Seq<char> {
    match f.policy.flags {
        None => f.debug@,
        Some(flags) => render_spec(
            if f.policy.display {
                f.display@
            } else {
                f.debug@
            },
            flags,
            f.policy.specialization,
            behavior,
        ),
    }
}

/// One entry of the field list: `name: text` for named fields, `text` for
/// positional ones.
pub open spec fn entry_text(f: FieldValue, named: bool, behavior: RedactionBehavior) -> Seq<char> {
    if named {
        f.name@ + seq![':', ' '] + field_text(f, behavior)
    } else {
        field_text(f, behavior)
    }
}

/// The first `n` entries, separated by `, `.
pub open spec fn entries_text(
    fs: Seq<FieldValue>,
    n: nat,
    named: bool,
    behavior: RedactionBehavior,
) -> Seq<char>
    decreases n,
{
    if n == 0 {
        Seq::empty()
    } else if n == 1 {
        entry_text(fs[0], named, behavior)
    } else {
        entries_text(fs, (n - 1) as nat, named, behavior) + seq![',', ' '] + entry_text(
            fs[n - 1],
            named,
            behavior,
        )
    }
}

/// The output of a value named `name`: `name { a: .., b: .. }` for named
/// fields, `name(.., ..)` for positional ones, `name` alone without fields.
pub open spec fn value_text(
    name: Seq<char>,
    kind: FieldsKind,
    fs: Seq<FieldValue>,
    behavior: RedactionBehavior,
) -> Seq<char> {
    if kind is Unit || fs.len() == 0 {
        name
    } else if kind is Named {
        name + seq![' ', '{', ' '] + entries_text(fs, fs.len(), true, behavior) + seq![' ', '}']
    } else {
        name + seq!['('] + entries_text(fs, fs.len(), false, behavior) + seq![')']
    }
}

/// The name of a variant as shown: redacted under its policy, if any.
pub open spec fn variant_name_text(
    name: Seq<char>,
    policy: Option<RedactFlags>,
    behavior: RedactionBehavior,
) -> Seq<char> {
    match policy {
        Some(flags) => render_spec(name, flags, None, behavior),
        None => name,
    }
}

/// What one field contributes to the output.
pub fn format_field(f: &FieldValue, behavior: RedactionBehavior) -> (r: String)
    ensures
        r@ == field_text(*f, behavior),
{
    match f.policy.flags {
        None => String::from_str(f.debug.as_str()),
        Some(flags) => {
            let this = if f.policy.display {
                RedactionTarget::Display(String::from_str(f.display.as_str()))
            } else {
                RedactionTarget::Debug(String::from_str(f.debug.as_str()))
            };
            let formatter = RedactionFormatter {
                this,
                flags,
                specialization: f.policy.specialization,
            };
            formatter.format(behavior)
        },
    }
}

/// The output of a struct, or of a variant whose name is already rendered.
pub fn format_value(
    name: &str,
    kind: FieldsKind,
    fields: &Vec<FieldValue>,
    behavior: RedactionBehavior,
) -> (r: String)
    ensures
        r@ == value_text(name@, kind, fields@, behavior),
{
    let mut out = String::from_str(name);
    if matches!(kind, FieldsKind::Unit) || fields.len() == 0 {
        return out;
    }
    let named = matches!(kind, FieldsKind::Named);
    if named {
        push_char(&mut out, ' ');
        push_char(&mut out, '{');
        push_char(&mut out, ' ');
    } else {
        push_char(&mut out, '(');
    }
    let ghost opened = out@;
    let mut i: usize = 0;
    while i < fields.len()
        invariant
            i <= fields.len(),
            fields.len() > 0,
            out@ == opened + entries_text(fields@, i as nat, named, behavior),
        decreases fields.len() - i,
    {
        let ghost before = out@;
        if i > 0 {
            push_char(&mut out, ',');
            push_char(&mut out, ' ');
        }
        if named {
            out.append(fields[i].name.as_str());
            push_char(&mut out, ':');
            push_char(&mut out, ' ');
        }
        let text = format_field(&fields[i], behavior);
        out.append(text.as_str());
        proof {
            let e = entry_text(fields@[i as int], named, behavior);
            if i == 0 {
                assert(entries_text(fields@, 1, named, behavior) == e);
                assert(out@ =~= opened + e);
            } else {
                assert(out@ =~= before + seq![',', ' '] + e);
            }
        }
        i = i + 1;
    }
    if named {
        push_char(&mut out, ' ');
        push_char(&mut out, '}');
    } else {
        push_char(&mut out, ')');
    }
    assert(out@ =~= value_text(name@, kind, fields@, behavior));
    out
}

/// The output of an enum value: the variant's name, redacted under its
/// policy, followed by its fields.
pub fn format_variant(
    name: &str,
    name_policy: Option<RedactFlags>,
    kind: FieldsKind,
    fields: &Vec<FieldValue>,
    behavior: RedactionBehavior,
) -> (r: String)
    ensures
        r@ == value_text(variant_name_text(name@, name_policy, behavior), kind, fields@, behavior),
{
    let shown = match name_policy {
        Some(flags) => {
            let formatter = RedactionFormatter {
                this: RedactionTarget::Display(String::from_str(name)),
                flags,
                specialization: None,
            };
            formatter.format(behavior)
        },
        None => String::from_str(name),
    };
    format_value(shown.as_str(), kind, fields, behavior)
}

} // verus!
