//! Resolution of a type's annotations into the policy of each field and
//! variant name. Resolution fails as a whole on the first violation found.
use vstd::prelude::*;
use crate::annotation::{checked_spec, FieldFlags, FieldFlagsParse, Modifier, PolicyErrorKind};
use crate::flags::{RedactFlags, RedactSpecialization};

verus! {

/// One field of a struct or variant, as declared.
pub struct FieldSchema {
    /// The field's annotations, each a list of modifiers.
    pub annotations: Vec<Vec<Modifier>>,
    /// Whether the field's declared type is an optional value.
    pub is_option: bool,
}

/// How a struct or variant holds its fields.
#[derive(Clone, Copy, Debug, PartialEq, Eq, Structural)]
pub enum FieldsKind {
    /// Named fields, rendered `Name { a: .., b: .. }`.
    Named,
    /// Positional fields, rendered `Name(.., ..)`.
    Unnamed,
    /// No fields.
    Unit,
}

/// A struct, as declared.
pub struct StructSchema {
    /// The struct's own annotations.
    pub annotations: Vec<Vec<Modifier>>,
    pub kind: FieldsKind,
    pub fields: Vec<FieldSchema>,
}

/// An enum variant, as declared.
pub struct VariantSchema {
    /// The variant's annotations.
    pub annotations: Vec<Vec<Modifier>>,
    pub kind: FieldsKind,
    pub fields: Vec<FieldSchema>,
}

/// An enum, as declared.
pub struct EnumSchema {
    /// The enum's own annotations.
    pub annotations: Vec<Vec<Modifier>>,
    pub variants: Vec<VariantSchema>,
}

/// The resolved policy of one field.
#[derive(Clone, Copy, Debug)]
pub struct FieldPolicy {
    /// The policy, or `None` for a field shown unredacted.
    pub flags: Option<RedactFlags>,
    /// Whether the display rendering is redacted instead of the debug one.
    pub display: bool,
    /// The specialization the engine applies.
    pub specialization: Option<RedactSpecialization>,
}

/// The resolved policies of one variant.
#[derive(Debug)]
pub struct VariantPolicy {
    /// The policy of the variant's name, or `None` for a name shown as is.
    pub name: Option<RedactFlags>,
    /// The policies of its fields.
    pub fields: Vec<FieldPolicy>,
}

/// Where a violation was found.
#[derive(Clone, Copy, Debug, PartialEq, Eq, Structural)]
pub enum Location {
    /// The type's own annotations, or the type as a whole.
    Type,
    /// A field of a struct, by position.
    Field(usize),
    /// A variant of an enum, by position.
    Variant(usize),
    /// A field of a variant, by positions.
    VariantField(usize, usize),
}

/// A violation and where it was found.
#[derive(Clone, Copy, Debug, PartialEq, Eq, Structural)]
pub struct PolicyError {
    pub kind: PolicyErrorKind,
    pub location: Location,
}

/// The annotations as sequences of modifiers.
pub open spec fn annots(v: Vec<Vec<Modifier>>) -> Seq<Seq<Modifier>> {
    v@.map_values(|a: Vec<Modifier>| a@)
}

/// The policy of a field whose flags resolved to `f`.
pub open spec fn policy_of(f: Option<FieldFlags>, is_option: bool) -> FieldPolicy {
    match f {
        Some(g) => if g.skip {
            FieldPolicy { flags: None, display: false, specialization: None }
        } else {
            FieldPolicy {
                flags: Some(g.redact),
                display: g.display,
                specialization: if is_option {
                    Some(RedactSpecialization::Option)
                } else {
                    None
                },
            }
        },
        None => FieldPolicy { flags: None, display: false, specialization: None },
    }
}

/// A field's own annotation wins over the inherited `all` default; without
/// either, the field is not redacted.
pub open spec fn field_spec(f: FieldSchema, inherited: Option<FieldFlags>) -> Result<
    FieldPolicy,
    PolicyErrorKind,
> {
    let a = annots(f.annotations);
    if a.len() > 1 {
        Err(PolicyErrorKind::TooManyAnnotations)
    } else if a.len() == 0 {
        Ok(policy_of(inherited, f.is_option))
    } else {
        match checked_spec(a[0], inherited is Some) {
            Err(e) => Err(e),
            Ok(g) => if g.variant {
                Err(PolicyErrorKind::VariantOnField)
            } else if g.all {
                Err(PolicyErrorKind::AllOnField)
            } else {
                Ok(policy_of(Some(g), f.is_option))
            },
        }
    }
}

/// The policies of a list of fields, or the first violation and its position.
pub open spec fn fields_spec(fs: Seq<FieldSchema>, inherited: Option<FieldFlags>) -> Result<
    Seq<FieldPolicy>,
    (int, PolicyErrorKind),
>
    decreases fs.len(),
{
    if fs.len() == 0 {
        Ok(Seq::empty())
    } else {
        match fields_spec(fs.drop_last(), inherited) {
            Err(e) => Err(e),
            Ok(ps) => match field_spec(fs.last(), inherited) {
                Err(k) => Err((fs.len() - 1, k)),
                Ok(p) => Ok(ps.push(p)),
            },
        }
    }
}

/// Whether any field policy redacts.
pub open spec fn any_redacted(ps: Seq<FieldPolicy>) -> bool {
    exists|i: int| 0 <= i < ps.len() && (#[trigger] ps[i]).flags is Some
}

/// A struct's own annotation: at most one, with `all` and without `variant`.
pub open spec fn struct_top_spec(a: Seq<Seq<Modifier>>) -> Result<
    Option<FieldFlags>,
    PolicyErrorKind,
> {
    if a.len() > 1 {
        Err(PolicyErrorKind::TooManyAnnotations)
    } else if a.len() == 0 {
        Ok(None)
    } else {
        match checked_spec(a[0], false) {
            Err(e) => Err(e),
            Ok(g) => if g.variant {
                Err(PolicyErrorKind::VariantOnStruct)
            } else if !g.all {
                Err(PolicyErrorKind::MissingAll)
            } else {
                Ok(Some(g))
            },
        }
    }
}

/// The resolution of a struct.
pub open spec fn resolve_struct_spec(s: StructSchema) -> Result<Seq<FieldPolicy>, PolicyError> {
    match struct_top_spec(annots(s.annotations)) {
        Err(k) => Err(PolicyError { kind: k, location: Location::Type }),
        Ok(top) => if s.kind is Unit {
            Err(PolicyError { kind: PolicyErrorKind::UnitStruct, location: Location::Type })
        } else {
            match fields_spec(s.fields@, top) {
                Err((i, k)) => Err(PolicyError { kind: k, location: Location::Field(i as usize) }),
                Ok(ps) => if any_redacted(ps) {
                    Ok(ps)
                } else {
                    Err(PolicyError { kind: PolicyErrorKind::Unused, location: Location::Type })
                },
            }
        },
    }
}

proof fn lemma_fields_error_sticks(fs: Seq<FieldSchema>, inherited: Option<FieldFlags>, i: int)
    requires
        0 <= i <= fs.len(),
        fields_spec(fs.take(i), inherited) is Err,
    ensures
        fields_spec(fs, inherited) == fields_spec(fs.take(i), inherited),
    decreases fs.len() - i,
{
    if i < fs.len() {
        assert(fs.take(i + 1).drop_last() == fs.take(i));
        lemma_fields_error_sticks(fs, inherited, i + 1);
    } else {
        assert(fs.take(i) == fs);
    }
}

/// Resolves one field.
fn resolve_field(f: &FieldSchema, inherited: Option<FieldFlags>) -> (r: Result<
    FieldPolicy,
    PolicyErrorKind,
>)
    ensures
        r == field_spec(*f, inherited),
{
    let n = f.annotations.len();
    if n > 1 {
        return Err(PolicyErrorKind::TooManyAnnotations);
    }
    let resolved = if n == 0 {
        inherited
    } else {
        let options = FieldFlagsParse { skip_allowed: inherited.is_some() };
        let g = FieldFlags::extract(&f.annotations[0], &options)?;
        if g.variant {
            return Err(PolicyErrorKind::VariantOnField);
        }
        if g.all {
            return Err(PolicyErrorKind::AllOnField);
        }
        Some(g)
    };
    Ok(policy(resolved, f.is_option))
}

fn policy(f: Option<FieldFlags>, is_option: bool) -> (r: FieldPolicy)
    ensures
        r == policy_of(f, is_option),
{
    match f {
        Some(g) => if g.skip {
            FieldPolicy { flags: None, display: false, specialization: None }
        } else {
            FieldPolicy {
                flags: Some(g.redact),
                display: g.display,
                specialization: if is_option {
                    Some(RedactSpecialization::Option)
                } else {
                    None
                },
            }
        },
        None => FieldPolicy { flags: None, display: false, specialization: None },
    }
}

/// Resolves a list of fields under the inherited default.
fn resolve_fields(fields: &Vec<FieldSchema>, inherited: Option<FieldFlags>) -> (r: Result<
    Vec<FieldPolicy>,
    (usize, PolicyErrorKind),
>)
    ensures
        match fields_spec(fields@, inherited) {
            Ok(ps) => r matches Ok(v) && v@ == ps,
            Err((i, k)) => r matches Err((j, k2)) && j == i && k2 == k,
        },
{
    let mut out: Vec<FieldPolicy> = Vec::new();
    let mut i: usize = 0;
    while i < fields.len()
        invariant
            i <= fields.len(),
            fields_spec(fields@.take(i as int), inherited) == Ok::<
                Seq<FieldPolicy>,
                (int, PolicyErrorKind),
            >(out@),
        decreases fields.len() - i,
    {
        assert(fields@.take(i + 1).drop_last() == fields@.take(i as int));
        match resolve_field(&fields[i], inherited) {
            Err(k) => {
                proof {
                    lemma_fields_error_sticks(fields@, inherited, i + 1);
                }
                return Err((i, k));
            },
            Ok(p) => {
                out.push(p);
            },
        }
        i = i + 1;
    }
    assert(fields@.take(i as int) == fields@);
    Ok(out)
}

/// Whether any of the policies redacts.
fn has_redacted(ps: &Vec<FieldPolicy>) -> (r: bool)
    ensures
        r == any_redacted(ps@),
{
    let mut i: usize = 0;
    while i < ps.len()
        invariant
            i <= ps.len(),
            forall|j: int| 0 <= j < i ==> ps@[j].flags is None,
        decreases ps.len() - i,
    {
        if ps[i].flags.is_some() {
            return true;
        }
        i = i + 1;
    }
    false
}

/// Resolves a struct's own annotation.
fn resolve_struct_top(a: &Vec<Vec<Modifier>>) -> (r: Result<Option<FieldFlags>, PolicyErrorKind>)
    ensures
        r == struct_top_spec(annots(*a)),
{
    if a.len() > 1 {
        return Err(PolicyErrorKind::TooManyAnnotations);
    }
    if a.len() == 0 {
        return Ok(None);
    }
    let g = FieldFlags::extract(&a[0], &FieldFlagsParse { skip_allowed: false })?;
    if g.variant {
        return Err(PolicyErrorKind::VariantOnStruct);
    }
    if !g.all {
        return Err(PolicyErrorKind::MissingAll);
    }
    Ok(Some(g))
}

/// Resolves the policy of every field of a struct. Fails when an annotation
/// is malformed or misplaced, when the struct has no fields, or when nothing
/// ends up redacted.
pub fn resolve_struct(s: &StructSchema) -> (r: Result<Vec<FieldPolicy>, PolicyError>)
    ensures
        match resolve_struct_spec(*s) {
            Ok(ps) => r matches Ok(v) && v@ == ps,
            Err(e) => r == Err::<Vec<FieldPolicy>, PolicyError>(e),
        },
{
    let top = match resolve_struct_top(&s.annotations) {
        Err(k) => {
            return Err(PolicyError { kind: k, location: Location::Type });
        },
        Ok(top) => top,
    };
    if matches!(s.kind, FieldsKind::Unit) {
        return Err(PolicyError { kind: PolicyErrorKind::UnitStruct, location: Location::Type });
    }
    let ps = match resolve_fields(&s.fields, top) {
        Err((i, k)) => {
            return Err(PolicyError { kind: k, location: Location::Field(i) });
        },
        Ok(ps) => ps,
    };
    if !has_redacted(&ps) {
        return Err(PolicyError { kind: PolicyErrorKind::Unused, location: Location::Type });
    }
    Ok(ps)
}


/// The policy of a variant name whose flags resolved to `f`.
pub open spec fn name_policy(f: Option<FieldFlags>) -> Option<RedactFlags> {
    match f {
        Some(g) => if g.skip {
            None
        } else {
            Some(g.redact)
        },
        None => None,
    }
}

/// A variant policy as plain values: the name's policy and the fields'.
pub open spec fn variant_view(v: VariantPolicy) -> (Option<RedactFlags>, Seq<FieldPolicy>) {
    (v.name, v.fields@)
}

/// An enum's own annotation: at most one, with `all` and `variant`, and
/// without `display`.
pub open spec fn enum_top_spec(a: Seq<Seq<Modifier>>) -> Result<
    Option<FieldFlags>,
    PolicyErrorKind,
> {
    if a.len() > 1 {
        Err(PolicyErrorKind::TooManyAnnotations)
    } else if a.len() == 0 {
        Ok(None)
    } else {
        match checked_spec(a[0], false) {
            Err(e) => Err(e),
            Ok(g) => if !(g.all && g.variant) {
                Err(PolicyErrorKind::MissingAllVariant)
            } else if g.display {
                Err(PolicyErrorKind::DisplayOnVariantName)
            } else {
                Ok(Some(g))
            },
        }
    }
}

/// Adds one variant annotation to the name flags and all-fields flags found
/// so far: it must be either a `variant` or an `all` annotation, each at
/// most once.
pub open spec fn classify_spec(
    acc: (Option<FieldFlags>, Option<FieldFlags>),
    mods: Seq<Modifier>,
    skip_allowed: bool,
) -> Result<(Option<FieldFlags>, Option<FieldFlags>), PolicyErrorKind> {
    match checked_spec(mods, skip_allowed) {
        Err(e) => Err(e),
        Ok(g) => if g.all && g.variant {
            Err(PolicyErrorKind::AllVariantOnVariant)
        } else if g.all {
            if acc.1 is Some {
                Err(PolicyErrorKind::DuplicateAll)
            } else {
                Ok((acc.0, Some(g)))
            }
        } else if g.variant {
            if acc.0 is Some {
                Err(PolicyErrorKind::DuplicateVariant)
            } else if g.display {
                Err(PolicyErrorKind::DisplayOnVariantName)
            } else {
                Ok((Some(g), acc.1))
            }
        } else {
            Err(PolicyErrorKind::NeedsAllOrVariant)
        },
    }
}

/// A variant's annotations: at most two, classified in order.
pub open spec fn variant_annots_spec(a: Seq<Seq<Modifier>>, skip_allowed: bool) -> Result<
    (Option<FieldFlags>, Option<FieldFlags>),
    PolicyErrorKind,
> {
    if a.len() > 2 {
        Err(PolicyErrorKind::TooManyAnnotations)
    } else if a.len() == 0 {
        Ok((None, None))
    } else {
        match classify_spec((None, None), a[0], skip_allowed) {
            Err(e) => Err(e),
            Ok(acc) => if a.len() == 1 {
                Ok(acc)
            } else {
                classify_spec(acc, a[1], skip_allowed)
            },
        }
    }
}

/// The resolution of one variant under the enum's own flags `top`: the
/// error comes with the position of the field it concerns, if any.
pub open spec fn variant_spec(v: VariantSchema, top: Option<FieldFlags>) -> Result<
    (Option<RedactFlags>, Seq<FieldPolicy>),
    (Option<int>, PolicyErrorKind),
> {
    match variant_annots_spec(annots(v.annotations), top is Some) {
        Err(k) => Err((None, k)),
        Ok((vn, af)) => {
            let name = if vn is Some {
                vn
            } else {
                top
            };
            if v.kind is Unit {
                if af is Some {
                    Err((None, PolicyErrorKind::UnitVariantFields))
                } else {
                    Ok((name_policy(name), Seq::empty()))
                }
            } else {
                match fields_spec(v.fields@, af) {
                    Err((i, k)) => Err((Some(i), k)),
                    Ok(ps) => Ok((name_policy(name), ps)),
                }
            }
        },
    }
}

/// The location of a violation in variant `j`.
pub open spec fn variant_location(j: int, at: Option<int>) -> Location {
    match at {
        Some(i) => Location::VariantField(j as usize, i as usize),
        None => Location::Variant(j as usize),
    }
}

/// The resolution of a list of variants, or the first violation.
pub open spec fn variants_spec(vs: Seq<VariantSchema>, top: Option<FieldFlags>) -> Result<
    Seq<(Option<RedactFlags>, Seq<FieldPolicy>)>,
    PolicyError,
>
    decreases vs.len(),
{
    if vs.len() == 0 {
        Ok(Seq::empty())
    } else {
        match variants_spec(vs.drop_last(), top) {
            Err(e) => Err(e),
            Ok(ps) => match variant_spec(vs.last(), top) {
                Err((at, k)) => Err(
                    PolicyError { kind: k, location: variant_location(vs.len() - 1, at) },
                ),
                Ok(p) => Ok(ps.push(p)),
            },
        }
    }
}

/// Whether any variant name or variant field is redacted.
pub open spec fn enum_redacts(vps: Seq<(Option<RedactFlags>, Seq<FieldPolicy>)>) -> bool {
    exists|j: int| 0 <= j < vps.len() && ((#[trigger] vps[j]).0 is Some || any_redacted(vps[j].1))
}

/// The resolution of an enum.
pub open spec fn resolve_enum_spec(e: EnumSchema) -> Result<
    Seq<(Option<RedactFlags>, Seq<FieldPolicy>)>,
    PolicyError,
> {
    match enum_top_spec(annots(e.annotations)) {
        Err(k) => Err(PolicyError { kind: k, location: Location::Type }),
        Ok(top) => match variants_spec(e.variants@, top) {
            Err(err) => Err(err),
            Ok(vps) => if enum_redacts(vps) {
                Ok(vps)
            } else {
                Err(PolicyError { kind: PolicyErrorKind::Unused, location: Location::Type })
            },
        },
    }
}

proof fn lemma_variants_error_sticks(vs: Seq<VariantSchema>, top: Option<FieldFlags>, i: int)
    requires
        0 <= i <= vs.len(),
        variants_spec(vs.take(i), top) is Err,
    ensures
        variants_spec(vs, top) == variants_spec(vs.take(i), top),
    decreases vs.len() - i,
{
    if i < vs.len() {
        assert(vs.take(i + 1).drop_last() == vs.take(i));
        lemma_variants_error_sticks(vs, top, i + 1);
    } else {
        assert(vs.take(i) == vs);
    }
}

/// Resolves an enum's own annotation.
fn resolve_enum_top(a: &Vec<Vec<Modifier>>) -> (r: Result<Option<FieldFlags>, PolicyErrorKind>)
    ensures
        r == enum_top_spec(annots(*a)),
{
    if a.len() > 1 {
        return Err(PolicyErrorKind::TooManyAnnotations);
    }
    if a.len() == 0 {
        return Ok(None);
    }
    let g = FieldFlags::extract(&a[0], &FieldFlagsParse { skip_allowed: false })?;
    if !(g.all && g.variant) {
        return Err(PolicyErrorKind::MissingAllVariant);
    }
    if g.display {
        return Err(PolicyErrorKind::DisplayOnVariantName);
    }
    Ok(Some(g))
}

/// Adds one variant annotation to what was found so far.
fn classify(
    acc: (Option<FieldFlags>, Option<FieldFlags>),
    mods: &Vec<Modifier>,
    options: &FieldFlagsParse,
) -> (r: Result<(Option<FieldFlags>, Option<FieldFlags>), PolicyErrorKind>)
    ensures
        r == classify_spec(acc, mods@, options.skip_allowed),
{
    let g = FieldFlags::extract(mods, options)?;
    if g.all && g.variant {
        return Err(PolicyErrorKind::AllVariantOnVariant);
    }
    if g.all {
        if acc.1.is_some() {
            return Err(PolicyErrorKind::DuplicateAll);
        }
        return Ok((acc.0, Some(g)));
    }
    if g.variant {
        if acc.0.is_some() {
            return Err(PolicyErrorKind::DuplicateVariant);
        }
        if g.display {
            return Err(PolicyErrorKind::DisplayOnVariantName);
        }
        return Ok((Some(g), acc.1));
    }
    Err(PolicyErrorKind::NeedsAllOrVariant)
}

/// Resolves a variant's annotations into its name flags and all-fields flags.
fn resolve_variant_annotations(a: &Vec<Vec<Modifier>>, options: &FieldFlagsParse) -> (r: Result<
    (Option<FieldFlags>, Option<FieldFlags>),
    PolicyErrorKind,
>)
    ensures
        r == variant_annots_spec(annots(*a), options.skip_allowed),
{
    if a.len() > 2 {
        return Err(PolicyErrorKind::TooManyAnnotations);
    }
    if a.len() == 0 {
        return Ok((None, None));
    }
    let acc = classify((None, None), &a[0], options)?;
    if a.len() == 1 {
        return Ok(acc);
    }
    classify(acc, &a[1], options)
}

/// Resolves one variant.
fn resolve_variant(v: &VariantSchema, top: Option<FieldFlags>) -> (r: Result<
    VariantPolicy,
    (Option<usize>, PolicyErrorKind),
>)
    ensures
        match variant_spec(*v, top) {
            Ok(p) => r matches Ok(w) && variant_view(w) == p,
            Err((at, k)) => r matches Err((at2, k2)) && k2 == k && (at2 is Some <==> at is Some)
                && (at matches Some(i) ==> at2 == Some(i as usize) && i == at2->0),
        },
{
    let options = FieldFlagsParse { skip_allowed: top.is_some() };
    let (vn, af) = match resolve_variant_annotations(&v.annotations, &options) {
        Err(k) => {
            return Err((None, k));
        },
        Ok(found) => found,
    };
    let name_flags = if vn.is_some() {
        vn
    } else {
        top
    };
    let name = match name_flags {
        Some(g) => if g.skip {
            None
        } else {
            Some(g.redact)
        },
        None => None,
    };
    if matches!(v.kind, FieldsKind::Unit) {
        if af.is_some() {
            return Err((None, PolicyErrorKind::UnitVariantFields));
        }
        let fields: Vec<FieldPolicy> = Vec::new();
        assert(fields@ =~= Seq::<FieldPolicy>::empty());
        return Ok(VariantPolicy { name, fields });
    }
    match resolve_fields(&v.fields, af) {
        Err((i, k)) => Err((Some(i), k)),
        Ok(fields) => Ok(VariantPolicy { name, fields }),
    }
}

/// Resolves the policy of every variant name and variant field of an enum.
/// Fails when an annotation is malformed or misplaced, or when nothing ends
/// up redacted.
pub fn resolve_enum(e: &EnumSchema) -> (r: Result<Vec<VariantPolicy>, PolicyError>)
    ensures
        match resolve_enum_spec(*e) {
            Ok(vps) => r matches Ok(v) && v@.map_values(|p: VariantPolicy| variant_view(p))
                == vps,
            Err(err) => r == Err::<Vec<VariantPolicy>, PolicyError>(err),
        },
{
    let top = match resolve_enum_top(&e.annotations) {
        Err(k) => {
            return Err(PolicyError { kind: k, location: Location::Type });
        },
        Ok(top) => top,
    };
    let mut out: Vec<VariantPolicy> = Vec::new();
    let mut redacts = false;
    let mut j: usize = 0;
    assert(e.variants@.take(0) =~= Seq::<VariantSchema>::empty());
    assert(out@.map_values(|p: VariantPolicy| variant_view(p)) =~= Seq::<
        (Option<RedactFlags>, Seq<FieldPolicy>),
    >::empty());
    while j < e.variants.len()
        invariant
            j <= e.variants.len(),
            enum_top_spec(annots(e.annotations)) == Ok::<Option<FieldFlags>, PolicyErrorKind>(top),
            variants_spec(e.variants@.take(j as int), top) == Ok::<
                Seq<(Option<RedactFlags>, Seq<FieldPolicy>)>,
                PolicyError,
            >(out@.map_values(|p: VariantPolicy| variant_view(p))),
            redacts == enum_redacts(out@.map_values(|p: VariantPolicy| variant_view(p))),
        decreases e.variants.len() - j,
    {
        assert(e.variants@.take(j + 1).drop_last() == e.variants@.take(j as int));
        match resolve_variant(&e.variants[j], top) {
            Err((at, k)) => {
                let location = match at {
                    Some(i) => Location::VariantField(j, i),
                    None => Location::Variant(j),
                };
                proof {
                    let vs = e.variants@.take(j + 1);
                    assert(vs.last() == e.variants@[j as int]);
                    assert(variant_location(vs.len() - 1, variant_spec(vs.last(), top)->Err_0.0)
                        == location);
                    lemma_variants_error_sticks(e.variants@, top, j + 1);

                }
                return Err(PolicyError { kind: k, location });
            },
            Ok(p) => {
                let this_redacts = p.name.is_some() || has_redacted(&p.fields);
                let ghost before = out@.map_values(|p: VariantPolicy| variant_view(p));
                out.push(p);
                proof {
                    let after = out@.map_values(|p: VariantPolicy| variant_view(p));
                    assert(after =~= before.push(variant_view(p)));
                    if enum_redacts(after) && !redacts {
                        let w = choose|w: int|
                            0 <= w < after.len() && ((#[trigger] after[w]).0 is Some
                                || any_redacted(after[w].1));
                        if w < before.len() {
                            assert(before[w] == after[w]);
                        }
                    }
                    if redacts {
                        let w = choose|w: int|
                            0 <= w < before.len() && ((#[trigger] before[w]).0 is Some
                                || any_redacted(before[w].1));
                        assert(after[w] == before[w]);
                    }
                    if this_redacts {
                        assert(after[after.len() - 1] == variant_view(p));
                    }
                }
                redacts = redacts || this_redacts;
            },
        }
        j = j + 1;
    }
    assert(e.variants@.take(j as int) == e.variants@);
    if !redacts {
        return Err(PolicyError { kind: PolicyErrorKind::Unused, location: Location::Type });
    }
    Ok(out)
}
} // verus!
