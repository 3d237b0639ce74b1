//! Properties of the engine and of resolution that relate several inputs
//! or calls.
use vstd::prelude::*;
use crate::engine::{
    fixed_spec, full_spec, full_styled, is_some_shape, none_text, partial_spec, redact_spec,
    some_inner, some_open, marks_for, MIN_PARTIAL_CHARS,
};
use crate::flags::{RedactFlags, RedactionLength, RedactionStyle, RedactSpecialization};
use crate::annotation::{
    checked_spec, default_flags, lemma_parse_wf, parse_spec, FieldFlags, Modifier, PolicyErrorKind,
};
use crate::resolve::{
    annots, any_redacted, enum_top_spec, field_spec, fields_spec, resolve_enum_spec,
    resolve_struct_spec, struct_top_spec, variant_annots_spec, variant_spec, variants_spec,
    EnumSchema, FieldPolicy, FieldSchema, Location, PolicyError, StructSchema,
    VariantSchema,
};
use crate::text::{alnum_count, alphanumeric, classes_of};

verus! {

/// A fixed-width policy with asterisks emits `n` asterisks, whatever the text.
pub proof fn lemma_fixed_ignores_text(
    s: Seq<char>,
    n: u8,
    specialization: Option<RedactSpecialization>,
)
    ensures
        redact_spec(
            s,
            (RedactFlags {
                redact_length: RedactionLength::Fixed(n),
                redact_style: RedactionStyle::Asterisks,
            }),
            specialization,
        ) == fixed_spec(n as nat, '*'),
{
}

/// On a text with fewer than five alphanumeric characters, partial
/// redaction is full redaction (without specialization).
pub proof fn lemma_short_partial_is_full(s: Seq<char>, style: RedactionStyle)
    requires
        alnum_count(s) < MIN_PARTIAL_CHARS as nat,
    ensures
        redact_spec(
            s,
            (RedactFlags { redact_length: RedactionLength::Partial, redact_style: style }),
            None,
        ) == redact_spec(
            s,
            (RedactFlags { redact_length: RedactionLength::Full, redact_style: style }),
            None,
        ),
{
    assert(marks_for(s, classes_of(s)) =~= classes_of(s));
}

proof fn lemma_full_spec_idempotent(s: Seq<char>, fill: char)
    ensures
        full_spec(full_spec(s, fill), fill) == full_spec(s, fill),
{
    assert(full_spec(full_spec(s, fill), fill) =~= full_spec(s, fill));
}

/// Full redaction without specialization is a fixed point: redacting its
/// output again under the same full policy changes nothing.
pub proof fn lemma_full_idempotent(s: Seq<char>, style: RedactionStyle)
    ensures
        ({
            let flags = RedactFlags { redact_length: RedactionLength::Full, redact_style: style };
            redact_spec(redact_spec(s, flags, None), flags, None) == redact_spec(s, flags, None)
        }),
{
    lemma_full_styled_idempotent(s, style);
}

proof fn lemma_full_styled_idempotent(s: Seq<char>, style: RedactionStyle)
    ensures
        full_styled(full_styled(s, style), style) == full_styled(s, style),
{
    match style {
        RedactionStyle::Asterisks => lemma_full_spec_idempotent(s, '*'),
        RedactionStyle::Char(c) => lemma_full_spec_idempotent(s, c),
        RedactionStyle::Str(t) => {},
    }
}

/// For the rendering of an optional value, `None` or `Some(...)`, full
/// redaction with the optional specialization is a fixed point.
pub proof fn lemma_full_idempotent_option(s: Seq<char>, style: RedactionStyle)
    requires
        s == none_text() || is_some_shape(s),
    ensures
        ({
            let flags = RedactFlags { redact_length: RedactionLength::Full, redact_style: style };
            let sp = Some(RedactSpecialization::Option);
            redact_spec(redact_spec(s, flags, sp), flags, sp) == redact_spec(s, flags, sp)
        }),
{
    if s != none_text() {
        let m = full_styled(some_inner(s), style);
        let out = some_open() + m + seq![')'];
        assert(out.take(5) =~= some_open());
        assert(some_inner(out) =~= m);
        assert(out.len() != none_text().len());
        lemma_full_styled_idempotent(some_inner(s), style);
    }
}

/// Partial redaction with a fill character keeps the length of the text and
/// every character that is not alphanumeric, in its place.
pub proof fn lemma_partial_keeps_punctuation(s: Seq<char>, fill: char)
    ensures
        partial_spec(s, fill).len() == s.len(),
        forall|i: int|
            0 <= i < s.len() && !alphanumeric(s[i]) ==> #[trigger] partial_spec(s, fill)[i]
                == s[i],
{
}

/// Whether a field carries exactly one annotation, `skip`.
pub open spec fn only_skip(f: FieldSchema) -> bool {
    annots(f.annotations) == seq![seq![Modifier::Skip]]
}

proof fn lemma_skipped_fields(fs: Seq<FieldSchema>, g: FieldFlags)
    requires
        forall|i: int| 0 <= i < fs.len() ==> only_skip(#[trigger] fs[i]),
    ensures
        fields_spec(fs, Some(g)) matches Ok(ps) && ps.len() == fs.len() && !any_redacted(ps),
    decreases fs.len(),
{
    assert(seq![Modifier::Skip].drop_last() =~= Seq::<Modifier>::empty());
    if fs.len() > 0 {
        let init = fs.drop_last();
        assert forall|i: int| 0 <= i < init.len() implies only_skip(#[trigger] init[i]) by {
            assert(init[i] == fs[i]);
        }
        lemma_skipped_fields(init, g);
        assert(only_skip(fs[fs.len() - 1]));
        let skip = seq![Modifier::Skip];
        assert(parse_spec(Seq::<Modifier>::empty()) == Ok::<FieldFlags, PolicyErrorKind>(default_flags()));
        assert(parse_spec(skip) == Ok::<FieldFlags, PolicyErrorKind>(
            FieldFlags { skip: true, ..default_flags() },
        ));
        assert(annots(fs.last().annotations)[0] == skip);
        assert(field_spec(fs.last(), Some(g)) is Ok);
        assert(field_spec(fs.last(), Some(g))->Ok_0.flags is None);
        let ps = fields_spec(init, Some(g))->Ok_0;
        let all = fields_spec(fs, Some(g))->Ok_0;
        assert forall|i: int| 0 <= i < all.len() implies (#[trigger] all[i]).flags is None by {
            if i < ps.len() {
                assert(all[i] == ps[i]);
                if ps[i].flags is Some {
                    assert(any_redacted(ps));
                }
            }
        }
    }
}

/// A struct with an `all` default whose every field is exempted by `skip`
/// redacts nothing, and its resolution fails as unused.
pub proof fn lemma_all_skipped_is_unused(s: StructSchema)
    requires
        struct_top_spec(annots(s.annotations)) is Ok,
        struct_top_spec(annots(s.annotations))->Ok_0 is Some,
        !(s.kind is Unit),
        forall|i: int| 0 <= i < s.fields@.len() ==> only_skip(#[trigger] s.fields@[i]),
    ensures
        resolve_struct_spec(s) == Err::<Seq<FieldPolicy>, PolicyError>(
            PolicyError { kind: PolicyErrorKind::Unused, location: Location::Type },
        ),
{
    let g = struct_top_spec(annots(s.annotations))->Ok_0->Some_0;
    lemma_skipped_fields(s.fields@, g);
}

/// Whether every redacting policy in `ps` is well formed.
pub open spec fn policies_wf(ps: Seq<FieldPolicy>) -> bool {
    forall|i: int| 0 <= i < ps.len() ==> ((#[trigger] ps[i]).flags matches Some(f) ==> f.wf())
}

proof fn lemma_checked_wf(mods: Seq<Modifier>, skip_allowed: bool)
    ensures
        checked_spec(mods, skip_allowed) matches Ok(f) ==> f.redact.wf(),
{
    lemma_parse_wf(mods);
}

proof fn lemma_fields_wf(fs: Seq<FieldSchema>, inherited: Option<FieldFlags>)
    requires
        inherited matches Some(g) ==> g.redact.wf(),
    ensures
        fields_spec(fs, inherited) matches Ok(ps) ==> policies_wf(ps),
    decreases fs.len(),
{
    if fs.len() > 0 {
        lemma_fields_wf(fs.drop_last(), inherited);
        let a = annots(fs.last().annotations);
        if a.len() == 1 {
            lemma_checked_wf(a[0], inherited is Some);
        }
        if fields_spec(fs, inherited) is Ok {
            let ps = fields_spec(fs.drop_last(), inherited)->Ok_0;
            let all = fields_spec(fs, inherited)->Ok_0;
            assert forall|i: int| 0 <= i < all.len() implies ((#[trigger] all[i]).flags matches Some(
                f,
            ) ==> f.wf()) by {
                if i < ps.len() {
                    assert(all[i] == ps[i]);
                }
            }
        }
    }
}

/// Every policy a struct resolves to is well formed: a fixed width is never
/// zero.
pub proof fn lemma_struct_policies_wf(s: StructSchema)
    ensures
        resolve_struct_spec(s) matches Ok(ps) ==> policies_wf(ps),
{
    let a = annots(s.annotations);
    if a.len() == 1 {
        lemma_checked_wf(a[0], false);
    }
    if struct_top_spec(a) is Ok {
        lemma_fields_wf(s.fields@, struct_top_spec(a)->Ok_0);
    }
}

proof fn lemma_variant_wf(v: VariantSchema, top: Option<FieldFlags>)
    requires
        top matches Some(g) ==> g.redact.wf(),
    ensures
        variant_spec(v, top) matches Ok(p) ==> (policies_wf(p.1) && (p.0 matches Some(f) ==> f.wf())),
{
    let a = annots(v.annotations);
    let sa = top is Some;
    if a.len() >= 1 {
        lemma_checked_wf(a[0], sa);
    }
    if a.len() >= 2 {
        lemma_checked_wf(a[1], sa);
    }
    if variant_annots_spec(a, sa) is Ok {
        lemma_fields_wf(v.fields@, variant_annots_spec(a, sa)->Ok_0.1);
    }
}

/// Whether every policy of every variant in `vps` is well formed.
pub open spec fn variants_wf(vps: Seq<(Option<RedactFlags>, Seq<FieldPolicy>)>) -> bool {
    forall|j: int|
        0 <= j < vps.len() ==> (policies_wf((#[trigger] vps[j]).1) && (vps[j].0 matches Some(f)
            ==> f.wf()))
}

proof fn lemma_variants_wf(vs: Seq<VariantSchema>, top: Option<FieldFlags>)
    requires
        top matches Some(g) ==> g.redact.wf(),
    ensures
        variants_spec(vs, top) matches Ok(vps) ==> variants_wf(vps),
    decreases vs.len(),
{
    if vs.len() > 0 {
        lemma_variants_wf(vs.drop_last(), top);
        lemma_variant_wf(vs.last(), top);
        if variants_spec(vs, top) is Ok {
            let ps = variants_spec(vs.drop_last(), top)->Ok_0;
            let all = variants_spec(vs, top)->Ok_0;
            assert forall|j: int| 0 <= j < all.len() implies (policies_wf((#[trigger] all[j]).1)
                && (all[j].0 matches Some(f) ==> f.wf())) by {
                if j < ps.len() {
                    assert(all[j] == ps[j]);
                }
            }
        }
    }
}

/// Every policy an enum resolves to, of a variant name or of a field, is
/// well formed: a fixed width is never zero.
pub proof fn lemma_enum_policies_wf(e: EnumSchema)
    ensures
        resolve_enum_spec(e) matches Ok(vps) ==> variants_wf(vps),
{
    let a = annots(e.annotations);
    if a.len() == 1 {
        lemma_checked_wf(a[0], false);
    }
    if enum_top_spec(a) is Ok {
        lemma_variants_wf(e.variants@, enum_top_spec(a)->Ok_0);
    }
}

} // verus!
