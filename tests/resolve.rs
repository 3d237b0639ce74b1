use veil::{
    resolve_enum, resolve_struct, EnumSchema, FieldFlags, FieldFlagsParse, FieldSchema,
    FieldsKind, Location, Modifier, ParseMeta, PolicyError, PolicyErrorKind, RedactFlags,
    RedactionLength, RedactionStyle, StructSchema, VariantSchema,
};

fn field(annotations: Vec<Vec<Modifier>>) -> FieldSchema {
    FieldSchema { annotations, is_option: false }
}

fn record(annotations: Vec<Vec<Modifier>>, fields: Vec<FieldSchema>) -> StructSchema {
    StructSchema { annotations, kind: FieldsKind::Named, fields }
}

fn variant(annotations: Vec<Vec<Modifier>>, kind: FieldsKind, fields: Vec<FieldSchema>) -> VariantSchema {
    VariantSchema { annotations, kind, fields }
}

fn err(kind: PolicyErrorKind, location: Location) -> PolicyError {
    PolicyError { kind, location }
}

#[test]
fn parse_sets_length_and_style() {
    let f = FieldFlags::parse(&vec![Modifier::Partial, Modifier::WithChar('X')]).unwrap();
    assert!(matches!(f.redact.redact_length, RedactionLength::Partial));
    assert!(matches!(f.redact.redact_style, RedactionStyle::Char('X')));
    let f = FieldFlags::parse(&vec![Modifier::All, Modifier::Fixed(3), Modifier::WithStr("[X]")]).unwrap();
    assert!(f.all);
    assert!(matches!(f.redact.redact_length, RedactionLength::Fixed(3)));
    assert!(matches!(f.redact.redact_style, RedactionStyle::Str("[X]")));
}

#[test]
fn parse_rejects_incompatible_lengths() {
    assert_eq!(
        FieldFlags::parse(&vec![Modifier::Partial, Modifier::Fixed(3)]).unwrap_err(),
        PolicyErrorKind::LengthClash
    );
    assert_eq!(
        FieldFlags::parse(&vec![Modifier::Fixed(3), Modifier::Partial]).unwrap_err(),
        PolicyErrorKind::LengthClash
    );
    assert_eq!(
        FieldFlags::parse(&vec![Modifier::Partial, Modifier::Partial]).unwrap_err(),
        PolicyErrorKind::LengthClash
    );
}

#[test]
fn parse_rejects_zero_width() {
    assert_eq!(FieldFlags::parse(&vec![Modifier::Fixed(0)]).unwrap_err(), PolicyErrorKind::ZeroWidth);
}

#[test]
fn redact_flags_leave_other_modifiers() {
    let mut f = RedactFlags { redact_length: RedactionLength::Full, redact_style: RedactionStyle::Asterisks };
    assert_eq!(f.try_parse_meta(Modifier::All), Ok(ParseMeta::Unrecognised));
    assert_eq!(f.try_parse_meta(Modifier::Partial), Ok(ParseMeta::Consumed));
    assert!(matches!(f.redact_length, RedactionLength::Partial));
}

#[test]
fn validate_skip_rules() {
    let skip = FieldFlags::parse(&vec![Modifier::Skip]).unwrap();
    assert_eq!(skip.validate(&FieldFlagsParse { skip_allowed: false }), Err(PolicyErrorKind::SkipNotAllowed));
    assert_eq!(skip.validate(&FieldFlagsParse { skip_allowed: true }), Ok(()));
    let skip_partial = FieldFlags::parse(&vec![Modifier::Skip, Modifier::Partial]).unwrap();
    assert_eq!(
        skip_partial.validate(&FieldFlagsParse { skip_allowed: true }),
        Err(PolicyErrorKind::SkipWithModifiers)
    );
    let skip_variant = FieldFlags::parse(&vec![Modifier::Skip, Modifier::Variant]).unwrap();
    assert_eq!(skip_variant.validate(&FieldFlagsParse { skip_allowed: true }), Ok(()));
}

#[test]
fn field_annotation_overrides_all_default() {
    let s = record(
        vec![vec![Modifier::All, Modifier::Partial]],
        vec![field(vec![]), field(vec![vec![Modifier::Fixed(2)]]), field(vec![vec![Modifier::Skip]])],
    );
    let ps = resolve_struct(&s).unwrap();
    assert!(matches!(ps[0].flags.unwrap().redact_length, RedactionLength::Partial));
    assert!(matches!(ps[1].flags.unwrap().redact_length, RedactionLength::Fixed(2)));
    assert!(ps[2].flags.is_none());
}

#[test]
fn unannotated_fields_are_not_redacted() {
    let s = record(vec![], vec![field(vec![]), field(vec![vec![]])]);
    let ps = resolve_struct(&s).unwrap();
    assert!(ps[0].flags.is_none());
    assert!(ps[1].flags.is_some());
}

#[test]
fn option_fields_get_specialization() {
    let s = record(vec![], vec![FieldSchema { annotations: vec![vec![]], is_option: true }]);
    let ps = resolve_struct(&s).unwrap();
    assert!(ps[0].specialization.is_some());
}

#[test]
fn all_skipped_is_unused() {
    let s = record(vec![vec![Modifier::All]], vec![field(vec![vec![Modifier::Skip]])]);
    assert_eq!(resolve_struct(&s).unwrap_err(), err(PolicyErrorKind::Unused, Location::Type));
    let s = record(vec![], vec![field(vec![])]);
    assert_eq!(resolve_struct(&s).unwrap_err(), err(PolicyErrorKind::Unused, Location::Type));
}

#[test]
fn skip_without_all_is_rejected() {
    let s = record(vec![], vec![field(vec![vec![Modifier::Skip]])]);
    assert_eq!(resolve_struct(&s).unwrap_err(), err(PolicyErrorKind::SkipNotAllowed, Location::Field(0)));
    let s = record(vec![vec![Modifier::All]], vec![field(vec![vec![Modifier::Skip, Modifier::Partial]])]);
    assert_eq!(resolve_struct(&s).unwrap_err(), err(PolicyErrorKind::SkipWithModifiers, Location::Field(0)));
}

#[test]
fn misplaced_struct_annotations() {
    let s = record(vec![vec![Modifier::All, Modifier::Variant]], vec![field(vec![])]);
    assert_eq!(resolve_struct(&s).unwrap_err(), err(PolicyErrorKind::VariantOnStruct, Location::Type));
    let s = record(vec![vec![Modifier::Partial]], vec![field(vec![])]);
    assert_eq!(resolve_struct(&s).unwrap_err(), err(PolicyErrorKind::MissingAll, Location::Type));
    let s = record(vec![vec![Modifier::All], vec![Modifier::All]], vec![field(vec![])]);
    assert_eq!(resolve_struct(&s).unwrap_err(), err(PolicyErrorKind::TooManyAnnotations, Location::Type));
    let s = record(vec![], vec![field(vec![]), field(vec![vec![Modifier::Variant]])]);
    assert_eq!(resolve_struct(&s).unwrap_err(), err(PolicyErrorKind::VariantOnField, Location::Field(1)));
    let s = record(vec![], vec![field(vec![vec![Modifier::All]])]);
    assert_eq!(resolve_struct(&s).unwrap_err(), err(PolicyErrorKind::AllOnField, Location::Field(0)));
    let s = record(vec![], vec![field(vec![vec![], vec![]])]);
    assert_eq!(resolve_struct(&s).unwrap_err(), err(PolicyErrorKind::TooManyAnnotations, Location::Field(0)));
    let s = StructSchema { annotations: vec![], kind: FieldsKind::Unit, fields: vec![] };
    assert_eq!(resolve_struct(&s).unwrap_err(), err(PolicyErrorKind::UnitStruct, Location::Type));
}

#[test]
fn enum_all_variant_default_and_skip() {
    let e = EnumSchema {
        annotations: vec![vec![Modifier::All, Modifier::Variant, Modifier::Partial]],
        variants: vec![
            variant(vec![], FieldsKind::Unit, vec![]),
            variant(vec![vec![Modifier::Variant, Modifier::Skip]], FieldsKind::Unit, vec![]),
            variant(vec![vec![Modifier::Variant, Modifier::WithChar('#')]], FieldsKind::Unit, vec![]),
        ],
    };
    let vps = resolve_enum(&e).unwrap();
    assert!(matches!(vps[0].name.unwrap().redact_length, RedactionLength::Partial));
    assert!(vps[1].name.is_none());
    assert!(matches!(vps[2].name.unwrap().redact_style, RedactionStyle::Char('#')));
}

#[test]
fn enum_variant_annotations() {
    let e = EnumSchema {
        annotations: vec![],
        variants: vec![variant(
            vec![vec![Modifier::All, Modifier::WithChar('X')], vec![Modifier::Variant, Modifier::Partial]],
            FieldsKind::Named,
            vec![field(vec![]), field(vec![vec![Modifier::Skip]])],
        )],
    };
    let vps = resolve_enum(&e).unwrap();
    assert!(matches!(vps[0].name.unwrap().redact_length, RedactionLength::Partial));
    assert!(matches!(vps[0].fields[0].flags.unwrap().redact_style, RedactionStyle::Char('X')));
    assert!(vps[0].fields[1].flags.is_none());
}

#[test]
fn enum_errors() {
    let unit = |annotations: Vec<Vec<Modifier>>| EnumSchema {
        annotations: vec![],
        variants: vec![variant(annotations, FieldsKind::Unit, vec![])],
    };
    assert_eq!(
        resolve_enum(&unit(vec![vec![Modifier::Variant, Modifier::Display]])).unwrap_err(),
        err(PolicyErrorKind::DisplayOnVariantName, Location::Variant(0))
    );
    assert_eq!(
        resolve_enum(&unit(vec![vec![Modifier::Display]])).unwrap_err(),
        err(PolicyErrorKind::NeedsAllOrVariant, Location::Variant(0))
    );
    assert_eq!(
        resolve_enum(&unit(vec![vec![Modifier::All, Modifier::Variant]])).unwrap_err(),
        err(PolicyErrorKind::AllVariantOnVariant, Location::Variant(0))
    );
    assert_eq!(
        resolve_enum(&unit(vec![vec![Modifier::Variant], vec![Modifier::Variant]])).unwrap_err(),
        err(PolicyErrorKind::DuplicateVariant, Location::Variant(0))
    );
    assert_eq!(
        resolve_enum(&unit(vec![vec![Modifier::All], vec![Modifier::All]])).unwrap_err(),
        err(PolicyErrorKind::DuplicateAll, Location::Variant(0))
    );
    assert_eq!(
        resolve_enum(&unit(vec![vec![Modifier::All]])).unwrap_err(),
        err(PolicyErrorKind::UnitVariantFields, Location::Variant(0))
    );
    assert_eq!(
        resolve_enum(&unit(vec![vec![Modifier::Variant], vec![Modifier::All], vec![]])).unwrap_err(),
        err(PolicyErrorKind::TooManyAnnotations, Location::Variant(0))
    );
    assert_eq!(
        resolve_enum(&unit(vec![vec![Modifier::Variant, Modifier::Skip]])).unwrap_err(),
        err(PolicyErrorKind::SkipNotAllowed, Location::Variant(0))
    );
    let top = |annotations: Vec<Vec<Modifier>>| EnumSchema {
        annotations,
        variants: vec![variant(vec![], FieldsKind::Unit, vec![])],
    };
    assert_eq!(
        resolve_enum(&top(vec![vec![Modifier::All]])).unwrap_err(),
        err(PolicyErrorKind::MissingAllVariant, Location::Type)
    );
    assert_eq!(
        resolve_enum(&top(vec![vec![Modifier::All, Modifier::Variant, Modifier::Display]])).unwrap_err(),
        err(PolicyErrorKind::DisplayOnVariantName, Location::Type)
    );
    let fields = EnumSchema {
        annotations: vec![],
        variants: vec![
            variant(vec![vec![Modifier::Variant]], FieldsKind::Unit, vec![]),
            variant(vec![], FieldsKind::Named, vec![field(vec![]), field(vec![vec![Modifier::Partial, Modifier::Fixed(3)]])]),
        ],
    };
    assert_eq!(
        resolve_enum(&fields).unwrap_err(),
        err(PolicyErrorKind::LengthClash, Location::VariantField(1, 1))
    );
}

#[test]
fn enum_with_nothing_redacted_is_unused() {
    let e = EnumSchema {
        annotations: vec![vec![Modifier::All, Modifier::Variant]],
        variants: vec![variant(
            vec![vec![Modifier::Skip, Modifier::Variant], vec![Modifier::All]],
            FieldsKind::Named,
            vec![field(vec![vec![Modifier::Skip]])],
        )],
    };
    assert_eq!(resolve_enum(&e).unwrap_err(), err(PolicyErrorKind::Unused, Location::Type));
}
