use isixhosa::language::{
    DiscrimOutOfRange, NounClass, NounClassOpt, NounClassOptExt, NounClassPrefixes, PartOfSpeech,
    SerializeDisplay,
    WordLinkType, NO_NOUN_CLASS,
};

fn all_noun_classes() -> Vec<NounClass> {
    vec![
        NounClass::Class1Um,
        NounClass::Aba,
        NounClass::U,
        NounClass::Oo,
        NounClass::Class3Um,
        NounClass::Imi,
        NounClass::Ili,
        NounClass::Ama,
        NounClass::Isi,
        NounClass::Izi,
        NounClass::In,
        NounClass::Izin,
        NounClass::Ulu,
        NounClass::Ubu,
        NounClass::Uku,
    ]
}

#[test]
fn noun_class_round_trips_for_all_classes() {
    let classes = all_noun_classes();
    assert_eq!(classes.len(), 15);
    for (i, c) in classes.iter().enumerate() {
        assert_eq!(c.to_u8() as usize, i + 1);
        assert_eq!(NounClass::try_from_u8(c.to_u8()), Some(*c));
        let decoded = NounClassOpt::from_discriminant(c.to_u8() as i64).unwrap();
        assert_eq!(decoded.0, Some(*c));
    }
}

#[test]
fn no_class_sentinel_decodes_to_explicit_absent() {
    assert_eq!(NO_NOUN_CLASS, 255);
    let decoded = NounClassOpt::from_discriminant(255).unwrap();
    assert_eq!(decoded.0, None);
}

#[test]
fn noun_class_out_of_range_fails_distinctly() {
    for v in [0i64, 16, 100, 254, 256, -1, i64::MAX] {
        let err = NounClassOpt::from_discriminant(v).unwrap_err();
        assert_eq!(err.value, v);
        assert_eq!(err.for_type, "NounClass");
    }
    assert_eq!(NounClass::try_from_u8(0), None);
    assert_eq!(NounClass::try_from_u8(16), None);
    assert_eq!(NounClass::try_from_u8(255), None);
}

#[test]
fn part_of_speech_round_trips() {
    let all = vec![
        PartOfSpeech::Verb,
        PartOfSpeech::Noun,
        PartOfSpeech::Adjective,
        PartOfSpeech::Adverb,
        PartOfSpeech::Relative,
        PartOfSpeech::Interjection,
        PartOfSpeech::Conjunction,
        PartOfSpeech::Preposition,
        PartOfSpeech::Other,
    ];
    for (i, p) in all.iter().enumerate() {
        assert_eq!(p.to_u8() as usize, i + 1);
        assert_eq!(PartOfSpeech::try_from_u8(p.to_u8()), Some(*p));
        assert_eq!(PartOfSpeech::from_discriminant(p.to_u8() as i64), Ok(*p));
    }
}

#[test]
fn part_of_speech_out_of_range_fails_distinctly() {
    for v in [0i64, 10, 255, -3] {
        let err = PartOfSpeech::from_discriminant(v).unwrap_err();
        assert_eq!(
            err,
            DiscrimOutOfRange { value: v, for_type: "PartOfSpeech" }
        );
    }
}

#[test]
fn noun_class_prefixes_match_the_class() {
    let p = NounClass::Class1Um.to_prefixes();
    assert_eq!(p.singular, "um");
    assert_eq!(p.plural, Some("aba"));

    let p = NounClass::Ili.to_prefixes();
    assert_eq!(p.singular, "i(li)");
    assert_eq!(p.plural, Some("ama"));

    let p = NounClass::Izin.to_prefixes();
    assert_eq!(p.singular, "i(n)");
    assert_eq!(p.plural, Some("i(z)in"));

    for c in [NounClass::Ulu, NounClass::Ubu, NounClass::Uku] {
        let p = c.to_prefixes();
        assert_eq!(p.plural, None);
    }
    assert_eq!(NounClass::Ulu.to_prefixes().singular, "ulu");
    assert_eq!(NounClass::Ubu.to_prefixes().singular, "ubu");
    assert_eq!(NounClass::Uku.to_prefixes().singular, "uku");
}

#[test]
fn noun_class_prefix_constructors() {
    let both = NounClassPrefixes::from_singular_plural("um", "imi");
    assert_eq!(both.singular, "um");
    assert_eq!(both.plural, Some("imi"));

    let single = NounClassPrefixes::singular_class("ubu");
    assert_eq!(single.singular, "ubu");
    assert_eq!(single.plural, None);
}

#[test]
fn word_link_type_labels_and_discriminants() {
    let all = vec![
        WordLinkType::PluralOrSingular,
        WordLinkType::Synonym,
        WordLinkType::Antonym,
        WordLinkType::Related,
        WordLinkType::Confusable,
    ];
    let labels = [
        "Plural or singular form",
        "Synonym",
        "Antonym",
        "Related",
        "Confusable",
    ];
    for (i, l) in all.iter().enumerate() {
        assert_eq!(l.to_u8() as usize, i + 1);
        assert_eq!(WordLinkType::try_from_u8(l.to_u8()), Some(*l));
        assert_eq!(l.to_str(), labels[i]);
    }
    assert_eq!(WordLinkType::try_from_u8(0), None);
    assert_eq!(WordLinkType::try_from_u8(6), None);
    let err = WordLinkType::from_discriminant(9).unwrap_err();
    assert_eq!(err.value, 9);
    assert_eq!(err.for_type, "WordLinkType");
}

#[test]
fn word_link_type_orders_by_display_priority() {
    assert!(WordLinkType::PluralOrSingular < WordLinkType::Synonym);
    assert!(WordLinkType::Synonym < WordLinkType::Antonym);
    assert!(WordLinkType::Antonym < WordLinkType::Related);
    assert!(WordLinkType::Related < WordLinkType::Confusable);
}

#[test]
fn serialize_display_wraps_a_value() {
    let a = SerializeDisplay(3u8);
    let b = SerializeDisplay(5u8);
    assert_eq!(a.0, 3);
    assert!(a < b);
    assert_ne!(a, b);
}

#[test]
fn noun_class_opt_flatten() {
    assert_eq!(None::<NounClassOpt>.flatten(), None);
    assert_eq!(Some(NounClassOpt(None)).flatten(), None);
    assert_eq!(
        Some(NounClassOpt(Some(NounClass::Imi))).flatten(),
        Some(NounClass::Imi)
    );
}
