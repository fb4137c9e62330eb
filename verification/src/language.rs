//! Grammatical value types: part of speech, noun class, word-link type.
//!
//! Each closed enumeration is persisted as a small stable integer
//! discriminant. Decoding validates strictly: an integer outside the known
//! set fails distinctly with [`DiscrimOutOfRange`] rather than silently
//! defaulting, and the reserved "no noun class" integer decodes to an
//! explicit absent value, never to a class instance.

use vstd::prelude::*;

verus! {

/// The reserved discriminant meaning "no noun class assigned".
pub const NO_NOUN_CLASS: i64 = 255;

/// A stored integer discriminant named no known variant of the type.
#[derive(Copy, Clone, Debug, PartialEq, Eq)]
pub struct DiscrimOutOfRange {
    /// The integer as it was read.
    pub value: i64,
    /// The name of the type whose variants were expected.
    pub for_type: &'static str,
}

/// Wraps a value so the boundary can serialize it through its display form.
#[derive(Copy, Clone, Debug, Eq, PartialEq, Ord, PartialOrd)]
pub struct SerializeDisplay<T>(pub T);

/// Part of speech of a dictionary entry.
#[derive(Copy, Clone, Debug, PartialEq, Eq, Structural)]
pub enum PartOfSpeech {
    Verb,
    Noun,
    Adjective,
    Adverb,
    Relative,
    Interjection,
    Conjunction,
    Preposition,
    Other,
}

/// The stable integer discriminant of a part of speech.
pub open spec fn spec_pos_to_u8(p: PartOfSpeech) -> u8 {
    match p {
        PartOfSpeech::Verb => 1,
        PartOfSpeech::Noun => 2,
        PartOfSpeech::Adjective => 3,
        PartOfSpeech::Adverb => 4,
        PartOfSpeech::Relative => 5,
        PartOfSpeech::Interjection => 6,
        PartOfSpeech::Conjunction => 7,
        PartOfSpeech::Preposition => 8,
        PartOfSpeech::Other => 9,
    }
}

/// The part of speech a discriminant decodes to, if any.
pub open spec fn spec_pos_from_u8(v: u8) -> Option<PartOfSpeech> {
    match v {
        1u8 => Some(PartOfSpeech::Verb),
        2u8 => Some(PartOfSpeech::Noun),
        3u8 => Some(PartOfSpeech::Adjective),
        4u8 => Some(PartOfSpeech::Adverb),
        5u8 => Some(PartOfSpeech::Relative),
        6u8 => Some(PartOfSpeech::Interjection),
        7u8 => Some(PartOfSpeech::Conjunction),
        8u8 => Some(PartOfSpeech::Preposition),
        9u8 => Some(PartOfSpeech::Other),
        _ => None,
    }
}

impl PartOfSpeech {
    /// The stable integer discriminant under which this value is persisted.
    pub fn to_u8(&self) -> (r: u8)
        ensures
            r == spec_pos_to_u8(*self),
    {
        match self {
            PartOfSpeech::Verb => 1,
            PartOfSpeech::Noun => 2,
            PartOfSpeech::Adjective => 3,
            PartOfSpeech::Adverb => 4,
            PartOfSpeech::Relative => 5,
            PartOfSpeech::Interjection => 6,
            PartOfSpeech::Conjunction => 7,
            PartOfSpeech::Preposition => 8,
            PartOfSpeech::Other => 9,
        }
    }

    /// Decodes a discriminant; yields nothing for an integer outside the set.
    pub fn try_from_u8(v: u8) -> (r: Option<PartOfSpeech>)
        ensures
            r == spec_pos_from_u8(v),
    {
        match v {
            1u8 => Some(PartOfSpeech::Verb),
            2u8 => Some(PartOfSpeech::Noun),
            3u8 => Some(PartOfSpeech::Adjective),
            4u8 => Some(PartOfSpeech::Adverb),
            5u8 => Some(PartOfSpeech::Relative),
            6u8 => Some(PartOfSpeech::Interjection),
            7u8 => Some(PartOfSpeech::Conjunction),
            8u8 => Some(PartOfSpeech::Preposition),
            9u8 => Some(PartOfSpeech::Other),
            _ => None,
        }
    }

    /// Decodes a stored integer column value, failing distinctly when it is
    /// out of range for the type.
    pub fn from_discriminant(v: i64) -> (r: Result<PartOfSpeech, DiscrimOutOfRange>)
        ensures
            match r {
                Ok(p) => 1 <= v <= 9 && Some(p) == spec_pos_from_u8(v as u8),
                Err(e) => !(1 <= v <= 9) && e.value == v && e.for_type@ == "PartOfSpeech"@,
            },
    {
        if 1 <= v && v <= 9 {
            match PartOfSpeech::try_from_u8(v as u8) {
                Some(p) => Ok(p),
                None => {
                    proof {
                        assert(spec_pos_from_u8(v as u8) is Some);
                    }
                    Err(DiscrimOutOfRange { value: v, for_type: "PartOfSpeech" })
                },
            }
        } else {
            Err(DiscrimOutOfRange { value: v, for_type: "PartOfSpeech" })
        }
    }
}

/// A grammatical agreement class. Each class maps to a singular prefix and an
/// optional plural prefix; three classes are singular-only.
#[derive(Copy, Clone, Debug, PartialEq, Eq, Structural)]
pub enum NounClass {
    Class1Um,
    Aba,
    U,
    Oo,
    Class3Um,
    Imi,
    Ili,
    Ama,
    Isi,
    Izi,
    In,
    Izin,
    Ulu,
    Ubu,
    Uku,
}

/// The stable integer discriminant of a noun class.
pub open spec fn spec_noun_class_to_u8(c: NounClass) -> u8 {
    match c {
        NounClass::Class1Um => 1,
        NounClass::Aba => 2,
        NounClass::U => 3,
        NounClass::Oo => 4,
        NounClass::Class3Um => 5,
        NounClass::Imi => 6,
        NounClass::Ili => 7,
        NounClass::Ama => 8,
        NounClass::Isi => 9,
        NounClass::Izi => 10,
        NounClass::In => 11,
        NounClass::Izin => 12,
        NounClass::Ulu => 13,
        NounClass::Ubu => 14,
        NounClass::Uku => 15,
    }
}

/// The noun class a discriminant decodes to, if any.
pub open spec fn spec_noun_class_from_u8(v: u8) -> Option<NounClass> {
    match v {
        1u8 => Some(NounClass::Class1Um),
        2u8 => Some(NounClass::Aba),
        3u8 => Some(NounClass::U),
        4u8 => Some(NounClass::Oo),
        5u8 => Some(NounClass::Class3Um),
        6u8 => Some(NounClass::Imi),
        7u8 => Some(NounClass::Ili),
        8u8 => Some(NounClass::Ama),
        9u8 => Some(NounClass::Isi),
        10u8 => Some(NounClass::Izi),
        11u8 => Some(NounClass::In),
        12u8 => Some(NounClass::Izin),
        13u8 => Some(NounClass::Ulu),
        14u8 => Some(NounClass::Ubu),
        15u8 => Some(NounClass::Uku),
        _ => None,
    }
}

/// An optional noun class as read from storage, where the reserved integer
/// [`NO_NOUN_CLASS`] stands for the explicit absent value.
#[derive(Copy, Clone, Debug, PartialEq, Eq)]
pub struct NounClassOpt(pub Option<NounClass>);

/// Collapses a doubly-optional noun class read from a nullable column.
pub trait NounClassOptExt {
    /// The noun class held, if both layers are present.
    fn flatten(self) -> Option<NounClass>;
}

impl NounClassOptExt for Option<NounClassOpt> {
    fn flatten(self) -> (r: Option<NounClass>)
        ensures
            r == match self {
                Some(o) => o.0,
                None => None::<NounClass>,
            },
    {
        match self {
            Some(o) => o.0,
            None => None,
        }
    }
}

impl NounClassOpt {
    /// Decodes a stored integer column value. The reserved integer decodes to
    /// the explicit absent value; any other integer outside the known classes
    /// fails distinctly.
    pub fn from_discriminant(v: i64) -> (r: Result<NounClassOpt, DiscrimOutOfRange>)
        ensures
            match r {
                Ok(o) => (v == NO_NOUN_CLASS && o.0 is None)
                    || (1 <= v <= 15 && o.0 == spec_noun_class_from_u8(v as u8) && o.0 is Some),
                Err(e) => v != NO_NOUN_CLASS && !(1 <= v <= 15) && e.value == v
                    && e.for_type@ == "NounClass"@,
            },
    {
        if v == NO_NOUN_CLASS {
            Ok(NounClassOpt(None))
        } else if 1 <= v && v <= 15 {
            match NounClass::try_from_u8(v as u8) {
                Some(c) => Ok(NounClassOpt(Some(c))),
                None => {
                    proof {
                        assert(spec_noun_class_from_u8(v as u8) is Some);
                    }
                    Err(DiscrimOutOfRange { value: v, for_type: "NounClass" })
                },
            }
        } else {
            Err(DiscrimOutOfRange { value: v, for_type: "NounClass" })
        }
    }
}

/// The characteristic prefixes of a noun class.
#[derive(Copy, Clone, Debug)]
pub struct NounClassPrefixes {
    /// Prefix of the singular form.
    pub singular: &'static str,
    /// Prefix of the plural form; absent for singular-only classes.
    pub plural: Option<&'static str>,
}

impl NounClassPrefixes {
    /// A prefix pair for a class with both a singular and a plural form.
    pub fn from_singular_plural(singular: &'static str, plural: &'static str) -> (r: Self)
        ensures
            r.singular@ == singular@,
            r.plural matches Some(p) && p@ == plural@,
    {
        NounClassPrefixes { singular, plural: Some(plural) }
    }

    /// A prefix pair for a singular-only class.
    pub fn singular_class(singular: &'static str) -> (r: Self)
        ensures
            r.singular@ == singular@,
            r.plural is None,
    {
        NounClassPrefixes { singular, plural: None }
    }
}

/// The singular prefix of a noun class.
pub open spec fn spec_singular_prefix(c: NounClass) -> Seq<char> {
    match c {
        NounClass::Class1Um | NounClass::Aba => "um"@,
        NounClass::U | NounClass::Oo => "u"@,
        NounClass::Class3Um | NounClass::Imi => "um"@,
        NounClass::Ili | NounClass::Ama => "i(li)"@,
        NounClass::Isi | NounClass::Izi => "isi"@,
        NounClass::In | NounClass::Izin => "i(n)"@,
        NounClass::Ulu => "ulu"@,
        NounClass::Ubu => "ubu"@,
        NounClass::Uku => "uku"@,
    }
}

/// The plural prefix of a noun class, absent for singular-only classes.
pub open spec fn spec_plural_prefix(c: NounClass) -> Option<Seq<char>> {
    match c {
        NounClass::Class1Um | NounClass::Aba => Some("aba"@),
        NounClass::U | NounClass::Oo => Some("oo"@),
        NounClass::Class3Um | NounClass::Imi => Some("imi"@),
        NounClass::Ili | NounClass::Ama => Some("ama"@),
        NounClass::Isi | NounClass::Izi => Some("izi"@),
        NounClass::In | NounClass::Izin => Some("i(z)in"@),
        NounClass::Ulu => None,
        NounClass::Ubu => None,
        NounClass::Uku => None,
    }
}

impl NounClass {
    /// The characteristic prefixes of this class.
    pub fn to_prefixes(&self) -> (r: NounClassPrefixes)
        ensures
            r.singular@ == spec_singular_prefix(*self),
            match r.plural {
                Some(p) => spec_plural_prefix(*self) == Some(p@),
                None => spec_plural_prefix(*self) is None,
            },
    {
        let both = NounClassPrefixes::from_singular_plural;
        let singular = NounClassPrefixes::singular_class;

        match self {
            NounClass::Class1Um | NounClass::Aba => both("um", "aba"),
            NounClass::U | NounClass::Oo => both("u", "oo"),
            NounClass::Class3Um | NounClass::Imi => both("um", "imi"),
            NounClass::Ili | NounClass::Ama => both("i(li)", "ama"),
            NounClass::Isi | NounClass::Izi => both("isi", "izi"),
            NounClass::In | NounClass::Izin => both("i(n)", "i(z)in"),
            NounClass::Ulu => singular("ulu"),
            NounClass::Ubu => singular("ubu"),
            NounClass::Uku => singular("uku"),
        }
    }

    /// The stable integer discriminant under which this class is persisted.
    pub fn to_u8(&self) -> (r: u8)
        ensures
            r == spec_noun_class_to_u8(*self),
    {
        match self {
            NounClass::Class1Um => 1,
            NounClass::Aba => 2,
            NounClass::U => 3,
            NounClass::Oo => 4,
            NounClass::Class3Um => 5,
            NounClass::Imi => 6,
            NounClass::Ili => 7,
            NounClass::Ama => 8,
            NounClass::Isi => 9,
            NounClass::Izi => 10,
            NounClass::In => 11,
            NounClass::Izin => 12,
            NounClass::Ulu => 13,
            NounClass::Ubu => 14,
            NounClass::Uku => 15,
        }
    }

    /// Decodes a discriminant; yields nothing for an integer outside the set.
    pub fn try_from_u8(v: u8) -> (r: Option<NounClass>)
        ensures
            r == spec_noun_class_from_u8(v),
    {
        match v {
            1u8 => Some(NounClass::Class1Um),
            2u8 => Some(NounClass::Aba),
            3u8 => Some(NounClass::U),
            4u8 => Some(NounClass::Oo),
            5u8 => Some(NounClass::Class3Um),
            6u8 => Some(NounClass::Imi),
            7u8 => Some(NounClass::Ili),
            8u8 => Some(NounClass::Ama),
            9u8 => Some(NounClass::Isi),
            10u8 => Some(NounClass::Izi),
            11u8 => Some(NounClass::In),
            12u8 => Some(NounClass::Izin),
            13u8 => Some(NounClass::Ulu),
            14u8 => Some(NounClass::Ubu),
            15u8 => Some(NounClass::Uku),
            _ => None,
        }
    }
}

/// Every noun class round-trips through its integer discriminant: encoding a
/// class and decoding the result yields the same class again. The reserved
/// [`NO_NOUN_CLASS`] integer is outside the encoded range, so no class ever
/// collides with the explicit absent value.
pub proof fn lemma_noun_class_round_trip()
    ensures
        forall|c: NounClass|
            spec_noun_class_from_u8(#[trigger] spec_noun_class_to_u8(c)) == Some(c),
        forall|c: NounClass| #[trigger] spec_noun_class_to_u8(c) != NO_NOUN_CLASS,
{
    assert forall|c: NounClass|
        spec_noun_class_from_u8(#[trigger] spec_noun_class_to_u8(c)) == Some(c)
        && spec_noun_class_to_u8(c) != NO_NOUN_CLASS by {
        match c {
            NounClass::Class1Um => {},
            NounClass::Aba => {},
            NounClass::U => {},
            NounClass::Oo => {},
            NounClass::Class3Um => {},
            NounClass::Imi => {},
            NounClass::Ili => {},
            NounClass::Ama => {},
            NounClass::Isi => {},
            NounClass::Izi => {},
            NounClass::In => {},
            NounClass::Izin => {},
            NounClass::Ulu => {},
            NounClass::Ubu => {},
            NounClass::Uku => {},
        }
    }
}

/// Cross-reference between two entries, ranked by display priority.
#[derive(Copy, Clone, Debug, PartialOrd, Ord, PartialEq, Eq, Structural)]
pub enum WordLinkType {
    PluralOrSingular,
    Synonym,
    Antonym,
    Related,
    Confusable,
}

/// The stable integer discriminant of a word-link type; lower ranks first.
pub open spec fn spec_link_to_u8(l: WordLinkType) -> u8 {
    match l {
        WordLinkType::PluralOrSingular => 1,
        WordLinkType::Synonym => 2,
        WordLinkType::Antonym => 3,
        WordLinkType::Related => 4,
        WordLinkType::Confusable => 5,
    }
}

/// The word-link type a discriminant decodes to, if any.
pub open spec fn spec_link_from_u8(v: u8) -> Option<WordLinkType> {
    match v {
        1u8 => Some(WordLinkType::PluralOrSingular),
        2u8 => Some(WordLinkType::Synonym),
        3u8 => Some(WordLinkType::Antonym),
        4u8 => Some(WordLinkType::Related),
        5u8 => Some(WordLinkType::Confusable),
        _ => None,
    }
}

/// The display label of a word-link type.
pub open spec fn spec_link_str(l: WordLinkType) -> Seq<char> {
    match l {
        WordLinkType::PluralOrSingular => "Plural or singular form"@,
        WordLinkType::Synonym => "Synonym"@,
        WordLinkType::Antonym => "Antonym"@,
        WordLinkType::Related => "Related"@,
        WordLinkType::Confusable => "Confusable"@,
    }
}

impl WordLinkType {
    /// The human-readable label describing this link.
    pub fn to_str(&self) -> (r: &'static str)
        ensures
            r@ == spec_link_str(*self),
    {
        match self {
            WordLinkType::PluralOrSingular => "Plural or singular form",
            WordLinkType::Synonym => "Synonym",
            WordLinkType::Antonym => "Antonym",
            WordLinkType::Related => "Related",
            WordLinkType::Confusable => "Confusable",
        }
    }

    /// The stable integer discriminant under which this link is persisted.
    pub fn to_u8(&self) -> (r: u8)
        ensures
            r == spec_link_to_u8(*self),
    {
        match self {
            WordLinkType::PluralOrSingular => 1,
            WordLinkType::Synonym => 2,
            WordLinkType::Antonym => 3,
            WordLinkType::Related => 4,
            WordLinkType::Confusable => 5,
        }
    }

    /// Decodes a discriminant; yields nothing for an integer outside the set.
    pub fn try_from_u8(v: u8) -> (r: Option<WordLinkType>)
        ensures
            r == spec_link_from_u8(v),
    {
        match v {
            1u8 => Some(WordLinkType::PluralOrSingular),
            2u8 => Some(WordLinkType::Synonym),
            3u8 => Some(WordLinkType::Antonym),
            4u8 => Some(WordLinkType::Related),
            5u8 => Some(WordLinkType::Confusable),
            _ => None,
        }
    }

    /// Decodes a stored integer column value, failing distinctly when it is
    /// out of range for the type.
    pub fn from_discriminant(v: i64) -> (r: Result<WordLinkType, DiscrimOutOfRange>)
        ensures
            match r {
                Ok(l) => 1 <= v <= 5 && Some(l) == spec_link_from_u8(v as u8),
                Err(e) => !(1 <= v <= 5) && e.value == v && e.for_type@ == "WordLinkType"@,
            },
    {
        if 1 <= v && v <= 5 {
            match WordLinkType::try_from_u8(v as u8) {
                Some(l) => Ok(l),
                None => {
                    proof {
                        assert(spec_link_from_u8(v as u8) is Some);
                    }
                    Err(DiscrimOutOfRange { value: v, for_type: "WordLinkType" })
                },
            }
        } else {
            Err(DiscrimOutOfRange { value: v, for_type: "WordLinkType" })
        }
    }
}

} // verus!
