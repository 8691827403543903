//! The values of each entity which a sense or a spelling holds as a set, in
//! the order in which they are declared, which is the order in which such a
//! set lists them.

use vstd::prelude::*;

use crate::entities::{pos_at, Dialect, Field, KanjiInfo, Miscellaneous, PartOfSpeech, ReadingInfo};

verus! {

/// The values of `all` which `items` holds, in the order of `all`.
pub open spec fn declared_order<T>(items: Seq<T>, all: Seq<T>) -> Seq<T>
    decreases all.len(),
{
    if all.len() == 0 {
        Seq::empty()
    } else {
        let prev = declared_order(items, all.drop_last());
        if items.contains(all.last()) {
            prev.push(all.last())
        } else {
            prev
        }
    }
}

/// The kind of usage declared at position `i`.
pub open spec fn misc_at(i: int) -> Miscellaneous {
    if i == 0 {
        Miscellaneous::Abbreviation
    } else if i == 1 {
        Miscellaneous::Archaic
    } else if i == 2 {
        Miscellaneous::Character
    } else if i == 3 {
        Miscellaneous::Children
    } else if i == 4 {
        Miscellaneous::Colloquial
    } else if i == 5 {
        Miscellaneous::Company
    } else if i == 6 {
        Miscellaneous::Creature
    } else if i == 7 {
        Miscellaneous::Dated
    } else if i == 8 {
        Miscellaneous::Deity
    } else if i == 9 {
        Miscellaneous::Derogatory
    } else if i == 10 {
        Miscellaneous::Document
    } else if i == 11 {
        Miscellaneous::Euphemistic
    } else if i == 12 {
        Miscellaneous::Event
    } else if i == 13 {
        Miscellaneous::Familiar
    } else if i == 14 {
        Miscellaneous::Feminine
    } else if i == 15 {
        Miscellaneous::Fict
    } else if i == 16 {
        Miscellaneous::Form
    } else if i == 17 {
        Miscellaneous::Given
    } else if i == 18 {
        Miscellaneous::Group
    } else if i == 19 {
        Miscellaneous::Historical
    } else if i == 20 {
        Miscellaneous::Honorific
    } else if i == 21 {
        Miscellaneous::Humble
    } else if i == 22 {
        Miscellaneous::Idiomatic
    } else if i == 23 {
        Miscellaneous::Jocular
    } else if i == 24 {
        Miscellaneous::Legend
    } else if i == 25 {
        Miscellaneous::MangaSlang
    } else if i == 26 {
        Miscellaneous::Male
    } else if i == 27 {
        Miscellaneous::Mythology
    } else if i == 28 {
        Miscellaneous::NetSlang
    } else if i == 29 {
        Miscellaneous::Object
    } else if i == 30 {
        Miscellaneous::Obsolete
    } else if i == 31 {
        Miscellaneous::OnMim
    } else if i == 32 {
        Miscellaneous::Organization
    } else if i == 33 {
        Miscellaneous::Other
    } else if i == 34 {
        Miscellaneous::Person
    } else if i == 35 {
        Miscellaneous::Place
    } else if i == 36 {
        Miscellaneous::Poetic
    } else if i == 37 {
        Miscellaneous::Polite
    } else if i == 38 {
        Miscellaneous::Product
    } else if i == 39 {
        Miscellaneous::Proverb
    } else if i == 40 {
        Miscellaneous::Quote
    } else if i == 41 {
        Miscellaneous::Rare
    } else if i == 42 {
        Miscellaneous::Relig
    } else if i == 43 {
        Miscellaneous::Sens
    } else if i == 44 {
        Miscellaneous::Service
    } else if i == 45 {
        Miscellaneous::Ship
    } else if i == 46 {
        Miscellaneous::Slang
    } else if i == 47 {
        Miscellaneous::Station
    } else if i == 48 {
        Miscellaneous::Surname
    } else if i == 49 {
        Miscellaneous::UsuallyKana
    } else if i == 50 {
        Miscellaneous::Unclassified
    } else if i == 51 {
        Miscellaneous::Vulgar
    } else if i == 52 {
        Miscellaneous::Work
    } else if i == 53 {
        Miscellaneous::X
    } else {
        Miscellaneous::Yojijukugo
    }
}

/// Each kind of usage, in declaration order.
pub open spec fn misc_declared() -> Seq<Miscellaneous> {
    Seq::new(55, |i: int| misc_at(i))
}

/// The kind of usage declared at position `i`.
pub fn misc_at_exec(i: usize) -> (r: Miscellaneous)
    requires
        i < 55,
    ensures
        r == misc_at(i as int),
{
    match i {
        0 => Miscellaneous::Abbreviation,
        1 => Miscellaneous::Archaic,
        2 => Miscellaneous::Character,
        3 => Miscellaneous::Children,
        4 => Miscellaneous::Colloquial,
        5 => Miscellaneous::Company,
        6 => Miscellaneous::Creature,
        7 => Miscellaneous::Dated,
        8 => Miscellaneous::Deity,
        9 => Miscellaneous::Derogatory,
        10 => Miscellaneous::Document,
        11 => Miscellaneous::Euphemistic,
        12 => Miscellaneous::Event,
        13 => Miscellaneous::Familiar,
        14 => Miscellaneous::Feminine,
        15 => Miscellaneous::Fict,
        16 => Miscellaneous::Form,
        17 => Miscellaneous::Given,
        18 => Miscellaneous::Group,
        19 => Miscellaneous::Historical,
        20 => Miscellaneous::Honorific,
        21 => Miscellaneous::Humble,
        22 => Miscellaneous::Idiomatic,
        23 => Miscellaneous::Jocular,
        24 => Miscellaneous::Legend,
        25 => Miscellaneous::MangaSlang,
        26 => Miscellaneous::Male,
        27 => Miscellaneous::Mythology,
        28 => Miscellaneous::NetSlang,
        29 => Miscellaneous::Object,
        30 => Miscellaneous::Obsolete,
        31 => Miscellaneous::OnMim,
        32 => Miscellaneous::Organization,
        33 => Miscellaneous::Other,
        34 => Miscellaneous::Person,
        35 => Miscellaneous::Place,
        36 => Miscellaneous::Poetic,
        37 => Miscellaneous::Polite,
        38 => Miscellaneous::Product,
        39 => Miscellaneous::Proverb,
        40 => Miscellaneous::Quote,
        41 => Miscellaneous::Rare,
        42 => Miscellaneous::Relig,
        43 => Miscellaneous::Sens,
        44 => Miscellaneous::Service,
        45 => Miscellaneous::Ship,
        46 => Miscellaneous::Slang,
        47 => Miscellaneous::Station,
        48 => Miscellaneous::Surname,
        49 => Miscellaneous::UsuallyKana,
        50 => Miscellaneous::Unclassified,
        51 => Miscellaneous::Vulgar,
        52 => Miscellaneous::Work,
        53 => Miscellaneous::X,
        _ => Miscellaneous::Yojijukugo,
    }
}

/// Test if a list holds a kind of usage.
pub fn has_misc(v: &Vec<Miscellaneous>, x: Miscellaneous) -> (r: bool)
    ensures
        r == v@.contains(x),
{
    let mut i: usize = 0;
    while i < v.len()
        invariant
            i <= v@.len(),
            forall|k: int| 0 <= k < i ==> v@[k] != x,
        decreases v@.len() - i,
    {
        if v[i] == x {
            assert(v@[i as int] == x);
            return true;
        }
        i = i + 1;
    }
    false
}

/// Each part of speech, in declaration order.
pub open spec fn pos_declared() -> Seq<PartOfSpeech> {
    Seq::new(92, |i: int| pos_at(i))
}

/// The part of speech declared at position `i`.
pub fn pos_at_exec(i: usize) -> (r: PartOfSpeech)
    requires
        i < 92,
    ensures
        r == pos_at(i as int),
{
    match i {
        0 => PartOfSpeech::AdjectiveF,
        1 => PartOfSpeech::AdjectiveI,
        2 => PartOfSpeech::AdjectiveIx,
        3 => PartOfSpeech::AdjectiveKari,
        4 => PartOfSpeech::AdjectiveKu,
        5 => PartOfSpeech::AdjectiveNa,
        6 => PartOfSpeech::AdjectiveNari,
        7 => PartOfSpeech::AdjectiveNo,
        8 => PartOfSpeech::AdjectivePn,
        9 => PartOfSpeech::AdjectiveShiku,
        10 => PartOfSpeech::AdjectiveT,
        11 => PartOfSpeech::Adverb,
        12 => PartOfSpeech::AdverbTo,
        13 => PartOfSpeech::Auxiliary,
        14 => PartOfSpeech::AuxiliaryAdjective,
        15 => PartOfSpeech::AuxiliaryVerb,
        16 => PartOfSpeech::Conjunction,
        17 => PartOfSpeech::Copular,
        18 => PartOfSpeech::Counter,
        19 => PartOfSpeech::Expression,
        20 => PartOfSpeech::Interjection,
        21 => PartOfSpeech::Noun,
        22 => PartOfSpeech::NounAdverbial,
        23 => PartOfSpeech::NounProper,
        24 => PartOfSpeech::NounPrefix,
        25 => PartOfSpeech::NounSuffix,
        26 => PartOfSpeech::NounTemporal,
        27 => PartOfSpeech::Numeric,
        28 => PartOfSpeech::Pronoun,
        29 => PartOfSpeech::Prefix,
        30 => PartOfSpeech::Particle,
        31 => PartOfSpeech::Suffix,
        32 => PartOfSpeech::Unclassified,
        33 => PartOfSpeech::VerbUnspecified,
        34 => PartOfSpeech::VerbIchidan,
        35 => PartOfSpeech::VerbIchidanS,
        36 => PartOfSpeech::VerbNidanAS,
        37 => PartOfSpeech::VerbNidanBK,
        38 => PartOfSpeech::VerbNidanBS,
        39 => PartOfSpeech::VerbNidanDK,
        40 => PartOfSpeech::VerbNidanDS,
        41 => PartOfSpeech::VerbNidanGK,
        42 => PartOfSpeech::VerbNidanGS,
        43 => PartOfSpeech::VerbNidanHK,
        44 => PartOfSpeech::VerbNidanHS,
        45 => PartOfSpeech::VerbNidanKK,
        46 => PartOfSpeech::VerbNidanKS,
        47 => PartOfSpeech::VerbNidanMK,
        48 => PartOfSpeech::VerbNidanMS,
        49 => PartOfSpeech::VerbNidanNS,
        50 => PartOfSpeech::VerbNidanRK,
        51 => PartOfSpeech::VerbNidanRS,
        52 => PartOfSpeech::VerbNidanSS,
        53 => PartOfSpeech::VerbNidanTK,
        54 => PartOfSpeech::VerbNidanTS,
        55 => PartOfSpeech::VerbNidanWS,
        56 => PartOfSpeech::VerbNidanYK,
        57 => PartOfSpeech::VerbNidanYS,
        58 => PartOfSpeech::VerbNidanZS,
        59 => PartOfSpeech::VerbYodanB,
        60 => PartOfSpeech::VerbYodanG,
        61 => PartOfSpeech::VerbYodanH,
        62 => PartOfSpeech::VerbYodanK,
        63 => PartOfSpeech::VerbYodanM,
        64 => PartOfSpeech::VerbYodanN,
        65 => PartOfSpeech::VerbYodanR,
        66 => PartOfSpeech::VerbYodanS,
        67 => PartOfSpeech::VerbYodanT,
        68 => PartOfSpeech::VerbGodanAru,
        69 => PartOfSpeech::VerbGodanB,
        70 => PartOfSpeech::VerbGodanG,
        71 => PartOfSpeech::VerbGodanK,
        72 => PartOfSpeech::VerbGodanKS,
        73 => PartOfSpeech::VerbGodanM,
        74 => PartOfSpeech::VerbGodanN,
        75 => PartOfSpeech::VerbGodanR,
        76 => PartOfSpeech::VerbGodanRI,
        77 => PartOfSpeech::VerbGodanS,
        78 => PartOfSpeech::VerbGodanT,
        79 => PartOfSpeech::VerbGodanU,
        80 => PartOfSpeech::VerbGodanUS,
        81 => PartOfSpeech::VerbGodanUru,
        82 => PartOfSpeech::VerbIntransitive,
        83 => PartOfSpeech::VerbKuru,
        84 => PartOfSpeech::VerbNu,
        85 => PartOfSpeech::VerbRu,
        86 => PartOfSpeech::VerbSuru,
        87 => PartOfSpeech::VerbSuC,
        88 => PartOfSpeech::VerbSuruIncluded,
        89 => PartOfSpeech::VerbSuruSpecial,
        90 => PartOfSpeech::VerbTransitive,
        _ => PartOfSpeech::VerbZuru,
    }
}

/// Test if a list holds a part of speech.
pub fn has_pos(v: &Vec<PartOfSpeech>, x: PartOfSpeech) -> (r: bool)
    ensures
        r == v@.contains(x),
{
    let mut i: usize = 0;
    while i < v.len()
        invariant
            i <= v@.len(),
            forall|k: int| 0 <= k < i ==> v@[k] != x,
        decreases v@.len() - i,
    {
        if v[i] == x {
            assert(v@[i as int] == x);
            return true;
        }
        i = i + 1;
    }
    false
}

/// The kind of kanji information declared at position `i`.
pub open spec fn kanji_info_at(i: int) -> KanjiInfo {
    if i == 0 {
        KanjiInfo::Ateji
    } else if i == 1 {
        KanjiInfo::IrregularKana
    } else if i == 2 {
        KanjiInfo::IrregularKanji
    } else if i == 3 {
        KanjiInfo::IrregularOkurigana
    } else if i == 4 {
        KanjiInfo::OutdatedKanji
    } else if i == 5 {
        KanjiInfo::RareKanji
    } else {
        KanjiInfo::SearchOnlyKanji
    }
}

/// Each kind of kanji information, in declaration order.
pub open spec fn kanji_info_declared() -> Seq<KanjiInfo> {
    Seq::new(7, |i: int| kanji_info_at(i))
}

/// The kind of kanji information declared at position `i`.
pub fn kanji_info_at_exec(i: usize) -> (r: KanjiInfo)
    requires
        i < 7,
    ensures
        r == kanji_info_at(i as int),
{
    match i {
        0 => KanjiInfo::Ateji,
        1 => KanjiInfo::IrregularKana,
        2 => KanjiInfo::IrregularKanji,
        3 => KanjiInfo::IrregularOkurigana,
        4 => KanjiInfo::OutdatedKanji,
        5 => KanjiInfo::RareKanji,
        _ => KanjiInfo::SearchOnlyKanji,
    }
}

/// Test if a list holds a kind of kanji information.
pub fn has_kanji_info(v: &Vec<KanjiInfo>, x: KanjiInfo) -> (r: bool)
    ensures
        r == v@.contains(x),
{
    let mut i: usize = 0;
    while i < v.len()
        invariant
            i <= v@.len(),
            forall|k: int| 0 <= k < i ==> v@[k] != x,
        decreases v@.len() - i,
    {
        if v[i] == x {
            assert(v@[i as int] == x);
            return true;
        }
        i = i + 1;
    }
    false
}

/// The kind of reading information declared at position `i`.
pub open spec fn reading_info_at(i: int) -> ReadingInfo {
    if i == 0 {
        ReadingInfo::Gikun
    } else if i == 1 {
        ReadingInfo::IrregularKana
    } else if i == 2 {
        ReadingInfo::ObsoleteKana
    } else if i == 3 {
        ReadingInfo::SearchOnlyKana
    } else {
        ReadingInfo::RareKana
    }
}

/// Each kind of reading information, in declaration order.
pub open spec fn reading_info_declared() -> Seq<ReadingInfo> {
    Seq::new(5, |i: int| reading_info_at(i))
}

/// The kind of reading information declared at position `i`.
pub fn reading_info_at_exec(i: usize) -> (r: ReadingInfo)
    requires
        i < 5,
    ensures
        r == reading_info_at(i as int),
{
    match i {
        0 => ReadingInfo::Gikun,
        1 => ReadingInfo::IrregularKana,
        2 => ReadingInfo::ObsoleteKana,
        3 => ReadingInfo::SearchOnlyKana,
        _ => ReadingInfo::RareKana,
    }
}

/// Test if a list holds a kind of reading information.
pub fn has_reading_info(v: &Vec<ReadingInfo>, x: ReadingInfo) -> (r: bool)
    ensures
        r == v@.contains(x),
{
    let mut i: usize = 0;
    while i < v.len()
        invariant
            i <= v@.len(),
            forall|k: int| 0 <= k < i ==> v@[k] != x,
        decreases v@.len() - i,
    {
        if v[i] == x {
            assert(v@[i as int] == x);
            return true;
        }
        i = i + 1;
    }
    false
}

/// The dialect declared at position `i`.
pub open spec fn dialect_at(i: int) -> Dialect {
    if i == 0 {
        Dialect::Brazilian
    } else if i == 1 {
        Dialect::HokkaidoBen
    } else if i == 2 {
        Dialect::KansaiBen
    } else if i == 3 {
        Dialect::KantouBen
    } else if i == 4 {
        Dialect::KyotoBen
    } else if i == 5 {
        Dialect::KyuushuuBen
    } else if i == 6 {
        Dialect::NaganoBen
    } else if i == 7 {
        Dialect::OsakaBen
    } else if i == 8 {
        Dialect::RyuukyuuBen
    } else if i == 9 {
        Dialect::TouhokuBen
    } else if i == 10 {
        Dialect::TosaBen
    } else {
        Dialect::TsugaruBen
    }
}

/// Each dialect, in declaration order.
pub open spec fn dialect_declared() -> Seq<Dialect> {
    Seq::new(12, |i: int| dialect_at(i))
}

/// The dialect declared at position `i`.
pub fn dialect_at_exec(i: usize) -> (r: Dialect)
    requires
        i < 12,
    ensures
        r == dialect_at(i as int),
{
    match i {
        0 => Dialect::Brazilian,
        1 => Dialect::HokkaidoBen,
        2 => Dialect::KansaiBen,
        3 => Dialect::KantouBen,
        4 => Dialect::KyotoBen,
        5 => Dialect::KyuushuuBen,
        6 => Dialect::NaganoBen,
        7 => Dialect::OsakaBen,
        8 => Dialect::RyuukyuuBen,
        9 => Dialect::TouhokuBen,
        10 => Dialect::TosaBen,
        _ => Dialect::TsugaruBen,
    }
}

/// Test if a list holds a dialect.
pub fn has_dialect(v: &Vec<Dialect>, x: Dialect) -> (r: bool)
    ensures
        r == v@.contains(x),
{
    let mut i: usize = 0;
    while i < v.len()
        invariant
            i <= v@.len(),
            forall|k: int| 0 <= k < i ==> v@[k] != x,
        decreases v@.len() - i,
    {
        if v[i] == x {
            assert(v@[i as int] == x);
            return true;
        }
        i = i + 1;
    }
    false
}

/// The field declared at position `i`.
pub open spec fn field_at(i: int) -> Field {
    if i == 0 {
        Field::Agriculture
    } else if i == 1 {
        Field::Anatomy
    } else if i == 2 {
        Field::Archeology
    } else if i == 3 {
        Field::Architecture
    } else if i == 4 {
        Field::Art
    } else if i == 5 {
        Field::Astronomy
    } else if i == 6 {
        Field::AudioVisual
    } else if i == 7 {
        Field::Aviatation
    } else if i == 8 {
        Field::Baseball
    } else if i == 9 {
        Field::Biochemistry
    } else if i == 10 {
        Field::Biology
    } else if i == 11 {
        Field::Botany
    } else if i == 12 {
        Field::Boxing
    } else if i == 13 {
        Field::Buddh
    } else if i == 14 {
        Field::Business
    } else if i == 15 {
        Field::Cards
    } else if i == 16 {
        Field::Chemistry
    } else if i == 17 {
        Field::Christianity
    } else if i == 18 {
        Field::CivilEngineering
    } else if i == 19 {
        Field::ChineseMythology
    } else if i == 20 {
        Field::Clothing
    } else if i == 21 {
        Field::Computing
    } else if i == 22 {
        Field::Crystallography
    } else if i == 23 {
        Field::Dentistry
    } else if i == 24 {
        Field::Ecology
    } else if i == 25 {
        Field::Economy
    } else if i == 26 {
        Field::Electricity
    } else if i == 27 {
        Field::Electronics
    } else if i == 28 {
        Field::Embryology
    } else if i == 29 {
        Field::Engineering
    } else if i == 30 {
        Field::Entomology
    } else if i == 31 {
        Field::Film
    } else if i == 32 {
        Field::Finc
    } else if i == 33 {
        Field::Fish
    } else if i == 34 {
        Field::Food
    } else if i == 35 {
        Field::Gardening
    } else if i == 36 {
        Field::Genetics
    } else if i == 37 {
        Field::Geography
    } else if i == 38 {
        Field::Geology
    } else if i == 39 {
        Field::Geometry
    } else if i == 40 {
        Field::Go
    } else if i == 41 {
        Field::Golf
    } else if i == 42 {
        Field::Grammar
    } else if i == 43 {
        Field::GreekMythology
    } else if i == 44 {
        Field::Hanafuda
    } else if i == 45 {
        Field::Horse
    } else if i == 46 {
        Field::Internet
    } else if i == 47 {
        Field::JapaneseMythology
    } else if i == 48 {
        Field::Kabuki
    } else if i == 49 {
        Field::Law
    } else if i == 50 {
        Field::Ling
    } else if i == 51 {
        Field::Logic
    } else if i == 52 {
        Field::MartialArts
    } else if i == 53 {
        Field::Mahjong
    } else if i == 54 {
        Field::Manga
    } else if i == 55 {
        Field::Mathematics
    } else if i == 56 {
        Field::MechanicalEnginering
    } else if i == 57 {
        Field::Medicine
    } else if i == 58 {
        Field::Meteorology
    } else if i == 59 {
        Field::Military
    } else if i == 60 {
        Field::Mining
    } else if i == 61 {
        Field::Motorsport
    } else if i == 62 {
        Field::Music
    } else if i == 63 {
        Field::Noh
    } else if i == 64 {
        Field::Ornithology
    } else if i == 65 {
        Field::Paleontology
    } else if i == 66 {
        Field::Pathology
    } else if i == 67 {
        Field::Pharmacology
    } else if i == 68 {
        Field::Philosophy
    } else if i == 69 {
        Field::Photo
    } else if i == 70 {
        Field::Physics
    } else if i == 71 {
        Field::Physiol
    } else if i == 72 {
        Field::Politics
    } else if i == 73 {
        Field::Print
    } else if i == 74 {
        Field::ProwRes
    } else if i == 75 {
        Field::Psychatry
    } else if i == 76 {
        Field::Psyanal
    } else if i == 77 {
        Field::Psychology
    } else if i == 78 {
        Field::Railway
    } else if i == 79 {
        Field::RomanMythology
    } else if i == 80 {
        Field::Shinto
    } else if i == 81 {
        Field::Shogi
    } else if i == 82 {
        Field::Skiing
    } else if i == 83 {
        Field::Sports
    } else if i == 84 {
        Field::Statistics
    } else if i == 85 {
        Field::StockMarket
    } else if i == 86 {
        Field::Sumo
    } else if i == 87 {
        Field::Surgery
    } else if i == 88 {
        Field::Telecommunications
    } else if i == 89 {
        Field::Trademark
    } else if i == 90 {
        Field::Tv
    } else if i == 91 {
        Field::VideoGames
    } else {
        Field::Zoology
    }
}

/// Each field, in declaration order.
pub open spec fn field_declared() -> Seq<Field> {
    Seq::new(93, |i: int| field_at(i))
}

/// The field declared at position `i`.
pub fn field_at_exec(i: usize) -> (r: Field)
    requires
        i < 93,
    ensures
        r == field_at(i as int),
{
    match i {
        0 => Field::Agriculture,
        1 => Field::Anatomy,
        2 => Field::Archeology,
        3 => Field::Architecture,
        4 => Field::Art,
        5 => Field::Astronomy,
        6 => Field::AudioVisual,
        7 => Field::Aviatation,
        8 => Field::Baseball,
        9 => Field::Biochemistry,
        10 => Field::Biology,
        11 => Field::Botany,
        12 => Field::Boxing,
        13 => Field::Buddh,
        14 => Field::Business,
        15 => Field::Cards,
        16 => Field::Chemistry,
        17 => Field::Christianity,
        18 => Field::CivilEngineering,
        19 => Field::ChineseMythology,
        20 => Field::Clothing,
        21 => Field::Computing,
        22 => Field::Crystallography,
        23 => Field::Dentistry,
        24 => Field::Ecology,
        25 => Field::Economy,
        26 => Field::Electricity,
        27 => Field::Electronics,
        28 => Field::Embryology,
        29 => Field::Engineering,
        30 => Field::Entomology,
        31 => Field::Film,
        32 => Field::Finc,
        33 => Field::Fish,
        34 => Field::Food,
        35 => Field::Gardening,
        36 => Field::Genetics,
        37 => Field::Geography,
        38 => Field::Geology,
        39 => Field::Geometry,
        40 => Field::Go,
        41 => Field::Golf,
        42 => Field::Grammar,
        43 => Field::GreekMythology,
        44 => Field::Hanafuda,
        45 => Field::Horse,
        46 => Field::Internet,
        47 => Field::JapaneseMythology,
        48 => Field::Kabuki,
        49 => Field::Law,
        50 => Field::Ling,
        51 => Field::Logic,
        52 => Field::MartialArts,
        53 => Field::Mahjong,
        54 => Field::Manga,
        55 => Field::Mathematics,
        56 => Field::MechanicalEnginering,
        57 => Field::Medicine,
        58 => Field::Meteorology,
        59 => Field::Military,
        60 => Field::Mining,
        61 => Field::Motorsport,
        62 => Field::Music,
        63 => Field::Noh,
        64 => Field::Ornithology,
        65 => Field::Paleontology,
        66 => Field::Pathology,
        67 => Field::Pharmacology,
        68 => Field::Philosophy,
        69 => Field::Photo,
        70 => Field::Physics,
        71 => Field::Physiol,
        72 => Field::Politics,
        73 => Field::Print,
        74 => Field::ProwRes,
        75 => Field::Psychatry,
        76 => Field::Psyanal,
        77 => Field::Psychology,
        78 => Field::Railway,
        79 => Field::RomanMythology,
        80 => Field::Shinto,
        81 => Field::Shogi,
        82 => Field::Skiing,
        83 => Field::Sports,
        84 => Field::Statistics,
        85 => Field::StockMarket,
        86 => Field::Sumo,
        87 => Field::Surgery,
        88 => Field::Telecommunications,
        89 => Field::Trademark,
        90 => Field::Tv,
        91 => Field::VideoGames,
        _ => Field::Zoology,
    }
}

/// Test if a list holds a field.
pub fn has_field(v: &Vec<Field>, x: Field) -> (r: bool)
    ensures
        r == v@.contains(x),
{
    let mut i: usize = 0;
    while i < v.len()
        invariant
            i <= v@.len(),
            forall|k: int| 0 <= k < i ==> v@[k] != x,
        decreases v@.len() - i,
    {
        if v[i] == x {
            assert(v@[i as int] == x);
            return true;
        }
        i = i + 1;
    }
    false
}

} // verus!
