//! The entities used by the dictionary to classify its elements, such as
//! parts of speech and kanji or reading information.

use vstd::prelude::*;

use crate::text::str_eq;

verus! {

#[derive(Debug, Clone, Copy, PartialEq, Eq, Structural, Hash)]
pub enum Miscellaneous {
    /// abbreviation
    Abbreviation,
    /// archaic
    Archaic,
    /// character
    Character,
    /// children's language
    Children,
    /// colloquial
    Colloquial,
    /// company name
    Company,
    /// creature
    Creature,
    /// dated term
    Dated,
    /// deity
    Deity,
    /// derogatory
    Derogatory,
    /// document
    Document,
    /// euphemistic
    Euphemistic,
    /// event
    Event,
    /// familiar language
    Familiar,
    /// female term or language
    Feminine,
    /// fiction
    Fict,
    /// formal or literary term
    Form,
    /// given name or forename, gender not specified
    Given,
    /// group
    Group,
    /// historical term
    Historical,
    /// honorific or respectful (sonkeigo) language
    Honorific,
    /// humble (kenjougo) language
    Humble,
    /// idiomatic expression
    Idiomatic,
    /// jocular, humorous term
    Jocular,
    /// legend
    Legend,
    /// manga slang
    MangaSlang,
    /// male term or language
    Male,
    /// mythology
    Mythology,
    /// Internet slang
    NetSlang,
    /// object
    Object,
    /// obsolete term
    Obsolete,
    /// onomatopoeic or mimetic word
    OnMim,
    /// organization name
    Organization,
    /// other
    Other,
    /// full name of a particular person
    Person,
    /// place name
    Place,
    /// poetical term
    Poetic,
    /// polite (teineigo) language
    Polite,
    /// product name
    Product,
    /// proverb
    Proverb,
    /// quotation
    Quote,
    /// rare term
    Rare,
    /// religion
    Relig,
    /// sensitive
    Sens,
    /// service
    Service,
    /// ship name
    Ship,
    /// slang
    Slang,
    /// railway station
    Station,
    /// family or surname
    Surname,
    /// word usually written using kana alone
    UsuallyKana,
    /// unclassified name
    Unclassified,
    /// vulgar expression or word
    Vulgar,
    /// work of art, literature, music, etc. name
    Work,
    /// rude or X-rated term (not displayed in educational software)
    X,
    /// yojijukugo
    Yojijukugo,
}

impl Miscellaneous {
    /// The entity name, as used in the dictionary sources.
    pub open spec fn spec_ident(self) -> Seq<char> {
        match self {
            Miscellaneous::Abbreviation => "abbr"@,
            Miscellaneous::Archaic => "arch"@,
            Miscellaneous::Character => "char"@,
            Miscellaneous::Children => "chn"@,
            Miscellaneous::Colloquial => "col"@,
            Miscellaneous::Company => "company"@,
            Miscellaneous::Creature => "creat"@,
            Miscellaneous::Dated => "dated"@,
            Miscellaneous::Deity => "dei"@,
            Miscellaneous::Derogatory => "derog"@,
            Miscellaneous::Document => "doc"@,
            Miscellaneous::Euphemistic => "euph"@,
            Miscellaneous::Event => "ev"@,
            Miscellaneous::Familiar => "fam"@,
            Miscellaneous::Feminine => "fem"@,
            Miscellaneous::Fict => "fict"@,
            Miscellaneous::Form => "form"@,
            Miscellaneous::Given => "given"@,
            Miscellaneous::Group => "group"@,
            Miscellaneous::Historical => "hist"@,
            Miscellaneous::Honorific => "hon"@,
            Miscellaneous::Humble => "hum"@,
            Miscellaneous::Idiomatic => "id"@,
            Miscellaneous::Jocular => "joc"@,
            Miscellaneous::Legend => "leg"@,
            Miscellaneous::MangaSlang => "m-sl"@,
            Miscellaneous::Male => "male"@,
            Miscellaneous::Mythology => "myth"@,
            Miscellaneous::NetSlang => "net-sl"@,
            Miscellaneous::Object => "obj"@,
            Miscellaneous::Obsolete => "obs"@,
            Miscellaneous::OnMim => "on-mim"@,
            Miscellaneous::Organization => "organization"@,
            Miscellaneous::Other => "oth"@,
            Miscellaneous::Person => "person"@,
            Miscellaneous::Place => "place"@,
            Miscellaneous::Poetic => "poet"@,
            Miscellaneous::Polite => "pol"@,
            Miscellaneous::Product => "product"@,
            Miscellaneous::Proverb => "proverb"@,
            Miscellaneous::Quote => "quote"@,
            Miscellaneous::Rare => "rare"@,
            Miscellaneous::Relig => "relig"@,
            Miscellaneous::Sens => "sens"@,
            Miscellaneous::Service => "serv"@,
            Miscellaneous::Ship => "ship"@,
            Miscellaneous::Slang => "sl"@,
            Miscellaneous::Station => "station"@,
            Miscellaneous::Surname => "surname"@,
            Miscellaneous::UsuallyKana => "uk"@,
            Miscellaneous::Unclassified => "unclass"@,
            Miscellaneous::Vulgar => "vulg"@,
            Miscellaneous::Work => "work"@,
            Miscellaneous::X => "X"@,
            Miscellaneous::Yojijukugo => "yoji"@,
        }
    }

    /// The variant for the given entity name.
    pub open spec fn spec_parse_keyword(s: Seq<char>) -> Option<Miscellaneous> {
        if s == "abbr"@ {
            Some(Miscellaneous::Abbreviation)
        } else if s == "arch"@ {
            Some(Miscellaneous::Archaic)
        } else if s == "char"@ {
            Some(Miscellaneous::Character)
        } else if s == "chn"@ {
            Some(Miscellaneous::Children)
        } else if s == "col"@ {
            Some(Miscellaneous::Colloquial)
        } else if s == "company"@ {
            Some(Miscellaneous::Company)
        } else if s == "creat"@ {
            Some(Miscellaneous::Creature)
        } else if s == "dated"@ {
            Some(Miscellaneous::Dated)
        } else if s == "dei"@ {
            Some(Miscellaneous::Deity)
        } else if s == "derog"@ {
            Some(Miscellaneous::Derogatory)
        } else if s == "doc"@ {
            Some(Miscellaneous::Document)
        } else if s == "euph"@ {
            Some(Miscellaneous::Euphemistic)
        } else if s == "ev"@ {
            Some(Miscellaneous::Event)
        } else if s == "fam"@ {
            Some(Miscellaneous::Familiar)
        } else if s == "fem"@ {
            Some(Miscellaneous::Feminine)
        } else if s == "fict"@ {
            Some(Miscellaneous::Fict)
        } else if s == "form"@ {
            Some(Miscellaneous::Form)
        } else if s == "given"@ {
            Some(Miscellaneous::Given)
        } else if s == "group"@ {
            Some(Miscellaneous::Group)
        } else if s == "hist"@ {
            Some(Miscellaneous::Historical)
        } else if s == "hon"@ {
            Some(Miscellaneous::Honorific)
        } else if s == "hum"@ {
            Some(Miscellaneous::Humble)
        } else if s == "id"@ {
            Some(Miscellaneous::Idiomatic)
        } else if s == "joc"@ {
            Some(Miscellaneous::Jocular)
        } else if s == "leg"@ {
            Some(Miscellaneous::Legend)
        } else if s == "m-sl"@ {
            Some(Miscellaneous::MangaSlang)
        } else if s == "male"@ {
            Some(Miscellaneous::Male)
        } else if s == "myth"@ {
            Some(Miscellaneous::Mythology)
        } else if s == "net-sl"@ {
            Some(Miscellaneous::NetSlang)
        } else if s == "obj"@ {
            Some(Miscellaneous::Object)
        } else if s == "obs"@ {
            Some(Miscellaneous::Obsolete)
        } else if s == "on-mim"@ {
            Some(Miscellaneous::OnMim)
        } else if s == "organization"@ {
            Some(Miscellaneous::Organization)
        } else if s == "oth"@ {
            Some(Miscellaneous::Other)
        } else if s == "person"@ {
            Some(Miscellaneous::Person)
        } else if s == "place"@ {
            Some(Miscellaneous::Place)
        } else if s == "poet"@ {
            Some(Miscellaneous::Poetic)
        } else if s == "pol"@ {
            Some(Miscellaneous::Polite)
        } else if s == "product"@ {
            Some(Miscellaneous::Product)
        } else if s == "proverb"@ {
            Some(Miscellaneous::Proverb)
        } else if s == "quote"@ {
            Some(Miscellaneous::Quote)
        } else if s == "rare"@ {
            Some(Miscellaneous::Rare)
        } else if s == "relig"@ {
            Some(Miscellaneous::Relig)
        } else if s == "sens"@ {
            Some(Miscellaneous::Sens)
        } else if s == "serv"@ {
            Some(Miscellaneous::Service)
        } else if s == "ship"@ {
            Some(Miscellaneous::Ship)
        } else if s == "sl"@ {
            Some(Miscellaneous::Slang)
        } else if s == "station"@ {
            Some(Miscellaneous::Station)
        } else if s == "surname"@ {
            Some(Miscellaneous::Surname)
        } else if s == "uk"@ {
            Some(Miscellaneous::UsuallyKana)
        } else if s == "unclass"@ {
            Some(Miscellaneous::Unclassified)
        } else if s == "vulg"@ {
            Some(Miscellaneous::Vulgar)
        } else if s == "work"@ {
            Some(Miscellaneous::Work)
        } else if s == "X"@ {
            Some(Miscellaneous::X)
        } else if s == "yoji"@ {
            Some(Miscellaneous::Yojijukugo)
        } else {
            None
        }
    }

    /// The variant for the given entity reference, such as `&abbr;`.
    pub open spec fn spec_parse(s: Seq<char>) -> Option<Miscellaneous> {
        if s == "&abbr;"@ {
            Some(Miscellaneous::Abbreviation)
        } else if s == "&arch;"@ {
            Some(Miscellaneous::Archaic)
        } else if s == "&char;"@ {
            Some(Miscellaneous::Character)
        } else if s == "&chn;"@ {
            Some(Miscellaneous::Children)
        } else if s == "&col;"@ {
            Some(Miscellaneous::Colloquial)
        } else if s == "&company;"@ {
            Some(Miscellaneous::Company)
        } else if s == "&creat;"@ {
            Some(Miscellaneous::Creature)
        } else if s == "&dated;"@ {
            Some(Miscellaneous::Dated)
        } else if s == "&dei;"@ {
            Some(Miscellaneous::Deity)
        } else if s == "&derog;"@ {
            Some(Miscellaneous::Derogatory)
        } else if s == "&doc;"@ {
            Some(Miscellaneous::Document)
        } else if s == "&euph;"@ {
            Some(Miscellaneous::Euphemistic)
        } else if s == "&ev;"@ {
            Some(Miscellaneous::Event)
        } else if s == "&fam;"@ {
            Some(Miscellaneous::Familiar)
        } else if s == "&fem;"@ {
            Some(Miscellaneous::Feminine)
        } else if s == "&fict;"@ {
            Some(Miscellaneous::Fict)
        } else if s == "&form;"@ {
            Some(Miscellaneous::Form)
        } else if s == "&given;"@ {
            Some(Miscellaneous::Given)
        } else if s == "&group;"@ {
            Some(Miscellaneous::Group)
        } else if s == "&hist;"@ {
            Some(Miscellaneous::Historical)
        } else if s == "&hon;"@ {
            Some(Miscellaneous::Honorific)
        } else if s == "&hum;"@ {
            Some(Miscellaneous::Humble)
        } else if s == "&id;"@ {
            Some(Miscellaneous::Idiomatic)
        } else if s == "&joc;"@ {
            Some(Miscellaneous::Jocular)
        } else if s == "&leg;"@ {
            Some(Miscellaneous::Legend)
        } else if s == "&m-sl;"@ {
            Some(Miscellaneous::MangaSlang)
        } else if s == "&male;"@ {
            Some(Miscellaneous::Male)
        } else if s == "&myth;"@ {
            Some(Miscellaneous::Mythology)
        } else if s == "&net-sl;"@ {
            Some(Miscellaneous::NetSlang)
        } else if s == "&obj;"@ {
            Some(Miscellaneous::Object)
        } else if s == "&obs;"@ {
            Some(Miscellaneous::Obsolete)
        } else if s == "&on-mim;"@ {
            Some(Miscellaneous::OnMim)
        } else if s == "&organization;"@ {
            Some(Miscellaneous::Organization)
        } else if s == "&oth;"@ {
            Some(Miscellaneous::Other)
        } else if s == "&person;"@ {
            Some(Miscellaneous::Person)
        } else if s == "&place;"@ {
            Some(Miscellaneous::Place)
        } else if s == "&poet;"@ {
            Some(Miscellaneous::Poetic)
        } else if s == "&pol;"@ {
            Some(Miscellaneous::Polite)
        } else if s == "&product;"@ {
            Some(Miscellaneous::Product)
        } else if s == "&proverb;"@ {
            Some(Miscellaneous::Proverb)
        } else if s == "&quote;"@ {
            Some(Miscellaneous::Quote)
        } else if s == "&rare;"@ {
            Some(Miscellaneous::Rare)
        } else if s == "&relig;"@ {
            Some(Miscellaneous::Relig)
        } else if s == "&sens;"@ {
            Some(Miscellaneous::Sens)
        } else if s == "&serv;"@ {
            Some(Miscellaneous::Service)
        } else if s == "&ship;"@ {
            Some(Miscellaneous::Ship)
        } else if s == "&sl;"@ {
            Some(Miscellaneous::Slang)
        } else if s == "&station;"@ {
            Some(Miscellaneous::Station)
        } else if s == "&surname;"@ {
            Some(Miscellaneous::Surname)
        } else if s == "&uk;"@ {
            Some(Miscellaneous::UsuallyKana)
        } else if s == "&unclass;"@ {
            Some(Miscellaneous::Unclassified)
        } else if s == "&vulg;"@ {
            Some(Miscellaneous::Vulgar)
        } else if s == "&work;"@ {
            Some(Miscellaneous::Work)
        } else if s == "&X;"@ {
            Some(Miscellaneous::X)
        } else if s == "&yoji;"@ {
            Some(Miscellaneous::Yojijukugo)
        } else {
            None
        }
    }

    /// The name of the variant.
    pub open spec fn spec_variant(self) -> Seq<char> {
        match self {
            Miscellaneous::Abbreviation => "Abbreviation"@,
            Miscellaneous::Archaic => "Archaic"@,
            Miscellaneous::Character => "Character"@,
            Miscellaneous::Children => "Children"@,
            Miscellaneous::Colloquial => "Colloquial"@,
            Miscellaneous::Company => "Company"@,
            Miscellaneous::Creature => "Creature"@,
            Miscellaneous::Dated => "Dated"@,
            Miscellaneous::Deity => "Deity"@,
            Miscellaneous::Derogatory => "Derogatory"@,
            Miscellaneous::Document => "Document"@,
            Miscellaneous::Euphemistic => "Euphemistic"@,
            Miscellaneous::Event => "Event"@,
            Miscellaneous::Familiar => "Familiar"@,
            Miscellaneous::Feminine => "Feminine"@,
            Miscellaneous::Fict => "Fict"@,
            Miscellaneous::Form => "Form"@,
            Miscellaneous::Given => "Given"@,
            Miscellaneous::Group => "Group"@,
            Miscellaneous::Historical => "Historical"@,
            Miscellaneous::Honorific => "Honorific"@,
            Miscellaneous::Humble => "Humble"@,
            Miscellaneous::Idiomatic => "Idiomatic"@,
            Miscellaneous::Jocular => "Jocular"@,
            Miscellaneous::Legend => "Legend"@,
            Miscellaneous::MangaSlang => "MangaSlang"@,
            Miscellaneous::Male => "Male"@,
            Miscellaneous::Mythology => "Mythology"@,
            Miscellaneous::NetSlang => "NetSlang"@,
            Miscellaneous::Object => "Object"@,
            Miscellaneous::Obsolete => "Obsolete"@,
            Miscellaneous::OnMim => "OnMim"@,
            Miscellaneous::Organization => "Organization"@,
            Miscellaneous::Other => "Other"@,
            Miscellaneous::Person => "Person"@,
            Miscellaneous::Place => "Place"@,
            Miscellaneous::Poetic => "Poetic"@,
            Miscellaneous::Polite => "Polite"@,
            Miscellaneous::Product => "Product"@,
            Miscellaneous::Proverb => "Proverb"@,
            Miscellaneous::Quote => "Quote"@,
            Miscellaneous::Rare => "Rare"@,
            Miscellaneous::Relig => "Relig"@,
            Miscellaneous::Sens => "Sens"@,
            Miscellaneous::Service => "Service"@,
            Miscellaneous::Ship => "Ship"@,
            Miscellaneous::Slang => "Slang"@,
            Miscellaneous::Station => "Station"@,
            Miscellaneous::Surname => "Surname"@,
            Miscellaneous::UsuallyKana => "UsuallyKana"@,
            Miscellaneous::Unclassified => "Unclassified"@,
            Miscellaneous::Vulgar => "Vulgar"@,
            Miscellaneous::Work => "Work"@,
            Miscellaneous::X => "X"@,
            Miscellaneous::Yojijukugo => "Yojijukugo"@,
        }
    }

    /// The name of the variant.
    pub fn variant(&self) -> (r: &'static str)
        ensures
            r@ == self.spec_variant(),
    {
        match self {
            Miscellaneous::Abbreviation => "Abbreviation",
            Miscellaneous::Archaic => "Archaic",
            Miscellaneous::Character => "Character",
            Miscellaneous::Children => "Children",
            Miscellaneous::Colloquial => "Colloquial",
            Miscellaneous::Company => "Company",
            Miscellaneous::Creature => "Creature",
            Miscellaneous::Dated => "Dated",
            Miscellaneous::Deity => "Deity",
            Miscellaneous::Derogatory => "Derogatory",
            Miscellaneous::Document => "Document",
            Miscellaneous::Euphemistic => "Euphemistic",
            Miscellaneous::Event => "Event",
            Miscellaneous::Familiar => "Familiar",
            Miscellaneous::Feminine => "Feminine",
            Miscellaneous::Fict => "Fict",
            Miscellaneous::Form => "Form",
            Miscellaneous::Given => "Given",
            Miscellaneous::Group => "Group",
            Miscellaneous::Historical => "Historical",
            Miscellaneous::Honorific => "Honorific",
            Miscellaneous::Humble => "Humble",
            Miscellaneous::Idiomatic => "Idiomatic",
            Miscellaneous::Jocular => "Jocular",
            Miscellaneous::Legend => "Legend",
            Miscellaneous::MangaSlang => "MangaSlang",
            Miscellaneous::Male => "Male",
            Miscellaneous::Mythology => "Mythology",
            Miscellaneous::NetSlang => "NetSlang",
            Miscellaneous::Object => "Object",
            Miscellaneous::Obsolete => "Obsolete",
            Miscellaneous::OnMim => "OnMim",
            Miscellaneous::Organization => "Organization",
            Miscellaneous::Other => "Other",
            Miscellaneous::Person => "Person",
            Miscellaneous::Place => "Place",
            Miscellaneous::Poetic => "Poetic",
            Miscellaneous::Polite => "Polite",
            Miscellaneous::Product => "Product",
            Miscellaneous::Proverb => "Proverb",
            Miscellaneous::Quote => "Quote",
            Miscellaneous::Rare => "Rare",
            Miscellaneous::Relig => "Relig",
            Miscellaneous::Sens => "Sens",
            Miscellaneous::Service => "Service",
            Miscellaneous::Ship => "Ship",
            Miscellaneous::Slang => "Slang",
            Miscellaneous::Station => "Station",
            Miscellaneous::Surname => "Surname",
            Miscellaneous::UsuallyKana => "UsuallyKana",
            Miscellaneous::Unclassified => "Unclassified",
            Miscellaneous::Vulgar => "Vulgar",
            Miscellaneous::Work => "Work",
            Miscellaneous::X => "X",
            Miscellaneous::Yojijukugo => "Yojijukugo",
        }
    }

    /// The entity name, as used in the dictionary sources.
    pub fn ident(&self) -> (r: &'static str)
        ensures
            r@ == self.spec_ident(),
    {
        match self {
            Miscellaneous::Abbreviation => "abbr",
            Miscellaneous::Archaic => "arch",
            Miscellaneous::Character => "char",
            Miscellaneous::Children => "chn",
            Miscellaneous::Colloquial => "col",
            Miscellaneous::Company => "company",
            Miscellaneous::Creature => "creat",
            Miscellaneous::Dated => "dated",
            Miscellaneous::Deity => "dei",
            Miscellaneous::Derogatory => "derog",
            Miscellaneous::Document => "doc",
            Miscellaneous::Euphemistic => "euph",
            Miscellaneous::Event => "ev",
            Miscellaneous::Familiar => "fam",
            Miscellaneous::Feminine => "fem",
            Miscellaneous::Fict => "fict",
            Miscellaneous::Form => "form",
            Miscellaneous::Given => "given",
            Miscellaneous::Group => "group",
            Miscellaneous::Historical => "hist",
            Miscellaneous::Honorific => "hon",
            Miscellaneous::Humble => "hum",
            Miscellaneous::Idiomatic => "id",
            Miscellaneous::Jocular => "joc",
            Miscellaneous::Legend => "leg",
            Miscellaneous::MangaSlang => "m-sl",
            Miscellaneous::Male => "male",
            Miscellaneous::Mythology => "myth",
            Miscellaneous::NetSlang => "net-sl",
            Miscellaneous::Object => "obj",
            Miscellaneous::Obsolete => "obs",
            Miscellaneous::OnMim => "on-mim",
            Miscellaneous::Organization => "organization",
            Miscellaneous::Other => "oth",
            Miscellaneous::Person => "person",
            Miscellaneous::Place => "place",
            Miscellaneous::Poetic => "poet",
            Miscellaneous::Polite => "pol",
            Miscellaneous::Product => "product",
            Miscellaneous::Proverb => "proverb",
            Miscellaneous::Quote => "quote",
            Miscellaneous::Rare => "rare",
            Miscellaneous::Relig => "relig",
            Miscellaneous::Sens => "sens",
            Miscellaneous::Service => "serv",
            Miscellaneous::Ship => "ship",
            Miscellaneous::Slang => "sl",
            Miscellaneous::Station => "station",
            Miscellaneous::Surname => "surname",
            Miscellaneous::UsuallyKana => "uk",
            Miscellaneous::Unclassified => "unclass",
            Miscellaneous::Vulgar => "vulg",
            Miscellaneous::Work => "work",
            Miscellaneous::X => "X",
            Miscellaneous::Yojijukugo => "yoji",
        }
    }

    /// A description of the entity.
    pub open spec fn spec_help(self) -> Seq<char> {
        match self {
            Miscellaneous::Abbreviation => "abbreviation"@,
            Miscellaneous::Archaic => "archaic"@,
            Miscellaneous::Character => "character"@,
            Miscellaneous::Children => "children's language"@,
            Miscellaneous::Colloquial => "colloquial"@,
            Miscellaneous::Company => "company name"@,
            Miscellaneous::Creature => "creature"@,
            Miscellaneous::Dated => "dated term"@,
            Miscellaneous::Deity => "deity"@,
            Miscellaneous::Derogatory => "derogatory"@,
            Miscellaneous::Document => "document"@,
            Miscellaneous::Euphemistic => "euphemistic"@,
            Miscellaneous::Event => "event"@,
            Miscellaneous::Familiar => "familiar language"@,
            Miscellaneous::Feminine => "female term or language"@,
            Miscellaneous::Fict => "fiction"@,
            Miscellaneous::Form => "formal or literary term"@,
            Miscellaneous::Given => "given name or forename, gender not specified"@,
            Miscellaneous::Group => "group"@,
            Miscellaneous::Historical => "historical term"@,
            Miscellaneous::Honorific => "honorific or respectful (sonkeigo) language"@,
            Miscellaneous::Humble => "humble (kenjougo) language"@,
            Miscellaneous::Idiomatic => "idiomatic expression"@,
            Miscellaneous::Jocular => "jocular, humorous term"@,
            Miscellaneous::Legend => "legend"@,
            Miscellaneous::MangaSlang => "manga slang"@,
            Miscellaneous::Male => "male term or language"@,
            Miscellaneous::Mythology => "mythology"@,
            Miscellaneous::NetSlang => "Internet slang"@,
            Miscellaneous::Object => "object"@,
            Miscellaneous::Obsolete => "obsolete term"@,
            Miscellaneous::OnMim => "onomatopoeic or mimetic word"@,
            Miscellaneous::Organization => "organization name"@,
            Miscellaneous::Other => "other"@,
            Miscellaneous::Person => "full name of a particular person"@,
            Miscellaneous::Place => "place name"@,
            Miscellaneous::Poetic => "poetical term"@,
            Miscellaneous::Polite => "polite (teineigo) language"@,
            Miscellaneous::Product => "product name"@,
            Miscellaneous::Proverb => "proverb"@,
            Miscellaneous::Quote => "quotation"@,
            Miscellaneous::Rare => "rare term"@,
            Miscellaneous::Relig => "religion"@,
            Miscellaneous::Sens => "sensitive"@,
            Miscellaneous::Service => "service"@,
            Miscellaneous::Ship => "ship name"@,
            Miscellaneous::Slang => "slang"@,
            Miscellaneous::Station => "railway station"@,
            Miscellaneous::Surname => "family or surname"@,
            Miscellaneous::UsuallyKana => "word usually written using kana alone"@,
            Miscellaneous::Unclassified => "unclassified name"@,
            Miscellaneous::Vulgar => "vulgar expression or word"@,
            Miscellaneous::Work => "work of art, literature, music, etc. name"@,
            Miscellaneous::X => "rude or X-rated term (not displayed in educational software)"@,
            Miscellaneous::Yojijukugo => "yojijukugo"@,
        }
    }

    /// A description of the entity.
    pub fn help(&self) -> (r: &'static str)
        ensures
            r@ == self.spec_help(),
    {
        match self {
            Miscellaneous::Abbreviation => "abbreviation",
            Miscellaneous::Archaic => "archaic",
            Miscellaneous::Character => "character",
            Miscellaneous::Children => "children's language",
            Miscellaneous::Colloquial => "colloquial",
            Miscellaneous::Company => "company name",
            Miscellaneous::Creature => "creature",
            Miscellaneous::Dated => "dated term",
            Miscellaneous::Deity => "deity",
            Miscellaneous::Derogatory => "derogatory",
            Miscellaneous::Document => "document",
            Miscellaneous::Euphemistic => "euphemistic",
            Miscellaneous::Event => "event",
            Miscellaneous::Familiar => "familiar language",
            Miscellaneous::Feminine => "female term or language",
            Miscellaneous::Fict => "fiction",
            Miscellaneous::Form => "formal or literary term",
            Miscellaneous::Given => "given name or forename, gender not specified",
            Miscellaneous::Group => "group",
            Miscellaneous::Historical => "historical term",
            Miscellaneous::Honorific => "honorific or respectful (sonkeigo) language",
            Miscellaneous::Humble => "humble (kenjougo) language",
            Miscellaneous::Idiomatic => "idiomatic expression",
            Miscellaneous::Jocular => "jocular, humorous term",
            Miscellaneous::Legend => "legend",
            Miscellaneous::MangaSlang => "manga slang",
            Miscellaneous::Male => "male term or language",
            Miscellaneous::Mythology => "mythology",
            Miscellaneous::NetSlang => "Internet slang",
            Miscellaneous::Object => "object",
            Miscellaneous::Obsolete => "obsolete term",
            Miscellaneous::OnMim => "onomatopoeic or mimetic word",
            Miscellaneous::Organization => "organization name",
            Miscellaneous::Other => "other",
            Miscellaneous::Person => "full name of a particular person",
            Miscellaneous::Place => "place name",
            Miscellaneous::Poetic => "poetical term",
            Miscellaneous::Polite => "polite (teineigo) language",
            Miscellaneous::Product => "product name",
            Miscellaneous::Proverb => "proverb",
            Miscellaneous::Quote => "quotation",
            Miscellaneous::Rare => "rare term",
            Miscellaneous::Relig => "religion",
            Miscellaneous::Sens => "sensitive",
            Miscellaneous::Service => "service",
            Miscellaneous::Ship => "ship name",
            Miscellaneous::Slang => "slang",
            Miscellaneous::Station => "railway station",
            Miscellaneous::Surname => "family or surname",
            Miscellaneous::UsuallyKana => "word usually written using kana alone",
            Miscellaneous::Unclassified => "unclassified name",
            Miscellaneous::Vulgar => "vulgar expression or word",
            Miscellaneous::Work => "work of art, literature, music, etc. name",
            Miscellaneous::X => "rude or X-rated term (not displayed in educational software)",
            Miscellaneous::Yojijukugo => "yojijukugo",
        }
    }

    /// Parse an entity name.
    pub fn parse_keyword(string: &str) -> (r: Option<Miscellaneous>)
        ensures
            r == Self::spec_parse_keyword(string@),
    {
        if str_eq(string, "abbr") {
            return Some(Miscellaneous::Abbreviation);
        }
        if str_eq(string, "arch") {
            return Some(Miscellaneous::Archaic);
        }
        if str_eq(string, "char") {
            return Some(Miscellaneous::Character);
        }
        if str_eq(string, "chn") {
            return Some(Miscellaneous::Children);
        }
        if str_eq(string, "col") {
            return Some(Miscellaneous::Colloquial);
        }
        if str_eq(string, "company") {
            return Some(Miscellaneous::Company);
        }
        if str_eq(string, "creat") {
            return Some(Miscellaneous::Creature);
        }
        if str_eq(string, "dated") {
            return Some(Miscellaneous::Dated);
        }
        if str_eq(string, "dei") {
            return Some(Miscellaneous::Deity);
        }
        if str_eq(string, "derog") {
            return Some(Miscellaneous::Derogatory);
        }
        if str_eq(string, "doc") {
            return Some(Miscellaneous::Document);
        }
        if str_eq(string, "euph") {
            return Some(Miscellaneous::Euphemistic);
        }
        if str_eq(string, "ev") {
            return Some(Miscellaneous::Event);
        }
        if str_eq(string, "fam") {
            return Some(Miscellaneous::Familiar);
        }
        if str_eq(string, "fem") {
            return Some(Miscellaneous::Feminine);
        }
        if str_eq(string, "fict") {
            return Some(Miscellaneous::Fict);
        }
        if str_eq(string, "form") {
            return Some(Miscellaneous::Form);
        }
        if str_eq(string, "given") {
            return Some(Miscellaneous::Given);
        }
        if str_eq(string, "group") {
            return Some(Miscellaneous::Group);
        }
        if str_eq(string, "hist") {
            return Some(Miscellaneous::Historical);
        }
        if str_eq(string, "hon") {
            return Some(Miscellaneous::Honorific);
        }
        if str_eq(string, "hum") {
            return Some(Miscellaneous::Humble);
        }
        if str_eq(string, "id") {
            return Some(Miscellaneous::Idiomatic);
        }
        if str_eq(string, "joc") {
            return Some(Miscellaneous::Jocular);
        }
        if str_eq(string, "leg") {
            return Some(Miscellaneous::Legend);
        }
        if str_eq(string, "m-sl") {
            return Some(Miscellaneous::MangaSlang);
        }
        if str_eq(string, "male") {
            return Some(Miscellaneous::Male);
        }
        if str_eq(string, "myth") {
            return Some(Miscellaneous::Mythology);
        }
        if str_eq(string, "net-sl") {
            return Some(Miscellaneous::NetSlang);
        }
        if str_eq(string, "obj") {
            return Some(Miscellaneous::Object);
        }
        if str_eq(string, "obs") {
            return Some(Miscellaneous::Obsolete);
        }
        if str_eq(string, "on-mim") {
            return Some(Miscellaneous::OnMim);
        }
        if str_eq(string, "organization") {
            return Some(Miscellaneous::Organization);
        }
        if str_eq(string, "oth") {
            return Some(Miscellaneous::Other);
        }
        if str_eq(string, "person") {
            return Some(Miscellaneous::Person);
        }
        if str_eq(string, "place") {
            return Some(Miscellaneous::Place);
        }
        if str_eq(string, "poet") {
            return Some(Miscellaneous::Poetic);
        }
        if str_eq(string, "pol") {
            return Some(Miscellaneous::Polite);
        }
        if str_eq(string, "product") {
            return Some(Miscellaneous::Product);
        }
        if str_eq(string, "proverb") {
            return Some(Miscellaneous::Proverb);
        }
        if str_eq(string, "quote") {
            return Some(Miscellaneous::Quote);
        }
        if str_eq(string, "rare") {
            return Some(Miscellaneous::Rare);
        }
        if str_eq(string, "relig") {
            return Some(Miscellaneous::Relig);
        }
        if str_eq(string, "sens") {
            return Some(Miscellaneous::Sens);
        }
        if str_eq(string, "serv") {
            return Some(Miscellaneous::Service);
        }
        if str_eq(string, "ship") {
            return Some(Miscellaneous::Ship);
        }
        if str_eq(string, "sl") {
            return Some(Miscellaneous::Slang);
        }
        if str_eq(string, "station") {
            return Some(Miscellaneous::Station);
        }
        if str_eq(string, "surname") {
            return Some(Miscellaneous::Surname);
        }
        if str_eq(string, "uk") {
            return Some(Miscellaneous::UsuallyKana);
        }
        if str_eq(string, "unclass") {
            return Some(Miscellaneous::Unclassified);
        }
        if str_eq(string, "vulg") {
            return Some(Miscellaneous::Vulgar);
        }
        if str_eq(string, "work") {
            return Some(Miscellaneous::Work);
        }
        if str_eq(string, "X") {
            return Some(Miscellaneous::X);
        }
        if str_eq(string, "yoji") {
            return Some(Miscellaneous::Yojijukugo);
        }
        None
    }

    /// Parse an entity reference, such as `&abbr;`.
    pub fn parse(string: &str) -> (r: Option<Miscellaneous>)
        ensures
            r == Self::spec_parse(string@),
    {
        if str_eq(string, "&abbr;") {
            return Some(Miscellaneous::Abbreviation);
        }
        if str_eq(string, "&arch;") {
            return Some(Miscellaneous::Archaic);
        }
        if str_eq(string, "&char;") {
            return Some(Miscellaneous::Character);
        }
        if str_eq(string, "&chn;") {
            return Some(Miscellaneous::Children);
        }
        if str_eq(string, "&col;") {
            return Some(Miscellaneous::Colloquial);
        }
        if str_eq(string, "&company;") {
            return Some(Miscellaneous::Company);
        }
        if str_eq(string, "&creat;") {
            return Some(Miscellaneous::Creature);
        }
        if str_eq(string, "&dated;") {
            return Some(Miscellaneous::Dated);
        }
        if str_eq(string, "&dei;") {
            return Some(Miscellaneous::Deity);
        }
        if str_eq(string, "&derog;") {
            return Some(Miscellaneous::Derogatory);
        }
        if str_eq(string, "&doc;") {
            return Some(Miscellaneous::Document);
        }
        if str_eq(string, "&euph;") {
            return Some(Miscellaneous::Euphemistic);
        }
        if str_eq(string, "&ev;") {
            return Some(Miscellaneous::Event);
        }
        if str_eq(string, "&fam;") {
            return Some(Miscellaneous::Familiar);
        }
        if str_eq(string, "&fem;") {
            return Some(Miscellaneous::Feminine);
        }
        if str_eq(string, "&fict;") {
            return Some(Miscellaneous::Fict);
        }
        if str_eq(string, "&form;") {
            return Some(Miscellaneous::Form);
        }
        if str_eq(string, "&given;") {
            return Some(Miscellaneous::Given);
        }
        if str_eq(string, "&group;") {
            return Some(Miscellaneous::Group);
        }
        if str_eq(string, "&hist;") {
            return Some(Miscellaneous::Historical);
        }
        if str_eq(string, "&hon;") {
            return Some(Miscellaneous::Honorific);
        }
        if str_eq(string, "&hum;") {
            return Some(Miscellaneous::Humble);
        }
        if str_eq(string, "&id;") {
            return Some(Miscellaneous::Idiomatic);
        }
        if str_eq(string, "&joc;") {
            return Some(Miscellaneous::Jocular);
        }
        if str_eq(string, "&leg;") {
            return Some(Miscellaneous::Legend);
        }
        if str_eq(string, "&m-sl;") {
            return Some(Miscellaneous::MangaSlang);
        }
        if str_eq(string, "&male;") {
            return Some(Miscellaneous::Male);
        }
        if str_eq(string, "&myth;") {
            return Some(Miscellaneous::Mythology);
        }
        if str_eq(string, "&net-sl;") {
            return Some(Miscellaneous::NetSlang);
        }
        if str_eq(string, "&obj;") {
            return Some(Miscellaneous::Object);
        }
        if str_eq(string, "&obs;") {
            return Some(Miscellaneous::Obsolete);
        }
        if str_eq(string, "&on-mim;") {
            return Some(Miscellaneous::OnMim);
        }
        if str_eq(string, "&organization;") {
            return Some(Miscellaneous::Organization);
        }
        if str_eq(string, "&oth;") {
            return Some(Miscellaneous::Other);
        }
        if str_eq(string, "&person;") {
            return Some(Miscellaneous::Person);
        }
        if str_eq(string, "&place;") {
            return Some(Miscellaneous::Place);
        }
        if str_eq(string, "&poet;") {
            return Some(Miscellaneous::Poetic);
        }
        if str_eq(string, "&pol;") {
            return Some(Miscellaneous::Polite);
        }
        if str_eq(string, "&product;") {
            return Some(Miscellaneous::Product);
        }
        if str_eq(string, "&proverb;") {
            return Some(Miscellaneous::Proverb);
        }
        if str_eq(string, "&quote;") {
            return Some(Miscellaneous::Quote);
        }
        if str_eq(string, "&rare;") {
            return Some(Miscellaneous::Rare);
        }
        if str_eq(string, "&relig;") {
            return Some(Miscellaneous::Relig);
        }
        if str_eq(string, "&sens;") {
            return Some(Miscellaneous::Sens);
        }
        if str_eq(string, "&serv;") {
            return Some(Miscellaneous::Service);
        }
        if str_eq(string, "&ship;") {
            return Some(Miscellaneous::Ship);
        }
        if str_eq(string, "&sl;") {
            return Some(Miscellaneous::Slang);
        }
        if str_eq(string, "&station;") {
            return Some(Miscellaneous::Station);
        }
        if str_eq(string, "&surname;") {
            return Some(Miscellaneous::Surname);
        }
        if str_eq(string, "&uk;") {
            return Some(Miscellaneous::UsuallyKana);
        }
        if str_eq(string, "&unclass;") {
            return Some(Miscellaneous::Unclassified);
        }
        if str_eq(string, "&vulg;") {
            return Some(Miscellaneous::Vulgar);
        }
        if str_eq(string, "&work;") {
            return Some(Miscellaneous::Work);
        }
        if str_eq(string, "&X;") {
            return Some(Miscellaneous::X);
        }
        if str_eq(string, "&yoji;") {
            return Some(Miscellaneous::Yojijukugo);
        }
        None
    }

}

#[derive(Debug, Clone, Copy, PartialEq, Eq, Structural, Hash)]
pub enum PartOfSpeech {
    /// noun or verb acting prenominally
    AdjectiveF,
    /// adjective (keiyoushi)
    AdjectiveI,
    /// adjective (keiyoushi) - yoi/ii class
    AdjectiveIx,
    /// 'kari' adjective (archaic)
    AdjectiveKari,
    /// 'ku' adjective (archaic)
    AdjectiveKu,
    /// adjectival nouns or quasi-adjectives (keiyodoshi)
    AdjectiveNa,
    /// archaic/formal form of na-adjective
    AdjectiveNari,
    /// nouns which may take the genitive case particle 'no'
    AdjectiveNo,
    /// pre-noun adjectival (rentaishi)
    AdjectivePn,
    /// 'shiku' adjective (archaic)
    AdjectiveShiku,
    /// 'taru' adjective
    AdjectiveT,
    /// adverb (fukushi)
    Adverb,
    /// adverb taking the 'to' particle
    AdverbTo,
    /// auxiliary
    Auxiliary,
    /// auxiliary adjective
    AuxiliaryAdjective,
    /// auxiliary verb
    AuxiliaryVerb,
    /// conjunction
    Conjunction,
    /// copula
    Copular,
    /// counter
    Counter,
    /// expressions (phrases, clauses, etc.)
    Expression,
    /// interjection (kandoushi)
    Interjection,
    /// noun (common) (futsuumeishi)
    Noun,
    /// adverbial noun (fukushitekimeishi)
    NounAdverbial,
    /// proper noun
    NounProper,
    /// noun, used as a prefix
    NounPrefix,
    /// noun, used as a suffix
    NounSuffix,
    /// noun (temporal) (jisoumeishi)
    NounTemporal,
    /// numeric
    Numeric,
    /// pronoun
    Pronoun,
    /// prefix
    Prefix,
    /// particle
    Particle,
    /// suffix
    Suffix,
    /// unclassified
    Unclassified,
    /// verb unspecified
    VerbUnspecified,
    /// Ichidan verb
    VerbIchidan,
    /// Ichidan verb - kureru special class
    VerbIchidanS,
    /// Nidan verb with 'u' ending (archaic)
    VerbNidanAS,
    /// Nidan verb (upper class) with 'bu' ending (archaic)
    VerbNidanBK,
    /// Nidan verb (lower class) with 'bu' ending (archaic)
    VerbNidanBS,
    /// Nidan verb (upper class) with 'dzu' ending (archaic)
    VerbNidanDK,
    /// Nidan verb (lower class) with 'dzu' ending (archaic)
    VerbNidanDS,
    /// Nidan verb (upper class) with 'gu' ending (archaic)
    VerbNidanGK,
    /// Nidan verb (lower class) with 'gu' ending (archaic)
    VerbNidanGS,
    /// Nidan verb (upper class) with 'hu/fu' ending (archaic)
    VerbNidanHK,
    /// Nidan verb (lower class) with 'hu/fu' ending (archaic)
    VerbNidanHS,
    /// Nidan verb (upper class) with 'ku' ending (archaic)
    VerbNidanKK,
    /// Nidan verb (lower class) with 'ku' ending (archaic)
    VerbNidanKS,
    /// Nidan verb (upper class) with 'mu' ending (archaic)
    VerbNidanMK,
    /// Nidan verb (lower class) with 'mu' ending (archaic)
    VerbNidanMS,
    /// Nidan verb (lower class) with 'nu' ending (archaic)
    VerbNidanNS,
    /// Nidan verb (upper class) with 'ru' ending (archaic)
    VerbNidanRK,
    /// Nidan verb (lower class) with 'ru' ending (archaic)
    VerbNidanRS,
    /// Nidan verb (lower class) with 'su' ending (archaic)
    VerbNidanSS,
    /// Nidan verb (upper class) with 'tsu' ending (archaic)
    VerbNidanTK,
    /// Nidan verb (lower class) with 'tsu' ending (archaic)
    VerbNidanTS,
    /// Nidan verb (lower class) with 'u' ending and 'we' conjugation (archaic)
    VerbNidanWS,
    /// Nidan verb (upper class) with 'yu' ending (archaic)
    VerbNidanYK,
    /// Nidan verb (lower class) with 'yu' ending (archaic)
    VerbNidanYS,
    /// Nidan verb (lower class) with 'zu' ending (archaic)
    VerbNidanZS,
    /// Yodan verb with 'bu' ending (archaic)
    VerbYodanB,
    /// Yodan verb with 'gu' ending (archaic)
    VerbYodanG,
    /// Yodan verb with 'hu/fu' ending (archaic)
    VerbYodanH,
    /// Yodan verb with 'ku' ending (archaic)
    VerbYodanK,
    /// Yodan verb with 'mu' ending (archaic)
    VerbYodanM,
    /// Yodan verb with 'nu' ending (archaic)
    VerbYodanN,
    /// Yodan verb with 'ru' ending (archaic)
    VerbYodanR,
    /// Yodan verb with 'su' ending (archaic)
    VerbYodanS,
    /// Yodan verb with 'tsu' ending (archaic)
    VerbYodanT,
    /// Godan verb - -aru special class
    VerbGodanAru,
    /// Godan verb with 'bu' ending
    VerbGodanB,
    /// Godan verb with 'gu' ending
    VerbGodanG,
    /// Godan verb with 'ku' ending
    VerbGodanK,
    /// Godan verb - Iku/Yuku special class
    VerbGodanKS,
    /// Godan verb with 'mu' ending
    VerbGodanM,
    /// Godan verb with 'nu' ending
    VerbGodanN,
    /// Godan verb with 'ru' ending
    VerbGodanR,
    /// Godan verb with 'ru' ending (irregular verb)
    VerbGodanRI,
    /// Godan verb with 'su' ending
    VerbGodanS,
    /// Godan verb with 'tsu' ending
    VerbGodanT,
    /// Godan verb with 'u' ending
    VerbGodanU,
    /// Godan verb with 'u' ending (special class)
    VerbGodanUS,
    /// Godan verb - Uru old class verb (old form of Eru)
    VerbGodanUru,
    /// intransitive verb
    VerbIntransitive,
    /// Kuru verb - special class
    VerbKuru,
    /// irregular nu verb
    VerbNu,
    /// irregular ru verb, plain form ends with -ri
    VerbRu,
    /// noun or participle which takes the aux. verb suru
    VerbSuru,
    /// su verb - precursor to the modern suru
    VerbSuC,
    /// suru verb - included
    VerbSuruIncluded,
    /// suru verb - special class
    VerbSuruSpecial,
    /// transitive verb
    VerbTransitive,
    /// Ichidan verb - zuru verb (alternative form of -jiru verbs)
    VerbZuru,
}

impl PartOfSpeech {
    /// The entity name, as used in the dictionary sources.
    pub open spec fn spec_ident(self) -> Seq<char> {
        match self {
            PartOfSpeech::AdjectiveF => "adj-f"@,
            PartOfSpeech::AdjectiveI => "adj-i"@,
            PartOfSpeech::AdjectiveIx => "adj-ix"@,
            PartOfSpeech::AdjectiveKari => "adj-kari"@,
            PartOfSpeech::AdjectiveKu => "adj-ku"@,
            PartOfSpeech::AdjectiveNa => "adj-na"@,
            PartOfSpeech::AdjectiveNari => "adj-nari"@,
            PartOfSpeech::AdjectiveNo => "adj-no"@,
            PartOfSpeech::AdjectivePn => "adj-pn"@,
            PartOfSpeech::AdjectiveShiku => "adj-shiku"@,
            PartOfSpeech::AdjectiveT => "adj-t"@,
            PartOfSpeech::Adverb => "adv"@,
            PartOfSpeech::AdverbTo => "adv-to"@,
            PartOfSpeech::Auxiliary => "aux"@,
            PartOfSpeech::AuxiliaryAdjective => "aux-adj"@,
            PartOfSpeech::AuxiliaryVerb => "aux-v"@,
            PartOfSpeech::Conjunction => "conj"@,
            PartOfSpeech::Copular => "cop"@,
            PartOfSpeech::Counter => "ctr"@,
            PartOfSpeech::Expression => "exp"@,
            PartOfSpeech::Interjection => "int"@,
            PartOfSpeech::Noun => "n"@,
            PartOfSpeech::NounAdverbial => "n-adv"@,
            PartOfSpeech::NounProper => "n-pr"@,
            PartOfSpeech::NounPrefix => "n-pref"@,
            PartOfSpeech::NounSuffix => "n-suf"@,
            PartOfSpeech::NounTemporal => "n-t"@,
            PartOfSpeech::Numeric => "num"@,
            PartOfSpeech::Pronoun => "pn"@,
            PartOfSpeech::Prefix => "pref"@,
            PartOfSpeech::Particle => "prt"@,
            PartOfSpeech::Suffix => "suf"@,
            PartOfSpeech::Unclassified => "unc"@,
            PartOfSpeech::VerbUnspecified => "v-unspec"@,
            PartOfSpeech::VerbIchidan => "v1"@,
            PartOfSpeech::VerbIchidanS => "v1-s"@,
            PartOfSpeech::VerbNidanAS => "v2a-s"@,
            PartOfSpeech::VerbNidanBK => "v2b-k"@,
            PartOfSpeech::VerbNidanBS => "v2b-s"@,
            PartOfSpeech::VerbNidanDK => "v2d-k"@,
            PartOfSpeech::VerbNidanDS => "v2d-s"@,
            PartOfSpeech::VerbNidanGK => "v2g-k"@,
            PartOfSpeech::VerbNidanGS => "v2g-s"@,
            PartOfSpeech::VerbNidanHK => "v2h-k"@,
            PartOfSpeech::VerbNidanHS => "v2h-s"@,
            PartOfSpeech::VerbNidanKK => "v2k-k"@,
            PartOfSpeech::VerbNidanKS => "v2k-s"@,
            PartOfSpeech::VerbNidanMK => "v2m-k"@,
            PartOfSpeech::VerbNidanMS => "v2m-s"@,
            PartOfSpeech::VerbNidanNS => "v2n-s"@,
            PartOfSpeech::VerbNidanRK => "v2r-k"@,
            PartOfSpeech::VerbNidanRS => "v2r-s"@,
            PartOfSpeech::VerbNidanSS => "v2s-s"@,
            PartOfSpeech::VerbNidanTK => "v2t-k"@,
            PartOfSpeech::VerbNidanTS => "v2t-s"@,
            PartOfSpeech::VerbNidanWS => "v2w-s"@,
            PartOfSpeech::VerbNidanYK => "v2y-k"@,
            PartOfSpeech::VerbNidanYS => "v2y-s"@,
            PartOfSpeech::VerbNidanZS => "v2z-s"@,
            PartOfSpeech::VerbYodanB => "v4b"@,
            PartOfSpeech::VerbYodanG => "v4g"@,
            PartOfSpeech::VerbYodanH => "v4h"@,
            PartOfSpeech::VerbYodanK => "v4k"@,
            PartOfSpeech::VerbYodanM => "v4m"@,
            PartOfSpeech::VerbYodanN => "v4n"@,
            PartOfSpeech::VerbYodanR => "v4r"@,
            PartOfSpeech::VerbYodanS => "v4s"@,
            PartOfSpeech::VerbYodanT => "v4t"@,
            PartOfSpeech::VerbGodanAru => "v5aru"@,
            PartOfSpeech::VerbGodanB => "v5b"@,
            PartOfSpeech::VerbGodanG => "v5g"@,
            PartOfSpeech::VerbGodanK => "v5k"@,
            PartOfSpeech::VerbGodanKS => "v5k-s"@,
            PartOfSpeech::VerbGodanM => "v5m"@,
            PartOfSpeech::VerbGodanN => "v5n"@,
            PartOfSpeech::VerbGodanR => "v5r"@,
            PartOfSpeech::VerbGodanRI => "v5r-i"@,
            PartOfSpeech::VerbGodanS => "v5s"@,
            PartOfSpeech::VerbGodanT => "v5t"@,
            PartOfSpeech::VerbGodanU => "v5u"@,
            PartOfSpeech::VerbGodanUS => "v5u-s"@,
            PartOfSpeech::VerbGodanUru => "v5uru"@,
            PartOfSpeech::VerbIntransitive => "vi"@,
            PartOfSpeech::VerbKuru => "vk"@,
            PartOfSpeech::VerbNu => "vn"@,
            PartOfSpeech::VerbRu => "vr"@,
            PartOfSpeech::VerbSuru => "vs"@,
            PartOfSpeech::VerbSuC => "vs-c"@,
            PartOfSpeech::VerbSuruIncluded => "vs-i"@,
            PartOfSpeech::VerbSuruSpecial => "vs-s"@,
            PartOfSpeech::VerbTransitive => "vt"@,
            PartOfSpeech::VerbZuru => "vz"@,
        }
    }

    /// The variant for the given entity name.
    pub open spec fn spec_parse_keyword(s: Seq<char>) -> Option<PartOfSpeech> {
        if s == "adj-f"@ {
            Some(PartOfSpeech::AdjectiveF)
        } else if s == "adj-i"@ {
            Some(PartOfSpeech::AdjectiveI)
        } else if s == "adj-ix"@ {
            Some(PartOfSpeech::AdjectiveIx)
        } else if s == "adj-kari"@ {
            Some(PartOfSpeech::AdjectiveKari)
        } else if s == "adj-ku"@ {
            Some(PartOfSpeech::AdjectiveKu)
        } else if s == "adj-na"@ {
            Some(PartOfSpeech::AdjectiveNa)
        } else if s == "adj-nari"@ {
            Some(PartOfSpeech::AdjectiveNari)
        } else if s == "adj-no"@ {
            Some(PartOfSpeech::AdjectiveNo)
        } else if s == "adj-pn"@ {
            Some(PartOfSpeech::AdjectivePn)
        } else if s == "adj-shiku"@ {
            Some(PartOfSpeech::AdjectiveShiku)
        } else if s == "adj-t"@ {
            Some(PartOfSpeech::AdjectiveT)
        } else if s == "adv"@ {
            Some(PartOfSpeech::Adverb)
        } else if s == "adv-to"@ {
            Some(PartOfSpeech::AdverbTo)
        } else if s == "aux"@ {
            Some(PartOfSpeech::Auxiliary)
        } else if s == "aux-adj"@ {
            Some(PartOfSpeech::AuxiliaryAdjective)
        } else if s == "aux-v"@ {
            Some(PartOfSpeech::AuxiliaryVerb)
        } else if s == "conj"@ {
            Some(PartOfSpeech::Conjunction)
        } else if s == "cop"@ {
            Some(PartOfSpeech::Copular)
        } else if s == "ctr"@ {
            Some(PartOfSpeech::Counter)
        } else if s == "exp"@ {
            Some(PartOfSpeech::Expression)
        } else if s == "int"@ {
            Some(PartOfSpeech::Interjection)
        } else if s == "n"@ {
            Some(PartOfSpeech::Noun)
        } else if s == "n-adv"@ {
            Some(PartOfSpeech::NounAdverbial)
        } else if s == "n-pr"@ {
            Some(PartOfSpeech::NounProper)
        } else if s == "n-pref"@ {
            Some(PartOfSpeech::NounPrefix)
        } else if s == "n-suf"@ {
            Some(PartOfSpeech::NounSuffix)
        } else if s == "n-t"@ {
            Some(PartOfSpeech::NounTemporal)
        } else if s == "num"@ {
            Some(PartOfSpeech::Numeric)
        } else if s == "pn"@ {
            Some(PartOfSpeech::Pronoun)
        } else if s == "pref"@ {
            Some(PartOfSpeech::Prefix)
        } else if s == "prt"@ {
            Some(PartOfSpeech::Particle)
        } else if s == "suf"@ {
            Some(PartOfSpeech::Suffix)
        } else if s == "unc"@ {
            Some(PartOfSpeech::Unclassified)
        } else if s == "v-unspec"@ {
            Some(PartOfSpeech::VerbUnspecified)
        } else if s == "v1"@ {
            Some(PartOfSpeech::VerbIchidan)
        } else if s == "v1-s"@ {
            Some(PartOfSpeech::VerbIchidanS)
        } else if s == "v2a-s"@ {
            Some(PartOfSpeech::VerbNidanAS)
        } else if s == "v2b-k"@ {
            Some(PartOfSpeech::VerbNidanBK)
        } else if s == "v2b-s"@ {
            Some(PartOfSpeech::VerbNidanBS)
        } else if s == "v2d-k"@ {
            Some(PartOfSpeech::VerbNidanDK)
        } else if s == "v2d-s"@ {
            Some(PartOfSpeech::VerbNidanDS)
        } else if s == "v2g-k"@ {
            Some(PartOfSpeech::VerbNidanGK)
        } else if s == "v2g-s"@ {
            Some(PartOfSpeech::VerbNidanGS)
        } else if s == "v2h-k"@ {
            Some(PartOfSpeech::VerbNidanHK)
        } else if s == "v2h-s"@ {
            Some(PartOfSpeech::VerbNidanHS)
        } else if s == "v2k-k"@ {
            Some(PartOfSpeech::VerbNidanKK)
        } else if s == "v2k-s"@ {
            Some(PartOfSpeech::VerbNidanKS)
        } else if s == "v2m-k"@ {
            Some(PartOfSpeech::VerbNidanMK)
        } else if s == "v2m-s"@ {
            Some(PartOfSpeech::VerbNidanMS)
        } else if s == "v2n-s"@ {
            Some(PartOfSpeech::VerbNidanNS)
        } else if s == "v2r-k"@ {
            Some(PartOfSpeech::VerbNidanRK)
        } else if s == "v2r-s"@ {
            Some(PartOfSpeech::VerbNidanRS)
        } else if s == "v2s-s"@ {
            Some(PartOfSpeech::VerbNidanSS)
        } else if s == "v2t-k"@ {
            Some(PartOfSpeech::VerbNidanTK)
        } else if s == "v2t-s"@ {
            Some(PartOfSpeech::VerbNidanTS)
        } else if s == "v2w-s"@ {
            Some(PartOfSpeech::VerbNidanWS)
        } else if s == "v2y-k"@ {
            Some(PartOfSpeech::VerbNidanYK)
        } else if s == "v2y-s"@ {
            Some(PartOfSpeech::VerbNidanYS)
        } else if s == "v2z-s"@ {
            Some(PartOfSpeech::VerbNidanZS)
        } else if s == "v4b"@ {
            Some(PartOfSpeech::VerbYodanB)
        } else if s == "v4g"@ {
            Some(PartOfSpeech::VerbYodanG)
        } else if s == "v4h"@ {
            Some(PartOfSpeech::VerbYodanH)
        } else if s == "v4k"@ {
            Some(PartOfSpeech::VerbYodanK)
        } else if s == "v4m"@ {
            Some(PartOfSpeech::VerbYodanM)
        } else if s == "v4n"@ {
            Some(PartOfSpeech::VerbYodanN)
        } else if s == "v4r"@ {
            Some(PartOfSpeech::VerbYodanR)
        } else if s == "v4s"@ {
            Some(PartOfSpeech::VerbYodanS)
        } else if s == "v4t"@ {
            Some(PartOfSpeech::VerbYodanT)
        } else if s == "v5aru"@ {
            Some(PartOfSpeech::VerbGodanAru)
        } else if s == "v5b"@ {
            Some(PartOfSpeech::VerbGodanB)
        } else if s == "v5g"@ {
            Some(PartOfSpeech::VerbGodanG)
        } else if s == "v5k"@ {
            Some(PartOfSpeech::VerbGodanK)
        } else if s == "v5k-s"@ {
            Some(PartOfSpeech::VerbGodanKS)
        } else if s == "v5m"@ {
            Some(PartOfSpeech::VerbGodanM)
        } else if s == "v5n"@ {
            Some(PartOfSpeech::VerbGodanN)
        } else if s == "v5r"@ {
            Some(PartOfSpeech::VerbGodanR)
        } else if s == "v5r-i"@ {
            Some(PartOfSpeech::VerbGodanRI)
        } else if s == "v5s"@ {
            Some(PartOfSpeech::VerbGodanS)
        } else if s == "v5t"@ {
            Some(PartOfSpeech::VerbGodanT)
        } else if s == "v5u"@ {
            Some(PartOfSpeech::VerbGodanU)
        } else if s == "v5u-s"@ {
            Some(PartOfSpeech::VerbGodanUS)
        } else if s == "v5uru"@ {
            Some(PartOfSpeech::VerbGodanUru)
        } else if s == "vi"@ {
            Some(PartOfSpeech::VerbIntransitive)
        } else if s == "vk"@ {
            Some(PartOfSpeech::VerbKuru)
        } else if s == "vn"@ {
            Some(PartOfSpeech::VerbNu)
        } else if s == "vr"@ {
            Some(PartOfSpeech::VerbRu)
        } else if s == "vs"@ {
            Some(PartOfSpeech::VerbSuru)
        } else if s == "vs-c"@ {
            Some(PartOfSpeech::VerbSuC)
        } else if s == "vs-i"@ {
            Some(PartOfSpeech::VerbSuruIncluded)
        } else if s == "vs-s"@ {
            Some(PartOfSpeech::VerbSuruSpecial)
        } else if s == "vt"@ {
            Some(PartOfSpeech::VerbTransitive)
        } else if s == "vz"@ {
            Some(PartOfSpeech::VerbZuru)
        } else {
            None
        }
    }

    /// The variant for the given entity reference, such as `&adj-f;`.
    pub open spec fn spec_parse(s: Seq<char>) -> Option<PartOfSpeech> {
        if s == "&adj-f;"@ {
            Some(PartOfSpeech::AdjectiveF)
        } else if s == "&adj-i;"@ {
            Some(PartOfSpeech::AdjectiveI)
        } else if s == "&adj-ix;"@ {
            Some(PartOfSpeech::AdjectiveIx)
        } else if s == "&adj-kari;"@ {
            Some(PartOfSpeech::AdjectiveKari)
        } else if s == "&adj-ku;"@ {
            Some(PartOfSpeech::AdjectiveKu)
        } else if s == "&adj-na;"@ {
            Some(PartOfSpeech::AdjectiveNa)
        } else if s == "&adj-nari;"@ {
            Some(PartOfSpeech::AdjectiveNari)
        } else if s == "&adj-no;"@ {
            Some(PartOfSpeech::AdjectiveNo)
        } else if s == "&adj-pn;"@ {
            Some(PartOfSpeech::AdjectivePn)
        } else if s == "&adj-shiku;"@ {
            Some(PartOfSpeech::AdjectiveShiku)
        } else if s == "&adj-t;"@ {
            Some(PartOfSpeech::AdjectiveT)
        } else if s == "&adv;"@ {
            Some(PartOfSpeech::Adverb)
        } else if s == "&adv-to;"@ {
            Some(PartOfSpeech::AdverbTo)
        } else if s == "&aux;"@ {
            Some(PartOfSpeech::Auxiliary)
        } else if s == "&aux-adj;"@ {
            Some(PartOfSpeech::AuxiliaryAdjective)
        } else if s == "&aux-v;"@ {
            Some(PartOfSpeech::AuxiliaryVerb)
        } else if s == "&conj;"@ {
            Some(PartOfSpeech::Conjunction)
        } else if s == "&cop;"@ {
            Some(PartOfSpeech::Copular)
        } else if s == "&ctr;"@ {
            Some(PartOfSpeech::Counter)
        } else if s == "&exp;"@ {
            Some(PartOfSpeech::Expression)
        } else if s == "&int;"@ {
            Some(PartOfSpeech::Interjection)
        } else if s == "&n;"@ {
            Some(PartOfSpeech::Noun)
        } else if s == "&n-adv;"@ {
            Some(PartOfSpeech::NounAdverbial)
        } else if s == "&n-pr;"@ {
            Some(PartOfSpeech::NounProper)
        } else if s == "&n-pref;"@ {
            Some(PartOfSpeech::NounPrefix)
        } else if s == "&n-suf;"@ {
            Some(PartOfSpeech::NounSuffix)
        } else if s == "&n-t;"@ {
            Some(PartOfSpeech::NounTemporal)
        } else if s == "&num;"@ {
            Some(PartOfSpeech::Numeric)
        } else if s == "&pn;"@ {
            Some(PartOfSpeech::Pronoun)
        } else if s == "&pref;"@ {
            Some(PartOfSpeech::Prefix)
        } else if s == "&prt;"@ {
            Some(PartOfSpeech::Particle)
        } else if s == "&suf;"@ {
            Some(PartOfSpeech::Suffix)
        } else if s == "&unc;"@ {
            Some(PartOfSpeech::Unclassified)
        } else if s == "&v-unspec;"@ {
            Some(PartOfSpeech::VerbUnspecified)
        } else if s == "&v1;"@ {
            Some(PartOfSpeech::VerbIchidan)
        } else if s == "&v1-s;"@ {
            Some(PartOfSpeech::VerbIchidanS)
        } else if s == "&v2a-s;"@ {
            Some(PartOfSpeech::VerbNidanAS)
        } else if s == "&v2b-k;"@ {
            Some(PartOfSpeech::VerbNidanBK)
        } else if s == "&v2b-s;"@ {
            Some(PartOfSpeech::VerbNidanBS)
        } else if s == "&v2d-k;"@ {
            Some(PartOfSpeech::VerbNidanDK)
        } else if s == "&v2d-s;"@ {
            Some(PartOfSpeech::VerbNidanDS)
        } else if s == "&v2g-k;"@ {
            Some(PartOfSpeech::VerbNidanGK)
        } else if s == "&v2g-s;"@ {
            Some(PartOfSpeech::VerbNidanGS)
        } else if s == "&v2h-k;"@ {
            Some(PartOfSpeech::VerbNidanHK)
        } else if s == "&v2h-s;"@ {
            Some(PartOfSpeech::VerbNidanHS)
        } else if s == "&v2k-k;"@ {
            Some(PartOfSpeech::VerbNidanKK)
        } else if s == "&v2k-s;"@ {
            Some(PartOfSpeech::VerbNidanKS)
        } else if s == "&v2m-k;"@ {
            Some(PartOfSpeech::VerbNidanMK)
        } else if s == "&v2m-s;"@ {
            Some(PartOfSpeech::VerbNidanMS)
        } else if s == "&v2n-s;"@ {
            Some(PartOfSpeech::VerbNidanNS)
        } else if s == "&v2r-k;"@ {
            Some(PartOfSpeech::VerbNidanRK)
        } else if s == "&v2r-s;"@ {
            Some(PartOfSpeech::VerbNidanRS)
        } else if s == "&v2s-s;"@ {
            Some(PartOfSpeech::VerbNidanSS)
        } else if s == "&v2t-k;"@ {
            Some(PartOfSpeech::VerbNidanTK)
        } else if s == "&v2t-s;"@ {
            Some(PartOfSpeech::VerbNidanTS)
        } else if s == "&v2w-s;"@ {
            Some(PartOfSpeech::VerbNidanWS)
        } else if s == "&v2y-k;"@ {
            Some(PartOfSpeech::VerbNidanYK)
        } else if s == "&v2y-s;"@ {
            Some(PartOfSpeech::VerbNidanYS)
        } else if s == "&v2z-s;"@ {
            Some(PartOfSpeech::VerbNidanZS)
        } else if s == "&v4b;"@ {
            Some(PartOfSpeech::VerbYodanB)
        } else if s == "&v4g;"@ {
            Some(PartOfSpeech::VerbYodanG)
        } else if s == "&v4h;"@ {
            Some(PartOfSpeech::VerbYodanH)
        } else if s == "&v4k;"@ {
            Some(PartOfSpeech::VerbYodanK)
        } else if s == "&v4m;"@ {
            Some(PartOfSpeech::VerbYodanM)
        } else if s == "&v4n;"@ {
            Some(PartOfSpeech::VerbYodanN)
        } else if s == "&v4r;"@ {
            Some(PartOfSpeech::VerbYodanR)
        } else if s == "&v4s;"@ {
            Some(PartOfSpeech::VerbYodanS)
        } else if s == "&v4t;"@ {
            Some(PartOfSpeech::VerbYodanT)
        } else if s == "&v5aru;"@ {
            Some(PartOfSpeech::VerbGodanAru)
        } else if s == "&v5b;"@ {
            Some(PartOfSpeech::VerbGodanB)
        } else if s == "&v5g;"@ {
            Some(PartOfSpeech::VerbGodanG)
        } else if s == "&v5k;"@ {
            Some(PartOfSpeech::VerbGodanK)
        } else if s == "&v5k-s;"@ {
            Some(PartOfSpeech::VerbGodanKS)
        } else if s == "&v5m;"@ {
            Some(PartOfSpeech::VerbGodanM)
        } else if s == "&v5n;"@ {
            Some(PartOfSpeech::VerbGodanN)
        } else if s == "&v5r;"@ {
            Some(PartOfSpeech::VerbGodanR)
        } else if s == "&v5r-i;"@ {
            Some(PartOfSpeech::VerbGodanRI)
        } else if s == "&v5s;"@ {
            Some(PartOfSpeech::VerbGodanS)
        } else if s == "&v5t;"@ {
            Some(PartOfSpeech::VerbGodanT)
        } else if s == "&v5u;"@ {
            Some(PartOfSpeech::VerbGodanU)
        } else if s == "&v5u-s;"@ {
            Some(PartOfSpeech::VerbGodanUS)
        } else if s == "&v5uru;"@ {
            Some(PartOfSpeech::VerbGodanUru)
        } else if s == "&vi;"@ {
            Some(PartOfSpeech::VerbIntransitive)
        } else if s == "&vk;"@ {
            Some(PartOfSpeech::VerbKuru)
        } else if s == "&vn;"@ {
            Some(PartOfSpeech::VerbNu)
        } else if s == "&vr;"@ {
            Some(PartOfSpeech::VerbRu)
        } else if s == "&vs;"@ {
            Some(PartOfSpeech::VerbSuru)
        } else if s == "&vs-c;"@ {
            Some(PartOfSpeech::VerbSuC)
        } else if s == "&vs-i;"@ {
            Some(PartOfSpeech::VerbSuruIncluded)
        } else if s == "&vs-s;"@ {
            Some(PartOfSpeech::VerbSuruSpecial)
        } else if s == "&vt;"@ {
            Some(PartOfSpeech::VerbTransitive)
        } else if s == "&vz;"@ {
            Some(PartOfSpeech::VerbZuru)
        } else {
            None
        }
    }

    /// The name of the variant.
    pub open spec fn spec_variant(self) -> Seq<char> {
        match self {
            PartOfSpeech::AdjectiveF => "AdjectiveF"@,
            PartOfSpeech::AdjectiveI => "AdjectiveI"@,
            PartOfSpeech::AdjectiveIx => "AdjectiveIx"@,
            PartOfSpeech::AdjectiveKari => "AdjectiveKari"@,
            PartOfSpeech::AdjectiveKu => "AdjectiveKu"@,
            PartOfSpeech::AdjectiveNa => "AdjectiveNa"@,
            PartOfSpeech::AdjectiveNari => "AdjectiveNari"@,
            PartOfSpeech::AdjectiveNo => "AdjectiveNo"@,
            PartOfSpeech::AdjectivePn => "AdjectivePn"@,
            PartOfSpeech::AdjectiveShiku => "AdjectiveShiku"@,
            PartOfSpeech::AdjectiveT => "AdjectiveT"@,
            PartOfSpeech::Adverb => "Adverb"@,
            PartOfSpeech::AdverbTo => "AdverbTo"@,
            PartOfSpeech::Auxiliary => "Auxiliary"@,
            PartOfSpeech::AuxiliaryAdjective => "AuxiliaryAdjective"@,
            PartOfSpeech::AuxiliaryVerb => "AuxiliaryVerb"@,
            PartOfSpeech::Conjunction => "Conjunction"@,
            PartOfSpeech::Copular => "Copular"@,
            PartOfSpeech::Counter => "Counter"@,
            PartOfSpeech::Expression => "Expression"@,
            PartOfSpeech::Interjection => "Interjection"@,
            PartOfSpeech::Noun => "Noun"@,
            PartOfSpeech::NounAdverbial => "NounAdverbial"@,
            PartOfSpeech::NounProper => "NounProper"@,
            PartOfSpeech::NounPrefix => "NounPrefix"@,
            PartOfSpeech::NounSuffix => "NounSuffix"@,
            PartOfSpeech::NounTemporal => "NounTemporal"@,
            PartOfSpeech::Numeric => "Numeric"@,
            PartOfSpeech::Pronoun => "Pronoun"@,
            PartOfSpeech::Prefix => "Prefix"@,
            PartOfSpeech::Particle => "Particle"@,
            PartOfSpeech::Suffix => "Suffix"@,
            PartOfSpeech::Unclassified => "Unclassified"@,
            PartOfSpeech::VerbUnspecified => "VerbUnspecified"@,
            PartOfSpeech::VerbIchidan => "VerbIchidan"@,
            PartOfSpeech::VerbIchidanS => "VerbIchidanS"@,
            PartOfSpeech::VerbNidanAS => "VerbNidanAS"@,
            PartOfSpeech::VerbNidanBK => "VerbNidanBK"@,
            PartOfSpeech::VerbNidanBS => "VerbNidanBS"@,
            PartOfSpeech::VerbNidanDK => "VerbNidanDK"@,
            PartOfSpeech::VerbNidanDS => "VerbNidanDS"@,
            PartOfSpeech::VerbNidanGK => "VerbNidanGK"@,
            PartOfSpeech::VerbNidanGS => "VerbNidanGS"@,
            PartOfSpeech::VerbNidanHK => "VerbNidanHK"@,
            PartOfSpeech::VerbNidanHS => "VerbNidanHS"@,
            PartOfSpeech::VerbNidanKK => "VerbNidanKK"@,
            PartOfSpeech::VerbNidanKS => "VerbNidanKS"@,
            PartOfSpeech::VerbNidanMK => "VerbNidanMK"@,
            PartOfSpeech::VerbNidanMS => "VerbNidanMS"@,
            PartOfSpeech::VerbNidanNS => "VerbNidanNS"@,
            PartOfSpeech::VerbNidanRK => "VerbNidanRK"@,
            PartOfSpeech::VerbNidanRS => "VerbNidanRS"@,
            PartOfSpeech::VerbNidanSS => "VerbNidanSS"@,
            PartOfSpeech::VerbNidanTK => "VerbNidanTK"@,
            PartOfSpeech::VerbNidanTS => "VerbNidanTS"@,
            PartOfSpeech::VerbNidanWS => "VerbNidanWS"@,
            PartOfSpeech::VerbNidanYK => "VerbNidanYK"@,
            PartOfSpeech::VerbNidanYS => "VerbNidanYS"@,
            PartOfSpeech::VerbNidanZS => "VerbNidanZS"@,
            PartOfSpeech::VerbYodanB => "VerbYodanB"@,
            PartOfSpeech::VerbYodanG => "VerbYodanG"@,
            PartOfSpeech::VerbYodanH => "VerbYodanH"@,
            PartOfSpeech::VerbYodanK => "VerbYodanK"@,
            PartOfSpeech::VerbYodanM => "VerbYodanM"@,
            PartOfSpeech::VerbYodanN => "VerbYodanN"@,
            PartOfSpeech::VerbYodanR => "VerbYodanR"@,
            PartOfSpeech::VerbYodanS => "VerbYodanS"@,
            PartOfSpeech::VerbYodanT => "VerbYodanT"@,
            PartOfSpeech::VerbGodanAru => "VerbGodanAru"@,
            PartOfSpeech::VerbGodanB => "VerbGodanB"@,
            PartOfSpeech::VerbGodanG => "VerbGodanG"@,
            PartOfSpeech::VerbGodanK => "VerbGodanK"@,
            PartOfSpeech::VerbGodanKS => "VerbGodanKS"@,
            PartOfSpeech::VerbGodanM => "VerbGodanM"@,
            PartOfSpeech::VerbGodanN => "VerbGodanN"@,
            PartOfSpeech::VerbGodanR => "VerbGodanR"@,
            PartOfSpeech::VerbGodanRI => "VerbGodanRI"@,
            PartOfSpeech::VerbGodanS => "VerbGodanS"@,
            PartOfSpeech::VerbGodanT => "VerbGodanT"@,
            PartOfSpeech::VerbGodanU => "VerbGodanU"@,
            PartOfSpeech::VerbGodanUS => "VerbGodanUS"@,
            PartOfSpeech::VerbGodanUru => "VerbGodanUru"@,
            PartOfSpeech::VerbIntransitive => "VerbIntransitive"@,
            PartOfSpeech::VerbKuru => "VerbKuru"@,
            PartOfSpeech::VerbNu => "VerbNu"@,
            PartOfSpeech::VerbRu => "VerbRu"@,
            PartOfSpeech::VerbSuru => "VerbSuru"@,
            PartOfSpeech::VerbSuC => "VerbSuC"@,
            PartOfSpeech::VerbSuruIncluded => "VerbSuruIncluded"@,
            PartOfSpeech::VerbSuruSpecial => "VerbSuruSpecial"@,
            PartOfSpeech::VerbTransitive => "VerbTransitive"@,
            PartOfSpeech::VerbZuru => "VerbZuru"@,
        }
    }

    /// The name of the variant.
    pub fn variant(&self) -> (r: &'static str)
        ensures
            r@ == self.spec_variant(),
    {
        match self {
            PartOfSpeech::AdjectiveF => "AdjectiveF",
            PartOfSpeech::AdjectiveI => "AdjectiveI",
            PartOfSpeech::AdjectiveIx => "AdjectiveIx",
            PartOfSpeech::AdjectiveKari => "AdjectiveKari",
            PartOfSpeech::AdjectiveKu => "AdjectiveKu",
            PartOfSpeech::AdjectiveNa => "AdjectiveNa",
            PartOfSpeech::AdjectiveNari => "AdjectiveNari",
            PartOfSpeech::AdjectiveNo => "AdjectiveNo",
            PartOfSpeech::AdjectivePn => "AdjectivePn",
            PartOfSpeech::AdjectiveShiku => "AdjectiveShiku",
            PartOfSpeech::AdjectiveT => "AdjectiveT",
            PartOfSpeech::Adverb => "Adverb",
            PartOfSpeech::AdverbTo => "AdverbTo",
            PartOfSpeech::Auxiliary => "Auxiliary",
            PartOfSpeech::AuxiliaryAdjective => "AuxiliaryAdjective",
            PartOfSpeech::AuxiliaryVerb => "AuxiliaryVerb",
            PartOfSpeech::Conjunction => "Conjunction",
            PartOfSpeech::Copular => "Copular",
            PartOfSpeech::Counter => "Counter",
            PartOfSpeech::Expression => "Expression",
            PartOfSpeech::Interjection => "Interjection",
            PartOfSpeech::Noun => "Noun",
            PartOfSpeech::NounAdverbial => "NounAdverbial",
            PartOfSpeech::NounProper => "NounProper",
            PartOfSpeech::NounPrefix => "NounPrefix",
            PartOfSpeech::NounSuffix => "NounSuffix",
            PartOfSpeech::NounTemporal => "NounTemporal",
            PartOfSpeech::Numeric => "Numeric",
            PartOfSpeech::Pronoun => "Pronoun",
            PartOfSpeech::Prefix => "Prefix",
            PartOfSpeech::Particle => "Particle",
            PartOfSpeech::Suffix => "Suffix",
            PartOfSpeech::Unclassified => "Unclassified",
            PartOfSpeech::VerbUnspecified => "VerbUnspecified",
            PartOfSpeech::VerbIchidan => "VerbIchidan",
            PartOfSpeech::VerbIchidanS => "VerbIchidanS",
            PartOfSpeech::VerbNidanAS => "VerbNidanAS",
            PartOfSpeech::VerbNidanBK => "VerbNidanBK",
            PartOfSpeech::VerbNidanBS => "VerbNidanBS",
            PartOfSpeech::VerbNidanDK => "VerbNidanDK",
            PartOfSpeech::VerbNidanDS => "VerbNidanDS",
            PartOfSpeech::VerbNidanGK => "VerbNidanGK",
            PartOfSpeech::VerbNidanGS => "VerbNidanGS",
            PartOfSpeech::VerbNidanHK => "VerbNidanHK",
            PartOfSpeech::VerbNidanHS => "VerbNidanHS",
            PartOfSpeech::VerbNidanKK => "VerbNidanKK",
            PartOfSpeech::VerbNidanKS => "VerbNidanKS",
            PartOfSpeech::VerbNidanMK => "VerbNidanMK",
            PartOfSpeech::VerbNidanMS => "VerbNidanMS",
            PartOfSpeech::VerbNidanNS => "VerbNidanNS",
            PartOfSpeech::VerbNidanRK => "VerbNidanRK",
            PartOfSpeech::VerbNidanRS => "VerbNidanRS",
            PartOfSpeech::VerbNidanSS => "VerbNidanSS",
            PartOfSpeech::VerbNidanTK => "VerbNidanTK",
            PartOfSpeech::VerbNidanTS => "VerbNidanTS",
            PartOfSpeech::VerbNidanWS => "VerbNidanWS",
            PartOfSpeech::VerbNidanYK => "VerbNidanYK",
            PartOfSpeech::VerbNidanYS => "VerbNidanYS",
            PartOfSpeech::VerbNidanZS => "VerbNidanZS",
            PartOfSpeech::VerbYodanB => "VerbYodanB",
            PartOfSpeech::VerbYodanG => "VerbYodanG",
            PartOfSpeech::VerbYodanH => "VerbYodanH",
            PartOfSpeech::VerbYodanK => "VerbYodanK",
            PartOfSpeech::VerbYodanM => "VerbYodanM",
            PartOfSpeech::VerbYodanN => "VerbYodanN",
            PartOfSpeech::VerbYodanR => "VerbYodanR",
            PartOfSpeech::VerbYodanS => "VerbYodanS",
            PartOfSpeech::VerbYodanT => "VerbYodanT",
            PartOfSpeech::VerbGodanAru => "VerbGodanAru",
            PartOfSpeech::VerbGodanB => "VerbGodanB",
            PartOfSpeech::VerbGodanG => "VerbGodanG",
            PartOfSpeech::VerbGodanK => "VerbGodanK",
            PartOfSpeech::VerbGodanKS => "VerbGodanKS",
            PartOfSpeech::VerbGodanM => "VerbGodanM",
            PartOfSpeech::VerbGodanN => "VerbGodanN",
            PartOfSpeech::VerbGodanR => "VerbGodanR",
            PartOfSpeech::VerbGodanRI => "VerbGodanRI",
            PartOfSpeech::VerbGodanS => "VerbGodanS",
            PartOfSpeech::VerbGodanT => "VerbGodanT",
            PartOfSpeech::VerbGodanU => "VerbGodanU",
            PartOfSpeech::VerbGodanUS => "VerbGodanUS",
            PartOfSpeech::VerbGodanUru => "VerbGodanUru",
            PartOfSpeech::VerbIntransitive => "VerbIntransitive",
            PartOfSpeech::VerbKuru => "VerbKuru",
            PartOfSpeech::VerbNu => "VerbNu",
            PartOfSpeech::VerbRu => "VerbRu",
            PartOfSpeech::VerbSuru => "VerbSuru",
            PartOfSpeech::VerbSuC => "VerbSuC",
            PartOfSpeech::VerbSuruIncluded => "VerbSuruIncluded",
            PartOfSpeech::VerbSuruSpecial => "VerbSuruSpecial",
            PartOfSpeech::VerbTransitive => "VerbTransitive",
            PartOfSpeech::VerbZuru => "VerbZuru",
        }
    }

    /// The entity name, as used in the dictionary sources.
    pub fn ident(&self) -> (r: &'static str)
        ensures
            r@ == self.spec_ident(),
    {
        match self {
            PartOfSpeech::AdjectiveF => "adj-f",
            PartOfSpeech::AdjectiveI => "adj-i",
            PartOfSpeech::AdjectiveIx => "adj-ix",
            PartOfSpeech::AdjectiveKari => "adj-kari",
            PartOfSpeech::AdjectiveKu => "adj-ku",
            PartOfSpeech::AdjectiveNa => "adj-na",
            PartOfSpeech::AdjectiveNari => "adj-nari",
            PartOfSpeech::AdjectiveNo => "adj-no",
            PartOfSpeech::AdjectivePn => "adj-pn",
            PartOfSpeech::AdjectiveShiku => "adj-shiku",
            PartOfSpeech::AdjectiveT => "adj-t",
            PartOfSpeech::Adverb => "adv",
            PartOfSpeech::AdverbTo => "adv-to",
            PartOfSpeech::Auxiliary => "aux",
            PartOfSpeech::AuxiliaryAdjective => "aux-adj",
            PartOfSpeech::AuxiliaryVerb => "aux-v",
            PartOfSpeech::Conjunction => "conj",
            PartOfSpeech::Copular => "cop",
            PartOfSpeech::Counter => "ctr",
            PartOfSpeech::Expression => "exp",
            PartOfSpeech::Interjection => "int",
            PartOfSpeech::Noun => "n",
            PartOfSpeech::NounAdverbial => "n-adv",
            PartOfSpeech::NounProper => "n-pr",
            PartOfSpeech::NounPrefix => "n-pref",
            PartOfSpeech::NounSuffix => "n-suf",
            PartOfSpeech::NounTemporal => "n-t",
            PartOfSpeech::Numeric => "num",
            PartOfSpeech::Pronoun => "pn",
            PartOfSpeech::Prefix => "pref",
            PartOfSpeech::Particle => "prt",
            PartOfSpeech::Suffix => "suf",
            PartOfSpeech::Unclassified => "unc",
            PartOfSpeech::VerbUnspecified => "v-unspec",
            PartOfSpeech::VerbIchidan => "v1",
            PartOfSpeech::VerbIchidanS => "v1-s",
            PartOfSpeech::VerbNidanAS => "v2a-s",
            PartOfSpeech::VerbNidanBK => "v2b-k",
            PartOfSpeech::VerbNidanBS => "v2b-s",
            PartOfSpeech::VerbNidanDK => "v2d-k",
            PartOfSpeech::VerbNidanDS => "v2d-s",
            PartOfSpeech::VerbNidanGK => "v2g-k",
            PartOfSpeech::VerbNidanGS => "v2g-s",
            PartOfSpeech::VerbNidanHK => "v2h-k",
            PartOfSpeech::VerbNidanHS => "v2h-s",
            PartOfSpeech::VerbNidanKK => "v2k-k",
            PartOfSpeech::VerbNidanKS => "v2k-s",
            PartOfSpeech::VerbNidanMK => "v2m-k",
            PartOfSpeech::VerbNidanMS => "v2m-s",
            PartOfSpeech::VerbNidanNS => "v2n-s",
            PartOfSpeech::VerbNidanRK => "v2r-k",
            PartOfSpeech::VerbNidanRS => "v2r-s",
            PartOfSpeech::VerbNidanSS => "v2s-s",
            PartOfSpeech::VerbNidanTK => "v2t-k",
            PartOfSpeech::VerbNidanTS => "v2t-s",
            PartOfSpeech::VerbNidanWS => "v2w-s",
            PartOfSpeech::VerbNidanYK => "v2y-k",
            PartOfSpeech::VerbNidanYS => "v2y-s",
            PartOfSpeech::VerbNidanZS => "v2z-s",
            PartOfSpeech::VerbYodanB => "v4b",
            PartOfSpeech::VerbYodanG => "v4g",
            PartOfSpeech::VerbYodanH => "v4h",
            PartOfSpeech::VerbYodanK => "v4k",
            PartOfSpeech::VerbYodanM => "v4m",
            PartOfSpeech::VerbYodanN => "v4n",
            PartOfSpeech::VerbYodanR => "v4r",
            PartOfSpeech::VerbYodanS => "v4s",
            PartOfSpeech::VerbYodanT => "v4t",
            PartOfSpeech::VerbGodanAru => "v5aru",
            PartOfSpeech::VerbGodanB => "v5b",
            PartOfSpeech::VerbGodanG => "v5g",
            PartOfSpeech::VerbGodanK => "v5k",
            PartOfSpeech::VerbGodanKS => "v5k-s",
            PartOfSpeech::VerbGodanM => "v5m",
            PartOfSpeech::VerbGodanN => "v5n",
            PartOfSpeech::VerbGodanR => "v5r",
            PartOfSpeech::VerbGodanRI => "v5r-i",
            PartOfSpeech::VerbGodanS => "v5s",
            PartOfSpeech::VerbGodanT => "v5t",
            PartOfSpeech::VerbGodanU => "v5u",
            PartOfSpeech::VerbGodanUS => "v5u-s",
            PartOfSpeech::VerbGodanUru => "v5uru",
            PartOfSpeech::VerbIntransitive => "vi",
            PartOfSpeech::VerbKuru => "vk",
            PartOfSpeech::VerbNu => "vn",
            PartOfSpeech::VerbRu => "vr",
            PartOfSpeech::VerbSuru => "vs",
            PartOfSpeech::VerbSuC => "vs-c",
            PartOfSpeech::VerbSuruIncluded => "vs-i",
            PartOfSpeech::VerbSuruSpecial => "vs-s",
            PartOfSpeech::VerbTransitive => "vt",
            PartOfSpeech::VerbZuru => "vz",
        }
    }

    /// A description of the entity.
    pub open spec fn spec_help(self) -> Seq<char> {
        match self {
            PartOfSpeech::AdjectiveF => "noun or verb acting prenominally"@,
            PartOfSpeech::AdjectiveI => "adjective (keiyoushi)"@,
            PartOfSpeech::AdjectiveIx => "adjective (keiyoushi) - yoi/ii class"@,
            PartOfSpeech::AdjectiveKari => "'kari' adjective (archaic)"@,
            PartOfSpeech::AdjectiveKu => "'ku' adjective (archaic)"@,
            PartOfSpeech::AdjectiveNa => "adjectival nouns or quasi-adjectives (keiyodoshi)"@,
            PartOfSpeech::AdjectiveNari => "archaic/formal form of na-adjective"@,
            PartOfSpeech::AdjectiveNo => "nouns which may take the genitive case particle 'no'"@,
            PartOfSpeech::AdjectivePn => "pre-noun adjectival (rentaishi)"@,
            PartOfSpeech::AdjectiveShiku => "'shiku' adjective (archaic)"@,
            PartOfSpeech::AdjectiveT => "'taru' adjective"@,
            PartOfSpeech::Adverb => "adverb (fukushi)"@,
            PartOfSpeech::AdverbTo => "adverb taking the 'to' particle"@,
            PartOfSpeech::Auxiliary => "auxiliary"@,
            PartOfSpeech::AuxiliaryAdjective => "auxiliary adjective"@,
            PartOfSpeech::AuxiliaryVerb => "auxiliary verb"@,
            PartOfSpeech::Conjunction => "conjunction"@,
            PartOfSpeech::Copular => "copula"@,
            PartOfSpeech::Counter => "counter"@,
            PartOfSpeech::Expression => "expressions (phrases, clauses, etc.)"@,
            PartOfSpeech::Interjection => "interjection (kandoushi)"@,
            PartOfSpeech::Noun => "noun (common) (futsuumeishi)"@,
            PartOfSpeech::NounAdverbial => "adverbial noun (fukushitekimeishi)"@,
            PartOfSpeech::NounProper => "proper noun"@,
            PartOfSpeech::NounPrefix => "noun, used as a prefix"@,
            PartOfSpeech::NounSuffix => "noun, used as a suffix"@,
            PartOfSpeech::NounTemporal => "noun (temporal) (jisoumeishi)"@,
            PartOfSpeech::Numeric => "numeric"@,
            PartOfSpeech::Pronoun => "pronoun"@,
            PartOfSpeech::Prefix => "prefix"@,
            PartOfSpeech::Particle => "particle"@,
            PartOfSpeech::Suffix => "suffix"@,
            PartOfSpeech::Unclassified => "unclassified"@,
            PartOfSpeech::VerbUnspecified => "verb unspecified"@,
            PartOfSpeech::VerbIchidan => "Ichidan verb"@,
            PartOfSpeech::VerbIchidanS => "Ichidan verb - kureru special class"@,
            PartOfSpeech::VerbNidanAS => "Nidan verb with 'u' ending (archaic)"@,
            PartOfSpeech::VerbNidanBK => "Nidan verb (upper class) with 'bu' ending (archaic)"@,
            PartOfSpeech::VerbNidanBS => "Nidan verb (lower class) with 'bu' ending (archaic)"@,
            PartOfSpeech::VerbNidanDK => "Nidan verb (upper class) with 'dzu' ending (archaic)"@,
            PartOfSpeech::VerbNidanDS => "Nidan verb (lower class) with 'dzu' ending (archaic)"@,
            PartOfSpeech::VerbNidanGK => "Nidan verb (upper class) with 'gu' ending (archaic)"@,
            PartOfSpeech::VerbNidanGS => "Nidan verb (lower class) with 'gu' ending (archaic)"@,
            PartOfSpeech::VerbNidanHK => "Nidan verb (upper class) with 'hu/fu' ending (archaic)"@,
            PartOfSpeech::VerbNidanHS => "Nidan verb (lower class) with 'hu/fu' ending (archaic)"@,
            PartOfSpeech::VerbNidanKK => "Nidan verb (upper class) with 'ku' ending (archaic)"@,
            PartOfSpeech::VerbNidanKS => "Nidan verb (lower class) with 'ku' ending (archaic)"@,
            PartOfSpeech::VerbNidanMK => "Nidan verb (upper class) with 'mu' ending (archaic)"@,
            PartOfSpeech::VerbNidanMS => "Nidan verb (lower class) with 'mu' ending (archaic)"@,
            PartOfSpeech::VerbNidanNS => "Nidan verb (lower class) with 'nu' ending (archaic)"@,
            PartOfSpeech::VerbNidanRK => "Nidan verb (upper class) with 'ru' ending (archaic)"@,
            PartOfSpeech::VerbNidanRS => "Nidan verb (lower class) with 'ru' ending (archaic)"@,
            PartOfSpeech::VerbNidanSS => "Nidan verb (lower class) with 'su' ending (archaic)"@,
            PartOfSpeech::VerbNidanTK => "Nidan verb (upper class) with 'tsu' ending (archaic)"@,
            PartOfSpeech::VerbNidanTS => "Nidan verb (lower class) with 'tsu' ending (archaic)"@,
            PartOfSpeech::VerbNidanWS => "Nidan verb (lower class) with 'u' ending and 'we' conjugation (archaic)"@,
            PartOfSpeech::VerbNidanYK => "Nidan verb (upper class) with 'yu' ending (archaic)"@,
            PartOfSpeech::VerbNidanYS => "Nidan verb (lower class) with 'yu' ending (archaic)"@,
            PartOfSpeech::VerbNidanZS => "Nidan verb (lower class) with 'zu' ending (archaic)"@,
            PartOfSpeech::VerbYodanB => "Yodan verb with 'bu' ending (archaic)"@,
            PartOfSpeech::VerbYodanG => "Yodan verb with 'gu' ending (archaic)"@,
            PartOfSpeech::VerbYodanH => "Yodan verb with 'hu/fu' ending (archaic)"@,
            PartOfSpeech::VerbYodanK => "Yodan verb with 'ku' ending (archaic)"@,
            PartOfSpeech::VerbYodanM => "Yodan verb with 'mu' ending (archaic)"@,
            PartOfSpeech::VerbYodanN => "Yodan verb with 'nu' ending (archaic)"@,
            PartOfSpeech::VerbYodanR => "Yodan verb with 'ru' ending (archaic)"@,
            PartOfSpeech::VerbYodanS => "Yodan verb with 'su' ending (archaic)"@,
            PartOfSpeech::VerbYodanT => "Yodan verb with 'tsu' ending (archaic)"@,
            PartOfSpeech::VerbGodanAru => "Godan verb - -aru special class"@,
            PartOfSpeech::VerbGodanB => "Godan verb with 'bu' ending"@,
            PartOfSpeech::VerbGodanG => "Godan verb with 'gu' ending"@,
            PartOfSpeech::VerbGodanK => "Godan verb with 'ku' ending"@,
            PartOfSpeech::VerbGodanKS => "Godan verb - Iku/Yuku special class"@,
            PartOfSpeech::VerbGodanM => "Godan verb with 'mu' ending"@,
            PartOfSpeech::VerbGodanN => "Godan verb with 'nu' ending"@,
            PartOfSpeech::VerbGodanR => "Godan verb with 'ru' ending"@,
            PartOfSpeech::VerbGodanRI => "Godan verb with 'ru' ending (irregular verb)"@,
            PartOfSpeech::VerbGodanS => "Godan verb with 'su' ending"@,
            PartOfSpeech::VerbGodanT => "Godan verb with 'tsu' ending"@,
            PartOfSpeech::VerbGodanU => "Godan verb with 'u' ending"@,
            PartOfSpeech::VerbGodanUS => "Godan verb with 'u' ending (special class)"@,
            PartOfSpeech::VerbGodanUru => "Godan verb - Uru old class verb (old form of Eru)"@,
            PartOfSpeech::VerbIntransitive => "intransitive verb"@,
            PartOfSpeech::VerbKuru => "Kuru verb - special class"@,
            PartOfSpeech::VerbNu => "irregular nu verb"@,
            PartOfSpeech::VerbRu => "irregular ru verb, plain form ends with -ri"@,
            PartOfSpeech::VerbSuru => "noun or participle which takes the aux. verb suru"@,
            PartOfSpeech::VerbSuC => "su verb - precursor to the modern suru"@,
            PartOfSpeech::VerbSuruIncluded => "suru verb - included"@,
            PartOfSpeech::VerbSuruSpecial => "suru verb - special class"@,
            PartOfSpeech::VerbTransitive => "transitive verb"@,
            PartOfSpeech::VerbZuru => "Ichidan verb - zuru verb (alternative form of -jiru verbs)"@,
        }
    }

    /// A description of the entity.
    pub fn help(&self) -> (r: &'static str)
        ensures
            r@ == self.spec_help(),
    {
        match self {
            PartOfSpeech::AdjectiveF => "noun or verb acting prenominally",
            PartOfSpeech::AdjectiveI => "adjective (keiyoushi)",
            PartOfSpeech::AdjectiveIx => "adjective (keiyoushi) - yoi/ii class",
            PartOfSpeech::AdjectiveKari => "'kari' adjective (archaic)",
            PartOfSpeech::AdjectiveKu => "'ku' adjective (archaic)",
            PartOfSpeech::AdjectiveNa => "adjectival nouns or quasi-adjectives (keiyodoshi)",
            PartOfSpeech::AdjectiveNari => "archaic/formal form of na-adjective",
            PartOfSpeech::AdjectiveNo => "nouns which may take the genitive case particle 'no'",
            PartOfSpeech::AdjectivePn => "pre-noun adjectival (rentaishi)",
            PartOfSpeech::AdjectiveShiku => "'shiku' adjective (archaic)",
            PartOfSpeech::AdjectiveT => "'taru' adjective",
            PartOfSpeech::Adverb => "adverb (fukushi)",
            PartOfSpeech::AdverbTo => "adverb taking the 'to' particle",
            PartOfSpeech::Auxiliary => "auxiliary",
            PartOfSpeech::AuxiliaryAdjective => "auxiliary adjective",
            PartOfSpeech::AuxiliaryVerb => "auxiliary verb",
            PartOfSpeech::Conjunction => "conjunction",
            PartOfSpeech::Copular => "copula",
            PartOfSpeech::Counter => "counter",
            PartOfSpeech::Expression => "expressions (phrases, clauses, etc.)",
            PartOfSpeech::Interjection => "interjection (kandoushi)",
            PartOfSpeech::Noun => "noun (common) (futsuumeishi)",
            PartOfSpeech::NounAdverbial => "adverbial noun (fukushitekimeishi)",
            PartOfSpeech::NounProper => "proper noun",
            PartOfSpeech::NounPrefix => "noun, used as a prefix",
            PartOfSpeech::NounSuffix => "noun, used as a suffix",
            PartOfSpeech::NounTemporal => "noun (temporal) (jisoumeishi)",
            PartOfSpeech::Numeric => "numeric",
            PartOfSpeech::Pronoun => "pronoun",
            PartOfSpeech::Prefix => "prefix",
            PartOfSpeech::Particle => "particle",
            PartOfSpeech::Suffix => "suffix",
            PartOfSpeech::Unclassified => "unclassified",
            PartOfSpeech::VerbUnspecified => "verb unspecified",
            PartOfSpeech::VerbIchidan => "Ichidan verb",
            PartOfSpeech::VerbIchidanS => "Ichidan verb - kureru special class",
            PartOfSpeech::VerbNidanAS => "Nidan verb with 'u' ending (archaic)",
            PartOfSpeech::VerbNidanBK => "Nidan verb (upper class) with 'bu' ending (archaic)",
            PartOfSpeech::VerbNidanBS => "Nidan verb (lower class) with 'bu' ending (archaic)",
            PartOfSpeech::VerbNidanDK => "Nidan verb (upper class) with 'dzu' ending (archaic)",
            PartOfSpeech::VerbNidanDS => "Nidan verb (lower class) with 'dzu' ending (archaic)",
            PartOfSpeech::VerbNidanGK => "Nidan verb (upper class) with 'gu' ending (archaic)",
            PartOfSpeech::VerbNidanGS => "Nidan verb (lower class) with 'gu' ending (archaic)",
            PartOfSpeech::VerbNidanHK => "Nidan verb (upper class) with 'hu/fu' ending (archaic)",
            PartOfSpeech::VerbNidanHS => "Nidan verb (lower class) with 'hu/fu' ending (archaic)",
            PartOfSpeech::VerbNidanKK => "Nidan verb (upper class) with 'ku' ending (archaic)",
            PartOfSpeech::VerbNidanKS => "Nidan verb (lower class) with 'ku' ending (archaic)",
            PartOfSpeech::VerbNidanMK => "Nidan verb (upper class) with 'mu' ending (archaic)",
            PartOfSpeech::VerbNidanMS => "Nidan verb (lower class) with 'mu' ending (archaic)",
            PartOfSpeech::VerbNidanNS => "Nidan verb (lower class) with 'nu' ending (archaic)",
            PartOfSpeech::VerbNidanRK => "Nidan verb (upper class) with 'ru' ending (archaic)",
            PartOfSpeech::VerbNidanRS => "Nidan verb (lower class) with 'ru' ending (archaic)",
            PartOfSpeech::VerbNidanSS => "Nidan verb (lower class) with 'su' ending (archaic)",
            PartOfSpeech::VerbNidanTK => "Nidan verb (upper class) with 'tsu' ending (archaic)",
            PartOfSpeech::VerbNidanTS => "Nidan verb (lower class) with 'tsu' ending (archaic)",
            PartOfSpeech::VerbNidanWS => "Nidan verb (lower class) with 'u' ending and 'we' conjugation (archaic)",
            PartOfSpeech::VerbNidanYK => "Nidan verb (upper class) with 'yu' ending (archaic)",
            PartOfSpeech::VerbNidanYS => "Nidan verb (lower class) with 'yu' ending (archaic)",
            PartOfSpeech::VerbNidanZS => "Nidan verb (lower class) with 'zu' ending (archaic)",
            PartOfSpeech::VerbYodanB => "Yodan verb with 'bu' ending (archaic)",
            PartOfSpeech::VerbYodanG => "Yodan verb with 'gu' ending (archaic)",
            PartOfSpeech::VerbYodanH => "Yodan verb with 'hu/fu' ending (archaic)",
            PartOfSpeech::VerbYodanK => "Yodan verb with 'ku' ending (archaic)",
            PartOfSpeech::VerbYodanM => "Yodan verb with 'mu' ending (archaic)",
            PartOfSpeech::VerbYodanN => "Yodan verb with 'nu' ending (archaic)",
            PartOfSpeech::VerbYodanR => "Yodan verb with 'ru' ending (archaic)",
            PartOfSpeech::VerbYodanS => "Yodan verb with 'su' ending (archaic)",
            PartOfSpeech::VerbYodanT => "Yodan verb with 'tsu' ending (archaic)",
            PartOfSpeech::VerbGodanAru => "Godan verb - -aru special class",
            PartOfSpeech::VerbGodanB => "Godan verb with 'bu' ending",
            PartOfSpeech::VerbGodanG => "Godan verb with 'gu' ending",
            PartOfSpeech::VerbGodanK => "Godan verb with 'ku' ending",
            PartOfSpeech::VerbGodanKS => "Godan verb - Iku/Yuku special class",
            PartOfSpeech::VerbGodanM => "Godan verb with 'mu' ending",
            PartOfSpeech::VerbGodanN => "Godan verb with 'nu' ending",
            PartOfSpeech::VerbGodanR => "Godan verb with 'ru' ending",
            PartOfSpeech::VerbGodanRI => "Godan verb with 'ru' ending (irregular verb)",
            PartOfSpeech::VerbGodanS => "Godan verb with 'su' ending",
            PartOfSpeech::VerbGodanT => "Godan verb with 'tsu' ending",
            PartOfSpeech::VerbGodanU => "Godan verb with 'u' ending",
            PartOfSpeech::VerbGodanUS => "Godan verb with 'u' ending (special class)",
            PartOfSpeech::VerbGodanUru => "Godan verb - Uru old class verb (old form of Eru)",
            PartOfSpeech::VerbIntransitive => "intransitive verb",
            PartOfSpeech::VerbKuru => "Kuru verb - special class",
            PartOfSpeech::VerbNu => "irregular nu verb",
            PartOfSpeech::VerbRu => "irregular ru verb, plain form ends with -ri",
            PartOfSpeech::VerbSuru => "noun or participle which takes the aux. verb suru",
            PartOfSpeech::VerbSuC => "su verb - precursor to the modern suru",
            PartOfSpeech::VerbSuruIncluded => "suru verb - included",
            PartOfSpeech::VerbSuruSpecial => "suru verb - special class",
            PartOfSpeech::VerbTransitive => "transitive verb",
            PartOfSpeech::VerbZuru => "Ichidan verb - zuru verb (alternative form of -jiru verbs)",
        }
    }

    /// Parse an entity name.
    pub fn parse_keyword(string: &str) -> (r: Option<PartOfSpeech>)
        ensures
            r == Self::spec_parse_keyword(string@),
    {
        if str_eq(string, "adj-f") {
            return Some(PartOfSpeech::AdjectiveF);
        }
        if str_eq(string, "adj-i") {
            return Some(PartOfSpeech::AdjectiveI);
        }
        if str_eq(string, "adj-ix") {
            return Some(PartOfSpeech::AdjectiveIx);
        }
        if str_eq(string, "adj-kari") {
            return Some(PartOfSpeech::AdjectiveKari);
        }
        if str_eq(string, "adj-ku") {
            return Some(PartOfSpeech::AdjectiveKu);
        }
        if str_eq(string, "adj-na") {
            return Some(PartOfSpeech::AdjectiveNa);
        }
        if str_eq(string, "adj-nari") {
            return Some(PartOfSpeech::AdjectiveNari);
        }
        if str_eq(string, "adj-no") {
            return Some(PartOfSpeech::AdjectiveNo);
        }
        if str_eq(string, "adj-pn") {
            return Some(PartOfSpeech::AdjectivePn);
        }
        if str_eq(string, "adj-shiku") {
            return Some(PartOfSpeech::AdjectiveShiku);
        }
        if str_eq(string, "adj-t") {
            return Some(PartOfSpeech::AdjectiveT);
        }
        if str_eq(string, "adv") {
            return Some(PartOfSpeech::Adverb);
        }
        if str_eq(string, "adv-to") {
            return Some(PartOfSpeech::AdverbTo);
        }
        if str_eq(string, "aux") {
            return Some(PartOfSpeech::Auxiliary);
        }
        if str_eq(string, "aux-adj") {
            return Some(PartOfSpeech::AuxiliaryAdjective);
        }
        if str_eq(string, "aux-v") {
            return Some(PartOfSpeech::AuxiliaryVerb);
        }
        if str_eq(string, "conj") {
            return Some(PartOfSpeech::Conjunction);
        }
        if str_eq(string, "cop") {
            return Some(PartOfSpeech::Copular);
        }
        if str_eq(string, "ctr") {
            return Some(PartOfSpeech::Counter);
        }
        if str_eq(string, "exp") {
            return Some(PartOfSpeech::Expression);
        }
        if str_eq(string, "int") {
            return Some(PartOfSpeech::Interjection);
        }
        if str_eq(string, "n") {
            return Some(PartOfSpeech::Noun);
        }
        if str_eq(string, "n-adv") {
            return Some(PartOfSpeech::NounAdverbial);
        }
        if str_eq(string, "n-pr") {
            return Some(PartOfSpeech::NounProper);
        }
        if str_eq(string, "n-pref") {
            return Some(PartOfSpeech::NounPrefix);
        }
        if str_eq(string, "n-suf") {
            return Some(PartOfSpeech::NounSuffix);
        }
        if str_eq(string, "n-t") {
            return Some(PartOfSpeech::NounTemporal);
        }
        if str_eq(string, "num") {
            return Some(PartOfSpeech::Numeric);
        }
        if str_eq(string, "pn") {
            return Some(PartOfSpeech::Pronoun);
        }
        if str_eq(string, "pref") {
            return Some(PartOfSpeech::Prefix);
        }
        if str_eq(string, "prt") {
            return Some(PartOfSpeech::Particle);
        }
        if str_eq(string, "suf") {
            return Some(PartOfSpeech::Suffix);
        }
        if str_eq(string, "unc") {
            return Some(PartOfSpeech::Unclassified);
        }
        if str_eq(string, "v-unspec") {
            return Some(PartOfSpeech::VerbUnspecified);
        }
        if str_eq(string, "v1") {
            return Some(PartOfSpeech::VerbIchidan);
        }
        if str_eq(string, "v1-s") {
            return Some(PartOfSpeech::VerbIchidanS);
        }
        if str_eq(string, "v2a-s") {
            return Some(PartOfSpeech::VerbNidanAS);
        }
        if str_eq(string, "v2b-k") {
            return Some(PartOfSpeech::VerbNidanBK);
        }
        if str_eq(string, "v2b-s") {
            return Some(PartOfSpeech::VerbNidanBS);
        }
        if str_eq(string, "v2d-k") {
            return Some(PartOfSpeech::VerbNidanDK);
        }
        if str_eq(string, "v2d-s") {
            return Some(PartOfSpeech::VerbNidanDS);
        }
        if str_eq(string, "v2g-k") {
            return Some(PartOfSpeech::VerbNidanGK);
        }
        if str_eq(string, "v2g-s") {
            return Some(PartOfSpeech::VerbNidanGS);
        }
        if str_eq(string, "v2h-k") {
            return Some(PartOfSpeech::VerbNidanHK);
        }
        if str_eq(string, "v2h-s") {
            return Some(PartOfSpeech::VerbNidanHS);
        }
        if str_eq(string, "v2k-k") {
            return Some(PartOfSpeech::VerbNidanKK);
        }
        if str_eq(string, "v2k-s") {
            return Some(PartOfSpeech::VerbNidanKS);
        }
        if str_eq(string, "v2m-k") {
            return Some(PartOfSpeech::VerbNidanMK);
        }
        if str_eq(string, "v2m-s") {
            return Some(PartOfSpeech::VerbNidanMS);
        }
        if str_eq(string, "v2n-s") {
            return Some(PartOfSpeech::VerbNidanNS);
        }
        if str_eq(string, "v2r-k") {
            return Some(PartOfSpeech::VerbNidanRK);
        }
        if str_eq(string, "v2r-s") {
            return Some(PartOfSpeech::VerbNidanRS);
        }
        if str_eq(string, "v2s-s") {
            return Some(PartOfSpeech::VerbNidanSS);
        }
        if str_eq(string, "v2t-k") {
            return Some(PartOfSpeech::VerbNidanTK);
        }
        if str_eq(string, "v2t-s") {
            return Some(PartOfSpeech::VerbNidanTS);
        }
        if str_eq(string, "v2w-s") {
            return Some(PartOfSpeech::VerbNidanWS);
        }
        if str_eq(string, "v2y-k") {
            return Some(PartOfSpeech::VerbNidanYK);
        }
        if str_eq(string, "v2y-s") {
            return Some(PartOfSpeech::VerbNidanYS);
        }
        if str_eq(string, "v2z-s") {
            return Some(PartOfSpeech::VerbNidanZS);
        }
        if str_eq(string, "v4b") {
            return Some(PartOfSpeech::VerbYodanB);
        }
        if str_eq(string, "v4g") {
            return Some(PartOfSpeech::VerbYodanG);
        }
        if str_eq(string, "v4h") {
            return Some(PartOfSpeech::VerbYodanH);
        }
        if str_eq(string, "v4k") {
            return Some(PartOfSpeech::VerbYodanK);
        }
        if str_eq(string, "v4m") {
            return Some(PartOfSpeech::VerbYodanM);
        }
        if str_eq(string, "v4n") {
            return Some(PartOfSpeech::VerbYodanN);
        }
        if str_eq(string, "v4r") {
            return Some(PartOfSpeech::VerbYodanR);
        }
        if str_eq(string, "v4s") {
            return Some(PartOfSpeech::VerbYodanS);
        }
        if str_eq(string, "v4t") {
            return Some(PartOfSpeech::VerbYodanT);
        }
        if str_eq(string, "v5aru") {
            return Some(PartOfSpeech::VerbGodanAru);
        }
        if str_eq(string, "v5b") {
            return Some(PartOfSpeech::VerbGodanB);
        }
        if str_eq(string, "v5g") {
            return Some(PartOfSpeech::VerbGodanG);
        }
        if str_eq(string, "v5k") {
            return Some(PartOfSpeech::VerbGodanK);
        }
        if str_eq(string, "v5k-s") {
            return Some(PartOfSpeech::VerbGodanKS);
        }
        if str_eq(string, "v5m") {
            return Some(PartOfSpeech::VerbGodanM);
        }
        if str_eq(string, "v5n") {
            return Some(PartOfSpeech::VerbGodanN);
        }
        if str_eq(string, "v5r") {
            return Some(PartOfSpeech::VerbGodanR);
        }
        if str_eq(string, "v5r-i") {
            return Some(PartOfSpeech::VerbGodanRI);
        }
        if str_eq(string, "v5s") {
            return Some(PartOfSpeech::VerbGodanS);
        }
        if str_eq(string, "v5t") {
            return Some(PartOfSpeech::VerbGodanT);
        }
        if str_eq(string, "v5u") {
            return Some(PartOfSpeech::VerbGodanU);
        }
        if str_eq(string, "v5u-s") {
            return Some(PartOfSpeech::VerbGodanUS);
        }
        if str_eq(string, "v5uru") {
            return Some(PartOfSpeech::VerbGodanUru);
        }
        if str_eq(string, "vi") {
            return Some(PartOfSpeech::VerbIntransitive);
        }
        if str_eq(string, "vk") {
            return Some(PartOfSpeech::VerbKuru);
        }
        if str_eq(string, "vn") {
            return Some(PartOfSpeech::VerbNu);
        }
        if str_eq(string, "vr") {
            return Some(PartOfSpeech::VerbRu);
        }
        if str_eq(string, "vs") {
            return Some(PartOfSpeech::VerbSuru);
        }
        if str_eq(string, "vs-c") {
            return Some(PartOfSpeech::VerbSuC);
        }
        if str_eq(string, "vs-i") {
            return Some(PartOfSpeech::VerbSuruIncluded);
        }
        if str_eq(string, "vs-s") {
            return Some(PartOfSpeech::VerbSuruSpecial);
        }
        if str_eq(string, "vt") {
            return Some(PartOfSpeech::VerbTransitive);
        }
        if str_eq(string, "vz") {
            return Some(PartOfSpeech::VerbZuru);
        }
        None
    }

    /// Parse an entity reference, such as `&abbr;`.
    pub fn parse(string: &str) -> (r: Option<PartOfSpeech>)
        ensures
            r == Self::spec_parse(string@),
    {
        if str_eq(string, "&adj-f;") {
            return Some(PartOfSpeech::AdjectiveF);
        }
        if str_eq(string, "&adj-i;") {
            return Some(PartOfSpeech::AdjectiveI);
        }
        if str_eq(string, "&adj-ix;") {
            return Some(PartOfSpeech::AdjectiveIx);
        }
        if str_eq(string, "&adj-kari;") {
            return Some(PartOfSpeech::AdjectiveKari);
        }
        if str_eq(string, "&adj-ku;") {
            return Some(PartOfSpeech::AdjectiveKu);
        }
        if str_eq(string, "&adj-na;") {
            return Some(PartOfSpeech::AdjectiveNa);
        }
        if str_eq(string, "&adj-nari;") {
            return Some(PartOfSpeech::AdjectiveNari);
        }
        if str_eq(string, "&adj-no;") {
            return Some(PartOfSpeech::AdjectiveNo);
        }
        if str_eq(string, "&adj-pn;") {
            return Some(PartOfSpeech::AdjectivePn);
        }
        if str_eq(string, "&adj-shiku;") {
            return Some(PartOfSpeech::AdjectiveShiku);
        }
        if str_eq(string, "&adj-t;") {
            return Some(PartOfSpeech::AdjectiveT);
        }
        if str_eq(string, "&adv;") {
            return Some(PartOfSpeech::Adverb);
        }
        if str_eq(string, "&adv-to;") {
            return Some(PartOfSpeech::AdverbTo);
        }
        if str_eq(string, "&aux;") {
            return Some(PartOfSpeech::Auxiliary);
        }
        if str_eq(string, "&aux-adj;") {
            return Some(PartOfSpeech::AuxiliaryAdjective);
        }
        if str_eq(string, "&aux-v;") {
            return Some(PartOfSpeech::AuxiliaryVerb);
        }
        if str_eq(string, "&conj;") {
            return Some(PartOfSpeech::Conjunction);
        }
        if str_eq(string, "&cop;") {
            return Some(PartOfSpeech::Copular);
        }
        if str_eq(string, "&ctr;") {
            return Some(PartOfSpeech::Counter);
        }
        if str_eq(string, "&exp;") {
            return Some(PartOfSpeech::Expression);
        }
        if str_eq(string, "&int;") {
            return Some(PartOfSpeech::Interjection);
        }
        if str_eq(string, "&n;") {
            return Some(PartOfSpeech::Noun);
        }
        if str_eq(string, "&n-adv;") {
            return Some(PartOfSpeech::NounAdverbial);
        }
        if str_eq(string, "&n-pr;") {
            return Some(PartOfSpeech::NounProper);
        }
        if str_eq(string, "&n-pref;") {
            return Some(PartOfSpeech::NounPrefix);
        }
        if str_eq(string, "&n-suf;") {
            return Some(PartOfSpeech::NounSuffix);
        }
        if str_eq(string, "&n-t;") {
            return Some(PartOfSpeech::NounTemporal);
        }
        if str_eq(string, "&num;") {
            return Some(PartOfSpeech::Numeric);
        }
        if str_eq(string, "&pn;") {
            return Some(PartOfSpeech::Pronoun);
        }
        if str_eq(string, "&pref;") {
            return Some(PartOfSpeech::Prefix);
        }
        if str_eq(string, "&prt;") {
            return Some(PartOfSpeech::Particle);
        }
        if str_eq(string, "&suf;") {
            return Some(PartOfSpeech::Suffix);
        }
        if str_eq(string, "&unc;") {
            return Some(PartOfSpeech::Unclassified);
        }
        if str_eq(string, "&v-unspec;") {
            return Some(PartOfSpeech::VerbUnspecified);
        }
        if str_eq(string, "&v1;") {
            return Some(PartOfSpeech::VerbIchidan);
        }
        if str_eq(string, "&v1-s;") {
            return Some(PartOfSpeech::VerbIchidanS);
        }
        if str_eq(string, "&v2a-s;") {
            return Some(PartOfSpeech::VerbNidanAS);
        }
        if str_eq(string, "&v2b-k;") {
            return Some(PartOfSpeech::VerbNidanBK);
        }
        if str_eq(string, "&v2b-s;") {
            return Some(PartOfSpeech::VerbNidanBS);
        }
        if str_eq(string, "&v2d-k;") {
            return Some(PartOfSpeech::VerbNidanDK);
        }
        if str_eq(string, "&v2d-s;") {
            return Some(PartOfSpeech::VerbNidanDS);
        }
        if str_eq(string, "&v2g-k;") {
            return Some(PartOfSpeech::VerbNidanGK);
        }
        if str_eq(string, "&v2g-s;") {
            return Some(PartOfSpeech::VerbNidanGS);
        }
        if str_eq(string, "&v2h-k;") {
            return Some(PartOfSpeech::VerbNidanHK);
        }
        if str_eq(string, "&v2h-s;") {
            return Some(PartOfSpeech::VerbNidanHS);
        }
        if str_eq(string, "&v2k-k;") {
            return Some(PartOfSpeech::VerbNidanKK);
        }
        if str_eq(string, "&v2k-s;") {
            return Some(PartOfSpeech::VerbNidanKS);
        }
        if str_eq(string, "&v2m-k;") {
            return Some(PartOfSpeech::VerbNidanMK);
        }
        if str_eq(string, "&v2m-s;") {
            return Some(PartOfSpeech::VerbNidanMS);
        }
        if str_eq(string, "&v2n-s;") {
            return Some(PartOfSpeech::VerbNidanNS);
        }
        if str_eq(string, "&v2r-k;") {
            return Some(PartOfSpeech::VerbNidanRK);
        }
        if str_eq(string, "&v2r-s;") {
            return Some(PartOfSpeech::VerbNidanRS);
        }
        if str_eq(string, "&v2s-s;") {
            return Some(PartOfSpeech::VerbNidanSS);
        }
        if str_eq(string, "&v2t-k;") {
            return Some(PartOfSpeech::VerbNidanTK);
        }
        if str_eq(string, "&v2t-s;") {
            return Some(PartOfSpeech::VerbNidanTS);
        }
        if str_eq(string, "&v2w-s;") {
            return Some(PartOfSpeech::VerbNidanWS);
        }
        if str_eq(string, "&v2y-k;") {
            return Some(PartOfSpeech::VerbNidanYK);
        }
        if str_eq(string, "&v2y-s;") {
            return Some(PartOfSpeech::VerbNidanYS);
        }
        if str_eq(string, "&v2z-s;") {
            return Some(PartOfSpeech::VerbNidanZS);
        }
        if str_eq(string, "&v4b;") {
            return Some(PartOfSpeech::VerbYodanB);
        }
        if str_eq(string, "&v4g;") {
            return Some(PartOfSpeech::VerbYodanG);
        }
        if str_eq(string, "&v4h;") {
            return Some(PartOfSpeech::VerbYodanH);
        }
        if str_eq(string, "&v4k;") {
            return Some(PartOfSpeech::VerbYodanK);
        }
        if str_eq(string, "&v4m;") {
            return Some(PartOfSpeech::VerbYodanM);
        }
        if str_eq(string, "&v4n;") {
            return Some(PartOfSpeech::VerbYodanN);
        }
        if str_eq(string, "&v4r;") {
            return Some(PartOfSpeech::VerbYodanR);
        }
        if str_eq(string, "&v4s;") {
            return Some(PartOfSpeech::VerbYodanS);
        }
        if str_eq(string, "&v4t;") {
            return Some(PartOfSpeech::VerbYodanT);
        }
        if str_eq(string, "&v5aru;") {
            return Some(PartOfSpeech::VerbGodanAru);
        }
        if str_eq(string, "&v5b;") {
            return Some(PartOfSpeech::VerbGodanB);
        }
        if str_eq(string, "&v5g;") {
            return Some(PartOfSpeech::VerbGodanG);
        }
        if str_eq(string, "&v5k;") {
            return Some(PartOfSpeech::VerbGodanK);
        }
        if str_eq(string, "&v5k-s;") {
            return Some(PartOfSpeech::VerbGodanKS);
        }
        if str_eq(string, "&v5m;") {
            return Some(PartOfSpeech::VerbGodanM);
        }
        if str_eq(string, "&v5n;") {
            return Some(PartOfSpeech::VerbGodanN);
        }
        if str_eq(string, "&v5r;") {
            return Some(PartOfSpeech::VerbGodanR);
        }
        if str_eq(string, "&v5r-i;") {
            return Some(PartOfSpeech::VerbGodanRI);
        }
        if str_eq(string, "&v5s;") {
            return Some(PartOfSpeech::VerbGodanS);
        }
        if str_eq(string, "&v5t;") {
            return Some(PartOfSpeech::VerbGodanT);
        }
        if str_eq(string, "&v5u;") {
            return Some(PartOfSpeech::VerbGodanU);
        }
        if str_eq(string, "&v5u-s;") {
            return Some(PartOfSpeech::VerbGodanUS);
        }
        if str_eq(string, "&v5uru;") {
            return Some(PartOfSpeech::VerbGodanUru);
        }
        if str_eq(string, "&vi;") {
            return Some(PartOfSpeech::VerbIntransitive);
        }
        if str_eq(string, "&vk;") {
            return Some(PartOfSpeech::VerbKuru);
        }
        if str_eq(string, "&vn;") {
            return Some(PartOfSpeech::VerbNu);
        }
        if str_eq(string, "&vr;") {
            return Some(PartOfSpeech::VerbRu);
        }
        if str_eq(string, "&vs;") {
            return Some(PartOfSpeech::VerbSuru);
        }
        if str_eq(string, "&vs-c;") {
            return Some(PartOfSpeech::VerbSuC);
        }
        if str_eq(string, "&vs-i;") {
            return Some(PartOfSpeech::VerbSuruIncluded);
        }
        if str_eq(string, "&vs-s;") {
            return Some(PartOfSpeech::VerbSuruSpecial);
        }
        if str_eq(string, "&vt;") {
            return Some(PartOfSpeech::VerbTransitive);
        }
        if str_eq(string, "&vz;") {
            return Some(PartOfSpeech::VerbZuru);
        }
        None
    }

}

#[derive(Debug, Clone, Copy, PartialEq, Eq, Structural, Hash)]
pub enum KanjiInfo {
    /// ateji (phonetic) reading
    Ateji,
    /// word containing irregular kana usage
    IrregularKana,
    /// word containing irregular kanji usage
    IrregularKanji,
    /// irregular okurigana usage
    IrregularOkurigana,
    /// word containing out-dated kanji or kanji usage
    OutdatedKanji,
    /// rarely-used kanji form
    RareKanji,
    /// search-only kanji form
    SearchOnlyKanji,
}

impl KanjiInfo {
    /// The entity name, as used in the dictionary sources.
    pub open spec fn spec_ident(self) -> Seq<char> {
        match self {
            KanjiInfo::Ateji => "ateji"@,
            KanjiInfo::IrregularKana => "ik"@,
            KanjiInfo::IrregularKanji => "iK"@,
            KanjiInfo::IrregularOkurigana => "io"@,
            KanjiInfo::OutdatedKanji => "oK"@,
            KanjiInfo::RareKanji => "rK"@,
            KanjiInfo::SearchOnlyKanji => "sK"@,
        }
    }

    /// The variant for the given entity name.
    pub open spec fn spec_parse_keyword(s: Seq<char>) -> Option<KanjiInfo> {
        if s == "ateji"@ {
            Some(KanjiInfo::Ateji)
        } else if s == "ik"@ {
            Some(KanjiInfo::IrregularKana)
        } else if s == "iK"@ {
            Some(KanjiInfo::IrregularKanji)
        } else if s == "io"@ {
            Some(KanjiInfo::IrregularOkurigana)
        } else if s == "oK"@ {
            Some(KanjiInfo::OutdatedKanji)
        } else if s == "rK"@ {
            Some(KanjiInfo::RareKanji)
        } else if s == "sK"@ {
            Some(KanjiInfo::SearchOnlyKanji)
        } else {
            None
        }
    }

    /// The variant for the given entity reference, such as `&ateji;`.
    pub open spec fn spec_parse(s: Seq<char>) -> Option<KanjiInfo> {
        if s == "&ateji;"@ {
            Some(KanjiInfo::Ateji)
        } else if s == "&ik;"@ {
            Some(KanjiInfo::IrregularKana)
        } else if s == "&iK;"@ {
            Some(KanjiInfo::IrregularKanji)
        } else if s == "&io;"@ {
            Some(KanjiInfo::IrregularOkurigana)
        } else if s == "&oK;"@ {
            Some(KanjiInfo::OutdatedKanji)
        } else if s == "&rK;"@ {
            Some(KanjiInfo::RareKanji)
        } else if s == "&sK;"@ {
            Some(KanjiInfo::SearchOnlyKanji)
        } else {
            None
        }
    }

    /// The name of the variant.
    pub open spec fn spec_variant(self) -> Seq<char> {
        match self {
            KanjiInfo::Ateji => "Ateji"@,
            KanjiInfo::IrregularKana => "IrregularKana"@,
            KanjiInfo::IrregularKanji => "IrregularKanji"@,
            KanjiInfo::IrregularOkurigana => "IrregularOkurigana"@,
            KanjiInfo::OutdatedKanji => "OutdatedKanji"@,
            KanjiInfo::RareKanji => "RareKanji"@,
            KanjiInfo::SearchOnlyKanji => "SearchOnlyKanji"@,
        }
    }

    /// The name of the variant.
    pub fn variant(&self) -> (r: &'static str)
        ensures
            r@ == self.spec_variant(),
    {
        match self {
            KanjiInfo::Ateji => "Ateji",
            KanjiInfo::IrregularKana => "IrregularKana",
            KanjiInfo::IrregularKanji => "IrregularKanji",
            KanjiInfo::IrregularOkurigana => "IrregularOkurigana",
            KanjiInfo::OutdatedKanji => "OutdatedKanji",
            KanjiInfo::RareKanji => "RareKanji",
            KanjiInfo::SearchOnlyKanji => "SearchOnlyKanji",
        }
    }

    /// The entity name, as used in the dictionary sources.
    pub fn ident(&self) -> (r: &'static str)
        ensures
            r@ == self.spec_ident(),
    {
        match self {
            KanjiInfo::Ateji => "ateji",
            KanjiInfo::IrregularKana => "ik",
            KanjiInfo::IrregularKanji => "iK",
            KanjiInfo::IrregularOkurigana => "io",
            KanjiInfo::OutdatedKanji => "oK",
            KanjiInfo::RareKanji => "rK",
            KanjiInfo::SearchOnlyKanji => "sK",
        }
    }

    /// A description of the entity.
    pub open spec fn spec_help(self) -> Seq<char> {
        match self {
            KanjiInfo::Ateji => "ateji (phonetic) reading"@,
            KanjiInfo::IrregularKana => "word containing irregular kana usage"@,
            KanjiInfo::IrregularKanji => "word containing irregular kanji usage"@,
            KanjiInfo::IrregularOkurigana => "irregular okurigana usage"@,
            KanjiInfo::OutdatedKanji => "word containing out-dated kanji or kanji usage"@,
            KanjiInfo::RareKanji => "rarely-used kanji form"@,
            KanjiInfo::SearchOnlyKanji => "search-only kanji form"@,
        }
    }

    /// A description of the entity.
    pub fn help(&self) -> (r: &'static str)
        ensures
            r@ == self.spec_help(),
    {
        match self {
            KanjiInfo::Ateji => "ateji (phonetic) reading",
            KanjiInfo::IrregularKana => "word containing irregular kana usage",
            KanjiInfo::IrregularKanji => "word containing irregular kanji usage",
            KanjiInfo::IrregularOkurigana => "irregular okurigana usage",
            KanjiInfo::OutdatedKanji => "word containing out-dated kanji or kanji usage",
            KanjiInfo::RareKanji => "rarely-used kanji form",
            KanjiInfo::SearchOnlyKanji => "search-only kanji form",
        }
    }

    /// Parse an entity name.
    pub fn parse_keyword(string: &str) -> (r: Option<KanjiInfo>)
        ensures
            r == Self::spec_parse_keyword(string@),
    {
        if str_eq(string, "ateji") {
            return Some(KanjiInfo::Ateji);
        }
        if str_eq(string, "ik") {
            return Some(KanjiInfo::IrregularKana);
        }
        if str_eq(string, "iK") {
            return Some(KanjiInfo::IrregularKanji);
        }
        if str_eq(string, "io") {
            return Some(KanjiInfo::IrregularOkurigana);
        }
        if str_eq(string, "oK") {
            return Some(KanjiInfo::OutdatedKanji);
        }
        if str_eq(string, "rK") {
            return Some(KanjiInfo::RareKanji);
        }
        if str_eq(string, "sK") {
            return Some(KanjiInfo::SearchOnlyKanji);
        }
        None
    }

    /// Parse an entity reference, such as `&abbr;`.
    pub fn parse(string: &str) -> (r: Option<KanjiInfo>)
        ensures
            r == Self::spec_parse(string@),
    {
        if str_eq(string, "&ateji;") {
            return Some(KanjiInfo::Ateji);
        }
        if str_eq(string, "&ik;") {
            return Some(KanjiInfo::IrregularKana);
        }
        if str_eq(string, "&iK;") {
            return Some(KanjiInfo::IrregularKanji);
        }
        if str_eq(string, "&io;") {
            return Some(KanjiInfo::IrregularOkurigana);
        }
        if str_eq(string, "&oK;") {
            return Some(KanjiInfo::OutdatedKanji);
        }
        if str_eq(string, "&rK;") {
            return Some(KanjiInfo::RareKanji);
        }
        if str_eq(string, "&sK;") {
            return Some(KanjiInfo::SearchOnlyKanji);
        }
        None
    }

}

#[derive(Debug, Clone, Copy, PartialEq, Eq, Structural, Hash)]
pub enum ReadingInfo {
    /// gikun (meaning as reading) or jukujikun (special kanji reading)
    Gikun,
    /// word containing irregular kana usage
    IrregularKana,
    /// out-dated or obsolete kana usage
    ObsoleteKana,
    /// search-only kana form
    SearchOnlyKana,
    /// rarely used kana form
    RareKana,
}

impl ReadingInfo {
    /// The entity name, as used in the dictionary sources.
    pub open spec fn spec_ident(self) -> Seq<char> {
        match self {
            ReadingInfo::Gikun => "gikun"@,
            ReadingInfo::IrregularKana => "ik"@,
            ReadingInfo::ObsoleteKana => "ok"@,
            ReadingInfo::SearchOnlyKana => "sk"@,
            ReadingInfo::RareKana => "rk"@,
        }
    }

    /// The variant for the given entity name.
    pub open spec fn spec_parse_keyword(s: Seq<char>) -> Option<ReadingInfo> {
        if s == "gikun"@ {
            Some(ReadingInfo::Gikun)
        } else if s == "ik"@ {
            Some(ReadingInfo::IrregularKana)
        } else if s == "ok"@ {
            Some(ReadingInfo::ObsoleteKana)
        } else if s == "sk"@ {
            Some(ReadingInfo::SearchOnlyKana)
        } else if s == "rk"@ {
            Some(ReadingInfo::RareKana)
        } else {
            None
        }
    }

    /// The variant for the given entity reference, such as `&gikun;`.
    pub open spec fn spec_parse(s: Seq<char>) -> Option<ReadingInfo> {
        if s == "&gikun;"@ {
            Some(ReadingInfo::Gikun)
        } else if s == "&ik;"@ {
            Some(ReadingInfo::IrregularKana)
        } else if s == "&ok;"@ {
            Some(ReadingInfo::ObsoleteKana)
        } else if s == "&sk;"@ {
            Some(ReadingInfo::SearchOnlyKana)
        } else if s == "&rk;"@ {
            Some(ReadingInfo::RareKana)
        } else {
            None
        }
    }

    /// The variant for the given search keyword.
    pub open spec fn spec_search_keyword(s: Seq<char>) -> Option<ReadingInfo> {
        if s == "gikun"@ {
            Some(ReadingInfo::Gikun)
        } else if s == "rik"@ {
            Some(ReadingInfo::IrregularKana)
        } else if s == "ok"@ {
            Some(ReadingInfo::ObsoleteKana)
        } else if s == "sk"@ {
            Some(ReadingInfo::SearchOnlyKana)
        } else if s == "rk"@ {
            Some(ReadingInfo::RareKana)
        } else {
            None
        }
    }

    /// The name of the variant.
    pub open spec fn spec_variant(self) -> Seq<char> {
        match self {
            ReadingInfo::Gikun => "Gikun"@,
            ReadingInfo::IrregularKana => "IrregularKana"@,
            ReadingInfo::ObsoleteKana => "ObsoleteKana"@,
            ReadingInfo::SearchOnlyKana => "SearchOnlyKana"@,
            ReadingInfo::RareKana => "RareKana"@,
        }
    }

    /// The name of the variant.
    pub fn variant(&self) -> (r: &'static str)
        ensures
            r@ == self.spec_variant(),
    {
        match self {
            ReadingInfo::Gikun => "Gikun",
            ReadingInfo::IrregularKana => "IrregularKana",
            ReadingInfo::ObsoleteKana => "ObsoleteKana",
            ReadingInfo::SearchOnlyKana => "SearchOnlyKana",
            ReadingInfo::RareKana => "RareKana",
        }
    }

    /// The entity name, as used in the dictionary sources.
    pub fn ident(&self) -> (r: &'static str)
        ensures
            r@ == self.spec_ident(),
    {
        match self {
            ReadingInfo::Gikun => "gikun",
            ReadingInfo::IrregularKana => "ik",
            ReadingInfo::ObsoleteKana => "ok",
            ReadingInfo::SearchOnlyKana => "sk",
            ReadingInfo::RareKana => "rk",
        }
    }

    /// A description of the entity.
    pub open spec fn spec_help(self) -> Seq<char> {
        match self {
            ReadingInfo::Gikun => "gikun (meaning as reading) or jukujikun (special kanji reading)"@,
            ReadingInfo::IrregularKana => "word containing irregular kana usage"@,
            ReadingInfo::ObsoleteKana => "out-dated or obsolete kana usage"@,
            ReadingInfo::SearchOnlyKana => "search-only kana form"@,
            ReadingInfo::RareKana => "rarely used kana form"@,
        }
    }

    /// A description of the entity.
    pub fn help(&self) -> (r: &'static str)
        ensures
            r@ == self.spec_help(),
    {
        match self {
            ReadingInfo::Gikun => "gikun (meaning as reading) or jukujikun (special kanji reading)",
            ReadingInfo::IrregularKana => "word containing irregular kana usage",
            ReadingInfo::ObsoleteKana => "out-dated or obsolete kana usage",
            ReadingInfo::SearchOnlyKana => "search-only kana form",
            ReadingInfo::RareKana => "rarely used kana form",
        }
    }

    /// Parse an entity name.
    pub fn parse_keyword(string: &str) -> (r: Option<ReadingInfo>)
        ensures
            r == Self::spec_parse_keyword(string@),
    {
        if str_eq(string, "gikun") {
            return Some(ReadingInfo::Gikun);
        }
        if str_eq(string, "ik") {
            return Some(ReadingInfo::IrregularKana);
        }
        if str_eq(string, "ok") {
            return Some(ReadingInfo::ObsoleteKana);
        }
        if str_eq(string, "sk") {
            return Some(ReadingInfo::SearchOnlyKana);
        }
        if str_eq(string, "rk") {
            return Some(ReadingInfo::RareKana);
        }
        None
    }

    /// Parse an entity reference, such as `&abbr;`.
    pub fn parse(string: &str) -> (r: Option<ReadingInfo>)
        ensures
            r == Self::spec_parse(string@),
    {
        if str_eq(string, "&gikun;") {
            return Some(ReadingInfo::Gikun);
        }
        if str_eq(string, "&ik;") {
            return Some(ReadingInfo::IrregularKana);
        }
        if str_eq(string, "&ok;") {
            return Some(ReadingInfo::ObsoleteKana);
        }
        if str_eq(string, "&sk;") {
            return Some(ReadingInfo::SearchOnlyKana);
        }
        if str_eq(string, "&rk;") {
            return Some(ReadingInfo::RareKana);
        }
        None
    }

    /// Parse a search keyword.
    pub fn search_keyword(string: &str) -> (r: Option<ReadingInfo>)
        ensures
            r == Self::spec_search_keyword(string@),
    {
        if str_eq(string, "gikun") {
            return Some(ReadingInfo::Gikun);
        }
        if str_eq(string, "rik") {
            return Some(ReadingInfo::IrregularKana);
        }
        if str_eq(string, "ok") {
            return Some(ReadingInfo::ObsoleteKana);
        }
        if str_eq(string, "sk") {
            return Some(ReadingInfo::SearchOnlyKana);
        }
        if str_eq(string, "rk") {
            return Some(ReadingInfo::RareKana);
        }
        None
    }

}

#[derive(Debug, Clone, Copy, PartialEq, Eq, Structural, Hash)]
pub enum Dialect {
    /// Brazilian
    Brazilian,
    /// Hokkaido-ben
    HokkaidoBen,
    /// Kansai-ben
    KansaiBen,
    /// Kantou-ben
    KantouBen,
    /// Kyoto-ben
    KyotoBen,
    /// Kyuushuu-ben
    KyuushuuBen,
    /// Nagano-ben
    NaganoBen,
    /// Osaka-ben
    OsakaBen,
    /// Ryuukyuu-ben
    RyuukyuuBen,
    /// Touhoku-ben
    TouhokuBen,
    /// Tosa-ben
    TosaBen,
    /// Tsugaru-ben
    TsugaruBen,
}

impl Dialect {
    /// The entity name, as used in the dictionary sources.
    pub open spec fn spec_ident(self) -> Seq<char> {
        match self {
            Dialect::Brazilian => "bra"@,
            Dialect::HokkaidoBen => "hob"@,
            Dialect::KansaiBen => "ksb"@,
            Dialect::KantouBen => "ktb"@,
            Dialect::KyotoBen => "kyb"@,
            Dialect::KyuushuuBen => "kyu"@,
            Dialect::NaganoBen => "nab"@,
            Dialect::OsakaBen => "osb"@,
            Dialect::RyuukyuuBen => "rkb"@,
            Dialect::TouhokuBen => "thb"@,
            Dialect::TosaBen => "tsb"@,
            Dialect::TsugaruBen => "tsug"@,
        }
    }

    /// The variant for the given entity name.
    pub open spec fn spec_parse_keyword(s: Seq<char>) -> Option<Dialect> {
        if s == "bra"@ {
            Some(Dialect::Brazilian)
        } else if s == "hob"@ {
            Some(Dialect::HokkaidoBen)
        } else if s == "ksb"@ {
            Some(Dialect::KansaiBen)
        } else if s == "ktb"@ {
            Some(Dialect::KantouBen)
        } else if s == "kyb"@ {
            Some(Dialect::KyotoBen)
        } else if s == "kyu"@ {
            Some(Dialect::KyuushuuBen)
        } else if s == "nab"@ {
            Some(Dialect::NaganoBen)
        } else if s == "osb"@ {
            Some(Dialect::OsakaBen)
        } else if s == "rkb"@ {
            Some(Dialect::RyuukyuuBen)
        } else if s == "thb"@ {
            Some(Dialect::TouhokuBen)
        } else if s == "tsb"@ {
            Some(Dialect::TosaBen)
        } else if s == "tsug"@ {
            Some(Dialect::TsugaruBen)
        } else {
            None
        }
    }

    /// The variant for the given entity reference, such as `&bra;`.
    pub open spec fn spec_parse(s: Seq<char>) -> Option<Dialect> {
        if s == "&bra;"@ {
            Some(Dialect::Brazilian)
        } else if s == "&hob;"@ {
            Some(Dialect::HokkaidoBen)
        } else if s == "&ksb;"@ {
            Some(Dialect::KansaiBen)
        } else if s == "&ktb;"@ {
            Some(Dialect::KantouBen)
        } else if s == "&kyb;"@ {
            Some(Dialect::KyotoBen)
        } else if s == "&kyu;"@ {
            Some(Dialect::KyuushuuBen)
        } else if s == "&nab;"@ {
            Some(Dialect::NaganoBen)
        } else if s == "&osb;"@ {
            Some(Dialect::OsakaBen)
        } else if s == "&rkb;"@ {
            Some(Dialect::RyuukyuuBen)
        } else if s == "&thb;"@ {
            Some(Dialect::TouhokuBen)
        } else if s == "&tsb;"@ {
            Some(Dialect::TosaBen)
        } else if s == "&tsug;"@ {
            Some(Dialect::TsugaruBen)
        } else {
            None
        }
    }

    /// The name of the variant.
    pub open spec fn spec_variant(self) -> Seq<char> {
        match self {
            Dialect::Brazilian => "Brazilian"@,
            Dialect::HokkaidoBen => "HokkaidoBen"@,
            Dialect::KansaiBen => "KansaiBen"@,
            Dialect::KantouBen => "KantouBen"@,
            Dialect::KyotoBen => "KyotoBen"@,
            Dialect::KyuushuuBen => "KyuushuuBen"@,
            Dialect::NaganoBen => "NaganoBen"@,
            Dialect::OsakaBen => "OsakaBen"@,
            Dialect::RyuukyuuBen => "RyuukyuuBen"@,
            Dialect::TouhokuBen => "TouhokuBen"@,
            Dialect::TosaBen => "TosaBen"@,
            Dialect::TsugaruBen => "TsugaruBen"@,
        }
    }

    /// The name of the variant.
    pub fn variant(&self) -> (r: &'static str)
        ensures
            r@ == self.spec_variant(),
    {
        match self {
            Dialect::Brazilian => "Brazilian",
            Dialect::HokkaidoBen => "HokkaidoBen",
            Dialect::KansaiBen => "KansaiBen",
            Dialect::KantouBen => "KantouBen",
            Dialect::KyotoBen => "KyotoBen",
            Dialect::KyuushuuBen => "KyuushuuBen",
            Dialect::NaganoBen => "NaganoBen",
            Dialect::OsakaBen => "OsakaBen",
            Dialect::RyuukyuuBen => "RyuukyuuBen",
            Dialect::TouhokuBen => "TouhokuBen",
            Dialect::TosaBen => "TosaBen",
            Dialect::TsugaruBen => "TsugaruBen",
        }
    }

    /// The entity name, as used in the dictionary sources.
    pub fn ident(&self) -> (r: &'static str)
        ensures
            r@ == self.spec_ident(),
    {
        match self {
            Dialect::Brazilian => "bra",
            Dialect::HokkaidoBen => "hob",
            Dialect::KansaiBen => "ksb",
            Dialect::KantouBen => "ktb",
            Dialect::KyotoBen => "kyb",
            Dialect::KyuushuuBen => "kyu",
            Dialect::NaganoBen => "nab",
            Dialect::OsakaBen => "osb",
            Dialect::RyuukyuuBen => "rkb",
            Dialect::TouhokuBen => "thb",
            Dialect::TosaBen => "tsb",
            Dialect::TsugaruBen => "tsug",
        }
    }

    /// A description of the entity.
    pub open spec fn spec_help(self) -> Seq<char> {
        match self {
            Dialect::Brazilian => "Brazilian"@,
            Dialect::HokkaidoBen => "Hokkaido-ben"@,
            Dialect::KansaiBen => "Kansai-ben"@,
            Dialect::KantouBen => "Kantou-ben"@,
            Dialect::KyotoBen => "Kyoto-ben"@,
            Dialect::KyuushuuBen => "Kyuushuu-ben"@,
            Dialect::NaganoBen => "Nagano-ben"@,
            Dialect::OsakaBen => "Osaka-ben"@,
            Dialect::RyuukyuuBen => "Ryuukyuu-ben"@,
            Dialect::TouhokuBen => "Touhoku-ben"@,
            Dialect::TosaBen => "Tosa-ben"@,
            Dialect::TsugaruBen => "Tsugaru-ben"@,
        }
    }

    /// A description of the entity.
    pub fn help(&self) -> (r: &'static str)
        ensures
            r@ == self.spec_help(),
    {
        match self {
            Dialect::Brazilian => "Brazilian",
            Dialect::HokkaidoBen => "Hokkaido-ben",
            Dialect::KansaiBen => "Kansai-ben",
            Dialect::KantouBen => "Kantou-ben",
            Dialect::KyotoBen => "Kyoto-ben",
            Dialect::KyuushuuBen => "Kyuushuu-ben",
            Dialect::NaganoBen => "Nagano-ben",
            Dialect::OsakaBen => "Osaka-ben",
            Dialect::RyuukyuuBen => "Ryuukyuu-ben",
            Dialect::TouhokuBen => "Touhoku-ben",
            Dialect::TosaBen => "Tosa-ben",
            Dialect::TsugaruBen => "Tsugaru-ben",
        }
    }

    /// Parse an entity name.
    pub fn parse_keyword(string: &str) -> (r: Option<Dialect>)
        ensures
            r == Self::spec_parse_keyword(string@),
    {
        if str_eq(string, "bra") {
            return Some(Dialect::Brazilian);
        }
        if str_eq(string, "hob") {
            return Some(Dialect::HokkaidoBen);
        }
        if str_eq(string, "ksb") {
            return Some(Dialect::KansaiBen);
        }
        if str_eq(string, "ktb") {
            return Some(Dialect::KantouBen);
        }
        if str_eq(string, "kyb") {
            return Some(Dialect::KyotoBen);
        }
        if str_eq(string, "kyu") {
            return Some(Dialect::KyuushuuBen);
        }
        if str_eq(string, "nab") {
            return Some(Dialect::NaganoBen);
        }
        if str_eq(string, "osb") {
            return Some(Dialect::OsakaBen);
        }
        if str_eq(string, "rkb") {
            return Some(Dialect::RyuukyuuBen);
        }
        if str_eq(string, "thb") {
            return Some(Dialect::TouhokuBen);
        }
        if str_eq(string, "tsb") {
            return Some(Dialect::TosaBen);
        }
        if str_eq(string, "tsug") {
            return Some(Dialect::TsugaruBen);
        }
        None
    }

    /// Parse an entity reference, such as `&abbr;`.
    pub fn parse(string: &str) -> (r: Option<Dialect>)
        ensures
            r == Self::spec_parse(string@),
    {
        if str_eq(string, "&bra;") {
            return Some(Dialect::Brazilian);
        }
        if str_eq(string, "&hob;") {
            return Some(Dialect::HokkaidoBen);
        }
        if str_eq(string, "&ksb;") {
            return Some(Dialect::KansaiBen);
        }
        if str_eq(string, "&ktb;") {
            return Some(Dialect::KantouBen);
        }
        if str_eq(string, "&kyb;") {
            return Some(Dialect::KyotoBen);
        }
        if str_eq(string, "&kyu;") {
            return Some(Dialect::KyuushuuBen);
        }
        if str_eq(string, "&nab;") {
            return Some(Dialect::NaganoBen);
        }
        if str_eq(string, "&osb;") {
            return Some(Dialect::OsakaBen);
        }
        if str_eq(string, "&rkb;") {
            return Some(Dialect::RyuukyuuBen);
        }
        if str_eq(string, "&thb;") {
            return Some(Dialect::TouhokuBen);
        }
        if str_eq(string, "&tsb;") {
            return Some(Dialect::TosaBen);
        }
        if str_eq(string, "&tsug;") {
            return Some(Dialect::TsugaruBen);
        }
        None
    }

}

#[derive(Debug, Clone, Copy, PartialEq, Eq, Structural, Hash)]
pub enum Field {
    /// agriculture
    Agriculture,
    /// anatomy
    Anatomy,
    /// archeology
    Archeology,
    /// architecture
    Architecture,
    /// art, aesthetics
    Art,
    /// astronomy
    Astronomy,
    /// audiovisual
    AudioVisual,
    /// aviation
    Aviatation,
    /// baseball
    Baseball,
    /// biochemistry
    Biochemistry,
    /// biology
    Biology,
    /// botany
    Botany,
    /// boxing
    Boxing,
    /// Buddhism
    Buddh,
    /// business
    Business,
    /// card games
    Cards,
    /// chemistry
    Chemistry,
    /// Christianity
    Christianity,
    /// civil engineering
    CivilEngineering,
    /// Chinese mythology
    ChineseMythology,
    /// clothing
    Clothing,
    /// computing
    Computing,
    /// crystallography
    Crystallography,
    /// dentistry
    Dentistry,
    /// ecology
    Ecology,
    /// economics
    Economy,
    /// electricity, elec. eng.
    Electricity,
    /// electronics
    Electronics,
    /// embryology
    Embryology,
    /// engineering
    Engineering,
    /// entomology
    Entomology,
    /// film
    Film,
    /// finance
    Finc,
    /// fishing
    Fish,
    /// food, cooking
    Food,
    /// gardening, horticulture
    Gardening,
    /// genetics
    Genetics,
    /// geography
    Geography,
    /// geology
    Geology,
    /// geometry
    Geometry,
    /// go (game)
    Go,
    /// golf
    Golf,
    /// grammar
    Grammar,
    /// Greek mythology
    GreekMythology,
    /// hanafuda
    Hanafuda,
    /// horse racing
    Horse,
    /// internet
    Internet,
    /// Japanese mythology
    JapaneseMythology,
    /// kabuki
    Kabuki,
    /// law
    Law,
    /// linguistics
    Ling,
    /// logic
    Logic,
    /// martial arts
    MartialArts,
    /// mahjong
    Mahjong,
    /// manga
    Manga,
    /// mathematics
    Mathematics,
    /// mechanical engineering
    MechanicalEnginering,
    /// medicine
    Medicine,
    /// meteorology
    Meteorology,
    /// military
    Military,
    /// mining
    Mining,
    /// motorsport
    Motorsport,
    /// music
    Music,
    /// noh
    Noh,
    /// ornithology
    Ornithology,
    /// paleontology
    Paleontology,
    /// pathology
    Pathology,
    /// pharmacology
    Pharmacology,
    /// philosophy
    Philosophy,
    /// photography
    Photo,
    /// physics
    Physics,
    /// physiology
    Physiol,
    /// politics
    Politics,
    /// printing
    Print,
    /// professional wrestling
    ProwRes,
    /// psychiatry
    Psychatry,
    /// psychoanalysis
    Psyanal,
    /// psychology
    Psychology,
    /// railway
    Railway,
    /// Roman mythology
    RomanMythology,
    /// Shinto
    Shinto,
    /// shogi
    Shogi,
    /// skiing
    Skiing,
    /// sports
    Sports,
    /// statistics
    Statistics,
    /// stock market
    StockMarket,
    /// sumo
    Sumo,
    /// surgery
    Surgery,
    /// telecommunications
    Telecommunications,
    /// trademark
    Trademark,
    /// television
    Tv,
    /// video games
    VideoGames,
    /// zoology
    Zoology,
}

impl Field {
    /// The entity name, as used in the dictionary sources.
    pub open spec fn spec_ident(self) -> Seq<char> {
        match self {
            Field::Agriculture => "agric"@,
            Field::Anatomy => "anat"@,
            Field::Archeology => "archeol"@,
            Field::Architecture => "archit"@,
            Field::Art => "art"@,
            Field::Astronomy => "astron"@,
            Field::AudioVisual => "audvid"@,
            Field::Aviatation => "aviat"@,
            Field::Baseball => "baseb"@,
            Field::Biochemistry => "biochem"@,
            Field::Biology => "biol"@,
            Field::Botany => "bot"@,
            Field::Boxing => "boxing"@,
            Field::Buddh => "Buddh"@,
            Field::Business => "bus"@,
            Field::Cards => "cards"@,
            Field::Chemistry => "chem"@,
            Field::Christianity => "Christn"@,
            Field::CivilEngineering => "civeng"@,
            Field::ChineseMythology => "chmyth"@,
            Field::Clothing => "cloth"@,
            Field::Computing => "comp"@,
            Field::Crystallography => "cryst"@,
            Field::Dentistry => "dent"@,
            Field::Ecology => "ecol"@,
            Field::Economy => "econ"@,
            Field::Electricity => "elec"@,
            Field::Electronics => "electr"@,
            Field::Embryology => "embryo"@,
            Field::Engineering => "engr"@,
            Field::Entomology => "ent"@,
            Field::Film => "film"@,
            Field::Finc => "finc"@,
            Field::Fish => "fish"@,
            Field::Food => "food"@,
            Field::Gardening => "gardn"@,
            Field::Genetics => "genet"@,
            Field::Geography => "geogr"@,
            Field::Geology => "geol"@,
            Field::Geometry => "geom"@,
            Field::Go => "go"@,
            Field::Golf => "golf"@,
            Field::Grammar => "gramm"@,
            Field::GreekMythology => "grmyth"@,
            Field::Hanafuda => "hanaf"@,
            Field::Horse => "horse"@,
            Field::Internet => "internet"@,
            Field::JapaneseMythology => "jpmyth"@,
            Field::Kabuki => "kabuki"@,
            Field::Law => "law"@,
            Field::Ling => "ling"@,
            Field::Logic => "logic"@,
            Field::MartialArts => "MA"@,
            Field::Mahjong => "mahj"@,
            Field::Manga => "manga"@,
            Field::Mathematics => "math"@,
            Field::MechanicalEnginering => "mech"@,
            Field::Medicine => "med"@,
            Field::Meteorology => "met"@,
            Field::Military => "mil"@,
            Field::Mining => "mining"@,
            Field::Motorsport => "motor"@,
            Field::Music => "music"@,
            Field::Noh => "noh"@,
            Field::Ornithology => "ornith"@,
            Field::Paleontology => "paleo"@,
            Field::Pathology => "pathol"@,
            Field::Pharmacology => "pharm"@,
            Field::Philosophy => "phil"@,
            Field::Photo => "photo"@,
            Field::Physics => "physics"@,
            Field::Physiol => "physiol"@,
            Field::Politics => "politics"@,
            Field::Print => "print"@,
            Field::ProwRes => "prowres"@,
            Field::Psychatry => "psy"@,
            Field::Psyanal => "psyanal"@,
            Field::Psychology => "psych"@,
            Field::Railway => "rail"@,
            Field::RomanMythology => "rommyth"@,
            Field::Shinto => "Shinto"@,
            Field::Shogi => "shogi"@,
            Field::Skiing => "ski"@,
            Field::Sports => "sports"@,
            Field::Statistics => "stat"@,
            Field::StockMarket => "stockm"@,
            Field::Sumo => "sumo"@,
            Field::Surgery => "surg"@,
            Field::Telecommunications => "telec"@,
            Field::Trademark => "tradem"@,
            Field::Tv => "tv"@,
            Field::VideoGames => "vidg"@,
            Field::Zoology => "zool"@,
        }
    }

    /// The variant for the given entity name.
    pub open spec fn spec_parse_keyword(s: Seq<char>) -> Option<Field> {
        if s == "agric"@ {
            Some(Field::Agriculture)
        } else if s == "anat"@ {
            Some(Field::Anatomy)
        } else if s == "archeol"@ {
            Some(Field::Archeology)
        } else if s == "archit"@ {
            Some(Field::Architecture)
        } else if s == "art"@ {
            Some(Field::Art)
        } else if s == "astron"@ {
            Some(Field::Astronomy)
        } else if s == "audvid"@ {
            Some(Field::AudioVisual)
        } else if s == "aviat"@ {
            Some(Field::Aviatation)
        } else if s == "baseb"@ {
            Some(Field::Baseball)
        } else if s == "biochem"@ {
            Some(Field::Biochemistry)
        } else if s == "biol"@ {
            Some(Field::Biology)
        } else if s == "bot"@ {
            Some(Field::Botany)
        } else if s == "boxing"@ {
            Some(Field::Boxing)
        } else if s == "Buddh"@ {
            Some(Field::Buddh)
        } else if s == "bus"@ {
            Some(Field::Business)
        } else if s == "cards"@ {
            Some(Field::Cards)
        } else if s == "chem"@ {
            Some(Field::Chemistry)
        } else if s == "Christn"@ {
            Some(Field::Christianity)
        } else if s == "civeng"@ {
            Some(Field::CivilEngineering)
        } else if s == "chmyth"@ {
            Some(Field::ChineseMythology)
        } else if s == "cloth"@ {
            Some(Field::Clothing)
        } else if s == "comp"@ {
            Some(Field::Computing)
        } else if s == "cryst"@ {
            Some(Field::Crystallography)
        } else if s == "dent"@ {
            Some(Field::Dentistry)
        } else if s == "ecol"@ {
            Some(Field::Ecology)
        } else if s == "econ"@ {
            Some(Field::Economy)
        } else if s == "elec"@ {
            Some(Field::Electricity)
        } else if s == "electr"@ {
            Some(Field::Electronics)
        } else if s == "embryo"@ {
            Some(Field::Embryology)
        } else if s == "engr"@ {
            Some(Field::Engineering)
        } else if s == "ent"@ {
            Some(Field::Entomology)
        } else if s == "film"@ {
            Some(Field::Film)
        } else if s == "finc"@ {
            Some(Field::Finc)
        } else if s == "fish"@ {
            Some(Field::Fish)
        } else if s == "food"@ {
            Some(Field::Food)
        } else if s == "gardn"@ {
            Some(Field::Gardening)
        } else if s == "genet"@ {
            Some(Field::Genetics)
        } else if s == "geogr"@ {
            Some(Field::Geography)
        } else if s == "geol"@ {
            Some(Field::Geology)
        } else if s == "geom"@ {
            Some(Field::Geometry)
        } else if s == "go"@ {
            Some(Field::Go)
        } else if s == "golf"@ {
            Some(Field::Golf)
        } else if s == "gramm"@ {
            Some(Field::Grammar)
        } else if s == "grmyth"@ {
            Some(Field::GreekMythology)
        } else if s == "hanaf"@ {
            Some(Field::Hanafuda)
        } else if s == "horse"@ {
            Some(Field::Horse)
        } else if s == "internet"@ {
            Some(Field::Internet)
        } else if s == "jpmyth"@ {
            Some(Field::JapaneseMythology)
        } else if s == "kabuki"@ {
            Some(Field::Kabuki)
        } else if s == "law"@ {
            Some(Field::Law)
        } else if s == "ling"@ {
            Some(Field::Ling)
        } else if s == "logic"@ {
            Some(Field::Logic)
        } else if s == "MA"@ {
            Some(Field::MartialArts)
        } else if s == "mahj"@ {
            Some(Field::Mahjong)
        } else if s == "manga"@ {
            Some(Field::Manga)
        } else if s == "math"@ {
            Some(Field::Mathematics)
        } else if s == "mech"@ {
            Some(Field::MechanicalEnginering)
        } else if s == "med"@ {
            Some(Field::Medicine)
        } else if s == "met"@ {
            Some(Field::Meteorology)
        } else if s == "mil"@ {
            Some(Field::Military)
        } else if s == "mining"@ {
            Some(Field::Mining)
        } else if s == "motor"@ {
            Some(Field::Motorsport)
        } else if s == "music"@ {
            Some(Field::Music)
        } else if s == "noh"@ {
            Some(Field::Noh)
        } else if s == "ornith"@ {
            Some(Field::Ornithology)
        } else if s == "paleo"@ {
            Some(Field::Paleontology)
        } else if s == "pathol"@ {
            Some(Field::Pathology)
        } else if s == "pharm"@ {
            Some(Field::Pharmacology)
        } else if s == "phil"@ {
            Some(Field::Philosophy)
        } else if s == "photo"@ {
            Some(Field::Photo)
        } else if s == "physics"@ {
            Some(Field::Physics)
        } else if s == "physiol"@ {
            Some(Field::Physiol)
        } else if s == "politics"@ {
            Some(Field::Politics)
        } else if s == "print"@ {
            Some(Field::Print)
        } else if s == "prowres"@ {
            Some(Field::ProwRes)
        } else if s == "psy"@ {
            Some(Field::Psychatry)
        } else if s == "psyanal"@ {
            Some(Field::Psyanal)
        } else if s == "psych"@ {
            Some(Field::Psychology)
        } else if s == "rail"@ {
            Some(Field::Railway)
        } else if s == "rommyth"@ {
            Some(Field::RomanMythology)
        } else if s == "Shinto"@ {
            Some(Field::Shinto)
        } else if s == "shogi"@ {
            Some(Field::Shogi)
        } else if s == "ski"@ {
            Some(Field::Skiing)
        } else if s == "sports"@ {
            Some(Field::Sports)
        } else if s == "stat"@ {
            Some(Field::Statistics)
        } else if s == "stockm"@ {
            Some(Field::StockMarket)
        } else if s == "sumo"@ {
            Some(Field::Sumo)
        } else if s == "surg"@ {
            Some(Field::Surgery)
        } else if s == "telec"@ {
            Some(Field::Telecommunications)
        } else if s == "tradem"@ {
            Some(Field::Trademark)
        } else if s == "tv"@ {
            Some(Field::Tv)
        } else if s == "vidg"@ {
            Some(Field::VideoGames)
        } else if s == "zool"@ {
            Some(Field::Zoology)
        } else {
            None
        }
    }

    /// The variant for the given entity reference, such as `&agric;`.
    pub open spec fn spec_parse(s: Seq<char>) -> Option<Field> {
        if s == "&agric;"@ {
            Some(Field::Agriculture)
        } else if s == "&anat;"@ {
            Some(Field::Anatomy)
        } else if s == "&archeol;"@ {
            Some(Field::Archeology)
        } else if s == "&archit;"@ {
            Some(Field::Architecture)
        } else if s == "&art;"@ {
            Some(Field::Art)
        } else if s == "&astron;"@ {
            Some(Field::Astronomy)
        } else if s == "&audvid;"@ {
            Some(Field::AudioVisual)
        } else if s == "&aviat;"@ {
            Some(Field::Aviatation)
        } else if s == "&baseb;"@ {
            Some(Field::Baseball)
        } else if s == "&biochem;"@ {
            Some(Field::Biochemistry)
        } else if s == "&biol;"@ {
            Some(Field::Biology)
        } else if s == "&bot;"@ {
            Some(Field::Botany)
        } else if s == "&boxing;"@ {
            Some(Field::Boxing)
        } else if s == "&Buddh;"@ {
            Some(Field::Buddh)
        } else if s == "&bus;"@ {
            Some(Field::Business)
        } else if s == "&cards;"@ {
            Some(Field::Cards)
        } else if s == "&chem;"@ {
            Some(Field::Chemistry)
        } else if s == "&Christn;"@ {
            Some(Field::Christianity)
        } else if s == "&civeng;"@ {
            Some(Field::CivilEngineering)
        } else if s == "&chmyth;"@ {
            Some(Field::ChineseMythology)
        } else if s == "&cloth;"@ {
            Some(Field::Clothing)
        } else if s == "&comp;"@ {
            Some(Field::Computing)
        } else if s == "&cryst;"@ {
            Some(Field::Crystallography)
        } else if s == "&dent;"@ {
            Some(Field::Dentistry)
        } else if s == "&ecol;"@ {
            Some(Field::Ecology)
        } else if s == "&econ;"@ {
            Some(Field::Economy)
        } else if s == "&elec;"@ {
            Some(Field::Electricity)
        } else if s == "&electr;"@ {
            Some(Field::Electronics)
        } else if s == "&embryo;"@ {
            Some(Field::Embryology)
        } else if s == "&engr;"@ {
            Some(Field::Engineering)
        } else if s == "&ent;"@ {
            Some(Field::Entomology)
        } else if s == "&film;"@ {
            Some(Field::Film)
        } else if s == "&finc;"@ {
            Some(Field::Finc)
        } else if s == "&fish;"@ {
            Some(Field::Fish)
        } else if s == "&food;"@ {
            Some(Field::Food)
        } else if s == "&gardn;"@ {
            Some(Field::Gardening)
        } else if s == "&genet;"@ {
            Some(Field::Genetics)
        } else if s == "&geogr;"@ {
            Some(Field::Geography)
        } else if s == "&geol;"@ {
            Some(Field::Geology)
        } else if s == "&geom;"@ {
            Some(Field::Geometry)
        } else if s == "&go;"@ {
            Some(Field::Go)
        } else if s == "&golf;"@ {
            Some(Field::Golf)
        } else if s == "&gramm;"@ {
            Some(Field::Grammar)
        } else if s == "&grmyth;"@ {
            Some(Field::GreekMythology)
        } else if s == "&hanaf;"@ {
            Some(Field::Hanafuda)
        } else if s == "&horse;"@ {
            Some(Field::Horse)
        } else if s == "&internet;"@ {
            Some(Field::Internet)
        } else if s == "&jpmyth;"@ {
            Some(Field::JapaneseMythology)
        } else if s == "&kabuki;"@ {
            Some(Field::Kabuki)
        } else if s == "&law;"@ {
            Some(Field::Law)
        } else if s == "&ling;"@ {
            Some(Field::Ling)
        } else if s == "&logic;"@ {
            Some(Field::Logic)
        } else if s == "&MA;"@ {
            Some(Field::MartialArts)
        } else if s == "&mahj;"@ {
            Some(Field::Mahjong)
        } else if s == "&manga;"@ {
            Some(Field::Manga)
        } else if s == "&math;"@ {
            Some(Field::Mathematics)
        } else if s == "&mech;"@ {
            Some(Field::MechanicalEnginering)
        } else if s == "&med;"@ {
            Some(Field::Medicine)
        } else if s == "&met;"@ {
            Some(Field::Meteorology)
        } else if s == "&mil;"@ {
            Some(Field::Military)
        } else if s == "&mining;"@ {
            Some(Field::Mining)
        } else if s == "&motor;"@ {
            Some(Field::Motorsport)
        } else if s == "&music;"@ {
            Some(Field::Music)
        } else if s == "&noh;"@ {
            Some(Field::Noh)
        } else if s == "&ornith;"@ {
            Some(Field::Ornithology)
        } else if s == "&paleo;"@ {
            Some(Field::Paleontology)
        } else if s == "&pathol;"@ {
            Some(Field::Pathology)
        } else if s == "&pharm;"@ {
            Some(Field::Pharmacology)
        } else if s == "&phil;"@ {
            Some(Field::Philosophy)
        } else if s == "&photo;"@ {
            Some(Field::Photo)
        } else if s == "&physics;"@ {
            Some(Field::Physics)
        } else if s == "&physiol;"@ {
            Some(Field::Physiol)
        } else if s == "&politics;"@ {
            Some(Field::Politics)
        } else if s == "&print;"@ {
            Some(Field::Print)
        } else if s == "&prowres;"@ {
            Some(Field::ProwRes)
        } else if s == "&psy;"@ {
            Some(Field::Psychatry)
        } else if s == "&psyanal;"@ {
            Some(Field::Psyanal)
        } else if s == "&psych;"@ {
            Some(Field::Psychology)
        } else if s == "&rail;"@ {
            Some(Field::Railway)
        } else if s == "&rommyth;"@ {
            Some(Field::RomanMythology)
        } else if s == "&Shinto;"@ {
            Some(Field::Shinto)
        } else if s == "&shogi;"@ {
            Some(Field::Shogi)
        } else if s == "&ski;"@ {
            Some(Field::Skiing)
        } else if s == "&sports;"@ {
            Some(Field::Sports)
        } else if s == "&stat;"@ {
            Some(Field::Statistics)
        } else if s == "&stockm;"@ {
            Some(Field::StockMarket)
        } else if s == "&sumo;"@ {
            Some(Field::Sumo)
        } else if s == "&surg;"@ {
            Some(Field::Surgery)
        } else if s == "&telec;"@ {
            Some(Field::Telecommunications)
        } else if s == "&tradem;"@ {
            Some(Field::Trademark)
        } else if s == "&tv;"@ {
            Some(Field::Tv)
        } else if s == "&vidg;"@ {
            Some(Field::VideoGames)
        } else if s == "&zool;"@ {
            Some(Field::Zoology)
        } else {
            None
        }
    }

    /// The name of the variant.
    pub open spec fn spec_variant(self) -> Seq<char> {
        match self {
            Field::Agriculture => "Agriculture"@,
            Field::Anatomy => "Anatomy"@,
            Field::Archeology => "Archeology"@,
            Field::Architecture => "Architecture"@,
            Field::Art => "Art"@,
            Field::Astronomy => "Astronomy"@,
            Field::AudioVisual => "AudioVisual"@,
            Field::Aviatation => "Aviatation"@,
            Field::Baseball => "Baseball"@,
            Field::Biochemistry => "Biochemistry"@,
            Field::Biology => "Biology"@,
            Field::Botany => "Botany"@,
            Field::Boxing => "Boxing"@,
            Field::Buddh => "Buddh"@,
            Field::Business => "Business"@,
            Field::Cards => "Cards"@,
            Field::Chemistry => "Chemistry"@,
            Field::Christianity => "Christianity"@,
            Field::CivilEngineering => "CivilEngineering"@,
            Field::ChineseMythology => "ChineseMythology"@,
            Field::Clothing => "Clothing"@,
            Field::Computing => "Computing"@,
            Field::Crystallography => "Crystallography"@,
            Field::Dentistry => "Dentistry"@,
            Field::Ecology => "Ecology"@,
            Field::Economy => "Economy"@,
            Field::Electricity => "Electricity"@,
            Field::Electronics => "Electronics"@,
            Field::Embryology => "Embryology"@,
            Field::Engineering => "Engineering"@,
            Field::Entomology => "Entomology"@,
            Field::Film => "Film"@,
            Field::Finc => "Finc"@,
            Field::Fish => "Fish"@,
            Field::Food => "Food"@,
            Field::Gardening => "Gardening"@,
            Field::Genetics => "Genetics"@,
            Field::Geography => "Geography"@,
            Field::Geology => "Geology"@,
            Field::Geometry => "Geometry"@,
            Field::Go => "Go"@,
            Field::Golf => "Golf"@,
            Field::Grammar => "Grammar"@,
            Field::GreekMythology => "GreekMythology"@,
            Field::Hanafuda => "Hanafuda"@,
            Field::Horse => "Horse"@,
            Field::Internet => "Internet"@,
            Field::JapaneseMythology => "JapaneseMythology"@,
            Field::Kabuki => "Kabuki"@,
            Field::Law => "Law"@,
            Field::Ling => "Ling"@,
            Field::Logic => "Logic"@,
            Field::MartialArts => "MartialArts"@,
            Field::Mahjong => "Mahjong"@,
            Field::Manga => "Manga"@,
            Field::Mathematics => "Mathematics"@,
            Field::MechanicalEnginering => "MechanicalEnginering"@,
            Field::Medicine => "Medicine"@,
            Field::Meteorology => "Meteorology"@,
            Field::Military => "Military"@,
            Field::Mining => "Mining"@,
            Field::Motorsport => "Motorsport"@,
            Field::Music => "Music"@,
            Field::Noh => "Noh"@,
            Field::Ornithology => "Ornithology"@,
            Field::Paleontology => "Paleontology"@,
            Field::Pathology => "Pathology"@,
            Field::Pharmacology => "Pharmacology"@,
            Field::Philosophy => "Philosophy"@,
            Field::Photo => "Photo"@,
            Field::Physics => "Physics"@,
            Field::Physiol => "Physiol"@,
            Field::Politics => "Politics"@,
            Field::Print => "Print"@,
            Field::ProwRes => "ProwRes"@,
            Field::Psychatry => "Psychatry"@,
            Field::Psyanal => "Psyanal"@,
            Field::Psychology => "Psychology"@,
            Field::Railway => "Railway"@,
            Field::RomanMythology => "RomanMythology"@,
            Field::Shinto => "Shinto"@,
            Field::Shogi => "Shogi"@,
            Field::Skiing => "Skiing"@,
            Field::Sports => "Sports"@,
            Field::Statistics => "Statistics"@,
            Field::StockMarket => "StockMarket"@,
            Field::Sumo => "Sumo"@,
            Field::Surgery => "Surgery"@,
            Field::Telecommunications => "Telecommunications"@,
            Field::Trademark => "Trademark"@,
            Field::Tv => "Tv"@,
            Field::VideoGames => "VideoGames"@,
            Field::Zoology => "Zoology"@,
        }
    }

    /// The name of the variant.
    pub fn variant(&self) -> (r: &'static str)
        ensures
            r@ == self.spec_variant(),
    {
        match self {
            Field::Agriculture => "Agriculture",
            Field::Anatomy => "Anatomy",
            Field::Archeology => "Archeology",
            Field::Architecture => "Architecture",
            Field::Art => "Art",
            Field::Astronomy => "Astronomy",
            Field::AudioVisual => "AudioVisual",
            Field::Aviatation => "Aviatation",
            Field::Baseball => "Baseball",
            Field::Biochemistry => "Biochemistry",
            Field::Biology => "Biology",
            Field::Botany => "Botany",
            Field::Boxing => "Boxing",
            Field::Buddh => "Buddh",
            Field::Business => "Business",
            Field::Cards => "Cards",
            Field::Chemistry => "Chemistry",
            Field::Christianity => "Christianity",
            Field::CivilEngineering => "CivilEngineering",
            Field::ChineseMythology => "ChineseMythology",
            Field::Clothing => "Clothing",
            Field::Computing => "Computing",
            Field::Crystallography => "Crystallography",
            Field::Dentistry => "Dentistry",
            Field::Ecology => "Ecology",
            Field::Economy => "Economy",
            Field::Electricity => "Electricity",
            Field::Electronics => "Electronics",
            Field::Embryology => "Embryology",
            Field::Engineering => "Engineering",
            Field::Entomology => "Entomology",
            Field::Film => "Film",
            Field::Finc => "Finc",
            Field::Fish => "Fish",
            Field::Food => "Food",
            Field::Gardening => "Gardening",
            Field::Genetics => "Genetics",
            Field::Geography => "Geography",
            Field::Geology => "Geology",
            Field::Geometry => "Geometry",
            Field::Go => "Go",
            Field::Golf => "Golf",
            Field::Grammar => "Grammar",
            Field::GreekMythology => "GreekMythology",
            Field::Hanafuda => "Hanafuda",
            Field::Horse => "Horse",
            Field::Internet => "Internet",
            Field::JapaneseMythology => "JapaneseMythology",
            Field::Kabuki => "Kabuki",
            Field::Law => "Law",
            Field::Ling => "Ling",
            Field::Logic => "Logic",
            Field::MartialArts => "MartialArts",
            Field::Mahjong => "Mahjong",
            Field::Manga => "Manga",
            Field::Mathematics => "Mathematics",
            Field::MechanicalEnginering => "MechanicalEnginering",
            Field::Medicine => "Medicine",
            Field::Meteorology => "Meteorology",
            Field::Military => "Military",
            Field::Mining => "Mining",
            Field::Motorsport => "Motorsport",
            Field::Music => "Music",
            Field::Noh => "Noh",
            Field::Ornithology => "Ornithology",
            Field::Paleontology => "Paleontology",
            Field::Pathology => "Pathology",
            Field::Pharmacology => "Pharmacology",
            Field::Philosophy => "Philosophy",
            Field::Photo => "Photo",
            Field::Physics => "Physics",
            Field::Physiol => "Physiol",
            Field::Politics => "Politics",
            Field::Print => "Print",
            Field::ProwRes => "ProwRes",
            Field::Psychatry => "Psychatry",
            Field::Psyanal => "Psyanal",
            Field::Psychology => "Psychology",
            Field::Railway => "Railway",
            Field::RomanMythology => "RomanMythology",
            Field::Shinto => "Shinto",
            Field::Shogi => "Shogi",
            Field::Skiing => "Skiing",
            Field::Sports => "Sports",
            Field::Statistics => "Statistics",
            Field::StockMarket => "StockMarket",
            Field::Sumo => "Sumo",
            Field::Surgery => "Surgery",
            Field::Telecommunications => "Telecommunications",
            Field::Trademark => "Trademark",
            Field::Tv => "Tv",
            Field::VideoGames => "VideoGames",
            Field::Zoology => "Zoology",
        }
    }

    /// The entity name, as used in the dictionary sources.
    pub fn ident(&self) -> (r: &'static str)
        ensures
            r@ == self.spec_ident(),
    {
        match self {
            Field::Agriculture => "agric",
            Field::Anatomy => "anat",
            Field::Archeology => "archeol",
            Field::Architecture => "archit",
            Field::Art => "art",
            Field::Astronomy => "astron",
            Field::AudioVisual => "audvid",
            Field::Aviatation => "aviat",
            Field::Baseball => "baseb",
            Field::Biochemistry => "biochem",
            Field::Biology => "biol",
            Field::Botany => "bot",
            Field::Boxing => "boxing",
            Field::Buddh => "Buddh",
            Field::Business => "bus",
            Field::Cards => "cards",
            Field::Chemistry => "chem",
            Field::Christianity => "Christn",
            Field::CivilEngineering => "civeng",
            Field::ChineseMythology => "chmyth",
            Field::Clothing => "cloth",
            Field::Computing => "comp",
            Field::Crystallography => "cryst",
            Field::Dentistry => "dent",
            Field::Ecology => "ecol",
            Field::Economy => "econ",
            Field::Electricity => "elec",
            Field::Electronics => "electr",
            Field::Embryology => "embryo",
            Field::Engineering => "engr",
            Field::Entomology => "ent",
            Field::Film => "film",
            Field::Finc => "finc",
            Field::Fish => "fish",
            Field::Food => "food",
            Field::Gardening => "gardn",
            Field::Genetics => "genet",
            Field::Geography => "geogr",
            Field::Geology => "geol",
            Field::Geometry => "geom",
            Field::Go => "go",
            Field::Golf => "golf",
            Field::Grammar => "gramm",
            Field::GreekMythology => "grmyth",
            Field::Hanafuda => "hanaf",
            Field::Horse => "horse",
            Field::Internet => "internet",
            Field::JapaneseMythology => "jpmyth",
            Field::Kabuki => "kabuki",
            Field::Law => "law",
            Field::Ling => "ling",
            Field::Logic => "logic",
            Field::MartialArts => "MA",
            Field::Mahjong => "mahj",
            Field::Manga => "manga",
            Field::Mathematics => "math",
            Field::MechanicalEnginering => "mech",
            Field::Medicine => "med",
            Field::Meteorology => "met",
            Field::Military => "mil",
            Field::Mining => "mining",
            Field::Motorsport => "motor",
            Field::Music => "music",
            Field::Noh => "noh",
            Field::Ornithology => "ornith",
            Field::Paleontology => "paleo",
            Field::Pathology => "pathol",
            Field::Pharmacology => "pharm",
            Field::Philosophy => "phil",
            Field::Photo => "photo",
            Field::Physics => "physics",
            Field::Physiol => "physiol",
            Field::Politics => "politics",
            Field::Print => "print",
            Field::ProwRes => "prowres",
            Field::Psychatry => "psy",
            Field::Psyanal => "psyanal",
            Field::Psychology => "psych",
            Field::Railway => "rail",
            Field::RomanMythology => "rommyth",
            Field::Shinto => "Shinto",
            Field::Shogi => "shogi",
            Field::Skiing => "ski",
            Field::Sports => "sports",
            Field::Statistics => "stat",
            Field::StockMarket => "stockm",
            Field::Sumo => "sumo",
            Field::Surgery => "surg",
            Field::Telecommunications => "telec",
            Field::Trademark => "tradem",
            Field::Tv => "tv",
            Field::VideoGames => "vidg",
            Field::Zoology => "zool",
        }
    }

    /// A description of the entity.
    pub open spec fn spec_help(self) -> Seq<char> {
        match self {
            Field::Agriculture => "agriculture"@,
            Field::Anatomy => "anatomy"@,
            Field::Archeology => "archeology"@,
            Field::Architecture => "architecture"@,
            Field::Art => "art, aesthetics"@,
            Field::Astronomy => "astronomy"@,
            Field::AudioVisual => "audiovisual"@,
            Field::Aviatation => "aviation"@,
            Field::Baseball => "baseball"@,
            Field::Biochemistry => "biochemistry"@,
            Field::Biology => "biology"@,
            Field::Botany => "botany"@,
            Field::Boxing => "boxing"@,
            Field::Buddh => "Buddhism"@,
            Field::Business => "business"@,
            Field::Cards => "card games"@,
            Field::Chemistry => "chemistry"@,
            Field::Christianity => "Christianity"@,
            Field::CivilEngineering => "civil engineering"@,
            Field::ChineseMythology => "Chinese mythology"@,
            Field::Clothing => "clothing"@,
            Field::Computing => "computing"@,
            Field::Crystallography => "crystallography"@,
            Field::Dentistry => "dentistry"@,
            Field::Ecology => "ecology"@,
            Field::Economy => "economics"@,
            Field::Electricity => "electricity, elec. eng."@,
            Field::Electronics => "electronics"@,
            Field::Embryology => "embryology"@,
            Field::Engineering => "engineering"@,
            Field::Entomology => "entomology"@,
            Field::Film => "film"@,
            Field::Finc => "finance"@,
            Field::Fish => "fishing"@,
            Field::Food => "food, cooking"@,
            Field::Gardening => "gardening, horticulture"@,
            Field::Genetics => "genetics"@,
            Field::Geography => "geography"@,
            Field::Geology => "geology"@,
            Field::Geometry => "geometry"@,
            Field::Go => "go (game)"@,
            Field::Golf => "golf"@,
            Field::Grammar => "grammar"@,
            Field::GreekMythology => "Greek mythology"@,
            Field::Hanafuda => "hanafuda"@,
            Field::Horse => "horse racing"@,
            Field::Internet => "internet"@,
            Field::JapaneseMythology => "Japanese mythology"@,
            Field::Kabuki => "kabuki"@,
            Field::Law => "law"@,
            Field::Ling => "linguistics"@,
            Field::Logic => "logic"@,
            Field::MartialArts => "martial arts"@,
            Field::Mahjong => "mahjong"@,
            Field::Manga => "manga"@,
            Field::Mathematics => "mathematics"@,
            Field::MechanicalEnginering => "mechanical engineering"@,
            Field::Medicine => "medicine"@,
            Field::Meteorology => "meteorology"@,
            Field::Military => "military"@,
            Field::Mining => "mining"@,
            Field::Motorsport => "motorsport"@,
            Field::Music => "music"@,
            Field::Noh => "noh"@,
            Field::Ornithology => "ornithology"@,
            Field::Paleontology => "paleontology"@,
            Field::Pathology => "pathology"@,
            Field::Pharmacology => "pharmacology"@,
            Field::Philosophy => "philosophy"@,
            Field::Photo => "photography"@,
            Field::Physics => "physics"@,
            Field::Physiol => "physiology"@,
            Field::Politics => "politics"@,
            Field::Print => "printing"@,
            Field::ProwRes => "professional wrestling"@,
            Field::Psychatry => "psychiatry"@,
            Field::Psyanal => "psychoanalysis"@,
            Field::Psychology => "psychology"@,
            Field::Railway => "railway"@,
            Field::RomanMythology => "Roman mythology"@,
            Field::Shinto => "Shinto"@,
            Field::Shogi => "shogi"@,
            Field::Skiing => "skiing"@,
            Field::Sports => "sports"@,
            Field::Statistics => "statistics"@,
            Field::StockMarket => "stock market"@,
            Field::Sumo => "sumo"@,
            Field::Surgery => "surgery"@,
            Field::Telecommunications => "telecommunications"@,
            Field::Trademark => "trademark"@,
            Field::Tv => "television"@,
            Field::VideoGames => "video games"@,
            Field::Zoology => "zoology"@,
        }
    }

    /// A description of the entity.
    pub fn help(&self) -> (r: &'static str)
        ensures
            r@ == self.spec_help(),
    {
        match self {
            Field::Agriculture => "agriculture",
            Field::Anatomy => "anatomy",
            Field::Archeology => "archeology",
            Field::Architecture => "architecture",
            Field::Art => "art, aesthetics",
            Field::Astronomy => "astronomy",
            Field::AudioVisual => "audiovisual",
            Field::Aviatation => "aviation",
            Field::Baseball => "baseball",
            Field::Biochemistry => "biochemistry",
            Field::Biology => "biology",
            Field::Botany => "botany",
            Field::Boxing => "boxing",
            Field::Buddh => "Buddhism",
            Field::Business => "business",
            Field::Cards => "card games",
            Field::Chemistry => "chemistry",
            Field::Christianity => "Christianity",
            Field::CivilEngineering => "civil engineering",
            Field::ChineseMythology => "Chinese mythology",
            Field::Clothing => "clothing",
            Field::Computing => "computing",
            Field::Crystallography => "crystallography",
            Field::Dentistry => "dentistry",
            Field::Ecology => "ecology",
            Field::Economy => "economics",
            Field::Electricity => "electricity, elec. eng.",
            Field::Electronics => "electronics",
            Field::Embryology => "embryology",
            Field::Engineering => "engineering",
            Field::Entomology => "entomology",
            Field::Film => "film",
            Field::Finc => "finance",
            Field::Fish => "fishing",
            Field::Food => "food, cooking",
            Field::Gardening => "gardening, horticulture",
            Field::Genetics => "genetics",
            Field::Geography => "geography",
            Field::Geology => "geology",
            Field::Geometry => "geometry",
            Field::Go => "go (game)",
            Field::Golf => "golf",
            Field::Grammar => "grammar",
            Field::GreekMythology => "Greek mythology",
            Field::Hanafuda => "hanafuda",
            Field::Horse => "horse racing",
            Field::Internet => "internet",
            Field::JapaneseMythology => "Japanese mythology",
            Field::Kabuki => "kabuki",
            Field::Law => "law",
            Field::Ling => "linguistics",
            Field::Logic => "logic",
            Field::MartialArts => "martial arts",
            Field::Mahjong => "mahjong",
            Field::Manga => "manga",
            Field::Mathematics => "mathematics",
            Field::MechanicalEnginering => "mechanical engineering",
            Field::Medicine => "medicine",
            Field::Meteorology => "meteorology",
            Field::Military => "military",
            Field::Mining => "mining",
            Field::Motorsport => "motorsport",
            Field::Music => "music",
            Field::Noh => "noh",
            Field::Ornithology => "ornithology",
            Field::Paleontology => "paleontology",
            Field::Pathology => "pathology",
            Field::Pharmacology => "pharmacology",
            Field::Philosophy => "philosophy",
            Field::Photo => "photography",
            Field::Physics => "physics",
            Field::Physiol => "physiology",
            Field::Politics => "politics",
            Field::Print => "printing",
            Field::ProwRes => "professional wrestling",
            Field::Psychatry => "psychiatry",
            Field::Psyanal => "psychoanalysis",
            Field::Psychology => "psychology",
            Field::Railway => "railway",
            Field::RomanMythology => "Roman mythology",
            Field::Shinto => "Shinto",
            Field::Shogi => "shogi",
            Field::Skiing => "skiing",
            Field::Sports => "sports",
            Field::Statistics => "statistics",
            Field::StockMarket => "stock market",
            Field::Sumo => "sumo",
            Field::Surgery => "surgery",
            Field::Telecommunications => "telecommunications",
            Field::Trademark => "trademark",
            Field::Tv => "television",
            Field::VideoGames => "video games",
            Field::Zoology => "zoology",
        }
    }

    /// Parse an entity name.
    pub fn parse_keyword(string: &str) -> (r: Option<Field>)
        ensures
            r == Self::spec_parse_keyword(string@),
    {
        if str_eq(string, "agric") {
            return Some(Field::Agriculture);
        }
        if str_eq(string, "anat") {
            return Some(Field::Anatomy);
        }
        if str_eq(string, "archeol") {
            return Some(Field::Archeology);
        }
        if str_eq(string, "archit") {
            return Some(Field::Architecture);
        }
        if str_eq(string, "art") {
            return Some(Field::Art);
        }
        if str_eq(string, "astron") {
            return Some(Field::Astronomy);
        }
        if str_eq(string, "audvid") {
            return Some(Field::AudioVisual);
        }
        if str_eq(string, "aviat") {
            return Some(Field::Aviatation);
        }
        if str_eq(string, "baseb") {
            return Some(Field::Baseball);
        }
        if str_eq(string, "biochem") {
            return Some(Field::Biochemistry);
        }
        if str_eq(string, "biol") {
            return Some(Field::Biology);
        }
        if str_eq(string, "bot") {
            return Some(Field::Botany);
        }
        if str_eq(string, "boxing") {
            return Some(Field::Boxing);
        }
        if str_eq(string, "Buddh") {
            return Some(Field::Buddh);
        }
        if str_eq(string, "bus") {
            return Some(Field::Business);
        }
        if str_eq(string, "cards") {
            return Some(Field::Cards);
        }
        if str_eq(string, "chem") {
            return Some(Field::Chemistry);
        }
        if str_eq(string, "Christn") {
            return Some(Field::Christianity);
        }
        if str_eq(string, "civeng") {
            return Some(Field::CivilEngineering);
        }
        if str_eq(string, "chmyth") {
            return Some(Field::ChineseMythology);
        }
        if str_eq(string, "cloth") {
            return Some(Field::Clothing);
        }
        if str_eq(string, "comp") {
            return Some(Field::Computing);
        }
        if str_eq(string, "cryst") {
            return Some(Field::Crystallography);
        }
        if str_eq(string, "dent") {
            return Some(Field::Dentistry);
        }
        if str_eq(string, "ecol") {
            return Some(Field::Ecology);
        }
        if str_eq(string, "econ") {
            return Some(Field::Economy);
        }
        if str_eq(string, "elec") {
            return Some(Field::Electricity);
        }
        if str_eq(string, "electr") {
            return Some(Field::Electronics);
        }
        if str_eq(string, "embryo") {
            return Some(Field::Embryology);
        }
        if str_eq(string, "engr") {
            return Some(Field::Engineering);
        }
        if str_eq(string, "ent") {
            return Some(Field::Entomology);
        }
        if str_eq(string, "film") {
            return Some(Field::Film);
        }
        if str_eq(string, "finc") {
            return Some(Field::Finc);
        }
        if str_eq(string, "fish") {
            return Some(Field::Fish);
        }
        if str_eq(string, "food") {
            return Some(Field::Food);
        }
        if str_eq(string, "gardn") {
            return Some(Field::Gardening);
        }
        if str_eq(string, "genet") {
            return Some(Field::Genetics);
        }
        if str_eq(string, "geogr") {
            return Some(Field::Geography);
        }
        if str_eq(string, "geol") {
            return Some(Field::Geology);
        }
        if str_eq(string, "geom") {
            return Some(Field::Geometry);
        }
        if str_eq(string, "go") {
            return Some(Field::Go);
        }
        if str_eq(string, "golf") {
            return Some(Field::Golf);
        }
        if str_eq(string, "gramm") {
            return Some(Field::Grammar);
        }
        if str_eq(string, "grmyth") {
            return Some(Field::GreekMythology);
        }
        if str_eq(string, "hanaf") {
            return Some(Field::Hanafuda);
        }
        if str_eq(string, "horse") {
            return Some(Field::Horse);
        }
        if str_eq(string, "internet") {
            return Some(Field::Internet);
        }
        if str_eq(string, "jpmyth") {
            return Some(Field::JapaneseMythology);
        }
        if str_eq(string, "kabuki") {
            return Some(Field::Kabuki);
        }
        if str_eq(string, "law") {
            return Some(Field::Law);
        }
        if str_eq(string, "ling") {
            return Some(Field::Ling);
        }
        if str_eq(string, "logic") {
            return Some(Field::Logic);
        }
        if str_eq(string, "MA") {
            return Some(Field::MartialArts);
        }
        if str_eq(string, "mahj") {
            return Some(Field::Mahjong);
        }
        if str_eq(string, "manga") {
            return Some(Field::Manga);
        }
        if str_eq(string, "math") {
            return Some(Field::Mathematics);
        }
        if str_eq(string, "mech") {
            return Some(Field::MechanicalEnginering);
        }
        if str_eq(string, "med") {
            return Some(Field::Medicine);
        }
        if str_eq(string, "met") {
            return Some(Field::Meteorology);
        }
        if str_eq(string, "mil") {
            return Some(Field::Military);
        }
        if str_eq(string, "mining") {
            return Some(Field::Mining);
        }
        if str_eq(string, "motor") {
            return Some(Field::Motorsport);
        }
        if str_eq(string, "music") {
            return Some(Field::Music);
        }
        if str_eq(string, "noh") {
            return Some(Field::Noh);
        }
        if str_eq(string, "ornith") {
            return Some(Field::Ornithology);
        }
        if str_eq(string, "paleo") {
            return Some(Field::Paleontology);
        }
        if str_eq(string, "pathol") {
            return Some(Field::Pathology);
        }
        if str_eq(string, "pharm") {
            return Some(Field::Pharmacology);
        }
        if str_eq(string, "phil") {
            return Some(Field::Philosophy);
        }
        if str_eq(string, "photo") {
            return Some(Field::Photo);
        }
        if str_eq(string, "physics") {
            return Some(Field::Physics);
        }
        if str_eq(string, "physiol") {
            return Some(Field::Physiol);
        }
        if str_eq(string, "politics") {
            return Some(Field::Politics);
        }
        if str_eq(string, "print") {
            return Some(Field::Print);
        }
        if str_eq(string, "prowres") {
            return Some(Field::ProwRes);
        }
        if str_eq(string, "psy") {
            return Some(Field::Psychatry);
        }
        if str_eq(string, "psyanal") {
            return Some(Field::Psyanal);
        }
        if str_eq(string, "psych") {
            return Some(Field::Psychology);
        }
        if str_eq(string, "rail") {
            return Some(Field::Railway);
        }
        if str_eq(string, "rommyth") {
            return Some(Field::RomanMythology);
        }
        if str_eq(string, "Shinto") {
            return Some(Field::Shinto);
        }
        if str_eq(string, "shogi") {
            return Some(Field::Shogi);
        }
        if str_eq(string, "ski") {
            return Some(Field::Skiing);
        }
        if str_eq(string, "sports") {
            return Some(Field::Sports);
        }
        if str_eq(string, "stat") {
            return Some(Field::Statistics);
        }
        if str_eq(string, "stockm") {
            return Some(Field::StockMarket);
        }
        if str_eq(string, "sumo") {
            return Some(Field::Sumo);
        }
        if str_eq(string, "surg") {
            return Some(Field::Surgery);
        }
        if str_eq(string, "telec") {
            return Some(Field::Telecommunications);
        }
        if str_eq(string, "tradem") {
            return Some(Field::Trademark);
        }
        if str_eq(string, "tv") {
            return Some(Field::Tv);
        }
        if str_eq(string, "vidg") {
            return Some(Field::VideoGames);
        }
        if str_eq(string, "zool") {
            return Some(Field::Zoology);
        }
        None
    }

    /// Parse an entity reference, such as `&abbr;`.
    pub fn parse(string: &str) -> (r: Option<Field>)
        ensures
            r == Self::spec_parse(string@),
    {
        if str_eq(string, "&agric;") {
            return Some(Field::Agriculture);
        }
        if str_eq(string, "&anat;") {
            return Some(Field::Anatomy);
        }
        if str_eq(string, "&archeol;") {
            return Some(Field::Archeology);
        }
        if str_eq(string, "&archit;") {
            return Some(Field::Architecture);
        }
        if str_eq(string, "&art;") {
            return Some(Field::Art);
        }
        if str_eq(string, "&astron;") {
            return Some(Field::Astronomy);
        }
        if str_eq(string, "&audvid;") {
            return Some(Field::AudioVisual);
        }
        if str_eq(string, "&aviat;") {
            return Some(Field::Aviatation);
        }
        if str_eq(string, "&baseb;") {
            return Some(Field::Baseball);
        }
        if str_eq(string, "&biochem;") {
            return Some(Field::Biochemistry);
        }
        if str_eq(string, "&biol;") {
            return Some(Field::Biology);
        }
        if str_eq(string, "&bot;") {
            return Some(Field::Botany);
        }
        if str_eq(string, "&boxing;") {
            return Some(Field::Boxing);
        }
        if str_eq(string, "&Buddh;") {
            return Some(Field::Buddh);
        }
        if str_eq(string, "&bus;") {
            return Some(Field::Business);
        }
        if str_eq(string, "&cards;") {
            return Some(Field::Cards);
        }
        if str_eq(string, "&chem;") {
            return Some(Field::Chemistry);
        }
        if str_eq(string, "&Christn;") {
            return Some(Field::Christianity);
        }
        if str_eq(string, "&civeng;") {
            return Some(Field::CivilEngineering);
        }
        if str_eq(string, "&chmyth;") {
            return Some(Field::ChineseMythology);
        }
        if str_eq(string, "&cloth;") {
            return Some(Field::Clothing);
        }
        if str_eq(string, "&comp;") {
            return Some(Field::Computing);
        }
        if str_eq(string, "&cryst;") {
            return Some(Field::Crystallography);
        }
        if str_eq(string, "&dent;") {
            return Some(Field::Dentistry);
        }
        if str_eq(string, "&ecol;") {
            return Some(Field::Ecology);
        }
        if str_eq(string, "&econ;") {
            return Some(Field::Economy);
        }
        if str_eq(string, "&elec;") {
            return Some(Field::Electricity);
        }
        if str_eq(string, "&electr;") {
            return Some(Field::Electronics);
        }
        if str_eq(string, "&embryo;") {
            return Some(Field::Embryology);
        }
        if str_eq(string, "&engr;") {
            return Some(Field::Engineering);
        }
        if str_eq(string, "&ent;") {
            return Some(Field::Entomology);
        }
        if str_eq(string, "&film;") {
            return Some(Field::Film);
        }
        if str_eq(string, "&finc;") {
            return Some(Field::Finc);
        }
        if str_eq(string, "&fish;") {
            return Some(Field::Fish);
        }
        if str_eq(string, "&food;") {
            return Some(Field::Food);
        }
        if str_eq(string, "&gardn;") {
            return Some(Field::Gardening);
        }
        if str_eq(string, "&genet;") {
            return Some(Field::Genetics);
        }
        if str_eq(string, "&geogr;") {
            return Some(Field::Geography);
        }
        if str_eq(string, "&geol;") {
            return Some(Field::Geology);
        }
        if str_eq(string, "&geom;") {
            return Some(Field::Geometry);
        }
        if str_eq(string, "&go;") {
            return Some(Field::Go);
        }
        if str_eq(string, "&golf;") {
            return Some(Field::Golf);
        }
        if str_eq(string, "&gramm;") {
            return Some(Field::Grammar);
        }
        if str_eq(string, "&grmyth;") {
            return Some(Field::GreekMythology);
        }
        if str_eq(string, "&hanaf;") {
            return Some(Field::Hanafuda);
        }
        if str_eq(string, "&horse;") {
            return Some(Field::Horse);
        }
        if str_eq(string, "&internet;") {
            return Some(Field::Internet);
        }
        if str_eq(string, "&jpmyth;") {
            return Some(Field::JapaneseMythology);
        }
        if str_eq(string, "&kabuki;") {
            return Some(Field::Kabuki);
        }
        if str_eq(string, "&law;") {
            return Some(Field::Law);
        }
        if str_eq(string, "&ling;") {
            return Some(Field::Ling);
        }
        if str_eq(string, "&logic;") {
            return Some(Field::Logic);
        }
        if str_eq(string, "&MA;") {
            return Some(Field::MartialArts);
        }
        if str_eq(string, "&mahj;") {
            return Some(Field::Mahjong);
        }
        if str_eq(string, "&manga;") {
            return Some(Field::Manga);
        }
        if str_eq(string, "&math;") {
            return Some(Field::Mathematics);
        }
        if str_eq(string, "&mech;") {
            return Some(Field::MechanicalEnginering);
        }
        if str_eq(string, "&med;") {
            return Some(Field::Medicine);
        }
        if str_eq(string, "&met;") {
            return Some(Field::Meteorology);
        }
        if str_eq(string, "&mil;") {
            return Some(Field::Military);
        }
        if str_eq(string, "&mining;") {
            return Some(Field::Mining);
        }
        if str_eq(string, "&motor;") {
            return Some(Field::Motorsport);
        }
        if str_eq(string, "&music;") {
            return Some(Field::Music);
        }
        if str_eq(string, "&noh;") {
            return Some(Field::Noh);
        }
        if str_eq(string, "&ornith;") {
            return Some(Field::Ornithology);
        }
        if str_eq(string, "&paleo;") {
            return Some(Field::Paleontology);
        }
        if str_eq(string, "&pathol;") {
            return Some(Field::Pathology);
        }
        if str_eq(string, "&pharm;") {
            return Some(Field::Pharmacology);
        }
        if str_eq(string, "&phil;") {
            return Some(Field::Philosophy);
        }
        if str_eq(string, "&photo;") {
            return Some(Field::Photo);
        }
        if str_eq(string, "&physics;") {
            return Some(Field::Physics);
        }
        if str_eq(string, "&physiol;") {
            return Some(Field::Physiol);
        }
        if str_eq(string, "&politics;") {
            return Some(Field::Politics);
        }
        if str_eq(string, "&print;") {
            return Some(Field::Print);
        }
        if str_eq(string, "&prowres;") {
            return Some(Field::ProwRes);
        }
        if str_eq(string, "&psy;") {
            return Some(Field::Psychatry);
        }
        if str_eq(string, "&psyanal;") {
            return Some(Field::Psyanal);
        }
        if str_eq(string, "&psych;") {
            return Some(Field::Psychology);
        }
        if str_eq(string, "&rail;") {
            return Some(Field::Railway);
        }
        if str_eq(string, "&rommyth;") {
            return Some(Field::RomanMythology);
        }
        if str_eq(string, "&Shinto;") {
            return Some(Field::Shinto);
        }
        if str_eq(string, "&shogi;") {
            return Some(Field::Shogi);
        }
        if str_eq(string, "&ski;") {
            return Some(Field::Skiing);
        }
        if str_eq(string, "&sports;") {
            return Some(Field::Sports);
        }
        if str_eq(string, "&stat;") {
            return Some(Field::Statistics);
        }
        if str_eq(string, "&stockm;") {
            return Some(Field::StockMarket);
        }
        if str_eq(string, "&sumo;") {
            return Some(Field::Sumo);
        }
        if str_eq(string, "&surg;") {
            return Some(Field::Surgery);
        }
        if str_eq(string, "&telec;") {
            return Some(Field::Telecommunications);
        }
        if str_eq(string, "&tradem;") {
            return Some(Field::Trademark);
        }
        if str_eq(string, "&tv;") {
            return Some(Field::Tv);
        }
        if str_eq(string, "&vidg;") {
            return Some(Field::VideoGames);
        }
        if str_eq(string, "&zool;") {
            return Some(Field::Zoology);
        }
        None
    }

}

#[derive(Debug, Clone, Copy, PartialEq, Eq, Structural, Hash)]
pub enum Entity {
    Miscellaneous(Miscellaneous),
    PartOfSpeech(PartOfSpeech),
    KanjiInfo(KanjiInfo),
    ReadingInfo(ReadingInfo),
    Dialect(Dialect),
    Field(Field),
}

impl Entity {
    /// The entity for the given search keyword, trying each kind of entity in turn.
    pub open spec fn spec_parse_keyword(s: Seq<char>) -> Option<Entity> {
        if Miscellaneous::spec_parse_keyword(s) is Some {
            Some(Entity::Miscellaneous(Miscellaneous::spec_parse_keyword(s)->0))
        } else if PartOfSpeech::spec_parse_keyword(s) is Some {
            Some(Entity::PartOfSpeech(PartOfSpeech::spec_parse_keyword(s)->0))
        } else if KanjiInfo::spec_parse_keyword(s) is Some {
            Some(Entity::KanjiInfo(KanjiInfo::spec_parse_keyword(s)->0))
        } else if ReadingInfo::spec_search_keyword(s) is Some {
            Some(Entity::ReadingInfo(ReadingInfo::spec_search_keyword(s)->0))
        } else if Dialect::spec_parse_keyword(s) is Some {
            Some(Entity::Dialect(Dialect::spec_parse_keyword(s)->0))
        } else if Field::spec_parse_keyword(s) is Some {
            Some(Entity::Field(Field::spec_parse_keyword(s)->0))
        } else {
            None
        }
    }

    /// Parse a search keyword into an entity.
    pub fn parse_keyword(string: &str) -> (r: Option<Entity>)
        ensures
            r == Self::spec_parse_keyword(string@),
    {
        if let Some(e) = Miscellaneous::parse_keyword(string) {
            return Some(Entity::Miscellaneous(e));
        }
        if let Some(e) = PartOfSpeech::parse_keyword(string) {
            return Some(Entity::PartOfSpeech(e));
        }
        if let Some(e) = KanjiInfo::parse_keyword(string) {
            return Some(Entity::KanjiInfo(e));
        }
        if let Some(e) = ReadingInfo::search_keyword(string) {
            return Some(Entity::ReadingInfo(e));
        }
        if let Some(e) = Dialect::parse_keyword(string) {
            return Some(Entity::Dialect(e));
        }
        if let Some(e) = Field::parse_keyword(string) {
            return Some(Entity::Field(e));
        }
        None
    }
}

#[derive(Debug, Clone, Copy, PartialEq, Eq, Structural, Hash)]
pub enum NameType {
    /// character
    Character,
    /// company name
    Company,
    /// creature
    Creature,
    /// deity
    Deity,
    /// document
    Document,
    /// event
    Event,
    /// female given name or forename
    Feminine,
    /// fiction
    Fiction,
    /// given name or forename, gender not specified
    Given,
    /// group
    Group,
    /// legend
    Legend,
    /// male given name or forename
    Masculine,
    /// mythology
    Mythology,
    /// object
    Object,
    /// organization name
    Organization,
    /// other
    Other,
    /// full name of a particular person
    Person,
    /// place name
    Place,
    /// product name
    Product,
    /// religion
    Religion,
    /// service
    Service,
    /// ship name
    Ship,
    /// railway station
    Station,
    /// family or surname
    Surname,
    /// unclassified name
    Unclassified,
    /// work of art, literature, music, etc. name
    Work,
}

impl NameType {
    /// The entity name, as used in the dictionary sources.
    pub open spec fn spec_ident(self) -> Seq<char> {
        match self {
            NameType::Character => "char"@,
            NameType::Company => "company"@,
            NameType::Creature => "creat"@,
            NameType::Deity => "dei"@,
            NameType::Document => "doc"@,
            NameType::Event => "ev"@,
            NameType::Feminine => "fem"@,
            NameType::Fiction => "fict"@,
            NameType::Given => "given"@,
            NameType::Group => "group"@,
            NameType::Legend => "leg"@,
            NameType::Masculine => "masc"@,
            NameType::Mythology => "myth"@,
            NameType::Object => "obj"@,
            NameType::Organization => "organization"@,
            NameType::Other => "oth"@,
            NameType::Person => "person"@,
            NameType::Place => "place"@,
            NameType::Product => "product"@,
            NameType::Religion => "relig"@,
            NameType::Service => "serv"@,
            NameType::Ship => "ship"@,
            NameType::Station => "station"@,
            NameType::Surname => "surname"@,
            NameType::Unclassified => "unclass"@,
            NameType::Work => "work"@,
        }
    }

    /// The variant for the given entity name.
    pub open spec fn spec_parse_keyword(s: Seq<char>) -> Option<NameType> {
        if s == "char"@ {
            Some(NameType::Character)
        } else if s == "company"@ {
            Some(NameType::Company)
        } else if s == "creat"@ {
            Some(NameType::Creature)
        } else if s == "dei"@ {
            Some(NameType::Deity)
        } else if s == "doc"@ {
            Some(NameType::Document)
        } else if s == "ev"@ {
            Some(NameType::Event)
        } else if s == "fem"@ {
            Some(NameType::Feminine)
        } else if s == "fict"@ {
            Some(NameType::Fiction)
        } else if s == "given"@ {
            Some(NameType::Given)
        } else if s == "group"@ {
            Some(NameType::Group)
        } else if s == "leg"@ {
            Some(NameType::Legend)
        } else if s == "masc"@ {
            Some(NameType::Masculine)
        } else if s == "myth"@ {
            Some(NameType::Mythology)
        } else if s == "obj"@ {
            Some(NameType::Object)
        } else if s == "organization"@ {
            Some(NameType::Organization)
        } else if s == "oth"@ {
            Some(NameType::Other)
        } else if s == "person"@ {
            Some(NameType::Person)
        } else if s == "place"@ {
            Some(NameType::Place)
        } else if s == "product"@ {
            Some(NameType::Product)
        } else if s == "relig"@ {
            Some(NameType::Religion)
        } else if s == "serv"@ {
            Some(NameType::Service)
        } else if s == "ship"@ {
            Some(NameType::Ship)
        } else if s == "station"@ {
            Some(NameType::Station)
        } else if s == "surname"@ {
            Some(NameType::Surname)
        } else if s == "unclass"@ {
            Some(NameType::Unclassified)
        } else if s == "work"@ {
            Some(NameType::Work)
        } else {
            None
        }
    }

    /// The variant for the given entity reference, such as `&char;`.
    pub open spec fn spec_parse(s: Seq<char>) -> Option<NameType> {
        if s == "&char;"@ {
            Some(NameType::Character)
        } else if s == "&company;"@ {
            Some(NameType::Company)
        } else if s == "&creat;"@ {
            Some(NameType::Creature)
        } else if s == "&dei;"@ {
            Some(NameType::Deity)
        } else if s == "&doc;"@ {
            Some(NameType::Document)
        } else if s == "&ev;"@ {
            Some(NameType::Event)
        } else if s == "&fem;"@ {
            Some(NameType::Feminine)
        } else if s == "&fict;"@ {
            Some(NameType::Fiction)
        } else if s == "&given;"@ {
            Some(NameType::Given)
        } else if s == "&group;"@ {
            Some(NameType::Group)
        } else if s == "&leg;"@ {
            Some(NameType::Legend)
        } else if s == "&masc;"@ {
            Some(NameType::Masculine)
        } else if s == "&myth;"@ {
            Some(NameType::Mythology)
        } else if s == "&obj;"@ {
            Some(NameType::Object)
        } else if s == "&organization;"@ {
            Some(NameType::Organization)
        } else if s == "&oth;"@ {
            Some(NameType::Other)
        } else if s == "&person;"@ {
            Some(NameType::Person)
        } else if s == "&place;"@ {
            Some(NameType::Place)
        } else if s == "&product;"@ {
            Some(NameType::Product)
        } else if s == "&relig;"@ {
            Some(NameType::Religion)
        } else if s == "&serv;"@ {
            Some(NameType::Service)
        } else if s == "&ship;"@ {
            Some(NameType::Ship)
        } else if s == "&station;"@ {
            Some(NameType::Station)
        } else if s == "&surname;"@ {
            Some(NameType::Surname)
        } else if s == "&unclass;"@ {
            Some(NameType::Unclassified)
        } else if s == "&work;"@ {
            Some(NameType::Work)
        } else {
            None
        }
    }

    /// The name of the variant.
    pub open spec fn spec_variant(self) -> Seq<char> {
        match self {
            NameType::Character => "Character"@,
            NameType::Company => "Company"@,
            NameType::Creature => "Creature"@,
            NameType::Deity => "Deity"@,
            NameType::Document => "Document"@,
            NameType::Event => "Event"@,
            NameType::Feminine => "Feminine"@,
            NameType::Fiction => "Fiction"@,
            NameType::Given => "Given"@,
            NameType::Group => "Group"@,
            NameType::Legend => "Legend"@,
            NameType::Masculine => "Masculine"@,
            NameType::Mythology => "Mythology"@,
            NameType::Object => "Object"@,
            NameType::Organization => "Organization"@,
            NameType::Other => "Other"@,
            NameType::Person => "Person"@,
            NameType::Place => "Place"@,
            NameType::Product => "Product"@,
            NameType::Religion => "Religion"@,
            NameType::Service => "Service"@,
            NameType::Ship => "Ship"@,
            NameType::Station => "Station"@,
            NameType::Surname => "Surname"@,
            NameType::Unclassified => "Unclassified"@,
            NameType::Work => "Work"@,
        }
    }

    /// The name of the variant.
    pub fn variant(&self) -> (r: &'static str)
        ensures
            r@ == self.spec_variant(),
    {
        match self {
            NameType::Character => "Character",
            NameType::Company => "Company",
            NameType::Creature => "Creature",
            NameType::Deity => "Deity",
            NameType::Document => "Document",
            NameType::Event => "Event",
            NameType::Feminine => "Feminine",
            NameType::Fiction => "Fiction",
            NameType::Given => "Given",
            NameType::Group => "Group",
            NameType::Legend => "Legend",
            NameType::Masculine => "Masculine",
            NameType::Mythology => "Mythology",
            NameType::Object => "Object",
            NameType::Organization => "Organization",
            NameType::Other => "Other",
            NameType::Person => "Person",
            NameType::Place => "Place",
            NameType::Product => "Product",
            NameType::Religion => "Religion",
            NameType::Service => "Service",
            NameType::Ship => "Ship",
            NameType::Station => "Station",
            NameType::Surname => "Surname",
            NameType::Unclassified => "Unclassified",
            NameType::Work => "Work",
        }
    }

    /// The entity name, as used in the dictionary sources.
    pub fn ident(&self) -> (r: &'static str)
        ensures
            r@ == self.spec_ident(),
    {
        match self {
            NameType::Character => "char",
            NameType::Company => "company",
            NameType::Creature => "creat",
            NameType::Deity => "dei",
            NameType::Document => "doc",
            NameType::Event => "ev",
            NameType::Feminine => "fem",
            NameType::Fiction => "fict",
            NameType::Given => "given",
            NameType::Group => "group",
            NameType::Legend => "leg",
            NameType::Masculine => "masc",
            NameType::Mythology => "myth",
            NameType::Object => "obj",
            NameType::Organization => "organization",
            NameType::Other => "oth",
            NameType::Person => "person",
            NameType::Place => "place",
            NameType::Product => "product",
            NameType::Religion => "relig",
            NameType::Service => "serv",
            NameType::Ship => "ship",
            NameType::Station => "station",
            NameType::Surname => "surname",
            NameType::Unclassified => "unclass",
            NameType::Work => "work",
        }
    }

    /// A description of the entity.
    pub open spec fn spec_help(self) -> Seq<char> {
        match self {
            NameType::Character => "character"@,
            NameType::Company => "company name"@,
            NameType::Creature => "creature"@,
            NameType::Deity => "deity"@,
            NameType::Document => "document"@,
            NameType::Event => "event"@,
            NameType::Feminine => "female given name or forename"@,
            NameType::Fiction => "fiction"@,
            NameType::Given => "given name or forename, gender not specified"@,
            NameType::Group => "group"@,
            NameType::Legend => "legend"@,
            NameType::Masculine => "male given name or forename"@,
            NameType::Mythology => "mythology"@,
            NameType::Object => "object"@,
            NameType::Organization => "organization name"@,
            NameType::Other => "other"@,
            NameType::Person => "full name of a particular person"@,
            NameType::Place => "place name"@,
            NameType::Product => "product name"@,
            NameType::Religion => "religion"@,
            NameType::Service => "service"@,
            NameType::Ship => "ship name"@,
            NameType::Station => "railway station"@,
            NameType::Surname => "family or surname"@,
            NameType::Unclassified => "unclassified name"@,
            NameType::Work => "work of art, literature, music, etc. name"@,
        }
    }

    /// A description of the entity.
    pub fn help(&self) -> (r: &'static str)
        ensures
            r@ == self.spec_help(),
    {
        match self {
            NameType::Character => "character",
            NameType::Company => "company name",
            NameType::Creature => "creature",
            NameType::Deity => "deity",
            NameType::Document => "document",
            NameType::Event => "event",
            NameType::Feminine => "female given name or forename",
            NameType::Fiction => "fiction",
            NameType::Given => "given name or forename, gender not specified",
            NameType::Group => "group",
            NameType::Legend => "legend",
            NameType::Masculine => "male given name or forename",
            NameType::Mythology => "mythology",
            NameType::Object => "object",
            NameType::Organization => "organization name",
            NameType::Other => "other",
            NameType::Person => "full name of a particular person",
            NameType::Place => "place name",
            NameType::Product => "product name",
            NameType::Religion => "religion",
            NameType::Service => "service",
            NameType::Ship => "ship name",
            NameType::Station => "railway station",
            NameType::Surname => "family or surname",
            NameType::Unclassified => "unclassified name",
            NameType::Work => "work of art, literature, music, etc. name",
        }
    }

    /// Parse an entity name.
    pub fn parse_keyword(string: &str) -> (r: Option<NameType>)
        ensures
            r == Self::spec_parse_keyword(string@),
    {
        if str_eq(string, "char") {
            return Some(NameType::Character);
        }
        if str_eq(string, "company") {
            return Some(NameType::Company);
        }
        if str_eq(string, "creat") {
            return Some(NameType::Creature);
        }
        if str_eq(string, "dei") {
            return Some(NameType::Deity);
        }
        if str_eq(string, "doc") {
            return Some(NameType::Document);
        }
        if str_eq(string, "ev") {
            return Some(NameType::Event);
        }
        if str_eq(string, "fem") {
            return Some(NameType::Feminine);
        }
        if str_eq(string, "fict") {
            return Some(NameType::Fiction);
        }
        if str_eq(string, "given") {
            return Some(NameType::Given);
        }
        if str_eq(string, "group") {
            return Some(NameType::Group);
        }
        if str_eq(string, "leg") {
            return Some(NameType::Legend);
        }
        if str_eq(string, "masc") {
            return Some(NameType::Masculine);
        }
        if str_eq(string, "myth") {
            return Some(NameType::Mythology);
        }
        if str_eq(string, "obj") {
            return Some(NameType::Object);
        }
        if str_eq(string, "organization") {
            return Some(NameType::Organization);
        }
        if str_eq(string, "oth") {
            return Some(NameType::Other);
        }
        if str_eq(string, "person") {
            return Some(NameType::Person);
        }
        if str_eq(string, "place") {
            return Some(NameType::Place);
        }
        if str_eq(string, "product") {
            return Some(NameType::Product);
        }
        if str_eq(string, "relig") {
            return Some(NameType::Religion);
        }
        if str_eq(string, "serv") {
            return Some(NameType::Service);
        }
        if str_eq(string, "ship") {
            return Some(NameType::Ship);
        }
        if str_eq(string, "station") {
            return Some(NameType::Station);
        }
        if str_eq(string, "surname") {
            return Some(NameType::Surname);
        }
        if str_eq(string, "unclass") {
            return Some(NameType::Unclassified);
        }
        if str_eq(string, "work") {
            return Some(NameType::Work);
        }
        None
    }

    /// Parse an entity reference, such as `&abbr;`.
    pub fn parse(string: &str) -> (r: Option<NameType>)
        ensures
            r == Self::spec_parse(string@),
    {
        if str_eq(string, "&char;") {
            return Some(NameType::Character);
        }
        if str_eq(string, "&company;") {
            return Some(NameType::Company);
        }
        if str_eq(string, "&creat;") {
            return Some(NameType::Creature);
        }
        if str_eq(string, "&dei;") {
            return Some(NameType::Deity);
        }
        if str_eq(string, "&doc;") {
            return Some(NameType::Document);
        }
        if str_eq(string, "&ev;") {
            return Some(NameType::Event);
        }
        if str_eq(string, "&fem;") {
            return Some(NameType::Feminine);
        }
        if str_eq(string, "&fict;") {
            return Some(NameType::Fiction);
        }
        if str_eq(string, "&given;") {
            return Some(NameType::Given);
        }
        if str_eq(string, "&group;") {
            return Some(NameType::Group);
        }
        if str_eq(string, "&leg;") {
            return Some(NameType::Legend);
        }
        if str_eq(string, "&masc;") {
            return Some(NameType::Masculine);
        }
        if str_eq(string, "&myth;") {
            return Some(NameType::Mythology);
        }
        if str_eq(string, "&obj;") {
            return Some(NameType::Object);
        }
        if str_eq(string, "&organization;") {
            return Some(NameType::Organization);
        }
        if str_eq(string, "&oth;") {
            return Some(NameType::Other);
        }
        if str_eq(string, "&person;") {
            return Some(NameType::Person);
        }
        if str_eq(string, "&place;") {
            return Some(NameType::Place);
        }
        if str_eq(string, "&product;") {
            return Some(NameType::Product);
        }
        if str_eq(string, "&relig;") {
            return Some(NameType::Religion);
        }
        if str_eq(string, "&serv;") {
            return Some(NameType::Service);
        }
        if str_eq(string, "&ship;") {
            return Some(NameType::Ship);
        }
        if str_eq(string, "&station;") {
            return Some(NameType::Station);
        }
        if str_eq(string, "&surname;") {
            return Some(NameType::Surname);
        }
        if str_eq(string, "&unclass;") {
            return Some(NameType::Unclassified);
        }
        if str_eq(string, "&work;") {
            return Some(NameType::Work);
        }
        None
    }

}

#[derive(Debug, Clone, Copy, PartialEq, Eq, Structural, Hash)]
pub enum NameEntity {
    NameType(NameType),
}

impl NameEntity {
    /// The entity for the given search keyword, trying each kind of entity in turn.
    pub open spec fn spec_parse_keyword(s: Seq<char>) -> Option<NameEntity> {
        if NameType::spec_parse_keyword(s) is Some {
            Some(NameEntity::NameType(NameType::spec_parse_keyword(s)->0))
        } else {
            None
        }
    }

    /// Parse a search keyword into an entity.
    pub fn parse_keyword(string: &str) -> (r: Option<NameEntity>)
        ensures
            r == Self::spec_parse_keyword(string@),
    {
        if let Some(e) = NameType::parse_keyword(string) {
            return Some(NameEntity::NameType(e));
        }
        None
    }
}


/// The number of parts of speech.
pub const POS_COUNT: usize = 92;

/// The position of a part of speech in declaration order.
pub open spec fn pos_index(p: PartOfSpeech) -> int {
    match p {
        PartOfSpeech::AdjectiveF => 0,
        PartOfSpeech::AdjectiveI => 1,
        PartOfSpeech::AdjectiveIx => 2,
        PartOfSpeech::AdjectiveKari => 3,
        PartOfSpeech::AdjectiveKu => 4,
        PartOfSpeech::AdjectiveNa => 5,
        PartOfSpeech::AdjectiveNari => 6,
        PartOfSpeech::AdjectiveNo => 7,
        PartOfSpeech::AdjectivePn => 8,
        PartOfSpeech::AdjectiveShiku => 9,
        PartOfSpeech::AdjectiveT => 10,
        PartOfSpeech::Adverb => 11,
        PartOfSpeech::AdverbTo => 12,
        PartOfSpeech::Auxiliary => 13,
        PartOfSpeech::AuxiliaryAdjective => 14,
        PartOfSpeech::AuxiliaryVerb => 15,
        PartOfSpeech::Conjunction => 16,
        PartOfSpeech::Copular => 17,
        PartOfSpeech::Counter => 18,
        PartOfSpeech::Expression => 19,
        PartOfSpeech::Interjection => 20,
        PartOfSpeech::Noun => 21,
        PartOfSpeech::NounAdverbial => 22,
        PartOfSpeech::NounProper => 23,
        PartOfSpeech::NounPrefix => 24,
        PartOfSpeech::NounSuffix => 25,
        PartOfSpeech::NounTemporal => 26,
        PartOfSpeech::Numeric => 27,
        PartOfSpeech::Pronoun => 28,
        PartOfSpeech::Prefix => 29,
        PartOfSpeech::Particle => 30,
        PartOfSpeech::Suffix => 31,
        PartOfSpeech::Unclassified => 32,
        PartOfSpeech::VerbUnspecified => 33,
        PartOfSpeech::VerbIchidan => 34,
        PartOfSpeech::VerbIchidanS => 35,
        PartOfSpeech::VerbNidanAS => 36,
        PartOfSpeech::VerbNidanBK => 37,
        PartOfSpeech::VerbNidanBS => 38,
        PartOfSpeech::VerbNidanDK => 39,
        PartOfSpeech::VerbNidanDS => 40,
        PartOfSpeech::VerbNidanGK => 41,
        PartOfSpeech::VerbNidanGS => 42,
        PartOfSpeech::VerbNidanHK => 43,
        PartOfSpeech::VerbNidanHS => 44,
        PartOfSpeech::VerbNidanKK => 45,
        PartOfSpeech::VerbNidanKS => 46,
        PartOfSpeech::VerbNidanMK => 47,
        PartOfSpeech::VerbNidanMS => 48,
        PartOfSpeech::VerbNidanNS => 49,
        PartOfSpeech::VerbNidanRK => 50,
        PartOfSpeech::VerbNidanRS => 51,
        PartOfSpeech::VerbNidanSS => 52,
        PartOfSpeech::VerbNidanTK => 53,
        PartOfSpeech::VerbNidanTS => 54,
        PartOfSpeech::VerbNidanWS => 55,
        PartOfSpeech::VerbNidanYK => 56,
        PartOfSpeech::VerbNidanYS => 57,
        PartOfSpeech::VerbNidanZS => 58,
        PartOfSpeech::VerbYodanB => 59,
        PartOfSpeech::VerbYodanG => 60,
        PartOfSpeech::VerbYodanH => 61,
        PartOfSpeech::VerbYodanK => 62,
        PartOfSpeech::VerbYodanM => 63,
        PartOfSpeech::VerbYodanN => 64,
        PartOfSpeech::VerbYodanR => 65,
        PartOfSpeech::VerbYodanS => 66,
        PartOfSpeech::VerbYodanT => 67,
        PartOfSpeech::VerbGodanAru => 68,
        PartOfSpeech::VerbGodanB => 69,
        PartOfSpeech::VerbGodanG => 70,
        PartOfSpeech::VerbGodanK => 71,
        PartOfSpeech::VerbGodanKS => 72,
        PartOfSpeech::VerbGodanM => 73,
        PartOfSpeech::VerbGodanN => 74,
        PartOfSpeech::VerbGodanR => 75,
        PartOfSpeech::VerbGodanRI => 76,
        PartOfSpeech::VerbGodanS => 77,
        PartOfSpeech::VerbGodanT => 78,
        PartOfSpeech::VerbGodanU => 79,
        PartOfSpeech::VerbGodanUS => 80,
        PartOfSpeech::VerbGodanUru => 81,
        PartOfSpeech::VerbIntransitive => 82,
        PartOfSpeech::VerbKuru => 83,
        PartOfSpeech::VerbNu => 84,
        PartOfSpeech::VerbRu => 85,
        PartOfSpeech::VerbSuru => 86,
        PartOfSpeech::VerbSuC => 87,
        PartOfSpeech::VerbSuruIncluded => 88,
        PartOfSpeech::VerbSuruSpecial => 89,
        PartOfSpeech::VerbTransitive => 90,
        PartOfSpeech::VerbZuru => 91,
    }
}

/// The part of speech at a position in declaration order.
pub open spec fn pos_at(i: int) -> PartOfSpeech {
    
if i == 0 {
        PartOfSpeech::AdjectiveF
    } else if i == 1 {
        PartOfSpeech::AdjectiveI
    } else if i == 2 {
        PartOfSpeech::AdjectiveIx
    } else if i == 3 {
        PartOfSpeech::AdjectiveKari
    } else if i == 4 {
        PartOfSpeech::AdjectiveKu
    } else if i == 5 {
        PartOfSpeech::AdjectiveNa
    } else if i == 6 {
        PartOfSpeech::AdjectiveNari
    } else if i == 7 {
        PartOfSpeech::AdjectiveNo
    } else if i == 8 {
        PartOfSpeech::AdjectivePn
    } else if i == 9 {
        PartOfSpeech::AdjectiveShiku
    } else if i == 10 {
        PartOfSpeech::AdjectiveT
    } else if i == 11 {
        PartOfSpeech::Adverb
    } else if i == 12 {
        PartOfSpeech::AdverbTo
    } else if i == 13 {
        PartOfSpeech::Auxiliary
    } else if i == 14 {
        PartOfSpeech::AuxiliaryAdjective
    } else if i == 15 {
        PartOfSpeech::AuxiliaryVerb
    } else if i == 16 {
        PartOfSpeech::Conjunction
    } else if i == 17 {
        PartOfSpeech::Copular
    } else if i == 18 {
        PartOfSpeech::Counter
    } else if i == 19 {
        PartOfSpeech::Expression
    } else if i == 20 {
        PartOfSpeech::Interjection
    } else if i == 21 {
        PartOfSpeech::Noun
    } else if i == 22 {
        PartOfSpeech::NounAdverbial
    } else if i == 23 {
        PartOfSpeech::NounProper
    } else if i == 24 {
        PartOfSpeech::NounPrefix
    } else if i == 25 {
        PartOfSpeech::NounSuffix
    } else if i == 26 {
        PartOfSpeech::NounTemporal
    } else if i == 27 {
        PartOfSpeech::Numeric
    } else if i == 28 {
        PartOfSpeech::Pronoun
    } else if i == 29 {
        PartOfSpeech::Prefix
    } else if i == 30 {
        PartOfSpeech::Particle
    } else if i == 31 {
        PartOfSpeech::Suffix
    } else if i == 32 {
        PartOfSpeech::Unclassified
    } else if i == 33 {
        PartOfSpeech::VerbUnspecified
    } else if i == 34 {
        PartOfSpeech::VerbIchidan
    } else if i == 35 {
        PartOfSpeech::VerbIchidanS
    } else if i == 36 {
        PartOfSpeech::VerbNidanAS
    } else if i == 37 {
        PartOfSpeech::VerbNidanBK
    } else if i == 38 {
        PartOfSpeech::VerbNidanBS
    } else if i == 39 {
        PartOfSpeech::VerbNidanDK
    } else if i == 40 {
        PartOfSpeech::VerbNidanDS
    } else if i == 41 {
        PartOfSpeech::VerbNidanGK
    } else if i == 42 {
        PartOfSpeech::VerbNidanGS
    } else if i == 43 {
        PartOfSpeech::VerbNidanHK
    } else if i == 44 {
        PartOfSpeech::VerbNidanHS
    } else if i == 45 {
        PartOfSpeech::VerbNidanKK
    } else if i == 46 {
        PartOfSpeech::VerbNidanKS
    } else if i == 47 {
        PartOfSpeech::VerbNidanMK
    } else if i == 48 {
        PartOfSpeech::VerbNidanMS
    } else if i == 49 {
        PartOfSpeech::VerbNidanNS
    } else if i == 50 {
        PartOfSpeech::VerbNidanRK
    } else if i == 51 {
        PartOfSpeech::VerbNidanRS
    } else if i == 52 {
        PartOfSpeech::VerbNidanSS
    } else if i == 53 {
        PartOfSpeech::VerbNidanTK
    } else if i == 54 {
        PartOfSpeech::VerbNidanTS
    } else if i == 55 {
        PartOfSpeech::VerbNidanWS
    } else if i == 56 {
        PartOfSpeech::VerbNidanYK
    } else if i == 57 {
        PartOfSpeech::VerbNidanYS
    } else if i == 58 {
        PartOfSpeech::VerbNidanZS
    } else if i == 59 {
        PartOfSpeech::VerbYodanB
    } else if i == 60 {
        PartOfSpeech::VerbYodanG
    } else if i == 61 {
        PartOfSpeech::VerbYodanH
    } else if i == 62 {
        PartOfSpeech::VerbYodanK
    } else if i == 63 {
        PartOfSpeech::VerbYodanM
    } else if i == 64 {
        PartOfSpeech::VerbYodanN
    } else if i == 65 {
        PartOfSpeech::VerbYodanR
    } else if i == 66 {
        PartOfSpeech::VerbYodanS
    } else if i == 67 {
        PartOfSpeech::VerbYodanT
    } else if i == 68 {
        PartOfSpeech::VerbGodanAru
    } else if i == 69 {
        PartOfSpeech::VerbGodanB
    } else if i == 70 {
        PartOfSpeech::VerbGodanG
    } else if i == 71 {
        PartOfSpeech::VerbGodanK
    } else if i == 72 {
        PartOfSpeech::VerbGodanKS
    } else if i == 73 {
        PartOfSpeech::VerbGodanM
    } else if i == 74 {
        PartOfSpeech::VerbGodanN
    } else if i == 75 {
        PartOfSpeech::VerbGodanR
    } else if i == 76 {
        PartOfSpeech::VerbGodanRI
    } else if i == 77 {
        PartOfSpeech::VerbGodanS
    } else if i == 78 {
        PartOfSpeech::VerbGodanT
    } else if i == 79 {
        PartOfSpeech::VerbGodanU
    } else if i == 80 {
        PartOfSpeech::VerbGodanUS
    } else if i == 81 {
        PartOfSpeech::VerbGodanUru
    } else if i == 82 {
        PartOfSpeech::VerbIntransitive
    } else if i == 83 {
        PartOfSpeech::VerbKuru
    } else if i == 84 {
        PartOfSpeech::VerbNu
    } else if i == 85 {
        PartOfSpeech::VerbRu
    } else if i == 86 {
        PartOfSpeech::VerbSuru
    } else if i == 87 {
        PartOfSpeech::VerbSuC
    } else if i == 88 {
        PartOfSpeech::VerbSuruIncluded
    } else if i == 89 {
        PartOfSpeech::VerbSuruSpecial
    } else if i == 90 {
        PartOfSpeech::VerbTransitive
    } else {
        PartOfSpeech::VerbZuru
    }
}

/// Declaration order tells parts of speech apart.
pub proof fn lemma_pos_index(a: PartOfSpeech, b: PartOfSpeech)
    ensures
        0 <= pos_index(a) < 92,
        pos_index(a) == pos_index(b) ==> a == b,
        pos_at(pos_index(a)) == a,
{
}

impl PartOfSpeech {
    /// The position of the part of speech in declaration order.
    pub fn index(&self) -> (r: usize)
        ensures
            r == pos_index(*self),
    {
        match self {
            PartOfSpeech::AdjectiveF => 0,
            PartOfSpeech::AdjectiveI => 1,
            PartOfSpeech::AdjectiveIx => 2,
            PartOfSpeech::AdjectiveKari => 3,
            PartOfSpeech::AdjectiveKu => 4,
            PartOfSpeech::AdjectiveNa => 5,
            PartOfSpeech::AdjectiveNari => 6,
            PartOfSpeech::AdjectiveNo => 7,
            PartOfSpeech::AdjectivePn => 8,
            PartOfSpeech::AdjectiveShiku => 9,
            PartOfSpeech::AdjectiveT => 10,
            PartOfSpeech::Adverb => 11,
            PartOfSpeech::AdverbTo => 12,
            PartOfSpeech::Auxiliary => 13,
            PartOfSpeech::AuxiliaryAdjective => 14,
            PartOfSpeech::AuxiliaryVerb => 15,
            PartOfSpeech::Conjunction => 16,
            PartOfSpeech::Copular => 17,
            PartOfSpeech::Counter => 18,
            PartOfSpeech::Expression => 19,
            PartOfSpeech::Interjection => 20,
            PartOfSpeech::Noun => 21,
            PartOfSpeech::NounAdverbial => 22,
            PartOfSpeech::NounProper => 23,
            PartOfSpeech::NounPrefix => 24,
            PartOfSpeech::NounSuffix => 25,
            PartOfSpeech::NounTemporal => 26,
            PartOfSpeech::Numeric => 27,
            PartOfSpeech::Pronoun => 28,
            PartOfSpeech::Prefix => 29,
            PartOfSpeech::Particle => 30,
            PartOfSpeech::Suffix => 31,
            PartOfSpeech::Unclassified => 32,
            PartOfSpeech::VerbUnspecified => 33,
            PartOfSpeech::VerbIchidan => 34,
            PartOfSpeech::VerbIchidanS => 35,
            PartOfSpeech::VerbNidanAS => 36,
            PartOfSpeech::VerbNidanBK => 37,
            PartOfSpeech::VerbNidanBS => 38,
            PartOfSpeech::VerbNidanDK => 39,
            PartOfSpeech::VerbNidanDS => 40,
            PartOfSpeech::VerbNidanGK => 41,
            PartOfSpeech::VerbNidanGS => 42,
            PartOfSpeech::VerbNidanHK => 43,
            PartOfSpeech::VerbNidanHS => 44,
            PartOfSpeech::VerbNidanKK => 45,
            PartOfSpeech::VerbNidanKS => 46,
            PartOfSpeech::VerbNidanMK => 47,
            PartOfSpeech::VerbNidanMS => 48,
            PartOfSpeech::VerbNidanNS => 49,
            PartOfSpeech::VerbNidanRK => 50,
            PartOfSpeech::VerbNidanRS => 51,
            PartOfSpeech::VerbNidanSS => 52,
            PartOfSpeech::VerbNidanTK => 53,
            PartOfSpeech::VerbNidanTS => 54,
            PartOfSpeech::VerbNidanWS => 55,
            PartOfSpeech::VerbNidanYK => 56,
            PartOfSpeech::VerbNidanYS => 57,
            PartOfSpeech::VerbNidanZS => 58,
            PartOfSpeech::VerbYodanB => 59,
            PartOfSpeech::VerbYodanG => 60,
            PartOfSpeech::VerbYodanH => 61,
            PartOfSpeech::VerbYodanK => 62,
            PartOfSpeech::VerbYodanM => 63,
            PartOfSpeech::VerbYodanN => 64,
            PartOfSpeech::VerbYodanR => 65,
            PartOfSpeech::VerbYodanS => 66,
            PartOfSpeech::VerbYodanT => 67,
            PartOfSpeech::VerbGodanAru => 68,
            PartOfSpeech::VerbGodanB => 69,
            PartOfSpeech::VerbGodanG => 70,
            PartOfSpeech::VerbGodanK => 71,
            PartOfSpeech::VerbGodanKS => 72,
            PartOfSpeech::VerbGodanM => 73,
            PartOfSpeech::VerbGodanN => 74,
            PartOfSpeech::VerbGodanR => 75,
            PartOfSpeech::VerbGodanRI => 76,
            PartOfSpeech::VerbGodanS => 77,
            PartOfSpeech::VerbGodanT => 78,
            PartOfSpeech::VerbGodanU => 79,
            PartOfSpeech::VerbGodanUS => 80,
            PartOfSpeech::VerbGodanUru => 81,
            PartOfSpeech::VerbIntransitive => 82,
            PartOfSpeech::VerbKuru => 83,
            PartOfSpeech::VerbNu => 84,
            PartOfSpeech::VerbRu => 85,
            PartOfSpeech::VerbSuru => 86,
            PartOfSpeech::VerbSuC => 87,
            PartOfSpeech::VerbSuruIncluded => 88,
            PartOfSpeech::VerbSuruSpecial => 89,
            PartOfSpeech::VerbTransitive => 90,
            PartOfSpeech::VerbZuru => 91,
        }
    }

    /// The part of speech at a position in declaration order.
    pub fn from_index(i: usize) -> (r: PartOfSpeech)
        requires
            i < 92,
        ensures
            pos_index(r) == i,
            r == pos_at(i as int),
    {
        match i {
            0 => PartOfSpeech::AdjectiveF,
            1 => PartOfSpeech::AdjectiveI,
            2 => PartOfSpeech::AdjectiveIx,
            3 => PartOfSpeech::AdjectiveKari,
            4 => PartOfSpeech::AdjectiveKu,
            5 => PartOfSpeech::AdjectiveNa,
            6 => PartOfSpeech::AdjectiveNari,
            7 => PartOfSpeech::AdjectiveNo,
            8 => PartOfSpeech::AdjectivePn,
            9 => PartOfSpeech::AdjectiveShiku,
            10 => PartOfSpeech::AdjectiveT,
            11 => PartOfSpeech::Adverb,
            12 => PartOfSpeech::AdverbTo,
            13 => PartOfSpeech::Auxiliary,
            14 => PartOfSpeech::AuxiliaryAdjective,
            15 => PartOfSpeech::AuxiliaryVerb,
            16 => PartOfSpeech::Conjunction,
            17 => PartOfSpeech::Copular,
            18 => PartOfSpeech::Counter,
            19 => PartOfSpeech::Expression,
            20 => PartOfSpeech::Interjection,
            21 => PartOfSpeech::Noun,
            22 => PartOfSpeech::NounAdverbial,
            23 => PartOfSpeech::NounProper,
            24 => PartOfSpeech::NounPrefix,
            25 => PartOfSpeech::NounSuffix,
            26 => PartOfSpeech::NounTemporal,
            27 => PartOfSpeech::Numeric,
            28 => PartOfSpeech::Pronoun,
            29 => PartOfSpeech::Prefix,
            30 => PartOfSpeech::Particle,
            31 => PartOfSpeech::Suffix,
            32 => PartOfSpeech::Unclassified,
            33 => PartOfSpeech::VerbUnspecified,
            34 => PartOfSpeech::VerbIchidan,
            35 => PartOfSpeech::VerbIchidanS,
            36 => PartOfSpeech::VerbNidanAS,
            37 => PartOfSpeech::VerbNidanBK,
            38 => PartOfSpeech::VerbNidanBS,
            39 => PartOfSpeech::VerbNidanDK,
            40 => PartOfSpeech::VerbNidanDS,
            41 => PartOfSpeech::VerbNidanGK,
            42 => PartOfSpeech::VerbNidanGS,
            43 => PartOfSpeech::VerbNidanHK,
            44 => PartOfSpeech::VerbNidanHS,
            45 => PartOfSpeech::VerbNidanKK,
            46 => PartOfSpeech::VerbNidanKS,
            47 => PartOfSpeech::VerbNidanMK,
            48 => PartOfSpeech::VerbNidanMS,
            49 => PartOfSpeech::VerbNidanNS,
            50 => PartOfSpeech::VerbNidanRK,
            51 => PartOfSpeech::VerbNidanRS,
            52 => PartOfSpeech::VerbNidanSS,
            53 => PartOfSpeech::VerbNidanTK,
            54 => PartOfSpeech::VerbNidanTS,
            55 => PartOfSpeech::VerbNidanWS,
            56 => PartOfSpeech::VerbNidanYK,
            57 => PartOfSpeech::VerbNidanYS,
            58 => PartOfSpeech::VerbNidanZS,
            59 => PartOfSpeech::VerbYodanB,
            60 => PartOfSpeech::VerbYodanG,
            61 => PartOfSpeech::VerbYodanH,
            62 => PartOfSpeech::VerbYodanK,
            63 => PartOfSpeech::VerbYodanM,
            64 => PartOfSpeech::VerbYodanN,
            65 => PartOfSpeech::VerbYodanR,
            66 => PartOfSpeech::VerbYodanS,
            67 => PartOfSpeech::VerbYodanT,
            68 => PartOfSpeech::VerbGodanAru,
            69 => PartOfSpeech::VerbGodanB,
            70 => PartOfSpeech::VerbGodanG,
            71 => PartOfSpeech::VerbGodanK,
            72 => PartOfSpeech::VerbGodanKS,
            73 => PartOfSpeech::VerbGodanM,
            74 => PartOfSpeech::VerbGodanN,
            75 => PartOfSpeech::VerbGodanR,
            76 => PartOfSpeech::VerbGodanRI,
            77 => PartOfSpeech::VerbGodanS,
            78 => PartOfSpeech::VerbGodanT,
            79 => PartOfSpeech::VerbGodanU,
            80 => PartOfSpeech::VerbGodanUS,
            81 => PartOfSpeech::VerbGodanUru,
            82 => PartOfSpeech::VerbIntransitive,
            83 => PartOfSpeech::VerbKuru,
            84 => PartOfSpeech::VerbNu,
            85 => PartOfSpeech::VerbRu,
            86 => PartOfSpeech::VerbSuru,
            87 => PartOfSpeech::VerbSuC,
            88 => PartOfSpeech::VerbSuruIncluded,
            89 => PartOfSpeech::VerbSuruSpecial,
            90 => PartOfSpeech::VerbTransitive,
            _ => PartOfSpeech::VerbZuru,
        }
    }
}
} // verus!



verus! {

/// Parsing the entity reference of a miscellaneous, `&` with its name and `;`,
/// gives it back.
#[verifier::rlimit(50)]
#[verifier::spinoff_prover]
pub proof fn lemma_miscellaneous_parse_ident(x: Miscellaneous)
    ensures
        Miscellaneous::spec_parse("&"@ + x.spec_ident() + ";"@) == Some(x),
{
    reveal_strlit("&");
    reveal_strlit(";");
    match x {
        Miscellaneous::Abbreviation => {
            reveal_strlit("abbr");
            reveal_strlit("&abbr;");
            assert("&"@ + "abbr"@ + ";"@ =~= "&abbr;"@);
        },
        Miscellaneous::Archaic => {
            reveal_strlit("arch");
            reveal_strlit("&arch;");
            assert("&"@ + "arch"@ + ";"@ =~= "&arch;"@);
            reveal_strlit("&abbr;");
            assert("&arch;"@[2] != "&abbr;"@[2]);
        },
        Miscellaneous::Character => {
            reveal_strlit("char");
            reveal_strlit("&char;");
            assert("&"@ + "char"@ + ";"@ =~= "&char;"@);
            reveal_strlit("&abbr;");
            assert("&char;"@[1] != "&abbr;"@[1]);
            reveal_strlit("&arch;");
            assert("&char;"@[1] != "&arch;"@[1]);
        },
        Miscellaneous::Children => {
            reveal_strlit("chn");
            reveal_strlit("&chn;");
            assert("&"@ + "chn"@ + ";"@ =~= "&chn;"@);
            reveal_strlit("&abbr;");
            reveal_strlit("&arch;");
            reveal_strlit("&char;");
        },
        Miscellaneous::Colloquial => {
            reveal_strlit("col");
            reveal_strlit("&col;");
            assert("&"@ + "col"@ + ";"@ =~= "&col;"@);
            reveal_strlit("&abbr;");
            reveal_strlit("&arch;");
            reveal_strlit("&char;");
            reveal_strlit("&chn;");
            assert("&col;"@[2] != "&chn;"@[2]);
        },
        Miscellaneous::Company => {
            reveal_strlit("company");
            reveal_strlit("&company;");
            assert("&"@ + "company"@ + ";"@ =~= "&company;"@);
            reveal_strlit("&abbr;");
            reveal_strlit("&arch;");
            reveal_strlit("&char;");
            reveal_strlit("&chn;");
            reveal_strlit("&col;");
        },
        Miscellaneous::Creature => {
            reveal_strlit("creat");
            reveal_strlit("&creat;");
            assert("&"@ + "creat"@ + ";"@ =~= "&creat;"@);
            reveal_strlit("&abbr;");
            reveal_strlit("&arch;");
            reveal_strlit("&char;");
            reveal_strlit("&chn;");
            reveal_strlit("&col;");
            reveal_strlit("&company;");
        },
        Miscellaneous::Dated => {
            reveal_strlit("dated");
            reveal_strlit("&dated;");
            assert("&"@ + "dated"@ + ";"@ =~= "&dated;"@);
            reveal_strlit("&abbr;");
            reveal_strlit("&arch;");
            reveal_strlit("&char;");
            reveal_strlit("&chn;");
            reveal_strlit("&col;");
            reveal_strlit("&company;");
            reveal_strlit("&creat;");
            assert("&dated;"@[1] != "&creat;"@[1]);
        },
        Miscellaneous::Deity => {
            reveal_strlit("dei");
            reveal_strlit("&dei;");
            assert("&"@ + "dei"@ + ";"@ =~= "&dei;"@);
            reveal_strlit("&abbr;");
            reveal_strlit("&arch;");
            reveal_strlit("&char;");
            reveal_strlit("&chn;");
            assert("&dei;"@[1] != "&chn;"@[1]);
            reveal_strlit("&col;");
            assert("&dei;"@[1] != "&col;"@[1]);
            reveal_strlit("&company;");
            reveal_strlit("&creat;");
            reveal_strlit("&dated;");
        },
        Miscellaneous::Derogatory => {
            reveal_strlit("derog");
            reveal_strlit("&derog;");
            assert("&"@ + "derog"@ + ";"@ =~= "&derog;"@);
            reveal_strlit("&abbr;");
            reveal_strlit("&arch;");
            reveal_strlit("&char;");
            reveal_strlit("&chn;");
            reveal_strlit("&col;");
            reveal_strlit("&company;");
            reveal_strlit("&creat;");
            assert("&derog;"@[1] != "&creat;"@[1]);
            reveal_strlit("&dated;");
            assert("&derog;"@[2] != "&dated;"@[2]);
            reveal_strlit("&dei;");
        },
        Miscellaneous::Document => {
            reveal_strlit("doc");
            reveal_strlit("&doc;");
            assert("&"@ + "doc"@ + ";"@ =~= "&doc;"@);
            reveal_strlit("&abbr;");
            reveal_strlit("&arch;");
            reveal_strlit("&char;");
            reveal_strlit("&chn;");
            assert("&doc;"@[1] != "&chn;"@[1]);
            reveal_strlit("&col;");
            assert("&doc;"@[1] != "&col;"@[1]);
            reveal_strlit("&company;");
            reveal_strlit("&creat;");
            reveal_strlit("&dated;");
            reveal_strlit("&dei;");
            assert("&doc;"@[2] != "&dei;"@[2]);
            reveal_strlit("&derog;");
        },
        Miscellaneous::Euphemistic => {
            reveal_strlit("euph");
            reveal_strlit("&euph;");
            assert("&"@ + "euph"@ + ";"@ =~= "&euph;"@);
            reveal_strlit("&abbr;");
            assert("&euph;"@[1] != "&abbr;"@[1]);
            reveal_strlit("&arch;");
            assert("&euph;"@[1] != "&arch;"@[1]);
            reveal_strlit("&char;");
            assert("&euph;"@[1] != "&char;"@[1]);
            reveal_strlit("&chn;");
            reveal_strlit("&col;");
            reveal_strlit("&company;");
            reveal_strlit("&creat;");
            reveal_strlit("&dated;");
            reveal_strlit("&dei;");
            reveal_strlit("&derog;");
            reveal_strlit("&doc;");
        },
        Miscellaneous::Event => {
            reveal_strlit("ev");
            reveal_strlit("&ev;");
            assert("&"@ + "ev"@ + ";"@ =~= "&ev;"@);
            reveal_strlit("&abbr;");
            reveal_strlit("&arch;");
            reveal_strlit("&char;");
            reveal_strlit("&chn;");
            reveal_strlit("&col;");
            reveal_strlit("&company;");
            reveal_strlit("&creat;");
            reveal_strlit("&dated;");
            reveal_strlit("&dei;");
            reveal_strlit("&derog;");
            reveal_strlit("&doc;");
            reveal_strlit("&euph;");
        },
        Miscellaneous::Familiar => {
            reveal_strlit("fam");
            reveal_strlit("&fam;");
            assert("&"@ + "fam"@ + ";"@ =~= "&fam;"@);
            reveal_strlit("&abbr;");
            reveal_strlit("&arch;");
            reveal_strlit("&char;");
            reveal_strlit("&chn;");
            assert("&fam;"@[1] != "&chn;"@[1]);
            reveal_strlit("&col;");
            assert("&fam;"@[1] != "&col;"@[1]);
            reveal_strlit("&company;");
            reveal_strlit("&creat;");
            reveal_strlit("&dated;");
            reveal_strlit("&dei;");
            assert("&fam;"@[1] != "&dei;"@[1]);
            reveal_strlit("&derog;");
            reveal_strlit("&doc;");
            assert("&fam;"@[1] != "&doc;"@[1]);
            reveal_strlit("&euph;");
            reveal_strlit("&ev;");
        },
        Miscellaneous::Feminine => {
            reveal_strlit("fem");
            reveal_strlit("&fem;");
            assert("&"@ + "fem"@ + ";"@ =~= "&fem;"@);
            reveal_strlit("&abbr;");
            reveal_strlit("&arch;");
            reveal_strlit("&char;");
            reveal_strlit("&chn;");
            assert("&fem;"@[1] != "&chn;"@[1]);
            reveal_strlit("&col;");
            assert("&fem;"@[1] != "&col;"@[1]);
            reveal_strlit("&company;");
            reveal_strlit("&creat;");
            reveal_strlit("&dated;");
            reveal_strlit("&dei;");
            assert("&fem;"@[1] != "&dei;"@[1]);
            reveal_strlit("&derog;");
            reveal_strlit("&doc;");
            assert("&fem;"@[1] != "&doc;"@[1]);
            reveal_strlit("&euph;");
            reveal_strlit("&ev;");
            reveal_strlit("&fam;");
            assert("&fem;"@[2] != "&fam;"@[2]);
        },
        Miscellaneous::Fict => {
            reveal_strlit("fict");
            reveal_strlit("&fict;");
            assert("&"@ + "fict"@ + ";"@ =~= "&fict;"@);
            reveal_strlit("&abbr;");
            assert("&fict;"@[1] != "&abbr;"@[1]);
            reveal_strlit("&arch;");
            assert("&fict;"@[1] != "&arch;"@[1]);
            reveal_strlit("&char;");
            assert("&fict;"@[1] != "&char;"@[1]);
            reveal_strlit("&chn;");
            reveal_strlit("&col;");
            reveal_strlit("&company;");
            reveal_strlit("&creat;");
            reveal_strlit("&dated;");
            reveal_strlit("&dei;");
            reveal_strlit("&derog;");
            reveal_strlit("&doc;");
            reveal_strlit("&euph;");
            assert("&fict;"@[1] != "&euph;"@[1]);
            reveal_strlit("&ev;");
            reveal_strlit("&fam;");
            reveal_strlit("&fem;");
        },
        Miscellaneous::Form => {
            reveal_strlit("form");
            reveal_strlit("&form;");
            assert("&"@ + "form"@ + ";"@ =~= "&form;"@);
            reveal_strlit("&abbr;");
            assert("&form;"@[1] != "&abbr;"@[1]);
            reveal_strlit("&arch;");
            assert("&form;"@[1] != "&arch;"@[1]);
            reveal_strlit("&char;");
            assert("&form;"@[1] != "&char;"@[1]);
            reveal_strlit("&chn;");
            reveal_strlit("&col;");
            reveal_strlit("&company;");
            reveal_strlit("&creat;");
            reveal_strlit("&dated;");
            reveal_strlit("&dei;");
            reveal_strlit("&derog;");
            reveal_strlit("&doc;");
            reveal_strlit("&euph;");
            assert("&form;"@[1] != "&euph;"@[1]);
            reveal_strlit("&ev;");
            reveal_strlit("&fam;");
            reveal_strlit("&fem;");
            reveal_strlit("&fict;");
            assert("&form;"@[2] != "&fict;"@[2]);
        },
        Miscellaneous::Given => {
            reveal_strlit("given");
            reveal_strlit("&given;");
            assert("&"@ + "given"@ + ";"@ =~= "&given;"@);
            reveal_strlit("&abbr;");
            reveal_strlit("&arch;");
            reveal_strlit("&char;");
            reveal_strlit("&chn;");
            reveal_strlit("&col;");
            reveal_strlit("&company;");
            reveal_strlit("&creat;");
            assert("&given;"@[1] != "&creat;"@[1]);
            reveal_strlit("&dated;");
            assert("&given;"@[1] != "&dated;"@[1]);
            reveal_strlit("&dei;");
            reveal_strlit("&derog;");
            assert("&given;"@[1] != "&derog;"@[1]);
            reveal_strlit("&doc;");
            reveal_strlit("&euph;");
            reveal_strlit("&ev;");
            reveal_strlit("&fam;");
            reveal_strlit("&fem;");
            reveal_strlit("&fict;");
            reveal_strlit("&form;");
        },
        Miscellaneous::Group => {
            reveal_strlit("group");
            reveal_strlit("&group;");
            assert("&"@ + "group"@ + ";"@ =~= "&group;"@);
            reveal_strlit("&abbr;");
            reveal_strlit("&arch;");
            reveal_strlit("&char;");
            reveal_strlit("&chn;");
            reveal_strlit("&col;");
            reveal_strlit("&company;");
            reveal_strlit("&creat;");
            assert("&group;"@[1] != "&creat;"@[1]);
            reveal_strlit("&dated;");
            assert("&group;"@[1] != "&dated;"@[1]);
            reveal_strlit("&dei;");
            reveal_strlit("&derog;");
            assert("&group;"@[1] != "&derog;"@[1]);
            reveal_strlit("&doc;");
            reveal_strlit("&euph;");
            reveal_strlit("&ev;");
            reveal_strlit("&fam;");
            reveal_strlit("&fem;");
            reveal_strlit("&fict;");
            reveal_strlit("&form;");
            reveal_strlit("&given;");
            assert("&group;"@[2] != "&given;"@[2]);
        },
        Miscellaneous::Historical => {
            reveal_strlit("hist");
            reveal_strlit("&hist;");
            assert("&"@ + "hist"@ + ";"@ =~= "&hist;"@);
            reveal_strlit("&abbr;");
            assert("&hist;"@[1] != "&abbr;"@[1]);
            reveal_strlit("&arch;");
            assert("&hist;"@[1] != "&arch;"@[1]);
            reveal_strlit("&char;");
            assert("&hist;"@[1] != "&char;"@[1]);
            reveal_strlit("&chn;");
            reveal_strlit("&col;");
            reveal_strlit("&company;");
            reveal_strlit("&creat;");
            reveal_strlit("&dated;");
            reveal_strlit("&dei;");
            reveal_strlit("&derog;");
            reveal_strlit("&doc;");
            reveal_strlit("&euph;");
            assert("&hist;"@[1] != "&euph;"@[1]);
            reveal_strlit("&ev;");
            reveal_strlit("&fam;");
            reveal_strlit("&fem;");
            reveal_strlit("&fict;");
            assert("&hist;"@[1] != "&fict;"@[1]);
            reveal_strlit("&form;");
            assert("&hist;"@[1] != "&form;"@[1]);
            reveal_strlit("&given;");
            reveal_strlit("&group;");
        },
        Miscellaneous::Honorific => {
            reveal_strlit("hon");
            reveal_strlit("&hon;");
            assert("&"@ + "hon"@ + ";"@ =~= "&hon;"@);
            reveal_strlit("&abbr;");
            reveal_strlit("&arch;");
            reveal_strlit("&char;");
            reveal_strlit("&chn;");
            assert("&hon;"@[1] != "&chn;"@[1]);
            reveal_strlit("&col;");
            assert("&hon;"@[1] != "&col;"@[1]);
            reveal_strlit("&company;");
            reveal_strlit("&creat;");
            reveal_strlit("&dated;");
            reveal_strlit("&dei;");
            assert("&hon;"@[1] != "&dei;"@[1]);
            reveal_strlit("&derog;");
            reveal_strlit("&doc;");
            assert("&hon;"@[1] != "&doc;"@[1]);
            reveal_strlit("&euph;");
            reveal_strlit("&ev;");
            reveal_strlit("&fam;");
            assert("&hon;"@[1] != "&fam;"@[1]);
            reveal_strlit("&fem;");
            assert("&hon;"@[1] != "&fem;"@[1]);
            reveal_strlit("&fict;");
            reveal_strlit("&form;");
            reveal_strlit("&given;");
            reveal_strlit("&group;");
            reveal_strlit("&hist;");
        },
        Miscellaneous::Humble => {
            reveal_strlit("hum");
            reveal_strlit("&hum;");
            assert("&"@ + "hum"@ + ";"@ =~= "&hum;"@);
            reveal_strlit("&abbr;");
            reveal_strlit("&arch;");
            reveal_strlit("&char;");
            reveal_strlit("&chn;");
            assert("&hum;"@[1] != "&chn;"@[1]);
            reveal_strlit("&col;");
            assert("&hum;"@[1] != "&col;"@[1]);
            reveal_strlit("&company;");
            reveal_strlit("&creat;");
            reveal_strlit("&dated;");
            reveal_strlit("&dei;");
            assert("&hum;"@[1] != "&dei;"@[1]);
            reveal_strlit("&derog;");
            reveal_strlit("&doc;");
            assert("&hum;"@[1] != "&doc;"@[1]);
            reveal_strlit("&euph;");
            reveal_strlit("&ev;");
            reveal_strlit("&fam;");
            assert("&hum;"@[1] != "&fam;"@[1]);
            reveal_strlit("&fem;");
            assert("&hum;"@[1] != "&fem;"@[1]);
            reveal_strlit("&fict;");
            reveal_strlit("&form;");
            reveal_strlit("&given;");
            reveal_strlit("&group;");
            reveal_strlit("&hist;");
            reveal_strlit("&hon;");
            assert("&hum;"@[2] != "&hon;"@[2]);
        },
        Miscellaneous::Idiomatic => {
            reveal_strlit("id");
            reveal_strlit("&id;");
            assert("&"@ + "id"@ + ";"@ =~= "&id;"@);
            reveal_strlit("&abbr;");
            reveal_strlit("&arch;");
            reveal_strlit("&char;");
            reveal_strlit("&chn;");
            reveal_strlit("&col;");
            reveal_strlit("&company;");
            reveal_strlit("&creat;");
            reveal_strlit("&dated;");
            reveal_strlit("&dei;");
            reveal_strlit("&derog;");
            reveal_strlit("&doc;");
            reveal_strlit("&euph;");
            reveal_strlit("&ev;");
            assert("&id;"@[1] != "&ev;"@[1]);
            reveal_strlit("&fam;");
            reveal_strlit("&fem;");
            reveal_strlit("&fict;");
            reveal_strlit("&form;");
            reveal_strlit("&given;");
            reveal_strlit("&group;");
            reveal_strlit("&hist;");
            reveal_strlit("&hon;");
            reveal_strlit("&hum;");
        },
        Miscellaneous::Jocular => {
            reveal_strlit("joc");
            reveal_strlit("&joc;");
            assert("&"@ + "joc"@ + ";"@ =~= "&joc;"@);
            reveal_strlit("&abbr;");
            reveal_strlit("&arch;");
            reveal_strlit("&char;");
            reveal_strlit("&chn;");
            assert("&joc;"@[1] != "&chn;"@[1]);
            reveal_strlit("&col;");
            assert("&joc;"@[1] != "&col;"@[1]);
            reveal_strlit("&company;");
            reveal_strlit("&creat;");
            reveal_strlit("&dated;");
            reveal_strlit("&dei;");
            assert("&joc;"@[1] != "&dei;"@[1]);
            reveal_strlit("&derog;");
            reveal_strlit("&doc;");
            assert("&joc;"@[1] != "&doc;"@[1]);
            reveal_strlit("&euph;");
            reveal_strlit("&ev;");
            reveal_strlit("&fam;");
            assert("&joc;"@[1] != "&fam;"@[1]);
            reveal_strlit("&fem;");
            assert("&joc;"@[1] != "&fem;"@[1]);
            reveal_strlit("&fict;");
            reveal_strlit("&form;");
            reveal_strlit("&given;");
            reveal_strlit("&group;");
            reveal_strlit("&hist;");
            reveal_strlit("&hon;");
            assert("&joc;"@[1] != "&hon;"@[1]);
            reveal_strlit("&hum;");
            assert("&joc;"@[1] != "&hum;"@[1]);
            reveal_strlit("&id;");
        },
        Miscellaneous::Legend => {
            reveal_strlit("leg");
            reveal_strlit("&leg;");
            assert("&"@ + "leg"@ + ";"@ =~= "&leg;"@);
            reveal_strlit("&abbr;");
            reveal_strlit("&arch;");
            reveal_strlit("&char;");
            reveal_strlit("&chn;");
            assert("&leg;"@[1] != "&chn;"@[1]);
            reveal_strlit("&col;");
            assert("&leg;"@[1] != "&col;"@[1]);
            reveal_strlit("&company;");
            reveal_strlit("&creat;");
            reveal_strlit("&dated;");
            reveal_strlit("&dei;");
            assert("&leg;"@[1] != "&dei;"@[1]);
            reveal_strlit("&derog;");
            reveal_strlit("&doc;");
            assert("&leg;"@[1] != "&doc;"@[1]);
            reveal_strlit("&euph;");
            reveal_strlit("&ev;");
            reveal_strlit("&fam;");
            assert("&leg;"@[1] != "&fam;"@[1]);
            reveal_strlit("&fem;");
            assert("&leg;"@[1] != "&fem;"@[1]);
            reveal_strlit("&fict;");
            reveal_strlit("&form;");
            reveal_strlit("&given;");
            reveal_strlit("&group;");
            reveal_strlit("&hist;");
            reveal_strlit("&hon;");
            assert("&leg;"@[1] != "&hon;"@[1]);
            reveal_strlit("&hum;");
            assert("&leg;"@[1] != "&hum;"@[1]);
            reveal_strlit("&id;");
            reveal_strlit("&joc;");
            assert("&leg;"@[1] != "&joc;"@[1]);
        },
        Miscellaneous::MangaSlang => {
            reveal_strlit("m-sl");
            reveal_strlit("&m-sl;");
            assert("&"@ + "m-sl"@ + ";"@ =~= "&m-sl;"@);
            reveal_strlit("&abbr;");
            assert("&m-sl;"@[1] != "&abbr;"@[1]);
            reveal_strlit("&arch;");
            assert("&m-sl;"@[1] != "&arch;"@[1]);
            reveal_strlit("&char;");
            assert("&m-sl;"@[1] != "&char;"@[1]);
            reveal_strlit("&chn;");
            reveal_strlit("&col;");
            reveal_strlit("&company;");
            reveal_strlit("&creat;");
            reveal_strlit("&dated;");
            reveal_strlit("&dei;");
            reveal_strlit("&derog;");
            reveal_strlit("&doc;");
            reveal_strlit("&euph;");
            assert("&m-sl;"@[1] != "&euph;"@[1]);
            reveal_strlit("&ev;");
            reveal_strlit("&fam;");
            reveal_strlit("&fem;");
            reveal_strlit("&fict;");
            assert("&m-sl;"@[1] != "&fict;"@[1]);
            reveal_strlit("&form;");
            assert("&m-sl;"@[1] != "&form;"@[1]);
            reveal_strlit("&given;");
            reveal_strlit("&group;");
            reveal_strlit("&hist;");
            assert("&m-sl;"@[1] != "&hist;"@[1]);
            reveal_strlit("&hon;");
            reveal_strlit("&hum;");
            reveal_strlit("&id;");
            reveal_strlit("&joc;");
            reveal_strlit("&leg;");
        },
        Miscellaneous::Male => {
            reveal_strlit("male");
            reveal_strlit("&male;");
            assert("&"@ + "male"@ + ";"@ =~= "&male;"@);
            reveal_strlit("&abbr;");
            assert("&male;"@[1] != "&abbr;"@[1]);
            reveal_strlit("&arch;");
            assert("&male;"@[1] != "&arch;"@[1]);
            reveal_strlit("&char;");
            assert("&male;"@[1] != "&char;"@[1]);
            reveal_strlit("&chn;");
            reveal_strlit("&col;");
            reveal_strlit("&company;");
            reveal_strlit("&creat;");
            reveal_strlit("&dated;");
            reveal_strlit("&dei;");
            reveal_strlit("&derog;");
            reveal_strlit("&doc;");
            reveal_strlit("&euph;");
            assert("&male;"@[1] != "&euph;"@[1]);
            reveal_strlit("&ev;");
            reveal_strlit("&fam;");
            reveal_strlit("&fem;");
            reveal_strlit("&fict;");
            assert("&male;"@[1] != "&fict;"@[1]);
            reveal_strlit("&form;");
            assert("&male;"@[1] != "&form;"@[1]);
            reveal_strlit("&given;");
            reveal_strlit("&group;");
            reveal_strlit("&hist;");
            assert("&male;"@[1] != "&hist;"@[1]);
            reveal_strlit("&hon;");
            reveal_strlit("&hum;");
            reveal_strlit("&id;");
            reveal_strlit("&joc;");
            reveal_strlit("&leg;");
            reveal_strlit("&m-sl;");
            assert("&male;"@[2] != "&m-sl;"@[2]);
        },
        Miscellaneous::Mythology => {
            reveal_strlit("myth");
            reveal_strlit("&myth;");
            assert("&"@ + "myth"@ + ";"@ =~= "&myth;"@);
            reveal_strlit("&abbr;");
            assert("&myth;"@[1] != "&abbr;"@[1]);
            reveal_strlit("&arch;");
            assert("&myth;"@[1] != "&arch;"@[1]);
            reveal_strlit("&char;");
            assert("&myth;"@[1] != "&char;"@[1]);
            reveal_strlit("&chn;");
            reveal_strlit("&col;");
            reveal_strlit("&company;");
            reveal_strlit("&creat;");
            reveal_strlit("&dated;");
            reveal_strlit("&dei;");
            reveal_strlit("&derog;");
            reveal_strlit("&doc;");
            reveal_strlit("&euph;");
            assert("&myth;"@[1] != "&euph;"@[1]);
            reveal_strlit("&ev;");
            reveal_strlit("&fam;");
            reveal_strlit("&fem;");
            reveal_strlit("&fict;");
            assert("&myth;"@[1] != "&fict;"@[1]);
            reveal_strlit("&form;");
            assert("&myth;"@[1] != "&form;"@[1]);
            reveal_strlit("&given;");
            reveal_strlit("&group;");
            reveal_strlit("&hist;");
            assert("&myth;"@[1] != "&hist;"@[1]);
            reveal_strlit("&hon;");
            reveal_strlit("&hum;");
            reveal_strlit("&id;");
            reveal_strlit("&joc;");
            reveal_strlit("&leg;");
            reveal_strlit("&m-sl;");
            assert("&myth;"@[2] != "&m-sl;"@[2]);
            reveal_strlit("&male;");
            assert("&myth;"@[2] != "&male;"@[2]);
        },
        Miscellaneous::NetSlang => {
            reveal_strlit("net-sl");
            reveal_strlit("&net-sl;");
            assert("&"@ + "net-sl"@ + ";"@ =~= "&net-sl;"@);
            reveal_strlit("&abbr;");
            reveal_strlit("&arch;");
            reveal_strlit("&char;");
            reveal_strlit("&chn;");
            reveal_strlit("&col;");
            reveal_strlit("&company;");
            reveal_strlit("&creat;");
            reveal_strlit("&dated;");
            reveal_strlit("&dei;");
            reveal_strlit("&derog;");
            reveal_strlit("&doc;");
            reveal_strlit("&euph;");
            reveal_strlit("&ev;");
            reveal_strlit("&fam;");
            reveal_strlit("&fem;");
            reveal_strlit("&fict;");
            reveal_strlit("&form;");
            reveal_strlit("&given;");
            reveal_strlit("&group;");
            reveal_strlit("&hist;");
            reveal_strlit("&hon;");
            reveal_strlit("&hum;");
            reveal_strlit("&id;");
            reveal_strlit("&joc;");
            reveal_strlit("&leg;");
            reveal_strlit("&m-sl;");
            reveal_strlit("&male;");
            reveal_strlit("&myth;");
        },
        Miscellaneous::Object => {
            reveal_strlit("obj");
            reveal_strlit("&obj;");
            assert("&"@ + "obj"@ + ";"@ =~= "&obj;"@);
            reveal_strlit("&abbr;");
            reveal_strlit("&arch;");
            reveal_strlit("&char;");
            reveal_strlit("&chn;");
            assert("&obj;"@[1] != "&chn;"@[1]);
            reveal_strlit("&col;");
            assert("&obj;"@[1] != "&col;"@[1]);
            reveal_strlit("&company;");
            reveal_strlit("&creat;");
            reveal_strlit("&dated;");
            reveal_strlit("&dei;");
            assert("&obj;"@[1] != "&dei;"@[1]);
            reveal_strlit("&derog;");
            reveal_strlit("&doc;");
            assert("&obj;"@[1] != "&doc;"@[1]);
            reveal_strlit("&euph;");
            reveal_strlit("&ev;");
            reveal_strlit("&fam;");
            assert("&obj;"@[1] != "&fam;"@[1]);
            reveal_strlit("&fem;");
            assert("&obj;"@[1] != "&fem;"@[1]);
            reveal_strlit("&fict;");
            reveal_strlit("&form;");
            reveal_strlit("&given;");
            reveal_strlit("&group;");
            reveal_strlit("&hist;");
            reveal_strlit("&hon;");
            assert("&obj;"@[1] != "&hon;"@[1]);
            reveal_strlit("&hum;");
            assert("&obj;"@[1] != "&hum;"@[1]);
            reveal_strlit("&id;");
            reveal_strlit("&joc;");
            assert("&obj;"@[1] != "&joc;"@[1]);
            reveal_strlit("&leg;");
            assert("&obj;"@[1] != "&leg;"@[1]);
            reveal_strlit("&m-sl;");
            reveal_strlit("&male;");
            reveal_strlit("&myth;");
            reveal_strlit("&net-sl;");
        },
        Miscellaneous::Obsolete => {
            reveal_strlit("obs");
            reveal_strlit("&obs;");
            assert("&"@ + "obs"@ + ";"@ =~= "&obs;"@);
            reveal_strlit("&abbr;");
            reveal_strlit("&arch;");
            reveal_strlit("&char;");
            reveal_strlit("&chn;");
            assert("&obs;"@[1] != "&chn;"@[1]);
            reveal_strlit("&col;");
            assert("&obs;"@[1] != "&col;"@[1]);
            reveal_strlit("&company;");
            reveal_strlit("&creat;");
            reveal_strlit("&dated;");
            reveal_strlit("&dei;");
            assert("&obs;"@[1] != "&dei;"@[1]);
            reveal_strlit("&derog;");
            reveal_strlit("&doc;");
            assert("&obs;"@[1] != "&doc;"@[1]);
            reveal_strlit("&euph;");
            reveal_strlit("&ev;");
            reveal_strlit("&fam;");
            assert("&obs;"@[1] != "&fam;"@[1]);
            reveal_strlit("&fem;");
            assert("&obs;"@[1] != "&fem;"@[1]);
            reveal_strlit("&fict;");
            reveal_strlit("&form;");
            reveal_strlit("&given;");
            reveal_strlit("&group;");
            reveal_strlit("&hist;");
            reveal_strlit("&hon;");
            assert("&obs;"@[1] != "&hon;"@[1]);
            reveal_strlit("&hum;");
            assert("&obs;"@[1] != "&hum;"@[1]);
            reveal_strlit("&id;");
            reveal_strlit("&joc;");
            assert("&obs;"@[1] != "&joc;"@[1]);
            reveal_strlit("&leg;");
            assert("&obs;"@[1] != "&leg;"@[1]);
            reveal_strlit("&m-sl;");
            reveal_strlit("&male;");
            reveal_strlit("&myth;");
            reveal_strlit("&net-sl;");
            reveal_strlit("&obj;");
            assert("&obs;"@[3] != "&obj;"@[3]);
        },
        Miscellaneous::OnMim => {
            reveal_strlit("on-mim");
            reveal_strlit("&on-mim;");
            assert("&"@ + "on-mim"@ + ";"@ =~= "&on-mim;"@);
            reveal_strlit("&abbr;");
            reveal_strlit("&arch;");
            reveal_strlit("&char;");
            reveal_strlit("&chn;");
            reveal_strlit("&col;");
            reveal_strlit("&company;");
            reveal_strlit("&creat;");
            reveal_strlit("&dated;");
            reveal_strlit("&dei;");
            reveal_strlit("&derog;");
            reveal_strlit("&doc;");
            reveal_strlit("&euph;");
            reveal_strlit("&ev;");
            reveal_strlit("&fam;");
            reveal_strlit("&fem;");
            reveal_strlit("&fict;");
            reveal_strlit("&form;");
            reveal_strlit("&given;");
            reveal_strlit("&group;");
            reveal_strlit("&hist;");
            reveal_strlit("&hon;");
            reveal_strlit("&hum;");
            reveal_strlit("&id;");
            reveal_strlit("&joc;");
            reveal_strlit("&leg;");
            reveal_strlit("&m-sl;");
            reveal_strlit("&male;");
            reveal_strlit("&myth;");
            reveal_strlit("&net-sl;");
            assert("&on-mim;"@[1] != "&net-sl;"@[1]);
            reveal_strlit("&obj;");
            reveal_strlit("&obs;");
        },
        Miscellaneous::Organization => {
            reveal_strlit("organization");
            reveal_strlit("&organization;");
            assert("&"@ + "organization"@ + ";"@ =~= "&organization;"@);
            reveal_strlit("&abbr;");
            reveal_strlit("&arch;");
            reveal_strlit("&char;");
            reveal_strlit("&chn;");
            reveal_strlit("&col;");
            reveal_strlit("&company;");
            reveal_strlit("&creat;");
            reveal_strlit("&dated;");
            reveal_strlit("&dei;");
            reveal_strlit("&derog;");
            reveal_strlit("&doc;");
            reveal_strlit("&euph;");
            reveal_strlit("&ev;");
            reveal_strlit("&fam;");
            reveal_strlit("&fem;");
            reveal_strlit("&fict;");
            reveal_strlit("&form;");
            reveal_strlit("&given;");
            reveal_strlit("&group;");
            reveal_strlit("&hist;");
            reveal_strlit("&hon;");
            reveal_strlit("&hum;");
            reveal_strlit("&id;");
            reveal_strlit("&joc;");
            reveal_strlit("&leg;");
            reveal_strlit("&m-sl;");
            reveal_strlit("&male;");
            reveal_strlit("&myth;");
            reveal_strlit("&net-sl;");
            reveal_strlit("&obj;");
            reveal_strlit("&obs;");
            reveal_strlit("&on-mim;");
        },
        Miscellaneous::Other => {
            reveal_strlit("oth");
            reveal_strlit("&oth;");
            assert("&"@ + "oth"@ + ";"@ =~= "&oth;"@);
            reveal_strlit("&abbr;");
            reveal_strlit("&arch;");
            reveal_strlit("&char;");
            reveal_strlit("&chn;");
            assert("&oth;"@[1] != "&chn;"@[1]);
            reveal_strlit("&col;");
            assert("&oth;"@[1] != "&col;"@[1]);
            reveal_strlit("&company;");
            reveal_strlit("&creat;");
            reveal_strlit("&dated;");
            reveal_strlit("&dei;");
            assert("&oth;"@[1] != "&dei;"@[1]);
            reveal_strlit("&derog;");
            reveal_strlit("&doc;");
            assert("&oth;"@[1] != "&doc;"@[1]);
            reveal_strlit("&euph;");
            reveal_strlit("&ev;");
            reveal_strlit("&fam;");
            assert("&oth;"@[1] != "&fam;"@[1]);
            reveal_strlit("&fem;");
            assert("&oth;"@[1] != "&fem;"@[1]);
            reveal_strlit("&fict;");
            reveal_strlit("&form;");
            reveal_strlit("&given;");
            reveal_strlit("&group;");
            reveal_strlit("&hist;");
            reveal_strlit("&hon;");
            assert("&oth;"@[1] != "&hon;"@[1]);
            reveal_strlit("&hum;");
            assert("&oth;"@[1] != "&hum;"@[1]);
            reveal_strlit("&id;");
            reveal_strlit("&joc;");
            assert("&oth;"@[1] != "&joc;"@[1]);
            reveal_strlit("&leg;");
            assert("&oth;"@[1] != "&leg;"@[1]);
            reveal_strlit("&m-sl;");
            reveal_strlit("&male;");
            reveal_strlit("&myth;");
            reveal_strlit("&net-sl;");
            reveal_strlit("&obj;");
            assert("&oth;"@[2] != "&obj;"@[2]);
            reveal_strlit("&obs;");
            assert("&oth;"@[2] != "&obs;"@[2]);
            reveal_strlit("&on-mim;");
            reveal_strlit("&organization;");
        },
        Miscellaneous::Person => {
            reveal_strlit("person");
            reveal_strlit("&person;");
            assert("&"@ + "person"@ + ";"@ =~= "&person;"@);
            reveal_strlit("&abbr;");
            reveal_strlit("&arch;");
            reveal_strlit("&char;");
            reveal_strlit("&chn;");
            reveal_strlit("&col;");
            reveal_strlit("&company;");
            reveal_strlit("&creat;");
            reveal_strlit("&dated;");
            reveal_strlit("&dei;");
            reveal_strlit("&derog;");
            reveal_strlit("&doc;");
            reveal_strlit("&euph;");
            reveal_strlit("&ev;");
            reveal_strlit("&fam;");
            reveal_strlit("&fem;");
            reveal_strlit("&fict;");
            reveal_strlit("&form;");
            reveal_strlit("&given;");
            reveal_strlit("&group;");
            reveal_strlit("&hist;");
            reveal_strlit("&hon;");
            reveal_strlit("&hum;");
            reveal_strlit("&id;");
            reveal_strlit("&joc;");
            reveal_strlit("&leg;");
            reveal_strlit("&m-sl;");
            reveal_strlit("&male;");
            reveal_strlit("&myth;");
            reveal_strlit("&net-sl;");
            assert("&person;"@[1] != "&net-sl;"@[1]);
            reveal_strlit("&obj;");
            reveal_strlit("&obs;");
            reveal_strlit("&on-mim;");
            assert("&person;"@[1] != "&on-mim;"@[1]);
            reveal_strlit("&organization;");
            reveal_strlit("&oth;");
        },
        Miscellaneous::Place => {
            reveal_strlit("place");
            reveal_strlit("&place;");
            assert("&"@ + "place"@ + ";"@ =~= "&place;"@);
            reveal_strlit("&abbr;");
            reveal_strlit("&arch;");
            reveal_strlit("&char;");
            reveal_strlit("&chn;");
            reveal_strlit("&col;");
            reveal_strlit("&company;");
            reveal_strlit("&creat;");
            assert("&place;"@[1] != "&creat;"@[1]);
            reveal_strlit("&dated;");
            assert("&place;"@[1] != "&dated;"@[1]);
            reveal_strlit("&dei;");
            reveal_strlit("&derog;");
            assert("&place;"@[1] != "&derog;"@[1]);
            reveal_strlit("&doc;");
            reveal_strlit("&euph;");
            reveal_strlit("&ev;");
            reveal_strlit("&fam;");
            reveal_strlit("&fem;");
            reveal_strlit("&fict;");
            reveal_strlit("&form;");
            reveal_strlit("&given;");
            assert("&place;"@[1] != "&given;"@[1]);
            reveal_strlit("&group;");
            assert("&place;"@[1] != "&group;"@[1]);
            reveal_strlit("&hist;");
            reveal_strlit("&hon;");
            reveal_strlit("&hum;");
            reveal_strlit("&id;");
            reveal_strlit("&joc;");
            reveal_strlit("&leg;");
            reveal_strlit("&m-sl;");
            reveal_strlit("&male;");
            reveal_strlit("&myth;");
            reveal_strlit("&net-sl;");
            reveal_strlit("&obj;");
            reveal_strlit("&obs;");
            reveal_strlit("&on-mim;");
            reveal_strlit("&organization;");
            reveal_strlit("&oth;");
            reveal_strlit("&person;");
        },
        Miscellaneous::Poetic => {
            reveal_strlit("poet");
            reveal_strlit("&poet;");
            assert("&"@ + "poet"@ + ";"@ =~= "&poet;"@);
            reveal_strlit("&abbr;");
            assert("&poet;"@[1] != "&abbr;"@[1]);
            reveal_strlit("&arch;");
            assert("&poet;"@[1] != "&arch;"@[1]);
            reveal_strlit("&char;");
            assert("&poet;"@[1] != "&char;"@[1]);
            reveal_strlit("&chn;");
            reveal_strlit("&col;");
            reveal_strlit("&company;");
            reveal_strlit("&creat;");
            reveal_strlit("&dated;");
            reveal_strlit("&dei;");
            reveal_strlit("&derog;");
            reveal_strlit("&doc;");
            reveal_strlit("&euph;");
            assert("&poet;"@[1] != "&euph;"@[1]);
            reveal_strlit("&ev;");
            reveal_strlit("&fam;");
            reveal_strlit("&fem;");
            reveal_strlit("&fict;");
            assert("&poet;"@[1] != "&fict;"@[1]);
            reveal_strlit("&form;");
            assert("&poet;"@[1] != "&form;"@[1]);
            reveal_strlit("&given;");
            reveal_strlit("&group;");
            reveal_strlit("&hist;");
            assert("&poet;"@[1] != "&hist;"@[1]);
            reveal_strlit("&hon;");
            reveal_strlit("&hum;");
            reveal_strlit("&id;");
            reveal_strlit("&joc;");
            reveal_strlit("&leg;");
            reveal_strlit("&m-sl;");
            assert("&poet;"@[1] != "&m-sl;"@[1]);
            reveal_strlit("&male;");
            assert("&poet;"@[1] != "&male;"@[1]);
            reveal_strlit("&myth;");
            assert("&poet;"@[1] != "&myth;"@[1]);
            reveal_strlit("&net-sl;");
            reveal_strlit("&obj;");
            reveal_strlit("&obs;");
            reveal_strlit("&on-mim;");
            reveal_strlit("&organization;");
            reveal_strlit("&oth;");
            reveal_strlit("&person;");
            reveal_strlit("&place;");
        },
        Miscellaneous::Polite => {
            reveal_strlit("pol");
            reveal_strlit("&pol;");
            assert("&"@ + "pol"@ + ";"@ =~= "&pol;"@);
            reveal_strlit("&abbr;");
            reveal_strlit("&arch;");
            reveal_strlit("&char;");
            reveal_strlit("&chn;");
            assert("&pol;"@[1] != "&chn;"@[1]);
            reveal_strlit("&col;");
            assert("&pol;"@[1] != "&col;"@[1]);
            reveal_strlit("&company;");
            reveal_strlit("&creat;");
            reveal_strlit("&dated;");
            reveal_strlit("&dei;");
            assert("&pol;"@[1] != "&dei;"@[1]);
            reveal_strlit("&derog;");
            reveal_strlit("&doc;");
            assert("&pol;"@[1] != "&doc;"@[1]);
            reveal_strlit("&euph;");
            reveal_strlit("&ev;");
            reveal_strlit("&fam;");
            assert("&pol;"@[1] != "&fam;"@[1]);
            reveal_strlit("&fem;");
            assert("&pol;"@[1] != "&fem;"@[1]);
            reveal_strlit("&fict;");
            reveal_strlit("&form;");
            reveal_strlit("&given;");
            reveal_strlit("&group;");
            reveal_strlit("&hist;");
            reveal_strlit("&hon;");
            assert("&pol;"@[1] != "&hon;"@[1]);
            reveal_strlit("&hum;");
            assert("&pol;"@[1] != "&hum;"@[1]);
            reveal_strlit("&id;");
            reveal_strlit("&joc;");
            assert("&pol;"@[1] != "&joc;"@[1]);
            reveal_strlit("&leg;");
            assert("&pol;"@[1] != "&leg;"@[1]);
            reveal_strlit("&m-sl;");
            reveal_strlit("&male;");
            reveal_strlit("&myth;");
            reveal_strlit("&net-sl;");
            reveal_strlit("&obj;");
            assert("&pol;"@[1] != "&obj;"@[1]);
            reveal_strlit("&obs;");
            assert("&pol;"@[1] != "&obs;"@[1]);
            reveal_strlit("&on-mim;");
            reveal_strlit("&organization;");
            reveal_strlit("&oth;");
            assert("&pol;"@[1] != "&oth;"@[1]);
            reveal_strlit("&person;");
            reveal_strlit("&place;");
            reveal_strlit("&poet;");
        },
        Miscellaneous::Product => {
            reveal_strlit("product");
            reveal_strlit("&product;");
            assert("&"@ + "product"@ + ";"@ =~= "&product;"@);
            reveal_strlit("&abbr;");
            reveal_strlit("&arch;");
            reveal_strlit("&char;");
            reveal_strlit("&chn;");
            reveal_strlit("&col;");
            reveal_strlit("&company;");
            assert("&product;"@[1] != "&company;"@[1]);
            reveal_strlit("&creat;");
            reveal_strlit("&dated;");
            reveal_strlit("&dei;");
            reveal_strlit("&derog;");
            reveal_strlit("&doc;");
            reveal_strlit("&euph;");
            reveal_strlit("&ev;");
            reveal_strlit("&fam;");
            reveal_strlit("&fem;");
            reveal_strlit("&fict;");
            reveal_strlit("&form;");
            reveal_strlit("&given;");
            reveal_strlit("&group;");
            reveal_strlit("&hist;");
            reveal_strlit("&hon;");
            reveal_strlit("&hum;");
            reveal_strlit("&id;");
            reveal_strlit("&joc;");
            reveal_strlit("&leg;");
            reveal_strlit("&m-sl;");
            reveal_strlit("&male;");
            reveal_strlit("&myth;");
            reveal_strlit("&net-sl;");
            reveal_strlit("&obj;");
            reveal_strlit("&obs;");
            reveal_strlit("&on-mim;");
            reveal_strlit("&organization;");
            reveal_strlit("&oth;");
            reveal_strlit("&person;");
            reveal_strlit("&place;");
            reveal_strlit("&poet;");
            reveal_strlit("&pol;");
        },
        Miscellaneous::Proverb => {
            reveal_strlit("proverb");
            reveal_strlit("&proverb;");
            assert("&"@ + "proverb"@ + ";"@ =~= "&proverb;"@);
            reveal_strlit("&abbr;");
            reveal_strlit("&arch;");
            reveal_strlit("&char;");
            reveal_strlit("&chn;");
            reveal_strlit("&col;");
            reveal_strlit("&company;");
            assert("&proverb;"@[1] != "&company;"@[1]);
            reveal_strlit("&creat;");
            reveal_strlit("&dated;");
            reveal_strlit("&dei;");
            reveal_strlit("&derog;");
            reveal_strlit("&doc;");
            reveal_strlit("&euph;");
            reveal_strlit("&ev;");
            reveal_strlit("&fam;");
            reveal_strlit("&fem;");
            reveal_strlit("&fict;");
            reveal_strlit("&form;");
            reveal_strlit("&given;");
            reveal_strlit("&group;");
            reveal_strlit("&hist;");
            reveal_strlit("&hon;");
            reveal_strlit("&hum;");
            reveal_strlit("&id;");
            reveal_strlit("&joc;");
            reveal_strlit("&leg;");
            reveal_strlit("&m-sl;");
            reveal_strlit("&male;");
            reveal_strlit("&myth;");
            reveal_strlit("&net-sl;");
            reveal_strlit("&obj;");
            reveal_strlit("&obs;");
            reveal_strlit("&on-mim;");
            reveal_strlit("&organization;");
            reveal_strlit("&oth;");
            reveal_strlit("&person;");
            reveal_strlit("&place;");
            reveal_strlit("&poet;");
            reveal_strlit("&pol;");
            reveal_strlit("&product;");
            assert("&proverb;"@[4] != "&product;"@[4]);
        },
        Miscellaneous::Quote => {
            reveal_strlit("quote");
            reveal_strlit("&quote;");
            assert("&"@ + "quote"@ + ";"@ =~= "&quote;"@);
            reveal_strlit("&abbr;");
            reveal_strlit("&arch;");
            reveal_strlit("&char;");
            reveal_strlit("&chn;");
            reveal_strlit("&col;");
            reveal_strlit("&company;");
            reveal_strlit("&creat;");
            assert("&quote;"@[1] != "&creat;"@[1]);
            reveal_strlit("&dated;");
            assert("&quote;"@[1] != "&dated;"@[1]);
            reveal_strlit("&dei;");
            reveal_strlit("&derog;");
            assert("&quote;"@[1] != "&derog;"@[1]);
            reveal_strlit("&doc;");
            reveal_strlit("&euph;");
            reveal_strlit("&ev;");
            reveal_strlit("&fam;");
            reveal_strlit("&fem;");
            reveal_strlit("&fict;");
            reveal_strlit("&form;");
            reveal_strlit("&given;");
            assert("&quote;"@[1] != "&given;"@[1]);
            reveal_strlit("&group;");
            assert("&quote;"@[1] != "&group;"@[1]);
            reveal_strlit("&hist;");
            reveal_strlit("&hon;");
            reveal_strlit("&hum;");
            reveal_strlit("&id;");
            reveal_strlit("&joc;");
            reveal_strlit("&leg;");
            reveal_strlit("&m-sl;");
            reveal_strlit("&male;");
            reveal_strlit("&myth;");
            reveal_strlit("&net-sl;");
            reveal_strlit("&obj;");
            reveal_strlit("&obs;");
            reveal_strlit("&on-mim;");
            reveal_strlit("&organization;");
            reveal_strlit("&oth;");
            reveal_strlit("&person;");
            reveal_strlit("&place;");
            assert("&quote;"@[1] != "&place;"@[1]);
            reveal_strlit("&poet;");
            reveal_strlit("&pol;");
            reveal_strlit("&product;");
            reveal_strlit("&proverb;");
        },
        Miscellaneous::Rare => {
            reveal_strlit("rare");
            reveal_strlit("&rare;");
            assert("&"@ + "rare"@ + ";"@ =~= "&rare;"@);
            reveal_strlit("&abbr;");
            assert("&rare;"@[1] != "&abbr;"@[1]);
            reveal_strlit("&arch;");
            assert("&rare;"@[1] != "&arch;"@[1]);
            reveal_strlit("&char;");
            assert("&rare;"@[1] != "&char;"@[1]);
            reveal_strlit("&chn;");
            reveal_strlit("&col;");
            reveal_strlit("&company;");
            reveal_strlit("&creat;");
            reveal_strlit("&dated;");
            reveal_strlit("&dei;");
            reveal_strlit("&derog;");
            reveal_strlit("&doc;");
            reveal_strlit("&euph;");
            assert("&rare;"@[1] != "&euph;"@[1]);
            reveal_strlit("&ev;");
            reveal_strlit("&fam;");
            reveal_strlit("&fem;");
            reveal_strlit("&fict;");
            assert("&rare;"@[1] != "&fict;"@[1]);
            reveal_strlit("&form;");
            assert("&rare;"@[1] != "&form;"@[1]);
            reveal_strlit("&given;");
            reveal_strlit("&group;");
            reveal_strlit("&hist;");
            assert("&rare;"@[1] != "&hist;"@[1]);
            reveal_strlit("&hon;");
            reveal_strlit("&hum;");
            reveal_strlit("&id;");
            reveal_strlit("&joc;");
            reveal_strlit("&leg;");
            reveal_strlit("&m-sl;");
            assert("&rare;"@[1] != "&m-sl;"@[1]);
            reveal_strlit("&male;");
            assert("&rare;"@[1] != "&male;"@[1]);
            reveal_strlit("&myth;");
            assert("&rare;"@[1] != "&myth;"@[1]);
            reveal_strlit("&net-sl;");
            reveal_strlit("&obj;");
            reveal_strlit("&obs;");
            reveal_strlit("&on-mim;");
            reveal_strlit("&organization;");
            reveal_strlit("&oth;");
            reveal_strlit("&person;");
            reveal_strlit("&place;");
            reveal_strlit("&poet;");
            assert("&rare;"@[1] != "&poet;"@[1]);
            reveal_strlit("&pol;");
            reveal_strlit("&product;");
            reveal_strlit("&proverb;");
            reveal_strlit("&quote;");
        },
        Miscellaneous::Relig => {
            reveal_strlit("relig");
            reveal_strlit("&relig;");
            assert("&"@ + "relig"@ + ";"@ =~= "&relig;"@);
            reveal_strlit("&abbr;");
            reveal_strlit("&arch;");
            reveal_strlit("&char;");
            reveal_strlit("&chn;");
            reveal_strlit("&col;");
            reveal_strlit("&company;");
            reveal_strlit("&creat;");
            assert("&relig;"@[1] != "&creat;"@[1]);
            reveal_strlit("&dated;");
            assert("&relig;"@[1] != "&dated;"@[1]);
            reveal_strlit("&dei;");
            reveal_strlit("&derog;");
            assert("&relig;"@[1] != "&derog;"@[1]);
            reveal_strlit("&doc;");
            reveal_strlit("&euph;");
            reveal_strlit("&ev;");
            reveal_strlit("&fam;");
            reveal_strlit("&fem;");
            reveal_strlit("&fict;");
            reveal_strlit("&form;");
            reveal_strlit("&given;");
            assert("&relig;"@[1] != "&given;"@[1]);
            reveal_strlit("&group;");
            assert("&relig;"@[1] != "&group;"@[1]);
            reveal_strlit("&hist;");
            reveal_strlit("&hon;");
            reveal_strlit("&hum;");
            reveal_strlit("&id;");
            reveal_strlit("&joc;");
            reveal_strlit("&leg;");
            reveal_strlit("&m-sl;");
            reveal_strlit("&male;");
            reveal_strlit("&myth;");
            reveal_strlit("&net-sl;");
            reveal_strlit("&obj;");
            reveal_strlit("&obs;");
            reveal_strlit("&on-mim;");
            reveal_strlit("&organization;");
            reveal_strlit("&oth;");
            reveal_strlit("&person;");
            reveal_strlit("&place;");
            assert("&relig;"@[1] != "&place;"@[1]);
            reveal_strlit("&poet;");
            reveal_strlit("&pol;");
            reveal_strlit("&product;");
            reveal_strlit("&proverb;");
            reveal_strlit("&quote;");
            assert("&relig;"@[1] != "&quote;"@[1]);
            reveal_strlit("&rare;");
        },
        Miscellaneous::Sens => {
            reveal_strlit("sens");
            reveal_strlit("&sens;");
            assert("&"@ + "sens"@ + ";"@ =~= "&sens;"@);
            reveal_strlit("&abbr;");
            assert("&sens;"@[1] != "&abbr;"@[1]);
            reveal_strlit("&arch;");
            assert("&sens;"@[1] != "&arch;"@[1]);
            reveal_strlit("&char;");
            assert("&sens;"@[1] != "&char;"@[1]);
            reveal_strlit("&chn;");
            reveal_strlit("&col;");
            reveal_strlit("&company;");
            reveal_strlit("&creat;");
            reveal_strlit("&dated;");
            reveal_strlit("&dei;");
            reveal_strlit("&derog;");
            reveal_strlit("&doc;");
            reveal_strlit("&euph;");
            assert("&sens;"@[1] != "&euph;"@[1]);
            reveal_strlit("&ev;");
            reveal_strlit("&fam;");
            reveal_strlit("&fem;");
            reveal_strlit("&fict;");
            assert("&sens;"@[1] != "&fict;"@[1]);
            reveal_strlit("&form;");
            assert("&sens;"@[1] != "&form;"@[1]);
            reveal_strlit("&given;");
            reveal_strlit("&group;");
            reveal_strlit("&hist;");
            assert("&sens;"@[1] != "&hist;"@[1]);
            reveal_strlit("&hon;");
            reveal_strlit("&hum;");
            reveal_strlit("&id;");
            reveal_strlit("&joc;");
            reveal_strlit("&leg;");
            reveal_strlit("&m-sl;");
            assert("&sens;"@[1] != "&m-sl;"@[1]);
            reveal_strlit("&male;");
            assert("&sens;"@[1] != "&male;"@[1]);
            reveal_strlit("&myth;");
            assert("&sens;"@[1] != "&myth;"@[1]);
            reveal_strlit("&net-sl;");
            reveal_strlit("&obj;");
            reveal_strlit("&obs;");
            reveal_strlit("&on-mim;");
            reveal_strlit("&organization;");
            reveal_strlit("&oth;");
            reveal_strlit("&person;");
            reveal_strlit("&place;");
            reveal_strlit("&poet;");
            assert("&sens;"@[1] != "&poet;"@[1]);
            reveal_strlit("&pol;");
            reveal_strlit("&product;");
            reveal_strlit("&proverb;");
            reveal_strlit("&quote;");
            reveal_strlit("&rare;");
            assert("&sens;"@[1] != "&rare;"@[1]);
            reveal_strlit("&relig;");
        },
        Miscellaneous::Service => {
            reveal_strlit("serv");
            reveal_strlit("&serv;");
            assert("&"@ + "serv"@ + ";"@ =~= "&serv;"@);
            reveal_strlit("&abbr;");
            assert("&serv;"@[1] != "&abbr;"@[1]);
            reveal_strlit("&arch;");
            assert("&serv;"@[1] != "&arch;"@[1]);
            reveal_strlit("&char;");
            assert("&serv;"@[1] != "&char;"@[1]);
            reveal_strlit("&chn;");
            reveal_strlit("&col;");
            reveal_strlit("&company;");
            reveal_strlit("&creat;");
            reveal_strlit("&dated;");
            reveal_strlit("&dei;");
            reveal_strlit("&derog;");
            reveal_strlit("&doc;");
            reveal_strlit("&euph;");
            assert("&serv;"@[1] != "&euph;"@[1]);
            reveal_strlit("&ev;");
            reveal_strlit("&fam;");
            reveal_strlit("&fem;");
            reveal_strlit("&fict;");
            assert("&serv;"@[1] != "&fict;"@[1]);
            reveal_strlit("&form;");
            assert("&serv;"@[1] != "&form;"@[1]);
            reveal_strlit("&given;");
            reveal_strlit("&group;");
            reveal_strlit("&hist;");
            assert("&serv;"@[1] != "&hist;"@[1]);
            reveal_strlit("&hon;");
            reveal_strlit("&hum;");
            reveal_strlit("&id;");
            reveal_strlit("&joc;");
            reveal_strlit("&leg;");
            reveal_strlit("&m-sl;");
            assert("&serv;"@[1] != "&m-sl;"@[1]);
            reveal_strlit("&male;");
            assert("&serv;"@[1] != "&male;"@[1]);
            reveal_strlit("&myth;");
            assert("&serv;"@[1] != "&myth;"@[1]);
            reveal_strlit("&net-sl;");
            reveal_strlit("&obj;");
            reveal_strlit("&obs;");
            reveal_strlit("&on-mim;");
            reveal_strlit("&organization;");
            reveal_strlit("&oth;");
            reveal_strlit("&person;");
            reveal_strlit("&place;");
            reveal_strlit("&poet;");
            assert("&serv;"@[1] != "&poet;"@[1]);
            reveal_strlit("&pol;");
            reveal_strlit("&product;");
            reveal_strlit("&proverb;");
            reveal_strlit("&quote;");
            reveal_strlit("&rare;");
            assert("&serv;"@[1] != "&rare;"@[1]);
            reveal_strlit("&relig;");
            reveal_strlit("&sens;");
            assert("&serv;"@[3] != "&sens;"@[3]);
        },
        Miscellaneous::Ship => {
            reveal_strlit("ship");
            reveal_strlit("&ship;");
            assert("&"@ + "ship"@ + ";"@ =~= "&ship;"@);
            reveal_strlit("&abbr;");
            assert("&ship;"@[1] != "&abbr;"@[1]);
            reveal_strlit("&arch;");
            assert("&ship;"@[1] != "&arch;"@[1]);
            reveal_strlit("&char;");
            assert("&ship;"@[1] != "&char;"@[1]);
            reveal_strlit("&chn;");
            reveal_strlit("&col;");
            reveal_strlit("&company;");
            reveal_strlit("&creat;");
            reveal_strlit("&dated;");
            reveal_strlit("&dei;");
            reveal_strlit("&derog;");
            reveal_strlit("&doc;");
            reveal_strlit("&euph;");
            assert("&ship;"@[1] != "&euph;"@[1]);
            reveal_strlit("&ev;");
            reveal_strlit("&fam;");
            reveal_strlit("&fem;");
            reveal_strlit("&fict;");
            assert("&ship;"@[1] != "&fict;"@[1]);
            reveal_strlit("&form;");
            assert("&ship;"@[1] != "&form;"@[1]);
            reveal_strlit("&given;");
            reveal_strlit("&group;");
            reveal_strlit("&hist;");
            assert("&ship;"@[1] != "&hist;"@[1]);
            reveal_strlit("&hon;");
            reveal_strlit("&hum;");
            reveal_strlit("&id;");
            reveal_strlit("&joc;");
            reveal_strlit("&leg;");
            reveal_strlit("&m-sl;");
            assert("&ship;"@[1] != "&m-sl;"@[1]);
            reveal_strlit("&male;");
            assert("&ship;"@[1] != "&male;"@[1]);
            reveal_strlit("&myth;");
            assert("&ship;"@[1] != "&myth;"@[1]);
            reveal_strlit("&net-sl;");
            reveal_strlit("&obj;");
            reveal_strlit("&obs;");
            reveal_strlit("&on-mim;");
            reveal_strlit("&organization;");
            reveal_strlit("&oth;");
            reveal_strlit("&person;");
            reveal_strlit("&place;");
            reveal_strlit("&poet;");
            assert("&ship;"@[1] != "&poet;"@[1]);
            reveal_strlit("&pol;");
            reveal_strlit("&product;");
            reveal_strlit("&proverb;");
            reveal_strlit("&quote;");
            reveal_strlit("&rare;");
            assert("&ship;"@[1] != "&rare;"@[1]);
            reveal_strlit("&relig;");
            reveal_strlit("&sens;");
            assert("&ship;"@[2] != "&sens;"@[2]);
            reveal_strlit("&serv;");
            assert("&ship;"@[2] != "&serv;"@[2]);
        },
        Miscellaneous::Slang => {
            reveal_strlit("sl");
            reveal_strlit("&sl;");
            assert("&"@ + "sl"@ + ";"@ =~= "&sl;"@);
            reveal_strlit("&abbr;");
            reveal_strlit("&arch;");
            reveal_strlit("&char;");
            reveal_strlit("&chn;");
            reveal_strlit("&col;");
            reveal_strlit("&company;");
            reveal_strlit("&creat;");
            reveal_strlit("&dated;");
            reveal_strlit("&dei;");
            reveal_strlit("&derog;");
            reveal_strlit("&doc;");
            reveal_strlit("&euph;");
            reveal_strlit("&ev;");
            assert("&sl;"@[1] != "&ev;"@[1]);
            reveal_strlit("&fam;");
            reveal_strlit("&fem;");
            reveal_strlit("&fict;");
            reveal_strlit("&form;");
            reveal_strlit("&given;");
            reveal_strlit("&group;");
            reveal_strlit("&hist;");
            reveal_strlit("&hon;");
            reveal_strlit("&hum;");
            reveal_strlit("&id;");
            assert("&sl;"@[1] != "&id;"@[1]);
            reveal_strlit("&joc;");
            reveal_strlit("&leg;");
            reveal_strlit("&m-sl;");
            reveal_strlit("&male;");
            reveal_strlit("&myth;");
            reveal_strlit("&net-sl;");
            reveal_strlit("&obj;");
            reveal_strlit("&obs;");
            reveal_strlit("&on-mim;");
            reveal_strlit("&organization;");
            reveal_strlit("&oth;");
            reveal_strlit("&person;");
            reveal_strlit("&place;");
            reveal_strlit("&poet;");
            reveal_strlit("&pol;");
            reveal_strlit("&product;");
            reveal_strlit("&proverb;");
            reveal_strlit("&quote;");
            reveal_strlit("&rare;");
            reveal_strlit("&relig;");
            reveal_strlit("&sens;");
            reveal_strlit("&serv;");
            reveal_strlit("&ship;");
        },
        Miscellaneous::Station => {
            reveal_strlit("station");
            reveal_strlit("&station;");
            assert("&"@ + "station"@ + ";"@ =~= "&station;"@);
            reveal_strlit("&abbr;");
            reveal_strlit("&arch;");
            reveal_strlit("&char;");
            reveal_strlit("&chn;");
            reveal_strlit("&col;");
            reveal_strlit("&company;");
            assert("&station;"@[1] != "&company;"@[1]);
            reveal_strlit("&creat;");
            reveal_strlit("&dated;");
            reveal_strlit("&dei;");
            reveal_strlit("&derog;");
            reveal_strlit("&doc;");
            reveal_strlit("&euph;");
            reveal_strlit("&ev;");
            reveal_strlit("&fam;");
            reveal_strlit("&fem;");
            reveal_strlit("&fict;");
            reveal_strlit("&form;");
            reveal_strlit("&given;");
            reveal_strlit("&group;");
            reveal_strlit("&hist;");
            reveal_strlit("&hon;");
            reveal_strlit("&hum;");
            reveal_strlit("&id;");
            reveal_strlit("&joc;");
            reveal_strlit("&leg;");
            reveal_strlit("&m-sl;");
            reveal_strlit("&male;");
            reveal_strlit("&myth;");
            reveal_strlit("&net-sl;");
            reveal_strlit("&obj;");
            reveal_strlit("&obs;");
            reveal_strlit("&on-mim;");
            reveal_strlit("&organization;");
            reveal_strlit("&oth;");
            reveal_strlit("&person;");
            reveal_strlit("&place;");
            reveal_strlit("&poet;");
            reveal_strlit("&pol;");
            reveal_strlit("&product;");
            assert("&station;"@[1] != "&product;"@[1]);
            reveal_strlit("&proverb;");
            assert("&station;"@[1] != "&proverb;"@[1]);
            reveal_strlit("&quote;");
            reveal_strlit("&rare;");
            reveal_strlit("&relig;");
            reveal_strlit("&sens;");
            reveal_strlit("&serv;");
            reveal_strlit("&ship;");
            reveal_strlit("&sl;");
        },
        Miscellaneous::Surname => {
            reveal_strlit("surname");
            reveal_strlit("&surname;");
            assert("&"@ + "surname"@ + ";"@ =~= "&surname;"@);
            reveal_strlit("&abbr;");
            reveal_strlit("&arch;");
            reveal_strlit("&char;");
            reveal_strlit("&chn;");
            reveal_strlit("&col;");
            reveal_strlit("&company;");
            assert("&surname;"@[1] != "&company;"@[1]);
            reveal_strlit("&creat;");
            reveal_strlit("&dated;");
            reveal_strlit("&dei;");
            reveal_strlit("&derog;");
            reveal_strlit("&doc;");
            reveal_strlit("&euph;");
            reveal_strlit("&ev;");
            reveal_strlit("&fam;");
            reveal_strlit("&fem;");
            reveal_strlit("&fict;");
            reveal_strlit("&form;");
            reveal_strlit("&given;");
            reveal_strlit("&group;");
            reveal_strlit("&hist;");
            reveal_strlit("&hon;");
            reveal_strlit("&hum;");
            reveal_strlit("&id;");
            reveal_strlit("&joc;");
            reveal_strlit("&leg;");
            reveal_strlit("&m-sl;");
            reveal_strlit("&male;");
            reveal_strlit("&myth;");
            reveal_strlit("&net-sl;");
            reveal_strlit("&obj;");
            reveal_strlit("&obs;");
            reveal_strlit("&on-mim;");
            reveal_strlit("&organization;");
            reveal_strlit("&oth;");
            reveal_strlit("&person;");
            reveal_strlit("&place;");
            reveal_strlit("&poet;");
            reveal_strlit("&pol;");
            reveal_strlit("&product;");
            assert("&surname;"@[1] != "&product;"@[1]);
            reveal_strlit("&proverb;");
            assert("&surname;"@[1] != "&proverb;"@[1]);
            reveal_strlit("&quote;");
            reveal_strlit("&rare;");
            reveal_strlit("&relig;");
            reveal_strlit("&sens;");
            reveal_strlit("&serv;");
            reveal_strlit("&ship;");
            reveal_strlit("&sl;");
            reveal_strlit("&station;");
            assert("&surname;"@[2] != "&station;"@[2]);
        },
        Miscellaneous::UsuallyKana => {
            reveal_strlit("uk");
            reveal_strlit("&uk;");
            assert("&"@ + "uk"@ + ";"@ =~= "&uk;"@);
            reveal_strlit("&abbr;");
            reveal_strlit("&arch;");
            reveal_strlit("&char;");
            reveal_strlit("&chn;");
            reveal_strlit("&col;");
            reveal_strlit("&company;");
            reveal_strlit("&creat;");
            reveal_strlit("&dated;");
            reveal_strlit("&dei;");
            reveal_strlit("&derog;");
            reveal_strlit("&doc;");
            reveal_strlit("&euph;");
            reveal_strlit("&ev;");
            assert("&uk;"@[1] != "&ev;"@[1]);
            reveal_strlit("&fam;");
            reveal_strlit("&fem;");
            reveal_strlit("&fict;");
            reveal_strlit("&form;");
            reveal_strlit("&given;");
            reveal_strlit("&group;");
            reveal_strlit("&hist;");
            reveal_strlit("&hon;");
            reveal_strlit("&hum;");
            reveal_strlit("&id;");
            assert("&uk;"@[1] != "&id;"@[1]);
            reveal_strlit("&joc;");
            reveal_strlit("&leg;");
            reveal_strlit("&m-sl;");
            reveal_strlit("&male;");
            reveal_strlit("&myth;");
            reveal_strlit("&net-sl;");
            reveal_strlit("&obj;");
            reveal_strlit("&obs;");
            reveal_strlit("&on-mim;");
            reveal_strlit("&organization;");
            reveal_strlit("&oth;");
            reveal_strlit("&person;");
            reveal_strlit("&place;");
            reveal_strlit("&poet;");
            reveal_strlit("&pol;");
            reveal_strlit("&product;");
            reveal_strlit("&proverb;");
            reveal_strlit("&quote;");
            reveal_strlit("&rare;");
            reveal_strlit("&relig;");
            reveal_strlit("&sens;");
            reveal_strlit("&serv;");
            reveal_strlit("&ship;");
            reveal_strlit("&sl;");
            assert("&uk;"@[1] != "&sl;"@[1]);
            reveal_strlit("&station;");
            reveal_strlit("&surname;");
        },
        Miscellaneous::Unclassified => {
            reveal_strlit("unclass");
            reveal_strlit("&unclass;");
            assert("&"@ + "unclass"@ + ";"@ =~= "&unclass;"@);
            reveal_strlit("&abbr;");
            reveal_strlit("&arch;");
            reveal_strlit("&char;");
            reveal_strlit("&chn;");
            reveal_strlit("&col;");
            reveal_strlit("&company;");
            assert("&unclass;"@[1] != "&company;"@[1]);
            reveal_strlit("&creat;");
            reveal_strlit("&dated;");
            reveal_strlit("&dei;");
            reveal_strlit("&derog;");
            reveal_strlit("&doc;");
            reveal_strlit("&euph;");
            reveal_strlit("&ev;");
            reveal_strlit("&fam;");
            reveal_strlit("&fem;");
            reveal_strlit("&fict;");
            reveal_strlit("&form;");
            reveal_strlit("&given;");
            reveal_strlit("&group;");
            reveal_strlit("&hist;");
            reveal_strlit("&hon;");
            reveal_strlit("&hum;");
            reveal_strlit("&id;");
            reveal_strlit("&joc;");
            reveal_strlit("&leg;");
            reveal_strlit("&m-sl;");
            reveal_strlit("&male;");
            reveal_strlit("&myth;");
            reveal_strlit("&net-sl;");
            reveal_strlit("&obj;");
            reveal_strlit("&obs;");
            reveal_strlit("&on-mim;");
            reveal_strlit("&organization;");
            reveal_strlit("&oth;");
            reveal_strlit("&person;");
            reveal_strlit("&place;");
            reveal_strlit("&poet;");
            reveal_strlit("&pol;");
            reveal_strlit("&product;");
            assert("&unclass;"@[1] != "&product;"@[1]);
            reveal_strlit("&proverb;");
            assert("&unclass;"@[1] != "&proverb;"@[1]);
            reveal_strlit("&quote;");
            reveal_strlit("&rare;");
            reveal_strlit("&relig;");
            reveal_strlit("&sens;");
            reveal_strlit("&serv;");
            reveal_strlit("&ship;");
            reveal_strlit("&sl;");
            reveal_strlit("&station;");
            assert("&unclass;"@[1] != "&station;"@[1]);
            reveal_strlit("&surname;");
            assert("&unclass;"@[1] != "&surname;"@[1]);
            reveal_strlit("&uk;");
        },
        Miscellaneous::Vulgar => {
            reveal_strlit("vulg");
            reveal_strlit("&vulg;");
            assert("&"@ + "vulg"@ + ";"@ =~= "&vulg;"@);
            reveal_strlit("&abbr;");
            assert("&vulg;"@[1] != "&abbr;"@[1]);
            reveal_strlit("&arch;");
            assert("&vulg;"@[1] != "&arch;"@[1]);
            reveal_strlit("&char;");
            assert("&vulg;"@[1] != "&char;"@[1]);
            reveal_strlit("&chn;");
            reveal_strlit("&col;");
            reveal_strlit("&company;");
            reveal_strlit("&creat;");
            reveal_strlit("&dated;");
            reveal_strlit("&dei;");
            reveal_strlit("&derog;");
            reveal_strlit("&doc;");
            reveal_strlit("&euph;");
            assert("&vulg;"@[1] != "&euph;"@[1]);
            reveal_strlit("&ev;");
            reveal_strlit("&fam;");
            reveal_strlit("&fem;");
            reveal_strlit("&fict;");
            assert("&vulg;"@[1] != "&fict;"@[1]);
            reveal_strlit("&form;");
            assert("&vulg;"@[1] != "&form;"@[1]);
            reveal_strlit("&given;");
            reveal_strlit("&group;");
            reveal_strlit("&hist;");
            assert("&vulg;"@[1] != "&hist;"@[1]);
            reveal_strlit("&hon;");
            reveal_strlit("&hum;");
            reveal_strlit("&id;");
            reveal_strlit("&joc;");
            reveal_strlit("&leg;");
            reveal_strlit("&m-sl;");
            assert("&vulg;"@[1] != "&m-sl;"@[1]);
            reveal_strlit("&male;");
            assert("&vulg;"@[1] != "&male;"@[1]);
            reveal_strlit("&myth;");
            assert("&vulg;"@[1] != "&myth;"@[1]);
            reveal_strlit("&net-sl;");
            reveal_strlit("&obj;");
            reveal_strlit("&obs;");
            reveal_strlit("&on-mim;");
            reveal_strlit("&organization;");
            reveal_strlit("&oth;");
            reveal_strlit("&person;");
            reveal_strlit("&place;");
            reveal_strlit("&poet;");
            assert("&vulg;"@[1] != "&poet;"@[1]);
            reveal_strlit("&pol;");
            reveal_strlit("&product;");
            reveal_strlit("&proverb;");
            reveal_strlit("&quote;");
            reveal_strlit("&rare;");
            assert("&vulg;"@[1] != "&rare;"@[1]);
            reveal_strlit("&relig;");
            reveal_strlit("&sens;");
            assert("&vulg;"@[1] != "&sens;"@[1]);
            reveal_strlit("&serv;");
            assert("&vulg;"@[1] != "&serv;"@[1]);
            reveal_strlit("&ship;");
            assert("&vulg;"@[1] != "&ship;"@[1]);
            reveal_strlit("&sl;");
            reveal_strlit("&station;");
            reveal_strlit("&surname;");
            reveal_strlit("&uk;");
            reveal_strlit("&unclass;");
        },
        Miscellaneous::Work => {
            reveal_strlit("work");
            reveal_strlit("&work;");
            assert("&"@ + "work"@ + ";"@ =~= "&work;"@);
            reveal_strlit("&abbr;");
            assert("&work;"@[1] != "&abbr;"@[1]);
            reveal_strlit("&arch;");
            assert("&work;"@[1] != "&arch;"@[1]);
            reveal_strlit("&char;");
            assert("&work;"@[1] != "&char;"@[1]);
            reveal_strlit("&chn;");
            reveal_strlit("&col;");
            reveal_strlit("&company;");
            reveal_strlit("&creat;");
            reveal_strlit("&dated;");
            reveal_strlit("&dei;");
            reveal_strlit("&derog;");
            reveal_strlit("&doc;");
            reveal_strlit("&euph;");
            assert("&work;"@[1] != "&euph;"@[1]);
            reveal_strlit("&ev;");
            reveal_strlit("&fam;");
            reveal_strlit("&fem;");
            reveal_strlit("&fict;");
            assert("&work;"@[1] != "&fict;"@[1]);
            reveal_strlit("&form;");
            assert("&work;"@[1] != "&form;"@[1]);
            reveal_strlit("&given;");
            reveal_strlit("&group;");
            reveal_strlit("&hist;");
            assert("&work;"@[1] != "&hist;"@[1]);
            reveal_strlit("&hon;");
            reveal_strlit("&hum;");
            reveal_strlit("&id;");
            reveal_strlit("&joc;");
            reveal_strlit("&leg;");
            reveal_strlit("&m-sl;");
            assert("&work;"@[1] != "&m-sl;"@[1]);
            reveal_strlit("&male;");
            assert("&work;"@[1] != "&male;"@[1]);
            reveal_strlit("&myth;");
            assert("&work;"@[1] != "&myth;"@[1]);
            reveal_strlit("&net-sl;");
            reveal_strlit("&obj;");
            reveal_strlit("&obs;");
            reveal_strlit("&on-mim;");
            reveal_strlit("&organization;");
            reveal_strlit("&oth;");
            reveal_strlit("&person;");
            reveal_strlit("&place;");
            reveal_strlit("&poet;");
            assert("&work;"@[1] != "&poet;"@[1]);
            reveal_strlit("&pol;");
            reveal_strlit("&product;");
            reveal_strlit("&proverb;");
            reveal_strlit("&quote;");
            reveal_strlit("&rare;");
            assert("&work;"@[1] != "&rare;"@[1]);
            reveal_strlit("&relig;");
            reveal_strlit("&sens;");
            assert("&work;"@[1] != "&sens;"@[1]);
            reveal_strlit("&serv;");
            assert("&work;"@[1] != "&serv;"@[1]);
            reveal_strlit("&ship;");
            assert("&work;"@[1] != "&ship;"@[1]);
            reveal_strlit("&sl;");
            reveal_strlit("&station;");
            reveal_strlit("&surname;");
            reveal_strlit("&uk;");
            reveal_strlit("&unclass;");
            reveal_strlit("&vulg;");
            assert("&work;"@[1] != "&vulg;"@[1]);
        },
        Miscellaneous::X => {
            reveal_strlit("X");
            reveal_strlit("&X;");
            assert("&"@ + "X"@ + ";"@ =~= "&X;"@);
            reveal_strlit("&abbr;");
            reveal_strlit("&arch;");
            reveal_strlit("&char;");
            reveal_strlit("&chn;");
            reveal_strlit("&col;");
            reveal_strlit("&company;");
            reveal_strlit("&creat;");
            reveal_strlit("&dated;");
            reveal_strlit("&dei;");
            reveal_strlit("&derog;");
            reveal_strlit("&doc;");
            reveal_strlit("&euph;");
            reveal_strlit("&ev;");
            reveal_strlit("&fam;");
            reveal_strlit("&fem;");
            reveal_strlit("&fict;");
            reveal_strlit("&form;");
            reveal_strlit("&given;");
            reveal_strlit("&group;");
            reveal_strlit("&hist;");
            reveal_strlit("&hon;");
            reveal_strlit("&hum;");
            reveal_strlit("&id;");
            reveal_strlit("&joc;");
            reveal_strlit("&leg;");
            reveal_strlit("&m-sl;");
            reveal_strlit("&male;");
            reveal_strlit("&myth;");
            reveal_strlit("&net-sl;");
            reveal_strlit("&obj;");
            reveal_strlit("&obs;");
            reveal_strlit("&on-mim;");
            reveal_strlit("&organization;");
            reveal_strlit("&oth;");
            reveal_strlit("&person;");
            reveal_strlit("&place;");
            reveal_strlit("&poet;");
            reveal_strlit("&pol;");
            reveal_strlit("&product;");
            reveal_strlit("&proverb;");
            reveal_strlit("&quote;");
            reveal_strlit("&rare;");
            reveal_strlit("&relig;");
            reveal_strlit("&sens;");
            reveal_strlit("&serv;");
            reveal_strlit("&ship;");
            reveal_strlit("&sl;");
            reveal_strlit("&station;");
            reveal_strlit("&surname;");
            reveal_strlit("&uk;");
            reveal_strlit("&unclass;");
            reveal_strlit("&vulg;");
            reveal_strlit("&work;");
        },
        Miscellaneous::Yojijukugo => {
            reveal_strlit("yoji");
            reveal_strlit("&yoji;");
            assert("&"@ + "yoji"@ + ";"@ =~= "&yoji;"@);
            reveal_strlit("&abbr;");
            assert("&yoji;"@[1] != "&abbr;"@[1]);
            reveal_strlit("&arch;");
            assert("&yoji;"@[1] != "&arch;"@[1]);
            reveal_strlit("&char;");
            assert("&yoji;"@[1] != "&char;"@[1]);
            reveal_strlit("&chn;");
            reveal_strlit("&col;");
            reveal_strlit("&company;");
            reveal_strlit("&creat;");
            reveal_strlit("&dated;");
            reveal_strlit("&dei;");
            reveal_strlit("&derog;");
            reveal_strlit("&doc;");
            reveal_strlit("&euph;");
            assert("&yoji;"@[1] != "&euph;"@[1]);
            reveal_strlit("&ev;");
            reveal_strlit("&fam;");
            reveal_strlit("&fem;");
            reveal_strlit("&fict;");
            assert("&yoji;"@[1] != "&fict;"@[1]);
            reveal_strlit("&form;");
            assert("&yoji;"@[1] != "&form;"@[1]);
            reveal_strlit("&given;");
            reveal_strlit("&group;");
            reveal_strlit("&hist;");
            assert("&yoji;"@[1] != "&hist;"@[1]);
            reveal_strlit("&hon;");
            reveal_strlit("&hum;");
            reveal_strlit("&id;");
            reveal_strlit("&joc;");
            reveal_strlit("&leg;");
            reveal_strlit("&m-sl;");
            assert("&yoji;"@[1] != "&m-sl;"@[1]);
            reveal_strlit("&male;");
            assert("&yoji;"@[1] != "&male;"@[1]);
            reveal_strlit("&myth;");
            assert("&yoji;"@[1] != "&myth;"@[1]);
            reveal_strlit("&net-sl;");
            reveal_strlit("&obj;");
            reveal_strlit("&obs;");
            reveal_strlit("&on-mim;");
            reveal_strlit("&organization;");
            reveal_strlit("&oth;");
            reveal_strlit("&person;");
            reveal_strlit("&place;");
            reveal_strlit("&poet;");
            assert("&yoji;"@[1] != "&poet;"@[1]);
            reveal_strlit("&pol;");
            reveal_strlit("&product;");
            reveal_strlit("&proverb;");
            reveal_strlit("&quote;");
            reveal_strlit("&rare;");
            assert("&yoji;"@[1] != "&rare;"@[1]);
            reveal_strlit("&relig;");
            reveal_strlit("&sens;");
            assert("&yoji;"@[1] != "&sens;"@[1]);
            reveal_strlit("&serv;");
            assert("&yoji;"@[1] != "&serv;"@[1]);
            reveal_strlit("&ship;");
            assert("&yoji;"@[1] != "&ship;"@[1]);
            reveal_strlit("&sl;");
            reveal_strlit("&station;");
            reveal_strlit("&surname;");
            reveal_strlit("&uk;");
            reveal_strlit("&unclass;");
            reveal_strlit("&vulg;");
            assert("&yoji;"@[1] != "&vulg;"@[1]);
            reveal_strlit("&work;");
            assert("&yoji;"@[1] != "&work;"@[1]);
            reveal_strlit("&X;");
        },
    }
}

/// Parsing the entity reference of a part of speech, `&` with its name and `;`,
/// gives it back.
#[verifier::rlimit(50)]
#[verifier::spinoff_prover]
pub proof fn lemma_part_of_speech_parse_ident(x: PartOfSpeech)
    ensures
        PartOfSpeech::spec_parse("&"@ + x.spec_ident() + ";"@) == Some(x),
{
    reveal_strlit("&");
    reveal_strlit(";");
    match x {
        PartOfSpeech::AdjectiveF => {
            reveal_strlit("adj-f");
            reveal_strlit("&adj-f;");
            assert("&"@ + "adj-f"@ + ";"@ =~= "&adj-f;"@);
        },
        PartOfSpeech::AdjectiveI => {
            reveal_strlit("adj-i");
            reveal_strlit("&adj-i;");
            assert("&"@ + "adj-i"@ + ";"@ =~= "&adj-i;"@);
            reveal_strlit("&adj-f;");
            assert("&adj-i;"@[5] != "&adj-f;"@[5]);
        },
        PartOfSpeech::AdjectiveIx => {
            reveal_strlit("adj-ix");
            reveal_strlit("&adj-ix;");
            assert("&"@ + "adj-ix"@ + ";"@ =~= "&adj-ix;"@);
            reveal_strlit("&adj-f;");
            reveal_strlit("&adj-i;");
        },
        PartOfSpeech::AdjectiveKari => {
            reveal_strlit("adj-kari");
            reveal_strlit("&adj-kari;");
            assert("&"@ + "adj-kari"@ + ";"@ =~= "&adj-kari;"@);
            reveal_strlit("&adj-f;");
            reveal_strlit("&adj-i;");
            reveal_strlit("&adj-ix;");
        },
        PartOfSpeech::AdjectiveKu => {
            reveal_strlit("adj-ku");
            reveal_strlit("&adj-ku;");
            assert("&"@ + "adj-ku"@ + ";"@ =~= "&adj-ku;"@);
            reveal_strlit("&adj-f;");
            reveal_strlit("&adj-i;");
            reveal_strlit("&adj-ix;");
            assert("&adj-ku;"@[5] != "&adj-ix;"@[5]);
            reveal_strlit("&adj-kari;");
        },
        PartOfSpeech::AdjectiveNa => {
            reveal_strlit("adj-na");
            reveal_strlit("&adj-na;");
            assert("&"@ + "adj-na"@ + ";"@ =~= "&adj-na;"@);
            reveal_strlit("&adj-f;");
            reveal_strlit("&adj-i;");
            reveal_strlit("&adj-ix;");
            assert("&adj-na;"@[5] != "&adj-ix;"@[5]);
            reveal_strlit("&adj-kari;");
            reveal_strlit("&adj-ku;");
            assert("&adj-na;"@[5] != "&adj-ku;"@[5]);
        },
        PartOfSpeech::AdjectiveNari => {
            reveal_strlit("adj-nari");
            reveal_strlit("&adj-nari;");
            assert("&"@ + "adj-nari"@ + ";"@ =~= "&adj-nari;"@);
            reveal_strlit("&adj-f;");
            reveal_strlit("&adj-i;");
            reveal_strlit("&adj-ix;");
            reveal_strlit("&adj-kari;");
            assert("&adj-nari;"@[5] != "&adj-kari;"@[5]);
            reveal_strlit("&adj-ku;");
            reveal_strlit("&adj-na;");
        },
        PartOfSpeech::AdjectiveNo => {
            reveal_strlit("adj-no");
            reveal_strlit("&adj-no;");
            assert("&"@ + "adj-no"@ + ";"@ =~= "&adj-no;"@);
            reveal_strlit("&adj-f;");
            reveal_strlit("&adj-i;");
            reveal_strlit("&adj-ix;");
            assert("&adj-no;"@[5] != "&adj-ix;"@[5]);
            reveal_strlit("&adj-kari;");
            reveal_strlit("&adj-ku;");
            assert("&adj-no;"@[5] != "&adj-ku;"@[5]);
            reveal_strlit("&adj-na;");
            assert("&adj-no;"@[6] != "&adj-na;"@[6]);
            reveal_strlit("&adj-nari;");
        },
        PartOfSpeech::AdjectivePn => {
            reveal_strlit("adj-pn");
            reveal_strlit("&adj-pn;");
            assert("&"@ + "adj-pn"@ + ";"@ =~= "&adj-pn;"@);
            reveal_strlit("&adj-f;");
            reveal_strlit("&adj-i;");
            reveal_strlit("&adj-ix;");
            assert("&adj-pn;"@[5] != "&adj-ix;"@[5]);
            reveal_strlit("&adj-kari;");
            reveal_strlit("&adj-ku;");
            assert("&adj-pn;"@[5] != "&adj-ku;"@[5]);
            reveal_strlit("&adj-na;");
            assert("&adj-pn;"@[5] != "&adj-na;"@[5]);
            reveal_strlit("&adj-nari;");
            reveal_strlit("&adj-no;");
            assert("&adj-pn;"@[5] != "&adj-no;"@[5]);
        },
        PartOfSpeech::AdjectiveShiku => {
            reveal_strlit("adj-shiku");
            reveal_strlit("&adj-shiku;");
            assert("&"@ + "adj-shiku"@ + ";"@ =~= "&adj-shiku;"@);
            reveal_strlit("&adj-f;");
            reveal_strlit("&adj-i;");
            reveal_strlit("&adj-ix;");
            reveal_strlit("&adj-kari;");
            reveal_strlit("&adj-ku;");
            reveal_strlit("&adj-na;");
            reveal_strlit("&adj-nari;");
            reveal_strlit("&adj-no;");
            reveal_strlit("&adj-pn;");
        },
        PartOfSpeech::AdjectiveT => {
            reveal_strlit("adj-t");
            reveal_strlit("&adj-t;");
            assert("&"@ + "adj-t"@ + ";"@ =~= "&adj-t;"@);
            reveal_strlit("&adj-f;");
            assert("&adj-t;"@[5] != "&adj-f;"@[5]);
            reveal_strlit("&adj-i;");
            assert("&adj-t;"@[5] != "&adj-i;"@[5]);
            reveal_strlit("&adj-ix;");
            reveal_strlit("&adj-kari;");
            reveal_strlit("&adj-ku;");
            reveal_strlit("&adj-na;");
            reveal_strlit("&adj-nari;");
            reveal_strlit("&adj-no;");
            reveal_strlit("&adj-pn;");
            reveal_strlit("&adj-shiku;");
        },
        PartOfSpeech::Adverb => {
            reveal_strlit("adv");
            reveal_strlit("&adv;");
            assert("&"@ + "adv"@ + ";"@ =~= "&adv;"@);
            reveal_strlit("&adj-f;");
            reveal_strlit("&adj-i;");
            reveal_strlit("&adj-ix;");
            reveal_strlit("&adj-kari;");
            reveal_strlit("&adj-ku;");
            reveal_strlit("&adj-na;");
            reveal_strlit("&adj-nari;");
            reveal_strlit("&adj-no;");
            reveal_strlit("&adj-pn;");
            reveal_strlit("&adj-shiku;");
            reveal_strlit("&adj-t;");
        },
        PartOfSpeech::AdverbTo => {
            reveal_strlit("adv-to");
            reveal_strlit("&adv-to;");
            assert("&"@ + "adv-to"@ + ";"@ =~= "&adv-to;"@);
            reveal_strlit("&adj-f;");
            reveal_strlit("&adj-i;");
            reveal_strlit("&adj-ix;");
            assert("&adv-to;"@[3] != "&adj-ix;"@[3]);
            reveal_strlit("&adj-kari;");
            reveal_strlit("&adj-ku;");
            assert("&adv-to;"@[3] != "&adj-ku;"@[3]);
            reveal_strlit("&adj-na;");
            assert("&adv-to;"@[3] != "&adj-na;"@[3]);
            reveal_strlit("&adj-nari;");
            reveal_strlit("&adj-no;");
            assert("&adv-to;"@[3] != "&adj-no;"@[3]);
            reveal_strlit("&adj-pn;");
            assert("&adv-to;"@[3] != "&adj-pn;"@[3]);
            reveal_strlit("&adj-shiku;");
            reveal_strlit("&adj-t;");
            reveal_strlit("&adv;");
        },
        PartOfSpeech::Auxiliary => {
            reveal_strlit("aux");
            reveal_strlit("&aux;");
            assert("&"@ + "aux"@ + ";"@ =~= "&aux;"@);
            reveal_strlit("&adj-f;");
            reveal_strlit("&adj-i;");
            reveal_strlit("&adj-ix;");
            reveal_strlit("&adj-kari;");
            reveal_strlit("&adj-ku;");
            reveal_strlit("&adj-na;");
            reveal_strlit("&adj-nari;");
            reveal_strlit("&adj-no;");
            reveal_strlit("&adj-pn;");
            reveal_strlit("&adj-shiku;");
            reveal_strlit("&adj-t;");
            reveal_strlit("&adv;");
            assert("&aux;"@[2] != "&adv;"@[2]);
            reveal_strlit("&adv-to;");
        },
        PartOfSpeech::AuxiliaryAdjective => {
            reveal_strlit("aux-adj");
            reveal_strlit("&aux-adj;");
            assert("&"@ + "aux-adj"@ + ";"@ =~= "&aux-adj;"@);
            reveal_strlit("&adj-f;");
            reveal_strlit("&adj-i;");
            reveal_strlit("&adj-ix;");
            reveal_strlit("&adj-kari;");
            reveal_strlit("&adj-ku;");
            reveal_strlit("&adj-na;");
            reveal_strlit("&adj-nari;");
            reveal_strlit("&adj-no;");
            reveal_strlit("&adj-pn;");
            reveal_strlit("&adj-shiku;");
            reveal_strlit("&adj-t;");
            reveal_strlit("&adv;");
            reveal_strlit("&adv-to;");
            reveal_strlit("&aux;");
        },
        PartOfSpeech::AuxiliaryVerb => {
            reveal_strlit("aux-v");
            reveal_strlit("&aux-v;");
            assert("&"@ + "aux-v"@ + ";"@ =~= "&aux-v;"@);
            reveal_strlit("&adj-f;");
            assert("&aux-v;"@[2] != "&adj-f;"@[2]);
            reveal_strlit("&adj-i;");
            assert("&aux-v;"@[2] != "&adj-i;"@[2]);
            reveal_strlit("&adj-ix;");
            reveal_strlit("&adj-kari;");
            reveal_strlit("&adj-ku;");
            reveal_strlit("&adj-na;");
            reveal_strlit("&adj-nari;");
            reveal_strlit("&adj-no;");
            reveal_strlit("&adj-pn;");
            reveal_strlit("&adj-shiku;");
            reveal_strlit("&adj-t;");
            assert("&aux-v;"@[2] != "&adj-t;"@[2]);
            reveal_strlit("&adv;");
            reveal_strlit("&adv-to;");
            reveal_strlit("&aux;");
            reveal_strlit("&aux-adj;");
        },
        PartOfSpeech::Conjunction => {
            reveal_strlit("conj");
            reveal_strlit("&conj;");
            assert("&"@ + "conj"@ + ";"@ =~= "&conj;"@);
            reveal_strlit("&adj-f;");
            reveal_strlit("&adj-i;");
            reveal_strlit("&adj-ix;");
            reveal_strlit("&adj-kari;");
            reveal_strlit("&adj-ku;");
            reveal_strlit("&adj-na;");
            reveal_strlit("&adj-nari;");
            reveal_strlit("&adj-no;");
            reveal_strlit("&adj-pn;");
            reveal_strlit("&adj-shiku;");
            reveal_strlit("&adj-t;");
            reveal_strlit("&adv;");
            reveal_strlit("&adv-to;");
            reveal_strlit("&aux;");
            reveal_strlit("&aux-adj;");
            reveal_strlit("&aux-v;");
        },
        PartOfSpeech::Copular => {
            reveal_strlit("cop");
            reveal_strlit("&cop;");
            assert("&"@ + "cop"@ + ";"@ =~= "&cop;"@);
            reveal_strlit("&adj-f;");
            reveal_strlit("&adj-i;");
            reveal_strlit("&adj-ix;");
            reveal_strlit("&adj-kari;");
            reveal_strlit("&adj-ku;");
            reveal_strlit("&adj-na;");
            reveal_strlit("&adj-nari;");
            reveal_strlit("&adj-no;");
            reveal_strlit("&adj-pn;");
            reveal_strlit("&adj-shiku;");
            reveal_strlit("&adj-t;");
            reveal_strlit("&adv;");
            assert("&cop;"@[1] != "&adv;"@[1]);
            reveal_strlit("&adv-to;");
            reveal_strlit("&aux;");
            assert("&cop;"@[1] != "&aux;"@[1]);
            reveal_strlit("&aux-adj;");
            reveal_strlit("&aux-v;");
            reveal_strlit("&conj;");
        },
        PartOfSpeech::Counter => {
            reveal_strlit("ctr");
            reveal_strlit("&ctr;");
            assert("&"@ + "ctr"@ + ";"@ =~= "&ctr;"@);
            reveal_strlit("&adj-f;");
            reveal_strlit("&adj-i;");
            reveal_strlit("&adj-ix;");
            reveal_strlit("&adj-kari;");
            reveal_strlit("&adj-ku;");
            reveal_strlit("&adj-na;");
            reveal_strlit("&adj-nari;");
            reveal_strlit("&adj-no;");
            reveal_strlit("&adj-pn;");
            reveal_strlit("&adj-shiku;");
            reveal_strlit("&adj-t;");
            reveal_strlit("&adv;");
            assert("&ctr;"@[1] != "&adv;"@[1]);
            reveal_strlit("&adv-to;");
            reveal_strlit("&aux;");
            assert("&ctr;"@[1] != "&aux;"@[1]);
            reveal_strlit("&aux-adj;");
            reveal_strlit("&aux-v;");
            reveal_strlit("&conj;");
            reveal_strlit("&cop;");
            assert("&ctr;"@[2] != "&cop;"@[2]);
        },
        PartOfSpeech::Expression => {
            reveal_strlit("exp");
            reveal_strlit("&exp;");
            assert("&"@ + "exp"@ + ";"@ =~= "&exp;"@);
            reveal_strlit("&adj-f;");
            reveal_strlit("&adj-i;");
            reveal_strlit("&adj-ix;");
            reveal_strlit("&adj-kari;");
            reveal_strlit("&adj-ku;");
            reveal_strlit("&adj-na;");
            reveal_strlit("&adj-nari;");
            reveal_strlit("&adj-no;");
            reveal_strlit("&adj-pn;");
            reveal_strlit("&adj-shiku;");
            reveal_strlit("&adj-t;");
            reveal_strlit("&adv;");
            assert("&exp;"@[1] != "&adv;"@[1]);
            reveal_strlit("&adv-to;");
            reveal_strlit("&aux;");
            assert("&exp;"@[1] != "&aux;"@[1]);
            reveal_strlit("&aux-adj;");
            reveal_strlit("&aux-v;");
            reveal_strlit("&conj;");
            reveal_strlit("&cop;");
            assert("&exp;"@[1] != "&cop;"@[1]);
            reveal_strlit("&ctr;");
            assert("&exp;"@[1] != "&ctr;"@[1]);
        },
        PartOfSpeech::Interjection => {
            reveal_strlit("int");
            reveal_strlit("&int;");
            assert("&"@ + "int"@ + ";"@ =~= "&int;"@);
            reveal_strlit("&adj-f;");
            reveal_strlit("&adj-i;");
            reveal_strlit("&adj-ix;");
            reveal_strlit("&adj-kari;");
            reveal_strlit("&adj-ku;");
            reveal_strlit("&adj-na;");
            reveal_strlit("&adj-nari;");
            reveal_strlit("&adj-no;");
            reveal_strlit("&adj-pn;");
            reveal_strlit("&adj-shiku;");
            reveal_strlit("&adj-t;");
            reveal_strlit("&adv;");
            assert("&int;"@[1] != "&adv;"@[1]);
            reveal_strlit("&adv-to;");
            reveal_strlit("&aux;");
            assert("&int;"@[1] != "&aux;"@[1]);
            reveal_strlit("&aux-adj;");
            reveal_strlit("&aux-v;");
            reveal_strlit("&conj;");
            reveal_strlit("&cop;");
            assert("&int;"@[1] != "&cop;"@[1]);
            reveal_strlit("&ctr;");
            assert("&int;"@[1] != "&ctr;"@[1]);
            reveal_strlit("&exp;");
            assert("&int;"@[1] != "&exp;"@[1]);
        },
        PartOfSpeech::Noun => {
            reveal_strlit("n");
            reveal_strlit("&n;");
            assert("&"@ + "n"@ + ";"@ =~= "&n;"@);
            reveal_strlit("&adj-f;");
            reveal_strlit("&adj-i;");
            reveal_strlit("&adj-ix;");
            reveal_strlit("&adj-kari;");
            reveal_strlit("&adj-ku;");
            reveal_strlit("&adj-na;");
            reveal_strlit("&adj-nari;");
            reveal_strlit("&adj-no;");
            reveal_strlit("&adj-pn;");
            reveal_strlit("&adj-shiku;");
            reveal_strlit("&adj-t;");
            reveal_strlit("&adv;");
            reveal_strlit("&adv-to;");
            reveal_strlit("&aux;");
            reveal_strlit("&aux-adj;");
            reveal_strlit("&aux-v;");
            reveal_strlit("&conj;");
            reveal_strlit("&cop;");
            reveal_strlit("&ctr;");
            reveal_strlit("&exp;");
            reveal_strlit("&int;");
        },
        PartOfSpeech::NounAdverbial => {
            reveal_strlit("n-adv");
            reveal_strlit("&n-adv;");
            assert("&"@ + "n-adv"@ + ";"@ =~= "&n-adv;"@);
            reveal_strlit("&adj-f;");
            assert("&n-adv;"@[1] != "&adj-f;"@[1]);
            reveal_strlit("&adj-i;");
            assert("&n-adv;"@[1] != "&adj-i;"@[1]);
            reveal_strlit("&adj-ix;");
            reveal_strlit("&adj-kari;");
            reveal_strlit("&adj-ku;");
            reveal_strlit("&adj-na;");
            reveal_strlit("&adj-nari;");
            reveal_strlit("&adj-no;");
            reveal_strlit("&adj-pn;");
            reveal_strlit("&adj-shiku;");
            reveal_strlit("&adj-t;");
            assert("&n-adv;"@[1] != "&adj-t;"@[1]);
            reveal_strlit("&adv;");
            reveal_strlit("&adv-to;");
            reveal_strlit("&aux;");
            reveal_strlit("&aux-adj;");
            reveal_strlit("&aux-v;");
            assert("&n-adv;"@[1] != "&aux-v;"@[1]);
            reveal_strlit("&conj;");
            reveal_strlit("&cop;");
            reveal_strlit("&ctr;");
            reveal_strlit("&exp;");
            reveal_strlit("&int;");
            reveal_strlit("&n;");
        },
        PartOfSpeech::NounProper => {
            reveal_strlit("n-pr");
            reveal_strlit("&n-pr;");
            assert("&"@ + "n-pr"@ + ";"@ =~= "&n-pr;"@);
            reveal_strlit("&adj-f;");
            reveal_strlit("&adj-i;");
            reveal_strlit("&adj-ix;");
            reveal_strlit("&adj-kari;");
            reveal_strlit("&adj-ku;");
            reveal_strlit("&adj-na;");
            reveal_strlit("&adj-nari;");
            reveal_strlit("&adj-no;");
            reveal_strlit("&adj-pn;");
            reveal_strlit("&adj-shiku;");
            reveal_strlit("&adj-t;");
            reveal_strlit("&adv;");
            reveal_strlit("&adv-to;");
            reveal_strlit("&aux;");
            reveal_strlit("&aux-adj;");
            reveal_strlit("&aux-v;");
            reveal_strlit("&conj;");
            assert("&n-pr;"@[1] != "&conj;"@[1]);
            reveal_strlit("&cop;");
            reveal_strlit("&ctr;");
            reveal_strlit("&exp;");
            reveal_strlit("&int;");
            reveal_strlit("&n;");
            reveal_strlit("&n-adv;");
        },
        PartOfSpeech::NounPrefix => {
            reveal_strlit("n-pref");
            reveal_strlit("&n-pref;");
            assert("&"@ + "n-pref"@ + ";"@ =~= "&n-pref;"@);
            reveal_strlit("&adj-f;");
            reveal_strlit("&adj-i;");
            reveal_strlit("&adj-ix;");
            assert("&n-pref;"@[1] != "&adj-ix;"@[1]);
            reveal_strlit("&adj-kari;");
            reveal_strlit("&adj-ku;");
            assert("&n-pref;"@[1] != "&adj-ku;"@[1]);
            reveal_strlit("&adj-na;");
            assert("&n-pref;"@[1] != "&adj-na;"@[1]);
            reveal_strlit("&adj-nari;");
            reveal_strlit("&adj-no;");
            assert("&n-pref;"@[1] != "&adj-no;"@[1]);
            reveal_strlit("&adj-pn;");
            assert("&n-pref;"@[1] != "&adj-pn;"@[1]);
            reveal_strlit("&adj-shiku;");
            reveal_strlit("&adj-t;");
            reveal_strlit("&adv;");
            reveal_strlit("&adv-to;");
            assert("&n-pref;"@[1] != "&adv-to;"@[1]);
            reveal_strlit("&aux;");
            reveal_strlit("&aux-adj;");
            reveal_strlit("&aux-v;");
            reveal_strlit("&conj;");
            reveal_strlit("&cop;");
            reveal_strlit("&ctr;");
            reveal_strlit("&exp;");
            reveal_strlit("&int;");
            reveal_strlit("&n;");
            reveal_strlit("&n-adv;");
            reveal_strlit("&n-pr;");
        },
        PartOfSpeech::NounSuffix => {
            reveal_strlit("n-suf");
            reveal_strlit("&n-suf;");
            assert("&"@ + "n-suf"@ + ";"@ =~= "&n-suf;"@);
            reveal_strlit("&adj-f;");
            assert("&n-suf;"@[1] != "&adj-f;"@[1]);
            reveal_strlit("&adj-i;");
            assert("&n-suf;"@[1] != "&adj-i;"@[1]);
            reveal_strlit("&adj-ix;");
            reveal_strlit("&adj-kari;");
            reveal_strlit("&adj-ku;");
            reveal_strlit("&adj-na;");
            reveal_strlit("&adj-nari;");
            reveal_strlit("&adj-no;");
            reveal_strlit("&adj-pn;");
            reveal_strlit("&adj-shiku;");
            reveal_strlit("&adj-t;");
            assert("&n-suf;"@[1] != "&adj-t;"@[1]);
            reveal_strlit("&adv;");
            reveal_strlit("&adv-to;");
            reveal_strlit("&aux;");
            reveal_strlit("&aux-adj;");
            reveal_strlit("&aux-v;");
            assert("&n-suf;"@[1] != "&aux-v;"@[1]);
            reveal_strlit("&conj;");
            reveal_strlit("&cop;");
            reveal_strlit("&ctr;");
            reveal_strlit("&exp;");
            reveal_strlit("&int;");
            reveal_strlit("&n;");
            reveal_strlit("&n-adv;");
            assert("&n-suf;"@[3] != "&n-adv;"@[3]);
            reveal_strlit("&n-pr;");
            reveal_strlit("&n-pref;");
        },
        PartOfSpeech::NounTemporal => {
            reveal_strlit("n-t");
            reveal_strlit("&n-t;");
            assert("&"@ + "n-t"@ + ";"@ =~= "&n-t;"@);
            reveal_strlit("&adj-f;");
            reveal_strlit("&adj-i;");
            reveal_strlit("&adj-ix;");
            reveal_strlit("&adj-kari;");
            reveal_strlit("&adj-ku;");
            reveal_strlit("&adj-na;");
            reveal_strlit("&adj-nari;");
            reveal_strlit("&adj-no;");
            reveal_strlit("&adj-pn;");
            reveal_strlit("&adj-shiku;");
            reveal_strlit("&adj-t;");
            reveal_strlit("&adv;");
            assert("&n-t;"@[1] != "&adv;"@[1]);
            reveal_strlit("&adv-to;");
            reveal_strlit("&aux;");
            assert("&n-t;"@[1] != "&aux;"@[1]);
            reveal_strlit("&aux-adj;");
            reveal_strlit("&aux-v;");
            reveal_strlit("&conj;");
            reveal_strlit("&cop;");
            assert("&n-t;"@[1] != "&cop;"@[1]);
            reveal_strlit("&ctr;");
            assert("&n-t;"@[1] != "&ctr;"@[1]);
            reveal_strlit("&exp;");
            assert("&n-t;"@[1] != "&exp;"@[1]);
            reveal_strlit("&int;");
            assert("&n-t;"@[1] != "&int;"@[1]);
            reveal_strlit("&n;");
            reveal_strlit("&n-adv;");
            reveal_strlit("&n-pr;");
            reveal_strlit("&n-pref;");
            reveal_strlit("&n-suf;");
        },
        PartOfSpeech::Numeric => {
            reveal_strlit("num");
            reveal_strlit("&num;");
            assert("&"@ + "num"@ + ";"@ =~= "&num;"@);
            reveal_strlit("&adj-f;");
            reveal_strlit("&adj-i;");
            reveal_strlit("&adj-ix;");
            reveal_strlit("&adj-kari;");
            reveal_strlit("&adj-ku;");
            reveal_strlit("&adj-na;");
            reveal_strlit("&adj-nari;");
            reveal_strlit("&adj-no;");
            reveal_strlit("&adj-pn;");
            reveal_strlit("&adj-shiku;");
            reveal_strlit("&adj-t;");
            reveal_strlit("&adv;");
            assert("&num;"@[1] != "&adv;"@[1]);
            reveal_strlit("&adv-to;");
            reveal_strlit("&aux;");
            assert("&num;"@[1] != "&aux;"@[1]);
            reveal_strlit("&aux-adj;");
            reveal_strlit("&aux-v;");
            reveal_strlit("&conj;");
            reveal_strlit("&cop;");
            assert("&num;"@[1] != "&cop;"@[1]);
            reveal_strlit("&ctr;");
            assert("&num;"@[1] != "&ctr;"@[1]);
            reveal_strlit("&exp;");
            assert("&num;"@[1] != "&exp;"@[1]);
            reveal_strlit("&int;");
            assert("&num;"@[1] != "&int;"@[1]);
            reveal_strlit("&n;");
            reveal_strlit("&n-adv;");
            reveal_strlit("&n-pr;");
            reveal_strlit("&n-pref;");
            reveal_strlit("&n-suf;");
            reveal_strlit("&n-t;");
            assert("&num;"@[2] != "&n-t;"@[2]);
        },
        PartOfSpeech::Pronoun => {
            reveal_strlit("pn");
            reveal_strlit("&pn;");
            assert("&"@ + "pn"@ + ";"@ =~= "&pn;"@);
            reveal_strlit("&adj-f;");
            reveal_strlit("&adj-i;");
            reveal_strlit("&adj-ix;");
            reveal_strlit("&adj-kari;");
            reveal_strlit("&adj-ku;");
            reveal_strlit("&adj-na;");
            reveal_strlit("&adj-nari;");
            reveal_strlit("&adj-no;");
            reveal_strlit("&adj-pn;");
            reveal_strlit("&adj-shiku;");
            reveal_strlit("&adj-t;");
            reveal_strlit("&adv;");
            reveal_strlit("&adv-to;");
            reveal_strlit("&aux;");
            reveal_strlit("&aux-adj;");
            reveal_strlit("&aux-v;");
            reveal_strlit("&conj;");
            reveal_strlit("&cop;");
            reveal_strlit("&ctr;");
            reveal_strlit("&exp;");
            reveal_strlit("&int;");
            reveal_strlit("&n;");
            reveal_strlit("&n-adv;");
            reveal_strlit("&n-pr;");
            reveal_strlit("&n-pref;");
            reveal_strlit("&n-suf;");
            reveal_strlit("&n-t;");
            reveal_strlit("&num;");
        },
        PartOfSpeech::Prefix => {
            reveal_strlit("pref");
            reveal_strlit("&pref;");
            assert("&"@ + "pref"@ + ";"@ =~= "&pref;"@);
            reveal_strlit("&adj-f;");
            reveal_strlit("&adj-i;");
            reveal_strlit("&adj-ix;");
            reveal_strlit("&adj-kari;");
            reveal_strlit("&adj-ku;");
            reveal_strlit("&adj-na;");
            reveal_strlit("&adj-nari;");
            reveal_strlit("&adj-no;");
            reveal_strlit("&adj-pn;");
            reveal_strlit("&adj-shiku;");
            reveal_strlit("&adj-t;");
            reveal_strlit("&adv;");
            reveal_strlit("&adv-to;");
            reveal_strlit("&aux;");
            reveal_strlit("&aux-adj;");
            reveal_strlit("&aux-v;");
            reveal_strlit("&conj;");
            assert("&pref;"@[1] != "&conj;"@[1]);
            reveal_strlit("&cop;");
            reveal_strlit("&ctr;");
            reveal_strlit("&exp;");
            reveal_strlit("&int;");
            reveal_strlit("&n;");
            reveal_strlit("&n-adv;");
            reveal_strlit("&n-pr;");
            assert("&pref;"@[1] != "&n-pr;"@[1]);
            reveal_strlit("&n-pref;");
            reveal_strlit("&n-suf;");
            reveal_strlit("&n-t;");
            reveal_strlit("&num;");
            reveal_strlit("&pn;");
        },
        PartOfSpeech::Particle => {
            reveal_strlit("prt");
            reveal_strlit("&prt;");
            assert("&"@ + "prt"@ + ";"@ =~= "&prt;"@);
            reveal_strlit("&adj-f;");
            reveal_strlit("&adj-i;");
            reveal_strlit("&adj-ix;");
            reveal_strlit("&adj-kari;");
            reveal_strlit("&adj-ku;");
            reveal_strlit("&adj-na;");
            reveal_strlit("&adj-nari;");
            reveal_strlit("&adj-no;");
            reveal_strlit("&adj-pn;");
            reveal_strlit("&adj-shiku;");
            reveal_strlit("&adj-t;");
            reveal_strlit("&adv;");
            assert("&prt;"@[1] != "&adv;"@[1]);
            reveal_strlit("&adv-to;");
            reveal_strlit("&aux;");
            assert("&prt;"@[1] != "&aux;"@[1]);
            reveal_strlit("&aux-adj;");
            reveal_strlit("&aux-v;");
            reveal_strlit("&conj;");
            reveal_strlit("&cop;");
            assert("&prt;"@[1] != "&cop;"@[1]);
            reveal_strlit("&ctr;");
            assert("&prt;"@[1] != "&ctr;"@[1]);
            reveal_strlit("&exp;");
            assert("&prt;"@[1] != "&exp;"@[1]);
            reveal_strlit("&int;");
            assert("&prt;"@[1] != "&int;"@[1]);
            reveal_strlit("&n;");
            reveal_strlit("&n-adv;");
            reveal_strlit("&n-pr;");
            reveal_strlit("&n-pref;");
            reveal_strlit("&n-suf;");
            reveal_strlit("&n-t;");
            assert("&prt;"@[1] != "&n-t;"@[1]);
            reveal_strlit("&num;");
            assert("&prt;"@[1] != "&num;"@[1]);
            reveal_strlit("&pn;");
            reveal_strlit("&pref;");
        },
        PartOfSpeech::Suffix => {
            reveal_strlit("suf");
            reveal_strlit("&suf;");
            assert("&"@ + "suf"@ + ";"@ =~= "&suf;"@);
            reveal_strlit("&adj-f;");
            reveal_strlit("&adj-i;");
            reveal_strlit("&adj-ix;");
            reveal_strlit("&adj-kari;");
            reveal_strlit("&adj-ku;");
            reveal_strlit("&adj-na;");
            reveal_strlit("&adj-nari;");
            reveal_strlit("&adj-no;");
            reveal_strlit("&adj-pn;");
            reveal_strlit("&adj-shiku;");
            reveal_strlit("&adj-t;");
            reveal_strlit("&adv;");
            assert("&suf;"@[1] != "&adv;"@[1]);
            reveal_strlit("&adv-to;");
            reveal_strlit("&aux;");
            assert("&suf;"@[1] != "&aux;"@[1]);
            reveal_strlit("&aux-adj;");
            reveal_strlit("&aux-v;");
            reveal_strlit("&conj;");
            reveal_strlit("&cop;");
            assert("&suf;"@[1] != "&cop;"@[1]);
            reveal_strlit("&ctr;");
            assert("&suf;"@[1] != "&ctr;"@[1]);
            reveal_strlit("&exp;");
            assert("&suf;"@[1] != "&exp;"@[1]);
            reveal_strlit("&int;");
            assert("&suf;"@[1] != "&int;"@[1]);
            reveal_strlit("&n;");
            reveal_strlit("&n-adv;");
            reveal_strlit("&n-pr;");
            reveal_strlit("&n-pref;");
            reveal_strlit("&n-suf;");
            reveal_strlit("&n-t;");
            assert("&suf;"@[1] != "&n-t;"@[1]);
            reveal_strlit("&num;");
            assert("&suf;"@[1] != "&num;"@[1]);
            reveal_strlit("&pn;");
            reveal_strlit("&pref;");
            reveal_strlit("&prt;");
            assert("&suf;"@[1] != "&prt;"@[1]);
        },
        PartOfSpeech::Unclassified => {
            reveal_strlit("unc");
            reveal_strlit("&unc;");
            assert("&"@ + "unc"@ + ";"@ =~= "&unc;"@);
            reveal_strlit("&adj-f;");
            reveal_strlit("&adj-i;");
            reveal_strlit("&adj-ix;");
            reveal_strlit("&adj-kari;");
            reveal_strlit("&adj-ku;");
            reveal_strlit("&adj-na;");
            reveal_strlit("&adj-nari;");
            reveal_strlit("&adj-no;");
            reveal_strlit("&adj-pn;");
            reveal_strlit("&adj-shiku;");
            reveal_strlit("&adj-t;");
            reveal_strlit("&adv;");
            assert("&unc;"@[1] != "&adv;"@[1]);
            reveal_strlit("&adv-to;");
            reveal_strlit("&aux;");
            assert("&unc;"@[1] != "&aux;"@[1]);
            reveal_strlit("&aux-adj;");
            reveal_strlit("&aux-v;");
            reveal_strlit("&conj;");
            reveal_strlit("&cop;");
            assert("&unc;"@[1] != "&cop;"@[1]);
            reveal_strlit("&ctr;");
            assert("&unc;"@[1] != "&ctr;"@[1]);
            reveal_strlit("&exp;");
            assert("&unc;"@[1] != "&exp;"@[1]);
            reveal_strlit("&int;");
            assert("&unc;"@[1] != "&int;"@[1]);
            reveal_strlit("&n;");
            reveal_strlit("&n-adv;");
            reveal_strlit("&n-pr;");
            reveal_strlit("&n-pref;");
            reveal_strlit("&n-suf;");
            reveal_strlit("&n-t;");
            assert("&unc;"@[1] != "&n-t;"@[1]);
            reveal_strlit("&num;");
            assert("&unc;"@[1] != "&num;"@[1]);
            reveal_strlit("&pn;");
            reveal_strlit("&pref;");
            reveal_strlit("&prt;");
            assert("&unc;"@[1] != "&prt;"@[1]);
            reveal_strlit("&suf;");
            assert("&unc;"@[1] != "&suf;"@[1]);
        },
        PartOfSpeech::VerbUnspecified => {
            reveal_strlit("v-unspec");
            reveal_strlit("&v-unspec;");
            assert("&"@ + "v-unspec"@ + ";"@ =~= "&v-unspec;"@);
            reveal_strlit("&adj-f;");
            reveal_strlit("&adj-i;");
            reveal_strlit("&adj-ix;");
            reveal_strlit("&adj-kari;");
            assert("&v-unspec;"@[1] != "&adj-kari;"@[1]);
            reveal_strlit("&adj-ku;");
            reveal_strlit("&adj-na;");
            reveal_strlit("&adj-nari;");
            assert("&v-unspec;"@[1] != "&adj-nari;"@[1]);
            reveal_strlit("&adj-no;");
            reveal_strlit("&adj-pn;");
            reveal_strlit("&adj-shiku;");
            reveal_strlit("&adj-t;");
            reveal_strlit("&adv;");
            reveal_strlit("&adv-to;");
            reveal_strlit("&aux;");
            reveal_strlit("&aux-adj;");
            reveal_strlit("&aux-v;");
            reveal_strlit("&conj;");
            reveal_strlit("&cop;");
            reveal_strlit("&ctr;");
            reveal_strlit("&exp;");
            reveal_strlit("&int;");
            reveal_strlit("&n;");
            reveal_strlit("&n-adv;");
            reveal_strlit("&n-pr;");
            reveal_strlit("&n-pref;");
            reveal_strlit("&n-suf;");
            reveal_strlit("&n-t;");
            reveal_strlit("&num;");
            reveal_strlit("&pn;");
            reveal_strlit("&pref;");
            reveal_strlit("&prt;");
            reveal_strlit("&suf;");
            reveal_strlit("&unc;");
        },
        PartOfSpeech::VerbIchidan => {
            reveal_strlit("v1");
            reveal_strlit("&v1;");
            assert("&"@ + "v1"@ + ";"@ =~= "&v1;"@);
            reveal_strlit("&adj-f;");
            reveal_strlit("&adj-i;");
            reveal_strlit("&adj-ix;");
            reveal_strlit("&adj-kari;");
            reveal_strlit("&adj-ku;");
            reveal_strlit("&adj-na;");
            reveal_strlit("&adj-nari;");
            reveal_strlit("&adj-no;");
            reveal_strlit("&adj-pn;");
            reveal_strlit("&adj-shiku;");
            reveal_strlit("&adj-t;");
            reveal_strlit("&adv;");
            reveal_strlit("&adv-to;");
            reveal_strlit("&aux;");
            reveal_strlit("&aux-adj;");
            reveal_strlit("&aux-v;");
            reveal_strlit("&conj;");
            reveal_strlit("&cop;");
            reveal_strlit("&ctr;");
            reveal_strlit("&exp;");
            reveal_strlit("&int;");
            reveal_strlit("&n;");
            reveal_strlit("&n-adv;");
            reveal_strlit("&n-pr;");
            reveal_strlit("&n-pref;");
            reveal_strlit("&n-suf;");
            reveal_strlit("&n-t;");
            reveal_strlit("&num;");
            reveal_strlit("&pn;");
            assert("&v1;"@[1] != "&pn;"@[1]);
            reveal_strlit("&pref;");
            reveal_strlit("&prt;");
            reveal_strlit("&suf;");
            reveal_strlit("&unc;");
            reveal_strlit("&v-unspec;");
        },
        PartOfSpeech::VerbIchidanS => {
            reveal_strlit("v1-s");
            reveal_strlit("&v1-s;");
            assert("&"@ + "v1-s"@ + ";"@ =~= "&v1-s;"@);
            reveal_strlit("&adj-f;");
            reveal_strlit("&adj-i;");
            reveal_strlit("&adj-ix;");
            reveal_strlit("&adj-kari;");
            reveal_strlit("&adj-ku;");
            reveal_strlit("&adj-na;");
            reveal_strlit("&adj-nari;");
            reveal_strlit("&adj-no;");
            reveal_strlit("&adj-pn;");
            reveal_strlit("&adj-shiku;");
            reveal_strlit("&adj-t;");
            reveal_strlit("&adv;");
            reveal_strlit("&adv-to;");
            reveal_strlit("&aux;");
            reveal_strlit("&aux-adj;");
            reveal_strlit("&aux-v;");
            reveal_strlit("&conj;");
            assert("&v1-s;"@[1] != "&conj;"@[1]);
            reveal_strlit("&cop;");
            reveal_strlit("&ctr;");
            reveal_strlit("&exp;");
            reveal_strlit("&int;");
            reveal_strlit("&n;");
            reveal_strlit("&n-adv;");
            reveal_strlit("&n-pr;");
            assert("&v1-s;"@[1] != "&n-pr;"@[1]);
            reveal_strlit("&n-pref;");
            reveal_strlit("&n-suf;");
            reveal_strlit("&n-t;");
            reveal_strlit("&num;");
            reveal_strlit("&pn;");
            reveal_strlit("&pref;");
            assert("&v1-s;"@[1] != "&pref;"@[1]);
            reveal_strlit("&prt;");
            reveal_strlit("&suf;");
            reveal_strlit("&unc;");
            reveal_strlit("&v-unspec;");
            reveal_strlit("&v1;");
        },
        PartOfSpeech::VerbNidanAS => {
            reveal_strlit("v2a-s");
            reveal_strlit("&v2a-s;");
            assert("&"@ + "v2a-s"@ + ";"@ =~= "&v2a-s;"@);
            reveal_strlit("&adj-f;");
            assert("&v2a-s;"@[1] != "&adj-f;"@[1]);
            reveal_strlit("&adj-i;");
            assert("&v2a-s;"@[1] != "&adj-i;"@[1]);
            reveal_strlit("&adj-ix;");
            reveal_strlit("&adj-kari;");
            reveal_strlit("&adj-ku;");
            reveal_strlit("&adj-na;");
            reveal_strlit("&adj-nari;");
            reveal_strlit("&adj-no;");
            reveal_strlit("&adj-pn;");
            reveal_strlit("&adj-shiku;");
            reveal_strlit("&adj-t;");
            assert("&v2a-s;"@[1] != "&adj-t;"@[1]);
            reveal_strlit("&adv;");
            reveal_strlit("&adv-to;");
            reveal_strlit("&aux;");
            reveal_strlit("&aux-adj;");
            reveal_strlit("&aux-v;");
            assert("&v2a-s;"@[1] != "&aux-v;"@[1]);
            reveal_strlit("&conj;");
            reveal_strlit("&cop;");
            reveal_strlit("&ctr;");
            reveal_strlit("&exp;");
            reveal_strlit("&int;");
            reveal_strlit("&n;");
            reveal_strlit("&n-adv;");
            assert("&v2a-s;"@[1] != "&n-adv;"@[1]);
            reveal_strlit("&n-pr;");
            reveal_strlit("&n-pref;");
            reveal_strlit("&n-suf;");
            assert("&v2a-s;"@[1] != "&n-suf;"@[1]);
            reveal_strlit("&n-t;");
            reveal_strlit("&num;");
            reveal_strlit("&pn;");
            reveal_strlit("&pref;");
            reveal_strlit("&prt;");
            reveal_strlit("&suf;");
            reveal_strlit("&unc;");
            reveal_strlit("&v-unspec;");
            reveal_strlit("&v1;");
            reveal_strlit("&v1-s;");
        },
        PartOfSpeech::VerbNidanBK => {
            reveal_strlit("v2b-k");
            reveal_strlit("&v2b-k;");
            assert("&"@ + "v2b-k"@ + ";"@ =~= "&v2b-k;"@);
            reveal_strlit("&adj-f;");
            assert("&v2b-k;"@[1] != "&adj-f;"@[1]);
            reveal_strlit("&adj-i;");
            assert("&v2b-k;"@[1] != "&adj-i;"@[1]);
            reveal_strlit("&adj-ix;");
            reveal_strlit("&adj-kari;");
            reveal_strlit("&adj-ku;");
            reveal_strlit("&adj-na;");
            reveal_strlit("&adj-nari;");
            reveal_strlit("&adj-no;");
            reveal_strlit("&adj-pn;");
            reveal_strlit("&adj-shiku;");
            reveal_strlit("&adj-t;");
            assert("&v2b-k;"@[1] != "&adj-t;"@[1]);
            reveal_strlit("&adv;");
            reveal_strlit("&adv-to;");
            reveal_strlit("&aux;");
            reveal_strlit("&aux-adj;");
            reveal_strlit("&aux-v;");
            assert("&v2b-k;"@[1] != "&aux-v;"@[1]);
            reveal_strlit("&conj;");
            reveal_strlit("&cop;");
            reveal_strlit("&ctr;");
            reveal_strlit("&exp;");
            reveal_strlit("&int;");
            reveal_strlit("&n;");
            reveal_strlit("&n-adv;");
            assert("&v2b-k;"@[1] != "&n-adv;"@[1]);
            reveal_strlit("&n-pr;");
            reveal_strlit("&n-pref;");
            reveal_strlit("&n-suf;");
            assert("&v2b-k;"@[1] != "&n-suf;"@[1]);
            reveal_strlit("&n-t;");
            reveal_strlit("&num;");
            reveal_strlit("&pn;");
            reveal_strlit("&pref;");
            reveal_strlit("&prt;");
            reveal_strlit("&suf;");
            reveal_strlit("&unc;");
            reveal_strlit("&v-unspec;");
            reveal_strlit("&v1;");
            reveal_strlit("&v1-s;");
            reveal_strlit("&v2a-s;");
            assert("&v2b-k;"@[3] != "&v2a-s;"@[3]);
        },
        PartOfSpeech::VerbNidanBS => {
            reveal_strlit("v2b-s");
            reveal_strlit("&v2b-s;");
            assert("&"@ + "v2b-s"@ + ";"@ =~= "&v2b-s;"@);
            reveal_strlit("&adj-f;");
            assert("&v2b-s;"@[1] != "&adj-f;"@[1]);
            reveal_strlit("&adj-i;");
            assert("&v2b-s;"@[1] != "&adj-i;"@[1]);
            reveal_strlit("&adj-ix;");
            reveal_strlit("&adj-kari;");
            reveal_strlit("&adj-ku;");
            reveal_strlit("&adj-na;");
            reveal_strlit("&adj-nari;");
            reveal_strlit("&adj-no;");
            reveal_strlit("&adj-pn;");
            reveal_strlit("&adj-shiku;");
            reveal_strlit("&adj-t;");
            assert("&v2b-s;"@[1] != "&adj-t;"@[1]);
            reveal_strlit("&adv;");
            reveal_strlit("&adv-to;");
            reveal_strlit("&aux;");
            reveal_strlit("&aux-adj;");
            reveal_strlit("&aux-v;");
            assert("&v2b-s;"@[1] != "&aux-v;"@[1]);
            reveal_strlit("&conj;");
            reveal_strlit("&cop;");
            reveal_strlit("&ctr;");
            reveal_strlit("&exp;");
            reveal_strlit("&int;");
            reveal_strlit("&n;");
            reveal_strlit("&n-adv;");
            assert("&v2b-s;"@[1] != "&n-adv;"@[1]);
            reveal_strlit("&n-pr;");
            reveal_strlit("&n-pref;");
            reveal_strlit("&n-suf;");
            assert("&v2b-s;"@[1] != "&n-suf;"@[1]);
            reveal_strlit("&n-t;");
            reveal_strlit("&num;");
            reveal_strlit("&pn;");
            reveal_strlit("&pref;");
            reveal_strlit("&prt;");
            reveal_strlit("&suf;");
            reveal_strlit("&unc;");
            reveal_strlit("&v-unspec;");
            reveal_strlit("&v1;");
            reveal_strlit("&v1-s;");
            reveal_strlit("&v2a-s;");
            assert("&v2b-s;"@[3] != "&v2a-s;"@[3]);
            reveal_strlit("&v2b-k;");
            assert("&v2b-s;"@[5] != "&v2b-k;"@[5]);
        },
        PartOfSpeech::VerbNidanDK => {
            reveal_strlit("v2d-k");
            reveal_strlit("&v2d-k;");
            assert("&"@ + "v2d-k"@ + ";"@ =~= "&v2d-k;"@);
            reveal_strlit("&adj-f;");
            assert("&v2d-k;"@[1] != "&adj-f;"@[1]);
            reveal_strlit("&adj-i;");
            assert("&v2d-k;"@[1] != "&adj-i;"@[1]);
            reveal_strlit("&adj-ix;");
            reveal_strlit("&adj-kari;");
            reveal_strlit("&adj-ku;");
            reveal_strlit("&adj-na;");
            reveal_strlit("&adj-nari;");
            reveal_strlit("&adj-no;");
            reveal_strlit("&adj-pn;");
            reveal_strlit("&adj-shiku;");
            reveal_strlit("&adj-t;");
            assert("&v2d-k;"@[1] != "&adj-t;"@[1]);
            reveal_strlit("&adv;");
            reveal_strlit("&adv-to;");
            reveal_strlit("&aux;");
            reveal_strlit("&aux-adj;");
            reveal_strlit("&aux-v;");
            assert("&v2d-k;"@[1] != "&aux-v;"@[1]);
            reveal_strlit("&conj;");
            reveal_strlit("&cop;");
            reveal_strlit("&ctr;");
            reveal_strlit("&exp;");
            reveal_strlit("&int;");
            reveal_strlit("&n;");
            reveal_strlit("&n-adv;");
            assert("&v2d-k;"@[1] != "&n-adv;"@[1]);
            reveal_strlit("&n-pr;");
            reveal_strlit("&n-pref;");
            reveal_strlit("&n-suf;");
            assert("&v2d-k;"@[1] != "&n-suf;"@[1]);
            reveal_strlit("&n-t;");
            reveal_strlit("&num;");
            reveal_strlit("&pn;");
            reveal_strlit("&pref;");
            reveal_strlit("&prt;");
            reveal_strlit("&suf;");
            reveal_strlit("&unc;");
            reveal_strlit("&v-unspec;");
            reveal_strlit("&v1;");
            reveal_strlit("&v1-s;");
            reveal_strlit("&v2a-s;");
            assert("&v2d-k;"@[3] != "&v2a-s;"@[3]);
            reveal_strlit("&v2b-k;");
            assert("&v2d-k;"@[3] != "&v2b-k;"@[3]);
            reveal_strlit("&v2b-s;");
            assert("&v2d-k;"@[3] != "&v2b-s;"@[3]);
        },
        PartOfSpeech::VerbNidanDS => {
            reveal_strlit("v2d-s");
            reveal_strlit("&v2d-s;");
            assert("&"@ + "v2d-s"@ + ";"@ =~= "&v2d-s;"@);
            reveal_strlit("&adj-f;");
            assert("&v2d-s;"@[1] != "&adj-f;"@[1]);
            reveal_strlit("&adj-i;");
            assert("&v2d-s;"@[1] != "&adj-i;"@[1]);
            reveal_strlit("&adj-ix;");
            reveal_strlit("&adj-kari;");
            reveal_strlit("&adj-ku;");
            reveal_strlit("&adj-na;");
            reveal_strlit("&adj-nari;");
            reveal_strlit("&adj-no;");
            reveal_strlit("&adj-pn;");
            reveal_strlit("&adj-shiku;");
            reveal_strlit("&adj-t;");
            assert("&v2d-s;"@[1] != "&adj-t;"@[1]);
            reveal_strlit("&adv;");
            reveal_strlit("&adv-to;");
            reveal_strlit("&aux;");
            reveal_strlit("&aux-adj;");
            reveal_strlit("&aux-v;");
            assert("&v2d-s;"@[1] != "&aux-v;"@[1]);
            reveal_strlit("&conj;");
            reveal_strlit("&cop;");
            reveal_strlit("&ctr;");
            reveal_strlit("&exp;");
            reveal_strlit("&int;");
            reveal_strlit("&n;");
            reveal_strlit("&n-adv;");
            assert("&v2d-s;"@[1] != "&n-adv;"@[1]);
            reveal_strlit("&n-pr;");
            reveal_strlit("&n-pref;");
            reveal_strlit("&n-suf;");
            assert("&v2d-s;"@[1] != "&n-suf;"@[1]);
            reveal_strlit("&n-t;");
            reveal_strlit("&num;");
            reveal_strlit("&pn;");
            reveal_strlit("&pref;");
            reveal_strlit("&prt;");
            reveal_strlit("&suf;");
            reveal_strlit("&unc;");
            reveal_strlit("&v-unspec;");
            reveal_strlit("&v1;");
            reveal_strlit("&v1-s;");
            reveal_strlit("&v2a-s;");
            assert("&v2d-s;"@[3] != "&v2a-s;"@[3]);
            reveal_strlit("&v2b-k;");
            assert("&v2d-s;"@[3] != "&v2b-k;"@[3]);
            reveal_strlit("&v2b-s;");
            assert("&v2d-s;"@[3] != "&v2b-s;"@[3]);
            reveal_strlit("&v2d-k;");
            assert("&v2d-s;"@[5] != "&v2d-k;"@[5]);
        },
        PartOfSpeech::VerbNidanGK => {
            reveal_strlit("v2g-k");
            reveal_strlit("&v2g-k;");
            assert("&"@ + "v2g-k"@ + ";"@ =~= "&v2g-k;"@);
            reveal_strlit("&adj-f;");
            assert("&v2g-k;"@[1] != "&adj-f;"@[1]);
            reveal_strlit("&adj-i;");
            assert("&v2g-k;"@[1] != "&adj-i;"@[1]);
            reveal_strlit("&adj-ix;");
            reveal_strlit("&adj-kari;");
            reveal_strlit("&adj-ku;");
            reveal_strlit("&adj-na;");
            reveal_strlit("&adj-nari;");
            reveal_strlit("&adj-no;");
            reveal_strlit("&adj-pn;");
            reveal_strlit("&adj-shiku;");
            reveal_strlit("&adj-t;");
            assert("&v2g-k;"@[1] != "&adj-t;"@[1]);
            reveal_strlit("&adv;");
            reveal_strlit("&adv-to;");
            reveal_strlit("&aux;");
            reveal_strlit("&aux-adj;");
            reveal_strlit("&aux-v;");
            assert("&v2g-k;"@[1] != "&aux-v;"@[1]);
            reveal_strlit("&conj;");
            reveal_strlit("&cop;");
            reveal_strlit("&ctr;");
            reveal_strlit("&exp;");
            reveal_strlit("&int;");
            reveal_strlit("&n;");
            reveal_strlit("&n-adv;");
            assert("&v2g-k;"@[1] != "&n-adv;"@[1]);
            reveal_strlit("&n-pr;");
            reveal_strlit("&n-pref;");
            reveal_strlit("&n-suf;");
            assert("&v2g-k;"@[1] != "&n-suf;"@[1]);
            reveal_strlit("&n-t;");
            reveal_strlit("&num;");
            reveal_strlit("&pn;");
            reveal_strlit("&pref;");
            reveal_strlit("&prt;");
            reveal_strlit("&suf;");
            reveal_strlit("&unc;");
            reveal_strlit("&v-unspec;");
            reveal_strlit("&v1;");
            reveal_strlit("&v1-s;");
            reveal_strlit("&v2a-s;");
            assert("&v2g-k;"@[3] != "&v2a-s;"@[3]);
            reveal_strlit("&v2b-k;");
            assert("&v2g-k;"@[3] != "&v2b-k;"@[3]);
            reveal_strlit("&v2b-s;");
            assert("&v2g-k;"@[3] != "&v2b-s;"@[3]);
            reveal_strlit("&v2d-k;");
            assert("&v2g-k;"@[3] != "&v2d-k;"@[3]);
            reveal_strlit("&v2d-s;");
            assert("&v2g-k;"@[3] != "&v2d-s;"@[3]);
        },
        PartOfSpeech::VerbNidanGS => {
            reveal_strlit("v2g-s");
            reveal_strlit("&v2g-s;");
            assert("&"@ + "v2g-s"@ + ";"@ =~= "&v2g-s;"@);
            reveal_strlit("&adj-f;");
            assert("&v2g-s;"@[1] != "&adj-f;"@[1]);
            reveal_strlit("&adj-i;");
            assert("&v2g-s;"@[1] != "&adj-i;"@[1]);
            reveal_strlit("&adj-ix;");
            reveal_strlit("&adj-kari;");
            reveal_strlit("&adj-ku;");
            reveal_strlit("&adj-na;");
            reveal_strlit("&adj-nari;");
            reveal_strlit("&adj-no;");
            reveal_strlit("&adj-pn;");
            reveal_strlit("&adj-shiku;");
            reveal_strlit("&adj-t;");
            assert("&v2g-s;"@[1] != "&adj-t;"@[1]);
            reveal_strlit("&adv;");
            reveal_strlit("&adv-to;");
            reveal_strlit("&aux;");
            reveal_strlit("&aux-adj;");
            reveal_strlit("&aux-v;");
            assert("&v2g-s;"@[1] != "&aux-v;"@[1]);
            reveal_strlit("&conj;");
            reveal_strlit("&cop;");
            reveal_strlit("&ctr;");
            reveal_strlit("&exp;");
            reveal_strlit("&int;");
            reveal_strlit("&n;");
            reveal_strlit("&n-adv;");
            assert("&v2g-s;"@[1] != "&n-adv;"@[1]);
            reveal_strlit("&n-pr;");
            reveal_strlit("&n-pref;");
            reveal_strlit("&n-suf;");
            assert("&v2g-s;"@[1] != "&n-suf;"@[1]);
            reveal_strlit("&n-t;");
            reveal_strlit("&num;");
            reveal_strlit("&pn;");
            reveal_strlit("&pref;");
            reveal_strlit("&prt;");
            reveal_strlit("&suf;");
            reveal_strlit("&unc;");
            reveal_strlit("&v-unspec;");
            reveal_strlit("&v1;");
            reveal_strlit("&v1-s;");
            reveal_strlit("&v2a-s;");
            assert("&v2g-s;"@[3] != "&v2a-s;"@[3]);
            reveal_strlit("&v2b-k;");
            assert("&v2g-s;"@[3] != "&v2b-k;"@[3]);
            reveal_strlit("&v2b-s;");
            assert("&v2g-s;"@[3] != "&v2b-s;"@[3]);
            reveal_strlit("&v2d-k;");
            assert("&v2g-s;"@[3] != "&v2d-k;"@[3]);
            reveal_strlit("&v2d-s;");
            assert("&v2g-s;"@[3] != "&v2d-s;"@[3]);
            reveal_strlit("&v2g-k;");
            assert("&v2g-s;"@[5] != "&v2g-k;"@[5]);
        },
        PartOfSpeech::VerbNidanHK => {
            reveal_strlit("v2h-k");
            reveal_strlit("&v2h-k;");
            assert("&"@ + "v2h-k"@ + ";"@ =~= "&v2h-k;"@);
            reveal_strlit("&adj-f;");
            assert("&v2h-k;"@[1] != "&adj-f;"@[1]);
            reveal_strlit("&adj-i;");
            assert("&v2h-k;"@[1] != "&adj-i;"@[1]);
            reveal_strlit("&adj-ix;");
            reveal_strlit("&adj-kari;");
            reveal_strlit("&adj-ku;");
            reveal_strlit("&adj-na;");
            reveal_strlit("&adj-nari;");
            reveal_strlit("&adj-no;");
            reveal_strlit("&adj-pn;");
            reveal_strlit("&adj-shiku;");
            reveal_strlit("&adj-t;");
            assert("&v2h-k;"@[1] != "&adj-t;"@[1]);
            reveal_strlit("&adv;");
            reveal_strlit("&adv-to;");
            reveal_strlit("&aux;");
            reveal_strlit("&aux-adj;");
            reveal_strlit("&aux-v;");
            assert("&v2h-k;"@[1] != "&aux-v;"@[1]);
            reveal_strlit("&conj;");
            reveal_strlit("&cop;");
            reveal_strlit("&ctr;");
            reveal_strlit("&exp;");
            reveal_strlit("&int;");
            reveal_strlit("&n;");
            reveal_strlit("&n-adv;");
            assert("&v2h-k;"@[1] != "&n-adv;"@[1]);
            reveal_strlit("&n-pr;");
            reveal_strlit("&n-pref;");
            reveal_strlit("&n-suf;");
            assert("&v2h-k;"@[1] != "&n-suf;"@[1]);
            reveal_strlit("&n-t;");
            reveal_strlit("&num;");
            reveal_strlit("&pn;");
            reveal_strlit("&pref;");
            reveal_strlit("&prt;");
            reveal_strlit("&suf;");
            reveal_strlit("&unc;");
            reveal_strlit("&v-unspec;");
            reveal_strlit("&v1;");
            reveal_strlit("&v1-s;");
            reveal_strlit("&v2a-s;");
            assert("&v2h-k;"@[3] != "&v2a-s;"@[3]);
            reveal_strlit("&v2b-k;");
            assert("&v2h-k;"@[3] != "&v2b-k;"@[3]);
            reveal_strlit("&v2b-s;");
            assert("&v2h-k;"@[3] != "&v2b-s;"@[3]);
            reveal_strlit("&v2d-k;");
            assert("&v2h-k;"@[3] != "&v2d-k;"@[3]);
            reveal_strlit("&v2d-s;");
            assert("&v2h-k;"@[3] != "&v2d-s;"@[3]);
            reveal_strlit("&v2g-k;");
            assert("&v2h-k;"@[3] != "&v2g-k;"@[3]);
            reveal_strlit("&v2g-s;");
            assert("&v2h-k;"@[3] != "&v2g-s;"@[3]);
        },
        PartOfSpeech::VerbNidanHS => {
            reveal_strlit("v2h-s");
            reveal_strlit("&v2h-s;");
            assert("&"@ + "v2h-s"@ + ";"@ =~= "&v2h-s;"@);
            reveal_strlit("&adj-f;");
            assert("&v2h-s;"@[1] != "&adj-f;"@[1]);
            reveal_strlit("&adj-i;");
            assert("&v2h-s;"@[1] != "&adj-i;"@[1]);
            reveal_strlit("&adj-ix;");
            reveal_strlit("&adj-kari;");
            reveal_strlit("&adj-ku;");
            reveal_strlit("&adj-na;");
            reveal_strlit("&adj-nari;");
            reveal_strlit("&adj-no;");
            reveal_strlit("&adj-pn;");
            reveal_strlit("&adj-shiku;");
            reveal_strlit("&adj-t;");
            assert("&v2h-s;"@[1] != "&adj-t;"@[1]);
            reveal_strlit("&adv;");
            reveal_strlit("&adv-to;");
            reveal_strlit("&aux;");
            reveal_strlit("&aux-adj;");
            reveal_strlit("&aux-v;");
            assert("&v2h-s;"@[1] != "&aux-v;"@[1]);
            reveal_strlit("&conj;");
            reveal_strlit("&cop;");
            reveal_strlit("&ctr;");
            reveal_strlit("&exp;");
            reveal_strlit("&int;");
            reveal_strlit("&n;");
            reveal_strlit("&n-adv;");
            assert("&v2h-s;"@[1] != "&n-adv;"@[1]);
            reveal_strlit("&n-pr;");
            reveal_strlit("&n-pref;");
            reveal_strlit("&n-suf;");
            assert("&v2h-s;"@[1] != "&n-suf;"@[1]);
            reveal_strlit("&n-t;");
            reveal_strlit("&num;");
            reveal_strlit("&pn;");
            reveal_strlit("&pref;");
            reveal_strlit("&prt;");
            reveal_strlit("&suf;");
            reveal_strlit("&unc;");
            reveal_strlit("&v-unspec;");
            reveal_strlit("&v1;");
            reveal_strlit("&v1-s;");
            reveal_strlit("&v2a-s;");
            assert("&v2h-s;"@[3] != "&v2a-s;"@[3]);
            reveal_strlit("&v2b-k;");
            assert("&v2h-s;"@[3] != "&v2b-k;"@[3]);
            reveal_strlit("&v2b-s;");
            assert("&v2h-s;"@[3] != "&v2b-s;"@[3]);
            reveal_strlit("&v2d-k;");
            assert("&v2h-s;"@[3] != "&v2d-k;"@[3]);
            reveal_strlit("&v2d-s;");
            assert("&v2h-s;"@[3] != "&v2d-s;"@[3]);
            reveal_strlit("&v2g-k;");
            assert("&v2h-s;"@[3] != "&v2g-k;"@[3]);
            reveal_strlit("&v2g-s;");
            assert("&v2h-s;"@[3] != "&v2g-s;"@[3]);
            reveal_strlit("&v2h-k;");
            assert("&v2h-s;"@[5] != "&v2h-k;"@[5]);
        },
        PartOfSpeech::VerbNidanKK => {
            reveal_strlit("v2k-k");
            reveal_strlit("&v2k-k;");
            assert("&"@ + "v2k-k"@ + ";"@ =~= "&v2k-k;"@);
            reveal_strlit("&adj-f;");
            assert("&v2k-k;"@[1] != "&adj-f;"@[1]);
            reveal_strlit("&adj-i;");
            assert("&v2k-k;"@[1] != "&adj-i;"@[1]);
            reveal_strlit("&adj-ix;");
            reveal_strlit("&adj-kari;");
            reveal_strlit("&adj-ku;");
            reveal_strlit("&adj-na;");
            reveal_strlit("&adj-nari;");
            reveal_strlit("&adj-no;");
            reveal_strlit("&adj-pn;");
            reveal_strlit("&adj-shiku;");
            reveal_strlit("&adj-t;");
            assert("&v2k-k;"@[1] != "&adj-t;"@[1]);
            reveal_strlit("&adv;");
            reveal_strlit("&adv-to;");
            reveal_strlit("&aux;");
            reveal_strlit("&aux-adj;");
            reveal_strlit("&aux-v;");
            assert("&v2k-k;"@[1] != "&aux-v;"@[1]);
            reveal_strlit("&conj;");
            reveal_strlit("&cop;");
            reveal_strlit("&ctr;");
            reveal_strlit("&exp;");
            reveal_strlit("&int;");
            reveal_strlit("&n;");
            reveal_strlit("&n-adv;");
            assert("&v2k-k;"@[1] != "&n-adv;"@[1]);
            reveal_strlit("&n-pr;");
            reveal_strlit("&n-pref;");
            reveal_strlit("&n-suf;");
            assert("&v2k-k;"@[1] != "&n-suf;"@[1]);
            reveal_strlit("&n-t;");
            reveal_strlit("&num;");
            reveal_strlit("&pn;");
            reveal_strlit("&pref;");
            reveal_strlit("&prt;");
            reveal_strlit("&suf;");
            reveal_strlit("&unc;");
            reveal_strlit("&v-unspec;");
            reveal_strlit("&v1;");
            reveal_strlit("&v1-s;");
            reveal_strlit("&v2a-s;");
            assert("&v2k-k;"@[3] != "&v2a-s;"@[3]);
            reveal_strlit("&v2b-k;");
            assert("&v2k-k;"@[3] != "&v2b-k;"@[3]);
            reveal_strlit("&v2b-s;");
            assert("&v2k-k;"@[3] != "&v2b-s;"@[3]);
            reveal_strlit("&v2d-k;");
            assert("&v2k-k;"@[3] != "&v2d-k;"@[3]);
            reveal_strlit("&v2d-s;");
            assert("&v2k-k;"@[3] != "&v2d-s;"@[3]);
            reveal_strlit("&v2g-k;");
            assert("&v2k-k;"@[3] != "&v2g-k;"@[3]);
            reveal_strlit("&v2g-s;");
            assert("&v2k-k;"@[3] != "&v2g-s;"@[3]);
            reveal_strlit("&v2h-k;");
            assert("&v2k-k;"@[3] != "&v2h-k;"@[3]);
            reveal_strlit("&v2h-s;");
            assert("&v2k-k;"@[3] != "&v2h-s;"@[3]);
        },
        PartOfSpeech::VerbNidanKS => {
            reveal_strlit("v2k-s");
            reveal_strlit("&v2k-s;");
            assert("&"@ + "v2k-s"@ + ";"@ =~= "&v2k-s;"@);
            reveal_strlit("&adj-f;");
            assert("&v2k-s;"@[1] != "&adj-f;"@[1]);
            reveal_strlit("&adj-i;");
            assert("&v2k-s;"@[1] != "&adj-i;"@[1]);
            reveal_strlit("&adj-ix;");
            reveal_strlit("&adj-kari;");
            reveal_strlit("&adj-ku;");
            reveal_strlit("&adj-na;");
            reveal_strlit("&adj-nari;");
            reveal_strlit("&adj-no;");
            reveal_strlit("&adj-pn;");
            reveal_strlit("&adj-shiku;");
            reveal_strlit("&adj-t;");
            assert("&v2k-s;"@[1] != "&adj-t;"@[1]);
            reveal_strlit("&adv;");
            reveal_strlit("&adv-to;");
            reveal_strlit("&aux;");
            reveal_strlit("&aux-adj;");
            reveal_strlit("&aux-v;");
            assert("&v2k-s;"@[1] != "&aux-v;"@[1]);
            reveal_strlit("&conj;");
            reveal_strlit("&cop;");
            reveal_strlit("&ctr;");
            reveal_strlit("&exp;");
            reveal_strlit("&int;");
            reveal_strlit("&n;");
            reveal_strlit("&n-adv;");
            assert("&v2k-s;"@[1] != "&n-adv;"@[1]);
            reveal_strlit("&n-pr;");
            reveal_strlit("&n-pref;");
            reveal_strlit("&n-suf;");
            assert("&v2k-s;"@[1] != "&n-suf;"@[1]);
            reveal_strlit("&n-t;");
            reveal_strlit("&num;");
            reveal_strlit("&pn;");
            reveal_strlit("&pref;");
            reveal_strlit("&prt;");
            reveal_strlit("&suf;");
            reveal_strlit("&unc;");
            reveal_strlit("&v-unspec;");
            reveal_strlit("&v1;");
            reveal_strlit("&v1-s;");
            reveal_strlit("&v2a-s;");
            assert("&v2k-s;"@[3] != "&v2a-s;"@[3]);
            reveal_strlit("&v2b-k;");
            assert("&v2k-s;"@[3] != "&v2b-k;"@[3]);
            reveal_strlit("&v2b-s;");
            assert("&v2k-s;"@[3] != "&v2b-s;"@[3]);
            reveal_strlit("&v2d-k;");
            assert("&v2k-s;"@[3] != "&v2d-k;"@[3]);
            reveal_strlit("&v2d-s;");
            assert("&v2k-s;"@[3] != "&v2d-s;"@[3]);
            reveal_strlit("&v2g-k;");
            assert("&v2k-s;"@[3] != "&v2g-k;"@[3]);
            reveal_strlit("&v2g-s;");
            assert("&v2k-s;"@[3] != "&v2g-s;"@[3]);
            reveal_strlit("&v2h-k;");
            assert("&v2k-s;"@[3] != "&v2h-k;"@[3]);
            reveal_strlit("&v2h-s;");
            assert("&v2k-s;"@[3] != "&v2h-s;"@[3]);
            reveal_strlit("&v2k-k;");
            assert("&v2k-s;"@[5] != "&v2k-k;"@[5]);
        },
        PartOfSpeech::VerbNidanMK => {
            reveal_strlit("v2m-k");
            reveal_strlit("&v2m-k;");
            assert("&"@ + "v2m-k"@ + ";"@ =~= "&v2m-k;"@);
            reveal_strlit("&adj-f;");
            assert("&v2m-k;"@[1] != "&adj-f;"@[1]);
            reveal_strlit("&adj-i;");
            assert("&v2m-k;"@[1] != "&adj-i;"@[1]);
            reveal_strlit("&adj-ix;");
            reveal_strlit("&adj-kari;");
            reveal_strlit("&adj-ku;");
            reveal_strlit("&adj-na;");
            reveal_strlit("&adj-nari;");
            reveal_strlit("&adj-no;");
            reveal_strlit("&adj-pn;");
            reveal_strlit("&adj-shiku;");
            reveal_strlit("&adj-t;");
            assert("&v2m-k;"@[1] != "&adj-t;"@[1]);
            reveal_strlit("&adv;");
            reveal_strlit("&adv-to;");
            reveal_strlit("&aux;");
            reveal_strlit("&aux-adj;");
            reveal_strlit("&aux-v;");
            assert("&v2m-k;"@[1] != "&aux-v;"@[1]);
            reveal_strlit("&conj;");
            reveal_strlit("&cop;");
            reveal_strlit("&ctr;");
            reveal_strlit("&exp;");
            reveal_strlit("&int;");
            reveal_strlit("&n;");
            reveal_strlit("&n-adv;");
            assert("&v2m-k;"@[1] != "&n-adv;"@[1]);
            reveal_strlit("&n-pr;");
            reveal_strlit("&n-pref;");
            reveal_strlit("&n-suf;");
            assert("&v2m-k;"@[1] != "&n-suf;"@[1]);
            reveal_strlit("&n-t;");
            reveal_strlit("&num;");
            reveal_strlit("&pn;");
            reveal_strlit("&pref;");
            reveal_strlit("&prt;");
            reveal_strlit("&suf;");
            reveal_strlit("&unc;");
            reveal_strlit("&v-unspec;");
            reveal_strlit("&v1;");
            reveal_strlit("&v1-s;");
            reveal_strlit("&v2a-s;");
            assert("&v2m-k;"@[3] != "&v2a-s;"@[3]);
            reveal_strlit("&v2b-k;");
            assert("&v2m-k;"@[3] != "&v2b-k;"@[3]);
            reveal_strlit("&v2b-s;");
            assert("&v2m-k;"@[3] != "&v2b-s;"@[3]);
            reveal_strlit("&v2d-k;");
            assert("&v2m-k;"@[3] != "&v2d-k;"@[3]);
            reveal_strlit("&v2d-s;");
            assert("&v2m-k;"@[3] != "&v2d-s;"@[3]);
            reveal_strlit("&v2g-k;");
            assert("&v2m-k;"@[3] != "&v2g-k;"@[3]);
            reveal_strlit("&v2g-s;");
            assert("&v2m-k;"@[3] != "&v2g-s;"@[3]);
            reveal_strlit("&v2h-k;");
            assert("&v2m-k;"@[3] != "&v2h-k;"@[3]);
            reveal_strlit("&v2h-s;");
            assert("&v2m-k;"@[3] != "&v2h-s;"@[3]);
            reveal_strlit("&v2k-k;");
            assert("&v2m-k;"@[3] != "&v2k-k;"@[3]);
            reveal_strlit("&v2k-s;");
            assert("&v2m-k;"@[3] != "&v2k-s;"@[3]);
        },
        PartOfSpeech::VerbNidanMS => {
            reveal_strlit("v2m-s");
            reveal_strlit("&v2m-s;");
            assert("&"@ + "v2m-s"@ + ";"@ =~= "&v2m-s;"@);
            reveal_strlit("&adj-f;");
            assert("&v2m-s;"@[1] != "&adj-f;"@[1]);
            reveal_strlit("&adj-i;");
            assert("&v2m-s;"@[1] != "&adj-i;"@[1]);
            reveal_strlit("&adj-ix;");
            reveal_strlit("&adj-kari;");
            reveal_strlit("&adj-ku;");
            reveal_strlit("&adj-na;");
            reveal_strlit("&adj-nari;");
            reveal_strlit("&adj-no;");
            reveal_strlit("&adj-pn;");
            reveal_strlit("&adj-shiku;");
            reveal_strlit("&adj-t;");
            assert("&v2m-s;"@[1] != "&adj-t;"@[1]);
            reveal_strlit("&adv;");
            reveal_strlit("&adv-to;");
            reveal_strlit("&aux;");
            reveal_strlit("&aux-adj;");
            reveal_strlit("&aux-v;");
            assert("&v2m-s;"@[1] != "&aux-v;"@[1]);
            reveal_strlit("&conj;");
            reveal_strlit("&cop;");
            reveal_strlit("&ctr;");
            reveal_strlit("&exp;");
            reveal_strlit("&int;");
            reveal_strlit("&n;");
            reveal_strlit("&n-adv;");
            assert("&v2m-s;"@[1] != "&n-adv;"@[1]);
            reveal_strlit("&n-pr;");
            reveal_strlit("&n-pref;");
            reveal_strlit("&n-suf;");
            assert("&v2m-s;"@[1] != "&n-suf;"@[1]);
            reveal_strlit("&n-t;");
            reveal_strlit("&num;");
            reveal_strlit("&pn;");
            reveal_strlit("&pref;");
            reveal_strlit("&prt;");
            reveal_strlit("&suf;");
            reveal_strlit("&unc;");
            reveal_strlit("&v-unspec;");
            reveal_strlit("&v1;");
            reveal_strlit("&v1-s;");
            reveal_strlit("&v2a-s;");
            assert("&v2m-s;"@[3] != "&v2a-s;"@[3]);
            reveal_strlit("&v2b-k;");
            assert("&v2m-s;"@[3] != "&v2b-k;"@[3]);
            reveal_strlit("&v2b-s;");
            assert("&v2m-s;"@[3] != "&v2b-s;"@[3]);
            reveal_strlit("&v2d-k;");
            assert("&v2m-s;"@[3] != "&v2d-k;"@[3]);
            reveal_strlit("&v2d-s;");
            assert("&v2m-s;"@[3] != "&v2d-s;"@[3]);
            reveal_strlit("&v2g-k;");
            assert("&v2m-s;"@[3] != "&v2g-k;"@[3]);
            reveal_strlit("&v2g-s;");
            assert("&v2m-s;"@[3] != "&v2g-s;"@[3]);
            reveal_strlit("&v2h-k;");
            assert("&v2m-s;"@[3] != "&v2h-k;"@[3]);
            reveal_strlit("&v2h-s;");
            assert("&v2m-s;"@[3] != "&v2h-s;"@[3]);
            reveal_strlit("&v2k-k;");
            assert("&v2m-s;"@[3] != "&v2k-k;"@[3]);
            reveal_strlit("&v2k-s;");
            assert("&v2m-s;"@[3] != "&v2k-s;"@[3]);
            reveal_strlit("&v2m-k;");
            assert("&v2m-s;"@[5] != "&v2m-k;"@[5]);
        },
        PartOfSpeech::VerbNidanNS => {
            reveal_strlit("v2n-s");
            reveal_strlit("&v2n-s;");
            assert("&"@ + "v2n-s"@ + ";"@ =~= "&v2n-s;"@);
            reveal_strlit("&adj-f;");
            assert("&v2n-s;"@[1] != "&adj-f;"@[1]);
            reveal_strlit("&adj-i;");
            assert("&v2n-s;"@[1] != "&adj-i;"@[1]);
            reveal_strlit("&adj-ix;");
            reveal_strlit("&adj-kari;");
            reveal_strlit("&adj-ku;");
            reveal_strlit("&adj-na;");
            reveal_strlit("&adj-nari;");
            reveal_strlit("&adj-no;");
            reveal_strlit("&adj-pn;");
            reveal_strlit("&adj-shiku;");
            reveal_strlit("&adj-t;");
            assert("&v2n-s;"@[1] != "&adj-t;"@[1]);
            reveal_strlit("&adv;");
            reveal_strlit("&adv-to;");
            reveal_strlit("&aux;");
            reveal_strlit("&aux-adj;");
            reveal_strlit("&aux-v;");
            assert("&v2n-s;"@[1] != "&aux-v;"@[1]);
            reveal_strlit("&conj;");
            reveal_strlit("&cop;");
            reveal_strlit("&ctr;");
            reveal_strlit("&exp;");
            reveal_strlit("&int;");
            reveal_strlit("&n;");
            reveal_strlit("&n-adv;");
            assert("&v2n-s;"@[1] != "&n-adv;"@[1]);
            reveal_strlit("&n-pr;");
            reveal_strlit("&n-pref;");
            reveal_strlit("&n-suf;");
            assert("&v2n-s;"@[1] != "&n-suf;"@[1]);
            reveal_strlit("&n-t;");
            reveal_strlit("&num;");
            reveal_strlit("&pn;");
            reveal_strlit("&pref;");
            reveal_strlit("&prt;");
            reveal_strlit("&suf;");
            reveal_strlit("&unc;");
            reveal_strlit("&v-unspec;");
            reveal_strlit("&v1;");
            reveal_strlit("&v1-s;");
            reveal_strlit("&v2a-s;");
            assert("&v2n-s;"@[3] != "&v2a-s;"@[3]);
            reveal_strlit("&v2b-k;");
            assert("&v2n-s;"@[3] != "&v2b-k;"@[3]);
            reveal_strlit("&v2b-s;");
            assert("&v2n-s;"@[3] != "&v2b-s;"@[3]);
            reveal_strlit("&v2d-k;");
            assert("&v2n-s;"@[3] != "&v2d-k;"@[3]);
            reveal_strlit("&v2d-s;");
            assert("&v2n-s;"@[3] != "&v2d-s;"@[3]);
            reveal_strlit("&v2g-k;");
            assert("&v2n-s;"@[3] != "&v2g-k;"@[3]);
            reveal_strlit("&v2g-s;");
            assert("&v2n-s;"@[3] != "&v2g-s;"@[3]);
            reveal_strlit("&v2h-k;");
            assert("&v2n-s;"@[3] != "&v2h-k;"@[3]);
            reveal_strlit("&v2h-s;");
            assert("&v2n-s;"@[3] != "&v2h-s;"@[3]);
            reveal_strlit("&v2k-k;");
            assert("&v2n-s;"@[3] != "&v2k-k;"@[3]);
            reveal_strlit("&v2k-s;");
            assert("&v2n-s;"@[3] != "&v2k-s;"@[3]);
            reveal_strlit("&v2m-k;");
            assert("&v2n-s;"@[3] != "&v2m-k;"@[3]);
            reveal_strlit("&v2m-s;");
            assert("&v2n-s;"@[3] != "&v2m-s;"@[3]);
        },
        PartOfSpeech::VerbNidanRK => {
            reveal_strlit("v2r-k");
            reveal_strlit("&v2r-k;");
            assert("&"@ + "v2r-k"@ + ";"@ =~= "&v2r-k;"@);
            reveal_strlit("&adj-f;");
            assert("&v2r-k;"@[1] != "&adj-f;"@[1]);
            reveal_strlit("&adj-i;");
            assert("&v2r-k;"@[1] != "&adj-i;"@[1]);
            reveal_strlit("&adj-ix;");
            reveal_strlit("&adj-kari;");
            reveal_strlit("&adj-ku;");
            reveal_strlit("&adj-na;");
            reveal_strlit("&adj-nari;");
            reveal_strlit("&adj-no;");
            reveal_strlit("&adj-pn;");
            reveal_strlit("&adj-shiku;");
            reveal_strlit("&adj-t;");
            assert("&v2r-k;"@[1] != "&adj-t;"@[1]);
            reveal_strlit("&adv;");
            reveal_strlit("&adv-to;");
            reveal_strlit("&aux;");
            reveal_strlit("&aux-adj;");
            reveal_strlit("&aux-v;");
            assert("&v2r-k;"@[1] != "&aux-v;"@[1]);
            reveal_strlit("&conj;");
            reveal_strlit("&cop;");
            reveal_strlit("&ctr;");
            reveal_strlit("&exp;");
            reveal_strlit("&int;");
            reveal_strlit("&n;");
            reveal_strlit("&n-adv;");
            assert("&v2r-k;"@[1] != "&n-adv;"@[1]);
            reveal_strlit("&n-pr;");
            reveal_strlit("&n-pref;");
            reveal_strlit("&n-suf;");
            assert("&v2r-k;"@[1] != "&n-suf;"@[1]);
            reveal_strlit("&n-t;");
            reveal_strlit("&num;");
            reveal_strlit("&pn;");
            reveal_strlit("&pref;");
            reveal_strlit("&prt;");
            reveal_strlit("&suf;");
            reveal_strlit("&unc;");
            reveal_strlit("&v-unspec;");
            reveal_strlit("&v1;");
            reveal_strlit("&v1-s;");
            reveal_strlit("&v2a-s;");
            assert("&v2r-k;"@[3] != "&v2a-s;"@[3]);
            reveal_strlit("&v2b-k;");
            assert("&v2r-k;"@[3] != "&v2b-k;"@[3]);
            reveal_strlit("&v2b-s;");
            assert("&v2r-k;"@[3] != "&v2b-s;"@[3]);
            reveal_strlit("&v2d-k;");
            assert("&v2r-k;"@[3] != "&v2d-k;"@[3]);
            reveal_strlit("&v2d-s;");
            assert("&v2r-k;"@[3] != "&v2d-s;"@[3]);
            reveal_strlit("&v2g-k;");
            assert("&v2r-k;"@[3] != "&v2g-k;"@[3]);
            reveal_strlit("&v2g-s;");
            assert("&v2r-k;"@[3] != "&v2g-s;"@[3]);
            reveal_strlit("&v2h-k;");
            assert("&v2r-k;"@[3] != "&v2h-k;"@[3]);
            reveal_strlit("&v2h-s;");
            assert("&v2r-k;"@[3] != "&v2h-s;"@[3]);
            reveal_strlit("&v2k-k;");
            assert("&v2r-k;"@[3] != "&v2k-k;"@[3]);
            reveal_strlit("&v2k-s;");
            assert("&v2r-k;"@[3] != "&v2k-s;"@[3]);
            reveal_strlit("&v2m-k;");
            assert("&v2r-k;"@[3] != "&v2m-k;"@[3]);
            reveal_strlit("&v2m-s;");
            assert("&v2r-k;"@[3] != "&v2m-s;"@[3]);
            reveal_strlit("&v2n-s;");
            assert("&v2r-k;"@[3] != "&v2n-s;"@[3]);
        },
        PartOfSpeech::VerbNidanRS => {
            reveal_strlit("v2r-s");
            reveal_strlit("&v2r-s;");
            assert("&"@ + "v2r-s"@ + ";"@ =~= "&v2r-s;"@);
            reveal_strlit("&adj-f;");
            assert("&v2r-s;"@[1] != "&adj-f;"@[1]);
            reveal_strlit("&adj-i;");
            assert("&v2r-s;"@[1] != "&adj-i;"@[1]);
            reveal_strlit("&adj-ix;");
            reveal_strlit("&adj-kari;");
            reveal_strlit("&adj-ku;");
            reveal_strlit("&adj-na;");
            reveal_strlit("&adj-nari;");
            reveal_strlit("&adj-no;");
            reveal_strlit("&adj-pn;");
            reveal_strlit("&adj-shiku;");
            reveal_strlit("&adj-t;");
            assert("&v2r-s;"@[1] != "&adj-t;"@[1]);
            reveal_strlit("&adv;");
            reveal_strlit("&adv-to;");
            reveal_strlit("&aux;");
            reveal_strlit("&aux-adj;");
            reveal_strlit("&aux-v;");
            assert("&v2r-s;"@[1] != "&aux-v;"@[1]);
            reveal_strlit("&conj;");
            reveal_strlit("&cop;");
            reveal_strlit("&ctr;");
            reveal_strlit("&exp;");
            reveal_strlit("&int;");
            reveal_strlit("&n;");
            reveal_strlit("&n-adv;");
            assert("&v2r-s;"@[1] != "&n-adv;"@[1]);
            reveal_strlit("&n-pr;");
            reveal_strlit("&n-pref;");
            reveal_strlit("&n-suf;");
            assert("&v2r-s;"@[1] != "&n-suf;"@[1]);
            reveal_strlit("&n-t;");
            reveal_strlit("&num;");
            reveal_strlit("&pn;");
            reveal_strlit("&pref;");
            reveal_strlit("&prt;");
            reveal_strlit("&suf;");
            reveal_strlit("&unc;");
            reveal_strlit("&v-unspec;");
            reveal_strlit("&v1;");
            reveal_strlit("&v1-s;");
            reveal_strlit("&v2a-s;");
            assert("&v2r-s;"@[3] != "&v2a-s;"@[3]);
            reveal_strlit("&v2b-k;");
            assert("&v2r-s;"@[3] != "&v2b-k;"@[3]);
            reveal_strlit("&v2b-s;");
            assert("&v2r-s;"@[3] != "&v2b-s;"@[3]);
            reveal_strlit("&v2d-k;");
            assert("&v2r-s;"@[3] != "&v2d-k;"@[3]);
            reveal_strlit("&v2d-s;");
            assert("&v2r-s;"@[3] != "&v2d-s;"@[3]);
            reveal_strlit("&v2g-k;");
            assert("&v2r-s;"@[3] != "&v2g-k;"@[3]);
            reveal_strlit("&v2g-s;");
            assert("&v2r-s;"@[3] != "&v2g-s;"@[3]);
            reveal_strlit("&v2h-k;");
            assert("&v2r-s;"@[3] != "&v2h-k;"@[3]);
            reveal_strlit("&v2h-s;");
            assert("&v2r-s;"@[3] != "&v2h-s;"@[3]);
            reveal_strlit("&v2k-k;");
            assert("&v2r-s;"@[3] != "&v2k-k;"@[3]);
            reveal_strlit("&v2k-s;");
            assert("&v2r-s;"@[3] != "&v2k-s;"@[3]);
            reveal_strlit("&v2m-k;");
            assert("&v2r-s;"@[3] != "&v2m-k;"@[3]);
            reveal_strlit("&v2m-s;");
            assert("&v2r-s;"@[3] != "&v2m-s;"@[3]);
            reveal_strlit("&v2n-s;");
            assert("&v2r-s;"@[3] != "&v2n-s;"@[3]);
            reveal_strlit("&v2r-k;");
            assert("&v2r-s;"@[5] != "&v2r-k;"@[5]);
        },
        PartOfSpeech::VerbNidanSS => {
            reveal_strlit("v2s-s");
            reveal_strlit("&v2s-s;");
            assert("&"@ + "v2s-s"@ + ";"@ =~= "&v2s-s;"@);
            reveal_strlit("&adj-f;");
            assert("&v2s-s;"@[1] != "&adj-f;"@[1]);
            reveal_strlit("&adj-i;");
            assert("&v2s-s;"@[1] != "&adj-i;"@[1]);
            reveal_strlit("&adj-ix;");
            reveal_strlit("&adj-kari;");
            reveal_strlit("&adj-ku;");
            reveal_strlit("&adj-na;");
            reveal_strlit("&adj-nari;");
            reveal_strlit("&adj-no;");
            reveal_strlit("&adj-pn;");
            reveal_strlit("&adj-shiku;");
            reveal_strlit("&adj-t;");
            assert("&v2s-s;"@[1] != "&adj-t;"@[1]);
            reveal_strlit("&adv;");
            reveal_strlit("&adv-to;");
            reveal_strlit("&aux;");
            reveal_strlit("&aux-adj;");
            reveal_strlit("&aux-v;");
            assert("&v2s-s;"@[1] != "&aux-v;"@[1]);
            reveal_strlit("&conj;");
            reveal_strlit("&cop;");
            reveal_strlit("&ctr;");
            reveal_strlit("&exp;");
            reveal_strlit("&int;");
            reveal_strlit("&n;");
            reveal_strlit("&n-adv;");
            assert("&v2s-s;"@[1] != "&n-adv;"@[1]);
            reveal_strlit("&n-pr;");
            reveal_strlit("&n-pref;");
            reveal_strlit("&n-suf;");
            assert("&v2s-s;"@[1] != "&n-suf;"@[1]);
            reveal_strlit("&n-t;");
            reveal_strlit("&num;");
            reveal_strlit("&pn;");
            reveal_strlit("&pref;");
            reveal_strlit("&prt;");
            reveal_strlit("&suf;");
            reveal_strlit("&unc;");
            reveal_strlit("&v-unspec;");
            reveal_strlit("&v1;");
            reveal_strlit("&v1-s;");
            reveal_strlit("&v2a-s;");
            assert("&v2s-s;"@[3] != "&v2a-s;"@[3]);
            reveal_strlit("&v2b-k;");
            assert("&v2s-s;"@[3] != "&v2b-k;"@[3]);
            reveal_strlit("&v2b-s;");
            assert("&v2s-s;"@[3] != "&v2b-s;"@[3]);
            reveal_strlit("&v2d-k;");
            assert("&v2s-s;"@[3] != "&v2d-k;"@[3]);
            reveal_strlit("&v2d-s;");
            assert("&v2s-s;"@[3] != "&v2d-s;"@[3]);
            reveal_strlit("&v2g-k;");
            assert("&v2s-s;"@[3] != "&v2g-k;"@[3]);
            reveal_strlit("&v2g-s;");
            assert("&v2s-s;"@[3] != "&v2g-s;"@[3]);
            reveal_strlit("&v2h-k;");
            assert("&v2s-s;"@[3] != "&v2h-k;"@[3]);
            reveal_strlit("&v2h-s;");
            assert("&v2s-s;"@[3] != "&v2h-s;"@[3]);
            reveal_strlit("&v2k-k;");
            assert("&v2s-s;"@[3] != "&v2k-k;"@[3]);
            reveal_strlit("&v2k-s;");
            assert("&v2s-s;"@[3] != "&v2k-s;"@[3]);
            reveal_strlit("&v2m-k;");
            assert("&v2s-s;"@[3] != "&v2m-k;"@[3]);
            reveal_strlit("&v2m-s;");
            assert("&v2s-s;"@[3] != "&v2m-s;"@[3]);
            reveal_strlit("&v2n-s;");
            assert("&v2s-s;"@[3] != "&v2n-s;"@[3]);
            reveal_strlit("&v2r-k;");
            assert("&v2s-s;"@[3] != "&v2r-k;"@[3]);
            reveal_strlit("&v2r-s;");
            assert("&v2s-s;"@[3] != "&v2r-s;"@[3]);
        },
        PartOfSpeech::VerbNidanTK => {
            reveal_strlit("v2t-k");
            reveal_strlit("&v2t-k;");
            assert("&"@ + "v2t-k"@ + ";"@ =~= "&v2t-k;"@);
            reveal_strlit("&adj-f;");
            assert("&v2t-k;"@[1] != "&adj-f;"@[1]);
            reveal_strlit("&adj-i;");
            assert("&v2t-k;"@[1] != "&adj-i;"@[1]);
            reveal_strlit("&adj-ix;");
            reveal_strlit("&adj-kari;");
            reveal_strlit("&adj-ku;");
            reveal_strlit("&adj-na;");
            reveal_strlit("&adj-nari;");
            reveal_strlit("&adj-no;");
            reveal_strlit("&adj-pn;");
            reveal_strlit("&adj-shiku;");
            reveal_strlit("&adj-t;");
            assert("&v2t-k;"@[1] != "&adj-t;"@[1]);
            reveal_strlit("&adv;");
            reveal_strlit("&adv-to;");
            reveal_strlit("&aux;");
            reveal_strlit("&aux-adj;");
            reveal_strlit("&aux-v;");
            assert("&v2t-k;"@[1] != "&aux-v;"@[1]);
            reveal_strlit("&conj;");
            reveal_strlit("&cop;");
            reveal_strlit("&ctr;");
            reveal_strlit("&exp;");
            reveal_strlit("&int;");
            reveal_strlit("&n;");
            reveal_strlit("&n-adv;");
            assert("&v2t-k;"@[1] != "&n-adv;"@[1]);
            reveal_strlit("&n-pr;");
            reveal_strlit("&n-pref;");
            reveal_strlit("&n-suf;");
            assert("&v2t-k;"@[1] != "&n-suf;"@[1]);
            reveal_strlit("&n-t;");
            reveal_strlit("&num;");
            reveal_strlit("&pn;");
            reveal_strlit("&pref;");
            reveal_strlit("&prt;");
            reveal_strlit("&suf;");
            reveal_strlit("&unc;");
            reveal_strlit("&v-unspec;");
            reveal_strlit("&v1;");
            reveal_strlit("&v1-s;");
            reveal_strlit("&v2a-s;");
            assert("&v2t-k;"@[3] != "&v2a-s;"@[3]);
            reveal_strlit("&v2b-k;");
            assert("&v2t-k;"@[3] != "&v2b-k;"@[3]);
            reveal_strlit("&v2b-s;");
            assert("&v2t-k;"@[3] != "&v2b-s;"@[3]);
            reveal_strlit("&v2d-k;");
            assert("&v2t-k;"@[3] != "&v2d-k;"@[3]);
            reveal_strlit("&v2d-s;");
            assert("&v2t-k;"@[3] != "&v2d-s;"@[3]);
            reveal_strlit("&v2g-k;");
            assert("&v2t-k;"@[3] != "&v2g-k;"@[3]);
            reveal_strlit("&v2g-s;");
            assert("&v2t-k;"@[3] != "&v2g-s;"@[3]);
            reveal_strlit("&v2h-k;");
            assert("&v2t-k;"@[3] != "&v2h-k;"@[3]);
            reveal_strlit("&v2h-s;");
            assert("&v2t-k;"@[3] != "&v2h-s;"@[3]);
            reveal_strlit("&v2k-k;");
            assert("&v2t-k;"@[3] != "&v2k-k;"@[3]);
            reveal_strlit("&v2k-s;");
            assert("&v2t-k;"@[3] != "&v2k-s;"@[3]);
            reveal_strlit("&v2m-k;");
            assert("&v2t-k;"@[3] != "&v2m-k;"@[3]);
            reveal_strlit("&v2m-s;");
            assert("&v2t-k;"@[3] != "&v2m-s;"@[3]);
            reveal_strlit("&v2n-s;");
            assert("&v2t-k;"@[3] != "&v2n-s;"@[3]);
            reveal_strlit("&v2r-k;");
            assert("&v2t-k;"@[3] != "&v2r-k;"@[3]);
            reveal_strlit("&v2r-s;");
            assert("&v2t-k;"@[3] != "&v2r-s;"@[3]);
            reveal_strlit("&v2s-s;");
            assert("&v2t-k;"@[3] != "&v2s-s;"@[3]);
        },
        PartOfSpeech::VerbNidanTS => {
            reveal_strlit("v2t-s");
            reveal_strlit("&v2t-s;");
            assert("&"@ + "v2t-s"@ + ";"@ =~= "&v2t-s;"@);
            reveal_strlit("&adj-f;");
            assert("&v2t-s;"@[1] != "&adj-f;"@[1]);
            reveal_strlit("&adj-i;");
            assert("&v2t-s;"@[1] != "&adj-i;"@[1]);
            reveal_strlit("&adj-ix;");
            reveal_strlit("&adj-kari;");
            reveal_strlit("&adj-ku;");
            reveal_strlit("&adj-na;");
            reveal_strlit("&adj-nari;");
            reveal_strlit("&adj-no;");
            reveal_strlit("&adj-pn;");
            reveal_strlit("&adj-shiku;");
            reveal_strlit("&adj-t;");
            assert("&v2t-s;"@[1] != "&adj-t;"@[1]);
            reveal_strlit("&adv;");
            reveal_strlit("&adv-to;");
            reveal_strlit("&aux;");
            reveal_strlit("&aux-adj;");
            reveal_strlit("&aux-v;");
            assert("&v2t-s;"@[1] != "&aux-v;"@[1]);
            reveal_strlit("&conj;");
            reveal_strlit("&cop;");
            reveal_strlit("&ctr;");
            reveal_strlit("&exp;");
            reveal_strlit("&int;");
            reveal_strlit("&n;");
            reveal_strlit("&n-adv;");
            assert("&v2t-s;"@[1] != "&n-adv;"@[1]);
            reveal_strlit("&n-pr;");
            reveal_strlit("&n-pref;");
            reveal_strlit("&n-suf;");
            assert("&v2t-s;"@[1] != "&n-suf;"@[1]);
            reveal_strlit("&n-t;");
            reveal_strlit("&num;");
            reveal_strlit("&pn;");
            reveal_strlit("&pref;");
            reveal_strlit("&prt;");
            reveal_strlit("&suf;");
            reveal_strlit("&unc;");
            reveal_strlit("&v-unspec;");
            reveal_strlit("&v1;");
            reveal_strlit("&v1-s;");
            reveal_strlit("&v2a-s;");
            assert("&v2t-s;"@[3] != "&v2a-s;"@[3]);
            reveal_strlit("&v2b-k;");
            assert("&v2t-s;"@[3] != "&v2b-k;"@[3]);
            reveal_strlit("&v2b-s;");
            assert("&v2t-s;"@[3] != "&v2b-s;"@[3]);
            reveal_strlit("&v2d-k;");
            assert("&v2t-s;"@[3] != "&v2d-k;"@[3]);
            reveal_strlit("&v2d-s;");
            assert("&v2t-s;"@[3] != "&v2d-s;"@[3]);
            reveal_strlit("&v2g-k;");
            assert("&v2t-s;"@[3] != "&v2g-k;"@[3]);
            reveal_strlit("&v2g-s;");
            assert("&v2t-s;"@[3] != "&v2g-s;"@[3]);
            reveal_strlit("&v2h-k;");
            assert("&v2t-s;"@[3] != "&v2h-k;"@[3]);
            reveal_strlit("&v2h-s;");
            assert("&v2t-s;"@[3] != "&v2h-s;"@[3]);
            reveal_strlit("&v2k-k;");
            assert("&v2t-s;"@[3] != "&v2k-k;"@[3]);
            reveal_strlit("&v2k-s;");
            assert("&v2t-s;"@[3] != "&v2k-s;"@[3]);
            reveal_strlit("&v2m-k;");
            assert("&v2t-s;"@[3] != "&v2m-k;"@[3]);
            reveal_strlit("&v2m-s;");
            assert("&v2t-s;"@[3] != "&v2m-s;"@[3]);
            reveal_strlit("&v2n-s;");
            assert("&v2t-s;"@[3] != "&v2n-s;"@[3]);
            reveal_strlit("&v2r-k;");
            assert("&v2t-s;"@[3] != "&v2r-k;"@[3]);
            reveal_strlit("&v2r-s;");
            assert("&v2t-s;"@[3] != "&v2r-s;"@[3]);
            reveal_strlit("&v2s-s;");
            assert("&v2t-s;"@[3] != "&v2s-s;"@[3]);
            reveal_strlit("&v2t-k;");
            assert("&v2t-s;"@[5] != "&v2t-k;"@[5]);
        },
        PartOfSpeech::VerbNidanWS => {
            reveal_strlit("v2w-s");
            reveal_strlit("&v2w-s;");
            assert("&"@ + "v2w-s"@ + ";"@ =~= "&v2w-s;"@);
            reveal_strlit("&adj-f;");
            assert("&v2w-s;"@[1] != "&adj-f;"@[1]);
            reveal_strlit("&adj-i;");
            assert("&v2w-s;"@[1] != "&adj-i;"@[1]);
            reveal_strlit("&adj-ix;");
            reveal_strlit("&adj-kari;");
            reveal_strlit("&adj-ku;");
            reveal_strlit("&adj-na;");
            reveal_strlit("&adj-nari;");
            reveal_strlit("&adj-no;");
            reveal_strlit("&adj-pn;");
            reveal_strlit("&adj-shiku;");
            reveal_strlit("&adj-t;");
            assert("&v2w-s;"@[1] != "&adj-t;"@[1]);
            reveal_strlit("&adv;");
            reveal_strlit("&adv-to;");
            reveal_strlit("&aux;");
            reveal_strlit("&aux-adj;");
            reveal_strlit("&aux-v;");
            assert("&v2w-s;"@[1] != "&aux-v;"@[1]);
            reveal_strlit("&conj;");
            reveal_strlit("&cop;");
            reveal_strlit("&ctr;");
            reveal_strlit("&exp;");
            reveal_strlit("&int;");
            reveal_strlit("&n;");
            reveal_strlit("&n-adv;");
            assert("&v2w-s;"@[1] != "&n-adv;"@[1]);
            reveal_strlit("&n-pr;");
            reveal_strlit("&n-pref;");
            reveal_strlit("&n-suf;");
            assert("&v2w-s;"@[1] != "&n-suf;"@[1]);
            reveal_strlit("&n-t;");
            reveal_strlit("&num;");
            reveal_strlit("&pn;");
            reveal_strlit("&pref;");
            reveal_strlit("&prt;");
            reveal_strlit("&suf;");
            reveal_strlit("&unc;");
            reveal_strlit("&v-unspec;");
            reveal_strlit("&v1;");
            reveal_strlit("&v1-s;");
            reveal_strlit("&v2a-s;");
            assert("&v2w-s;"@[3] != "&v2a-s;"@[3]);
            reveal_strlit("&v2b-k;");
            assert("&v2w-s;"@[3] != "&v2b-k;"@[3]);
            reveal_strlit("&v2b-s;");
            assert("&v2w-s;"@[3] != "&v2b-s;"@[3]);
            reveal_strlit("&v2d-k;");
            assert("&v2w-s;"@[3] != "&v2d-k;"@[3]);
            reveal_strlit("&v2d-s;");
            assert("&v2w-s;"@[3] != "&v2d-s;"@[3]);
            reveal_strlit("&v2g-k;");
            assert("&v2w-s;"@[3] != "&v2g-k;"@[3]);
            reveal_strlit("&v2g-s;");
            assert("&v2w-s;"@[3] != "&v2g-s;"@[3]);
            reveal_strlit("&v2h-k;");
            assert("&v2w-s;"@[3] != "&v2h-k;"@[3]);
            reveal_strlit("&v2h-s;");
            assert("&v2w-s;"@[3] != "&v2h-s;"@[3]);
            reveal_strlit("&v2k-k;");
            assert("&v2w-s;"@[3] != "&v2k-k;"@[3]);
            reveal_strlit("&v2k-s;");
            assert("&v2w-s;"@[3] != "&v2k-s;"@[3]);
            reveal_strlit("&v2m-k;");
            assert("&v2w-s;"@[3] != "&v2m-k;"@[3]);
            reveal_strlit("&v2m-s;");
            assert("&v2w-s;"@[3] != "&v2m-s;"@[3]);
            reveal_strlit("&v2n-s;");
            assert("&v2w-s;"@[3] != "&v2n-s;"@[3]);
            reveal_strlit("&v2r-k;");
            assert("&v2w-s;"@[3] != "&v2r-k;"@[3]);
            reveal_strlit("&v2r-s;");
            assert("&v2w-s;"@[3] != "&v2r-s;"@[3]);
            reveal_strlit("&v2s-s;");
            assert("&v2w-s;"@[3] != "&v2s-s;"@[3]);
            reveal_strlit("&v2t-k;");
            assert("&v2w-s;"@[3] != "&v2t-k;"@[3]);
            reveal_strlit("&v2t-s;");
            assert("&v2w-s;"@[3] != "&v2t-s;"@[3]);
        },
        PartOfSpeech::VerbNidanYK => {
            reveal_strlit("v2y-k");
            reveal_strlit("&v2y-k;");
            assert("&"@ + "v2y-k"@ + ";"@ =~= "&v2y-k;"@);
            reveal_strlit("&adj-f;");
            assert("&v2y-k;"@[1] != "&adj-f;"@[1]);
            reveal_strlit("&adj-i;");
            assert("&v2y-k;"@[1] != "&adj-i;"@[1]);
            reveal_strlit("&adj-ix;");
            reveal_strlit("&adj-kari;");
            reveal_strlit("&adj-ku;");
            reveal_strlit("&adj-na;");
            reveal_strlit("&adj-nari;");
            reveal_strlit("&adj-no;");
            reveal_strlit("&adj-pn;");
            reveal_strlit("&adj-shiku;");
            reveal_strlit("&adj-t;");
            assert("&v2y-k;"@[1] != "&adj-t;"@[1]);
            reveal_strlit("&adv;");
            reveal_strlit("&adv-to;");
            reveal_strlit("&aux;");
            reveal_strlit("&aux-adj;");
            reveal_strlit("&aux-v;");
            assert("&v2y-k;"@[1] != "&aux-v;"@[1]);
            reveal_strlit("&conj;");
            reveal_strlit("&cop;");
            reveal_strlit("&ctr;");
            reveal_strlit("&exp;");
            reveal_strlit("&int;");
            reveal_strlit("&n;");
            reveal_strlit("&n-adv;");
            assert("&v2y-k;"@[1] != "&n-adv;"@[1]);
            reveal_strlit("&n-pr;");
            reveal_strlit("&n-pref;");
            reveal_strlit("&n-suf;");
            assert("&v2y-k;"@[1] != "&n-suf;"@[1]);
            reveal_strlit("&n-t;");
            reveal_strlit("&num;");
            reveal_strlit("&pn;");
            reveal_strlit("&pref;");
            reveal_strlit("&prt;");
            reveal_strlit("&suf;");
            reveal_strlit("&unc;");
            reveal_strlit("&v-unspec;");
            reveal_strlit("&v1;");
            reveal_strlit("&v1-s;");
            reveal_strlit("&v2a-s;");
            assert("&v2y-k;"@[3] != "&v2a-s;"@[3]);
            reveal_strlit("&v2b-k;");
            assert("&v2y-k;"@[3] != "&v2b-k;"@[3]);
            reveal_strlit("&v2b-s;");
            assert("&v2y-k;"@[3] != "&v2b-s;"@[3]);
            reveal_strlit("&v2d-k;");
            assert("&v2y-k;"@[3] != "&v2d-k;"@[3]);
            reveal_strlit("&v2d-s;");
            assert("&v2y-k;"@[3] != "&v2d-s;"@[3]);
            reveal_strlit("&v2g-k;");
            assert("&v2y-k;"@[3] != "&v2g-k;"@[3]);
            reveal_strlit("&v2g-s;");
            assert("&v2y-k;"@[3] != "&v2g-s;"@[3]);
            reveal_strlit("&v2h-k;");
            assert("&v2y-k;"@[3] != "&v2h-k;"@[3]);
            reveal_strlit("&v2h-s;");
            assert("&v2y-k;"@[3] != "&v2h-s;"@[3]);
            reveal_strlit("&v2k-k;");
            assert("&v2y-k;"@[3] != "&v2k-k;"@[3]);
            reveal_strlit("&v2k-s;");
            assert("&v2y-k;"@[3] != "&v2k-s;"@[3]);
            reveal_strlit("&v2m-k;");
            assert("&v2y-k;"@[3] != "&v2m-k;"@[3]);
            reveal_strlit("&v2m-s;");
            assert("&v2y-k;"@[3] != "&v2m-s;"@[3]);
            reveal_strlit("&v2n-s;");
            assert("&v2y-k;"@[3] != "&v2n-s;"@[3]);
            reveal_strlit("&v2r-k;");
            assert("&v2y-k;"@[3] != "&v2r-k;"@[3]);
            reveal_strlit("&v2r-s;");
            assert("&v2y-k;"@[3] != "&v2r-s;"@[3]);
            reveal_strlit("&v2s-s;");
            assert("&v2y-k;"@[3] != "&v2s-s;"@[3]);
            reveal_strlit("&v2t-k;");
            assert("&v2y-k;"@[3] != "&v2t-k;"@[3]);
            reveal_strlit("&v2t-s;");
            assert("&v2y-k;"@[3] != "&v2t-s;"@[3]);
            reveal_strlit("&v2w-s;");
            assert("&v2y-k;"@[3] != "&v2w-s;"@[3]);
        },
        PartOfSpeech::VerbNidanYS => {
            reveal_strlit("v2y-s");
            reveal_strlit("&v2y-s;");
            assert("&"@ + "v2y-s"@ + ";"@ =~= "&v2y-s;"@);
            reveal_strlit("&adj-f;");
            assert("&v2y-s;"@[1] != "&adj-f;"@[1]);
            reveal_strlit("&adj-i;");
            assert("&v2y-s;"@[1] != "&adj-i;"@[1]);
            reveal_strlit("&adj-ix;");
            reveal_strlit("&adj-kari;");
            reveal_strlit("&adj-ku;");
            reveal_strlit("&adj-na;");
            reveal_strlit("&adj-nari;");
            reveal_strlit("&adj-no;");
            reveal_strlit("&adj-pn;");
            reveal_strlit("&adj-shiku;");
            reveal_strlit("&adj-t;");
            assert("&v2y-s;"@[1] != "&adj-t;"@[1]);
            reveal_strlit("&adv;");
            reveal_strlit("&adv-to;");
            reveal_strlit("&aux;");
            reveal_strlit("&aux-adj;");
            reveal_strlit("&aux-v;");
            assert("&v2y-s;"@[1] != "&aux-v;"@[1]);
            reveal_strlit("&conj;");
            reveal_strlit("&cop;");
            reveal_strlit("&ctr;");
            reveal_strlit("&exp;");
            reveal_strlit("&int;");
            reveal_strlit("&n;");
            reveal_strlit("&n-adv;");
            assert("&v2y-s;"@[1] != "&n-adv;"@[1]);
            reveal_strlit("&n-pr;");
            reveal_strlit("&n-pref;");
            reveal_strlit("&n-suf;");
            assert("&v2y-s;"@[1] != "&n-suf;"@[1]);
            reveal_strlit("&n-t;");
            reveal_strlit("&num;");
            reveal_strlit("&pn;");
            reveal_strlit("&pref;");
            reveal_strlit("&prt;");
            reveal_strlit("&suf;");
            reveal_strlit("&unc;");
            reveal_strlit("&v-unspec;");
            reveal_strlit("&v1;");
            reveal_strlit("&v1-s;");
            reveal_strlit("&v2a-s;");
            assert("&v2y-s;"@[3] != "&v2a-s;"@[3]);
            reveal_strlit("&v2b-k;");
            assert("&v2y-s;"@[3] != "&v2b-k;"@[3]);
            reveal_strlit("&v2b-s;");
            assert("&v2y-s;"@[3] != "&v2b-s;"@[3]);
            reveal_strlit("&v2d-k;");
            assert("&v2y-s;"@[3] != "&v2d-k;"@[3]);
            reveal_strlit("&v2d-s;");
            assert("&v2y-s;"@[3] != "&v2d-s;"@[3]);
            reveal_strlit("&v2g-k;");
            assert("&v2y-s;"@[3] != "&v2g-k;"@[3]);
            reveal_strlit("&v2g-s;");
            assert("&v2y-s;"@[3] != "&v2g-s;"@[3]);
            reveal_strlit("&v2h-k;");
            assert("&v2y-s;"@[3] != "&v2h-k;"@[3]);
            reveal_strlit("&v2h-s;");
            assert("&v2y-s;"@[3] != "&v2h-s;"@[3]);
            reveal_strlit("&v2k-k;");
            assert("&v2y-s;"@[3] != "&v2k-k;"@[3]);
            reveal_strlit("&v2k-s;");
            assert("&v2y-s;"@[3] != "&v2k-s;"@[3]);
            reveal_strlit("&v2m-k;");
            assert("&v2y-s;"@[3] != "&v2m-k;"@[3]);
            reveal_strlit("&v2m-s;");
            assert("&v2y-s;"@[3] != "&v2m-s;"@[3]);
            reveal_strlit("&v2n-s;");
            assert("&v2y-s;"@[3] != "&v2n-s;"@[3]);
            reveal_strlit("&v2r-k;");
            assert("&v2y-s;"@[3] != "&v2r-k;"@[3]);
            reveal_strlit("&v2r-s;");
            assert("&v2y-s;"@[3] != "&v2r-s;"@[3]);
            reveal_strlit("&v2s-s;");
            assert("&v2y-s;"@[3] != "&v2s-s;"@[3]);
            reveal_strlit("&v2t-k;");
            assert("&v2y-s;"@[3] != "&v2t-k;"@[3]);
            reveal_strlit("&v2t-s;");
            assert("&v2y-s;"@[3] != "&v2t-s;"@[3]);
            reveal_strlit("&v2w-s;");
            assert("&v2y-s;"@[3] != "&v2w-s;"@[3]);
            reveal_strlit("&v2y-k;");
            assert("&v2y-s;"@[5] != "&v2y-k;"@[5]);
        },
        PartOfSpeech::VerbNidanZS => {
            reveal_strlit("v2z-s");
            reveal_strlit("&v2z-s;");
            assert("&"@ + "v2z-s"@ + ";"@ =~= "&v2z-s;"@);
            reveal_strlit("&adj-f;");
            assert("&v2z-s;"@[1] != "&adj-f;"@[1]);
            reveal_strlit("&adj-i;");
            assert("&v2z-s;"@[1] != "&adj-i;"@[1]);
            reveal_strlit("&adj-ix;");
            reveal_strlit("&adj-kari;");
            reveal_strlit("&adj-ku;");
            reveal_strlit("&adj-na;");
            reveal_strlit("&adj-nari;");
            reveal_strlit("&adj-no;");
            reveal_strlit("&adj-pn;");
            reveal_strlit("&adj-shiku;");
            reveal_strlit("&adj-t;");
            assert("&v2z-s;"@[1] != "&adj-t;"@[1]);
            reveal_strlit("&adv;");
            reveal_strlit("&adv-to;");
            reveal_strlit("&aux;");
            reveal_strlit("&aux-adj;");
            reveal_strlit("&aux-v;");
            assert("&v2z-s;"@[1] != "&aux-v;"@[1]);
            reveal_strlit("&conj;");
            reveal_strlit("&cop;");
            reveal_strlit("&ctr;");
            reveal_strlit("&exp;");
            reveal_strlit("&int;");
            reveal_strlit("&n;");
            reveal_strlit("&n-adv;");
            assert("&v2z-s;"@[1] != "&n-adv;"@[1]);
            reveal_strlit("&n-pr;");
            reveal_strlit("&n-pref;");
            reveal_strlit("&n-suf;");
            assert("&v2z-s;"@[1] != "&n-suf;"@[1]);
            reveal_strlit("&n-t;");
            reveal_strlit("&num;");
            reveal_strlit("&pn;");
            reveal_strlit("&pref;");
            reveal_strlit("&prt;");
            reveal_strlit("&suf;");
            reveal_strlit("&unc;");
            reveal_strlit("&v-unspec;");
            reveal_strlit("&v1;");
            reveal_strlit("&v1-s;");
            reveal_strlit("&v2a-s;");
            assert("&v2z-s;"@[3] != "&v2a-s;"@[3]);
            reveal_strlit("&v2b-k;");
            assert("&v2z-s;"@[3] != "&v2b-k;"@[3]);
            reveal_strlit("&v2b-s;");
            assert("&v2z-s;"@[3] != "&v2b-s;"@[3]);
            reveal_strlit("&v2d-k;");
            assert("&v2z-s;"@[3] != "&v2d-k;"@[3]);
            reveal_strlit("&v2d-s;");
            assert("&v2z-s;"@[3] != "&v2d-s;"@[3]);
            reveal_strlit("&v2g-k;");
            assert("&v2z-s;"@[3] != "&v2g-k;"@[3]);
            reveal_strlit("&v2g-s;");
            assert("&v2z-s;"@[3] != "&v2g-s;"@[3]);
            reveal_strlit("&v2h-k;");
            assert("&v2z-s;"@[3] != "&v2h-k;"@[3]);
            reveal_strlit("&v2h-s;");
            assert("&v2z-s;"@[3] != "&v2h-s;"@[3]);
            reveal_strlit("&v2k-k;");
            assert("&v2z-s;"@[3] != "&v2k-k;"@[3]);
            reveal_strlit("&v2k-s;");
            assert("&v2z-s;"@[3] != "&v2k-s;"@[3]);
            reveal_strlit("&v2m-k;");
            assert("&v2z-s;"@[3] != "&v2m-k;"@[3]);
            reveal_strlit("&v2m-s;");
            assert("&v2z-s;"@[3] != "&v2m-s;"@[3]);
            reveal_strlit("&v2n-s;");
            assert("&v2z-s;"@[3] != "&v2n-s;"@[3]);
            reveal_strlit("&v2r-k;");
            assert("&v2z-s;"@[3] != "&v2r-k;"@[3]);
            reveal_strlit("&v2r-s;");
            assert("&v2z-s;"@[3] != "&v2r-s;"@[3]);
            reveal_strlit("&v2s-s;");
            assert("&v2z-s;"@[3] != "&v2s-s;"@[3]);
            reveal_strlit("&v2t-k;");
            assert("&v2z-s;"@[3] != "&v2t-k;"@[3]);
            reveal_strlit("&v2t-s;");
            assert("&v2z-s;"@[3] != "&v2t-s;"@[3]);
            reveal_strlit("&v2w-s;");
            assert("&v2z-s;"@[3] != "&v2w-s;"@[3]);
            reveal_strlit("&v2y-k;");
            assert("&v2z-s;"@[3] != "&v2y-k;"@[3]);
            reveal_strlit("&v2y-s;");
            assert("&v2z-s;"@[3] != "&v2y-s;"@[3]);
        },
        PartOfSpeech::VerbYodanB => {
            reveal_strlit("v4b");
            reveal_strlit("&v4b;");
            assert("&"@ + "v4b"@ + ";"@ =~= "&v4b;"@);
            reveal_strlit("&adj-f;");
            reveal_strlit("&adj-i;");
            reveal_strlit("&adj-ix;");
            reveal_strlit("&adj-kari;");
            reveal_strlit("&adj-ku;");
            reveal_strlit("&adj-na;");
            reveal_strlit("&adj-nari;");
            reveal_strlit("&adj-no;");
            reveal_strlit("&adj-pn;");
            reveal_strlit("&adj-shiku;");
            reveal_strlit("&adj-t;");
            reveal_strlit("&adv;");
            assert("&v4b;"@[1] != "&adv;"@[1]);
            reveal_strlit("&adv-to;");
            reveal_strlit("&aux;");
            assert("&v4b;"@[1] != "&aux;"@[1]);
            reveal_strlit("&aux-adj;");
            reveal_strlit("&aux-v;");
            reveal_strlit("&conj;");
            reveal_strlit("&cop;");
            assert("&v4b;"@[1] != "&cop;"@[1]);
            reveal_strlit("&ctr;");
            assert("&v4b;"@[1] != "&ctr;"@[1]);
            reveal_strlit("&exp;");
            assert("&v4b;"@[1] != "&exp;"@[1]);
            reveal_strlit("&int;");
            assert("&v4b;"@[1] != "&int;"@[1]);
            reveal_strlit("&n;");
            reveal_strlit("&n-adv;");
            reveal_strlit("&n-pr;");
            reveal_strlit("&n-pref;");
            reveal_strlit("&n-suf;");
            reveal_strlit("&n-t;");
            assert("&v4b;"@[1] != "&n-t;"@[1]);
            reveal_strlit("&num;");
            assert("&v4b;"@[1] != "&num;"@[1]);
            reveal_strlit("&pn;");
            reveal_strlit("&pref;");
            reveal_strlit("&prt;");
            assert("&v4b;"@[1] != "&prt;"@[1]);
            reveal_strlit("&suf;");
            assert("&v4b;"@[1] != "&suf;"@[1]);
            reveal_strlit("&unc;");
            assert("&v4b;"@[1] != "&unc;"@[1]);
            reveal_strlit("&v-unspec;");
            reveal_strlit("&v1;");
            reveal_strlit("&v1-s;");
            reveal_strlit("&v2a-s;");
            reveal_strlit("&v2b-k;");
            reveal_strlit("&v2b-s;");
            reveal_strlit("&v2d-k;");
            reveal_strlit("&v2d-s;");
            reveal_strlit("&v2g-k;");
            reveal_strlit("&v2g-s;");
            reveal_strlit("&v2h-k;");
            reveal_strlit("&v2h-s;");
            reveal_strlit("&v2k-k;");
            reveal_strlit("&v2k-s;");
            reveal_strlit("&v2m-k;");
            reveal_strlit("&v2m-s;");
            reveal_strlit("&v2n-s;");
            reveal_strlit("&v2r-k;");
            reveal_strlit("&v2r-s;");
            reveal_strlit("&v2s-s;");
            reveal_strlit("&v2t-k;");
            reveal_strlit("&v2t-s;");
            reveal_strlit("&v2w-s;");
            reveal_strlit("&v2y-k;");
            reveal_strlit("&v2y-s;");
            reveal_strlit("&v2z-s;");
        },
        PartOfSpeech::VerbYodanG => {
            reveal_strlit("v4g");
            reveal_strlit("&v4g;");
            assert("&"@ + "v4g"@ + ";"@ =~= "&v4g;"@);
            reveal_strlit("&adj-f;");
            reveal_strlit("&adj-i;");
            reveal_strlit("&adj-ix;");
            reveal_strlit("&adj-kari;");
            reveal_strlit("&adj-ku;");
            reveal_strlit("&adj-na;");
            reveal_strlit("&adj-nari;");
            reveal_strlit("&adj-no;");
            reveal_strlit("&adj-pn;");
            reveal_strlit("&adj-shiku;");
            reveal_strlit("&adj-t;");
            reveal_strlit("&adv;");
            assert("&v4g;"@[1] != "&adv;"@[1]);
            reveal_strlit("&adv-to;");
            reveal_strlit("&aux;");
            assert("&v4g;"@[1] != "&aux;"@[1]);
            reveal_strlit("&aux-adj;");
            reveal_strlit("&aux-v;");
            reveal_strlit("&conj;");
            reveal_strlit("&cop;");
            assert("&v4g;"@[1] != "&cop;"@[1]);
            reveal_strlit("&ctr;");
            assert("&v4g;"@[1] != "&ctr;"@[1]);
            reveal_strlit("&exp;");
            assert("&v4g;"@[1] != "&exp;"@[1]);
            reveal_strlit("&int;");
            assert("&v4g;"@[1] != "&int;"@[1]);
            reveal_strlit("&n;");
            reveal_strlit("&n-adv;");
            reveal_strlit("&n-pr;");
            reveal_strlit("&n-pref;");
            reveal_strlit("&n-suf;");
            reveal_strlit("&n-t;");
            assert("&v4g;"@[1] != "&n-t;"@[1]);
            reveal_strlit("&num;");
            assert("&v4g;"@[1] != "&num;"@[1]);
            reveal_strlit("&pn;");
            reveal_strlit("&pref;");
            reveal_strlit("&prt;");
            assert("&v4g;"@[1] != "&prt;"@[1]);
            reveal_strlit("&suf;");
            assert("&v4g;"@[1] != "&suf;"@[1]);
            reveal_strlit("&unc;");
            assert("&v4g;"@[1] != "&unc;"@[1]);
            reveal_strlit("&v-unspec;");
            reveal_strlit("&v1;");
            reveal_strlit("&v1-s;");
            reveal_strlit("&v2a-s;");
            reveal_strlit("&v2b-k;");
            reveal_strlit("&v2b-s;");
            reveal_strlit("&v2d-k;");
            reveal_strlit("&v2d-s;");
            reveal_strlit("&v2g-k;");
            reveal_strlit("&v2g-s;");
            reveal_strlit("&v2h-k;");
            reveal_strlit("&v2h-s;");
            reveal_strlit("&v2k-k;");
            reveal_strlit("&v2k-s;");
            reveal_strlit("&v2m-k;");
            reveal_strlit("&v2m-s;");
            reveal_strlit("&v2n-s;");
            reveal_strlit("&v2r-k;");
            reveal_strlit("&v2r-s;");
            reveal_strlit("&v2s-s;");
            reveal_strlit("&v2t-k;");
            reveal_strlit("&v2t-s;");
            reveal_strlit("&v2w-s;");
            reveal_strlit("&v2y-k;");
            reveal_strlit("&v2y-s;");
            reveal_strlit("&v2z-s;");
            reveal_strlit("&v4b;");
            assert("&v4g;"@[3] != "&v4b;"@[3]);
        },
        PartOfSpeech::VerbYodanH => {
            reveal_strlit("v4h");
            reveal_strlit("&v4h;");
            assert("&"@ + "v4h"@ + ";"@ =~= "&v4h;"@);
            reveal_strlit("&adj-f;");
            reveal_strlit("&adj-i;");
            reveal_strlit("&adj-ix;");
            reveal_strlit("&adj-kari;");
            reveal_strlit("&adj-ku;");
            reveal_strlit("&adj-na;");
            reveal_strlit("&adj-nari;");
            reveal_strlit("&adj-no;");
            reveal_strlit("&adj-pn;");
            reveal_strlit("&adj-shiku;");
            reveal_strlit("&adj-t;");
            reveal_strlit("&adv;");
            assert("&v4h;"@[1] != "&adv;"@[1]);
            reveal_strlit("&adv-to;");
            reveal_strlit("&aux;");
            assert("&v4h;"@[1] != "&aux;"@[1]);
            reveal_strlit("&aux-adj;");
            reveal_strlit("&aux-v;");
            reveal_strlit("&conj;");
            reveal_strlit("&cop;");
            assert("&v4h;"@[1] != "&cop;"@[1]);
            reveal_strlit("&ctr;");
            assert("&v4h;"@[1] != "&ctr;"@[1]);
            reveal_strlit("&exp;");
            assert("&v4h;"@[1] != "&exp;"@[1]);
            reveal_strlit("&int;");
            assert("&v4h;"@[1] != "&int;"@[1]);
            reveal_strlit("&n;");
            reveal_strlit("&n-adv;");
            reveal_strlit("&n-pr;");
            reveal_strlit("&n-pref;");
            reveal_strlit("&n-suf;");
            reveal_strlit("&n-t;");
            assert("&v4h;"@[1] != "&n-t;"@[1]);
            reveal_strlit("&num;");
            assert("&v4h;"@[1] != "&num;"@[1]);
            reveal_strlit("&pn;");
            reveal_strlit("&pref;");
            reveal_strlit("&prt;");
            assert("&v4h;"@[1] != "&prt;"@[1]);
            reveal_strlit("&suf;");
            assert("&v4h;"@[1] != "&suf;"@[1]);
            reveal_strlit("&unc;");
            assert("&v4h;"@[1] != "&unc;"@[1]);
            reveal_strlit("&v-unspec;");
            reveal_strlit("&v1;");
            reveal_strlit("&v1-s;");
            reveal_strlit("&v2a-s;");
            reveal_strlit("&v2b-k;");
            reveal_strlit("&v2b-s;");
            reveal_strlit("&v2d-k;");
            reveal_strlit("&v2d-s;");
            reveal_strlit("&v2g-k;");
            reveal_strlit("&v2g-s;");
            reveal_strlit("&v2h-k;");
            reveal_strlit("&v2h-s;");
            reveal_strlit("&v2k-k;");
            reveal_strlit("&v2k-s;");
            reveal_strlit("&v2m-k;");
            reveal_strlit("&v2m-s;");
            reveal_strlit("&v2n-s;");
            reveal_strlit("&v2r-k;");
            reveal_strlit("&v2r-s;");
            reveal_strlit("&v2s-s;");
            reveal_strlit("&v2t-k;");
            reveal_strlit("&v2t-s;");
            reveal_strlit("&v2w-s;");
            reveal_strlit("&v2y-k;");
            reveal_strlit("&v2y-s;");
            reveal_strlit("&v2z-s;");
            reveal_strlit("&v4b;");
            assert("&v4h;"@[3] != "&v4b;"@[3]);
            reveal_strlit("&v4g;");
            assert("&v4h;"@[3] != "&v4g;"@[3]);
        },
        PartOfSpeech::VerbYodanK => {
            reveal_strlit("v4k");
            reveal_strlit("&v4k;");
            assert("&"@ + "v4k"@ + ";"@ =~= "&v4k;"@);
            reveal_strlit("&adj-f;");
            reveal_strlit("&adj-i;");
            reveal_strlit("&adj-ix;");
            reveal_strlit("&adj-kari;");
            reveal_strlit("&adj-ku;");
            reveal_strlit("&adj-na;");
            reveal_strlit("&adj-nari;");
            reveal_strlit("&adj-no;");
            reveal_strlit("&adj-pn;");
            reveal_strlit("&adj-shiku;");
            reveal_strlit("&adj-t;");
            reveal_strlit("&adv;");
            assert("&v4k;"@[1] != "&adv;"@[1]);
            reveal_strlit("&adv-to;");
            reveal_strlit("&aux;");
            assert("&v4k;"@[1] != "&aux;"@[1]);
            reveal_strlit("&aux-adj;");
            reveal_strlit("&aux-v;");
            reveal_strlit("&conj;");
            reveal_strlit("&cop;");
            assert("&v4k;"@[1] != "&cop;"@[1]);
            reveal_strlit("&ctr;");
            assert("&v4k;"@[1] != "&ctr;"@[1]);
            reveal_strlit("&exp;");
            assert("&v4k;"@[1] != "&exp;"@[1]);
            reveal_strlit("&int;");
            assert("&v4k;"@[1] != "&int;"@[1]);
            reveal_strlit("&n;");
            reveal_strlit("&n-adv;");
            reveal_strlit("&n-pr;");
            reveal_strlit("&n-pref;");
            reveal_strlit("&n-suf;");
            reveal_strlit("&n-t;");
            assert("&v4k;"@[1] != "&n-t;"@[1]);
            reveal_strlit("&num;");
            assert("&v4k;"@[1] != "&num;"@[1]);
            reveal_strlit("&pn;");
            reveal_strlit("&pref;");
            reveal_strlit("&prt;");
            assert("&v4k;"@[1] != "&prt;"@[1]);
            reveal_strlit("&suf;");
            assert("&v4k;"@[1] != "&suf;"@[1]);
            reveal_strlit("&unc;");
            assert("&v4k;"@[1] != "&unc;"@[1]);
            reveal_strlit("&v-unspec;");
            reveal_strlit("&v1;");
            reveal_strlit("&v1-s;");
            reveal_strlit("&v2a-s;");
            reveal_strlit("&v2b-k;");
            reveal_strlit("&v2b-s;");
            reveal_strlit("&v2d-k;");
            reveal_strlit("&v2d-s;");
            reveal_strlit("&v2g-k;");
            reveal_strlit("&v2g-s;");
            reveal_strlit("&v2h-k;");
            reveal_strlit("&v2h-s;");
            reveal_strlit("&v2k-k;");
            reveal_strlit("&v2k-s;");
            reveal_strlit("&v2m-k;");
            reveal_strlit("&v2m-s;");
            reveal_strlit("&v2n-s;");
            reveal_strlit("&v2r-k;");
            reveal_strlit("&v2r-s;");
            reveal_strlit("&v2s-s;");
            reveal_strlit("&v2t-k;");
            reveal_strlit("&v2t-s;");
            reveal_strlit("&v2w-s;");
            reveal_strlit("&v2y-k;");
            reveal_strlit("&v2y-s;");
            reveal_strlit("&v2z-s;");
            reveal_strlit("&v4b;");
            assert("&v4k;"@[3] != "&v4b;"@[3]);
            reveal_strlit("&v4g;");
            assert("&v4k;"@[3] != "&v4g;"@[3]);
            reveal_strlit("&v4h;");
            assert("&v4k;"@[3] != "&v4h;"@[3]);
        },
        PartOfSpeech::VerbYodanM => {
            reveal_strlit("v4m");
            reveal_strlit("&v4m;");
            assert("&"@ + "v4m"@ + ";"@ =~= "&v4m;"@);
            reveal_strlit("&adj-f;");
            reveal_strlit("&adj-i;");
            reveal_strlit("&adj-ix;");
            reveal_strlit("&adj-kari;");
            reveal_strlit("&adj-ku;");
            reveal_strlit("&adj-na;");
            reveal_strlit("&adj-nari;");
            reveal_strlit("&adj-no;");
            reveal_strlit("&adj-pn;");
            reveal_strlit("&adj-shiku;");
            reveal_strlit("&adj-t;");
            reveal_strlit("&adv;");
            assert("&v4m;"@[1] != "&adv;"@[1]);
            reveal_strlit("&adv-to;");
            reveal_strlit("&aux;");
            assert("&v4m;"@[1] != "&aux;"@[1]);
            reveal_strlit("&aux-adj;");
            reveal_strlit("&aux-v;");
            reveal_strlit("&conj;");
            reveal_strlit("&cop;");
            assert("&v4m;"@[1] != "&cop;"@[1]);
            reveal_strlit("&ctr;");
            assert("&v4m;"@[1] != "&ctr;"@[1]);
            reveal_strlit("&exp;");
            assert("&v4m;"@[1] != "&exp;"@[1]);
            reveal_strlit("&int;");
            assert("&v4m;"@[1] != "&int;"@[1]);
            reveal_strlit("&n;");
            reveal_strlit("&n-adv;");
            reveal_strlit("&n-pr;");
            reveal_strlit("&n-pref;");
            reveal_strlit("&n-suf;");
            reveal_strlit("&n-t;");
            assert("&v4m;"@[1] != "&n-t;"@[1]);
            reveal_strlit("&num;");
            assert("&v4m;"@[1] != "&num;"@[1]);
            reveal_strlit("&pn;");
            reveal_strlit("&pref;");
            reveal_strlit("&prt;");
            assert("&v4m;"@[1] != "&prt;"@[1]);
            reveal_strlit("&suf;");
            assert("&v4m;"@[1] != "&suf;"@[1]);
            reveal_strlit("&unc;");
            assert("&v4m;"@[1] != "&unc;"@[1]);
            reveal_strlit("&v-unspec;");
            reveal_strlit("&v1;");
            reveal_strlit("&v1-s;");
            reveal_strlit("&v2a-s;");
            reveal_strlit("&v2b-k;");
            reveal_strlit("&v2b-s;");
            reveal_strlit("&v2d-k;");
            reveal_strlit("&v2d-s;");
            reveal_strlit("&v2g-k;");
            reveal_strlit("&v2g-s;");
            reveal_strlit("&v2h-k;");
            reveal_strlit("&v2h-s;");
            reveal_strlit("&v2k-k;");
            reveal_strlit("&v2k-s;");
            reveal_strlit("&v2m-k;");
            reveal_strlit("&v2m-s;");
            reveal_strlit("&v2n-s;");
            reveal_strlit("&v2r-k;");
            reveal_strlit("&v2r-s;");
            reveal_strlit("&v2s-s;");
            reveal_strlit("&v2t-k;");
            reveal_strlit("&v2t-s;");
            reveal_strlit("&v2w-s;");
            reveal_strlit("&v2y-k;");
            reveal_strlit("&v2y-s;");
            reveal_strlit("&v2z-s;");
            reveal_strlit("&v4b;");
            assert("&v4m;"@[3] != "&v4b;"@[3]);
            reveal_strlit("&v4g;");
            assert("&v4m;"@[3] != "&v4g;"@[3]);
            reveal_strlit("&v4h;");
            assert("&v4m;"@[3] != "&v4h;"@[3]);
            reveal_strlit("&v4k;");
            assert("&v4m;"@[3] != "&v4k;"@[3]);
        },
        PartOfSpeech::VerbYodanN => {
            reveal_strlit("v4n");
            reveal_strlit("&v4n;");
            assert("&"@ + "v4n"@ + ";"@ =~= "&v4n;"@);
            reveal_strlit("&adj-f;");
            reveal_strlit("&adj-i;");
            reveal_strlit("&adj-ix;");
            reveal_strlit("&adj-kari;");
            reveal_strlit("&adj-ku;");
            reveal_strlit("&adj-na;");
            reveal_strlit("&adj-nari;");
            reveal_strlit("&adj-no;");
            reveal_strlit("&adj-pn;");
            reveal_strlit("&adj-shiku;");
            reveal_strlit("&adj-t;");
            reveal_strlit("&adv;");
            assert("&v4n;"@[1] != "&adv;"@[1]);
            reveal_strlit("&adv-to;");
            reveal_strlit("&aux;");
            assert("&v4n;"@[1] != "&aux;"@[1]);
            reveal_strlit("&aux-adj;");
            reveal_strlit("&aux-v;");
            reveal_strlit("&conj;");
            reveal_strlit("&cop;");
            assert("&v4n;"@[1] != "&cop;"@[1]);
            reveal_strlit("&ctr;");
            assert("&v4n;"@[1] != "&ctr;"@[1]);
            reveal_strlit("&exp;");
            assert("&v4n;"@[1] != "&exp;"@[1]);
            reveal_strlit("&int;");
            assert("&v4n;"@[1] != "&int;"@[1]);
            reveal_strlit("&n;");
            reveal_strlit("&n-adv;");
            reveal_strlit("&n-pr;");
            reveal_strlit("&n-pref;");
            reveal_strlit("&n-suf;");
            reveal_strlit("&n-t;");
            assert("&v4n;"@[1] != "&n-t;"@[1]);
            reveal_strlit("&num;");
            assert("&v4n;"@[1] != "&num;"@[1]);
            reveal_strlit("&pn;");
            reveal_strlit("&pref;");
            reveal_strlit("&prt;");
            assert("&v4n;"@[1] != "&prt;"@[1]);
            reveal_strlit("&suf;");
            assert("&v4n;"@[1] != "&suf;"@[1]);
            reveal_strlit("&unc;");
            assert("&v4n;"@[1] != "&unc;"@[1]);
            reveal_strlit("&v-unspec;");
            reveal_strlit("&v1;");
            reveal_strlit("&v1-s;");
            reveal_strlit("&v2a-s;");
            reveal_strlit("&v2b-k;");
            reveal_strlit("&v2b-s;");
            reveal_strlit("&v2d-k;");
            reveal_strlit("&v2d-s;");
            reveal_strlit("&v2g-k;");
            reveal_strlit("&v2g-s;");
            reveal_strlit("&v2h-k;");
            reveal_strlit("&v2h-s;");
            reveal_strlit("&v2k-k;");
            reveal_strlit("&v2k-s;");
            reveal_strlit("&v2m-k;");
            reveal_strlit("&v2m-s;");
            reveal_strlit("&v2n-s;");
            reveal_strlit("&v2r-k;");
            reveal_strlit("&v2r-s;");
            reveal_strlit("&v2s-s;");
            reveal_strlit("&v2t-k;");
            reveal_strlit("&v2t-s;");
            reveal_strlit("&v2w-s;");
            reveal_strlit("&v2y-k;");
            reveal_strlit("&v2y-s;");
            reveal_strlit("&v2z-s;");
            reveal_strlit("&v4b;");
            assert("&v4n;"@[3] != "&v4b;"@[3]);
            reveal_strlit("&v4g;");
            assert("&v4n;"@[3] != "&v4g;"@[3]);
            reveal_strlit("&v4h;");
            assert("&v4n;"@[3] != "&v4h;"@[3]);
            reveal_strlit("&v4k;");
            assert("&v4n;"@[3] != "&v4k;"@[3]);
            reveal_strlit("&v4m;");
            assert("&v4n;"@[3] != "&v4m;"@[3]);
        },
        PartOfSpeech::VerbYodanR => {
            reveal_strlit("v4r");
            reveal_strlit("&v4r;");
            assert("&"@ + "v4r"@ + ";"@ =~= "&v4r;"@);
            reveal_strlit("&adj-f;");
            reveal_strlit("&adj-i;");
            reveal_strlit("&adj-ix;");
            reveal_strlit("&adj-kari;");
            reveal_strlit("&adj-ku;");
            reveal_strlit("&adj-na;");
            reveal_strlit("&adj-nari;");
            reveal_strlit("&adj-no;");
            reveal_strlit("&adj-pn;");
            reveal_strlit("&adj-shiku;");
            reveal_strlit("&adj-t;");
            reveal_strlit("&adv;");
            assert("&v4r;"@[1] != "&adv;"@[1]);
            reveal_strlit("&adv-to;");
            reveal_strlit("&aux;");
            assert("&v4r;"@[1] != "&aux;"@[1]);
            reveal_strlit("&aux-adj;");
            reveal_strlit("&aux-v;");
            reveal_strlit("&conj;");
            reveal_strlit("&cop;");
            assert("&v4r;"@[1] != "&cop;"@[1]);
            reveal_strlit("&ctr;");
            assert("&v4r;"@[1] != "&ctr;"@[1]);
            reveal_strlit("&exp;");
            assert("&v4r;"@[1] != "&exp;"@[1]);
            reveal_strlit("&int;");
            assert("&v4r;"@[1] != "&int;"@[1]);
            reveal_strlit("&n;");
            reveal_strlit("&n-adv;");
            reveal_strlit("&n-pr;");
            reveal_strlit("&n-pref;");
            reveal_strlit("&n-suf;");
            reveal_strlit("&n-t;");
            assert("&v4r;"@[1] != "&n-t;"@[1]);
            reveal_strlit("&num;");
            assert("&v4r;"@[1] != "&num;"@[1]);
            reveal_strlit("&pn;");
            reveal_strlit("&pref;");
            reveal_strlit("&prt;");
            assert("&v4r;"@[1] != "&prt;"@[1]);
            reveal_strlit("&suf;");
            assert("&v4r;"@[1] != "&suf;"@[1]);
            reveal_strlit("&unc;");
            assert("&v4r;"@[1] != "&unc;"@[1]);
            reveal_strlit("&v-unspec;");
            reveal_strlit("&v1;");
            reveal_strlit("&v1-s;");
            reveal_strlit("&v2a-s;");
            reveal_strlit("&v2b-k;");
            reveal_strlit("&v2b-s;");
            reveal_strlit("&v2d-k;");
            reveal_strlit("&v2d-s;");
            reveal_strlit("&v2g-k;");
            reveal_strlit("&v2g-s;");
            reveal_strlit("&v2h-k;");
            reveal_strlit("&v2h-s;");
            reveal_strlit("&v2k-k;");
            reveal_strlit("&v2k-s;");
            reveal_strlit("&v2m-k;");
            reveal_strlit("&v2m-s;");
            reveal_strlit("&v2n-s;");
            reveal_strlit("&v2r-k;");
            reveal_strlit("&v2r-s;");
            reveal_strlit("&v2s-s;");
            reveal_strlit("&v2t-k;");
            reveal_strlit("&v2t-s;");
            reveal_strlit("&v2w-s;");
            reveal_strlit("&v2y-k;");
            reveal_strlit("&v2y-s;");
            reveal_strlit("&v2z-s;");
            reveal_strlit("&v4b;");
            assert("&v4r;"@[3] != "&v4b;"@[3]);
            reveal_strlit("&v4g;");
            assert("&v4r;"@[3] != "&v4g;"@[3]);
            reveal_strlit("&v4h;");
            assert("&v4r;"@[3] != "&v4h;"@[3]);
            reveal_strlit("&v4k;");
            assert("&v4r;"@[3] != "&v4k;"@[3]);
            reveal_strlit("&v4m;");
            assert("&v4r;"@[3] != "&v4m;"@[3]);
            reveal_strlit("&v4n;");
            assert("&v4r;"@[3] != "&v4n;"@[3]);
        },
        PartOfSpeech::VerbYodanS => {
            reveal_strlit("v4s");
            reveal_strlit("&v4s;");
            assert("&"@ + "v4s"@ + ";"@ =~= "&v4s;"@);
            reveal_strlit("&adj-f;");
            reveal_strlit("&adj-i;");
            reveal_strlit("&adj-ix;");
            reveal_strlit("&adj-kari;");
            reveal_strlit("&adj-ku;");
            reveal_strlit("&adj-na;");
            reveal_strlit("&adj-nari;");
            reveal_strlit("&adj-no;");
            reveal_strlit("&adj-pn;");
            reveal_strlit("&adj-shiku;");
            reveal_strlit("&adj-t;");
            reveal_strlit("&adv;");
            assert("&v4s;"@[1] != "&adv;"@[1]);
            reveal_strlit("&adv-to;");
            reveal_strlit("&aux;");
            assert("&v4s;"@[1] != "&aux;"@[1]);
            reveal_strlit("&aux-adj;");
            reveal_strlit("&aux-v;");
            reveal_strlit("&conj;");
            reveal_strlit("&cop;");
            assert("&v4s;"@[1] != "&cop;"@[1]);
            reveal_strlit("&ctr;");
            assert("&v4s;"@[1] != "&ctr;"@[1]);
            reveal_strlit("&exp;");
            assert("&v4s;"@[1] != "&exp;"@[1]);
            reveal_strlit("&int;");
            assert("&v4s;"@[1] != "&int;"@[1]);
            reveal_strlit("&n;");
            reveal_strlit("&n-adv;");
            reveal_strlit("&n-pr;");
            reveal_strlit("&n-pref;");
            reveal_strlit("&n-suf;");
            reveal_strlit("&n-t;");
            assert("&v4s;"@[1] != "&n-t;"@[1]);
            reveal_strlit("&num;");
            assert("&v4s;"@[1] != "&num;"@[1]);
            reveal_strlit("&pn;");
            reveal_strlit("&pref;");
            reveal_strlit("&prt;");
            assert("&v4s;"@[1] != "&prt;"@[1]);
            reveal_strlit("&suf;");
            assert("&v4s;"@[1] != "&suf;"@[1]);
            reveal_strlit("&unc;");
            assert("&v4s;"@[1] != "&unc;"@[1]);
            reveal_strlit("&v-unspec;");
            reveal_strlit("&v1;");
            reveal_strlit("&v1-s;");
            reveal_strlit("&v2a-s;");
            reveal_strlit("&v2b-k;");
            reveal_strlit("&v2b-s;");
            reveal_strlit("&v2d-k;");
            reveal_strlit("&v2d-s;");
            reveal_strlit("&v2g-k;");
            reveal_strlit("&v2g-s;");
            reveal_strlit("&v2h-k;");
            reveal_strlit("&v2h-s;");
            reveal_strlit("&v2k-k;");
            reveal_strlit("&v2k-s;");
            reveal_strlit("&v2m-k;");
            reveal_strlit("&v2m-s;");
            reveal_strlit("&v2n-s;");
            reveal_strlit("&v2r-k;");
            reveal_strlit("&v2r-s;");
            reveal_strlit("&v2s-s;");
            reveal_strlit("&v2t-k;");
            reveal_strlit("&v2t-s;");
            reveal_strlit("&v2w-s;");
            reveal_strlit("&v2y-k;");
            reveal_strlit("&v2y-s;");
            reveal_strlit("&v2z-s;");
            reveal_strlit("&v4b;");
            assert("&v4s;"@[3] != "&v4b;"@[3]);
            reveal_strlit("&v4g;");
            assert("&v4s;"@[3] != "&v4g;"@[3]);
            reveal_strlit("&v4h;");
            assert("&v4s;"@[3] != "&v4h;"@[3]);
            reveal_strlit("&v4k;");
            assert("&v4s;"@[3] != "&v4k;"@[3]);
            reveal_strlit("&v4m;");
            assert("&v4s;"@[3] != "&v4m;"@[3]);
            reveal_strlit("&v4n;");
            assert("&v4s;"@[3] != "&v4n;"@[3]);
            reveal_strlit("&v4r;");
            assert("&v4s;"@[3] != "&v4r;"@[3]);
        },
        PartOfSpeech::VerbYodanT => {
            reveal_strlit("v4t");
            reveal_strlit("&v4t;");
            assert("&"@ + "v4t"@ + ";"@ =~= "&v4t;"@);
            reveal_strlit("&adj-f;");
            reveal_strlit("&adj-i;");
            reveal_strlit("&adj-ix;");
            reveal_strlit("&adj-kari;");
            reveal_strlit("&adj-ku;");
            reveal_strlit("&adj-na;");
            reveal_strlit("&adj-nari;");
            reveal_strlit("&adj-no;");
            reveal_strlit("&adj-pn;");
            reveal_strlit("&adj-shiku;");
            reveal_strlit("&adj-t;");
            reveal_strlit("&adv;");
            assert("&v4t;"@[1] != "&adv;"@[1]);
            reveal_strlit("&adv-to;");
            reveal_strlit("&aux;");
            assert("&v4t;"@[1] != "&aux;"@[1]);
            reveal_strlit("&aux-adj;");
            reveal_strlit("&aux-v;");
            reveal_strlit("&conj;");
            reveal_strlit("&cop;");
            assert("&v4t;"@[1] != "&cop;"@[1]);
            reveal_strlit("&ctr;");
            assert("&v4t;"@[1] != "&ctr;"@[1]);
            reveal_strlit("&exp;");
            assert("&v4t;"@[1] != "&exp;"@[1]);
            reveal_strlit("&int;");
            assert("&v4t;"@[1] != "&int;"@[1]);
            reveal_strlit("&n;");
            reveal_strlit("&n-adv;");
            reveal_strlit("&n-pr;");
            reveal_strlit("&n-pref;");
            reveal_strlit("&n-suf;");
            reveal_strlit("&n-t;");
            assert("&v4t;"@[1] != "&n-t;"@[1]);
            reveal_strlit("&num;");
            assert("&v4t;"@[1] != "&num;"@[1]);
            reveal_strlit("&pn;");
            reveal_strlit("&pref;");
            reveal_strlit("&prt;");
            assert("&v4t;"@[1] != "&prt;"@[1]);
            reveal_strlit("&suf;");
            assert("&v4t;"@[1] != "&suf;"@[1]);
            reveal_strlit("&unc;");
            assert("&v4t;"@[1] != "&unc;"@[1]);
            reveal_strlit("&v-unspec;");
            reveal_strlit("&v1;");
            reveal_strlit("&v1-s;");
            reveal_strlit("&v2a-s;");
            reveal_strlit("&v2b-k;");
            reveal_strlit("&v2b-s;");
            reveal_strlit("&v2d-k;");
            reveal_strlit("&v2d-s;");
            reveal_strlit("&v2g-k;");
            reveal_strlit("&v2g-s;");
            reveal_strlit("&v2h-k;");
            reveal_strlit("&v2h-s;");
            reveal_strlit("&v2k-k;");
            reveal_strlit("&v2k-s;");
            reveal_strlit("&v2m-k;");
            reveal_strlit("&v2m-s;");
            reveal_strlit("&v2n-s;");
            reveal_strlit("&v2r-k;");
            reveal_strlit("&v2r-s;");
            reveal_strlit("&v2s-s;");
            reveal_strlit("&v2t-k;");
            reveal_strlit("&v2t-s;");
            reveal_strlit("&v2w-s;");
            reveal_strlit("&v2y-k;");
            reveal_strlit("&v2y-s;");
            reveal_strlit("&v2z-s;");
            reveal_strlit("&v4b;");
            assert("&v4t;"@[3] != "&v4b;"@[3]);
            reveal_strlit("&v4g;");
            assert("&v4t;"@[3] != "&v4g;"@[3]);
            reveal_strlit("&v4h;");
            assert("&v4t;"@[3] != "&v4h;"@[3]);
            reveal_strlit("&v4k;");
            assert("&v4t;"@[3] != "&v4k;"@[3]);
            reveal_strlit("&v4m;");
            assert("&v4t;"@[3] != "&v4m;"@[3]);
            reveal_strlit("&v4n;");
            assert("&v4t;"@[3] != "&v4n;"@[3]);
            reveal_strlit("&v4r;");
            assert("&v4t;"@[3] != "&v4r;"@[3]);
            reveal_strlit("&v4s;");
            assert("&v4t;"@[3] != "&v4s;"@[3]);
        },
        PartOfSpeech::VerbGodanAru => {
            reveal_strlit("v5aru");
            reveal_strlit("&v5aru;");
            assert("&"@ + "v5aru"@ + ";"@ =~= "&v5aru;"@);
            reveal_strlit("&adj-f;");
            assert("&v5aru;"@[1] != "&adj-f;"@[1]);
            reveal_strlit("&adj-i;");
            assert("&v5aru;"@[1] != "&adj-i;"@[1]);
            reveal_strlit("&adj-ix;");
            reveal_strlit("&adj-kari;");
            reveal_strlit("&adj-ku;");
            reveal_strlit("&adj-na;");
            reveal_strlit("&adj-nari;");
            reveal_strlit("&adj-no;");
            reveal_strlit("&adj-pn;");
            reveal_strlit("&adj-shiku;");
            reveal_strlit("&adj-t;");
            assert("&v5aru;"@[1] != "&adj-t;"@[1]);
            reveal_strlit("&adv;");
            reveal_strlit("&adv-to;");
            reveal_strlit("&aux;");
            reveal_strlit("&aux-adj;");
            reveal_strlit("&aux-v;");
            assert("&v5aru;"@[1] != "&aux-v;"@[1]);
            reveal_strlit("&conj;");
            reveal_strlit("&cop;");
            reveal_strlit("&ctr;");
            reveal_strlit("&exp;");
            reveal_strlit("&int;");
            reveal_strlit("&n;");
            reveal_strlit("&n-adv;");
            assert("&v5aru;"@[1] != "&n-adv;"@[1]);
            reveal_strlit("&n-pr;");
            reveal_strlit("&n-pref;");
            reveal_strlit("&n-suf;");
            assert("&v5aru;"@[1] != "&n-suf;"@[1]);
            reveal_strlit("&n-t;");
            reveal_strlit("&num;");
            reveal_strlit("&pn;");
            reveal_strlit("&pref;");
            reveal_strlit("&prt;");
            reveal_strlit("&suf;");
            reveal_strlit("&unc;");
            reveal_strlit("&v-unspec;");
            reveal_strlit("&v1;");
            reveal_strlit("&v1-s;");
            reveal_strlit("&v2a-s;");
            assert("&v5aru;"@[2] != "&v2a-s;"@[2]);
            reveal_strlit("&v2b-k;");
            assert("&v5aru;"@[2] != "&v2b-k;"@[2]);
            reveal_strlit("&v2b-s;");
            assert("&v5aru;"@[2] != "&v2b-s;"@[2]);
            reveal_strlit("&v2d-k;");
            assert("&v5aru;"@[2] != "&v2d-k;"@[2]);
            reveal_strlit("&v2d-s;");
            assert("&v5aru;"@[2] != "&v2d-s;"@[2]);
            reveal_strlit("&v2g-k;");
            assert("&v5aru;"@[2] != "&v2g-k;"@[2]);
            reveal_strlit("&v2g-s;");
            assert("&v5aru;"@[2] != "&v2g-s;"@[2]);
            reveal_strlit("&v2h-k;");
            assert("&v5aru;"@[2] != "&v2h-k;"@[2]);
            reveal_strlit("&v2h-s;");
            assert("&v5aru;"@[2] != "&v2h-s;"@[2]);
            reveal_strlit("&v2k-k;");
            assert("&v5aru;"@[2] != "&v2k-k;"@[2]);
            reveal_strlit("&v2k-s;");
            assert("&v5aru;"@[2] != "&v2k-s;"@[2]);
            reveal_strlit("&v2m-k;");
            assert("&v5aru;"@[2] != "&v2m-k;"@[2]);
            reveal_strlit("&v2m-s;");
            assert("&v5aru;"@[2] != "&v2m-s;"@[2]);
            reveal_strlit("&v2n-s;");
            assert("&v5aru;"@[2] != "&v2n-s;"@[2]);
            reveal_strlit("&v2r-k;");
            assert("&v5aru;"@[2] != "&v2r-k;"@[2]);
            reveal_strlit("&v2r-s;");
            assert("&v5aru;"@[2] != "&v2r-s;"@[2]);
            reveal_strlit("&v2s-s;");
            assert("&v5aru;"@[2] != "&v2s-s;"@[2]);
            reveal_strlit("&v2t-k;");
            assert("&v5aru;"@[2] != "&v2t-k;"@[2]);
            reveal_strlit("&v2t-s;");
            assert("&v5aru;"@[2] != "&v2t-s;"@[2]);
            reveal_strlit("&v2w-s;");
            assert("&v5aru;"@[2] != "&v2w-s;"@[2]);
            reveal_strlit("&v2y-k;");
            assert("&v5aru;"@[2] != "&v2y-k;"@[2]);
            reveal_strlit("&v2y-s;");
            assert("&v5aru;"@[2] != "&v2y-s;"@[2]);
            reveal_strlit("&v2z-s;");
            assert("&v5aru;"@[2] != "&v2z-s;"@[2]);
            reveal_strlit("&v4b;");
            reveal_strlit("&v4g;");
            reveal_strlit("&v4h;");
            reveal_strlit("&v4k;");
            reveal_strlit("&v4m;");
            reveal_strlit("&v4n;");
            reveal_strlit("&v4r;");
            reveal_strlit("&v4s;");
            reveal_strlit("&v4t;");
        },
        PartOfSpeech::VerbGodanB => {
            reveal_strlit("v5b");
            reveal_strlit("&v5b;");
            assert("&"@ + "v5b"@ + ";"@ =~= "&v5b;"@);
            reveal_strlit("&adj-f;");
            reveal_strlit("&adj-i;");
            reveal_strlit("&adj-ix;");
            reveal_strlit("&adj-kari;");
            reveal_strlit("&adj-ku;");
            reveal_strlit("&adj-na;");
            reveal_strlit("&adj-nari;");
            reveal_strlit("&adj-no;");
            reveal_strlit("&adj-pn;");
            reveal_strlit("&adj-shiku;");
            reveal_strlit("&adj-t;");
            reveal_strlit("&adv;");
            assert("&v5b;"@[1] != "&adv;"@[1]);
            reveal_strlit("&adv-to;");
            reveal_strlit("&aux;");
            assert("&v5b;"@[1] != "&aux;"@[1]);
            reveal_strlit("&aux-adj;");
            reveal_strlit("&aux-v;");
            reveal_strlit("&conj;");
            reveal_strlit("&cop;");
            assert("&v5b;"@[1] != "&cop;"@[1]);
            reveal_strlit("&ctr;");
            assert("&v5b;"@[1] != "&ctr;"@[1]);
            reveal_strlit("&exp;");
            assert("&v5b;"@[1] != "&exp;"@[1]);
            reveal_strlit("&int;");
            assert("&v5b;"@[1] != "&int;"@[1]);
            reveal_strlit("&n;");
            reveal_strlit("&n-adv;");
            reveal_strlit("&n-pr;");
            reveal_strlit("&n-pref;");
            reveal_strlit("&n-suf;");
            reveal_strlit("&n-t;");
            assert("&v5b;"@[1] != "&n-t;"@[1]);
            reveal_strlit("&num;");
            assert("&v5b;"@[1] != "&num;"@[1]);
            reveal_strlit("&pn;");
            reveal_strlit("&pref;");
            reveal_strlit("&prt;");
            assert("&v5b;"@[1] != "&prt;"@[1]);
            reveal_strlit("&suf;");
            assert("&v5b;"@[1] != "&suf;"@[1]);
            reveal_strlit("&unc;");
            assert("&v5b;"@[1] != "&unc;"@[1]);
            reveal_strlit("&v-unspec;");
            reveal_strlit("&v1;");
            reveal_strlit("&v1-s;");
            reveal_strlit("&v2a-s;");
            reveal_strlit("&v2b-k;");
            reveal_strlit("&v2b-s;");
            reveal_strlit("&v2d-k;");
            reveal_strlit("&v2d-s;");
            reveal_strlit("&v2g-k;");
            reveal_strlit("&v2g-s;");
            reveal_strlit("&v2h-k;");
            reveal_strlit("&v2h-s;");
            reveal_strlit("&v2k-k;");
            reveal_strlit("&v2k-s;");
            reveal_strlit("&v2m-k;");
            reveal_strlit("&v2m-s;");
            reveal_strlit("&v2n-s;");
            reveal_strlit("&v2r-k;");
            reveal_strlit("&v2r-s;");
            reveal_strlit("&v2s-s;");
            reveal_strlit("&v2t-k;");
            reveal_strlit("&v2t-s;");
            reveal_strlit("&v2w-s;");
            reveal_strlit("&v2y-k;");
            reveal_strlit("&v2y-s;");
            reveal_strlit("&v2z-s;");
            reveal_strlit("&v4b;");
            assert("&v5b;"@[2] != "&v4b;"@[2]);
            reveal_strlit("&v4g;");
            assert("&v5b;"@[2] != "&v4g;"@[2]);
            reveal_strlit("&v4h;");
            assert("&v5b;"@[2] != "&v4h;"@[2]);
            reveal_strlit("&v4k;");
            assert("&v5b;"@[2] != "&v4k;"@[2]);
            reveal_strlit("&v4m;");
            assert("&v5b;"@[2] != "&v4m;"@[2]);
            reveal_strlit("&v4n;");
            assert("&v5b;"@[2] != "&v4n;"@[2]);
            reveal_strlit("&v4r;");
            assert("&v5b;"@[2] != "&v4r;"@[2]);
            reveal_strlit("&v4s;");
            assert("&v5b;"@[2] != "&v4s;"@[2]);
            reveal_strlit("&v4t;");
            assert("&v5b;"@[2] != "&v4t;"@[2]);
            reveal_strlit("&v5aru;");
        },
        PartOfSpeech::VerbGodanG => {
            reveal_strlit("v5g");
            reveal_strlit("&v5g;");
            assert("&"@ + "v5g"@ + ";"@ =~= "&v5g;"@);
            reveal_strlit("&adj-f;");
            reveal_strlit("&adj-i;");
            reveal_strlit("&adj-ix;");
            reveal_strlit("&adj-kari;");
            reveal_strlit("&adj-ku;");
            reveal_strlit("&adj-na;");
            reveal_strlit("&adj-nari;");
            reveal_strlit("&adj-no;");
            reveal_strlit("&adj-pn;");
            reveal_strlit("&adj-shiku;");
            reveal_strlit("&adj-t;");
            reveal_strlit("&adv;");
            assert("&v5g;"@[1] != "&adv;"@[1]);
            reveal_strlit("&adv-to;");
            reveal_strlit("&aux;");
            assert("&v5g;"@[1] != "&aux;"@[1]);
            reveal_strlit("&aux-adj;");
            reveal_strlit("&aux-v;");
            reveal_strlit("&conj;");
            reveal_strlit("&cop;");
            assert("&v5g;"@[1] != "&cop;"@[1]);
            reveal_strlit("&ctr;");
            assert("&v5g;"@[1] != "&ctr;"@[1]);
            reveal_strlit("&exp;");
            assert("&v5g;"@[1] != "&exp;"@[1]);
            reveal_strlit("&int;");
            assert("&v5g;"@[1] != "&int;"@[1]);
            reveal_strlit("&n;");
            reveal_strlit("&n-adv;");
            reveal_strlit("&n-pr;");
            reveal_strlit("&n-pref;");
            reveal_strlit("&n-suf;");
            reveal_strlit("&n-t;");
            assert("&v5g;"@[1] != "&n-t;"@[1]);
            reveal_strlit("&num;");
            assert("&v5g;"@[1] != "&num;"@[1]);
            reveal_strlit("&pn;");
            reveal_strlit("&pref;");
            reveal_strlit("&prt;");
            assert("&v5g;"@[1] != "&prt;"@[1]);
            reveal_strlit("&suf;");
            assert("&v5g;"@[1] != "&suf;"@[1]);
            reveal_strlit("&unc;");
            assert("&v5g;"@[1] != "&unc;"@[1]);
            reveal_strlit("&v-unspec;");
            reveal_strlit("&v1;");
            reveal_strlit("&v1-s;");
            reveal_strlit("&v2a-s;");
            reveal_strlit("&v2b-k;");
            reveal_strlit("&v2b-s;");
            reveal_strlit("&v2d-k;");
            reveal_strlit("&v2d-s;");
            reveal_strlit("&v2g-k;");
            reveal_strlit("&v2g-s;");
            reveal_strlit("&v2h-k;");
            reveal_strlit("&v2h-s;");
            reveal_strlit("&v2k-k;");
            reveal_strlit("&v2k-s;");
            reveal_strlit("&v2m-k;");
            reveal_strlit("&v2m-s;");
            reveal_strlit("&v2n-s;");
            reveal_strlit("&v2r-k;");
            reveal_strlit("&v2r-s;");
            reveal_strlit("&v2s-s;");
            reveal_strlit("&v2t-k;");
            reveal_strlit("&v2t-s;");
            reveal_strlit("&v2w-s;");
            reveal_strlit("&v2y-k;");
            reveal_strlit("&v2y-s;");
            reveal_strlit("&v2z-s;");
            reveal_strlit("&v4b;");
            assert("&v5g;"@[2] != "&v4b;"@[2]);
            reveal_strlit("&v4g;");
            assert("&v5g;"@[2] != "&v4g;"@[2]);
            reveal_strlit("&v4h;");
            assert("&v5g;"@[2] != "&v4h;"@[2]);
            reveal_strlit("&v4k;");
            assert("&v5g;"@[2] != "&v4k;"@[2]);
            reveal_strlit("&v4m;");
            assert("&v5g;"@[2] != "&v4m;"@[2]);
            reveal_strlit("&v4n;");
            assert("&v5g;"@[2] != "&v4n;"@[2]);
            reveal_strlit("&v4r;");
            assert("&v5g;"@[2] != "&v4r;"@[2]);
            reveal_strlit("&v4s;");
            assert("&v5g;"@[2] != "&v4s;"@[2]);
            reveal_strlit("&v4t;");
            assert("&v5g;"@[2] != "&v4t;"@[2]);
            reveal_strlit("&v5aru;");
            reveal_strlit("&v5b;");
            assert("&v5g;"@[3] != "&v5b;"@[3]);
        },
        PartOfSpeech::VerbGodanK => {
            reveal_strlit("v5k");
            reveal_strlit("&v5k;");
            assert("&"@ + "v5k"@ + ";"@ =~= "&v5k;"@);
            reveal_strlit("&adj-f;");
            reveal_strlit("&adj-i;");
            reveal_strlit("&adj-ix;");
            reveal_strlit("&adj-kari;");
            reveal_strlit("&adj-ku;");
            reveal_strlit("&adj-na;");
            reveal_strlit("&adj-nari;");
            reveal_strlit("&adj-no;");
            reveal_strlit("&adj-pn;");
            reveal_strlit("&adj-shiku;");
            reveal_strlit("&adj-t;");
            reveal_strlit("&adv;");
            assert("&v5k;"@[1] != "&adv;"@[1]);
            reveal_strlit("&adv-to;");
            reveal_strlit("&aux;");
            assert("&v5k;"@[1] != "&aux;"@[1]);
            reveal_strlit("&aux-adj;");
            reveal_strlit("&aux-v;");
            reveal_strlit("&conj;");
            reveal_strlit("&cop;");
            assert("&v5k;"@[1] != "&cop;"@[1]);
            reveal_strlit("&ctr;");
            assert("&v5k;"@[1] != "&ctr;"@[1]);
            reveal_strlit("&exp;");
            assert("&v5k;"@[1] != "&exp;"@[1]);
            reveal_strlit("&int;");
            assert("&v5k;"@[1] != "&int;"@[1]);
            reveal_strlit("&n;");
            reveal_strlit("&n-adv;");
            reveal_strlit("&n-pr;");
            reveal_strlit("&n-pref;");
            reveal_strlit("&n-suf;");
            reveal_strlit("&n-t;");
            assert("&v5k;"@[1] != "&n-t;"@[1]);
            reveal_strlit("&num;");
            assert("&v5k;"@[1] != "&num;"@[1]);
            reveal_strlit("&pn;");
            reveal_strlit("&pref;");
            reveal_strlit("&prt;");
            assert("&v5k;"@[1] != "&prt;"@[1]);
            reveal_strlit("&suf;");
            assert("&v5k;"@[1] != "&suf;"@[1]);
            reveal_strlit("&unc;");
            assert("&v5k;"@[1] != "&unc;"@[1]);
            reveal_strlit("&v-unspec;");
            reveal_strlit("&v1;");
            reveal_strlit("&v1-s;");
            reveal_strlit("&v2a-s;");
            reveal_strlit("&v2b-k;");
            reveal_strlit("&v2b-s;");
            reveal_strlit("&v2d-k;");
            reveal_strlit("&v2d-s;");
            reveal_strlit("&v2g-k;");
            reveal_strlit("&v2g-s;");
            reveal_strlit("&v2h-k;");
            reveal_strlit("&v2h-s;");
            reveal_strlit("&v2k-k;");
            reveal_strlit("&v2k-s;");
            reveal_strlit("&v2m-k;");
            reveal_strlit("&v2m-s;");
            reveal_strlit("&v2n-s;");
            reveal_strlit("&v2r-k;");
            reveal_strlit("&v2r-s;");
            reveal_strlit("&v2s-s;");
            reveal_strlit("&v2t-k;");
            reveal_strlit("&v2t-s;");
            reveal_strlit("&v2w-s;");
            reveal_strlit("&v2y-k;");
            reveal_strlit("&v2y-s;");
            reveal_strlit("&v2z-s;");
            reveal_strlit("&v4b;");
            assert("&v5k;"@[2] != "&v4b;"@[2]);
            reveal_strlit("&v4g;");
            assert("&v5k;"@[2] != "&v4g;"@[2]);
            reveal_strlit("&v4h;");
            assert("&v5k;"@[2] != "&v4h;"@[2]);
            reveal_strlit("&v4k;");
            assert("&v5k;"@[2] != "&v4k;"@[2]);
            reveal_strlit("&v4m;");
            assert("&v5k;"@[2] != "&v4m;"@[2]);
            reveal_strlit("&v4n;");
            assert("&v5k;"@[2] != "&v4n;"@[2]);
            reveal_strlit("&v4r;");
            assert("&v5k;"@[2] != "&v4r;"@[2]);
            reveal_strlit("&v4s;");
            assert("&v5k;"@[2] != "&v4s;"@[2]);
            reveal_strlit("&v4t;");
            assert("&v5k;"@[2] != "&v4t;"@[2]);
            reveal_strlit("&v5aru;");
            reveal_strlit("&v5b;");
            assert("&v5k;"@[3] != "&v5b;"@[3]);
            reveal_strlit("&v5g;");
            assert("&v5k;"@[3] != "&v5g;"@[3]);
        },
        PartOfSpeech::VerbGodanKS => {
            reveal_strlit("v5k-s");
            reveal_strlit("&v5k-s;");
            assert("&"@ + "v5k-s"@ + ";"@ =~= "&v5k-s;"@);
            reveal_strlit("&adj-f;");
            assert("&v5k-s;"@[1] != "&adj-f;"@[1]);
            reveal_strlit("&adj-i;");
            assert("&v5k-s;"@[1] != "&adj-i;"@[1]);
            reveal_strlit("&adj-ix;");
            reveal_strlit("&adj-kari;");
            reveal_strlit("&adj-ku;");
            reveal_strlit("&adj-na;");
            reveal_strlit("&adj-nari;");
            reveal_strlit("&adj-no;");
            reveal_strlit("&adj-pn;");
            reveal_strlit("&adj-shiku;");
            reveal_strlit("&adj-t;");
            assert("&v5k-s;"@[1] != "&adj-t;"@[1]);
            reveal_strlit("&adv;");
            reveal_strlit("&adv-to;");
            reveal_strlit("&aux;");
            reveal_strlit("&aux-adj;");
            reveal_strlit("&aux-v;");
            assert("&v5k-s;"@[1] != "&aux-v;"@[1]);
            reveal_strlit("&conj;");
            reveal_strlit("&cop;");
            reveal_strlit("&ctr;");
            reveal_strlit("&exp;");
            reveal_strlit("&int;");
            reveal_strlit("&n;");
            reveal_strlit("&n-adv;");
            assert("&v5k-s;"@[1] != "&n-adv;"@[1]);
            reveal_strlit("&n-pr;");
            reveal_strlit("&n-pref;");
            reveal_strlit("&n-suf;");
            assert("&v5k-s;"@[1] != "&n-suf;"@[1]);
            reveal_strlit("&n-t;");
            reveal_strlit("&num;");
            reveal_strlit("&pn;");
            reveal_strlit("&pref;");
            reveal_strlit("&prt;");
            reveal_strlit("&suf;");
            reveal_strlit("&unc;");
            reveal_strlit("&v-unspec;");
            reveal_strlit("&v1;");
            reveal_strlit("&v1-s;");
            reveal_strlit("&v2a-s;");
            assert("&v5k-s;"@[2] != "&v2a-s;"@[2]);
            reveal_strlit("&v2b-k;");
            assert("&v5k-s;"@[2] != "&v2b-k;"@[2]);
            reveal_strlit("&v2b-s;");
            assert("&v5k-s;"@[2] != "&v2b-s;"@[2]);
            reveal_strlit("&v2d-k;");
            assert("&v5k-s;"@[2] != "&v2d-k;"@[2]);
            reveal_strlit("&v2d-s;");
            assert("&v5k-s;"@[2] != "&v2d-s;"@[2]);
            reveal_strlit("&v2g-k;");
            assert("&v5k-s;"@[2] != "&v2g-k;"@[2]);
            reveal_strlit("&v2g-s;");
            assert("&v5k-s;"@[2] != "&v2g-s;"@[2]);
            reveal_strlit("&v2h-k;");
            assert("&v5k-s;"@[2] != "&v2h-k;"@[2]);
            reveal_strlit("&v2h-s;");
            assert("&v5k-s;"@[2] != "&v2h-s;"@[2]);
            reveal_strlit("&v2k-k;");
            assert("&v5k-s;"@[2] != "&v2k-k;"@[2]);
            reveal_strlit("&v2k-s;");
            assert("&v5k-s;"@[2] != "&v2k-s;"@[2]);
            reveal_strlit("&v2m-k;");
            assert("&v5k-s;"@[2] != "&v2m-k;"@[2]);
            reveal_strlit("&v2m-s;");
            assert("&v5k-s;"@[2] != "&v2m-s;"@[2]);
            reveal_strlit("&v2n-s;");
            assert("&v5k-s;"@[2] != "&v2n-s;"@[2]);
            reveal_strlit("&v2r-k;");
            assert("&v5k-s;"@[2] != "&v2r-k;"@[2]);
            reveal_strlit("&v2r-s;");
            assert("&v5k-s;"@[2] != "&v2r-s;"@[2]);
            reveal_strlit("&v2s-s;");
            assert("&v5k-s;"@[2] != "&v2s-s;"@[2]);
            reveal_strlit("&v2t-k;");
            assert("&v5k-s;"@[2] != "&v2t-k;"@[2]);
            reveal_strlit("&v2t-s;");
            assert("&v5k-s;"@[2] != "&v2t-s;"@[2]);
            reveal_strlit("&v2w-s;");
            assert("&v5k-s;"@[2] != "&v2w-s;"@[2]);
            reveal_strlit("&v2y-k;");
            assert("&v5k-s;"@[2] != "&v2y-k;"@[2]);
            reveal_strlit("&v2y-s;");
            assert("&v5k-s;"@[2] != "&v2y-s;"@[2]);
            reveal_strlit("&v2z-s;");
            assert("&v5k-s;"@[2] != "&v2z-s;"@[2]);
            reveal_strlit("&v4b;");
            reveal_strlit("&v4g;");
            reveal_strlit("&v4h;");
            reveal_strlit("&v4k;");
            reveal_strlit("&v4m;");
            reveal_strlit("&v4n;");
            reveal_strlit("&v4r;");
            reveal_strlit("&v4s;");
            reveal_strlit("&v4t;");
            reveal_strlit("&v5aru;");
            assert("&v5k-s;"@[3] != "&v5aru;"@[3]);
            reveal_strlit("&v5b;");
            reveal_strlit("&v5g;");
            reveal_strlit("&v5k;");
        },
        PartOfSpeech::VerbGodanM => {
            reveal_strlit("v5m");
            reveal_strlit("&v5m;");
            assert("&"@ + "v5m"@ + ";"@ =~= "&v5m;"@);
            reveal_strlit("&adj-f;");
            reveal_strlit("&adj-i;");
            reveal_strlit("&adj-ix;");
            reveal_strlit("&adj-kari;");
            reveal_strlit("&adj-ku;");
            reveal_strlit("&adj-na;");
            reveal_strlit("&adj-nari;");
            reveal_strlit("&adj-no;");
            reveal_strlit("&adj-pn;");
            reveal_strlit("&adj-shiku;");
            reveal_strlit("&adj-t;");
            reveal_strlit("&adv;");
            assert("&v5m;"@[1] != "&adv;"@[1]);
            reveal_strlit("&adv-to;");
            reveal_strlit("&aux;");
            assert("&v5m;"@[1] != "&aux;"@[1]);
            reveal_strlit("&aux-adj;");
            reveal_strlit("&aux-v;");
            reveal_strlit("&conj;");
            reveal_strlit("&cop;");
            assert("&v5m;"@[1] != "&cop;"@[1]);
            reveal_strlit("&ctr;");
            assert("&v5m;"@[1] != "&ctr;"@[1]);
            reveal_strlit("&exp;");
            assert("&v5m;"@[1] != "&exp;"@[1]);
            reveal_strlit("&int;");
            assert("&v5m;"@[1] != "&int;"@[1]);
            reveal_strlit("&n;");
            reveal_strlit("&n-adv;");
            reveal_strlit("&n-pr;");
            reveal_strlit("&n-pref;");
            reveal_strlit("&n-suf;");
            reveal_strlit("&n-t;");
            assert("&v5m;"@[1] != "&n-t;"@[1]);
            reveal_strlit("&num;");
            assert("&v5m;"@[1] != "&num;"@[1]);
            reveal_strlit("&pn;");
            reveal_strlit("&pref;");
            reveal_strlit("&prt;");
            assert("&v5m;"@[1] != "&prt;"@[1]);
            reveal_strlit("&suf;");
            assert("&v5m;"@[1] != "&suf;"@[1]);
            reveal_strlit("&unc;");
            assert("&v5m;"@[1] != "&unc;"@[1]);
            reveal_strlit("&v-unspec;");
            reveal_strlit("&v1;");
            reveal_strlit("&v1-s;");
            reveal_strlit("&v2a-s;");
            reveal_strlit("&v2b-k;");
            reveal_strlit("&v2b-s;");
            reveal_strlit("&v2d-k;");
            reveal_strlit("&v2d-s;");
            reveal_strlit("&v2g-k;");
            reveal_strlit("&v2g-s;");
            reveal_strlit("&v2h-k;");
            reveal_strlit("&v2h-s;");
            reveal_strlit("&v2k-k;");
            reveal_strlit("&v2k-s;");
            reveal_strlit("&v2m-k;");
            reveal_strlit("&v2m-s;");
            reveal_strlit("&v2n-s;");
            reveal_strlit("&v2r-k;");
            reveal_strlit("&v2r-s;");
            reveal_strlit("&v2s-s;");
            reveal_strlit("&v2t-k;");
            reveal_strlit("&v2t-s;");
            reveal_strlit("&v2w-s;");
            reveal_strlit("&v2y-k;");
            reveal_strlit("&v2y-s;");
            reveal_strlit("&v2z-s;");
            reveal_strlit("&v4b;");
            assert("&v5m;"@[2] != "&v4b;"@[2]);
            reveal_strlit("&v4g;");
            assert("&v5m;"@[2] != "&v4g;"@[2]);
            reveal_strlit("&v4h;");
            assert("&v5m;"@[2] != "&v4h;"@[2]);
            reveal_strlit("&v4k;");
            assert("&v5m;"@[2] != "&v4k;"@[2]);
            reveal_strlit("&v4m;");
            assert("&v5m;"@[2] != "&v4m;"@[2]);
            reveal_strlit("&v4n;");
            assert("&v5m;"@[2] != "&v4n;"@[2]);
            reveal_strlit("&v4r;");
            assert("&v5m;"@[2] != "&v4r;"@[2]);
            reveal_strlit("&v4s;");
            assert("&v5m;"@[2] != "&v4s;"@[2]);
            reveal_strlit("&v4t;");
            assert("&v5m;"@[2] != "&v4t;"@[2]);
            reveal_strlit("&v5aru;");
            reveal_strlit("&v5b;");
            assert("&v5m;"@[3] != "&v5b;"@[3]);
            reveal_strlit("&v5g;");
            assert("&v5m;"@[3] != "&v5g;"@[3]);
            reveal_strlit("&v5k;");
            assert("&v5m;"@[3] != "&v5k;"@[3]);
            reveal_strlit("&v5k-s;");
        },
        PartOfSpeech::VerbGodanN => {
            reveal_strlit("v5n");
            reveal_strlit("&v5n;");
            assert("&"@ + "v5n"@ + ";"@ =~= "&v5n;"@);
            reveal_strlit("&adj-f;");
            reveal_strlit("&adj-i;");
            reveal_strlit("&adj-ix;");
            reveal_strlit("&adj-kari;");
            reveal_strlit("&adj-ku;");
            reveal_strlit("&adj-na;");
            reveal_strlit("&adj-nari;");
            reveal_strlit("&adj-no;");
            reveal_strlit("&adj-pn;");
            reveal_strlit("&adj-shiku;");
            reveal_strlit("&adj-t;");
            reveal_strlit("&adv;");
            assert("&v5n;"@[1] != "&adv;"@[1]);
            reveal_strlit("&adv-to;");
            reveal_strlit("&aux;");
            assert("&v5n;"@[1] != "&aux;"@[1]);
            reveal_strlit("&aux-adj;");
            reveal_strlit("&aux-v;");
            reveal_strlit("&conj;");
            reveal_strlit("&cop;");
            assert("&v5n;"@[1] != "&cop;"@[1]);
            reveal_strlit("&ctr;");
            assert("&v5n;"@[1] != "&ctr;"@[1]);
            reveal_strlit("&exp;");
            assert("&v5n;"@[1] != "&exp;"@[1]);
            reveal_strlit("&int;");
            assert("&v5n;"@[1] != "&int;"@[1]);
            reveal_strlit("&n;");
            reveal_strlit("&n-adv;");
            reveal_strlit("&n-pr;");
            reveal_strlit("&n-pref;");
            reveal_strlit("&n-suf;");
            reveal_strlit("&n-t;");
            assert("&v5n;"@[1] != "&n-t;"@[1]);
            reveal_strlit("&num;");
            assert("&v5n;"@[1] != "&num;"@[1]);
            reveal_strlit("&pn;");
            reveal_strlit("&pref;");
            reveal_strlit("&prt;");
            assert("&v5n;"@[1] != "&prt;"@[1]);
            reveal_strlit("&suf;");
            assert("&v5n;"@[1] != "&suf;"@[1]);
            reveal_strlit("&unc;");
            assert("&v5n;"@[1] != "&unc;"@[1]);
            reveal_strlit("&v-unspec;");
            reveal_strlit("&v1;");
            reveal_strlit("&v1-s;");
            reveal_strlit("&v2a-s;");
            reveal_strlit("&v2b-k;");
            reveal_strlit("&v2b-s;");
            reveal_strlit("&v2d-k;");
            reveal_strlit("&v2d-s;");
            reveal_strlit("&v2g-k;");
            reveal_strlit("&v2g-s;");
            reveal_strlit("&v2h-k;");
            reveal_strlit("&v2h-s;");
            reveal_strlit("&v2k-k;");
            reveal_strlit("&v2k-s;");
            reveal_strlit("&v2m-k;");
            reveal_strlit("&v2m-s;");
            reveal_strlit("&v2n-s;");
            reveal_strlit("&v2r-k;");
            reveal_strlit("&v2r-s;");
            reveal_strlit("&v2s-s;");
            reveal_strlit("&v2t-k;");
            reveal_strlit("&v2t-s;");
            reveal_strlit("&v2w-s;");
            reveal_strlit("&v2y-k;");
            reveal_strlit("&v2y-s;");
            reveal_strlit("&v2z-s;");
            reveal_strlit("&v4b;");
            assert("&v5n;"@[2] != "&v4b;"@[2]);
            reveal_strlit("&v4g;");
            assert("&v5n;"@[2] != "&v4g;"@[2]);
            reveal_strlit("&v4h;");
            assert("&v5n;"@[2] != "&v4h;"@[2]);
            reveal_strlit("&v4k;");
            assert("&v5n;"@[2] != "&v4k;"@[2]);
            reveal_strlit("&v4m;");
            assert("&v5n;"@[2] != "&v4m;"@[2]);
            reveal_strlit("&v4n;");
            assert("&v5n;"@[2] != "&v4n;"@[2]);
            reveal_strlit("&v4r;");
            assert("&v5n;"@[2] != "&v4r;"@[2]);
            reveal_strlit("&v4s;");
            assert("&v5n;"@[2] != "&v4s;"@[2]);
            reveal_strlit("&v4t;");
            assert("&v5n;"@[2] != "&v4t;"@[2]);
            reveal_strlit("&v5aru;");
            reveal_strlit("&v5b;");
            assert("&v5n;"@[3] != "&v5b;"@[3]);
            reveal_strlit("&v5g;");
            assert("&v5n;"@[3] != "&v5g;"@[3]);
            reveal_strlit("&v5k;");
            assert("&v5n;"@[3] != "&v5k;"@[3]);
            reveal_strlit("&v5k-s;");
            reveal_strlit("&v5m;");
            assert("&v5n;"@[3] != "&v5m;"@[3]);
        },
        PartOfSpeech::VerbGodanR => {
            reveal_strlit("v5r");
            reveal_strlit("&v5r;");
            assert("&"@ + "v5r"@ + ";"@ =~= "&v5r;"@);
            reveal_strlit("&adj-f;");
            reveal_strlit("&adj-i;");
            reveal_strlit("&adj-ix;");
            reveal_strlit("&adj-kari;");
            reveal_strlit("&adj-ku;");
            reveal_strlit("&adj-na;");
            reveal_strlit("&adj-nari;");
            reveal_strlit("&adj-no;");
            reveal_strlit("&adj-pn;");
            reveal_strlit("&adj-shiku;");
            reveal_strlit("&adj-t;");
            reveal_strlit("&adv;");
            assert("&v5r;"@[1] != "&adv;"@[1]);
            reveal_strlit("&adv-to;");
            reveal_strlit("&aux;");
            assert("&v5r;"@[1] != "&aux;"@[1]);
            reveal_strlit("&aux-adj;");
            reveal_strlit("&aux-v;");
            reveal_strlit("&conj;");
            reveal_strlit("&cop;");
            assert("&v5r;"@[1] != "&cop;"@[1]);
            reveal_strlit("&ctr;");
            assert("&v5r;"@[1] != "&ctr;"@[1]);
            reveal_strlit("&exp;");
            assert("&v5r;"@[1] != "&exp;"@[1]);
            reveal_strlit("&int;");
            assert("&v5r;"@[1] != "&int;"@[1]);
            reveal_strlit("&n;");
            reveal_strlit("&n-adv;");
            reveal_strlit("&n-pr;");
            reveal_strlit("&n-pref;");
            reveal_strlit("&n-suf;");
            reveal_strlit("&n-t;");
            assert("&v5r;"@[1] != "&n-t;"@[1]);
            reveal_strlit("&num;");
            assert("&v5r;"@[1] != "&num;"@[1]);
            reveal_strlit("&pn;");
            reveal_strlit("&pref;");
            reveal_strlit("&prt;");
            assert("&v5r;"@[1] != "&prt;"@[1]);
            reveal_strlit("&suf;");
            assert("&v5r;"@[1] != "&suf;"@[1]);
            reveal_strlit("&unc;");
            assert("&v5r;"@[1] != "&unc;"@[1]);
            reveal_strlit("&v-unspec;");
            reveal_strlit("&v1;");
            reveal_strlit("&v1-s;");
            reveal_strlit("&v2a-s;");
            reveal_strlit("&v2b-k;");
            reveal_strlit("&v2b-s;");
            reveal_strlit("&v2d-k;");
            reveal_strlit("&v2d-s;");
            reveal_strlit("&v2g-k;");
            reveal_strlit("&v2g-s;");
            reveal_strlit("&v2h-k;");
            reveal_strlit("&v2h-s;");
            reveal_strlit("&v2k-k;");
            reveal_strlit("&v2k-s;");
            reveal_strlit("&v2m-k;");
            reveal_strlit("&v2m-s;");
            reveal_strlit("&v2n-s;");
            reveal_strlit("&v2r-k;");
            reveal_strlit("&v2r-s;");
            reveal_strlit("&v2s-s;");
            reveal_strlit("&v2t-k;");
            reveal_strlit("&v2t-s;");
            reveal_strlit("&v2w-s;");
            reveal_strlit("&v2y-k;");
            reveal_strlit("&v2y-s;");
            reveal_strlit("&v2z-s;");
            reveal_strlit("&v4b;");
            assert("&v5r;"@[2] != "&v4b;"@[2]);
            reveal_strlit("&v4g;");
            assert("&v5r;"@[2] != "&v4g;"@[2]);
            reveal_strlit("&v4h;");
            assert("&v5r;"@[2] != "&v4h;"@[2]);
            reveal_strlit("&v4k;");
            assert("&v5r;"@[2] != "&v4k;"@[2]);
            reveal_strlit("&v4m;");
            assert("&v5r;"@[2] != "&v4m;"@[2]);
            reveal_strlit("&v4n;");
            assert("&v5r;"@[2] != "&v4n;"@[2]);
            reveal_strlit("&v4r;");
            assert("&v5r;"@[2] != "&v4r;"@[2]);
            reveal_strlit("&v4s;");
            assert("&v5r;"@[2] != "&v4s;"@[2]);
            reveal_strlit("&v4t;");
            assert("&v5r;"@[2] != "&v4t;"@[2]);
            reveal_strlit("&v5aru;");
            reveal_strlit("&v5b;");
            assert("&v5r;"@[3] != "&v5b;"@[3]);
            reveal_strlit("&v5g;");
            assert("&v5r;"@[3] != "&v5g;"@[3]);
            reveal_strlit("&v5k;");
            assert("&v5r;"@[3] != "&v5k;"@[3]);
            reveal_strlit("&v5k-s;");
            reveal_strlit("&v5m;");
            assert("&v5r;"@[3] != "&v5m;"@[3]);
            reveal_strlit("&v5n;");
            assert("&v5r;"@[3] != "&v5n;"@[3]);
        },
        PartOfSpeech::VerbGodanRI => {
            reveal_strlit("v5r-i");
            reveal_strlit("&v5r-i;");
            assert("&"@ + "v5r-i"@ + ";"@ =~= "&v5r-i;"@);
            reveal_strlit("&adj-f;");
            assert("&v5r-i;"@[1] != "&adj-f;"@[1]);
            reveal_strlit("&adj-i;");
            assert("&v5r-i;"@[1] != "&adj-i;"@[1]);
            reveal_strlit("&adj-ix;");
            reveal_strlit("&adj-kari;");
            reveal_strlit("&adj-ku;");
            reveal_strlit("&adj-na;");
            reveal_strlit("&adj-nari;");
            reveal_strlit("&adj-no;");
            reveal_strlit("&adj-pn;");
            reveal_strlit("&adj-shiku;");
            reveal_strlit("&adj-t;");
            assert("&v5r-i;"@[1] != "&adj-t;"@[1]);
            reveal_strlit("&adv;");
            reveal_strlit("&adv-to;");
            reveal_strlit("&aux;");
            reveal_strlit("&aux-adj;");
            reveal_strlit("&aux-v;");
            assert("&v5r-i;"@[1] != "&aux-v;"@[1]);
            reveal_strlit("&conj;");
            reveal_strlit("&cop;");
            reveal_strlit("&ctr;");
            reveal_strlit("&exp;");
            reveal_strlit("&int;");
            reveal_strlit("&n;");
            reveal_strlit("&n-adv;");
            assert("&v5r-i;"@[1] != "&n-adv;"@[1]);
            reveal_strlit("&n-pr;");
            reveal_strlit("&n-pref;");
            reveal_strlit("&n-suf;");
            assert("&v5r-i;"@[1] != "&n-suf;"@[1]);
            reveal_strlit("&n-t;");
            reveal_strlit("&num;");
            reveal_strlit("&pn;");
            reveal_strlit("&pref;");
            reveal_strlit("&prt;");
            reveal_strlit("&suf;");
            reveal_strlit("&unc;");
            reveal_strlit("&v-unspec;");
            reveal_strlit("&v1;");
            reveal_strlit("&v1-s;");
            reveal_strlit("&v2a-s;");
            assert("&v5r-i;"@[2] != "&v2a-s;"@[2]);
            reveal_strlit("&v2b-k;");
            assert("&v5r-i;"@[2] != "&v2b-k;"@[2]);
            reveal_strlit("&v2b-s;");
            assert("&v5r-i;"@[2] != "&v2b-s;"@[2]);
            reveal_strlit("&v2d-k;");
            assert("&v5r-i;"@[2] != "&v2d-k;"@[2]);
            reveal_strlit("&v2d-s;");
            assert("&v5r-i;"@[2] != "&v2d-s;"@[2]);
            reveal_strlit("&v2g-k;");
            assert("&v5r-i;"@[2] != "&v2g-k;"@[2]);
            reveal_strlit("&v2g-s;");
            assert("&v5r-i;"@[2] != "&v2g-s;"@[2]);
            reveal_strlit("&v2h-k;");
            assert("&v5r-i;"@[2] != "&v2h-k;"@[2]);
            reveal_strlit("&v2h-s;");
            assert("&v5r-i;"@[2] != "&v2h-s;"@[2]);
            reveal_strlit("&v2k-k;");
            assert("&v5r-i;"@[2] != "&v2k-k;"@[2]);
            reveal_strlit("&v2k-s;");
            assert("&v5r-i;"@[2] != "&v2k-s;"@[2]);
            reveal_strlit("&v2m-k;");
            assert("&v5r-i;"@[2] != "&v2m-k;"@[2]);
            reveal_strlit("&v2m-s;");
            assert("&v5r-i;"@[2] != "&v2m-s;"@[2]);
            reveal_strlit("&v2n-s;");
            assert("&v5r-i;"@[2] != "&v2n-s;"@[2]);
            reveal_strlit("&v2r-k;");
            assert("&v5r-i;"@[2] != "&v2r-k;"@[2]);
            reveal_strlit("&v2r-s;");
            assert("&v5r-i;"@[2] != "&v2r-s;"@[2]);
            reveal_strlit("&v2s-s;");
            assert("&v5r-i;"@[2] != "&v2s-s;"@[2]);
            reveal_strlit("&v2t-k;");
            assert("&v5r-i;"@[2] != "&v2t-k;"@[2]);
            reveal_strlit("&v2t-s;");
            assert("&v5r-i;"@[2] != "&v2t-s;"@[2]);
            reveal_strlit("&v2w-s;");
            assert("&v5r-i;"@[2] != "&v2w-s;"@[2]);
            reveal_strlit("&v2y-k;");
            assert("&v5r-i;"@[2] != "&v2y-k;"@[2]);
            reveal_strlit("&v2y-s;");
            assert("&v5r-i;"@[2] != "&v2y-s;"@[2]);
            reveal_strlit("&v2z-s;");
            assert("&v5r-i;"@[2] != "&v2z-s;"@[2]);
            reveal_strlit("&v4b;");
            reveal_strlit("&v4g;");
            reveal_strlit("&v4h;");
            reveal_strlit("&v4k;");
            reveal_strlit("&v4m;");
            reveal_strlit("&v4n;");
            reveal_strlit("&v4r;");
            reveal_strlit("&v4s;");
            reveal_strlit("&v4t;");
            reveal_strlit("&v5aru;");
            assert("&v5r-i;"@[3] != "&v5aru;"@[3]);
            reveal_strlit("&v5b;");
            reveal_strlit("&v5g;");
            reveal_strlit("&v5k;");
            reveal_strlit("&v5k-s;");
            assert("&v5r-i;"@[3] != "&v5k-s;"@[3]);
            reveal_strlit("&v5m;");
            reveal_strlit("&v5n;");
            reveal_strlit("&v5r;");
        },
        PartOfSpeech::VerbGodanS => {
            reveal_strlit("v5s");
            reveal_strlit("&v5s;");
            assert("&"@ + "v5s"@ + ";"@ =~= "&v5s;"@);
            reveal_strlit("&adj-f;");
            reveal_strlit("&adj-i;");
            reveal_strlit("&adj-ix;");
            reveal_strlit("&adj-kari;");
            reveal_strlit("&adj-ku;");
            reveal_strlit("&adj-na;");
            reveal_strlit("&adj-nari;");
            reveal_strlit("&adj-no;");
            reveal_strlit("&adj-pn;");
            reveal_strlit("&adj-shiku;");
            reveal_strlit("&adj-t;");
            reveal_strlit("&adv;");
            assert("&v5s;"@[1] != "&adv;"@[1]);
            reveal_strlit("&adv-to;");
            reveal_strlit("&aux;");
            assert("&v5s;"@[1] != "&aux;"@[1]);
            reveal_strlit("&aux-adj;");
            reveal_strlit("&aux-v;");
            reveal_strlit("&conj;");
            reveal_strlit("&cop;");
            assert("&v5s;"@[1] != "&cop;"@[1]);
            reveal_strlit("&ctr;");
            assert("&v5s;"@[1] != "&ctr;"@[1]);
            reveal_strlit("&exp;");
            assert("&v5s;"@[1] != "&exp;"@[1]);
            reveal_strlit("&int;");
            assert("&v5s;"@[1] != "&int;"@[1]);
            reveal_strlit("&n;");
            reveal_strlit("&n-adv;");
            reveal_strlit("&n-pr;");
            reveal_strlit("&n-pref;");
            reveal_strlit("&n-suf;");
            reveal_strlit("&n-t;");
            assert("&v5s;"@[1] != "&n-t;"@[1]);
            reveal_strlit("&num;");
            assert("&v5s;"@[1] != "&num;"@[1]);
            reveal_strlit("&pn;");
            reveal_strlit("&pref;");
            reveal_strlit("&prt;");
            assert("&v5s;"@[1] != "&prt;"@[1]);
            reveal_strlit("&suf;");
            assert("&v5s;"@[1] != "&suf;"@[1]);
            reveal_strlit("&unc;");
            assert("&v5s;"@[1] != "&unc;"@[1]);
            reveal_strlit("&v-unspec;");
            reveal_strlit("&v1;");
            reveal_strlit("&v1-s;");
            reveal_strlit("&v2a-s;");
            reveal_strlit("&v2b-k;");
            reveal_strlit("&v2b-s;");
            reveal_strlit("&v2d-k;");
            reveal_strlit("&v2d-s;");
            reveal_strlit("&v2g-k;");
            reveal_strlit("&v2g-s;");
            reveal_strlit("&v2h-k;");
            reveal_strlit("&v2h-s;");
            reveal_strlit("&v2k-k;");
            reveal_strlit("&v2k-s;");
            reveal_strlit("&v2m-k;");
            reveal_strlit("&v2m-s;");
            reveal_strlit("&v2n-s;");
            reveal_strlit("&v2r-k;");
            reveal_strlit("&v2r-s;");
            reveal_strlit("&v2s-s;");
            reveal_strlit("&v2t-k;");
            reveal_strlit("&v2t-s;");
            reveal_strlit("&v2w-s;");
            reveal_strlit("&v2y-k;");
            reveal_strlit("&v2y-s;");
            reveal_strlit("&v2z-s;");
            reveal_strlit("&v4b;");
            assert("&v5s;"@[2] != "&v4b;"@[2]);
            reveal_strlit("&v4g;");
            assert("&v5s;"@[2] != "&v4g;"@[2]);
            reveal_strlit("&v4h;");
            assert("&v5s;"@[2] != "&v4h;"@[2]);
            reveal_strlit("&v4k;");
            assert("&v5s;"@[2] != "&v4k;"@[2]);
            reveal_strlit("&v4m;");
            assert("&v5s;"@[2] != "&v4m;"@[2]);
            reveal_strlit("&v4n;");
            assert("&v5s;"@[2] != "&v4n;"@[2]);
            reveal_strlit("&v4r;");
            assert("&v5s;"@[2] != "&v4r;"@[2]);
            reveal_strlit("&v4s;");
            assert("&v5s;"@[2] != "&v4s;"@[2]);
            reveal_strlit("&v4t;");
            assert("&v5s;"@[2] != "&v4t;"@[2]);
            reveal_strlit("&v5aru;");
            reveal_strlit("&v5b;");
            assert("&v5s;"@[3] != "&v5b;"@[3]);
            reveal_strlit("&v5g;");
            assert("&v5s;"@[3] != "&v5g;"@[3]);
            reveal_strlit("&v5k;");
            assert("&v5s;"@[3] != "&v5k;"@[3]);
            reveal_strlit("&v5k-s;");
            reveal_strlit("&v5m;");
            assert("&v5s;"@[3] != "&v5m;"@[3]);
            reveal_strlit("&v5n;");
            assert("&v5s;"@[3] != "&v5n;"@[3]);
            reveal_strlit("&v5r;");
            assert("&v5s;"@[3] != "&v5r;"@[3]);
            reveal_strlit("&v5r-i;");
        },
        PartOfSpeech::VerbGodanT => {
            reveal_strlit("v5t");
            reveal_strlit("&v5t;");
            assert("&"@ + "v5t"@ + ";"@ =~= "&v5t;"@);
            reveal_strlit("&adj-f;");
            reveal_strlit("&adj-i;");
            reveal_strlit("&adj-ix;");
            reveal_strlit("&adj-kari;");
            reveal_strlit("&adj-ku;");
            reveal_strlit("&adj-na;");
            reveal_strlit("&adj-nari;");
            reveal_strlit("&adj-no;");
            reveal_strlit("&adj-pn;");
            reveal_strlit("&adj-shiku;");
            reveal_strlit("&adj-t;");
            reveal_strlit("&adv;");
            assert("&v5t;"@[1] != "&adv;"@[1]);
            reveal_strlit("&adv-to;");
            reveal_strlit("&aux;");
            assert("&v5t;"@[1] != "&aux;"@[1]);
            reveal_strlit("&aux-adj;");
            reveal_strlit("&aux-v;");
            reveal_strlit("&conj;");
            reveal_strlit("&cop;");
            assert("&v5t;"@[1] != "&cop;"@[1]);
            reveal_strlit("&ctr;");
            assert("&v5t;"@[1] != "&ctr;"@[1]);
            reveal_strlit("&exp;");
            assert("&v5t;"@[1] != "&exp;"@[1]);
            reveal_strlit("&int;");
            assert("&v5t;"@[1] != "&int;"@[1]);
            reveal_strlit("&n;");
            reveal_strlit("&n-adv;");
            reveal_strlit("&n-pr;");
            reveal_strlit("&n-pref;");
            reveal_strlit("&n-suf;");
            reveal_strlit("&n-t;");
            assert("&v5t;"@[1] != "&n-t;"@[1]);
            reveal_strlit("&num;");
            assert("&v5t;"@[1] != "&num;"@[1]);
            reveal_strlit("&pn;");
            reveal_strlit("&pref;");
            reveal_strlit("&prt;");
            assert("&v5t;"@[1] != "&prt;"@[1]);
            reveal_strlit("&suf;");
            assert("&v5t;"@[1] != "&suf;"@[1]);
            reveal_strlit("&unc;");
            assert("&v5t;"@[1] != "&unc;"@[1]);
            reveal_strlit("&v-unspec;");
            reveal_strlit("&v1;");
            reveal_strlit("&v1-s;");
            reveal_strlit("&v2a-s;");
            reveal_strlit("&v2b-k;");
            reveal_strlit("&v2b-s;");
            reveal_strlit("&v2d-k;");
            reveal_strlit("&v2d-s;");
            reveal_strlit("&v2g-k;");
            reveal_strlit("&v2g-s;");
            reveal_strlit("&v2h-k;");
            reveal_strlit("&v2h-s;");
            reveal_strlit("&v2k-k;");
            reveal_strlit("&v2k-s;");
            reveal_strlit("&v2m-k;");
            reveal_strlit("&v2m-s;");
            reveal_strlit("&v2n-s;");
            reveal_strlit("&v2r-k;");
            reveal_strlit("&v2r-s;");
            reveal_strlit("&v2s-s;");
            reveal_strlit("&v2t-k;");
            reveal_strlit("&v2t-s;");
            reveal_strlit("&v2w-s;");
            reveal_strlit("&v2y-k;");
            reveal_strlit("&v2y-s;");
            reveal_strlit("&v2z-s;");
            reveal_strlit("&v4b;");
            assert("&v5t;"@[2] != "&v4b;"@[2]);
            reveal_strlit("&v4g;");
            assert("&v5t;"@[2] != "&v4g;"@[2]);
            reveal_strlit("&v4h;");
            assert("&v5t;"@[2] != "&v4h;"@[2]);
            reveal_strlit("&v4k;");
            assert("&v5t;"@[2] != "&v4k;"@[2]);
            reveal_strlit("&v4m;");
            assert("&v5t;"@[2] != "&v4m;"@[2]);
            reveal_strlit("&v4n;");
            assert("&v5t;"@[2] != "&v4n;"@[2]);
            reveal_strlit("&v4r;");
            assert("&v5t;"@[2] != "&v4r;"@[2]);
            reveal_strlit("&v4s;");
            assert("&v5t;"@[2] != "&v4s;"@[2]);
            reveal_strlit("&v4t;");
            assert("&v5t;"@[2] != "&v4t;"@[2]);
            reveal_strlit("&v5aru;");
            reveal_strlit("&v5b;");
            assert("&v5t;"@[3] != "&v5b;"@[3]);
            reveal_strlit("&v5g;");
            assert("&v5t;"@[3] != "&v5g;"@[3]);
            reveal_strlit("&v5k;");
            assert("&v5t;"@[3] != "&v5k;"@[3]);
            reveal_strlit("&v5k-s;");
            reveal_strlit("&v5m;");
            assert("&v5t;"@[3] != "&v5m;"@[3]);
            reveal_strlit("&v5n;");
            assert("&v5t;"@[3] != "&v5n;"@[3]);
            reveal_strlit("&v5r;");
            assert("&v5t;"@[3] != "&v5r;"@[3]);
            reveal_strlit("&v5r-i;");
            reveal_strlit("&v5s;");
            assert("&v5t;"@[3] != "&v5s;"@[3]);
        },
        PartOfSpeech::VerbGodanU => {
            reveal_strlit("v5u");
            reveal_strlit("&v5u;");
            assert("&"@ + "v5u"@ + ";"@ =~= "&v5u;"@);
            reveal_strlit("&adj-f;");
            reveal_strlit("&adj-i;");
            reveal_strlit("&adj-ix;");
            reveal_strlit("&adj-kari;");
            reveal_strlit("&adj-ku;");
            reveal_strlit("&adj-na;");
            reveal_strlit("&adj-nari;");
            reveal_strlit("&adj-no;");
            reveal_strlit("&adj-pn;");
            reveal_strlit("&adj-shiku;");
            reveal_strlit("&adj-t;");
            reveal_strlit("&adv;");
            assert("&v5u;"@[1] != "&adv;"@[1]);
            reveal_strlit("&adv-to;");
            reveal_strlit("&aux;");
            assert("&v5u;"@[1] != "&aux;"@[1]);
            reveal_strlit("&aux-adj;");
            reveal_strlit("&aux-v;");
            reveal_strlit("&conj;");
            reveal_strlit("&cop;");
            assert("&v5u;"@[1] != "&cop;"@[1]);
            reveal_strlit("&ctr;");
            assert("&v5u;"@[1] != "&ctr;"@[1]);
            reveal_strlit("&exp;");
            assert("&v5u;"@[1] != "&exp;"@[1]);
            reveal_strlit("&int;");
            assert("&v5u;"@[1] != "&int;"@[1]);
            reveal_strlit("&n;");
            reveal_strlit("&n-adv;");
            reveal_strlit("&n-pr;");
            reveal_strlit("&n-pref;");
            reveal_strlit("&n-suf;");
            reveal_strlit("&n-t;");
            assert("&v5u;"@[1] != "&n-t;"@[1]);
            reveal_strlit("&num;");
            assert("&v5u;"@[1] != "&num;"@[1]);
            reveal_strlit("&pn;");
            reveal_strlit("&pref;");
            reveal_strlit("&prt;");
            assert("&v5u;"@[1] != "&prt;"@[1]);
            reveal_strlit("&suf;");
            assert("&v5u;"@[1] != "&suf;"@[1]);
            reveal_strlit("&unc;");
            assert("&v5u;"@[1] != "&unc;"@[1]);
            reveal_strlit("&v-unspec;");
            reveal_strlit("&v1;");
            reveal_strlit("&v1-s;");
            reveal_strlit("&v2a-s;");
            reveal_strlit("&v2b-k;");
            reveal_strlit("&v2b-s;");
            reveal_strlit("&v2d-k;");
            reveal_strlit("&v2d-s;");
            reveal_strlit("&v2g-k;");
            reveal_strlit("&v2g-s;");
            reveal_strlit("&v2h-k;");
            reveal_strlit("&v2h-s;");
            reveal_strlit("&v2k-k;");
            reveal_strlit("&v2k-s;");
            reveal_strlit("&v2m-k;");
            reveal_strlit("&v2m-s;");
            reveal_strlit("&v2n-s;");
            reveal_strlit("&v2r-k;");
            reveal_strlit("&v2r-s;");
            reveal_strlit("&v2s-s;");
            reveal_strlit("&v2t-k;");
            reveal_strlit("&v2t-s;");
            reveal_strlit("&v2w-s;");
            reveal_strlit("&v2y-k;");
            reveal_strlit("&v2y-s;");
            reveal_strlit("&v2z-s;");
            reveal_strlit("&v4b;");
            assert("&v5u;"@[2] != "&v4b;"@[2]);
            reveal_strlit("&v4g;");
            assert("&v5u;"@[2] != "&v4g;"@[2]);
            reveal_strlit("&v4h;");
            assert("&v5u;"@[2] != "&v4h;"@[2]);
            reveal_strlit("&v4k;");
            assert("&v5u;"@[2] != "&v4k;"@[2]);
            reveal_strlit("&v4m;");
            assert("&v5u;"@[2] != "&v4m;"@[2]);
            reveal_strlit("&v4n;");
            assert("&v5u;"@[2] != "&v4n;"@[2]);
            reveal_strlit("&v4r;");
            assert("&v5u;"@[2] != "&v4r;"@[2]);
            reveal_strlit("&v4s;");
            assert("&v5u;"@[2] != "&v4s;"@[2]);
            reveal_strlit("&v4t;");
            assert("&v5u;"@[2] != "&v4t;"@[2]);
            reveal_strlit("&v5aru;");
            reveal_strlit("&v5b;");
            assert("&v5u;"@[3] != "&v5b;"@[3]);
            reveal_strlit("&v5g;");
            assert("&v5u;"@[3] != "&v5g;"@[3]);
            reveal_strlit("&v5k;");
            assert("&v5u;"@[3] != "&v5k;"@[3]);
            reveal_strlit("&v5k-s;");
            reveal_strlit("&v5m;");
            assert("&v5u;"@[3] != "&v5m;"@[3]);
            reveal_strlit("&v5n;");
            assert("&v5u;"@[3] != "&v5n;"@[3]);
            reveal_strlit("&v5r;");
            assert("&v5u;"@[3] != "&v5r;"@[3]);
            reveal_strlit("&v5r-i;");
            reveal_strlit("&v5s;");
            assert("&v5u;"@[3] != "&v5s;"@[3]);
            reveal_strlit("&v5t;");
            assert("&v5u;"@[3] != "&v5t;"@[3]);
        },
        PartOfSpeech::VerbGodanUS => {
            reveal_strlit("v5u-s");
            reveal_strlit("&v5u-s;");
            assert("&"@ + "v5u-s"@ + ";"@ =~= "&v5u-s;"@);
            reveal_strlit("&adj-f;");
            assert("&v5u-s;"@[1] != "&adj-f;"@[1]);
            reveal_strlit("&adj-i;");
            assert("&v5u-s;"@[1] != "&adj-i;"@[1]);
            reveal_strlit("&adj-ix;");
            reveal_strlit("&adj-kari;");
            reveal_strlit("&adj-ku;");
            reveal_strlit("&adj-na;");
            reveal_strlit("&adj-nari;");
            reveal_strlit("&adj-no;");
            reveal_strlit("&adj-pn;");
            reveal_strlit("&adj-shiku;");
            reveal_strlit("&adj-t;");
            assert("&v5u-s;"@[1] != "&adj-t;"@[1]);
            reveal_strlit("&adv;");
            reveal_strlit("&adv-to;");
            reveal_strlit("&aux;");
            reveal_strlit("&aux-adj;");
            reveal_strlit("&aux-v;");
            assert("&v5u-s;"@[1] != "&aux-v;"@[1]);
            reveal_strlit("&conj;");
            reveal_strlit("&cop;");
            reveal_strlit("&ctr;");
            reveal_strlit("&exp;");
            reveal_strlit("&int;");
            reveal_strlit("&n;");
            reveal_strlit("&n-adv;");
            assert("&v5u-s;"@[1] != "&n-adv;"@[1]);
            reveal_strlit("&n-pr;");
            reveal_strlit("&n-pref;");
            reveal_strlit("&n-suf;");
            assert("&v5u-s;"@[1] != "&n-suf;"@[1]);
            reveal_strlit("&n-t;");
            reveal_strlit("&num;");
            reveal_strlit("&pn;");
            reveal_strlit("&pref;");
            reveal_strlit("&prt;");
            reveal_strlit("&suf;");
            reveal_strlit("&unc;");
            reveal_strlit("&v-unspec;");
            reveal_strlit("&v1;");
            reveal_strlit("&v1-s;");
            reveal_strlit("&v2a-s;");
            assert("&v5u-s;"@[2] != "&v2a-s;"@[2]);
            reveal_strlit("&v2b-k;");
            assert("&v5u-s;"@[2] != "&v2b-k;"@[2]);
            reveal_strlit("&v2b-s;");
            assert("&v5u-s;"@[2] != "&v2b-s;"@[2]);
            reveal_strlit("&v2d-k;");
            assert("&v5u-s;"@[2] != "&v2d-k;"@[2]);
            reveal_strlit("&v2d-s;");
            assert("&v5u-s;"@[2] != "&v2d-s;"@[2]);
            reveal_strlit("&v2g-k;");
            assert("&v5u-s;"@[2] != "&v2g-k;"@[2]);
            reveal_strlit("&v2g-s;");
            assert("&v5u-s;"@[2] != "&v2g-s;"@[2]);
            reveal_strlit("&v2h-k;");
            assert("&v5u-s;"@[2] != "&v2h-k;"@[2]);
            reveal_strlit("&v2h-s;");
            assert("&v5u-s;"@[2] != "&v2h-s;"@[2]);
            reveal_strlit("&v2k-k;");
            assert("&v5u-s;"@[2] != "&v2k-k;"@[2]);
            reveal_strlit("&v2k-s;");
            assert("&v5u-s;"@[2] != "&v2k-s;"@[2]);
            reveal_strlit("&v2m-k;");
            assert("&v5u-s;"@[2] != "&v2m-k;"@[2]);
            reveal_strlit("&v2m-s;");
            assert("&v5u-s;"@[2] != "&v2m-s;"@[2]);
            reveal_strlit("&v2n-s;");
            assert("&v5u-s;"@[2] != "&v2n-s;"@[2]);
            reveal_strlit("&v2r-k;");
            assert("&v5u-s;"@[2] != "&v2r-k;"@[2]);
            reveal_strlit("&v2r-s;");
            assert("&v5u-s;"@[2] != "&v2r-s;"@[2]);
            reveal_strlit("&v2s-s;");
            assert("&v5u-s;"@[2] != "&v2s-s;"@[2]);
            reveal_strlit("&v2t-k;");
            assert("&v5u-s;"@[2] != "&v2t-k;"@[2]);
            reveal_strlit("&v2t-s;");
            assert("&v5u-s;"@[2] != "&v2t-s;"@[2]);
            reveal_strlit("&v2w-s;");
            assert("&v5u-s;"@[2] != "&v2w-s;"@[2]);
            reveal_strlit("&v2y-k;");
            assert("&v5u-s;"@[2] != "&v2y-k;"@[2]);
            reveal_strlit("&v2y-s;");
            assert("&v5u-s;"@[2] != "&v2y-s;"@[2]);
            reveal_strlit("&v2z-s;");
            assert("&v5u-s;"@[2] != "&v2z-s;"@[2]);
            reveal_strlit("&v4b;");
            reveal_strlit("&v4g;");
            reveal_strlit("&v4h;");
            reveal_strlit("&v4k;");
            reveal_strlit("&v4m;");
            reveal_strlit("&v4n;");
            reveal_strlit("&v4r;");
            reveal_strlit("&v4s;");
            reveal_strlit("&v4t;");
            reveal_strlit("&v5aru;");
            assert("&v5u-s;"@[3] != "&v5aru;"@[3]);
            reveal_strlit("&v5b;");
            reveal_strlit("&v5g;");
            reveal_strlit("&v5k;");
            reveal_strlit("&v5k-s;");
            assert("&v5u-s;"@[3] != "&v5k-s;"@[3]);
            reveal_strlit("&v5m;");
            reveal_strlit("&v5n;");
            reveal_strlit("&v5r;");
            reveal_strlit("&v5r-i;");
            assert("&v5u-s;"@[3] != "&v5r-i;"@[3]);
            reveal_strlit("&v5s;");
            reveal_strlit("&v5t;");
            reveal_strlit("&v5u;");
        },
        PartOfSpeech::VerbGodanUru => {
            reveal_strlit("v5uru");
            reveal_strlit("&v5uru;");
            assert("&"@ + "v5uru"@ + ";"@ =~= "&v5uru;"@);
            reveal_strlit("&adj-f;");
            assert("&v5uru;"@[1] != "&adj-f;"@[1]);
            reveal_strlit("&adj-i;");
            assert("&v5uru;"@[1] != "&adj-i;"@[1]);
            reveal_strlit("&adj-ix;");
            reveal_strlit("&adj-kari;");
            reveal_strlit("&adj-ku;");
            reveal_strlit("&adj-na;");
            reveal_strlit("&adj-nari;");
            reveal_strlit("&adj-no;");
            reveal_strlit("&adj-pn;");
            reveal_strlit("&adj-shiku;");
            reveal_strlit("&adj-t;");
            assert("&v5uru;"@[1] != "&adj-t;"@[1]);
            reveal_strlit("&adv;");
            reveal_strlit("&adv-to;");
            reveal_strlit("&aux;");
            reveal_strlit("&aux-adj;");
            reveal_strlit("&aux-v;");
            assert("&v5uru;"@[1] != "&aux-v;"@[1]);
            reveal_strlit("&conj;");
            reveal_strlit("&cop;");
            reveal_strlit("&ctr;");
            reveal_strlit("&exp;");
            reveal_strlit("&int;");
            reveal_strlit("&n;");
            reveal_strlit("&n-adv;");
            assert("&v5uru;"@[1] != "&n-adv;"@[1]);
            reveal_strlit("&n-pr;");
            reveal_strlit("&n-pref;");
            reveal_strlit("&n-suf;");
            assert("&v5uru;"@[1] != "&n-suf;"@[1]);
            reveal_strlit("&n-t;");
            reveal_strlit("&num;");
            reveal_strlit("&pn;");
            reveal_strlit("&pref;");
            reveal_strlit("&prt;");
            reveal_strlit("&suf;");
            reveal_strlit("&unc;");
            reveal_strlit("&v-unspec;");
            reveal_strlit("&v1;");
            reveal_strlit("&v1-s;");
            reveal_strlit("&v2a-s;");
            assert("&v5uru;"@[2] != "&v2a-s;"@[2]);
            reveal_strlit("&v2b-k;");
            assert("&v5uru;"@[2] != "&v2b-k;"@[2]);
            reveal_strlit("&v2b-s;");
            assert("&v5uru;"@[2] != "&v2b-s;"@[2]);
            reveal_strlit("&v2d-k;");
            assert("&v5uru;"@[2] != "&v2d-k;"@[2]);
            reveal_strlit("&v2d-s;");
            assert("&v5uru;"@[2] != "&v2d-s;"@[2]);
            reveal_strlit("&v2g-k;");
            assert("&v5uru;"@[2] != "&v2g-k;"@[2]);
            reveal_strlit("&v2g-s;");
            assert("&v5uru;"@[2] != "&v2g-s;"@[2]);
            reveal_strlit("&v2h-k;");
            assert("&v5uru;"@[2] != "&v2h-k;"@[2]);
            reveal_strlit("&v2h-s;");
            assert("&v5uru;"@[2] != "&v2h-s;"@[2]);
            reveal_strlit("&v2k-k;");
            assert("&v5uru;"@[2] != "&v2k-k;"@[2]);
            reveal_strlit("&v2k-s;");
            assert("&v5uru;"@[2] != "&v2k-s;"@[2]);
            reveal_strlit("&v2m-k;");
            assert("&v5uru;"@[2] != "&v2m-k;"@[2]);
            reveal_strlit("&v2m-s;");
            assert("&v5uru;"@[2] != "&v2m-s;"@[2]);
            reveal_strlit("&v2n-s;");
            assert("&v5uru;"@[2] != "&v2n-s;"@[2]);
            reveal_strlit("&v2r-k;");
            assert("&v5uru;"@[2] != "&v2r-k;"@[2]);
            reveal_strlit("&v2r-s;");
            assert("&v5uru;"@[2] != "&v2r-s;"@[2]);
            reveal_strlit("&v2s-s;");
            assert("&v5uru;"@[2] != "&v2s-s;"@[2]);
            reveal_strlit("&v2t-k;");
            assert("&v5uru;"@[2] != "&v2t-k;"@[2]);
            reveal_strlit("&v2t-s;");
            assert("&v5uru;"@[2] != "&v2t-s;"@[2]);
            reveal_strlit("&v2w-s;");
            assert("&v5uru;"@[2] != "&v2w-s;"@[2]);
            reveal_strlit("&v2y-k;");
            assert("&v5uru;"@[2] != "&v2y-k;"@[2]);
            reveal_strlit("&v2y-s;");
            assert("&v5uru;"@[2] != "&v2y-s;"@[2]);
            reveal_strlit("&v2z-s;");
            assert("&v5uru;"@[2] != "&v2z-s;"@[2]);
            reveal_strlit("&v4b;");
            reveal_strlit("&v4g;");
            reveal_strlit("&v4h;");
            reveal_strlit("&v4k;");
            reveal_strlit("&v4m;");
            reveal_strlit("&v4n;");
            reveal_strlit("&v4r;");
            reveal_strlit("&v4s;");
            reveal_strlit("&v4t;");
            reveal_strlit("&v5aru;");
            assert("&v5uru;"@[3] != "&v5aru;"@[3]);
            reveal_strlit("&v5b;");
            reveal_strlit("&v5g;");
            reveal_strlit("&v5k;");
            reveal_strlit("&v5k-s;");
            assert("&v5uru;"@[3] != "&v5k-s;"@[3]);
            reveal_strlit("&v5m;");
            reveal_strlit("&v5n;");
            reveal_strlit("&v5r;");
            reveal_strlit("&v5r-i;");
            assert("&v5uru;"@[3] != "&v5r-i;"@[3]);
            reveal_strlit("&v5s;");
            reveal_strlit("&v5t;");
            reveal_strlit("&v5u;");
            reveal_strlit("&v5u-s;");
            assert("&v5uru;"@[4] != "&v5u-s;"@[4]);
        },
        PartOfSpeech::VerbIntransitive => {
            reveal_strlit("vi");
            reveal_strlit("&vi;");
            assert("&"@ + "vi"@ + ";"@ =~= "&vi;"@);
            reveal_strlit("&adj-f;");
            reveal_strlit("&adj-i;");
            reveal_strlit("&adj-ix;");
            reveal_strlit("&adj-kari;");
            reveal_strlit("&adj-ku;");
            reveal_strlit("&adj-na;");
            reveal_strlit("&adj-nari;");
            reveal_strlit("&adj-no;");
            reveal_strlit("&adj-pn;");
            reveal_strlit("&adj-shiku;");
            reveal_strlit("&adj-t;");
            reveal_strlit("&adv;");
            reveal_strlit("&adv-to;");
            reveal_strlit("&aux;");
            reveal_strlit("&aux-adj;");
            reveal_strlit("&aux-v;");
            reveal_strlit("&conj;");
            reveal_strlit("&cop;");
            reveal_strlit("&ctr;");
            reveal_strlit("&exp;");
            reveal_strlit("&int;");
            reveal_strlit("&n;");
            reveal_strlit("&n-adv;");
            reveal_strlit("&n-pr;");
            reveal_strlit("&n-pref;");
            reveal_strlit("&n-suf;");
            reveal_strlit("&n-t;");
            reveal_strlit("&num;");
            reveal_strlit("&pn;");
            assert("&vi;"@[1] != "&pn;"@[1]);
            reveal_strlit("&pref;");
            reveal_strlit("&prt;");
            reveal_strlit("&suf;");
            reveal_strlit("&unc;");
            reveal_strlit("&v-unspec;");
            reveal_strlit("&v1;");
            assert("&vi;"@[2] != "&v1;"@[2]);
            reveal_strlit("&v1-s;");
            reveal_strlit("&v2a-s;");
            reveal_strlit("&v2b-k;");
            reveal_strlit("&v2b-s;");
            reveal_strlit("&v2d-k;");
            reveal_strlit("&v2d-s;");
            reveal_strlit("&v2g-k;");
            reveal_strlit("&v2g-s;");
            reveal_strlit("&v2h-k;");
            reveal_strlit("&v2h-s;");
            reveal_strlit("&v2k-k;");
            reveal_strlit("&v2k-s;");
            reveal_strlit("&v2m-k;");
            reveal_strlit("&v2m-s;");
            reveal_strlit("&v2n-s;");
            reveal_strlit("&v2r-k;");
            reveal_strlit("&v2r-s;");
            reveal_strlit("&v2s-s;");
            reveal_strlit("&v2t-k;");
            reveal_strlit("&v2t-s;");
            reveal_strlit("&v2w-s;");
            reveal_strlit("&v2y-k;");
            reveal_strlit("&v2y-s;");
            reveal_strlit("&v2z-s;");
            reveal_strlit("&v4b;");
            reveal_strlit("&v4g;");
            reveal_strlit("&v4h;");
            reveal_strlit("&v4k;");
            reveal_strlit("&v4m;");
            reveal_strlit("&v4n;");
            reveal_strlit("&v4r;");
            reveal_strlit("&v4s;");
            reveal_strlit("&v4t;");
            reveal_strlit("&v5aru;");
            reveal_strlit("&v5b;");
            reveal_strlit("&v5g;");
            reveal_strlit("&v5k;");
            reveal_strlit("&v5k-s;");
            reveal_strlit("&v5m;");
            reveal_strlit("&v5n;");
            reveal_strlit("&v5r;");
            reveal_strlit("&v5r-i;");
            reveal_strlit("&v5s;");
            reveal_strlit("&v5t;");
            reveal_strlit("&v5u;");
            reveal_strlit("&v5u-s;");
            reveal_strlit("&v5uru;");
        },
        PartOfSpeech::VerbKuru => {
            reveal_strlit("vk");
            reveal_strlit("&vk;");
            assert("&"@ + "vk"@ + ";"@ =~= "&vk;"@);
            reveal_strlit("&adj-f;");
            reveal_strlit("&adj-i;");
            reveal_strlit("&adj-ix;");
            reveal_strlit("&adj-kari;");
            reveal_strlit("&adj-ku;");
            reveal_strlit("&adj-na;");
            reveal_strlit("&adj-nari;");
            reveal_strlit("&adj-no;");
            reveal_strlit("&adj-pn;");
            reveal_strlit("&adj-shiku;");
            reveal_strlit("&adj-t;");
            reveal_strlit("&adv;");
            reveal_strlit("&adv-to;");
            reveal_strlit("&aux;");
            reveal_strlit("&aux-adj;");
            reveal_strlit("&aux-v;");
            reveal_strlit("&conj;");
            reveal_strlit("&cop;");
            reveal_strlit("&ctr;");
            reveal_strlit("&exp;");
            reveal_strlit("&int;");
            reveal_strlit("&n;");
            reveal_strlit("&n-adv;");
            reveal_strlit("&n-pr;");
            reveal_strlit("&n-pref;");
            reveal_strlit("&n-suf;");
            reveal_strlit("&n-t;");
            reveal_strlit("&num;");
            reveal_strlit("&pn;");
            assert("&vk;"@[1] != "&pn;"@[1]);
            reveal_strlit("&pref;");
            reveal_strlit("&prt;");
            reveal_strlit("&suf;");
            reveal_strlit("&unc;");
            reveal_strlit("&v-unspec;");
            reveal_strlit("&v1;");
            assert("&vk;"@[2] != "&v1;"@[2]);
            reveal_strlit("&v1-s;");
            reveal_strlit("&v2a-s;");
            reveal_strlit("&v2b-k;");
            reveal_strlit("&v2b-s;");
            reveal_strlit("&v2d-k;");
            reveal_strlit("&v2d-s;");
            reveal_strlit("&v2g-k;");
            reveal_strlit("&v2g-s;");
            reveal_strlit("&v2h-k;");
            reveal_strlit("&v2h-s;");
            reveal_strlit("&v2k-k;");
            reveal_strlit("&v2k-s;");
            reveal_strlit("&v2m-k;");
            reveal_strlit("&v2m-s;");
            reveal_strlit("&v2n-s;");
            reveal_strlit("&v2r-k;");
            reveal_strlit("&v2r-s;");
            reveal_strlit("&v2s-s;");
            reveal_strlit("&v2t-k;");
            reveal_strlit("&v2t-s;");
            reveal_strlit("&v2w-s;");
            reveal_strlit("&v2y-k;");
            reveal_strlit("&v2y-s;");
            reveal_strlit("&v2z-s;");
            reveal_strlit("&v4b;");
            reveal_strlit("&v4g;");
            reveal_strlit("&v4h;");
            reveal_strlit("&v4k;");
            reveal_strlit("&v4m;");
            reveal_strlit("&v4n;");
            reveal_strlit("&v4r;");
            reveal_strlit("&v4s;");
            reveal_strlit("&v4t;");
            reveal_strlit("&v5aru;");
            reveal_strlit("&v5b;");
            reveal_strlit("&v5g;");
            reveal_strlit("&v5k;");
            reveal_strlit("&v5k-s;");
            reveal_strlit("&v5m;");
            reveal_strlit("&v5n;");
            reveal_strlit("&v5r;");
            reveal_strlit("&v5r-i;");
            reveal_strlit("&v5s;");
            reveal_strlit("&v5t;");
            reveal_strlit("&v5u;");
            reveal_strlit("&v5u-s;");
            reveal_strlit("&v5uru;");
            reveal_strlit("&vi;");
            assert("&vk;"@[2] != "&vi;"@[2]);
        },
        PartOfSpeech::VerbNu => {
            reveal_strlit("vn");
            reveal_strlit("&vn;");
            assert("&"@ + "vn"@ + ";"@ =~= "&vn;"@);
            reveal_strlit("&adj-f;");
            reveal_strlit("&adj-i;");
            reveal_strlit("&adj-ix;");
            reveal_strlit("&adj-kari;");
            reveal_strlit("&adj-ku;");
            reveal_strlit("&adj-na;");
            reveal_strlit("&adj-nari;");
            reveal_strlit("&adj-no;");
            reveal_strlit("&adj-pn;");
            reveal_strlit("&adj-shiku;");
            reveal_strlit("&adj-t;");
            reveal_strlit("&adv;");
            reveal_strlit("&adv-to;");
            reveal_strlit("&aux;");
            reveal_strlit("&aux-adj;");
            reveal_strlit("&aux-v;");
            reveal_strlit("&conj;");
            reveal_strlit("&cop;");
            reveal_strlit("&ctr;");
            reveal_strlit("&exp;");
            reveal_strlit("&int;");
            reveal_strlit("&n;");
            reveal_strlit("&n-adv;");
            reveal_strlit("&n-pr;");
            reveal_strlit("&n-pref;");
            reveal_strlit("&n-suf;");
            reveal_strlit("&n-t;");
            reveal_strlit("&num;");
            reveal_strlit("&pn;");
            assert("&vn;"@[1] != "&pn;"@[1]);
            reveal_strlit("&pref;");
            reveal_strlit("&prt;");
            reveal_strlit("&suf;");
            reveal_strlit("&unc;");
            reveal_strlit("&v-unspec;");
            reveal_strlit("&v1;");
            assert("&vn;"@[2] != "&v1;"@[2]);
            reveal_strlit("&v1-s;");
            reveal_strlit("&v2a-s;");
            reveal_strlit("&v2b-k;");
            reveal_strlit("&v2b-s;");
            reveal_strlit("&v2d-k;");
            reveal_strlit("&v2d-s;");
            reveal_strlit("&v2g-k;");
            reveal_strlit("&v2g-s;");
            reveal_strlit("&v2h-k;");
            reveal_strlit("&v2h-s;");
            reveal_strlit("&v2k-k;");
            reveal_strlit("&v2k-s;");
            reveal_strlit("&v2m-k;");
            reveal_strlit("&v2m-s;");
            reveal_strlit("&v2n-s;");
            reveal_strlit("&v2r-k;");
            reveal_strlit("&v2r-s;");
            reveal_strlit("&v2s-s;");
            reveal_strlit("&v2t-k;");
            reveal_strlit("&v2t-s;");
            reveal_strlit("&v2w-s;");
            reveal_strlit("&v2y-k;");
            reveal_strlit("&v2y-s;");
            reveal_strlit("&v2z-s;");
            reveal_strlit("&v4b;");
            reveal_strlit("&v4g;");
            reveal_strlit("&v4h;");
            reveal_strlit("&v4k;");
            reveal_strlit("&v4m;");
            reveal_strlit("&v4n;");
            reveal_strlit("&v4r;");
            reveal_strlit("&v4s;");
            reveal_strlit("&v4t;");
            reveal_strlit("&v5aru;");
            reveal_strlit("&v5b;");
            reveal_strlit("&v5g;");
            reveal_strlit("&v5k;");
            reveal_strlit("&v5k-s;");
            reveal_strlit("&v5m;");
            reveal_strlit("&v5n;");
            reveal_strlit("&v5r;");
            reveal_strlit("&v5r-i;");
            reveal_strlit("&v5s;");
            reveal_strlit("&v5t;");
            reveal_strlit("&v5u;");
            reveal_strlit("&v5u-s;");
            reveal_strlit("&v5uru;");
            reveal_strlit("&vi;");
            assert("&vn;"@[2] != "&vi;"@[2]);
            reveal_strlit("&vk;");
            assert("&vn;"@[2] != "&vk;"@[2]);
        },
        PartOfSpeech::VerbRu => {
            reveal_strlit("vr");
            reveal_strlit("&vr;");
            assert("&"@ + "vr"@ + ";"@ =~= "&vr;"@);
            reveal_strlit("&adj-f;");
            reveal_strlit("&adj-i;");
            reveal_strlit("&adj-ix;");
            reveal_strlit("&adj-kari;");
            reveal_strlit("&adj-ku;");
            reveal_strlit("&adj-na;");
            reveal_strlit("&adj-nari;");
            reveal_strlit("&adj-no;");
            reveal_strlit("&adj-pn;");
            reveal_strlit("&adj-shiku;");
            reveal_strlit("&adj-t;");
            reveal_strlit("&adv;");
            reveal_strlit("&adv-to;");
            reveal_strlit("&aux;");
            reveal_strlit("&aux-adj;");
            reveal_strlit("&aux-v;");
            reveal_strlit("&conj;");
            reveal_strlit("&cop;");
            reveal_strlit("&ctr;");
            reveal_strlit("&exp;");
            reveal_strlit("&int;");
            reveal_strlit("&n;");
            reveal_strlit("&n-adv;");
            reveal_strlit("&n-pr;");
            reveal_strlit("&n-pref;");
            reveal_strlit("&n-suf;");
            reveal_strlit("&n-t;");
            reveal_strlit("&num;");
            reveal_strlit("&pn;");
            assert("&vr;"@[1] != "&pn;"@[1]);
            reveal_strlit("&pref;");
            reveal_strlit("&prt;");
            reveal_strlit("&suf;");
            reveal_strlit("&unc;");
            reveal_strlit("&v-unspec;");
            reveal_strlit("&v1;");
            assert("&vr;"@[2] != "&v1;"@[2]);
            reveal_strlit("&v1-s;");
            reveal_strlit("&v2a-s;");
            reveal_strlit("&v2b-k;");
            reveal_strlit("&v2b-s;");
            reveal_strlit("&v2d-k;");
            reveal_strlit("&v2d-s;");
            reveal_strlit("&v2g-k;");
            reveal_strlit("&v2g-s;");
            reveal_strlit("&v2h-k;");
            reveal_strlit("&v2h-s;");
            reveal_strlit("&v2k-k;");
            reveal_strlit("&v2k-s;");
            reveal_strlit("&v2m-k;");
            reveal_strlit("&v2m-s;");
            reveal_strlit("&v2n-s;");
            reveal_strlit("&v2r-k;");
            reveal_strlit("&v2r-s;");
            reveal_strlit("&v2s-s;");
            reveal_strlit("&v2t-k;");
            reveal_strlit("&v2t-s;");
            reveal_strlit("&v2w-s;");
            reveal_strlit("&v2y-k;");
            reveal_strlit("&v2y-s;");
            reveal_strlit("&v2z-s;");
            reveal_strlit("&v4b;");
            reveal_strlit("&v4g;");
            reveal_strlit("&v4h;");
            reveal_strlit("&v4k;");
            reveal_strlit("&v4m;");
            reveal_strlit("&v4n;");
            reveal_strlit("&v4r;");
            reveal_strlit("&v4s;");
            reveal_strlit("&v4t;");
            reveal_strlit("&v5aru;");
            reveal_strlit("&v5b;");
            reveal_strlit("&v5g;");
            reveal_strlit("&v5k;");
            reveal_strlit("&v5k-s;");
            reveal_strlit("&v5m;");
            reveal_strlit("&v5n;");
            reveal_strlit("&v5r;");
            reveal_strlit("&v5r-i;");
            reveal_strlit("&v5s;");
            reveal_strlit("&v5t;");
            reveal_strlit("&v5u;");
            reveal_strlit("&v5u-s;");
            reveal_strlit("&v5uru;");
            reveal_strlit("&vi;");
            assert("&vr;"@[2] != "&vi;"@[2]);
            reveal_strlit("&vk;");
            assert("&vr;"@[2] != "&vk;"@[2]);
            reveal_strlit("&vn;");
            assert("&vr;"@[2] != "&vn;"@[2]);
        },
        PartOfSpeech::VerbSuru => {
            reveal_strlit("vs");
            reveal_strlit("&vs;");
            assert("&"@ + "vs"@ + ";"@ =~= "&vs;"@);
            reveal_strlit("&adj-f;");
            reveal_strlit("&adj-i;");
            reveal_strlit("&adj-ix;");
            reveal_strlit("&adj-kari;");
            reveal_strlit("&adj-ku;");
            reveal_strlit("&adj-na;");
            reveal_strlit("&adj-nari;");
            reveal_strlit("&adj-no;");
            reveal_strlit("&adj-pn;");
            reveal_strlit("&adj-shiku;");
            reveal_strlit("&adj-t;");
            reveal_strlit("&adv;");
            reveal_strlit("&adv-to;");
            reveal_strlit("&aux;");
            reveal_strlit("&aux-adj;");
            reveal_strlit("&aux-v;");
            reveal_strlit("&conj;");
            reveal_strlit("&cop;");
            reveal_strlit("&ctr;");
            reveal_strlit("&exp;");
            reveal_strlit("&int;");
            reveal_strlit("&n;");
            reveal_strlit("&n-adv;");
            reveal_strlit("&n-pr;");
            reveal_strlit("&n-pref;");
            reveal_strlit("&n-suf;");
            reveal_strlit("&n-t;");
            reveal_strlit("&num;");
            reveal_strlit("&pn;");
            assert("&vs;"@[1] != "&pn;"@[1]);
            reveal_strlit("&pref;");
            reveal_strlit("&prt;");
            reveal_strlit("&suf;");
            reveal_strlit("&unc;");
            reveal_strlit("&v-unspec;");
            reveal_strlit("&v1;");
            assert("&vs;"@[2] != "&v1;"@[2]);
            reveal_strlit("&v1-s;");
            reveal_strlit("&v2a-s;");
            reveal_strlit("&v2b-k;");
            reveal_strlit("&v2b-s;");
            reveal_strlit("&v2d-k;");
            reveal_strlit("&v2d-s;");
            reveal_strlit("&v2g-k;");
            reveal_strlit("&v2g-s;");
            reveal_strlit("&v2h-k;");
            reveal_strlit("&v2h-s;");
            reveal_strlit("&v2k-k;");
            reveal_strlit("&v2k-s;");
            reveal_strlit("&v2m-k;");
            reveal_strlit("&v2m-s;");
            reveal_strlit("&v2n-s;");
            reveal_strlit("&v2r-k;");
            reveal_strlit("&v2r-s;");
            reveal_strlit("&v2s-s;");
            reveal_strlit("&v2t-k;");
            reveal_strlit("&v2t-s;");
            reveal_strlit("&v2w-s;");
            reveal_strlit("&v2y-k;");
            reveal_strlit("&v2y-s;");
            reveal_strlit("&v2z-s;");
            reveal_strlit("&v4b;");
            reveal_strlit("&v4g;");
            reveal_strlit("&v4h;");
            reveal_strlit("&v4k;");
            reveal_strlit("&v4m;");
            reveal_strlit("&v4n;");
            reveal_strlit("&v4r;");
            reveal_strlit("&v4s;");
            reveal_strlit("&v4t;");
            reveal_strlit("&v5aru;");
            reveal_strlit("&v5b;");
            reveal_strlit("&v5g;");
            reveal_strlit("&v5k;");
            reveal_strlit("&v5k-s;");
            reveal_strlit("&v5m;");
            reveal_strlit("&v5n;");
            reveal_strlit("&v5r;");
            reveal_strlit("&v5r-i;");
            reveal_strlit("&v5s;");
            reveal_strlit("&v5t;");
            reveal_strlit("&v5u;");
            reveal_strlit("&v5u-s;");
            reveal_strlit("&v5uru;");
            reveal_strlit("&vi;");
            assert("&vs;"@[2] != "&vi;"@[2]);
            reveal_strlit("&vk;");
            assert("&vs;"@[2] != "&vk;"@[2]);
            reveal_strlit("&vn;");
            assert("&vs;"@[2] != "&vn;"@[2]);
            reveal_strlit("&vr;");
            assert("&vs;"@[2] != "&vr;"@[2]);
        },
        PartOfSpeech::VerbSuC => {
            reveal_strlit("vs-c");
            reveal_strlit("&vs-c;");
            assert("&"@ + "vs-c"@ + ";"@ =~= "&vs-c;"@);
            reveal_strlit("&adj-f;");
            reveal_strlit("&adj-i;");
            reveal_strlit("&adj-ix;");
            reveal_strlit("&adj-kari;");
            reveal_strlit("&adj-ku;");
            reveal_strlit("&adj-na;");
            reveal_strlit("&adj-nari;");
            reveal_strlit("&adj-no;");
            reveal_strlit("&adj-pn;");
            reveal_strlit("&adj-shiku;");
            reveal_strlit("&adj-t;");
            reveal_strlit("&adv;");
            reveal_strlit("&adv-to;");
            reveal_strlit("&aux;");
            reveal_strlit("&aux-adj;");
            reveal_strlit("&aux-v;");
            reveal_strlit("&conj;");
            assert("&vs-c;"@[1] != "&conj;"@[1]);
            reveal_strlit("&cop;");
            reveal_strlit("&ctr;");
            reveal_strlit("&exp;");
            reveal_strlit("&int;");
            reveal_strlit("&n;");
            reveal_strlit("&n-adv;");
            reveal_strlit("&n-pr;");
            assert("&vs-c;"@[1] != "&n-pr;"@[1]);
            reveal_strlit("&n-pref;");
            reveal_strlit("&n-suf;");
            reveal_strlit("&n-t;");
            reveal_strlit("&num;");
            reveal_strlit("&pn;");
            reveal_strlit("&pref;");
            assert("&vs-c;"@[1] != "&pref;"@[1]);
            reveal_strlit("&prt;");
            reveal_strlit("&suf;");
            reveal_strlit("&unc;");
            reveal_strlit("&v-unspec;");
            reveal_strlit("&v1;");
            reveal_strlit("&v1-s;");
            assert("&vs-c;"@[2] != "&v1-s;"@[2]);
            reveal_strlit("&v2a-s;");
            reveal_strlit("&v2b-k;");
            reveal_strlit("&v2b-s;");
            reveal_strlit("&v2d-k;");
            reveal_strlit("&v2d-s;");
            reveal_strlit("&v2g-k;");
            reveal_strlit("&v2g-s;");
            reveal_strlit("&v2h-k;");
            reveal_strlit("&v2h-s;");
            reveal_strlit("&v2k-k;");
            reveal_strlit("&v2k-s;");
            reveal_strlit("&v2m-k;");
            reveal_strlit("&v2m-s;");
            reveal_strlit("&v2n-s;");
            reveal_strlit("&v2r-k;");
            reveal_strlit("&v2r-s;");
            reveal_strlit("&v2s-s;");
            reveal_strlit("&v2t-k;");
            reveal_strlit("&v2t-s;");
            reveal_strlit("&v2w-s;");
            reveal_strlit("&v2y-k;");
            reveal_strlit("&v2y-s;");
            reveal_strlit("&v2z-s;");
            reveal_strlit("&v4b;");
            reveal_strlit("&v4g;");
            reveal_strlit("&v4h;");
            reveal_strlit("&v4k;");
            reveal_strlit("&v4m;");
            reveal_strlit("&v4n;");
            reveal_strlit("&v4r;");
            reveal_strlit("&v4s;");
            reveal_strlit("&v4t;");
            reveal_strlit("&v5aru;");
            reveal_strlit("&v5b;");
            reveal_strlit("&v5g;");
            reveal_strlit("&v5k;");
            reveal_strlit("&v5k-s;");
            reveal_strlit("&v5m;");
            reveal_strlit("&v5n;");
            reveal_strlit("&v5r;");
            reveal_strlit("&v5r-i;");
            reveal_strlit("&v5s;");
            reveal_strlit("&v5t;");
            reveal_strlit("&v5u;");
            reveal_strlit("&v5u-s;");
            reveal_strlit("&v5uru;");
            reveal_strlit("&vi;");
            reveal_strlit("&vk;");
            reveal_strlit("&vn;");
            reveal_strlit("&vr;");
            reveal_strlit("&vs;");
        },
        PartOfSpeech::VerbSuruIncluded => {
            reveal_strlit("vs-i");
            reveal_strlit("&vs-i;");
            assert("&"@ + "vs-i"@ + ";"@ =~= "&vs-i;"@);
            reveal_strlit("&adj-f;");
            reveal_strlit("&adj-i;");
            reveal_strlit("&adj-ix;");
            reveal_strlit("&adj-kari;");
            reveal_strlit("&adj-ku;");
            reveal_strlit("&adj-na;");
            reveal_strlit("&adj-nari;");
            reveal_strlit("&adj-no;");
            reveal_strlit("&adj-pn;");
            reveal_strlit("&adj-shiku;");
            reveal_strlit("&adj-t;");
            reveal_strlit("&adv;");
            reveal_strlit("&adv-to;");
            reveal_strlit("&aux;");
            reveal_strlit("&aux-adj;");
            reveal_strlit("&aux-v;");
            reveal_strlit("&conj;");
            assert("&vs-i;"@[1] != "&conj;"@[1]);
            reveal_strlit("&cop;");
            reveal_strlit("&ctr;");
            reveal_strlit("&exp;");
            reveal_strlit("&int;");
            reveal_strlit("&n;");
            reveal_strlit("&n-adv;");
            reveal_strlit("&n-pr;");
            assert("&vs-i;"@[1] != "&n-pr;"@[1]);
            reveal_strlit("&n-pref;");
            reveal_strlit("&n-suf;");
            reveal_strlit("&n-t;");
            reveal_strlit("&num;");
            reveal_strlit("&pn;");
            reveal_strlit("&pref;");
            assert("&vs-i;"@[1] != "&pref;"@[1]);
            reveal_strlit("&prt;");
            reveal_strlit("&suf;");
            reveal_strlit("&unc;");
            reveal_strlit("&v-unspec;");
            reveal_strlit("&v1;");
            reveal_strlit("&v1-s;");
            assert("&vs-i;"@[2] != "&v1-s;"@[2]);
            reveal_strlit("&v2a-s;");
            reveal_strlit("&v2b-k;");
            reveal_strlit("&v2b-s;");
            reveal_strlit("&v2d-k;");
            reveal_strlit("&v2d-s;");
            reveal_strlit("&v2g-k;");
            reveal_strlit("&v2g-s;");
            reveal_strlit("&v2h-k;");
            reveal_strlit("&v2h-s;");
            reveal_strlit("&v2k-k;");
            reveal_strlit("&v2k-s;");
            reveal_strlit("&v2m-k;");
            reveal_strlit("&v2m-s;");
            reveal_strlit("&v2n-s;");
            reveal_strlit("&v2r-k;");
            reveal_strlit("&v2r-s;");
            reveal_strlit("&v2s-s;");
            reveal_strlit("&v2t-k;");
            reveal_strlit("&v2t-s;");
            reveal_strlit("&v2w-s;");
            reveal_strlit("&v2y-k;");
            reveal_strlit("&v2y-s;");
            reveal_strlit("&v2z-s;");
            reveal_strlit("&v4b;");
            reveal_strlit("&v4g;");
            reveal_strlit("&v4h;");
            reveal_strlit("&v4k;");
            reveal_strlit("&v4m;");
            reveal_strlit("&v4n;");
            reveal_strlit("&v4r;");
            reveal_strlit("&v4s;");
            reveal_strlit("&v4t;");
            reveal_strlit("&v5aru;");
            reveal_strlit("&v5b;");
            reveal_strlit("&v5g;");
            reveal_strlit("&v5k;");
            reveal_strlit("&v5k-s;");
            reveal_strlit("&v5m;");
            reveal_strlit("&v5n;");
            reveal_strlit("&v5r;");
            reveal_strlit("&v5r-i;");
            reveal_strlit("&v5s;");
            reveal_strlit("&v5t;");
            reveal_strlit("&v5u;");
            reveal_strlit("&v5u-s;");
            reveal_strlit("&v5uru;");
            reveal_strlit("&vi;");
            reveal_strlit("&vk;");
            reveal_strlit("&vn;");
            reveal_strlit("&vr;");
            reveal_strlit("&vs;");
            reveal_strlit("&vs-c;");
            assert("&vs-i;"@[4] != "&vs-c;"@[4]);
        },
        PartOfSpeech::VerbSuruSpecial => {
            reveal_strlit("vs-s");
            reveal_strlit("&vs-s;");
            assert("&"@ + "vs-s"@ + ";"@ =~= "&vs-s;"@);
            reveal_strlit("&adj-f;");
            reveal_strlit("&adj-i;");
            reveal_strlit("&adj-ix;");
            reveal_strlit("&adj-kari;");
            reveal_strlit("&adj-ku;");
            reveal_strlit("&adj-na;");
            reveal_strlit("&adj-nari;");
            reveal_strlit("&adj-no;");
            reveal_strlit("&adj-pn;");
            reveal_strlit("&adj-shiku;");
            reveal_strlit("&adj-t;");
            reveal_strlit("&adv;");
            reveal_strlit("&adv-to;");
            reveal_strlit("&aux;");
            reveal_strlit("&aux-adj;");
            reveal_strlit("&aux-v;");
            reveal_strlit("&conj;");
            assert("&vs-s;"@[1] != "&conj;"@[1]);
            reveal_strlit("&cop;");
            reveal_strlit("&ctr;");
            reveal_strlit("&exp;");
            reveal_strlit("&int;");
            reveal_strlit("&n;");
            reveal_strlit("&n-adv;");
            reveal_strlit("&n-pr;");
            assert("&vs-s;"@[1] != "&n-pr;"@[1]);
            reveal_strlit("&n-pref;");
            reveal_strlit("&n-suf;");
            reveal_strlit("&n-t;");
            reveal_strlit("&num;");
            reveal_strlit("&pn;");
            reveal_strlit("&pref;");
            assert("&vs-s;"@[1] != "&pref;"@[1]);
            reveal_strlit("&prt;");
            reveal_strlit("&suf;");
            reveal_strlit("&unc;");
            reveal_strlit("&v-unspec;");
            reveal_strlit("&v1;");
            reveal_strlit("&v1-s;");
            assert("&vs-s;"@[2] != "&v1-s;"@[2]);
            reveal_strlit("&v2a-s;");
            reveal_strlit("&v2b-k;");
            reveal_strlit("&v2b-s;");
            reveal_strlit("&v2d-k;");
            reveal_strlit("&v2d-s;");
            reveal_strlit("&v2g-k;");
            reveal_strlit("&v2g-s;");
            reveal_strlit("&v2h-k;");
            reveal_strlit("&v2h-s;");
            reveal_strlit("&v2k-k;");
            reveal_strlit("&v2k-s;");
            reveal_strlit("&v2m-k;");
            reveal_strlit("&v2m-s;");
            reveal_strlit("&v2n-s;");
            reveal_strlit("&v2r-k;");
            reveal_strlit("&v2r-s;");
            reveal_strlit("&v2s-s;");
            reveal_strlit("&v2t-k;");
            reveal_strlit("&v2t-s;");
            reveal_strlit("&v2w-s;");
            reveal_strlit("&v2y-k;");
            reveal_strlit("&v2y-s;");
            reveal_strlit("&v2z-s;");
            reveal_strlit("&v4b;");
            reveal_strlit("&v4g;");
            reveal_strlit("&v4h;");
            reveal_strlit("&v4k;");
            reveal_strlit("&v4m;");
            reveal_strlit("&v4n;");
            reveal_strlit("&v4r;");
            reveal_strlit("&v4s;");
            reveal_strlit("&v4t;");
            reveal_strlit("&v5aru;");
            reveal_strlit("&v5b;");
            reveal_strlit("&v5g;");
            reveal_strlit("&v5k;");
            reveal_strlit("&v5k-s;");
            reveal_strlit("&v5m;");
            reveal_strlit("&v5n;");
            reveal_strlit("&v5r;");
            reveal_strlit("&v5r-i;");
            reveal_strlit("&v5s;");
            reveal_strlit("&v5t;");
            reveal_strlit("&v5u;");
            reveal_strlit("&v5u-s;");
            reveal_strlit("&v5uru;");
            reveal_strlit("&vi;");
            reveal_strlit("&vk;");
            reveal_strlit("&vn;");
            reveal_strlit("&vr;");
            reveal_strlit("&vs;");
            reveal_strlit("&vs-c;");
            assert("&vs-s;"@[4] != "&vs-c;"@[4]);
            reveal_strlit("&vs-i;");
            assert("&vs-s;"@[4] != "&vs-i;"@[4]);
        },
        PartOfSpeech::VerbTransitive => {
            reveal_strlit("vt");
            reveal_strlit("&vt;");
            assert("&"@ + "vt"@ + ";"@ =~= "&vt;"@);
            reveal_strlit("&adj-f;");
            reveal_strlit("&adj-i;");
            reveal_strlit("&adj-ix;");
            reveal_strlit("&adj-kari;");
            reveal_strlit("&adj-ku;");
            reveal_strlit("&adj-na;");
            reveal_strlit("&adj-nari;");
            reveal_strlit("&adj-no;");
            reveal_strlit("&adj-pn;");
            reveal_strlit("&adj-shiku;");
            reveal_strlit("&adj-t;");
            reveal_strlit("&adv;");
            reveal_strlit("&adv-to;");
            reveal_strlit("&aux;");
            reveal_strlit("&aux-adj;");
            reveal_strlit("&aux-v;");
            reveal_strlit("&conj;");
            reveal_strlit("&cop;");
            reveal_strlit("&ctr;");
            reveal_strlit("&exp;");
            reveal_strlit("&int;");
            reveal_strlit("&n;");
            reveal_strlit("&n-adv;");
            reveal_strlit("&n-pr;");
            reveal_strlit("&n-pref;");
            reveal_strlit("&n-suf;");
            reveal_strlit("&n-t;");
            reveal_strlit("&num;");
            reveal_strlit("&pn;");
            assert("&vt;"@[1] != "&pn;"@[1]);
            reveal_strlit("&pref;");
            reveal_strlit("&prt;");
            reveal_strlit("&suf;");
            reveal_strlit("&unc;");
            reveal_strlit("&v-unspec;");
            reveal_strlit("&v1;");
            assert("&vt;"@[2] != "&v1;"@[2]);
            reveal_strlit("&v1-s;");
            reveal_strlit("&v2a-s;");
            reveal_strlit("&v2b-k;");
            reveal_strlit("&v2b-s;");
            reveal_strlit("&v2d-k;");
            reveal_strlit("&v2d-s;");
            reveal_strlit("&v2g-k;");
            reveal_strlit("&v2g-s;");
            reveal_strlit("&v2h-k;");
            reveal_strlit("&v2h-s;");
            reveal_strlit("&v2k-k;");
            reveal_strlit("&v2k-s;");
            reveal_strlit("&v2m-k;");
            reveal_strlit("&v2m-s;");
            reveal_strlit("&v2n-s;");
            reveal_strlit("&v2r-k;");
            reveal_strlit("&v2r-s;");
            reveal_strlit("&v2s-s;");
            reveal_strlit("&v2t-k;");
            reveal_strlit("&v2t-s;");
            reveal_strlit("&v2w-s;");
            reveal_strlit("&v2y-k;");
            reveal_strlit("&v2y-s;");
            reveal_strlit("&v2z-s;");
            reveal_strlit("&v4b;");
            reveal_strlit("&v4g;");
            reveal_strlit("&v4h;");
            reveal_strlit("&v4k;");
            reveal_strlit("&v4m;");
            reveal_strlit("&v4n;");
            reveal_strlit("&v4r;");
            reveal_strlit("&v4s;");
            reveal_strlit("&v4t;");
            reveal_strlit("&v5aru;");
            reveal_strlit("&v5b;");
            reveal_strlit("&v5g;");
            reveal_strlit("&v5k;");
            reveal_strlit("&v5k-s;");
            reveal_strlit("&v5m;");
            reveal_strlit("&v5n;");
            reveal_strlit("&v5r;");
            reveal_strlit("&v5r-i;");
            reveal_strlit("&v5s;");
            reveal_strlit("&v5t;");
            reveal_strlit("&v5u;");
            reveal_strlit("&v5u-s;");
            reveal_strlit("&v5uru;");
            reveal_strlit("&vi;");
            assert("&vt;"@[2] != "&vi;"@[2]);
            reveal_strlit("&vk;");
            assert("&vt;"@[2] != "&vk;"@[2]);
            reveal_strlit("&vn;");
            assert("&vt;"@[2] != "&vn;"@[2]);
            reveal_strlit("&vr;");
            assert("&vt;"@[2] != "&vr;"@[2]);
            reveal_strlit("&vs;");
            assert("&vt;"@[2] != "&vs;"@[2]);
            reveal_strlit("&vs-c;");
            reveal_strlit("&vs-i;");
            reveal_strlit("&vs-s;");
        },
        PartOfSpeech::VerbZuru => {
            reveal_strlit("vz");
            reveal_strlit("&vz;");
            assert("&"@ + "vz"@ + ";"@ =~= "&vz;"@);
            reveal_strlit("&adj-f;");
            reveal_strlit("&adj-i;");
            reveal_strlit("&adj-ix;");
            reveal_strlit("&adj-kari;");
            reveal_strlit("&adj-ku;");
            reveal_strlit("&adj-na;");
            reveal_strlit("&adj-nari;");
            reveal_strlit("&adj-no;");
            reveal_strlit("&adj-pn;");
            reveal_strlit("&adj-shiku;");
            reveal_strlit("&adj-t;");
            reveal_strlit("&adv;");
            reveal_strlit("&adv-to;");
            reveal_strlit("&aux;");
            reveal_strlit("&aux-adj;");
            reveal_strlit("&aux-v;");
            reveal_strlit("&conj;");
            reveal_strlit("&cop;");
            reveal_strlit("&ctr;");
            reveal_strlit("&exp;");
            reveal_strlit("&int;");
            reveal_strlit("&n;");
            reveal_strlit("&n-adv;");
            reveal_strlit("&n-pr;");
            reveal_strlit("&n-pref;");
            reveal_strlit("&n-suf;");
            reveal_strlit("&n-t;");
            reveal_strlit("&num;");
            reveal_strlit("&pn;");
            assert("&vz;"@[1] != "&pn;"@[1]);
            reveal_strlit("&pref;");
            reveal_strlit("&prt;");
            reveal_strlit("&suf;");
            reveal_strlit("&unc;");
            reveal_strlit("&v-unspec;");
            reveal_strlit("&v1;");
            assert("&vz;"@[2] != "&v1;"@[2]);
            reveal_strlit("&v1-s;");
            reveal_strlit("&v2a-s;");
            reveal_strlit("&v2b-k;");
            reveal_strlit("&v2b-s;");
            reveal_strlit("&v2d-k;");
            reveal_strlit("&v2d-s;");
            reveal_strlit("&v2g-k;");
            reveal_strlit("&v2g-s;");
            reveal_strlit("&v2h-k;");
            reveal_strlit("&v2h-s;");
            reveal_strlit("&v2k-k;");
            reveal_strlit("&v2k-s;");
            reveal_strlit("&v2m-k;");
            reveal_strlit("&v2m-s;");
            reveal_strlit("&v2n-s;");
            reveal_strlit("&v2r-k;");
            reveal_strlit("&v2r-s;");
            reveal_strlit("&v2s-s;");
            reveal_strlit("&v2t-k;");
            reveal_strlit("&v2t-s;");
            reveal_strlit("&v2w-s;");
            reveal_strlit("&v2y-k;");
            reveal_strlit("&v2y-s;");
            reveal_strlit("&v2z-s;");
            reveal_strlit("&v4b;");
            reveal_strlit("&v4g;");
            reveal_strlit("&v4h;");
            reveal_strlit("&v4k;");
            reveal_strlit("&v4m;");
            reveal_strlit("&v4n;");
            reveal_strlit("&v4r;");
            reveal_strlit("&v4s;");
            reveal_strlit("&v4t;");
            reveal_strlit("&v5aru;");
            reveal_strlit("&v5b;");
            reveal_strlit("&v5g;");
            reveal_strlit("&v5k;");
            reveal_strlit("&v5k-s;");
            reveal_strlit("&v5m;");
            reveal_strlit("&v5n;");
            reveal_strlit("&v5r;");
            reveal_strlit("&v5r-i;");
            reveal_strlit("&v5s;");
            reveal_strlit("&v5t;");
            reveal_strlit("&v5u;");
            reveal_strlit("&v5u-s;");
            reveal_strlit("&v5uru;");
            reveal_strlit("&vi;");
            assert("&vz;"@[2] != "&vi;"@[2]);
            reveal_strlit("&vk;");
            assert("&vz;"@[2] != "&vk;"@[2]);
            reveal_strlit("&vn;");
            assert("&vz;"@[2] != "&vn;"@[2]);
            reveal_strlit("&vr;");
            assert("&vz;"@[2] != "&vr;"@[2]);
            reveal_strlit("&vs;");
            assert("&vz;"@[2] != "&vs;"@[2]);
            reveal_strlit("&vs-c;");
            reveal_strlit("&vs-i;");
            reveal_strlit("&vs-s;");
            reveal_strlit("&vt;");
            assert("&vz;"@[2] != "&vt;"@[2]);
        },
    }
}

/// Parsing the entity reference of a kanji info, `&` with its name and `;`,
/// gives it back.
#[verifier::rlimit(50)]
#[verifier::spinoff_prover]
pub proof fn lemma_kanji_info_parse_ident(x: KanjiInfo)
    ensures
        KanjiInfo::spec_parse("&"@ + x.spec_ident() + ";"@) == Some(x),
{
    reveal_strlit("&");
    reveal_strlit(";");
    match x {
        KanjiInfo::Ateji => {
            reveal_strlit("ateji");
            reveal_strlit("&ateji;");
            assert("&"@ + "ateji"@ + ";"@ =~= "&ateji;"@);
        },
        KanjiInfo::IrregularKana => {
            reveal_strlit("ik");
            reveal_strlit("&ik;");
            assert("&"@ + "ik"@ + ";"@ =~= "&ik;"@);
            reveal_strlit("&ateji;");
        },
        KanjiInfo::IrregularKanji => {
            reveal_strlit("iK");
            reveal_strlit("&iK;");
            assert("&"@ + "iK"@ + ";"@ =~= "&iK;"@);
            reveal_strlit("&ateji;");
            reveal_strlit("&ik;");
            assert("&iK;"@[2] != "&ik;"@[2]);
        },
        KanjiInfo::IrregularOkurigana => {
            reveal_strlit("io");
            reveal_strlit("&io;");
            assert("&"@ + "io"@ + ";"@ =~= "&io;"@);
            reveal_strlit("&ateji;");
            reveal_strlit("&ik;");
            assert("&io;"@[2] != "&ik;"@[2]);
            reveal_strlit("&iK;");
            assert("&io;"@[2] != "&iK;"@[2]);
        },
        KanjiInfo::OutdatedKanji => {
            reveal_strlit("oK");
            reveal_strlit("&oK;");
            assert("&"@ + "oK"@ + ";"@ =~= "&oK;"@);
            reveal_strlit("&ateji;");
            reveal_strlit("&ik;");
            assert("&oK;"@[1] != "&ik;"@[1]);
            reveal_strlit("&iK;");
            assert("&oK;"@[1] != "&iK;"@[1]);
            reveal_strlit("&io;");
            assert("&oK;"@[1] != "&io;"@[1]);
        },
        KanjiInfo::RareKanji => {
            reveal_strlit("rK");
            reveal_strlit("&rK;");
            assert("&"@ + "rK"@ + ";"@ =~= "&rK;"@);
            reveal_strlit("&ateji;");
            reveal_strlit("&ik;");
            assert("&rK;"@[1] != "&ik;"@[1]);
            reveal_strlit("&iK;");
            assert("&rK;"@[1] != "&iK;"@[1]);
            reveal_strlit("&io;");
            assert("&rK;"@[1] != "&io;"@[1]);
            reveal_strlit("&oK;");
            assert("&rK;"@[1] != "&oK;"@[1]);
        },
        KanjiInfo::SearchOnlyKanji => {
            reveal_strlit("sK");
            reveal_strlit("&sK;");
            assert("&"@ + "sK"@ + ";"@ =~= "&sK;"@);
            reveal_strlit("&ateji;");
            reveal_strlit("&ik;");
            assert("&sK;"@[1] != "&ik;"@[1]);
            reveal_strlit("&iK;");
            assert("&sK;"@[1] != "&iK;"@[1]);
            reveal_strlit("&io;");
            assert("&sK;"@[1] != "&io;"@[1]);
            reveal_strlit("&oK;");
            assert("&sK;"@[1] != "&oK;"@[1]);
            reveal_strlit("&rK;");
            assert("&sK;"@[1] != "&rK;"@[1]);
        },
    }
}

/// Parsing the entity reference of a reading info, `&` with its name and `;`,
/// gives it back.
#[verifier::rlimit(50)]
#[verifier::spinoff_prover]
pub proof fn lemma_reading_info_parse_ident(x: ReadingInfo)
    ensures
        ReadingInfo::spec_parse("&"@ + x.spec_ident() + ";"@) == Some(x),
{
    reveal_strlit("&");
    reveal_strlit(";");
    match x {
        ReadingInfo::Gikun => {
            reveal_strlit("gikun");
            reveal_strlit("&gikun;");
            assert("&"@ + "gikun"@ + ";"@ =~= "&gikun;"@);
        },
        ReadingInfo::IrregularKana => {
            reveal_strlit("ik");
            reveal_strlit("&ik;");
            assert("&"@ + "ik"@ + ";"@ =~= "&ik;"@);
            reveal_strlit("&gikun;");
        },
        ReadingInfo::ObsoleteKana => {
            reveal_strlit("ok");
            reveal_strlit("&ok;");
            assert("&"@ + "ok"@ + ";"@ =~= "&ok;"@);
            reveal_strlit("&gikun;");
            reveal_strlit("&ik;");
            assert("&ok;"@[1] != "&ik;"@[1]);
        },
        ReadingInfo::SearchOnlyKana => {
            reveal_strlit("sk");
            reveal_strlit("&sk;");
            assert("&"@ + "sk"@ + ";"@ =~= "&sk;"@);
            reveal_strlit("&gikun;");
            reveal_strlit("&ik;");
            assert("&sk;"@[1] != "&ik;"@[1]);
            reveal_strlit("&ok;");
            assert("&sk;"@[1] != "&ok;"@[1]);
        },
        ReadingInfo::RareKana => {
            reveal_strlit("rk");
            reveal_strlit("&rk;");
            assert("&"@ + "rk"@ + ";"@ =~= "&rk;"@);
            reveal_strlit("&gikun;");
            reveal_strlit("&ik;");
            assert("&rk;"@[1] != "&ik;"@[1]);
            reveal_strlit("&ok;");
            assert("&rk;"@[1] != "&ok;"@[1]);
            reveal_strlit("&sk;");
            assert("&rk;"@[1] != "&sk;"@[1]);
        },
    }
}

/// Parsing the entity reference of a dialect, `&` with its name and `;`,
/// gives it back.
#[verifier::rlimit(50)]
#[verifier::spinoff_prover]
pub proof fn lemma_dialect_parse_ident(x: Dialect)
    ensures
        Dialect::spec_parse("&"@ + x.spec_ident() + ";"@) == Some(x),
{
    reveal_strlit("&");
    reveal_strlit(";");
    match x {
        Dialect::Brazilian => {
            reveal_strlit("bra");
            reveal_strlit("&bra;");
            assert("&"@ + "bra"@ + ";"@ =~= "&bra;"@);
        },
        Dialect::HokkaidoBen => {
            reveal_strlit("hob");
            reveal_strlit("&hob;");
            assert("&"@ + "hob"@ + ";"@ =~= "&hob;"@);
            reveal_strlit("&bra;");
            assert("&hob;"@[1] != "&bra;"@[1]);
        },
        Dialect::KansaiBen => {
            reveal_strlit("ksb");
            reveal_strlit("&ksb;");
            assert("&"@ + "ksb"@ + ";"@ =~= "&ksb;"@);
            reveal_strlit("&bra;");
            assert("&ksb;"@[1] != "&bra;"@[1]);
            reveal_strlit("&hob;");
            assert("&ksb;"@[1] != "&hob;"@[1]);
        },
        Dialect::KantouBen => {
            reveal_strlit("ktb");
            reveal_strlit("&ktb;");
            assert("&"@ + "ktb"@ + ";"@ =~= "&ktb;"@);
            reveal_strlit("&bra;");
            assert("&ktb;"@[1] != "&bra;"@[1]);
            reveal_strlit("&hob;");
            assert("&ktb;"@[1] != "&hob;"@[1]);
            reveal_strlit("&ksb;");
            assert("&ktb;"@[2] != "&ksb;"@[2]);
        },
        Dialect::KyotoBen => {
            reveal_strlit("kyb");
            reveal_strlit("&kyb;");
            assert("&"@ + "kyb"@ + ";"@ =~= "&kyb;"@);
            reveal_strlit("&bra;");
            assert("&kyb;"@[1] != "&bra;"@[1]);
            reveal_strlit("&hob;");
            assert("&kyb;"@[1] != "&hob;"@[1]);
            reveal_strlit("&ksb;");
            assert("&kyb;"@[2] != "&ksb;"@[2]);
            reveal_strlit("&ktb;");
            assert("&kyb;"@[2] != "&ktb;"@[2]);
        },
        Dialect::KyuushuuBen => {
            reveal_strlit("kyu");
            reveal_strlit("&kyu;");
            assert("&"@ + "kyu"@ + ";"@ =~= "&kyu;"@);
            reveal_strlit("&bra;");
            assert("&kyu;"@[1] != "&bra;"@[1]);
            reveal_strlit("&hob;");
            assert("&kyu;"@[1] != "&hob;"@[1]);
            reveal_strlit("&ksb;");
            assert("&kyu;"@[2] != "&ksb;"@[2]);
            reveal_strlit("&ktb;");
            assert("&kyu;"@[2] != "&ktb;"@[2]);
            reveal_strlit("&kyb;");
            assert("&kyu;"@[3] != "&kyb;"@[3]);
        },
        Dialect::NaganoBen => {
            reveal_strlit("nab");
            reveal_strlit("&nab;");
            assert("&"@ + "nab"@ + ";"@ =~= "&nab;"@);
            reveal_strlit("&bra;");
            assert("&nab;"@[1] != "&bra;"@[1]);
            reveal_strlit("&hob;");
            assert("&nab;"@[1] != "&hob;"@[1]);
            reveal_strlit("&ksb;");
            assert("&nab;"@[1] != "&ksb;"@[1]);
            reveal_strlit("&ktb;");
            assert("&nab;"@[1] != "&ktb;"@[1]);
            reveal_strlit("&kyb;");
            assert("&nab;"@[1] != "&kyb;"@[1]);
            reveal_strlit("&kyu;");
            assert("&nab;"@[1] != "&kyu;"@[1]);
        },
        Dialect::OsakaBen => {
            reveal_strlit("osb");
            reveal_strlit("&osb;");
            assert("&"@ + "osb"@ + ";"@ =~= "&osb;"@);
            reveal_strlit("&bra;");
            assert("&osb;"@[1] != "&bra;"@[1]);
            reveal_strlit("&hob;");
            assert("&osb;"@[1] != "&hob;"@[1]);
            reveal_strlit("&ksb;");
            assert("&osb;"@[1] != "&ksb;"@[1]);
            reveal_strlit("&ktb;");
            assert("&osb;"@[1] != "&ktb;"@[1]);
            reveal_strlit("&kyb;");
            assert("&osb;"@[1] != "&kyb;"@[1]);
            reveal_strlit("&kyu;");
            assert("&osb;"@[1] != "&kyu;"@[1]);
            reveal_strlit("&nab;");
            assert("&osb;"@[1] != "&nab;"@[1]);
        },
        Dialect::RyuukyuuBen => {
            reveal_strlit("rkb");
            reveal_strlit("&rkb;");
            assert("&"@ + "rkb"@ + ";"@ =~= "&rkb;"@);
            reveal_strlit("&bra;");
            assert("&rkb;"@[1] != "&bra;"@[1]);
            reveal_strlit("&hob;");
            assert("&rkb;"@[1] != "&hob;"@[1]);
            reveal_strlit("&ksb;");
            assert("&rkb;"@[1] != "&ksb;"@[1]);
            reveal_strlit("&ktb;");
            assert("&rkb;"@[1] != "&ktb;"@[1]);
            reveal_strlit("&kyb;");
            assert("&rkb;"@[1] != "&kyb;"@[1]);
            reveal_strlit("&kyu;");
            assert("&rkb;"@[1] != "&kyu;"@[1]);
            reveal_strlit("&nab;");
            assert("&rkb;"@[1] != "&nab;"@[1]);
            reveal_strlit("&osb;");
            assert("&rkb;"@[1] != "&osb;"@[1]);
        },
        Dialect::TouhokuBen => {
            reveal_strlit("thb");
            reveal_strlit("&thb;");
            assert("&"@ + "thb"@ + ";"@ =~= "&thb;"@);
            reveal_strlit("&bra;");
            assert("&thb;"@[1] != "&bra;"@[1]);
            reveal_strlit("&hob;");
            assert("&thb;"@[1] != "&hob;"@[1]);
            reveal_strlit("&ksb;");
            assert("&thb;"@[1] != "&ksb;"@[1]);
            reveal_strlit("&ktb;");
            assert("&thb;"@[1] != "&ktb;"@[1]);
            reveal_strlit("&kyb;");
            assert("&thb;"@[1] != "&kyb;"@[1]);
            reveal_strlit("&kyu;");
            assert("&thb;"@[1] != "&kyu;"@[1]);
            reveal_strlit("&nab;");
            assert("&thb;"@[1] != "&nab;"@[1]);
            reveal_strlit("&osb;");
            assert("&thb;"@[1] != "&osb;"@[1]);
            reveal_strlit("&rkb;");
            assert("&thb;"@[1] != "&rkb;"@[1]);
        },
        Dialect::TosaBen => {
            reveal_strlit("tsb");
            reveal_strlit("&tsb;");
            assert("&"@ + "tsb"@ + ";"@ =~= "&tsb;"@);
            reveal_strlit("&bra;");
            assert("&tsb;"@[1] != "&bra;"@[1]);
            reveal_strlit("&hob;");
            assert("&tsb;"@[1] != "&hob;"@[1]);
            reveal_strlit("&ksb;");
            assert("&tsb;"@[1] != "&ksb;"@[1]);
            reveal_strlit("&ktb;");
            assert("&tsb;"@[1] != "&ktb;"@[1]);
            reveal_strlit("&kyb;");
            assert("&tsb;"@[1] != "&kyb;"@[1]);
            reveal_strlit("&kyu;");
            assert("&tsb;"@[1] != "&kyu;"@[1]);
            reveal_strlit("&nab;");
            assert("&tsb;"@[1] != "&nab;"@[1]);
            reveal_strlit("&osb;");
            assert("&tsb;"@[1] != "&osb;"@[1]);
            reveal_strlit("&rkb;");
            assert("&tsb;"@[1] != "&rkb;"@[1]);
            reveal_strlit("&thb;");
            assert("&tsb;"@[2] != "&thb;"@[2]);
        },
        Dialect::TsugaruBen => {
            reveal_strlit("tsug");
            reveal_strlit("&tsug;");
            assert("&"@ + "tsug"@ + ";"@ =~= "&tsug;"@);
            reveal_strlit("&bra;");
            reveal_strlit("&hob;");
            reveal_strlit("&ksb;");
            reveal_strlit("&ktb;");
            reveal_strlit("&kyb;");
            reveal_strlit("&kyu;");
            reveal_strlit("&nab;");
            reveal_strlit("&osb;");
            reveal_strlit("&rkb;");
            reveal_strlit("&thb;");
            reveal_strlit("&tsb;");
        },
    }
}

/// Parsing the entity reference of a field, `&` with its name and `;`,
/// gives it back.
#[verifier::rlimit(50)]
#[verifier::spinoff_prover]
pub proof fn lemma_field_parse_ident(x: Field)
    ensures
        Field::spec_parse("&"@ + x.spec_ident() + ";"@) == Some(x),
{
    reveal_strlit("&");
    reveal_strlit(";");
    match x {
        Field::Agriculture => {
            reveal_strlit("agric");
            reveal_strlit("&agric;");
            assert("&"@ + "agric"@ + ";"@ =~= "&agric;"@);
        },
        Field::Anatomy => {
            reveal_strlit("anat");
            reveal_strlit("&anat;");
            assert("&"@ + "anat"@ + ";"@ =~= "&anat;"@);
            reveal_strlit("&agric;");
        },
        Field::Archeology => {
            reveal_strlit("archeol");
            reveal_strlit("&archeol;");
            assert("&"@ + "archeol"@ + ";"@ =~= "&archeol;"@);
            reveal_strlit("&agric;");
            reveal_strlit("&anat;");
        },
        Field::Architecture => {
            reveal_strlit("archit");
            reveal_strlit("&archit;");
            assert("&"@ + "archit"@ + ";"@ =~= "&archit;"@);
            reveal_strlit("&agric;");
            reveal_strlit("&anat;");
            reveal_strlit("&archeol;");
        },
        Field::Art => {
            reveal_strlit("art");
            reveal_strlit("&art;");
            assert("&"@ + "art"@ + ";"@ =~= "&art;"@);
            reveal_strlit("&agric;");
            reveal_strlit("&anat;");
            reveal_strlit("&archeol;");
            reveal_strlit("&archit;");
        },
        Field::Astronomy => {
            reveal_strlit("astron");
            reveal_strlit("&astron;");
            assert("&"@ + "astron"@ + ";"@ =~= "&astron;"@);
            reveal_strlit("&agric;");
            reveal_strlit("&anat;");
            reveal_strlit("&archeol;");
            reveal_strlit("&archit;");
            assert("&astron;"@[2] != "&archit;"@[2]);
            reveal_strlit("&art;");
        },
        Field::AudioVisual => {
            reveal_strlit("audvid");
            reveal_strlit("&audvid;");
            assert("&"@ + "audvid"@ + ";"@ =~= "&audvid;"@);
            reveal_strlit("&agric;");
            reveal_strlit("&anat;");
            reveal_strlit("&archeol;");
            reveal_strlit("&archit;");
            assert("&audvid;"@[2] != "&archit;"@[2]);
            reveal_strlit("&art;");
            reveal_strlit("&astron;");
            assert("&audvid;"@[2] != "&astron;"@[2]);
        },
        Field::Aviatation => {
            reveal_strlit("aviat");
            reveal_strlit("&aviat;");
            assert("&"@ + "aviat"@ + ";"@ =~= "&aviat;"@);
            reveal_strlit("&agric;");
            assert("&aviat;"@[2] != "&agric;"@[2]);
            reveal_strlit("&anat;");
            reveal_strlit("&archeol;");
            reveal_strlit("&archit;");
            reveal_strlit("&art;");
            reveal_strlit("&astron;");
            reveal_strlit("&audvid;");
        },
        Field::Baseball => {
            reveal_strlit("baseb");
            reveal_strlit("&baseb;");
            assert("&"@ + "baseb"@ + ";"@ =~= "&baseb;"@);
            reveal_strlit("&agric;");
            assert("&baseb;"@[1] != "&agric;"@[1]);
            reveal_strlit("&anat;");
            reveal_strlit("&archeol;");
            reveal_strlit("&archit;");
            reveal_strlit("&art;");
            reveal_strlit("&astron;");
            reveal_strlit("&audvid;");
            reveal_strlit("&aviat;");
            assert("&baseb;"@[1] != "&aviat;"@[1]);
        },
        Field::Biochemistry => {
            reveal_strlit("biochem");
            reveal_strlit("&biochem;");
            assert("&"@ + "biochem"@ + ";"@ =~= "&biochem;"@);
            reveal_strlit("&agric;");
            reveal_strlit("&anat;");
            reveal_strlit("&archeol;");
            assert("&biochem;"@[1] != "&archeol;"@[1]);
            reveal_strlit("&archit;");
            reveal_strlit("&art;");
            reveal_strlit("&astron;");
            reveal_strlit("&audvid;");
            reveal_strlit("&aviat;");
            reveal_strlit("&baseb;");
        },
        Field::Biology => {
            reveal_strlit("biol");
            reveal_strlit("&biol;");
            assert("&"@ + "biol"@ + ";"@ =~= "&biol;"@);
            reveal_strlit("&agric;");
            reveal_strlit("&anat;");
            assert("&biol;"@[1] != "&anat;"@[1]);
            reveal_strlit("&archeol;");
            reveal_strlit("&archit;");
            reveal_strlit("&art;");
            reveal_strlit("&astron;");
            reveal_strlit("&audvid;");
            reveal_strlit("&aviat;");
            reveal_strlit("&baseb;");
            reveal_strlit("&biochem;");
        },
        Field::Botany => {
            reveal_strlit("bot");
            reveal_strlit("&bot;");
            assert("&"@ + "bot"@ + ";"@ =~= "&bot;"@);
            reveal_strlit("&agric;");
            reveal_strlit("&anat;");
            reveal_strlit("&archeol;");
            reveal_strlit("&archit;");
            reveal_strlit("&art;");
            assert("&bot;"@[1] != "&art;"@[1]);
            reveal_strlit("&astron;");
            reveal_strlit("&audvid;");
            reveal_strlit("&aviat;");
            reveal_strlit("&baseb;");
            reveal_strlit("&biochem;");
            reveal_strlit("&biol;");
        },
        Field::Boxing => {
            reveal_strlit("boxing");
            reveal_strlit("&boxing;");
            assert("&"@ + "boxing"@ + ";"@ =~= "&boxing;"@);
            reveal_strlit("&agric;");
            reveal_strlit("&anat;");
            reveal_strlit("&archeol;");
            reveal_strlit("&archit;");
            assert("&boxing;"@[1] != "&archit;"@[1]);
            reveal_strlit("&art;");
            reveal_strlit("&astron;");
            assert("&boxing;"@[1] != "&astron;"@[1]);
            reveal_strlit("&audvid;");
            assert("&boxing;"@[1] != "&audvid;"@[1]);
            reveal_strlit("&aviat;");
            reveal_strlit("&baseb;");
            reveal_strlit("&biochem;");
            reveal_strlit("&biol;");
            reveal_strlit("&bot;");
        },
        Field::Buddh => {
            reveal_strlit("Buddh");
            reveal_strlit("&Buddh;");
            assert("&"@ + "Buddh"@ + ";"@ =~= "&Buddh;"@);
            reveal_strlit("&agric;");
            assert("&Buddh;"@[1] != "&agric;"@[1]);
            reveal_strlit("&anat;");
            reveal_strlit("&archeol;");
            reveal_strlit("&archit;");
            reveal_strlit("&art;");
            reveal_strlit("&astron;");
            reveal_strlit("&audvid;");
            reveal_strlit("&aviat;");
            assert("&Buddh;"@[1] != "&aviat;"@[1]);
            reveal_strlit("&baseb;");
            assert("&Buddh;"@[1] != "&baseb;"@[1]);
            reveal_strlit("&biochem;");
            reveal_strlit("&biol;");
            reveal_strlit("&bot;");
            reveal_strlit("&boxing;");
        },
        Field::Business => {
            reveal_strlit("bus");
            reveal_strlit("&bus;");
            assert("&"@ + "bus"@ + ";"@ =~= "&bus;"@);
            reveal_strlit("&agric;");
            reveal_strlit("&anat;");
            reveal_strlit("&archeol;");
            reveal_strlit("&archit;");
            reveal_strlit("&art;");
            assert("&bus;"@[1] != "&art;"@[1]);
            reveal_strlit("&astron;");
            reveal_strlit("&audvid;");
            reveal_strlit("&aviat;");
            reveal_strlit("&baseb;");
            reveal_strlit("&biochem;");
            reveal_strlit("&biol;");
            reveal_strlit("&bot;");
            assert("&bus;"@[2] != "&bot;"@[2]);
            reveal_strlit("&boxing;");
            reveal_strlit("&Buddh;");
        },
        Field::Cards => {
            reveal_strlit("cards");
            reveal_strlit("&cards;");
            assert("&"@ + "cards"@ + ";"@ =~= "&cards;"@);
            reveal_strlit("&agric;");
            assert("&cards;"@[1] != "&agric;"@[1]);
            reveal_strlit("&anat;");
            reveal_strlit("&archeol;");
            reveal_strlit("&archit;");
            reveal_strlit("&art;");
            reveal_strlit("&astron;");
            reveal_strlit("&audvid;");
            reveal_strlit("&aviat;");
            assert("&cards;"@[1] != "&aviat;"@[1]);
            reveal_strlit("&baseb;");
            assert("&cards;"@[1] != "&baseb;"@[1]);
            reveal_strlit("&biochem;");
            reveal_strlit("&biol;");
            reveal_strlit("&bot;");
            reveal_strlit("&boxing;");
            reveal_strlit("&Buddh;");
            assert("&cards;"@[1] != "&Buddh;"@[1]);
            reveal_strlit("&bus;");
        },
        Field::Chemistry => {
            reveal_strlit("chem");
            reveal_strlit("&chem;");
            assert("&"@ + "chem"@ + ";"@ =~= "&chem;"@);
            reveal_strlit("&agric;");
            reveal_strlit("&anat;");
            assert("&chem;"@[1] != "&anat;"@[1]);
            reveal_strlit("&archeol;");
            reveal_strlit("&archit;");
            reveal_strlit("&art;");
            reveal_strlit("&astron;");
            reveal_strlit("&audvid;");
            reveal_strlit("&aviat;");
            reveal_strlit("&baseb;");
            reveal_strlit("&biochem;");
            reveal_strlit("&biol;");
            assert("&chem;"@[1] != "&biol;"@[1]);
            reveal_strlit("&bot;");
            reveal_strlit("&boxing;");
            reveal_strlit("&Buddh;");
            reveal_strlit("&bus;");
            reveal_strlit("&cards;");
        },
        Field::Christianity => {
            reveal_strlit("Christn");
            reveal_strlit("&Christn;");
            assert("&"@ + "Christn"@ + ";"@ =~= "&Christn;"@);
            reveal_strlit("&agric;");
            reveal_strlit("&anat;");
            reveal_strlit("&archeol;");
            assert("&Christn;"@[1] != "&archeol;"@[1]);
            reveal_strlit("&archit;");
            reveal_strlit("&art;");
            reveal_strlit("&astron;");
            reveal_strlit("&audvid;");
            reveal_strlit("&aviat;");
            reveal_strlit("&baseb;");
            reveal_strlit("&biochem;");
            assert("&Christn;"@[1] != "&biochem;"@[1]);
            reveal_strlit("&biol;");
            reveal_strlit("&bot;");
            reveal_strlit("&boxing;");
            reveal_strlit("&Buddh;");
            reveal_strlit("&bus;");
            reveal_strlit("&cards;");
            reveal_strlit("&chem;");
        },
        Field::CivilEngineering => {
            reveal_strlit("civeng");
            reveal_strlit("&civeng;");
            assert("&"@ + "civeng"@ + ";"@ =~= "&civeng;"@);
            reveal_strlit("&agric;");
            reveal_strlit("&anat;");
            reveal_strlit("&archeol;");
            reveal_strlit("&archit;");
            assert("&civeng;"@[1] != "&archit;"@[1]);
            reveal_strlit("&art;");
            reveal_strlit("&astron;");
            assert("&civeng;"@[1] != "&astron;"@[1]);
            reveal_strlit("&audvid;");
            assert("&civeng;"@[1] != "&audvid;"@[1]);
            reveal_strlit("&aviat;");
            reveal_strlit("&baseb;");
            reveal_strlit("&biochem;");
            reveal_strlit("&biol;");
            reveal_strlit("&bot;");
            reveal_strlit("&boxing;");
            assert("&civeng;"@[1] != "&boxing;"@[1]);
            reveal_strlit("&Buddh;");
            reveal_strlit("&bus;");
            reveal_strlit("&cards;");
            reveal_strlit("&chem;");
            reveal_strlit("&Christn;");
        },
        Field::ChineseMythology => {
            reveal_strlit("chmyth");
            reveal_strlit("&chmyth;");
            assert("&"@ + "chmyth"@ + ";"@ =~= "&chmyth;"@);
            reveal_strlit("&agric;");
            reveal_strlit("&anat;");
            reveal_strlit("&archeol;");
            reveal_strlit("&archit;");
            assert("&chmyth;"@[1] != "&archit;"@[1]);
            reveal_strlit("&art;");
            reveal_strlit("&astron;");
            assert("&chmyth;"@[1] != "&astron;"@[1]);
            reveal_strlit("&audvid;");
            assert("&chmyth;"@[1] != "&audvid;"@[1]);
            reveal_strlit("&aviat;");
            reveal_strlit("&baseb;");
            reveal_strlit("&biochem;");
            reveal_strlit("&biol;");
            reveal_strlit("&bot;");
            reveal_strlit("&boxing;");
            assert("&chmyth;"@[1] != "&boxing;"@[1]);
            reveal_strlit("&Buddh;");
            reveal_strlit("&bus;");
            reveal_strlit("&cards;");
            reveal_strlit("&chem;");
            reveal_strlit("&Christn;");
            reveal_strlit("&civeng;");
            assert("&chmyth;"@[2] != "&civeng;"@[2]);
        },
        Field::Clothing => {
            reveal_strlit("cloth");
            reveal_strlit("&cloth;");
            assert("&"@ + "cloth"@ + ";"@ =~= "&cloth;"@);
            reveal_strlit("&agric;");
            assert("&cloth;"@[1] != "&agric;"@[1]);
            reveal_strlit("&anat;");
            reveal_strlit("&archeol;");
            reveal_strlit("&archit;");
            reveal_strlit("&art;");
            reveal_strlit("&astron;");
            reveal_strlit("&audvid;");
            reveal_strlit("&aviat;");
            assert("&cloth;"@[1] != "&aviat;"@[1]);
            reveal_strlit("&baseb;");
            assert("&cloth;"@[1] != "&baseb;"@[1]);
            reveal_strlit("&biochem;");
            reveal_strlit("&biol;");
            reveal_strlit("&bot;");
            reveal_strlit("&boxing;");
            reveal_strlit("&Buddh;");
            assert("&cloth;"@[1] != "&Buddh;"@[1]);
            reveal_strlit("&bus;");
            reveal_strlit("&cards;");
            assert("&cloth;"@[2] != "&cards;"@[2]);
            reveal_strlit("&chem;");
            reveal_strlit("&Christn;");
            reveal_strlit("&civeng;");
            reveal_strlit("&chmyth;");
        },
        Field::Computing => {
            reveal_strlit("comp");
            reveal_strlit("&comp;");
            assert("&"@ + "comp"@ + ";"@ =~= "&comp;"@);
            reveal_strlit("&agric;");
            reveal_strlit("&anat;");
            assert("&comp;"@[1] != "&anat;"@[1]);
            reveal_strlit("&archeol;");
            reveal_strlit("&archit;");
            reveal_strlit("&art;");
            reveal_strlit("&astron;");
            reveal_strlit("&audvid;");
            reveal_strlit("&aviat;");
            reveal_strlit("&baseb;");
            reveal_strlit("&biochem;");
            reveal_strlit("&biol;");
            assert("&comp;"@[1] != "&biol;"@[1]);
            reveal_strlit("&bot;");
            reveal_strlit("&boxing;");
            reveal_strlit("&Buddh;");
            reveal_strlit("&bus;");
            reveal_strlit("&cards;");
            reveal_strlit("&chem;");
            assert("&comp;"@[2] != "&chem;"@[2]);
            reveal_strlit("&Christn;");
            reveal_strlit("&civeng;");
            reveal_strlit("&chmyth;");
            reveal_strlit("&cloth;");
        },
        Field::Crystallography => {
            reveal_strlit("cryst");
            reveal_strlit("&cryst;");
            assert("&"@ + "cryst"@ + ";"@ =~= "&cryst;"@);
            reveal_strlit("&agric;");
            assert("&cryst;"@[1] != "&agric;"@[1]);
            reveal_strlit("&anat;");
            reveal_strlit("&archeol;");
            reveal_strlit("&archit;");
            reveal_strlit("&art;");
            reveal_strlit("&astron;");
            reveal_strlit("&audvid;");
            reveal_strlit("&aviat;");
            assert("&cryst;"@[1] != "&aviat;"@[1]);
            reveal_strlit("&baseb;");
            assert("&cryst;"@[1] != "&baseb;"@[1]);
            reveal_strlit("&biochem;");
            reveal_strlit("&biol;");
            reveal_strlit("&bot;");
            reveal_strlit("&boxing;");
            reveal_strlit("&Buddh;");
            assert("&cryst;"@[1] != "&Buddh;"@[1]);
            reveal_strlit("&bus;");
            reveal_strlit("&cards;");
            assert("&cryst;"@[2] != "&cards;"@[2]);
            reveal_strlit("&chem;");
            reveal_strlit("&Christn;");
            reveal_strlit("&civeng;");
            reveal_strlit("&chmyth;");
            reveal_strlit("&cloth;");
            assert("&cryst;"@[2] != "&cloth;"@[2]);
            reveal_strlit("&comp;");
        },
        Field::Dentistry => {
            reveal_strlit("dent");
            reveal_strlit("&dent;");
            assert("&"@ + "dent"@ + ";"@ =~= "&dent;"@);
            reveal_strlit("&agric;");
            reveal_strlit("&anat;");
            assert("&dent;"@[1] != "&anat;"@[1]);
            reveal_strlit("&archeol;");
            reveal_strlit("&archit;");
            reveal_strlit("&art;");
            reveal_strlit("&astron;");
            reveal_strlit("&audvid;");
            reveal_strlit("&aviat;");
            reveal_strlit("&baseb;");
            reveal_strlit("&biochem;");
            reveal_strlit("&biol;");
            assert("&dent;"@[1] != "&biol;"@[1]);
            reveal_strlit("&bot;");
            reveal_strlit("&boxing;");
            reveal_strlit("&Buddh;");
            reveal_strlit("&bus;");
            reveal_strlit("&cards;");
            reveal_strlit("&chem;");
            assert("&dent;"@[1] != "&chem;"@[1]);
            reveal_strlit("&Christn;");
            reveal_strlit("&civeng;");
            reveal_strlit("&chmyth;");
            reveal_strlit("&cloth;");
            reveal_strlit("&comp;");
            assert("&dent;"@[1] != "&comp;"@[1]);
            reveal_strlit("&cryst;");
        },
        Field::Ecology => {
            reveal_strlit("ecol");
            reveal_strlit("&ecol;");
            assert("&"@ + "ecol"@ + ";"@ =~= "&ecol;"@);
            reveal_strlit("&agric;");
            reveal_strlit("&anat;");
            assert("&ecol;"@[1] != "&anat;"@[1]);
            reveal_strlit("&archeol;");
            reveal_strlit("&archit;");
            reveal_strlit("&art;");
            reveal_strlit("&astron;");
            reveal_strlit("&audvid;");
            reveal_strlit("&aviat;");
            reveal_strlit("&baseb;");
            reveal_strlit("&biochem;");
            reveal_strlit("&biol;");
            assert("&ecol;"@[1] != "&biol;"@[1]);
            reveal_strlit("&bot;");
            reveal_strlit("&boxing;");
            reveal_strlit("&Buddh;");
            reveal_strlit("&bus;");
            reveal_strlit("&cards;");
            reveal_strlit("&chem;");
            assert("&ecol;"@[1] != "&chem;"@[1]);
            reveal_strlit("&Christn;");
            reveal_strlit("&civeng;");
            reveal_strlit("&chmyth;");
            reveal_strlit("&cloth;");
            reveal_strlit("&comp;");
            assert("&ecol;"@[1] != "&comp;"@[1]);
            reveal_strlit("&cryst;");
            reveal_strlit("&dent;");
            assert("&ecol;"@[1] != "&dent;"@[1]);
        },
        Field::Economy => {
            reveal_strlit("econ");
            reveal_strlit("&econ;");
            assert("&"@ + "econ"@ + ";"@ =~= "&econ;"@);
            reveal_strlit("&agric;");
            reveal_strlit("&anat;");
            assert("&econ;"@[1] != "&anat;"@[1]);
            reveal_strlit("&archeol;");
            reveal_strlit("&archit;");
            reveal_strlit("&art;");
            reveal_strlit("&astron;");
            reveal_strlit("&audvid;");
            reveal_strlit("&aviat;");
            reveal_strlit("&baseb;");
            reveal_strlit("&biochem;");
            reveal_strlit("&biol;");
            assert("&econ;"@[1] != "&biol;"@[1]);
            reveal_strlit("&bot;");
            reveal_strlit("&boxing;");
            reveal_strlit("&Buddh;");
            reveal_strlit("&bus;");
            reveal_strlit("&cards;");
            reveal_strlit("&chem;");
            assert("&econ;"@[1] != "&chem;"@[1]);
            reveal_strlit("&Christn;");
            reveal_strlit("&civeng;");
            reveal_strlit("&chmyth;");
            reveal_strlit("&cloth;");
            reveal_strlit("&comp;");
            assert("&econ;"@[1] != "&comp;"@[1]);
            reveal_strlit("&cryst;");
            reveal_strlit("&dent;");
            assert("&econ;"@[1] != "&dent;"@[1]);
            reveal_strlit("&ecol;");
            assert("&econ;"@[4] != "&ecol;"@[4]);
        },
        Field::Electricity => {
            reveal_strlit("elec");
            reveal_strlit("&elec;");
            assert("&"@ + "elec"@ + ";"@ =~= "&elec;"@);
            reveal_strlit("&agric;");
            reveal_strlit("&anat;");
            assert("&elec;"@[1] != "&anat;"@[1]);
            reveal_strlit("&archeol;");
            reveal_strlit("&archit;");
            reveal_strlit("&art;");
            reveal_strlit("&astron;");
            reveal_strlit("&audvid;");
            reveal_strlit("&aviat;");
            reveal_strlit("&baseb;");
            reveal_strlit("&biochem;");
            reveal_strlit("&biol;");
            assert("&elec;"@[1] != "&biol;"@[1]);
            reveal_strlit("&bot;");
            reveal_strlit("&boxing;");
            reveal_strlit("&Buddh;");
            reveal_strlit("&bus;");
            reveal_strlit("&cards;");
            reveal_strlit("&chem;");
            assert("&elec;"@[1] != "&chem;"@[1]);
            reveal_strlit("&Christn;");
            reveal_strlit("&civeng;");
            reveal_strlit("&chmyth;");
            reveal_strlit("&cloth;");
            reveal_strlit("&comp;");
            assert("&elec;"@[1] != "&comp;"@[1]);
            reveal_strlit("&cryst;");
            reveal_strlit("&dent;");
            assert("&elec;"@[1] != "&dent;"@[1]);
            reveal_strlit("&ecol;");
            assert("&elec;"@[2] != "&ecol;"@[2]);
            reveal_strlit("&econ;");
            assert("&elec;"@[2] != "&econ;"@[2]);
        },
        Field::Electronics => {
            reveal_strlit("electr");
            reveal_strlit("&electr;");
            assert("&"@ + "electr"@ + ";"@ =~= "&electr;"@);
            reveal_strlit("&agric;");
            reveal_strlit("&anat;");
            reveal_strlit("&archeol;");
            reveal_strlit("&archit;");
            assert("&electr;"@[1] != "&archit;"@[1]);
            reveal_strlit("&art;");
            reveal_strlit("&astron;");
            assert("&electr;"@[1] != "&astron;"@[1]);
            reveal_strlit("&audvid;");
            assert("&electr;"@[1] != "&audvid;"@[1]);
            reveal_strlit("&aviat;");
            reveal_strlit("&baseb;");
            reveal_strlit("&biochem;");
            reveal_strlit("&biol;");
            reveal_strlit("&bot;");
            reveal_strlit("&boxing;");
            assert("&electr;"@[1] != "&boxing;"@[1]);
            reveal_strlit("&Buddh;");
            reveal_strlit("&bus;");
            reveal_strlit("&cards;");
            reveal_strlit("&chem;");
            reveal_strlit("&Christn;");
            reveal_strlit("&civeng;");
            assert("&electr;"@[1] != "&civeng;"@[1]);
            reveal_strlit("&chmyth;");
            assert("&electr;"@[1] != "&chmyth;"@[1]);
            reveal_strlit("&cloth;");
            reveal_strlit("&comp;");
            reveal_strlit("&cryst;");
            reveal_strlit("&dent;");
            reveal_strlit("&ecol;");
            reveal_strlit("&econ;");
            reveal_strlit("&elec;");
        },
        Field::Embryology => {
            reveal_strlit("embryo");
            reveal_strlit("&embryo;");
            assert("&"@ + "embryo"@ + ";"@ =~= "&embryo;"@);
            reveal_strlit("&agric;");
            reveal_strlit("&anat;");
            reveal_strlit("&archeol;");
            reveal_strlit("&archit;");
            assert("&embryo;"@[1] != "&archit;"@[1]);
            reveal_strlit("&art;");
            reveal_strlit("&astron;");
            assert("&embryo;"@[1] != "&astron;"@[1]);
            reveal_strlit("&audvid;");
            assert("&embryo;"@[1] != "&audvid;"@[1]);
            reveal_strlit("&aviat;");
            reveal_strlit("&baseb;");
            reveal_strlit("&biochem;");
            reveal_strlit("&biol;");
            reveal_strlit("&bot;");
            reveal_strlit("&boxing;");
            assert("&embryo;"@[1] != "&boxing;"@[1]);
            reveal_strlit("&Buddh;");
            reveal_strlit("&bus;");
            reveal_strlit("&cards;");
            reveal_strlit("&chem;");
            reveal_strlit("&Christn;");
            reveal_strlit("&civeng;");
            assert("&embryo;"@[1] != "&civeng;"@[1]);
            reveal_strlit("&chmyth;");
            assert("&embryo;"@[1] != "&chmyth;"@[1]);
            reveal_strlit("&cloth;");
            reveal_strlit("&comp;");
            reveal_strlit("&cryst;");
            reveal_strlit("&dent;");
            reveal_strlit("&ecol;");
            reveal_strlit("&econ;");
            reveal_strlit("&elec;");
            reveal_strlit("&electr;");
            assert("&embryo;"@[2] != "&electr;"@[2]);
        },
        Field::Engineering => {
            reveal_strlit("engr");
            reveal_strlit("&engr;");
            assert("&"@ + "engr"@ + ";"@ =~= "&engr;"@);
            reveal_strlit("&agric;");
            reveal_strlit("&anat;");
            assert("&engr;"@[1] != "&anat;"@[1]);
            reveal_strlit("&archeol;");
            reveal_strlit("&archit;");
            reveal_strlit("&art;");
            reveal_strlit("&astron;");
            reveal_strlit("&audvid;");
            reveal_strlit("&aviat;");
            reveal_strlit("&baseb;");
            reveal_strlit("&biochem;");
            reveal_strlit("&biol;");
            assert("&engr;"@[1] != "&biol;"@[1]);
            reveal_strlit("&bot;");
            reveal_strlit("&boxing;");
            reveal_strlit("&Buddh;");
            reveal_strlit("&bus;");
            reveal_strlit("&cards;");
            reveal_strlit("&chem;");
            assert("&engr;"@[1] != "&chem;"@[1]);
            reveal_strlit("&Christn;");
            reveal_strlit("&civeng;");
            reveal_strlit("&chmyth;");
            reveal_strlit("&cloth;");
            reveal_strlit("&comp;");
            assert("&engr;"@[1] != "&comp;"@[1]);
            reveal_strlit("&cryst;");
            reveal_strlit("&dent;");
            assert("&engr;"@[1] != "&dent;"@[1]);
            reveal_strlit("&ecol;");
            assert("&engr;"@[2] != "&ecol;"@[2]);
            reveal_strlit("&econ;");
            assert("&engr;"@[2] != "&econ;"@[2]);
            reveal_strlit("&elec;");
            assert("&engr;"@[2] != "&elec;"@[2]);
            reveal_strlit("&electr;");
            reveal_strlit("&embryo;");
        },
        Field::Entomology => {
            reveal_strlit("ent");
            reveal_strlit("&ent;");
            assert("&"@ + "ent"@ + ";"@ =~= "&ent;"@);
            reveal_strlit("&agric;");
            reveal_strlit("&anat;");
            reveal_strlit("&archeol;");
            reveal_strlit("&archit;");
            reveal_strlit("&art;");
            assert("&ent;"@[1] != "&art;"@[1]);
            reveal_strlit("&astron;");
            reveal_strlit("&audvid;");
            reveal_strlit("&aviat;");
            reveal_strlit("&baseb;");
            reveal_strlit("&biochem;");
            reveal_strlit("&biol;");
            reveal_strlit("&bot;");
            assert("&ent;"@[1] != "&bot;"@[1]);
            reveal_strlit("&boxing;");
            reveal_strlit("&Buddh;");
            reveal_strlit("&bus;");
            assert("&ent;"@[1] != "&bus;"@[1]);
            reveal_strlit("&cards;");
            reveal_strlit("&chem;");
            reveal_strlit("&Christn;");
            reveal_strlit("&civeng;");
            reveal_strlit("&chmyth;");
            reveal_strlit("&cloth;");
            reveal_strlit("&comp;");
            reveal_strlit("&cryst;");
            reveal_strlit("&dent;");
            reveal_strlit("&ecol;");
            reveal_strlit("&econ;");
            reveal_strlit("&elec;");
            reveal_strlit("&electr;");
            reveal_strlit("&embryo;");
            reveal_strlit("&engr;");
        },
        Field::Film => {
            reveal_strlit("film");
            reveal_strlit("&film;");
            assert("&"@ + "film"@ + ";"@ =~= "&film;"@);
            reveal_strlit("&agric;");
            reveal_strlit("&anat;");
            assert("&film;"@[1] != "&anat;"@[1]);
            reveal_strlit("&archeol;");
            reveal_strlit("&archit;");
            reveal_strlit("&art;");
            reveal_strlit("&astron;");
            reveal_strlit("&audvid;");
            reveal_strlit("&aviat;");
            reveal_strlit("&baseb;");
            reveal_strlit("&biochem;");
            reveal_strlit("&biol;");
            assert("&film;"@[1] != "&biol;"@[1]);
            reveal_strlit("&bot;");
            reveal_strlit("&boxing;");
            reveal_strlit("&Buddh;");
            reveal_strlit("&bus;");
            reveal_strlit("&cards;");
            reveal_strlit("&chem;");
            assert("&film;"@[1] != "&chem;"@[1]);
            reveal_strlit("&Christn;");
            reveal_strlit("&civeng;");
            reveal_strlit("&chmyth;");
            reveal_strlit("&cloth;");
            reveal_strlit("&comp;");
            assert("&film;"@[1] != "&comp;"@[1]);
            reveal_strlit("&cryst;");
            reveal_strlit("&dent;");
            assert("&film;"@[1] != "&dent;"@[1]);
            reveal_strlit("&ecol;");
            assert("&film;"@[1] != "&ecol;"@[1]);
            reveal_strlit("&econ;");
            assert("&film;"@[1] != "&econ;"@[1]);
            reveal_strlit("&elec;");
            assert("&film;"@[1] != "&elec;"@[1]);
            reveal_strlit("&electr;");
            reveal_strlit("&embryo;");
            reveal_strlit("&engr;");
            assert("&film;"@[1] != "&engr;"@[1]);
            reveal_strlit("&ent;");
        },
        Field::Finc => {
            reveal_strlit("finc");
            reveal_strlit("&finc;");
            assert("&"@ + "finc"@ + ";"@ =~= "&finc;"@);
            reveal_strlit("&agric;");
            reveal_strlit("&anat;");
            assert("&finc;"@[1] != "&anat;"@[1]);
            reveal_strlit("&archeol;");
            reveal_strlit("&archit;");
            reveal_strlit("&art;");
            reveal_strlit("&astron;");
            reveal_strlit("&audvid;");
            reveal_strlit("&aviat;");
            reveal_strlit("&baseb;");
            reveal_strlit("&biochem;");
            reveal_strlit("&biol;");
            assert("&finc;"@[1] != "&biol;"@[1]);
            reveal_strlit("&bot;");
            reveal_strlit("&boxing;");
            reveal_strlit("&Buddh;");
            reveal_strlit("&bus;");
            reveal_strlit("&cards;");
            reveal_strlit("&chem;");
            assert("&finc;"@[1] != "&chem;"@[1]);
            reveal_strlit("&Christn;");
            reveal_strlit("&civeng;");
            reveal_strlit("&chmyth;");
            reveal_strlit("&cloth;");
            reveal_strlit("&comp;");
            assert("&finc;"@[1] != "&comp;"@[1]);
            reveal_strlit("&cryst;");
            reveal_strlit("&dent;");
            assert("&finc;"@[1] != "&dent;"@[1]);
            reveal_strlit("&ecol;");
            assert("&finc;"@[1] != "&ecol;"@[1]);
            reveal_strlit("&econ;");
            assert("&finc;"@[1] != "&econ;"@[1]);
            reveal_strlit("&elec;");
            assert("&finc;"@[1] != "&elec;"@[1]);
            reveal_strlit("&electr;");
            reveal_strlit("&embryo;");
            reveal_strlit("&engr;");
            assert("&finc;"@[1] != "&engr;"@[1]);
            reveal_strlit("&ent;");
            reveal_strlit("&film;");
            assert("&finc;"@[3] != "&film;"@[3]);
        },
        Field::Fish => {
            reveal_strlit("fish");
            reveal_strlit("&fish;");
            assert("&"@ + "fish"@ + ";"@ =~= "&fish;"@);
            reveal_strlit("&agric;");
            reveal_strlit("&anat;");
            assert("&fish;"@[1] != "&anat;"@[1]);
            reveal_strlit("&archeol;");
            reveal_strlit("&archit;");
            reveal_strlit("&art;");
            reveal_strlit("&astron;");
            reveal_strlit("&audvid;");
            reveal_strlit("&aviat;");
            reveal_strlit("&baseb;");
            reveal_strlit("&biochem;");
            reveal_strlit("&biol;");
            assert("&fish;"@[1] != "&biol;"@[1]);
            reveal_strlit("&bot;");
            reveal_strlit("&boxing;");
            reveal_strlit("&Buddh;");
            reveal_strlit("&bus;");
            reveal_strlit("&cards;");
            reveal_strlit("&chem;");
            assert("&fish;"@[1] != "&chem;"@[1]);
            reveal_strlit("&Christn;");
            reveal_strlit("&civeng;");
            reveal_strlit("&chmyth;");
            reveal_strlit("&cloth;");
            reveal_strlit("&comp;");
            assert("&fish;"@[1] != "&comp;"@[1]);
            reveal_strlit("&cryst;");
            reveal_strlit("&dent;");
            assert("&fish;"@[1] != "&dent;"@[1]);
            reveal_strlit("&ecol;");
            assert("&fish;"@[1] != "&ecol;"@[1]);
            reveal_strlit("&econ;");
            assert("&fish;"@[1] != "&econ;"@[1]);
            reveal_strlit("&elec;");
            assert("&fish;"@[1] != "&elec;"@[1]);
            reveal_strlit("&electr;");
            reveal_strlit("&embryo;");
            reveal_strlit("&engr;");
            assert("&fish;"@[1] != "&engr;"@[1]);
            reveal_strlit("&ent;");
            reveal_strlit("&film;");
            assert("&fish;"@[3] != "&film;"@[3]);
            reveal_strlit("&finc;");
            assert("&fish;"@[3] != "&finc;"@[3]);
        },
        Field::Food => {
            reveal_strlit("food");
            reveal_strlit("&food;");
            assert("&"@ + "food"@ + ";"@ =~= "&food;"@);
            reveal_strlit("&agric;");
            reveal_strlit("&anat;");
            assert("&food;"@[1] != "&anat;"@[1]);
            reveal_strlit("&archeol;");
            reveal_strlit("&archit;");
            reveal_strlit("&art;");
            reveal_strlit("&astron;");
            reveal_strlit("&audvid;");
            reveal_strlit("&aviat;");
            reveal_strlit("&baseb;");
            reveal_strlit("&biochem;");
            reveal_strlit("&biol;");
            assert("&food;"@[1] != "&biol;"@[1]);
            reveal_strlit("&bot;");
            reveal_strlit("&boxing;");
            reveal_strlit("&Buddh;");
            reveal_strlit("&bus;");
            reveal_strlit("&cards;");
            reveal_strlit("&chem;");
            assert("&food;"@[1] != "&chem;"@[1]);
            reveal_strlit("&Christn;");
            reveal_strlit("&civeng;");
            reveal_strlit("&chmyth;");
            reveal_strlit("&cloth;");
            reveal_strlit("&comp;");
            assert("&food;"@[1] != "&comp;"@[1]);
            reveal_strlit("&cryst;");
            reveal_strlit("&dent;");
            assert("&food;"@[1] != "&dent;"@[1]);
            reveal_strlit("&ecol;");
            assert("&food;"@[1] != "&ecol;"@[1]);
            reveal_strlit("&econ;");
            assert("&food;"@[1] != "&econ;"@[1]);
            reveal_strlit("&elec;");
            assert("&food;"@[1] != "&elec;"@[1]);
            reveal_strlit("&electr;");
            reveal_strlit("&embryo;");
            reveal_strlit("&engr;");
            assert("&food;"@[1] != "&engr;"@[1]);
            reveal_strlit("&ent;");
            reveal_strlit("&film;");
            assert("&food;"@[2] != "&film;"@[2]);
            reveal_strlit("&finc;");
            assert("&food;"@[2] != "&finc;"@[2]);
            reveal_strlit("&fish;");
            assert("&food;"@[2] != "&fish;"@[2]);
        },
        Field::Gardening => {
            reveal_strlit("gardn");
            reveal_strlit("&gardn;");
            assert("&"@ + "gardn"@ + ";"@ =~= "&gardn;"@);
            reveal_strlit("&agric;");
            assert("&gardn;"@[1] != "&agric;"@[1]);
            reveal_strlit("&anat;");
            reveal_strlit("&archeol;");
            reveal_strlit("&archit;");
            reveal_strlit("&art;");
            reveal_strlit("&astron;");
            reveal_strlit("&audvid;");
            reveal_strlit("&aviat;");
            assert("&gardn;"@[1] != "&aviat;"@[1]);
            reveal_strlit("&baseb;");
            assert("&gardn;"@[1] != "&baseb;"@[1]);
            reveal_strlit("&biochem;");
            reveal_strlit("&biol;");
            reveal_strlit("&bot;");
            reveal_strlit("&boxing;");
            reveal_strlit("&Buddh;");
            assert("&gardn;"@[1] != "&Buddh;"@[1]);
            reveal_strlit("&bus;");
            reveal_strlit("&cards;");
            assert("&gardn;"@[1] != "&cards;"@[1]);
            reveal_strlit("&chem;");
            reveal_strlit("&Christn;");
            reveal_strlit("&civeng;");
            reveal_strlit("&chmyth;");
            reveal_strlit("&cloth;");
            assert("&gardn;"@[1] != "&cloth;"@[1]);
            reveal_strlit("&comp;");
            reveal_strlit("&cryst;");
            assert("&gardn;"@[1] != "&cryst;"@[1]);
            reveal_strlit("&dent;");
            reveal_strlit("&ecol;");
            reveal_strlit("&econ;");
            reveal_strlit("&elec;");
            reveal_strlit("&electr;");
            reveal_strlit("&embryo;");
            reveal_strlit("&engr;");
            reveal_strlit("&ent;");
            reveal_strlit("&film;");
            reveal_strlit("&finc;");
            reveal_strlit("&fish;");
            reveal_strlit("&food;");
        },
        Field::Genetics => {
            reveal_strlit("genet");
            reveal_strlit("&genet;");
            assert("&"@ + "genet"@ + ";"@ =~= "&genet;"@);
            reveal_strlit("&agric;");
            assert("&genet;"@[1] != "&agric;"@[1]);
            reveal_strlit("&anat;");
            reveal_strlit("&archeol;");
            reveal_strlit("&archit;");
            reveal_strlit("&art;");
            reveal_strlit("&astron;");
            reveal_strlit("&audvid;");
            reveal_strlit("&aviat;");
            assert("&genet;"@[1] != "&aviat;"@[1]);
            reveal_strlit("&baseb;");
            assert("&genet;"@[1] != "&baseb;"@[1]);
            reveal_strlit("&biochem;");
            reveal_strlit("&biol;");
            reveal_strlit("&bot;");
            reveal_strlit("&boxing;");
            reveal_strlit("&Buddh;");
            assert("&genet;"@[1] != "&Buddh;"@[1]);
            reveal_strlit("&bus;");
            reveal_strlit("&cards;");
            assert("&genet;"@[1] != "&cards;"@[1]);
            reveal_strlit("&chem;");
            reveal_strlit("&Christn;");
            reveal_strlit("&civeng;");
            reveal_strlit("&chmyth;");
            reveal_strlit("&cloth;");
            assert("&genet;"@[1] != "&cloth;"@[1]);
            reveal_strlit("&comp;");
            reveal_strlit("&cryst;");
            assert("&genet;"@[1] != "&cryst;"@[1]);
            reveal_strlit("&dent;");
            reveal_strlit("&ecol;");
            reveal_strlit("&econ;");
            reveal_strlit("&elec;");
            reveal_strlit("&electr;");
            reveal_strlit("&embryo;");
            reveal_strlit("&engr;");
            reveal_strlit("&ent;");
            reveal_strlit("&film;");
            reveal_strlit("&finc;");
            reveal_strlit("&fish;");
            reveal_strlit("&food;");
            reveal_strlit("&gardn;");
            assert("&genet;"@[2] != "&gardn;"@[2]);
        },
        Field::Geography => {
            reveal_strlit("geogr");
            reveal_strlit("&geogr;");
            assert("&"@ + "geogr"@ + ";"@ =~= "&geogr;"@);
            reveal_strlit("&agric;");
            assert("&geogr;"@[1] != "&agric;"@[1]);
            reveal_strlit("&anat;");
            reveal_strlit("&archeol;");
            reveal_strlit("&archit;");
            reveal_strlit("&art;");
            reveal_strlit("&astron;");
            reveal_strlit("&audvid;");
            reveal_strlit("&aviat;");
            assert("&geogr;"@[1] != "&aviat;"@[1]);
            reveal_strlit("&baseb;");
            assert("&geogr;"@[1] != "&baseb;"@[1]);
            reveal_strlit("&biochem;");
            reveal_strlit("&biol;");
            reveal_strlit("&bot;");
            reveal_strlit("&boxing;");
            reveal_strlit("&Buddh;");
            assert("&geogr;"@[1] != "&Buddh;"@[1]);
            reveal_strlit("&bus;");
            reveal_strlit("&cards;");
            assert("&geogr;"@[1] != "&cards;"@[1]);
            reveal_strlit("&chem;");
            reveal_strlit("&Christn;");
            reveal_strlit("&civeng;");
            reveal_strlit("&chmyth;");
            reveal_strlit("&cloth;");
            assert("&geogr;"@[1] != "&cloth;"@[1]);
            reveal_strlit("&comp;");
            reveal_strlit("&cryst;");
            assert("&geogr;"@[1] != "&cryst;"@[1]);
            reveal_strlit("&dent;");
            reveal_strlit("&ecol;");
            reveal_strlit("&econ;");
            reveal_strlit("&elec;");
            reveal_strlit("&electr;");
            reveal_strlit("&embryo;");
            reveal_strlit("&engr;");
            reveal_strlit("&ent;");
            reveal_strlit("&film;");
            reveal_strlit("&finc;");
            reveal_strlit("&fish;");
            reveal_strlit("&food;");
            reveal_strlit("&gardn;");
            assert("&geogr;"@[2] != "&gardn;"@[2]);
            reveal_strlit("&genet;");
            assert("&geogr;"@[3] != "&genet;"@[3]);
        },
        Field::Geology => {
            reveal_strlit("geol");
            reveal_strlit("&geol;");
            assert("&"@ + "geol"@ + ";"@ =~= "&geol;"@);
            reveal_strlit("&agric;");
            reveal_strlit("&anat;");
            assert("&geol;"@[1] != "&anat;"@[1]);
            reveal_strlit("&archeol;");
            reveal_strlit("&archit;");
            reveal_strlit("&art;");
            reveal_strlit("&astron;");
            reveal_strlit("&audvid;");
            reveal_strlit("&aviat;");
            reveal_strlit("&baseb;");
            reveal_strlit("&biochem;");
            reveal_strlit("&biol;");
            assert("&geol;"@[1] != "&biol;"@[1]);
            reveal_strlit("&bot;");
            reveal_strlit("&boxing;");
            reveal_strlit("&Buddh;");
            reveal_strlit("&bus;");
            reveal_strlit("&cards;");
            reveal_strlit("&chem;");
            assert("&geol;"@[1] != "&chem;"@[1]);
            reveal_strlit("&Christn;");
            reveal_strlit("&civeng;");
            reveal_strlit("&chmyth;");
            reveal_strlit("&cloth;");
            reveal_strlit("&comp;");
            assert("&geol;"@[1] != "&comp;"@[1]);
            reveal_strlit("&cryst;");
            reveal_strlit("&dent;");
            assert("&geol;"@[1] != "&dent;"@[1]);
            reveal_strlit("&ecol;");
            assert("&geol;"@[1] != "&ecol;"@[1]);
            reveal_strlit("&econ;");
            assert("&geol;"@[1] != "&econ;"@[1]);
            reveal_strlit("&elec;");
            assert("&geol;"@[1] != "&elec;"@[1]);
            reveal_strlit("&electr;");
            reveal_strlit("&embryo;");
            reveal_strlit("&engr;");
            assert("&geol;"@[1] != "&engr;"@[1]);
            reveal_strlit("&ent;");
            reveal_strlit("&film;");
            assert("&geol;"@[1] != "&film;"@[1]);
            reveal_strlit("&finc;");
            assert("&geol;"@[1] != "&finc;"@[1]);
            reveal_strlit("&fish;");
            assert("&geol;"@[1] != "&fish;"@[1]);
            reveal_strlit("&food;");
            assert("&geol;"@[1] != "&food;"@[1]);
            reveal_strlit("&gardn;");
            reveal_strlit("&genet;");
            reveal_strlit("&geogr;");
        },
        Field::Geometry => {
            reveal_strlit("geom");
            reveal_strlit("&geom;");
            assert("&"@ + "geom"@ + ";"@ =~= "&geom;"@);
            reveal_strlit("&agric;");
            reveal_strlit("&anat;");
            assert("&geom;"@[1] != "&anat;"@[1]);
            reveal_strlit("&archeol;");
            reveal_strlit("&archit;");
            reveal_strlit("&art;");
            reveal_strlit("&astron;");
            reveal_strlit("&audvid;");
            reveal_strlit("&aviat;");
            reveal_strlit("&baseb;");
            reveal_strlit("&biochem;");
            reveal_strlit("&biol;");
            assert("&geom;"@[1] != "&biol;"@[1]);
            reveal_strlit("&bot;");
            reveal_strlit("&boxing;");
            reveal_strlit("&Buddh;");
            reveal_strlit("&bus;");
            reveal_strlit("&cards;");
            reveal_strlit("&chem;");
            assert("&geom;"@[1] != "&chem;"@[1]);
            reveal_strlit("&Christn;");
            reveal_strlit("&civeng;");
            reveal_strlit("&chmyth;");
            reveal_strlit("&cloth;");
            reveal_strlit("&comp;");
            assert("&geom;"@[1] != "&comp;"@[1]);
            reveal_strlit("&cryst;");
            reveal_strlit("&dent;");
            assert("&geom;"@[1] != "&dent;"@[1]);
            reveal_strlit("&ecol;");
            assert("&geom;"@[1] != "&ecol;"@[1]);
            reveal_strlit("&econ;");
            assert("&geom;"@[1] != "&econ;"@[1]);
            reveal_strlit("&elec;");
            assert("&geom;"@[1] != "&elec;"@[1]);
            reveal_strlit("&electr;");
            reveal_strlit("&embryo;");
            reveal_strlit("&engr;");
            assert("&geom;"@[1] != "&engr;"@[1]);
            reveal_strlit("&ent;");
            reveal_strlit("&film;");
            assert("&geom;"@[1] != "&film;"@[1]);
            reveal_strlit("&finc;");
            assert("&geom;"@[1] != "&finc;"@[1]);
            reveal_strlit("&fish;");
            assert("&geom;"@[1] != "&fish;"@[1]);
            reveal_strlit("&food;");
            assert("&geom;"@[1] != "&food;"@[1]);
            reveal_strlit("&gardn;");
            reveal_strlit("&genet;");
            reveal_strlit("&geogr;");
            reveal_strlit("&geol;");
            assert("&geom;"@[4] != "&geol;"@[4]);
        },
        Field::Go => {
            reveal_strlit("go");
            reveal_strlit("&go;");
            assert("&"@ + "go"@ + ";"@ =~= "&go;"@);
            reveal_strlit("&agric;");
            reveal_strlit("&anat;");
            reveal_strlit("&archeol;");
            reveal_strlit("&archit;");
            reveal_strlit("&art;");
            reveal_strlit("&astron;");
            reveal_strlit("&audvid;");
            reveal_strlit("&aviat;");
            reveal_strlit("&baseb;");
            reveal_strlit("&biochem;");
            reveal_strlit("&biol;");
            reveal_strlit("&bot;");
            reveal_strlit("&boxing;");
            reveal_strlit("&Buddh;");
            reveal_strlit("&bus;");
            reveal_strlit("&cards;");
            reveal_strlit("&chem;");
            reveal_strlit("&Christn;");
            reveal_strlit("&civeng;");
            reveal_strlit("&chmyth;");
            reveal_strlit("&cloth;");
            reveal_strlit("&comp;");
            reveal_strlit("&cryst;");
            reveal_strlit("&dent;");
            reveal_strlit("&ecol;");
            reveal_strlit("&econ;");
            reveal_strlit("&elec;");
            reveal_strlit("&electr;");
            reveal_strlit("&embryo;");
            reveal_strlit("&engr;");
            reveal_strlit("&ent;");
            reveal_strlit("&film;");
            reveal_strlit("&finc;");
            reveal_strlit("&fish;");
            reveal_strlit("&food;");
            reveal_strlit("&gardn;");
            reveal_strlit("&genet;");
            reveal_strlit("&geogr;");
            reveal_strlit("&geol;");
            reveal_strlit("&geom;");
        },
        Field::Golf => {
            reveal_strlit("golf");
            reveal_strlit("&golf;");
            assert("&"@ + "golf"@ + ";"@ =~= "&golf;"@);
            reveal_strlit("&agric;");
            reveal_strlit("&anat;");
            assert("&golf;"@[1] != "&anat;"@[1]);
            reveal_strlit("&archeol;");
            reveal_strlit("&archit;");
            reveal_strlit("&art;");
            reveal_strlit("&astron;");
            reveal_strlit("&audvid;");
            reveal_strlit("&aviat;");
            reveal_strlit("&baseb;");
            reveal_strlit("&biochem;");
            reveal_strlit("&biol;");
            assert("&golf;"@[1] != "&biol;"@[1]);
            reveal_strlit("&bot;");
            reveal_strlit("&boxing;");
            reveal_strlit("&Buddh;");
            reveal_strlit("&bus;");
            reveal_strlit("&cards;");
            reveal_strlit("&chem;");
            assert("&golf;"@[1] != "&chem;"@[1]);
            reveal_strlit("&Christn;");
            reveal_strlit("&civeng;");
            reveal_strlit("&chmyth;");
            reveal_strlit("&cloth;");
            reveal_strlit("&comp;");
            assert("&golf;"@[1] != "&comp;"@[1]);
            reveal_strlit("&cryst;");
            reveal_strlit("&dent;");
            assert("&golf;"@[1] != "&dent;"@[1]);
            reveal_strlit("&ecol;");
            assert("&golf;"@[1] != "&ecol;"@[1]);
            reveal_strlit("&econ;");
            assert("&golf;"@[1] != "&econ;"@[1]);
            reveal_strlit("&elec;");
            assert("&golf;"@[1] != "&elec;"@[1]);
            reveal_strlit("&electr;");
            reveal_strlit("&embryo;");
            reveal_strlit("&engr;");
            assert("&golf;"@[1] != "&engr;"@[1]);
            reveal_strlit("&ent;");
            reveal_strlit("&film;");
            assert("&golf;"@[1] != "&film;"@[1]);
            reveal_strlit("&finc;");
            assert("&golf;"@[1] != "&finc;"@[1]);
            reveal_strlit("&fish;");
            assert("&golf;"@[1] != "&fish;"@[1]);
            reveal_strlit("&food;");
            assert("&golf;"@[1] != "&food;"@[1]);
            reveal_strlit("&gardn;");
            reveal_strlit("&genet;");
            reveal_strlit("&geogr;");
            reveal_strlit("&geol;");
            assert("&golf;"@[2] != "&geol;"@[2]);
            reveal_strlit("&geom;");
            assert("&golf;"@[2] != "&geom;"@[2]);
            reveal_strlit("&go;");
        },
        Field::Grammar => {
            reveal_strlit("gramm");
            reveal_strlit("&gramm;");
            assert("&"@ + "gramm"@ + ";"@ =~= "&gramm;"@);
            reveal_strlit("&agric;");
            assert("&gramm;"@[1] != "&agric;"@[1]);
            reveal_strlit("&anat;");
            reveal_strlit("&archeol;");
            reveal_strlit("&archit;");
            reveal_strlit("&art;");
            reveal_strlit("&astron;");
            reveal_strlit("&audvid;");
            reveal_strlit("&aviat;");
            assert("&gramm;"@[1] != "&aviat;"@[1]);
            reveal_strlit("&baseb;");
            assert("&gramm;"@[1] != "&baseb;"@[1]);
            reveal_strlit("&biochem;");
            reveal_strlit("&biol;");
            reveal_strlit("&bot;");
            reveal_strlit("&boxing;");
            reveal_strlit("&Buddh;");
            assert("&gramm;"@[1] != "&Buddh;"@[1]);
            reveal_strlit("&bus;");
            reveal_strlit("&cards;");
            assert("&gramm;"@[1] != "&cards;"@[1]);
            reveal_strlit("&chem;");
            reveal_strlit("&Christn;");
            reveal_strlit("&civeng;");
            reveal_strlit("&chmyth;");
            reveal_strlit("&cloth;");
            assert("&gramm;"@[1] != "&cloth;"@[1]);
            reveal_strlit("&comp;");
            reveal_strlit("&cryst;");
            assert("&gramm;"@[1] != "&cryst;"@[1]);
            reveal_strlit("&dent;");
            reveal_strlit("&ecol;");
            reveal_strlit("&econ;");
            reveal_strlit("&elec;");
            reveal_strlit("&electr;");
            reveal_strlit("&embryo;");
            reveal_strlit("&engr;");
            reveal_strlit("&ent;");
            reveal_strlit("&film;");
            reveal_strlit("&finc;");
            reveal_strlit("&fish;");
            reveal_strlit("&food;");
            reveal_strlit("&gardn;");
            assert("&gramm;"@[2] != "&gardn;"@[2]);
            reveal_strlit("&genet;");
            assert("&gramm;"@[2] != "&genet;"@[2]);
            reveal_strlit("&geogr;");
            assert("&gramm;"@[2] != "&geogr;"@[2]);
            reveal_strlit("&geol;");
            reveal_strlit("&geom;");
            reveal_strlit("&go;");
            reveal_strlit("&golf;");
        },
        Field::GreekMythology => {
            reveal_strlit("grmyth");
            reveal_strlit("&grmyth;");
            assert("&"@ + "grmyth"@ + ";"@ =~= "&grmyth;"@);
            reveal_strlit("&agric;");
            reveal_strlit("&anat;");
            reveal_strlit("&archeol;");
            reveal_strlit("&archit;");
            assert("&grmyth;"@[1] != "&archit;"@[1]);
            reveal_strlit("&art;");
            reveal_strlit("&astron;");
            assert("&grmyth;"@[1] != "&astron;"@[1]);
            reveal_strlit("&audvid;");
            assert("&grmyth;"@[1] != "&audvid;"@[1]);
            reveal_strlit("&aviat;");
            reveal_strlit("&baseb;");
            reveal_strlit("&biochem;");
            reveal_strlit("&biol;");
            reveal_strlit("&bot;");
            reveal_strlit("&boxing;");
            assert("&grmyth;"@[1] != "&boxing;"@[1]);
            reveal_strlit("&Buddh;");
            reveal_strlit("&bus;");
            reveal_strlit("&cards;");
            reveal_strlit("&chem;");
            reveal_strlit("&Christn;");
            reveal_strlit("&civeng;");
            assert("&grmyth;"@[1] != "&civeng;"@[1]);
            reveal_strlit("&chmyth;");
            assert("&grmyth;"@[1] != "&chmyth;"@[1]);
            reveal_strlit("&cloth;");
            reveal_strlit("&comp;");
            reveal_strlit("&cryst;");
            reveal_strlit("&dent;");
            reveal_strlit("&ecol;");
            reveal_strlit("&econ;");
            reveal_strlit("&elec;");
            reveal_strlit("&electr;");
            assert("&grmyth;"@[1] != "&electr;"@[1]);
            reveal_strlit("&embryo;");
            assert("&grmyth;"@[1] != "&embryo;"@[1]);
            reveal_strlit("&engr;");
            reveal_strlit("&ent;");
            reveal_strlit("&film;");
            reveal_strlit("&finc;");
            reveal_strlit("&fish;");
            reveal_strlit("&food;");
            reveal_strlit("&gardn;");
            reveal_strlit("&genet;");
            reveal_strlit("&geogr;");
            reveal_strlit("&geol;");
            reveal_strlit("&geom;");
            reveal_strlit("&go;");
            reveal_strlit("&golf;");
            reveal_strlit("&gramm;");
        },
        Field::Hanafuda => {
            reveal_strlit("hanaf");
            reveal_strlit("&hanaf;");
            assert("&"@ + "hanaf"@ + ";"@ =~= "&hanaf;"@);
            reveal_strlit("&agric;");
            assert("&hanaf;"@[1] != "&agric;"@[1]);
            reveal_strlit("&anat;");
            reveal_strlit("&archeol;");
            reveal_strlit("&archit;");
            reveal_strlit("&art;");
            reveal_strlit("&astron;");
            reveal_strlit("&audvid;");
            reveal_strlit("&aviat;");
            assert("&hanaf;"@[1] != "&aviat;"@[1]);
            reveal_strlit("&baseb;");
            assert("&hanaf;"@[1] != "&baseb;"@[1]);
            reveal_strlit("&biochem;");
            reveal_strlit("&biol;");
            reveal_strlit("&bot;");
            reveal_strlit("&boxing;");
            reveal_strlit("&Buddh;");
            assert("&hanaf;"@[1] != "&Buddh;"@[1]);
            reveal_strlit("&bus;");
            reveal_strlit("&cards;");
            assert("&hanaf;"@[1] != "&cards;"@[1]);
            reveal_strlit("&chem;");
            reveal_strlit("&Christn;");
            reveal_strlit("&civeng;");
            reveal_strlit("&chmyth;");
            reveal_strlit("&cloth;");
            assert("&hanaf;"@[1] != "&cloth;"@[1]);
            reveal_strlit("&comp;");
            reveal_strlit("&cryst;");
            assert("&hanaf;"@[1] != "&cryst;"@[1]);
            reveal_strlit("&dent;");
            reveal_strlit("&ecol;");
            reveal_strlit("&econ;");
            reveal_strlit("&elec;");
            reveal_strlit("&electr;");
            reveal_strlit("&embryo;");
            reveal_strlit("&engr;");
            reveal_strlit("&ent;");
            reveal_strlit("&film;");
            reveal_strlit("&finc;");
            reveal_strlit("&fish;");
            reveal_strlit("&food;");
            reveal_strlit("&gardn;");
            assert("&hanaf;"@[1] != "&gardn;"@[1]);
            reveal_strlit("&genet;");
            assert("&hanaf;"@[1] != "&genet;"@[1]);
            reveal_strlit("&geogr;");
            assert("&hanaf;"@[1] != "&geogr;"@[1]);
            reveal_strlit("&geol;");
            reveal_strlit("&geom;");
            reveal_strlit("&go;");
            reveal_strlit("&golf;");
            reveal_strlit("&gramm;");
            assert("&hanaf;"@[1] != "&gramm;"@[1]);
            reveal_strlit("&grmyth;");
        },
        Field::Horse => {
            reveal_strlit("horse");
            reveal_strlit("&horse;");
            assert("&"@ + "horse"@ + ";"@ =~= "&horse;"@);
            reveal_strlit("&agric;");
            assert("&horse;"@[1] != "&agric;"@[1]);
            reveal_strlit("&anat;");
            reveal_strlit("&archeol;");
            reveal_strlit("&archit;");
            reveal_strlit("&art;");
            reveal_strlit("&astron;");
            reveal_strlit("&audvid;");
            reveal_strlit("&aviat;");
            assert("&horse;"@[1] != "&aviat;"@[1]);
            reveal_strlit("&baseb;");
            assert("&horse;"@[1] != "&baseb;"@[1]);
            reveal_strlit("&biochem;");
            reveal_strlit("&biol;");
            reveal_strlit("&bot;");
            reveal_strlit("&boxing;");
            reveal_strlit("&Buddh;");
            assert("&horse;"@[1] != "&Buddh;"@[1]);
            reveal_strlit("&bus;");
            reveal_strlit("&cards;");
            assert("&horse;"@[1] != "&cards;"@[1]);
            reveal_strlit("&chem;");
            reveal_strlit("&Christn;");
            reveal_strlit("&civeng;");
            reveal_strlit("&chmyth;");
            reveal_strlit("&cloth;");
            assert("&horse;"@[1] != "&cloth;"@[1]);
            reveal_strlit("&comp;");
            reveal_strlit("&cryst;");
            assert("&horse;"@[1] != "&cryst;"@[1]);
            reveal_strlit("&dent;");
            reveal_strlit("&ecol;");
            reveal_strlit("&econ;");
            reveal_strlit("&elec;");
            reveal_strlit("&electr;");
            reveal_strlit("&embryo;");
            reveal_strlit("&engr;");
            reveal_strlit("&ent;");
            reveal_strlit("&film;");
            reveal_strlit("&finc;");
            reveal_strlit("&fish;");
            reveal_strlit("&food;");
            reveal_strlit("&gardn;");
            assert("&horse;"@[1] != "&gardn;"@[1]);
            reveal_strlit("&genet;");
            assert("&horse;"@[1] != "&genet;"@[1]);
            reveal_strlit("&geogr;");
            assert("&horse;"@[1] != "&geogr;"@[1]);
            reveal_strlit("&geol;");
            reveal_strlit("&geom;");
            reveal_strlit("&go;");
            reveal_strlit("&golf;");
            reveal_strlit("&gramm;");
            assert("&horse;"@[1] != "&gramm;"@[1]);
            reveal_strlit("&grmyth;");
            reveal_strlit("&hanaf;");
            assert("&horse;"@[2] != "&hanaf;"@[2]);
        },
        Field::Internet => {
            reveal_strlit("internet");
            reveal_strlit("&internet;");
            assert("&"@ + "internet"@ + ";"@ =~= "&internet;"@);
            reveal_strlit("&agric;");
            reveal_strlit("&anat;");
            reveal_strlit("&archeol;");
            reveal_strlit("&archit;");
            reveal_strlit("&art;");
            reveal_strlit("&astron;");
            reveal_strlit("&audvid;");
            reveal_strlit("&aviat;");
            reveal_strlit("&baseb;");
            reveal_strlit("&biochem;");
            reveal_strlit("&biol;");
            reveal_strlit("&bot;");
            reveal_strlit("&boxing;");
            reveal_strlit("&Buddh;");
            reveal_strlit("&bus;");
            reveal_strlit("&cards;");
            reveal_strlit("&chem;");
            reveal_strlit("&Christn;");
            reveal_strlit("&civeng;");
            reveal_strlit("&chmyth;");
            reveal_strlit("&cloth;");
            reveal_strlit("&comp;");
            reveal_strlit("&cryst;");
            reveal_strlit("&dent;");
            reveal_strlit("&ecol;");
            reveal_strlit("&econ;");
            reveal_strlit("&elec;");
            reveal_strlit("&electr;");
            reveal_strlit("&embryo;");
            reveal_strlit("&engr;");
            reveal_strlit("&ent;");
            reveal_strlit("&film;");
            reveal_strlit("&finc;");
            reveal_strlit("&fish;");
            reveal_strlit("&food;");
            reveal_strlit("&gardn;");
            reveal_strlit("&genet;");
            reveal_strlit("&geogr;");
            reveal_strlit("&geol;");
            reveal_strlit("&geom;");
            reveal_strlit("&go;");
            reveal_strlit("&golf;");
            reveal_strlit("&gramm;");
            reveal_strlit("&grmyth;");
            reveal_strlit("&hanaf;");
            reveal_strlit("&horse;");
        },
        Field::JapaneseMythology => {
            reveal_strlit("jpmyth");
            reveal_strlit("&jpmyth;");
            assert("&"@ + "jpmyth"@ + ";"@ =~= "&jpmyth;"@);
            reveal_strlit("&agric;");
            reveal_strlit("&anat;");
            reveal_strlit("&archeol;");
            reveal_strlit("&archit;");
            assert("&jpmyth;"@[1] != "&archit;"@[1]);
            reveal_strlit("&art;");
            reveal_strlit("&astron;");
            assert("&jpmyth;"@[1] != "&astron;"@[1]);
            reveal_strlit("&audvid;");
            assert("&jpmyth;"@[1] != "&audvid;"@[1]);
            reveal_strlit("&aviat;");
            reveal_strlit("&baseb;");
            reveal_strlit("&biochem;");
            reveal_strlit("&biol;");
            reveal_strlit("&bot;");
            reveal_strlit("&boxing;");
            assert("&jpmyth;"@[1] != "&boxing;"@[1]);
            reveal_strlit("&Buddh;");
            reveal_strlit("&bus;");
            reveal_strlit("&cards;");
            reveal_strlit("&chem;");
            reveal_strlit("&Christn;");
            reveal_strlit("&civeng;");
            assert("&jpmyth;"@[1] != "&civeng;"@[1]);
            reveal_strlit("&chmyth;");
            assert("&jpmyth;"@[1] != "&chmyth;"@[1]);
            reveal_strlit("&cloth;");
            reveal_strlit("&comp;");
            reveal_strlit("&cryst;");
            reveal_strlit("&dent;");
            reveal_strlit("&ecol;");
            reveal_strlit("&econ;");
            reveal_strlit("&elec;");
            reveal_strlit("&electr;");
            assert("&jpmyth;"@[1] != "&electr;"@[1]);
            reveal_strlit("&embryo;");
            assert("&jpmyth;"@[1] != "&embryo;"@[1]);
            reveal_strlit("&engr;");
            reveal_strlit("&ent;");
            reveal_strlit("&film;");
            reveal_strlit("&finc;");
            reveal_strlit("&fish;");
            reveal_strlit("&food;");
            reveal_strlit("&gardn;");
            reveal_strlit("&genet;");
            reveal_strlit("&geogr;");
            reveal_strlit("&geol;");
            reveal_strlit("&geom;");
            reveal_strlit("&go;");
            reveal_strlit("&golf;");
            reveal_strlit("&gramm;");
            reveal_strlit("&grmyth;");
            assert("&jpmyth;"@[1] != "&grmyth;"@[1]);
            reveal_strlit("&hanaf;");
            reveal_strlit("&horse;");
            reveal_strlit("&internet;");
        },
        Field::Kabuki => {
            reveal_strlit("kabuki");
            reveal_strlit("&kabuki;");
            assert("&"@ + "kabuki"@ + ";"@ =~= "&kabuki;"@);
            reveal_strlit("&agric;");
            reveal_strlit("&anat;");
            reveal_strlit("&archeol;");
            reveal_strlit("&archit;");
            assert("&kabuki;"@[1] != "&archit;"@[1]);
            reveal_strlit("&art;");
            reveal_strlit("&astron;");
            assert("&kabuki;"@[1] != "&astron;"@[1]);
            reveal_strlit("&audvid;");
            assert("&kabuki;"@[1] != "&audvid;"@[1]);
            reveal_strlit("&aviat;");
            reveal_strlit("&baseb;");
            reveal_strlit("&biochem;");
            reveal_strlit("&biol;");
            reveal_strlit("&bot;");
            reveal_strlit("&boxing;");
            assert("&kabuki;"@[1] != "&boxing;"@[1]);
            reveal_strlit("&Buddh;");
            reveal_strlit("&bus;");
            reveal_strlit("&cards;");
            reveal_strlit("&chem;");
            reveal_strlit("&Christn;");
            reveal_strlit("&civeng;");
            assert("&kabuki;"@[1] != "&civeng;"@[1]);
            reveal_strlit("&chmyth;");
            assert("&kabuki;"@[1] != "&chmyth;"@[1]);
            reveal_strlit("&cloth;");
            reveal_strlit("&comp;");
            reveal_strlit("&cryst;");
            reveal_strlit("&dent;");
            reveal_strlit("&ecol;");
            reveal_strlit("&econ;");
            reveal_strlit("&elec;");
            reveal_strlit("&electr;");
            assert("&kabuki;"@[1] != "&electr;"@[1]);
            reveal_strlit("&embryo;");
            assert("&kabuki;"@[1] != "&embryo;"@[1]);
            reveal_strlit("&engr;");
            reveal_strlit("&ent;");
            reveal_strlit("&film;");
            reveal_strlit("&finc;");
            reveal_strlit("&fish;");
            reveal_strlit("&food;");
            reveal_strlit("&gardn;");
            reveal_strlit("&genet;");
            reveal_strlit("&geogr;");
            reveal_strlit("&geol;");
            reveal_strlit("&geom;");
            reveal_strlit("&go;");
            reveal_strlit("&golf;");
            reveal_strlit("&gramm;");
            reveal_strlit("&grmyth;");
            assert("&kabuki;"@[1] != "&grmyth;"@[1]);
            reveal_strlit("&hanaf;");
            reveal_strlit("&horse;");
            reveal_strlit("&internet;");
            reveal_strlit("&jpmyth;");
            assert("&kabuki;"@[1] != "&jpmyth;"@[1]);
        },
        Field::Law => {
            reveal_strlit("law");
            reveal_strlit("&law;");
            assert("&"@ + "law"@ + ";"@ =~= "&law;"@);
            reveal_strlit("&agric;");
            reveal_strlit("&anat;");
            reveal_strlit("&archeol;");
            reveal_strlit("&archit;");
            reveal_strlit("&art;");
            assert("&law;"@[1] != "&art;"@[1]);
            reveal_strlit("&astron;");
            reveal_strlit("&audvid;");
            reveal_strlit("&aviat;");
            reveal_strlit("&baseb;");
            reveal_strlit("&biochem;");
            reveal_strlit("&biol;");
            reveal_strlit("&bot;");
            assert("&law;"@[1] != "&bot;"@[1]);
            reveal_strlit("&boxing;");
            reveal_strlit("&Buddh;");
            reveal_strlit("&bus;");
            assert("&law;"@[1] != "&bus;"@[1]);
            reveal_strlit("&cards;");
            reveal_strlit("&chem;");
            reveal_strlit("&Christn;");
            reveal_strlit("&civeng;");
            reveal_strlit("&chmyth;");
            reveal_strlit("&cloth;");
            reveal_strlit("&comp;");
            reveal_strlit("&cryst;");
            reveal_strlit("&dent;");
            reveal_strlit("&ecol;");
            reveal_strlit("&econ;");
            reveal_strlit("&elec;");
            reveal_strlit("&electr;");
            reveal_strlit("&embryo;");
            reveal_strlit("&engr;");
            reveal_strlit("&ent;");
            assert("&law;"@[1] != "&ent;"@[1]);
            reveal_strlit("&film;");
            reveal_strlit("&finc;");
            reveal_strlit("&fish;");
            reveal_strlit("&food;");
            reveal_strlit("&gardn;");
            reveal_strlit("&genet;");
            reveal_strlit("&geogr;");
            reveal_strlit("&geol;");
            reveal_strlit("&geom;");
            reveal_strlit("&go;");
            reveal_strlit("&golf;");
            reveal_strlit("&gramm;");
            reveal_strlit("&grmyth;");
            reveal_strlit("&hanaf;");
            reveal_strlit("&horse;");
            reveal_strlit("&internet;");
            reveal_strlit("&jpmyth;");
            reveal_strlit("&kabuki;");
        },
        Field::Ling => {
            reveal_strlit("ling");
            reveal_strlit("&ling;");
            assert("&"@ + "ling"@ + ";"@ =~= "&ling;"@);
            reveal_strlit("&agric;");
            reveal_strlit("&anat;");
            assert("&ling;"@[1] != "&anat;"@[1]);
            reveal_strlit("&archeol;");
            reveal_strlit("&archit;");
            reveal_strlit("&art;");
            reveal_strlit("&astron;");
            reveal_strlit("&audvid;");
            reveal_strlit("&aviat;");
            reveal_strlit("&baseb;");
            reveal_strlit("&biochem;");
            reveal_strlit("&biol;");
            assert("&ling;"@[1] != "&biol;"@[1]);
            reveal_strlit("&bot;");
            reveal_strlit("&boxing;");
            reveal_strlit("&Buddh;");
            reveal_strlit("&bus;");
            reveal_strlit("&cards;");
            reveal_strlit("&chem;");
            assert("&ling;"@[1] != "&chem;"@[1]);
            reveal_strlit("&Christn;");
            reveal_strlit("&civeng;");
            reveal_strlit("&chmyth;");
            reveal_strlit("&cloth;");
            reveal_strlit("&comp;");
            assert("&ling;"@[1] != "&comp;"@[1]);
            reveal_strlit("&cryst;");
            reveal_strlit("&dent;");
            assert("&ling;"@[1] != "&dent;"@[1]);
            reveal_strlit("&ecol;");
            assert("&ling;"@[1] != "&ecol;"@[1]);
            reveal_strlit("&econ;");
            assert("&ling;"@[1] != "&econ;"@[1]);
            reveal_strlit("&elec;");
            assert("&ling;"@[1] != "&elec;"@[1]);
            reveal_strlit("&electr;");
            reveal_strlit("&embryo;");
            reveal_strlit("&engr;");
            assert("&ling;"@[1] != "&engr;"@[1]);
            reveal_strlit("&ent;");
            reveal_strlit("&film;");
            assert("&ling;"@[1] != "&film;"@[1]);
            reveal_strlit("&finc;");
            assert("&ling;"@[1] != "&finc;"@[1]);
            reveal_strlit("&fish;");
            assert("&ling;"@[1] != "&fish;"@[1]);
            reveal_strlit("&food;");
            assert("&ling;"@[1] != "&food;"@[1]);
            reveal_strlit("&gardn;");
            reveal_strlit("&genet;");
            reveal_strlit("&geogr;");
            reveal_strlit("&geol;");
            assert("&ling;"@[1] != "&geol;"@[1]);
            reveal_strlit("&geom;");
            assert("&ling;"@[1] != "&geom;"@[1]);
            reveal_strlit("&go;");
            reveal_strlit("&golf;");
            assert("&ling;"@[1] != "&golf;"@[1]);
            reveal_strlit("&gramm;");
            reveal_strlit("&grmyth;");
            reveal_strlit("&hanaf;");
            reveal_strlit("&horse;");
            reveal_strlit("&internet;");
            reveal_strlit("&jpmyth;");
            reveal_strlit("&kabuki;");
            reveal_strlit("&law;");
        },
        Field::Logic => {
            reveal_strlit("logic");
            reveal_strlit("&logic;");
            assert("&"@ + "logic"@ + ";"@ =~= "&logic;"@);
            reveal_strlit("&agric;");
            assert("&logic;"@[1] != "&agric;"@[1]);
            reveal_strlit("&anat;");
            reveal_strlit("&archeol;");
            reveal_strlit("&archit;");
            reveal_strlit("&art;");
            reveal_strlit("&astron;");
            reveal_strlit("&audvid;");
            reveal_strlit("&aviat;");
            assert("&logic;"@[1] != "&aviat;"@[1]);
            reveal_strlit("&baseb;");
            assert("&logic;"@[1] != "&baseb;"@[1]);
            reveal_strlit("&biochem;");
            reveal_strlit("&biol;");
            reveal_strlit("&bot;");
            reveal_strlit("&boxing;");
            reveal_strlit("&Buddh;");
            assert("&logic;"@[1] != "&Buddh;"@[1]);
            reveal_strlit("&bus;");
            reveal_strlit("&cards;");
            assert("&logic;"@[1] != "&cards;"@[1]);
            reveal_strlit("&chem;");
            reveal_strlit("&Christn;");
            reveal_strlit("&civeng;");
            reveal_strlit("&chmyth;");
            reveal_strlit("&cloth;");
            assert("&logic;"@[1] != "&cloth;"@[1]);
            reveal_strlit("&comp;");
            reveal_strlit("&cryst;");
            assert("&logic;"@[1] != "&cryst;"@[1]);
            reveal_strlit("&dent;");
            reveal_strlit("&ecol;");
            reveal_strlit("&econ;");
            reveal_strlit("&elec;");
            reveal_strlit("&electr;");
            reveal_strlit("&embryo;");
            reveal_strlit("&engr;");
            reveal_strlit("&ent;");
            reveal_strlit("&film;");
            reveal_strlit("&finc;");
            reveal_strlit("&fish;");
            reveal_strlit("&food;");
            reveal_strlit("&gardn;");
            assert("&logic;"@[1] != "&gardn;"@[1]);
            reveal_strlit("&genet;");
            assert("&logic;"@[1] != "&genet;"@[1]);
            reveal_strlit("&geogr;");
            assert("&logic;"@[1] != "&geogr;"@[1]);
            reveal_strlit("&geol;");
            reveal_strlit("&geom;");
            reveal_strlit("&go;");
            reveal_strlit("&golf;");
            reveal_strlit("&gramm;");
            assert("&logic;"@[1] != "&gramm;"@[1]);
            reveal_strlit("&grmyth;");
            reveal_strlit("&hanaf;");
            assert("&logic;"@[1] != "&hanaf;"@[1]);
            reveal_strlit("&horse;");
            assert("&logic;"@[1] != "&horse;"@[1]);
            reveal_strlit("&internet;");
            reveal_strlit("&jpmyth;");
            reveal_strlit("&kabuki;");
            reveal_strlit("&law;");
            reveal_strlit("&ling;");
        },
        Field::MartialArts => {
            reveal_strlit("MA");
            reveal_strlit("&MA;");
            assert("&"@ + "MA"@ + ";"@ =~= "&MA;"@);
            reveal_strlit("&agric;");
            reveal_strlit("&anat;");
            reveal_strlit("&archeol;");
            reveal_strlit("&archit;");
            reveal_strlit("&art;");
            reveal_strlit("&astron;");
            reveal_strlit("&audvid;");
            reveal_strlit("&aviat;");
            reveal_strlit("&baseb;");
            reveal_strlit("&biochem;");
            reveal_strlit("&biol;");
            reveal_strlit("&bot;");
            reveal_strlit("&boxing;");
            reveal_strlit("&Buddh;");
            reveal_strlit("&bus;");
            reveal_strlit("&cards;");
            reveal_strlit("&chem;");
            reveal_strlit("&Christn;");
            reveal_strlit("&civeng;");
            reveal_strlit("&chmyth;");
            reveal_strlit("&cloth;");
            reveal_strlit("&comp;");
            reveal_strlit("&cryst;");
            reveal_strlit("&dent;");
            reveal_strlit("&ecol;");
            reveal_strlit("&econ;");
            reveal_strlit("&elec;");
            reveal_strlit("&electr;");
            reveal_strlit("&embryo;");
            reveal_strlit("&engr;");
            reveal_strlit("&ent;");
            reveal_strlit("&film;");
            reveal_strlit("&finc;");
            reveal_strlit("&fish;");
            reveal_strlit("&food;");
            reveal_strlit("&gardn;");
            reveal_strlit("&genet;");
            reveal_strlit("&geogr;");
            reveal_strlit("&geol;");
            reveal_strlit("&geom;");
            reveal_strlit("&go;");
            assert("&MA;"@[1] != "&go;"@[1]);
            reveal_strlit("&golf;");
            reveal_strlit("&gramm;");
            reveal_strlit("&grmyth;");
            reveal_strlit("&hanaf;");
            reveal_strlit("&horse;");
            reveal_strlit("&internet;");
            reveal_strlit("&jpmyth;");
            reveal_strlit("&kabuki;");
            reveal_strlit("&law;");
            reveal_strlit("&ling;");
            reveal_strlit("&logic;");
        },
        Field::Mahjong => {
            reveal_strlit("mahj");
            reveal_strlit("&mahj;");
            assert("&"@ + "mahj"@ + ";"@ =~= "&mahj;"@);
            reveal_strlit("&agric;");
            reveal_strlit("&anat;");
            assert("&mahj;"@[1] != "&anat;"@[1]);
            reveal_strlit("&archeol;");
            reveal_strlit("&archit;");
            reveal_strlit("&art;");
            reveal_strlit("&astron;");
            reveal_strlit("&audvid;");
            reveal_strlit("&aviat;");
            reveal_strlit("&baseb;");
            reveal_strlit("&biochem;");
            reveal_strlit("&biol;");
            assert("&mahj;"@[1] != "&biol;"@[1]);
            reveal_strlit("&bot;");
            reveal_strlit("&boxing;");
            reveal_strlit("&Buddh;");
            reveal_strlit("&bus;");
            reveal_strlit("&cards;");
            reveal_strlit("&chem;");
            assert("&mahj;"@[1] != "&chem;"@[1]);
            reveal_strlit("&Christn;");
            reveal_strlit("&civeng;");
            reveal_strlit("&chmyth;");
            reveal_strlit("&cloth;");
            reveal_strlit("&comp;");
            assert("&mahj;"@[1] != "&comp;"@[1]);
            reveal_strlit("&cryst;");
            reveal_strlit("&dent;");
            assert("&mahj;"@[1] != "&dent;"@[1]);
            reveal_strlit("&ecol;");
            assert("&mahj;"@[1] != "&ecol;"@[1]);
            reveal_strlit("&econ;");
            assert("&mahj;"@[1] != "&econ;"@[1]);
            reveal_strlit("&elec;");
            assert("&mahj;"@[1] != "&elec;"@[1]);
            reveal_strlit("&electr;");
            reveal_strlit("&embryo;");
            reveal_strlit("&engr;");
            assert("&mahj;"@[1] != "&engr;"@[1]);
            reveal_strlit("&ent;");
            reveal_strlit("&film;");
            assert("&mahj;"@[1] != "&film;"@[1]);
            reveal_strlit("&finc;");
            assert("&mahj;"@[1] != "&finc;"@[1]);
            reveal_strlit("&fish;");
            assert("&mahj;"@[1] != "&fish;"@[1]);
            reveal_strlit("&food;");
            assert("&mahj;"@[1] != "&food;"@[1]);
            reveal_strlit("&gardn;");
            reveal_strlit("&genet;");
            reveal_strlit("&geogr;");
            reveal_strlit("&geol;");
            assert("&mahj;"@[1] != "&geol;"@[1]);
            reveal_strlit("&geom;");
            assert("&mahj;"@[1] != "&geom;"@[1]);
            reveal_strlit("&go;");
            reveal_strlit("&golf;");
            assert("&mahj;"@[1] != "&golf;"@[1]);
            reveal_strlit("&gramm;");
            reveal_strlit("&grmyth;");
            reveal_strlit("&hanaf;");
            reveal_strlit("&horse;");
            reveal_strlit("&internet;");
            reveal_strlit("&jpmyth;");
            reveal_strlit("&kabuki;");
            reveal_strlit("&law;");
            reveal_strlit("&ling;");
            assert("&mahj;"@[1] != "&ling;"@[1]);
            reveal_strlit("&logic;");
            reveal_strlit("&MA;");
        },
        Field::Manga => {
            reveal_strlit("manga");
            reveal_strlit("&manga;");
            assert("&"@ + "manga"@ + ";"@ =~= "&manga;"@);
            reveal_strlit("&agric;");
            assert("&manga;"@[1] != "&agric;"@[1]);
            reveal_strlit("&anat;");
            reveal_strlit("&archeol;");
            reveal_strlit("&archit;");
            reveal_strlit("&art;");
            reveal_strlit("&astron;");
            reveal_strlit("&audvid;");
            reveal_strlit("&aviat;");
            assert("&manga;"@[1] != "&aviat;"@[1]);
            reveal_strlit("&baseb;");
            assert("&manga;"@[1] != "&baseb;"@[1]);
            reveal_strlit("&biochem;");
            reveal_strlit("&biol;");
            reveal_strlit("&bot;");
            reveal_strlit("&boxing;");
            reveal_strlit("&Buddh;");
            assert("&manga;"@[1] != "&Buddh;"@[1]);
            reveal_strlit("&bus;");
            reveal_strlit("&cards;");
            assert("&manga;"@[1] != "&cards;"@[1]);
            reveal_strlit("&chem;");
            reveal_strlit("&Christn;");
            reveal_strlit("&civeng;");
            reveal_strlit("&chmyth;");
            reveal_strlit("&cloth;");
            assert("&manga;"@[1] != "&cloth;"@[1]);
            reveal_strlit("&comp;");
            reveal_strlit("&cryst;");
            assert("&manga;"@[1] != "&cryst;"@[1]);
            reveal_strlit("&dent;");
            reveal_strlit("&ecol;");
            reveal_strlit("&econ;");
            reveal_strlit("&elec;");
            reveal_strlit("&electr;");
            reveal_strlit("&embryo;");
            reveal_strlit("&engr;");
            reveal_strlit("&ent;");
            reveal_strlit("&film;");
            reveal_strlit("&finc;");
            reveal_strlit("&fish;");
            reveal_strlit("&food;");
            reveal_strlit("&gardn;");
            assert("&manga;"@[1] != "&gardn;"@[1]);
            reveal_strlit("&genet;");
            assert("&manga;"@[1] != "&genet;"@[1]);
            reveal_strlit("&geogr;");
            assert("&manga;"@[1] != "&geogr;"@[1]);
            reveal_strlit("&geol;");
            reveal_strlit("&geom;");
            reveal_strlit("&go;");
            reveal_strlit("&golf;");
            reveal_strlit("&gramm;");
            assert("&manga;"@[1] != "&gramm;"@[1]);
            reveal_strlit("&grmyth;");
            reveal_strlit("&hanaf;");
            assert("&manga;"@[1] != "&hanaf;"@[1]);
            reveal_strlit("&horse;");
            assert("&manga;"@[1] != "&horse;"@[1]);
            reveal_strlit("&internet;");
            reveal_strlit("&jpmyth;");
            reveal_strlit("&kabuki;");
            reveal_strlit("&law;");
            reveal_strlit("&ling;");
            reveal_strlit("&logic;");
            assert("&manga;"@[1] != "&logic;"@[1]);
            reveal_strlit("&MA;");
            reveal_strlit("&mahj;");
        },
        Field::Mathematics => {
            reveal_strlit("math");
            reveal_strlit("&math;");
            assert("&"@ + "math"@ + ";"@ =~= "&math;"@);
            reveal_strlit("&agric;");
            reveal_strlit("&anat;");
            assert("&math;"@[1] != "&anat;"@[1]);
            reveal_strlit("&archeol;");
            reveal_strlit("&archit;");
            reveal_strlit("&art;");
            reveal_strlit("&astron;");
            reveal_strlit("&audvid;");
            reveal_strlit("&aviat;");
            reveal_strlit("&baseb;");
            reveal_strlit("&biochem;");
            reveal_strlit("&biol;");
            assert("&math;"@[1] != "&biol;"@[1]);
            reveal_strlit("&bot;");
            reveal_strlit("&boxing;");
            reveal_strlit("&Buddh;");
            reveal_strlit("&bus;");
            reveal_strlit("&cards;");
            reveal_strlit("&chem;");
            assert("&math;"@[1] != "&chem;"@[1]);
            reveal_strlit("&Christn;");
            reveal_strlit("&civeng;");
            reveal_strlit("&chmyth;");
            reveal_strlit("&cloth;");
            reveal_strlit("&comp;");
            assert("&math;"@[1] != "&comp;"@[1]);
            reveal_strlit("&cryst;");
            reveal_strlit("&dent;");
            assert("&math;"@[1] != "&dent;"@[1]);
            reveal_strlit("&ecol;");
            assert("&math;"@[1] != "&ecol;"@[1]);
            reveal_strlit("&econ;");
            assert("&math;"@[1] != "&econ;"@[1]);
            reveal_strlit("&elec;");
            assert("&math;"@[1] != "&elec;"@[1]);
            reveal_strlit("&electr;");
            reveal_strlit("&embryo;");
            reveal_strlit("&engr;");
            assert("&math;"@[1] != "&engr;"@[1]);
            reveal_strlit("&ent;");
            reveal_strlit("&film;");
            assert("&math;"@[1] != "&film;"@[1]);
            reveal_strlit("&finc;");
            assert("&math;"@[1] != "&finc;"@[1]);
            reveal_strlit("&fish;");
            assert("&math;"@[1] != "&fish;"@[1]);
            reveal_strlit("&food;");
            assert("&math;"@[1] != "&food;"@[1]);
            reveal_strlit("&gardn;");
            reveal_strlit("&genet;");
            reveal_strlit("&geogr;");
            reveal_strlit("&geol;");
            assert("&math;"@[1] != "&geol;"@[1]);
            reveal_strlit("&geom;");
            assert("&math;"@[1] != "&geom;"@[1]);
            reveal_strlit("&go;");
            reveal_strlit("&golf;");
            assert("&math;"@[1] != "&golf;"@[1]);
            reveal_strlit("&gramm;");
            reveal_strlit("&grmyth;");
            reveal_strlit("&hanaf;");
            reveal_strlit("&horse;");
            reveal_strlit("&internet;");
            reveal_strlit("&jpmyth;");
            reveal_strlit("&kabuki;");
            reveal_strlit("&law;");
            reveal_strlit("&ling;");
            assert("&math;"@[1] != "&ling;"@[1]);
            reveal_strlit("&logic;");
            reveal_strlit("&MA;");
            reveal_strlit("&mahj;");
            assert("&math;"@[3] != "&mahj;"@[3]);
            reveal_strlit("&manga;");
        },
        Field::MechanicalEnginering => {
            reveal_strlit("mech");
            reveal_strlit("&mech;");
            assert("&"@ + "mech"@ + ";"@ =~= "&mech;"@);
            reveal_strlit("&agric;");
            reveal_strlit("&anat;");
            assert("&mech;"@[1] != "&anat;"@[1]);
            reveal_strlit("&archeol;");
            reveal_strlit("&archit;");
            reveal_strlit("&art;");
            reveal_strlit("&astron;");
            reveal_strlit("&audvid;");
            reveal_strlit("&aviat;");
            reveal_strlit("&baseb;");
            reveal_strlit("&biochem;");
            reveal_strlit("&biol;");
            assert("&mech;"@[1] != "&biol;"@[1]);
            reveal_strlit("&bot;");
            reveal_strlit("&boxing;");
            reveal_strlit("&Buddh;");
            reveal_strlit("&bus;");
            reveal_strlit("&cards;");
            reveal_strlit("&chem;");
            assert("&mech;"@[1] != "&chem;"@[1]);
            reveal_strlit("&Christn;");
            reveal_strlit("&civeng;");
            reveal_strlit("&chmyth;");
            reveal_strlit("&cloth;");
            reveal_strlit("&comp;");
            assert("&mech;"@[1] != "&comp;"@[1]);
            reveal_strlit("&cryst;");
            reveal_strlit("&dent;");
            assert("&mech;"@[1] != "&dent;"@[1]);
            reveal_strlit("&ecol;");
            assert("&mech;"@[1] != "&ecol;"@[1]);
            reveal_strlit("&econ;");
            assert("&mech;"@[1] != "&econ;"@[1]);
            reveal_strlit("&elec;");
            assert("&mech;"@[1] != "&elec;"@[1]);
            reveal_strlit("&electr;");
            reveal_strlit("&embryo;");
            reveal_strlit("&engr;");
            assert("&mech;"@[1] != "&engr;"@[1]);
            reveal_strlit("&ent;");
            reveal_strlit("&film;");
            assert("&mech;"@[1] != "&film;"@[1]);
            reveal_strlit("&finc;");
            assert("&mech;"@[1] != "&finc;"@[1]);
            reveal_strlit("&fish;");
            assert("&mech;"@[1] != "&fish;"@[1]);
            reveal_strlit("&food;");
            assert("&mech;"@[1] != "&food;"@[1]);
            reveal_strlit("&gardn;");
            reveal_strlit("&genet;");
            reveal_strlit("&geogr;");
            reveal_strlit("&geol;");
            assert("&mech;"@[1] != "&geol;"@[1]);
            reveal_strlit("&geom;");
            assert("&mech;"@[1] != "&geom;"@[1]);
            reveal_strlit("&go;");
            reveal_strlit("&golf;");
            assert("&mech;"@[1] != "&golf;"@[1]);
            reveal_strlit("&gramm;");
            reveal_strlit("&grmyth;");
            reveal_strlit("&hanaf;");
            reveal_strlit("&horse;");
            reveal_strlit("&internet;");
            reveal_strlit("&jpmyth;");
            reveal_strlit("&kabuki;");
            reveal_strlit("&law;");
            reveal_strlit("&ling;");
            assert("&mech;"@[1] != "&ling;"@[1]);
            reveal_strlit("&logic;");
            reveal_strlit("&MA;");
            reveal_strlit("&mahj;");
            assert("&mech;"@[2] != "&mahj;"@[2]);
            reveal_strlit("&manga;");
            reveal_strlit("&math;");
            assert("&mech;"@[2] != "&math;"@[2]);
        },
        Field::Medicine => {
            reveal_strlit("med");
            reveal_strlit("&med;");
            assert("&"@ + "med"@ + ";"@ =~= "&med;"@);
            reveal_strlit("&agric;");
            reveal_strlit("&anat;");
            reveal_strlit("&archeol;");
            reveal_strlit("&archit;");
            reveal_strlit("&art;");
            assert("&med;"@[1] != "&art;"@[1]);
            reveal_strlit("&astron;");
            reveal_strlit("&audvid;");
            reveal_strlit("&aviat;");
            reveal_strlit("&baseb;");
            reveal_strlit("&biochem;");
            reveal_strlit("&biol;");
            reveal_strlit("&bot;");
            assert("&med;"@[1] != "&bot;"@[1]);
            reveal_strlit("&boxing;");
            reveal_strlit("&Buddh;");
            reveal_strlit("&bus;");
            assert("&med;"@[1] != "&bus;"@[1]);
            reveal_strlit("&cards;");
            reveal_strlit("&chem;");
            reveal_strlit("&Christn;");
            reveal_strlit("&civeng;");
            reveal_strlit("&chmyth;");
            reveal_strlit("&cloth;");
            reveal_strlit("&comp;");
            reveal_strlit("&cryst;");
            reveal_strlit("&dent;");
            reveal_strlit("&ecol;");
            reveal_strlit("&econ;");
            reveal_strlit("&elec;");
            reveal_strlit("&electr;");
            reveal_strlit("&embryo;");
            reveal_strlit("&engr;");
            reveal_strlit("&ent;");
            assert("&med;"@[1] != "&ent;"@[1]);
            reveal_strlit("&film;");
            reveal_strlit("&finc;");
            reveal_strlit("&fish;");
            reveal_strlit("&food;");
            reveal_strlit("&gardn;");
            reveal_strlit("&genet;");
            reveal_strlit("&geogr;");
            reveal_strlit("&geol;");
            reveal_strlit("&geom;");
            reveal_strlit("&go;");
            reveal_strlit("&golf;");
            reveal_strlit("&gramm;");
            reveal_strlit("&grmyth;");
            reveal_strlit("&hanaf;");
            reveal_strlit("&horse;");
            reveal_strlit("&internet;");
            reveal_strlit("&jpmyth;");
            reveal_strlit("&kabuki;");
            reveal_strlit("&law;");
            assert("&med;"@[1] != "&law;"@[1]);
            reveal_strlit("&ling;");
            reveal_strlit("&logic;");
            reveal_strlit("&MA;");
            reveal_strlit("&mahj;");
            reveal_strlit("&manga;");
            reveal_strlit("&math;");
            reveal_strlit("&mech;");
        },
        Field::Meteorology => {
            reveal_strlit("met");
            reveal_strlit("&met;");
            assert("&"@ + "met"@ + ";"@ =~= "&met;"@);
            reveal_strlit("&agric;");
            reveal_strlit("&anat;");
            reveal_strlit("&archeol;");
            reveal_strlit("&archit;");
            reveal_strlit("&art;");
            assert("&met;"@[1] != "&art;"@[1]);
            reveal_strlit("&astron;");
            reveal_strlit("&audvid;");
            reveal_strlit("&aviat;");
            reveal_strlit("&baseb;");
            reveal_strlit("&biochem;");
            reveal_strlit("&biol;");
            reveal_strlit("&bot;");
            assert("&met;"@[1] != "&bot;"@[1]);
            reveal_strlit("&boxing;");
            reveal_strlit("&Buddh;");
            reveal_strlit("&bus;");
            assert("&met;"@[1] != "&bus;"@[1]);
            reveal_strlit("&cards;");
            reveal_strlit("&chem;");
            reveal_strlit("&Christn;");
            reveal_strlit("&civeng;");
            reveal_strlit("&chmyth;");
            reveal_strlit("&cloth;");
            reveal_strlit("&comp;");
            reveal_strlit("&cryst;");
            reveal_strlit("&dent;");
            reveal_strlit("&ecol;");
            reveal_strlit("&econ;");
            reveal_strlit("&elec;");
            reveal_strlit("&electr;");
            reveal_strlit("&embryo;");
            reveal_strlit("&engr;");
            reveal_strlit("&ent;");
            assert("&met;"@[1] != "&ent;"@[1]);
            reveal_strlit("&film;");
            reveal_strlit("&finc;");
            reveal_strlit("&fish;");
            reveal_strlit("&food;");
            reveal_strlit("&gardn;");
            reveal_strlit("&genet;");
            reveal_strlit("&geogr;");
            reveal_strlit("&geol;");
            reveal_strlit("&geom;");
            reveal_strlit("&go;");
            reveal_strlit("&golf;");
            reveal_strlit("&gramm;");
            reveal_strlit("&grmyth;");
            reveal_strlit("&hanaf;");
            reveal_strlit("&horse;");
            reveal_strlit("&internet;");
            reveal_strlit("&jpmyth;");
            reveal_strlit("&kabuki;");
            reveal_strlit("&law;");
            assert("&met;"@[1] != "&law;"@[1]);
            reveal_strlit("&ling;");
            reveal_strlit("&logic;");
            reveal_strlit("&MA;");
            reveal_strlit("&mahj;");
            reveal_strlit("&manga;");
            reveal_strlit("&math;");
            reveal_strlit("&mech;");
            reveal_strlit("&med;");
            assert("&met;"@[3] != "&med;"@[3]);
        },
        Field::Military => {
            reveal_strlit("mil");
            reveal_strlit("&mil;");
            assert("&"@ + "mil"@ + ";"@ =~= "&mil;"@);
            reveal_strlit("&agric;");
            reveal_strlit("&anat;");
            reveal_strlit("&archeol;");
            reveal_strlit("&archit;");
            reveal_strlit("&art;");
            assert("&mil;"@[1] != "&art;"@[1]);
            reveal_strlit("&astron;");
            reveal_strlit("&audvid;");
            reveal_strlit("&aviat;");
            reveal_strlit("&baseb;");
            reveal_strlit("&biochem;");
            reveal_strlit("&biol;");
            reveal_strlit("&bot;");
            assert("&mil;"@[1] != "&bot;"@[1]);
            reveal_strlit("&boxing;");
            reveal_strlit("&Buddh;");
            reveal_strlit("&bus;");
            assert("&mil;"@[1] != "&bus;"@[1]);
            reveal_strlit("&cards;");
            reveal_strlit("&chem;");
            reveal_strlit("&Christn;");
            reveal_strlit("&civeng;");
            reveal_strlit("&chmyth;");
            reveal_strlit("&cloth;");
            reveal_strlit("&comp;");
            reveal_strlit("&cryst;");
            reveal_strlit("&dent;");
            reveal_strlit("&ecol;");
            reveal_strlit("&econ;");
            reveal_strlit("&elec;");
            reveal_strlit("&electr;");
            reveal_strlit("&embryo;");
            reveal_strlit("&engr;");
            reveal_strlit("&ent;");
            assert("&mil;"@[1] != "&ent;"@[1]);
            reveal_strlit("&film;");
            reveal_strlit("&finc;");
            reveal_strlit("&fish;");
            reveal_strlit("&food;");
            reveal_strlit("&gardn;");
            reveal_strlit("&genet;");
            reveal_strlit("&geogr;");
            reveal_strlit("&geol;");
            reveal_strlit("&geom;");
            reveal_strlit("&go;");
            reveal_strlit("&golf;");
            reveal_strlit("&gramm;");
            reveal_strlit("&grmyth;");
            reveal_strlit("&hanaf;");
            reveal_strlit("&horse;");
            reveal_strlit("&internet;");
            reveal_strlit("&jpmyth;");
            reveal_strlit("&kabuki;");
            reveal_strlit("&law;");
            assert("&mil;"@[1] != "&law;"@[1]);
            reveal_strlit("&ling;");
            reveal_strlit("&logic;");
            reveal_strlit("&MA;");
            reveal_strlit("&mahj;");
            reveal_strlit("&manga;");
            reveal_strlit("&math;");
            reveal_strlit("&mech;");
            reveal_strlit("&med;");
            assert("&mil;"@[2] != "&med;"@[2]);
            reveal_strlit("&met;");
            assert("&mil;"@[2] != "&met;"@[2]);
        },
        Field::Mining => {
            reveal_strlit("mining");
            reveal_strlit("&mining;");
            assert("&"@ + "mining"@ + ";"@ =~= "&mining;"@);
            reveal_strlit("&agric;");
            reveal_strlit("&anat;");
            reveal_strlit("&archeol;");
            reveal_strlit("&archit;");
            assert("&mining;"@[1] != "&archit;"@[1]);
            reveal_strlit("&art;");
            reveal_strlit("&astron;");
            assert("&mining;"@[1] != "&astron;"@[1]);
            reveal_strlit("&audvid;");
            assert("&mining;"@[1] != "&audvid;"@[1]);
            reveal_strlit("&aviat;");
            reveal_strlit("&baseb;");
            reveal_strlit("&biochem;");
            reveal_strlit("&biol;");
            reveal_strlit("&bot;");
            reveal_strlit("&boxing;");
            assert("&mining;"@[1] != "&boxing;"@[1]);
            reveal_strlit("&Buddh;");
            reveal_strlit("&bus;");
            reveal_strlit("&cards;");
            reveal_strlit("&chem;");
            reveal_strlit("&Christn;");
            reveal_strlit("&civeng;");
            assert("&mining;"@[1] != "&civeng;"@[1]);
            reveal_strlit("&chmyth;");
            assert("&mining;"@[1] != "&chmyth;"@[1]);
            reveal_strlit("&cloth;");
            reveal_strlit("&comp;");
            reveal_strlit("&cryst;");
            reveal_strlit("&dent;");
            reveal_strlit("&ecol;");
            reveal_strlit("&econ;");
            reveal_strlit("&elec;");
            reveal_strlit("&electr;");
            assert("&mining;"@[1] != "&electr;"@[1]);
            reveal_strlit("&embryo;");
            assert("&mining;"@[1] != "&embryo;"@[1]);
            reveal_strlit("&engr;");
            reveal_strlit("&ent;");
            reveal_strlit("&film;");
            reveal_strlit("&finc;");
            reveal_strlit("&fish;");
            reveal_strlit("&food;");
            reveal_strlit("&gardn;");
            reveal_strlit("&genet;");
            reveal_strlit("&geogr;");
            reveal_strlit("&geol;");
            reveal_strlit("&geom;");
            reveal_strlit("&go;");
            reveal_strlit("&golf;");
            reveal_strlit("&gramm;");
            reveal_strlit("&grmyth;");
            assert("&mining;"@[1] != "&grmyth;"@[1]);
            reveal_strlit("&hanaf;");
            reveal_strlit("&horse;");
            reveal_strlit("&internet;");
            reveal_strlit("&jpmyth;");
            assert("&mining;"@[1] != "&jpmyth;"@[1]);
            reveal_strlit("&kabuki;");
            assert("&mining;"@[1] != "&kabuki;"@[1]);
            reveal_strlit("&law;");
            reveal_strlit("&ling;");
            reveal_strlit("&logic;");
            reveal_strlit("&MA;");
            reveal_strlit("&mahj;");
            reveal_strlit("&manga;");
            reveal_strlit("&math;");
            reveal_strlit("&mech;");
            reveal_strlit("&med;");
            reveal_strlit("&met;");
            reveal_strlit("&mil;");
        },
        Field::Motorsport => {
            reveal_strlit("motor");
            reveal_strlit("&motor;");
            assert("&"@ + "motor"@ + ";"@ =~= "&motor;"@);
            reveal_strlit("&agric;");
            assert("&motor;"@[1] != "&agric;"@[1]);
            reveal_strlit("&anat;");
            reveal_strlit("&archeol;");
            reveal_strlit("&archit;");
            reveal_strlit("&art;");
            reveal_strlit("&astron;");
            reveal_strlit("&audvid;");
            reveal_strlit("&aviat;");
            assert("&motor;"@[1] != "&aviat;"@[1]);
            reveal_strlit("&baseb;");
            assert("&motor;"@[1] != "&baseb;"@[1]);
            reveal_strlit("&biochem;");
            reveal_strlit("&biol;");
            reveal_strlit("&bot;");
            reveal_strlit("&boxing;");
            reveal_strlit("&Buddh;");
            assert("&motor;"@[1] != "&Buddh;"@[1]);
            reveal_strlit("&bus;");
            reveal_strlit("&cards;");
            assert("&motor;"@[1] != "&cards;"@[1]);
            reveal_strlit("&chem;");
            reveal_strlit("&Christn;");
            reveal_strlit("&civeng;");
            reveal_strlit("&chmyth;");
            reveal_strlit("&cloth;");
            assert("&motor;"@[1] != "&cloth;"@[1]);
            reveal_strlit("&comp;");
            reveal_strlit("&cryst;");
            assert("&motor;"@[1] != "&cryst;"@[1]);
            reveal_strlit("&dent;");
            reveal_strlit("&ecol;");
            reveal_strlit("&econ;");
            reveal_strlit("&elec;");
            reveal_strlit("&electr;");
            reveal_strlit("&embryo;");
            reveal_strlit("&engr;");
            reveal_strlit("&ent;");
            reveal_strlit("&film;");
            reveal_strlit("&finc;");
            reveal_strlit("&fish;");
            reveal_strlit("&food;");
            reveal_strlit("&gardn;");
            assert("&motor;"@[1] != "&gardn;"@[1]);
            reveal_strlit("&genet;");
            assert("&motor;"@[1] != "&genet;"@[1]);
            reveal_strlit("&geogr;");
            assert("&motor;"@[1] != "&geogr;"@[1]);
            reveal_strlit("&geol;");
            reveal_strlit("&geom;");
            reveal_strlit("&go;");
            reveal_strlit("&golf;");
            reveal_strlit("&gramm;");
            assert("&motor;"@[1] != "&gramm;"@[1]);
            reveal_strlit("&grmyth;");
            reveal_strlit("&hanaf;");
            assert("&motor;"@[1] != "&hanaf;"@[1]);
            reveal_strlit("&horse;");
            assert("&motor;"@[1] != "&horse;"@[1]);
            reveal_strlit("&internet;");
            reveal_strlit("&jpmyth;");
            reveal_strlit("&kabuki;");
            reveal_strlit("&law;");
            reveal_strlit("&ling;");
            reveal_strlit("&logic;");
            assert("&motor;"@[1] != "&logic;"@[1]);
            reveal_strlit("&MA;");
            reveal_strlit("&mahj;");
            reveal_strlit("&manga;");
            assert("&motor;"@[2] != "&manga;"@[2]);
            reveal_strlit("&math;");
            reveal_strlit("&mech;");
            reveal_strlit("&med;");
            reveal_strlit("&met;");
            reveal_strlit("&mil;");
            reveal_strlit("&mining;");
        },
        Field::Music => {
            reveal_strlit("music");
            reveal_strlit("&music;");
            assert("&"@ + "music"@ + ";"@ =~= "&music;"@);
            reveal_strlit("&agric;");
            assert("&music;"@[1] != "&agric;"@[1]);
            reveal_strlit("&anat;");
            reveal_strlit("&archeol;");
            reveal_strlit("&archit;");
            reveal_strlit("&art;");
            reveal_strlit("&astron;");
            reveal_strlit("&audvid;");
            reveal_strlit("&aviat;");
            assert("&music;"@[1] != "&aviat;"@[1]);
            reveal_strlit("&baseb;");
            assert("&music;"@[1] != "&baseb;"@[1]);
            reveal_strlit("&biochem;");
            reveal_strlit("&biol;");
            reveal_strlit("&bot;");
            reveal_strlit("&boxing;");
            reveal_strlit("&Buddh;");
            assert("&music;"@[1] != "&Buddh;"@[1]);
            reveal_strlit("&bus;");
            reveal_strlit("&cards;");
            assert("&music;"@[1] != "&cards;"@[1]);
            reveal_strlit("&chem;");
            reveal_strlit("&Christn;");
            reveal_strlit("&civeng;");
            reveal_strlit("&chmyth;");
            reveal_strlit("&cloth;");
            assert("&music;"@[1] != "&cloth;"@[1]);
            reveal_strlit("&comp;");
            reveal_strlit("&cryst;");
            assert("&music;"@[1] != "&cryst;"@[1]);
            reveal_strlit("&dent;");
            reveal_strlit("&ecol;");
            reveal_strlit("&econ;");
            reveal_strlit("&elec;");
            reveal_strlit("&electr;");
            reveal_strlit("&embryo;");
            reveal_strlit("&engr;");
            reveal_strlit("&ent;");
            reveal_strlit("&film;");
            reveal_strlit("&finc;");
            reveal_strlit("&fish;");
            reveal_strlit("&food;");
            reveal_strlit("&gardn;");
            assert("&music;"@[1] != "&gardn;"@[1]);
            reveal_strlit("&genet;");
            assert("&music;"@[1] != "&genet;"@[1]);
            reveal_strlit("&geogr;");
            assert("&music;"@[1] != "&geogr;"@[1]);
            reveal_strlit("&geol;");
            reveal_strlit("&geom;");
            reveal_strlit("&go;");
            reveal_strlit("&golf;");
            reveal_strlit("&gramm;");
            assert("&music;"@[1] != "&gramm;"@[1]);
            reveal_strlit("&grmyth;");
            reveal_strlit("&hanaf;");
            assert("&music;"@[1] != "&hanaf;"@[1]);
            reveal_strlit("&horse;");
            assert("&music;"@[1] != "&horse;"@[1]);
            reveal_strlit("&internet;");
            reveal_strlit("&jpmyth;");
            reveal_strlit("&kabuki;");
            reveal_strlit("&law;");
            reveal_strlit("&ling;");
            reveal_strlit("&logic;");
            assert("&music;"@[1] != "&logic;"@[1]);
            reveal_strlit("&MA;");
            reveal_strlit("&mahj;");
            reveal_strlit("&manga;");
            assert("&music;"@[2] != "&manga;"@[2]);
            reveal_strlit("&math;");
            reveal_strlit("&mech;");
            reveal_strlit("&med;");
            reveal_strlit("&met;");
            reveal_strlit("&mil;");
            reveal_strlit("&mining;");
            reveal_strlit("&motor;");
            assert("&music;"@[2] != "&motor;"@[2]);
        },
        Field::Noh => {
            reveal_strlit("noh");
            reveal_strlit("&noh;");
            assert("&"@ + "noh"@ + ";"@ =~= "&noh;"@);
            reveal_strlit("&agric;");
            reveal_strlit("&anat;");
            reveal_strlit("&archeol;");
            reveal_strlit("&archit;");
            reveal_strlit("&art;");
            assert("&noh;"@[1] != "&art;"@[1]);
            reveal_strlit("&astron;");
            reveal_strlit("&audvid;");
            reveal_strlit("&aviat;");
            reveal_strlit("&baseb;");
            reveal_strlit("&biochem;");
            reveal_strlit("&biol;");
            reveal_strlit("&bot;");
            assert("&noh;"@[1] != "&bot;"@[1]);
            reveal_strlit("&boxing;");
            reveal_strlit("&Buddh;");
            reveal_strlit("&bus;");
            assert("&noh;"@[1] != "&bus;"@[1]);
            reveal_strlit("&cards;");
            reveal_strlit("&chem;");
            reveal_strlit("&Christn;");
            reveal_strlit("&civeng;");
            reveal_strlit("&chmyth;");
            reveal_strlit("&cloth;");
            reveal_strlit("&comp;");
            reveal_strlit("&cryst;");
            reveal_strlit("&dent;");
            reveal_strlit("&ecol;");
            reveal_strlit("&econ;");
            reveal_strlit("&elec;");
            reveal_strlit("&electr;");
            reveal_strlit("&embryo;");
            reveal_strlit("&engr;");
            reveal_strlit("&ent;");
            assert("&noh;"@[1] != "&ent;"@[1]);
            reveal_strlit("&film;");
            reveal_strlit("&finc;");
            reveal_strlit("&fish;");
            reveal_strlit("&food;");
            reveal_strlit("&gardn;");
            reveal_strlit("&genet;");
            reveal_strlit("&geogr;");
            reveal_strlit("&geol;");
            reveal_strlit("&geom;");
            reveal_strlit("&go;");
            reveal_strlit("&golf;");
            reveal_strlit("&gramm;");
            reveal_strlit("&grmyth;");
            reveal_strlit("&hanaf;");
            reveal_strlit("&horse;");
            reveal_strlit("&internet;");
            reveal_strlit("&jpmyth;");
            reveal_strlit("&kabuki;");
            reveal_strlit("&law;");
            assert("&noh;"@[1] != "&law;"@[1]);
            reveal_strlit("&ling;");
            reveal_strlit("&logic;");
            reveal_strlit("&MA;");
            reveal_strlit("&mahj;");
            reveal_strlit("&manga;");
            reveal_strlit("&math;");
            reveal_strlit("&mech;");
            reveal_strlit("&med;");
            assert("&noh;"@[1] != "&med;"@[1]);
            reveal_strlit("&met;");
            assert("&noh;"@[1] != "&met;"@[1]);
            reveal_strlit("&mil;");
            assert("&noh;"@[1] != "&mil;"@[1]);
            reveal_strlit("&mining;");
            reveal_strlit("&motor;");
            reveal_strlit("&music;");
        },
        Field::Ornithology => {
            reveal_strlit("ornith");
            reveal_strlit("&ornith;");
            assert("&"@ + "ornith"@ + ";"@ =~= "&ornith;"@);
            reveal_strlit("&agric;");
            reveal_strlit("&anat;");
            reveal_strlit("&archeol;");
            reveal_strlit("&archit;");
            assert("&ornith;"@[1] != "&archit;"@[1]);
            reveal_strlit("&art;");
            reveal_strlit("&astron;");
            assert("&ornith;"@[1] != "&astron;"@[1]);
            reveal_strlit("&audvid;");
            assert("&ornith;"@[1] != "&audvid;"@[1]);
            reveal_strlit("&aviat;");
            reveal_strlit("&baseb;");
            reveal_strlit("&biochem;");
            reveal_strlit("&biol;");
            reveal_strlit("&bot;");
            reveal_strlit("&boxing;");
            assert("&ornith;"@[1] != "&boxing;"@[1]);
            reveal_strlit("&Buddh;");
            reveal_strlit("&bus;");
            reveal_strlit("&cards;");
            reveal_strlit("&chem;");
            reveal_strlit("&Christn;");
            reveal_strlit("&civeng;");
            assert("&ornith;"@[1] != "&civeng;"@[1]);
            reveal_strlit("&chmyth;");
            assert("&ornith;"@[1] != "&chmyth;"@[1]);
            reveal_strlit("&cloth;");
            reveal_strlit("&comp;");
            reveal_strlit("&cryst;");
            reveal_strlit("&dent;");
            reveal_strlit("&ecol;");
            reveal_strlit("&econ;");
            reveal_strlit("&elec;");
            reveal_strlit("&electr;");
            assert("&ornith;"@[1] != "&electr;"@[1]);
            reveal_strlit("&embryo;");
            assert("&ornith;"@[1] != "&embryo;"@[1]);
            reveal_strlit("&engr;");
            reveal_strlit("&ent;");
            reveal_strlit("&film;");
            reveal_strlit("&finc;");
            reveal_strlit("&fish;");
            reveal_strlit("&food;");
            reveal_strlit("&gardn;");
            reveal_strlit("&genet;");
            reveal_strlit("&geogr;");
            reveal_strlit("&geol;");
            reveal_strlit("&geom;");
            reveal_strlit("&go;");
            reveal_strlit("&golf;");
            reveal_strlit("&gramm;");
            reveal_strlit("&grmyth;");
            assert("&ornith;"@[1] != "&grmyth;"@[1]);
            reveal_strlit("&hanaf;");
            reveal_strlit("&horse;");
            reveal_strlit("&internet;");
            reveal_strlit("&jpmyth;");
            assert("&ornith;"@[1] != "&jpmyth;"@[1]);
            reveal_strlit("&kabuki;");
            assert("&ornith;"@[1] != "&kabuki;"@[1]);
            reveal_strlit("&law;");
            reveal_strlit("&ling;");
            reveal_strlit("&logic;");
            reveal_strlit("&MA;");
            reveal_strlit("&mahj;");
            reveal_strlit("&manga;");
            reveal_strlit("&math;");
            reveal_strlit("&mech;");
            reveal_strlit("&med;");
            reveal_strlit("&met;");
            reveal_strlit("&mil;");
            reveal_strlit("&mining;");
            assert("&ornith;"@[1] != "&mining;"@[1]);
            reveal_strlit("&motor;");
            reveal_strlit("&music;");
            reveal_strlit("&noh;");
        },
        Field::Paleontology => {
            reveal_strlit("paleo");
            reveal_strlit("&paleo;");
            assert("&"@ + "paleo"@ + ";"@ =~= "&paleo;"@);
            reveal_strlit("&agric;");
            assert("&paleo;"@[1] != "&agric;"@[1]);
            reveal_strlit("&anat;");
            reveal_strlit("&archeol;");
            reveal_strlit("&archit;");
            reveal_strlit("&art;");
            reveal_strlit("&astron;");
            reveal_strlit("&audvid;");
            reveal_strlit("&aviat;");
            assert("&paleo;"@[1] != "&aviat;"@[1]);
            reveal_strlit("&baseb;");
            assert("&paleo;"@[1] != "&baseb;"@[1]);
            reveal_strlit("&biochem;");
            reveal_strlit("&biol;");
            reveal_strlit("&bot;");
            reveal_strlit("&boxing;");
            reveal_strlit("&Buddh;");
            assert("&paleo;"@[1] != "&Buddh;"@[1]);
            reveal_strlit("&bus;");
            reveal_strlit("&cards;");
            assert("&paleo;"@[1] != "&cards;"@[1]);
            reveal_strlit("&chem;");
            reveal_strlit("&Christn;");
            reveal_strlit("&civeng;");
            reveal_strlit("&chmyth;");
            reveal_strlit("&cloth;");
            assert("&paleo;"@[1] != "&cloth;"@[1]);
            reveal_strlit("&comp;");
            reveal_strlit("&cryst;");
            assert("&paleo;"@[1] != "&cryst;"@[1]);
            reveal_strlit("&dent;");
            reveal_strlit("&ecol;");
            reveal_strlit("&econ;");
            reveal_strlit("&elec;");
            reveal_strlit("&electr;");
            reveal_strlit("&embryo;");
            reveal_strlit("&engr;");
            reveal_strlit("&ent;");
            reveal_strlit("&film;");
            reveal_strlit("&finc;");
            reveal_strlit("&fish;");
            reveal_strlit("&food;");
            reveal_strlit("&gardn;");
            assert("&paleo;"@[1] != "&gardn;"@[1]);
            reveal_strlit("&genet;");
            assert("&paleo;"@[1] != "&genet;"@[1]);
            reveal_strlit("&geogr;");
            assert("&paleo;"@[1] != "&geogr;"@[1]);
            reveal_strlit("&geol;");
            reveal_strlit("&geom;");
            reveal_strlit("&go;");
            reveal_strlit("&golf;");
            reveal_strlit("&gramm;");
            assert("&paleo;"@[1] != "&gramm;"@[1]);
            reveal_strlit("&grmyth;");
            reveal_strlit("&hanaf;");
            assert("&paleo;"@[1] != "&hanaf;"@[1]);
            reveal_strlit("&horse;");
            assert("&paleo;"@[1] != "&horse;"@[1]);
            reveal_strlit("&internet;");
            reveal_strlit("&jpmyth;");
            reveal_strlit("&kabuki;");
            reveal_strlit("&law;");
            reveal_strlit("&ling;");
            reveal_strlit("&logic;");
            assert("&paleo;"@[1] != "&logic;"@[1]);
            reveal_strlit("&MA;");
            reveal_strlit("&mahj;");
            reveal_strlit("&manga;");
            assert("&paleo;"@[1] != "&manga;"@[1]);
            reveal_strlit("&math;");
            reveal_strlit("&mech;");
            reveal_strlit("&med;");
            reveal_strlit("&met;");
            reveal_strlit("&mil;");
            reveal_strlit("&mining;");
            reveal_strlit("&motor;");
            assert("&paleo;"@[1] != "&motor;"@[1]);
            reveal_strlit("&music;");
            assert("&paleo;"@[1] != "&music;"@[1]);
            reveal_strlit("&noh;");
            reveal_strlit("&ornith;");
        },
        Field::Pathology => {
            reveal_strlit("pathol");
            reveal_strlit("&pathol;");
            assert("&"@ + "pathol"@ + ";"@ =~= "&pathol;"@);
            reveal_strlit("&agric;");
            reveal_strlit("&anat;");
            reveal_strlit("&archeol;");
            reveal_strlit("&archit;");
            assert("&pathol;"@[1] != "&archit;"@[1]);
            reveal_strlit("&art;");
            reveal_strlit("&astron;");
            assert("&pathol;"@[1] != "&astron;"@[1]);
            reveal_strlit("&audvid;");
            assert("&pathol;"@[1] != "&audvid;"@[1]);
            reveal_strlit("&aviat;");
            reveal_strlit("&baseb;");
            reveal_strlit("&biochem;");
            reveal_strlit("&biol;");
            reveal_strlit("&bot;");
            reveal_strlit("&boxing;");
            assert("&pathol;"@[1] != "&boxing;"@[1]);
            reveal_strlit("&Buddh;");
            reveal_strlit("&bus;");
            reveal_strlit("&cards;");
            reveal_strlit("&chem;");
            reveal_strlit("&Christn;");
            reveal_strlit("&civeng;");
            assert("&pathol;"@[1] != "&civeng;"@[1]);
            reveal_strlit("&chmyth;");
            assert("&pathol;"@[1] != "&chmyth;"@[1]);
            reveal_strlit("&cloth;");
            reveal_strlit("&comp;");
            reveal_strlit("&cryst;");
            reveal_strlit("&dent;");
            reveal_strlit("&ecol;");
            reveal_strlit("&econ;");
            reveal_strlit("&elec;");
            reveal_strlit("&electr;");
            assert("&pathol;"@[1] != "&electr;"@[1]);
            reveal_strlit("&embryo;");
            assert("&pathol;"@[1] != "&embryo;"@[1]);
            reveal_strlit("&engr;");
            reveal_strlit("&ent;");
            reveal_strlit("&film;");
            reveal_strlit("&finc;");
            reveal_strlit("&fish;");
            reveal_strlit("&food;");
            reveal_strlit("&gardn;");
            reveal_strlit("&genet;");
            reveal_strlit("&geogr;");
            reveal_strlit("&geol;");
            reveal_strlit("&geom;");
            reveal_strlit("&go;");
            reveal_strlit("&golf;");
            reveal_strlit("&gramm;");
            reveal_strlit("&grmyth;");
            assert("&pathol;"@[1] != "&grmyth;"@[1]);
            reveal_strlit("&hanaf;");
            reveal_strlit("&horse;");
            reveal_strlit("&internet;");
            reveal_strlit("&jpmyth;");
            assert("&pathol;"@[1] != "&jpmyth;"@[1]);
            reveal_strlit("&kabuki;");
            assert("&pathol;"@[1] != "&kabuki;"@[1]);
            reveal_strlit("&law;");
            reveal_strlit("&ling;");
            reveal_strlit("&logic;");
            reveal_strlit("&MA;");
            reveal_strlit("&mahj;");
            reveal_strlit("&manga;");
            reveal_strlit("&math;");
            reveal_strlit("&mech;");
            reveal_strlit("&med;");
            reveal_strlit("&met;");
            reveal_strlit("&mil;");
            reveal_strlit("&mining;");
            assert("&pathol;"@[1] != "&mining;"@[1]);
            reveal_strlit("&motor;");
            reveal_strlit("&music;");
            reveal_strlit("&noh;");
            reveal_strlit("&ornith;");
            assert("&pathol;"@[1] != "&ornith;"@[1]);
            reveal_strlit("&paleo;");
        },
        Field::Pharmacology => {
            reveal_strlit("pharm");
            reveal_strlit("&pharm;");
            assert("&"@ + "pharm"@ + ";"@ =~= "&pharm;"@);
            reveal_strlit("&agric;");
            assert("&pharm;"@[1] != "&agric;"@[1]);
            reveal_strlit("&anat;");
            reveal_strlit("&archeol;");
            reveal_strlit("&archit;");
            reveal_strlit("&art;");
            reveal_strlit("&astron;");
            reveal_strlit("&audvid;");
            reveal_strlit("&aviat;");
            assert("&pharm;"@[1] != "&aviat;"@[1]);
            reveal_strlit("&baseb;");
            assert("&pharm;"@[1] != "&baseb;"@[1]);
            reveal_strlit("&biochem;");
            reveal_strlit("&biol;");
            reveal_strlit("&bot;");
            reveal_strlit("&boxing;");
            reveal_strlit("&Buddh;");
            assert("&pharm;"@[1] != "&Buddh;"@[1]);
            reveal_strlit("&bus;");
            reveal_strlit("&cards;");
            assert("&pharm;"@[1] != "&cards;"@[1]);
            reveal_strlit("&chem;");
            reveal_strlit("&Christn;");
            reveal_strlit("&civeng;");
            reveal_strlit("&chmyth;");
            reveal_strlit("&cloth;");
            assert("&pharm;"@[1] != "&cloth;"@[1]);
            reveal_strlit("&comp;");
            reveal_strlit("&cryst;");
            assert("&pharm;"@[1] != "&cryst;"@[1]);
            reveal_strlit("&dent;");
            reveal_strlit("&ecol;");
            reveal_strlit("&econ;");
            reveal_strlit("&elec;");
            reveal_strlit("&electr;");
            reveal_strlit("&embryo;");
            reveal_strlit("&engr;");
            reveal_strlit("&ent;");
            reveal_strlit("&film;");
            reveal_strlit("&finc;");
            reveal_strlit("&fish;");
            reveal_strlit("&food;");
            reveal_strlit("&gardn;");
            assert("&pharm;"@[1] != "&gardn;"@[1]);
            reveal_strlit("&genet;");
            assert("&pharm;"@[1] != "&genet;"@[1]);
            reveal_strlit("&geogr;");
            assert("&pharm;"@[1] != "&geogr;"@[1]);
            reveal_strlit("&geol;");
            reveal_strlit("&geom;");
            reveal_strlit("&go;");
            reveal_strlit("&golf;");
            reveal_strlit("&gramm;");
            assert("&pharm;"@[1] != "&gramm;"@[1]);
            reveal_strlit("&grmyth;");
            reveal_strlit("&hanaf;");
            assert("&pharm;"@[1] != "&hanaf;"@[1]);
            reveal_strlit("&horse;");
            assert("&pharm;"@[1] != "&horse;"@[1]);
            reveal_strlit("&internet;");
            reveal_strlit("&jpmyth;");
            reveal_strlit("&kabuki;");
            reveal_strlit("&law;");
            reveal_strlit("&ling;");
            reveal_strlit("&logic;");
            assert("&pharm;"@[1] != "&logic;"@[1]);
            reveal_strlit("&MA;");
            reveal_strlit("&mahj;");
            reveal_strlit("&manga;");
            assert("&pharm;"@[1] != "&manga;"@[1]);
            reveal_strlit("&math;");
            reveal_strlit("&mech;");
            reveal_strlit("&med;");
            reveal_strlit("&met;");
            reveal_strlit("&mil;");
            reveal_strlit("&mining;");
            reveal_strlit("&motor;");
            assert("&pharm;"@[1] != "&motor;"@[1]);
            reveal_strlit("&music;");
            assert("&pharm;"@[1] != "&music;"@[1]);
            reveal_strlit("&noh;");
            reveal_strlit("&ornith;");
            reveal_strlit("&paleo;");
            assert("&pharm;"@[2] != "&paleo;"@[2]);
            reveal_strlit("&pathol;");
        },
        Field::Philosophy => {
            reveal_strlit("phil");
            reveal_strlit("&phil;");
            assert("&"@ + "phil"@ + ";"@ =~= "&phil;"@);
            reveal_strlit("&agric;");
            reveal_strlit("&anat;");
            assert("&phil;"@[1] != "&anat;"@[1]);
            reveal_strlit("&archeol;");
            reveal_strlit("&archit;");
            reveal_strlit("&art;");
            reveal_strlit("&astron;");
            reveal_strlit("&audvid;");
            reveal_strlit("&aviat;");
            reveal_strlit("&baseb;");
            reveal_strlit("&biochem;");
            reveal_strlit("&biol;");
            assert("&phil;"@[1] != "&biol;"@[1]);
            reveal_strlit("&bot;");
            reveal_strlit("&boxing;");
            reveal_strlit("&Buddh;");
            reveal_strlit("&bus;");
            reveal_strlit("&cards;");
            reveal_strlit("&chem;");
            assert("&phil;"@[1] != "&chem;"@[1]);
            reveal_strlit("&Christn;");
            reveal_strlit("&civeng;");
            reveal_strlit("&chmyth;");
            reveal_strlit("&cloth;");
            reveal_strlit("&comp;");
            assert("&phil;"@[1] != "&comp;"@[1]);
            reveal_strlit("&cryst;");
            reveal_strlit("&dent;");
            assert("&phil;"@[1] != "&dent;"@[1]);
            reveal_strlit("&ecol;");
            assert("&phil;"@[1] != "&ecol;"@[1]);
            reveal_strlit("&econ;");
            assert("&phil;"@[1] != "&econ;"@[1]);
            reveal_strlit("&elec;");
            assert("&phil;"@[1] != "&elec;"@[1]);
            reveal_strlit("&electr;");
            reveal_strlit("&embryo;");
            reveal_strlit("&engr;");
            assert("&phil;"@[1] != "&engr;"@[1]);
            reveal_strlit("&ent;");
            reveal_strlit("&film;");
            assert("&phil;"@[1] != "&film;"@[1]);
            reveal_strlit("&finc;");
            assert("&phil;"@[1] != "&finc;"@[1]);
            reveal_strlit("&fish;");
            assert("&phil;"@[1] != "&fish;"@[1]);
            reveal_strlit("&food;");
            assert("&phil;"@[1] != "&food;"@[1]);
            reveal_strlit("&gardn;");
            reveal_strlit("&genet;");
            reveal_strlit("&geogr;");
            reveal_strlit("&geol;");
            assert("&phil;"@[1] != "&geol;"@[1]);
            reveal_strlit("&geom;");
            assert("&phil;"@[1] != "&geom;"@[1]);
            reveal_strlit("&go;");
            reveal_strlit("&golf;");
            assert("&phil;"@[1] != "&golf;"@[1]);
            reveal_strlit("&gramm;");
            reveal_strlit("&grmyth;");
            reveal_strlit("&hanaf;");
            reveal_strlit("&horse;");
            reveal_strlit("&internet;");
            reveal_strlit("&jpmyth;");
            reveal_strlit("&kabuki;");
            reveal_strlit("&law;");
            reveal_strlit("&ling;");
            assert("&phil;"@[1] != "&ling;"@[1]);
            reveal_strlit("&logic;");
            reveal_strlit("&MA;");
            reveal_strlit("&mahj;");
            assert("&phil;"@[1] != "&mahj;"@[1]);
            reveal_strlit("&manga;");
            reveal_strlit("&math;");
            assert("&phil;"@[1] != "&math;"@[1]);
            reveal_strlit("&mech;");
            assert("&phil;"@[1] != "&mech;"@[1]);
            reveal_strlit("&med;");
            reveal_strlit("&met;");
            reveal_strlit("&mil;");
            reveal_strlit("&mining;");
            reveal_strlit("&motor;");
            reveal_strlit("&music;");
            reveal_strlit("&noh;");
            reveal_strlit("&ornith;");
            reveal_strlit("&paleo;");
            reveal_strlit("&pathol;");
            reveal_strlit("&pharm;");
        },
        Field::Photo => {
            reveal_strlit("photo");
            reveal_strlit("&photo;");
            assert("&"@ + "photo"@ + ";"@ =~= "&photo;"@);
            reveal_strlit("&agric;");
            assert("&photo;"@[1] != "&agric;"@[1]);
            reveal_strlit("&anat;");
            reveal_strlit("&archeol;");
            reveal_strlit("&archit;");
            reveal_strlit("&art;");
            reveal_strlit("&astron;");
            reveal_strlit("&audvid;");
            reveal_strlit("&aviat;");
            assert("&photo;"@[1] != "&aviat;"@[1]);
            reveal_strlit("&baseb;");
            assert("&photo;"@[1] != "&baseb;"@[1]);
            reveal_strlit("&biochem;");
            reveal_strlit("&biol;");
            reveal_strlit("&bot;");
            reveal_strlit("&boxing;");
            reveal_strlit("&Buddh;");
            assert("&photo;"@[1] != "&Buddh;"@[1]);
            reveal_strlit("&bus;");
            reveal_strlit("&cards;");
            assert("&photo;"@[1] != "&cards;"@[1]);
            reveal_strlit("&chem;");
            reveal_strlit("&Christn;");
            reveal_strlit("&civeng;");
            reveal_strlit("&chmyth;");
            reveal_strlit("&cloth;");
            assert("&photo;"@[1] != "&cloth;"@[1]);
            reveal_strlit("&comp;");
            reveal_strlit("&cryst;");
            assert("&photo;"@[1] != "&cryst;"@[1]);
            reveal_strlit("&dent;");
            reveal_strlit("&ecol;");
            reveal_strlit("&econ;");
            reveal_strlit("&elec;");
            reveal_strlit("&electr;");
            reveal_strlit("&embryo;");
            reveal_strlit("&engr;");
            reveal_strlit("&ent;");
            reveal_strlit("&film;");
            reveal_strlit("&finc;");
            reveal_strlit("&fish;");
            reveal_strlit("&food;");
            reveal_strlit("&gardn;");
            assert("&photo;"@[1] != "&gardn;"@[1]);
            reveal_strlit("&genet;");
            assert("&photo;"@[1] != "&genet;"@[1]);
            reveal_strlit("&geogr;");
            assert("&photo;"@[1] != "&geogr;"@[1]);
            reveal_strlit("&geol;");
            reveal_strlit("&geom;");
            reveal_strlit("&go;");
            reveal_strlit("&golf;");
            reveal_strlit("&gramm;");
            assert("&photo;"@[1] != "&gramm;"@[1]);
            reveal_strlit("&grmyth;");
            reveal_strlit("&hanaf;");
            assert("&photo;"@[1] != "&hanaf;"@[1]);
            reveal_strlit("&horse;");
            assert("&photo;"@[1] != "&horse;"@[1]);
            reveal_strlit("&internet;");
            reveal_strlit("&jpmyth;");
            reveal_strlit("&kabuki;");
            reveal_strlit("&law;");
            reveal_strlit("&ling;");
            reveal_strlit("&logic;");
            assert("&photo;"@[1] != "&logic;"@[1]);
            reveal_strlit("&MA;");
            reveal_strlit("&mahj;");
            reveal_strlit("&manga;");
            assert("&photo;"@[1] != "&manga;"@[1]);
            reveal_strlit("&math;");
            reveal_strlit("&mech;");
            reveal_strlit("&med;");
            reveal_strlit("&met;");
            reveal_strlit("&mil;");
            reveal_strlit("&mining;");
            reveal_strlit("&motor;");
            assert("&photo;"@[1] != "&motor;"@[1]);
            reveal_strlit("&music;");
            assert("&photo;"@[1] != "&music;"@[1]);
            reveal_strlit("&noh;");
            reveal_strlit("&ornith;");
            reveal_strlit("&paleo;");
            assert("&photo;"@[2] != "&paleo;"@[2]);
            reveal_strlit("&pathol;");
            reveal_strlit("&pharm;");
            assert("&photo;"@[3] != "&pharm;"@[3]);
            reveal_strlit("&phil;");
        },
        Field::Physics => {
            reveal_strlit("physics");
            reveal_strlit("&physics;");
            assert("&"@ + "physics"@ + ";"@ =~= "&physics;"@);
            reveal_strlit("&agric;");
            reveal_strlit("&anat;");
            reveal_strlit("&archeol;");
            assert("&physics;"@[1] != "&archeol;"@[1]);
            reveal_strlit("&archit;");
            reveal_strlit("&art;");
            reveal_strlit("&astron;");
            reveal_strlit("&audvid;");
            reveal_strlit("&aviat;");
            reveal_strlit("&baseb;");
            reveal_strlit("&biochem;");
            assert("&physics;"@[1] != "&biochem;"@[1]);
            reveal_strlit("&biol;");
            reveal_strlit("&bot;");
            reveal_strlit("&boxing;");
            reveal_strlit("&Buddh;");
            reveal_strlit("&bus;");
            reveal_strlit("&cards;");
            reveal_strlit("&chem;");
            reveal_strlit("&Christn;");
            assert("&physics;"@[1] != "&Christn;"@[1]);
            reveal_strlit("&civeng;");
            reveal_strlit("&chmyth;");
            reveal_strlit("&cloth;");
            reveal_strlit("&comp;");
            reveal_strlit("&cryst;");
            reveal_strlit("&dent;");
            reveal_strlit("&ecol;");
            reveal_strlit("&econ;");
            reveal_strlit("&elec;");
            reveal_strlit("&electr;");
            reveal_strlit("&embryo;");
            reveal_strlit("&engr;");
            reveal_strlit("&ent;");
            reveal_strlit("&film;");
            reveal_strlit("&finc;");
            reveal_strlit("&fish;");
            reveal_strlit("&food;");
            reveal_strlit("&gardn;");
            reveal_strlit("&genet;");
            reveal_strlit("&geogr;");
            reveal_strlit("&geol;");
            reveal_strlit("&geom;");
            reveal_strlit("&go;");
            reveal_strlit("&golf;");
            reveal_strlit("&gramm;");
            reveal_strlit("&grmyth;");
            reveal_strlit("&hanaf;");
            reveal_strlit("&horse;");
            reveal_strlit("&internet;");
            reveal_strlit("&jpmyth;");
            reveal_strlit("&kabuki;");
            reveal_strlit("&law;");
            reveal_strlit("&ling;");
            reveal_strlit("&logic;");
            reveal_strlit("&MA;");
            reveal_strlit("&mahj;");
            reveal_strlit("&manga;");
            reveal_strlit("&math;");
            reveal_strlit("&mech;");
            reveal_strlit("&med;");
            reveal_strlit("&met;");
            reveal_strlit("&mil;");
            reveal_strlit("&mining;");
            reveal_strlit("&motor;");
            reveal_strlit("&music;");
            reveal_strlit("&noh;");
            reveal_strlit("&ornith;");
            reveal_strlit("&paleo;");
            reveal_strlit("&pathol;");
            reveal_strlit("&pharm;");
            reveal_strlit("&phil;");
            reveal_strlit("&photo;");
        },
        Field::Physiol => {
            reveal_strlit("physiol");
            reveal_strlit("&physiol;");
            assert("&"@ + "physiol"@ + ";"@ =~= "&physiol;"@);
            reveal_strlit("&agric;");
            reveal_strlit("&anat;");
            reveal_strlit("&archeol;");
            assert("&physiol;"@[1] != "&archeol;"@[1]);
            reveal_strlit("&archit;");
            reveal_strlit("&art;");
            reveal_strlit("&astron;");
            reveal_strlit("&audvid;");
            reveal_strlit("&aviat;");
            reveal_strlit("&baseb;");
            reveal_strlit("&biochem;");
            assert("&physiol;"@[1] != "&biochem;"@[1]);
            reveal_strlit("&biol;");
            reveal_strlit("&bot;");
            reveal_strlit("&boxing;");
            reveal_strlit("&Buddh;");
            reveal_strlit("&bus;");
            reveal_strlit("&cards;");
            reveal_strlit("&chem;");
            reveal_strlit("&Christn;");
            assert("&physiol;"@[1] != "&Christn;"@[1]);
            reveal_strlit("&civeng;");
            reveal_strlit("&chmyth;");
            reveal_strlit("&cloth;");
            reveal_strlit("&comp;");
            reveal_strlit("&cryst;");
            reveal_strlit("&dent;");
            reveal_strlit("&ecol;");
            reveal_strlit("&econ;");
            reveal_strlit("&elec;");
            reveal_strlit("&electr;");
            reveal_strlit("&embryo;");
            reveal_strlit("&engr;");
            reveal_strlit("&ent;");
            reveal_strlit("&film;");
            reveal_strlit("&finc;");
            reveal_strlit("&fish;");
            reveal_strlit("&food;");
            reveal_strlit("&gardn;");
            reveal_strlit("&genet;");
            reveal_strlit("&geogr;");
            reveal_strlit("&geol;");
            reveal_strlit("&geom;");
            reveal_strlit("&go;");
            reveal_strlit("&golf;");
            reveal_strlit("&gramm;");
            reveal_strlit("&grmyth;");
            reveal_strlit("&hanaf;");
            reveal_strlit("&horse;");
            reveal_strlit("&internet;");
            reveal_strlit("&jpmyth;");
            reveal_strlit("&kabuki;");
            reveal_strlit("&law;");
            reveal_strlit("&ling;");
            reveal_strlit("&logic;");
            reveal_strlit("&MA;");
            reveal_strlit("&mahj;");
            reveal_strlit("&manga;");
            reveal_strlit("&math;");
            reveal_strlit("&mech;");
            reveal_strlit("&med;");
            reveal_strlit("&met;");
            reveal_strlit("&mil;");
            reveal_strlit("&mining;");
            reveal_strlit("&motor;");
            reveal_strlit("&music;");
            reveal_strlit("&noh;");
            reveal_strlit("&ornith;");
            reveal_strlit("&paleo;");
            reveal_strlit("&pathol;");
            reveal_strlit("&pharm;");
            reveal_strlit("&phil;");
            reveal_strlit("&photo;");
            reveal_strlit("&physics;");
            assert("&physiol;"@[6] != "&physics;"@[6]);
        },
        Field::Politics => {
            reveal_strlit("politics");
            reveal_strlit("&politics;");
            assert("&"@ + "politics"@ + ";"@ =~= "&politics;"@);
            reveal_strlit("&agric;");
            reveal_strlit("&anat;");
            reveal_strlit("&archeol;");
            reveal_strlit("&archit;");
            reveal_strlit("&art;");
            reveal_strlit("&astron;");
            reveal_strlit("&audvid;");
            reveal_strlit("&aviat;");
            reveal_strlit("&baseb;");
            reveal_strlit("&biochem;");
            reveal_strlit("&biol;");
            reveal_strlit("&bot;");
            reveal_strlit("&boxing;");
            reveal_strlit("&Buddh;");
            reveal_strlit("&bus;");
            reveal_strlit("&cards;");
            reveal_strlit("&chem;");
            reveal_strlit("&Christn;");
            reveal_strlit("&civeng;");
            reveal_strlit("&chmyth;");
            reveal_strlit("&cloth;");
            reveal_strlit("&comp;");
            reveal_strlit("&cryst;");
            reveal_strlit("&dent;");
            reveal_strlit("&ecol;");
            reveal_strlit("&econ;");
            reveal_strlit("&elec;");
            reveal_strlit("&electr;");
            reveal_strlit("&embryo;");
            reveal_strlit("&engr;");
            reveal_strlit("&ent;");
            reveal_strlit("&film;");
            reveal_strlit("&finc;");
            reveal_strlit("&fish;");
            reveal_strlit("&food;");
            reveal_strlit("&gardn;");
            reveal_strlit("&genet;");
            reveal_strlit("&geogr;");
            reveal_strlit("&geol;");
            reveal_strlit("&geom;");
            reveal_strlit("&go;");
            reveal_strlit("&golf;");
            reveal_strlit("&gramm;");
            reveal_strlit("&grmyth;");
            reveal_strlit("&hanaf;");
            reveal_strlit("&horse;");
            reveal_strlit("&internet;");
            assert("&politics;"@[1] != "&internet;"@[1]);
            reveal_strlit("&jpmyth;");
            reveal_strlit("&kabuki;");
            reveal_strlit("&law;");
            reveal_strlit("&ling;");
            reveal_strlit("&logic;");
            reveal_strlit("&MA;");
            reveal_strlit("&mahj;");
            reveal_strlit("&manga;");
            reveal_strlit("&math;");
            reveal_strlit("&mech;");
            reveal_strlit("&med;");
            reveal_strlit("&met;");
            reveal_strlit("&mil;");
            reveal_strlit("&mining;");
            reveal_strlit("&motor;");
            reveal_strlit("&music;");
            reveal_strlit("&noh;");
            reveal_strlit("&ornith;");
            reveal_strlit("&paleo;");
            reveal_strlit("&pathol;");
            reveal_strlit("&pharm;");
            reveal_strlit("&phil;");
            reveal_strlit("&photo;");
            reveal_strlit("&physics;");
            reveal_strlit("&physiol;");
        },
        Field::Print => {
            reveal_strlit("print");
            reveal_strlit("&print;");
            assert("&"@ + "print"@ + ";"@ =~= "&print;"@);
            reveal_strlit("&agric;");
            assert("&print;"@[1] != "&agric;"@[1]);
            reveal_strlit("&anat;");
            reveal_strlit("&archeol;");
            reveal_strlit("&archit;");
            reveal_strlit("&art;");
            reveal_strlit("&astron;");
            reveal_strlit("&audvid;");
            reveal_strlit("&aviat;");
            assert("&print;"@[1] != "&aviat;"@[1]);
            reveal_strlit("&baseb;");
            assert("&print;"@[1] != "&baseb;"@[1]);
            reveal_strlit("&biochem;");
            reveal_strlit("&biol;");
            reveal_strlit("&bot;");
            reveal_strlit("&boxing;");
            reveal_strlit("&Buddh;");
            assert("&print;"@[1] != "&Buddh;"@[1]);
            reveal_strlit("&bus;");
            reveal_strlit("&cards;");
            assert("&print;"@[1] != "&cards;"@[1]);
            reveal_strlit("&chem;");
            reveal_strlit("&Christn;");
            reveal_strlit("&civeng;");
            reveal_strlit("&chmyth;");
            reveal_strlit("&cloth;");
            assert("&print;"@[1] != "&cloth;"@[1]);
            reveal_strlit("&comp;");
            reveal_strlit("&cryst;");
            assert("&print;"@[1] != "&cryst;"@[1]);
            reveal_strlit("&dent;");
            reveal_strlit("&ecol;");
            reveal_strlit("&econ;");
            reveal_strlit("&elec;");
            reveal_strlit("&electr;");
            reveal_strlit("&embryo;");
            reveal_strlit("&engr;");
            reveal_strlit("&ent;");
            reveal_strlit("&film;");
            reveal_strlit("&finc;");
            reveal_strlit("&fish;");
            reveal_strlit("&food;");
            reveal_strlit("&gardn;");
            assert("&print;"@[1] != "&gardn;"@[1]);
            reveal_strlit("&genet;");
            assert("&print;"@[1] != "&genet;"@[1]);
            reveal_strlit("&geogr;");
            assert("&print;"@[1] != "&geogr;"@[1]);
            reveal_strlit("&geol;");
            reveal_strlit("&geom;");
            reveal_strlit("&go;");
            reveal_strlit("&golf;");
            reveal_strlit("&gramm;");
            assert("&print;"@[1] != "&gramm;"@[1]);
            reveal_strlit("&grmyth;");
            reveal_strlit("&hanaf;");
            assert("&print;"@[1] != "&hanaf;"@[1]);
            reveal_strlit("&horse;");
            assert("&print;"@[1] != "&horse;"@[1]);
            reveal_strlit("&internet;");
            reveal_strlit("&jpmyth;");
            reveal_strlit("&kabuki;");
            reveal_strlit("&law;");
            reveal_strlit("&ling;");
            reveal_strlit("&logic;");
            assert("&print;"@[1] != "&logic;"@[1]);
            reveal_strlit("&MA;");
            reveal_strlit("&mahj;");
            reveal_strlit("&manga;");
            assert("&print;"@[1] != "&manga;"@[1]);
            reveal_strlit("&math;");
            reveal_strlit("&mech;");
            reveal_strlit("&med;");
            reveal_strlit("&met;");
            reveal_strlit("&mil;");
            reveal_strlit("&mining;");
            reveal_strlit("&motor;");
            assert("&print;"@[1] != "&motor;"@[1]);
            reveal_strlit("&music;");
            assert("&print;"@[1] != "&music;"@[1]);
            reveal_strlit("&noh;");
            reveal_strlit("&ornith;");
            reveal_strlit("&paleo;");
            assert("&print;"@[2] != "&paleo;"@[2]);
            reveal_strlit("&pathol;");
            reveal_strlit("&pharm;");
            assert("&print;"@[2] != "&pharm;"@[2]);
            reveal_strlit("&phil;");
            reveal_strlit("&photo;");
            assert("&print;"@[2] != "&photo;"@[2]);
            reveal_strlit("&physics;");
            reveal_strlit("&physiol;");
            reveal_strlit("&politics;");
        },
        Field::ProwRes => {
            reveal_strlit("prowres");
            reveal_strlit("&prowres;");
            assert("&"@ + "prowres"@ + ";"@ =~= "&prowres;"@);
            reveal_strlit("&agric;");
            reveal_strlit("&anat;");
            reveal_strlit("&archeol;");
            assert("&prowres;"@[1] != "&archeol;"@[1]);
            reveal_strlit("&archit;");
            reveal_strlit("&art;");
            reveal_strlit("&astron;");
            reveal_strlit("&audvid;");
            reveal_strlit("&aviat;");
            reveal_strlit("&baseb;");
            reveal_strlit("&biochem;");
            assert("&prowres;"@[1] != "&biochem;"@[1]);
            reveal_strlit("&biol;");
            reveal_strlit("&bot;");
            reveal_strlit("&boxing;");
            reveal_strlit("&Buddh;");
            reveal_strlit("&bus;");
            reveal_strlit("&cards;");
            reveal_strlit("&chem;");
            reveal_strlit("&Christn;");
            assert("&prowres;"@[1] != "&Christn;"@[1]);
            reveal_strlit("&civeng;");
            reveal_strlit("&chmyth;");
            reveal_strlit("&cloth;");
            reveal_strlit("&comp;");
            reveal_strlit("&cryst;");
            reveal_strlit("&dent;");
            reveal_strlit("&ecol;");
            reveal_strlit("&econ;");
            reveal_strlit("&elec;");
            reveal_strlit("&electr;");
            reveal_strlit("&embryo;");
            reveal_strlit("&engr;");
            reveal_strlit("&ent;");
            reveal_strlit("&film;");
            reveal_strlit("&finc;");
            reveal_strlit("&fish;");
            reveal_strlit("&food;");
            reveal_strlit("&gardn;");
            reveal_strlit("&genet;");
            reveal_strlit("&geogr;");
            reveal_strlit("&geol;");
            reveal_strlit("&geom;");
            reveal_strlit("&go;");
            reveal_strlit("&golf;");
            reveal_strlit("&gramm;");
            reveal_strlit("&grmyth;");
            reveal_strlit("&hanaf;");
            reveal_strlit("&horse;");
            reveal_strlit("&internet;");
            reveal_strlit("&jpmyth;");
            reveal_strlit("&kabuki;");
            reveal_strlit("&law;");
            reveal_strlit("&ling;");
            reveal_strlit("&logic;");
            reveal_strlit("&MA;");
            reveal_strlit("&mahj;");
            reveal_strlit("&manga;");
            reveal_strlit("&math;");
            reveal_strlit("&mech;");
            reveal_strlit("&med;");
            reveal_strlit("&met;");
            reveal_strlit("&mil;");
            reveal_strlit("&mining;");
            reveal_strlit("&motor;");
            reveal_strlit("&music;");
            reveal_strlit("&noh;");
            reveal_strlit("&ornith;");
            reveal_strlit("&paleo;");
            reveal_strlit("&pathol;");
            reveal_strlit("&pharm;");
            reveal_strlit("&phil;");
            reveal_strlit("&photo;");
            reveal_strlit("&physics;");
            assert("&prowres;"@[2] != "&physics;"@[2]);
            reveal_strlit("&physiol;");
            assert("&prowres;"@[2] != "&physiol;"@[2]);
            reveal_strlit("&politics;");
            reveal_strlit("&print;");
        },
        Field::Psychatry => {
            reveal_strlit("psy");
            reveal_strlit("&psy;");
            assert("&"@ + "psy"@ + ";"@ =~= "&psy;"@);
            reveal_strlit("&agric;");
            reveal_strlit("&anat;");
            reveal_strlit("&archeol;");
            reveal_strlit("&archit;");
            reveal_strlit("&art;");
            assert("&psy;"@[1] != "&art;"@[1]);
            reveal_strlit("&astron;");
            reveal_strlit("&audvid;");
            reveal_strlit("&aviat;");
            reveal_strlit("&baseb;");
            reveal_strlit("&biochem;");
            reveal_strlit("&biol;");
            reveal_strlit("&bot;");
            assert("&psy;"@[1] != "&bot;"@[1]);
            reveal_strlit("&boxing;");
            reveal_strlit("&Buddh;");
            reveal_strlit("&bus;");
            assert("&psy;"@[1] != "&bus;"@[1]);
            reveal_strlit("&cards;");
            reveal_strlit("&chem;");
            reveal_strlit("&Christn;");
            reveal_strlit("&civeng;");
            reveal_strlit("&chmyth;");
            reveal_strlit("&cloth;");
            reveal_strlit("&comp;");
            reveal_strlit("&cryst;");
            reveal_strlit("&dent;");
            reveal_strlit("&ecol;");
            reveal_strlit("&econ;");
            reveal_strlit("&elec;");
            reveal_strlit("&electr;");
            reveal_strlit("&embryo;");
            reveal_strlit("&engr;");
            reveal_strlit("&ent;");
            assert("&psy;"@[1] != "&ent;"@[1]);
            reveal_strlit("&film;");
            reveal_strlit("&finc;");
            reveal_strlit("&fish;");
            reveal_strlit("&food;");
            reveal_strlit("&gardn;");
            reveal_strlit("&genet;");
            reveal_strlit("&geogr;");
            reveal_strlit("&geol;");
            reveal_strlit("&geom;");
            reveal_strlit("&go;");
            reveal_strlit("&golf;");
            reveal_strlit("&gramm;");
            reveal_strlit("&grmyth;");
            reveal_strlit("&hanaf;");
            reveal_strlit("&horse;");
            reveal_strlit("&internet;");
            reveal_strlit("&jpmyth;");
            reveal_strlit("&kabuki;");
            reveal_strlit("&law;");
            assert("&psy;"@[1] != "&law;"@[1]);
            reveal_strlit("&ling;");
            reveal_strlit("&logic;");
            reveal_strlit("&MA;");
            reveal_strlit("&mahj;");
            reveal_strlit("&manga;");
            reveal_strlit("&math;");
            reveal_strlit("&mech;");
            reveal_strlit("&med;");
            assert("&psy;"@[1] != "&med;"@[1]);
            reveal_strlit("&met;");
            assert("&psy;"@[1] != "&met;"@[1]);
            reveal_strlit("&mil;");
            assert("&psy;"@[1] != "&mil;"@[1]);
            reveal_strlit("&mining;");
            reveal_strlit("&motor;");
            reveal_strlit("&music;");
            reveal_strlit("&noh;");
            assert("&psy;"@[1] != "&noh;"@[1]);
            reveal_strlit("&ornith;");
            reveal_strlit("&paleo;");
            reveal_strlit("&pathol;");
            reveal_strlit("&pharm;");
            reveal_strlit("&phil;");
            reveal_strlit("&photo;");
            reveal_strlit("&physics;");
            reveal_strlit("&physiol;");
            reveal_strlit("&politics;");
            reveal_strlit("&print;");
            reveal_strlit("&prowres;");
        },
        Field::Psyanal => {
            reveal_strlit("psyanal");
            reveal_strlit("&psyanal;");
            assert("&"@ + "psyanal"@ + ";"@ =~= "&psyanal;"@);
            reveal_strlit("&agric;");
            reveal_strlit("&anat;");
            reveal_strlit("&archeol;");
            assert("&psyanal;"@[1] != "&archeol;"@[1]);
            reveal_strlit("&archit;");
            reveal_strlit("&art;");
            reveal_strlit("&astron;");
            reveal_strlit("&audvid;");
            reveal_strlit("&aviat;");
            reveal_strlit("&baseb;");
            reveal_strlit("&biochem;");
            assert("&psyanal;"@[1] != "&biochem;"@[1]);
            reveal_strlit("&biol;");
            reveal_strlit("&bot;");
            reveal_strlit("&boxing;");
            reveal_strlit("&Buddh;");
            reveal_strlit("&bus;");
            reveal_strlit("&cards;");
            reveal_strlit("&chem;");
            reveal_strlit("&Christn;");
            assert("&psyanal;"@[1] != "&Christn;"@[1]);
            reveal_strlit("&civeng;");
            reveal_strlit("&chmyth;");
            reveal_strlit("&cloth;");
            reveal_strlit("&comp;");
            reveal_strlit("&cryst;");
            reveal_strlit("&dent;");
            reveal_strlit("&ecol;");
            reveal_strlit("&econ;");
            reveal_strlit("&elec;");
            reveal_strlit("&electr;");
            reveal_strlit("&embryo;");
            reveal_strlit("&engr;");
            reveal_strlit("&ent;");
            reveal_strlit("&film;");
            reveal_strlit("&finc;");
            reveal_strlit("&fish;");
            reveal_strlit("&food;");
            reveal_strlit("&gardn;");
            reveal_strlit("&genet;");
            reveal_strlit("&geogr;");
            reveal_strlit("&geol;");
            reveal_strlit("&geom;");
            reveal_strlit("&go;");
            reveal_strlit("&golf;");
            reveal_strlit("&gramm;");
            reveal_strlit("&grmyth;");
            reveal_strlit("&hanaf;");
            reveal_strlit("&horse;");
            reveal_strlit("&internet;");
            reveal_strlit("&jpmyth;");
            reveal_strlit("&kabuki;");
            reveal_strlit("&law;");
            reveal_strlit("&ling;");
            reveal_strlit("&logic;");
            reveal_strlit("&MA;");
            reveal_strlit("&mahj;");
            reveal_strlit("&manga;");
            reveal_strlit("&math;");
            reveal_strlit("&mech;");
            reveal_strlit("&med;");
            reveal_strlit("&met;");
            reveal_strlit("&mil;");
            reveal_strlit("&mining;");
            reveal_strlit("&motor;");
            reveal_strlit("&music;");
            reveal_strlit("&noh;");
            reveal_strlit("&ornith;");
            reveal_strlit("&paleo;");
            reveal_strlit("&pathol;");
            reveal_strlit("&pharm;");
            reveal_strlit("&phil;");
            reveal_strlit("&photo;");
            reveal_strlit("&physics;");
            assert("&psyanal;"@[2] != "&physics;"@[2]);
            reveal_strlit("&physiol;");
            assert("&psyanal;"@[2] != "&physiol;"@[2]);
            reveal_strlit("&politics;");
            reveal_strlit("&print;");
            reveal_strlit("&prowres;");
            assert("&psyanal;"@[2] != "&prowres;"@[2]);
            reveal_strlit("&psy;");
        },
        Field::Psychology => {
            reveal_strlit("psych");
            reveal_strlit("&psych;");
            assert("&"@ + "psych"@ + ";"@ =~= "&psych;"@);
            reveal_strlit("&agric;");
            assert("&psych;"@[1] != "&agric;"@[1]);
            reveal_strlit("&anat;");
            reveal_strlit("&archeol;");
            reveal_strlit("&archit;");
            reveal_strlit("&art;");
            reveal_strlit("&astron;");
            reveal_strlit("&audvid;");
            reveal_strlit("&aviat;");
            assert("&psych;"@[1] != "&aviat;"@[1]);
            reveal_strlit("&baseb;");
            assert("&psych;"@[1] != "&baseb;"@[1]);
            reveal_strlit("&biochem;");
            reveal_strlit("&biol;");
            reveal_strlit("&bot;");
            reveal_strlit("&boxing;");
            reveal_strlit("&Buddh;");
            assert("&psych;"@[1] != "&Buddh;"@[1]);
            reveal_strlit("&bus;");
            reveal_strlit("&cards;");
            assert("&psych;"@[1] != "&cards;"@[1]);
            reveal_strlit("&chem;");
            reveal_strlit("&Christn;");
            reveal_strlit("&civeng;");
            reveal_strlit("&chmyth;");
            reveal_strlit("&cloth;");
            assert("&psych;"@[1] != "&cloth;"@[1]);
            reveal_strlit("&comp;");
            reveal_strlit("&cryst;");
            assert("&psych;"@[1] != "&cryst;"@[1]);
            reveal_strlit("&dent;");
            reveal_strlit("&ecol;");
            reveal_strlit("&econ;");
            reveal_strlit("&elec;");
            reveal_strlit("&electr;");
            reveal_strlit("&embryo;");
            reveal_strlit("&engr;");
            reveal_strlit("&ent;");
            reveal_strlit("&film;");
            reveal_strlit("&finc;");
            reveal_strlit("&fish;");
            reveal_strlit("&food;");
            reveal_strlit("&gardn;");
            assert("&psych;"@[1] != "&gardn;"@[1]);
            reveal_strlit("&genet;");
            assert("&psych;"@[1] != "&genet;"@[1]);
            reveal_strlit("&geogr;");
            assert("&psych;"@[1] != "&geogr;"@[1]);
            reveal_strlit("&geol;");
            reveal_strlit("&geom;");
            reveal_strlit("&go;");
            reveal_strlit("&golf;");
            reveal_strlit("&gramm;");
            assert("&psych;"@[1] != "&gramm;"@[1]);
            reveal_strlit("&grmyth;");
            reveal_strlit("&hanaf;");
            assert("&psych;"@[1] != "&hanaf;"@[1]);
            reveal_strlit("&horse;");
            assert("&psych;"@[1] != "&horse;"@[1]);
            reveal_strlit("&internet;");
            reveal_strlit("&jpmyth;");
            reveal_strlit("&kabuki;");
            reveal_strlit("&law;");
            reveal_strlit("&ling;");
            reveal_strlit("&logic;");
            assert("&psych;"@[1] != "&logic;"@[1]);
            reveal_strlit("&MA;");
            reveal_strlit("&mahj;");
            reveal_strlit("&manga;");
            assert("&psych;"@[1] != "&manga;"@[1]);
            reveal_strlit("&math;");
            reveal_strlit("&mech;");
            reveal_strlit("&med;");
            reveal_strlit("&met;");
            reveal_strlit("&mil;");
            reveal_strlit("&mining;");
            reveal_strlit("&motor;");
            assert("&psych;"@[1] != "&motor;"@[1]);
            reveal_strlit("&music;");
            assert("&psych;"@[1] != "&music;"@[1]);
            reveal_strlit("&noh;");
            reveal_strlit("&ornith;");
            reveal_strlit("&paleo;");
            assert("&psych;"@[2] != "&paleo;"@[2]);
            reveal_strlit("&pathol;");
            reveal_strlit("&pharm;");
            assert("&psych;"@[2] != "&pharm;"@[2]);
            reveal_strlit("&phil;");
            reveal_strlit("&photo;");
            assert("&psych;"@[2] != "&photo;"@[2]);
            reveal_strlit("&physics;");
            reveal_strlit("&physiol;");
            reveal_strlit("&politics;");
            reveal_strlit("&print;");
            assert("&psych;"@[2] != "&print;"@[2]);
            reveal_strlit("&prowres;");
            reveal_strlit("&psy;");
            reveal_strlit("&psyanal;");
        },
        Field::Railway => {
            reveal_strlit("rail");
            reveal_strlit("&rail;");
            assert("&"@ + "rail"@ + ";"@ =~= "&rail;"@);
            reveal_strlit("&agric;");
            reveal_strlit("&anat;");
            assert("&rail;"@[1] != "&anat;"@[1]);
            reveal_strlit("&archeol;");
            reveal_strlit("&archit;");
            reveal_strlit("&art;");
            reveal_strlit("&astron;");
            reveal_strlit("&audvid;");
            reveal_strlit("&aviat;");
            reveal_strlit("&baseb;");
            reveal_strlit("&biochem;");
            reveal_strlit("&biol;");
            assert("&rail;"@[1] != "&biol;"@[1]);
            reveal_strlit("&bot;");
            reveal_strlit("&boxing;");
            reveal_strlit("&Buddh;");
            reveal_strlit("&bus;");
            reveal_strlit("&cards;");
            reveal_strlit("&chem;");
            assert("&rail;"@[1] != "&chem;"@[1]);
            reveal_strlit("&Christn;");
            reveal_strlit("&civeng;");
            reveal_strlit("&chmyth;");
            reveal_strlit("&cloth;");
            reveal_strlit("&comp;");
            assert("&rail;"@[1] != "&comp;"@[1]);
            reveal_strlit("&cryst;");
            reveal_strlit("&dent;");
            assert("&rail;"@[1] != "&dent;"@[1]);
            reveal_strlit("&ecol;");
            assert("&rail;"@[1] != "&ecol;"@[1]);
            reveal_strlit("&econ;");
            assert("&rail;"@[1] != "&econ;"@[1]);
            reveal_strlit("&elec;");
            assert("&rail;"@[1] != "&elec;"@[1]);
            reveal_strlit("&electr;");
            reveal_strlit("&embryo;");
            reveal_strlit("&engr;");
            assert("&rail;"@[1] != "&engr;"@[1]);
            reveal_strlit("&ent;");
            reveal_strlit("&film;");
            assert("&rail;"@[1] != "&film;"@[1]);
            reveal_strlit("&finc;");
            assert("&rail;"@[1] != "&finc;"@[1]);
            reveal_strlit("&fish;");
            assert("&rail;"@[1] != "&fish;"@[1]);
            reveal_strlit("&food;");
            assert("&rail;"@[1] != "&food;"@[1]);
            reveal_strlit("&gardn;");
            reveal_strlit("&genet;");
            reveal_strlit("&geogr;");
            reveal_strlit("&geol;");
            assert("&rail;"@[1] != "&geol;"@[1]);
            reveal_strlit("&geom;");
            assert("&rail;"@[1] != "&geom;"@[1]);
            reveal_strlit("&go;");
            reveal_strlit("&golf;");
            assert("&rail;"@[1] != "&golf;"@[1]);
            reveal_strlit("&gramm;");
            reveal_strlit("&grmyth;");
            reveal_strlit("&hanaf;");
            reveal_strlit("&horse;");
            reveal_strlit("&internet;");
            reveal_strlit("&jpmyth;");
            reveal_strlit("&kabuki;");
            reveal_strlit("&law;");
            reveal_strlit("&ling;");
            assert("&rail;"@[1] != "&ling;"@[1]);
            reveal_strlit("&logic;");
            reveal_strlit("&MA;");
            reveal_strlit("&mahj;");
            assert("&rail;"@[1] != "&mahj;"@[1]);
            reveal_strlit("&manga;");
            reveal_strlit("&math;");
            assert("&rail;"@[1] != "&math;"@[1]);
            reveal_strlit("&mech;");
            assert("&rail;"@[1] != "&mech;"@[1]);
            reveal_strlit("&med;");
            reveal_strlit("&met;");
            reveal_strlit("&mil;");
            reveal_strlit("&mining;");
            reveal_strlit("&motor;");
            reveal_strlit("&music;");
            reveal_strlit("&noh;");
            reveal_strlit("&ornith;");
            reveal_strlit("&paleo;");
            reveal_strlit("&pathol;");
            reveal_strlit("&pharm;");
            reveal_strlit("&phil;");
            assert("&rail;"@[1] != "&phil;"@[1]);
            reveal_strlit("&photo;");
            reveal_strlit("&physics;");
            reveal_strlit("&physiol;");
            reveal_strlit("&politics;");
            reveal_strlit("&print;");
            reveal_strlit("&prowres;");
            reveal_strlit("&psy;");
            reveal_strlit("&psyanal;");
            reveal_strlit("&psych;");
        },
        Field::RomanMythology => {
            reveal_strlit("rommyth");
            reveal_strlit("&rommyth;");
            assert("&"@ + "rommyth"@ + ";"@ =~= "&rommyth;"@);
            reveal_strlit("&agric;");
            reveal_strlit("&anat;");
            reveal_strlit("&archeol;");
            assert("&rommyth;"@[1] != "&archeol;"@[1]);
            reveal_strlit("&archit;");
            reveal_strlit("&art;");
            reveal_strlit("&astron;");
            reveal_strlit("&audvid;");
            reveal_strlit("&aviat;");
            reveal_strlit("&baseb;");
            reveal_strlit("&biochem;");
            assert("&rommyth;"@[1] != "&biochem;"@[1]);
            reveal_strlit("&biol;");
            reveal_strlit("&bot;");
            reveal_strlit("&boxing;");
            reveal_strlit("&Buddh;");
            reveal_strlit("&bus;");
            reveal_strlit("&cards;");
            reveal_strlit("&chem;");
            reveal_strlit("&Christn;");
            assert("&rommyth;"@[1] != "&Christn;"@[1]);
            reveal_strlit("&civeng;");
            reveal_strlit("&chmyth;");
            reveal_strlit("&cloth;");
            reveal_strlit("&comp;");
            reveal_strlit("&cryst;");
            reveal_strlit("&dent;");
            reveal_strlit("&ecol;");
            reveal_strlit("&econ;");
            reveal_strlit("&elec;");
            reveal_strlit("&electr;");
            reveal_strlit("&embryo;");
            reveal_strlit("&engr;");
            reveal_strlit("&ent;");
            reveal_strlit("&film;");
            reveal_strlit("&finc;");
            reveal_strlit("&fish;");
            reveal_strlit("&food;");
            reveal_strlit("&gardn;");
            reveal_strlit("&genet;");
            reveal_strlit("&geogr;");
            reveal_strlit("&geol;");
            reveal_strlit("&geom;");
            reveal_strlit("&go;");
            reveal_strlit("&golf;");
            reveal_strlit("&gramm;");
            reveal_strlit("&grmyth;");
            reveal_strlit("&hanaf;");
            reveal_strlit("&horse;");
            reveal_strlit("&internet;");
            reveal_strlit("&jpmyth;");
            reveal_strlit("&kabuki;");
            reveal_strlit("&law;");
            reveal_strlit("&ling;");
            reveal_strlit("&logic;");
            reveal_strlit("&MA;");
            reveal_strlit("&mahj;");
            reveal_strlit("&manga;");
            reveal_strlit("&math;");
            reveal_strlit("&mech;");
            reveal_strlit("&med;");
            reveal_strlit("&met;");
            reveal_strlit("&mil;");
            reveal_strlit("&mining;");
            reveal_strlit("&motor;");
            reveal_strlit("&music;");
            reveal_strlit("&noh;");
            reveal_strlit("&ornith;");
            reveal_strlit("&paleo;");
            reveal_strlit("&pathol;");
            reveal_strlit("&pharm;");
            reveal_strlit("&phil;");
            reveal_strlit("&photo;");
            reveal_strlit("&physics;");
            assert("&rommyth;"@[1] != "&physics;"@[1]);
            reveal_strlit("&physiol;");
            assert("&rommyth;"@[1] != "&physiol;"@[1]);
            reveal_strlit("&politics;");
            reveal_strlit("&print;");
            reveal_strlit("&prowres;");
            assert("&rommyth;"@[1] != "&prowres;"@[1]);
            reveal_strlit("&psy;");
            reveal_strlit("&psyanal;");
            assert("&rommyth;"@[1] != "&psyanal;"@[1]);
            reveal_strlit("&psych;");
            reveal_strlit("&rail;");
        },
        Field::Shinto => {
            reveal_strlit("Shinto");
            reveal_strlit("&Shinto;");
            assert("&"@ + "Shinto"@ + ";"@ =~= "&Shinto;"@);
            reveal_strlit("&agric;");
            reveal_strlit("&anat;");
            reveal_strlit("&archeol;");
            reveal_strlit("&archit;");
            assert("&Shinto;"@[1] != "&archit;"@[1]);
            reveal_strlit("&art;");
            reveal_strlit("&astron;");
            assert("&Shinto;"@[1] != "&astron;"@[1]);
            reveal_strlit("&audvid;");
            assert("&Shinto;"@[1] != "&audvid;"@[1]);
            reveal_strlit("&aviat;");
            reveal_strlit("&baseb;");
            reveal_strlit("&biochem;");
            reveal_strlit("&biol;");
            reveal_strlit("&bot;");
            reveal_strlit("&boxing;");
            assert("&Shinto;"@[1] != "&boxing;"@[1]);
            reveal_strlit("&Buddh;");
            reveal_strlit("&bus;");
            reveal_strlit("&cards;");
            reveal_strlit("&chem;");
            reveal_strlit("&Christn;");
            reveal_strlit("&civeng;");
            assert("&Shinto;"@[1] != "&civeng;"@[1]);
            reveal_strlit("&chmyth;");
            assert("&Shinto;"@[1] != "&chmyth;"@[1]);
            reveal_strlit("&cloth;");
            reveal_strlit("&comp;");
            reveal_strlit("&cryst;");
            reveal_strlit("&dent;");
            reveal_strlit("&ecol;");
            reveal_strlit("&econ;");
            reveal_strlit("&elec;");
            reveal_strlit("&electr;");
            assert("&Shinto;"@[1] != "&electr;"@[1]);
            reveal_strlit("&embryo;");
            assert("&Shinto;"@[1] != "&embryo;"@[1]);
            reveal_strlit("&engr;");
            reveal_strlit("&ent;");
            reveal_strlit("&film;");
            reveal_strlit("&finc;");
            reveal_strlit("&fish;");
            reveal_strlit("&food;");
            reveal_strlit("&gardn;");
            reveal_strlit("&genet;");
            reveal_strlit("&geogr;");
            reveal_strlit("&geol;");
            reveal_strlit("&geom;");
            reveal_strlit("&go;");
            reveal_strlit("&golf;");
            reveal_strlit("&gramm;");
            reveal_strlit("&grmyth;");
            assert("&Shinto;"@[1] != "&grmyth;"@[1]);
            reveal_strlit("&hanaf;");
            reveal_strlit("&horse;");
            reveal_strlit("&internet;");
            reveal_strlit("&jpmyth;");
            assert("&Shinto;"@[1] != "&jpmyth;"@[1]);
            reveal_strlit("&kabuki;");
            assert("&Shinto;"@[1] != "&kabuki;"@[1]);
            reveal_strlit("&law;");
            reveal_strlit("&ling;");
            reveal_strlit("&logic;");
            reveal_strlit("&MA;");
            reveal_strlit("&mahj;");
            reveal_strlit("&manga;");
            reveal_strlit("&math;");
            reveal_strlit("&mech;");
            reveal_strlit("&med;");
            reveal_strlit("&met;");
            reveal_strlit("&mil;");
            reveal_strlit("&mining;");
            assert("&Shinto;"@[1] != "&mining;"@[1]);
            reveal_strlit("&motor;");
            reveal_strlit("&music;");
            reveal_strlit("&noh;");
            reveal_strlit("&ornith;");
            assert("&Shinto;"@[1] != "&ornith;"@[1]);
            reveal_strlit("&paleo;");
            reveal_strlit("&pathol;");
            assert("&Shinto;"@[1] != "&pathol;"@[1]);
            reveal_strlit("&pharm;");
            reveal_strlit("&phil;");
            reveal_strlit("&photo;");
            reveal_strlit("&physics;");
            reveal_strlit("&physiol;");
            reveal_strlit("&politics;");
            reveal_strlit("&print;");
            reveal_strlit("&prowres;");
            reveal_strlit("&psy;");
            reveal_strlit("&psyanal;");
            reveal_strlit("&psych;");
            reveal_strlit("&rail;");
            reveal_strlit("&rommyth;");
        },
        Field::Shogi => {
            reveal_strlit("shogi");
            reveal_strlit("&shogi;");
            assert("&"@ + "shogi"@ + ";"@ =~= "&shogi;"@);
            reveal_strlit("&agric;");
            assert("&shogi;"@[1] != "&agric;"@[1]);
            reveal_strlit("&anat;");
            reveal_strlit("&archeol;");
            reveal_strlit("&archit;");
            reveal_strlit("&art;");
            reveal_strlit("&astron;");
            reveal_strlit("&audvid;");
            reveal_strlit("&aviat;");
            assert("&shogi;"@[1] != "&aviat;"@[1]);
            reveal_strlit("&baseb;");
            assert("&shogi;"@[1] != "&baseb;"@[1]);
            reveal_strlit("&biochem;");
            reveal_strlit("&biol;");
            reveal_strlit("&bot;");
            reveal_strlit("&boxing;");
            reveal_strlit("&Buddh;");
            assert("&shogi;"@[1] != "&Buddh;"@[1]);
            reveal_strlit("&bus;");
            reveal_strlit("&cards;");
            assert("&shogi;"@[1] != "&cards;"@[1]);
            reveal_strlit("&chem;");
            reveal_strlit("&Christn;");
            reveal_strlit("&civeng;");
            reveal_strlit("&chmyth;");
            reveal_strlit("&cloth;");
            assert("&shogi;"@[1] != "&cloth;"@[1]);
            reveal_strlit("&comp;");
            reveal_strlit("&cryst;");
            assert("&shogi;"@[1] != "&cryst;"@[1]);
            reveal_strlit("&dent;");
            reveal_strlit("&ecol;");
            reveal_strlit("&econ;");
            reveal_strlit("&elec;");
            reveal_strlit("&electr;");
            reveal_strlit("&embryo;");
            reveal_strlit("&engr;");
            reveal_strlit("&ent;");
            reveal_strlit("&film;");
            reveal_strlit("&finc;");
            reveal_strlit("&fish;");
            reveal_strlit("&food;");
            reveal_strlit("&gardn;");
            assert("&shogi;"@[1] != "&gardn;"@[1]);
            reveal_strlit("&genet;");
            assert("&shogi;"@[1] != "&genet;"@[1]);
            reveal_strlit("&geogr;");
            assert("&shogi;"@[1] != "&geogr;"@[1]);
            reveal_strlit("&geol;");
            reveal_strlit("&geom;");
            reveal_strlit("&go;");
            reveal_strlit("&golf;");
            reveal_strlit("&gramm;");
            assert("&shogi;"@[1] != "&gramm;"@[1]);
            reveal_strlit("&grmyth;");
            reveal_strlit("&hanaf;");
            assert("&shogi;"@[1] != "&hanaf;"@[1]);
            reveal_strlit("&horse;");
            assert("&shogi;"@[1] != "&horse;"@[1]);
            reveal_strlit("&internet;");
            reveal_strlit("&jpmyth;");
            reveal_strlit("&kabuki;");
            reveal_strlit("&law;");
            reveal_strlit("&ling;");
            reveal_strlit("&logic;");
            assert("&shogi;"@[1] != "&logic;"@[1]);
            reveal_strlit("&MA;");
            reveal_strlit("&mahj;");
            reveal_strlit("&manga;");
            assert("&shogi;"@[1] != "&manga;"@[1]);
            reveal_strlit("&math;");
            reveal_strlit("&mech;");
            reveal_strlit("&med;");
            reveal_strlit("&met;");
            reveal_strlit("&mil;");
            reveal_strlit("&mining;");
            reveal_strlit("&motor;");
            assert("&shogi;"@[1] != "&motor;"@[1]);
            reveal_strlit("&music;");
            assert("&shogi;"@[1] != "&music;"@[1]);
            reveal_strlit("&noh;");
            reveal_strlit("&ornith;");
            reveal_strlit("&paleo;");
            assert("&shogi;"@[1] != "&paleo;"@[1]);
            reveal_strlit("&pathol;");
            reveal_strlit("&pharm;");
            assert("&shogi;"@[1] != "&pharm;"@[1]);
            reveal_strlit("&phil;");
            reveal_strlit("&photo;");
            assert("&shogi;"@[1] != "&photo;"@[1]);
            reveal_strlit("&physics;");
            reveal_strlit("&physiol;");
            reveal_strlit("&politics;");
            reveal_strlit("&print;");
            assert("&shogi;"@[1] != "&print;"@[1]);
            reveal_strlit("&prowres;");
            reveal_strlit("&psy;");
            reveal_strlit("&psyanal;");
            reveal_strlit("&psych;");
            assert("&shogi;"@[1] != "&psych;"@[1]);
            reveal_strlit("&rail;");
            reveal_strlit("&rommyth;");
            reveal_strlit("&Shinto;");
        },
        Field::Skiing => {
            reveal_strlit("ski");
            reveal_strlit("&ski;");
            assert("&"@ + "ski"@ + ";"@ =~= "&ski;"@);
            reveal_strlit("&agric;");
            reveal_strlit("&anat;");
            reveal_strlit("&archeol;");
            reveal_strlit("&archit;");
            reveal_strlit("&art;");
            assert("&ski;"@[1] != "&art;"@[1]);
            reveal_strlit("&astron;");
            reveal_strlit("&audvid;");
            reveal_strlit("&aviat;");
            reveal_strlit("&baseb;");
            reveal_strlit("&biochem;");
            reveal_strlit("&biol;");
            reveal_strlit("&bot;");
            assert("&ski;"@[1] != "&bot;"@[1]);
            reveal_strlit("&boxing;");
            reveal_strlit("&Buddh;");
            reveal_strlit("&bus;");
            assert("&ski;"@[1] != "&bus;"@[1]);
            reveal_strlit("&cards;");
            reveal_strlit("&chem;");
            reveal_strlit("&Christn;");
            reveal_strlit("&civeng;");
            reveal_strlit("&chmyth;");
            reveal_strlit("&cloth;");
            reveal_strlit("&comp;");
            reveal_strlit("&cryst;");
            reveal_strlit("&dent;");
            reveal_strlit("&ecol;");
            reveal_strlit("&econ;");
            reveal_strlit("&elec;");
            reveal_strlit("&electr;");
            reveal_strlit("&embryo;");
            reveal_strlit("&engr;");
            reveal_strlit("&ent;");
            assert("&ski;"@[1] != "&ent;"@[1]);
            reveal_strlit("&film;");
            reveal_strlit("&finc;");
            reveal_strlit("&fish;");
            reveal_strlit("&food;");
            reveal_strlit("&gardn;");
            reveal_strlit("&genet;");
            reveal_strlit("&geogr;");
            reveal_strlit("&geol;");
            reveal_strlit("&geom;");
            reveal_strlit("&go;");
            reveal_strlit("&golf;");
            reveal_strlit("&gramm;");
            reveal_strlit("&grmyth;");
            reveal_strlit("&hanaf;");
            reveal_strlit("&horse;");
            reveal_strlit("&internet;");
            reveal_strlit("&jpmyth;");
            reveal_strlit("&kabuki;");
            reveal_strlit("&law;");
            assert("&ski;"@[1] != "&law;"@[1]);
            reveal_strlit("&ling;");
            reveal_strlit("&logic;");
            reveal_strlit("&MA;");
            reveal_strlit("&mahj;");
            reveal_strlit("&manga;");
            reveal_strlit("&math;");
            reveal_strlit("&mech;");
            reveal_strlit("&med;");
            assert("&ski;"@[1] != "&med;"@[1]);
            reveal_strlit("&met;");
            assert("&ski;"@[1] != "&met;"@[1]);
            reveal_strlit("&mil;");
            assert("&ski;"@[1] != "&mil;"@[1]);
            reveal_strlit("&mining;");
            reveal_strlit("&motor;");
            reveal_strlit("&music;");
            reveal_strlit("&noh;");
            assert("&ski;"@[1] != "&noh;"@[1]);
            reveal_strlit("&ornith;");
            reveal_strlit("&paleo;");
            reveal_strlit("&pathol;");
            reveal_strlit("&pharm;");
            reveal_strlit("&phil;");
            reveal_strlit("&photo;");
            reveal_strlit("&physics;");
            reveal_strlit("&physiol;");
            reveal_strlit("&politics;");
            reveal_strlit("&print;");
            reveal_strlit("&prowres;");
            reveal_strlit("&psy;");
            assert("&ski;"@[1] != "&psy;"@[1]);
            reveal_strlit("&psyanal;");
            reveal_strlit("&psych;");
            reveal_strlit("&rail;");
            reveal_strlit("&rommyth;");
            reveal_strlit("&Shinto;");
            reveal_strlit("&shogi;");
        },
        Field::Sports => {
            reveal_strlit("sports");
            reveal_strlit("&sports;");
            assert("&"@ + "sports"@ + ";"@ =~= "&sports;"@);
            reveal_strlit("&agric;");
            reveal_strlit("&anat;");
            reveal_strlit("&archeol;");
            reveal_strlit("&archit;");
            assert("&sports;"@[1] != "&archit;"@[1]);
            reveal_strlit("&art;");
            reveal_strlit("&astron;");
            assert("&sports;"@[1] != "&astron;"@[1]);
            reveal_strlit("&audvid;");
            assert("&sports;"@[1] != "&audvid;"@[1]);
            reveal_strlit("&aviat;");
            reveal_strlit("&baseb;");
            reveal_strlit("&biochem;");
            reveal_strlit("&biol;");
            reveal_strlit("&bot;");
            reveal_strlit("&boxing;");
            assert("&sports;"@[1] != "&boxing;"@[1]);
            reveal_strlit("&Buddh;");
            reveal_strlit("&bus;");
            reveal_strlit("&cards;");
            reveal_strlit("&chem;");
            reveal_strlit("&Christn;");
            reveal_strlit("&civeng;");
            assert("&sports;"@[1] != "&civeng;"@[1]);
            reveal_strlit("&chmyth;");
            assert("&sports;"@[1] != "&chmyth;"@[1]);
            reveal_strlit("&cloth;");
            reveal_strlit("&comp;");
            reveal_strlit("&cryst;");
            reveal_strlit("&dent;");
            reveal_strlit("&ecol;");
            reveal_strlit("&econ;");
            reveal_strlit("&elec;");
            reveal_strlit("&electr;");
            assert("&sports;"@[1] != "&electr;"@[1]);
            reveal_strlit("&embryo;");
            assert("&sports;"@[1] != "&embryo;"@[1]);
            reveal_strlit("&engr;");
            reveal_strlit("&ent;");
            reveal_strlit("&film;");
            reveal_strlit("&finc;");
            reveal_strlit("&fish;");
            reveal_strlit("&food;");
            reveal_strlit("&gardn;");
            reveal_strlit("&genet;");
            reveal_strlit("&geogr;");
            reveal_strlit("&geol;");
            reveal_strlit("&geom;");
            reveal_strlit("&go;");
            reveal_strlit("&golf;");
            reveal_strlit("&gramm;");
            reveal_strlit("&grmyth;");
            assert("&sports;"@[1] != "&grmyth;"@[1]);
            reveal_strlit("&hanaf;");
            reveal_strlit("&horse;");
            reveal_strlit("&internet;");
            reveal_strlit("&jpmyth;");
            assert("&sports;"@[1] != "&jpmyth;"@[1]);
            reveal_strlit("&kabuki;");
            assert("&sports;"@[1] != "&kabuki;"@[1]);
            reveal_strlit("&law;");
            reveal_strlit("&ling;");
            reveal_strlit("&logic;");
            reveal_strlit("&MA;");
            reveal_strlit("&mahj;");
            reveal_strlit("&manga;");
            reveal_strlit("&math;");
            reveal_strlit("&mech;");
            reveal_strlit("&med;");
            reveal_strlit("&met;");
            reveal_strlit("&mil;");
            reveal_strlit("&mining;");
            assert("&sports;"@[1] != "&mining;"@[1]);
            reveal_strlit("&motor;");
            reveal_strlit("&music;");
            reveal_strlit("&noh;");
            reveal_strlit("&ornith;");
            assert("&sports;"@[1] != "&ornith;"@[1]);
            reveal_strlit("&paleo;");
            reveal_strlit("&pathol;");
            assert("&sports;"@[1] != "&pathol;"@[1]);
            reveal_strlit("&pharm;");
            reveal_strlit("&phil;");
            reveal_strlit("&photo;");
            reveal_strlit("&physics;");
            reveal_strlit("&physiol;");
            reveal_strlit("&politics;");
            reveal_strlit("&print;");
            reveal_strlit("&prowres;");
            reveal_strlit("&psy;");
            reveal_strlit("&psyanal;");
            reveal_strlit("&psych;");
            reveal_strlit("&rail;");
            reveal_strlit("&rommyth;");
            reveal_strlit("&Shinto;");
            assert("&sports;"@[1] != "&Shinto;"@[1]);
            reveal_strlit("&shogi;");
            reveal_strlit("&ski;");
        },
        Field::Statistics => {
            reveal_strlit("stat");
            reveal_strlit("&stat;");
            assert("&"@ + "stat"@ + ";"@ =~= "&stat;"@);
            reveal_strlit("&agric;");
            reveal_strlit("&anat;");
            assert("&stat;"@[1] != "&anat;"@[1]);
            reveal_strlit("&archeol;");
            reveal_strlit("&archit;");
            reveal_strlit("&art;");
            reveal_strlit("&astron;");
            reveal_strlit("&audvid;");
            reveal_strlit("&aviat;");
            reveal_strlit("&baseb;");
            reveal_strlit("&biochem;");
            reveal_strlit("&biol;");
            assert("&stat;"@[1] != "&biol;"@[1]);
            reveal_strlit("&bot;");
            reveal_strlit("&boxing;");
            reveal_strlit("&Buddh;");
            reveal_strlit("&bus;");
            reveal_strlit("&cards;");
            reveal_strlit("&chem;");
            assert("&stat;"@[1] != "&chem;"@[1]);
            reveal_strlit("&Christn;");
            reveal_strlit("&civeng;");
            reveal_strlit("&chmyth;");
            reveal_strlit("&cloth;");
            reveal_strlit("&comp;");
            assert("&stat;"@[1] != "&comp;"@[1]);
            reveal_strlit("&cryst;");
            reveal_strlit("&dent;");
            assert("&stat;"@[1] != "&dent;"@[1]);
            reveal_strlit("&ecol;");
            assert("&stat;"@[1] != "&ecol;"@[1]);
            reveal_strlit("&econ;");
            assert("&stat;"@[1] != "&econ;"@[1]);
            reveal_strlit("&elec;");
            assert("&stat;"@[1] != "&elec;"@[1]);
            reveal_strlit("&electr;");
            reveal_strlit("&embryo;");
            reveal_strlit("&engr;");
            assert("&stat;"@[1] != "&engr;"@[1]);
            reveal_strlit("&ent;");
            reveal_strlit("&film;");
            assert("&stat;"@[1] != "&film;"@[1]);
            reveal_strlit("&finc;");
            assert("&stat;"@[1] != "&finc;"@[1]);
            reveal_strlit("&fish;");
            assert("&stat;"@[1] != "&fish;"@[1]);
            reveal_strlit("&food;");
            assert("&stat;"@[1] != "&food;"@[1]);
            reveal_strlit("&gardn;");
            reveal_strlit("&genet;");
            reveal_strlit("&geogr;");
            reveal_strlit("&geol;");
            assert("&stat;"@[1] != "&geol;"@[1]);
            reveal_strlit("&geom;");
            assert("&stat;"@[1] != "&geom;"@[1]);
            reveal_strlit("&go;");
            reveal_strlit("&golf;");
            assert("&stat;"@[1] != "&golf;"@[1]);
            reveal_strlit("&gramm;");
            reveal_strlit("&grmyth;");
            reveal_strlit("&hanaf;");
            reveal_strlit("&horse;");
            reveal_strlit("&internet;");
            reveal_strlit("&jpmyth;");
            reveal_strlit("&kabuki;");
            reveal_strlit("&law;");
            reveal_strlit("&ling;");
            assert("&stat;"@[1] != "&ling;"@[1]);
            reveal_strlit("&logic;");
            reveal_strlit("&MA;");
            reveal_strlit("&mahj;");
            assert("&stat;"@[1] != "&mahj;"@[1]);
            reveal_strlit("&manga;");
            reveal_strlit("&math;");
            assert("&stat;"@[1] != "&math;"@[1]);
            reveal_strlit("&mech;");
            assert("&stat;"@[1] != "&mech;"@[1]);
            reveal_strlit("&med;");
            reveal_strlit("&met;");
            reveal_strlit("&mil;");
            reveal_strlit("&mining;");
            reveal_strlit("&motor;");
            reveal_strlit("&music;");
            reveal_strlit("&noh;");
            reveal_strlit("&ornith;");
            reveal_strlit("&paleo;");
            reveal_strlit("&pathol;");
            reveal_strlit("&pharm;");
            reveal_strlit("&phil;");
            assert("&stat;"@[1] != "&phil;"@[1]);
            reveal_strlit("&photo;");
            reveal_strlit("&physics;");
            reveal_strlit("&physiol;");
            reveal_strlit("&politics;");
            reveal_strlit("&print;");
            reveal_strlit("&prowres;");
            reveal_strlit("&psy;");
            reveal_strlit("&psyanal;");
            reveal_strlit("&psych;");
            reveal_strlit("&rail;");
            assert("&stat;"@[1] != "&rail;"@[1]);
            reveal_strlit("&rommyth;");
            reveal_strlit("&Shinto;");
            reveal_strlit("&shogi;");
            reveal_strlit("&ski;");
            reveal_strlit("&sports;");
        },
        Field::StockMarket => {
            reveal_strlit("stockm");
            reveal_strlit("&stockm;");
            assert("&"@ + "stockm"@ + ";"@ =~= "&stockm;"@);
            reveal_strlit("&agric;");
            reveal_strlit("&anat;");
            reveal_strlit("&archeol;");
            reveal_strlit("&archit;");
            assert("&stockm;"@[1] != "&archit;"@[1]);
            reveal_strlit("&art;");
            reveal_strlit("&astron;");
            assert("&stockm;"@[1] != "&astron;"@[1]);
            reveal_strlit("&audvid;");
            assert("&stockm;"@[1] != "&audvid;"@[1]);
            reveal_strlit("&aviat;");
            reveal_strlit("&baseb;");
            reveal_strlit("&biochem;");
            reveal_strlit("&biol;");
            reveal_strlit("&bot;");
            reveal_strlit("&boxing;");
            assert("&stockm;"@[1] != "&boxing;"@[1]);
            reveal_strlit("&Buddh;");
            reveal_strlit("&bus;");
            reveal_strlit("&cards;");
            reveal_strlit("&chem;");
            reveal_strlit("&Christn;");
            reveal_strlit("&civeng;");
            assert("&stockm;"@[1] != "&civeng;"@[1]);
            reveal_strlit("&chmyth;");
            assert("&stockm;"@[1] != "&chmyth;"@[1]);
            reveal_strlit("&cloth;");
            reveal_strlit("&comp;");
            reveal_strlit("&cryst;");
            reveal_strlit("&dent;");
            reveal_strlit("&ecol;");
            reveal_strlit("&econ;");
            reveal_strlit("&elec;");
            reveal_strlit("&electr;");
            assert("&stockm;"@[1] != "&electr;"@[1]);
            reveal_strlit("&embryo;");
            assert("&stockm;"@[1] != "&embryo;"@[1]);
            reveal_strlit("&engr;");
            reveal_strlit("&ent;");
            reveal_strlit("&film;");
            reveal_strlit("&finc;");
            reveal_strlit("&fish;");
            reveal_strlit("&food;");
            reveal_strlit("&gardn;");
            reveal_strlit("&genet;");
            reveal_strlit("&geogr;");
            reveal_strlit("&geol;");
            reveal_strlit("&geom;");
            reveal_strlit("&go;");
            reveal_strlit("&golf;");
            reveal_strlit("&gramm;");
            reveal_strlit("&grmyth;");
            assert("&stockm;"@[1] != "&grmyth;"@[1]);
            reveal_strlit("&hanaf;");
            reveal_strlit("&horse;");
            reveal_strlit("&internet;");
            reveal_strlit("&jpmyth;");
            assert("&stockm;"@[1] != "&jpmyth;"@[1]);
            reveal_strlit("&kabuki;");
            assert("&stockm;"@[1] != "&kabuki;"@[1]);
            reveal_strlit("&law;");
            reveal_strlit("&ling;");
            reveal_strlit("&logic;");
            reveal_strlit("&MA;");
            reveal_strlit("&mahj;");
            reveal_strlit("&manga;");
            reveal_strlit("&math;");
            reveal_strlit("&mech;");
            reveal_strlit("&med;");
            reveal_strlit("&met;");
            reveal_strlit("&mil;");
            reveal_strlit("&mining;");
            assert("&stockm;"@[1] != "&mining;"@[1]);
            reveal_strlit("&motor;");
            reveal_strlit("&music;");
            reveal_strlit("&noh;");
            reveal_strlit("&ornith;");
            assert("&stockm;"@[1] != "&ornith;"@[1]);
            reveal_strlit("&paleo;");
            reveal_strlit("&pathol;");
            assert("&stockm;"@[1] != "&pathol;"@[1]);
            reveal_strlit("&pharm;");
            reveal_strlit("&phil;");
            reveal_strlit("&photo;");
            reveal_strlit("&physics;");
            reveal_strlit("&physiol;");
            reveal_strlit("&politics;");
            reveal_strlit("&print;");
            reveal_strlit("&prowres;");
            reveal_strlit("&psy;");
            reveal_strlit("&psyanal;");
            reveal_strlit("&psych;");
            reveal_strlit("&rail;");
            reveal_strlit("&rommyth;");
            reveal_strlit("&Shinto;");
            assert("&stockm;"@[1] != "&Shinto;"@[1]);
            reveal_strlit("&shogi;");
            reveal_strlit("&ski;");
            reveal_strlit("&sports;");
            assert("&stockm;"@[2] != "&sports;"@[2]);
            reveal_strlit("&stat;");
        },
        Field::Sumo => {
            reveal_strlit("sumo");
            reveal_strlit("&sumo;");
            assert("&"@ + "sumo"@ + ";"@ =~= "&sumo;"@);
            reveal_strlit("&agric;");
            reveal_strlit("&anat;");
            assert("&sumo;"@[1] != "&anat;"@[1]);
            reveal_strlit("&archeol;");
            reveal_strlit("&archit;");
            reveal_strlit("&art;");
            reveal_strlit("&astron;");
            reveal_strlit("&audvid;");
            reveal_strlit("&aviat;");
            reveal_strlit("&baseb;");
            reveal_strlit("&biochem;");
            reveal_strlit("&biol;");
            assert("&sumo;"@[1] != "&biol;"@[1]);
            reveal_strlit("&bot;");
            reveal_strlit("&boxing;");
            reveal_strlit("&Buddh;");
            reveal_strlit("&bus;");
            reveal_strlit("&cards;");
            reveal_strlit("&chem;");
            assert("&sumo;"@[1] != "&chem;"@[1]);
            reveal_strlit("&Christn;");
            reveal_strlit("&civeng;");
            reveal_strlit("&chmyth;");
            reveal_strlit("&cloth;");
            reveal_strlit("&comp;");
            assert("&sumo;"@[1] != "&comp;"@[1]);
            reveal_strlit("&cryst;");
            reveal_strlit("&dent;");
            assert("&sumo;"@[1] != "&dent;"@[1]);
            reveal_strlit("&ecol;");
            assert("&sumo;"@[1] != "&ecol;"@[1]);
            reveal_strlit("&econ;");
            assert("&sumo;"@[1] != "&econ;"@[1]);
            reveal_strlit("&elec;");
            assert("&sumo;"@[1] != "&elec;"@[1]);
            reveal_strlit("&electr;");
            reveal_strlit("&embryo;");
            reveal_strlit("&engr;");
            assert("&sumo;"@[1] != "&engr;"@[1]);
            reveal_strlit("&ent;");
            reveal_strlit("&film;");
            assert("&sumo;"@[1] != "&film;"@[1]);
            reveal_strlit("&finc;");
            assert("&sumo;"@[1] != "&finc;"@[1]);
            reveal_strlit("&fish;");
            assert("&sumo;"@[1] != "&fish;"@[1]);
            reveal_strlit("&food;");
            assert("&sumo;"@[1] != "&food;"@[1]);
            reveal_strlit("&gardn;");
            reveal_strlit("&genet;");
            reveal_strlit("&geogr;");
            reveal_strlit("&geol;");
            assert("&sumo;"@[1] != "&geol;"@[1]);
            reveal_strlit("&geom;");
            assert("&sumo;"@[1] != "&geom;"@[1]);
            reveal_strlit("&go;");
            reveal_strlit("&golf;");
            assert("&sumo;"@[1] != "&golf;"@[1]);
            reveal_strlit("&gramm;");
            reveal_strlit("&grmyth;");
            reveal_strlit("&hanaf;");
            reveal_strlit("&horse;");
            reveal_strlit("&internet;");
            reveal_strlit("&jpmyth;");
            reveal_strlit("&kabuki;");
            reveal_strlit("&law;");
            reveal_strlit("&ling;");
            assert("&sumo;"@[1] != "&ling;"@[1]);
            reveal_strlit("&logic;");
            reveal_strlit("&MA;");
            reveal_strlit("&mahj;");
            assert("&sumo;"@[1] != "&mahj;"@[1]);
            reveal_strlit("&manga;");
            reveal_strlit("&math;");
            assert("&sumo;"@[1] != "&math;"@[1]);
            reveal_strlit("&mech;");
            assert("&sumo;"@[1] != "&mech;"@[1]);
            reveal_strlit("&med;");
            reveal_strlit("&met;");
            reveal_strlit("&mil;");
            reveal_strlit("&mining;");
            reveal_strlit("&motor;");
            reveal_strlit("&music;");
            reveal_strlit("&noh;");
            reveal_strlit("&ornith;");
            reveal_strlit("&paleo;");
            reveal_strlit("&pathol;");
            reveal_strlit("&pharm;");
            reveal_strlit("&phil;");
            assert("&sumo;"@[1] != "&phil;"@[1]);
            reveal_strlit("&photo;");
            reveal_strlit("&physics;");
            reveal_strlit("&physiol;");
            reveal_strlit("&politics;");
            reveal_strlit("&print;");
            reveal_strlit("&prowres;");
            reveal_strlit("&psy;");
            reveal_strlit("&psyanal;");
            reveal_strlit("&psych;");
            reveal_strlit("&rail;");
            assert("&sumo;"@[1] != "&rail;"@[1]);
            reveal_strlit("&rommyth;");
            reveal_strlit("&Shinto;");
            reveal_strlit("&shogi;");
            reveal_strlit("&ski;");
            reveal_strlit("&sports;");
            reveal_strlit("&stat;");
            assert("&sumo;"@[2] != "&stat;"@[2]);
            reveal_strlit("&stockm;");
        },
        Field::Surgery => {
            reveal_strlit("surg");
            reveal_strlit("&surg;");
            assert("&"@ + "surg"@ + ";"@ =~= "&surg;"@);
            reveal_strlit("&agric;");
            reveal_strlit("&anat;");
            assert("&surg;"@[1] != "&anat;"@[1]);
            reveal_strlit("&archeol;");
            reveal_strlit("&archit;");
            reveal_strlit("&art;");
            reveal_strlit("&astron;");
            reveal_strlit("&audvid;");
            reveal_strlit("&aviat;");
            reveal_strlit("&baseb;");
            reveal_strlit("&biochem;");
            reveal_strlit("&biol;");
            assert("&surg;"@[1] != "&biol;"@[1]);
            reveal_strlit("&bot;");
            reveal_strlit("&boxing;");
            reveal_strlit("&Buddh;");
            reveal_strlit("&bus;");
            reveal_strlit("&cards;");
            reveal_strlit("&chem;");
            assert("&surg;"@[1] != "&chem;"@[1]);
            reveal_strlit("&Christn;");
            reveal_strlit("&civeng;");
            reveal_strlit("&chmyth;");
            reveal_strlit("&cloth;");
            reveal_strlit("&comp;");
            assert("&surg;"@[1] != "&comp;"@[1]);
            reveal_strlit("&cryst;");
            reveal_strlit("&dent;");
            assert("&surg;"@[1] != "&dent;"@[1]);
            reveal_strlit("&ecol;");
            assert("&surg;"@[1] != "&ecol;"@[1]);
            reveal_strlit("&econ;");
            assert("&surg;"@[1] != "&econ;"@[1]);
            reveal_strlit("&elec;");
            assert("&surg;"@[1] != "&elec;"@[1]);
            reveal_strlit("&electr;");
            reveal_strlit("&embryo;");
            reveal_strlit("&engr;");
            assert("&surg;"@[1] != "&engr;"@[1]);
            reveal_strlit("&ent;");
            reveal_strlit("&film;");
            assert("&surg;"@[1] != "&film;"@[1]);
            reveal_strlit("&finc;");
            assert("&surg;"@[1] != "&finc;"@[1]);
            reveal_strlit("&fish;");
            assert("&surg;"@[1] != "&fish;"@[1]);
            reveal_strlit("&food;");
            assert("&surg;"@[1] != "&food;"@[1]);
            reveal_strlit("&gardn;");
            reveal_strlit("&genet;");
            reveal_strlit("&geogr;");
            reveal_strlit("&geol;");
            assert("&surg;"@[1] != "&geol;"@[1]);
            reveal_strlit("&geom;");
            assert("&surg;"@[1] != "&geom;"@[1]);
            reveal_strlit("&go;");
            reveal_strlit("&golf;");
            assert("&surg;"@[1] != "&golf;"@[1]);
            reveal_strlit("&gramm;");
            reveal_strlit("&grmyth;");
            reveal_strlit("&hanaf;");
            reveal_strlit("&horse;");
            reveal_strlit("&internet;");
            reveal_strlit("&jpmyth;");
            reveal_strlit("&kabuki;");
            reveal_strlit("&law;");
            reveal_strlit("&ling;");
            assert("&surg;"@[1] != "&ling;"@[1]);
            reveal_strlit("&logic;");
            reveal_strlit("&MA;");
            reveal_strlit("&mahj;");
            assert("&surg;"@[1] != "&mahj;"@[1]);
            reveal_strlit("&manga;");
            reveal_strlit("&math;");
            assert("&surg;"@[1] != "&math;"@[1]);
            reveal_strlit("&mech;");
            assert("&surg;"@[1] != "&mech;"@[1]);
            reveal_strlit("&med;");
            reveal_strlit("&met;");
            reveal_strlit("&mil;");
            reveal_strlit("&mining;");
            reveal_strlit("&motor;");
            reveal_strlit("&music;");
            reveal_strlit("&noh;");
            reveal_strlit("&ornith;");
            reveal_strlit("&paleo;");
            reveal_strlit("&pathol;");
            reveal_strlit("&pharm;");
            reveal_strlit("&phil;");
            assert("&surg;"@[1] != "&phil;"@[1]);
            reveal_strlit("&photo;");
            reveal_strlit("&physics;");
            reveal_strlit("&physiol;");
            reveal_strlit("&politics;");
            reveal_strlit("&print;");
            reveal_strlit("&prowres;");
            reveal_strlit("&psy;");
            reveal_strlit("&psyanal;");
            reveal_strlit("&psych;");
            reveal_strlit("&rail;");
            assert("&surg;"@[1] != "&rail;"@[1]);
            reveal_strlit("&rommyth;");
            reveal_strlit("&Shinto;");
            reveal_strlit("&shogi;");
            reveal_strlit("&ski;");
            reveal_strlit("&sports;");
            reveal_strlit("&stat;");
            assert("&surg;"@[2] != "&stat;"@[2]);
            reveal_strlit("&stockm;");
            reveal_strlit("&sumo;");
            assert("&surg;"@[3] != "&sumo;"@[3]);
        },
        Field::Telecommunications => {
            reveal_strlit("telec");
            reveal_strlit("&telec;");
            assert("&"@ + "telec"@ + ";"@ =~= "&telec;"@);
            reveal_strlit("&agric;");
            assert("&telec;"@[1] != "&agric;"@[1]);
            reveal_strlit("&anat;");
            reveal_strlit("&archeol;");
            reveal_strlit("&archit;");
            reveal_strlit("&art;");
            reveal_strlit("&astron;");
            reveal_strlit("&audvid;");
            reveal_strlit("&aviat;");
            assert("&telec;"@[1] != "&aviat;"@[1]);
            reveal_strlit("&baseb;");
            assert("&telec;"@[1] != "&baseb;"@[1]);
            reveal_strlit("&biochem;");
            reveal_strlit("&biol;");
            reveal_strlit("&bot;");
            reveal_strlit("&boxing;");
            reveal_strlit("&Buddh;");
            assert("&telec;"@[1] != "&Buddh;"@[1]);
            reveal_strlit("&bus;");
            reveal_strlit("&cards;");
            assert("&telec;"@[1] != "&cards;"@[1]);
            reveal_strlit("&chem;");
            reveal_strlit("&Christn;");
            reveal_strlit("&civeng;");
            reveal_strlit("&chmyth;");
            reveal_strlit("&cloth;");
            assert("&telec;"@[1] != "&cloth;"@[1]);
            reveal_strlit("&comp;");
            reveal_strlit("&cryst;");
            assert("&telec;"@[1] != "&cryst;"@[1]);
            reveal_strlit("&dent;");
            reveal_strlit("&ecol;");
            reveal_strlit("&econ;");
            reveal_strlit("&elec;");
            reveal_strlit("&electr;");
            reveal_strlit("&embryo;");
            reveal_strlit("&engr;");
            reveal_strlit("&ent;");
            reveal_strlit("&film;");
            reveal_strlit("&finc;");
            reveal_strlit("&fish;");
            reveal_strlit("&food;");
            reveal_strlit("&gardn;");
            assert("&telec;"@[1] != "&gardn;"@[1]);
            reveal_strlit("&genet;");
            assert("&telec;"@[1] != "&genet;"@[1]);
            reveal_strlit("&geogr;");
            assert("&telec;"@[1] != "&geogr;"@[1]);
            reveal_strlit("&geol;");
            reveal_strlit("&geom;");
            reveal_strlit("&go;");
            reveal_strlit("&golf;");
            reveal_strlit("&gramm;");
            assert("&telec;"@[1] != "&gramm;"@[1]);
            reveal_strlit("&grmyth;");
            reveal_strlit("&hanaf;");
            assert("&telec;"@[1] != "&hanaf;"@[1]);
            reveal_strlit("&horse;");
            assert("&telec;"@[1] != "&horse;"@[1]);
            reveal_strlit("&internet;");
            reveal_strlit("&jpmyth;");
            reveal_strlit("&kabuki;");
            reveal_strlit("&law;");
            reveal_strlit("&ling;");
            reveal_strlit("&logic;");
            assert("&telec;"@[1] != "&logic;"@[1]);
            reveal_strlit("&MA;");
            reveal_strlit("&mahj;");
            reveal_strlit("&manga;");
            assert("&telec;"@[1] != "&manga;"@[1]);
            reveal_strlit("&math;");
            reveal_strlit("&mech;");
            reveal_strlit("&med;");
            reveal_strlit("&met;");
            reveal_strlit("&mil;");
            reveal_strlit("&mining;");
            reveal_strlit("&motor;");
            assert("&telec;"@[1] != "&motor;"@[1]);
            reveal_strlit("&music;");
            assert("&telec;"@[1] != "&music;"@[1]);
            reveal_strlit("&noh;");
            reveal_strlit("&ornith;");
            reveal_strlit("&paleo;");
            assert("&telec;"@[1] != "&paleo;"@[1]);
            reveal_strlit("&pathol;");
            reveal_strlit("&pharm;");
            assert("&telec;"@[1] != "&pharm;"@[1]);
            reveal_strlit("&phil;");
            reveal_strlit("&photo;");
            assert("&telec;"@[1] != "&photo;"@[1]);
            reveal_strlit("&physics;");
            reveal_strlit("&physiol;");
            reveal_strlit("&politics;");
            reveal_strlit("&print;");
            assert("&telec;"@[1] != "&print;"@[1]);
            reveal_strlit("&prowres;");
            reveal_strlit("&psy;");
            reveal_strlit("&psyanal;");
            reveal_strlit("&psych;");
            assert("&telec;"@[1] != "&psych;"@[1]);
            reveal_strlit("&rail;");
            reveal_strlit("&rommyth;");
            reveal_strlit("&Shinto;");
            reveal_strlit("&shogi;");
            assert("&telec;"@[1] != "&shogi;"@[1]);
            reveal_strlit("&ski;");
            reveal_strlit("&sports;");
            reveal_strlit("&stat;");
            reveal_strlit("&stockm;");
            reveal_strlit("&sumo;");
            reveal_strlit("&surg;");
        },
        Field::Trademark => {
            reveal_strlit("tradem");
            reveal_strlit("&tradem;");
            assert("&"@ + "tradem"@ + ";"@ =~= "&tradem;"@);
            reveal_strlit("&agric;");
            reveal_strlit("&anat;");
            reveal_strlit("&archeol;");
            reveal_strlit("&archit;");
            assert("&tradem;"@[1] != "&archit;"@[1]);
            reveal_strlit("&art;");
            reveal_strlit("&astron;");
            assert("&tradem;"@[1] != "&astron;"@[1]);
            reveal_strlit("&audvid;");
            assert("&tradem;"@[1] != "&audvid;"@[1]);
            reveal_strlit("&aviat;");
            reveal_strlit("&baseb;");
            reveal_strlit("&biochem;");
            reveal_strlit("&biol;");
            reveal_strlit("&bot;");
            reveal_strlit("&boxing;");
            assert("&tradem;"@[1] != "&boxing;"@[1]);
            reveal_strlit("&Buddh;");
            reveal_strlit("&bus;");
            reveal_strlit("&cards;");
            reveal_strlit("&chem;");
            reveal_strlit("&Christn;");
            reveal_strlit("&civeng;");
            assert("&tradem;"@[1] != "&civeng;"@[1]);
            reveal_strlit("&chmyth;");
            assert("&tradem;"@[1] != "&chmyth;"@[1]);
            reveal_strlit("&cloth;");
            reveal_strlit("&comp;");
            reveal_strlit("&cryst;");
            reveal_strlit("&dent;");
            reveal_strlit("&ecol;");
            reveal_strlit("&econ;");
            reveal_strlit("&elec;");
            reveal_strlit("&electr;");
            assert("&tradem;"@[1] != "&electr;"@[1]);
            reveal_strlit("&embryo;");
            assert("&tradem;"@[1] != "&embryo;"@[1]);
            reveal_strlit("&engr;");
            reveal_strlit("&ent;");
            reveal_strlit("&film;");
            reveal_strlit("&finc;");
            reveal_strlit("&fish;");
            reveal_strlit("&food;");
            reveal_strlit("&gardn;");
            reveal_strlit("&genet;");
            reveal_strlit("&geogr;");
            reveal_strlit("&geol;");
            reveal_strlit("&geom;");
            reveal_strlit("&go;");
            reveal_strlit("&golf;");
            reveal_strlit("&gramm;");
            reveal_strlit("&grmyth;");
            assert("&tradem;"@[1] != "&grmyth;"@[1]);
            reveal_strlit("&hanaf;");
            reveal_strlit("&horse;");
            reveal_strlit("&internet;");
            reveal_strlit("&jpmyth;");
            assert("&tradem;"@[1] != "&jpmyth;"@[1]);
            reveal_strlit("&kabuki;");
            assert("&tradem;"@[1] != "&kabuki;"@[1]);
            reveal_strlit("&law;");
            reveal_strlit("&ling;");
            reveal_strlit("&logic;");
            reveal_strlit("&MA;");
            reveal_strlit("&mahj;");
            reveal_strlit("&manga;");
            reveal_strlit("&math;");
            reveal_strlit("&mech;");
            reveal_strlit("&med;");
            reveal_strlit("&met;");
            reveal_strlit("&mil;");
            reveal_strlit("&mining;");
            assert("&tradem;"@[1] != "&mining;"@[1]);
            reveal_strlit("&motor;");
            reveal_strlit("&music;");
            reveal_strlit("&noh;");
            reveal_strlit("&ornith;");
            assert("&tradem;"@[1] != "&ornith;"@[1]);
            reveal_strlit("&paleo;");
            reveal_strlit("&pathol;");
            assert("&tradem;"@[1] != "&pathol;"@[1]);
            reveal_strlit("&pharm;");
            reveal_strlit("&phil;");
            reveal_strlit("&photo;");
            reveal_strlit("&physics;");
            reveal_strlit("&physiol;");
            reveal_strlit("&politics;");
            reveal_strlit("&print;");
            reveal_strlit("&prowres;");
            reveal_strlit("&psy;");
            reveal_strlit("&psyanal;");
            reveal_strlit("&psych;");
            reveal_strlit("&rail;");
            reveal_strlit("&rommyth;");
            reveal_strlit("&Shinto;");
            assert("&tradem;"@[1] != "&Shinto;"@[1]);
            reveal_strlit("&shogi;");
            reveal_strlit("&ski;");
            reveal_strlit("&sports;");
            assert("&tradem;"@[1] != "&sports;"@[1]);
            reveal_strlit("&stat;");
            reveal_strlit("&stockm;");
            assert("&tradem;"@[1] != "&stockm;"@[1]);
            reveal_strlit("&sumo;");
            reveal_strlit("&surg;");
            reveal_strlit("&telec;");
        },
        Field::Tv => {
            reveal_strlit("tv");
            reveal_strlit("&tv;");
            assert("&"@ + "tv"@ + ";"@ =~= "&tv;"@);
            reveal_strlit("&agric;");
            reveal_strlit("&anat;");
            reveal_strlit("&archeol;");
            reveal_strlit("&archit;");
            reveal_strlit("&art;");
            reveal_strlit("&astron;");
            reveal_strlit("&audvid;");
            reveal_strlit("&aviat;");
            reveal_strlit("&baseb;");
            reveal_strlit("&biochem;");
            reveal_strlit("&biol;");
            reveal_strlit("&bot;");
            reveal_strlit("&boxing;");
            reveal_strlit("&Buddh;");
            reveal_strlit("&bus;");
            reveal_strlit("&cards;");
            reveal_strlit("&chem;");
            reveal_strlit("&Christn;");
            reveal_strlit("&civeng;");
            reveal_strlit("&chmyth;");
            reveal_strlit("&cloth;");
            reveal_strlit("&comp;");
            reveal_strlit("&cryst;");
            reveal_strlit("&dent;");
            reveal_strlit("&ecol;");
            reveal_strlit("&econ;");
            reveal_strlit("&elec;");
            reveal_strlit("&electr;");
            reveal_strlit("&embryo;");
            reveal_strlit("&engr;");
            reveal_strlit("&ent;");
            reveal_strlit("&film;");
            reveal_strlit("&finc;");
            reveal_strlit("&fish;");
            reveal_strlit("&food;");
            reveal_strlit("&gardn;");
            reveal_strlit("&genet;");
            reveal_strlit("&geogr;");
            reveal_strlit("&geol;");
            reveal_strlit("&geom;");
            reveal_strlit("&go;");
            assert("&tv;"@[1] != "&go;"@[1]);
            reveal_strlit("&golf;");
            reveal_strlit("&gramm;");
            reveal_strlit("&grmyth;");
            reveal_strlit("&hanaf;");
            reveal_strlit("&horse;");
            reveal_strlit("&internet;");
            reveal_strlit("&jpmyth;");
            reveal_strlit("&kabuki;");
            reveal_strlit("&law;");
            reveal_strlit("&ling;");
            reveal_strlit("&logic;");
            reveal_strlit("&MA;");
            assert("&tv;"@[1] != "&MA;"@[1]);
            reveal_strlit("&mahj;");
            reveal_strlit("&manga;");
            reveal_strlit("&math;");
            reveal_strlit("&mech;");
            reveal_strlit("&med;");
            reveal_strlit("&met;");
            reveal_strlit("&mil;");
            reveal_strlit("&mining;");
            reveal_strlit("&motor;");
            reveal_strlit("&music;");
            reveal_strlit("&noh;");
            reveal_strlit("&ornith;");
            reveal_strlit("&paleo;");
            reveal_strlit("&pathol;");
            reveal_strlit("&pharm;");
            reveal_strlit("&phil;");
            reveal_strlit("&photo;");
            reveal_strlit("&physics;");
            reveal_strlit("&physiol;");
            reveal_strlit("&politics;");
            reveal_strlit("&print;");
            reveal_strlit("&prowres;");
            reveal_strlit("&psy;");
            reveal_strlit("&psyanal;");
            reveal_strlit("&psych;");
            reveal_strlit("&rail;");
            reveal_strlit("&rommyth;");
            reveal_strlit("&Shinto;");
            reveal_strlit("&shogi;");
            reveal_strlit("&ski;");
            reveal_strlit("&sports;");
            reveal_strlit("&stat;");
            reveal_strlit("&stockm;");
            reveal_strlit("&sumo;");
            reveal_strlit("&surg;");
            reveal_strlit("&telec;");
            reveal_strlit("&tradem;");
        },
        Field::VideoGames => {
            reveal_strlit("vidg");
            reveal_strlit("&vidg;");
            assert("&"@ + "vidg"@ + ";"@ =~= "&vidg;"@);
            reveal_strlit("&agric;");
            reveal_strlit("&anat;");
            assert("&vidg;"@[1] != "&anat;"@[1]);
            reveal_strlit("&archeol;");
            reveal_strlit("&archit;");
            reveal_strlit("&art;");
            reveal_strlit("&astron;");
            reveal_strlit("&audvid;");
            reveal_strlit("&aviat;");
            reveal_strlit("&baseb;");
            reveal_strlit("&biochem;");
            reveal_strlit("&biol;");
            assert("&vidg;"@[1] != "&biol;"@[1]);
            reveal_strlit("&bot;");
            reveal_strlit("&boxing;");
            reveal_strlit("&Buddh;");
            reveal_strlit("&bus;");
            reveal_strlit("&cards;");
            reveal_strlit("&chem;");
            assert("&vidg;"@[1] != "&chem;"@[1]);
            reveal_strlit("&Christn;");
            reveal_strlit("&civeng;");
            reveal_strlit("&chmyth;");
            reveal_strlit("&cloth;");
            reveal_strlit("&comp;");
            assert("&vidg;"@[1] != "&comp;"@[1]);
            reveal_strlit("&cryst;");
            reveal_strlit("&dent;");
            assert("&vidg;"@[1] != "&dent;"@[1]);
            reveal_strlit("&ecol;");
            assert("&vidg;"@[1] != "&ecol;"@[1]);
            reveal_strlit("&econ;");
            assert("&vidg;"@[1] != "&econ;"@[1]);
            reveal_strlit("&elec;");
            assert("&vidg;"@[1] != "&elec;"@[1]);
            reveal_strlit("&electr;");
            reveal_strlit("&embryo;");
            reveal_strlit("&engr;");
            assert("&vidg;"@[1] != "&engr;"@[1]);
            reveal_strlit("&ent;");
            reveal_strlit("&film;");
            assert("&vidg;"@[1] != "&film;"@[1]);
            reveal_strlit("&finc;");
            assert("&vidg;"@[1] != "&finc;"@[1]);
            reveal_strlit("&fish;");
            assert("&vidg;"@[1] != "&fish;"@[1]);
            reveal_strlit("&food;");
            assert("&vidg;"@[1] != "&food;"@[1]);
            reveal_strlit("&gardn;");
            reveal_strlit("&genet;");
            reveal_strlit("&geogr;");
            reveal_strlit("&geol;");
            assert("&vidg;"@[1] != "&geol;"@[1]);
            reveal_strlit("&geom;");
            assert("&vidg;"@[1] != "&geom;"@[1]);
            reveal_strlit("&go;");
            reveal_strlit("&golf;");
            assert("&vidg;"@[1] != "&golf;"@[1]);
            reveal_strlit("&gramm;");
            reveal_strlit("&grmyth;");
            reveal_strlit("&hanaf;");
            reveal_strlit("&horse;");
            reveal_strlit("&internet;");
            reveal_strlit("&jpmyth;");
            reveal_strlit("&kabuki;");
            reveal_strlit("&law;");
            reveal_strlit("&ling;");
            assert("&vidg;"@[1] != "&ling;"@[1]);
            reveal_strlit("&logic;");
            reveal_strlit("&MA;");
            reveal_strlit("&mahj;");
            assert("&vidg;"@[1] != "&mahj;"@[1]);
            reveal_strlit("&manga;");
            reveal_strlit("&math;");
            assert("&vidg;"@[1] != "&math;"@[1]);
            reveal_strlit("&mech;");
            assert("&vidg;"@[1] != "&mech;"@[1]);
            reveal_strlit("&med;");
            reveal_strlit("&met;");
            reveal_strlit("&mil;");
            reveal_strlit("&mining;");
            reveal_strlit("&motor;");
            reveal_strlit("&music;");
            reveal_strlit("&noh;");
            reveal_strlit("&ornith;");
            reveal_strlit("&paleo;");
            reveal_strlit("&pathol;");
            reveal_strlit("&pharm;");
            reveal_strlit("&phil;");
            assert("&vidg;"@[1] != "&phil;"@[1]);
            reveal_strlit("&photo;");
            reveal_strlit("&physics;");
            reveal_strlit("&physiol;");
            reveal_strlit("&politics;");
            reveal_strlit("&print;");
            reveal_strlit("&prowres;");
            reveal_strlit("&psy;");
            reveal_strlit("&psyanal;");
            reveal_strlit("&psych;");
            reveal_strlit("&rail;");
            assert("&vidg;"@[1] != "&rail;"@[1]);
            reveal_strlit("&rommyth;");
            reveal_strlit("&Shinto;");
            reveal_strlit("&shogi;");
            reveal_strlit("&ski;");
            reveal_strlit("&sports;");
            reveal_strlit("&stat;");
            assert("&vidg;"@[1] != "&stat;"@[1]);
            reveal_strlit("&stockm;");
            reveal_strlit("&sumo;");
            assert("&vidg;"@[1] != "&sumo;"@[1]);
            reveal_strlit("&surg;");
            assert("&vidg;"@[1] != "&surg;"@[1]);
            reveal_strlit("&telec;");
            reveal_strlit("&tradem;");
            reveal_strlit("&tv;");
        },
        Field::Zoology => {
            reveal_strlit("zool");
            reveal_strlit("&zool;");
            assert("&"@ + "zool"@ + ";"@ =~= "&zool;"@);
            reveal_strlit("&agric;");
            reveal_strlit("&anat;");
            assert("&zool;"@[1] != "&anat;"@[1]);
            reveal_strlit("&archeol;");
            reveal_strlit("&archit;");
            reveal_strlit("&art;");
            reveal_strlit("&astron;");
            reveal_strlit("&audvid;");
            reveal_strlit("&aviat;");
            reveal_strlit("&baseb;");
            reveal_strlit("&biochem;");
            reveal_strlit("&biol;");
            assert("&zool;"@[1] != "&biol;"@[1]);
            reveal_strlit("&bot;");
            reveal_strlit("&boxing;");
            reveal_strlit("&Buddh;");
            reveal_strlit("&bus;");
            reveal_strlit("&cards;");
            reveal_strlit("&chem;");
            assert("&zool;"@[1] != "&chem;"@[1]);
            reveal_strlit("&Christn;");
            reveal_strlit("&civeng;");
            reveal_strlit("&chmyth;");
            reveal_strlit("&cloth;");
            reveal_strlit("&comp;");
            assert("&zool;"@[1] != "&comp;"@[1]);
            reveal_strlit("&cryst;");
            reveal_strlit("&dent;");
            assert("&zool;"@[1] != "&dent;"@[1]);
            reveal_strlit("&ecol;");
            assert("&zool;"@[1] != "&ecol;"@[1]);
            reveal_strlit("&econ;");
            assert("&zool;"@[1] != "&econ;"@[1]);
            reveal_strlit("&elec;");
            assert("&zool;"@[1] != "&elec;"@[1]);
            reveal_strlit("&electr;");
            reveal_strlit("&embryo;");
            reveal_strlit("&engr;");
            assert("&zool;"@[1] != "&engr;"@[1]);
            reveal_strlit("&ent;");
            reveal_strlit("&film;");
            assert("&zool;"@[1] != "&film;"@[1]);
            reveal_strlit("&finc;");
            assert("&zool;"@[1] != "&finc;"@[1]);
            reveal_strlit("&fish;");
            assert("&zool;"@[1] != "&fish;"@[1]);
            reveal_strlit("&food;");
            assert("&zool;"@[1] != "&food;"@[1]);
            reveal_strlit("&gardn;");
            reveal_strlit("&genet;");
            reveal_strlit("&geogr;");
            reveal_strlit("&geol;");
            assert("&zool;"@[1] != "&geol;"@[1]);
            reveal_strlit("&geom;");
            assert("&zool;"@[1] != "&geom;"@[1]);
            reveal_strlit("&go;");
            reveal_strlit("&golf;");
            assert("&zool;"@[1] != "&golf;"@[1]);
            reveal_strlit("&gramm;");
            reveal_strlit("&grmyth;");
            reveal_strlit("&hanaf;");
            reveal_strlit("&horse;");
            reveal_strlit("&internet;");
            reveal_strlit("&jpmyth;");
            reveal_strlit("&kabuki;");
            reveal_strlit("&law;");
            reveal_strlit("&ling;");
            assert("&zool;"@[1] != "&ling;"@[1]);
            reveal_strlit("&logic;");
            reveal_strlit("&MA;");
            reveal_strlit("&mahj;");
            assert("&zool;"@[1] != "&mahj;"@[1]);
            reveal_strlit("&manga;");
            reveal_strlit("&math;");
            assert("&zool;"@[1] != "&math;"@[1]);
            reveal_strlit("&mech;");
            assert("&zool;"@[1] != "&mech;"@[1]);
            reveal_strlit("&med;");
            reveal_strlit("&met;");
            reveal_strlit("&mil;");
            reveal_strlit("&mining;");
            reveal_strlit("&motor;");
            reveal_strlit("&music;");
            reveal_strlit("&noh;");
            reveal_strlit("&ornith;");
            reveal_strlit("&paleo;");
            reveal_strlit("&pathol;");
            reveal_strlit("&pharm;");
            reveal_strlit("&phil;");
            assert("&zool;"@[1] != "&phil;"@[1]);
            reveal_strlit("&photo;");
            reveal_strlit("&physics;");
            reveal_strlit("&physiol;");
            reveal_strlit("&politics;");
            reveal_strlit("&print;");
            reveal_strlit("&prowres;");
            reveal_strlit("&psy;");
            reveal_strlit("&psyanal;");
            reveal_strlit("&psych;");
            reveal_strlit("&rail;");
            assert("&zool;"@[1] != "&rail;"@[1]);
            reveal_strlit("&rommyth;");
            reveal_strlit("&Shinto;");
            reveal_strlit("&shogi;");
            reveal_strlit("&ski;");
            reveal_strlit("&sports;");
            reveal_strlit("&stat;");
            assert("&zool;"@[1] != "&stat;"@[1]);
            reveal_strlit("&stockm;");
            reveal_strlit("&sumo;");
            assert("&zool;"@[1] != "&sumo;"@[1]);
            reveal_strlit("&surg;");
            assert("&zool;"@[1] != "&surg;"@[1]);
            reveal_strlit("&telec;");
            reveal_strlit("&tradem;");
            reveal_strlit("&tv;");
            reveal_strlit("&vidg;");
            assert("&zool;"@[1] != "&vidg;"@[1]);
        },
    }
}

/// Parsing the entity reference of a name type, `&` with its name and `;`,
/// gives it back.
#[verifier::rlimit(50)]
#[verifier::spinoff_prover]
pub proof fn lemma_name_type_parse_ident(x: NameType)
    ensures
        NameType::spec_parse("&"@ + x.spec_ident() + ";"@) == Some(x),
{
    reveal_strlit("&");
    reveal_strlit(";");
    match x {
        NameType::Character => {
            reveal_strlit("char");
            reveal_strlit("&char;");
            assert("&"@ + "char"@ + ";"@ =~= "&char;"@);
        },
        NameType::Company => {
            reveal_strlit("company");
            reveal_strlit("&company;");
            assert("&"@ + "company"@ + ";"@ =~= "&company;"@);
            reveal_strlit("&char;");
        },
        NameType::Creature => {
            reveal_strlit("creat");
            reveal_strlit("&creat;");
            assert("&"@ + "creat"@ + ";"@ =~= "&creat;"@);
            reveal_strlit("&char;");
            reveal_strlit("&company;");
        },
        NameType::Deity => {
            reveal_strlit("dei");
            reveal_strlit("&dei;");
            assert("&"@ + "dei"@ + ";"@ =~= "&dei;"@);
            reveal_strlit("&char;");
            reveal_strlit("&company;");
            reveal_strlit("&creat;");
        },
        NameType::Document => {
            reveal_strlit("doc");
            reveal_strlit("&doc;");
            assert("&"@ + "doc"@ + ";"@ =~= "&doc;"@);
            reveal_strlit("&char;");
            reveal_strlit("&company;");
            reveal_strlit("&creat;");
            reveal_strlit("&dei;");
            assert("&doc;"@[2] != "&dei;"@[2]);
        },
        NameType::Event => {
            reveal_strlit("ev");
            reveal_strlit("&ev;");
            assert("&"@ + "ev"@ + ";"@ =~= "&ev;"@);
            reveal_strlit("&char;");
            reveal_strlit("&company;");
            reveal_strlit("&creat;");
            reveal_strlit("&dei;");
            reveal_strlit("&doc;");
        },
        NameType::Feminine => {
            reveal_strlit("fem");
            reveal_strlit("&fem;");
            assert("&"@ + "fem"@ + ";"@ =~= "&fem;"@);
            reveal_strlit("&char;");
            reveal_strlit("&company;");
            reveal_strlit("&creat;");
            reveal_strlit("&dei;");
            assert("&fem;"@[1] != "&dei;"@[1]);
            reveal_strlit("&doc;");
            assert("&fem;"@[1] != "&doc;"@[1]);
            reveal_strlit("&ev;");
        },
        NameType::Fiction => {
            reveal_strlit("fict");
            reveal_strlit("&fict;");
            assert("&"@ + "fict"@ + ";"@ =~= "&fict;"@);
            reveal_strlit("&char;");
            assert("&fict;"@[1] != "&char;"@[1]);
            reveal_strlit("&company;");
            reveal_strlit("&creat;");
            reveal_strlit("&dei;");
            reveal_strlit("&doc;");
            reveal_strlit("&ev;");
            reveal_strlit("&fem;");
        },
        NameType::Given => {
            reveal_strlit("given");
            reveal_strlit("&given;");
            assert("&"@ + "given"@ + ";"@ =~= "&given;"@);
            reveal_strlit("&char;");
            reveal_strlit("&company;");
            reveal_strlit("&creat;");
            assert("&given;"@[1] != "&creat;"@[1]);
            reveal_strlit("&dei;");
            reveal_strlit("&doc;");
            reveal_strlit("&ev;");
            reveal_strlit("&fem;");
            reveal_strlit("&fict;");
        },
        NameType::Group => {
            reveal_strlit("group");
            reveal_strlit("&group;");
            assert("&"@ + "group"@ + ";"@ =~= "&group;"@);
            reveal_strlit("&char;");
            reveal_strlit("&company;");
            reveal_strlit("&creat;");
            assert("&group;"@[1] != "&creat;"@[1]);
            reveal_strlit("&dei;");
            reveal_strlit("&doc;");
            reveal_strlit("&ev;");
            reveal_strlit("&fem;");
            reveal_strlit("&fict;");
            reveal_strlit("&given;");
            assert("&group;"@[2] != "&given;"@[2]);
        },
        NameType::Legend => {
            reveal_strlit("leg");
            reveal_strlit("&leg;");
            assert("&"@ + "leg"@ + ";"@ =~= "&leg;"@);
            reveal_strlit("&char;");
            reveal_strlit("&company;");
            reveal_strlit("&creat;");
            reveal_strlit("&dei;");
            assert("&leg;"@[1] != "&dei;"@[1]);
            reveal_strlit("&doc;");
            assert("&leg;"@[1] != "&doc;"@[1]);
            reveal_strlit("&ev;");
            reveal_strlit("&fem;");
            assert("&leg;"@[1] != "&fem;"@[1]);
            reveal_strlit("&fict;");
            reveal_strlit("&given;");
            reveal_strlit("&group;");
        },
        NameType::Masculine => {
            reveal_strlit("masc");
            reveal_strlit("&masc;");
            assert("&"@ + "masc"@ + ";"@ =~= "&masc;"@);
            reveal_strlit("&char;");
            assert("&masc;"@[1] != "&char;"@[1]);
            reveal_strlit("&company;");
            reveal_strlit("&creat;");
            reveal_strlit("&dei;");
            reveal_strlit("&doc;");
            reveal_strlit("&ev;");
            reveal_strlit("&fem;");
            reveal_strlit("&fict;");
            assert("&masc;"@[1] != "&fict;"@[1]);
            reveal_strlit("&given;");
            reveal_strlit("&group;");
            reveal_strlit("&leg;");
        },
        NameType::Mythology => {
            reveal_strlit("myth");
            reveal_strlit("&myth;");
            assert("&"@ + "myth"@ + ";"@ =~= "&myth;"@);
            reveal_strlit("&char;");
            assert("&myth;"@[1] != "&char;"@[1]);
            reveal_strlit("&company;");
            reveal_strlit("&creat;");
            reveal_strlit("&dei;");
            reveal_strlit("&doc;");
            reveal_strlit("&ev;");
            reveal_strlit("&fem;");
            reveal_strlit("&fict;");
            assert("&myth;"@[1] != "&fict;"@[1]);
            reveal_strlit("&given;");
            reveal_strlit("&group;");
            reveal_strlit("&leg;");
            reveal_strlit("&masc;");
            assert("&myth;"@[2] != "&masc;"@[2]);
        },
        NameType::Object => {
            reveal_strlit("obj");
            reveal_strlit("&obj;");
            assert("&"@ + "obj"@ + ";"@ =~= "&obj;"@);
            reveal_strlit("&char;");
            reveal_strlit("&company;");
            reveal_strlit("&creat;");
            reveal_strlit("&dei;");
            assert("&obj;"@[1] != "&dei;"@[1]);
            reveal_strlit("&doc;");
            assert("&obj;"@[1] != "&doc;"@[1]);
            reveal_strlit("&ev;");
            reveal_strlit("&fem;");
            assert("&obj;"@[1] != "&fem;"@[1]);
            reveal_strlit("&fict;");
            reveal_strlit("&given;");
            reveal_strlit("&group;");
            reveal_strlit("&leg;");
            assert("&obj;"@[1] != "&leg;"@[1]);
            reveal_strlit("&masc;");
            reveal_strlit("&myth;");
        },
        NameType::Organization => {
            reveal_strlit("organization");
            reveal_strlit("&organization;");
            assert("&"@ + "organization"@ + ";"@ =~= "&organization;"@);
            reveal_strlit("&char;");
            reveal_strlit("&company;");
            reveal_strlit("&creat;");
            reveal_strlit("&dei;");
            reveal_strlit("&doc;");
            reveal_strlit("&ev;");
            reveal_strlit("&fem;");
            reveal_strlit("&fict;");
            reveal_strlit("&given;");
            reveal_strlit("&group;");
            reveal_strlit("&leg;");
            reveal_strlit("&masc;");
            reveal_strlit("&myth;");
            reveal_strlit("&obj;");
        },
        NameType::Other => {
            reveal_strlit("oth");
            reveal_strlit("&oth;");
            assert("&"@ + "oth"@ + ";"@ =~= "&oth;"@);
            reveal_strlit("&char;");
            reveal_strlit("&company;");
            reveal_strlit("&creat;");
            reveal_strlit("&dei;");
            assert("&oth;"@[1] != "&dei;"@[1]);
            reveal_strlit("&doc;");
            assert("&oth;"@[1] != "&doc;"@[1]);
            reveal_strlit("&ev;");
            reveal_strlit("&fem;");
            assert("&oth;"@[1] != "&fem;"@[1]);
            reveal_strlit("&fict;");
            reveal_strlit("&given;");
            reveal_strlit("&group;");
            reveal_strlit("&leg;");
            assert("&oth;"@[1] != "&leg;"@[1]);
            reveal_strlit("&masc;");
            reveal_strlit("&myth;");
            reveal_strlit("&obj;");
            assert("&oth;"@[2] != "&obj;"@[2]);
            reveal_strlit("&organization;");
        },
        NameType::Person => {
            reveal_strlit("person");
            reveal_strlit("&person;");
            assert("&"@ + "person"@ + ";"@ =~= "&person;"@);
            reveal_strlit("&char;");
            reveal_strlit("&company;");
            reveal_strlit("&creat;");
            reveal_strlit("&dei;");
            reveal_strlit("&doc;");
            reveal_strlit("&ev;");
            reveal_strlit("&fem;");
            reveal_strlit("&fict;");
            reveal_strlit("&given;");
            reveal_strlit("&group;");
            reveal_strlit("&leg;");
            reveal_strlit("&masc;");
            reveal_strlit("&myth;");
            reveal_strlit("&obj;");
            reveal_strlit("&organization;");
            reveal_strlit("&oth;");
        },
        NameType::Place => {
            reveal_strlit("place");
            reveal_strlit("&place;");
            assert("&"@ + "place"@ + ";"@ =~= "&place;"@);
            reveal_strlit("&char;");
            reveal_strlit("&company;");
            reveal_strlit("&creat;");
            assert("&place;"@[1] != "&creat;"@[1]);
            reveal_strlit("&dei;");
            reveal_strlit("&doc;");
            reveal_strlit("&ev;");
            reveal_strlit("&fem;");
            reveal_strlit("&fict;");
            reveal_strlit("&given;");
            assert("&place;"@[1] != "&given;"@[1]);
            reveal_strlit("&group;");
            assert("&place;"@[1] != "&group;"@[1]);
            reveal_strlit("&leg;");
            reveal_strlit("&masc;");
            reveal_strlit("&myth;");
            reveal_strlit("&obj;");
            reveal_strlit("&organization;");
            reveal_strlit("&oth;");
            reveal_strlit("&person;");
        },
        NameType::Product => {
            reveal_strlit("product");
            reveal_strlit("&product;");
            assert("&"@ + "product"@ + ";"@ =~= "&product;"@);
            reveal_strlit("&char;");
            reveal_strlit("&company;");
            assert("&product;"@[1] != "&company;"@[1]);
            reveal_strlit("&creat;");
            reveal_strlit("&dei;");
            reveal_strlit("&doc;");
            reveal_strlit("&ev;");
            reveal_strlit("&fem;");
            reveal_strlit("&fict;");
            reveal_strlit("&given;");
            reveal_strlit("&group;");
            reveal_strlit("&leg;");
            reveal_strlit("&masc;");
            reveal_strlit("&myth;");
            reveal_strlit("&obj;");
            reveal_strlit("&organization;");
            reveal_strlit("&oth;");
            reveal_strlit("&person;");
            reveal_strlit("&place;");
        },
        NameType::Religion => {
            reveal_strlit("relig");
            reveal_strlit("&relig;");
            assert("&"@ + "relig"@ + ";"@ =~= "&relig;"@);
            reveal_strlit("&char;");
            reveal_strlit("&company;");
            reveal_strlit("&creat;");
            assert("&relig;"@[1] != "&creat;"@[1]);
            reveal_strlit("&dei;");
            reveal_strlit("&doc;");
            reveal_strlit("&ev;");
            reveal_strlit("&fem;");
            reveal_strlit("&fict;");
            reveal_strlit("&given;");
            assert("&relig;"@[1] != "&given;"@[1]);
            reveal_strlit("&group;");
            assert("&relig;"@[1] != "&group;"@[1]);
            reveal_strlit("&leg;");
            reveal_strlit("&masc;");
            reveal_strlit("&myth;");
            reveal_strlit("&obj;");
            reveal_strlit("&organization;");
            reveal_strlit("&oth;");
            reveal_strlit("&person;");
            reveal_strlit("&place;");
            assert("&relig;"@[1] != "&place;"@[1]);
            reveal_strlit("&product;");
        },
        NameType::Service => {
            reveal_strlit("serv");
            reveal_strlit("&serv;");
            assert("&"@ + "serv"@ + ";"@ =~= "&serv;"@);
            reveal_strlit("&char;");
            assert("&serv;"@[1] != "&char;"@[1]);
            reveal_strlit("&company;");
            reveal_strlit("&creat;");
            reveal_strlit("&dei;");
            reveal_strlit("&doc;");
            reveal_strlit("&ev;");
            reveal_strlit("&fem;");
            reveal_strlit("&fict;");
            assert("&serv;"@[1] != "&fict;"@[1]);
            reveal_strlit("&given;");
            reveal_strlit("&group;");
            reveal_strlit("&leg;");
            reveal_strlit("&masc;");
            assert("&serv;"@[1] != "&masc;"@[1]);
            reveal_strlit("&myth;");
            assert("&serv;"@[1] != "&myth;"@[1]);
            reveal_strlit("&obj;");
            reveal_strlit("&organization;");
            reveal_strlit("&oth;");
            reveal_strlit("&person;");
            reveal_strlit("&place;");
            reveal_strlit("&product;");
            reveal_strlit("&relig;");
        },
        NameType::Ship => {
            reveal_strlit("ship");
            reveal_strlit("&ship;");
            assert("&"@ + "ship"@ + ";"@ =~= "&ship;"@);
            reveal_strlit("&char;");
            assert("&ship;"@[1] != "&char;"@[1]);
            reveal_strlit("&company;");
            reveal_strlit("&creat;");
            reveal_strlit("&dei;");
            reveal_strlit("&doc;");
            reveal_strlit("&ev;");
            reveal_strlit("&fem;");
            reveal_strlit("&fict;");
            assert("&ship;"@[1] != "&fict;"@[1]);
            reveal_strlit("&given;");
            reveal_strlit("&group;");
            reveal_strlit("&leg;");
            reveal_strlit("&masc;");
            assert("&ship;"@[1] != "&masc;"@[1]);
            reveal_strlit("&myth;");
            assert("&ship;"@[1] != "&myth;"@[1]);
            reveal_strlit("&obj;");
            reveal_strlit("&organization;");
            reveal_strlit("&oth;");
            reveal_strlit("&person;");
            reveal_strlit("&place;");
            reveal_strlit("&product;");
            reveal_strlit("&relig;");
            reveal_strlit("&serv;");
            assert("&ship;"@[2] != "&serv;"@[2]);
        },
        NameType::Station => {
            reveal_strlit("station");
            reveal_strlit("&station;");
            assert("&"@ + "station"@ + ";"@ =~= "&station;"@);
            reveal_strlit("&char;");
            reveal_strlit("&company;");
            assert("&station;"@[1] != "&company;"@[1]);
            reveal_strlit("&creat;");
            reveal_strlit("&dei;");
            reveal_strlit("&doc;");
            reveal_strlit("&ev;");
            reveal_strlit("&fem;");
            reveal_strlit("&fict;");
            reveal_strlit("&given;");
            reveal_strlit("&group;");
            reveal_strlit("&leg;");
            reveal_strlit("&masc;");
            reveal_strlit("&myth;");
            reveal_strlit("&obj;");
            reveal_strlit("&organization;");
            reveal_strlit("&oth;");
            reveal_strlit("&person;");
            reveal_strlit("&place;");
            reveal_strlit("&product;");
            assert("&station;"@[1] != "&product;"@[1]);
            reveal_strlit("&relig;");
            reveal_strlit("&serv;");
            reveal_strlit("&ship;");
        },
        NameType::Surname => {
            reveal_strlit("surname");
            reveal_strlit("&surname;");
            assert("&"@ + "surname"@ + ";"@ =~= "&surname;"@);
            reveal_strlit("&char;");
            reveal_strlit("&company;");
            assert("&surname;"@[1] != "&company;"@[1]);
            reveal_strlit("&creat;");
            reveal_strlit("&dei;");
            reveal_strlit("&doc;");
            reveal_strlit("&ev;");
            reveal_strlit("&fem;");
            reveal_strlit("&fict;");
            reveal_strlit("&given;");
            reveal_strlit("&group;");
            reveal_strlit("&leg;");
            reveal_strlit("&masc;");
            reveal_strlit("&myth;");
            reveal_strlit("&obj;");
            reveal_strlit("&organization;");
            reveal_strlit("&oth;");
            reveal_strlit("&person;");
            reveal_strlit("&place;");
            reveal_strlit("&product;");
            assert("&surname;"@[1] != "&product;"@[1]);
            reveal_strlit("&relig;");
            reveal_strlit("&serv;");
            reveal_strlit("&ship;");
            reveal_strlit("&station;");
            assert("&surname;"@[2] != "&station;"@[2]);
        },
        NameType::Unclassified => {
            reveal_strlit("unclass");
            reveal_strlit("&unclass;");
            assert("&"@ + "unclass"@ + ";"@ =~= "&unclass;"@);
            reveal_strlit("&char;");
            reveal_strlit("&company;");
            assert("&unclass;"@[1] != "&company;"@[1]);
            reveal_strlit("&creat;");
            reveal_strlit("&dei;");
            reveal_strlit("&doc;");
            reveal_strlit("&ev;");
            reveal_strlit("&fem;");
            reveal_strlit("&fict;");
            reveal_strlit("&given;");
            reveal_strlit("&group;");
            reveal_strlit("&leg;");
            reveal_strlit("&masc;");
            reveal_strlit("&myth;");
            reveal_strlit("&obj;");
            reveal_strlit("&organization;");
            reveal_strlit("&oth;");
            reveal_strlit("&person;");
            reveal_strlit("&place;");
            reveal_strlit("&product;");
            assert("&unclass;"@[1] != "&product;"@[1]);
            reveal_strlit("&relig;");
            reveal_strlit("&serv;");
            reveal_strlit("&ship;");
            reveal_strlit("&station;");
            assert("&unclass;"@[1] != "&station;"@[1]);
            reveal_strlit("&surname;");
            assert("&unclass;"@[1] != "&surname;"@[1]);
        },
        NameType::Work => {
            reveal_strlit("work");
            reveal_strlit("&work;");
            assert("&"@ + "work"@ + ";"@ =~= "&work;"@);
            reveal_strlit("&char;");
            assert("&work;"@[1] != "&char;"@[1]);
            reveal_strlit("&company;");
            reveal_strlit("&creat;");
            reveal_strlit("&dei;");
            reveal_strlit("&doc;");
            reveal_strlit("&ev;");
            reveal_strlit("&fem;");
            reveal_strlit("&fict;");
            assert("&work;"@[1] != "&fict;"@[1]);
            reveal_strlit("&given;");
            reveal_strlit("&group;");
            reveal_strlit("&leg;");
            reveal_strlit("&masc;");
            assert("&work;"@[1] != "&masc;"@[1]);
            reveal_strlit("&myth;");
            assert("&work;"@[1] != "&myth;"@[1]);
            reveal_strlit("&obj;");
            reveal_strlit("&organization;");
            reveal_strlit("&oth;");
            reveal_strlit("&person;");
            reveal_strlit("&place;");
            reveal_strlit("&product;");
            reveal_strlit("&relig;");
            reveal_strlit("&serv;");
            assert("&work;"@[1] != "&serv;"@[1]);
            reveal_strlit("&ship;");
            assert("&work;"@[1] != "&ship;"@[1]);
            reveal_strlit("&station;");
            reveal_strlit("&surname;");
            reveal_strlit("&unclass;");
        },
    }
}

} // verus!
