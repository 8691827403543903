//! The grammatical forms an inflection can be made of.

use vstd::prelude::*;

verus! {

/// A grammatical form which an inflection may combine with others.
#[derive(Debug, Clone, Copy, PartialEq, Eq, Structural, Hash, PartialOrd, Ord)]
pub enum Form {
    /// stem / infinite
    Stem,
    /// 敬語 (ていご) honorific speech
    Honorific,
    /// not doing ~, the absense of ~
    Negative,
    /// ～te form, by itself acts as a command
    Te,
    /// ～てある, resulting, is / has been done
    TeAru,
    /// ～ている, progressive, shows that something is currently happening or ongoing
    TeIru,
    /// ～ていく, starting, to start, to continue, to go on
    TeIku,
    /// ～てくる, to do .. and come back, to become, to continue, to start ~
    TeKuru,
    /// ～ておく, to do something in advance
    TeOku,
    /// ～てしまう, to do something by accident, to finish completely
    TeShimau,
    /// ～たい, expressing desire
    Tai,
    /// ～やすい, easy to do ~
    EasyTo,
    /// ～にくい, hard to do ~
    HardTo,
    /// ～たがる, noting desire
    TaGaRu,
    /// causative, make ~ do something, let / allow ~
    Causative,
    /// ～ちゃう, to do something by accident, to finish completely
    Chau,
    /// command forms, よ / なさい / ください
    Command,
    /// ～てください, alternate command form
    CommandTeKudasai,
    /// ～よ, alternate command form
    CommandYo,
    /// ～たら, conditional, if ~, when ~
    Conditional,
    /// ～だろう, alternate form
    Darou,
    /// hypothetical, if ~
    Hypothetical,
    /// ～きゃ, alternative hypothetical negative, if not ~
    Kya,
    /// ～られる, passive, ~ was done to someone or something
    Passive,
    /// 過去形 (かこけい) past tense
    Past,
    /// potential, can do ~
    Potential,
    /// ～ながら, simultaneous, while ~
    Simultaneous,
    /// ～よう, volitional / presumptive, let's do ~
    Volitional,
    /// ～そう, looks like
    LooksLike,
    /// alternate shortened form
    Short,
    /// conversational / colloquial
    Conversation,
}

/// The number of forms.
pub const FORM_COUNT: usize = 31;

/// The position of a form in declaration order.
pub open spec fn form_index(f: Form) -> int {
    match f {
        Form::Stem => 0,
        Form::Honorific => 1,
        Form::Negative => 2,
        Form::Te => 3,
        Form::TeAru => 4,
        Form::TeIru => 5,
        Form::TeIku => 6,
        Form::TeKuru => 7,
        Form::TeOku => 8,
        Form::TeShimau => 9,
        Form::Tai => 10,
        Form::EasyTo => 11,
        Form::HardTo => 12,
        Form::TaGaRu => 13,
        Form::Causative => 14,
        Form::Chau => 15,
        Form::Command => 16,
        Form::CommandTeKudasai => 17,
        Form::CommandYo => 18,
        Form::Conditional => 19,
        Form::Darou => 20,
        Form::Hypothetical => 21,
        Form::Kya => 22,
        Form::Passive => 23,
        Form::Past => 24,
        Form::Potential => 25,
        Form::Simultaneous => 26,
        Form::Volitional => 27,
        Form::LooksLike => 28,
        Form::Short => 29,
        Form::Conversation => 30,
    }
}

/// The form at a position in declaration order.
pub open spec fn form_at(i: int) -> Form {
    
if i == 0 {
        Form::Stem
    } else if i == 1 {
        Form::Honorific
    } else if i == 2 {
        Form::Negative
    } else if i == 3 {
        Form::Te
    } else if i == 4 {
        Form::TeAru
    } else if i == 5 {
        Form::TeIru
    } else if i == 6 {
        Form::TeIku
    } else if i == 7 {
        Form::TeKuru
    } else if i == 8 {
        Form::TeOku
    } else if i == 9 {
        Form::TeShimau
    } else if i == 10 {
        Form::Tai
    } else if i == 11 {
        Form::EasyTo
    } else if i == 12 {
        Form::HardTo
    } else if i == 13 {
        Form::TaGaRu
    } else if i == 14 {
        Form::Causative
    } else if i == 15 {
        Form::Chau
    } else if i == 16 {
        Form::Command
    } else if i == 17 {
        Form::CommandTeKudasai
    } else if i == 18 {
        Form::CommandYo
    } else if i == 19 {
        Form::Conditional
    } else if i == 20 {
        Form::Darou
    } else if i == 21 {
        Form::Hypothetical
    } else if i == 22 {
        Form::Kya
    } else if i == 23 {
        Form::Passive
    } else if i == 24 {
        Form::Past
    } else if i == 25 {
        Form::Potential
    } else if i == 26 {
        Form::Simultaneous
    } else if i == 27 {
        Form::Volitional
    } else if i == 28 {
        Form::LooksLike
    } else if i == 29 {
        Form::Short
    } else {
        Form::Conversation
    }
}

/// The short description of a form.
pub open spec fn spec_describe(f: Form) -> Seq<char> {
    match f {
        Form::Stem => "stem"@,
        Form::Honorific => "敬語"@,
        Form::Negative => "not"@,
        Form::Te => "～て"@,
        Form::TeAru => "～てある"@,
        Form::TeIru => "～ている"@,
        Form::TeIku => "～ていく"@,
        Form::TeKuru => "～てくる"@,
        Form::TeOku => "～ておく"@,
        Form::TeShimau => "～てしまう"@,
        Form::Tai => "～たい"@,
        Form::EasyTo => "easy"@,
        Form::HardTo => "hard"@,
        Form::TaGaRu => "～たがる"@,
        Form::Causative => "caus"@,
        Form::Chau => "～ちゃう"@,
        Form::Command => "cmd"@,
        Form::CommandTeKudasai => "～てください"@,
        Form::CommandYo => "～よ"@,
        Form::Conditional => "cond"@,
        Form::Darou => "～だろう"@,
        Form::Hypothetical => "hyp"@,
        Form::Kya => "～きゃ"@,
        Form::Passive => "psv"@,
        Form::Past => "past"@,
        Form::Potential => "pot"@,
        Form::Simultaneous => "～ながら"@,
        Form::Volitional => "vol"@,
        Form::LooksLike => "～そう"@,
        Form::Short => "short"@,
        Form::Conversation => "clq"@,
    }
}

/// The longer title of a form.
pub open spec fn spec_title(f: Form) -> Seq<char> {
    match f {
        Form::Stem => "stem / infinite"@,
        Form::Honorific => "敬語 (ていご) honorific speech"@,
        Form::Negative => "not doing ~, the absense of ~"@,
        Form::Te => "～te form, by itself acts as a command"@,
        Form::TeAru => "～てある, resulting, is / has been done"@,
        Form::TeIru => "～ている, progressive, shows that something is currently happening or ongoing"@,
        Form::TeIku => "～ていく, starting, to start, to continue, to go on"@,
        Form::TeKuru => "～てくる, to do .. and come back, to become, to continue, to start ~"@,
        Form::TeOku => "～ておく, to do something in advance"@,
        Form::TeShimau => "～てしまう, to do something by accident, to finish completely"@,
        Form::Tai => "～たい, expressing desire"@,
        Form::EasyTo => "～やすい, easy to do ~"@,
        Form::HardTo => "～にくい, hard to do ~"@,
        Form::TaGaRu => "～たがる, noting desire"@,
        Form::Causative => "causative, make ~ do something, let / allow ~"@,
        Form::Chau => "～ちゃう, to do something by accident, to finish completely"@,
        Form::Command => "command forms, よ / なさい / ください"@,
        Form::CommandTeKudasai => "～てください, alternate command form"@,
        Form::CommandYo => "～よ, alternate command form"@,
        Form::Conditional => "～たら, conditional, if ~, when ~"@,
        Form::Darou => "～だろう, alternate form"@,
        Form::Hypothetical => "hypothetical, if ~"@,
        Form::Kya => "～きゃ, alternative hypothetical negative, if not ~"@,
        Form::Passive => "～られる, passive, ~ was done to someone or something"@,
        Form::Past => "過去形 (かこけい) past tense"@,
        Form::Potential => "potential, can do ~"@,
        Form::Simultaneous => "～ながら, simultaneous, while ~"@,
        Form::Volitional => "～よう, volitional / presumptive, let's do ~"@,
        Form::LooksLike => "～そう, looks like"@,
        Form::Short => "alternate shortened form"@,
        Form::Conversation => "conversational / colloquial"@,
    }
}

/// The tutorial URL of a form, if it has one.
pub open spec fn spec_url(f: Form) -> Option<Seq<char>> {
    match f {
        Form::Stem => None,
        Form::Honorific => None,
        Form::Negative => None,
        Form::Te => Some("https://www.tofugu.com/japanese-grammar/te-form/"@),
        Form::TeAru => Some("https://www.tofugu.com/japanese-grammar/tearu/"@),
        Form::TeIru => Some("https://www.tofugu.com/japanese-grammar/verb-continuous-form-teiru/"@),
        Form::TeIku => Some("https://www.tofugu.com/japanese-grammar/teiku-tekuru/"@),
        Form::TeKuru => Some("https://www.tofugu.com/japanese-grammar/teiku-tekuru/"@),
        Form::TeOku => Some("https://www.tofugu.com/japanese-grammar/teoku/"@),
        Form::TeShimau => None,
        Form::Tai => Some("https://www.tofugu.com/japanese-grammar/tai-form/"@),
        Form::EasyTo => Some("https://www.tofugu.com/japanese-grammar/yasui/"@),
        Form::HardTo => Some("https://www.tofugu.com/japanese-grammar/nikui/"@),
        Form::TaGaRu => Some("https://www.tofugu.com/japanese-grammar/tagaru-form/"@),
        Form::Causative => Some("https://www.tofugu.com/japanese-grammar/verb-causative-form-saseru/"@),
        Form::Chau => None,
        Form::Command => Some("https://www.tofugu.com/japanese-grammar/verb-command-form-ro/"@),
        Form::CommandTeKudasai => Some("https://www.tofugu.com/japanese-grammar/kudasai/"@),
        Form::CommandYo => None,
        Form::Conditional => Some("https://www.tofugu.com/japanese-grammar/conditional-form-tara/"@),
        Form::Darou => Some("https://www.tofugu.com/japanese-grammar/darou/"@),
        Form::Hypothetical => None,
        Form::Kya => None,
        Form::Passive => Some("https://www.tofugu.com/japanese-grammar/verb-passive-form-rareru/"@),
        Form::Past => None,
        Form::Potential => Some("https://www.tofugu.com/japanese-grammar/verb-potential-form-reru/"@),
        Form::Simultaneous => Some("https://www.tofugu.com/japanese-grammar/verb-nagara/"@),
        Form::Volitional => Some("https://www.tofugu.com/japanese-grammar/verb-volitional-form-you/"@),
        Form::LooksLike => Some("https://www.tofugu.com/japanese-grammar/verb-sou/"@),
        Form::Short => None,
        Form::Conversation => None,
    }
}

impl Form {
    /// All forms, in declaration order.
    pub fn all() -> (r: [Form; 31])
        ensures
            forall|i: int| 0 <= i < 31 ==> r@[i] == form_at(i),
    {
        [
            Form::Stem,
            Form::Honorific,
            Form::Negative,
            Form::Te,
            Form::TeAru,
            Form::TeIru,
            Form::TeIku,
            Form::TeKuru,
            Form::TeOku,
            Form::TeShimau,
            Form::Tai,
            Form::EasyTo,
            Form::HardTo,
            Form::TaGaRu,
            Form::Causative,
            Form::Chau,
            Form::Command,
            Form::CommandTeKudasai,
            Form::CommandYo,
            Form::Conditional,
            Form::Darou,
            Form::Hypothetical,
            Form::Kya,
            Form::Passive,
            Form::Past,
            Form::Potential,
            Form::Simultaneous,
            Form::Volitional,
            Form::LooksLike,
            Form::Short,
            Form::Conversation,
        ]
    }

    /// The position of the form in declaration order.
    pub fn index(&self) -> (r: u32)
        ensures
            r == form_index(*self),
            r < 31,
    {
        match self {
            Form::Stem => 0,
            Form::Honorific => 1,
            Form::Negative => 2,
            Form::Te => 3,
            Form::TeAru => 4,
            Form::TeIru => 5,
            Form::TeIku => 6,
            Form::TeKuru => 7,
            Form::TeOku => 8,
            Form::TeShimau => 9,
            Form::Tai => 10,
            Form::EasyTo => 11,
            Form::HardTo => 12,
            Form::TaGaRu => 13,
            Form::Causative => 14,
            Form::Chau => 15,
            Form::Command => 16,
            Form::CommandTeKudasai => 17,
            Form::CommandYo => 18,
            Form::Conditional => 19,
            Form::Darou => 20,
            Form::Hypothetical => 21,
            Form::Kya => 22,
            Form::Passive => 23,
            Form::Past => 24,
            Form::Potential => 25,
            Form::Simultaneous => 26,
            Form::Volitional => 27,
            Form::LooksLike => 28,
            Form::Short => 29,
            Form::Conversation => 30,
        }
    }

    /// The form at a position in declaration order.
    pub fn from_index(i: u32) -> (r: Form)
        requires
            i < 31,
        ensures
            r == form_at(i as int),
            form_index(r) == i,
    {
        match i {
            0 => Form::Stem,
            1 => Form::Honorific,
            2 => Form::Negative,
            3 => Form::Te,
            4 => Form::TeAru,
            5 => Form::TeIru,
            6 => Form::TeIku,
            7 => Form::TeKuru,
            8 => Form::TeOku,
            9 => Form::TeShimau,
            10 => Form::Tai,
            11 => Form::EasyTo,
            12 => Form::HardTo,
            13 => Form::TaGaRu,
            14 => Form::Causative,
            15 => Form::Chau,
            16 => Form::Command,
            17 => Form::CommandTeKudasai,
            18 => Form::CommandYo,
            19 => Form::Conditional,
            20 => Form::Darou,
            21 => Form::Hypothetical,
            22 => Form::Kya,
            23 => Form::Passive,
            24 => Form::Past,
            25 => Form::Potential,
            26 => Form::Simultaneous,
            27 => Form::Volitional,
            28 => Form::LooksLike,
            29 => Form::Short,
            _ => Form::Conversation,
        }
    }

    /// Describe the form.
    pub fn describe(&self) -> (r: &'static str)
        ensures
            r@ == spec_describe(*self),
    {
        let r = match self {
            Form::Stem => "stem",
            Form::Honorific => "敬語",
            Form::Negative => "not",
            Form::Te => "～て",
            Form::TeAru => "～てある",
            Form::TeIru => "～ている",
            Form::TeIku => "～ていく",
            Form::TeKuru => "～てくる",
            Form::TeOku => "～ておく",
            Form::TeShimau => "～てしまう",
            Form::Tai => "～たい",
            Form::EasyTo => "easy",
            Form::HardTo => "hard",
            Form::TaGaRu => "～たがる",
            Form::Causative => "caus",
            Form::Chau => "～ちゃう",
            Form::Command => "cmd",
            Form::CommandTeKudasai => "～てください",
            Form::CommandYo => "～よ",
            Form::Conditional => "cond",
            Form::Darou => "～だろう",
            Form::Hypothetical => "hyp",
            Form::Kya => "～きゃ",
            Form::Passive => "psv",
            Form::Past => "past",
            Form::Potential => "pot",
            Form::Simultaneous => "～ながら",
            Form::Volitional => "vol",
            Form::LooksLike => "～そう",
            Form::Short => "short",
            Form::Conversation => "clq",
        };
        r
    }

    /// Longer title for the form.
    pub fn title(&self) -> (r: &'static str)
        ensures
            r@ == spec_title(*self),
    {
        let r = match self {
            Form::Stem => "stem / infinite",
            Form::Honorific => "敬語 (ていご) honorific speech",
            Form::Negative => "not doing ~, the absense of ~",
            Form::Te => "～te form, by itself acts as a command",
            Form::TeAru => "～てある, resulting, is / has been done",
            Form::TeIru => "～ている, progressive, shows that something is currently happening or ongoing",
            Form::TeIku => "～ていく, starting, to start, to continue, to go on",
            Form::TeKuru => "～てくる, to do .. and come back, to become, to continue, to start ~",
            Form::TeOku => "～ておく, to do something in advance",
            Form::TeShimau => "～てしまう, to do something by accident, to finish completely",
            Form::Tai => "～たい, expressing desire",
            Form::EasyTo => "～やすい, easy to do ~",
            Form::HardTo => "～にくい, hard to do ~",
            Form::TaGaRu => "～たがる, noting desire",
            Form::Causative => "causative, make ~ do something, let / allow ~",
            Form::Chau => "～ちゃう, to do something by accident, to finish completely",
            Form::Command => "command forms, よ / なさい / ください",
            Form::CommandTeKudasai => "～てください, alternate command form",
            Form::CommandYo => "～よ, alternate command form",
            Form::Conditional => "～たら, conditional, if ~, when ~",
            Form::Darou => "～だろう, alternate form",
            Form::Hypothetical => "hypothetical, if ~",
            Form::Kya => "～きゃ, alternative hypothetical negative, if not ~",
            Form::Passive => "～られる, passive, ~ was done to someone or something",
            Form::Past => "過去形 (かこけい) past tense",
            Form::Potential => "potential, can do ~",
            Form::Simultaneous => "～ながら, simultaneous, while ~",
            Form::Volitional => "～よう, volitional / presumptive, let's do ~",
            Form::LooksLike => "～そう, looks like",
            Form::Short => "alternate shortened form",
            Form::Conversation => "conversational / colloquial",
        };
        r
    }

    /// Tutorial URL for the form.
    pub fn url(&self) -> (r: Option<&'static str>)
        ensures
            match r {
                Some(u) => spec_url(*self) == Some(u@),
                None => spec_url(*self) is None,
            },
    {
        let r = match self {
            Form::Stem => None,
            Form::Honorific => None,
            Form::Negative => None,
            Form::Te => Some("https://www.tofugu.com/japanese-grammar/te-form/"),
            Form::TeAru => Some("https://www.tofugu.com/japanese-grammar/tearu/"),
            Form::TeIru => Some("https://www.tofugu.com/japanese-grammar/verb-continuous-form-teiru/"),
            Form::TeIku => Some("https://www.tofugu.com/japanese-grammar/teiku-tekuru/"),
            Form::TeKuru => Some("https://www.tofugu.com/japanese-grammar/teiku-tekuru/"),
            Form::TeOku => Some("https://www.tofugu.com/japanese-grammar/teoku/"),
            Form::TeShimau => None,
            Form::Tai => Some("https://www.tofugu.com/japanese-grammar/tai-form/"),
            Form::EasyTo => Some("https://www.tofugu.com/japanese-grammar/yasui/"),
            Form::HardTo => Some("https://www.tofugu.com/japanese-grammar/nikui/"),
            Form::TaGaRu => Some("https://www.tofugu.com/japanese-grammar/tagaru-form/"),
            Form::Causative => Some("https://www.tofugu.com/japanese-grammar/verb-causative-form-saseru/"),
            Form::Chau => None,
            Form::Command => Some("https://www.tofugu.com/japanese-grammar/verb-command-form-ro/"),
            Form::CommandTeKudasai => Some("https://www.tofugu.com/japanese-grammar/kudasai/"),
            Form::CommandYo => None,
            Form::Conditional => Some("https://www.tofugu.com/japanese-grammar/conditional-form-tara/"),
            Form::Darou => Some("https://www.tofugu.com/japanese-grammar/darou/"),
            Form::Hypothetical => None,
            Form::Kya => None,
            Form::Passive => Some("https://www.tofugu.com/japanese-grammar/verb-passive-form-rareru/"),
            Form::Past => None,
            Form::Potential => Some("https://www.tofugu.com/japanese-grammar/verb-potential-form-reru/"),
            Form::Simultaneous => Some("https://www.tofugu.com/japanese-grammar/verb-nagara/"),
            Form::Volitional => Some("https://www.tofugu.com/japanese-grammar/verb-volitional-form-you/"),
            Form::LooksLike => Some("https://www.tofugu.com/japanese-grammar/verb-sou/"),
            Form::Short => None,
            Form::Conversation => None,
        };
        r
    }
}

/// Declaration order is a bijection between forms and `0..31`.
pub proof fn lemma_form_index(f: Form)
    ensures
        0 <= form_index(f) < 31,
        form_at(form_index(f)) == f,
{
}

/// Each position in `0..31` holds the form at that position.
pub proof fn lemma_form_at(i: int)
    requires
        0 <= i < 31,
    ensures
        form_index(form_at(i)) == i,
{
}

} // verus!
