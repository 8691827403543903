//! The kana conversion table.

use vstd::prelude::*;
use vstd::string::*;

verus! {

/// The number of entries of the conversion table.
pub const TABLE_LEN: usize = 113;

/// An entry of the conversion table: hiragana, katakana, the Hepburn
/// romanization and an alternative romanization.
pub open spec fn table(i: int) -> (Seq<char>, Seq<char>, Seq<char>, Option<Seq<char>>) {
    if i == 0 {
        ("きゃ"@, "キャ"@, "kya"@, None)
    } else if i == 1 {
        ("きゅ"@, "キュ"@, "kyu"@, None)
    } else if i == 2 {
        ("きょ"@, "キョ"@, "kyo"@, None)
    } else if i == 3 {
        ("しゃ"@, "シャ"@, "sha"@, Some("sya"@))
    } else if i == 4 {
        ("しゅ"@, "シュ"@, "shu"@, Some("syu"@))
    } else if i == 5 {
        ("しょ"@, "ショ"@, "sho"@, Some("syo"@))
    } else if i == 6 {
        ("ちゃ"@, "チャ"@, "cha"@, Some("tya"@))
    } else if i == 7 {
        ("ちゅ"@, "チュ"@, "chu"@, Some("tyu"@))
    } else if i == 8 {
        ("ちょ"@, "チョ"@, "cho"@, Some("tyo"@))
    } else if i == 9 {
        ("にゃ"@, "ニャ"@, "nya"@, None)
    } else if i == 10 {
        ("にゅ"@, "ニュ"@, "nyu"@, None)
    } else if i == 11 {
        ("にょ"@, "ニョ"@, "nyo"@, None)
    } else if i == 12 {
        ("ひゃ"@, "ヒャ"@, "hya"@, None)
    } else if i == 13 {
        ("ひゅ"@, "ヒュ"@, "hyu"@, None)
    } else if i == 14 {
        ("ひょ"@, "ヒョ"@, "hyo"@, None)
    } else if i == 15 {
        ("みゃ"@, "ミャ"@, "mya"@, None)
    } else if i == 16 {
        ("みゅ"@, "ミュ"@, "myu"@, None)
    } else if i == 17 {
        ("みょ"@, "ミョ"@, "myo"@, None)
    } else if i == 18 {
        ("りゃ"@, "リャ"@, "rya"@, None)
    } else if i == 19 {
        ("りゅ"@, "リュ"@, "ryu"@, None)
    } else if i == 20 {
        ("りょ"@, "リョ"@, "ryo"@, None)
    } else if i == 21 {
        ("ぎゃ"@, "ギャ"@, "gya"@, None)
    } else if i == 22 {
        ("ぎゅ"@, "ギュ"@, "gyu"@, None)
    } else if i == 23 {
        ("ぎょ"@, "ギョ"@, "gyo"@, None)
    } else if i == 24 {
        ("じゃ"@, "ジャ"@, "ja"@, Some("zya"@))
    } else if i == 25 {
        ("じゅ"@, "ジュ"@, "ju"@, Some("zyu"@))
    } else if i == 26 {
        ("じょ"@, "ジョ"@, "jo"@, Some("zyo"@))
    } else if i == 27 {
        ("びゃ"@, "ビャ"@, "bya"@, None)
    } else if i == 28 {
        ("びゅ"@, "ビュ"@, "byu"@, None)
    } else if i == 29 {
        ("びょ"@, "ビョ"@, "byo"@, None)
    } else if i == 30 {
        ("ぴゃ"@, "ピャ"@, "pya"@, None)
    } else if i == 31 {
        ("ぴゅ"@, "ピュ"@, "pyu"@, None)
    } else if i == 32 {
        ("ぴょ"@, "ピョ"@, "pyo"@, None)
    } else if i == 33 {
        ("あ"@, "ア"@, "a"@, None)
    } else if i == 34 {
        ("い"@, "イ"@, "i"@, None)
    } else if i == 35 {
        ("う"@, "ウ"@, "u"@, None)
    } else if i == 36 {
        ("え"@, "エ"@, "e"@, None)
    } else if i == 37 {
        ("お"@, "オ"@, "o"@, None)
    } else if i == 38 {
        ("か"@, "カ"@, "ka"@, None)
    } else if i == 39 {
        ("き"@, "キ"@, "ki"@, None)
    } else if i == 40 {
        ("く"@, "ク"@, "ku"@, None)
    } else if i == 41 {
        ("け"@, "ケ"@, "ke"@, None)
    } else if i == 42 {
        ("こ"@, "コ"@, "ko"@, None)
    } else if i == 43 {
        ("さ"@, "サ"@, "sa"@, None)
    } else if i == 44 {
        ("し"@, "シ"@, "shi"@, Some("si"@))
    } else if i == 45 {
        ("す"@, "ス"@, "su"@, None)
    } else if i == 46 {
        ("せ"@, "セ"@, "se"@, None)
    } else if i == 47 {
        ("そ"@, "ソ"@, "so"@, None)
    } else if i == 48 {
        ("た"@, "タ"@, "ta"@, None)
    } else if i == 49 {
        ("ち"@, "チ"@, "chi"@, Some("ti"@))
    } else if i == 50 {
        ("つ"@, "ツ"@, "tsu"@, Some("tu"@))
    } else if i == 51 {
        ("て"@, "テ"@, "te"@, None)
    } else if i == 52 {
        ("と"@, "ト"@, "to"@, None)
    } else if i == 53 {
        ("な"@, "ナ"@, "na"@, None)
    } else if i == 54 {
        ("に"@, "ニ"@, "ni"@, None)
    } else if i == 55 {
        ("ぬ"@, "ヌ"@, "nu"@, None)
    } else if i == 56 {
        ("ね"@, "ネ"@, "ne"@, None)
    } else if i == 57 {
        ("の"@, "ノ"@, "no"@, None)
    } else if i == 58 {
        ("は"@, "ハ"@, "ha"@, None)
    } else if i == 59 {
        ("ひ"@, "ヒ"@, "hi"@, None)
    } else if i == 60 {
        ("ふ"@, "フ"@, "fu"@, Some("hu"@))
    } else if i == 61 {
        ("へ"@, "ヘ"@, "he"@, None)
    } else if i == 62 {
        ("ほ"@, "ホ"@, "ho"@, None)
    } else if i == 63 {
        ("ま"@, "マ"@, "ma"@, None)
    } else if i == 64 {
        ("み"@, "ミ"@, "mi"@, None)
    } else if i == 65 {
        ("む"@, "ム"@, "mu"@, None)
    } else if i == 66 {
        ("め"@, "メ"@, "me"@, None)
    } else if i == 67 {
        ("も"@, "モ"@, "mo"@, None)
    } else if i == 68 {
        ("や"@, "ヤ"@, "ya"@, None)
    } else if i == 69 {
        ("ゆ"@, "ユ"@, "yu"@, None)
    } else if i == 70 {
        ("よ"@, "ヨ"@, "yo"@, None)
    } else if i == 71 {
        ("ら"@, "ラ"@, "ra"@, None)
    } else if i == 72 {
        ("り"@, "リ"@, "ri"@, None)
    } else if i == 73 {
        ("る"@, "ル"@, "ru"@, None)
    } else if i == 74 {
        ("れ"@, "レ"@, "re"@, None)
    } else if i == 75 {
        ("ろ"@, "ロ"@, "ro"@, None)
    } else if i == 76 {
        ("わ"@, "ワ"@, "wa"@, None)
    } else if i == 77 {
        ("を"@, "ヲ"@, "wo"@, None)
    } else if i == 78 {
        ("が"@, "ガ"@, "ga"@, None)
    } else if i == 79 {
        ("ぎ"@, "ギ"@, "gi"@, None)
    } else if i == 80 {
        ("ぐ"@, "グ"@, "gu"@, None)
    } else if i == 81 {
        ("げ"@, "ゲ"@, "ge"@, None)
    } else if i == 82 {
        ("ご"@, "ゴ"@, "go"@, None)
    } else if i == 83 {
        ("ざ"@, "ザ"@, "za"@, None)
    } else if i == 84 {
        ("じ"@, "ジ"@, "ji"@, Some("zi"@))
    } else if i == 85 {
        ("ず"@, "ズ"@, "zu"@, None)
    } else if i == 86 {
        ("ぜ"@, "ゼ"@, "ze"@, None)
    } else if i == 87 {
        ("ぞ"@, "ゾ"@, "zo"@, None)
    } else if i == 88 {
        ("だ"@, "ダ"@, "da"@, None)
    } else if i == 89 {
        ("ぢ"@, "ヂ"@, "di"@, None)
    } else if i == 90 {
        ("づ"@, "ヅ"@, "du"@, None)
    } else if i == 91 {
        ("で"@, "デ"@, "de"@, None)
    } else if i == 92 {
        ("ど"@, "ド"@, "do"@, None)
    } else if i == 93 {
        ("ば"@, "バ"@, "ba"@, None)
    } else if i == 94 {
        ("び"@, "ビ"@, "bi"@, None)
    } else if i == 95 {
        ("ぶ"@, "ブ"@, "bu"@, None)
    } else if i == 96 {
        ("べ"@, "ベ"@, "be"@, None)
    } else if i == 97 {
        ("ぼ"@, "ボ"@, "bo"@, None)
    } else if i == 98 {
        ("ぱ"@, "パ"@, "pa"@, None)
    } else if i == 99 {
        ("ぴ"@, "ピ"@, "pi"@, None)
    } else if i == 100 {
        ("ぷ"@, "プ"@, "pu"@, None)
    } else if i == 101 {
        ("ぺ"@, "ペ"@, "pe"@, None)
    } else if i == 102 {
        ("ぽ"@, "ポ"@, "po"@, None)
    } else if i == 103 {
        ("ぁ"@, "ァ"@, "xa"@, None)
    } else if i == 104 {
        ("ぃ"@, "ィ"@, "xi"@, None)
    } else if i == 105 {
        ("ぅ"@, "ゥ"@, "xu"@, None)
    } else if i == 106 {
        ("ぇ"@, "ェ"@, "xe"@, None)
    } else if i == 107 {
        ("ぉ"@, "ォ"@, "xo"@, None)
    } else if i == 108 {
        ("ゃ"@, "ャ"@, "xya"@, None)
    } else if i == 109 {
        ("ゅ"@, "ュ"@, "xyu"@, None)
    } else if i == 110 {
        ("ょ"@, "ョ"@, "xyo"@, None)
    } else if i == 111 {
        ("っ"@, "ッ"@, "xtsu"@, None)
    } else if i == 112 {
        ("ん"@, "ン"@, "n"@, None)
    } else {
        (Seq::empty(), Seq::empty(), Seq::empty(), None)
    }
}

/// No text of the conversion table is longer than four characters.
pub proof fn lemma_table_short(i: int)
    ensures
        table(i).0.len() <= 4,
        table(i).1.len() <= 4,
        table(i).2.len() <= 4,
        table(i).3 matches Some(w) ==> w.len() <= 4,
{
    if i == 0 {
        reveal_strlit("きゃ");
        reveal_strlit("キャ");
        reveal_strlit("kya");
    } else if i == 1 {
        reveal_strlit("きゅ");
        reveal_strlit("キュ");
        reveal_strlit("kyu");
    } else if i == 2 {
        reveal_strlit("きょ");
        reveal_strlit("キョ");
        reveal_strlit("kyo");
    } else if i == 3 {
        reveal_strlit("しゃ");
        reveal_strlit("シャ");
        reveal_strlit("sha");
        reveal_strlit("sya");
    } else if i == 4 {
        reveal_strlit("しゅ");
        reveal_strlit("シュ");
        reveal_strlit("shu");
        reveal_strlit("syu");
    } else if i == 5 {
        reveal_strlit("しょ");
        reveal_strlit("ショ");
        reveal_strlit("sho");
        reveal_strlit("syo");
    } else if i == 6 {
        reveal_strlit("ちゃ");
        reveal_strlit("チャ");
        reveal_strlit("cha");
        reveal_strlit("tya");
    } else if i == 7 {
        reveal_strlit("ちゅ");
        reveal_strlit("チュ");
        reveal_strlit("chu");
        reveal_strlit("tyu");
    } else if i == 8 {
        reveal_strlit("ちょ");
        reveal_strlit("チョ");
        reveal_strlit("cho");
        reveal_strlit("tyo");
    } else if i == 9 {
        reveal_strlit("にゃ");
        reveal_strlit("ニャ");
        reveal_strlit("nya");
    } else if i == 10 {
        reveal_strlit("にゅ");
        reveal_strlit("ニュ");
        reveal_strlit("nyu");
    } else if i == 11 {
        reveal_strlit("にょ");
        reveal_strlit("ニョ");
        reveal_strlit("nyo");
    } else if i == 12 {
        reveal_strlit("ひゃ");
        reveal_strlit("ヒャ");
        reveal_strlit("hya");
    } else if i == 13 {
        reveal_strlit("ひゅ");
        reveal_strlit("ヒュ");
        reveal_strlit("hyu");
    } else if i == 14 {
        reveal_strlit("ひょ");
        reveal_strlit("ヒョ");
        reveal_strlit("hyo");
    } else if i == 15 {
        reveal_strlit("みゃ");
        reveal_strlit("ミャ");
        reveal_strlit("mya");
    } else if i == 16 {
        reveal_strlit("みゅ");
        reveal_strlit("ミュ");
        reveal_strlit("myu");
    } else if i == 17 {
        reveal_strlit("みょ");
        reveal_strlit("ミョ");
        reveal_strlit("myo");
    } else if i == 18 {
        reveal_strlit("りゃ");
        reveal_strlit("リャ");
        reveal_strlit("rya");
    } else if i == 19 {
        reveal_strlit("りゅ");
        reveal_strlit("リュ");
        reveal_strlit("ryu");
    } else if i == 20 {
        reveal_strlit("りょ");
        reveal_strlit("リョ");
        reveal_strlit("ryo");
    } else if i == 21 {
        reveal_strlit("ぎゃ");
        reveal_strlit("ギャ");
        reveal_strlit("gya");
    } else if i == 22 {
        reveal_strlit("ぎゅ");
        reveal_strlit("ギュ");
        reveal_strlit("gyu");
    } else if i == 23 {
        reveal_strlit("ぎょ");
        reveal_strlit("ギョ");
        reveal_strlit("gyo");
    } else if i == 24 {
        reveal_strlit("じゃ");
        reveal_strlit("ジャ");
        reveal_strlit("ja");
        reveal_strlit("zya");
    } else if i == 25 {
        reveal_strlit("じゅ");
        reveal_strlit("ジュ");
        reveal_strlit("ju");
        reveal_strlit("zyu");
    } else if i == 26 {
        reveal_strlit("じょ");
        reveal_strlit("ジョ");
        reveal_strlit("jo");
        reveal_strlit("zyo");
    } else if i == 27 {
        reveal_strlit("びゃ");
        reveal_strlit("ビャ");
        reveal_strlit("bya");
    } else if i == 28 {
        reveal_strlit("びゅ");
        reveal_strlit("ビュ");
        reveal_strlit("byu");
    } else if i == 29 {
        reveal_strlit("びょ");
        reveal_strlit("ビョ");
        reveal_strlit("byo");
    } else if i == 30 {
        reveal_strlit("ぴゃ");
        reveal_strlit("ピャ");
        reveal_strlit("pya");
    } else if i == 31 {
        reveal_strlit("ぴゅ");
        reveal_strlit("ピュ");
        reveal_strlit("pyu");
    } else if i == 32 {
        reveal_strlit("ぴょ");
        reveal_strlit("ピョ");
        reveal_strlit("pyo");
    } else if i == 33 {
        reveal_strlit("あ");
        reveal_strlit("ア");
        reveal_strlit("a");
    } else if i == 34 {
        reveal_strlit("い");
        reveal_strlit("イ");
        reveal_strlit("i");
    } else if i == 35 {
        reveal_strlit("う");
        reveal_strlit("ウ");
        reveal_strlit("u");
    } else if i == 36 {
        reveal_strlit("え");
        reveal_strlit("エ");
        reveal_strlit("e");
    } else if i == 37 {
        reveal_strlit("お");
        reveal_strlit("オ");
        reveal_strlit("o");
    } else if i == 38 {
        reveal_strlit("か");
        reveal_strlit("カ");
        reveal_strlit("ka");
    } else if i == 39 {
        reveal_strlit("き");
        reveal_strlit("キ");
        reveal_strlit("ki");
    } else if i == 40 {
        reveal_strlit("く");
        reveal_strlit("ク");
        reveal_strlit("ku");
    } else if i == 41 {
        reveal_strlit("け");
        reveal_strlit("ケ");
        reveal_strlit("ke");
    } else if i == 42 {
        reveal_strlit("こ");
        reveal_strlit("コ");
        reveal_strlit("ko");
    } else if i == 43 {
        reveal_strlit("さ");
        reveal_strlit("サ");
        reveal_strlit("sa");
    } else if i == 44 {
        reveal_strlit("し");
        reveal_strlit("シ");
        reveal_strlit("shi");
        reveal_strlit("si");
    } else if i == 45 {
        reveal_strlit("す");
        reveal_strlit("ス");
        reveal_strlit("su");
    } else if i == 46 {
        reveal_strlit("せ");
        reveal_strlit("セ");
        reveal_strlit("se");
    } else if i == 47 {
        reveal_strlit("そ");
        reveal_strlit("ソ");
        reveal_strlit("so");
    } else if i == 48 {
        reveal_strlit("た");
        reveal_strlit("タ");
        reveal_strlit("ta");
    } else if i == 49 {
        reveal_strlit("ち");
        reveal_strlit("チ");
        reveal_strlit("chi");
        reveal_strlit("ti");
    } else if i == 50 {
        reveal_strlit("つ");
        reveal_strlit("ツ");
        reveal_strlit("tsu");
        reveal_strlit("tu");
    } else if i == 51 {
        reveal_strlit("て");
        reveal_strlit("テ");
        reveal_strlit("te");
    } else if i == 52 {
        reveal_strlit("と");
        reveal_strlit("ト");
        reveal_strlit("to");
    } else if i == 53 {
        reveal_strlit("な");
        reveal_strlit("ナ");
        reveal_strlit("na");
    } else if i == 54 {
        reveal_strlit("に");
        reveal_strlit("ニ");
        reveal_strlit("ni");
    } else if i == 55 {
        reveal_strlit("ぬ");
        reveal_strlit("ヌ");
        reveal_strlit("nu");
    } else if i == 56 {
        reveal_strlit("ね");
        reveal_strlit("ネ");
        reveal_strlit("ne");
    } else if i == 57 {
        reveal_strlit("の");
        reveal_strlit("ノ");
        reveal_strlit("no");
    } else if i == 58 {
        reveal_strlit("は");
        reveal_strlit("ハ");
        reveal_strlit("ha");
    } else if i == 59 {
        reveal_strlit("ひ");
        reveal_strlit("ヒ");
        reveal_strlit("hi");
    } else if i == 60 {
        reveal_strlit("ふ");
        reveal_strlit("フ");
        reveal_strlit("fu");
        reveal_strlit("hu");
    } else if i == 61 {
        reveal_strlit("へ");
        reveal_strlit("ヘ");
        reveal_strlit("he");
    } else if i == 62 {
        reveal_strlit("ほ");
        reveal_strlit("ホ");
        reveal_strlit("ho");
    } else if i == 63 {
        reveal_strlit("ま");
        reveal_strlit("マ");
        reveal_strlit("ma");
    } else if i == 64 {
        reveal_strlit("み");
        reveal_strlit("ミ");
        reveal_strlit("mi");
    } else if i == 65 {
        reveal_strlit("む");
        reveal_strlit("ム");
        reveal_strlit("mu");
    } else if i == 66 {
        reveal_strlit("め");
        reveal_strlit("メ");
        reveal_strlit("me");
    } else if i == 67 {
        reveal_strlit("も");
        reveal_strlit("モ");
        reveal_strlit("mo");
    } else if i == 68 {
        reveal_strlit("や");
        reveal_strlit("ヤ");
        reveal_strlit("ya");
    } else if i == 69 {
        reveal_strlit("ゆ");
        reveal_strlit("ユ");
        reveal_strlit("yu");
    } else if i == 70 {
        reveal_strlit("よ");
        reveal_strlit("ヨ");
        reveal_strlit("yo");
    } else if i == 71 {
        reveal_strlit("ら");
        reveal_strlit("ラ");
        reveal_strlit("ra");
    } else if i == 72 {
        reveal_strlit("り");
        reveal_strlit("リ");
        reveal_strlit("ri");
    } else if i == 73 {
        reveal_strlit("る");
        reveal_strlit("ル");
        reveal_strlit("ru");
    } else if i == 74 {
        reveal_strlit("れ");
        reveal_strlit("レ");
        reveal_strlit("re");
    } else if i == 75 {
        reveal_strlit("ろ");
        reveal_strlit("ロ");
        reveal_strlit("ro");
    } else if i == 76 {
        reveal_strlit("わ");
        reveal_strlit("ワ");
        reveal_strlit("wa");
    } else if i == 77 {
        reveal_strlit("を");
        reveal_strlit("ヲ");
        reveal_strlit("wo");
    } else if i == 78 {
        reveal_strlit("が");
        reveal_strlit("ガ");
        reveal_strlit("ga");
    } else if i == 79 {
        reveal_strlit("ぎ");
        reveal_strlit("ギ");
        reveal_strlit("gi");
    } else if i == 80 {
        reveal_strlit("ぐ");
        reveal_strlit("グ");
        reveal_strlit("gu");
    } else if i == 81 {
        reveal_strlit("げ");
        reveal_strlit("ゲ");
        reveal_strlit("ge");
    } else if i == 82 {
        reveal_strlit("ご");
        reveal_strlit("ゴ");
        reveal_strlit("go");
    } else if i == 83 {
        reveal_strlit("ざ");
        reveal_strlit("ザ");
        reveal_strlit("za");
    } else if i == 84 {
        reveal_strlit("じ");
        reveal_strlit("ジ");
        reveal_strlit("ji");
        reveal_strlit("zi");
    } else if i == 85 {
        reveal_strlit("ず");
        reveal_strlit("ズ");
        reveal_strlit("zu");
    } else if i == 86 {
        reveal_strlit("ぜ");
        reveal_strlit("ゼ");
        reveal_strlit("ze");
    } else if i == 87 {
        reveal_strlit("ぞ");
        reveal_strlit("ゾ");
        reveal_strlit("zo");
    } else if i == 88 {
        reveal_strlit("だ");
        reveal_strlit("ダ");
        reveal_strlit("da");
    } else if i == 89 {
        reveal_strlit("ぢ");
        reveal_strlit("ヂ");
        reveal_strlit("di");
    } else if i == 90 {
        reveal_strlit("づ");
        reveal_strlit("ヅ");
        reveal_strlit("du");
    } else if i == 91 {
        reveal_strlit("で");
        reveal_strlit("デ");
        reveal_strlit("de");
    } else if i == 92 {
        reveal_strlit("ど");
        reveal_strlit("ド");
        reveal_strlit("do");
    } else if i == 93 {
        reveal_strlit("ば");
        reveal_strlit("バ");
        reveal_strlit("ba");
    } else if i == 94 {
        reveal_strlit("び");
        reveal_strlit("ビ");
        reveal_strlit("bi");
    } else if i == 95 {
        reveal_strlit("ぶ");
        reveal_strlit("ブ");
        reveal_strlit("bu");
    } else if i == 96 {
        reveal_strlit("べ");
        reveal_strlit("ベ");
        reveal_strlit("be");
    } else if i == 97 {
        reveal_strlit("ぼ");
        reveal_strlit("ボ");
        reveal_strlit("bo");
    } else if i == 98 {
        reveal_strlit("ぱ");
        reveal_strlit("パ");
        reveal_strlit("pa");
    } else if i == 99 {
        reveal_strlit("ぴ");
        reveal_strlit("ピ");
        reveal_strlit("pi");
    } else if i == 100 {
        reveal_strlit("ぷ");
        reveal_strlit("プ");
        reveal_strlit("pu");
    } else if i == 101 {
        reveal_strlit("ぺ");
        reveal_strlit("ペ");
        reveal_strlit("pe");
    } else if i == 102 {
        reveal_strlit("ぽ");
        reveal_strlit("ポ");
        reveal_strlit("po");
    } else if i == 103 {
        reveal_strlit("ぁ");
        reveal_strlit("ァ");
        reveal_strlit("xa");
    } else if i == 104 {
        reveal_strlit("ぃ");
        reveal_strlit("ィ");
        reveal_strlit("xi");
    } else if i == 105 {
        reveal_strlit("ぅ");
        reveal_strlit("ゥ");
        reveal_strlit("xu");
    } else if i == 106 {
        reveal_strlit("ぇ");
        reveal_strlit("ェ");
        reveal_strlit("xe");
    } else if i == 107 {
        reveal_strlit("ぉ");
        reveal_strlit("ォ");
        reveal_strlit("xo");
    } else if i == 108 {
        reveal_strlit("ゃ");
        reveal_strlit("ャ");
        reveal_strlit("xya");
    } else if i == 109 {
        reveal_strlit("ゅ");
        reveal_strlit("ュ");
        reveal_strlit("xyu");
    } else if i == 110 {
        reveal_strlit("ょ");
        reveal_strlit("ョ");
        reveal_strlit("xyo");
    } else if i == 111 {
        reveal_strlit("っ");
        reveal_strlit("ッ");
        reveal_strlit("xtsu");
    } else if i == 112 {
        reveal_strlit("ん");
        reveal_strlit("ン");
        reveal_strlit("n");
    }
}


/// An entry of the conversion table.
pub fn table_entry(i: usize) -> (r: (&'static str, &'static str, &'static str, Option<&'static str>))
    requires
        i < TABLE_LEN,
    ensures
        r.0@ == table(i as int).0,
        r.1@ == table(i as int).1,
        r.2@ == table(i as int).2,
        match r.3 {
            Some(w) => table(i as int).3 == Some(w@),
            None => table(i as int).3 is None,
        },
{
    match i {
        0 => ("きゃ", "キャ", "kya", None),
        1 => ("きゅ", "キュ", "kyu", None),
        2 => ("きょ", "キョ", "kyo", None),
        3 => ("しゃ", "シャ", "sha", Some("sya")),
        4 => ("しゅ", "シュ", "shu", Some("syu")),
        5 => ("しょ", "ショ", "sho", Some("syo")),
        6 => ("ちゃ", "チャ", "cha", Some("tya")),
        7 => ("ちゅ", "チュ", "chu", Some("tyu")),
        8 => ("ちょ", "チョ", "cho", Some("tyo")),
        9 => ("にゃ", "ニャ", "nya", None),
        10 => ("にゅ", "ニュ", "nyu", None),
        11 => ("にょ", "ニョ", "nyo", None),
        12 => ("ひゃ", "ヒャ", "hya", None),
        13 => ("ひゅ", "ヒュ", "hyu", None),
        14 => ("ひょ", "ヒョ", "hyo", None),
        15 => ("みゃ", "ミャ", "mya", None),
        16 => ("みゅ", "ミュ", "myu", None),
        17 => ("みょ", "ミョ", "myo", None),
        18 => ("りゃ", "リャ", "rya", None),
        19 => ("りゅ", "リュ", "ryu", None),
        20 => ("りょ", "リョ", "ryo", None),
        21 => ("ぎゃ", "ギャ", "gya", None),
        22 => ("ぎゅ", "ギュ", "gyu", None),
        23 => ("ぎょ", "ギョ", "gyo", None),
        24 => ("じゃ", "ジャ", "ja", Some("zya")),
        25 => ("じゅ", "ジュ", "ju", Some("zyu")),
        26 => ("じょ", "ジョ", "jo", Some("zyo")),
        27 => ("びゃ", "ビャ", "bya", None),
        28 => ("びゅ", "ビュ", "byu", None),
        29 => ("びょ", "ビョ", "byo", None),
        30 => ("ぴゃ", "ピャ", "pya", None),
        31 => ("ぴゅ", "ピュ", "pyu", None),
        32 => ("ぴょ", "ピョ", "pyo", None),
        33 => ("あ", "ア", "a", None),
        34 => ("い", "イ", "i", None),
        35 => ("う", "ウ", "u", None),
        36 => ("え", "エ", "e", None),
        37 => ("お", "オ", "o", None),
        38 => ("か", "カ", "ka", None),
        39 => ("き", "キ", "ki", None),
        40 => ("く", "ク", "ku", None),
        41 => ("け", "ケ", "ke", None),
        42 => ("こ", "コ", "ko", None),
        43 => ("さ", "サ", "sa", None),
        44 => ("し", "シ", "shi", Some("si")),
        45 => ("す", "ス", "su", None),
        46 => ("せ", "セ", "se", None),
        47 => ("そ", "ソ", "so", None),
        48 => ("た", "タ", "ta", None),
        49 => ("ち", "チ", "chi", Some("ti")),
        50 => ("つ", "ツ", "tsu", Some("tu")),
        51 => ("て", "テ", "te", None),
        52 => ("と", "ト", "to", None),
        53 => ("な", "ナ", "na", None),
        54 => ("に", "ニ", "ni", None),
        55 => ("ぬ", "ヌ", "nu", None),
        56 => ("ね", "ネ", "ne", None),
        57 => ("の", "ノ", "no", None),
        58 => ("は", "ハ", "ha", None),
        59 => ("ひ", "ヒ", "hi", None),
        60 => ("ふ", "フ", "fu", Some("hu")),
        61 => ("へ", "ヘ", "he", None),
        62 => ("ほ", "ホ", "ho", None),
        63 => ("ま", "マ", "ma", None),
        64 => ("み", "ミ", "mi", None),
        65 => ("む", "ム", "mu", None),
        66 => ("め", "メ", "me", None),
        67 => ("も", "モ", "mo", None),
        68 => ("や", "ヤ", "ya", None),
        69 => ("ゆ", "ユ", "yu", None),
        70 => ("よ", "ヨ", "yo", None),
        71 => ("ら", "ラ", "ra", None),
        72 => ("り", "リ", "ri", None),
        73 => ("る", "ル", "ru", None),
        74 => ("れ", "レ", "re", None),
        75 => ("ろ", "ロ", "ro", None),
        76 => ("わ", "ワ", "wa", None),
        77 => ("を", "ヲ", "wo", None),
        78 => ("が", "ガ", "ga", None),
        79 => ("ぎ", "ギ", "gi", None),
        80 => ("ぐ", "グ", "gu", None),
        81 => ("げ", "ゲ", "ge", None),
        82 => ("ご", "ゴ", "go", None),
        83 => ("ざ", "ザ", "za", None),
        84 => ("じ", "ジ", "ji", Some("zi")),
        85 => ("ず", "ズ", "zu", None),
        86 => ("ぜ", "ゼ", "ze", None),
        87 => ("ぞ", "ゾ", "zo", None),
        88 => ("だ", "ダ", "da", None),
        89 => ("ぢ", "ヂ", "di", None),
        90 => ("づ", "ヅ", "du", None),
        91 => ("で", "デ", "de", None),
        92 => ("ど", "ド", "do", None),
        93 => ("ば", "バ", "ba", None),
        94 => ("び", "ビ", "bi", None),
        95 => ("ぶ", "ブ", "bu", None),
        96 => ("べ", "ベ", "be", None),
        97 => ("ぼ", "ボ", "bo", None),
        98 => ("ぱ", "パ", "pa", None),
        99 => ("ぴ", "ピ", "pi", None),
        100 => ("ぷ", "プ", "pu", None),
        101 => ("ぺ", "ペ", "pe", None),
        102 => ("ぽ", "ポ", "po", None),
        103 => ("ぁ", "ァ", "xa", None),
        104 => ("ぃ", "ィ", "xi", None),
        105 => ("ぅ", "ゥ", "xu", None),
        106 => ("ぇ", "ェ", "xe", None),
        107 => ("ぉ", "ォ", "xo", None),
        108 => ("ゃ", "ャ", "xya", None),
        109 => ("ゅ", "ュ", "xyu", None),
        110 => ("ょ", "ョ", "xyo", None),
        111 => ("っ", "ッ", "xtsu", None),
        112 => ("ん", "ン", "n", None),
        _ => ("", "", "", None),
    }
}

} // verus!
