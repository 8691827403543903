//! Laws of the conversion table: each kana converts to its other
//! writings, and the romanization of a contracted sound (such as きゅ) is
//! made from those of its kana (き and ゅ), as in Hepburn romanization.

use vstd::prelude::*;

use super::table::{table, TABLE_LEN};
use super::to_hiragana_from;

verus! {

/// A number which tells apart texts of at most four characters.
spec fn text_code(s: Seq<char>) -> int {
    let c = |k: int| if k < s.len() { s[k] as int + 1 } else { 0 };
    s.len() + 8 * (c(0) + 0x200000 * (c(1) + 0x200000 * (c(2) + 0x200000 * c(3))))
}

/// The codes of some texts of the table.
proof fn lemma_codes_0()
    ensures
        text_code("きゃ"@) == 208373121650,
        text_code("キャ"@) == 209983735154,
        text_code("kya"@) == 3448070511526755,
        text_code("きゅ"@) == 208406676082,
        text_code("キュ"@) == 210017289586,
        text_code("kyu"@) == 4151757953303395,
        text_code("きょ"@) == 208440230514,
        text_code("キョ"@) == 210050844018,
        text_code("kyo"@) == 3940651720770403,
        text_code("しゃ"@) == 208373121730,
        text_code("シャ"@) == 209983735234,
        text_code("sha"@) == 3448070226314147,
        text_code("sya"@) == 3448070511526819,
        text_code("しゅ"@) == 208406676162,
        text_code("シュ"@) == 210017289666,
        text_code("shu"@) == 4151757668090787,
        text_code("syu"@) == 4151757953303459,
        text_code("しょ"@) == 208440230594,
        text_code("ショ"@) == 210050844098,
        text_code("sho"@) == 3940651435557795,
        text_code("syo"@) == 3940651720770467,
        text_code("ちゃ"@) == 208373121810,
        text_code("チャ"@) == 209983735314,
        text_code("cha"@) == 3448070226314019,
        text_code("tya"@) == 3448070511526827,
        text_code("ちゅ"@) == 208406676242,
        text_code("チュ"@) == 210017289746,
        text_code("chu"@) == 4151757668090659,
        text_code("tyu"@) == 4151757953303467,
        text_code("ちょ"@) == 208440230674,
{
    reveal_strlit("きゃ");
    reveal_strlit("キャ");
    reveal_strlit("kya");
    reveal_strlit("きゅ");
    reveal_strlit("キュ");
    reveal_strlit("kyu");
    reveal_strlit("きょ");
    reveal_strlit("キョ");
    reveal_strlit("kyo");
    reveal_strlit("しゃ");
    reveal_strlit("シャ");
    reveal_strlit("sha");
    reveal_strlit("sya");
    reveal_strlit("しゅ");
    reveal_strlit("シュ");
    reveal_strlit("shu");
    reveal_strlit("syu");
    reveal_strlit("しょ");
    reveal_strlit("ショ");
    reveal_strlit("sho");
    reveal_strlit("syo");
    reveal_strlit("ちゃ");
    reveal_strlit("チャ");
    reveal_strlit("cha");
    reveal_strlit("tya");
    reveal_strlit("ちゅ");
    reveal_strlit("チュ");
    reveal_strlit("chu");
    reveal_strlit("tyu");
    reveal_strlit("ちょ");
}

/// The codes of some texts of the table.
proof fn lemma_codes_1()
    ensures
        text_code("チョ"@) == 210050844178,
        text_code("cho"@) == 3940651435557667,
        text_code("tyo"@) == 3940651720770475,
        text_code("にゃ"@) == 208373121890,
        text_code("ニャ"@) == 209983735394,
        text_code("nya"@) == 3448070511526779,
        text_code("にゅ"@) == 208406676322,
        text_code("ニュ"@) == 210017289826,
        text_code("nyu"@) == 4151757953303419,
        text_code("にょ"@) == 208440230754,
        text_code("ニョ"@) == 210050844258,
        text_code("nyo"@) == 3940651720770427,
        text_code("ひゃ"@) == 208373121946,
        text_code("ヒャ"@) == 209983735450,
        text_code("hya"@) == 3448070511526731,
        text_code("ひゅ"@) == 208406676378,
        text_code("ヒュ"@) == 210017289882,
        text_code("hyu"@) == 4151757953303371,
        text_code("ひょ"@) == 208440230810,
        text_code("ヒョ"@) == 210050844314,
        text_code("hyo"@) == 3940651720770379,
        text_code("みゃ"@) == 208373122050,
        text_code("ミャ"@) == 209983735554,
        text_code("mya"@) == 3448070511526771,
        text_code("みゅ"@) == 208406676482,
        text_code("ミュ"@) == 210017289986,
        text_code("myu"@) == 4151757953303411,
        text_code("みょ"@) == 208440230914,
        text_code("ミョ"@) == 210050844418,
        text_code("myo"@) == 3940651720770419,
{
    reveal_strlit("チョ");
    reveal_strlit("cho");
    reveal_strlit("tyo");
    reveal_strlit("にゃ");
    reveal_strlit("ニャ");
    reveal_strlit("nya");
    reveal_strlit("にゅ");
    reveal_strlit("ニュ");
    reveal_strlit("nyu");
    reveal_strlit("にょ");
    reveal_strlit("ニョ");
    reveal_strlit("nyo");
    reveal_strlit("ひゃ");
    reveal_strlit("ヒャ");
    reveal_strlit("hya");
    reveal_strlit("ひゅ");
    reveal_strlit("ヒュ");
    reveal_strlit("hyu");
    reveal_strlit("ひょ");
    reveal_strlit("ヒョ");
    reveal_strlit("hyo");
    reveal_strlit("みゃ");
    reveal_strlit("ミャ");
    reveal_strlit("mya");
    reveal_strlit("みゅ");
    reveal_strlit("ミュ");
    reveal_strlit("myu");
    reveal_strlit("みょ");
    reveal_strlit("ミョ");
    reveal_strlit("myo");
}

/// The codes of some texts of the table.
proof fn lemma_codes_2()
    ensures
        text_code("りゃ"@) == 208373122138,
        text_code("リャ"@) == 209983735642,
        text_code("rya"@) == 3448070511526811,
        text_code("りゅ"@) == 208406676570,
        text_code("リュ"@) == 210017290074,
        text_code("ryu"@) == 4151757953303451,
        text_code("りょ"@) == 208440231002,
        text_code("リョ"@) == 210050844506,
        text_code("ryo"@) == 3940651720770459,
        text_code("ぎゃ"@) == 208373121658,
        text_code("ギャ"@) == 209983735162,
        text_code("gya"@) == 3448070511526723,
        text_code("ぎゅ"@) == 208406676090,
        text_code("ギュ"@) == 210017289594,
        text_code("gyu"@) == 4151757953303363,
        text_code("ぎょ"@) == 208440230522,
        text_code("ギョ"@) == 210050844026,
        text_code("gyo"@) == 3940651720770371,
        text_code("じゃ"@) == 208373121738,
        text_code("ジャ"@) == 209983735242,
        text_code("ja"@) == 1644168026,
        text_code("zya"@) == 3448070511526875,
        text_code("じゅ"@) == 208406676170,
        text_code("ジュ"@) == 210017289674,
        text_code("ju"@) == 1979712346,
        text_code("zyu"@) == 4151757953303515,
        text_code("じょ"@) == 208440230602,
        text_code("ジョ"@) == 210050844106,
        text_code("jo"@) == 1879049050,
        text_code("zyo"@) == 3940651720770523,
{
    reveal_strlit("りゃ");
    reveal_strlit("リャ");
    reveal_strlit("rya");
    reveal_strlit("りゅ");
    reveal_strlit("リュ");
    reveal_strlit("ryu");
    reveal_strlit("りょ");
    reveal_strlit("リョ");
    reveal_strlit("ryo");
    reveal_strlit("ぎゃ");
    reveal_strlit("ギャ");
    reveal_strlit("gya");
    reveal_strlit("ぎゅ");
    reveal_strlit("ギュ");
    reveal_strlit("gyu");
    reveal_strlit("ぎょ");
    reveal_strlit("ギョ");
    reveal_strlit("gyo");
    reveal_strlit("じゃ");
    reveal_strlit("ジャ");
    reveal_strlit("ja");
    reveal_strlit("zya");
    reveal_strlit("じゅ");
    reveal_strlit("ジュ");
    reveal_strlit("ju");
    reveal_strlit("zyu");
    reveal_strlit("じょ");
    reveal_strlit("ジョ");
    reveal_strlit("jo");
    reveal_strlit("zyo");
}

/// The codes of some texts of the table.
proof fn lemma_codes_3()
    ensures
        text_code("びゃ"@) == 208373121954,
        text_code("ビャ"@) == 209983735458,
        text_code("bya"@) == 3448070511526683,
        text_code("びゅ"@) == 208406676386,
        text_code("ビュ"@) == 210017289890,
        text_code("byu"@) == 4151757953303323,
        text_code("びょ"@) == 208440230818,
        text_code("ビョ"@) == 210050844322,
        text_code("byo"@) == 3940651720770331,
        text_code("ぴゃ"@) == 208373121962,
        text_code("ピャ"@) == 209983735466,
        text_code("pya"@) == 3448070511526795,
        text_code("ぴゅ"@) == 208406676394,
        text_code("ピュ"@) == 210017289898,
        text_code("pyu"@) == 4151757953303435,
        text_code("ぴょ"@) == 208440230826,
        text_code("ピョ"@) == 210050844330,
        text_code("pyo"@) == 3940651720770443,
        text_code("あ"@) == 98841,
        text_code("ア"@) == 99609,
        text_code("a"@) == 785,
        text_code("い"@) == 98857,
        text_code("イ"@) == 99625,
        text_code("i"@) == 849,
        text_code("う"@) == 98873,
        text_code("ウ"@) == 99641,
        text_code("u"@) == 945,
        text_code("え"@) == 98889,
        text_code("エ"@) == 99657,
        text_code("e"@) == 817,
{
    reveal_strlit("びゃ");
    reveal_strlit("ビャ");
    reveal_strlit("bya");
    reveal_strlit("びゅ");
    reveal_strlit("ビュ");
    reveal_strlit("byu");
    reveal_strlit("びょ");
    reveal_strlit("ビョ");
    reveal_strlit("byo");
    reveal_strlit("ぴゃ");
    reveal_strlit("ピャ");
    reveal_strlit("pya");
    reveal_strlit("ぴゅ");
    reveal_strlit("ピュ");
    reveal_strlit("pyu");
    reveal_strlit("ぴょ");
    reveal_strlit("ピョ");
    reveal_strlit("pyo");
    reveal_strlit("あ");
    reveal_strlit("ア");
    reveal_strlit("a");
    reveal_strlit("い");
    reveal_strlit("イ");
    reveal_strlit("i");
    reveal_strlit("う");
    reveal_strlit("ウ");
    reveal_strlit("u");
    reveal_strlit("え");
    reveal_strlit("エ");
    reveal_strlit("e");
}

/// The codes of some texts of the table.
proof fn lemma_codes_4()
    ensures
        text_code("お"@) == 98905,
        text_code("オ"@) == 99673,
        text_code("o"@) == 897,
        text_code("か"@) == 98913,
        text_code("カ"@) == 99681,
        text_code("ka"@) == 1644168034,
        text_code("き"@) == 98929,
        text_code("キ"@) == 99697,
        text_code("ki"@) == 1778385762,
        text_code("く"@) == 98945,
        text_code("ク"@) == 99713,
        text_code("ku"@) == 1979712354,
        text_code("け"@) == 98961,
        text_code("ケ"@) == 99729,
        text_code("ke"@) == 1711276898,
        text_code("こ"@) == 98977,
        text_code("コ"@) == 99745,
        text_code("ko"@) == 1879049058,
        text_code("さ"@) == 98993,
        text_code("サ"@) == 99761,
        text_code("sa"@) == 1644168098,
        text_code("し"@) == 99009,
        text_code("シ"@) == 99777,
        text_code("shi"@) == 3729545203024803,
        text_code("si"@) == 1778385826,
        text_code("す"@) == 99025,
        text_code("ス"@) == 99793,
        text_code("su"@) == 1979712418,
        text_code("せ"@) == 99041,
        text_code("セ"@) == 99809,
{
    reveal_strlit("お");
    reveal_strlit("オ");
    reveal_strlit("o");
    reveal_strlit("か");
    reveal_strlit("カ");
    reveal_strlit("ka");
    reveal_strlit("き");
    reveal_strlit("キ");
    reveal_strlit("ki");
    reveal_strlit("く");
    reveal_strlit("ク");
    reveal_strlit("ku");
    reveal_strlit("け");
    reveal_strlit("ケ");
    reveal_strlit("ke");
    reveal_strlit("こ");
    reveal_strlit("コ");
    reveal_strlit("ko");
    reveal_strlit("さ");
    reveal_strlit("サ");
    reveal_strlit("sa");
    reveal_strlit("し");
    reveal_strlit("シ");
    reveal_strlit("shi");
    reveal_strlit("si");
    reveal_strlit("す");
    reveal_strlit("ス");
    reveal_strlit("su");
    reveal_strlit("せ");
    reveal_strlit("セ");
}

/// The codes of some texts of the table.
proof fn lemma_codes_5()
    ensures
        text_code("se"@) == 1711276962,
        text_code("そ"@) == 99057,
        text_code("ソ"@) == 99825,
        text_code("so"@) == 1879049122,
        text_code("た"@) == 99073,
        text_code("タ"@) == 99841,
        text_code("ta"@) == 1644168106,
        text_code("ち"@) == 99089,
        text_code("チ"@) == 99857,
        text_code("chi"@) == 3729545203024675,
        text_code("ti"@) == 1778385834,
        text_code("つ"@) == 99113,
        text_code("ツ"@) == 99881,
        text_code("tsu"@) == 4151757852640171,
        text_code("tu"@) == 1979712426,
        text_code("て"@) == 99129,
        text_code("テ"@) == 99897,
        text_code("te"@) == 1711276970,
        text_code("と"@) == 99145,
        text_code("ト"@) == 99913,
        text_code("to"@) == 1879049130,
        text_code("な"@) == 99161,
        text_code("ナ"@) == 99929,
        text_code("na"@) == 1644168058,
        text_code("に"@) == 99169,
        text_code("ニ"@) == 99937,
        text_code("ni"@) == 1778385786,
        text_code("ぬ"@) == 99177,
        text_code("ヌ"@) == 99945,
        text_code("nu"@) == 1979712378,
{
    reveal_strlit("se");
    reveal_strlit("そ");
    reveal_strlit("ソ");
    reveal_strlit("so");
    reveal_strlit("た");
    reveal_strlit("タ");
    reveal_strlit("ta");
    reveal_strlit("ち");
    reveal_strlit("チ");
    reveal_strlit("chi");
    reveal_strlit("ti");
    reveal_strlit("つ");
    reveal_strlit("ツ");
    reveal_strlit("tsu");
    reveal_strlit("tu");
    reveal_strlit("て");
    reveal_strlit("テ");
    reveal_strlit("te");
    reveal_strlit("と");
    reveal_strlit("ト");
    reveal_strlit("to");
    reveal_strlit("な");
    reveal_strlit("ナ");
    reveal_strlit("na");
    reveal_strlit("に");
    reveal_strlit("ニ");
    reveal_strlit("ni");
    reveal_strlit("ぬ");
    reveal_strlit("ヌ");
    reveal_strlit("nu");
}

/// The codes of some texts of the table.
proof fn lemma_codes_6()
    ensures
        text_code("ね"@) == 99185,
        text_code("ネ"@) == 99953,
        text_code("ne"@) == 1711276922,
        text_code("の"@) == 99193,
        text_code("ノ"@) == 99961,
        text_code("no"@) == 1879049082,
        text_code("は"@) == 99201,
        text_code("ハ"@) == 99969,
        text_code("ha"@) == 1644168010,
        text_code("ひ"@) == 99225,
        text_code("ヒ"@) == 99993,
        text_code("hi"@) == 1778385738,
        text_code("ふ"@) == 99249,
        text_code("フ"@) == 100017,
        text_code("fu"@) == 1979712314,
        text_code("hu"@) == 1979712330,
        text_code("へ"@) == 99273,
        text_code("ヘ"@) == 100041,
        text_code("he"@) == 1711276874,
        text_code("ほ"@) == 99297,
        text_code("ホ"@) == 100065,
        text_code("ho"@) == 1879049034,
        text_code("ま"@) == 99321,
        text_code("マ"@) == 100089,
        text_code("ma"@) == 1644168050,
        text_code("み"@) == 99329,
        text_code("ミ"@) == 100097,
        text_code("mi"@) == 1778385778,
        text_code("む"@) == 99337,
        text_code("ム"@) == 100105,
{
    reveal_strlit("ね");
    reveal_strlit("ネ");
    reveal_strlit("ne");
    reveal_strlit("の");
    reveal_strlit("ノ");
    reveal_strlit("no");
    reveal_strlit("は");
    reveal_strlit("ハ");
    reveal_strlit("ha");
    reveal_strlit("ひ");
    reveal_strlit("ヒ");
    reveal_strlit("hi");
    reveal_strlit("ふ");
    reveal_strlit("フ");
    reveal_strlit("fu");
    reveal_strlit("hu");
    reveal_strlit("へ");
    reveal_strlit("ヘ");
    reveal_strlit("he");
    reveal_strlit("ほ");
    reveal_strlit("ホ");
    reveal_strlit("ho");
    reveal_strlit("ま");
    reveal_strlit("マ");
    reveal_strlit("ma");
    reveal_strlit("み");
    reveal_strlit("ミ");
    reveal_strlit("mi");
    reveal_strlit("む");
    reveal_strlit("ム");
}

/// The codes of some texts of the table.
proof fn lemma_codes_7()
    ensures
        text_code("mu"@) == 1979712370,
        text_code("め"@) == 99345,
        text_code("メ"@) == 100113,
        text_code("me"@) == 1711276914,
        text_code("も"@) == 99353,
        text_code("モ"@) == 100121,
        text_code("mo"@) == 1879049074,
        text_code("や"@) == 99369,
        text_code("ヤ"@) == 100137,
        text_code("ya"@) == 1644168146,
        text_code("ゆ"@) == 99385,
        text_code("ユ"@) == 100153,
        text_code("yu"@) == 1979712466,
        text_code("よ"@) == 99401,
        text_code("ヨ"@) == 100169,
        text_code("yo"@) == 1879049170,
        text_code("ら"@) == 99409,
        text_code("ラ"@) == 100177,
        text_code("ra"@) == 1644168090,
        text_code("り"@) == 99417,
        text_code("リ"@) == 100185,
        text_code("ri"@) == 1778385818,
        text_code("る"@) == 99425,
        text_code("ル"@) == 100193,
        text_code("ru"@) == 1979712410,
        text_code("れ"@) == 99433,
        text_code("レ"@) == 100201,
        text_code("re"@) == 1711276954,
        text_code("ろ"@) == 99441,
        text_code("ロ"@) == 100209,
{
    reveal_strlit("mu");
    reveal_strlit("め");
    reveal_strlit("メ");
    reveal_strlit("me");
    reveal_strlit("も");
    reveal_strlit("モ");
    reveal_strlit("mo");
    reveal_strlit("や");
    reveal_strlit("ヤ");
    reveal_strlit("ya");
    reveal_strlit("ゆ");
    reveal_strlit("ユ");
    reveal_strlit("yu");
    reveal_strlit("よ");
    reveal_strlit("ヨ");
    reveal_strlit("yo");
    reveal_strlit("ら");
    reveal_strlit("ラ");
    reveal_strlit("ra");
    reveal_strlit("り");
    reveal_strlit("リ");
    reveal_strlit("ri");
    reveal_strlit("る");
    reveal_strlit("ル");
    reveal_strlit("ru");
    reveal_strlit("れ");
    reveal_strlit("レ");
    reveal_strlit("re");
    reveal_strlit("ろ");
    reveal_strlit("ロ");
}

/// The codes of some texts of the table.
proof fn lemma_codes_8()
    ensures
        text_code("ro"@) == 1879049114,
        text_code("わ"@) == 99457,
        text_code("ワ"@) == 100225,
        text_code("wa"@) == 1644168130,
        text_code("を"@) == 99481,
        text_code("ヲ"@) == 100249,
        text_code("wo"@) == 1879049154,
        text_code("が"@) == 98921,
        text_code("ガ"@) == 99689,
        text_code("ga"@) == 1644168002,
        text_code("ぎ"@) == 98937,
        text_code("ギ"@) == 99705,
        text_code("gi"@) == 1778385730,
        text_code("ぐ"@) == 98953,
        text_code("グ"@) == 99721,
        text_code("gu"@) == 1979712322,
        text_code("げ"@) == 98969,
        text_code("ゲ"@) == 99737,
        text_code("ge"@) == 1711276866,
        text_code("ご"@) == 98985,
        text_code("ゴ"@) == 99753,
        text_code("go"@) == 1879049026,
        text_code("ざ"@) == 99001,
        text_code("ザ"@) == 99769,
        text_code("za"@) == 1644168154,
        text_code("じ"@) == 99017,
        text_code("ジ"@) == 99785,
        text_code("ji"@) == 1778385754,
        text_code("zi"@) == 1778385882,
        text_code("ず"@) == 99033,
{
    reveal_strlit("ro");
    reveal_strlit("わ");
    reveal_strlit("ワ");
    reveal_strlit("wa");
    reveal_strlit("を");
    reveal_strlit("ヲ");
    reveal_strlit("wo");
    reveal_strlit("が");
    reveal_strlit("ガ");
    reveal_strlit("ga");
    reveal_strlit("ぎ");
    reveal_strlit("ギ");
    reveal_strlit("gi");
    reveal_strlit("ぐ");
    reveal_strlit("グ");
    reveal_strlit("gu");
    reveal_strlit("げ");
    reveal_strlit("ゲ");
    reveal_strlit("ge");
    reveal_strlit("ご");
    reveal_strlit("ゴ");
    reveal_strlit("go");
    reveal_strlit("ざ");
    reveal_strlit("ザ");
    reveal_strlit("za");
    reveal_strlit("じ");
    reveal_strlit("ジ");
    reveal_strlit("ji");
    reveal_strlit("zi");
    reveal_strlit("ず");
}

/// The codes of some texts of the table.
proof fn lemma_codes_9()
    ensures
        text_code("ズ"@) == 99801,
        text_code("zu"@) == 1979712474,
        text_code("ぜ"@) == 99049,
        text_code("ゼ"@) == 99817,
        text_code("ze"@) == 1711277018,
        text_code("ぞ"@) == 99065,
        text_code("ゾ"@) == 99833,
        text_code("zo"@) == 1879049178,
        text_code("だ"@) == 99081,
        text_code("ダ"@) == 99849,
        text_code("da"@) == 1644167978,
        text_code("ぢ"@) == 99097,
        text_code("ヂ"@) == 99865,
        text_code("di"@) == 1778385706,
        text_code("づ"@) == 99121,
        text_code("ヅ"@) == 99889,
        text_code("du"@) == 1979712298,
        text_code("で"@) == 99137,
        text_code("デ"@) == 99905,
        text_code("de"@) == 1711276842,
        text_code("ど"@) == 99153,
        text_code("ド"@) == 99921,
        text_code("do"@) == 1879049002,
        text_code("ば"@) == 99209,
        text_code("バ"@) == 99977,
        text_code("ba"@) == 1644167962,
        text_code("び"@) == 99233,
        text_code("ビ"@) == 100001,
        text_code("bi"@) == 1778385690,
        text_code("ぶ"@) == 99257,
{
    reveal_strlit("ズ");
    reveal_strlit("zu");
    reveal_strlit("ぜ");
    reveal_strlit("ゼ");
    reveal_strlit("ze");
    reveal_strlit("ぞ");
    reveal_strlit("ゾ");
    reveal_strlit("zo");
    reveal_strlit("だ");
    reveal_strlit("ダ");
    reveal_strlit("da");
    reveal_strlit("ぢ");
    reveal_strlit("ヂ");
    reveal_strlit("di");
    reveal_strlit("づ");
    reveal_strlit("ヅ");
    reveal_strlit("du");
    reveal_strlit("で");
    reveal_strlit("デ");
    reveal_strlit("de");
    reveal_strlit("ど");
    reveal_strlit("ド");
    reveal_strlit("do");
    reveal_strlit("ば");
    reveal_strlit("バ");
    reveal_strlit("ba");
    reveal_strlit("び");
    reveal_strlit("ビ");
    reveal_strlit("bi");
    reveal_strlit("ぶ");
}

/// The codes of some texts of the table.
proof fn lemma_codes_10()
    ensures
        text_code("ブ"@) == 100025,
        text_code("bu"@) == 1979712282,
        text_code("べ"@) == 99281,
        text_code("ベ"@) == 100049,
        text_code("be"@) == 1711276826,
        text_code("ぼ"@) == 99305,
        text_code("ボ"@) == 100073,
        text_code("bo"@) == 1879048986,
        text_code("ぱ"@) == 99217,
        text_code("パ"@) == 99985,
        text_code("pa"@) == 1644168074,
        text_code("ぴ"@) == 99241,
        text_code("ピ"@) == 100009,
        text_code("pi"@) == 1778385802,
        text_code("ぷ"@) == 99265,
        text_code("プ"@) == 100033,
        text_code("pu"@) == 1979712394,
        text_code("ぺ"@) == 99289,
        text_code("ペ"@) == 100057,
        text_code("pe"@) == 1711276938,
        text_code("ぽ"@) == 99313,
        text_code("ポ"@) == 100081,
        text_code("po"@) == 1879049098,
        text_code("ぁ"@) == 98833,
        text_code("ァ"@) == 99601,
        text_code("xa"@) == 1644168138,
        text_code("ぃ"@) == 98849,
        text_code("ィ"@) == 99617,
        text_code("xi"@) == 1778385866,
        text_code("ぅ"@) == 98865,
{
    reveal_strlit("ブ");
    reveal_strlit("bu");
    reveal_strlit("べ");
    reveal_strlit("ベ");
    reveal_strlit("be");
    reveal_strlit("ぼ");
    reveal_strlit("ボ");
    reveal_strlit("bo");
    reveal_strlit("ぱ");
    reveal_strlit("パ");
    reveal_strlit("pa");
    reveal_strlit("ぴ");
    reveal_strlit("ピ");
    reveal_strlit("pi");
    reveal_strlit("ぷ");
    reveal_strlit("プ");
    reveal_strlit("pu");
    reveal_strlit("ぺ");
    reveal_strlit("ペ");
    reveal_strlit("pe");
    reveal_strlit("ぽ");
    reveal_strlit("ポ");
    reveal_strlit("po");
    reveal_strlit("ぁ");
    reveal_strlit("ァ");
    reveal_strlit("xa");
    reveal_strlit("ぃ");
    reveal_strlit("ィ");
    reveal_strlit("xi");
    reveal_strlit("ぅ");
}

/// The codes of some texts of the table.
proof fn lemma_codes_11()
    ensures
        text_code("ゥ"@) == 99633,
        text_code("xu"@) == 1979712458,
        text_code("ぇ"@) == 98881,
        text_code("ェ"@) == 99649,
        text_code("xe"@) == 1711277002,
        text_code("ぉ"@) == 98897,
        text_code("ォ"@) == 99665,
        text_code("xo"@) == 1879049162,
        text_code("ゃ"@) == 99361,
        text_code("ャ"@) == 100129,
        text_code("xya"@) == 3448070511526859,
        text_code("ゅ"@) == 99377,
        text_code("ュ"@) == 100145,
        text_code("xyu"@) == 4151757953303499,
        text_code("ょ"@) == 99393,
        text_code("ョ"@) == 100161,
        text_code("xyo"@) == 3940651720770507,
        text_code("っ"@) == 99105,
        text_code("ッ"@) == 99873,
        text_code("xtsu"@) == 8706867284180033602508,
        text_code("ん"@) == 99489,
        text_code("ン"@) == 100257,
        text_code("n"@) == 889,
{
    reveal_strlit("ゥ");
    reveal_strlit("xu");
    reveal_strlit("ぇ");
    reveal_strlit("ェ");
    reveal_strlit("xe");
    reveal_strlit("ぉ");
    reveal_strlit("ォ");
    reveal_strlit("xo");
    reveal_strlit("ゃ");
    reveal_strlit("ャ");
    reveal_strlit("xya");
    reveal_strlit("ゅ");
    reveal_strlit("ュ");
    reveal_strlit("xyu");
    reveal_strlit("ょ");
    reveal_strlit("ョ");
    reveal_strlit("xyo");
    reveal_strlit("っ");
    reveal_strlit("ッ");
    reveal_strlit("xtsu");
    reveal_strlit("ん");
    reveal_strlit("ン");
    reveal_strlit("n");
}

/// The codes of the texts of the table, which are all different.
proof fn lemma_codes()
    ensures
        text_code("きゃ"@) == 208373121650,
        text_code("キャ"@) == 209983735154,
        text_code("kya"@) == 3448070511526755,
        text_code("きゅ"@) == 208406676082,
        text_code("キュ"@) == 210017289586,
        text_code("kyu"@) == 4151757953303395,
        text_code("きょ"@) == 208440230514,
        text_code("キョ"@) == 210050844018,
        text_code("kyo"@) == 3940651720770403,
        text_code("しゃ"@) == 208373121730,
        text_code("シャ"@) == 209983735234,
        text_code("sha"@) == 3448070226314147,
        text_code("sya"@) == 3448070511526819,
        text_code("しゅ"@) == 208406676162,
        text_code("シュ"@) == 210017289666,
        text_code("shu"@) == 4151757668090787,
        text_code("syu"@) == 4151757953303459,
        text_code("しょ"@) == 208440230594,
        text_code("ショ"@) == 210050844098,
        text_code("sho"@) == 3940651435557795,
        text_code("syo"@) == 3940651720770467,
        text_code("ちゃ"@) == 208373121810,
        text_code("チャ"@) == 209983735314,
        text_code("cha"@) == 3448070226314019,
        text_code("tya"@) == 3448070511526827,
        text_code("ちゅ"@) == 208406676242,
        text_code("チュ"@) == 210017289746,
        text_code("chu"@) == 4151757668090659,
        text_code("tyu"@) == 4151757953303467,
        text_code("ちょ"@) == 208440230674,
        text_code("チョ"@) == 210050844178,
        text_code("cho"@) == 3940651435557667,
        text_code("tyo"@) == 3940651720770475,
        text_code("にゃ"@) == 208373121890,
        text_code("ニャ"@) == 209983735394,
        text_code("nya"@) == 3448070511526779,
        text_code("にゅ"@) == 208406676322,
        text_code("ニュ"@) == 210017289826,
        text_code("nyu"@) == 4151757953303419,
        text_code("にょ"@) == 208440230754,
        text_code("ニョ"@) == 210050844258,
        text_code("nyo"@) == 3940651720770427,
        text_code("ひゃ"@) == 208373121946,
        text_code("ヒャ"@) == 209983735450,
        text_code("hya"@) == 3448070511526731,
        text_code("ひゅ"@) == 208406676378,
        text_code("ヒュ"@) == 210017289882,
        text_code("hyu"@) == 4151757953303371,
        text_code("ひょ"@) == 208440230810,
        text_code("ヒョ"@) == 210050844314,
        text_code("hyo"@) == 3940651720770379,
        text_code("みゃ"@) == 208373122050,
        text_code("ミャ"@) == 209983735554,
        text_code("mya"@) == 3448070511526771,
        text_code("みゅ"@) == 208406676482,
        text_code("ミュ"@) == 210017289986,
        text_code("myu"@) == 4151757953303411,
        text_code("みょ"@) == 208440230914,
        text_code("ミョ"@) == 210050844418,
        text_code("myo"@) == 3940651720770419,
        text_code("りゃ"@) == 208373122138,
        text_code("リャ"@) == 209983735642,
        text_code("rya"@) == 3448070511526811,
        text_code("りゅ"@) == 208406676570,
        text_code("リュ"@) == 210017290074,
        text_code("ryu"@) == 4151757953303451,
        text_code("りょ"@) == 208440231002,
        text_code("リョ"@) == 210050844506,
        text_code("ryo"@) == 3940651720770459,
        text_code("ぎゃ"@) == 208373121658,
        text_code("ギャ"@) == 209983735162,
        text_code("gya"@) == 3448070511526723,
        text_code("ぎゅ"@) == 208406676090,
        text_code("ギュ"@) == 210017289594,
        text_code("gyu"@) == 4151757953303363,
        text_code("ぎょ"@) == 208440230522,
        text_code("ギョ"@) == 210050844026,
        text_code("gyo"@) == 3940651720770371,
        text_code("じゃ"@) == 208373121738,
        text_code("ジャ"@) == 209983735242,
        text_code("ja"@) == 1644168026,
        text_code("zya"@) == 3448070511526875,
        text_code("じゅ"@) == 208406676170,
        text_code("ジュ"@) == 210017289674,
        text_code("ju"@) == 1979712346,
        text_code("zyu"@) == 4151757953303515,
        text_code("じょ"@) == 208440230602,
        text_code("ジョ"@) == 210050844106,
        text_code("jo"@) == 1879049050,
        text_code("zyo"@) == 3940651720770523,
        text_code("びゃ"@) == 208373121954,
        text_code("ビャ"@) == 209983735458,
        text_code("bya"@) == 3448070511526683,
        text_code("びゅ"@) == 208406676386,
        text_code("ビュ"@) == 210017289890,
        text_code("byu"@) == 4151757953303323,
        text_code("びょ"@) == 208440230818,
        text_code("ビョ"@) == 210050844322,
        text_code("byo"@) == 3940651720770331,
        text_code("ぴゃ"@) == 208373121962,
        text_code("ピャ"@) == 209983735466,
        text_code("pya"@) == 3448070511526795,
        text_code("ぴゅ"@) == 208406676394,
        text_code("ピュ"@) == 210017289898,
        text_code("pyu"@) == 4151757953303435,
        text_code("ぴょ"@) == 208440230826,
        text_code("ピョ"@) == 210050844330,
        text_code("pyo"@) == 3940651720770443,
        text_code("あ"@) == 98841,
        text_code("ア"@) == 99609,
        text_code("a"@) == 785,
        text_code("い"@) == 98857,
        text_code("イ"@) == 99625,
        text_code("i"@) == 849,
        text_code("う"@) == 98873,
        text_code("ウ"@) == 99641,
        text_code("u"@) == 945,
        text_code("え"@) == 98889,
        text_code("エ"@) == 99657,
        text_code("e"@) == 817,
        text_code("お"@) == 98905,
        text_code("オ"@) == 99673,
        text_code("o"@) == 897,
        text_code("か"@) == 98913,
        text_code("カ"@) == 99681,
        text_code("ka"@) == 1644168034,
        text_code("き"@) == 98929,
        text_code("キ"@) == 99697,
        text_code("ki"@) == 1778385762,
        text_code("く"@) == 98945,
        text_code("ク"@) == 99713,
        text_code("ku"@) == 1979712354,
        text_code("け"@) == 98961,
        text_code("ケ"@) == 99729,
        text_code("ke"@) == 1711276898,
        text_code("こ"@) == 98977,
        text_code("コ"@) == 99745,
        text_code("ko"@) == 1879049058,
        text_code("さ"@) == 98993,
        text_code("サ"@) == 99761,
        text_code("sa"@) == 1644168098,
        text_code("し"@) == 99009,
        text_code("シ"@) == 99777,
        text_code("shi"@) == 3729545203024803,
        text_code("si"@) == 1778385826,
        text_code("す"@) == 99025,
        text_code("ス"@) == 99793,
        text_code("su"@) == 1979712418,
        text_code("せ"@) == 99041,
        text_code("セ"@) == 99809,
        text_code("se"@) == 1711276962,
        text_code("そ"@) == 99057,
        text_code("ソ"@) == 99825,
        text_code("so"@) == 1879049122,
        text_code("た"@) == 99073,
        text_code("タ"@) == 99841,
        text_code("ta"@) == 1644168106,
        text_code("ち"@) == 99089,
        text_code("チ"@) == 99857,
        text_code("chi"@) == 3729545203024675,
        text_code("ti"@) == 1778385834,
        text_code("つ"@) == 99113,
        text_code("ツ"@) == 99881,
        text_code("tsu"@) == 4151757852640171,
        text_code("tu"@) == 1979712426,
        text_code("て"@) == 99129,
        text_code("テ"@) == 99897,
        text_code("te"@) == 1711276970,
        text_code("と"@) == 99145,
        text_code("ト"@) == 99913,
        text_code("to"@) == 1879049130,
        text_code("な"@) == 99161,
        text_code("ナ"@) == 99929,
        text_code("na"@) == 1644168058,
        text_code("に"@) == 99169,
        text_code("ニ"@) == 99937,
        text_code("ni"@) == 1778385786,
        text_code("ぬ"@) == 99177,
        text_code("ヌ"@) == 99945,
        text_code("nu"@) == 1979712378,
        text_code("ね"@) == 99185,
        text_code("ネ"@) == 99953,
        text_code("ne"@) == 1711276922,
        text_code("の"@) == 99193,
        text_code("ノ"@) == 99961,
        text_code("no"@) == 1879049082,
        text_code("は"@) == 99201,
        text_code("ハ"@) == 99969,
        text_code("ha"@) == 1644168010,
        text_code("ひ"@) == 99225,
        text_code("ヒ"@) == 99993,
        text_code("hi"@) == 1778385738,
        text_code("ふ"@) == 99249,
        text_code("フ"@) == 100017,
        text_code("fu"@) == 1979712314,
        text_code("hu"@) == 1979712330,
        text_code("へ"@) == 99273,
        text_code("ヘ"@) == 100041,
        text_code("he"@) == 1711276874,
        text_code("ほ"@) == 99297,
        text_code("ホ"@) == 100065,
        text_code("ho"@) == 1879049034,
        text_code("ま"@) == 99321,
        text_code("マ"@) == 100089,
        text_code("ma"@) == 1644168050,
        text_code("み"@) == 99329,
        text_code("ミ"@) == 100097,
        text_code("mi"@) == 1778385778,
        text_code("む"@) == 99337,
        text_code("ム"@) == 100105,
        text_code("mu"@) == 1979712370,
        text_code("め"@) == 99345,
        text_code("メ"@) == 100113,
        text_code("me"@) == 1711276914,
        text_code("も"@) == 99353,
        text_code("モ"@) == 100121,
        text_code("mo"@) == 1879049074,
        text_code("や"@) == 99369,
        text_code("ヤ"@) == 100137,
        text_code("ya"@) == 1644168146,
        text_code("ゆ"@) == 99385,
        text_code("ユ"@) == 100153,
        text_code("yu"@) == 1979712466,
        text_code("よ"@) == 99401,
        text_code("ヨ"@) == 100169,
        text_code("yo"@) == 1879049170,
        text_code("ら"@) == 99409,
        text_code("ラ"@) == 100177,
        text_code("ra"@) == 1644168090,
        text_code("り"@) == 99417,
        text_code("リ"@) == 100185,
        text_code("ri"@) == 1778385818,
        text_code("る"@) == 99425,
        text_code("ル"@) == 100193,
        text_code("ru"@) == 1979712410,
        text_code("れ"@) == 99433,
        text_code("レ"@) == 100201,
        text_code("re"@) == 1711276954,
        text_code("ろ"@) == 99441,
        text_code("ロ"@) == 100209,
        text_code("ro"@) == 1879049114,
        text_code("わ"@) == 99457,
        text_code("ワ"@) == 100225,
        text_code("wa"@) == 1644168130,
        text_code("を"@) == 99481,
        text_code("ヲ"@) == 100249,
        text_code("wo"@) == 1879049154,
        text_code("が"@) == 98921,
        text_code("ガ"@) == 99689,
        text_code("ga"@) == 1644168002,
        text_code("ぎ"@) == 98937,
        text_code("ギ"@) == 99705,
        text_code("gi"@) == 1778385730,
        text_code("ぐ"@) == 98953,
        text_code("グ"@) == 99721,
        text_code("gu"@) == 1979712322,
        text_code("げ"@) == 98969,
        text_code("ゲ"@) == 99737,
        text_code("ge"@) == 1711276866,
        text_code("ご"@) == 98985,
        text_code("ゴ"@) == 99753,
        text_code("go"@) == 1879049026,
        text_code("ざ"@) == 99001,
        text_code("ザ"@) == 99769,
        text_code("za"@) == 1644168154,
        text_code("じ"@) == 99017,
        text_code("ジ"@) == 99785,
        text_code("ji"@) == 1778385754,
        text_code("zi"@) == 1778385882,
        text_code("ず"@) == 99033,
        text_code("ズ"@) == 99801,
        text_code("zu"@) == 1979712474,
        text_code("ぜ"@) == 99049,
        text_code("ゼ"@) == 99817,
        text_code("ze"@) == 1711277018,
        text_code("ぞ"@) == 99065,
        text_code("ゾ"@) == 99833,
        text_code("zo"@) == 1879049178,
        text_code("だ"@) == 99081,
        text_code("ダ"@) == 99849,
        text_code("da"@) == 1644167978,
        text_code("ぢ"@) == 99097,
        text_code("ヂ"@) == 99865,
        text_code("di"@) == 1778385706,
        text_code("づ"@) == 99121,
        text_code("ヅ"@) == 99889,
        text_code("du"@) == 1979712298,
        text_code("で"@) == 99137,
        text_code("デ"@) == 99905,
        text_code("de"@) == 1711276842,
        text_code("ど"@) == 99153,
        text_code("ド"@) == 99921,
        text_code("do"@) == 1879049002,
        text_code("ば"@) == 99209,
        text_code("バ"@) == 99977,
        text_code("ba"@) == 1644167962,
        text_code("び"@) == 99233,
        text_code("ビ"@) == 100001,
        text_code("bi"@) == 1778385690,
        text_code("ぶ"@) == 99257,
        text_code("ブ"@) == 100025,
        text_code("bu"@) == 1979712282,
        text_code("べ"@) == 99281,
        text_code("ベ"@) == 100049,
        text_code("be"@) == 1711276826,
        text_code("ぼ"@) == 99305,
        text_code("ボ"@) == 100073,
        text_code("bo"@) == 1879048986,
        text_code("ぱ"@) == 99217,
        text_code("パ"@) == 99985,
        text_code("pa"@) == 1644168074,
        text_code("ぴ"@) == 99241,
        text_code("ピ"@) == 100009,
        text_code("pi"@) == 1778385802,
        text_code("ぷ"@) == 99265,
        text_code("プ"@) == 100033,
        text_code("pu"@) == 1979712394,
        text_code("ぺ"@) == 99289,
        text_code("ペ"@) == 100057,
        text_code("pe"@) == 1711276938,
        text_code("ぽ"@) == 99313,
        text_code("ポ"@) == 100081,
        text_code("po"@) == 1879049098,
        text_code("ぁ"@) == 98833,
        text_code("ァ"@) == 99601,
        text_code("xa"@) == 1644168138,
        text_code("ぃ"@) == 98849,
        text_code("ィ"@) == 99617,
        text_code("xi"@) == 1778385866,
        text_code("ぅ"@) == 98865,
        text_code("ゥ"@) == 99633,
        text_code("xu"@) == 1979712458,
        text_code("ぇ"@) == 98881,
        text_code("ェ"@) == 99649,
        text_code("xe"@) == 1711277002,
        text_code("ぉ"@) == 98897,
        text_code("ォ"@) == 99665,
        text_code("xo"@) == 1879049162,
        text_code("ゃ"@) == 99361,
        text_code("ャ"@) == 100129,
        text_code("xya"@) == 3448070511526859,
        text_code("ゅ"@) == 99377,
        text_code("ュ"@) == 100145,
        text_code("xyu"@) == 4151757953303499,
        text_code("ょ"@) == 99393,
        text_code("ョ"@) == 100161,
        text_code("xyo"@) == 3940651720770507,
        text_code("っ"@) == 99105,
        text_code("ッ"@) == 99873,
        text_code("xtsu"@) == 8706867284180033602508,
        text_code("ん"@) == 99489,
        text_code("ン"@) == 100257,
        text_code("n"@) == 889,
{
    lemma_codes_0();
    lemma_codes_1();
    lemma_codes_2();
    lemma_codes_3();
    lemma_codes_4();
    lemma_codes_5();
    lemma_codes_6();
    lemma_codes_7();
    lemma_codes_8();
    lemma_codes_9();
    lemma_codes_10();
    lemma_codes_11();
}

/// Entry `x` of the table converts `s` to hiragana.
spec fn hiragana_match(s: Seq<char>, x: int) -> bool {
    s == table(x).1 || s == table(x).2 || table(x).3 == Some(s)
}

proof fn lemma_hiragana_skip(s: Seq<char>, j: int, i: int)
    requires
        0 <= j <= i <= TABLE_LEN,
        forall|x: int| j <= x < i ==> !#[trigger] hiragana_match(s, x),
    ensures
        to_hiragana_from(s, j) == to_hiragana_from(s, i),
    decreases i - j,
{
    if j < i {
        assert(!hiragana_match(s, j));
        lemma_hiragana_skip(s, j + 1, i);
    }
}


#[verifier::rlimit(100)]
#[verifier::spinoff_prover]
proof fn lemma_round_trip_0(i: int)
    requires
        0 <= i < 8,
    ensures
        to_hiragana_from(table(i).2, 0) == table(i).0,
{
    lemma_codes();
    if i == 0 {
        assert forall|x: int| 0 <= x < 0 implies !#[trigger] hiragana_match("kya"@, x) by {}
        lemma_hiragana_skip("kya"@, 0, 0);
    } else if i == 1 {
        assert forall|x: int| 0 <= x < 1 implies !#[trigger] hiragana_match("kyu"@, x) by {}
        lemma_hiragana_skip("kyu"@, 0, 1);
    } else if i == 2 {
        assert forall|x: int| 0 <= x < 2 implies !#[trigger] hiragana_match("kyo"@, x) by {}
        lemma_hiragana_skip("kyo"@, 0, 2);
    } else if i == 3 {
        assert forall|x: int| 0 <= x < 3 implies !#[trigger] hiragana_match("sha"@, x) by {}
        lemma_hiragana_skip("sha"@, 0, 3);
    } else if i == 4 {
        assert forall|x: int| 0 <= x < 4 implies !#[trigger] hiragana_match("shu"@, x) by {}
        lemma_hiragana_skip("shu"@, 0, 4);
    } else if i == 5 {
        assert forall|x: int| 0 <= x < 5 implies !#[trigger] hiragana_match("sho"@, x) by {}
        lemma_hiragana_skip("sho"@, 0, 5);
    } else if i == 6 {
        assert forall|x: int| 0 <= x < 6 implies !#[trigger] hiragana_match("cha"@, x) by {}
        lemma_hiragana_skip("cha"@, 0, 6);
    } else if i == 7 {
        assert forall|x: int| 0 <= x < 7 implies !#[trigger] hiragana_match("chu"@, x) by {}
        lemma_hiragana_skip("chu"@, 0, 7);
    }
}

#[verifier::rlimit(100)]
#[verifier::spinoff_prover]
proof fn lemma_round_trip_1(i: int)
    requires
        8 <= i < 16,
    ensures
        to_hiragana_from(table(i).2, 0) == table(i).0,
{
    lemma_codes();
    if i == 8 {
        assert forall|x: int| 0 <= x < 8 implies !#[trigger] hiragana_match("cho"@, x) by {}
        lemma_hiragana_skip("cho"@, 0, 8);
    } else if i == 9 {
        assert forall|x: int| 0 <= x < 9 implies !#[trigger] hiragana_match("nya"@, x) by {}
        lemma_hiragana_skip("nya"@, 0, 9);
    } else if i == 10 {
        assert forall|x: int| 0 <= x < 10 implies !#[trigger] hiragana_match("nyu"@, x) by {}
        lemma_hiragana_skip("nyu"@, 0, 10);
    } else if i == 11 {
        assert forall|x: int| 0 <= x < 11 implies !#[trigger] hiragana_match("nyo"@, x) by {}
        lemma_hiragana_skip("nyo"@, 0, 11);
    } else if i == 12 {
        assert forall|x: int| 0 <= x < 12 implies !#[trigger] hiragana_match("hya"@, x) by {}
        lemma_hiragana_skip("hya"@, 0, 12);
    } else if i == 13 {
        assert forall|x: int| 0 <= x < 13 implies !#[trigger] hiragana_match("hyu"@, x) by {}
        lemma_hiragana_skip("hyu"@, 0, 13);
    } else if i == 14 {
        assert forall|x: int| 0 <= x < 14 implies !#[trigger] hiragana_match("hyo"@, x) by {}
        lemma_hiragana_skip("hyo"@, 0, 14);
    } else if i == 15 {
        assert forall|x: int| 0 <= x < 15 implies !#[trigger] hiragana_match("mya"@, x) by {}
        lemma_hiragana_skip("mya"@, 0, 15);
    }
}

#[verifier::rlimit(100)]
#[verifier::spinoff_prover]
proof fn lemma_round_trip_2(i: int)
    requires
        16 <= i < 24,
    ensures
        to_hiragana_from(table(i).2, 0) == table(i).0,
{
    lemma_codes();
    if i == 16 {
        assert forall|x: int| 0 <= x < 16 implies !#[trigger] hiragana_match("myu"@, x) by {}
        lemma_hiragana_skip("myu"@, 0, 16);
    } else if i == 17 {
        assert forall|x: int| 0 <= x < 17 implies !#[trigger] hiragana_match("myo"@, x) by {}
        lemma_hiragana_skip("myo"@, 0, 17);
    } else if i == 18 {
        assert forall|x: int| 0 <= x < 18 implies !#[trigger] hiragana_match("rya"@, x) by {}
        lemma_hiragana_skip("rya"@, 0, 18);
    } else if i == 19 {
        assert forall|x: int| 0 <= x < 19 implies !#[trigger] hiragana_match("ryu"@, x) by {}
        lemma_hiragana_skip("ryu"@, 0, 19);
    } else if i == 20 {
        assert forall|x: int| 0 <= x < 20 implies !#[trigger] hiragana_match("ryo"@, x) by {}
        lemma_hiragana_skip("ryo"@, 0, 20);
    } else if i == 21 {
        assert forall|x: int| 0 <= x < 21 implies !#[trigger] hiragana_match("gya"@, x) by {}
        lemma_hiragana_skip("gya"@, 0, 21);
    } else if i == 22 {
        assert forall|x: int| 0 <= x < 22 implies !#[trigger] hiragana_match("gyu"@, x) by {}
        lemma_hiragana_skip("gyu"@, 0, 22);
    } else if i == 23 {
        assert forall|x: int| 0 <= x < 23 implies !#[trigger] hiragana_match("gyo"@, x) by {}
        lemma_hiragana_skip("gyo"@, 0, 23);
    }
}

#[verifier::rlimit(100)]
#[verifier::spinoff_prover]
proof fn lemma_round_trip_3(i: int)
    requires
        24 <= i < 32,
    ensures
        to_hiragana_from(table(i).2, 0) == table(i).0,
{
    lemma_codes();
    if i == 24 {
        assert forall|x: int| 0 <= x < 24 implies !#[trigger] hiragana_match("ja"@, x) by {}
        lemma_hiragana_skip("ja"@, 0, 24);
    } else if i == 25 {
        assert forall|x: int| 0 <= x < 25 implies !#[trigger] hiragana_match("ju"@, x) by {}
        lemma_hiragana_skip("ju"@, 0, 25);
    } else if i == 26 {
        assert forall|x: int| 0 <= x < 26 implies !#[trigger] hiragana_match("jo"@, x) by {}
        lemma_hiragana_skip("jo"@, 0, 26);
    } else if i == 27 {
        assert forall|x: int| 0 <= x < 27 implies !#[trigger] hiragana_match("bya"@, x) by {}
        lemma_hiragana_skip("bya"@, 0, 27);
    } else if i == 28 {
        assert forall|x: int| 0 <= x < 28 implies !#[trigger] hiragana_match("byu"@, x) by {}
        lemma_hiragana_skip("byu"@, 0, 28);
    } else if i == 29 {
        assert forall|x: int| 0 <= x < 29 implies !#[trigger] hiragana_match("byo"@, x) by {}
        lemma_hiragana_skip("byo"@, 0, 29);
    } else if i == 30 {
        assert forall|x: int| 0 <= x < 30 implies !#[trigger] hiragana_match("pya"@, x) by {}
        lemma_hiragana_skip("pya"@, 0, 30);
    } else if i == 31 {
        assert forall|x: int| 0 <= x < 31 implies !#[trigger] hiragana_match("pyu"@, x) by {}
        lemma_hiragana_skip("pyu"@, 0, 31);
    }
}

#[verifier::rlimit(100)]
#[verifier::spinoff_prover]
proof fn lemma_round_trip_4(i: int)
    requires
        32 <= i < 40,
    ensures
        to_hiragana_from(table(i).2, 0) == table(i).0,
{
    lemma_codes();
    if i == 32 {
        assert forall|x: int| 0 <= x < 32 implies !#[trigger] hiragana_match("pyo"@, x) by {}
        lemma_hiragana_skip("pyo"@, 0, 32);
    } else if i == 33 {
        assert forall|x: int| 0 <= x < 33 implies !#[trigger] hiragana_match("a"@, x) by {}
        lemma_hiragana_skip("a"@, 0, 33);
    } else if i == 34 {
        assert forall|x: int| 0 <= x < 34 implies !#[trigger] hiragana_match("i"@, x) by {}
        lemma_hiragana_skip("i"@, 0, 34);
    } else if i == 35 {
        assert forall|x: int| 0 <= x < 35 implies !#[trigger] hiragana_match("u"@, x) by {}
        lemma_hiragana_skip("u"@, 0, 35);
    } else if i == 36 {
        assert forall|x: int| 0 <= x < 36 implies !#[trigger] hiragana_match("e"@, x) by {}
        lemma_hiragana_skip("e"@, 0, 36);
    } else if i == 37 {
        assert forall|x: int| 0 <= x < 37 implies !#[trigger] hiragana_match("o"@, x) by {}
        lemma_hiragana_skip("o"@, 0, 37);
    } else if i == 38 {
        assert forall|x: int| 0 <= x < 38 implies !#[trigger] hiragana_match("ka"@, x) by {}
        lemma_hiragana_skip("ka"@, 0, 38);
    } else if i == 39 {
        assert forall|x: int| 0 <= x < 39 implies !#[trigger] hiragana_match("ki"@, x) by {}
        lemma_hiragana_skip("ki"@, 0, 39);
    }
}

#[verifier::rlimit(100)]
#[verifier::spinoff_prover]
proof fn lemma_round_trip_5(i: int)
    requires
        40 <= i < 48,
    ensures
        to_hiragana_from(table(i).2, 0) == table(i).0,
{
    lemma_codes();
    if i == 40 {
        assert forall|x: int| 0 <= x < 40 implies !#[trigger] hiragana_match("ku"@, x) by {}
        lemma_hiragana_skip("ku"@, 0, 40);
    } else if i == 41 {
        assert forall|x: int| 0 <= x < 41 implies !#[trigger] hiragana_match("ke"@, x) by {}
        lemma_hiragana_skip("ke"@, 0, 41);
    } else if i == 42 {
        assert forall|x: int| 0 <= x < 42 implies !#[trigger] hiragana_match("ko"@, x) by {}
        lemma_hiragana_skip("ko"@, 0, 42);
    } else if i == 43 {
        assert forall|x: int| 0 <= x < 43 implies !#[trigger] hiragana_match("sa"@, x) by {}
        lemma_hiragana_skip("sa"@, 0, 43);
    } else if i == 44 {
        assert forall|x: int| 0 <= x < 44 implies !#[trigger] hiragana_match("shi"@, x) by {}
        lemma_hiragana_skip("shi"@, 0, 44);
    } else if i == 45 {
        assert forall|x: int| 0 <= x < 45 implies !#[trigger] hiragana_match("su"@, x) by {}
        lemma_hiragana_skip("su"@, 0, 45);
    } else if i == 46 {
        assert forall|x: int| 0 <= x < 46 implies !#[trigger] hiragana_match("se"@, x) by {}
        lemma_hiragana_skip("se"@, 0, 46);
    } else if i == 47 {
        assert forall|x: int| 0 <= x < 47 implies !#[trigger] hiragana_match("so"@, x) by {}
        lemma_hiragana_skip("so"@, 0, 47);
    }
}

#[verifier::rlimit(100)]
#[verifier::spinoff_prover]
proof fn lemma_round_trip_6(i: int)
    requires
        48 <= i < 56,
    ensures
        to_hiragana_from(table(i).2, 0) == table(i).0,
{
    lemma_codes();
    if i == 48 {
        assert forall|x: int| 0 <= x < 48 implies !#[trigger] hiragana_match("ta"@, x) by {}
        lemma_hiragana_skip("ta"@, 0, 48);
    } else if i == 49 {
        assert forall|x: int| 0 <= x < 49 implies !#[trigger] hiragana_match("chi"@, x) by {}
        lemma_hiragana_skip("chi"@, 0, 49);
    } else if i == 50 {
        assert forall|x: int| 0 <= x < 50 implies !#[trigger] hiragana_match("tsu"@, x) by {}
        lemma_hiragana_skip("tsu"@, 0, 50);
    } else if i == 51 {
        assert forall|x: int| 0 <= x < 51 implies !#[trigger] hiragana_match("te"@, x) by {}
        lemma_hiragana_skip("te"@, 0, 51);
    } else if i == 52 {
        assert forall|x: int| 0 <= x < 52 implies !#[trigger] hiragana_match("to"@, x) by {}
        lemma_hiragana_skip("to"@, 0, 52);
    } else if i == 53 {
        assert forall|x: int| 0 <= x < 53 implies !#[trigger] hiragana_match("na"@, x) by {}
        lemma_hiragana_skip("na"@, 0, 53);
    } else if i == 54 {
        assert forall|x: int| 0 <= x < 54 implies !#[trigger] hiragana_match("ni"@, x) by {}
        lemma_hiragana_skip("ni"@, 0, 54);
    } else if i == 55 {
        assert forall|x: int| 0 <= x < 55 implies !#[trigger] hiragana_match("nu"@, x) by {}
        lemma_hiragana_skip("nu"@, 0, 55);
    }
}

#[verifier::rlimit(100)]
#[verifier::spinoff_prover]
proof fn lemma_round_trip_7(i: int)
    requires
        56 <= i < 64,
    ensures
        to_hiragana_from(table(i).2, 0) == table(i).0,
{
    lemma_codes();
    if i == 56 {
        assert forall|x: int| 0 <= x < 56 implies !#[trigger] hiragana_match("ne"@, x) by {}
        lemma_hiragana_skip("ne"@, 0, 56);
    } else if i == 57 {
        assert forall|x: int| 0 <= x < 57 implies !#[trigger] hiragana_match("no"@, x) by {}
        lemma_hiragana_skip("no"@, 0, 57);
    } else if i == 58 {
        assert forall|x: int| 0 <= x < 58 implies !#[trigger] hiragana_match("ha"@, x) by {}
        lemma_hiragana_skip("ha"@, 0, 58);
    } else if i == 59 {
        assert forall|x: int| 0 <= x < 59 implies !#[trigger] hiragana_match("hi"@, x) by {}
        lemma_hiragana_skip("hi"@, 0, 59);
    } else if i == 60 {
        assert forall|x: int| 0 <= x < 60 implies !#[trigger] hiragana_match("fu"@, x) by {}
        lemma_hiragana_skip("fu"@, 0, 60);
    } else if i == 61 {
        assert forall|x: int| 0 <= x < 61 implies !#[trigger] hiragana_match("he"@, x) by {}
        lemma_hiragana_skip("he"@, 0, 61);
    } else if i == 62 {
        assert forall|x: int| 0 <= x < 62 implies !#[trigger] hiragana_match("ho"@, x) by {}
        lemma_hiragana_skip("ho"@, 0, 62);
    } else if i == 63 {
        assert forall|x: int| 0 <= x < 63 implies !#[trigger] hiragana_match("ma"@, x) by {}
        lemma_hiragana_skip("ma"@, 0, 63);
    }
}

#[verifier::rlimit(100)]
#[verifier::spinoff_prover]
proof fn lemma_round_trip_8(i: int)
    requires
        64 <= i < 72,
    ensures
        to_hiragana_from(table(i).2, 0) == table(i).0,
{
    lemma_codes();
    if i == 64 {
        assert forall|x: int| 0 <= x < 64 implies !#[trigger] hiragana_match("mi"@, x) by {}
        lemma_hiragana_skip("mi"@, 0, 64);
    } else if i == 65 {
        assert forall|x: int| 0 <= x < 65 implies !#[trigger] hiragana_match("mu"@, x) by {}
        lemma_hiragana_skip("mu"@, 0, 65);
    } else if i == 66 {
        assert forall|x: int| 0 <= x < 66 implies !#[trigger] hiragana_match("me"@, x) by {}
        lemma_hiragana_skip("me"@, 0, 66);
    } else if i == 67 {
        assert forall|x: int| 0 <= x < 67 implies !#[trigger] hiragana_match("mo"@, x) by {}
        lemma_hiragana_skip("mo"@, 0, 67);
    } else if i == 68 {
        assert forall|x: int| 0 <= x < 68 implies !#[trigger] hiragana_match("ya"@, x) by {}
        lemma_hiragana_skip("ya"@, 0, 68);
    } else if i == 69 {
        assert forall|x: int| 0 <= x < 69 implies !#[trigger] hiragana_match("yu"@, x) by {}
        lemma_hiragana_skip("yu"@, 0, 69);
    } else if i == 70 {
        assert forall|x: int| 0 <= x < 70 implies !#[trigger] hiragana_match("yo"@, x) by {}
        lemma_hiragana_skip("yo"@, 0, 70);
    } else if i == 71 {
        assert forall|x: int| 0 <= x < 71 implies !#[trigger] hiragana_match("ra"@, x) by {}
        lemma_hiragana_skip("ra"@, 0, 71);
    }
}

#[verifier::rlimit(100)]
#[verifier::spinoff_prover]
proof fn lemma_round_trip_9(i: int)
    requires
        72 <= i < 80,
    ensures
        to_hiragana_from(table(i).2, 0) == table(i).0,
{
    lemma_codes();
    if i == 72 {
        assert forall|x: int| 0 <= x < 72 implies !#[trigger] hiragana_match("ri"@, x) by {}
        lemma_hiragana_skip("ri"@, 0, 72);
    } else if i == 73 {
        assert forall|x: int| 0 <= x < 73 implies !#[trigger] hiragana_match("ru"@, x) by {}
        lemma_hiragana_skip("ru"@, 0, 73);
    } else if i == 74 {
        assert forall|x: int| 0 <= x < 74 implies !#[trigger] hiragana_match("re"@, x) by {}
        lemma_hiragana_skip("re"@, 0, 74);
    } else if i == 75 {
        assert forall|x: int| 0 <= x < 75 implies !#[trigger] hiragana_match("ro"@, x) by {}
        lemma_hiragana_skip("ro"@, 0, 75);
    } else if i == 76 {
        assert forall|x: int| 0 <= x < 76 implies !#[trigger] hiragana_match("wa"@, x) by {}
        lemma_hiragana_skip("wa"@, 0, 76);
    } else if i == 77 {
        assert forall|x: int| 0 <= x < 77 implies !#[trigger] hiragana_match("wo"@, x) by {}
        lemma_hiragana_skip("wo"@, 0, 77);
    } else if i == 78 {
        assert forall|x: int| 0 <= x < 78 implies !#[trigger] hiragana_match("ga"@, x) by {}
        lemma_hiragana_skip("ga"@, 0, 78);
    } else if i == 79 {
        assert forall|x: int| 0 <= x < 79 implies !#[trigger] hiragana_match("gi"@, x) by {}
        lemma_hiragana_skip("gi"@, 0, 79);
    }
}

#[verifier::rlimit(100)]
#[verifier::spinoff_prover]
proof fn lemma_round_trip_10(i: int)
    requires
        80 <= i < 88,
    ensures
        to_hiragana_from(table(i).2, 0) == table(i).0,
{
    lemma_codes();
    if i == 80 {
        assert forall|x: int| 0 <= x < 80 implies !#[trigger] hiragana_match("gu"@, x) by {}
        lemma_hiragana_skip("gu"@, 0, 80);
    } else if i == 81 {
        assert forall|x: int| 0 <= x < 81 implies !#[trigger] hiragana_match("ge"@, x) by {}
        lemma_hiragana_skip("ge"@, 0, 81);
    } else if i == 82 {
        assert forall|x: int| 0 <= x < 82 implies !#[trigger] hiragana_match("go"@, x) by {}
        lemma_hiragana_skip("go"@, 0, 82);
    } else if i == 83 {
        assert forall|x: int| 0 <= x < 83 implies !#[trigger] hiragana_match("za"@, x) by {}
        lemma_hiragana_skip("za"@, 0, 83);
    } else if i == 84 {
        assert forall|x: int| 0 <= x < 84 implies !#[trigger] hiragana_match("ji"@, x) by {}
        lemma_hiragana_skip("ji"@, 0, 84);
    } else if i == 85 {
        assert forall|x: int| 0 <= x < 85 implies !#[trigger] hiragana_match("zu"@, x) by {}
        lemma_hiragana_skip("zu"@, 0, 85);
    } else if i == 86 {
        assert forall|x: int| 0 <= x < 86 implies !#[trigger] hiragana_match("ze"@, x) by {}
        lemma_hiragana_skip("ze"@, 0, 86);
    } else if i == 87 {
        assert forall|x: int| 0 <= x < 87 implies !#[trigger] hiragana_match("zo"@, x) by {}
        lemma_hiragana_skip("zo"@, 0, 87);
    }
}

#[verifier::rlimit(100)]
#[verifier::spinoff_prover]
proof fn lemma_round_trip_11(i: int)
    requires
        88 <= i < 96,
    ensures
        to_hiragana_from(table(i).2, 0) == table(i).0,
{
    lemma_codes();
    if i == 88 {
        assert forall|x: int| 0 <= x < 88 implies !#[trigger] hiragana_match("da"@, x) by {}
        lemma_hiragana_skip("da"@, 0, 88);
    } else if i == 89 {
        assert forall|x: int| 0 <= x < 89 implies !#[trigger] hiragana_match("di"@, x) by {}
        lemma_hiragana_skip("di"@, 0, 89);
    } else if i == 90 {
        assert forall|x: int| 0 <= x < 90 implies !#[trigger] hiragana_match("du"@, x) by {}
        lemma_hiragana_skip("du"@, 0, 90);
    } else if i == 91 {
        assert forall|x: int| 0 <= x < 91 implies !#[trigger] hiragana_match("de"@, x) by {}
        lemma_hiragana_skip("de"@, 0, 91);
    } else if i == 92 {
        assert forall|x: int| 0 <= x < 92 implies !#[trigger] hiragana_match("do"@, x) by {}
        lemma_hiragana_skip("do"@, 0, 92);
    } else if i == 93 {
        assert forall|x: int| 0 <= x < 93 implies !#[trigger] hiragana_match("ba"@, x) by {}
        lemma_hiragana_skip("ba"@, 0, 93);
    } else if i == 94 {
        assert forall|x: int| 0 <= x < 94 implies !#[trigger] hiragana_match("bi"@, x) by {}
        lemma_hiragana_skip("bi"@, 0, 94);
    } else if i == 95 {
        assert forall|x: int| 0 <= x < 95 implies !#[trigger] hiragana_match("bu"@, x) by {}
        lemma_hiragana_skip("bu"@, 0, 95);
    }
}

#[verifier::rlimit(100)]
#[verifier::spinoff_prover]
proof fn lemma_round_trip_12(i: int)
    requires
        96 <= i < 104,
    ensures
        to_hiragana_from(table(i).2, 0) == table(i).0,
{
    lemma_codes();
    if i == 96 {
        assert forall|x: int| 0 <= x < 96 implies !#[trigger] hiragana_match("be"@, x) by {}
        lemma_hiragana_skip("be"@, 0, 96);
    } else if i == 97 {
        assert forall|x: int| 0 <= x < 97 implies !#[trigger] hiragana_match("bo"@, x) by {}
        lemma_hiragana_skip("bo"@, 0, 97);
    } else if i == 98 {
        assert forall|x: int| 0 <= x < 98 implies !#[trigger] hiragana_match("pa"@, x) by {}
        lemma_hiragana_skip("pa"@, 0, 98);
    } else if i == 99 {
        assert forall|x: int| 0 <= x < 99 implies !#[trigger] hiragana_match("pi"@, x) by {}
        lemma_hiragana_skip("pi"@, 0, 99);
    } else if i == 100 {
        assert forall|x: int| 0 <= x < 100 implies !#[trigger] hiragana_match("pu"@, x) by {}
        lemma_hiragana_skip("pu"@, 0, 100);
    } else if i == 101 {
        assert forall|x: int| 0 <= x < 101 implies !#[trigger] hiragana_match("pe"@, x) by {}
        lemma_hiragana_skip("pe"@, 0, 101);
    } else if i == 102 {
        assert forall|x: int| 0 <= x < 102 implies !#[trigger] hiragana_match("po"@, x) by {}
        lemma_hiragana_skip("po"@, 0, 102);
    } else if i == 103 {
        assert forall|x: int| 0 <= x < 103 implies !#[trigger] hiragana_match("xa"@, x) by {}
        lemma_hiragana_skip("xa"@, 0, 103);
    }
}

#[verifier::rlimit(100)]
#[verifier::spinoff_prover]
proof fn lemma_round_trip_13(i: int)
    requires
        104 <= i < 112,
    ensures
        to_hiragana_from(table(i).2, 0) == table(i).0,
{
    lemma_codes();
    if i == 104 {
        assert forall|x: int| 0 <= x < 104 implies !#[trigger] hiragana_match("xi"@, x) by {}
        lemma_hiragana_skip("xi"@, 0, 104);
    } else if i == 105 {
        assert forall|x: int| 0 <= x < 105 implies !#[trigger] hiragana_match("xu"@, x) by {}
        lemma_hiragana_skip("xu"@, 0, 105);
    } else if i == 106 {
        assert forall|x: int| 0 <= x < 106 implies !#[trigger] hiragana_match("xe"@, x) by {}
        lemma_hiragana_skip("xe"@, 0, 106);
    } else if i == 107 {
        assert forall|x: int| 0 <= x < 107 implies !#[trigger] hiragana_match("xo"@, x) by {}
        lemma_hiragana_skip("xo"@, 0, 107);
    } else if i == 108 {
        assert forall|x: int| 0 <= x < 108 implies !#[trigger] hiragana_match("xya"@, x) by {}
        lemma_hiragana_skip("xya"@, 0, 108);
    } else if i == 109 {
        assert forall|x: int| 0 <= x < 109 implies !#[trigger] hiragana_match("xyu"@, x) by {}
        lemma_hiragana_skip("xyu"@, 0, 109);
    } else if i == 110 {
        assert forall|x: int| 0 <= x < 110 implies !#[trigger] hiragana_match("xyo"@, x) by {}
        lemma_hiragana_skip("xyo"@, 0, 110);
    } else if i == 111 {
        assert forall|x: int| 0 <= x < 111 implies !#[trigger] hiragana_match("xtsu"@, x) by {}
        lemma_hiragana_skip("xtsu"@, 0, 111);
    }
}

#[verifier::rlimit(100)]
#[verifier::spinoff_prover]
proof fn lemma_round_trip_14(i: int)
    requires
        112 <= i < 113,
    ensures
        to_hiragana_from(table(i).2, 0) == table(i).0,
{
    lemma_codes();
    if i == 112 {
        assert forall|x: int| 0 <= x < 112 implies !#[trigger] hiragana_match("n"@, x) by {}
        lemma_hiragana_skip("n"@, 0, 112);
    }
}

/// The romanization of each kana of the table converts back to that kana:
/// no two kana share a romanization, so romanizing and converting back to
/// hiragana gives the kana again.
pub proof fn lemma_table_round_trip(i: int)
    requires
        0 <= i < TABLE_LEN,
    ensures
        to_hiragana_from(table(i).2, 0) == table(i).0,
{
    if i < 8 {
        lemma_round_trip_0(i);
    } else if i < 16 {
        lemma_round_trip_1(i);
    } else if i < 24 {
        lemma_round_trip_2(i);
    } else if i < 32 {
        lemma_round_trip_3(i);
    } else if i < 40 {
        lemma_round_trip_4(i);
    } else if i < 48 {
        lemma_round_trip_5(i);
    } else if i < 56 {
        lemma_round_trip_6(i);
    } else if i < 64 {
        lemma_round_trip_7(i);
    } else if i < 72 {
        lemma_round_trip_8(i);
    } else if i < 80 {
        lemma_round_trip_9(i);
    } else if i < 88 {
        lemma_round_trip_10(i);
    } else if i < 96 {
        lemma_round_trip_11(i);
    } else if i < 104 {
        lemma_round_trip_12(i);
    } else if i < 112 {
        lemma_round_trip_13(i);
    } else if i < 113 {
        lemma_round_trip_14(i);
    }
}

/// The romanization of a contracted sound, made of a full size kana
/// romanized `base` and a small ゃ, ゅ or ょ romanized `small`: `base`
/// without its final i, then y unless what is left ends in sh or ch or is j,
/// then the vowel which ends `small`.
pub open spec fn contracted(base: Seq<char>, small: Seq<char>) -> Seq<char> {
    let stem = base.drop_last();
    if (stem.len() >= 2 && stem.last() == 'h') || stem == seq!['j'] {
        stem.push(small.last())
    } else {
        stem.push('y').push(small.last())
    }
}

/// Each contracted sound of the table, a kana followed by a small kana, is
/// romanized from the romanizations of its two kana, as in Hepburn
/// romanization: き and ゅ make kyu, し and ゃ make sha, じ and ょ make jo.
#[verifier::rlimit(100)]
#[verifier::spinoff_prover]
pub proof fn lemma_contracted_sounds(i: int)
    requires
        0 <= i < TABLE_LEN,
        table(i).0.len() == 2,
    ensures
        exists|j: int, k: int|
            0 <= j < TABLE_LEN && 0 <= k < TABLE_LEN && #[trigger] table(j).0 == seq![table(i).0[0]]
                && #[trigger] table(k).0 == seq![table(i).0[1]] && table(i).2 == contracted(
                table(j).2,
                table(k).2,
            ),
{
    if i == 0 {
        reveal_strlit("きゃ");
        reveal_strlit("き");
        reveal_strlit("ゃ");
        reveal_strlit("kya");
        reveal_strlit("ki");
        reveal_strlit("xya");
        assert(table(39).0 =~= seq![table(i).0[0]]);
        assert(table(108).0 =~= seq![table(i).0[1]]);
        assert(table(39).2.drop_last() =~= seq!['k']);
        assert(seq!['k'][0] != seq!['j'][0]);
        assert(table(108).2.last() == 'a');
        assert(table(i).2 =~= contracted(table(39).2, table(108).2));
    } else if i == 1 {
        reveal_strlit("きゅ");
        reveal_strlit("き");
        reveal_strlit("ゅ");
        reveal_strlit("kyu");
        reveal_strlit("ki");
        reveal_strlit("xyu");
        assert(table(39).0 =~= seq![table(i).0[0]]);
        assert(table(109).0 =~= seq![table(i).0[1]]);
        assert(table(39).2.drop_last() =~= seq!['k']);
        assert(seq!['k'][0] != seq!['j'][0]);
        assert(table(109).2.last() == 'u');
        assert(table(i).2 =~= contracted(table(39).2, table(109).2));
    } else if i == 2 {
        reveal_strlit("きょ");
        reveal_strlit("き");
        reveal_strlit("ょ");
        reveal_strlit("kyo");
        reveal_strlit("ki");
        reveal_strlit("xyo");
        assert(table(39).0 =~= seq![table(i).0[0]]);
        assert(table(110).0 =~= seq![table(i).0[1]]);
        assert(table(39).2.drop_last() =~= seq!['k']);
        assert(seq!['k'][0] != seq!['j'][0]);
        assert(table(110).2.last() == 'o');
        assert(table(i).2 =~= contracted(table(39).2, table(110).2));
    } else if i == 3 {
        reveal_strlit("しゃ");
        reveal_strlit("し");
        reveal_strlit("ゃ");
        reveal_strlit("sha");
        reveal_strlit("shi");
        reveal_strlit("xya");
        assert(table(44).0 =~= seq![table(i).0[0]]);
        assert(table(108).0 =~= seq![table(i).0[1]]);
        assert(table(44).2.drop_last() =~= seq!['s', 'h']);
        assert(table(108).2.last() == 'a');
        assert(table(i).2 =~= contracted(table(44).2, table(108).2));
    } else if i == 4 {
        reveal_strlit("しゅ");
        reveal_strlit("し");
        reveal_strlit("ゅ");
        reveal_strlit("shu");
        reveal_strlit("shi");
        reveal_strlit("xyu");
        assert(table(44).0 =~= seq![table(i).0[0]]);
        assert(table(109).0 =~= seq![table(i).0[1]]);
        assert(table(44).2.drop_last() =~= seq!['s', 'h']);
        assert(table(109).2.last() == 'u');
        assert(table(i).2 =~= contracted(table(44).2, table(109).2));
    } else if i == 5 {
        reveal_strlit("しょ");
        reveal_strlit("し");
        reveal_strlit("ょ");
        reveal_strlit("sho");
        reveal_strlit("shi");
        reveal_strlit("xyo");
        assert(table(44).0 =~= seq![table(i).0[0]]);
        assert(table(110).0 =~= seq![table(i).0[1]]);
        assert(table(44).2.drop_last() =~= seq!['s', 'h']);
        assert(table(110).2.last() == 'o');
        assert(table(i).2 =~= contracted(table(44).2, table(110).2));
    } else if i == 6 {
        reveal_strlit("ちゃ");
        reveal_strlit("ち");
        reveal_strlit("ゃ");
        reveal_strlit("cha");
        reveal_strlit("chi");
        reveal_strlit("xya");
        assert(table(49).0 =~= seq![table(i).0[0]]);
        assert(table(108).0 =~= seq![table(i).0[1]]);
        assert(table(49).2.drop_last() =~= seq!['c', 'h']);
        assert(table(108).2.last() == 'a');
        assert(table(i).2 =~= contracted(table(49).2, table(108).2));
    } else if i == 7 {
        reveal_strlit("ちゅ");
        reveal_strlit("ち");
        reveal_strlit("ゅ");
        reveal_strlit("chu");
        reveal_strlit("chi");
        reveal_strlit("xyu");
        assert(table(49).0 =~= seq![table(i).0[0]]);
        assert(table(109).0 =~= seq![table(i).0[1]]);
        assert(table(49).2.drop_last() =~= seq!['c', 'h']);
        assert(table(109).2.last() == 'u');
        assert(table(i).2 =~= contracted(table(49).2, table(109).2));
    } else if i == 8 {
        reveal_strlit("ちょ");
        reveal_strlit("ち");
        reveal_strlit("ょ");
        reveal_strlit("cho");
        reveal_strlit("chi");
        reveal_strlit("xyo");
        assert(table(49).0 =~= seq![table(i).0[0]]);
        assert(table(110).0 =~= seq![table(i).0[1]]);
        assert(table(49).2.drop_last() =~= seq!['c', 'h']);
        assert(table(110).2.last() == 'o');
        assert(table(i).2 =~= contracted(table(49).2, table(110).2));
    } else if i == 9 {
        reveal_strlit("にゃ");
        reveal_strlit("に");
        reveal_strlit("ゃ");
        reveal_strlit("nya");
        reveal_strlit("ni");
        reveal_strlit("xya");
        assert(table(54).0 =~= seq![table(i).0[0]]);
        assert(table(108).0 =~= seq![table(i).0[1]]);
        assert(table(54).2.drop_last() =~= seq!['n']);
        assert(seq!['n'][0] != seq!['j'][0]);
        assert(table(108).2.last() == 'a');
        assert(table(i).2 =~= contracted(table(54).2, table(108).2));
    } else if i == 10 {
        reveal_strlit("にゅ");
        reveal_strlit("に");
        reveal_strlit("ゅ");
        reveal_strlit("nyu");
        reveal_strlit("ni");
        reveal_strlit("xyu");
        assert(table(54).0 =~= seq![table(i).0[0]]);
        assert(table(109).0 =~= seq![table(i).0[1]]);
        assert(table(54).2.drop_last() =~= seq!['n']);
        assert(seq!['n'][0] != seq!['j'][0]);
        assert(table(109).2.last() == 'u');
        assert(table(i).2 =~= contracted(table(54).2, table(109).2));
    } else if i == 11 {
        reveal_strlit("にょ");
        reveal_strlit("に");
        reveal_strlit("ょ");
        reveal_strlit("nyo");
        reveal_strlit("ni");
        reveal_strlit("xyo");
        assert(table(54).0 =~= seq![table(i).0[0]]);
        assert(table(110).0 =~= seq![table(i).0[1]]);
        assert(table(54).2.drop_last() =~= seq!['n']);
        assert(seq!['n'][0] != seq!['j'][0]);
        assert(table(110).2.last() == 'o');
        assert(table(i).2 =~= contracted(table(54).2, table(110).2));
    } else if i == 12 {
        reveal_strlit("ひゃ");
        reveal_strlit("ひ");
        reveal_strlit("ゃ");
        reveal_strlit("hya");
        reveal_strlit("hi");
        reveal_strlit("xya");
        assert(table(59).0 =~= seq![table(i).0[0]]);
        assert(table(108).0 =~= seq![table(i).0[1]]);
        assert(table(59).2.drop_last() =~= seq!['h']);
        assert(seq!['h'][0] != seq!['j'][0]);
        assert(table(108).2.last() == 'a');
        assert(table(i).2 =~= contracted(table(59).2, table(108).2));
    } else if i == 13 {
        reveal_strlit("ひゅ");
        reveal_strlit("ひ");
        reveal_strlit("ゅ");
        reveal_strlit("hyu");
        reveal_strlit("hi");
        reveal_strlit("xyu");
        assert(table(59).0 =~= seq![table(i).0[0]]);
        assert(table(109).0 =~= seq![table(i).0[1]]);
        assert(table(59).2.drop_last() =~= seq!['h']);
        assert(seq!['h'][0] != seq!['j'][0]);
        assert(table(109).2.last() == 'u');
        assert(table(i).2 =~= contracted(table(59).2, table(109).2));
    } else if i == 14 {
        reveal_strlit("ひょ");
        reveal_strlit("ひ");
        reveal_strlit("ょ");
        reveal_strlit("hyo");
        reveal_strlit("hi");
        reveal_strlit("xyo");
        assert(table(59).0 =~= seq![table(i).0[0]]);
        assert(table(110).0 =~= seq![table(i).0[1]]);
        assert(table(59).2.drop_last() =~= seq!['h']);
        assert(seq!['h'][0] != seq!['j'][0]);
        assert(table(110).2.last() == 'o');
        assert(table(i).2 =~= contracted(table(59).2, table(110).2));
    } else if i == 15 {
        reveal_strlit("みゃ");
        reveal_strlit("み");
        reveal_strlit("ゃ");
        reveal_strlit("mya");
        reveal_strlit("mi");
        reveal_strlit("xya");
        assert(table(64).0 =~= seq![table(i).0[0]]);
        assert(table(108).0 =~= seq![table(i).0[1]]);
        assert(table(64).2.drop_last() =~= seq!['m']);
        assert(seq!['m'][0] != seq!['j'][0]);
        assert(table(108).2.last() == 'a');
        assert(table(i).2 =~= contracted(table(64).2, table(108).2));
    } else if i == 16 {
        reveal_strlit("みゅ");
        reveal_strlit("み");
        reveal_strlit("ゅ");
        reveal_strlit("myu");
        reveal_strlit("mi");
        reveal_strlit("xyu");
        assert(table(64).0 =~= seq![table(i).0[0]]);
        assert(table(109).0 =~= seq![table(i).0[1]]);
        assert(table(64).2.drop_last() =~= seq!['m']);
        assert(seq!['m'][0] != seq!['j'][0]);
        assert(table(109).2.last() == 'u');
        assert(table(i).2 =~= contracted(table(64).2, table(109).2));
    } else if i == 17 {
        reveal_strlit("みょ");
        reveal_strlit("み");
        reveal_strlit("ょ");
        reveal_strlit("myo");
        reveal_strlit("mi");
        reveal_strlit("xyo");
        assert(table(64).0 =~= seq![table(i).0[0]]);
        assert(table(110).0 =~= seq![table(i).0[1]]);
        assert(table(64).2.drop_last() =~= seq!['m']);
        assert(seq!['m'][0] != seq!['j'][0]);
        assert(table(110).2.last() == 'o');
        assert(table(i).2 =~= contracted(table(64).2, table(110).2));
    } else if i == 18 {
        reveal_strlit("りゃ");
        reveal_strlit("り");
        reveal_strlit("ゃ");
        reveal_strlit("rya");
        reveal_strlit("ri");
        reveal_strlit("xya");
        assert(table(72).0 =~= seq![table(i).0[0]]);
        assert(table(108).0 =~= seq![table(i).0[1]]);
        assert(table(72).2.drop_last() =~= seq!['r']);
        assert(seq!['r'][0] != seq!['j'][0]);
        assert(table(108).2.last() == 'a');
        assert(table(i).2 =~= contracted(table(72).2, table(108).2));
    } else if i == 19 {
        reveal_strlit("りゅ");
        reveal_strlit("り");
        reveal_strlit("ゅ");
        reveal_strlit("ryu");
        reveal_strlit("ri");
        reveal_strlit("xyu");
        assert(table(72).0 =~= seq![table(i).0[0]]);
        assert(table(109).0 =~= seq![table(i).0[1]]);
        assert(table(72).2.drop_last() =~= seq!['r']);
        assert(seq!['r'][0] != seq!['j'][0]);
        assert(table(109).2.last() == 'u');
        assert(table(i).2 =~= contracted(table(72).2, table(109).2));
    } else if i == 20 {
        reveal_strlit("りょ");
        reveal_strlit("り");
        reveal_strlit("ょ");
        reveal_strlit("ryo");
        reveal_strlit("ri");
        reveal_strlit("xyo");
        assert(table(72).0 =~= seq![table(i).0[0]]);
        assert(table(110).0 =~= seq![table(i).0[1]]);
        assert(table(72).2.drop_last() =~= seq!['r']);
        assert(seq!['r'][0] != seq!['j'][0]);
        assert(table(110).2.last() == 'o');
        assert(table(i).2 =~= contracted(table(72).2, table(110).2));
    } else if i == 21 {
        reveal_strlit("ぎゃ");
        reveal_strlit("ぎ");
        reveal_strlit("ゃ");
        reveal_strlit("gya");
        reveal_strlit("gi");
        reveal_strlit("xya");
        assert(table(79).0 =~= seq![table(i).0[0]]);
        assert(table(108).0 =~= seq![table(i).0[1]]);
        assert(table(79).2.drop_last() =~= seq!['g']);
        assert(seq!['g'][0] != seq!['j'][0]);
        assert(table(108).2.last() == 'a');
        assert(table(i).2 =~= contracted(table(79).2, table(108).2));
    } else if i == 22 {
        reveal_strlit("ぎゅ");
        reveal_strlit("ぎ");
        reveal_strlit("ゅ");
        reveal_strlit("gyu");
        reveal_strlit("gi");
        reveal_strlit("xyu");
        assert(table(79).0 =~= seq![table(i).0[0]]);
        assert(table(109).0 =~= seq![table(i).0[1]]);
        assert(table(79).2.drop_last() =~= seq!['g']);
        assert(seq!['g'][0] != seq!['j'][0]);
        assert(table(109).2.last() == 'u');
        assert(table(i).2 =~= contracted(table(79).2, table(109).2));
    } else if i == 23 {
        reveal_strlit("ぎょ");
        reveal_strlit("ぎ");
        reveal_strlit("ょ");
        reveal_strlit("gyo");
        reveal_strlit("gi");
        reveal_strlit("xyo");
        assert(table(79).0 =~= seq![table(i).0[0]]);
        assert(table(110).0 =~= seq![table(i).0[1]]);
        assert(table(79).2.drop_last() =~= seq!['g']);
        assert(seq!['g'][0] != seq!['j'][0]);
        assert(table(110).2.last() == 'o');
        assert(table(i).2 =~= contracted(table(79).2, table(110).2));
    } else if i == 24 {
        reveal_strlit("じゃ");
        reveal_strlit("じ");
        reveal_strlit("ゃ");
        reveal_strlit("ja");
        reveal_strlit("ji");
        reveal_strlit("xya");
        assert(table(84).0 =~= seq![table(i).0[0]]);
        assert(table(108).0 =~= seq![table(i).0[1]]);
        assert(table(84).2.drop_last() =~= seq!['j']);
        assert(table(108).2.last() == 'a');
        assert(table(i).2 =~= contracted(table(84).2, table(108).2));
    } else if i == 25 {
        reveal_strlit("じゅ");
        reveal_strlit("じ");
        reveal_strlit("ゅ");
        reveal_strlit("ju");
        reveal_strlit("ji");
        reveal_strlit("xyu");
        assert(table(84).0 =~= seq![table(i).0[0]]);
        assert(table(109).0 =~= seq![table(i).0[1]]);
        assert(table(84).2.drop_last() =~= seq!['j']);
        assert(table(109).2.last() == 'u');
        assert(table(i).2 =~= contracted(table(84).2, table(109).2));
    } else if i == 26 {
        reveal_strlit("じょ");
        reveal_strlit("じ");
        reveal_strlit("ょ");
        reveal_strlit("jo");
        reveal_strlit("ji");
        reveal_strlit("xyo");
        assert(table(84).0 =~= seq![table(i).0[0]]);
        assert(table(110).0 =~= seq![table(i).0[1]]);
        assert(table(84).2.drop_last() =~= seq!['j']);
        assert(table(110).2.last() == 'o');
        assert(table(i).2 =~= contracted(table(84).2, table(110).2));
    } else if i == 27 {
        reveal_strlit("びゃ");
        reveal_strlit("び");
        reveal_strlit("ゃ");
        reveal_strlit("bya");
        reveal_strlit("bi");
        reveal_strlit("xya");
        assert(table(94).0 =~= seq![table(i).0[0]]);
        assert(table(108).0 =~= seq![table(i).0[1]]);
        assert(table(94).2.drop_last() =~= seq!['b']);
        assert(seq!['b'][0] != seq!['j'][0]);
        assert(table(108).2.last() == 'a');
        assert(table(i).2 =~= contracted(table(94).2, table(108).2));
    } else if i == 28 {
        reveal_strlit("びゅ");
        reveal_strlit("び");
        reveal_strlit("ゅ");
        reveal_strlit("byu");
        reveal_strlit("bi");
        reveal_strlit("xyu");
        assert(table(94).0 =~= seq![table(i).0[0]]);
        assert(table(109).0 =~= seq![table(i).0[1]]);
        assert(table(94).2.drop_last() =~= seq!['b']);
        assert(seq!['b'][0] != seq!['j'][0]);
        assert(table(109).2.last() == 'u');
        assert(table(i).2 =~= contracted(table(94).2, table(109).2));
    } else if i == 29 {
        reveal_strlit("びょ");
        reveal_strlit("び");
        reveal_strlit("ょ");
        reveal_strlit("byo");
        reveal_strlit("bi");
        reveal_strlit("xyo");
        assert(table(94).0 =~= seq![table(i).0[0]]);
        assert(table(110).0 =~= seq![table(i).0[1]]);
        assert(table(94).2.drop_last() =~= seq!['b']);
        assert(seq!['b'][0] != seq!['j'][0]);
        assert(table(110).2.last() == 'o');
        assert(table(i).2 =~= contracted(table(94).2, table(110).2));
    } else if i == 30 {
        reveal_strlit("ぴゃ");
        reveal_strlit("ぴ");
        reveal_strlit("ゃ");
        reveal_strlit("pya");
        reveal_strlit("pi");
        reveal_strlit("xya");
        assert(table(99).0 =~= seq![table(i).0[0]]);
        assert(table(108).0 =~= seq![table(i).0[1]]);
        assert(table(99).2.drop_last() =~= seq!['p']);
        assert(seq!['p'][0] != seq!['j'][0]);
        assert(table(108).2.last() == 'a');
        assert(table(i).2 =~= contracted(table(99).2, table(108).2));
    } else if i == 31 {
        reveal_strlit("ぴゅ");
        reveal_strlit("ぴ");
        reveal_strlit("ゅ");
        reveal_strlit("pyu");
        reveal_strlit("pi");
        reveal_strlit("xyu");
        assert(table(99).0 =~= seq![table(i).0[0]]);
        assert(table(109).0 =~= seq![table(i).0[1]]);
        assert(table(99).2.drop_last() =~= seq!['p']);
        assert(seq!['p'][0] != seq!['j'][0]);
        assert(table(109).2.last() == 'u');
        assert(table(i).2 =~= contracted(table(99).2, table(109).2));
    } else if i == 32 {
        reveal_strlit("ぴょ");
        reveal_strlit("ぴ");
        reveal_strlit("ょ");
        reveal_strlit("pyo");
        reveal_strlit("pi");
        reveal_strlit("xyo");
        assert(table(99).0 =~= seq![table(i).0[0]]);
        assert(table(110).0 =~= seq![table(i).0[1]]);
        assert(table(99).2.drop_last() =~= seq!['p']);
        assert(seq!['p'][0] != seq!['j'][0]);
        assert(table(110).2.last() == 'o');
        assert(table(i).2 =~= contracted(table(99).2, table(110).2));
    } else if i == 33 {
        reveal_strlit("あ");
    } else if i == 34 {
        reveal_strlit("い");
    } else if i == 35 {
        reveal_strlit("う");
    } else if i == 36 {
        reveal_strlit("え");
    } else if i == 37 {
        reveal_strlit("お");
    } else if i == 38 {
        reveal_strlit("か");
    } else if i == 39 {
        reveal_strlit("き");
    } else if i == 40 {
        reveal_strlit("く");
    } else if i == 41 {
        reveal_strlit("け");
    } else if i == 42 {
        reveal_strlit("こ");
    } else if i == 43 {
        reveal_strlit("さ");
    } else if i == 44 {
        reveal_strlit("し");
    } else if i == 45 {
        reveal_strlit("す");
    } else if i == 46 {
        reveal_strlit("せ");
    } else if i == 47 {
        reveal_strlit("そ");
    } else if i == 48 {
        reveal_strlit("た");
    } else if i == 49 {
        reveal_strlit("ち");
    } else if i == 50 {
        reveal_strlit("つ");
    } else if i == 51 {
        reveal_strlit("て");
    } else if i == 52 {
        reveal_strlit("と");
    } else if i == 53 {
        reveal_strlit("な");
    } else if i == 54 {
        reveal_strlit("に");
    } else if i == 55 {
        reveal_strlit("ぬ");
    } else if i == 56 {
        reveal_strlit("ね");
    } else if i == 57 {
        reveal_strlit("の");
    } else if i == 58 {
        reveal_strlit("は");
    } else if i == 59 {
        reveal_strlit("ひ");
    } else if i == 60 {
        reveal_strlit("ふ");
    } else if i == 61 {
        reveal_strlit("へ");
    } else if i == 62 {
        reveal_strlit("ほ");
    } else if i == 63 {
        reveal_strlit("ま");
    } else if i == 64 {
        reveal_strlit("み");
    } else if i == 65 {
        reveal_strlit("む");
    } else if i == 66 {
        reveal_strlit("め");
    } else if i == 67 {
        reveal_strlit("も");
    } else if i == 68 {
        reveal_strlit("や");
    } else if i == 69 {
        reveal_strlit("ゆ");
    } else if i == 70 {
        reveal_strlit("よ");
    } else if i == 71 {
        reveal_strlit("ら");
    } else if i == 72 {
        reveal_strlit("り");
    } else if i == 73 {
        reveal_strlit("る");
    } else if i == 74 {
        reveal_strlit("れ");
    } else if i == 75 {
        reveal_strlit("ろ");
    } else if i == 76 {
        reveal_strlit("わ");
    } else if i == 77 {
        reveal_strlit("を");
    } else if i == 78 {
        reveal_strlit("が");
    } else if i == 79 {
        reveal_strlit("ぎ");
    } else if i == 80 {
        reveal_strlit("ぐ");
    } else if i == 81 {
        reveal_strlit("げ");
    } else if i == 82 {
        reveal_strlit("ご");
    } else if i == 83 {
        reveal_strlit("ざ");
    } else if i == 84 {
        reveal_strlit("じ");
    } else if i == 85 {
        reveal_strlit("ず");
    } else if i == 86 {
        reveal_strlit("ぜ");
    } else if i == 87 {
        reveal_strlit("ぞ");
    } else if i == 88 {
        reveal_strlit("だ");
    } else if i == 89 {
        reveal_strlit("ぢ");
    } else if i == 90 {
        reveal_strlit("づ");
    } else if i == 91 {
        reveal_strlit("で");
    } else if i == 92 {
        reveal_strlit("ど");
    } else if i == 93 {
        reveal_strlit("ば");
    } else if i == 94 {
        reveal_strlit("び");
    } else if i == 95 {
        reveal_strlit("ぶ");
    } else if i == 96 {
        reveal_strlit("べ");
    } else if i == 97 {
        reveal_strlit("ぼ");
    } else if i == 98 {
        reveal_strlit("ぱ");
    } else if i == 99 {
        reveal_strlit("ぴ");
    } else if i == 100 {
        reveal_strlit("ぷ");
    } else if i == 101 {
        reveal_strlit("ぺ");
    } else if i == 102 {
        reveal_strlit("ぽ");
    } else if i == 103 {
        reveal_strlit("ぁ");
    } else if i == 104 {
        reveal_strlit("ぃ");
    } else if i == 105 {
        reveal_strlit("ぅ");
    } else if i == 106 {
        reveal_strlit("ぇ");
    } else if i == 107 {
        reveal_strlit("ぉ");
    } else if i == 108 {
        reveal_strlit("ゃ");
    } else if i == 109 {
        reveal_strlit("ゅ");
    } else if i == 110 {
        reveal_strlit("ょ");
    } else if i == 111 {
        reveal_strlit("っ");
    } else if i == 112 {
        reveal_strlit("ん");
    }
}

} // verus!
