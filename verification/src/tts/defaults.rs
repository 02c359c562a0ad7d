//! The languages that the speech service offers.

use vstd::prelude::*;
use crate::tts::languages::LanguageConfig;
use crate::tts::languages::LanguageView;
use crate::tts::languages::distinct_codes;
use crate::tts::languages::language;

verus! {

/// The number of languages that the speech service offers.
pub const LANGUAGE_COUNT: usize = 106;

/// The language with the number `i` among those that the speech service
/// offers, by name from Afrikaans to Zulu.
pub open spec fn default_language(i: int) -> LanguageView {
    if i == 0 {
        language("af"@, "Afrikaans"@)
    } else     if i == 1 {
        language("sq"@, "Albanian"@)
    } else     if i == 2 {
        language("am"@, "Amharic"@)
    } else     if i == 3 {
        language("ar"@, "Arabic"@)
    } else     if i == 4 {
        language("az"@, "Azerbaijani"@)
    } else     if i == 5 {
        language("be"@, "Belarusian"@)
    } else     if i == 6 {
        language("bg"@, "Bulgarian"@)
    } else     if i == 7 {
        language("bn"@, "Bengali"@)
    } else     if i == 8 {
        language("bs"@, "Bosnian"@)
    } else     if i == 9 {
        language("ca"@, "Catalan"@)
    } else     if i == 10 {
        language("ceb"@, "Cebuano"@)
    } else     if i == 11 {
        language("ny"@, "Chichewa"@)
    } else     if i == 12 {
        language("zh-CN"@, "Chinese (Simplified)"@)
    } else     if i == 13 {
        language("zh-TW"@, "Chinese (Traditional)"@)
    } else     if i == 14 {
        language("co"@, "Corsican"@)
    } else     if i == 15 {
        language("hr"@, "Croatian"@)
    } else     if i == 16 {
        language("cs"@, "Czech"@)
    } else     if i == 17 {
        language("da"@, "Danish"@)
    } else     if i == 18 {
        language("nl"@, "Dutch"@)
    } else     if i == 19 {
        language("en"@, "English"@)
    } else     if i == 20 {
        language("eo"@, "Esperanto"@)
    } else     if i == 21 {
        language("et"@, "Estonian"@)
    } else     if i == 22 {
        language("tl"@, "Filipino"@)
    } else     if i == 23 {
        language("fi"@, "Finnish"@)
    } else     if i == 24 {
        language("fr"@, "French"@)
    } else     if i == 25 {
        language("fy"@, "Frisian"@)
    } else     if i == 26 {
        language("gl"@, "Galician"@)
    } else     if i == 27 {
        language("ka"@, "Georgian"@)
    } else     if i == 28 {
        language("de"@, "German"@)
    } else     if i == 29 {
        language("el"@, "Greek"@)
    } else     if i == 30 {
        language("gu"@, "Gujarati"@)
    } else     if i == 31 {
        language("ht"@, "Haitian Creole"@)
    } else     if i == 32 {
        language("ha"@, "Hausa"@)
    } else     if i == 33 {
        language("haw"@, "Hawaiian"@)
    } else     if i == 34 {
        language("iw"@, "Hebrew"@)
    } else     if i == 35 {
        language("hi"@, "Hindi"@)
    } else     if i == 36 {
        language("hmn"@, "Hmong"@)
    } else     if i == 37 {
        language("hu"@, "Hungarian"@)
    } else     if i == 38 {
        language("is"@, "Icelandic"@)
    } else     if i == 39 {
        language("ig"@, "Igbo"@)
    } else     if i == 40 {
        language("id"@, "Indonesian"@)
    } else     if i == 41 {
        language("ga"@, "Irish"@)
    } else     if i == 42 {
        language("it"@, "Italian"@)
    } else     if i == 43 {
        language("ja"@, "Japanese"@)
    } else     if i == 44 {
        language("jw"@, "Javanese"@)
    } else     if i == 45 {
        language("kn"@, "Kannada"@)
    } else     if i == 46 {
        language("kk"@, "Kazakh"@)
    } else     if i == 47 {
        language("km"@, "Khmer"@)
    } else     if i == 48 {
        language("rw"@, "Kinyarwanda"@)
    } else     if i == 49 {
        language("ko"@, "Korean"@)
    } else     if i == 50 {
        language("ku"@, "Kurdish (Kurmanji)"@)
    } else     if i == 51 {
        language("ky"@, "Kyrgyz"@)
    } else     if i == 52 {
        language("lo"@, "Lao"@)
    } else     if i == 53 {
        language("la"@, "Latin"@)
    } else     if i == 54 {
        language("lv"@, "Latvian"@)
    } else     if i == 55 {
        language("lt"@, "Lithuanian"@)
    } else     if i == 56 {
        language("lb"@, "Luxembourgish"@)
    } else     if i == 57 {
        language("mk"@, "Macedonian"@)
    } else     if i == 58 {
        language("mg"@, "Malagasy"@)
    } else     if i == 59 {
        language("ms"@, "Malay"@)
    } else     if i == 60 {
        language("ml"@, "Malayalam"@)
    } else     if i == 61 {
        language("mt"@, "Maltese"@)
    } else     if i == 62 {
        language("mi"@, "Maori"@)
    } else     if i == 63 {
        language("mr"@, "Marathi"@)
    } else     if i == 64 {
        language("mn"@, "Mongolian"@)
    } else     if i == 65 {
        language("my"@, "Myanmar (Burmese)"@)
    } else     if i == 66 {
        language("ne"@, "Nepali"@)
    } else     if i == 67 {
        language("no"@, "Norwegian"@)
    } else     if i == 68 {
        language("or"@, "Odia"@)
    } else     if i == 69 {
        language("ps"@, "Pashto"@)
    } else     if i == 70 {
        language("fa"@, "Persian"@)
    } else     if i == 71 {
        language("pl"@, "Polish"@)
    } else     if i == 72 {
        language("pt"@, "Portuguese"@)
    } else     if i == 73 {
        language("pa"@, "Punjabi"@)
    } else     if i == 74 {
        language("qu"@, "Quechua"@)
    } else     if i == 75 {
        language("ro"@, "Romanian"@)
    } else     if i == 76 {
        language("ru"@, "Russian"@)
    } else     if i == 77 {
        language("sm"@, "Samoan"@)
    } else     if i == 78 {
        language("gd"@, "Scots Gaelic"@)
    } else     if i == 79 {
        language("sr"@, "Serbian"@)
    } else     if i == 80 {
        language("st"@, "Sesotho"@)
    } else     if i == 81 {
        language("sn"@, "Shona"@)
    } else     if i == 82 {
        language("sd"@, "Sindhi"@)
    } else     if i == 83 {
        language("si"@, "Sinhala"@)
    } else     if i == 84 {
        language("sk"@, "Slovak"@)
    } else     if i == 85 {
        language("sl"@, "Slovenian"@)
    } else     if i == 86 {
        language("so"@, "Somali"@)
    } else     if i == 87 {
        language("es"@, "Spanish"@)
    } else     if i == 88 {
        language("su"@, "Sundanese"@)
    } else     if i == 89 {
        language("sw"@, "Swahili"@)
    } else     if i == 90 {
        language("sv"@, "Swedish"@)
    } else     if i == 91 {
        language("tg"@, "Tajik"@)
    } else     if i == 92 {
        language("ta"@, "Tamil"@)
    } else     if i == 93 {
        language("te"@, "Telugu"@)
    } else     if i == 94 {
        language("th"@, "Thai"@)
    } else     if i == 95 {
        language("tr"@, "Turkish"@)
    } else     if i == 96 {
        language("uk"@, "Ukrainian"@)
    } else     if i == 97 {
        language("ur"@, "Urdu"@)
    } else     if i == 98 {
        language("ug"@, "Uyghur"@)
    } else     if i == 99 {
        language("uz"@, "Uzbek"@)
    } else     if i == 100 {
        language("vi"@, "Vietnamese"@)
    } else     if i == 101 {
        language("cy"@, "Welsh"@)
    } else     if i == 102 {
        language("xh"@, "Xhosa"@)
    } else     if i == 103 {
        language("yi"@, "Yiddish"@)
    } else     if i == 104 {
        language("yo"@, "Yoruba"@)
    } else {
        language("zu"@, "Zulu"@)
    }
}

/// The languages of a new configuration: every language that the speech
/// service offers, enabled.
pub open spec fn default_languages() -> Seq<LanguageView> {
    Seq::new(LANGUAGE_COUNT as nat, |i: int| default_language(i))
}

/// Where the language with the code `code` stands among the languages that
/// the speech service offers; -1 for a code that it does not offer.
pub open spec fn default_position(code: Seq<char>) -> int {
    if code == "af"@ {
        0
    } else     if code == "sq"@ {
        1
    } else     if code == "am"@ {
        2
    } else     if code == "ar"@ {
        3
    } else     if code == "az"@ {
        4
    } else     if code == "be"@ {
        5
    } else     if code == "bg"@ {
        6
    } else     if code == "bn"@ {
        7
    } else     if code == "bs"@ {
        8
    } else     if code == "ca"@ {
        9
    } else     if code == "ceb"@ {
        10
    } else     if code == "ny"@ {
        11
    } else     if code == "zh-CN"@ {
        12
    } else     if code == "zh-TW"@ {
        13
    } else     if code == "co"@ {
        14
    } else     if code == "hr"@ {
        15
    } else     if code == "cs"@ {
        16
    } else     if code == "da"@ {
        17
    } else     if code == "nl"@ {
        18
    } else     if code == "en"@ {
        19
    } else     if code == "eo"@ {
        20
    } else     if code == "et"@ {
        21
    } else     if code == "tl"@ {
        22
    } else     if code == "fi"@ {
        23
    } else     if code == "fr"@ {
        24
    } else     if code == "fy"@ {
        25
    } else     if code == "gl"@ {
        26
    } else     if code == "ka"@ {
        27
    } else     if code == "de"@ {
        28
    } else     if code == "el"@ {
        29
    } else     if code == "gu"@ {
        30
    } else     if code == "ht"@ {
        31
    } else     if code == "ha"@ {
        32
    } else     if code == "haw"@ {
        33
    } else     if code == "iw"@ {
        34
    } else     if code == "hi"@ {
        35
    } else     if code == "hmn"@ {
        36
    } else     if code == "hu"@ {
        37
    } else     if code == "is"@ {
        38
    } else     if code == "ig"@ {
        39
    } else     if code == "id"@ {
        40
    } else     if code == "ga"@ {
        41
    } else     if code == "it"@ {
        42
    } else     if code == "ja"@ {
        43
    } else     if code == "jw"@ {
        44
    } else     if code == "kn"@ {
        45
    } else     if code == "kk"@ {
        46
    } else     if code == "km"@ {
        47
    } else     if code == "rw"@ {
        48
    } else     if code == "ko"@ {
        49
    } else     if code == "ku"@ {
        50
    } else     if code == "ky"@ {
        51
    } else     if code == "lo"@ {
        52
    } else     if code == "la"@ {
        53
    } else     if code == "lv"@ {
        54
    } else     if code == "lt"@ {
        55
    } else     if code == "lb"@ {
        56
    } else     if code == "mk"@ {
        57
    } else     if code == "mg"@ {
        58
    } else     if code == "ms"@ {
        59
    } else     if code == "ml"@ {
        60
    } else     if code == "mt"@ {
        61
    } else     if code == "mi"@ {
        62
    } else     if code == "mr"@ {
        63
    } else     if code == "mn"@ {
        64
    } else     if code == "my"@ {
        65
    } else     if code == "ne"@ {
        66
    } else     if code == "no"@ {
        67
    } else     if code == "or"@ {
        68
    } else     if code == "ps"@ {
        69
    } else     if code == "fa"@ {
        70
    } else     if code == "pl"@ {
        71
    } else     if code == "pt"@ {
        72
    } else     if code == "pa"@ {
        73
    } else     if code == "qu"@ {
        74
    } else     if code == "ro"@ {
        75
    } else     if code == "ru"@ {
        76
    } else     if code == "sm"@ {
        77
    } else     if code == "gd"@ {
        78
    } else     if code == "sr"@ {
        79
    } else     if code == "st"@ {
        80
    } else     if code == "sn"@ {
        81
    } else     if code == "sd"@ {
        82
    } else     if code == "si"@ {
        83
    } else     if code == "sk"@ {
        84
    } else     if code == "sl"@ {
        85
    } else     if code == "so"@ {
        86
    } else     if code == "es"@ {
        87
    } else     if code == "su"@ {
        88
    } else     if code == "sw"@ {
        89
    } else     if code == "sv"@ {
        90
    } else     if code == "tg"@ {
        91
    } else     if code == "ta"@ {
        92
    } else     if code == "te"@ {
        93
    } else     if code == "th"@ {
        94
    } else     if code == "tr"@ {
        95
    } else     if code == "uk"@ {
        96
    } else     if code == "ur"@ {
        97
    } else     if code == "ug"@ {
        98
    } else     if code == "uz"@ {
        99
    } else     if code == "vi"@ {
        100
    } else     if code == "cy"@ {
        101
    } else     if code == "xh"@ {
        102
    } else     if code == "yi"@ {
        103
    } else     if code == "yo"@ {
        104
    } else     if code == "zu"@ {
        105
    } else {
        -1
    }
}

/// Every language that the speech service offers stands where
/// `default_position` says.
pub proof fn lemma_default_positions()
    ensures
        forall|i: int|
            0 <= i < LANGUAGE_COUNT ==> default_position((#[trigger] default_language(i)).code)
                == i,
{
    reveal_strlit("af");
    assert("af"@.len() == 2 && "af"@[0] == 'a' && "af"@[1] == 'f');
    reveal_strlit("sq");
    assert("sq"@.len() == 2 && "sq"@[0] == 's' && "sq"@[1] == 'q');
    reveal_strlit("am");
    assert("am"@.len() == 2 && "am"@[0] == 'a' && "am"@[1] == 'm');
    reveal_strlit("ar");
    assert("ar"@.len() == 2 && "ar"@[0] == 'a' && "ar"@[1] == 'r');
    reveal_strlit("az");
    assert("az"@.len() == 2 && "az"@[0] == 'a' && "az"@[1] == 'z');
    reveal_strlit("be");
    assert("be"@.len() == 2 && "be"@[0] == 'b' && "be"@[1] == 'e');
    reveal_strlit("bg");
    assert("bg"@.len() == 2 && "bg"@[0] == 'b' && "bg"@[1] == 'g');
    reveal_strlit("bn");
    assert("bn"@.len() == 2 && "bn"@[0] == 'b' && "bn"@[1] == 'n');
    reveal_strlit("bs");
    assert("bs"@.len() == 2 && "bs"@[0] == 'b' && "bs"@[1] == 's');
    reveal_strlit("ca");
    assert("ca"@.len() == 2 && "ca"@[0] == 'c' && "ca"@[1] == 'a');
    reveal_strlit("ceb");
    assert("ceb"@.len() == 3 && "ceb"@[0] == 'c' && "ceb"@[1] == 'e' && "ceb"@[2] == 'b');
    reveal_strlit("ny");
    assert("ny"@.len() == 2 && "ny"@[0] == 'n' && "ny"@[1] == 'y');
    reveal_strlit("zh-CN");
    assert("zh-CN"@.len() == 5 && "zh-CN"@[0] == 'z' && "zh-CN"@[1] == 'h' && "zh-CN"@[2] == '-' && "zh-CN"@[3] == 'C' && "zh-CN"@[4] == 'N');
    reveal_strlit("zh-TW");
    assert("zh-TW"@.len() == 5 && "zh-TW"@[0] == 'z' && "zh-TW"@[1] == 'h' && "zh-TW"@[2] == '-' && "zh-TW"@[3] == 'T' && "zh-TW"@[4] == 'W');
    reveal_strlit("co");
    assert("co"@.len() == 2 && "co"@[0] == 'c' && "co"@[1] == 'o');
    reveal_strlit("hr");
    assert("hr"@.len() == 2 && "hr"@[0] == 'h' && "hr"@[1] == 'r');
    reveal_strlit("cs");
    assert("cs"@.len() == 2 && "cs"@[0] == 'c' && "cs"@[1] == 's');
    reveal_strlit("da");
    assert("da"@.len() == 2 && "da"@[0] == 'd' && "da"@[1] == 'a');
    reveal_strlit("nl");
    assert("nl"@.len() == 2 && "nl"@[0] == 'n' && "nl"@[1] == 'l');
    reveal_strlit("en");
    assert("en"@.len() == 2 && "en"@[0] == 'e' && "en"@[1] == 'n');
    reveal_strlit("eo");
    assert("eo"@.len() == 2 && "eo"@[0] == 'e' && "eo"@[1] == 'o');
    reveal_strlit("et");
    assert("et"@.len() == 2 && "et"@[0] == 'e' && "et"@[1] == 't');
    reveal_strlit("tl");
    assert("tl"@.len() == 2 && "tl"@[0] == 't' && "tl"@[1] == 'l');
    reveal_strlit("fi");
    assert("fi"@.len() == 2 && "fi"@[0] == 'f' && "fi"@[1] == 'i');
    reveal_strlit("fr");
    assert("fr"@.len() == 2 && "fr"@[0] == 'f' && "fr"@[1] == 'r');
    reveal_strlit("fy");
    assert("fy"@.len() == 2 && "fy"@[0] == 'f' && "fy"@[1] == 'y');
    reveal_strlit("gl");
    assert("gl"@.len() == 2 && "gl"@[0] == 'g' && "gl"@[1] == 'l');
    reveal_strlit("ka");
    assert("ka"@.len() == 2 && "ka"@[0] == 'k' && "ka"@[1] == 'a');
    reveal_strlit("de");
    assert("de"@.len() == 2 && "de"@[0] == 'd' && "de"@[1] == 'e');
    reveal_strlit("el");
    assert("el"@.len() == 2 && "el"@[0] == 'e' && "el"@[1] == 'l');
    reveal_strlit("gu");
    assert("gu"@.len() == 2 && "gu"@[0] == 'g' && "gu"@[1] == 'u');
    reveal_strlit("ht");
    assert("ht"@.len() == 2 && "ht"@[0] == 'h' && "ht"@[1] == 't');
    reveal_strlit("ha");
    assert("ha"@.len() == 2 && "ha"@[0] == 'h' && "ha"@[1] == 'a');
    reveal_strlit("haw");
    assert("haw"@.len() == 3 && "haw"@[0] == 'h' && "haw"@[1] == 'a' && "haw"@[2] == 'w');
    reveal_strlit("iw");
    assert("iw"@.len() == 2 && "iw"@[0] == 'i' && "iw"@[1] == 'w');
    reveal_strlit("hi");
    assert("hi"@.len() == 2 && "hi"@[0] == 'h' && "hi"@[1] == 'i');
    reveal_strlit("hmn");
    assert("hmn"@.len() == 3 && "hmn"@[0] == 'h' && "hmn"@[1] == 'm' && "hmn"@[2] == 'n');
    reveal_strlit("hu");
    assert("hu"@.len() == 2 && "hu"@[0] == 'h' && "hu"@[1] == 'u');
    reveal_strlit("is");
    assert("is"@.len() == 2 && "is"@[0] == 'i' && "is"@[1] == 's');
    reveal_strlit("ig");
    assert("ig"@.len() == 2 && "ig"@[0] == 'i' && "ig"@[1] == 'g');
    reveal_strlit("id");
    assert("id"@.len() == 2 && "id"@[0] == 'i' && "id"@[1] == 'd');
    reveal_strlit("ga");
    assert("ga"@.len() == 2 && "ga"@[0] == 'g' && "ga"@[1] == 'a');
    reveal_strlit("it");
    assert("it"@.len() == 2 && "it"@[0] == 'i' && "it"@[1] == 't');
    reveal_strlit("ja");
    assert("ja"@.len() == 2 && "ja"@[0] == 'j' && "ja"@[1] == 'a');
    reveal_strlit("jw");
    assert("jw"@.len() == 2 && "jw"@[0] == 'j' && "jw"@[1] == 'w');
    reveal_strlit("kn");
    assert("kn"@.len() == 2 && "kn"@[0] == 'k' && "kn"@[1] == 'n');
    reveal_strlit("kk");
    assert("kk"@.len() == 2 && "kk"@[0] == 'k' && "kk"@[1] == 'k');
    reveal_strlit("km");
    assert("km"@.len() == 2 && "km"@[0] == 'k' && "km"@[1] == 'm');
    reveal_strlit("rw");
    assert("rw"@.len() == 2 && "rw"@[0] == 'r' && "rw"@[1] == 'w');
    reveal_strlit("ko");
    assert("ko"@.len() == 2 && "ko"@[0] == 'k' && "ko"@[1] == 'o');
    reveal_strlit("ku");
    assert("ku"@.len() == 2 && "ku"@[0] == 'k' && "ku"@[1] == 'u');
    reveal_strlit("ky");
    assert("ky"@.len() == 2 && "ky"@[0] == 'k' && "ky"@[1] == 'y');
    reveal_strlit("lo");
    assert("lo"@.len() == 2 && "lo"@[0] == 'l' && "lo"@[1] == 'o');
    reveal_strlit("la");
    assert("la"@.len() == 2 && "la"@[0] == 'l' && "la"@[1] == 'a');
    reveal_strlit("lv");
    assert("lv"@.len() == 2 && "lv"@[0] == 'l' && "lv"@[1] == 'v');
    reveal_strlit("lt");
    assert("lt"@.len() == 2 && "lt"@[0] == 'l' && "lt"@[1] == 't');
    reveal_strlit("lb");
    assert("lb"@.len() == 2 && "lb"@[0] == 'l' && "lb"@[1] == 'b');
    reveal_strlit("mk");
    assert("mk"@.len() == 2 && "mk"@[0] == 'm' && "mk"@[1] == 'k');
    reveal_strlit("mg");
    assert("mg"@.len() == 2 && "mg"@[0] == 'm' && "mg"@[1] == 'g');
    reveal_strlit("ms");
    assert("ms"@.len() == 2 && "ms"@[0] == 'm' && "ms"@[1] == 's');
    reveal_strlit("ml");
    assert("ml"@.len() == 2 && "ml"@[0] == 'm' && "ml"@[1] == 'l');
    reveal_strlit("mt");
    assert("mt"@.len() == 2 && "mt"@[0] == 'm' && "mt"@[1] == 't');
    reveal_strlit("mi");
    assert("mi"@.len() == 2 && "mi"@[0] == 'm' && "mi"@[1] == 'i');
    reveal_strlit("mr");
    assert("mr"@.len() == 2 && "mr"@[0] == 'm' && "mr"@[1] == 'r');
    reveal_strlit("mn");
    assert("mn"@.len() == 2 && "mn"@[0] == 'm' && "mn"@[1] == 'n');
    reveal_strlit("my");
    assert("my"@.len() == 2 && "my"@[0] == 'm' && "my"@[1] == 'y');
    reveal_strlit("ne");
    assert("ne"@.len() == 2 && "ne"@[0] == 'n' && "ne"@[1] == 'e');
    reveal_strlit("no");
    assert("no"@.len() == 2 && "no"@[0] == 'n' && "no"@[1] == 'o');
    reveal_strlit("or");
    assert("or"@.len() == 2 && "or"@[0] == 'o' && "or"@[1] == 'r');
    reveal_strlit("ps");
    assert("ps"@.len() == 2 && "ps"@[0] == 'p' && "ps"@[1] == 's');
    reveal_strlit("fa");
    assert("fa"@.len() == 2 && "fa"@[0] == 'f' && "fa"@[1] == 'a');
    reveal_strlit("pl");
    assert("pl"@.len() == 2 && "pl"@[0] == 'p' && "pl"@[1] == 'l');
    reveal_strlit("pt");
    assert("pt"@.len() == 2 && "pt"@[0] == 'p' && "pt"@[1] == 't');
    reveal_strlit("pa");
    assert("pa"@.len() == 2 && "pa"@[0] == 'p' && "pa"@[1] == 'a');
    reveal_strlit("qu");
    assert("qu"@.len() == 2 && "qu"@[0] == 'q' && "qu"@[1] == 'u');
    reveal_strlit("ro");
    assert("ro"@.len() == 2 && "ro"@[0] == 'r' && "ro"@[1] == 'o');
    reveal_strlit("ru");
    assert("ru"@.len() == 2 && "ru"@[0] == 'r' && "ru"@[1] == 'u');
    reveal_strlit("sm");
    assert("sm"@.len() == 2 && "sm"@[0] == 's' && "sm"@[1] == 'm');
    reveal_strlit("gd");
    assert("gd"@.len() == 2 && "gd"@[0] == 'g' && "gd"@[1] == 'd');
    reveal_strlit("sr");
    assert("sr"@.len() == 2 && "sr"@[0] == 's' && "sr"@[1] == 'r');
    reveal_strlit("st");
    assert("st"@.len() == 2 && "st"@[0] == 's' && "st"@[1] == 't');
    reveal_strlit("sn");
    assert("sn"@.len() == 2 && "sn"@[0] == 's' && "sn"@[1] == 'n');
    reveal_strlit("sd");
    assert("sd"@.len() == 2 && "sd"@[0] == 's' && "sd"@[1] == 'd');
    reveal_strlit("si");
    assert("si"@.len() == 2 && "si"@[0] == 's' && "si"@[1] == 'i');
    reveal_strlit("sk");
    assert("sk"@.len() == 2 && "sk"@[0] == 's' && "sk"@[1] == 'k');
    reveal_strlit("sl");
    assert("sl"@.len() == 2 && "sl"@[0] == 's' && "sl"@[1] == 'l');
    reveal_strlit("so");
    assert("so"@.len() == 2 && "so"@[0] == 's' && "so"@[1] == 'o');
    reveal_strlit("es");
    assert("es"@.len() == 2 && "es"@[0] == 'e' && "es"@[1] == 's');
    reveal_strlit("su");
    assert("su"@.len() == 2 && "su"@[0] == 's' && "su"@[1] == 'u');
    reveal_strlit("sw");
    assert("sw"@.len() == 2 && "sw"@[0] == 's' && "sw"@[1] == 'w');
    reveal_strlit("sv");
    assert("sv"@.len() == 2 && "sv"@[0] == 's' && "sv"@[1] == 'v');
    reveal_strlit("tg");
    assert("tg"@.len() == 2 && "tg"@[0] == 't' && "tg"@[1] == 'g');
    reveal_strlit("ta");
    assert("ta"@.len() == 2 && "ta"@[0] == 't' && "ta"@[1] == 'a');
    reveal_strlit("te");
    assert("te"@.len() == 2 && "te"@[0] == 't' && "te"@[1] == 'e');
    reveal_strlit("th");
    assert("th"@.len() == 2 && "th"@[0] == 't' && "th"@[1] == 'h');
    reveal_strlit("tr");
    assert("tr"@.len() == 2 && "tr"@[0] == 't' && "tr"@[1] == 'r');
    reveal_strlit("uk");
    assert("uk"@.len() == 2 && "uk"@[0] == 'u' && "uk"@[1] == 'k');
    reveal_strlit("ur");
    assert("ur"@.len() == 2 && "ur"@[0] == 'u' && "ur"@[1] == 'r');
    reveal_strlit("ug");
    assert("ug"@.len() == 2 && "ug"@[0] == 'u' && "ug"@[1] == 'g');
    reveal_strlit("uz");
    assert("uz"@.len() == 2 && "uz"@[0] == 'u' && "uz"@[1] == 'z');
    reveal_strlit("vi");
    assert("vi"@.len() == 2 && "vi"@[0] == 'v' && "vi"@[1] == 'i');
    reveal_strlit("cy");
    assert("cy"@.len() == 2 && "cy"@[0] == 'c' && "cy"@[1] == 'y');
    reveal_strlit("xh");
    assert("xh"@.len() == 2 && "xh"@[0] == 'x' && "xh"@[1] == 'h');
    reveal_strlit("yi");
    assert("yi"@.len() == 2 && "yi"@[0] == 'y' && "yi"@[1] == 'i');
    reveal_strlit("yo");
    assert("yo"@.len() == 2 && "yo"@[0] == 'y' && "yo"@[1] == 'o');
    reveal_strlit("zu");
    assert("zu"@.len() == 2 && "zu"@[0] == 'z' && "zu"@[1] == 'u');
}

/// No two of the languages that the speech service offers have the same
/// code.
pub proof fn lemma_default_codes_distinct()
    ensures
        distinct_codes(default_languages()),
{
    lemma_default_positions();
    let s = default_languages();
    assert forall|i: int, j: int| 0 <= i < j < s.len() implies s[i].code != s[j].code by {
        assert(default_position(default_language(i).code) == i);
        assert(default_position(default_language(j).code) == j);
    }
}

/// The code and the name of the language with the number `i`.
fn default_entry(i: usize) -> (r: (&'static str, &'static str))
    requires
        i < LANGUAGE_COUNT,
    ensures
        language(r.0@, r.1@) == default_language(i as int),
{
    match i {
        0 => ("af", "Afrikaans"),
        1 => ("sq", "Albanian"),
        2 => ("am", "Amharic"),
        3 => ("ar", "Arabic"),
        4 => ("az", "Azerbaijani"),
        5 => ("be", "Belarusian"),
        6 => ("bg", "Bulgarian"),
        7 => ("bn", "Bengali"),
        8 => ("bs", "Bosnian"),
        9 => ("ca", "Catalan"),
        10 => ("ceb", "Cebuano"),
        11 => ("ny", "Chichewa"),
        12 => ("zh-CN", "Chinese (Simplified)"),
        13 => ("zh-TW", "Chinese (Traditional)"),
        14 => ("co", "Corsican"),
        15 => ("hr", "Croatian"),
        16 => ("cs", "Czech"),
        17 => ("da", "Danish"),
        18 => ("nl", "Dutch"),
        19 => ("en", "English"),
        20 => ("eo", "Esperanto"),
        21 => ("et", "Estonian"),
        22 => ("tl", "Filipino"),
        23 => ("fi", "Finnish"),
        24 => ("fr", "French"),
        25 => ("fy", "Frisian"),
        26 => ("gl", "Galician"),
        27 => ("ka", "Georgian"),
        28 => ("de", "German"),
        29 => ("el", "Greek"),
        30 => ("gu", "Gujarati"),
        31 => ("ht", "Haitian Creole"),
        32 => ("ha", "Hausa"),
        33 => ("haw", "Hawaiian"),
        34 => ("iw", "Hebrew"),
        35 => ("hi", "Hindi"),
        36 => ("hmn", "Hmong"),
        37 => ("hu", "Hungarian"),
        38 => ("is", "Icelandic"),
        39 => ("ig", "Igbo"),
        40 => ("id", "Indonesian"),
        41 => ("ga", "Irish"),
        42 => ("it", "Italian"),
        43 => ("ja", "Japanese"),
        44 => ("jw", "Javanese"),
        45 => ("kn", "Kannada"),
        46 => ("kk", "Kazakh"),
        47 => ("km", "Khmer"),
        48 => ("rw", "Kinyarwanda"),
        49 => ("ko", "Korean"),
        50 => ("ku", "Kurdish (Kurmanji)"),
        51 => ("ky", "Kyrgyz"),
        52 => ("lo", "Lao"),
        53 => ("la", "Latin"),
        54 => ("lv", "Latvian"),
        55 => ("lt", "Lithuanian"),
        56 => ("lb", "Luxembourgish"),
        57 => ("mk", "Macedonian"),
        58 => ("mg", "Malagasy"),
        59 => ("ms", "Malay"),
        60 => ("ml", "Malayalam"),
        61 => ("mt", "Maltese"),
        62 => ("mi", "Maori"),
        63 => ("mr", "Marathi"),
        64 => ("mn", "Mongolian"),
        65 => ("my", "Myanmar (Burmese)"),
        66 => ("ne", "Nepali"),
        67 => ("no", "Norwegian"),
        68 => ("or", "Odia"),
        69 => ("ps", "Pashto"),
        70 => ("fa", "Persian"),
        71 => ("pl", "Polish"),
        72 => ("pt", "Portuguese"),
        73 => ("pa", "Punjabi"),
        74 => ("qu", "Quechua"),
        75 => ("ro", "Romanian"),
        76 => ("ru", "Russian"),
        77 => ("sm", "Samoan"),
        78 => ("gd", "Scots Gaelic"),
        79 => ("sr", "Serbian"),
        80 => ("st", "Sesotho"),
        81 => ("sn", "Shona"),
        82 => ("sd", "Sindhi"),
        83 => ("si", "Sinhala"),
        84 => ("sk", "Slovak"),
        85 => ("sl", "Slovenian"),
        86 => ("so", "Somali"),
        87 => ("es", "Spanish"),
        88 => ("su", "Sundanese"),
        89 => ("sw", "Swahili"),
        90 => ("sv", "Swedish"),
        91 => ("tg", "Tajik"),
        92 => ("ta", "Tamil"),
        93 => ("te", "Telugu"),
        94 => ("th", "Thai"),
        95 => ("tr", "Turkish"),
        96 => ("uk", "Ukrainian"),
        97 => ("ur", "Urdu"),
        98 => ("ug", "Uyghur"),
        99 => ("uz", "Uzbek"),
        100 => ("vi", "Vietnamese"),
        101 => ("cy", "Welsh"),
        102 => ("xh", "Xhosa"),
        103 => ("yi", "Yiddish"),
        104 => ("yo", "Yoruba"),
        _ => ("zu", "Zulu"),
    }
}

/// The configuration with every language that the speech service offers,
/// all of them enabled.
pub fn default_config() -> (config: LanguageConfig)
    ensures
        config@ == default_languages(),
        distinct_codes(config@),
{
    let mut config = LanguageConfig::empty();
    let mut i: usize = 0;
    assert(config@ =~= Seq::new(0, |k: int| default_language(k)));
    while i < LANGUAGE_COUNT
        invariant
            i <= LANGUAGE_COUNT,
            config@ == Seq::new(i as nat, |k: int| default_language(k)),
        decreases LANGUAGE_COUNT - i,
    {
        let (code, name) = default_entry(i);
        config.add(code, name);
        i += 1;
        assert(config@ =~= Seq::new(i as nat, |k: int| default_language(k)));
    }
    proof {
        lemma_default_codes_distinct();
    }
    config
}

} // verus!
