use vstd::prelude::*;

verus! {

/// The closed set of language identifiers the remote service accepts, plus
/// `auto`, which asks the service to detect the source language itself.
/// The identifier names use underscores where the wire form uses hyphens
/// (`zh_CN` is sent as `zh-CN`); `wire_form` performs that fixed mapping.
#[allow(non_camel_case_types)]
#[derive(Clone, Copy, Debug, PartialEq, Eq, Structural)]
pub enum LanguageCode {
    af,
    sq,
    am,
    ar,
    hy,
    az,
    eu,
    be,
    bn,
    bs,
    bg,
    ca,
    ceb,
    ny,
    zh_CN,
    zh_TW,
    co,
    hr,
    cs,
    da,
    nl,
    en,
    eo,
    et,
    tl,
    fi,
    fr,
    fy,
    gl,
    ka,
    de,
    el,
    gu,
    ht,
    ha,
    haw,
    iw,
    hi,
    hmn,
    hu,
    is,
    ig,
    id,
    ga,
    it,
    ja,
    jw,
    kn,
    kk,
    km,
    rw,
    ko,
    ku,
    ky,
    lo,
    la,
    lv,
    lt,
    lb,
    mk,
    mg,
    ms,
    ml,
    mt,
    mi,
    mr,
    mn,
    my,
    ne,
    no,
    or,
    ps,
    fa,
    pl,
    pt,
    pa,
    ro,
    ru,
    sm,
    gd,
    sr,
    st,
    sn,
    sd,
    si,
    sk,
    sl,
    so,
    es,
    su,
    sw,
    sv,
    tg,
    ta,
    tt,
    te,
    th,
    tr,
    tk,
    uk,
    ur,
    ug,
    uz,
    vi,
    cy,
    xh,
    yi,
    yo,
    zu,
    auto,
}

/// The canonical wire form of a language code: the identifier itself, with
/// every underscore replaced by a hyphen.
pub open spec fn wire_spec(code: LanguageCode) -> Seq<char> {
    match code {
        LanguageCode::af => "af"@,
        LanguageCode::sq => "sq"@,
        LanguageCode::am => "am"@,
        LanguageCode::ar => "ar"@,
        LanguageCode::hy => "hy"@,
        LanguageCode::az => "az"@,
        LanguageCode::eu => "eu"@,
        LanguageCode::be => "be"@,
        LanguageCode::bn => "bn"@,
        LanguageCode::bs => "bs"@,
        LanguageCode::bg => "bg"@,
        LanguageCode::ca => "ca"@,
        LanguageCode::ceb => "ceb"@,
        LanguageCode::ny => "ny"@,
        LanguageCode::zh_CN => "zh-CN"@,
        LanguageCode::zh_TW => "zh-TW"@,
        LanguageCode::co => "co"@,
        LanguageCode::hr => "hr"@,
        LanguageCode::cs => "cs"@,
        LanguageCode::da => "da"@,
        LanguageCode::nl => "nl"@,
        LanguageCode::en => "en"@,
        LanguageCode::eo => "eo"@,
        LanguageCode::et => "et"@,
        LanguageCode::tl => "tl"@,
        LanguageCode::fi => "fi"@,
        LanguageCode::fr => "fr"@,
        LanguageCode::fy => "fy"@,
        LanguageCode::gl => "gl"@,
        LanguageCode::ka => "ka"@,
        LanguageCode::de => "de"@,
        LanguageCode::el => "el"@,
        LanguageCode::gu => "gu"@,
        LanguageCode::ht => "ht"@,
        LanguageCode::ha => "ha"@,
        LanguageCode::haw => "haw"@,
        LanguageCode::iw => "iw"@,
        LanguageCode::hi => "hi"@,
        LanguageCode::hmn => "hmn"@,
        LanguageCode::hu => "hu"@,
        LanguageCode::is => "is"@,
        LanguageCode::ig => "ig"@,
        LanguageCode::id => "id"@,
        LanguageCode::ga => "ga"@,
        LanguageCode::it => "it"@,
        LanguageCode::ja => "ja"@,
        LanguageCode::jw => "jw"@,
        LanguageCode::kn => "kn"@,
        LanguageCode::kk => "kk"@,
        LanguageCode::km => "km"@,
        LanguageCode::rw => "rw"@,
        LanguageCode::ko => "ko"@,
        LanguageCode::ku => "ku"@,
        LanguageCode::ky => "ky"@,
        LanguageCode::lo => "lo"@,
        LanguageCode::la => "la"@,
        LanguageCode::lv => "lv"@,
        LanguageCode::lt => "lt"@,
        LanguageCode::lb => "lb"@,
        LanguageCode::mk => "mk"@,
        LanguageCode::mg => "mg"@,
        LanguageCode::ms => "ms"@,
        LanguageCode::ml => "ml"@,
        LanguageCode::mt => "mt"@,
        LanguageCode::mi => "mi"@,
        LanguageCode::mr => "mr"@,
        LanguageCode::mn => "mn"@,
        LanguageCode::my => "my"@,
        LanguageCode::ne => "ne"@,
        LanguageCode::no => "no"@,
        LanguageCode::or => "or"@,
        LanguageCode::ps => "ps"@,
        LanguageCode::fa => "fa"@,
        LanguageCode::pl => "pl"@,
        LanguageCode::pt => "pt"@,
        LanguageCode::pa => "pa"@,
        LanguageCode::ro => "ro"@,
        LanguageCode::ru => "ru"@,
        LanguageCode::sm => "sm"@,
        LanguageCode::gd => "gd"@,
        LanguageCode::sr => "sr"@,
        LanguageCode::st => "st"@,
        LanguageCode::sn => "sn"@,
        LanguageCode::sd => "sd"@,
        LanguageCode::si => "si"@,
        LanguageCode::sk => "sk"@,
        LanguageCode::sl => "sl"@,
        LanguageCode::so => "so"@,
        LanguageCode::es => "es"@,
        LanguageCode::su => "su"@,
        LanguageCode::sw => "sw"@,
        LanguageCode::sv => "sv"@,
        LanguageCode::tg => "tg"@,
        LanguageCode::ta => "ta"@,
        LanguageCode::tt => "tt"@,
        LanguageCode::te => "te"@,
        LanguageCode::th => "th"@,
        LanguageCode::tr => "tr"@,
        LanguageCode::tk => "tk"@,
        LanguageCode::uk => "uk"@,
        LanguageCode::ur => "ur"@,
        LanguageCode::ug => "ug"@,
        LanguageCode::uz => "uz"@,
        LanguageCode::vi => "vi"@,
        LanguageCode::cy => "cy"@,
        LanguageCode::xh => "xh"@,
        LanguageCode::yi => "yi"@,
        LanguageCode::yo => "yo"@,
        LanguageCode::zu => "zu"@,
        LanguageCode::auto => "auto"@,
    }
}

/// A wire form is well formed when it is non-empty and free of underscores.
pub open spec fn wire_ok(s: Seq<char>) -> bool {
    &&& s.len() > 0
    &&& forall|i: int| 0 <= i < s.len() ==> s[i] != '_'
}

impl LanguageCode {
    /// The exact string sent to the remote service for this language code.
    pub fn wire_form(&self) -> (r: &'static str)
        ensures
            r@ == wire_spec(*self),
    {
        match self {
            LanguageCode::af => "af",
            LanguageCode::sq => "sq",
            LanguageCode::am => "am",
            LanguageCode::ar => "ar",
            LanguageCode::hy => "hy",
            LanguageCode::az => "az",
            LanguageCode::eu => "eu",
            LanguageCode::be => "be",
            LanguageCode::bn => "bn",
            LanguageCode::bs => "bs",
            LanguageCode::bg => "bg",
            LanguageCode::ca => "ca",
            LanguageCode::ceb => "ceb",
            LanguageCode::ny => "ny",
            LanguageCode::zh_CN => "zh-CN",
            LanguageCode::zh_TW => "zh-TW",
            LanguageCode::co => "co",
            LanguageCode::hr => "hr",
            LanguageCode::cs => "cs",
            LanguageCode::da => "da",
            LanguageCode::nl => "nl",
            LanguageCode::en => "en",
            LanguageCode::eo => "eo",
            LanguageCode::et => "et",
            LanguageCode::tl => "tl",
            LanguageCode::fi => "fi",
            LanguageCode::fr => "fr",
            LanguageCode::fy => "fy",
            LanguageCode::gl => "gl",
            LanguageCode::ka => "ka",
            LanguageCode::de => "de",
            LanguageCode::el => "el",
            LanguageCode::gu => "gu",
            LanguageCode::ht => "ht",
            LanguageCode::ha => "ha",
            LanguageCode::haw => "haw",
            LanguageCode::iw => "iw",
            LanguageCode::hi => "hi",
            LanguageCode::hmn => "hmn",
            LanguageCode::hu => "hu",
            LanguageCode::is => "is",
            LanguageCode::ig => "ig",
            LanguageCode::id => "id",
            LanguageCode::ga => "ga",
            LanguageCode::it => "it",
            LanguageCode::ja => "ja",
            LanguageCode::jw => "jw",
            LanguageCode::kn => "kn",
            LanguageCode::kk => "kk",
            LanguageCode::km => "km",
            LanguageCode::rw => "rw",
            LanguageCode::ko => "ko",
            LanguageCode::ku => "ku",
            LanguageCode::ky => "ky",
            LanguageCode::lo => "lo",
            LanguageCode::la => "la",
            LanguageCode::lv => "lv",
            LanguageCode::lt => "lt",
            LanguageCode::lb => "lb",
            LanguageCode::mk => "mk",
            LanguageCode::mg => "mg",
            LanguageCode::ms => "ms",
            LanguageCode::ml => "ml",
            LanguageCode::mt => "mt",
            LanguageCode::mi => "mi",
            LanguageCode::mr => "mr",
            LanguageCode::mn => "mn",
            LanguageCode::my => "my",
            LanguageCode::ne => "ne",
            LanguageCode::no => "no",
            LanguageCode::or => "or",
            LanguageCode::ps => "ps",
            LanguageCode::fa => "fa",
            LanguageCode::pl => "pl",
            LanguageCode::pt => "pt",
            LanguageCode::pa => "pa",
            LanguageCode::ro => "ro",
            LanguageCode::ru => "ru",
            LanguageCode::sm => "sm",
            LanguageCode::gd => "gd",
            LanguageCode::sr => "sr",
            LanguageCode::st => "st",
            LanguageCode::sn => "sn",
            LanguageCode::sd => "sd",
            LanguageCode::si => "si",
            LanguageCode::sk => "sk",
            LanguageCode::sl => "sl",
            LanguageCode::so => "so",
            LanguageCode::es => "es",
            LanguageCode::su => "su",
            LanguageCode::sw => "sw",
            LanguageCode::sv => "sv",
            LanguageCode::tg => "tg",
            LanguageCode::ta => "ta",
            LanguageCode::tt => "tt",
            LanguageCode::te => "te",
            LanguageCode::th => "th",
            LanguageCode::tr => "tr",
            LanguageCode::tk => "tk",
            LanguageCode::uk => "uk",
            LanguageCode::ur => "ur",
            LanguageCode::ug => "ug",
            LanguageCode::uz => "uz",
            LanguageCode::vi => "vi",
            LanguageCode::cy => "cy",
            LanguageCode::xh => "xh",
            LanguageCode::yi => "yi",
            LanguageCode::yo => "yo",
            LanguageCode::zu => "zu",
            LanguageCode::auto => "auto",
        }
    }
}

proof fn lemma_wire_ok_upto5(s: Seq<char>)
    requires
        1 <= s.len() <= 5,
        s[0] != '_',
        s.len() > 1 ==> s[1] != '_',
        s.len() > 2 ==> s[2] != '_',
        s.len() > 3 ==> s[3] != '_',
        s.len() > 4 ==> s[4] != '_',
    ensures
        wire_ok(s),
{
}

/// Every language code has a non-empty wire form that contains no
/// underscore character.
pub proof fn lemma_wire_form_valid(code: LanguageCode)
    ensures
        wire_ok(wire_spec(code)),
{
    match code {
        LanguageCode::af => {
            reveal_strlit("af");
            lemma_wire_ok_upto5(wire_spec(code));
        },
        LanguageCode::sq => {
            reveal_strlit("sq");
            lemma_wire_ok_upto5(wire_spec(code));
        },
        LanguageCode::am => {
            reveal_strlit("am");
            lemma_wire_ok_upto5(wire_spec(code));
        },
        LanguageCode::ar => {
            reveal_strlit("ar");
            lemma_wire_ok_upto5(wire_spec(code));
        },
        LanguageCode::hy => {
            reveal_strlit("hy");
            lemma_wire_ok_upto5(wire_spec(code));
        },
        LanguageCode::az => {
            reveal_strlit("az");
            lemma_wire_ok_upto5(wire_spec(code));
        },
        LanguageCode::eu => {
            reveal_strlit("eu");
            lemma_wire_ok_upto5(wire_spec(code));
        },
        LanguageCode::be => {
            reveal_strlit("be");
            lemma_wire_ok_upto5(wire_spec(code));
        },
        LanguageCode::bn => {
            reveal_strlit("bn");
            lemma_wire_ok_upto5(wire_spec(code));
        },
        LanguageCode::bs => {
            reveal_strlit("bs");
            lemma_wire_ok_upto5(wire_spec(code));
        },
        LanguageCode::bg => {
            reveal_strlit("bg");
            lemma_wire_ok_upto5(wire_spec(code));
        },
        LanguageCode::ca => {
            reveal_strlit("ca");
            lemma_wire_ok_upto5(wire_spec(code));
        },
        LanguageCode::ceb => {
            reveal_strlit("ceb");
            lemma_wire_ok_upto5(wire_spec(code));
        },
        LanguageCode::ny => {
            reveal_strlit("ny");
            lemma_wire_ok_upto5(wire_spec(code));
        },
        LanguageCode::zh_CN => {
            reveal_strlit("zh-CN");
            lemma_wire_ok_upto5(wire_spec(code));
        },
        LanguageCode::zh_TW => {
            reveal_strlit("zh-TW");
            lemma_wire_ok_upto5(wire_spec(code));
        },
        LanguageCode::co => {
            reveal_strlit("co");
            lemma_wire_ok_upto5(wire_spec(code));
        },
        LanguageCode::hr => {
            reveal_strlit("hr");
            lemma_wire_ok_upto5(wire_spec(code));
        },
        LanguageCode::cs => {
            reveal_strlit("cs");
            lemma_wire_ok_upto5(wire_spec(code));
        },
        LanguageCode::da => {
            reveal_strlit("da");
            lemma_wire_ok_upto5(wire_spec(code));
        },
        LanguageCode::nl => {
            reveal_strlit("nl");
            lemma_wire_ok_upto5(wire_spec(code));
        },
        LanguageCode::en => {
            reveal_strlit("en");
            lemma_wire_ok_upto5(wire_spec(code));
        },
        LanguageCode::eo => {
            reveal_strlit("eo");
            lemma_wire_ok_upto5(wire_spec(code));
        },
        LanguageCode::et => {
            reveal_strlit("et");
            lemma_wire_ok_upto5(wire_spec(code));
        },
        LanguageCode::tl => {
            reveal_strlit("tl");
            lemma_wire_ok_upto5(wire_spec(code));
        },
        LanguageCode::fi => {
            reveal_strlit("fi");
            lemma_wire_ok_upto5(wire_spec(code));
        },
        LanguageCode::fr => {
            reveal_strlit("fr");
            lemma_wire_ok_upto5(wire_spec(code));
        },
        LanguageCode::fy => {
            reveal_strlit("fy");
            lemma_wire_ok_upto5(wire_spec(code));
        },
        LanguageCode::gl => {
            reveal_strlit("gl");
            lemma_wire_ok_upto5(wire_spec(code));
        },
        LanguageCode::ka => {
            reveal_strlit("ka");
            lemma_wire_ok_upto5(wire_spec(code));
        },
        LanguageCode::de => {
            reveal_strlit("de");
            lemma_wire_ok_upto5(wire_spec(code));
        },
        LanguageCode::el => {
            reveal_strlit("el");
            lemma_wire_ok_upto5(wire_spec(code));
        },
        LanguageCode::gu => {
            reveal_strlit("gu");
            lemma_wire_ok_upto5(wire_spec(code));
        },
        LanguageCode::ht => {
            reveal_strlit("ht");
            lemma_wire_ok_upto5(wire_spec(code));
        },
        LanguageCode::ha => {
            reveal_strlit("ha");
            lemma_wire_ok_upto5(wire_spec(code));
        },
        LanguageCode::haw => {
            reveal_strlit("haw");
            lemma_wire_ok_upto5(wire_spec(code));
        },
        LanguageCode::iw => {
            reveal_strlit("iw");
            lemma_wire_ok_upto5(wire_spec(code));
        },
        LanguageCode::hi => {
            reveal_strlit("hi");
            lemma_wire_ok_upto5(wire_spec(code));
        },
        LanguageCode::hmn => {
            reveal_strlit("hmn");
            lemma_wire_ok_upto5(wire_spec(code));
        },
        LanguageCode::hu => {
            reveal_strlit("hu");
            lemma_wire_ok_upto5(wire_spec(code));
        },
        LanguageCode::is => {
            reveal_strlit("is");
            lemma_wire_ok_upto5(wire_spec(code));
        },
        LanguageCode::ig => {
            reveal_strlit("ig");
            lemma_wire_ok_upto5(wire_spec(code));
        },
        LanguageCode::id => {
            reveal_strlit("id");
            lemma_wire_ok_upto5(wire_spec(code));
        },
        LanguageCode::ga => {
            reveal_strlit("ga");
            lemma_wire_ok_upto5(wire_spec(code));
        },
        LanguageCode::it => {
            reveal_strlit("it");
            lemma_wire_ok_upto5(wire_spec(code));
        },
        LanguageCode::ja => {
            reveal_strlit("ja");
            lemma_wire_ok_upto5(wire_spec(code));
        },
        LanguageCode::jw => {
            reveal_strlit("jw");
            lemma_wire_ok_upto5(wire_spec(code));
        },
        LanguageCode::kn => {
            reveal_strlit("kn");
            lemma_wire_ok_upto5(wire_spec(code));
        },
        LanguageCode::kk => {
            reveal_strlit("kk");
            lemma_wire_ok_upto5(wire_spec(code));
        },
        LanguageCode::km => {
            reveal_strlit("km");
            lemma_wire_ok_upto5(wire_spec(code));
        },
        LanguageCode::rw => {
            reveal_strlit("rw");
            lemma_wire_ok_upto5(wire_spec(code));
        },
        LanguageCode::ko => {
            reveal_strlit("ko");
            lemma_wire_ok_upto5(wire_spec(code));
        },
        LanguageCode::ku => {
            reveal_strlit("ku");
            lemma_wire_ok_upto5(wire_spec(code));
        },
        LanguageCode::ky => {
            reveal_strlit("ky");
            lemma_wire_ok_upto5(wire_spec(code));
        },
        LanguageCode::lo => {
            reveal_strlit("lo");
            lemma_wire_ok_upto5(wire_spec(code));
        },
        LanguageCode::la => {
            reveal_strlit("la");
            lemma_wire_ok_upto5(wire_spec(code));
        },
        LanguageCode::lv => {
            reveal_strlit("lv");
            lemma_wire_ok_upto5(wire_spec(code));
        },
        LanguageCode::lt => {
            reveal_strlit("lt");
            lemma_wire_ok_upto5(wire_spec(code));
        },
        LanguageCode::lb => {
            reveal_strlit("lb");
            lemma_wire_ok_upto5(wire_spec(code));
        },
        LanguageCode::mk => {
            reveal_strlit("mk");
            lemma_wire_ok_upto5(wire_spec(code));
        },
        LanguageCode::mg => {
            reveal_strlit("mg");
            lemma_wire_ok_upto5(wire_spec(code));
        },
        LanguageCode::ms => {
            reveal_strlit("ms");
            lemma_wire_ok_upto5(wire_spec(code));
        },
        LanguageCode::ml => {
            reveal_strlit("ml");
            lemma_wire_ok_upto5(wire_spec(code));
        },
        LanguageCode::mt => {
            reveal_strlit("mt");
            lemma_wire_ok_upto5(wire_spec(code));
        },
        LanguageCode::mi => {
            reveal_strlit("mi");
            lemma_wire_ok_upto5(wire_spec(code));
        },
        LanguageCode::mr => {
            reveal_strlit("mr");
            lemma_wire_ok_upto5(wire_spec(code));
        },
        LanguageCode::mn => {
            reveal_strlit("mn");
            lemma_wire_ok_upto5(wire_spec(code));
        },
        LanguageCode::my => {
            reveal_strlit("my");
            lemma_wire_ok_upto5(wire_spec(code));
        },
        LanguageCode::ne => {
            reveal_strlit("ne");
            lemma_wire_ok_upto5(wire_spec(code));
        },
        LanguageCode::no => {
            reveal_strlit("no");
            lemma_wire_ok_upto5(wire_spec(code));
        },
        LanguageCode::or => {
            reveal_strlit("or");
            lemma_wire_ok_upto5(wire_spec(code));
        },
        LanguageCode::ps => {
            reveal_strlit("ps");
            lemma_wire_ok_upto5(wire_spec(code));
        },
        LanguageCode::fa => {
            reveal_strlit("fa");
            lemma_wire_ok_upto5(wire_spec(code));
        },
        LanguageCode::pl => {
            reveal_strlit("pl");
            lemma_wire_ok_upto5(wire_spec(code));
        },
        LanguageCode::pt => {
            reveal_strlit("pt");
            lemma_wire_ok_upto5(wire_spec(code));
        },
        LanguageCode::pa => {
            reveal_strlit("pa");
            lemma_wire_ok_upto5(wire_spec(code));
        },
        LanguageCode::ro => {
            reveal_strlit("ro");
            lemma_wire_ok_upto5(wire_spec(code));
        },
        LanguageCode::ru => {
            reveal_strlit("ru");
            lemma_wire_ok_upto5(wire_spec(code));
        },
        LanguageCode::sm => {
            reveal_strlit("sm");
            lemma_wire_ok_upto5(wire_spec(code));
        },
        LanguageCode::gd => {
            reveal_strlit("gd");
            lemma_wire_ok_upto5(wire_spec(code));
        },
        LanguageCode::sr => {
            reveal_strlit("sr");
            lemma_wire_ok_upto5(wire_spec(code));
        },
        LanguageCode::st => {
            reveal_strlit("st");
            lemma_wire_ok_upto5(wire_spec(code));
        },
        LanguageCode::sn => {
            reveal_strlit("sn");
            lemma_wire_ok_upto5(wire_spec(code));
        },
        LanguageCode::sd => {
            reveal_strlit("sd");
            lemma_wire_ok_upto5(wire_spec(code));
        },
        LanguageCode::si => {
            reveal_strlit("si");
            lemma_wire_ok_upto5(wire_spec(code));
        },
        LanguageCode::sk => {
            reveal_strlit("sk");
            lemma_wire_ok_upto5(wire_spec(code));
        },
        LanguageCode::sl => {
            reveal_strlit("sl");
            lemma_wire_ok_upto5(wire_spec(code));
        },
        LanguageCode::so => {
            reveal_strlit("so");
            lemma_wire_ok_upto5(wire_spec(code));
        },
        LanguageCode::es => {
            reveal_strlit("es");
            lemma_wire_ok_upto5(wire_spec(code));
        },
        LanguageCode::su => {
            reveal_strlit("su");
            lemma_wire_ok_upto5(wire_spec(code));
        },
        LanguageCode::sw => {
            reveal_strlit("sw");
            lemma_wire_ok_upto5(wire_spec(code));
        },
        LanguageCode::sv => {
            reveal_strlit("sv");
            lemma_wire_ok_upto5(wire_spec(code));
        },
        LanguageCode::tg => {
            reveal_strlit("tg");
            lemma_wire_ok_upto5(wire_spec(code));
        },
        LanguageCode::ta => {
            reveal_strlit("ta");
            lemma_wire_ok_upto5(wire_spec(code));
        },
        LanguageCode::tt => {
            reveal_strlit("tt");
            lemma_wire_ok_upto5(wire_spec(code));
        },
        LanguageCode::te => {
            reveal_strlit("te");
            lemma_wire_ok_upto5(wire_spec(code));
        },
        LanguageCode::th => {
            reveal_strlit("th");
            lemma_wire_ok_upto5(wire_spec(code));
        },
        LanguageCode::tr => {
            reveal_strlit("tr");
            lemma_wire_ok_upto5(wire_spec(code));
        },
        LanguageCode::tk => {
            reveal_strlit("tk");
            lemma_wire_ok_upto5(wire_spec(code));
        },
        LanguageCode::uk => {
            reveal_strlit("uk");
            lemma_wire_ok_upto5(wire_spec(code));
        },
        LanguageCode::ur => {
            reveal_strlit("ur");
            lemma_wire_ok_upto5(wire_spec(code));
        },
        LanguageCode::ug => {
            reveal_strlit("ug");
            lemma_wire_ok_upto5(wire_spec(code));
        },
        LanguageCode::uz => {
            reveal_strlit("uz");
            lemma_wire_ok_upto5(wire_spec(code));
        },
        LanguageCode::vi => {
            reveal_strlit("vi");
            lemma_wire_ok_upto5(wire_spec(code));
        },
        LanguageCode::cy => {
            reveal_strlit("cy");
            lemma_wire_ok_upto5(wire_spec(code));
        },
        LanguageCode::xh => {
            reveal_strlit("xh");
            lemma_wire_ok_upto5(wire_spec(code));
        },
        LanguageCode::yi => {
            reveal_strlit("yi");
            lemma_wire_ok_upto5(wire_spec(code));
        },
        LanguageCode::yo => {
            reveal_strlit("yo");
            lemma_wire_ok_upto5(wire_spec(code));
        },
        LanguageCode::zu => {
            reveal_strlit("zu");
            lemma_wire_ok_upto5(wire_spec(code));
        },
        LanguageCode::auto => {
            reveal_strlit("auto");
            lemma_wire_ok_upto5(wire_spec(code));
        },
    }
}

} // verus!
