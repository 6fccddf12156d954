//! The fixed set of supported Wikipedia language-edition codes.
//!
//! A topic lookup names an edition by its code; a code outside this set is
//! rejected before any network request is made. The set is split into parts
//! only to keep each function small.

use vstd::prelude::*;

verus! {

pub open spec fn lang_group_a(s: Seq<char>) -> bool {
    ||| s == "en"@
    ||| s == "fr"@
    ||| s == "de"@
    ||| s == "es"@
    ||| s == "ja"@
    ||| s == "ru"@
    ||| s == "pt"@
    ||| s == "it"@
    ||| s == "zh"@
    ||| s == "fa"@
    ||| s == "pl"@
    ||| s == "ar"@
    ||| s == "nl"@
    ||| s == "uk"@
    ||| s == "he"@
    ||| s == "id"@
    ||| s == "no"@
    ||| s == "tr"@
    ||| s == "ro"@
    ||| s == "sr"@
    ||| s == "cs"@
    ||| s == "sv"@
    ||| s == "ko"@
    ||| s == "da"@
    ||| s == "simple"@
    ||| s == "fi"@
    ||| s == "hu"@
    ||| s == "vi"@
    ||| s == "ca"@
    ||| s == "bn"@
    ||| s == "th"@
    ||| s == "zh-yue"@
    ||| s == "el"@
    ||| s == "et"@
    ||| s == "sw"@
    ||| s == "bg"@
    ||| s == "hi"@
    ||| s == "ms"@
    ||| s == "eu"@
    ||| s == "az"@
    ||| s == "hy"@
    ||| s == "sh"@
    ||| s == "sk"@
}

fn in_lang_group_a(s: &str) -> (r: bool)
    ensures
        r == lang_group_a(s@),
{
    crate::text::str_eq(s, "en")
    || crate::text::str_eq(s, "fr")
    || crate::text::str_eq(s, "de")
    || crate::text::str_eq(s, "es")
    || crate::text::str_eq(s, "ja")
    || crate::text::str_eq(s, "ru")
    || crate::text::str_eq(s, "pt")
    || crate::text::str_eq(s, "it")
    || crate::text::str_eq(s, "zh")
    || crate::text::str_eq(s, "fa")
    || crate::text::str_eq(s, "pl")
    || crate::text::str_eq(s, "ar")
    || crate::text::str_eq(s, "nl")
    || crate::text::str_eq(s, "uk")
    || crate::text::str_eq(s, "he")
    || crate::text::str_eq(s, "id")
    || crate::text::str_eq(s, "no")
    || crate::text::str_eq(s, "tr")
    || crate::text::str_eq(s, "ro")
    || crate::text::str_eq(s, "sr")
    || crate::text::str_eq(s, "cs")
    || crate::text::str_eq(s, "sv")
    || crate::text::str_eq(s, "ko")
    || crate::text::str_eq(s, "da")
    || crate::text::str_eq(s, "simple")
    || crate::text::str_eq(s, "fi")
    || crate::text::str_eq(s, "hu")
    || crate::text::str_eq(s, "vi")
    || crate::text::str_eq(s, "ca")
    || crate::text::str_eq(s, "bn")
    || crate::text::str_eq(s, "th")
    || crate::text::str_eq(s, "zh-yue")
    || crate::text::str_eq(s, "el")
    || crate::text::str_eq(s, "et")
    || crate::text::str_eq(s, "sw")
    || crate::text::str_eq(s, "bg")
    || crate::text::str_eq(s, "hi")
    || crate::text::str_eq(s, "ms")
    || crate::text::str_eq(s, "eu")
    || crate::text::str_eq(s, "az")
    || crate::text::str_eq(s, "hy")
    || crate::text::str_eq(s, "sh")
    || crate::text::str_eq(s, "sk")
}

pub open spec fn lang_group_b(s: Seq<char>) -> bool {
    ||| s == "hr"@
    ||| s == "uz"@
    ||| s == "lt"@
    ||| s == "eo"@
    ||| s == "sl"@
    ||| s == "ka"@
    ||| s == "lv"@
    ||| s == "be"@
    ||| s == "gl"@
    ||| s == "kk"@
    ||| s == "ta"@
    ||| s == "sq"@
    ||| s == "ur"@
    ||| s == "mk"@
    ||| s == "ml"@
    ||| s == "ceb"@
    ||| s == "arz"@
    ||| s == "af"@
    ||| s == "la"@
    ||| s == "bs"@
    ||| s == "te"@
    ||| s == "tl"@
    ||| s == "is"@
    ||| s == "nn"@
    ||| s == "my"@
    ||| s == "ha"@
    ||| s == "mn"@
    ||| s == "ckb"@
    ||| s == "as"@
    ||| s == "mr"@
    ||| s == "bcl"@
    ||| s == "ig"@
    ||| s == "pa"@
    ||| s == "oc"@
    ||| s == "ast"@
    ||| s == "jv"@
    ||| s == "cy"@
    ||| s == "be-tarask"@
    ||| s == "kn"@
    ||| s == "azb"@
    ||| s == "tt"@
    ||| s == "ky"@
    ||| s == "ne"@
}

fn in_lang_group_b(s: &str) -> (r: bool)
    ensures
        r == lang_group_b(s@),
{
    crate::text::str_eq(s, "hr")
    || crate::text::str_eq(s, "uz")
    || crate::text::str_eq(s, "lt")
    || crate::text::str_eq(s, "eo")
    || crate::text::str_eq(s, "sl")
    || crate::text::str_eq(s, "ka")
    || crate::text::str_eq(s, "lv")
    || crate::text::str_eq(s, "be")
    || crate::text::str_eq(s, "gl")
    || crate::text::str_eq(s, "kk")
    || crate::text::str_eq(s, "ta")
    || crate::text::str_eq(s, "sq")
    || crate::text::str_eq(s, "ur")
    || crate::text::str_eq(s, "mk")
    || crate::text::str_eq(s, "ml")
    || crate::text::str_eq(s, "ceb")
    || crate::text::str_eq(s, "arz")
    || crate::text::str_eq(s, "af")
    || crate::text::str_eq(s, "la")
    || crate::text::str_eq(s, "bs")
    || crate::text::str_eq(s, "te")
    || crate::text::str_eq(s, "tl")
    || crate::text::str_eq(s, "is")
    || crate::text::str_eq(s, "nn")
    || crate::text::str_eq(s, "my")
    || crate::text::str_eq(s, "ha")
    || crate::text::str_eq(s, "mn")
    || crate::text::str_eq(s, "ckb")
    || crate::text::str_eq(s, "as")
    || crate::text::str_eq(s, "mr")
    || crate::text::str_eq(s, "bcl")
    || crate::text::str_eq(s, "ig")
    || crate::text::str_eq(s, "pa")
    || crate::text::str_eq(s, "oc")
    || crate::text::str_eq(s, "ast")
    || crate::text::str_eq(s, "jv")
    || crate::text::str_eq(s, "cy")
    || crate::text::str_eq(s, "be-tarask")
    || crate::text::str_eq(s, "kn")
    || crate::text::str_eq(s, "azb")
    || crate::text::str_eq(s, "tt")
    || crate::text::str_eq(s, "ky")
    || crate::text::str_eq(s, "ne")
}

pub open spec fn lang_group_c(s: Seq<char>) -> bool {
    ||| s == "si"@
    ||| s == "ga"@
    ||| s == "als"@
    ||| s == "zh-min-nan"@
    ||| s == "tg"@
    ||| s == "br"@
    ||| s == "an"@
    ||| s == "sco"@
    ||| s == "lb"@
    ||| s == "ku"@
    ||| s == "ba"@
    ||| s == "war"@
    ||| s == "fy"@
    ||| s == "so"@
    ||| s == "ban"@
    ||| s == "hif"@
    ||| s == "gu"@
    ||| s == "wuu"@
    ||| s == "dtp"@
    ||| s == "km"@
    ||| s == "pnb"@
    ||| s == "yo"@
    ||| s == "io"@
    ||| s == "lmo"@
    ||| s == "mt"@
    ||| s == "bar"@
    ||| s == "ps"@
    ||| s == "am"@
    ||| s == "min"@
    ||| s == "ary"@
    ||| s == "cv"@
    ||| s == "su"@
    ||| s == "ce"@
    ||| s == "ht"@
    ||| s == "rw"@
    ||| s == "nds"@
    ||| s == "sa"@
    ||| s == "or"@
    ||| s == "bew"@
    ||| s == "vec"@
    ||| s == "ia"@
    ||| s == "kaa"@
    ||| s == "ang"@
}

fn in_lang_group_c(s: &str) -> (r: bool)
    ensures
        r == lang_group_c(s@),
{
    crate::text::str_eq(s, "si")
    || crate::text::str_eq(s, "ga")
    || crate::text::str_eq(s, "als")
    || crate::text::str_eq(s, "zh-min-nan")
    || crate::text::str_eq(s, "tg")
    || crate::text::str_eq(s, "br")
    || crate::text::str_eq(s, "an")
    || crate::text::str_eq(s, "sco")
    || crate::text::str_eq(s, "lb")
    || crate::text::str_eq(s, "ku")
    || crate::text::str_eq(s, "ba")
    || crate::text::str_eq(s, "war")
    || crate::text::str_eq(s, "fy")
    || crate::text::str_eq(s, "so")
    || crate::text::str_eq(s, "ban")
    || crate::text::str_eq(s, "hif")
    || crate::text::str_eq(s, "gu")
    || crate::text::str_eq(s, "wuu")
    || crate::text::str_eq(s, "dtp")
    || crate::text::str_eq(s, "km")
    || crate::text::str_eq(s, "pnb")
    || crate::text::str_eq(s, "yo")
    || crate::text::str_eq(s, "io")
    || crate::text::str_eq(s, "lmo")
    || crate::text::str_eq(s, "mt")
    || crate::text::str_eq(s, "bar")
    || crate::text::str_eq(s, "ps")
    || crate::text::str_eq(s, "am")
    || crate::text::str_eq(s, "min")
    || crate::text::str_eq(s, "ary")
    || crate::text::str_eq(s, "cv")
    || crate::text::str_eq(s, "su")
    || crate::text::str_eq(s, "ce")
    || crate::text::str_eq(s, "ht")
    || crate::text::str_eq(s, "rw")
    || crate::text::str_eq(s, "nds")
    || crate::text::str_eq(s, "sa")
    || crate::text::str_eq(s, "or")
    || crate::text::str_eq(s, "bew")
    || crate::text::str_eq(s, "vec")
    || crate::text::str_eq(s, "ia")
    || crate::text::str_eq(s, "kaa")
    || crate::text::str_eq(s, "ang")
}

pub open spec fn lang_group_d(s: Seq<char>) -> bool {
    ||| s == "ff"@
    ||| s == "mg"@
    ||| s == "qu"@
    ||| s == "zh-classical"@
    ||| s == "fo"@
    ||| s == "zgh"@
    ||| s == "szl"@
    ||| s == "zu"@
    ||| s == "dag"@
    ||| s == "hyw"@
    ||| s == "yi"@
    ||| s == "ace"@
    ||| s == "sd"@
    ||| s == "bjn"@
    ||| s == "mad"@
    ||| s == "rue"@
    ||| s == "mai"@
    ||| s == "li"@
    ||| s == "xmf"@
    ||| s == "ts"@
    ||| s == "diq"@
    ||| s == "lld"@
    ||| s == "fur"@
    ||| s == "gd"@
    ||| s == "co"@
    ||| s == "nso"@
    ||| s == "fiu-vro"@
    ||| s == "sah"@
    ||| s == "sc"@
    ||| s == "scn"@
    ||| s == "bh"@
    ||| s == "anp"@
    ||| s == "pam"@
    ||| s == "lo"@
    ||| s == "tk"@
    ||| s == "crh"@
    ||| s == "guc"@
    ||| s == "ie"@
    ||| s == "nap"@
    ||| s == "pdc"@
    ||| s == "gor"@
    ||| s == "ve"@
    ||| s == "mzn"@
}

fn in_lang_group_d(s: &str) -> (r: bool)
    ensures
        r == lang_group_d(s@),
{
    crate::text::str_eq(s, "ff")
    || crate::text::str_eq(s, "mg")
    || crate::text::str_eq(s, "qu")
    || crate::text::str_eq(s, "zh-classical")
    || crate::text::str_eq(s, "fo")
    || crate::text::str_eq(s, "zgh")
    || crate::text::str_eq(s, "szl")
    || crate::text::str_eq(s, "zu")
    || crate::text::str_eq(s, "dag")
    || crate::text::str_eq(s, "hyw")
    || crate::text::str_eq(s, "yi")
    || crate::text::str_eq(s, "ace")
    || crate::text::str_eq(s, "sd")
    || crate::text::str_eq(s, "bjn")
    || crate::text::str_eq(s, "mad")
    || crate::text::str_eq(s, "rue")
    || crate::text::str_eq(s, "mai")
    || crate::text::str_eq(s, "li")
    || crate::text::str_eq(s, "xmf")
    || crate::text::str_eq(s, "ts")
    || crate::text::str_eq(s, "diq")
    || crate::text::str_eq(s, "lld")
    || crate::text::str_eq(s, "fur")
    || crate::text::str_eq(s, "gd")
    || crate::text::str_eq(s, "co")
    || crate::text::str_eq(s, "nso")
    || crate::text::str_eq(s, "fiu-vro")
    || crate::text::str_eq(s, "sah")
    || crate::text::str_eq(s, "sc")
    || crate::text::str_eq(s, "scn")
    || crate::text::str_eq(s, "bh")
    || crate::text::str_eq(s, "anp")
    || crate::text::str_eq(s, "pam")
    || crate::text::str_eq(s, "lo")
    || crate::text::str_eq(s, "tk")
    || crate::text::str_eq(s, "crh")
    || crate::text::str_eq(s, "guc")
    || crate::text::str_eq(s, "ie")
    || crate::text::str_eq(s, "nap")
    || crate::text::str_eq(s, "pdc")
    || crate::text::str_eq(s, "gor")
    || crate::text::str_eq(s, "ve")
    || crate::text::str_eq(s, "mzn")
}

pub open spec fn lang_group_e(s: Seq<char>) -> bool {
    ||| s == "bo"@
    ||| s == "wa"@
    ||| s == "lad"@
    ||| s == "lij"@
    ||| s == "pms"@
    ||| s == "hsb"@
    ||| s == "ks"@
    ||| s == "ab"@
    ||| s == "hak"@
    ||| s == "ilo"@
    ||| s == "pcd"@
    ||| s == "vo"@
    ||| s == "av"@
    ||| s == "kab"@
    ||| s == "sat"@
    ||| s == "roa-rup"@
    ||| s == "dsb"@
    ||| s == "gv"@
    ||| s == "ss"@
    ||| s == "pap"@
    ||| s == "tcy"@
    ||| s == "wo"@
    ||| s == "ay"@
    ||| s == "chr"@
    ||| s == "igl"@
    ||| s == "csb"@
    ||| s == "lg"@
    ||| s == "frr"@
    ||| s == "syl"@
    ||| s == "xh"@
    ||| s == "gn"@
    ||| s == "frp"@
    ||| s == "kl"@
    ||| s == "guw"@
    ||| s == "pcm"@
    ||| s == "tn"@
    ||| s == "vls"@
    ||| s == "dz"@
    ||| s == "eml"@
    ||| s == "gag"@
    ||| s == "dv"@
    ||| s == "mi"@
    ||| s == "rm"@
}

fn in_lang_group_e(s: &str) -> (r: bool)
    ensures
        r == lang_group_e(s@),
{
    crate::text::str_eq(s, "bo")
    || crate::text::str_eq(s, "wa")
    || crate::text::str_eq(s, "lad")
    || crate::text::str_eq(s, "lij")
    || crate::text::str_eq(s, "pms")
    || crate::text::str_eq(s, "hsb")
    || crate::text::str_eq(s, "ks")
    || crate::text::str_eq(s, "ab")
    || crate::text::str_eq(s, "hak")
    || crate::text::str_eq(s, "ilo")
    || crate::text::str_eq(s, "pcd")
    || crate::text::str_eq(s, "vo")
    || crate::text::str_eq(s, "av")
    || crate::text::str_eq(s, "kab")
    || crate::text::str_eq(s, "sat")
    || crate::text::str_eq(s, "roa-rup")
    || crate::text::str_eq(s, "dsb")
    || crate::text::str_eq(s, "gv")
    || crate::text::str_eq(s, "ss")
    || crate::text::str_eq(s, "pap")
    || crate::text::str_eq(s, "tcy")
    || crate::text::str_eq(s, "wo")
    || crate::text::str_eq(s, "ay")
    || crate::text::str_eq(s, "chr")
    || crate::text::str_eq(s, "igl")
    || crate::text::str_eq(s, "csb")
    || crate::text::str_eq(s, "lg")
    || crate::text::str_eq(s, "frr")
    || crate::text::str_eq(s, "syl")
    || crate::text::str_eq(s, "xh")
    || crate::text::str_eq(s, "gn")
    || crate::text::str_eq(s, "frp")
    || crate::text::str_eq(s, "kl")
    || crate::text::str_eq(s, "guw")
    || crate::text::str_eq(s, "pcm")
    || crate::text::str_eq(s, "tn")
    || crate::text::str_eq(s, "vls")
    || crate::text::str_eq(s, "dz")
    || crate::text::str_eq(s, "eml")
    || crate::text::str_eq(s, "gag")
    || crate::text::str_eq(s, "dv")
    || crate::text::str_eq(s, "mi")
    || crate::text::str_eq(s, "rm")
}

pub open spec fn lang_group_f(s: Seq<char>) -> bool {
    ||| s == "st"@
    ||| s == "os"@
    ||| s == "dty"@
    ||| s == "cdo"@
    ||| s == "got"@
    ||| s == "smn"@
    ||| s == "iu"@
    ||| s == "jbo"@
    ||| s == "tyv"@
    ||| s == "nds-nl"@
    ||| s == "map-bms"@
    ||| s == "cbk-zam"@
    ||| s == "kw"@
    ||| s == "cu"@
    ||| s == "tw"@
    ||| s == "ext"@
    ||| s == "gpe"@
    ||| s == "haw"@
    ||| s == "avk"@
    ||| s == "lfn"@
    ||| s == "nah"@
    ||| s == "nv"@
    ||| s == "new"@
    ||| s == "om"@
    ||| s == "udm"@
    ||| s == "bat-smg"@
    ||| s == "myv"@
    ||| s == "rn"@
    ||| s == "mni"@
    ||| s == "skr"@
    ||| s == "shi"@
    ||| s == "bbc"@
    ||| s == "ug"@
    ||| s == "bxr"@
    ||| s == "ee"@
    ||| s == "kv"@
    ||| s == "kus"@
    ||| s == "olo"@
    ||| s == "mhr"@
    ||| s == "mdf"@
    ||| s == "nqo"@
    ||| s == "stq"@
    ||| s == "vep"@
}

fn in_lang_group_f(s: &str) -> (r: bool)
    ensures
        r == lang_group_f(s@),
{
    crate::text::str_eq(s, "st")
    || crate::text::str_eq(s, "os")
    || crate::text::str_eq(s, "dty")
    || crate::text::str_eq(s, "cdo")
    || crate::text::str_eq(s, "got")
    || crate::text::str_eq(s, "smn")
    || crate::text::str_eq(s, "iu")
    || crate::text::str_eq(s, "jbo")
    || crate::text::str_eq(s, "tyv")
    || crate::text::str_eq(s, "nds-nl")
    || crate::text::str_eq(s, "map-bms")
    || crate::text::str_eq(s, "cbk-zam")
    || crate::text::str_eq(s, "kw")
    || crate::text::str_eq(s, "cu")
    || crate::text::str_eq(s, "tw")
    || crate::text::str_eq(s, "ext")
    || crate::text::str_eq(s, "gpe")
    || crate::text::str_eq(s, "haw")
    || crate::text::str_eq(s, "avk")
    || crate::text::str_eq(s, "lfn")
    || crate::text::str_eq(s, "nah")
    || crate::text::str_eq(s, "nv")
    || crate::text::str_eq(s, "new")
    || crate::text::str_eq(s, "om")
    || crate::text::str_eq(s, "udm")
    || crate::text::str_eq(s, "bat-smg")
    || crate::text::str_eq(s, "myv")
    || crate::text::str_eq(s, "rn")
    || crate::text::str_eq(s, "mni")
    || crate::text::str_eq(s, "skr")
    || crate::text::str_eq(s, "shi")
    || crate::text::str_eq(s, "bbc")
    || crate::text::str_eq(s, "ug")
    || crate::text::str_eq(s, "bxr")
    || crate::text::str_eq(s, "ee")
    || crate::text::str_eq(s, "kv")
    || crate::text::str_eq(s, "kus")
    || crate::text::str_eq(s, "olo")
    || crate::text::str_eq(s, "mhr")
    || crate::text::str_eq(s, "mdf")
    || crate::text::str_eq(s, "nqo")
    || crate::text::str_eq(s, "stq")
    || crate::text::str_eq(s, "vep")
}

pub open spec fn lang_group_g(s: Seq<char>) -> bool {
    ||| s == "zea"@
    ||| s == "se"@
    ||| s == "awa"@
    ||| s == "gan"@
    ||| s == "glk"@
    ||| s == "kg"@
    ||| s == "lez"@
    ||| s == "mwl"@
    ||| s == "roa-tara"@
    ||| s == "tum"@
    ||| s == "bug"@
    ||| s == "cr"@
    ||| s == "jam"@
    ||| s == "blk"@
    ||| s == "pfl"@
    ||| s == "pag"@
    ||| s == "szy"@
    ||| s == "sn"@
    ||| s == "arc"@
    ||| s == "atj"@
    ||| s == "bpy"@
    ||| s == "bi"@
    ||| s == "ny"@
    ||| s == "ln"@
    ||| s == "rmy"@
    ||| s == "sm"@
    ||| s == "knc"@
    ||| s == "mrj"@
    ||| s == "iba"@
    ||| s == "xal"@
    ||| s == "krc"@
    ||| s == "ltg"@
    ||| s == "nrm"@
    ||| s == "tly"@
    ||| s == "gom"@
    ||| s == "ady"@
    ||| s == "fat"@
    ||| s == "inh"@
    ||| s == "mnw"@
    ||| s == "nia"@
    ||| s == "nov"@
    ||| s == "rsk"@
    ||| s == "tpi"@
}

fn in_lang_group_g(s: &str) -> (r: bool)
    ensures
        r == lang_group_g(s@),
{
    crate::text::str_eq(s, "zea")
    || crate::text::str_eq(s, "se")
    || crate::text::str_eq(s, "awa")
    || crate::text::str_eq(s, "gan")
    || crate::text::str_eq(s, "glk")
    || crate::text::str_eq(s, "kg")
    || crate::text::str_eq(s, "lez")
    || crate::text::str_eq(s, "mwl")
    || crate::text::str_eq(s, "roa-tara")
    || crate::text::str_eq(s, "tum")
    || crate::text::str_eq(s, "bug")
    || crate::text::str_eq(s, "cr")
    || crate::text::str_eq(s, "jam")
    || crate::text::str_eq(s, "blk")
    || crate::text::str_eq(s, "pfl")
    || crate::text::str_eq(s, "pag")
    || crate::text::str_eq(s, "szy")
    || crate::text::str_eq(s, "sn")
    || crate::text::str_eq(s, "arc")
    || crate::text::str_eq(s, "atj")
    || crate::text::str_eq(s, "bpy")
    || crate::text::str_eq(s, "bi")
    || crate::text::str_eq(s, "ny")
    || crate::text::str_eq(s, "ln")
    || crate::text::str_eq(s, "rmy")
    || crate::text::str_eq(s, "sm")
    || crate::text::str_eq(s, "knc")
    || crate::text::str_eq(s, "mrj")
    || crate::text::str_eq(s, "iba")
    || crate::text::str_eq(s, "xal")
    || crate::text::str_eq(s, "krc")
    || crate::text::str_eq(s, "ltg")
    || crate::text::str_eq(s, "nrm")
    || crate::text::str_eq(s, "tly")
    || crate::text::str_eq(s, "gom")
    || crate::text::str_eq(s, "ady")
    || crate::text::str_eq(s, "fat")
    || crate::text::str_eq(s, "inh")
    || crate::text::str_eq(s, "mnw")
    || crate::text::str_eq(s, "nia")
    || crate::text::str_eq(s, "nov")
    || crate::text::str_eq(s, "rsk")
    || crate::text::str_eq(s, "tpi")
}

pub open spec fn lang_group_h(s: Seq<char>) -> bool {
    ||| s == "za"@
    ||| s == "bm"@
    ||| s == "dga"@
    ||| s == "koi"@
    ||| s == "trv"@
    ||| s == "shn"@
    ||| s == "ami"@
    ||| s == "chy"@
    ||| s == "fj"@
    ||| s == "kbp"@
    ||| s == "btm"@
    ||| s == "nr"@
    ||| s == "fon"@
    ||| s == "ki"@
    ||| s == "lbe"@
    ||| s == "pnt"@
    ||| s == "kcg"@
    ||| s == "ksh"@
    ||| s == "gcr"@
    ||| s == "gur"@
    ||| s == "to"@
    ||| s == "ch"@
    ||| s == "din"@
    ||| s == "ik"@
    ||| s == "kbd"@
    ||| s == "mos"@
    ||| s == "pi"@
    ||| s == "sg"@
    ||| s == "tet"@
    ||| s == "ti"@
    ||| s == "tay"@
    ||| s == "kge"@
    ||| s == "pwn"@
    ||| s == "tig"@
    ||| s == "alt"@
    ||| s == "srn"@
    ||| s == "ty"@
    ||| s == "ann"@
    ||| s == "tdd"@
    ||| s == "bdr"@
}

fn in_lang_group_h(s: &str) -> (r: bool)
    ensures
        r == lang_group_h(s@),
{
    crate::text::str_eq(s, "za")
    || crate::text::str_eq(s, "bm")
    || crate::text::str_eq(s, "dga")
    || crate::text::str_eq(s, "koi")
    || crate::text::str_eq(s, "trv")
    || crate::text::str_eq(s, "shn")
    || crate::text::str_eq(s, "ami")
    || crate::text::str_eq(s, "chy")
    || crate::text::str_eq(s, "fj")
    || crate::text::str_eq(s, "kbp")
    || crate::text::str_eq(s, "btm")
    || crate::text::str_eq(s, "nr")
    || crate::text::str_eq(s, "fon")
    || crate::text::str_eq(s, "ki")
    || crate::text::str_eq(s, "lbe")
    || crate::text::str_eq(s, "pnt")
    || crate::text::str_eq(s, "kcg")
    || crate::text::str_eq(s, "ksh")
    || crate::text::str_eq(s, "gcr")
    || crate::text::str_eq(s, "gur")
    || crate::text::str_eq(s, "to")
    || crate::text::str_eq(s, "ch")
    || crate::text::str_eq(s, "din")
    || crate::text::str_eq(s, "ik")
    || crate::text::str_eq(s, "kbd")
    || crate::text::str_eq(s, "mos")
    || crate::text::str_eq(s, "pi")
    || crate::text::str_eq(s, "sg")
    || crate::text::str_eq(s, "tet")
    || crate::text::str_eq(s, "ti")
    || crate::text::str_eq(s, "tay")
    || crate::text::str_eq(s, "kge")
    || crate::text::str_eq(s, "pwn")
    || crate::text::str_eq(s, "tig")
    || crate::text::str_eq(s, "alt")
    || crate::text::str_eq(s, "srn")
    || crate::text::str_eq(s, "ty")
    || crate::text::str_eq(s, "ann")
    || crate::text::str_eq(s, "tdd")
    || crate::text::str_eq(s, "bdr")
}

/// Whether `s` is one of the supported language-edition codes.
pub open spec fn supported_language(s: Seq<char>) -> bool {
    ||| lang_group_a(s)
    ||| lang_group_b(s)
    ||| lang_group_c(s)
    ||| lang_group_d(s)
    ||| lang_group_e(s)
    ||| lang_group_f(s)
    ||| lang_group_g(s)
    ||| lang_group_h(s)
}

/// Whether `lang` names a supported Wikipedia language edition.
pub fn is_supported_language(lang: &str) -> (r: bool)
    ensures
        r == supported_language(lang@),
{
in_lang_group_a(lang)
    || in_lang_group_b(lang)
    || in_lang_group_c(lang)
    || in_lang_group_d(lang)
    || in_lang_group_e(lang)
    || in_lang_group_f(lang)
    || in_lang_group_g(lang)
    || in_lang_group_h(lang)
}

} // verus!
