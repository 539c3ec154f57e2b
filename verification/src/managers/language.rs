//! The language codes that the application offers and that the providers
//! take as they are.

use vstd::prelude::*;
use crate::text::str_eq;

verus! {

/// Whether `code` is one of the languages, other than English, that the
/// providers know under the application's own code.
pub open spec fn is_shared_language(code: Seq<char>) -> bool {
    code == "es"@ || code == "fr"@ || code == "de"@ || code == "it"@ || code == "pt"@ || code == "nl"@
        || code == "hi"@ || code == "ja"@ || code == "ko"@ || code == "pl"@ || code == "ru"@ || code == "tr"@
        || code == "vi"@ || code == "uk"@ || code == "zh"@ || code == "ar"@ || code == "ca"@ || code == "cs"@
        || code == "da"@ || code == "fi"@ || code == "el"@ || code == "he"@ || code == "hu"@ || code == "id"@
        || code == "ms"@ || code == "no"@ || code == "ro"@ || code == "sk"@ || code == "sv"@ || code == "th"@
        || code == "ur"@ || code == "fa"@ || code == "bg"@ || code == "hr"@ || code == "et"@ || code == "lv"@
        || code == "lt"@ || code == "mk"@ || code == "sl"@ || code == "sr"@ || code == "az"@ || code == "bn"@
        || code == "kn"@ || code == "ml"@ || code == "ta"@ || code == "te"@ || code == "cy"@
}

/// Whether `code` is one of the languages, other than English, that the
/// providers know under the application's own code.
pub fn knows_language(code: &str) -> (known: bool)
    ensures
        known == is_shared_language(code@),
{
    str_eq(code, "es") || str_eq(code, "fr") || str_eq(code, "de") || str_eq(code, "it") || str_eq(code, "pt") || str_eq(code, "nl")
        || str_eq(code, "hi") || str_eq(code, "ja") || str_eq(code, "ko") || str_eq(code, "pl") || str_eq(code, "ru") || str_eq(code, "tr")
        || str_eq(code, "vi") || str_eq(code, "uk") || str_eq(code, "zh") || str_eq(code, "ar") || str_eq(code, "ca") || str_eq(code, "cs")
        || str_eq(code, "da") || str_eq(code, "fi") || str_eq(code, "el") || str_eq(code, "he") || str_eq(code, "hu") || str_eq(code, "id")
        || str_eq(code, "ms") || str_eq(code, "no") || str_eq(code, "ro") || str_eq(code, "sk") || str_eq(code, "sv") || str_eq(code, "th")
        || str_eq(code, "ur") || str_eq(code, "fa") || str_eq(code, "bg") || str_eq(code, "hr") || str_eq(code, "et") || str_eq(code, "lv")
        || str_eq(code, "lt") || str_eq(code, "mk") || str_eq(code, "sl") || str_eq(code, "sr") || str_eq(code, "az") || str_eq(code, "bn")
        || str_eq(code, "kn") || str_eq(code, "ml") || str_eq(code, "ta") || str_eq(code, "te") || str_eq(code, "cy")
}

} // verus!
