use vstd::prelude::*;

verus! {

/// The display languages of the application. `code` gives the text form
/// ("en", "zh") in which a language is written and shown.
#[derive(Clone, Copy, PartialEq, Eq, Structural)]
pub enum Language {
    EN,
    ZH,
}

/// The text code of a language, as written in the settings file.
pub open spec fn code_of(lang: Language) -> Seq<char> {
    match lang {
        Language::EN => seq!['e', 'n'],
        Language::ZH => seq!['z', 'h'],
    }
}

/// The language a code names, if it names one.
pub open spec fn language_of_code(code: Seq<char>) -> Option<Language> {
    if code == seq!['e', 'n'] {
        Some(Language::EN)
    } else if code == seq!['z', 'h'] {
        Some(Language::ZH)
    } else {
        None
    }
}

/// The error of reading a code that names no language.
#[derive(Clone, Copy, PartialEq, Eq, Structural, Debug)]
pub struct UnknownLanguage;

/// Whether `s` is exactly the two characters `a`, `b`.
fn is_two_chars(s: &str, a: char, b: char) -> (r: bool)
    ensures
        r == (s@ == seq![a, b]),
{
    let n = s.unicode_len();
    if n != 2 {
        return false;
    }
    let c0 = s.get_char(0);
    let c1 = s.get_char(1);
    if c0 == a && c1 == b {
        assert(s@ =~= seq![a, b]);
        true
    } else {
        false
    }
}

impl Language {
    /// The code of the language: "en" or "zh".
    pub fn code(&self) -> (r: &'static str)
        ensures
            r@ == code_of(*self),
    {
        match self {
            Language::EN => {
                proof {
                    reveal_strlit("en");
                }
                "en"
            },
            Language::ZH => {
                proof {
                    reveal_strlit("zh");
                }
                "zh"
            },
        }
    }

    /// Reads a language code; any text other than "en" or "zh" is refused.
    pub fn from_code(code: &str) -> (r: Result<Language, UnknownLanguage>)
        ensures
            match language_of_code(code@) {
                Some(lang) => r == Ok::<Language, UnknownLanguage>(lang),
                None => r == Err::<Language, UnknownLanguage>(UnknownLanguage),
            },
    {
        if is_two_chars(code, 'e', 'n') {
            Ok(Language::EN)
        } else if is_two_chars(code, 'z', 'h') {
            Ok(Language::ZH)
        } else {
            Err(UnknownLanguage)
        }
    }

    /// The language a settings form names: "zh" is Chinese, and every
    /// other text, "en" included, falls back to English.
    pub fn from_form_value(value: &str) -> (r: Language)
        ensures
            r == (if value@ == seq!['z', 'h'] { Language::ZH } else { Language::EN }),
    {
        match Language::from_code(value) {
            Ok(lang) => lang,
            Err(_) => Language::EN,
        }
    }
}

/// The code of a language reads back as that language, and a code that is
/// read as a language is that language's code: writing then reading a
/// language gives it back, and reading then writing a code gives it back.
pub proof fn lemma_code_round_trip(lang: Language, code: Seq<char>)
    ensures
        language_of_code(code_of(lang)) == Some(lang),
        language_of_code(code) matches Some(l) ==> code == code_of(l),
{
}

} // verus!
