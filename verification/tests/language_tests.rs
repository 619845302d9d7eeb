use salary_tray::language::{Language, UnknownLanguage};

#[test]
fn codes_of_languages() {
    assert_eq!(Language::EN.code(), "en");
    assert_eq!(Language::ZH.code(), "zh");
}

#[test]
fn code_round_trip() {
    for lang in [Language::EN, Language::ZH] {
        assert!(Language::from_code(lang.code()) == Ok(lang));
    }
    for code in ["en", "zh"] {
        assert_eq!(Language::from_code(code).ok().unwrap().code(), code);
    }
}

#[test]
fn unknown_code_is_refused() {
    assert!(Language::from_code("fr") == Err(UnknownLanguage));
    assert!(Language::from_code("") == Err(UnknownLanguage));
    assert!(Language::from_code("EN") == Err(UnknownLanguage));
    assert!(Language::from_code("en ") == Err(UnknownLanguage));
}

#[test]
fn form_value_falls_back_to_english() {
    assert!(Language::from_form_value("zh") == Language::ZH);
    assert!(Language::from_form_value("en") == Language::EN);
    assert!(Language::from_form_value("de") == Language::EN);
    assert!(Language::from_form_value("") == Language::EN);
}
