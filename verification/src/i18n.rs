//! The translations of the menu texts, kept in a Fluent bundle.
use crate::language::{code_of, Language};
use fluent_bundle::bundle::FluentBundle;
use fluent_bundle::{FluentArgs, FluentError, FluentResource};
use intl_memoizer::IntlLangMemoizer;
use unic_langid::LanguageIdentifier;
use vstd::prelude::*;

verus! {

#[verifier::external_type_specification]
#[verifier::external_body]
pub struct ExLanguageIdentifier(LanguageIdentifier);

#[verifier::external_type_specification]
#[verifier::external_body]
#[verifier::reject_recursive_types(R)]
#[verifier::reject_recursive_types(M)]
pub struct ExFluentBundle<R, M>(FluentBundle<R, M>);

#[verifier::external_type_specification]
#[verifier::external_body]
pub struct ExIntlLangMemoizer(IntlLangMemoizer);

#[verifier::external_type_specification]
#[verifier::external_body]
pub struct ExFluentResource(FluentResource);

#[verifier::external_type_specification]
#[verifier::external_body]
pub struct ExFluentArgs<'args>(FluentArgs<'args>);

#[verifier::external_type_specification]
#[verifier::external_body]
pub struct ExFluentError(FluentError);

/// The source text a Fluent resource was parsed from.
pub uninterp spec fn resource_source(resource: FluentResource) -> Seq<char>;

/// The source texts of the resources added to a bundle, in the order they
/// were added.
pub uninterp spec fn bundle_sources(bundle: FluentBundle<FluentResource, IntlLangMemoizer>) -> Seq<
    Seq<char>,
>;

/// Whether `FluentResource::try_new` parses a source text without errors.
pub uninterp spec fn ftl_parses(source: Seq<char>) -> bool;

/// Whether `FluentBundle::add_resource` adds the resource parsed from
/// `source` to a bundle holding the resources parsed from `sources` without
/// errors (it reports an error for each entry whose identifier is taken).
pub uninterp spec fn ftl_adds_cleanly(sources: Seq<Seq<char>>, source: Seq<char>) -> bool;

/// The locales a bundle was made with, in order; the first one chooses the
/// plural rules and the number formats.
pub uninterp spec fn bundle_locales(bundle: FluentBundle<FluentResource, IntlLangMemoizer>) -> Seq<
    LanguageIdentifier,
>;

/// What `FluentBundle::format_pattern` writes, without arguments, for the
/// value of the message `key` in a bundle made with `locales` and holding
/// the resources parsed from `sources`; `None` where `get_message` finds no
/// such message or the message has no value.
pub uninterp spec fn ftl_formatted(
    locales: Seq<LanguageIdentifier>,
    sources: Seq<Seq<char>>,
    key: Seq<char>,
) -> Option<Seq<char>>;

/// The identifier unic-langid reads from a code text.
pub uninterp spec fn parsed_language_identifier(code: Seq<char>) -> LanguageIdentifier;

/// Calls `LanguageIdentifier::from_str(code)` (`code.parse()`) on a code of
/// two lower-case ASCII letters, which unic-langid always reads (it takes a
/// language subtag of 2, 3 or 5 to 8 ASCII letters), so the `unwrap` never
/// fails. The contract claims the identifier is a function of the code
/// text alone, named `parsed_language_identifier`.
#[verifier::external_body]
fn parse_language_identifier(code: &str) -> (r: LanguageIdentifier)
    requires
        code@.len() == 2,
        forall|i: int| 0 <= i < 2 ==> 'a' <= #[trigger] code@[i] <= 'z',
    ensures
        r == parsed_language_identifier(code@),
{
    code.parse::<LanguageIdentifier>().unwrap()
}

/// Calls `fluent::FluentBundle::new(locales)`. The contract claims the new
/// bundle holds no resource and keeps the locales as given (the source
/// stores the vector in its `locales` field).
#[verifier::external_body]
fn new_bundle(locales: Vec<LanguageIdentifier>) -> (r: FluentBundle<FluentResource, IntlLangMemoizer>)
    ensures
        bundle_sources(r) == Seq::<Seq<char>>::empty(),
        bundle_locales(r) == locales@,
{
    fluent::FluentBundle::new(locales)
}

/// Calls `fluent::FluentResource::try_new(source)`; where it reports parse
/// errors the resource and the errors are dropped. It is called only on the
/// two menu texts (the parser of fluent-syntax can panic on some escape
/// sequences in string literals, which these texts do not have). The
/// contract claims the result is `Some` exactly when the text parses
/// cleanly, and then holds that source text.
#[verifier::external_body]
fn parse_resource(source: String) -> (r: Option<FluentResource>)
    requires
        source@ == ftl_of(Language::EN) || source@ == ftl_of(Language::ZH),
    ensures
        r is Some <==> ftl_parses(source@),
        r matches Some(res) ==> resource_source(res) == source@,
{
    fluent::FluentResource::try_new(source).ok()
}

/// Calls `FluentBundle::add_resource(resource)`. The contract claims: the
/// resource is added in any case (the source pushes it after registering
/// its entries), the locales stay, and the result says whether it was added
/// without errors.
#[verifier::external_body]
fn add_resource(bundle: &mut FluentBundle<FluentResource, IntlLangMemoizer>, resource: FluentResource) -> (r: bool)
    ensures
        bundle_locales(*final(bundle)) == bundle_locales(*old(bundle)),
        bundle_sources(*final(bundle)) == bundle_sources(*old(bundle)).push(resource_source(resource)),
        r == ftl_adds_cleanly(bundle_sources(*old(bundle)), resource_source(resource)),
{
    bundle.add_resource(resource).is_ok()
}

/// Calls `FluentBundle::get_message(key)`, takes the message's value
/// pattern with the accessor `FluentMessage::value` (a message may have
/// attributes only, and then no value), and formats it with
/// `FluentBundle::format_pattern(pattern, args, errors)`, taking the text as
/// an owned string. It is called only on a bundle holding one of the two
/// menu texts, which have plain messages only: no placeable and no
/// selector, so no argument is read and no number is formatted (the
/// number-to-plural conversion of fluent-bundle can panic on numbers with
/// very long fractions). The contract claims: the result is `Some` exactly
/// when the bundle has a message of that name with a value; its text is the
/// message's value as formatted without arguments (a plain text pattern is
/// written as it stands, the arguments unread), a function of the bundle's
/// locales, its sources and the key; and no error is reported.
#[verifier::external_body]
fn format_message(
    bundle: &FluentBundle<FluentResource, IntlLangMemoizer>,
    key: &str,
    args: Option<&FluentArgs>,
    errors: &mut Vec<FluentError>,
) -> (r: Option<String>)
    requires
        menu_sources(bundle_sources(*bundle)),
    ensures
        r is Some <==> ftl_formatted(bundle_locales(*bundle), bundle_sources(*bundle), key@) is Some,
        r matches Some(t) ==> ftl_formatted(
            bundle_locales(*bundle),
            bundle_sources(*bundle),
            key@,
        ) == Some(t@),
        final(errors)@ == old(errors)@,
{
    let pattern = bundle.get_message(key)?.value()?;
    Some(bundle.format_pattern(pattern, args, errors).into_owned())
}

/// The Fluent source of the English menu texts.
pub open spec fn en_ftl() -> Seq<char> {
    "settings = Settings\nquit = Quit\n"@
}

/// The Fluent source of the Chinese menu texts.
pub open spec fn zh_ftl() -> Seq<char> {
    "settings = 设置\nquit = 退出\n"@
}

/// The Fluent source of the menu texts of a language.
pub open spec fn ftl_of(lang: Language) -> Seq<char> {
    match lang {
        Language::ZH => zh_ftl(),
        Language::EN => en_ftl(),
    }
}

/// Whether a bundle holds exactly the menu texts of one language.
pub open spec fn menu_sources(sources: Seq<Seq<char>>) -> bool {
    sources == seq![ftl_of(Language::EN)] || sources == seq![ftl_of(Language::ZH)]
}

/// The locales of the bundle of a language: its identifier alone.
pub open spec fn locales_of(lang: Language) -> Seq<LanguageIdentifier> {
    seq![parsed_language_identifier(code_of(lang))]
}

/// The text of the message `key` among the menu texts of a language,
/// formatted without arguments; `None` where there is no such message with a
/// value.
pub open spec fn menu_text(lang: Language, key: Seq<char>) -> Option<Seq<char>> {
    ftl_formatted(locales_of(lang), seq![ftl_of(lang)], key)
}

/// Whether the menu texts of a language load without errors into a fresh
/// bundle.
pub open spec fn ftl_loads(lang: Language) -> bool {
    ftl_parses(ftl_of(lang)) && ftl_adds_cleanly(Seq::empty(), ftl_of(lang))
}

/// The Fluent source of the menu texts of a language.
pub fn ftl_source(lang: Language) -> (r: &'static str)
    ensures
        r@ == ftl_of(lang),
{
    match lang {
        Language::ZH => "settings = 设置\nquit = 退出\n",
        Language::EN => "settings = Settings\nquit = Quit\n",
    }
}

impl Language {
    /// The Unicode language identifier of the language ("en" or "zh"),
    /// read by unic-langid from the language's code.
    pub fn language_identifier(self) -> (r: LanguageIdentifier)
        ensures
            r == parsed_language_identifier(code_of(self)),
    {
        let code = self.code();
        proof {
            reveal_strlit("en");
            reveal_strlit("zh");
            assert(code@ =~= code_of(self));
        }
        parse_language_identifier(code)
    }
}

/// What translating a message gives: its text, and the errors Fluent
/// reported while formatting it.
pub struct Translation {
    pub text: String,
    pub errors: Vec<FluentError>,
}

/// The menu texts of one language.
pub struct I18n {
    bundle: FluentBundle<FluentResource, IntlLangMemoizer>,
    language: Language,
}

impl I18n {
    /// The bundle holds the menu texts of the language, for that language.
    #[verifier::type_invariant]
    spec fn loaded(self) -> bool {
        &&& bundle_sources(self.bundle) == seq![ftl_of(self.language)]
        &&& bundle_locales(self.bundle) == locales_of(self.language)
    }

    /// The language of the texts.
    pub closed spec fn lang(&self) -> Language {
        self.language
    }

    /// The Fluent sources the texts were loaded from.
    pub closed spec fn sources(&self) -> Seq<Seq<char>> {
        bundle_sources(self.bundle)
    }

    /// The locales the bundle was made with.
    pub closed spec fn locales(&self) -> Seq<LanguageIdentifier> {
        bundle_locales(self.bundle)
    }

    /// Loads the menu texts of a language into a bundle for that language
    /// (its identifier is the bundle's only locale); the Chinese texts for
    /// Chinese, the English ones otherwise.
    pub fn new(lang: Language) -> (r: I18n)
        requires
            ftl_loads(lang),
        ensures
            r.lang() == lang,
            r.sources() == seq![ftl_of(lang)],
            r.locales() == locales_of(lang),
    {
        let lanid = lang.language_identifier();
        let mut locales: Vec<LanguageIdentifier> = Vec::new();
        locales.push(lanid);
        proof {
            assert(locales@ =~= locales_of(lang));
        }
        let mut bundle = new_bundle(locales);
        let source = ftl_source(lang);
        let text = source.to_string();
        match parse_resource(text) {
            Some(resource) => {
                add_resource(&mut bundle, resource);
                proof {
                    assert(seq![ftl_of(lang)] =~= Seq::<Seq<char>>::empty().push(ftl_of(lang)));
                }
                I18n { bundle, language: lang }
            },
            None => {
                proof {
                    assert(false);
                }
                I18n { bundle, language: lang }
            },
        }
    }

    /// Loads the menu texts of a language, or `None` where they do not
    /// load cleanly.
    pub fn try_new(lang: Language) -> (r: Option<I18n>)
        ensures
            r is Some <==> ftl_loads(lang),
            r matches Some(i) ==> i.lang() == lang && i.sources() == seq![ftl_of(lang)]
                && i.locales() == locales_of(lang),
    {
        if ftl_source_loads(lang) {
            Some(I18n::new(lang))
        } else {
            None
        }
    }

    /// The text of the message `key`, which must have a value, formatted
    /// with `args`, and the errors Fluent reported while formatting it. The
    /// menu texts are plain, so the text is the message's formatted value
    /// whatever the arguments, and no error is reported.
    pub fn translate(&self, key: &str, args: Option<&FluentArgs>) -> (r: Translation)
        requires
            menu_text(self.lang(), key@) is Some,
        ensures
            menu_text(self.lang(), key@) == Some(r.text@),
            r.errors@.len() == 0,
    {
        proof {
            use_type_invariant(self);
        }
        let mut errors: Vec<FluentError> = Vec::new();
        match format_message(&self.bundle, key, args, &mut errors) {
            Some(text) => Translation { text, errors },
            None => {
                proof {
                    assert(false);
                }
                Translation { text: String::new(), errors }
            },
        }
    }

    /// The translation of the message `key`, or `None` where the texts have
    /// no such message with a value.
    pub fn try_translate(&self, key: &str, args: Option<&FluentArgs>) -> (r: Option<Translation>)
        ensures
            r is Some <==> menu_text(self.lang(), key@) is Some,
            r matches Some(t) ==> menu_text(self.lang(), key@) == Some(t.text@) && t.errors@.len()
                == 0,
    {
        proof {
            use_type_invariant(self);
        }
        let mut scratch: Vec<FluentError> = Vec::new();
        match format_message(&self.bundle, key, None, &mut scratch) {
            Some(_) => Some(self.translate(key, args)),
            None => None,
        }
    }
}

/// Whether the menu texts of a language parse and load into a fresh
/// bundle without errors.
pub fn ftl_source_loads(lang: Language) -> (r: bool)
    ensures
        r == ftl_loads(lang),
{
    let mut bundle = new_bundle(Vec::new());
    let source = ftl_source(lang);
    match parse_resource(source.to_string()) {
        Some(resource) => add_resource(&mut bundle, resource),
        None => false,
    }
}

} // verus!
