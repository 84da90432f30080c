//! The message catalog of the `i18nrs` crate: what it holds, what it answers, and how the
//! answer for an unknown key is told apart.

use crate::text::{chars_of, contains, contains_chars, matches_at, occurs_at, starts_with};
use i18nrs::I18n;
use vstd::prelude::*;

verus! {

/// The catalog type of `i18nrs`. Nothing inside it is visible here.
#[verifier::external_type_specification]
#[verifier::external_body]
pub struct ExI18n(i18nrs::I18n);

/// What the catalog holds: for a language that it has loaded and a dotted key that leads to
/// a value in that language's tree, that value as text (a text as it is, any other value
/// as JSON writes it).
pub uninterp spec fn messages(i18n: I18n) -> Map<(Seq<char>, Seq<char>), Seq<char>>;

/// The code of the language in which the catalog answers.
pub uninterp spec fn current_language(i18n: I18n) -> Seq<char>;

/// The language codes that the catalog's configuration lists.
pub uninterp spec fn configured_languages(i18n: I18n) -> Set<Seq<char>>;

/// A catalog that can be asked for messages: its configuration lists a language.
pub open spec fn spec_can_translate(i18n: &I18n) -> bool {
    configured_languages(*i18n) != Set::<Seq<char>>::empty()
}

/// What the catalog answers for a key that it does not know, in the language `language`.
pub open spec fn placeholder(key: Seq<char>, language: Seq<char>) -> Seq<char> {
    "Key '"@ + key + "' not found for language '"@ + language + "'"@
}

/// Whether the catalog may answer `text` for `key`. For a key that the current language
/// knows the answer is its message. For any other key the answer is the message of another
/// loaded language that knows the key, or else the placeholder.
pub open spec fn may_answer(i18n: I18n, key: Seq<char>, text: Seq<char>) -> bool {
    let held = messages(i18n);
    let current = current_language(i18n);
    if held.contains_key((current, key)) {
        text == held[(current, key)]
    } else {
        ||| text == placeholder(key, current)
        ||| exists|language: Seq<char>| #[trigger]
            held.contains_key((language, key)) && text == held[(language, key)]
    }
}

/// No loaded language knows `key`.
pub open spec fn unknown_key(i18n: I18n, key: Seq<char>) -> bool {
    forall|language: Seq<char>| !(#[trigger] messages(i18n).contains_key((language, key)))
}

/// `is_empty` on the map of languages in the catalog's public configuration
/// (`config.translations`). The contract says that it tells whether that map has no key.
#[verifier::external_body]
fn lists_no_language(i18n: &I18n) -> (r: bool)
    ensures
        r == (configured_languages(*i18n) == Set::<Seq<char>>::empty()),
{
    i18n.config.translations.is_empty()
}

/// `I18n::t` of `i18nrs`. The call indexes the first configured language, so it is made
/// only where one is listed. It looks the key up in the current language, then in the
/// language that comes first when the configured ones are walked, and formats the
/// placeholder where both lack it. Which language comes first is not fixed, so for a key
/// that the current language lacks the contract allows the message of any loaded language.
#[verifier::external_body]
pub(crate) fn lookup(i18n: &I18n, key: &str) -> (r: String)
    requires
        spec_can_translate(i18n),
    ensures
        messages(*i18n).contains_key((current_language(*i18n), key@)) ==> r@ == messages(
            *i18n,
        )[(current_language(*i18n), key@)],
        !messages(*i18n).contains_key((current_language(*i18n), key@)) ==> {
            ||| r@ == placeholder(key@, current_language(*i18n))
            ||| exists|language: Seq<char>| #[trigger]
                messages(*i18n).contains_key((language, key@)) && r@ == messages(*i18n)[(
                    language,
                    key@,
                )]
        },
{
    i18n.t(key)
}

/// Tells whether the catalog can be asked for messages.
#[verifier::when_used_as_spec(spec_can_translate)]
pub fn can_translate(i18n: &I18n) -> (r: bool)
    ensures
        r == spec_can_translate(i18n),
{
    !lists_no_language(i18n)
}

/// The shape of the placeholder that the catalog gives for a key that it does not know.
pub open spec fn spec_is_translation_missing(translation: Seq<char>) -> bool {
    starts_with(translation, "Key '"@) && contains(translation, " not found for language "@)
}

/// Tells whether `translation` is the catalog's placeholder for an unknown key.
pub fn is_translation_missing(translation: &str) -> (r: bool)
    ensures
        r == spec_is_translation_missing(translation@),
{
    let v = chars_of(translation);
    let head = chars_of("Key '");
    let middle = chars_of(" not found for language ");
    matches_at(&v, 0, &head) && contains_chars(&v, &middle)
}

/// The placeholder is recognised, whatever the key and the language.
pub proof fn lemma_placeholder_is_missing(key: Seq<char>, language: Seq<char>)
    ensures
        spec_is_translation_missing(placeholder(key, language)),
{
    let head = "Key '"@;
    let middle = "' not found for language '"@;
    let needle = " not found for language "@;
    let text = placeholder(key, language);
    reveal_strlit("' not found for language '");
    reveal_strlit(" not found for language ");
    assert(text.subrange(0, head.len() as int) =~= head);
    let at: int = (head.len() + key.len() + 1) as int;
    let n: int = needle.len() as int;
    assert(middle.subrange(1, 1 + n) =~= needle);
    assert(text.subrange(at, at + n) =~= middle.subrange(1, 1 + n));
    assert(occurs_at(text, at, needle));
}

/// The text to show for a looked-up message: the message itself, or nothing where the
/// catalog gave its placeholder and the fallback message must be asked for.
pub fn known_translation(translation: String) -> (r: Option<String>)
    ensures
        r == if spec_is_translation_missing(translation@) {
            None
        } else {
            Some(translation)
        },
{
    if is_translation_missing(translation.as_str()) {
        None
    } else {
        Some(translation)
    }
}

/// Whether `text` may be shown for `key` with the fallback `fallback_key`: it is what the
/// catalog answers for `key`, unless that has the shape of the placeholder; then it is
/// what the catalog answers for `fallback_key`.
pub open spec fn may_translate(
    i18n: I18n,
    key: Seq<char>,
    fallback_key: Seq<char>,
    text: Seq<char>,
) -> bool {
    exists|first: Seq<char>| #[trigger]
        may_answer(i18n, key, first) && if spec_is_translation_missing(first) {
            may_answer(i18n, fallback_key, text)
        } else {
            text == first
        }
}

/// The message for `key`, or the message for `fallback_key` where the catalog does not
/// know `key`.
pub fn translate_or(i18n: &I18n, key: &str, fallback_key: &str) -> (r: String)
    requires
        spec_can_translate(i18n),
    ensures
        may_translate(*i18n, key@, fallback_key@, r@),
{
    let first = lookup(i18n, key);
    let ghost answered = first@;
    match known_translation(first) {
        Some(text) => {
            assert(may_answer(*i18n, key@, answered) && text@ == answered);
            text
        },
        None => {
            let second = lookup(i18n, fallback_key);
            second
        },
    }
}

/// A key that the current language knows is shown by its message, provided that the
/// message does not itself look like the placeholder.
pub proof fn law_known_key_is_shown(
    i18n: I18n,
    key: Seq<char>,
    fallback_key: Seq<char>,
    text: Seq<char>,
)
    requires
        may_translate(i18n, key, fallback_key, text),
        messages(i18n).contains_key((current_language(i18n), key)),
        !spec_is_translation_missing(messages(i18n)[(current_language(i18n), key)]),
    ensures
        text == messages(i18n)[(current_language(i18n), key)],
{
}

/// A key that no loaded language knows is shown by the fallback's message, where the
/// current language knows the fallback: the missing message is itself what triggers the
/// fallback.
pub proof fn law_unknown_key_falls_back(
    i18n: I18n,
    key: Seq<char>,
    fallback_key: Seq<char>,
    text: Seq<char>,
)
    requires
        may_translate(i18n, key, fallback_key, text),
        unknown_key(i18n, key),
        messages(i18n).contains_key((current_language(i18n), fallback_key)),
    ensures
        text == messages(i18n)[(current_language(i18n), fallback_key)],
{
    lemma_placeholder_is_missing(key, current_language(i18n));
    let first = choose|first: Seq<char>| #[trigger]
        may_answer(i18n, key, first) && if spec_is_translation_missing(first) {
            may_answer(i18n, fallback_key, text)
        } else {
            text == first
        };
    assert(first == placeholder(key, current_language(i18n)));
}

} // verus!
