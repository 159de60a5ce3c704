//! The closed vocabulary of interface locales.

use vstd::prelude::*;

use crate::json::str_eq;

verus! {

/// An interface locale a client may ask for.
#[derive(Debug, Clone, Copy, PartialEq, Eq, Structural)]
pub enum LocaleValue {
    En,
    Ru,
}

/// The wire token of a locale: total and exhaustive.
pub open spec fn locale_token(l: LocaleValue) -> Seq<char> {
    match l {
        LocaleValue::En => "en"@,
        LocaleValue::Ru => "ru"@,
    }
}

/// The locale a wire token names; `None` outside the vocabulary.
pub open spec fn locale_from_token(s: Seq<char>) -> Option<LocaleValue> {
    if s == "en"@ {
        Some(LocaleValue::En)
    } else if s == "ru"@ {
        Some(LocaleValue::Ru)
    } else {
        None
    }
}

impl LocaleValue {
    /// The canonical wire token of this locale.
    pub fn as_str(&self) -> (r: &'static str)
        ensures
            r@ == locale_token(*self),
    {
        match self {
            LocaleValue::En => "en",
            LocaleValue::Ru => "ru",
        }
    }

    /// The locale `input` names, by exact, case-sensitive match.
    pub fn from_str(input: &str) -> (r: Option<LocaleValue>)
        ensures
            r == locale_from_token(input@),
    {
        if str_eq(input, "en") {
            Some(LocaleValue::En)
        } else if str_eq(input, "ru") {
            Some(LocaleValue::Ru)
        } else {
            None
        }
    }
}

/// The wire token of every locale names that locale again.
pub proof fn lemma_locale_token_round_trip(l: LocaleValue)
    ensures
        locale_from_token(locale_token(l)) == Some(l),
{
    reveal_strlit("en");
    reveal_strlit("ru");
    assert(("en"@)[0] != ("ru"@)[0]);
}

} // verus!
