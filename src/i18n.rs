//! Turning a type into a value: a `Context` is localized by passing a typed
//! language, and only the languages that have a `Localize` impl are accepted.
use vstd::prelude::*;

verus! {

/// The context for rendering a localized message.
pub struct Context {
    /// Who do we want to greet?
    pub who: String,
}

/// Language enum.
pub enum Language {
    /// English
    English,
    /// French
    French,
    /// German
    German,
}

/// Typed language trait, so a language can be passed to functions as a type.
pub trait TypedLang {
    /// The language this type stands for.
    spec fn language() -> Language;
}

/// Typed English
pub struct English;

impl TypedLang for English {
    open spec fn language() -> Language {
        Language::English
    }
}

/// Typed French
pub struct French;

impl TypedLang for French {
    open spec fn language() -> Language {
        Language::French
    }
}

/// Typed German
pub struct German;

impl TypedLang for German {
    open spec fn language() -> Language {
        Language::German
    }
}

/// Localized value into a language.
pub enum Localized<T: Sized> {
    /// English
    English(T),
    /// French
    French(T),
    /// German
    German(T),
}

impl<T> Localized<T> {
    /// The language of the variant.
    pub open spec fn language(self) -> Language {
        match self {
            Localized::English(_) => Language::English,
            Localized::French(_) => Language::French,
            Localized::German(_) => Language::German,
        }
    }

    /// The value carried by the variant.
    pub open spec fn payload(self) -> T {
        match self {
            Localized::English(t) => t,
            Localized::French(t) => t,
            Localized::German(t) => t,
        }
    }
}

/// Localize -> `Localized`
pub trait Localize<L: TypedLang> {
    /// Turn a value into `Localized` for a given language: the variant is the
    /// one of `L`, and it carries the value unchanged.
    fn localize(self, lang: L) -> (r: Localized<Self>)
        where
            Self: Sized,
        ensures
            r.language() == L::language(),
            r.payload() == self,
    ;
}

impl Localize<English> for Context {
    fn localize(self, _lang: English) -> (r: Localized<Self>) {
        Localized::English(self)
    }
}

impl Localize<French> for Context {
    fn localize(self, _lang: French) -> (r: Localized<Self>) {
        Localized::French(self)
    }
}

} // verus!
