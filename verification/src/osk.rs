//! On-screen keyboard configuration.
//!
//! The keyboard itself is drawn and run by the platform outside this
//! library; the builder assembles the prompt, limits and input modes as
//! plain values.

use vstd::prelude::*;

verus! {

/// Error from an on-screen keyboard operation.
#[derive(Debug, Clone, Copy, PartialEq, Eq, Structural)]
pub struct OskError(pub i32);

/// What characters the keyboard offers.
#[derive(Debug, Clone, Copy, PartialEq, Eq, Structural)]
pub enum SceUtilityOskInputType {
    /// Every input mode.
    All,
    /// Latin digits only.
    LatinDigit,
    /// Latin letters only.
    LatinSymbol,
    /// Latin lowercase.
    LatinLowercase,
    /// Latin uppercase.
    LatinUppercase,
}

/// Keyboard input language.
#[derive(Debug, Clone, Copy, PartialEq, Eq, Structural)]
pub enum SceUtilityOskInputLanguage {
    /// The system default.
    Default,
    Japanese,
    English,
    French,
    Spanish,
    German,
    Italian,
    Dutch,
    Portuguese,
    Russian,
    Korean,
}

/// Builder for one keyboard session: the prompt, the initial text, the
/// length limit and the input modes.
pub struct OskBuilder {
    /// The prompt shown above the input field.
    pub prompt: String,
    /// The text the field starts with.
    pub initial: String,
    /// Maximum characters accepted.
    pub max_chars: usize,
    /// Which characters the keyboard offers.
    pub input_type: SceUtilityOskInputType,
    /// Keyboard language.
    pub language: SceUtilityOskInputLanguage,
}

impl OskBuilder {
    /// A keyboard session with `prompt`, an empty field, a limit of 128
    /// characters, every input mode and the default language.
    pub fn new(prompt: &str) -> (r: Self)
        ensures
            r.prompt@ == prompt@,
            r.initial@ == Seq::<char>::empty(),
            r.max_chars == 128,
            r.input_type == SceUtilityOskInputType::All,
            r.language == SceUtilityOskInputLanguage::Default,
    {
        OskBuilder {
            prompt: prompt.to_owned(),
            initial: String::new(),
            max_chars: 128,
            input_type: SceUtilityOskInputType::All,
            language: SceUtilityOskInputLanguage::Default,
        }
    }

    /// Set the character limit.
    pub fn max_chars(self, max: usize) -> (r: Self)
        ensures
            r.max_chars == max,
            r.prompt@ == self.prompt@,
            r.initial@ == self.initial@,
            r.input_type == self.input_type,
            r.language == self.language,
    {
        OskBuilder { max_chars: max, ..self }
    }

    /// Set the initial field text.
    pub fn initial_text(self, text: &str) -> (r: Self)
        ensures
            r.initial@ == text@,
            r.prompt@ == self.prompt@,
            r.max_chars == self.max_chars,
            r.input_type == self.input_type,
            r.language == self.language,
    {
        OskBuilder { initial: text.to_owned(), ..self }
    }

    /// Set the keyboard language.
    pub fn language(self, lang: SceUtilityOskInputLanguage) -> (r: Self)
        ensures
            r.language == lang,
            r.prompt@ == self.prompt@,
            r.initial@ == self.initial@,
            r.max_chars == self.max_chars,
            r.input_type == self.input_type,
    {
        OskBuilder { language: lang, ..self }
    }

    /// Set the offered input modes.
    pub fn input_type(self, input_type: SceUtilityOskInputType) -> (r: Self)
        ensures
            r.input_type == input_type,
            r.prompt@ == self.prompt@,
            r.initial@ == self.initial@,
            r.max_chars == self.max_chars,
            r.language == self.language,
    {
        OskBuilder { input_type, ..self }
    }
}

} // verus!
