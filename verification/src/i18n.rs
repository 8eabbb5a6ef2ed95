//! Internationalization: translation lookup for the supported languages.
//!
//! The locale probe lives at the platform edge: "auto" resolves there, and
//! the manager receives a concrete language code.

pub mod en;
pub mod fr;

use std::collections::HashMap;
use vstd::prelude::*;
use vstd::string::StringExecFns;
use crate::text::str_eq;

verus! {

/// The translation a key resolves to: the value of its first entry.
pub open spec fn spec_lookup(pairs: Seq<(String, String)>, key: Seq<char>) -> Option<Seq<char>>
    decreases pairs.len(),
{
    if pairs.len() == 0 {
        None
    } else if pairs[0].0@ == key {
        Some(pairs[0].1@)
    } else {
        spec_lookup(pairs.drop_first(), key)
    }
}

/// The table is the given language's full pair list, entry by entry: the
/// French table exactly when the language reads "fr", else the English one.
pub open spec fn spec_table_of(pairs: Seq<(String, String)>, lang: Seq<char>) -> bool {
    if lang == "fr"@ {
        fr::spec_table_matches(pairs)
    } else {
        en::spec_table_matches(pairs)
    }
}

/// Internationalization manager.
pub struct I18n {
    current_lang: String,
    translations: Vec<(String, String)>,
}

impl I18n {
    pub closed spec fn spec_lang(&self) -> Seq<char> {
        self.current_lang@
    }

    pub closed spec fn spec_translations(&self) -> Seq<(String, String)> {
        self.translations@
    }

    /// A manager holding the table of the given language ("fr" for French,
    /// anything else reads as English).
    pub fn new(lang: &str) -> (r: Self)
        ensures
            r.spec_lang() == lang@,
            spec_table_of(r.spec_translations(), lang@),
    {
        let translations = if str_eq(lang, "fr") {
            fr::translation_pairs()
        } else {
            en::translation_pairs()
        };
        I18n { current_lang: lang.to_owned(), translations }
    }

    /// Switch to another language.
    ///
    /// The table is replaced wholesale: the French table exactly when the
    /// language reads "fr", otherwise the English table.
    pub fn set_language(&mut self, lang: &str)
        ensures
            final(self).spec_lang() == lang@,
            spec_table_of(final(self).spec_translations(), lang@),
    {
        self.translations = if str_eq(lang, "fr") {
            fr::translation_pairs()
        } else {
            en::translation_pairs()
        };
        self.current_lang = lang.to_owned();
    }

    /// The translation of a key; an unknown key translates to itself.
    pub fn get(&self, key: &str) -> (r: String)
        ensures
            r@ == (match spec_lookup(self.spec_translations(), key@) {
                Some(v) => v,
                None => key@,
            }),
    {
        let ghost full = self.translations@;
        proof {
            assert(full.subrange(0, full.len() as int) =~= full);
        }
        let mut i: usize = 0;
        while i < self.translations.len()
            invariant
                full == self.spec_translations(),
                0 <= i <= full.len(),
                spec_lookup(full.subrange(i as int, full.len() as int), key@) == spec_lookup(
                    full,
                    key@,
                ),
            decreases full.len() - i,
        {
            proof {
                let suffix = full.subrange(i as int, full.len() as int);
                assert(suffix[0] == full[i as int]);
                assert(suffix.drop_first() =~= full.subrange(i + 1, full.len() as int));
            }
            if str_eq(self.translations[i].0.as_str(), key) {
                return self.translations[i].1.clone();
            }
            i = i + 1;
        }
        proof {
            assert(full.subrange(full.len() as int, full.len() as int) =~= Seq::<(
                String,
                String,
            )>::empty());
        }
        key.to_owned()
    }

    /// All translations of the current language, as a map.
    pub fn get_all(&self) -> (r: HashMap<String, String>) {
        let mut m: HashMap<String, String> = HashMap::new();
        let mut i: usize = 0;
        while i < self.translations.len()
            invariant
                0 <= i <= self.translations@.len(),
            decreases self.translations@.len() - i,
        {
            let (k, v) = (self.translations[i].0.clone(), self.translations[i].1.clone());
            m.insert(k, v);
            i = i + 1;
        }
        m
    }

    /// The current language code.
    pub fn current_language(&self) -> (r: &str)
        ensures
            r@ == self.spec_lang(),
    {
        self.current_lang.as_str()
    }

    /// The supported languages, as (code, native name) pairs.
    pub fn available_languages() -> (r: Vec<(&'static str, &'static str)>)
        ensures
            r@.len() == 2,
            r@[0].0@ == "en"@,
            r@[0].1@ == "English"@,
            r@[1].0@ == "fr"@,
            r@[1].1@ == "Fran\u{00E7}ais"@,
    {
        let mut v: Vec<(&'static str, &'static str)> = Vec::new();
        v.push(("en", "English"));
        v.push(("fr", "Fran\u{00E7}ais"));
        v
    }
}

} // verus!
