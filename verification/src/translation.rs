//! Localized string lookup: a locale-keyed set of translation tables with
//! a three-step fallback — the exact locale, the locale with its region
//! cut off, then the configured fallback locale.  A key found nowhere
//! comes back wrapped in question marks.

use vstd::prelude::*;

use crate::strutil::str_eq;

verus! {

/// One locale's translation table: (key, text) pairs; a later entry for
/// the same key overrides an earlier one.
pub struct LanguageMap(pub Vec<(String, String)>);

/// The latest entry under `key`, if any.
pub open spec fn spec_table_get(entries: Seq<(String, String)>, key: Seq<char>) -> Option<String>
    decreases entries.len(),
{
    if entries.len() == 0 {
        None
    } else if entries.last().0@ == key {
        Some(entries.last().1)
    } else {
        spec_table_get(entries.drop_last(), key)
    }
}

impl LanguageMap {
    pub fn new() -> (r: Self)
        ensures
            r.0@ == Seq::<(String, String)>::empty(),
    {
        LanguageMap(Vec::new())
    }

    /// Add one translation, overriding any earlier entry for the key.
    pub fn insert(&mut self, key: &str, text: &str)
        ensures
            final(self).0@.len() == old(self).0@.len() + 1,
            final(self).0@.drop_last() == old(self).0@,
            final(self).0@.last().0@ == key@,
            final(self).0@.last().1@ == text@,
    {
        self.0.push((key.to_owned(), text.to_owned()));
        proof {
            assert(self.0@.drop_last() =~= old(self).0@);
        }
    }

    /// Look one key up.
    pub fn get(&self, key: &str) -> (r: Option<&String>)
        ensures
            match r {
                Some(v) => spec_table_get(self.0@, key@) == Some(*v),
                None => spec_table_get(self.0@, key@) is None,
            },
    {
        let mut found: Option<usize> = None;
        let mut i: usize = 0;
        while i < self.0.len()
            invariant
                i <= self.0@.len(),
                match found {
                    Some(j) => j < i && spec_table_get(self.0@.take(i as int), key@) == Some(
                        self.0@[j as int].1,
                    ),
                    None => spec_table_get(self.0@.take(i as int), key@) is None,
                },
            decreases self.0@.len() - i,
        {
            proof {
                assert(self.0@.take(i + 1).drop_last() =~= self.0@.take(i as int));
                assert(self.0@.take(i + 1).last() == self.0@[i as int]);
            }
            if str_eq(self.0[i].0.as_str(), key) {
                found = Some(i);
            }
            i += 1;
        }
        proof {
            assert(self.0@.take(self.0@.len() as int) =~= self.0@);
        }
        match found {
            Some(j) => Some(&self.0[j].1),
            None => None,
        }
    }
}

/// The latest loaded table under `locale`, if any.
pub open spec fn spec_lang_get(langs: Seq<(String, LanguageMap)>, locale: Seq<char>) -> Option<
    LanguageMap,
>
    decreases langs.len(),
{
    if langs.len() == 0 {
        None
    } else if langs.last().0@ == locale {
        Some(langs.last().1)
    } else {
        spec_lang_get(langs.drop_last(), locale)
    }
}

/// The text `locale` carries for `key`, if that locale is loaded and has
/// the key.
pub open spec fn spec_locale_get(
    langs: Seq<(String, LanguageMap)>,
    locale: Seq<char>,
    key: Seq<char>,
) -> Option<String> {
    match spec_lang_get(langs, locale) {
        Some(table) => spec_table_get(table.0@, key),
        None => None,
    }
}

/// The index of the first dash in a locale name, if any: the point where
/// the region is cut off ("th-TH" becomes "th").
pub open spec fn spec_find_dash(s: Seq<char>) -> Option<int>
    decreases s.len(),
{
    if s.len() == 0 {
        None
    } else if s[0] == '-' {
        Some(0)
    } else {
        match spec_find_dash(s.drop_first()) {
            Some(i) => Some(i + 1),
            None => None,
        }
    }
}

/// The full lookup rule of `tr`: exact locale, then the locale without
/// its region, then the fallback locale, then the wrapped key itself.
pub open spec fn spec_tr(
    langs: Seq<(String, LanguageMap)>,
    fallback: Seq<char>,
    locale: Seq<char>,
    key: Seq<char>,
) -> Seq<char> {
    match spec_locale_get(langs, locale, key) {
        Some(v) => v@,
        None => {
            let regionless = match spec_find_dash(locale) {
                Some(i) => spec_locale_get(langs, locale.take(i), key),
                None => None,
            };
            match regionless {
                Some(v) => v@,
                None => match spec_locale_get(langs, fallback, key) {
                    Some(v) => v@,
                    None => "??"@ + key + "??"@,
                },
            }
        },
    }
}

/// The set of loaded translation tables and the fallback locale.
pub struct TranslationManager {
    langs: Vec<(String, LanguageMap)>,
    fallback: String,
}

impl TranslationManager {
    pub closed spec fn spec_langs(&self) -> Seq<(String, LanguageMap)> {
        self.langs@
    }

    pub closed spec fn spec_fallback(&self) -> Seq<char> {
        self.fallback@
    }

    pub fn new(fallback: &str) -> (r: Self)
        ensures
            r.spec_langs() == Seq::<(String, LanguageMap)>::empty(),
            r.spec_fallback() == fallback@,
    {
        TranslationManager { langs: Vec::new(), fallback: fallback.to_owned() }
    }

    /// Load one locale's table; a table loaded later under the same
    /// locale overrides an earlier one.
    pub fn insert_language(&mut self, locale: &str, table: LanguageMap)
        ensures
            final(self).spec_langs().len() == old(self).spec_langs().len() + 1,
            final(self).spec_langs().drop_last() == old(self).spec_langs(),
            final(self).spec_langs().last().0@ == locale@,
            final(self).spec_langs().last().1 == table,
            final(self).spec_fallback() == old(self).spec_fallback(),
    {
        self.langs.push((locale.to_owned(), table));
    }

    fn find_lang(&self, locale: &str) -> (r: Option<&LanguageMap>)
        ensures
            match r {
                Some(t) => spec_lang_get(self.spec_langs(), locale@) == Some(*t),
                None => spec_lang_get(self.spec_langs(), locale@) is None,
            },
    {
        let mut found: Option<usize> = None;
        let mut i: usize = 0;
        while i < self.langs.len()
            invariant
                i <= self.langs@.len(),
                match found {
                    Some(j) => j < i && spec_lang_get(self.langs@.take(i as int), locale@) == Some(
                        self.langs@[j as int].1,
                    ),
                    None => spec_lang_get(self.langs@.take(i as int), locale@) is None,
                },
            decreases self.langs@.len() - i,
        {
            proof {
                assert(self.langs@.take(i + 1).drop_last() =~= self.langs@.take(i as int));
                assert(self.langs@.take(i + 1).last() == self.langs@[i as int]);
            }
            if str_eq(self.langs[i].0.as_str(), locale) {
                found = Some(i);
            }
            i += 1;
        }
        proof {
            assert(self.langs@.take(self.langs@.len() as int) =~= self.langs@);
        }
        match found {
            Some(j) => Some(&self.langs[j].1),
            None => None,
        }
    }

    fn locale_get(&self, locale: &str, key: &str) -> (r: Option<&String>)
        ensures
            match r {
                Some(v) => spec_locale_get(self.spec_langs(), locale@, key@) == Some(*v),
                None => spec_locale_get(self.spec_langs(), locale@, key@) is None,
            },
    {
        match self.find_lang(locale) {
            Some(table) => table.get(key),
            None => None,
        }
    }

    fn find_dash(s: &str) -> (r: Option<usize>)
        ensures
            match r {
                Some(i) => i < s@.len() && spec_find_dash(s@) == Some(i as int),
                None => spec_find_dash(s@) is None,
            },
    {
        let len = s.unicode_len();
        let mut i: usize = 0;
        proof {
            assert(s@.skip(0) =~= s@);
        }
        while i < len
            invariant
                i <= len == s@.len(),
                spec_find_dash(s@) == match spec_find_dash(s@.skip(i as int)) {
                    Some(j) => Some(j + i),
                    None => None::<int>,
                },
            decreases len - i,
        {
            proof {
                assert(s@.skip(i as int)[0] == s@[i as int]);
                assert(s@.skip(i as int).drop_first() =~= s@.skip(i + 1));
            }
            if s.get_char(i) == '-' {
                return Some(i);
            }
            i += 1;
        }
        proof {
            assert(s@.skip(len as int).len() == 0);
        }
        None
    }

    /// Look `key` up for `locale`: the exact locale first, then the
    /// locale with its region cut off, then the fallback locale; a key
    /// found nowhere comes back wrapped in question marks.
    pub fn tr(&self, locale: &str, key: &str) -> (r: String)
        ensures
            r@ == spec_tr(self.spec_langs(), self.spec_fallback(), locale@, key@),
    {
        if let Some(v) = self.locale_get(locale, key) {
            return v.clone();
        }
        if let Some(dash) = Self::find_dash(locale) {
            let code = locale.substring_char(0, dash);
            proof {
                assert(code@ =~= locale@.take(spec_find_dash(locale@)->Some_0));
            }
            if let Some(v) = self.locale_get(code, key) {
                return v.clone();
            }
        }
        if let Some(v) = self.locale_get(self.fallback.as_str(), key) {
            return v.clone();
        }
        let mut out = "??".to_owned();
        out.append(key);
        out.append("??");
        out
    }
}

} // verus!
