//! Locales that Discord knows, and localised names for commands.

use vstd::prelude::*;

verus! {

/// A Discord locale.
#[derive(Clone, Copy, Debug, PartialEq, Eq, Structural, Hash)]
pub enum Locale {
    Indonesian,
    Danish,
    German,
    EnglishGB,
    EnglishUS,
    Spanish,
    SpanishLATAM,
    French,
    Croatian,
    Italian,
    Lithuanian,
    Hungarian,
    Dutch,
    Norwegian,
    Polish,
    PortugueseBR,
    Romanian,
    Finnish,
    Swedish,
    Vietnamese,
    Turkish,
    Czech,
    Greek,
    Bulgarian,
    Russian,
    Ukrainian,
    Hindi,
    Thai,
    ChineseChina,
    Japanese,
    ChineseTaiwan,
    Korean,
}

/// A name for one locale only, or one per locale.
///
/// The per-locale names are a list of `(locale, name)` entries; a locale
/// occurs at most once in a well-formed list (see `Localization::wf`).
#[derive(Clone, Debug)]
pub enum Localization {
    Default(String),
    PerLocale(Vec<(Locale, String)>),
}

/// The index of the first entry for `locale`, if any.
pub open spec fn find_locale(entries: Seq<(Locale, String)>, locale: Locale) -> Option<int>
    decreases entries.len(),
{
    if entries.len() == 0 {
        None
    } else if entries[0].0 == locale {
        Some(0)
    } else {
        match find_locale(entries.drop_first(), locale) {
            Some(i) => Some(i + 1),
            None => None,
        }
    }
}

/// The name used where no locale is asked for: the single name; or the
/// `EnglishUS` entry; or, without one, the first entry; or the empty string.
pub open spec fn spec_default_name(l: Localization) -> Seq<char> {
    match l {
        Localization::Default(s) => s@,
        Localization::PerLocale(m) => match find_locale(m@, Locale::EnglishUS) {
            Some(i) => m@[i].1@,
            None => if m@.len() > 0 { m@[0].1@ } else { Seq::empty() },
        },
    }
}

impl Localization {
    /// No locale has two entries.
    pub open spec fn wf(&self) -> bool {
        match self {
            Localization::Default(_) => true,
            Localization::PerLocale(m) => forall|i: int, j: int|
                0 <= i < j < m@.len() ==> m@[i].0 != m@[j].0,
        }
    }

    /// The default name (see `spec_default_name`).
    pub fn get_default(&self) -> (res: String)
        ensures
            res@ == spec_default_name(*self),
    {
        match self {
            Localization::Default(s) => s.clone(),
            Localization::PerLocale(m) => {
                let mut i: usize = 0;
                assert(m@.skip(0) =~= m@);
                while i < m.len()
                    invariant
                        i <= m@.len(),
                        *self == Localization::PerLocale(*m),
                        find_locale(m@, Locale::EnglishUS) == match find_locale(m@.skip(i as int), Locale::EnglishUS) {
                            Some(k) => Some(k + i),
                            None => None::<int>,
                        },
                    decreases m.len() - i,
                {
                    assert(m@.skip(i as int).drop_first() =~= m@.skip(i + 1));
                    assert(m@.skip(i as int)[0] == m@[i as int]);
                    if m[i].0 == Locale::EnglishUS {
                        return m[i].1.clone();
                    }
                    i = i + 1;
                }
                assert(m@.skip(i as int).len() == 0);
                if m.len() > 0 {
                    m[0].1.clone()
                } else {
                    String::new()
                }
            },
        }
    }

    /// The per-locale names, if there are any.
    pub fn get_map(&self) -> (res: Option<&Vec<(Locale, String)>>)
        ensures
            match self {
                Localization::Default(_) => res is None,
                Localization::PerLocale(m) => res == Some(m),
            },
    {
        match self {
            Localization::Default(_) => None,
            Localization::PerLocale(m) => Some(m),
        }
    }
}

/// In a well-formed list, the `EnglishUS` name is the default wherever there is one.
pub proof fn lemma_english_us_is_default(m: Vec<(Locale, String)>, i: int)
    requires
        Localization::PerLocale(m).wf(),
        0 <= i < m@.len(),
        m@[i].0 == Locale::EnglishUS,
    ensures
        spec_default_name(Localization::PerLocale(m)) == m@[i].1@,
{
    lemma_find_locale_first(m@, Locale::EnglishUS, i);
}

proof fn lemma_find_locale_first(s: Seq<(Locale, String)>, l: Locale, i: int)
    requires
        forall|a: int, b: int| 0 <= a < b < s.len() ==> s[a].0 != s[b].0,
        0 <= i < s.len(),
        s[i].0 == l,
    ensures
        find_locale(s, l) == Some(i),
    decreases s.len(),
{
    if i > 0 {
        let t = s.drop_first();
        assert forall|a: int, b: int| 0 <= a < b < t.len() implies t[a].0 != t[b].0 by {
            assert(t[a] == s[a + 1] && t[b] == s[b + 1]);
        }
        assert(s[0].0 != s[i].0);
        lemma_find_locale_first(t, l, i - 1);
    }
}

} // verus!
