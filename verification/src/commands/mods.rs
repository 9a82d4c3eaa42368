//! The `mods` command, for moderators, with a name in English and in Italian.

use vstd::prelude::*;
use vstd::string::*;

use crate::discord::locale::{Locale, Localization};

verus! {

/// The `mods` command.
pub struct Mods {}

impl Mods {
    /// `mods` in American English, `moderatori` in Italian.
    pub fn name(&self) -> (res: Localization)
        ensures
            res.wf(),
            res matches Localization::PerLocale(m) && m@.len() == 2
                && m@[0].0 == Locale::EnglishUS && m@[0].1@ == "mods"@
                && m@[1].0 == Locale::Italian && m@[1].1@ == "moderatori"@,
    {
        let mut m = Vec::new();
        m.push((Locale::EnglishUS, "mods".to_owned()));
        m.push((Locale::Italian, "moderatori".to_owned()));
        Localization::PerLocale(m)
    }

    pub fn description(&self) -> (res: Localization)
        ensures
            res matches Localization::Default(d) && d@ == "Set di comandi dedicati ai moderatori"@,
    {
        Localization::Default("Set di comandi dedicati ai moderatori".to_owned())
    }
}

} // verus!
