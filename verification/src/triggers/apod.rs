//! The daily APOD trigger: it finds the guilds that set up the NASA
//! extension with a channel, and queues one message for each.

use vstd::prelude::*;
use vstd::string::*;

use super::trigger::CronSchedule;
use crate::structs::extension::{ExtensionConfig, NasaExtConfig};
use crate::text::{decimal, ends_with_str, lemma_decimal_digits, lemma_split_on_joined, split_char, split_on};

verus! {

/// The APOD trigger.
pub struct ApodTrigger {}

impl ApodTrigger {
    pub fn new() -> (res: Self) {
        ApodTrigger {}
    }

    pub fn name(&self) -> (res: &'static str)
        ensures
            res@ == "nasa-apod-trigger"@,
    {
        "nasa-apod-trigger"
    }

    /// Every day at 07:00.
    pub fn cron(&self) -> (res: CronSchedule)
        ensures
            res matches CronSchedule::Single(p) && p@ == "0 7 * * *"@,
    {
        CronSchedule::Single("0 7 * * *".to_owned())
    }

    /// The trigger has no condition of its own.
    pub fn should_run(&self) -> (res: bool)
        ensures
            res,
    {
        true
    }
}

/// The guild whose NASA configuration is stored under `key`: keys that end
/// in `:nasa:config` hold it, and the guild id is their second `:`-piece.
pub open spec fn spec_apod_guild_of_key(key: Seq<char>) -> Option<Seq<char>> {
    let suffix = ":nasa:config"@;
    if suffix.len() <= key.len() && key.skip(key.len() - suffix.len()) == suffix && split_on(key, ':').len() > 1 {
        Some(split_on(key, ':')[1])
    } else {
        None
    }
}

/// The guild whose NASA configuration is stored under `key`, if that key
/// holds one.
pub fn apod_guild_of_key(key: &str) -> (res: Option<String>)
    ensures
        match spec_apod_guild_of_key(key@) {
            Some(g) => res matches Some(r) && r@ == g,
            None => res is None,
        },
{
    if !ends_with_str(key, ":nasa:config") {
        return None;
    }
    let parts = split_char(key, ':');
    if parts.len() > 1 {
        let g = parts[1].clone();
        Some(g)
    } else {
        None
    }
}

/// The channel that gets the picture for a guild with `ext` stored (`None`
/// where nothing is stored): the extension must be enabled and have a channel.
pub fn apod_channel(ext: Option<ExtensionConfig<NasaExtConfig>>) -> (res: Option<String>)
    ensures
        res == match ext {
            Some(e) => if e.enabled {
                match e.config {
                    Some(c) => c.channel_id,
                    None => None,
                }
            } else {
                None
            },
            None => None,
        },
{
    let ext = match ext {
        Some(e) => e,
        None => return None,
    };
    if !ext.enabled {
        return None;
    }
    match ext.config {
        Some(c) => c.channel_id,
        None => None,
    }
}


/// A key `<a>:<b>:<rest>` (where neither `a` nor `b` holds `:`) that ends
/// in `:nasa:config` is the NASA configuration of the guild `b`, however many
/// pieces `rest` has; a key that does not end so is no NASA configuration.
pub proof fn lemma_apod_guild_is_second_piece(a: Seq<char>, b: Seq<char>, rest: Seq<char>)
    requires
        forall|j: int| 0 <= j < a.len() ==> a[j] != ':',
        forall|j: int| 0 <= j < b.len() ==> b[j] != ':',
    ensures
        ({
            let key = a + seq![':'] + b + seq![':'] + rest;
            let suffix = ":nasa:config"@;
            &&& (suffix.len() <= key.len() && key.skip(key.len() - suffix.len()) == suffix)
                ==> spec_apod_guild_of_key(key) == Some(b)
            &&& !(suffix.len() <= key.len() && key.skip(key.len() - suffix.len()) == suffix)
                ==> spec_apod_guild_of_key(key) is None
        }),
{
    let key = a + seq![':'] + b + seq![':'] + rest;
    assert(key =~= a + seq![':'] + (b + seq![':'] + rest));
    lemma_split_on_joined(a, ':', b + seq![':'] + rest);
    lemma_split_on_joined(b, ':', rest);
    assert(split_on(key, ':') == seq![a] + (seq![b] + split_on(rest, ':')));
    assert(split_on(key, ':')[1] == b);
}

/// The key that setting up the NASA extension stores in a guild's
/// namespace, `guilds:<id>:extensions:nasa:config`, names that guild.
pub proof fn lemma_apod_guild_of_setup_key(guild: u64)
    ensures
        spec_apod_guild_of_key("guilds:"@ + decimal(guild as nat) + ":extensions:nasa:config"@)
            == Some(decimal(guild as nat)),
{
    reveal_strlit("guilds:");
    reveal_strlit(":extensions:nasa:config");
    reveal_strlit(":nasa:config");
    reveal_strlit("guilds");
    let d = decimal(guild as nat);
    lemma_decimal_digits(guild as nat);
    assert forall|j: int| 0 <= j < d.len() implies d[j] != ':' by {
        assert('0' <= d[j] <= '9');
    }
    let rest = "extensions:nasa:config"@;
    reveal_strlit("extensions:nasa:config");
    let key = "guilds:"@ + d + ":extensions:nasa:config"@;
    assert(key =~= "guilds"@ + seq![':'] + d + seq![':'] + rest);
    assert(key.skip(key.len() - 12) =~= ":nasa:config"@);
    lemma_apod_guild_is_second_piece("guilds"@, d, rest);
}

} // verus!
