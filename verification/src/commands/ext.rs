//! The `ext` command: lets a server set up, list, enable and disable the
//! bot's extensions (the commands other than the required ones).

use vstd::prelude::*;
use vstd::string::*;

use crate::discord::command::{CommandData, CommandOptionValue, find_option};
use crate::discord::embed::{Embed, EmbedBuilder, EmbedField, error_embed, is_error_embed, is_plain_embed};
use crate::discord::interaction::{find_name, lookup_name};
use crate::discord::member::ADMINISTRATOR_BIT;
use crate::discord::registry::IntegrationType;
use crate::error::Error;
use crate::discord::option::{ChoiceValue, CommandOption, CommandOptionType, OptionBuilder};
use crate::discord::response::{
    InteractionResponse, InteractionResponseType, ResponseBuilder, is_single_embed_response, single_embed,
};
use crate::text::{capitalize, capitalized, split_char, split_on};

verus! {

/// The commands that every server has and that are no extensions.
pub open spec fn is_required_extension(name: Seq<char>) -> bool {
    name == "ext"@ || name == "bot"@
}

/// Whether `name` is a required command.
pub fn required_extension(name: &String) -> (res: bool)
    ensures
        res == is_required_extension(name@),
{
    *name == "ext".to_owned() || *name == "bot".to_owned()
}

/// The names among `commands` that are extensions, in order.
pub open spec fn extension_names(commands: Seq<Seq<char>>) -> Seq<Seq<char>>
    decreases commands.len(),
{
    if commands.len() == 0 {
        Seq::empty()
    } else if is_required_extension(commands.last()) {
        extension_names(commands.drop_last())
    } else {
        extension_names(commands.drop_last()).push(commands.last())
    }
}

/// Whether `c` is the string choice `name`, worth `name`.
pub open spec fn choice_is(c: crate::discord::option::CommandOptionChoice, name: Seq<char>) -> bool {
    &&& c.name@ == name
    &&& c.value matches ChoiceValue::String(v) && v@ == name
}

/// The option of `ext setup`: a required string naming the extension, with
/// one choice per extension among `commands`.
pub fn setup_options(commands: &Vec<String>) -> (res: Vec<CommandOption>)
    ensures
        res@.len() == 1,
        res@[0].kind == CommandOptionType::String,
        res@[0].name@ == "extension"@,
        res@[0].description@ == "L'estensione da aggiungere"@,
        res@[0].required == Some(true),
        res@[0].autocomplete is None && res@[0].options is None && res@[0].channel_types is None,
        ({
            let names = extension_names(commands@.map_values(|c: String| c@));
            match res@[0].choices {
                Some(c) => names.len() > 0 && c@.len() == names.len() && forall|k: int| 0 <= k < c@.len() ==>
                    choice_is(#[trigger] c@[k], names[k]),
                None => names.len() == 0,
            }
        }),
{
    let mut ext = OptionBuilder::new(CommandOptionType::String, "extension".to_owned(), "L'estensione da aggiungere".to_owned())
        .required(true)
        .build();
    let ghost views = commands@.map_values(|c: String| c@);
    let mut i: usize = 0;
    while i < commands.len()
        invariant
            i <= commands@.len(),
            views == commands@.map_values(|c: String| c@),
            ext.kind == CommandOptionType::String,
            ext.name@ == "extension"@,
            ext.description@ == "L'estensione da aggiungere"@,
            ext.required == Some(true),
            ext.autocomplete is None && ext.options is None && ext.channel_types is None,
            ({
                let names = extension_names(views.take(i as int));
                match ext.choices {
                    Some(c) => names.len() > 0 && c@.len() == names.len() && forall|k: int| 0 <= k < c@.len() ==>
                        choice_is(#[trigger] c@[k], names[k]),
                    None => names.len() == 0,
                }
            }),
        decreases commands@.len() - i,
    {
        assert(views.take(i + 1).drop_last() =~= views.take(i as int));
        assert(views.take(i + 1).last() == commands@[i as int]@);
        if !required_extension(&commands[i]) {
            let ghost before = ext.choices;
            ext.add_choice(commands[i].clone(), ChoiceValue::String(commands[i].clone()));
            proof {
                let names = extension_names(views.take(i + 1));
                let c = ext.choices->0;
                assert forall|k: int| 0 <= k < c@.len() implies choice_is(#[trigger] c@[k], names[k]) by {
                    if k + 1 < c@.len() {
                        assert(c@[k] == before->0@[k]);
                    }
                }
            }
        }
        i = i + 1;
    }
    assert(views.take(commands@.len() as int) =~= views);
    let mut v = Vec::new();
    v.push(ext);
    v
}

/// The extension named in the key of its configuration: the sixth `:`-piece.
pub open spec fn spec_extension_of_key(key: Seq<char>) -> Option<Seq<char>> {
    let parts = split_on(key, ':');
    if parts.len() > 5 {
        Some(parts[5])
    } else {
        None
    }
}

/// The status of the configuration stored under `key`: `stored` is `None`
/// where no value came back, `Some(None)` where the value is no valid
/// configuration, and `Some(Some(enabled))` otherwise. An extension whose
/// value came back empty counts as enabled; a key without an extension
/// name, or an invalid value, gives no status.
pub open spec fn spec_extension_status(key: Seq<char>, stored: Option<Option<bool>>) -> Option<(Seq<char>, bool)> {
    match spec_extension_of_key(key) {
        None => None,
        Some(name) => match stored {
            None => Some((name, true)),
            Some(None) => None,
            Some(Some(enabled)) => Some((name, enabled)),
        },
    }
}

/// The status of one stored extension configuration (see `spec_extension_status`).
pub fn extension_status(key: &str, stored: Option<Option<bool>>) -> (res: Option<(String, bool)>)
    ensures
        match spec_extension_status(key@, stored) {
            Some((n, b)) => res matches Some(p) && p.0@ == n && p.1 == b,
            None => res is None,
        },
{
    let parts = split_char(key, ':');
    if parts.len() <= 5 {
        return None;
    }
    let name = parts[5].clone();
    match stored {
        None => Some((name, true)),
        Some(None) => None,
        Some(Some(enabled)) => Some((name, enabled)),
    }
}

/// The index of the status for `name`, if any.
pub open spec fn status_index(statuses: Seq<(Seq<char>, bool)>, name: Seq<char>) -> Option<int>
    decreases statuses.len(),
{
    if statuses.len() == 0 {
        None
    } else if statuses.last().0 == name {
        Some(statuses.len() - 1)
    } else {
        status_index(statuses.drop_last(), name)
    }
}

/// `statuses` with the status of `name` set to `enabled`: replaced where it
/// is there, appended where it is not.
pub open spec fn upsert_status(statuses: Seq<(Seq<char>, bool)>, name: Seq<char>, enabled: bool) -> Seq<(Seq<char>, bool)> {
    match status_index(statuses, name) {
        Some(i) => statuses.update(i, (name, enabled)),
        None => statuses.push((name, enabled)),
    }
}

/// The statuses of the stored configurations `entries` (key and stored
/// value, see `spec_extension_status`), one per extension: a later entry for
/// the same extension overrides an earlier one.
pub open spec fn statuses_of(entries: Seq<(String, Option<Option<bool>>)>) -> Seq<(Seq<char>, bool)>
    decreases entries.len(),
{
    if entries.len() == 0 {
        Seq::empty()
    } else {
        let rest = statuses_of(entries.drop_last());
        match spec_extension_status(entries.last().0@, entries.last().1) {
            Some((name, enabled)) => upsert_status(rest, name, enabled),
            None => rest,
        }
    }
}

proof fn lemma_status_index(statuses: Seq<(Seq<char>, bool)>, name: Seq<char>)
    ensures
        match status_index(statuses, name) {
            Some(i) => 0 <= i < statuses.len() && statuses[i].0 == name,
            None => forall|j: int| 0 <= j < statuses.len() ==> statuses[j].0 != name,
        },
    decreases statuses.len(),
{
    if statuses.len() > 0 {
        lemma_status_index(statuses.drop_last(), name);
        assert forall|j: int| 0 <= j < statuses.len() - 1 implies statuses[j] == statuses.drop_last()[j] by {}
    }
}

/// Whether no two statuses are for the same extension.
pub open spec fn distinct_names(statuses: Seq<(Seq<char>, bool)>) -> bool {
    forall|i: int, j: int| 0 <= i < j < statuses.len() ==> statuses[i].0 != statuses[j].0
}

/// The stored configurations give at most one status per extension.
pub proof fn lemma_statuses_distinct(entries: Seq<(String, Option<Option<bool>>)>)
    ensures
        distinct_names(statuses_of(entries)),
    decreases entries.len(),
{
    if entries.len() > 0 {
        let rest = statuses_of(entries.drop_last());
        lemma_statuses_distinct(entries.drop_last());
        match spec_extension_status(entries.last().0@, entries.last().1) {
            Some((name, enabled)) => {
                lemma_status_index(rest, name);
                let after = upsert_status(rest, name, enabled);
                match status_index(rest, name) {
                    Some(k) => {
                        assert forall|i: int, j: int| 0 <= i < j < after.len() implies after[i].0 != after[j].0 by {
                            assert(rest[i].0 != rest[j].0);
                        }
                    },
                    None => {
                        assert forall|i: int, j: int| 0 <= i < j < after.len() implies after[i].0 != after[j].0 by {
                            if j < rest.len() {
                                assert(rest[i].0 != rest[j].0);
                            }
                        }
                    },
                }
            },
            None => {},
        }
    }
}

/// The index of the status for `name` in `out`, searched from the end.
fn find_status(out: &Vec<(String, bool)>, name: &String) -> (res: Option<usize>)
    ensures
        match res {
            Some(k) => status_index(out@.map_values(|p: (String, bool)| (p.0@, p.1)), name@) == Some(k as int),
            None => status_index(out@.map_values(|p: (String, bool)| (p.0@, p.1)), name@) is None,
        },
{
    let ghost views = out@.map_values(|p: (String, bool)| (p.0@, p.1));
    proof {
        lemma_status_index(views, name@);
    }
    let mut j: usize = out.len();
    assert(views.take(j as int) =~= views);
    while j > 0
        invariant
            j <= out@.len(),
            views == out@.map_values(|p: (String, bool)| (p.0@, p.1)),
            status_index(views, name@) == status_index(views.take(j as int), name@),
        decreases j,
    {
        assert(views.take(j as int).drop_last() =~= views.take(j - 1));
        assert(views.take(j as int).last() == views[j - 1]);
        if out[j - 1].0 == *name {
            return Some(j - 1);
        }
        j = j - 1;
    }
    None
}

/// The statuses of the stored configurations (see `statuses_of`).
pub fn collect_statuses(entries: &Vec<(String, Option<Option<bool>>)>) -> (res: Vec<(String, bool)>)
    ensures
        res@.map_values(|p: (String, bool)| (p.0@, p.1)) == statuses_of(entries@),
{
    let mut out: Vec<(String, bool)> = Vec::new();
    let mut i: usize = 0;
    while i < entries.len()
        invariant
            i <= entries@.len(),
            out@.map_values(|p: (String, bool)| (p.0@, p.1)) == statuses_of(entries@.take(i as int)),
        decreases entries@.len() - i,
    {
        assert(entries@.take(i + 1).drop_last() =~= entries@.take(i as int));
        assert(entries@.take(i + 1).last() == entries@[i as int]);
        let stored = match &entries[i].1 {
            None => None,
            Some(v) => Some(*v),
        };
        assert(stored == entries@[i as int].1);
        match extension_status(entries[i].0.as_str(), stored) {
            None => {
                assert(statuses_of(entries@.take(i + 1)) == statuses_of(entries@.take(i as int)));
            },
            Some((name, enabled)) => {
                let ghost views = out@.map_values(|p: (String, bool)| (p.0@, p.1));
                proof {
                    lemma_status_index(views, name@);
                }
                assert(statuses_of(entries@.take(i + 1)) == upsert_status(views, name@, enabled));
                let found = find_status(&out, &name);
                match found {
                    Some(k) => {
                        assert(status_index(views, name@) == Some(k as int));
                        assert(upsert_status(views, name@, enabled) == views.update(k as int, (name@, enabled)));
                        out.set(k, (name, enabled));
                        assert(out@.map_values(|p: (String, bool)| (p.0@, p.1)) =~= views.update(k as int, (name@, enabled)));
                    },
                    None => {
                        assert(status_index(views, name@) is None);
                        assert(upsert_status(views, name@, enabled) == views.push((name@, enabled)));
                        out.push((name, enabled));
                        assert(out@.map_values(|p: (String, bool)| (p.0@, p.1)) =~= views.push((name@, enabled)));
                    },
                }
            },
        }
        i = i + 1;
    }
    assert(entries@.take(entries@.len() as int) =~= entries@);
    out
}

/// The line of a configured extension: `- *Name*: **enabled**` (or `disabled`).
pub open spec fn configured_line(name: Seq<char>, enabled: bool) -> Seq<char> {
    "- *"@ + capitalized(name) + "*: **"@ + (if enabled { "enabled"@ } else { "disabled"@ }) + "**\n"@
}

/// The lines of the configured extensions, in order.
pub open spec fn configured_lines(statuses: Seq<(String, bool)>) -> Seq<char>
    decreases statuses.len(),
{
    if statuses.len() == 0 {
        Seq::empty()
    } else {
        configured_lines(statuses.drop_last()) + configured_line(statuses.last().0@, statuses.last().1)
    }
}

/// Whether some status is for `name`.
pub open spec fn has_status(statuses: Seq<(String, bool)>, name: Seq<char>) -> bool {
    exists|i: int| 0 <= i < statuses.len() && statuses[i].0@ == name
}

/// The lines of the extensions among `commands` that are not configured.
pub open spec fn unused_lines(commands: Seq<String>, statuses: Seq<(String, bool)>) -> Seq<char>
    decreases commands.len(),
{
    if commands.len() == 0 {
        Seq::empty()
    } else {
        let name = commands.last()@;
        let rest = unused_lines(commands.drop_last(), statuses);
        if is_required_extension(name) || has_status(statuses, name) {
            rest
        } else {
            rest + "- *"@ + capitalized(name) + "*\n"@
        }
    }
}

/// The text of statuses one after the other is the text of the first ones
/// followed by that of the others.
proof fn lemma_configured_lines_append(a: Seq<(String, bool)>, b: Seq<(String, bool)>)
    ensures
        configured_lines(a + b) == configured_lines(a) + configured_lines(b),
    decreases b.len(),
{
    if b.len() == 0 {
        assert(a + b =~= a);
        assert(configured_lines(a) + Seq::<char>::empty() =~= configured_lines(a));
    } else {
        lemma_configured_lines_append(a, b.drop_last());
        assert((a + b).drop_last() =~= a + b.drop_last());
        assert((a + b).last() == b.last());
    }
}

/// The configured-extensions text of `ext show` holds one line per status,
/// in order: the `i`-th line starts where the lines of the statuses before it
/// end, names the extension (capitalised), and says `disabled` exactly when
/// the extension is disabled (`enabled` otherwise).
pub proof fn lemma_configured_lines_each(statuses: Seq<(String, bool)>, i: int)
    requires
        0 <= i < statuses.len(),
    ensures
        ({
            let start = configured_lines(statuses.take(i)).len() as int;
            let head = "- *"@ + capitalized(statuses[i].0@) + "*: **"@;
            let word = if statuses[i].1 { "enabled"@ } else { "disabled"@ };
            let line = head + word + "**\n"@;
            &&& configured_lines(statuses).subrange(start, start + line.len()) == line
            &&& !statuses[i].1 ==> configured_lines(statuses).subrange(
                start + head.len(),
                start + head.len() + 8,
            ) == "disabled"@
        }),
{
    reveal_strlit("disabled");
    let before = statuses.take(i);
    let upto = statuses.take(i + 1);
    let after = statuses.skip(i + 1);
    assert(upto.drop_last() =~= before);
    assert(upto.last() == statuses[i]);
    assert(upto + after =~= statuses);
    lemma_configured_lines_append(upto, after);
    let start = configured_lines(before).len() as int;
    let head = "- *"@ + capitalized(statuses[i].0@) + "*: **"@;
    let word = if statuses[i].1 { "enabled"@ } else { "disabled"@ };
    let line = head + word + "**\n"@;
    assert(configured_lines(upto) == configured_lines(before) + line);
    assert(configured_lines(statuses) == configured_lines(before) + line + configured_lines(after));
    assert(configured_lines(statuses).subrange(start, start + line.len()) =~= line);
    assert(configured_lines(statuses).subrange(start + head.len(), start + head.len() + word.len()) =~= word);
}

fn has_status_exec(statuses: &Vec<(String, bool)>, name: &String) -> (res: bool)
    ensures
        res == has_status(statuses@, name@),
{
    let mut i: usize = 0;
    while i < statuses.len()
        invariant
            i <= statuses@.len(),
            forall|j: int| 0 <= j < i ==> statuses@[j].0@ != name@,
        decreases statuses@.len() - i,
    {
        if statuses[i].0 == *name {
            return true;
        }
        i = i + 1;
    }
    false
}

/// The text listing the configured extensions.
pub fn render_configured(statuses: &Vec<(String, bool)>) -> (res: String)
    ensures
        res@ == configured_lines(statuses@),
{
    let mut out = String::new();
    let mut i: usize = 0;
    while i < statuses.len()
        invariant
            i <= statuses@.len(),
            out@ == configured_lines(statuses@.take(i as int)),
        decreases statuses@.len() - i,
    {
        assert(statuses@.take(i + 1).drop_last() =~= statuses@.take(i as int));
        out.append("- *");
        out.append(capitalize(statuses[i].0.as_str()).as_str());
        out.append("*: **");
        if statuses[i].1 {
            out.append("enabled");
        } else {
            out.append("disabled");
        }
        out.append("**\n");
        i = i + 1;
    }
    assert(statuses@.take(statuses@.len() as int) =~= statuses@);
    out
}

/// The text listing the extensions among `commands` that are not configured.
pub fn render_unused(commands: &Vec<String>, statuses: &Vec<(String, bool)>) -> (res: String)
    ensures
        res@ == unused_lines(commands@, statuses@),
{
    let mut out = String::new();
    let mut i: usize = 0;
    while i < commands.len()
        invariant
            i <= commands@.len(),
            out@ == unused_lines(commands@.take(i as int), statuses@),
        decreases commands@.len() - i,
    {
        assert(commands@.take(i + 1).drop_last() =~= commands@.take(i as int));
        if !required_extension(&commands[i]) && !has_status_exec(statuses, &commands[i]) {
            out.append("- *");
            out.append(capitalize(commands[i].as_str()).as_str());
            out.append("*\n");
        }
        i = i + 1;
    }
    assert(commands@.take(commands@.len() as int) =~= commands@);
    out
}

/// The base embed of the bot's informational messages.
pub fn default_embed() -> (res: EmbedBuilder)
    ensures
        res.0.kind@ == "rich"@,
        res.0.author is None && res.0.color is None && res.0.description is None && res.0.fields@.len() == 0
            && res.0.footer is None && res.0.image is None && res.0.provider is None && res.0.thumbnail is None
            && res.0.timestamp is None && res.0.title is None && res.0.url is None && res.0.video is None,
{
    EmbedBuilder::new()
}

/// Whether `e` is the embed of `ext show`: the base embed with a title, a
/// description and the fields `configured` and `unused` (a field only where
/// its text is not empty).
pub open spec fn is_show_embed(e: Embed, configured: Seq<char>, unused: Seq<char>) -> bool {
    &&& is_plain_embed(e)
    &&& e.title matches Some(t) && t@ == "GGsBot Extensions"@
    &&& e.description matches Some(d) && d@ == "Here is a list of enabled, disabled and available extensions"@
    &&& e.fields@.len() == (if configured.len() > 0 { 1int } else { 0 }) + (if unused.len() > 0 { 1int } else { 0 })
    &&& configured.len() > 0 ==> e.fields@[0].name@ == "Configured"@ && e.fields@[0].value@ == configured
        && !e.fields@[0].inline
    &&& unused.len() > 0 ==> e.fields@.last().name@ == "Unused"@ && e.fields@.last().value@ == unused
        && !e.fields@.last().inline
}

/// The answer of `ext show`: one ephemeral embed listing the configured
/// extensions (`statuses`) and the unused ones among `commands`.
pub fn show_response(statuses: &Vec<(String, bool)>, commands: &Vec<String>) -> (res: InteractionResponse)
    ensures
        is_single_embed_response(res, InteractionResponseType::ChannelMessageWithSource, true),
        is_show_embed(single_embed(res), configured_lines(statuses@), unused_lines(commands@, statuses@)),
{
    let configured_field = render_configured(statuses);
    let unused_field = render_unused(commands, statuses);
    let mut embed = default_embed()
        .title("GGsBot Extensions".to_owned())
        .description("Here is a list of enabled, disabled and available extensions".to_owned())
        .build();
    if configured_field.unicode_len() > 0 {
        embed.add_field("Configured".to_owned(), configured_field, false);
    }
    if unused_field.unicode_len() > 0 {
        embed.add_field("Unused".to_owned(), unused_field, false);
    }
    let mut embeds = Vec::new();
    embeds.push(embed);
    ResponseBuilder::new(InteractionResponseType::ChannelMessageWithSource)
        .embeds(embeds)
        .ephemeral()
        .build()
}


/// The extension that `ext setup` names in its `extension` option.
pub open spec fn spec_setup_extension(data: CommandData) -> Option<Seq<char>> {
    match find_option(data.options@, "extension"@) {
        Some(i) => match data.options@[i].value {
            CommandOptionValue::String(s) => Some(s@),
            _ => None,
        },
        None => None,
    }
}

/// The extension to set up and its index among the registered `commands`:
/// the `extension` option must hold a string, and that string must name a
/// registered command.
pub fn setup_target(data: &CommandData, commands: &Vec<String>) -> (res: Result<(String, usize), Error>)
    ensures
        match spec_setup_extension(*data) {
            None => res matches Err(Error::InvalidPayload(m)) && m@ == "Missing extension option"@,
            Some(ext) => match find_name(commands@, ext) {
                Some(i) => res matches Ok(p) && p.0@ == ext && p.1 == i,
                None => res matches Err(Error::InvalidPayload(m)) && m@ == "Extension "@ + ext + " not found!"@,
            },
        },
{
    proof {
        reveal_strlit("extension");
    }
    let ext = match data.get_option("extension") {
        Some(CommandOptionValue::String(ext)) => ext.clone(),
        _ => return Err(Error::InvalidPayload("Missing extension option".to_owned())),
    };
    match lookup_name(commands, ext.as_str()) {
        Some(i) => Ok((ext, i)),
        None => {
            let mut m = "Extension ".to_owned();
            m.append(ext.as_str());
            m.append(" not found!");
            Err(Error::InvalidPayload(m))
        },
    }
}

/// The ephemeral answer with one embed: `base` with `description`.
fn embed_answer(base: EmbedBuilder, description: String) -> (res: InteractionResponse)
    ensures
        is_single_embed_response(res, InteractionResponseType::ChannelMessageWithSource, true),
        single_embed(res) == (Embed { description: Some(description), ..base.0 }),
{
    let embed = base.description(description).build();
    let mut embeds = Vec::new();
    embeds.push(embed);
    let mut response = InteractionResponse::new(InteractionResponseType::ChannelMessageWithSource);
    response.set_ephemeral();
    response.set_embeds(embeds);
    response
}

/// The answer when the extension is set up already: an error embed.
pub fn already_configured_response(ext: &str) -> (res: InteractionResponse)
    ensures
        is_single_embed_response(res, InteractionResponseType::ChannelMessageWithSource, true),
        is_error_embed(single_embed(res)),
        single_embed(res).title is None && single_embed(res).fields@.len() == 0,
        single_embed(res).description matches Some(d)
            && d@ == "Extension "@ + ext@ + " is already configured for this server!"@,
{
    let mut d = "Extension ".to_owned();
    d.append(ext);
    d.append(" is already configured for this server!");
    embed_answer(error_embed(), d)
}

/// The answer when the extension was set up.
pub fn configured_response(ext: &str) -> (res: InteractionResponse)
    ensures
        is_single_embed_response(res, InteractionResponseType::ChannelMessageWithSource, true),
        is_plain_embed(single_embed(res)),
        single_embed(res).title is None && single_embed(res).fields@.len() == 0,
        single_embed(res).description matches Some(d) && d@ == "Extension "@ + ext@ + " configured successfully!"@,
{
    let mut d = "Extension ".to_owned();
    d.append(ext);
    d.append(" configured successfully!");
    embed_answer(default_embed(), d)
}

/// What `ext setup` does once it knows whether the extension's
/// configuration is stored already.
#[derive(Clone, Copy, Debug, PartialEq, Eq, Structural)]
pub enum SetupStep {
    /// Answer with `already_configured_response`; nothing is stored.
    AlreadyConfigured,
    /// Store the extension's default configuration, then run its setup hook.
    StoreDefault,
}

/// An extension is set up once: a stored configuration is left as it is.
pub fn setup_step(already_stored: bool) -> (res: SetupStep)
    ensures
        res == if already_stored { SetupStep::AlreadyConfigured } else { SetupStep::StoreDefault },
{
    if already_stored {
        SetupStep::AlreadyConfigured
    } else {
        SetupStep::StoreDefault
    }
}

/// The answer of `ext setup` after the configuration of `ext` was stored:
/// what the extension's setup hook answered, where it has one (`on_setup`),
/// else the confirmation.
pub fn setup_answer(ext: &str, on_setup: Option<Result<InteractionResponse, Error>>) -> (res: Result<InteractionResponse, Error>)
    ensures
        on_setup matches Some(r) ==> res == r,
        on_setup is None ==> (res matches Ok(x)
            && is_single_embed_response(x, InteractionResponseType::ChannelMessageWithSource, true)
            && is_plain_embed(single_embed(x)) && single_embed(x).title is None && single_embed(x).fields@.len() == 0
            && (single_embed(x).description matches Some(d) && d@ == "Extension "@ + ext@ + " configured successfully!"@)),
{
    match on_setup {
        Some(r) => r,
        None => Ok(configured_response(ext)),
    }
}

/// The `ext` command, for server administrators.
pub struct Ext {}

impl Ext {
    pub fn name(&self) -> (res: String)
        ensures
            res@ == "ext"@,
    {
        "ext".to_owned()
    }

    pub fn description(&self) -> (res: String)
        ensures
            res@ == "Gestisci i comandi del bot!"@,
    {
        "Gestisci i comandi del bot!".to_owned()
    }

    /// Installable on servers only.
    pub fn integration_types(&self) -> (res: Vec<IntegrationType>)
        ensures
            res@ == seq![IntegrationType::GuildInstall],
    {
        let mut v = Vec::new();
        v.push(IntegrationType::GuildInstall);
        v
    }

    /// The `ADMINISTRATOR` permission bit, which the command requires.
    pub fn default_member_permissions(&self) -> (res: Option<u64>)
        ensures
            res == Some(ADMINISTRATOR_BIT),
    {
        Some(ADMINISTRATOR_BIT)
    }
}

/// The `setup` subcommand of `ext`.
pub struct Setup {}

impl Setup {
    pub fn name(&self) -> (res: String)
        ensures
            res@ == "setup"@,
    {
        "setup".to_owned()
    }

    pub fn description(&self) -> (res: String)
        ensures
            res@ == "Configura un estensione del bot sul server!"@,
    {
        "Configura un estensione del bot sul server!".to_owned()
    }
}

/// The `show` subcommand of `ext`.
pub struct Show {}

impl Show {
    pub fn name(&self) -> (res: String)
        ensures
            res@ == "show"@,
    {
        "show".to_owned()
    }

    pub fn description(&self) -> (res: String)
        ensures
            res@ == "Mostra le estensioni abilitate/disabilitate o disponibili!"@,
    {
        "Mostra le estensioni abilitate/disabilitate o disponibili!".to_owned()
    }
}

} // verus!
