//! How an incoming interaction is routed: by its type to a command, an
//! autocomplete handler or a component handler, and the identifiers and
//! URLs that the handlers use.

use vstd::prelude::*;
use vstd::string::*;

use super::command::{CommandData, find_subcommand, find_subcommand_like, is_subcommand_data, lemma_find_in_range};
use super::response::{InteractionResponse, InteractionResponseType};
use crate::error::Error;
use super::component::child_custom_id;
use crate::text::{decimal, lemma_split_once_joined, split_once_char, split_once_on, u64_to_decimal};

verus! {

/// The type of an interaction.
#[derive(Clone, Copy, Debug, PartialEq, Eq, Structural)]
pub enum InteractionType {
    Ping,
    ApplicationCommand,
    MessageComponent,
    ApplicationCommandAutocomplete,
    ModalSubmit,
}

/// Which handler an interaction goes to.
#[derive(Clone, Copy, Debug, PartialEq, Eq, Structural)]
pub enum InteractionRoute {
    /// Answer a ping with a pong.
    Pong,
    Autocomplete,
    Component,
    Command,
    ModalSubmit,
}

/// The handler for an interaction of `kind`.
pub fn route_interaction(kind: InteractionType) -> (res: InteractionRoute)
    ensures
        res == match kind {
            InteractionType::Ping => InteractionRoute::Pong,
            InteractionType::ApplicationCommandAutocomplete => InteractionRoute::Autocomplete,
            InteractionType::MessageComponent => InteractionRoute::Component,
            InteractionType::ApplicationCommand => InteractionRoute::Command,
            InteractionType::ModalSubmit => InteractionRoute::ModalSubmit,
        },
{
    match kind {
        InteractionType::Ping => InteractionRoute::Pong,
        InteractionType::ApplicationCommandAutocomplete => InteractionRoute::Autocomplete,
        InteractionType::MessageComponent => InteractionRoute::Component,
        InteractionType::ApplicationCommand => InteractionRoute::Command,
        InteractionType::ModalSubmit => InteractionRoute::ModalSubmit,
    }
}

/// The answer to a ping.
pub fn pong() -> (res: InteractionResponse)
    ensures
        res.kind == InteractionResponseType::Pong,
        res.data is None,
{
    InteractionResponse { kind: InteractionResponseType::Pong, data: None }
}

/// The index of the first entry of `names` equal to `name`.
pub open spec fn find_name(names: Seq<String>, name: Seq<char>) -> Option<int>
    decreases names.len(),
{
    if names.len() == 0 {
        None
    } else if names[0]@ == name {
        Some(0)
    } else {
        match find_name(names.drop_first(), name) {
            Some(i) => Some(i + 1),
            None => None,
        }
    }
}

/// The name found is in range and equal to the one searched for; where
/// none is found, no entry has that name.
pub proof fn lemma_find_name(names: Seq<String>, name: Seq<char>)
    ensures
        find_name(names, name) matches Some(i) ==> 0 <= i < names.len() && names[i]@ == name,
        find_name(names, name) is None ==> forall|i: int| 0 <= i < names.len() ==> names[i]@ != name,
    decreases names.len(),
{
    if names.len() > 0 {
        lemma_find_name(names.drop_first(), name);
        assert forall|i: int| 1 <= i < names.len() implies names[i] == names.drop_first()[i - 1] by {}
    }
}

/// Looks `name` up among `names` (the keys of a registry).
pub fn lookup_name(names: &Vec<String>, name: &str) -> (res: Option<usize>)
    ensures
        match res {
            Some(i) => find_name(names@, name@) == Some(i as int),
            None => find_name(names@, name@) is None,
        },
{
    proof {
        lemma_find_name(names@, name@);
    }
    let key = name.to_owned();
    let mut i: usize = 0;
    assert(names@.skip(0) =~= names@);
    while i < names.len()
        invariant
            i <= names@.len(),
            key@ == name@,
            find_name(names@, name@) == match find_name(names@.skip(i as int), name@) {
                Some(k) => Some(k + i),
                None => None::<int>,
            },
        decreases names@.len() - i,
    {
        assert(names@.skip(i as int).drop_first() =~= names@.skip(i + 1));
        assert(names@.skip(i as int)[0] == names@[i as int]);
        if names[i] == key {
            return Some(i);
        }
        i = i + 1;
    }
    None
}

/// `Command '<name>' not found`.
pub open spec fn command_not_found_message(name: Seq<char>) -> Seq<char> {
    "Command '"@ + name + "' not found"@
}

/// The command to run for a command (or autocomplete) interaction named
/// `name`, among the registered `commands`.
pub fn route_command(commands: &Vec<String>, name: &str) -> (res: Result<usize, Error>)
    ensures
        match find_name(commands@, name@) {
            Some(i) => res matches Ok(j) && j == i,
            None => res matches Err(Error::InvalidPayload(m)) && m@ == command_not_found_message(name@),
        },
{
    match lookup_name(commands, name) {
        Some(i) => Ok(i),
        None => {
            let mut m = "Command '".to_owned();
            m.append(name);
            m.append("' not found");
            Err(Error::InvalidPayload(m))
        },
    }
}

/// The handler for a component interaction whose custom id is `custom_id`,
/// and the target it passes on: the custom id is `<handler>:<target>`.
pub fn route_component(handlers: &Vec<String>, custom_id: &str) -> (res: Result<(usize, String), Error>)
    ensures
        match split_once_on(custom_id@, ':') {
            Some((root, target)) => match find_name(handlers@, root) {
                Some(i) => res matches Ok(p) && p.0 == i && p.1@ == target,
                None => res matches Err(Error::Generic(m)) && m@ == "Impossibile trovare il componente richiesto"@,
            },
            None => res matches Err(Error::Generic(m)) && m@ == "Impossibile trovare il componente richiesto"@,
        },
{
    if let Some((root, target)) = split_once_char(custom_id, ':') {
        if let Some(i) = lookup_name(handlers, root.as_str()) {
            return Ok((i, target));
        }
    }
    Err(Error::Generic("Impossibile trovare il componente richiesto".to_owned()))
}

/// The custom id of a child of a component (whose own id holds no `:`)
/// splits back into that component's id and the child's id, so a component
/// interaction on it reaches the component and hands it the child's id.
pub proof fn lemma_child_routes_to_parent(parent: Seq<char>, id: Seq<char>)
    requires
        forall|j: int| 0 <= j < parent.len() ==> parent[j] != ':',
    ensures
        split_once_on(child_custom_id(parent, id), ':') == Some((parent, id)),
{
    reveal_strlit(":");
    assert(parent + ":"@ + id =~= parent + seq![':'] + id);
    lemma_split_once_joined(parent, ':', id);
}

/// The response of an autocomplete handler, which must have supplied one.
pub fn require_autocomplete_response(response: Option<InteractionResponse>) -> (res: Result<InteractionResponse, Error>)
    ensures
        match response {
            Some(r) => res == Ok::<InteractionResponse, Error>(r),
            None => res matches Err(Error::InteractionFailed(m)) && m@ == "No autocomplete response supplied"@,
        },
{
    match response {
        Some(r) => Ok(r),
        None => Err(Error::InteractionFailed("No autocomplete response supplied".to_owned())),
    }
}

/// Which subcommand runs for `data` among `subcommands`, and the data it
/// gets: the name is that of the first subcommand or group, the data that of
/// the first subcommand.
pub fn route_subcommand(data: &CommandData, subcommands: &Vec<String>) -> (res: Result<(usize, CommandData), Error>)
    ensures
        match find_subcommand_like(data.options@) {
            None => res matches Err(Error::Generic(m)) && m@ == "Could not get subcommand_name"@,
            Some(n) => match find_subcommand(data.options@) {
                None => res matches Err(Error::Generic(m)) && m@ == "Could not get subcommand_data"@,
                Some(s) => match find_name(subcommands@, data.options@[n].name@) {
                    None => res matches Err(Error::Generic(m)) && m@ == "No response was created for this subcommand!"@,
                    Some(i) => res matches Ok(p) && p.0 == i && is_subcommand_data(*data, s, p.1),
                },
            },
        },
{
    proof {
        lemma_find_in_range(data.options@, Seq::empty());
    }
    let sub_name = match data.get_subcommand_name() {
        Some(n) => n,
        None => return Err(Error::Generic("Could not get subcommand_name".to_owned())),
    };
    let sub_data = match data.get_subcommand_data() {
        Some(d) => d,
        None => return Err(Error::Generic("Could not get subcommand_data".to_owned())),
    };
    match lookup_name(subcommands, sub_name) {
        Some(i) => Ok((i, sub_data)),
        None => Err(Error::Generic("No response was created for this subcommand!".to_owned())),
    }
}

/// Whether the author of an interaction is the developer: both ids are
/// known and the author's id, in decimal, is the developer's id.
pub fn is_dev(author_id: Option<u64>, developer_id: Option<String>) -> (res: bool)
    ensures
        res == (author_id matches Some(a) && developer_id matches Some(d) && d@ == decimal(a as nat)),
{
    let author = match author_id {
        Some(id) => u64_to_decimal(id),
        None => return false,
    };
    match developer_id {
        Some(id) => id == author,
        None => false,
    }
}

/// `<a><b>` for strings.
fn concat(a: &str, b: &str) -> (res: String)
    ensures
        res@ == a@ + b@,
{
    let mut s = a.to_owned();
    s.append(b);
    s
}

/// The callback URL that defers the interaction `id` with `token`.
pub fn defer_url(id: u64, token: &str) -> (res: String)
    ensures
        res@ == "https://discord.com/api/v10/interactions/"@ + decimal(id as nat) + "/"@ + token@ + "/callback"@,
{
    let mut s = "https://discord.com/api/v10/interactions/".to_owned();
    s.append(u64_to_decimal(id).as_str());
    s.append("/");
    s.append(token);
    s.append("/callback");
    s
}

/// The URL of the original response of an interaction.
pub fn edit_url(application_id: u64, token: &str) -> (res: String)
    ensures
        res@ == "https://discord.com/api/v10/webhooks/"@ + decimal(application_id as nat) + "/"@ + token@
            + "/messages/@original"@,
{
    let mut s = "https://discord.com/api/v10/webhooks/".to_owned();
    s.append(u64_to_decimal(application_id).as_str());
    s.append("/");
    s.append(token);
    s.append("/messages/@original");
    s
}

/// The URL that deletes the message of an interaction, which needs both the
/// channel and the message.
pub fn delete_url(channel_id: Option<u64>, message_id: Option<u64>) -> (res: Result<String, Error>)
    ensures
        match (channel_id, message_id) {
            (None, _) => res matches Err(Error::InteractionFailed(m)) && m@ == "Can't delete message if channel is None"@,
            (Some(_), None) => res matches Err(Error::InteractionFailed(m)) && m@ == "Message is missing!"@,
            (Some(c), Some(m)) => res matches Ok(u) && u@ == "https://discord.com/api/v10/channels/"@
                + decimal(c as nat) + "/messages/"@ + decimal(m as nat),
        },
{
    let channel = match channel_id {
        Some(c) => c,
        None => return Err(Error::InteractionFailed("Can't delete message if channel is None".to_owned())),
    };
    let message = match message_id {
        Some(m) => m,
        None => return Err(Error::InteractionFailed("Message is missing!".to_owned())),
    };
    let mut s = "https://discord.com/api/v10/channels/".to_owned();
    s.append(u64_to_decimal(channel).as_str());
    s.append("/messages/");
    s.append(u64_to_decimal(message).as_str());
    Ok(s)
}

/// The URL that posts a message in the channel `channel_id`.
pub fn channel_messages_url(channel_id: &str) -> (res: String)
    ensures
        res@ == "https://discord.com/api/v10/channels/"@ + channel_id@ + "/messages"@,
{
    let mut s = "https://discord.com/api/v10/channels/".to_owned();
    s.append(channel_id);
    s.append("/messages");
    s
}

/// The `Authorization` header of the bot: `Bot <token>`.
pub fn bot_authorization(token: &str) -> (res: String)
    ensures
        res@ == "Bot "@ + token@,
{
    concat("Bot ", token)
}

/// The body of the callback that defers an interaction: a deferred update
/// without data.
pub fn defer_response() -> (res: InteractionResponse)
    ensures
        res.kind == InteractionResponseType::DeferredUpdateMessage,
        res.data is None,
{
    InteractionResponse { kind: InteractionResponseType::DeferredUpdateMessage, data: None }
}

/// What deferring comes to, given the HTTP status of Discord's answer.
pub fn defer_result(status: u16) -> (res: Result<(), Error>)
    ensures
        200 <= status <= 299 ==> res is Ok,
        !(200 <= status <= 299) ==> (res matches Err(Error::UpstreamError(m))
            && m@ == "Discord: Failed to defer interaction"@),
{
    if 200 <= status && status <= 299 {
        Ok(())
    } else {
        Err(Error::UpstreamError("Discord: Failed to defer interaction".to_owned()))
    }
}

/// What editing the original response (or deleting the message) comes to,
/// given the HTTP status of Discord's answer, the status as text and, for an
/// edit, the body of the answer: an empty channel message on success, else
/// an upstream error naming the status (and the body, where there is one).
pub fn upstream_result(status: u16, status_text: &str, body: Option<String>) -> (res: Result<InteractionResponse, Error>)
    ensures
        200 <= status <= 299 ==> (res matches Ok(r) && r.kind == InteractionResponseType::ChannelMessageWithSource
            && r.data is None),
        !(200 <= status <= 299) ==> (res matches Err(Error::UpstreamError(m)) && m@ == "Discord API error: "@
            + status_text@ + match body {
            Some(b) => " - "@ + b@,
            None => Seq::<char>::empty(),
        }),
{
    if 200 <= status && status <= 299 {
        Ok(InteractionResponse::empty())
    } else {
        let mut m = "Discord API error: ".to_owned();
        m.append(status_text);
        match body {
            Some(b) => {
                m.append(" - ");
                m.append(b.as_str());
            },
            None => {},
        }
        Err(Error::UpstreamError(m))
    }
}

} // verus!
