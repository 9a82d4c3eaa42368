//! Tracks which voice channel each member sits in, so that every voice state
//! update can carry the channel the member was in before.

use vstd::prelude::*;
use vstd::string::*;

use super::middleware::{Metadata, MiddlewareResponse};
use crate::text::{decimal, u64_to_decimal, push_char};

verus! {

#[verifier::external_type_specification]
#[verifier::external_body]
#[verifier::reject_recursive_types(K)]
#[verifier::reject_recursive_types(V)]
#[verifier::reject_recursive_types(S)]
pub struct ExDashMap<K, V, S>(dashmap::DashMap<K, V, S>);

/// The entries of a map from `(guild, user)` to voice channel.
pub uninterp spec fn voice_channels(states: VoiceStates) -> Map<(u64, u64), u64>;

/// The map that the middleware keeps, from `(guild, user)` to voice channel.
pub type VoiceStates = dashmap::DashMap<(u64, u64), u64>;

/// An empty map, from `DashMap::new`.
#[verifier::external_body]
fn voice_states_new() -> (res: VoiceStates)
    ensures
        voice_channels(res).is_empty(),
{
    dashmap::DashMap::new()
}

/// The channel stored for `key`, from `DashMap::get`.
#[verifier::external_body]
fn voice_states_get(states: &VoiceStates, key: (u64, u64)) -> (res: Option<u64>)
    ensures
        res == (if voice_channels(*states).contains_key(key) {
            Some(voice_channels(*states)[key])
        } else {
            None
        }),
{
    states.get(&key).map(|entry| *entry.value())
}

/// Stores `channel` for `key` with `DashMap::insert`, replacing any earlier one.
#[verifier::external_body]
fn voice_states_insert(states: &mut VoiceStates, key: (u64, u64), channel: u64)
    ensures
        voice_channels(*final(states)) == voice_channels(*old(states)).insert(key, channel),
{
    states.insert(key, channel);
}

/// Drops the entry for `key` with `DashMap::remove`.
#[verifier::external_body]
fn voice_states_remove(states: &mut VoiceStates, key: (u64, u64))
    ensures
        voice_channels(*final(states)) == voice_channels(*old(states)).remove(key),
{
    states.remove(&key);
}

/// The part of a voice state update that the middleware reads.
#[derive(Clone, Copy, Debug, PartialEq, Eq, Structural)]
pub struct VoiceUpdate {
    pub guild_id: Option<u64>,
    pub user_id: u64,
    /// The channel joined, or `None` when the member left voice.
    pub channel_id: Option<u64>,
}

/// The JSON text of a channel id (a string, as Discord ids are sent), or `null`.
pub open spec fn channel_json(channel: Option<u64>) -> Seq<char> {
    match channel {
        Some(id) => seq!['"'] + decimal(id as nat) + seq!['"'],
        None => seq!['n', 'u', 'l', 'l'],
    }
}

/// The channels known after `update`, and the channel the member was in
/// before it (`None` for an update without a guild, which changes nothing).
pub open spec fn voice_step(known: Map<(u64, u64), u64>, update: VoiceUpdate) -> (Map<(u64, u64), u64>, Option<Option<u64>>) {
    match update.guild_id {
        None => (known, None),
        Some(guild) => {
            let key = (guild, update.user_id);
            let before = if known.contains_key(key) { Some(known[key]) } else { None };
            let after = match update.channel_id {
                Some(channel) => known.insert(key, channel),
                None => known.remove(key),
            };
            (after, Some(before))
        },
    }
}

/// The middleware that remembers members' voice channels.
pub struct VoiceStateMiddleware {
    states: VoiceStates,
}

impl VoiceStateMiddleware {
    /// The channels known, by `(guild, user)`.
    pub closed spec fn channels(&self) -> Map<(u64, u64), u64> {
        voice_channels(self.states)
    }

    pub fn new() -> (res: Self)
        ensures
            res.channels() == Map::<(u64, u64), u64>::empty(),
    {
        VoiceStateMiddleware { states: voice_states_new() }
    }

    /// The middleware's name.
    pub fn name(&self) -> (res: &'static str)
        ensures
            res@ == "voice-state-metadata"@,
    {
        "voice-state-metadata"
    }

    /// Handles an event (`update` is `None` for any event that is no voice
    /// state update): records the member's new channel and attaches
    /// `before_channel_id`, the channel the member was in before. Other
    /// events, and updates outside a guild, get `null` metadata.
    pub fn execute(&mut self, update: Option<VoiceUpdate>) -> (res: MiddlewareResponse)
        ensures
            match update {
                None => final(self).channels() == old(self).channels()
                    && res matches MiddlewareResponse::SendWithMetadata(Metadata::NotObject),
                Some(u) => {
                    let (after, before) = voice_step(old(self).channels(), u);
                    &&& final(self).channels() == after
                    &&& match before {
                        None => res matches MiddlewareResponse::SendWithMetadata(Metadata::NotObject),
                        Some(b) => res matches MiddlewareResponse::SendWithMetadata(Metadata::Object(m))
                            && m@.len() == 1
                            && m@[0].0@ == "before_channel_id"@
                            && m@[0].1@ == channel_json(b),
                    }
                },
            },
    {
        let u = match update {
            None => return MiddlewareResponse::SendWithMetadata(Metadata::NotObject),
            Some(u) => u,
        };
        let guild_id = match u.guild_id {
            None => return MiddlewareResponse::SendWithMetadata(Metadata::NotObject),
            Some(g) => g,
        };
        let key = (guild_id, u.user_id);
        let previous_id = voice_states_get(&self.states, key);
        match u.channel_id {
            Some(new_id) => voice_states_insert(&mut self.states, key, new_id),
            None => voice_states_remove(&mut self.states, key),
        }
        let value = channel_json_text(previous_id);
        let mut members: Vec<(String, String)> = Vec::new();
        members.push(("before_channel_id".to_owned(), value));
        MiddlewareResponse::SendWithMetadata(Metadata::Object(members))
    }
}

/// The JSON text of a channel id, or `null`.
fn channel_json_text(channel: Option<u64>) -> (res: String)
    ensures
        res@ == channel_json(channel),
{
    match channel {
        Some(id) => {
            let mut s = String::new();
            push_char(&mut s, '"');
            let digits = u64_to_decimal(id);
            s.append(digits.as_str());
            push_char(&mut s, '"');
            s
        },
        None => {
            let mut s = String::new();
            push_char(&mut s, 'n');
            push_char(&mut s, 'u');
            push_char(&mut s, 'l');
            push_char(&mut s, 'l');
            s
        },
    }
}

/// Each update reports, as the channel before, the channel that the previous
/// update of the same member in the same guild put them in (none where that
/// update took them out of voice).
pub proof fn lemma_before_is_previous_channel(known: Map<(u64, u64), u64>, first: VoiceUpdate, second: VoiceUpdate)
    requires
        first.guild_id is Some,
        second.guild_id == first.guild_id,
        second.user_id == first.user_id,
    ensures
        voice_step(voice_step(known, first).0, second).1 == Some(first.channel_id),
{
}

/// Updates of other members leave a member's known channel as it was.
pub proof fn lemma_other_members_untouched(known: Map<(u64, u64), u64>, update: VoiceUpdate, key: (u64, u64))
    requires
        update.guild_id is None || key != (update.guild_id->0, update.user_id),
    ensures
        voice_step(known, update).0.contains_key(key) == known.contains_key(key),
        known.contains_key(key) ==> voice_step(known, update).0[key] == known[key],
{
}

/// The channels known after the updates `updates`, in order, from `known`.
pub open spec fn voice_run(known: Map<(u64, u64), u64>, updates: Seq<VoiceUpdate>) -> Map<(u64, u64), u64>
    decreases updates.len(),
{
    if updates.len() == 0 {
        known
    } else {
        voice_step(voice_run(known, updates.drop_last()), updates.last()).0
    }
}

/// Whether `update` is about the member `key` (a guild and a user).
pub open spec fn touches(update: VoiceUpdate, key: (u64, u64)) -> bool {
    update.guild_id == Some(key.0) && update.user_id == key.1
}

/// Updates that are not about the member `key` leave what is known of it
/// as it was, however many there are.
pub proof fn lemma_run_keeps_member(known: Map<(u64, u64), u64>, updates: Seq<VoiceUpdate>, key: (u64, u64))
    requires
        forall|i: int| 0 <= i < updates.len() ==> !touches(#[trigger] updates[i], key),
    ensures
        voice_run(known, updates).contains_key(key) == known.contains_key(key),
        known.contains_key(key) ==> voice_run(known, updates)[key] == known[key],
    decreases updates.len(),
{
    if updates.len() > 0 {
        let prev = updates.drop_last();
        assert forall|i: int| 0 <= i < prev.len() implies !touches(#[trigger] prev[i], key) by {
            assert(prev[i] == updates[i]);
        }
        lemma_run_keeps_member(known, prev, key);
        let last = updates.last();
        assert(!touches(updates[updates.len() - 1], key));
        lemma_other_members_untouched(voice_run(known, prev), last, key);
    }
}

/// Whatever other events came in between, an update of a member reports as
/// the channel before the channel that the member's previous update put them
/// in (none where it took them out of voice); the first update of a member
/// reports none.
pub proof fn lemma_before_over_any_history(
    known: Map<(u64, u64), u64>,
    first: VoiceUpdate,
    others: Seq<VoiceUpdate>,
    second: VoiceUpdate,
)
    requires
        first.guild_id is Some,
        touches(second, (first.guild_id->0, first.user_id)),
        forall|i: int| 0 <= i < others.len() ==> !touches(#[trigger] others[i], (first.guild_id->0, first.user_id)),
    ensures
        voice_step(voice_run(voice_step(known, first).0, others), second).1 == Some(first.channel_id),
        forall|updates: Seq<VoiceUpdate>|
            (forall|i: int| 0 <= i < updates.len() ==> !touches(#[trigger] updates[i], (first.guild_id->0, first.user_id)))
            ==> voice_step(voice_run(Map::<(u64, u64), u64>::empty(), updates), second).1 == Some(None::<u64>),
{
    let key = (first.guild_id->0, first.user_id);
    lemma_run_keeps_member(voice_step(known, first).0, others, key);
    assert forall|updates: Seq<VoiceUpdate>|
        (forall|i: int| 0 <= i < updates.len() ==> !touches(#[trigger] updates[i], (first.guild_id->0, first.user_id)))
        implies voice_step(voice_run(Map::<(u64, u64), u64>::empty(), updates), second).1 == Some(None::<u64>) by {
        lemma_run_keeps_member(Map::<(u64, u64), u64>::empty(), updates, key);
    }
}

} // verus!
