//! Responses to interactions, with setters for their data and a builder.

use vstd::prelude::*;
use vstd::string::*;

use twilight_model::channel::message::AllowedMentions;
use twilight_model::http::attachment::Attachment;
use twilight_model::poll::Poll;

use super::component::Component;
use super::embed::Embed;
use super::option::CommandOptionChoice;

verus! {

/// The bit of the `EPHEMERAL` message flag.
pub const EPHEMERAL: u64 = 64;

/// The kind of an interaction response.
#[derive(Clone, Copy, Debug, PartialEq, Eq, Structural)]
pub enum InteractionResponseType {
    Pong,
    ChannelMessageWithSource,
    DeferredChannelMessageWithSource,
    DeferredUpdateMessage,
    UpdateMessage,
    ApplicationCommandAutocompleteResult,
    Modal,
    PremiumRequired,
}

/// The data of an interaction response. `flags` holds the message-flag bits.
pub struct InteractionResponseData {
    pub allowed_mentions: Option<AllowedMentions>,
    pub attachments: Option<Vec<Attachment>>,
    pub choices: Option<Vec<CommandOptionChoice>>,
    pub components: Option<Vec<Component>>,
    pub content: Option<String>,
    pub custom_id: Option<String>,
    pub embeds: Option<Vec<Embed>>,
    pub flags: Option<u64>,
    pub title: Option<String>,
    pub tts: Option<bool>,
    pub poll: Option<Poll>,
}

/// Data with nothing set.
pub open spec fn empty_data() -> InteractionResponseData {
    InteractionResponseData {
        allowed_mentions: None,
        attachments: None,
        choices: None,
        components: None,
        content: None,
        custom_id: None,
        embeds: None,
        flags: None,
        title: None,
        tts: None,
        poll: None,
    }
}

/// The data of a response, or data with nothing set where it has none.
pub open spec fn data_or_empty(data: Option<InteractionResponseData>) -> InteractionResponseData {
    match data {
        Some(d) => d,
        None => empty_data(),
    }
}

/// Whether `r` is a response of `kind` whose only data is the content `content`.
pub open spec fn is_content_response(r: InteractionResponse, kind: InteractionResponseType, content: Seq<char>) -> bool {
    &&& r.kind == kind
    &&& r.data matches Some(d)
    &&& d.content matches Some(c) && c@ == content
    &&& d == (InteractionResponseData { content: d.content, ..empty_data() })
}

/// Whether `r` is an ephemeral response of `kind` whose only other data is
/// the content `content`.
pub open spec fn is_ephemeral_content_response(r: InteractionResponse, kind: InteractionResponseType, content: Seq<char>) -> bool {
    &&& r.kind == kind
    &&& r.data matches Some(d)
    &&& d.content matches Some(c) && c@ == content
    &&& d.flags == Some(EPHEMERAL)
    &&& d == (InteractionResponseData { content: d.content, flags: d.flags, ..empty_data() })
}

/// Whether `r` is a response of `kind` whose only data is one embed (and
/// the ephemeral flag, where `ephemeral`).
pub open spec fn is_single_embed_response(r: InteractionResponse, kind: InteractionResponseType, ephemeral: bool) -> bool {
    &&& r.kind == kind
    &&& r.data matches Some(d)
    &&& d.embeds matches Some(es) && es@.len() == 1
    &&& d.flags == if ephemeral { Some(EPHEMERAL) } else { None }
    &&& d == (InteractionResponseData { flags: d.flags, embeds: d.embeds, ..empty_data() })
}

/// The first embed of a response.
pub open spec fn single_embed(r: InteractionResponse) -> Embed {
    r.data->0.embeds->0@[0]
}

impl InteractionResponseData {
    pub fn empty() -> (res: Self)
        ensures
            res == empty_data(),
    {
        InteractionResponseData {
            allowed_mentions: None,
            attachments: None,
            choices: None,
            components: None,
            content: None,
            custom_id: None,
            embeds: None,
            flags: None,
            title: None,
            tts: None,
            poll: None,
        }
    }
}

/// A response to an interaction.
pub struct InteractionResponse {
    pub kind: InteractionResponseType,
    pub data: Option<InteractionResponseData>,
}

/// What an edit of the original response sends: its content, embeds and
/// components.
pub struct InteractionUpdateResponse {
    pub content: Option<String>,
    pub embeds: Option<Vec<Embed>>,
    pub components: Option<Vec<Component>>,
}

/// The component list after pushing `c` onto `components`.
pub open spec fn components_after_push(components: Option<Vec<Component>>, c: Component) -> Seq<Component> {
    match components {
        Some(v) => v@.push(c),
        None => seq![c],
    }
}

impl InteractionResponse {
    /// A response of `kind` without data.
    pub fn new(kind: InteractionResponseType) -> (res: Self)
        ensures
            res.kind == kind,
            res.data is None,
    {
        InteractionResponse { kind: kind, data: None }
    }

    /// A channel message without data.
    pub fn empty() -> (res: Self)
        ensures
            res.kind == InteractionResponseType::ChannelMessageWithSource,
            res.data is None,
    {
        InteractionResponse::new(InteractionResponseType::ChannelMessageWithSource)
    }

    /// The content, embeds and components of the response, for an edit.
    pub fn as_update(self) -> (res: InteractionUpdateResponse)
        ensures
            match self.data {
                None => res.content is None && res.embeds is None && res.components is None,
                Some(d) => res.content == d.content && res.embeds == d.embeds && res.components == d.components,
            },
    {
        match self.data {
            None => InteractionUpdateResponse { content: None, embeds: None, components: None },
            Some(data) => InteractionUpdateResponse {
                content: data.content,
                embeds: data.embeds,
                components: data.components,
            },
        }
    }

    fn take_data(&mut self) -> (res: InteractionResponseData)
        ensures
            res == data_or_empty(old(self).data),
            final(self).data is None,
            final(self).kind == old(self).kind,
    {
        match self.data.take() {
            Some(d) => d,
            None => InteractionResponseData::empty(),
        }
    }

    pub fn set_kind(&mut self, kind: InteractionResponseType)
        ensures
            final(self).kind == kind,
            final(self).data == old(self).data,
    {
        self.kind = kind;
    }

    pub fn set_content(&mut self, content: String)
        ensures
            final(self).kind == old(self).kind,
            final(self).data == Some(InteractionResponseData { content: Some(content), ..data_or_empty(old(self).data) }),
    {
        let mut d = self.take_data();
        d.content = Some(content);
        self.data = Some(d);
    }

    pub fn set_components(&mut self, components: Vec<Component>)
        ensures
            final(self).kind == old(self).kind,
            final(self).data == Some(InteractionResponseData { components: Some(components), ..data_or_empty(old(self).data) }),
    {
        let mut d = self.take_data();
        d.components = Some(components);
        self.data = Some(d);
    }

    /// Appends a component, starting the list where there is none.
    pub fn push_component(&mut self, component: Component)
        ensures
            final(self).kind == old(self).kind,
            final(self).data matches Some(d) && d.components matches Some(c)
                && c@ == components_after_push(data_or_empty(old(self).data).components, component)
                && d == (InteractionResponseData { components: d.components, ..data_or_empty(old(self).data) }),
    {
        let mut d = self.take_data();
        match d.components.take() {
            Some(mut c) => {
                c.push(component);
                d.components = Some(c);
            },
            None => {
                let mut c = Vec::new();
                c.push(component);
                d.components = Some(c);
            },
        }
        self.data = Some(d);
    }

    pub fn set_embeds(&mut self, embeds: Vec<Embed>)
        ensures
            final(self).kind == old(self).kind,
            final(self).data == Some(InteractionResponseData { embeds: Some(embeds), ..data_or_empty(old(self).data) }),
    {
        let mut d = self.take_data();
        d.embeds = Some(embeds);
        self.data = Some(d);
    }

    /// Adds the `EPHEMERAL` flag to the flags already set.
    pub fn set_ephemeral(&mut self)
        ensures
            final(self).kind == old(self).kind,
            final(self).data == Some(InteractionResponseData {
                flags: Some(match data_or_empty(old(self).data).flags {
                    Some(f) => f | EPHEMERAL,
                    None => EPHEMERAL,
                }),
                ..data_or_empty(old(self).data)
            }),
    {
        let mut d = self.take_data();
        let flags = match d.flags {
            Some(f) => f,
            None => 0,
        };
        assert(0u64 | 64u64 == 64u64) by (bit_vector);
        d.flags = Some(flags | EPHEMERAL);
        self.data = Some(d);
    }

    pub fn set_tts(&mut self, tts: bool)
        ensures
            final(self).kind == old(self).kind,
            final(self).data == Some(InteractionResponseData { tts: Some(tts), ..data_or_empty(old(self).data) }),
    {
        let mut d = self.take_data();
        d.tts = Some(tts);
        self.data = Some(d);
    }

    pub fn set_allowed_mentions(&mut self, mentions: AllowedMentions)
        ensures
            final(self).kind == old(self).kind,
            final(self).data == Some(InteractionResponseData { allowed_mentions: Some(mentions), ..data_or_empty(old(self).data) }),
    {
        let mut d = self.take_data();
        d.allowed_mentions = Some(mentions);
        self.data = Some(d);
    }

    pub fn set_attachments(&mut self, attachments: Vec<Attachment>)
        ensures
            final(self).kind == old(self).kind,
            final(self).data == Some(InteractionResponseData { attachments: Some(attachments), ..data_or_empty(old(self).data) }),
    {
        let mut d = self.take_data();
        d.attachments = Some(attachments);
        self.data = Some(d);
    }

    pub fn set_choices(&mut self, choices: Vec<CommandOptionChoice>)
        ensures
            final(self).kind == old(self).kind,
            final(self).data == Some(InteractionResponseData { choices: Some(choices), ..data_or_empty(old(self).data) }),
    {
        let mut d = self.take_data();
        d.choices = Some(choices);
        self.data = Some(d);
    }

    pub fn set_custom_id(&mut self, id: String)
        ensures
            final(self).kind == old(self).kind,
            final(self).data == Some(InteractionResponseData { custom_id: Some(id), ..data_or_empty(old(self).data) }),
    {
        let mut d = self.take_data();
        d.custom_id = Some(id);
        self.data = Some(d);
    }

    pub fn set_title(&mut self, title: String)
        ensures
            final(self).kind == old(self).kind,
            final(self).data == Some(InteractionResponseData { title: Some(title), ..data_or_empty(old(self).data) }),
    {
        let mut d = self.take_data();
        d.title = Some(title);
        self.data = Some(d);
    }

    pub fn set_poll(&mut self, poll: Poll)
        ensures
            final(self).kind == old(self).kind,
            final(self).data == Some(InteractionResponseData { poll: Some(poll), ..data_or_empty(old(self).data) }),
    {
        let mut d = self.take_data();
        d.poll = Some(poll);
        self.data = Some(d);
    }
}

/// Setting the ephemeral flag twice is the same as setting it once, and it
/// keeps every other flag bit.
pub proof fn lemma_ephemeral_idempotent(flags: u64)
    ensures
        (flags | EPHEMERAL) | EPHEMERAL == flags | EPHEMERAL,
        (flags | EPHEMERAL) & EPHEMERAL == EPHEMERAL,
        (flags | EPHEMERAL) & !EPHEMERAL == flags & !EPHEMERAL,
{
    assert((flags | 64u64) | 64u64 == flags | 64u64) by (bit_vector);
    assert((flags | 64u64) & 64u64 == 64u64) by (bit_vector);
    assert((flags | 64u64) & !64u64 == flags & !64u64) by (bit_vector);
}

/// Builds an interaction response step by step.
pub struct ResponseBuilder {
    pub response: InteractionResponse,
}

impl ResponseBuilder {
    pub fn new(kind: InteractionResponseType) -> (res: Self)
        ensures
            res.response.kind == kind,
            res.response.data is None,
    {
        ResponseBuilder { response: InteractionResponse::new(kind) }
    }

    pub fn from_response(response: InteractionResponse) -> (res: Self)
        ensures
            res.response == response,
    {
        ResponseBuilder { response: response }
    }

    pub fn content(self, content: String) -> (res: Self)
        ensures
            res.response.kind == self.response.kind,
            res.response.data == Some(InteractionResponseData { content: Some(content), ..data_or_empty(self.response.data) }),
    {
        let mut b = self;
        b.response.set_content(content);
        b
    }

    pub fn components(self, components: Vec<Component>) -> (res: Self)
        ensures
            res.response.kind == self.response.kind,
            res.response.data == Some(InteractionResponseData { components: Some(components), ..data_or_empty(self.response.data) }),
    {
        let mut b = self;
        b.response.set_components(components);
        b
    }

    pub fn push_component(self, component: Component) -> (res: Self)
        ensures
            res.response.kind == self.response.kind,
            res.response.data matches Some(d) && d.components matches Some(c)
                && c@ == components_after_push(data_or_empty(self.response.data).components, component)
                && d == (InteractionResponseData { components: d.components, ..data_or_empty(self.response.data) }),
    {
        let mut b = self;
        b.response.push_component(component);
        b
    }

    pub fn embeds(self, embeds: Vec<Embed>) -> (res: Self)
        ensures
            res.response.kind == self.response.kind,
            res.response.data == Some(InteractionResponseData { embeds: Some(embeds), ..data_or_empty(self.response.data) }),
    {
        let mut b = self;
        b.response.set_embeds(embeds);
        b
    }

    pub fn ephemeral(self) -> (res: Self)
        ensures
            res.response.kind == self.response.kind,
            res.response.data == Some(InteractionResponseData {
                flags: Some(match data_or_empty(self.response.data).flags {
                    Some(f) => f | EPHEMERAL,
                    None => EPHEMERAL,
                }),
                ..data_or_empty(self.response.data)
            }),
    {
        let mut b = self;
        b.response.set_ephemeral();
        b
    }

    pub fn tts(self, tts: bool) -> (res: Self)
        ensures
            res.response.kind == self.response.kind,
            res.response.data == Some(InteractionResponseData { tts: Some(tts), ..data_or_empty(self.response.data) }),
    {
        let mut b = self;
        b.response.set_tts(tts);
        b
    }

    pub fn allowed_mentions(self, mentions: AllowedMentions) -> (res: Self)
        ensures
            res.response.kind == self.response.kind,
            res.response.data == Some(InteractionResponseData { allowed_mentions: Some(mentions), ..data_or_empty(self.response.data) }),
    {
        let mut b = self;
        b.response.set_allowed_mentions(mentions);
        b
    }

    pub fn attachments(self, attachments: Vec<Attachment>) -> (res: Self)
        ensures
            res.response.kind == self.response.kind,
            res.response.data == Some(InteractionResponseData { attachments: Some(attachments), ..data_or_empty(self.response.data) }),
    {
        let mut b = self;
        b.response.set_attachments(attachments);
        b
    }

    pub fn choices(self, choices: Vec<CommandOptionChoice>) -> (res: Self)
        ensures
            res.response.kind == self.response.kind,
            res.response.data == Some(InteractionResponseData { choices: Some(choices), ..data_or_empty(self.response.data) }),
    {
        let mut b = self;
        b.response.set_choices(choices);
        b
    }

    pub fn custom_id(self, id: String) -> (res: Self)
        ensures
            res.response.kind == self.response.kind,
            res.response.data == Some(InteractionResponseData { custom_id: Some(id), ..data_or_empty(self.response.data) }),
    {
        let mut b = self;
        b.response.set_custom_id(id);
        b
    }

    pub fn title(self, title: String) -> (res: Self)
        ensures
            res.response.kind == self.response.kind,
            res.response.data == Some(InteractionResponseData { title: Some(title), ..data_or_empty(self.response.data) }),
    {
        let mut b = self;
        b.response.set_title(title);
        b
    }

    pub fn poll(self, poll: Poll) -> (res: Self)
        ensures
            res.response.kind == self.response.kind,
            res.response.data == Some(InteractionResponseData { poll: Some(poll), ..data_or_empty(self.response.data) }),
    {
        let mut b = self;
        b.response.set_poll(poll);
        b
    }

    /// The response built.
    pub fn build(self) -> (res: InteractionResponse)
        ensures
            res == self.response,
    {
        self.response
    }
}

} // verus!
