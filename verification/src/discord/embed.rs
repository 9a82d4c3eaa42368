//! Embeds: the rich cards that the bot attaches to its messages, and a
//! builder for them.

use vstd::prelude::*;
use vstd::string::*;

use twilight_model::util::Timestamp;

use crate::traits::color::IntoColor;

verus! {

pub struct EmbedAuthor {
    pub icon_url: Option<String>,
    pub name: String,
    pub proxy_icon_url: Option<String>,
    pub url: Option<String>,
}

pub struct EmbedField {
    pub inline: bool,
    pub name: String,
    pub value: String,
}

pub struct EmbedFooter {
    pub icon_url: Option<String>,
    pub proxy_icon_url: Option<String>,
    pub text: String,
}

pub struct EmbedImage {
    pub height: Option<u64>,
    pub proxy_url: Option<String>,
    pub url: String,
    pub width: Option<u64>,
}

pub struct EmbedThumbnail {
    pub height: Option<u64>,
    pub proxy_url: Option<String>,
    pub url: String,
    pub width: Option<u64>,
}

pub struct EmbedVideo {
    pub height: Option<u64>,
    pub proxy_url: Option<String>,
    pub url: Option<String>,
    pub width: Option<u64>,
}

pub struct EmbedProvider {
    pub name: Option<String>,
    pub url: Option<String>,
}

/// An embed.
pub struct Embed {
    pub author: Option<EmbedAuthor>,
    pub color: Option<u32>,
    pub description: Option<String>,
    pub fields: Vec<EmbedField>,
    pub footer: Option<EmbedFooter>,
    pub image: Option<EmbedImage>,
    pub kind: String,
    pub provider: Option<EmbedProvider>,
    pub thumbnail: Option<EmbedThumbnail>,
    pub timestamp: Option<Timestamp>,
    pub title: Option<String>,
    pub url: Option<String>,
    pub video: Option<EmbedVideo>,
}

impl Embed {
    /// An empty embed of type `rich`.
    pub fn new() -> (res: Self)
        ensures
            res.author is None,
            res.color is None,
            res.description is None,
            res.fields@.len() == 0,
            res.footer is None,
            res.image is None,
            res.kind@ == "rich"@,
            res.provider is None,
            res.thumbnail is None,
            res.timestamp is None,
            res.title is None,
            res.url is None,
            res.video is None,
    {
        Embed {
            author: None,
            color: None,
            description: None,
            fields: Vec::new(),
            footer: None,
            image: None,
            kind: "rich".to_owned(),
            provider: None,
            thumbnail: None,
            timestamp: None,
            title: None,
            url: None,
            video: None,
        }
    }

    pub fn set_type(&mut self, kind: String)
        ensures
            *final(self) == (Embed { kind, ..*old(self) }),
    {
        self.kind = kind;
    }

    pub fn set_title(&mut self, title: String)
        ensures
            *final(self) == (Embed { title: Some(title), ..*old(self) }),
    {
        self.title = Some(title);
    }

    pub fn set_description(&mut self, description: String)
        ensures
            *final(self) == (Embed { description: Some(description), ..*old(self) }),
    {
        self.description = Some(description);
    }

    /// Sets the colour that `color` names; a value that names none (such as
    /// a malformed hex string) leaves the colour as it was.
    pub fn set_color<C: IntoColor>(&mut self, color: C)
        ensures
            *final(self) == (Embed {
                color: match color.color_value() {
                    Some(c) => Some(c),
                    None => old(self).color,
                },
                ..*old(self)
            }),
    {
        if let Some(c) = color.into_u32() {
            self.color = Some(c);
        }
    }

    /// Appends a field.
    pub fn add_field(&mut self, name: String, value: String, inline: bool)
        ensures
            final(self).fields@ == old(self).fields@.push(EmbedField { name, value, inline }),
            *final(self) == (Embed { fields: final(self).fields, ..*old(self) }),
    {
        self.fields.push(EmbedField { name: name, value: value, inline: inline });
    }

    pub fn set_footer(&mut self, text: String, icon_url: Option<String>)
        ensures
            *final(self) == (Embed {
                footer: Some(EmbedFooter { text, icon_url, proxy_icon_url: None }),
                ..*old(self)
            }),
    {
        self.footer = Some(EmbedFooter { text: text, icon_url: icon_url, proxy_icon_url: None });
    }

    pub fn set_thumbnail(&mut self, url: String)
        ensures
            *final(self) == (Embed {
                thumbnail: Some(EmbedThumbnail { url, height: None, width: None, proxy_url: None }),
                ..*old(self)
            }),
    {
        self.thumbnail = Some(EmbedThumbnail { url: url, height: None, width: None, proxy_url: None });
    }

    pub fn set_author(&mut self, name: String, icon_url: Option<String>, url: Option<String>)
        ensures
            *final(self) == (Embed {
                author: Some(EmbedAuthor { name, icon_url, url, proxy_icon_url: None }),
                ..*old(self)
            }),
    {
        self.author = Some(EmbedAuthor { name: name, icon_url: icon_url, url: url, proxy_icon_url: None });
    }

    pub fn set_url(&mut self, url: String)
        ensures
            *final(self) == (Embed { url: Some(url), ..*old(self) }),
    {
        self.url = Some(url);
    }

    pub fn set_image(&mut self, url: String)
        ensures
            *final(self) == (Embed {
                image: Some(EmbedImage { url, height: None, width: None, proxy_url: None }),
                ..*old(self)
            }),
    {
        self.image = Some(EmbedImage { url: url, height: None, width: None, proxy_url: None });
    }

    pub fn set_video(&mut self, url: String)
        ensures
            *final(self) == (Embed {
                video: Some(EmbedVideo { height: None, proxy_url: None, url: Some(url), width: None }),
                ..*old(self)
            }),
    {
        self.video = Some(EmbedVideo { height: None, proxy_url: None, url: Some(url), width: None });
    }

    pub fn set_provider(&mut self, name: String, url: Option<String>)
        ensures
            *final(self) == (Embed {
                provider: Some(EmbedProvider { name: Some(name), url }),
                ..*old(self)
            }),
    {
        self.provider = Some(EmbedProvider { name: Some(name), url: url });
    }

    pub fn set_timestamp(&mut self, timestamp: Timestamp)
        ensures
            *final(self) == (Embed { timestamp: Some(timestamp), ..*old(self) }),
    {
        self.timestamp = Some(timestamp);
    }
}

/// Builds an embed step by step.
pub struct EmbedBuilder(pub Embed);

impl EmbedBuilder {
    /// A builder for an empty `rich` embed.
    pub fn new() -> (res: Self)
        ensures
            res.0.author is None,
            res.0.color is None,
            res.0.description is None,
            res.0.fields@.len() == 0,
            res.0.footer is None,
            res.0.image is None,
            res.0.kind@ == "rich"@,
            res.0.provider is None,
            res.0.thumbnail is None,
            res.0.timestamp is None,
            res.0.title is None,
            res.0.url is None,
            res.0.video is None,
    {
        EmbedBuilder(Embed::new())
    }

    pub fn title(self, title: String) -> (res: Self)
        ensures
            res.0 == (Embed { title: Some(title), ..self.0 }),
    {
        let mut b = self;
        b.0.set_title(title);
        b
    }

    pub fn description(self, description: String) -> (res: Self)
        ensures
            res.0 == (Embed { description: Some(description), ..self.0 }),
    {
        let mut b = self;
        b.0.set_description(description);
        b
    }

    pub fn color<C: IntoColor>(self, color: C) -> (res: Self)
        ensures
            res.0 == (Embed {
                color: match color.color_value() {
                    Some(c) => Some(c),
                    None => self.0.color,
                },
                ..self.0
            }),
    {
        let mut b = self;
        b.0.set_color(color);
        b
    }

    pub fn field(self, name: String, value: String, inline: bool) -> (res: Self)
        ensures
            res.0.fields@ == self.0.fields@.push(EmbedField { name, value, inline }),
            res.0 == (Embed { fields: res.0.fields, ..self.0 }),
    {
        let mut b = self;
        b.0.add_field(name, value, inline);
        b
    }

    pub fn footer(self, text: String, icon_url: Option<String>) -> (res: Self)
        ensures
            res.0 == (Embed {
                footer: Some(EmbedFooter { text, icon_url, proxy_icon_url: None }),
                ..self.0
            }),
    {
        let mut b = self;
        b.0.set_footer(text, icon_url);
        b
    }

    pub fn thumbnail(self, url: String) -> (res: Self)
        ensures
            res.0 == (Embed {
                thumbnail: Some(EmbedThumbnail { url, height: None, width: None, proxy_url: None }),
                ..self.0
            }),
    {
        let mut b = self;
        b.0.set_thumbnail(url);
        b
    }

    pub fn author(self, name: String, icon_url: Option<String>, url: Option<String>) -> (res: Self)
        ensures
            res.0 == (Embed {
                author: Some(EmbedAuthor { name, icon_url, url, proxy_icon_url: None }),
                ..self.0
            }),
    {
        let mut b = self;
        b.0.set_author(name, icon_url, url);
        b
    }

    pub fn image(self, url: String) -> (res: Self)
        ensures
            res.0 == (Embed {
                image: Some(EmbedImage { url, height: None, width: None, proxy_url: None }),
                ..self.0
            }),
    {
        let mut b = self;
        b.0.set_image(url);
        b
    }

    pub fn timestamp(self, timestamp: Timestamp) -> (res: Self)
        ensures
            res.0 == (Embed { timestamp: Some(timestamp), ..self.0 }),
    {
        let mut b = self;
        b.0.set_timestamp(timestamp);
        b
    }

    /// The embed built.
    pub fn build(self) -> (res: Embed)
        ensures
            res == self.0,
    {
        self.0
    }
}

/// Whether `e` is the bot's base embed (`rich`, with nothing set) apart
/// from its title, description and fields.
pub open spec fn is_plain_embed(e: Embed) -> bool {
    &&& e.kind@ == "rich"@
    &&& e.author is None && e.color is None && e.footer is None && e.image is None
    &&& e.provider is None && e.thumbnail is None && e.timestamp is None && e.url is None && e.video is None
}

/// Whether `e` is the bot's error embed (`rich`, red, with an empty author)
/// apart from its title, description and fields.
pub open spec fn is_error_embed(e: Embed) -> bool {
    &&& e.kind@ == "rich"@
    &&& e.color == Some(0xff0000u32)
    &&& e.author matches Some(a) && a.name@.len() == 0 && a.icon_url is None && a.url is None
        && a.proxy_icon_url is None
    &&& e.footer is None && e.image is None && e.provider is None && e.thumbnail is None
    &&& e.timestamp is None && e.url is None && e.video is None
}

/// The base of the error embeds: red, with an empty author line.
pub fn error_embed() -> (res: EmbedBuilder)
    ensures
        res.0.color == Some(0xff0000u32),
        res.0.author matches Some(a) && a.name@.len() == 0 && a.icon_url is None && a.url is None
            && a.proxy_icon_url is None,
        res.0.kind@ == "rich"@,
        res.0.title is None && res.0.description is None && res.0.fields@.len() == 0,
        res.0.footer is None && res.0.image is None && res.0.provider is None && res.0.thumbnail is None
            && res.0.timestamp is None && res.0.url is None && res.0.video is None,
{
    let b = EmbedBuilder::new().color("#ff0000");
    proof {
        reveal_strlit("#ff0000");
        let hex = "#ff0000"@;
        let digits = hex.drop_first();
        assert(crate::traits::color::trim_start_char(digits, '#') == digits);
        assert(crate::traits::color::trim_start_char(hex, '#') == digits);
        reveal_with_fuel(crate::text::digits_value, 7);
        assert(crate::text::digits_value(digits, 16) == Some(0xff0000nat));
    }
    b.author(String::new(), None, None)
}

} // verus!
