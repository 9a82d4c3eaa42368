//! The `nasa` command and its `apod` subcommand, which shows NASA's
//! astronomy picture of the day.

use vstd::prelude::*;
use vstd::string::*;

use crate::discord::embed::Embed;
use crate::discord::registry::IntegrationType;
use crate::discord::response::{
    InteractionResponse, InteractionResponseType, ResponseBuilder, is_single_embed_response, single_embed,
};
use crate::structs::extension::NasaExtConfig;

verus! {

/// The `nasa` command, an extension that a server sets up with a channel.
pub struct Nasa {}

impl Nasa {
    pub fn name(&self) -> (res: String)
        ensures
            res@ == "nasa"@,
    {
        "nasa".to_owned()
    }

    pub fn description(&self) -> (res: String)
        ensures
            res@ == "Gestisci i comandi del bot!"@,
    {
        "Gestisci i comandi del bot!".to_owned()
    }

    /// Installable on servers and by users.
    pub fn integration_types(&self) -> (res: Vec<IntegrationType>)
        ensures
            res@ == seq![IntegrationType::GuildInstall, IntegrationType::UserInstall],
    {
        let mut v = Vec::new();
        v.push(IntegrationType::GuildInstall);
        v.push(IntegrationType::UserInstall);
        v
    }

    /// The names of the subcommands.
    pub fn subcommands(&self) -> (res: Vec<String>)
        ensures
            res@.len() == 1,
            res@[0]@ == "apod"@,
    {
        let mut v = Vec::new();
        v.push("apod".to_owned());
        v
    }

    /// The configuration a server starts with: no channel.
    pub fn default_config(&self) -> (res: NasaExtConfig)
        ensures
            res.channel_id is None,
    {
        NasaExtConfig::default_config()
    }
}

/// The `apod` subcommand.
pub struct Apod {}

impl Apod {
    pub fn name(&self) -> (res: String)
        ensures
            res@ == "apod"@,
    {
        "apod".to_owned()
    }

    pub fn description(&self) -> (res: String)
        ensures
            res@ == "Astronomy picture of the day!"@,
    {
        "Astronomy picture of the day!".to_owned()
    }

    /// Installable on servers and by users.
    pub fn integration_types(&self) -> (res: Vec<IntegrationType>)
        ensures
            res@ == seq![IntegrationType::GuildInstall, IntegrationType::UserInstall],
    {
        let mut v = Vec::new();
        v.push(IntegrationType::GuildInstall);
        v.push(IntegrationType::UserInstall);
        v
    }

    /// The answer: the picture's embed, in a message that only the user
    /// sees when the command runs in a server (`in_guild`); in a private
    /// chat the message is not ephemeral.
    pub fn respond(&self, embed: Embed, in_guild: bool) -> (res: InteractionResponse)
        ensures
            is_single_embed_response(res, InteractionResponseType::ChannelMessageWithSource, in_guild),
            single_embed(res) == embed,
    {
        let mut embeds = Vec::new();
        embeds.push(embed);
        let builder = ResponseBuilder::new(InteractionResponseType::ChannelMessageWithSource).embeds(embeds);
        if in_guild {
            builder.ephemeral().build()
        } else {
            builder.build()
        }
    }
}

/// The `tempvc` command, which groups `new`.
pub struct Tempvc {}

impl Tempvc {
    pub fn name(&self) -> (res: String)
        ensures
            res@ == "tempvc"@,
    {
        "tempvc".to_owned()
    }

    pub fn description(&self) -> (res: String)
        ensures
            res@ == "Crea canali vocali personalizzati per te!"@,
    {
        "Crea canali vocali personalizzati per te!".to_owned()
    }

    /// The names of the subcommands.
    pub fn subcommands(&self) -> (res: Vec<String>)
        ensures
            res@.len() == 1,
            res@[0]@ == "new"@,
    {
        let mut v = Vec::new();
        v.push("new".to_owned());
        v
    }
}

} // verus!
