//! The `hello` command: greets a user, or the author.

use vstd::prelude::*;
use vstd::string::*;

use crate::discord::command::{CommandData, CommandOptionValue, find_option};
use crate::discord::option::{CommandOption, CommandOptionType, OptionBuilder};
use crate::discord::response::{InteractionResponse, InteractionResponseType, ResponseBuilder, is_content_response};
use crate::error::Error;
use crate::pages::hello::{HelloSetupPage, is_page_response};
use crate::text::{decimal, u64_to_decimal};

verus! {

/// The `hello` command.
pub struct Hello {}

/// The greeting: of the user picked in the `user` option, or else of the author.
pub open spec fn hello_message(target: Option<u64>, author: u64) -> Seq<char> {
    match target {
        Some(id) => "Ciao <@"@ + decimal(id as nat) + ">! 👋"@,
        None => "Ciao <@"@ + decimal(author as nat) + ">, come stai? 👋"@,
    }
}

/// The user picked in the `user` option of `data`, if the option holds one.
pub open spec fn hello_target(data: CommandData) -> Option<u64> {
    match find_option(data.options@, "user"@) {
        Some(i) => match data.options@[i].value {
            CommandOptionValue::User(id) => Some(id),
            _ => None,
        },
        None => None,
    }
}

impl Hello {
    pub fn new() -> (res: Self) {
        Hello {}
    }

    pub fn name(&self) -> (res: String)
        ensures
            res@ == "hello"@,
    {
        "hello".to_owned()
    }

    pub fn description(&self) -> (res: String)
        ensures
            res@ == "Saluta qualcuno nella chat!"@,
    {
        "Saluta qualcuno nella chat!".to_owned()
    }

    /// The hook run when a server sets the command up: the first page of
    /// its setup page.
    pub fn on_setup(&self) -> (res: Option<Result<InteractionResponse, Error>>)
        ensures
            res matches Some(Ok(r)) && is_page_response(r, InteractionResponseType::ChannelMessageWithSource, 0),
    {
        let page = HelloSetupPage::new();
        Some(page.handle(None))
    }

    /// One optional `user` option.
    pub fn options(&self) -> (res: Vec<CommandOption>)
        ensures
            res@.len() == 1,
            res@[0].kind == CommandOptionType::User,
            res@[0].name@ == "user"@,
            res@[0].description@ == "L'utente da salutare"@,
            res@[0].required == Some(false),
            res@[0].autocomplete is None && res@[0].choices is None && res@[0].options is None
                && res@[0].channel_types is None,
    {
        let option = OptionBuilder::new(CommandOptionType::User, "user".to_owned(), "L'utente da salutare".to_owned())
            .required(false)
            .build();
        let mut v = Vec::new();
        v.push(option);
        v
    }

    /// Greets the user of the `user` option, or the author (`author_id`),
    /// with a channel message; an interaction without an author cannot be
    /// answered without a target.
    pub fn respond(&self, data: &CommandData, author_id: Option<u64>) -> (res: Result<InteractionResponse, Error>)
        ensures
            match (hello_target(*data), author_id) {
                (None, None) => res matches Err(Error::InteractionFailed(m)) && m@ == "Missing author"@,
                (t, a) => res matches Ok(r) && is_content_response(
                    r,
                    InteractionResponseType::ChannelMessageWithSource,
                    hello_message(t, match a { Some(x) => x, None => 0 }),
                ),
            },
    {
        let target_id = match data.get_option("user") {
            Some(CommandOptionValue::User(user)) => Some(*user),
            _ => None,
        };
        proof {
            reveal_strlit("user");
        }
        let message = match target_id {
            Some(id) => {
                let mut s = "Ciao <@".to_owned();
                s.append(u64_to_decimal(id).as_str());
                s.append(">! 👋");
                s
            },
            None => {
                let author = match author_id {
                    Some(a) => a,
                    None => return Err(Error::InteractionFailed("Missing author".to_owned())),
                };
                let mut s = "Ciao <@".to_owned();
                s.append(u64_to_decimal(author).as_str());
                s.append(">, come stai? 👋");
                s
            },
        };
        Ok(ResponseBuilder::new(InteractionResponseType::ChannelMessageWithSource).content(message).build())
    }
}

} // verus!
