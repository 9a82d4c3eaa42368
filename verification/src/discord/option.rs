//! Options of slash commands (the arguments a user fills in), and a builder
//! for them.

use vstd::prelude::*;
use vstd::string::*;

use twilight_model::channel::ChannelType;

verus! {

/// The type of a command option.
#[derive(Clone, Copy, Debug, PartialEq, Eq, Structural)]
pub enum CommandOptionType {
    SubCommand,
    SubCommandGroup,
    String,
    Integer,
    Boolean,
    User,
    Channel,
    Role,
    Mentionable,
    Number,
    Attachment,
}

/// The value of a predefined choice. A number choice holds the bits of its
/// `f64`.
#[derive(Clone, Debug, PartialEq, Eq)]
pub enum ChoiceValue {
    Integer(i64),
    NumberBits(u64),
    String(String),
}

/// A predefined choice of an option.
pub struct CommandOptionChoice {
    pub name: String,
    pub value: ChoiceValue,
}

/// An option of a command.
pub struct CommandOption {
    pub autocomplete: Option<bool>,
    pub channel_types: Option<Vec<ChannelType>>,
    pub choices: Option<Vec<CommandOptionChoice>>,
    pub description: String,
    pub kind: CommandOptionType,
    pub name: String,
    pub options: Option<Vec<CommandOption>>,
    pub required: Option<bool>,
}

/// The choices after adding `choice` to `choices`.
pub open spec fn choices_after_add(choices: Option<Vec<CommandOptionChoice>>, choice: CommandOptionChoice) -> Seq<CommandOptionChoice> {
    match choices {
        Some(c) => c@.push(choice),
        None => seq![choice],
    }
}

impl CommandOption {
    /// An option of `kind` with a name and a description, and nothing else set.
    pub fn new(kind: CommandOptionType, name: String, description: String) -> (res: Self)
        ensures
            res == (CommandOption {
                kind,
                name,
                description,
                required: None,
                autocomplete: None,
                channel_types: None,
                choices: None,
                options: None,
            }),
    {
        CommandOption {
            kind: kind,
            name: name,
            description: description,
            required: None,
            autocomplete: None,
            channel_types: None,
            choices: None,
            options: None,
        }
    }

    pub fn set_required(&mut self, required: bool)
        ensures
            *final(self) == (CommandOption { required: Some(required), ..*old(self) }),
    {
        self.required = Some(required);
    }

    pub fn set_autocomplete(&mut self, autocomplete: bool)
        ensures
            *final(self) == (CommandOption { autocomplete: Some(autocomplete), ..*old(self) }),
    {
        self.autocomplete = Some(autocomplete);
    }

    /// Appends a choice, starting the list where there is none.
    pub fn add_choice(&mut self, name: String, value: ChoiceValue)
        ensures
            final(self).choices matches Some(c) && c@ == choices_after_add(
                old(self).choices,
                CommandOptionChoice { name, value },
            ),
            *final(self) == (CommandOption { choices: final(self).choices, ..*old(self) }),
    {
        let choice = CommandOptionChoice { name: name, value: value };
        match self.choices.take() {
            Some(mut c) => {
                c.push(choice);
                self.choices = Some(c);
            },
            None => {
                let mut c = Vec::new();
                c.push(choice);
                self.choices = Some(c);
            },
        }
    }
}

/// Builds a command option step by step.
pub struct OptionBuilder(pub CommandOption);

impl OptionBuilder {
    pub fn new(kind: CommandOptionType, name: String, description: String) -> (res: Self)
        ensures
            res.0 == (CommandOption {
                kind,
                name,
                description,
                required: None,
                autocomplete: None,
                channel_types: None,
                choices: None,
                options: None,
            }),
    {
        OptionBuilder(CommandOption::new(kind, name, description))
    }

    /// A builder for a string option.
    pub fn string(name: String, description: String) -> (res: Self)
        ensures
            res.0 == (CommandOption {
                kind: CommandOptionType::String,
                name,
                description,
                required: None,
                autocomplete: None,
                channel_types: None,
                choices: None,
                options: None,
            }),
    {
        Self::new(CommandOptionType::String, name, description)
    }

    /// A builder for an integer option.
    pub fn integer(name: String, description: String) -> (res: Self)
        ensures
            res.0 == (CommandOption {
                kind: CommandOptionType::Integer,
                name,
                description,
                required: None,
                autocomplete: None,
                channel_types: None,
                choices: None,
                options: None,
            }),
    {
        Self::new(CommandOptionType::Integer, name, description)
    }

    pub fn required(self, required: bool) -> (res: Self)
        ensures
            res.0 == (CommandOption { required: Some(required), ..self.0 }),
    {
        let mut b = self;
        b.0.set_required(required);
        b
    }

    pub fn autocomplete(self, autocomplete: bool) -> (res: Self)
        ensures
            res.0 == (CommandOption { autocomplete: Some(autocomplete), ..self.0 }),
    {
        let mut b = self;
        b.0.set_autocomplete(autocomplete);
        b
    }

    pub fn choice(self, name: String, value: ChoiceValue) -> (res: Self)
        ensures
            res.0.choices matches Some(c) && c@ == choices_after_add(self.0.choices, CommandOptionChoice { name, value }),
            res.0 == (CommandOption { choices: res.0.choices, ..self.0 }),
    {
        let mut b = self;
        b.0.add_choice(name, value);
        b
    }

    pub fn build(self) -> (res: CommandOption)
        ensures
            res == self.0,
    {
        self.0
    }
}

} // verus!
