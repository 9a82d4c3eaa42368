//! The description of a slash command that is sent to Discord when the
//! commands are registered: its own options, then one option per subcommand.

use vstd::prelude::*;

use super::command::CommandType;
use super::option::{CommandOption, CommandOptionType};

verus! {

/// Where a command can be installed.
#[derive(Clone, Copy, Debug, PartialEq, Eq, Structural)]
pub enum IntegrationType {
    GuildInstall,
    UserInstall,
}

/// What a command says of itself.
pub struct CommandInfo {
    pub name: String,
    pub description: String,
    pub options: Vec<CommandOption>,
    pub integration_types: Vec<IntegrationType>,
    /// The permission bits a member needs by default, if any.
    pub default_member_permissions: Option<u64>,
}

/// A command as Discord registers it.
pub struct ApplicationCommand {
    pub name: String,
    pub description: String,
    pub options: Vec<CommandOption>,
    pub kind: CommandType,
    pub default_member_permissions: Option<u64>,
    pub integration_types: Option<Vec<IntegrationType>>,
    pub version: u64,
}

/// The option that stands for the subcommand `sub`.
pub open spec fn subcommand_option(sub: CommandInfo) -> CommandOption {
    CommandOption {
        kind: CommandOptionType::SubCommand,
        name: sub.name,
        description: sub.description,
        options: Some(sub.options),
        autocomplete: None,
        channel_types: None,
        choices: None,
        required: None,
    }
}

/// Describes `command`, with subcommands `subcommands`, for registration: a
/// chat-input command whose options are its own followed by one subcommand
/// option per subcommand; integration types only where it lists any.
pub fn serialize_command(command: CommandInfo, subcommands: Vec<CommandInfo>) -> (res: ApplicationCommand)
    ensures
        res.name == command.name,
        res.description == command.description,
        res.options@ == command.options@ + subcommands@.map_values(|s: CommandInfo| subcommand_option(s)),
        res.kind == CommandType::ChatInput,
        res.default_member_permissions == command.default_member_permissions,
        res.integration_types == if command.integration_types@.len() == 0 {
            None
        } else {
            Some(command.integration_types)
        },
        res.version == 1,
        forall|k: int| 0 <= k < subcommands@.len() ==> {
            let o = #[trigger] res.options@[command.options@.len() + k];
            &&& o.kind == CommandOptionType::SubCommand
            &&& o.name == subcommands@[k].name
            &&& o.description == subcommands@[k].description
            &&& o.options == Some(subcommands@[k].options)
        },
{
    let CommandInfo { name, description, options, integration_types, default_member_permissions } = command;
    let mut all_options = options;
    let ghost own = all_options@;
    let mut subs = subcommands;
    let ghost all_subs = subs@;
    assert(all_subs.skip(0) =~= all_subs);
    assert(all_subs.take(0).map_values(|s: CommandInfo| subcommand_option(s)) =~= Seq::<CommandOption>::empty());
    assert(own + Seq::<CommandOption>::empty() =~= own);
    while subs.len() > 0
        invariant
            subs@.len() <= all_subs.len(),
            subs@ == all_subs.skip(all_subs.len() - subs@.len()),
            all_options@ == own + all_subs.take(all_subs.len() - subs@.len()).map_values(|s: CommandInfo| subcommand_option(s)),
        decreases subs@.len(),
    {
        let ghost k = all_subs.len() - subs@.len();
        let sub = subs.remove(0);
        assert(sub == all_subs[k]);
        assert(subs@ =~= all_subs.skip(k + 1));
        let CommandInfo { name: sname, description: sdescription, options: soptions, .. } = sub;
        all_options.push(CommandOption {
            kind: CommandOptionType::SubCommand,
            name: sname,
            description: sdescription,
            options: Some(soptions),
            autocomplete: None,
            channel_types: None,
            choices: None,
            required: None,
        });
        assert(all_subs.take(k + 1).map_values(|s: CommandInfo| subcommand_option(s))
            =~= all_subs.take(k).map_values(|s: CommandInfo| subcommand_option(s)).push(subcommand_option(all_subs[k])));
    }
    assert(all_subs.take(all_subs.len() as int) =~= all_subs);
    let itypes = if integration_types.len() == 0 {
        None
    } else {
        Some(integration_types)
    };
    ApplicationCommand {
        name: name,
        description: description,
        options: all_options,
        kind: CommandType::ChatInput,
        default_member_permissions: default_member_permissions,
        integration_types: itypes,
        version: 1,
    }
}

/// Each subcommand of a registered command is the option at the place
/// after the command's own options that matches its place among the
/// subcommands: a subcommand option with the subcommand's name and
/// description, carrying exactly the subcommand's own options.
pub proof fn lemma_subcommand_options(own: Seq<CommandOption>, subcommands: Seq<CommandInfo>, k: int)
    requires
        0 <= k < subcommands.len(),
    ensures
        ({
            let o = (own + subcommands.map_values(|s: CommandInfo| subcommand_option(s)))[own.len() + k];
            &&& o.kind == CommandOptionType::SubCommand
            &&& o.name == subcommands[k].name
            &&& o.description == subcommands[k].description
            &&& o.options == Some(subcommands[k].options)
        }),
{
}

} // verus!
