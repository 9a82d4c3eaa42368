//! The data of a slash command invocation, and the helpers that find its
//! options and subcommands.

use vstd::prelude::*;
use vstd::string::*;

use super::option::CommandOptionType;

verus! {

broadcast use vstd::std_specs::vec::group_vec_axioms;

/// The value a user gave for an option. Ids are their integer values; a
/// number holds the bits of its `f64`.
pub enum CommandOptionValue {
    Attachment(u64),
    Boolean(bool),
    Channel(u64),
    Focused(String, CommandOptionType),
    Integer(i64),
    Mentionable(u64),
    NumberBits(u64),
    Role(u64),
    String(String),
    SubCommand(Vec<CommandDataOption>),
    SubCommandGroup(Vec<CommandDataOption>),
    User(u64),
}

/// An option as the user filled it in.
pub struct CommandDataOption {
    pub name: String,
    pub value: CommandOptionValue,
}

/// The model of an option value: strings as character sequences.
pub enum OptionValueView {
    Attachment(u64),
    Boolean(bool),
    Channel(u64),
    Focused(Seq<char>, CommandOptionType),
    Integer(i64),
    Mentionable(u64),
    NumberBits(u64),
    Role(u64),
    String(Seq<char>),
    SubCommand(Seq<OptionView>),
    SubCommandGroup(Seq<OptionView>),
    User(u64),
}

/// The model of a filled-in option.
pub struct OptionView {
    pub name: Seq<char>,
    pub value: OptionValueView,
}

pub open spec fn value_view(v: CommandOptionValue) -> OptionValueView
    decreases v, 0nat,
{
    match v {
        CommandOptionValue::Attachment(x) => OptionValueView::Attachment(x),
        CommandOptionValue::Boolean(x) => OptionValueView::Boolean(x),
        CommandOptionValue::Channel(x) => OptionValueView::Channel(x),
        CommandOptionValue::Focused(s, k) => OptionValueView::Focused(s@, k),
        CommandOptionValue::Integer(x) => OptionValueView::Integer(x),
        CommandOptionValue::Mentionable(x) => OptionValueView::Mentionable(x),
        CommandOptionValue::NumberBits(x) => OptionValueView::NumberBits(x),
        CommandOptionValue::Role(x) => OptionValueView::Role(x),
        CommandOptionValue::String(s) => OptionValueView::String(s@),
        CommandOptionValue::SubCommand(o) => OptionValueView::SubCommand(options_view(o@)),
        CommandOptionValue::SubCommandGroup(o) => OptionValueView::SubCommandGroup(options_view(o@)),
        CommandOptionValue::User(x) => OptionValueView::User(x),
    }
}

pub open spec fn options_view(s: Seq<CommandDataOption>) -> Seq<OptionView>
    decreases s, 1nat,
{
    Seq::new(
        s.len(),
        |i: int|
            if 0 <= i < s.len() {
                OptionView { name: s[i].name@, value: value_view(s[i].value) }
            } else {
                OptionView { name: Seq::empty(), value: OptionValueView::Boolean(false) }
            },
    )
}


/// Copies an option value, nested options included.
pub fn clone_value(v: &CommandOptionValue) -> (res: CommandOptionValue)
    ensures
        value_view(res) == value_view(*v),
    decreases *v, 0nat,
{
    match v {
        CommandOptionValue::Attachment(x) => CommandOptionValue::Attachment(*x),
        CommandOptionValue::Boolean(x) => CommandOptionValue::Boolean(*x),
        CommandOptionValue::Channel(x) => CommandOptionValue::Channel(*x),
        CommandOptionValue::Focused(s, k) => CommandOptionValue::Focused(s.clone(), *k),
        CommandOptionValue::Integer(x) => CommandOptionValue::Integer(*x),
        CommandOptionValue::Mentionable(x) => CommandOptionValue::Mentionable(*x),
        CommandOptionValue::NumberBits(x) => CommandOptionValue::NumberBits(*x),
        CommandOptionValue::Role(x) => CommandOptionValue::Role(*x),
        CommandOptionValue::String(s) => CommandOptionValue::String(s.clone()),
        CommandOptionValue::SubCommand(o) => CommandOptionValue::SubCommand(clone_options(o)),
        CommandOptionValue::SubCommandGroup(o) => CommandOptionValue::SubCommandGroup(clone_options(o)),
        CommandOptionValue::User(x) => CommandOptionValue::User(*x),
    }
}

/// Copies a list of options, nested options included.
pub fn clone_options(o: &Vec<CommandDataOption>) -> (res: Vec<CommandDataOption>)
    ensures
        options_view(res@) == options_view(o@),
    decreases o@, 1nat,
{
    let mut res: Vec<CommandDataOption> = Vec::new();
    let mut i: usize = 0;
    while i < o.len()
        invariant
            i <= o@.len(),
            res@.len() == i,
            forall|k: int| 0 <= k < i ==> #[trigger] options_view(res@)[k] == options_view(o@)[k],
        decreases o@.len() - i,
    {
        assert(decreases_to!(o@ => o@[i as int]));
        let item = CommandDataOption { name: o[i].name.clone(), value: clone_value(&o[i].value) };
        let ghost before = res@;
        res.push(item);
        assert forall|k: int| 0 <= k < i + 1 implies #[trigger] options_view(res@)[k] == options_view(o@)[k] by {
            if k < i {
                assert(res@[k] == before[k]);
                assert(options_view(before)[k] == options_view(o@)[k]);
            }
        }
        i = i + 1;
    }
    assert(options_view(res@) =~= options_view(o@));
    res
}

/// The kind of an application command.
#[derive(Clone, Copy, Debug, PartialEq, Eq, Structural)]
pub enum CommandType {
    ChatInput,
    User,
    Message,
    PrimaryEntryPoint,
}

/// The data of an application command interaction.
pub struct CommandData {
    pub guild_id: Option<u64>,
    pub id: u64,
    pub kind: CommandType,
    pub name: String,
    pub options: Vec<CommandDataOption>,
    pub target_id: Option<u64>,
}

/// The index of the first option named `name`.
pub open spec fn find_option(opts: Seq<CommandDataOption>, name: Seq<char>) -> Option<int>
    decreases opts.len(),
{
    if opts.len() == 0 {
        None
    } else if opts[0].name@ == name {
        Some(0)
    } else {
        match find_option(opts.drop_first(), name) {
            Some(i) => Some(i + 1),
            None => None,
        }
    }
}

/// Whether an option is a subcommand or a group of subcommands.
pub open spec fn is_subcommand_like(o: CommandDataOption) -> bool {
    o.value is SubCommand || o.value is SubCommandGroup
}

/// The index of the first option that is a subcommand or a group.
pub open spec fn find_subcommand_like(opts: Seq<CommandDataOption>) -> Option<int>
    decreases opts.len(),
{
    if opts.len() == 0 {
        None
    } else if is_subcommand_like(opts[0]) {
        Some(0)
    } else {
        match find_subcommand_like(opts.drop_first()) {
            Some(i) => Some(i + 1),
            None => None,
        }
    }
}

/// The index of the first option that is a subcommand.
pub open spec fn find_subcommand(opts: Seq<CommandDataOption>) -> Option<int>
    decreases opts.len(),
{
    if opts.len() == 0 {
        None
    } else if opts[0].value is SubCommand {
        Some(0)
    } else {
        match find_subcommand(opts.drop_first()) {
            Some(i) => Some(i + 1),
            None => None,
        }
    }
}

/// What each search finds is in range and is what it searched for.
pub proof fn lemma_find_in_range(opts: Seq<CommandDataOption>, name: Seq<char>)
    ensures
        find_option(opts, name) matches Some(i) ==> 0 <= i < opts.len() && opts[i].name@ == name,
        find_subcommand_like(opts) matches Some(i) ==> 0 <= i < opts.len() && is_subcommand_like(opts[i]),
        find_subcommand(opts) matches Some(i) ==> 0 <= i < opts.len() && opts[i].value is SubCommand,
    decreases opts.len(),
{
    if opts.len() > 0 {
        lemma_find_in_range(opts.drop_first(), name);
    }
}

/// Whether `d` is the data of `data` for its subcommand option `i`: the
/// same command, with that subcommand's options.
pub open spec fn is_subcommand_data(data: CommandData, i: int, d: CommandData) -> bool {
    &&& d.guild_id == data.guild_id && d.id == data.id && d.kind == data.kind
    &&& d.name@ == data.name@ && d.target_id == data.target_id
    &&& data.options@[i].value matches CommandOptionValue::SubCommand(sub)
    &&& options_view(d.options@) == options_view(sub@)
}

impl CommandData {
    /// The value of the first option named `name`.
    pub fn get_option(&self, name: &str) -> (res: Option<&CommandOptionValue>)
        ensures
            match find_option(self.options@, name@) {
                Some(i) => res == Some(&self.options@[i].value),
                None => res is None,
            },
    {
        let key = name.to_owned();
        let mut i: usize = 0;
        assert(self.options@.skip(0) =~= self.options@);
        while i < self.options.len()
            invariant
                i <= self.options@.len(),
                key@ == name@,
                find_option(self.options@, name@) == match find_option(self.options@.skip(i as int), name@) {
                    Some(k) => Some(k + i),
                    None => None::<int>,
                },
            decreases self.options@.len() - i,
        {
            assert(self.options@.skip(i as int).drop_first() =~= self.options@.skip(i + 1));
            assert(self.options@.skip(i as int)[0] == self.options@[i as int]);
            if self.options[i].name == key {
                return Some(&self.options[i].value);
            }
            i = i + 1;
        }
        None
    }

    /// The name of the first option that is a subcommand or a group.
    pub fn get_subcommand_name(&self) -> (res: Option<&str>)
        ensures
            match find_subcommand_like(self.options@) {
                Some(i) => res matches Some(n) && n@ == self.options@[i].name@,
                None => res is None,
            },
    {
        let mut i: usize = 0;
        assert(self.options@.skip(0) =~= self.options@);
        while i < self.options.len()
            invariant
                i <= self.options@.len(),
                find_subcommand_like(self.options@) == match find_subcommand_like(self.options@.skip(i as int)) {
                    Some(k) => Some(k + i),
                    None => None::<int>,
                },
            decreases self.options@.len() - i,
        {
            assert(self.options@.skip(i as int).drop_first() =~= self.options@.skip(i + 1));
            assert(self.options@.skip(i as int)[0] == self.options@[i as int]);
            match &self.options[i].value {
                CommandOptionValue::SubCommand(_) | CommandOptionValue::SubCommandGroup(_) => {
                    return Some(self.options[i].name.as_str());
                },
                _ => {},
            }
            i = i + 1;
        }
        None
    }

    /// The data of the first subcommand: this command's data with the
    /// subcommand's options in place of its own.
    pub fn get_subcommand_data(&self) -> (res: Option<CommandData>)
        ensures
            match find_subcommand(self.options@) {
                Some(i) => res matches Some(d) && is_subcommand_data(*self, i, d),
                None => res is None,
            },
    {
        let mut i: usize = 0;
        assert(self.options@.skip(0) =~= self.options@);
        while i < self.options.len()
            invariant
                i <= self.options@.len(),
                find_subcommand(self.options@) == match find_subcommand(self.options@.skip(i as int)) {
                    Some(k) => Some(k + i),
                    None => None::<int>,
                },
            decreases self.options@.len() - i,
        {
            assert(self.options@.skip(i as int).drop_first() =~= self.options@.skip(i + 1));
            assert(self.options@.skip(i as int)[0] == self.options@[i as int]);
            if let CommandOptionValue::SubCommand(sub_options) = &self.options[i].value {
                return Some(CommandData {
                    guild_id: self.guild_id,
                    id: self.id,
                    kind: self.kind,
                    name: self.name.clone(),
                    options: clone_options(sub_options),
                    target_id: self.target_id,
                });
            }
            i = i + 1;
        }
        None
    }
}

} // verus!
