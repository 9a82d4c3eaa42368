//! Message components (buttons, select menus and the rows that hold them),
//! and the helpers that custom components use to build theirs.

use vstd::prelude::*;
use vstd::string::*;

use twilight_model::channel::ChannelType;
use twilight_model::channel::message::EmojiReactionType;
use twilight_model::channel::message::component::{SelectDefaultValue, SelectMenuOption};

verus! {

/// The look of a button.
#[derive(Clone, Copy, Debug, PartialEq, Eq, Structural)]
pub enum ButtonStyle {
    Primary,
    Secondary,
    Success,
    Danger,
    Link,
    Premium,
}

/// What a select menu offers to pick.
#[derive(Clone, Copy, Debug, PartialEq, Eq, Structural)]
pub enum SelectMenuType {
    Channel,
    Mentionable,
    Role,
    Text,
    User,
}

/// A button.
pub struct Button {
    pub custom_id: Option<String>,
    pub disabled: bool,
    pub emoji: Option<EmojiReactionType>,
    pub label: Option<String>,
    pub sku_id: Option<u64>,
    pub style: ButtonStyle,
    pub url: Option<String>,
}

/// A select menu.
pub struct SelectMenu {
    pub channel_types: Option<Vec<ChannelType>>,
    pub custom_id: String,
    pub default_values: Option<Vec<SelectDefaultValue>>,
    pub disabled: bool,
    pub kind: SelectMenuType,
    pub max_values: Option<u8>,
    pub min_values: Option<u8>,
    pub options: Option<Vec<SelectMenuOption>>,
    pub placeholder: Option<String>,
    pub required: Option<bool>,
}

/// A message component.
pub enum Component {
    ActionRow(Vec<Component>),
    Button(Button),
    SelectMenu(SelectMenu),
}

/// The custom id of a child `id` of the component `parent`: `parent:id`.
pub open spec fn child_custom_id(parent: Seq<char>, id: Seq<char>) -> Seq<char> {
    parent + ":"@ + id
}

/// Joins a component id and a child id with `:`.
pub fn join_custom_id(parent: String, id: &str) -> (res: String)
    ensures
        res@ == child_custom_id(parent@, id@),
{
    let mut s = parent;
    s.append(":");
    s.append(id);
    s
}

/// A component of the bot's own, with an id under which its parts are found.
pub trait CustomComponent {
    /// The component's id.
    spec fn spec_id(&self) -> Seq<char>;

    fn id(&self) -> (res: String)
        ensures
            res@ == self.spec_id(),
    ;

    fn build(&self) -> Component;

    /// A button of this component: its custom id is the component's id, `:`
    /// and `id`.
    fn button(
        &self,
        id: &str,
        label: Option<String>,
        emoji: Option<EmojiReactionType>,
        style: ButtonStyle,
        url: Option<String>,
        disabled: bool,
        sku_id: Option<u64>,
    ) -> (res: Component)
        ensures
            res matches Component::Button(b) && b.custom_id matches Some(c) && c@ == child_custom_id(self.spec_id(), id@)
                && b.label == label && b.emoji == emoji && b.style == style && b.url == url
                && b.disabled == disabled && b.sku_id == sku_id,
    {
        Component::Button(Button {
            custom_id: Some(join_custom_id(self.id(), id)),
            emoji: emoji,
            disabled: disabled,
            label: label,
            style: style,
            url: url,
            sku_id: sku_id,
        })
    }

    /// A row holding `components`.
    fn action_row(&self, components: Vec<Component>) -> (res: Component)
        ensures
            res matches Component::ActionRow(c) && c == components,
    {
        Component::ActionRow(components)
    }

    /// A select menu of this component: its custom id is the component's id,
    /// `:` and `id`.
    fn select_menu(
        &self,
        id: &str,
        kind: SelectMenuType,
        disabled: bool,
        placeholder: Option<String>,
        options: Option<Vec<SelectMenuOption>>,
        default_values: Option<Vec<SelectDefaultValue>>,
        max_values: Option<u8>,
        min_values: Option<u8>,
        required: Option<bool>,
        channel_types: Option<Vec<ChannelType>>,
    ) -> (res: Component)
        ensures
            res matches Component::SelectMenu(m) && m.custom_id@ == child_custom_id(self.spec_id(), id@)
                && m.kind == kind && m.disabled == disabled && m.placeholder == placeholder
                && m.options == options && m.default_values == default_values
                && m.max_values == max_values && m.min_values == min_values
                && m.required == required && m.channel_types == channel_types,
    {
        Component::SelectMenu(SelectMenu {
            channel_types: channel_types,
            custom_id: join_custom_id(self.id(), id),
            default_values: default_values,
            kind: kind,
            disabled: disabled,
            max_values: max_values,
            min_values: min_values,
            options: options,
            placeholder: placeholder,
            required: required,
        })
    }
}

} // verus!
