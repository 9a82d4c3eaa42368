use ggsbot::discord::command::{CommandData, CommandDataOption, CommandOptionValue, CommandType};
use ggsbot::discord::embed::{Embed, EmbedBuilder, error_embed};
use ggsbot::discord::interaction::{
    defer_response, defer_result, upstream_result,
    InteractionRoute, InteractionType, bot_authorization, channel_messages_url, defer_url, delete_url, edit_url,
    is_dev, lookup_name, pong, require_autocomplete_response, route_command, route_interaction, route_subcommand,
};
use ggsbot::discord::locale::{Locale, Localization};
use ggsbot::discord::member::Member;
use ggsbot::discord::option::{ChoiceValue, CommandOption, CommandOptionType, OptionBuilder};
use ggsbot::discord::registry::{CommandInfo, IntegrationType, serialize_command};
use ggsbot::discord::response::{EPHEMERAL, InteractionResponse, InteractionResponseType, ResponseBuilder};
use ggsbot::error::Error;

fn opt(name: &str, value: CommandOptionValue) -> CommandDataOption {
    CommandDataOption { name: name.to_string(), value }
}

fn data(options: Vec<CommandDataOption>) -> CommandData {
    CommandData { guild_id: None, id: 1, kind: CommandType::ChatInput, name: "bot".to_string(), options, target_id: None }
}

#[test]
fn interactions_route_by_type() {
    assert_eq!(route_interaction(InteractionType::Ping), InteractionRoute::Pong);
    assert_eq!(route_interaction(InteractionType::ApplicationCommand), InteractionRoute::Command);
    assert_eq!(route_interaction(InteractionType::MessageComponent), InteractionRoute::Component);
    assert_eq!(route_interaction(InteractionType::ApplicationCommandAutocomplete), InteractionRoute::Autocomplete);
    assert_eq!(route_interaction(InteractionType::ModalSubmit), InteractionRoute::ModalSubmit);
    let p = pong();
    assert_eq!(p.kind, InteractionResponseType::Pong);
    assert!(p.data.is_none());
}

#[test]
fn commands_route_by_name() {
    let names = vec!["hello".to_string(), "ext".to_string()];
    assert_eq!(lookup_name(&names, "ext"), Some(1));
    assert_eq!(lookup_name(&names, "nasa"), None);
    assert!(matches!(route_command(&names, "hello"), Ok(0)));
    assert!(matches!(route_command(&names, "nasa"), Err(Error::InvalidPayload(m)) if m == "Command 'nasa' not found"));
    assert!(matches!(require_autocomplete_response(None), Err(Error::InteractionFailed(m)) if m == "No autocomplete response supplied"));
    assert!(matches!(require_autocomplete_response(Some(pong())), Ok(r) if r.kind == InteractionResponseType::Pong));
}

#[test]
fn subcommands_route_with_their_own_options() {
    let subs = vec!["update".to_string(), "version".to_string()];
    let d = data(vec![opt(
        "version",
        CommandOptionValue::SubCommand(vec![opt("verbose", CommandOptionValue::Boolean(true))]),
    )]);
    assert_eq!(d.get_subcommand_name(), Some("version"));
    match route_subcommand(&d, &subs) {
        Ok((1, sub)) => {
            assert_eq!(sub.name, "bot");
            assert_eq!(sub.options.len(), 1);
            assert_eq!(sub.options[0].name, "verbose");
            assert!(matches!(sub.get_option("verbose"), Some(CommandOptionValue::Boolean(true))));
        },
        _ => panic!("not routed"),
    }
    let d = data(vec![opt("other", CommandOptionValue::SubCommand(vec![]))]);
    assert!(matches!(route_subcommand(&d, &subs), Err(Error::Generic(m)) if m == "No response was created for this subcommand!"));
    let d = data(vec![opt("x", CommandOptionValue::Integer(3))]);
    assert!(matches!(route_subcommand(&d, &subs), Err(Error::Generic(m)) if m == "Could not get subcommand_name"));
    let d = data(vec![opt("grp", CommandOptionValue::SubCommandGroup(vec![]))]);
    assert!(matches!(route_subcommand(&d, &subs), Err(Error::Generic(m)) if m == "Could not get subcommand_data"));
}

#[test]
fn options_are_found_by_name() {
    let d = data(vec![opt("a", CommandOptionValue::Integer(1)), opt("a", CommandOptionValue::Integer(2))]);
    assert!(matches!(d.get_option("a"), Some(CommandOptionValue::Integer(1))));
    assert!(d.get_option("b").is_none());
    assert!(d.get_subcommand_data().is_none());
}

#[test]
fn developer_check() {
    assert!(is_dev(Some(1234), Some("1234".to_string())));
    assert!(!is_dev(Some(1234), Some("123".to_string())));
    assert!(!is_dev(None, Some("1234".to_string())));
    assert!(!is_dev(Some(1234), None));
}

#[test]
fn discord_urls() {
    assert_eq!(defer_url(5, "tok"), "https://discord.com/api/v10/interactions/5/tok/callback");
    assert_eq!(edit_url(77, "tok"), "https://discord.com/api/v10/webhooks/77/tok/messages/@original");
    assert!(matches!(delete_url(Some(1), Some(2)), Ok(u) if u == "https://discord.com/api/v10/channels/1/messages/2"));
    assert!(matches!(delete_url(None, Some(2)), Err(Error::InteractionFailed(m)) if m == "Can't delete message if channel is None"));
    assert!(matches!(delete_url(Some(1), None), Err(Error::InteractionFailed(m)) if m == "Message is missing!"));
    assert_eq!(channel_messages_url("99"), "https://discord.com/api/v10/channels/99/messages");
    assert_eq!(bot_authorization("abc"), "Bot abc");
}

#[test]
fn localized_names() {
    let plain = Localization::Default("mods".to_string());
    assert_eq!(plain.get_default(), "mods");
    assert!(plain.get_map().is_none());
    let per = Localization::PerLocale(vec![
        (Locale::Italian, "moderatori".to_string()),
        (Locale::EnglishUS, "mods".to_string()),
    ]);
    assert_eq!(per.get_default(), "mods");
    assert_eq!(per.get_map().unwrap().len(), 2);
    let no_us = Localization::PerLocale(vec![(Locale::Italian, "moderatori".to_string())]);
    assert_eq!(no_us.get_default(), "moderatori");
    assert_eq!(Localization::PerLocale(vec![]).get_default(), "");
}

fn member(p: Option<&str>) -> Member {
    Member { user: None, nick: None, permissions: p.map(|s| s.to_string()) }
}

#[test]
fn administrators() {
    assert!(member(Some("8")).is_admin());
    assert!(member(Some("2199023255551")).is_admin());
    assert!(!member(Some("2199023255543")).is_admin());
    assert!(!member(Some("0")).is_admin());
    assert!(!member(Some("not a number")).is_admin());
    assert!(!member(None).is_admin());
}

#[test]
fn options_build_up() {
    let o = OptionBuilder::string("q".to_string(), "query".to_string())
        .required(true)
        .autocomplete(true)
        .choice("one".to_string(), ChoiceValue::String("1".to_string()))
        .choice("two".to_string(), ChoiceValue::Integer(2))
        .build();
    assert_eq!(o.kind, CommandOptionType::String);
    assert_eq!(o.required, Some(true));
    assert_eq!(o.autocomplete, Some(true));
    let c = o.choices.unwrap();
    assert_eq!(c.len(), 2);
    assert_eq!(c[1].value, ChoiceValue::Integer(2));
    let mut o = CommandOption::new(CommandOptionType::Integer, "n".to_string(), "num".to_string());
    assert!(o.required.is_none() && o.choices.is_none());
    o.set_required(false);
    o.add_choice("z".to_string(), ChoiceValue::Integer(0));
    assert_eq!(o.required, Some(false));
    assert_eq!(o.choices.unwrap().len(), 1);
}

#[test]
fn commands_serialize_with_their_subcommands() {
    let command = CommandInfo {
        name: "bot".to_string(),
        description: "d".to_string(),
        options: vec![OptionBuilder::integer("n".to_string(), "num".to_string()).build()],
        integration_types: vec![],
        default_member_permissions: Some(8),
    };
    let sub = CommandInfo {
        name: "version".to_string(),
        description: "v".to_string(),
        options: vec![],
        integration_types: vec![IntegrationType::UserInstall],
        default_member_permissions: None,
    };
    let c = serialize_command(command, vec![sub]);
    assert_eq!(c.name, "bot");
    assert_eq!(c.kind, CommandType::ChatInput);
    assert_eq!(c.version, 1);
    assert_eq!(c.default_member_permissions, Some(8));
    assert!(c.integration_types.is_none());
    assert_eq!(c.options.len(), 2);
    assert_eq!(c.options[0].name, "n");
    assert_eq!(c.options[1].name, "version");
    assert_eq!(c.options[1].kind, CommandOptionType::SubCommand);
    assert_eq!(c.options[1].options.as_ref().unwrap().len(), 0);
}

#[test]
fn embed_colours() {
    let mut e = Embed::new();
    e.set_color("#4889D8");
    assert_eq!(e.color, Some(0x4889D8));
    e.set_color((255u8, 0u8, 16u8));
    assert_eq!(e.color, Some(0xff0010));
    e.set_color(0x123456u32);
    assert_eq!(e.color, Some(0x123456));
    e.set_color("#nothex");
    assert_eq!(e.color, Some(0x123456));
    e.set_color("##ABC");
    assert_eq!(e.color, Some(0xABC));
    assert_eq!(error_embed().build().color, Some(0xff0000));
}

#[test]
fn embeds_build_up() {
    let e = EmbedBuilder::new()
        .title("t".to_string())
        .description("d".to_string())
        .field("f".to_string(), "v".to_string(), true)
        .footer("foot".to_string(), None)
        .image("https://i".to_string())
        .build();
    assert_eq!(e.kind, "rich");
    assert_eq!(e.title, Some("t".to_string()));
    assert_eq!(e.fields.len(), 1);
    assert!(e.fields[0].inline);
    assert_eq!(e.footer.unwrap().text, "foot");
    assert_eq!(e.image.unwrap().url, "https://i");
}

#[test]
fn responses_build_up() {
    let r = ResponseBuilder::new(InteractionResponseType::ChannelMessageWithSource)
        .content("hi".to_string())
        .ephemeral()
        .ephemeral()
        .tts(true)
        .build();
    let d = r.data.as_ref().unwrap();
    assert_eq!(d.content, Some("hi".to_string()));
    assert_eq!(d.flags, Some(EPHEMERAL));
    assert_eq!(d.tts, Some(true));
    let u = r.as_update();
    assert_eq!(u.content, Some("hi".to_string()));
    assert!(u.embeds.is_none());
    let mut r = InteractionResponse::new(InteractionResponseType::UpdateMessage);
    assert!(r.data.is_none());
    r.set_custom_id("c".to_string());
    r.set_title("t".to_string());
    let d = r.data.unwrap();
    assert_eq!(d.custom_id, Some("c".to_string()));
    assert_eq!(d.title, Some("t".to_string()));
    assert!(InteractionResponse::empty().as_update().content.is_none());
}

#[test]
fn discord_callbacks() {
    let d = defer_response();
    assert_eq!(d.kind, InteractionResponseType::DeferredUpdateMessage);
    assert!(d.data.is_none());
    assert!(defer_result(204).is_ok());
    assert!(matches!(defer_result(401), Err(Error::UpstreamError(m)) if m == "Discord: Failed to defer interaction"));
    assert!(matches!(upstream_result(200, "200 OK", Some(String::new())), Ok(r) if r.data.is_none()));
    assert!(matches!(
        upstream_result(404, "404 Not Found", Some("gone".to_string())),
        Err(Error::UpstreamError(m)) if m == "Discord API error: 404 Not Found - gone"
    ));
    assert!(matches!(
        upstream_result(500, "500 Internal Server Error", None),
        Err(Error::UpstreamError(m)) if m == "Discord API error: 500 Internal Server Error"
    ));
}
