use ggsbot::commands::bot::{Bot, New, Update, UpdateStep, Version};
use ggsbot::commands::ext::{
    Ext, Setup, SetupStep, Show, already_configured_response, setup_answer, setup_step, collect_statuses, configured_response, extension_status,
    render_configured, render_unused, required_extension, setup_options, setup_target, show_response,
};
use ggsbot::commands::hello::Hello;
use ggsbot::commands::nasa::{Apod, Nasa, Tempvc};
use ggsbot::discord::command::{CommandData, CommandDataOption, CommandOptionValue, CommandType};
use ggsbot::discord::embed::Embed;
use ggsbot::discord::option::{ChoiceValue, CommandOptionType};
use ggsbot::discord::registry::IntegrationType;
use ggsbot::discord::response::{EPHEMERAL, InteractionResponse, InteractionResponseType};
use ggsbot::error::Error;

fn data(options: Vec<CommandDataOption>) -> CommandData {
    CommandData {
        guild_id: Some(1),
        id: 2,
        kind: CommandType::ChatInput,
        name: "cmd".to_string(),
        options,
        target_id: None,
    }
}

fn opt(name: &str, value: CommandOptionValue) -> CommandDataOption {
    CommandDataOption { name: name.to_string(), value }
}

fn content(r: &InteractionResponse) -> String {
    r.data.as_ref().unwrap().content.clone().unwrap()
}

fn flags(r: &InteractionResponse) -> Option<u64> {
    r.data.as_ref().unwrap().flags
}

fn only_embed(r: InteractionResponse) -> Embed {
    let mut embeds = r.data.unwrap().embeds.unwrap();
    assert_eq!(embeds.len(), 1);
    embeds.remove(0)
}

#[test]
fn hello_greets_the_picked_user() {
    let h = Hello::new();
    assert_eq!(h.name(), "hello");
    let r = h.respond(&data(vec![opt("user", CommandOptionValue::User(42))]), Some(7)).ok().unwrap();
    assert_eq!(r.kind, InteractionResponseType::ChannelMessageWithSource);
    assert_eq!(content(&r), "Ciao <@42>! 👋");
    assert_eq!(flags(&r), None);
}

#[test]
fn hello_greets_the_author_without_a_user() {
    let h = Hello::new();
    let r = h.respond(&data(vec![]), Some(7)).ok().unwrap();
    assert_eq!(content(&r), "Ciao <@7>, come stai? 👋");
    let r = h.respond(&data(vec![opt("user", CommandOptionValue::String("x".to_string()))]), Some(8)).ok().unwrap();
    assert_eq!(content(&r), "Ciao <@8>, come stai? 👋");
    let r = h.respond(&data(vec![]), None);
    assert!(matches!(r, Err(Error::InteractionFailed(m)) if m == "Missing author"));
}

#[test]
fn hello_has_one_optional_user_option() {
    let o = Hello::new().options();
    assert_eq!(o.len(), 1);
    assert_eq!(o[0].kind, CommandOptionType::User);
    assert_eq!(o[0].name, "user");
    assert_eq!(o[0].required, Some(false));
}

#[test]
fn version_message() {
    let v = Version {};
    let r = v.respond("abc", "v1", "2024-01-01T00:00:00Z", false);
    assert_eq!(content(&r), "**🆔 ID:** `abc`\n**🏷️ Tag:** `v1`\n**⏰ Built at:** <t:1704067200:R>");
    assert_eq!(flags(&r), Some(EPHEMERAL));
    let r = v.respond("abc", "", "not a date", true);
    assert_eq!(content(&r), "**⏰ Built at:** not a date");
}

#[test]
fn update_message_and_status() {
    let u = Update {};
    assert_eq!(u.name(), "update");
    assert_eq!(u.default_member_permissions(), Some(8));
    assert!(u.status_failed(404));
    assert!(u.status_failed(500));
    assert!(!u.status_failed(200));
    let r = u.respond(200);
    assert_eq!(content(&r), "✅ Aggiornamento comandi completato! Status: **200**");
    assert_eq!(flags(&r), Some(EPHEMERAL));
}

#[test]
fn command_metadata() {
    assert_eq!(Bot {}.name(), "bot");
    assert_eq!(Bot {}.subcommands(), vec!["update", "version"]);
    assert_eq!(New {}.name(), "new");
    assert_eq!(flags(&New {}.respond()), Some(EPHEMERAL));
    assert_eq!(Nasa {}.name(), "nasa");
    assert_eq!(Nasa {}.subcommands(), vec!["apod"]);
    assert!(Nasa {}.default_config().channel_id.is_none());
    assert_eq!(Nasa {}.integration_types(), vec![IntegrationType::GuildInstall, IntegrationType::UserInstall]);
    assert_eq!(Apod {}.name(), "apod");
    assert_eq!(Tempvc {}.name(), "tempvc");
    assert_eq!(Tempvc {}.subcommands(), vec!["new"]);
    assert_eq!(Ext {}.name(), "ext");
    assert_eq!(Ext {}.integration_types(), vec![IntegrationType::GuildInstall]);
    assert_eq!(Ext {}.default_member_permissions(), Some(8));
    assert_eq!(Setup {}.name(), "setup");
    assert_eq!(Show {}.name(), "show");
}

#[test]
fn apod_is_ephemeral_in_servers_only() {
    let mut e = Embed::new();
    e.set_title("Sky".to_string());
    let r = Apod {}.respond(e, true);
    assert_eq!(flags(&r), Some(EPHEMERAL));
    assert_eq!(only_embed(r).title, Some("Sky".to_string()));
    let mut e = Embed::new();
    e.set_title("Sky".to_string());
    let r = Apod {}.respond(e, false);
    assert_eq!(flags(&r), None);
    assert_eq!(only_embed(r).title, Some("Sky".to_string()));
}

fn commands() -> Vec<String> {
    vec!["ext".to_string(), "bot".to_string(), "hello".to_string(), "nasa".to_string()]
}

#[test]
fn setup_offers_the_extensions_only() {
    assert!(required_extension(&"ext".to_string()));
    assert!(required_extension(&"bot".to_string()));
    assert!(!required_extension(&"nasa".to_string()));
    let o = setup_options(&commands());
    assert_eq!(o.len(), 1);
    assert_eq!(o[0].name, "extension");
    assert_eq!(o[0].required, Some(true));
    let choices = o[0].choices.as_ref().unwrap();
    assert_eq!(choices.len(), 2);
    assert_eq!(choices[0].name, "hello");
    assert_eq!(choices[0].value, ChoiceValue::String("hello".to_string()));
    assert_eq!(choices[1].name, "nasa");
    let none = setup_options(&vec!["ext".to_string()]);
    assert!(none[0].choices.is_none());
}

#[test]
fn setup_finds_the_named_extension() {
    let d = data(vec![opt("extension", CommandOptionValue::String("nasa".to_string()))]);
    assert!(matches!(setup_target(&d, &commands()), Ok((n, 3)) if n == "nasa"));
    let d = data(vec![opt("extension", CommandOptionValue::String("music".to_string()))]);
    assert!(matches!(setup_target(&d, &commands()), Err(Error::InvalidPayload(m)) if m == "Extension music not found!"));
    let d = data(vec![]);
    assert!(matches!(setup_target(&d, &commands()), Err(Error::InvalidPayload(m)) if m == "Missing extension option"));
}

#[test]
fn setup_answers() {
    let e = only_embed(already_configured_response("nasa"));
    assert_eq!(e.color, Some(0xff0000));
    assert_eq!(e.description, Some("Extension nasa is already configured for this server!".to_string()));
    let e = only_embed(configured_response("nasa"));
    assert_eq!(e.description, Some("Extension nasa configured successfully!".to_string()));
    assert_eq!(e.color, None);
    assert!(e.author.is_none());
    assert_eq!(e.kind, "rich");
}

#[test]
fn statuses_of_stored_configurations() {
    assert_eq!(
        extension_status("guilds:1:guilds:1:extensions:nasa:config", Some(Some(false))),
        Some(("nasa".to_string(), false))
    );
    assert_eq!(extension_status("guilds:1:guilds:1:extensions:nasa", None), Some(("nasa".to_string(), true)));
    assert_eq!(extension_status("guilds:1:guilds:1:extensions:nasa", Some(None)), None);
    assert_eq!(extension_status("guilds:1:extensions:nasa", Some(Some(true))), None);
    let entries = vec![
        ("g:1:e:a:b:nasa:config".to_string(), Some(Some(true))),
        ("g:1:e:a:b:hello:config".to_string(), Some(Some(false))),
        ("g:1:e:a:b:nasa:config".to_string(), Some(Some(false))),
        ("short".to_string(), Some(Some(true))),
    ];
    assert_eq!(collect_statuses(&entries), vec![("nasa".to_string(), false), ("hello".to_string(), false)]);
}

#[test]
fn show_lists_configured_and_unused_extensions() {
    let statuses = vec![("nasa".to_string(), true)];
    assert_eq!(render_configured(&statuses), "- *Nasa*: **enabled**\n");
    assert_eq!(render_unused(&commands(), &statuses), "- *Hello*\n");
    let e = only_embed(show_response(&statuses, &commands()));
    assert_eq!(e.title, Some("GGsBot Extensions".to_string()));
    assert_eq!(e.fields.len(), 2);
    assert_eq!(e.fields[0].name, "Configured");
    assert_eq!(e.fields[1].name, "Unused");
    assert_eq!(e.fields[1].value, "- *Hello*\n");
    let e = only_embed(show_response(&Vec::new(), &vec!["ext".to_string()]));
    assert_eq!(e.fields.len(), 0);
}

#[test]
fn update_is_reserved_to_the_developer() {
    let u = Update {};
    assert!(matches!(u.begin(true), UpdateStep::Register));
    assert!(matches!(
        u.begin(false),
        UpdateStep::Answer(Err(Error::InteractionFailed(m))) if m == "Command reserved to the developer"
    ));
    assert!(matches!(u.finish(403, "forbidden".to_string()), Err(Error::ReqwestError(m)) if m == "forbidden"));
    let r = u.finish(200, String::new()).ok().unwrap();
    assert_eq!(content(&r), "✅ Aggiornamento comandi completato! Status: **200**");
}

#[test]
fn mods_has_an_english_and_an_italian_name() {
    let m = ggsbot::commands::mods::Mods {};
    let name = m.name();
    assert_eq!(name.get_default(), "mods");
    assert_eq!(name.get_map().unwrap().len(), 2);
    assert_eq!(m.description().get_default(), "Set di comandi dedicati ai moderatori");
}

#[test]
fn setup_stores_once_and_runs_the_hook() {
    assert_eq!(setup_step(true), SetupStep::AlreadyConfigured);
    assert_eq!(setup_step(false), SetupStep::StoreDefault);
    let e = only_embed(setup_answer("nasa", None).ok().unwrap());
    assert_eq!(e.description, Some("Extension nasa configured successfully!".to_string()));
    let r = setup_answer("hello", Hello::new().on_setup()).ok().unwrap();
    assert_eq!(content(&r), "Pagina numero: 0");
    assert!(matches!(setup_answer("x", Some(Err(Error::Generic("e".to_string())))), Err(Error::Generic(m)) if m == "e"));
}
