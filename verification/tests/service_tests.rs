use ggsbot::error::Error;
use ggsbot::queues::apod::{APOD_FETCH_ATTEMPTS, ApodQueue, ApodQueueMessage, MessageDisposition, message_disposition};
use ggsbot::services::apod::{
    APOD_CACHE_TTL, ApodLookup, ApodMediaType, apod_lookup, ApodResponse, ApodRetry, RetryAction, apod_cache_key, apod_request_url,
    build_embed, convert_to_watch_url, watch_url_from_segments,
};
use ggsbot::services::discord::guild_message_result;
use ggsbot::structs::extension::{ExtensionConfig, NasaExtConfig};
use ggsbot::structs::kv::{
    extension_config_key, format_key, guild_kv_prefix, kv_binding_name, list_prefix, user_kv_prefix,
};
use ggsbot::triggers::apod::{ApodTrigger, apod_channel, apod_guild_of_key};
use ggsbot::triggers::trigger::{CronSchedule, TriggerDecision, cron_matches, decide_trigger};

fn day(media_type: ApodMediaType, url: &str, concepts: Option<Vec<String>>, copyright: Option<String>) -> ApodResponse {
    ApodResponse {
        title: "Galaxy".to_string(),
        explanation: "A galaxy. Far away. Really.".to_string(),
        media_type,
        url: url.to_string(),
        hdurl: None,
        service_version: "v1".to_string(),
        date: chrono::NaiveDate::from_ymd_opt(2024, 1, 1).unwrap(),
        concepts,
        thumbnail_url: None,
        copyright,
    }
}

#[test]
fn embed_video_urls_become_watch_urls() {
    assert_eq!(
        convert_to_watch_url("https://www.youtube.com/embed/abc123?rel=0"),
        Some("https://www.youtube.com/watch?v=abc123".to_string())
    );
    assert_eq!(convert_to_watch_url("https://www.youtube.com/watch?v=abc123"), None);
    assert_eq!(convert_to_watch_url("https://www.youtube.com/embed"), None);
    assert_eq!(convert_to_watch_url("not a url"), None);
    assert_eq!(convert_to_watch_url("mailto:someone@example.com"), None);
}

#[test]
fn image_of_the_day_embed() {
    let e = build_embed(day(ApodMediaType::Image, "https://apod.nasa.gov/a.jpg", None, None));
    assert_eq!(e.color, Some(0x4889D8));
    assert_eq!(e.title, Some("Galaxy".to_string()));
    assert_eq!(e.description, Some("A galaxy. \n\nFar away. \n\nReally.".to_string()));
    assert_eq!(e.footer.as_ref().unwrap().text, "Resource provided by NASA APOD api");
    let author = e.author.unwrap();
    assert_eq!(author.name, "NASA");
    assert_eq!(author.url, Some("https://nasa.gov".to_string()));
    assert_eq!(e.fields.len(), 0);
    assert_eq!(e.url, Some("https://apod.nasa.gov/a.jpg".to_string()));
    assert_eq!(e.image.unwrap().url, "https://apod.nasa.gov/a.jpg");
    assert!(e.video.is_none());
}

#[test]
fn video_of_the_day_embed() {
    let concepts = Some(vec!["stars".to_string(), "dust".to_string()]);
    let e = build_embed(day(
        ApodMediaType::Video,
        "https://www.youtube.com/embed/xyz",
        concepts,
        Some("Jane".to_string()),
    ));
    assert_eq!(e.author.unwrap().name, "Jane");
    assert_eq!(e.fields.len(), 1);
    assert_eq!(e.fields[0].name, "Concepts");
    assert_eq!(e.fields[0].value, "stars,dust");
    assert_eq!(e.url, Some("https://www.youtube.com/watch?v=xyz".to_string()));
    assert_eq!(e.video.unwrap().url, Some("https://www.youtube.com/watch?v=xyz".to_string()));
    assert!(e.image.is_none());
    let e = build_embed(day(ApodMediaType::Video, "https://vimeo.com/123", None, None));
    assert_eq!(e.url, Some("https://vimeo.com/123".to_string()));
}

#[test]
fn nasa_requests_and_cache() {
    assert_eq!(apod_request_url("KEY"), "https://api.nasa.gov/planetary/apod?api_key=KEY");
    assert_eq!(apod_cache_key("2024-01-01"), "nasa:apod:2024-01-01");
    assert_eq!(APOD_CACHE_TTL, 86400);
}

#[test]
fn nasa_is_asked_at_most_three_times() {
    let (mut retry, first) = ApodRetry::start(APOD_FETCH_ATTEMPTS);
    assert_eq!(first, RetryAction::Fetch);
    assert_eq!(retry.on_failure(), RetryAction::WaitThenFetch(5));
    assert_eq!(retry.on_failure(), RetryAction::WaitThenFetch(10));
    assert_eq!(retry.on_failure(), RetryAction::WaitThenGiveUp(15));
    assert_eq!(retry.failed, 3);
    assert_eq!(ApodRetry::start(0).1, RetryAction::GiveUp);
}

#[test]
fn posting_to_a_channel() {
    assert!(guild_message_result(200, "200 OK").is_ok());
    assert!(guild_message_result(204, "204 No Content").is_ok());
    assert!(matches!(
        guild_message_result(403, "403 Forbidden"),
        Err(Error::UpstreamError(m)) if m == "Discord error: 403 Forbidden"
    ));
}

#[test]
fn key_value_namespaces() {
    assert_eq!(kv_binding_name(), "ggsbotkv");
    assert_eq!(format_key("guilds:1", "extensions:nasa:config"), "guilds:1:extensions:nasa:config");
    assert_eq!(list_prefix("guilds:1", Some("extensions".to_string())), "guilds:1:extensions");
    assert_eq!(list_prefix("guilds:1", None), "guilds:1:");
    assert!(matches!(user_kv_prefix(Some(42)), Ok(p) if p == "users:42"));
    assert!(matches!(user_kv_prefix(None), Err(Error::Generic(m)) if m == "Missing author id"));
    assert!(matches!(guild_kv_prefix(Some(7)), Ok(p) if p == "guilds:7"));
    assert!(matches!(guild_kv_prefix(None), Err(Error::InteractionFailed(m)) if m == "Missing guild_id"));
    assert_eq!(extension_config_key("nasa"), "extensions:nasa:config");
}

#[test]
fn keys_of_different_guilds_differ() {
    let a = format_key(&guild_kv_prefix(Some(1)).ok().unwrap(), "2:x");
    let b = format_key(&guild_kv_prefix(Some(12)).ok().unwrap(), "x");
    assert_eq!(a, "guilds:1:2:x");
    assert_eq!(b, "guilds:12:x");
    assert_ne!(a, b);
}

#[test]
fn extension_configurations() {
    let mut c: ExtensionConfig<NasaExtConfig> = ExtensionConfig::new(Some(NasaExtConfig { channel_id: Some("9".to_string()) }));
    assert!(c.enabled);
    let created = c.created_at;
    c.set_enabled(false);
    assert!(!c.enabled);
    assert_eq!(c.created_at, created);
    let d: ExtensionConfig<NasaExtConfig> = ExtensionConfig::default();
    assert!(d.enabled && d.config.is_none());
    assert!(NasaExtConfig::default_config().channel_id.is_none());
}

#[test]
fn the_apod_trigger_finds_configured_guilds() {
    let t = ApodTrigger::new();
    assert_eq!(t.name(), "nasa-apod-trigger");
    assert!(matches!(t.cron(), CronSchedule::Single(p) if p == "0 7 * * *"));
    assert!(t.should_run());
    assert_eq!(apod_guild_of_key("guilds:123:nasa:config"), Some("123".to_string()));
    assert_eq!(apod_guild_of_key("guilds:123:hello:config"), None);
    assert_eq!(apod_guild_of_key(":nasa:config"), Some("nasa".to_string()));
    let config = |enabled: bool, channel: Option<&str>| {
        let mut c = ExtensionConfig::new(Some(NasaExtConfig { channel_id: channel.map(|s| s.to_string()) }));
        c.set_enabled(enabled);
        Some(c)
    };
    assert_eq!(apod_channel(config(true, Some("55"))), Some("55".to_string()));
    assert_eq!(apod_channel(config(false, Some("55"))), None);
    assert_eq!(apod_channel(config(true, None)), None);
    assert_eq!(apod_channel(None), None);
}

#[test]
fn triggers_run_on_their_cron_expressions() {
    let now = "0 7 * * *".to_string();
    assert!(cron_matches(&CronSchedule::All, &now));
    assert!(cron_matches(&CronSchedule::Single("0 7 * * *".to_string()), &now));
    assert!(!cron_matches(&CronSchedule::Single("0 8 * * *".to_string()), &now));
    assert!(cron_matches(&CronSchedule::Multiple(vec!["* * * * *".to_string(), now.clone()]), &now));
    assert!(!cron_matches(&CronSchedule::Multiple(vec![]), &now));
    assert!(matches!(CronSchedule::default_schedule(), CronSchedule::All));
    assert_eq!(decide_trigger(false, Some(true)), TriggerDecision::Skip);
    assert_eq!(decide_trigger(true, Some(true)), TriggerDecision::Execute);
    assert_eq!(decide_trigger(true, Some(false)), TriggerDecision::Skip);
    assert_eq!(decide_trigger(true, None), TriggerDecision::SkipOnError);
}

#[test]
fn the_apod_queue() {
    assert_eq!(ApodQueue::new().name(), "ggsbotrs-apod-queue");
    let m = ApodQueueMessage::new("1".to_string(), "2".to_string());
    assert_eq!(m.guild_id, "1");
    assert_eq!(m.channel_id, "2");
    assert_eq!(message_disposition(false, false), MessageDisposition::Ack);
    assert_eq!(message_disposition(true, true), MessageDisposition::Ack);
    assert_eq!(message_disposition(true, false), MessageDisposition::Retry);
}

#[test]
fn the_cache_answers_before_nasa() {
    let cached = day(ApodMediaType::Image, "https://apod.nasa.gov/a.jpg", None, None);
    assert!(matches!(apod_lookup("2024-01-01", Some(cached)), ApodLookup::Cached(c) if c.title == "Galaxy"));
    assert!(matches!(
        apod_lookup("2024-01-01", None),
        ApodLookup::FetchAndStore { key, ttl: 86400 } if key == "nasa:apod:2024-01-01"
    ));
}

#[test]
fn watch_urls_from_path_segments() {
    let segs = |v: &[&str]| v.iter().map(|s| s.to_string()).collect::<Vec<String>>();
    assert_eq!(watch_url_from_segments(&segs(&["embed", "abc"])), Some("https://www.youtube.com/watch?v=abc".to_string()));
    assert_eq!(watch_url_from_segments(&segs(&["embed", "abc", "x"])), Some("https://www.youtube.com/watch?v=abc".to_string()));
    assert_eq!(watch_url_from_segments(&segs(&["embed"])), None);
    assert_eq!(watch_url_from_segments(&segs(&["watch", "abc"])), None);
}
