use ggsbot::gateway::discard_self::DiscardSelfEventsMiddleware;
use ggsbot::gateway::dispatcher::{
    DispatchAction, DispatchStrategy, Dispatcher, FALLBACK_COOLDOWN_NANOS, WorkerOutcome, classify_worker_status,
    select_strategy,
};
use ggsbot::gateway::middleware::{
    Metadata, MiddlewareResponse, apply_middleware_response, metadata_members, middleware_applies,
};
use ggsbot::gateway::voice_state::{VoiceStateMiddleware, VoiceUpdate};

const VOICE: u128 = 1 << 40;
const MESSAGE: u128 = 1 << 3;
const ALL: u128 = u128::MAX;

fn table() -> Vec<(u128, DispatchStrategy)> {
    vec![(VOICE, DispatchStrategy::WorkerOnly), (ALL, DispatchStrategy::Smart { queue_delay: 0 })]
}

#[test]
fn strategies_are_picked_by_the_first_matching_flags() {
    assert_eq!(select_strategy(&table(), VOICE), DispatchStrategy::WorkerOnly);
    assert_eq!(select_strategy(&table(), MESSAGE), DispatchStrategy::Smart { queue_delay: 0 });
    assert_eq!(select_strategy(&Vec::new(), MESSAGE), DispatchStrategy::Smart { queue_delay: 0 });
    let queued = vec![(MESSAGE, DispatchStrategy::AlwaysQueue { queue_delay: 5 })];
    assert_eq!(select_strategy(&queued, MESSAGE), DispatchStrategy::AlwaysQueue { queue_delay: 5 });
    assert_eq!(select_strategy(&queued, VOICE), DispatchStrategy::Smart { queue_delay: 0 });
}

#[test]
fn worker_statuses() {
    assert_eq!(classify_worker_status(Some(200)), WorkerOutcome::Success);
    assert_eq!(classify_worker_status(Some(204)), WorkerOutcome::Success);
    assert_eq!(classify_worker_status(Some(429)), WorkerOutcome::RateLimited);
    assert_eq!(classify_worker_status(Some(500)), WorkerOutcome::Failed);
    assert_eq!(classify_worker_status(Some(302)), WorkerOutcome::Failed);
    assert_eq!(classify_worker_status(None), WorkerOutcome::Failed);
}

#[test]
fn smart_events_fall_back_to_the_queue_for_a_minute_after_a_429() {
    let mut d = Dispatcher::new();
    let smart = DispatchStrategy::Smart { queue_delay: 3 };
    assert_eq!(d.route(smart, 1_000), DispatchAction::SendToWorker { fallback_delay: Some(3) });
    assert_eq!(d.after_worker(Some(3), WorkerOutcome::RateLimited, 1_000), DispatchAction::SendToQueue { delay: 3 });
    assert!(d.in_fallback_mode);
    assert_eq!(d.last_429_time, Some(1_000));
    assert_eq!(d.route(smart, 1_000 + FALLBACK_COOLDOWN_NANOS), DispatchAction::SendToQueue { delay: 3 });
    assert!(d.in_fallback_mode);
    assert_eq!(
        d.route(smart, 1_001 + FALLBACK_COOLDOWN_NANOS),
        DispatchAction::SendToWorker { fallback_delay: Some(3) }
    );
    assert!(!d.in_fallback_mode);
}

#[test]
fn a_failed_worker_sends_smart_events_to_the_queue_without_fallback() {
    let mut d = Dispatcher::new();
    assert_eq!(d.after_worker(Some(7), WorkerOutcome::Failed, 5), DispatchAction::SendToQueue { delay: 7 });
    assert!(!d.in_fallback_mode);
    assert_eq!(d.after_worker(Some(7), WorkerOutcome::Success, 5), DispatchAction::Done);
    assert_eq!(d.after_worker(None, WorkerOutcome::RateLimited, 5), DispatchAction::Done);
    assert!(!d.in_fallback_mode);
}

#[test]
fn worker_only_events_need_fallback_mode() {
    let mut d = Dispatcher::new();
    assert_eq!(d.route(DispatchStrategy::WorkerOnly, 0), DispatchAction::NotInFallbackMode);
    d.after_worker(Some(0), WorkerOutcome::RateLimited, 10);
    assert_eq!(d.route(DispatchStrategy::WorkerOnly, 20), DispatchAction::SendToWorker { fallback_delay: None });
}

#[test]
fn fixed_strategies_ignore_the_state() {
    let mut d = Dispatcher::new();
    d.after_worker(Some(0), WorkerOutcome::RateLimited, 10);
    assert_eq!(d.route(DispatchStrategy::AlwaysWorker, 11), DispatchAction::SendToWorker { fallback_delay: None });
    assert_eq!(d.route(DispatchStrategy::AlwaysQueue { queue_delay: 9 }, 11), DispatchAction::SendToQueue { delay: 9 });
    assert!(d.in_fallback_mode);
    assert_eq!(d.last_429_time, Some(10));
}

#[test]
fn self_events_are_discarded() {
    let m = DiscardSelfEventsMiddleware::new();
    assert_eq!(m.name(), "discard-self-events-middleware");
    assert!(matches!(m.execute(Some(123456789), "123456789"), MiddlewareResponse::Discard));
    assert!(matches!(m.execute(Some(123456789), "987654321"), MiddlewareResponse::Send));
    assert!(matches!(m.execute(None, "123456789"), MiddlewareResponse::Send));
}

fn before(r: MiddlewareResponse) -> Option<String> {
    match r {
        MiddlewareResponse::SendWithMetadata(Metadata::Object(m)) => {
            assert_eq!(m.len(), 1);
            assert_eq!(m[0].0, "before_channel_id");
            Some(m[0].1.clone())
        },
        MiddlewareResponse::SendWithMetadata(Metadata::NotObject) => None,
        _ => panic!("unexpected response"),
    }
}

#[test]
fn voice_updates_carry_the_previous_channel() {
    let mut m = VoiceStateMiddleware::new();
    assert_eq!(m.name(), "voice-state-metadata");
    let join = VoiceUpdate { guild_id: Some(1), user_id: 10, channel_id: Some(100) };
    assert_eq!(before(m.execute(Some(join))), Some("null".to_string()));
    let moved = VoiceUpdate { guild_id: Some(1), user_id: 10, channel_id: Some(200) };
    assert_eq!(before(m.execute(Some(moved))), Some("\"100\"".to_string()));
    let other = VoiceUpdate { guild_id: Some(1), user_id: 11, channel_id: Some(300) };
    assert_eq!(before(m.execute(Some(other))), Some("null".to_string()));
    let left = VoiceUpdate { guild_id: Some(1), user_id: 10, channel_id: None };
    assert_eq!(before(m.execute(Some(left))), Some("\"200\"".to_string()));
    let rejoin = VoiceUpdate { guild_id: Some(1), user_id: 10, channel_id: Some(400) };
    assert_eq!(before(m.execute(Some(rejoin))), Some("null".to_string()));
    let other_guild = VoiceUpdate { guild_id: Some(2), user_id: 10, channel_id: Some(5) };
    assert_eq!(before(m.execute(Some(other_guild))), Some("null".to_string()));
}

#[test]
fn voice_updates_without_guild_and_other_events_get_null_metadata() {
    let mut m = VoiceStateMiddleware::new();
    let dm = VoiceUpdate { guild_id: None, user_id: 10, channel_id: Some(100) };
    assert_eq!(before(m.execute(Some(dm))), None);
    assert_eq!(before(m.execute(None)), None);
}

#[test]
fn middleware_answers_fold_into_metadata() {
    let mut gathered = Vec::new();
    assert!(apply_middleware_response(&mut gathered, MiddlewareResponse::Send));
    assert!(apply_middleware_response(
        &mut gathered,
        MiddlewareResponse::SendWithMetadata(Metadata::Object(vec![("a".to_string(), "1".to_string())]))
    ));
    assert!(apply_middleware_response(&mut gathered, MiddlewareResponse::SendWithMetadata(Metadata::NotObject)));
    assert_eq!(gathered, vec![("a".to_string(), "1".to_string())]);
    assert!(!apply_middleware_response(&mut gathered, MiddlewareResponse::Discard));
    assert_eq!(gathered.len(), 1);
    assert!(middleware_applies(ALL, VOICE));
    assert!(middleware_applies(VOICE, VOICE));
    assert!(!middleware_applies(VOICE, MESSAGE));
}

#[test]
fn metadata_is_null_or_one_object_where_the_last_value_wins() {
    assert!(metadata_members(Vec::new()).is_none());
    let merged = metadata_members(vec![
        ("a".to_string(), "1".to_string()),
        ("b".to_string(), "2".to_string()),
        ("a".to_string(), "3".to_string()),
    ]);
    assert_eq!(merged, Some(vec![("a".to_string(), "3".to_string()), ("b".to_string(), "2".to_string())]));
}

#[test]
fn a_member_is_remembered_across_other_events() {
    let mut m = VoiceStateMiddleware::new();
    assert_eq!(before(m.execute(Some(VoiceUpdate { guild_id: Some(1), user_id: 10, channel_id: Some(7) }))), Some("null".to_string()));
    for user in 11..20u64 {
        m.execute(Some(VoiceUpdate { guild_id: Some(1), user_id: user, channel_id: Some(user) }));
        m.execute(Some(VoiceUpdate { guild_id: None, user_id: 10, channel_id: None }));
        m.execute(Some(VoiceUpdate { guild_id: Some(2), user_id: 10, channel_id: None }));
        m.execute(None);
    }
    let again = VoiceUpdate { guild_id: Some(1), user_id: 10, channel_id: Some(8) };
    assert_eq!(before(m.execute(Some(again))), Some("\"7\"".to_string()));
}
