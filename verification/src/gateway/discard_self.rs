//! Drops the events that the bot itself caused.

use vstd::prelude::*;

use super::middleware::MiddlewareResponse;
use crate::text::{decimal, u64_to_decimal};

verus! {

/// The middleware that discards the bot's own events.
pub struct DiscardSelfEventsMiddleware {}

impl DiscardSelfEventsMiddleware {
    pub fn new() -> (res: Self) {
        DiscardSelfEventsMiddleware {}
    }

    /// The middleware's name.
    pub fn name(&self) -> (res: &'static str)
        ensures
            res@ == "discard-self-events-middleware"@,
    {
        "discard-self-events-middleware"
    }

    /// Discards an event whose acting user (`user_id`, where the event has
    /// one) is the bot `bot_id`; lets every other event through.
    pub fn execute(&self, user_id: Option<u64>, bot_id: &str) -> (res: MiddlewareResponse)
        ensures
            res is Discard <==> (user_id matches Some(id) && decimal(id as nat) == bot_id@),
            !(res is Discard) ==> res is Send,
    {
        match user_id {
            Some(id) => {
                let id_text = u64_to_decimal(id);
                if id_text == bot_id.to_owned() {
                    MiddlewareResponse::Discard
                } else {
                    MiddlewareResponse::Send
                }
            },
            None => MiddlewareResponse::Send,
        }
    }
}

} // verus!
