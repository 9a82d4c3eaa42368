pub mod discard_self;
pub mod dispatcher;
pub mod middleware;
pub mod voice_state;
