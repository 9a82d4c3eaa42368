//! The per-guild configuration of an extension (a command that a server can
//! set up, enable and disable).

use vstd::prelude::*;

verus! {

/// The current time in microseconds since the Unix epoch, from `Utc::now`.
/// It depends on the clock, so nothing is stated of it.
#[verifier::external_body]
fn now_micros() -> (res: i64) {
    chrono::Utc::now().timestamp_micros()
}

/// An extension's configuration in a guild: whether it is enabled, its own
/// settings, and when it was set up (microseconds since the Unix epoch).
pub struct ExtensionConfig<T> {
    pub enabled: bool,
    pub config: Option<T>,
    pub created_at: i64,
}

impl<T> ExtensionConfig<T> {
    /// A configuration set up now, enabled, with `config` as its settings.
    pub fn new(config: Option<T>) -> (res: Self)
        ensures
            res.enabled,
            res.config == config,
    {
        ExtensionConfig { config: config, ..Self::default() }
    }

    pub fn set_enabled(&mut self, value: bool)
        ensures
            final(self).enabled == value,
            final(self).config == old(self).config,
            final(self).created_at == old(self).created_at,
    {
        self.enabled = value;
    }
}

impl<T> Default for ExtensionConfig<T> {
    /// A configuration set up now, enabled, without settings.
    fn default() -> (res: Self)
        ensures
            res.enabled,
            res.config is None,
    {
        ExtensionConfig { enabled: true, config: None, created_at: now_micros() }
    }
}

/// The settings of the NASA extension: the channel that gets the picture of the day.
pub struct NasaExtConfig {
    pub channel_id: Option<String>,
}

impl NasaExtConfig {
    /// The default settings: no channel.
    pub fn default_config() -> (res: Self)
        ensures
            res.channel_id is None,
    {
        NasaExtConfig { channel_id: None }
    }
}

} // verus!
