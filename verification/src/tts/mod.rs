//! Text to speech: languages, the request pipeline and the playback queue.

pub mod chunking;
pub mod defaults;
pub mod languages;
pub mod queue;
pub mod service;

pub use languages::{Language, LanguageConfig};
pub use queue::{TTSAudioChunk, TTSQueue, TTSQueueItem, TTSRequest};
pub use service::TTSService;

use vstd::prelude::*;
use defaults::default_languages;
use languages::LanguageView;

verus! {

/// The name of the file that holds the language configuration.
pub const LANGUAGES_CONFIG_FILE: &'static str = "tts_languages.toml";

/// The configuration of text to speech.
#[derive(Debug)]
pub struct TTSConfig {
    pub languages: LanguageConfig,
}

impl View for TTSConfig {
    type V = Seq<LanguageView>;

    /// The languages.
    open spec fn view(&self) -> Seq<LanguageView> {
        self.languages@
    }
}

impl TTSConfig {
    /// The configuration with every language enabled.
    pub fn new() -> (r: TTSConfig)
        ensures
            r@ == default_languages(),
    {
        TTSConfig { languages: LanguageConfig::new() }
    }
}

impl Clone for TTSConfig {
    fn clone(&self) -> (r: Self)
        ensures
            r@ == self@,
    {
        TTSConfig { languages: self.languages.clone() }
    }
}

impl Default for TTSConfig {
    fn default() -> (r: TTSConfig)
        ensures
            r@ == default_languages(),
    {
        TTSConfig::new()
    }
}

/// The language configuration to work with, given what was read from the
/// configuration file (`None` where the file is missing or cannot be
/// read): the configuration of the file, or else the one with every
/// language enabled. The flag tells whether that default is to be written
/// to the file.
pub fn language_config_or_default(loaded: Option<TTSConfig>) -> (r: (LanguageConfig, bool))
    ensures
        r.0@ == match loaded {
            Some(config) => config@,
            None => default_languages(),
        },
        r.1 == loaded is None,
{
    match loaded {
        Some(config) => (config.languages, false),
        None => (LanguageConfig::new(), true),
    }
}

} // verus!
