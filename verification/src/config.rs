//! Process configuration: the server's bind address, the search backend's
//! location, and the analysis client's endpoint. Reading the environment
//! stays with the caller, which hands the settings in as plain values.

use vstd::prelude::*;

verus! {

/// Where the HTTP server binds.
#[derive(Debug, Clone)]
pub struct ServerConfig {
    pub host: String,
    pub port: u16,
}

/// Where the search backend lives and which index is queried.
#[derive(Debug, Clone)]
pub struct QuickwitConfig {
    pub base_url: String,
    pub index_id: String,
}

/// Where the analysis endpoint lives, its optional key, and the model
/// name it is asked for.
#[derive(Debug, Clone)]
pub struct AiAnalyzerConfig {
    pub base_url: String,
    pub api_key: Option<String>,
    pub model: String,
}

/// The whole configuration, assembled once at process start.
#[derive(Debug, Clone)]
pub struct Config {
    pub server: ServerConfig,
    pub quickwit: QuickwitConfig,
    pub ai_analyzer: AiAnalyzerConfig,
}

impl Config {
    /// Assembles the configuration from settings already read; each part
    /// is kept exactly as given.
    pub fn load(server: ServerConfig, quickwit: QuickwitConfig, ai_analyzer: AiAnalyzerConfig) -> (r:
        Config)
        ensures
            r.server == server,
            r.quickwit == quickwit,
            r.ai_analyzer == ai_analyzer,
    {
        Config { server, quickwit, ai_analyzer }
    }
}

} // verus!
