//! What the service needs before it serves: at least one embedder.
use vstd::prelude::*;

use crate::config::EmbeddersConfig;
use crate::embedding::GeminiEmbedder;

verus! {

/// Why the service cannot start.
#[derive(Clone, Copy, Debug, PartialEq, Eq, Structural)]
pub enum StartupError {
    /// No embedding provider is configured.
    NoEmbedders,
}

impl StartupError {
    /// The message of the error.
    pub fn message(&self) -> (m: String)
        ensures
            m@ == "No embedders configured"@,
    {
        String::from_str("No embedders configured")
    }
}

/// The embedders of the configuration: a Gemini embedder when it is
/// configured; having none is an error.
pub fn select_embedders(config: EmbeddersConfig) -> (r: Result<Vec<GeminiEmbedder>, StartupError>)
    ensures
        match config.gemini {
            Some(g) => r matches Ok(es) && es@.len() == 1 && es@[0].api_key() == g.api_key@,
            None => r == Err::<Vec<GeminiEmbedder>, StartupError>(StartupError::NoEmbedders),
        },
{
    let mut embedders: Vec<GeminiEmbedder> = Vec::new();
    match config.gemini {
        Some(g) => {
            embedders.push(GeminiEmbedder::new(g));
        },
        None => {},
    }
    if embedders.len() == 0 {
        return Err(StartupError::NoEmbedders);
    }
    Ok(embedders)
}

} // verus!
