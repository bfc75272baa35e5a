//! Which provider a configuration asks for.
use vstd::prelude::*;

use crate::config::{SttConfig, SttProviderType};
use crate::errors::{is_unsupported_error, SttError};

verus! {

/// The providers that can be created.
#[derive(Debug, Clone, Copy, PartialEq, Eq, Structural)]
pub enum ProviderKind {
    WhisperLocal,
    AssemblyAI,
    Deepgram,
    Backend,
}

/// Factory for creating STT providers based on configuration.
pub struct DefaultSttProviderFactory;

impl Default for DefaultSttProviderFactory {
    fn default() -> (f: Self) {
        DefaultSttProviderFactory
    }
}

impl DefaultSttProviderFactory {
    pub fn new() -> (f: Self) {
        DefaultSttProviderFactory
    }

    /// The provider for `config`: the four implemented ones are created,
    /// Google Cloud and Azure are refused as not implemented yet.
    pub fn create(&self, config: &SttConfig) -> (r: Result<ProviderKind, SttError>)
        ensures
            match config.provider {
                SttProviderType::WhisperLocal => r == Ok::<ProviderKind, SttError>(ProviderKind::WhisperLocal),
                SttProviderType::AssemblyAI => r == Ok::<ProviderKind, SttError>(ProviderKind::AssemblyAI),
                SttProviderType::Deepgram => r == Ok::<ProviderKind, SttError>(ProviderKind::Deepgram),
                SttProviderType::Backend => r == Ok::<ProviderKind, SttError>(ProviderKind::Backend),
                SttProviderType::GoogleCloud => r matches Err(e) && is_unsupported_error(
                    e,
                    "Google Cloud STT provider not yet implemented"@,
                ),
                SttProviderType::Azure => r matches Err(e) && is_unsupported_error(
                    e,
                    "Azure STT provider not yet implemented"@,
                ),
            },
    {
        match config.provider {
            SttProviderType::WhisperLocal => Ok(ProviderKind::WhisperLocal),
            SttProviderType::AssemblyAI => Ok(ProviderKind::AssemblyAI),
            SttProviderType::Deepgram => Ok(ProviderKind::Deepgram),
            SttProviderType::Backend => Ok(ProviderKind::Backend),
            SttProviderType::GoogleCloud => Err(
                SttError::Unsupported("Google Cloud STT provider not yet implemented".to_owned()),
            ),
            SttProviderType::Azure => Err(
                SttError::Unsupported("Azure STT provider not yet implemented".to_owned()),
            ),
        }
    }
}

} // verus!
