use voicetext::config::{SttConfig, SttProviderType};
use voicetext::errors::SttError;
use voicetext::factory::{DefaultSttProviderFactory, ProviderKind};

#[test]
fn test_factory_new() {
    let _factory = DefaultSttProviderFactory::new();
    assert!(true);
}

#[test]
fn test_factory_default() {
    let _ = DefaultSttProviderFactory::default();
    assert!(true);
}

#[test]
fn test_create_whisper_local() {
    let factory = DefaultSttProviderFactory::new();
    let config = SttConfig::new(SttProviderType::WhisperLocal);
    let result = factory.create(&config);
    assert!(result.is_ok());
    assert_eq!(result.unwrap(), ProviderKind::WhisperLocal);
}

#[test]
fn test_create_assemblyai() {
    let factory = DefaultSttProviderFactory::new();
    let config = SttConfig::new(SttProviderType::AssemblyAI);
    let result = factory.create(&config);
    assert!(result.is_ok());
}

#[test]
fn test_create_deepgram() {
    let factory = DefaultSttProviderFactory::new();
    let config = SttConfig::new(SttProviderType::Deepgram);
    let result = factory.create(&config);
    assert!(result.is_ok());
}

#[test]
fn test_create_backend() {
    let factory = DefaultSttProviderFactory::new();
    let config = SttConfig::new(SttProviderType::Backend);
    let result = factory.create(&config);
    assert!(result.is_ok());
}

#[test]
fn test_create_google_cloud_unsupported() {
    let factory = DefaultSttProviderFactory::new();
    let config = SttConfig::new(SttProviderType::GoogleCloud);
    let result = factory.create(&config);
    assert!(result.is_err());
    match result {
        Err(SttError::Unsupported(m)) => assert_eq!(m, "Google Cloud STT provider not yet implemented"),
        _ => panic!("expected an unsupported error"),
    }
}

#[test]
fn test_create_azure_unsupported() {
    let factory = DefaultSttProviderFactory::new();
    let config = SttConfig::new(SttProviderType::Azure);
    let result = factory.create(&config);
    assert!(result.is_err());
    match result {
        Err(SttError::Unsupported(m)) => assert_eq!(m, "Azure STT provider not yet implemented"),
        _ => panic!("expected an unsupported error"),
    }
}
