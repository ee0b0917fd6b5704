//! Configuration surfaces: hardware tiers, engine routing, cloud connection
//! parameters, device resolution and the string helpers.

use maity_core::deepgram::{
    base64_encode, generate_websocket_key, DeepgramConfig, ProxyConfigCache,
};
use maity_core::devices::{
    classify_device_type, parse_explicit_devices, resolve_microphone_from_preference,
    resolve_system_audio_from_preference,
};
use maity_core::engine::{
    choose_model_to_load, config_or_default, download_progress_percent, select_engine,
    validate_provider_choice, CanaryEngineError, EngineChoice, ModelDecision, ModelInfo,
    ModelStatus, MoonshineEngineError, ProviderValidationError, TranscriptConfig,
};
use maity_core::hardware::{
    accumulator_params, GpuType, HardwareProfile, PerformanceTier,
};
use maity_core::strutil::u64_to_string;
use maity_core::worker::format_current_timestamp;

#[test]
fn test_hardware_detection() {
    let profile = HardwareProfile::detect(GpuType::NoGpu);
    assert!(profile.cpu_cores > 0);
}

#[test]
fn test_performance_tier_logic() {
    let low_tier = HardwareProfile::calculate_performance_tier(2, &GpuType::NoGpu, 4);
    assert_eq!(low_tier, PerformanceTier::Low);

    let high_tier = HardwareProfile::calculate_performance_tier(8, &GpuType::Metal, 16);
    assert_eq!(high_tier, PerformanceTier::Ultra);
}

#[test]
fn tier_drives_chunking_and_realtime_limits() {
    let profile = HardwareProfile::detect(GpuType::Cuda);
    assert!(profile.has_gpu_acceleration);
    let ultra = HardwareProfile {
        cpu_cores: 8,
        has_gpu_acceleration: true,
        gpu_type: GpuType::Metal,
        memory_gb: 16,
        performance_tier: PerformanceTier::Ultra,
    };
    assert_eq!(ultra.get_recommended_chunk_duration_ms(), 25000);
    assert!(ultra.can_handle_realtime(96000, 2));
    let low = HardwareProfile {
        cpu_cores: 2,
        has_gpu_acceleration: false,
        gpu_type: GpuType::NoGpu,
        memory_gb: 4,
        performance_tier: PerformanceTier::Low,
    };
    assert_eq!(low.get_recommended_chunk_duration_ms(), 10000);
    assert!(!low.can_handle_realtime(48000, 2));
    assert!(low.can_handle_realtime(16000, 1));

    assert_eq!(accumulator_params(PerformanceTier::Ultra), (1000, 8000, 1500));
    assert_eq!(accumulator_params(PerformanceTier::High), (800, 6000, 1200));
    assert_eq!(accumulator_params(PerformanceTier::Medium), (800, 4000, 1000));
    assert_eq!(accumulator_params(PerformanceTier::Low), (500, 3000, 800));
}

#[test]
fn test_config_default() {
    let config = DeepgramConfig::default();
    assert_eq!(config.model, "nova-3");
    assert_eq!(config.language, "es-419");
    assert_eq!(config.sample_rate, 16000);
}

#[test]
fn test_websocket_url_building() {
    let transcriber = DeepgramConfig::new("test_api_key".to_string());
    let url = transcriber.build_websocket_url(None);

    assert!(url.contains("model=nova-3"));
    assert!(url.contains("language=es-419"));
    assert!(url.contains("sample_rate=16000"));
    assert!(url.contains("encoding=linear16"));
}

#[test]
fn test_websocket_url_with_language_override() {
    let transcriber = DeepgramConfig::new("test_api_key".to_string());
    let url = transcriber.build_websocket_url(Some("en"));

    assert!(url.contains("language=en"));
}

#[test]
fn websocket_url_is_exact_and_auto_language_falls_back() {
    let config = DeepgramConfig::new("k".to_string());
    assert_eq!(
        config.build_websocket_url(None),
        "wss://api.deepgram.com/v1/listen?model=nova-3&language=es-419&encoding=linear16&\
         sample_rate=16000&channels=1&punctuate=true&interim_results=true&\
         endpointing=200&vad_events=true"
    );
    let url = config.build_websocket_url(Some("auto-translate"));
    assert!(url.contains("language=es&"), "automatic language falls back to Spanish");
    assert!(config.build_websocket_url(Some("detect")).contains("language=es&"));
}

#[test]
fn auth_token_prefers_proxy_and_requires_some_credential() {
    let mut config = DeepgramConfig::new(String::new());
    assert!(config.get_auth_token().is_none());
    assert!(config.get_auth_header().is_none());
    config.api_key = "user_key".to_string();
    assert_eq!(config.get_auth_header().unwrap(), "Token user_key");
    config.set_cloud_token("short_lived".to_string());
    assert!(config.is_using_cloud_proxy());
    assert_eq!(config.get_auth_header().unwrap(), "Token short_lived");
}

#[test]
fn proxy_cache_expires_with_refresh_buffer() {
    let mut cache = ProxyConfigCache::new();
    assert!(!cache.has_cached_proxy_config(0));
    assert_eq!(
        cache
            .set_deepgram_proxy_config(String::new(), "jwt".to_string(), 300, 0)
            .unwrap_err(),
        "Proxy base URL cannot be empty"
    );
    assert_eq!(
        cache
            .set_deepgram_proxy_config("https://proxy".to_string(), String::new(), 300, 0)
            .unwrap_err(),
        "JWT cannot be empty"
    );
    cache
        .set_deepgram_proxy_config("https://proxy".to_string(), "jwt".to_string(), 300, 0)
        .unwrap();
    // valid while more than the 30 s buffer remains of the 300 s lifetime
    let cfg = cache.get_deepgram_proxy_config(0).expect("fresh credentials are valid");
    assert_eq!(cfg.proxy_base_url, "https://proxy");
    assert_eq!(cfg.jwt, "jwt");
    assert_eq!(cfg.expires_in, 300);
    assert!(cache.has_cached_proxy_config(269_999));
    assert!(!cache.has_cached_proxy_config(270_000), "the refresh buffer cuts 30 s early");
    assert!(cache.get_cached_proxy_config(1_000_000).is_none());
    cache.clear_deepgram_proxy_config();
    assert!(!cache.has_cached_proxy_config(0));
}

#[test]
fn base64_matches_known_vectors() {
    assert_eq!(base64_encode(b""), "");
    assert_eq!(base64_encode(b"a"), "YQ==");
    assert_eq!(base64_encode(b"ab"), "YWI=");
    assert_eq!(base64_encode(b"abc"), "YWJj");
    assert_eq!(base64_encode(b"abcd"), "YWJjZA==");
    assert_eq!(base64_encode(&[0xfb, 0xff, 0x3e]), "+/8+");
}

#[test]
fn websocket_key_is_24_characters() {
    let key = generate_websocket_key();
    assert_eq!(key.len(), 24);
    let other = generate_websocket_key();
    assert_eq!(other.len(), 24);
}

#[test]
fn decimal_rendering_is_exact() {
    assert_eq!(u64_to_string(0), "0");
    assert_eq!(u64_to_string(7), "7");
    assert_eq!(u64_to_string(16000), "16000");
    assert_eq!(u64_to_string(u64::MAX), "18446744073709551615");
}

#[test]
fn wall_clock_stamp_has_fixed_width() {
    assert_eq!(format_current_timestamp().len(), 8);
}

#[test]
fn engine_selection_follows_configuration() {
    let parakeet = config_or_default(None);
    assert_eq!(parakeet.provider, "parakeet");
    assert_eq!(parakeet.model, "parakeet-tdt-0.6b-v3-int8");
    assert!(matches!(select_engine(parakeet), EngineChoice::Parakeet));

    let moonshine = TranscriptConfig {
        provider: "moonshine".to_string(),
        model: "tiny".to_string(),
        api_key: None,
        language: None,
    };
    assert!(matches!(select_engine(moonshine), EngineChoice::Moonshine));

    let cloud = TranscriptConfig {
        provider: "deepgram".to_string(),
        model: String::new(),
        api_key: None,
        language: Some(String::new()),
    };
    match select_engine(cloud) {
        EngineChoice::Deepgram { model, language } => {
            assert_eq!(model, "nova-3", "empty model falls back to the default");
            assert_eq!(language, "es-419", "empty language falls back to Spanish");
        },
        other => panic!("expected the cloud engine, got {:?}", other),
    }

    let cloud_named = TranscriptConfig {
        provider: "deepgram".to_string(),
        model: "nova-2".to_string(),
        api_key: None,
        language: Some("en".to_string()),
    };
    match select_engine(cloud_named) {
        EngineChoice::Deepgram { model, language } => {
            assert_eq!(model, "nova-2");
            assert_eq!(language, "en");
        },
        other => panic!("expected the cloud engine, got {:?}", other),
    }

    let whisper = TranscriptConfig {
        provider: "localWhisper".to_string(),
        model: "small".to_string(),
        api_key: None,
        language: None,
    };
    assert!(matches!(select_engine(whisper), EngineChoice::Whisper));
}

#[test]
fn provider_validation_blocks_unknown_and_unready() {
    let p = "parakeet".to_string();
    assert!(validate_provider_choice(&p, true).is_ok());
    assert_eq!(
        validate_provider_choice(&p, false).unwrap_err(),
        ProviderValidationError::ProviderNotReady(p.clone())
    );
    let odd = "azure".to_string();
    assert_eq!(
        validate_provider_choice(&odd, true).unwrap_err(),
        ProviderValidationError::UnsupportedProvider(odd.clone())
    );
}

#[test]
fn model_catalog_decision_covers_every_state() {
    let catalog = vec![
        ModelInfo {
            name: "small".to_string(),
            path: "/models/small".to_string(),
            size_mb: 460,
            status: ModelStatus::Available,
            description: "general".to_string(),
        },
        ModelInfo {
            name: "large".to_string(),
            path: "/models/large".to_string(),
            size_mb: 3000,
            status: ModelStatus::Downloading { progress: 40 },
            description: "accurate".to_string(),
        },
        ModelInfo {
            name: "broken".to_string(),
            path: "/models/broken".to_string(),
            size_mb: 10,
            status: ModelStatus::Corrupted { file_size: 10, expected_min_size: 100 },
            description: "stub".to_string(),
        },
    ];
    assert!(matches!(
        choose_model_to_load(&catalog, &"small".to_string()),
        ModelDecision::Load(m) if m == "small"
    ));
    assert!(matches!(
        choose_model_to_load(&catalog, &"large".to_string()),
        ModelDecision::StillDownloading(m, 40) if m == "large"
    ));
    assert!(matches!(
        choose_model_to_load(&catalog, &"broken".to_string()),
        ModelDecision::CorruptedModel(m) if m == "broken"
    ));
    // an absent model falls back to the first available one
    assert!(matches!(
        choose_model_to_load(&catalog, &"medium".to_string()),
        ModelDecision::Load(m) if m == "small"
    ));
    let empty: Vec<ModelInfo> = Vec::new();
    assert!(matches!(
        choose_model_to_load(&empty, &"small".to_string()),
        ModelDecision::NoneAvailable(m) if m == "small"
    ));
    assert_eq!(download_progress_percent(0, 0), 0);
    assert_eq!(download_progress_percent(50, 200), 25);
    assert_eq!(download_progress_percent(300, 200), 100);
}

#[test]
fn engine_errors_render_their_messages() {
    assert_eq!(CanaryEngineError::ModelNotLoaded.message(), "No Canary model loaded");
    assert_eq!(
        CanaryEngineError::ModelNotFound("canary-1b".to_string()).message(),
        "Model 'canary-1b' not found"
    );
    assert_eq!(
        MoonshineEngineError::ModelNotLoaded.message(),
        "No Moonshine model loaded"
    );
    assert_eq!(
        MoonshineEngineError::DownloadFailed("timeout".to_string()).message(),
        "Download failed: timeout"
    );
}

#[test]
fn device_classification_is_case_insensitive() {
    assert_eq!(classify_device_type("AirPods Pro"), "Bluetooth");
    assert_eq!(classify_device_type("BLUETOOTH Headset"), "Bluetooth");
    assert_eq!(classify_device_type("Sony WH Wireless"), "Bluetooth");
    assert_eq!(classify_device_type("USB Condenser Mic"), "Wired");
    assert_eq!(classify_device_type(""), "Wired");
}

#[test]
fn microphone_resolution_prefers_saved_device_and_fails_loud() {
    let ok = resolve_microphone_from_preference(
        Some("Blue Yeti".to_string()),
        Some("Blue Yeti".to_string()),
        Some("Built-in".to_string()),
    );
    assert_eq!(ok.unwrap(), Some("Blue Yeti".to_string()));

    let fallback = resolve_microphone_from_preference(
        Some("Blue Yeti".to_string()),
        None,
        Some("Built-in".to_string()),
    );
    assert_eq!(fallback.unwrap(), Some("Built-in".to_string()));

    let neither = resolve_microphone_from_preference(Some("Blue Yeti".to_string()), None, None);
    assert_eq!(
        neither.unwrap_err(),
        "No microphone device available. Preferred device 'Blue Yeti' not found, \
         and default microphone unavailable"
    );

    let no_pref = resolve_microphone_from_preference(None, None, None);
    assert_eq!(no_pref.unwrap_err(), "No microphone device available");
}

#[test]
fn system_audio_resolution_degrades_quietly() {
    assert_eq!(
        resolve_system_audio_from_preference(Some("Loopback".to_string()), None),
        Some("Loopback".to_string())
    );
    assert_eq!(
        resolve_system_audio_from_preference(None, Some("Monitor".to_string())),
        Some("Monitor".to_string())
    );
    assert_eq!(resolve_system_audio_from_preference(None, None), None);
}

#[test]
fn explicit_devices_must_all_resolve() {
    let ok = parse_explicit_devices(
        &Some("Mic".to_string()),
        &None,
        Some("Mic".to_string()),
        None,
    )
    .unwrap();
    assert_eq!(ok.microphone, Some("Mic".to_string()));
    assert_eq!(ok.system_audio, None);

    let bad_mic = parse_explicit_devices(&Some("Ghost".to_string()), &None, None, None);
    assert_eq!(bad_mic.unwrap_err(), "Invalid microphone device 'Ghost'");

    let bad_sys = parse_explicit_devices(
        &None,
        &Some("Ghost Out".to_string()),
        None,
        None,
    );
    assert_eq!(bad_sys.unwrap_err(), "Invalid system device 'Ghost Out'");
}

#[test]
fn test_model_loaded_without_key() {
    let transcriber = DeepgramConfig::new(String::new());
    assert!(transcriber.get_auth_token().is_none());
}

#[test]
fn test_model_loaded_with_key() {
    let transcriber = DeepgramConfig::new("test_key".to_string());
    assert!(transcriber.get_auth_token().is_some());
}
