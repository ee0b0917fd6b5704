//! Engine routing: which transcription backend a session uses, resolved once
//! per session from the saved configuration, and the model-catalog decision
//! of which local model to load.

use vstd::prelude::*;

verus! {

/// The saved transcription configuration.
#[derive(Clone, Debug)]
pub struct TranscriptConfig {
    pub provider: String,
    pub model: String,
    pub api_key: Option<String>,
    pub language: Option<String>,
}

/// The configuration used when none is saved or the lookup failed.
pub fn fallback_transcript_config() -> (r: TranscriptConfig)
    ensures
        r.provider@ == "parakeet"@,
        r.model@ == "parakeet-tdt-0.6b-v3-int8"@,
        r.api_key is None,
        r.language matches Some(l) && l@ == "es-419"@,
{
    TranscriptConfig {
        provider: String::from_str("parakeet"),
        model: String::from_str("parakeet-tdt-0.6b-v3-int8"),
        api_key: None,
        language: Some(String::from_str("es-419")),
    }
}

/// The saved configuration, or the fallback where none is available.
pub fn config_or_default(config: Option<TranscriptConfig>) -> (r: TranscriptConfig)
    ensures
        config matches Some(c) ==> r == c,
        config is None ==> {
            &&& r.provider@ == "parakeet"@
            &&& r.model@ == "parakeet-tdt-0.6b-v3-int8"@
            &&& (r.language matches Some(l) && l@ == "es-419"@)
        },
{
    match config {
        Some(c) => c,
        None => fallback_transcript_config(),
    }
}

/// A provider name the router accepts.
pub open spec fn spec_supported_provider(provider: Seq<char>) -> bool {
    ||| provider == "localWhisper"@
    ||| provider == "parakeet"@
    ||| provider == "moonshine"@
    ||| provider == "deepgram"@
}

/// Why a session must not start with the given configuration.
#[derive(Clone, Debug, PartialEq, Eq)]
pub enum ProviderValidationError {
    /// The configured provider name is not one the router knows.
    UnsupportedProvider(String),
    /// The provider is known but not ready: its model is not loaded, or the
    /// cloud provider has no valid credentials.
    ProviderNotReady(String),
}

/// Validate the configured provider before any resource is allocated:
/// an unknown provider name is rejected, and a known provider whose engine
/// reports itself unready blocks the start with an actionable error, rather
/// than starting a session that would silently produce no transcripts.
///
/// `engine_ready` is what the selected engine reported: model loaded and
/// validated for a local provider, valid cached credentials for the cloud
/// one.
pub fn validate_provider_choice(provider: &String, engine_ready: bool)
    -> (r: Result<(), ProviderValidationError>)
    ensures
        r is Ok <==> (spec_supported_provider(provider@) && engine_ready),
        !spec_supported_provider(provider@) ==> (r matches Err(
            ProviderValidationError::UnsupportedProvider(p),
        ) && p == provider),
        spec_supported_provider(provider@) && !engine_ready ==> (r matches Err(
            ProviderValidationError::ProviderNotReady(p),
        ) && p == provider),
{
    let supported = *provider == String::from_str("localWhisper")
        || *provider == String::from_str("parakeet")
        || *provider == String::from_str("moonshine")
        || *provider == String::from_str("deepgram");
    if !supported {
        Err(ProviderValidationError::UnsupportedProvider(provider.clone()))
    } else if !engine_ready {
        Err(ProviderValidationError::ProviderNotReady(provider.clone()))
    } else {
        Ok(())
    }
}

/// The backend a session runs on.
#[derive(Clone, Debug)]
pub enum EngineChoice {
    /// Local Whisper model.
    Whisper,
    /// Local Parakeet model.
    Parakeet,
    /// Local Moonshine model.
    Moonshine,
    /// Cloud streaming, two persistent connections (microphone and system
    /// audio), with the resolved model and language.
    Deepgram { model: String, language: String },
}

/// The model name a cloud session uses: the configured one, unless it is
/// empty or just the provider name, in which case the default model.
pub open spec fn spec_deepgram_model(config_model: Seq<char>) -> Seq<char> {
    if config_model.len() > 0 && config_model != "deepgram"@ {
        config_model
    } else {
        "nova-3"@
    }
}

/// The language a cloud session uses: the configured one where present and
/// non-empty, Latin American Spanish otherwise.
pub open spec fn spec_deepgram_language(language: Option<String>) -> Seq<char> {
    match language {
        Some(l) => if l@.len() > 0 {
            l@
        } else {
            "es-419"@
        },
        None => "es-419"@,
    }
}

/// Resolve the engine for a session from its configuration. Unknown provider
/// names fall back to Whisper, as the catch-all local engine.
pub fn select_engine(config: TranscriptConfig) -> (r: EngineChoice)
    ensures
        config.provider@ == "parakeet"@ ==> r is Parakeet,
        config.provider@ == "moonshine"@ ==> r is Moonshine,
        config.provider@ == "deepgram"@ ==> (r matches EngineChoice::Deepgram {
            model,
            language,
        } && model@ == spec_deepgram_model(config.model@) && language@
            == spec_deepgram_language(config.language)),
        config.provider@ != "parakeet"@ && config.provider@ != "moonshine"@
            && config.provider@ != "deepgram"@ ==> r is Whisper,
{
    proof {
        reveal_strlit("parakeet");
        reveal_strlit("moonshine");
        reveal_strlit("deepgram");
        reveal_strlit("localWhisper");
        assert("parakeet"@.index(0) == 'p');
        assert("moonshine"@.index(0) == 'm');
        assert("deepgram"@.index(0) == 'd');
        assert("parakeet"@ != "moonshine"@ && "parakeet"@ != "deepgram"@);
        assert("moonshine"@ != "deepgram"@);
    }
    if config.provider == String::from_str("parakeet") {
        EngineChoice::Parakeet
    } else if config.provider == String::from_str("moonshine") {
        EngineChoice::Moonshine
    } else if config.provider == String::from_str("deepgram") {
        let model = if !config.model.as_str().is_empty()
            && config.model != String::from_str("deepgram") {
            config.model
        } else {
            String::from_str("nova-3")
        };
        let language = match config.language {
            Some(l) => if !l.as_str().is_empty() {
                l
            } else {
                String::from_str("es-419")
            },
            None => String::from_str("es-419"),
        };
        EngineChoice::Deepgram { model, language }
    } else {
        EngineChoice::Whisper
    }
}

/// Readiness of one model in the local catalog.
#[derive(Clone, Debug)]
pub enum ModelStatus {
    Available,
    Missing,
    Downloading { progress: u8 },
    Error(String),
    Corrupted { file_size: u64, expected_min_size: u64 },
}

/// One entry of the local model catalog.
#[derive(Clone, Debug)]
pub struct ModelInfo {
    pub name: String,
    /// Where the model lives on disk.
    pub path: String,
    pub size_mb: u32,
    pub status: ModelStatus,
    pub description: String,
}

/// The decision of which local model to load for a session.
#[derive(Clone, Debug)]
pub enum ModelDecision {
    /// Load this model.
    Load(String),
    /// The wanted model is not downloaded.
    NotDownloaded(String),
    /// The wanted model is still downloading, at this progress.
    StillDownloading(String, u8),
    /// The wanted model is in an error state.
    Faulty(String),
    /// The wanted model's file is corrupted.
    CorruptedModel(String),
    /// Neither the wanted model nor any fallback is available.
    NoneAvailable(String),
}

/// Whether some catalog entry is available.
pub open spec fn spec_any_available(models: Seq<ModelInfo>) -> bool {
    exists|i: int| 0 <= i < models.len() && models[i].status is Available
}

/// Decide which model to load: the wanted model if the catalog has it and it
/// is available; a precise error if the catalog has it in another state; the
/// first available model as a fallback if the wanted one is absent; an error
/// if nothing is available at all.
#[verifier::rlimit(30)]
pub fn choose_model_to_load(models: &Vec<ModelInfo>, wanted: &String) -> (r: ModelDecision)
    ensures
        (forall|i: int|
            0 <= i < models@.len() ==> #[trigger] models@[i].name@ != wanted@) ==> {
            &&& (spec_any_available(models@) ==> (r matches ModelDecision::Load(m) && exists|
                i: int,
            |
                0 <= i < models@.len() && #[trigger] models@[i].status is Available
                    && m@ == models@[i].name@))
            &&& (!spec_any_available(models@) ==> (r matches ModelDecision::NoneAvailable(w)
                && w@ == wanted@))
        },
        (exists|i: int| 0 <= i < models@.len() && #[trigger] models@[i].name@ == wanted@)
            ==> {
            let i = choose|i: int|
                0 <= i < models@.len() && #[trigger] models@[i].name@ == wanted@ && forall|
                    j: int,
                |
                    0 <= j < i ==> models@[j].name@ != wanted@;
            &&& (models@[i].status is Available ==> (r matches ModelDecision::Load(m) && m@
                == wanted@))
            &&& (models@[i].status is Missing ==> (r matches ModelDecision::NotDownloaded(w)
                && w@ == wanted@))
            &&& (models@[i].status matches ModelStatus::Downloading { progress } ==> (
            r matches ModelDecision::StillDownloading(w, p) && w@ == wanted@ && p == progress))
            &&& (models@[i].status is Error ==> (r matches ModelDecision::Faulty(w) && w@
                == wanted@))
            &&& (models@[i].status is Corrupted ==> (r matches ModelDecision::CorruptedModel(
                w,
            ) && w@ == wanted@))
        },
{
    let n = models.len();
    let mut idx: usize = 0;
    let mut found: Option<usize> = None;
    while idx < n
        invariant
            n == models@.len(),
            idx <= n,
            found is None ==> forall|j: int|
                0 <= j < idx ==> #[trigger] models@[j].name@ != wanted@,
            found matches Some(i) ==> (0 <= i < n && models@[i as int].name@ == wanted@
                && (forall|j: int| 0 <= j < i ==> #[trigger] models@[j].name@ != wanted@)),
        decreases n - idx,
    {
        if found.is_none() && models[idx].name == *wanted {
            found = Some(idx);
        }
        idx = idx + 1;
    }
    match found {
        Some(i) => {
            proof {
                let w = choose|k: int|
                    0 <= k < models@.len() && #[trigger] models@[k].name@ == wanted@
                        && forall|j: int| 0 <= j < k ==> models@[j].name@ != wanted@;
                assert(w == i as int);
            }
            match &models[i].status {
                ModelStatus::Available => ModelDecision::Load(wanted.clone()),
                ModelStatus::Missing => ModelDecision::NotDownloaded(wanted.clone()),
                ModelStatus::Downloading { progress } => ModelDecision::StillDownloading(
                    wanted.clone(),
                    *progress,
                ),
                ModelStatus::Error(_) => ModelDecision::Faulty(wanted.clone()),
                ModelStatus::Corrupted { .. } => ModelDecision::CorruptedModel(wanted.clone()),
            }
        },
        None => {
            let mut k: usize = 0;
            while k < n
                invariant
                    n == models@.len(),
                    k <= n,
                    forall|j: int| 0 <= j < n ==> #[trigger] models@[j].name@ != wanted@,
                    forall|j: int| 0 <= j < k ==> !(#[trigger] models@[j].status is Available),
                decreases n - k,
            {
                match &models[k].status {
                    ModelStatus::Available => {
                        let fallback = models[k].name.clone();
                        proof {
                            assert(0 <= k < models@.len()
                                && models@[k as int].status is Available
                                && fallback@ == models@[k as int].name@);
                        }
                        return ModelDecision::Load(fallback);
                    },
                    _ => {},
                }
                k = k + 1;
            }
            proof {
                assert(!spec_any_available(models@));
            }
            ModelDecision::NoneAvailable(wanted.clone())
        },
    }
}

/// Integer percentage of a download, clamped to 100; zero of an unknown
/// total.
pub fn download_progress_percent(downloaded_bytes: u64, total_bytes: u64) -> (r: u8)
    ensures
        total_bytes == 0 ==> r == 0,
        total_bytes > 0 ==> r == if downloaded_bytes as int * 100 / total_bytes as int <= 100 {
            downloaded_bytes as int * 100 / total_bytes as int
        } else {
            100int
        },
{
    if total_bytes == 0 {
        return 0;
    }
    let scaled: u128 = (downloaded_bytes as u128) * 100;
    let pct: u128 = scaled / (total_bytes as u128);
    if pct >= 100 {
        100
    } else {
        pct as u8
    }
}

/// Failures of the Canary engine.
#[derive(Debug)]
pub enum CanaryEngineError {
    ModelNotLoaded,
    ModelNotFound(String),
    TranscriptionFailed(String),
    DownloadFailed(String),
    Io(String),
    Other(String),
}

impl CanaryEngineError {
    /// The error's description.
    pub fn message(&self) -> (r: String)
        ensures
            self is ModelNotLoaded ==> r@ == "No Canary model loaded"@,
            self matches CanaryEngineError::ModelNotFound(name) ==> r@ == "Model '"@ + name@
                + "' not found"@,
            self matches CanaryEngineError::TranscriptionFailed(e) ==> r@
                == "Transcription failed: "@ + e@,
            self matches CanaryEngineError::DownloadFailed(e) ==> r@ == "Download failed: "@
                + e@,
            self matches CanaryEngineError::Io(e) ==> r@ == "IO error: "@ + e@,
            self matches CanaryEngineError::Other(e) ==> r@ == "Error: "@ + e@,
    {
        match self {
            CanaryEngineError::ModelNotLoaded => String::from_str("No Canary model loaded"),
            CanaryEngineError::ModelNotFound(name) => {
                let mut m = String::from_str("Model '");
                m.append(name.as_str());
                m.append("' not found");
                m
            },
            CanaryEngineError::TranscriptionFailed(e) => {
                let mut m = String::from_str("Transcription failed: ");
                m.append(e.as_str());
                m
            },
            CanaryEngineError::DownloadFailed(e) => {
                let mut m = String::from_str("Download failed: ");
                m.append(e.as_str());
                m
            },
            CanaryEngineError::Io(e) => {
                let mut m = String::from_str("IO error: ");
                m.append(e.as_str());
                m
            },
            CanaryEngineError::Other(e) => {
                let mut m = String::from_str("Error: ");
                m.append(e.as_str());
                m
            },
        }
    }
}

/// Failures of the Moonshine engine.
#[derive(Debug)]
pub enum MoonshineEngineError {
    ModelNotLoaded,
    ModelNotFound(String),
    TranscriptionFailed(String),
    DownloadFailed(String),
    Io(String),
    Other(String),
}

impl MoonshineEngineError {
    /// The error's description.
    pub fn message(&self) -> (r: String)
        ensures
            self is ModelNotLoaded ==> r@ == "No Moonshine model loaded"@,
            self matches MoonshineEngineError::ModelNotFound(name) ==> r@ == "Model '"@
                + name@ + "' not found"@,
            self matches MoonshineEngineError::TranscriptionFailed(e) ==> r@
                == "Transcription failed: "@ + e@,
            self matches MoonshineEngineError::DownloadFailed(e) ==> r@
                == "Download failed: "@ + e@,
            self matches MoonshineEngineError::Io(e) ==> r@ == "IO error: "@ + e@,
            self matches MoonshineEngineError::Other(e) ==> r@ == "Error: "@ + e@,
    {
        match self {
            MoonshineEngineError::ModelNotLoaded => String::from_str(
                "No Moonshine model loaded"),
            MoonshineEngineError::ModelNotFound(name) => {
                let mut m = String::from_str("Model '");
                m.append(name.as_str());
                m.append("' not found");
                m
            },
            MoonshineEngineError::TranscriptionFailed(e) => {
                let mut m = String::from_str("Transcription failed: ");
                m.append(e.as_str());
                m
            },
            MoonshineEngineError::DownloadFailed(e) => {
                let mut m = String::from_str("Download failed: ");
                m.append(e.as_str());
                m
            },
            MoonshineEngineError::Io(e) => {
                let mut m = String::from_str("IO error: ");
                m.append(e.as_str());
                m
            },
            MoonshineEngineError::Other(e) => {
                let mut m = String::from_str("Error: ");
                m.append(e.as_str());
                m
            },
        }
    }
}

} // verus!
