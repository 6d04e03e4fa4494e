use vstd::prelude::*;
use crate::text::{join_path, path_join, str_eq};
use crate::tts_queue::{clamped_speed, MAX_SPEED_PERCENT, MIN_SPEED_PERCENT};

verus! {

/// Voice quality levels.
#[derive(Debug, Clone, Copy, PartialEq, Eq, Structural)]
pub enum VoiceQuality {
    Low,
    Medium,
    High,
}

/// Voice model metadata.
#[derive(Debug)]
pub struct VoiceMetadata {
    /// Unique identifier
    pub id: String,
    /// Display name
    pub name: String,
    /// Language code (e.g., "en-US")
    pub language: String,
    /// Quality level
    pub quality: VoiceQuality,
    /// Sample rate in Hz
    pub sample_rate: u32,
    /// Path to the ONNX model file
    pub onnx_path: String,
    /// Path to the model's JSON configuration
    pub config_path: String,
}

impl VoiceMetadata {
    /// A copy of this metadata.
    pub fn duplicate(&self) -> (r: Self)
        ensures
            r.id@ == self.id@,
            r.name@ == self.name@,
            r.language@ == self.language@,
            r.quality == self.quality,
            r.sample_rate == self.sample_rate,
            r.onnx_path@ == self.onnx_path@,
            r.config_path@ == self.config_path@,
    {
        VoiceMetadata {
            id: self.id.clone(),
            name: self.name.clone(),
            language: self.language.clone(),
            quality: self.quality,
            sample_rate: self.sample_rate,
            onnx_path: self.onnx_path.clone(),
            config_path: self.config_path.clone(),
        }
    }
}

/// Relies on `dirs::config_dir`: the user's configuration directory, if the
/// platform has one. It depends on the environment, so nothing is stated of it.
#[verifier::external_body]
fn user_config_dir() -> (r: Option<String>) {
    dirs::config_dir().map(|p| p.to_string_lossy().into_owned())
}

/// Settings of the speech output.
#[derive(Debug, Clone)]
pub struct TTSConfig {
    /// Whether speech is on
    pub enabled: bool,
    /// Whether new agent messages are spoken without asking
    pub auto_speak: bool,
    /// Selected voice model
    pub selected_voice: String,
    /// Playback speed in percent of normal, from 50 to 200
    pub playback_speed_percent: u32,
    /// Audio device name (None = default device)
    pub audio_device: Option<String>,
    /// Directory containing the voice models
    pub model_directory: String,
}

/// Where voice models live under a configuration directory.
pub open spec fn models_dir(config_dir: Seq<char>) -> Seq<char> {
    path_join(path_join(path_join(config_dir, "agent-dashboard"@), "tts"@), "models"@)
}

impl TTSConfig {
    /// Settings with speech off, the default voice at normal speed, and the
    /// voice models under `config_dir`.
    pub fn in_config_dir(config_dir: &str) -> (r: Self)
        ensures
            !r.enabled,
            !r.auto_speak,
            r.selected_voice@ == "default"@,
            r.playback_speed_percent == 100,
            r.audio_device is None,
            r.model_directory@ == models_dir(config_dir@),
    {
        let app_dir = join_path(config_dir, "agent-dashboard");
        let tts_dir = join_path(app_dir.as_str(), "tts");
        let model_directory = join_path(tts_dir.as_str(), "models");
        TTSConfig {
            enabled: false,
            auto_speak: false,
            selected_voice: String::from_str("default"),
            playback_speed_percent: 100,
            audio_device: None,
            model_directory,
        }
    }

    /// Brings the playback speed into its range.
    pub fn validate(&mut self)
        ensures
            final(self).playback_speed_percent == clamped_speed(old(self).playback_speed_percent),
            final(self).enabled == old(self).enabled,
            final(self).auto_speak == old(self).auto_speak,
            final(self).selected_voice == old(self).selected_voice,
            final(self).audio_device == old(self).audio_device,
            final(self).model_directory == old(self).model_directory,
    {
        if self.playback_speed_percent < MIN_SPEED_PERCENT {
            self.playback_speed_percent = MIN_SPEED_PERCENT;
        } else if self.playback_speed_percent > MAX_SPEED_PERCENT {
            self.playback_speed_percent = MAX_SPEED_PERCENT;
        }
    }
}

impl Default for TTSConfig {
    /// Settings with the voice models under the user's configuration
    /// directory, or under `~/.config` where there is none.
    fn default() -> (r: Self)
        ensures
            !r.enabled,
            r.playback_speed_percent == 100,
            exists|d: Seq<char>| r.model_directory@ == models_dir(d),
    {
        match user_config_dir() {
            Some(d) => TTSConfig::in_config_dir(d.as_str()),
            None => TTSConfig::in_config_dir("~/.config"),
        }
    }
}

/// Why a voice could not be loaded.
#[derive(Debug, Clone, Copy, PartialEq, Eq, Structural)]
pub enum TtsError {
    /// No voice with that identifier is registered.
    VoiceNotFound,
    /// The voice's model file does not exist.
    ModelFileNotFound,
    /// The voice's configuration file does not exist.
    ConfigFileNotFound,
}

/// A loaded voice model.
#[derive(Debug)]
pub struct PiperModel {
    /// Model identifier
    pub id: String,
    /// Sample rate in Hz
    pub sample_rate: u32,
}

impl PiperModel {
    /// Loads the model that `metadata` describes, given whether its model
    /// file and its configuration file exist.
    pub fn load(metadata: &VoiceMetadata, onnx_exists: bool, config_exists: bool) -> (r: Result<
        Self,
        TtsError,
    >)
        ensures
            !onnx_exists ==> r == Err::<Self, TtsError>(TtsError::ModelFileNotFound),
            onnx_exists && !config_exists ==> r == Err::<Self, TtsError>(TtsError::ConfigFileNotFound),
            onnx_exists && config_exists ==> (r matches Ok(m) && m.id@ == metadata.id@
                && m.sample_rate == metadata.sample_rate),
    {
        if !onnx_exists {
            return Err(TtsError::ModelFileNotFound);
        }
        if !config_exists {
            return Err(TtsError::ConfigFileNotFound);
        }
        Ok(PiperModel { id: metadata.id.clone(), sample_rate: metadata.sample_rate })
    }

    /// A copy of this model.
    pub fn duplicate(&self) -> (r: Self)
        ensures
            r.id@ == self.id@,
            r.sample_rate == self.sample_rate,
    {
        PiperModel { id: self.id.clone(), sample_rate: self.sample_rate }
    }
}

/// The voices a cache knows, with the model loaded last.
pub struct ModelCache {
    current: Option<PiperModel>,
    registry: Vec<VoiceMetadata>,
}

/// Whether two voice descriptions hold the same values.
pub open spec fn same_voice(a: VoiceMetadata, b: VoiceMetadata) -> bool {
    &&& a.id@ == b.id@
    &&& a.name@ == b.name@
    &&& a.language@ == b.language@
    &&& a.quality == b.quality
    &&& a.sample_rate == b.sample_rate
    &&& a.onnx_path@ == b.onnx_path@
    &&& a.config_path@ == b.config_path@
}

impl ModelCache {
    /// The registered voices.
    pub closed spec fn voices(&self) -> Seq<VoiceMetadata> {
        self.registry@
    }

    /// The identifier and sample rate of the loaded model, if one is loaded.
    pub closed spec fn current_model(&self) -> Option<(Seq<char>, u32)> {
        match self.current {
            Some(m) => Some((m.id@, m.sample_rate)),
            None => None,
        }
    }

    /// No two registered voices share an identifier.
    pub closed spec fn wf(&self) -> bool {
        forall|i: int, j: int|
            0 <= i < j < self.registry@.len() ==> self.registry@[i].id@ != self.registry@[j].id@
    }

    /// An empty cache with no model loaded.
    pub fn new() -> (r: Self)
        ensures
            r.wf(),
            r.voices().len() == 0,
            r.current_model() is None,
    {
        ModelCache { current: None, registry: Vec::new() }
    }

    /// The position of the voice registered as `voice_id`, if any.
    fn position(&self, voice_id: &str) -> (r: Option<usize>)
        ensures
            r matches Some(i) ==> i < self.voices().len() && self.voices()[i as int].id@ == voice_id@,
            r is None ==> forall|i: int|
                0 <= i < self.voices().len() ==> self.voices()[i].id@ != voice_id@,
    {
        let mut i: usize = 0;
        while i < self.registry.len()
            invariant
                i <= self.registry@.len(),
                forall|j: int| 0 <= j < i ==> self.registry@[j].id@ != voice_id@,
            decreases self.registry@.len() - i,
        {
            if str_eq(self.registry[i].id.as_str(), voice_id) {
                return Some(i);
            }
            i += 1;
        }
        None
    }

    /// Registers a voice, replacing any voice with the same identifier.
    pub fn register(&mut self, metadata: VoiceMetadata)
        requires
            old(self).wf(),
        ensures
            final(self).wf(),
            exists|i: int| 0 <= i < final(self).voices().len() && final(self).voices()[i] == metadata,
            forall|i: int| 0 <= i < old(self).voices().len() && old(self).voices()[i].id@ != metadata.id@
                ==> final(self).voices().contains(old(self).voices()[i]),
            final(self).current_model() == old(self).current_model(),
    {
        match self.position(metadata.id.as_str()) {
            Some(i) => {
                let ghost prev = self.registry@;
                self.registry.set(i, metadata);
                assert forall|k: int| 0 <= k < prev.len() && prev[k].id@ != metadata.id@
                    implies self.registry@.contains(prev[k]) by {
                    assert(k != i);
                    assert(self.registry@[k] == prev[k]);
                }
                assert(self.voices()[i as int] == metadata);
            },
            None => {
                let ghost prev = self.registry@;
                self.registry.push(metadata);
                assert forall|k: int| 0 <= k < prev.len() && prev[k].id@ != metadata.id@
                    implies self.registry@.contains(prev[k]) by {
                    assert(self.registry@[k] == prev[k]);
                }
                assert(self.voices()[prev.len() as int] == metadata);
            },
        }
    }

    /// Copies of the registered voices, in registration order.
    pub fn list_voices(&self) -> (r: Vec<VoiceMetadata>)
        ensures
            r@.len() == self.voices().len(),
            forall|k: int| 0 <= k < r@.len() ==> same_voice(#[trigger] r@[k], self.voices()[k]),
    {
        let mut r: Vec<VoiceMetadata> = Vec::new();
        let mut i: usize = 0;
        while i < self.registry.len()
            invariant
                i <= self.registry@.len(),
                r@.len() == i,
                forall|k: int| 0 <= k < i ==> same_voice(#[trigger] r@[k], self.registry@[k]),
            decreases self.registry@.len() - i,
        {
            r.push(self.registry[i].duplicate());
            i += 1;
        }
        r
    }

    /// The metadata of the voice registered as `voice_id`, if any.
    pub fn voice(&self, voice_id: &str) -> (r: Option<&VoiceMetadata>)
        ensures
            r matches Some(m) ==> m.id@ == voice_id@ && self.voices().contains(*m),
            r is None ==> forall|i: int|
                0 <= i < self.voices().len() ==> self.voices()[i].id@ != voice_id@,
    {
        match self.position(voice_id) {
            Some(i) => {
                assert(self.voices()[i as int] == self.registry@[i as int]);
                Some(&self.registry[i])
            },
            None => None,
        }
    }

    /// Loads the voice registered as `voice_id` and keeps it as the current
    /// model, given whether its model and configuration files exist.
    pub fn load_model(&mut self, voice_id: &str, onnx_exists: bool, config_exists: bool) -> (r: Result<
        PiperModel,
        TtsError,
    >)
        requires
            old(self).wf(),
        ensures
            load_done(*old(self), *final(self), voice_id@, onnx_exists, config_exists, r),
    {
        match self.position(voice_id) {
            None => Err(TtsError::VoiceNotFound),
            Some(i) => {
                let model = PiperModel::load(&self.registry[i], onnx_exists, config_exists);
                match model {
                    Ok(m) => {
                        self.current = Some(m.duplicate());
                        Ok(m)
                    },
                    Err(e) => Err(e),
                }
            },
        }
    }

    /// The current model when it is the voice `voice_id`, with the cache
    /// left as it is; otherwise what `load_model` gives.
    pub fn get_or_load(&mut self, voice_id: &str, onnx_exists: bool, config_exists: bool) -> (r: Result<
        PiperModel,
        TtsError,
    >)
        requires
            old(self).wf(),
        ensures
            old(self).current_model() matches Some(c) ==> (c.0 == voice_id@ ==> {
                &&& r matches Ok(m) && (m.id@, m.sample_rate) == c
                &&& final(self).voices() == old(self).voices()
                &&& final(self).current_model() == old(self).current_model()
            }),
            !(old(self).current_model() matches Some(c) && c.0 == voice_id@) ==> load_done(
                *old(self),
                *final(self),
                voice_id@,
                onnx_exists,
                config_exists,
                r,
            ),
    {
        if let Some(model) = &self.current {
            if str_eq(model.id.as_str(), voice_id) {
                return Ok(model.duplicate());
            }
        }
        self.load_model(voice_id, onnx_exists, config_exists)
    }
}

/// What loading the voice `voice_id` does: a voice that is not registered
/// gives `VoiceNotFound`, a missing model or configuration file its error,
/// and otherwise a model with the voice's identifier and sample rate, which
/// becomes the current model. The registry stays as it is, and so does the
/// current model when loading fails.
pub open spec fn load_done(
    c0: ModelCache,
    c1: ModelCache,
    voice_id: Seq<char>,
    onnx_exists: bool,
    config_exists: bool,
    r: Result<PiperModel, TtsError>,
) -> bool {
    let registered = exists|i: int| 0 <= i < c0.voices().len() && c0.voices()[i].id@ == voice_id;
    &&& c1.wf()
    &&& c1.voices() == c0.voices()
    &&& !registered ==> r == Err::<PiperModel, TtsError>(TtsError::VoiceNotFound)
    &&& registered && !onnx_exists ==> r == Err::<PiperModel, TtsError>(TtsError::ModelFileNotFound)
    &&& registered && onnx_exists && !config_exists ==> r == Err::<PiperModel, TtsError>(
        TtsError::ConfigFileNotFound,
    )
    &&& registered && onnx_exists && config_exists ==> (r matches Ok(m) && m.id@ == voice_id && forall|i: int|
        0 <= i < c0.voices().len() && c0.voices()[i].id@ == voice_id ==> m.sample_rate
            == c0.voices()[i].sample_rate)
    &&& r matches Ok(m) ==> c1.current_model() == Some((m.id@, m.sample_rate))
    &&& r is Err ==> c1.current_model() == c0.current_model()
}

/// Playback state of the speech output.
pub struct AudioPlayer {
    playing: bool,
}

impl AudioPlayer {
    /// Whether audio is playing.
    pub closed spec fn playing(&self) -> bool {
        self.playing
    }

    /// Where the player writes its audio files, under the configuration directory.
    pub fn get_audio_dir(config_dir: &str) -> (r: String)
        ensures
            r@ == path_join(path_join(config_dir@, "tts"@), "audio"@),
    {
        let tts_dir = join_path(config_dir, "tts");
        join_path(tts_dir.as_str(), "audio")
    }

    /// A player that is not playing.
    pub fn new() -> (r: Self)
        ensures
            !r.playing(),
    {
        AudioPlayer { playing: false }
    }

    /// Marks the start of playback.
    pub fn start(&mut self)
        ensures
            final(self).playing(),
    {
        self.playing = true;
    }

    /// Stops playback.
    pub fn stop(&mut self)
        ensures
            !final(self).playing(),
    {
        self.playing = false;
    }

    /// Pauses playback; the file output mode has nothing to pause.
    pub fn pause(&mut self)
        ensures
            final(self).playing() == old(self).playing(),
    {
    }

    /// Resumes playback; the file output mode has nothing to resume.
    pub fn resume(&mut self)
        ensures
            final(self).playing() == old(self).playing(),
    {
    }

    /// Whether audio is playing.
    pub fn is_playing(&self) -> (r: bool)
        ensures
            r == self.playing(),
    {
        self.playing
    }
}

} // verus!
