//! The application's configuration and the overrides a caller lays over it.

use vstd::prelude::*;
use std::path::PathBuf;
use crate::registry::{
    copy_path,
    resolved_entry,
    ModelEntry,
    ModelRegistry,
    ModelRegistryView,
    ModelResources,
    ResourceLocation,
    DEFAULT_MODEL_ID,
};
use crate::runtime::{DeviceKind, Precision};
use crate::vfs::{
    display_path,
    path_text,
    FsError,
    VirtualFileSystem,
    VirtualPath,
    VirtualPathView,
};

verus! {

/// How inference runs.
///
/// `gpu_memory_utilization` is the bit pattern of a single-precision number:
/// the fraction of accelerator memory given to the model and its cache.
#[derive(Debug, Clone)]
pub struct InferenceSettings {
    pub device: DeviceKind,
    pub precision: Option<Precision>,
    pub template: String,
    pub base_size: u32,
    pub image_size: u32,
    pub crop_mode: bool,
    pub max_new_tokens: usize,
    pub use_cache: bool,
    pub gpu_memory_utilization: Option<u32>,
    pub max_num_seqs: Option<usize>,
}

/// Inference settings with their text as a sequence of characters.
pub struct InferenceSettingsView {
    pub device: DeviceKind,
    pub precision: Option<Precision>,
    pub template: Seq<char>,
    pub base_size: u32,
    pub image_size: u32,
    pub crop_mode: bool,
    pub max_new_tokens: usize,
    pub use_cache: bool,
    pub gpu_memory_utilization: Option<u32>,
    pub max_num_seqs: Option<usize>,
}

impl View for InferenceSettings {
    type V = InferenceSettingsView;

    open spec fn view(&self) -> InferenceSettingsView {
        InferenceSettingsView {
            device: self.device,
            precision: self.precision,
            template: self.template@,
            base_size: self.base_size,
            image_size: self.image_size,
            crop_mode: self.crop_mode,
            max_new_tokens: self.max_new_tokens,
            use_cache: self.use_cache,
            gpu_memory_utilization: self.gpu_memory_utilization,
            max_num_seqs: self.max_num_seqs,
        }
    }
}

impl InferenceSettings {
    /// The settings of a fresh installation.
    pub open spec fn initial() -> InferenceSettingsView {
        InferenceSettingsView {
            device: DeviceKind::Cpu,
            precision: None,
            template: "plain"@,
            base_size: 1024,
            image_size: 640,
            crop_mode: true,
            max_new_tokens: 512,
            use_cache: true,
            gpu_memory_utilization: None,
            max_num_seqs: None,
        }
    }
}

impl Default for InferenceSettings {
    fn default() -> (r: InferenceSettings)
        ensures
            r@ == InferenceSettings::initial(),
    {
        InferenceSettings {
            device: DeviceKind::Cpu,
            precision: None,
            template: "plain".to_owned(),
            base_size: 1024,
            image_size: 640,
            crop_mode: true,
            max_new_tokens: 512,
            use_cache: true,
            gpu_memory_utilization: None,
            max_num_seqs: None,
        }
    }
}

/// Where the server listens and which model it serves.
#[derive(Debug, Clone)]
pub struct ServerSettings {
    pub host: String,
    pub port: u16,
    pub model_id: String,
}

/// Server settings with their text as sequences of characters.
pub struct ServerSettingsView {
    pub host: Seq<char>,
    pub port: u16,
    pub model_id: Seq<char>,
}

impl View for ServerSettings {
    type V = ServerSettingsView;

    open spec fn view(&self) -> ServerSettingsView {
        ServerSettingsView { host: self.host@, port: self.port, model_id: self.model_id@ }
    }
}

impl ServerSettings {
    /// The settings of a fresh installation.
    pub open spec fn initial() -> ServerSettingsView {
        ServerSettingsView { host: "0.0.0.0"@, port: 8000, model_id: DEFAULT_MODEL_ID@ }
    }
}

impl Default for ServerSettings {
    fn default() -> (r: ServerSettings)
        ensures
            r@ == ServerSettings::initial(),
    {
        ServerSettings {
            host: "0.0.0.0".to_owned(),
            port: 8000,
            model_id: DEFAULT_MODEL_ID.to_owned(),
        }
    }
}

/// The whole configuration.
#[derive(Debug, Clone)]
pub struct AppConfig {
    pub models: ModelRegistry,
    pub inference: InferenceSettings,
    pub server: ServerSettings,
}

/// The whole configuration as text and maps.
pub struct AppConfigView {
    pub models: ModelRegistryView,
    pub inference: InferenceSettingsView,
    pub server: ServerSettingsView,
}

impl View for AppConfig {
    type V = AppConfigView;

    open spec fn view(&self) -> AppConfigView {
        AppConfigView { models: self.models@, inference: self.inference@, server: self.server@ }
    }
}

impl Default for AppConfig {
    fn default() -> (r: AppConfig)
        ensures
            r.wf(),
            r@ == AppConfig::initial(),
    {
        AppConfig {
            models: ModelRegistry::default(),
            inference: InferenceSettings::default(),
            server: ServerSettings::default(),
        }
    }
}

/// Where a configuration was read from, or is to be written to.
#[derive(Debug, Clone)]
pub struct ConfigDescriptor {
    pub location: ResourceLocation,
}

/// Replacements for inference settings; an absent field replaces nothing.
#[derive(Debug, Default, Clone)]
pub struct InferenceOverride {
    pub device: Option<DeviceKind>,
    pub precision: Option<Precision>,
    pub template: Option<String>,
    pub base_size: Option<u32>,
    pub image_size: Option<u32>,
    pub crop_mode: Option<bool>,
    pub max_new_tokens: Option<usize>,
    pub use_cache: Option<bool>,
    pub gpu_memory_utilization: Option<u32>,
    pub max_num_seqs: Option<usize>,
}

/// Replacements for inference settings, text as sequences of characters.
pub struct InferenceOverrideView {
    pub device: Option<DeviceKind>,
    pub precision: Option<Precision>,
    pub template: Option<Seq<char>>,
    pub base_size: Option<u32>,
    pub image_size: Option<u32>,
    pub crop_mode: Option<bool>,
    pub max_new_tokens: Option<usize>,
    pub use_cache: Option<bool>,
    pub gpu_memory_utilization: Option<u32>,
    pub max_num_seqs: Option<usize>,
}

/// The text of an optional string.
pub open spec fn text_of(s: Option<String>) -> Option<Seq<char>> {
    match s {
        Some(s) => Some(s@),
        None => None,
    }
}

impl View for InferenceOverride {
    type V = InferenceOverrideView;

    open spec fn view(&self) -> InferenceOverrideView {
        InferenceOverrideView {
            device: self.device,
            precision: self.precision,
            template: text_of(self.template),
            base_size: self.base_size,
            image_size: self.image_size,
            crop_mode: self.crop_mode,
            max_new_tokens: self.max_new_tokens,
            use_cache: self.use_cache,
            gpu_memory_utilization: self.gpu_memory_utilization,
            max_num_seqs: self.max_num_seqs,
        }
    }
}

/// Replacements for server settings; an absent field replaces nothing.
#[derive(Debug, Default, Clone)]
pub struct ServerOverride {
    pub host: Option<String>,
    pub port: Option<u16>,
    pub model_id: Option<String>,
}

/// Replacements for server settings, text as sequences of characters.
pub struct ServerOverrideView {
    pub host: Option<Seq<char>>,
    pub port: Option<u16>,
    pub model_id: Option<Seq<char>>,
}

impl View for ServerOverride {
    type V = ServerOverrideView;

    open spec fn view(&self) -> ServerOverrideView {
        ServerOverrideView {
            host: text_of(self.host),
            port: self.port,
            model_id: text_of(self.model_id),
        }
    }
}

/// Everything a caller can lay over a configuration.
///
/// `model_id` selects the active model; the three paths go to the entry of
/// the model that is active afterwards.
#[derive(Debug, Default, Clone)]
pub struct ConfigOverrides {
    pub config_path: Option<PathBuf>,
    pub model_id: Option<String>,
    pub model_config: Option<PathBuf>,
    pub tokenizer: Option<PathBuf>,
    pub weights: Option<PathBuf>,
    pub inference: InferenceOverride,
    pub server: ServerOverride,
}

/// Overrides, text as sequences of characters.
pub struct ConfigOverridesView {
    pub config_path: Option<PathBuf>,
    pub model_id: Option<Seq<char>>,
    pub model_config: Option<PathBuf>,
    pub tokenizer: Option<PathBuf>,
    pub weights: Option<PathBuf>,
    pub inference: InferenceOverrideView,
    pub server: ServerOverrideView,
}

impl View for ConfigOverrides {
    type V = ConfigOverridesView;

    open spec fn view(&self) -> ConfigOverridesView {
        ConfigOverridesView {
            config_path: self.config_path,
            model_id: text_of(self.model_id),
            model_config: self.model_config,
            tokenizer: self.tokenizer,
            weights: self.weights,
            inference: self.inference@,
            server: self.server@,
        }
    }
}

/// Why a configuration could not be brought into use.
#[derive(Debug, Clone)]
pub enum ConfigError {
    /// The file system refused an operation.
    Fs(FsError),
    /// The registry has no entry for the model with this id.
    ModelNotFound(String),
}

/// The replacement if there is one, else the value that was there.
pub open spec fn replaced<T>(over: Option<T>, base: T) -> T {
    match over {
        Some(v) => v,
        None => base,
    }
}

/// The replacement if there is one, else the optional value that was there.
pub open spec fn replaced_opt<T>(over: Option<T>, base: Option<T>) -> Option<T> {
    match over {
        Some(_) => over,
        None => base,
    }
}

/// An entry with the paths of `over` laid over it.
pub open spec fn merged_entry(base: ModelEntry, over: ConfigOverridesView) -> ModelEntry {
    ModelEntry {
        config: replaced_opt(over.model_config, base.config),
        tokenizer: replaced_opt(over.tokenizer, base.tokenizer),
        weights: replaced_opt(over.weights, base.weights),
    }
}

/// A registry with `over` laid over it. The model that `over` names becomes
/// the active one, and gets an entry that names no file if it had none.
/// The paths of `over` then go to the entry of the active model, if that
/// model has an entry.
pub open spec fn merged_models(base: ModelRegistryView, over: ConfigOverridesView)
    -> ModelRegistryView {
    let active = replaced(over.model_id, base.active);
    let known = if over.model_id is Some && !base.entries.contains_key(active) {
        base.entries.insert(active, ModelEntry::empty())
    } else {
        base.entries
    };
    let entries = if known.contains_key(active) {
        known.insert(active, merged_entry(known[active], over))
    } else {
        known
    };
    ModelRegistryView { active, entries }
}

/// Inference settings with `over` laid over them.
pub open spec fn merged_inference(base: InferenceSettingsView, over: InferenceOverrideView)
    -> InferenceSettingsView {
    InferenceSettingsView {
        device: replaced(over.device, base.device),
        precision: replaced_opt(over.precision, base.precision),
        template: replaced(over.template, base.template),
        base_size: replaced(over.base_size, base.base_size),
        image_size: replaced(over.image_size, base.image_size),
        crop_mode: replaced(over.crop_mode, base.crop_mode),
        max_new_tokens: replaced(over.max_new_tokens, base.max_new_tokens),
        use_cache: replaced(over.use_cache, base.use_cache),
        gpu_memory_utilization: replaced_opt(
            over.gpu_memory_utilization,
            base.gpu_memory_utilization,
        ),
        max_num_seqs: replaced_opt(over.max_num_seqs, base.max_num_seqs),
    }
}

/// Server settings with `over` laid over them.
pub open spec fn merged_server(base: ServerSettingsView, over: ServerOverrideView)
    -> ServerSettingsView {
    ServerSettingsView {
        host: replaced(over.host, base.host),
        port: replaced(over.port, base.port),
        model_id: replaced(over.model_id, base.model_id),
    }
}

/// A configuration with `over` laid over it.
pub open spec fn merged_config(base: AppConfigView, over: ConfigOverridesView) -> AppConfigView {
    AppConfigView {
        models: merged_models(base.models, over),
        inference: merged_inference(base.inference, over.inference),
        server: merged_server(base.server, over.server),
    }
}

/// A registry made fit for use: an empty one gets the default model, and
/// the active model gets an entry if it has none. Such an entry names no
/// file.
pub open spec fn normalised_models(base: ModelRegistryView) -> ModelRegistryView {
    let seeded = if base.entries == Map::<Seq<char>, ModelEntry>::empty() {
        base.entries.insert(DEFAULT_MODEL_ID@, ModelEntry::empty())
    } else {
        base.entries
    };
    let entries = if seeded.contains_key(base.active) {
        seeded
    } else {
        seeded.insert(base.active, ModelEntry::empty())
    };
    ModelRegistryView { active: base.active, entries }
}

/// A configuration whose registry is fit for use.
pub open spec fn normalised_config(base: AppConfigView) -> AppConfigView {
    AppConfigView {
        models: normalised_models(base.models),
        inference: base.inference,
        server: base.server,
    }
}

/// The file system `fs` answered `r` when it was asked to make sure of the
/// directory `path`, if `dir`, or else of the directory that holds `path`.
pub open spec fn answered_for<F: VirtualFileSystem>(
    fs: &F,
    dir: bool,
    path: VirtualPath,
    r: Result<(), FsError>,
) -> bool {
    if dir {
        call_ensures(F::ensure_dir, (fs, &path), r)
    } else {
        call_ensures(F::ensure_parent, (fs, &path), r)
    }
}

/// The file system `fs` answered `r` when it was asked for the virtual
/// path that reads `path`.
pub open spec fn asked<F: VirtualFileSystem>(
    fs: &F,
    dir: bool,
    path: VirtualPathView,
    r: Result<(), FsError>,
) -> bool {
    exists|p: VirtualPath| p@ == path && #[trigger] answered_for(fs, dir, p, r)
}

/// What the file system is asked for a model, in this order: the
/// directory of the model, then the directories that hold its
/// configuration, its tokenizer and its weights.
pub open spec fn preparation(model_id: Seq<char>, k: int) -> VirtualPathView {
    if k == 0 {
        VirtualPathView::ModelDir(model_id)
    } else if k == 1 {
        VirtualPathView::ModelConfig(model_id)
    } else if k == 2 {
        VirtualPathView::ModelTokenizer(model_id)
    } else {
        VirtualPathView::ModelWeights(model_id)
    }
}

/// `answers` are the answers of the file system to the preparations of
/// the model `model_id`, asked in their order up to the first refusal, and
/// `r` is the last of them: the first refusal, or the final assent.
pub open spec fn prepared_with<F: VirtualFileSystem>(
    fs: &F,
    model_id: Seq<char>,
    answers: Seq<Result<(), FsError>>,
    r: Result<(), FsError>,
) -> bool {
    &&& 1 <= answers.len() <= 4
    &&& forall|k: int|
        0 <= k < answers.len() ==> asked(fs, k == 0, preparation(model_id, k), #[trigger] answers[k])
    &&& forall|k: int| 0 <= k < answers.len() - 1 ==> (#[trigger] answers[k]) is Ok
    &&& answers.len() < 4 ==> answers.last() is Err
    &&& r == answers.last()
}

/// The file system was asked to prepare the model `model_id`, one
/// preparation after the other until one was refused, and `r` is what
/// came of it.
pub open spec fn entry_prepared<F: VirtualFileSystem>(
    fs: &F,
    model_id: Seq<char>,
    r: Result<(), FsError>,
) -> bool {
    exists|answers: Seq<Result<(), FsError>>| #[trigger] prepared_with(fs, model_id, answers, r)
}

/// The models `ids` were prepared in their order, the first `done` of them
/// with success, and `r` is what came of it: success if all were
/// prepared, else the refusal that the file system gave for the model
/// after those.
pub open spec fn prepared_to<F: VirtualFileSystem>(
    fs: &F,
    ids: Seq<Seq<char>>,
    done: int,
    r: Result<(), ConfigError>,
) -> bool {
    &&& 0 <= done <= ids.len()
    &&& forall|k: int| 0 <= k < done ==> entry_prepared(fs, #[trigger] ids[k], Ok(()))
    &&& if done == ids.len() {
        r is Ok
    } else {
        r matches Err(ConfigError::Fs(e)) && entry_prepared(fs, ids[done], Err(e))
    }
}

/// The models `ids` were prepared in their order, up to the first one
/// that the file system refused.
pub open spec fn models_prepared<F: VirtualFileSystem>(
    fs: &F,
    ids: Seq<Seq<char>>,
    r: Result<(), ConfigError>,
) -> bool {
    exists|done: int| #[trigger] prepared_to(fs, ids, done, r)
}

impl ModelEntry {
    /// Makes sure that the directories for the files of the model `model_id`
    /// exist. The first operation that the file system refuses ends the work.
    fn normalise<F: VirtualFileSystem>(&self, fs: &F, model_id: &str) -> (r: Result<(), FsError>)
        ensures
            entry_prepared(fs, model_id@, r),
    {
        let model_dir = VirtualPath::model_dir(model_id.to_owned());
        let first = fs.ensure_dir(&model_dir);
        let ghost mut answers: Seq<Result<(), FsError>> = seq![first];
        proof {
            assert(answered_for(fs, true, model_dir, first));
            assert(asked(fs, true, preparation(model_id@, 0), first));
        }
        if first.is_err() {
            proof {
                assert(prepared_with(fs, model_id@, answers, first));
            }
            return first;
        }
        let config = VirtualPath::model_config(model_id.to_owned());
        let second = fs.ensure_parent(&config);
        proof {
            assert(answered_for(fs, false, config, second));
            assert(asked(fs, false, preparation(model_id@, 1), second));
            answers = answers.push(second);
        }
        if second.is_err() {
            proof {
                assert(prepared_with(fs, model_id@, answers, second));
            }
            return second;
        }
        let tokenizer = VirtualPath::model_tokenizer(model_id.to_owned());
        let third = fs.ensure_parent(&tokenizer);
        proof {
            assert(answered_for(fs, false, tokenizer, third));
            assert(asked(fs, false, preparation(model_id@, 2), third));
            answers = answers.push(third);
        }
        if third.is_err() {
            proof {
                assert(prepared_with(fs, model_id@, answers, third));
            }
            return third;
        }
        let weights = VirtualPath::model_weights(model_id.to_owned());
        let fourth = fs.ensure_parent(&weights);
        proof {
            assert(answered_for(fs, false, weights, fourth));
            assert(asked(fs, false, preparation(model_id@, 3), fourth));
            answers = answers.push(fourth);
            assert(prepared_with(fs, model_id@, answers, fourth));
        }
        fourth
    }
}

/// What showing the virtual location `path` gives, given what the file
/// system answered when it was asked where `path` lies: the text of the
/// path that it named, or its refusal.
pub open spec fn shown_as(
    answer: Result<PathBuf, FsError>,
    r: Result<String, ConfigError>,
) -> bool {
    match answer {
        Ok(physical) => r matches Ok(text) && text@ == path_text(physical),
        Err(refusal) => r matches Err(ConfigError::Fs(e)) && e == refusal,
    }
}

/// The file system `fs` was asked where `path` lies, and `r` shows what it
/// answered.
pub open spec fn resolved_and_shown<F: VirtualFileSystem>(
    fs: &F,
    path: VirtualPath,
    r: Result<String, ConfigError>,
) -> bool {
    exists|answer: Result<PathBuf, FsError>|
        call_ensures(F::physical_path, (fs, &path), answer) && #[trigger] shown_as(answer, r)
}

impl ResourceLocation {
    /// The location as a path on disk, for showing to a person. A physical
    /// path is shown as it is; a virtual one is first resolved by `fs`.
    pub fn display_with<F: VirtualFileSystem>(&self, fs: &F) -> (r: Result<String, ConfigError>)
        ensures
            match *self {
                ResourceLocation::Physical(path) => r matches Ok(text) && text@ == path_text(path),
                ResourceLocation::Virtual(path) => resolved_and_shown(fs, path, r),
            },
    {
        match self {
            ResourceLocation::Virtual(path) => {
                let answer = fs.physical_path(path);
                let ghost answered = answer;
                let r = match answer {
                    Ok(physical) => Ok(display_path(&physical)),
                    Err(e) => Err(ConfigError::Fs(e)),
                };
                assert(shown_as(answered, r));
                r
            },
            ResourceLocation::Physical(path) => Ok(display_path(path)),
        }
    }
}

impl ModelRegistry {
    /// Lays the model choice and the paths of `overrides` over the registry.
    pub fn apply(&mut self, overrides: &ConfigOverrides)
        ensures
            final(self).entries.wf(),
            final(self)@ == merged_models(old(self)@, overrides@),
    {
        if let Some(model_id) = &overrides.model_id {
            self.active = model_id.clone();
            if !self.entries.contains_key(model_id.as_str()) {
                self.entries.insert(model_id.clone(), ModelEntry::default());
            }
        }
        let current = match self.entries.get(self.active.as_str()) {
            Some(entry) => Some(entry.duplicate()),
            None => None,
        };
        if let Some(entry) = current {
            let merged = ModelEntry {
                config: copy_path(
                    if overrides.model_config.is_some() {
                        &overrides.model_config
                    } else {
                        &entry.config
                    },
                ),
                tokenizer: copy_path(
                    if overrides.tokenizer.is_some() {
                        &overrides.tokenizer
                    } else {
                        &entry.tokenizer
                    },
                ),
                weights: copy_path(
                    if overrides.weights.is_some() {
                        &overrides.weights
                    } else {
                        &entry.weights
                    },
                ),
            };
            self.entries.insert(self.active.clone(), merged);
        }
    }
}

impl InferenceSettings {
    /// Lays `over` over the settings.
    pub fn apply(&mut self, over: &InferenceOverride)
        ensures
            final(self)@ == merged_inference(old(self)@, over@),
    {
        if let Some(device) = over.device {
            self.device = device;
        }
        if over.precision.is_some() {
            self.precision = over.precision;
        }
        if let Some(template) = &over.template {
            self.template = template.clone();
        }
        if let Some(base_size) = over.base_size {
            self.base_size = base_size;
        }
        if let Some(image_size) = over.image_size {
            self.image_size = image_size;
        }
        if let Some(crop_mode) = over.crop_mode {
            self.crop_mode = crop_mode;
        }
        if let Some(max_new_tokens) = over.max_new_tokens {
            self.max_new_tokens = max_new_tokens;
        }
        if let Some(use_cache) = over.use_cache {
            self.use_cache = use_cache;
        }
        if over.gpu_memory_utilization.is_some() {
            self.gpu_memory_utilization = over.gpu_memory_utilization;
        }
        if over.max_num_seqs.is_some() {
            self.max_num_seqs = over.max_num_seqs;
        }
    }
}

impl ServerSettings {
    /// Lays `over` over the settings.
    pub fn apply(&mut self, over: &ServerOverride)
        ensures
            final(self)@ == merged_server(old(self)@, over@),
    {
        if let Some(host) = &over.host {
            self.host = host.clone();
        }
        if let Some(port) = over.port {
            self.port = port;
        }
        if let Some(model_id) = &over.model_id {
            self.model_id = model_id.clone();
        }
    }
}

impl AppConfig {
    /// The registry holds no id twice. This holds of every configuration.
    pub open spec fn wf(&self) -> bool {
        self.models.entries.wf()
    }

    /// The configuration of a fresh installation.
    pub open spec fn initial() -> AppConfigView {
        AppConfigView {
            models: ModelRegistry::initial(),
            inference: InferenceSettings::initial(),
            server: ServerSettings::initial(),
        }
    }

    /// Makes the registry fit for use, then has `fs` prepare the directories
    /// of every model in it, in the order of the ids.
    ///
    /// The registry is mended whatever the file system does; the result tells
    /// whether the file system went along.
    pub fn normalise<F: VirtualFileSystem>(&mut self, fs: &F) -> (r: Result<(), ConfigError>)
        ensures
            final(self).wf(),
            final(self)@ == normalised_config(old(self)@),
            r matches Err(e) ==> e is Fs,
            models_prepared(fs, final(self).models.entries.ids(), r),
    {
        if self.models.entries.is_empty() {
            self.models.entries.insert(DEFAULT_MODEL_ID.to_owned(), ModelEntry::default());
        }
        if !self.models.entries.contains_key(self.models.active.as_str()) {
            self.models.entries.insert(self.models.active.clone(), ModelEntry::default());
        }
        let n = self.models.entries.len();
        let ghost ids = self.models.entries.ids();
        let mut i: usize = 0;
        while i < n
            invariant
                n == self.models.entries.ids().len(),
                ids == self.models.entries.ids(),
                i <= n,
                self.wf(),
                self@ == normalised_config(old(self)@),
                forall|k: int| 0 <= k < i ==> entry_prepared(fs, #[trigger] ids[k], Ok(())),
            decreases n - i,
        {
            let outcome = self.models.entries.entry_at(i).normalise(
                fs,
                self.models.entries.id_at(i).as_str(),
            );
            match outcome {
                Ok(()) => {
                    assert(outcome is Ok);
                    assert(outcome->Ok_0 == ());
                    assert(outcome == Ok::<(), FsError>(()));
                    assert(entry_prepared(fs, ids[i as int], Ok(())));
                },
                Err(e) => {
                    proof {
                        assert(prepared_to(fs, ids, i as int, Err(ConfigError::Fs(e))));
                    }
                    return Err(ConfigError::Fs(e));
                },
            }
            i = i + 1;
        }
        proof {
            assert(prepared_to(fs, ids, n as int, Ok(())));
        }
        Ok(())
    }

    /// The file locations of the active model.
    pub fn active_model_resources<F: VirtualFileSystem>(&self, fs: &F) -> (r: Result<
        ModelResources,
        ConfigError,
    >)
        ensures
            resources_outcome(self@.models, self@.models.active, r),
    {
        self.model_resources(fs, self.models.active.as_str())
    }

    /// The file locations of the model `model_id`; an error if the registry
    /// has no entry for it.
    pub fn model_resources<F: VirtualFileSystem>(&self, _fs: &F, model_id: &str) -> (r: Result<
        ModelResources,
        ConfigError,
    >)
        ensures
            resources_outcome(self@.models, model_id@, r),
    {
        match self.models.entries.get(model_id) {
            Some(entry) => Ok(entry.resolved(model_id)),
            None => Err(ConfigError::ModelNotFound(model_id.to_owned())),
        }
    }

    /// Lays `overrides` over the configuration.
    pub fn apply_overrides(&mut self, overrides: &ConfigOverrides)
        ensures
            final(self).wf(),
            final(self)@ == merged_config(old(self)@, overrides@),
    {
        self.models.apply(overrides);
        self.inference.apply(&overrides.inference);
        self.server.apply(&overrides.server);
    }

    /// Brings a configuration that was just read into use: lays `overrides`
    /// over it, makes the registry fit for use, and finds the files of the
    /// active model.
    pub fn load_with_overrides<F: VirtualFileSystem>(
        fs: &F,
        loaded: (AppConfig, ConfigDescriptor),
        overrides: ConfigOverrides,
    ) -> (r: Result<(AppConfig, ConfigDescriptor, ModelResources), ConfigError>)
        ensures
            match r {
                Ok((config, descriptor, resources)) => {
                    &&& config.wf()
                    &&& config@ == normalised_config(merged_config(loaded.0@, overrides@))
                    &&& descriptor == loaded.1
                    &&& resources@ == resolved_entry(
                        config@.models.entries[config@.models.active],
                        config@.models.active,
                    )
                },
                Err(e) => e is Fs,
            },
    {
        let (mut config, descriptor) = loaded;
        overrides.apply(&mut config);
        match config.normalise(fs) {
            Ok(()) => {},
            Err(e) => {
                return Err(e);
            },
        }
        match config.active_model_resources(fs) {
            Ok(resources) => Ok((config, descriptor, resources)),
            Err(e) => Err(e),
        }
    }
}

/// What looking up the files of the model `model_id` gives: the locations
/// that its entry stands for, or the id back if there is no entry.
pub open spec fn resources_outcome(
    models: ModelRegistryView,
    model_id: Seq<char>,
    r: Result<ModelResources, ConfigError>,
) -> bool {
    match r {
        Ok(resources) => models.entries.contains_key(model_id) && resources@ == resolved_entry(
            models.entries[model_id],
            model_id,
        ),
        Err(e) => !models.entries.contains_key(model_id) && (e matches ConfigError::ModelNotFound(
            id,
        ) && id@ == model_id),
    }
}

/// Something that can be laid over a configuration.
pub trait ConfigOverride: Sized {
    /// What is laid over the configuration.
    spec fn replacements(&self) -> ConfigOverridesView;

    /// Lays `self` over `config`.
    fn apply(self, config: &mut AppConfig)
        ensures
            final(config).wf(),
            final(config)@ == merged_config(old(config)@, self.replacements()),
    ;
}

impl ConfigOverride for ConfigOverrides {
    open spec fn replacements(&self) -> ConfigOverridesView {
        self@
    }

    fn apply(self, config: &mut AppConfig) {
        config.apply_overrides(&self);
    }
}

impl<'a> ConfigOverride for &'a ConfigOverrides {
    open spec fn replacements(&self) -> ConfigOverridesView {
        (*self)@
    }

    fn apply(self, config: &mut AppConfig) {
        config.apply_overrides(self);
    }
}

impl<O: ConfigOverride> core::ops::AddAssign<O> for AppConfig {
    /// Lays `rhs` over the configuration.
    fn add_assign(&mut self, rhs: O)
        ensures
            final(self).wf(),
            final(self)@ == merged_config(old(self)@, rhs.replacements()),
    {
        rhs.apply(self);
    }
}

} // verus!
