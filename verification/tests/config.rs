use std::path::PathBuf;
use std::sync::Mutex;

use deepseek_ocr::config::{
    AppConfig, ConfigDescriptor, ConfigError, ConfigOverride, ConfigOverrides, InferenceOverride,
    InferenceSettings, ServerOverride, ServerSettings,
};
use deepseek_ocr::registry::{
    text_less, ModelEntries, ModelEntry, ModelRegistry, ModelResources, ResourceLocation,
    DEFAULT_MODEL_ID,
};
use deepseek_ocr::runtime::{DeviceKind, Precision};
use deepseek_ocr::vfs::{FsError, VirtualFileSystem, VirtualPath};

/// A file system that remembers what it was asked to do.
struct Recorder {
    asked: Mutex<Vec<String>>,
    refuse: Option<String>,
}

impl Recorder {
    fn new() -> Recorder {
        Recorder { asked: Mutex::new(Vec::new()), refuse: None }
    }

    fn refusing(what: &str) -> Recorder {
        Recorder { asked: Mutex::new(Vec::new()), refuse: Some(what.to_string()) }
    }

    fn note(&self, what: String) -> Result<(), FsError> {
        self.asked.lock().unwrap().push(what.clone());
        if self.refuse.as_deref() == Some(what.as_str()) {
            Err(FsError { message: format!("refused {}", what) })
        } else {
            Ok(())
        }
    }

    fn asked(&self) -> Vec<String> {
        self.asked.lock().unwrap().clone()
    }
}

impl VirtualFileSystem for Recorder {
    fn is_present(&self, path: &VirtualPath) -> Result<bool, FsError> {
        self.note(format!("present {:?}", path)).map(|_| false)
    }

    fn read(&self, path: &VirtualPath) -> Result<Vec<u8>, FsError> {
        self.note(format!("read {:?}", path)).map(|_| Vec::new())
    }

    fn write(&self, path: &VirtualPath, _contents: &[u8]) -> Result<(), FsError> {
        self.note(format!("write {:?}", path))
    }

    fn ensure_dir(&self, path: &VirtualPath) -> Result<(), FsError> {
        self.note(format!("dir {:?}", path))
    }

    fn ensure_parent(&self, path: &VirtualPath) -> Result<(), FsError> {
        self.note(format!("parent {:?}", path))
    }

    fn physical_path(&self, path: &VirtualPath) -> Result<PathBuf, FsError> {
        self.note(format!("resolve {:?}", path))?;
        Ok(match path {
            VirtualPath::ConfigFile => PathBuf::from("/base/config.toml"),
            VirtualPath::ModelDir(id) => PathBuf::from(format!("/base/models/{}", id)),
            VirtualPath::ModelConfig(id) => PathBuf::from(format!("/base/models/{}/config", id)),
            VirtualPath::ModelTokenizer(id) => {
                PathBuf::from(format!("/base/models/{}/tokenizer", id))
            }
            VirtualPath::ModelWeights(id) => PathBuf::from(format!("/base/models/{}/weights", id)),
        })
    }
}

fn entry(config: Option<&str>, tokenizer: Option<&str>, weights: Option<&str>) -> ModelEntry {
    ModelEntry {
        config: config.map(PathBuf::from),
        tokenizer: tokenizer.map(PathBuf::from),
        weights: weights.map(PathBuf::from),
    }
}

fn same_entry(a: &ModelEntry, b: &ModelEntry) -> bool {
    a.config == b.config && a.tokenizer == b.tokenizer && a.weights == b.weights
}

fn is_virtual(location: &ResourceLocation, path: VirtualPath) -> bool {
    matches!(location, ResourceLocation::Virtual(p) if *p == path)
}

fn is_physical(location: &ResourceLocation, path: &str) -> bool {
    matches!(location, ResourceLocation::Physical(p) if p == &PathBuf::from(path))
}

fn ids(entries: &ModelEntries) -> Vec<String> {
    (0..entries.len()).map(|i| entries.id_at(i).clone()).collect()
}

#[test]
fn the_default_configuration() {
    let cfg = AppConfig::default();
    assert_eq!(cfg.models.active, "deepseek-ocr");
    assert_eq!(DEFAULT_MODEL_ID, "deepseek-ocr");
    assert_eq!(ids(&cfg.models.entries), vec!["deepseek-ocr".to_string()]);
    assert!(same_entry(cfg.models.entries.get("deepseek-ocr").unwrap(), &entry(None, None, None)));
    assert_eq!(cfg.inference.device, DeviceKind::Cpu);
    assert_eq!(cfg.inference.precision, None);
    assert_eq!(cfg.inference.template, "plain");
    assert_eq!(cfg.inference.base_size, 1024);
    assert_eq!(cfg.inference.image_size, 640);
    assert!(cfg.inference.crop_mode);
    assert_eq!(cfg.inference.max_new_tokens, 512);
    assert!(cfg.inference.use_cache);
    assert_eq!(cfg.inference.gpu_memory_utilization, None);
    assert_eq!(cfg.inference.max_num_seqs, None);
    assert_eq!(cfg.server.host, "0.0.0.0");
    assert_eq!(cfg.server.port, 8000);
    assert_eq!(cfg.server.model_id, "deepseek-ocr");
}

#[test]
fn the_defaults_of_the_parts() {
    let registry = ModelRegistry::default();
    assert_eq!(registry.active, "deepseek-ocr");
    assert_eq!(registry.entries.len(), 1);
    let e = ModelEntry::default();
    assert!(e.config.is_none() && e.tokenizer.is_none() && e.weights.is_none());
    assert_eq!(InferenceSettings::default().template, "plain");
    assert_eq!(ServerSettings::default().port, 8000);
}

#[test]
fn the_entries_are_a_map_kept_in_the_order_of_the_ids() {
    let mut entries = ModelEntries::new();
    assert!(entries.is_empty());
    assert_eq!(entries.len(), 0);
    assert!(entries.get("a").is_none());
    assert!(entries.insert("b".to_string(), entry(Some("/b"), None, None)).is_none());
    assert!(entries.insert("a".to_string(), entry(Some("/a"), None, None)).is_none());
    assert!(entries.insert("c".to_string(), entry(Some("/c"), None, None)).is_none());
    assert!(entries.insert("ab".to_string(), entry(None, None, None)).is_none());
    assert!(entries.insert("".to_string(), entry(None, None, None)).is_none());
    assert!(entries.insert("B".to_string(), entry(None, None, None)).is_none());
    assert!(!entries.is_empty());
    assert_eq!(ids(&entries), vec!["", "B", "a", "ab", "b", "c"]);
    assert!(entries.contains_key("a") && entries.contains_key("b") && entries.contains_key(""));
    assert!(!entries.contains_key("d") && !entries.contains_key("A"));
    assert_eq!(entries.position("a"), Some(2));
    assert_eq!(entries.position("d"), None);
    let previous = entries.insert("b".to_string(), entry(None, Some("/t"), None)).unwrap();
    assert!(same_entry(&previous, &entry(Some("/b"), None, None)));
    assert_eq!(ids(&entries), vec!["", "B", "a", "ab", "b", "c"]);
    assert!(same_entry(entries.get("b").unwrap(), &entry(None, Some("/t"), None)));
    assert!(same_entry(entries.get("a").unwrap(), &entry(Some("/a"), None, None)));
    assert!(same_entry(entries.get("c").unwrap(), &entry(Some("/c"), None, None)));
    assert!(same_entry(entries.entry_at(4), &entry(None, Some("/t"), None)));
    let copy = entries.clone();
    assert_eq!(ids(&copy), ids(&entries));
    assert!(same_entry(copy.get("a").unwrap(), entries.get("a").unwrap()));
}

#[test]
fn the_order_of_ids_is_the_order_of_strings() {
    let words = ["", "a", "A", "ab", "abc", "abd", "b", "deepseek-ocr", "deepseek", "mine",
        "\u{e9}", "z", "\u{10000}", "\u{ffff}", "a\u{e9}", "aa"];
    for a in words {
        for b in words {
            assert_eq!(text_less(a, b), a < b, "{:?} {:?}", a, b);
        }
    }
    let mut entries = ModelEntries::new();
    for w in words {
        entries.insert(w.to_string(), entry(None, None, None));
    }
    let mut sorted: Vec<String> = words.iter().map(|w| w.to_string()).collect();
    sorted.sort();
    assert_eq!(ids(&entries), sorted);
}

#[test]
fn models_are_prepared_in_the_order_of_their_ids() {
    let fs = Recorder::new();
    let mut entries = ModelEntries::new();
    entries.insert("m".to_string(), entry(None, None, None));
    let mut cfg = AppConfig::default();
    cfg.models = ModelRegistry { active: "a".to_string(), entries };
    cfg.normalise(&fs).unwrap();
    assert_eq!(ids(&cfg.models.entries), vec!["a", "m"]);
    assert_eq!(
        fs.asked(),
        vec![
            "dir ModelDir(\"a\")",
            "parent ModelConfig(\"a\")",
            "parent ModelTokenizer(\"a\")",
            "parent ModelWeights(\"a\")",
            "dir ModelDir(\"m\")",
            "parent ModelConfig(\"m\")",
            "parent ModelTokenizer(\"m\")",
            "parent ModelWeights(\"m\")",
        ]
    );
}

#[test]
fn nothing_is_asked_of_the_file_system_after_a_refusal() {
    for (refused, asked) in [
        ("dir ModelDir(\"a\")", 1usize),
        ("parent ModelConfig(\"a\")", 2),
        ("parent ModelWeights(\"a\")", 4),
        ("dir ModelDir(\"m\")", 5),
        ("parent ModelWeights(\"m\")", 8),
    ] {
        let fs = Recorder::refusing(refused);
        let mut entries = ModelEntries::new();
        entries.insert("m".to_string(), entry(None, None, None));
        entries.insert("a".to_string(), entry(None, None, None));
        let mut cfg = AppConfig::default();
        cfg.models = ModelRegistry { active: "a".to_string(), entries };
        let r = cfg.normalise(&fs);
        assert!(matches!(r, Err(ConfigError::Fs(ref e)) if e.message.contains(refused)));
        assert_eq!(fs.asked().len(), asked);
        assert_eq!(fs.asked().last().unwrap(), refused);
    }
}

#[test]
fn an_entry_resolves_to_its_paths_or_to_virtual_ones() {
    let r = entry(None, None, None).resolved("m");
    assert!(is_virtual(&r.config, VirtualPath::ModelConfig("m".to_string())));
    assert!(is_virtual(&r.tokenizer, VirtualPath::ModelTokenizer("m".to_string())));
    assert!(is_virtual(&r.weights, VirtualPath::ModelWeights("m".to_string())));
    let r = entry(Some("/c.json"), None, Some("/w.bin")).resolved("m");
    assert!(is_physical(&r.config, "/c.json"));
    assert!(is_virtual(&r.tokenizer, VirtualPath::ModelTokenizer("m".to_string())));
    assert!(is_physical(&r.weights, "/w.bin"));
    let r = entry(None, Some("/t.json"), None).resolved("other");
    assert!(is_virtual(&r.config, VirtualPath::ModelConfig("other".to_string())));
    assert!(is_physical(&r.tokenizer, "/t.json"));
}

#[test]
fn virtual_paths_are_made_by_role() {
    assert_eq!(VirtualPath::config_file(), VirtualPath::ConfigFile);
    assert_eq!(VirtualPath::model_dir("m".to_string()), VirtualPath::ModelDir("m".to_string()));
    assert_eq!(
        VirtualPath::model_config("m".to_string()),
        VirtualPath::ModelConfig("m".to_string())
    );
    assert_eq!(
        VirtualPath::model_tokenizer("m".to_string()),
        VirtualPath::ModelTokenizer("m".to_string())
    );
    assert_eq!(
        VirtualPath::model_weights("m".to_string()),
        VirtualPath::ModelWeights("m".to_string())
    );
}

#[test]
fn a_physical_location_is_shown_as_it_is() {
    let fs = Recorder::new();
    let location = ResourceLocation::Physical(PathBuf::from("/some/where/model.bin"));
    assert_eq!(location.display_with(&fs).unwrap(), "/some/where/model.bin");
    assert!(fs.asked().is_empty());
}

#[test]
fn a_virtual_location_is_resolved_before_it_is_shown() {
    let fs = Recorder::new();
    let location = ResourceLocation::Virtual(VirtualPath::ModelWeights("m".to_string()));
    assert_eq!(location.display_with(&fs).unwrap(), "/base/models/m/weights");
    assert_eq!(fs.asked().len(), 1);
    let refusing = Recorder::refusing("resolve ModelWeights(\"m\")");
    assert!(matches!(location.display_with(&refusing), Err(ConfigError::Fs(_))));
}

#[test]
fn overrides_that_are_empty_change_nothing() {
    let mut cfg = AppConfig::default();
    cfg.apply_overrides(&ConfigOverrides::default());
    assert_eq!(cfg.models.active, "deepseek-ocr");
    assert_eq!(cfg.models.entries.len(), 1);
    assert!(same_entry(cfg.models.entries.get("deepseek-ocr").unwrap(), &entry(None, None, None)));
    assert_eq!(cfg.inference.template, "plain");
    assert_eq!(cfg.inference.device, DeviceKind::Cpu);
    assert_eq!(cfg.server.host, "0.0.0.0");
    assert_eq!(cfg.server.port, 8000);
}

#[test]
fn overrides_replace_what_they_name() {
    let mut cfg = AppConfig::default();
    cfg.inference.precision = Some(Precision::F16);
    cfg.inference.max_num_seqs = Some(4);
    let overrides = ConfigOverrides {
        inference: InferenceOverride {
            device: Some(DeviceKind::Cuda),
            template: Some("markdown".to_string()),
            base_size: Some(512),
            crop_mode: Some(false),
            gpu_memory_utilization: Some(0.5f32.to_bits()),
            ..InferenceOverride::default()
        },
        server: ServerOverride { port: Some(9000), ..ServerOverride::default() },
        ..ConfigOverrides::default()
    };
    cfg.apply_overrides(&overrides);
    assert_eq!(cfg.inference.device, DeviceKind::Cuda);
    assert_eq!(cfg.inference.precision, Some(Precision::F16));
    assert_eq!(cfg.inference.template, "markdown");
    assert_eq!(cfg.inference.base_size, 512);
    assert_eq!(cfg.inference.image_size, 640);
    assert!(!cfg.inference.crop_mode);
    assert_eq!(cfg.inference.max_new_tokens, 512);
    assert!(cfg.inference.use_cache);
    assert_eq!(cfg.inference.gpu_memory_utilization, Some(0.5f32.to_bits()));
    assert_eq!(cfg.inference.max_num_seqs, Some(4));
    assert_eq!(cfg.server.host, "0.0.0.0");
    assert_eq!(cfg.server.port, 9000);
    assert_eq!(cfg.server.model_id, "deepseek-ocr");
}

#[test]
fn every_inference_and_server_setting_can_be_replaced() {
    let mut cfg = AppConfig::default();
    let overrides = ConfigOverrides {
        inference: InferenceOverride {
            device: Some(DeviceKind::Metal),
            precision: Some(Precision::Bf16),
            template: Some("t".to_string()),
            base_size: Some(1),
            image_size: Some(2),
            crop_mode: Some(false),
            max_new_tokens: Some(3),
            use_cache: Some(false),
            gpu_memory_utilization: Some(7),
            max_num_seqs: Some(8),
        },
        server: ServerOverride {
            host: Some("localhost".to_string()),
            port: Some(1),
            model_id: Some("served".to_string()),
        },
        ..ConfigOverrides::default()
    };
    cfg.apply_overrides(&overrides);
    assert_eq!(cfg.inference.device, DeviceKind::Metal);
    assert_eq!(cfg.inference.precision, Some(Precision::Bf16));
    assert_eq!(cfg.inference.template, "t");
    assert_eq!(cfg.inference.base_size, 1);
    assert_eq!(cfg.inference.image_size, 2);
    assert!(!cfg.inference.crop_mode);
    assert_eq!(cfg.inference.max_new_tokens, 3);
    assert!(!cfg.inference.use_cache);
    assert_eq!(cfg.inference.gpu_memory_utilization, Some(7));
    assert_eq!(cfg.inference.max_num_seqs, Some(8));
    assert_eq!(cfg.server.host, "localhost");
    assert_eq!(cfg.server.port, 1);
    assert_eq!(cfg.server.model_id, "served");
    assert_eq!(cfg.models.active, "deepseek-ocr");
}

#[test]
fn naming_a_model_makes_it_active_and_known() {
    let mut cfg = AppConfig::default();
    let overrides = ConfigOverrides {
        model_id: Some("other".to_string()),
        weights: Some(PathBuf::from("/w")),
        ..ConfigOverrides::default()
    };
    cfg.apply_overrides(&overrides);
    assert_eq!(cfg.models.active, "other");
    assert_eq!(ids(&cfg.models.entries), vec!["deepseek-ocr".to_string(), "other".to_string()]);
    assert!(same_entry(cfg.models.entries.get("other").unwrap(), &entry(None, None, Some("/w"))));
    assert!(same_entry(cfg.models.entries.get("deepseek-ocr").unwrap(), &entry(None, None, None)));
}

#[test]
fn paths_go_to_the_entry_of_the_active_model() {
    let mut cfg = AppConfig::default();
    cfg.models.entries.insert("deepseek-ocr".to_string(), entry(Some("/c"), Some("/t"), None));
    let overrides = ConfigOverrides {
        model_config: Some(PathBuf::from("/c2")),
        weights: Some(PathBuf::from("/w2")),
        ..ConfigOverrides::default()
    };
    cfg.apply_overrides(&overrides);
    assert!(same_entry(
        cfg.models.entries.get("deepseek-ocr").unwrap(),
        &entry(Some("/c2"), Some("/t"), Some("/w2"))
    ));
}

#[test]
fn paths_are_dropped_if_the_active_model_has_no_entry() {
    let mut cfg = AppConfig::default();
    cfg.models.active = "missing".to_string();
    let overrides =
        ConfigOverrides { tokenizer: Some(PathBuf::from("/t")), ..ConfigOverrides::default() };
    cfg.apply_overrides(&overrides);
    assert_eq!(cfg.models.active, "missing");
    assert!(!cfg.models.entries.contains_key("missing"));
    assert_eq!(cfg.models.entries.len(), 1);
    assert!(same_entry(cfg.models.entries.get("deepseek-ocr").unwrap(), &entry(None, None, None)));
}

#[test]
fn naming_a_known_model_keeps_its_entry() {
    let mut cfg = AppConfig::default();
    cfg.models.entries.insert("known".to_string(), entry(Some("/c"), None, None));
    let overrides =
        ConfigOverrides { model_id: Some("known".to_string()), ..ConfigOverrides::default() };
    cfg.apply_overrides(&overrides);
    assert_eq!(cfg.models.active, "known");
    assert_eq!(cfg.models.entries.len(), 2);
    assert!(same_entry(cfg.models.entries.get("known").unwrap(), &entry(Some("/c"), None, None)));
}

#[test]
fn overrides_are_laid_over_by_value_reference_and_operator() {
    let overrides =
        ConfigOverrides { model_id: Some("m".to_string()), ..ConfigOverrides::default() };
    let mut a = AppConfig::default();
    (&overrides).apply(&mut a);
    assert_eq!(a.models.active, "m");
    let mut b = AppConfig::default();
    b += &overrides;
    assert_eq!(b.models.active, "m");
    let mut c = AppConfig::default();
    c += overrides.clone();
    assert_eq!(c.models.active, "m");
    let mut d = AppConfig::default();
    overrides.apply(&mut d);
    assert_eq!(d.models.active, "m");
    assert!(d.models.entries.contains_key("m"));
}

#[test]
fn normalising_an_empty_registry_adds_the_default_and_the_active_model() {
    let fs = Recorder::new();
    let mut cfg = AppConfig::default();
    cfg.models = ModelRegistry { active: "mine".to_string(), entries: ModelEntries::new() };
    cfg.normalise(&fs).unwrap();
    assert_eq!(cfg.models.active, "mine");
    assert_eq!(ids(&cfg.models.entries), vec!["deepseek-ocr".to_string(), "mine".to_string()]);
    assert_eq!(
        fs.asked(),
        vec![
            "dir ModelDir(\"deepseek-ocr\")",
            "parent ModelConfig(\"deepseek-ocr\")",
            "parent ModelTokenizer(\"deepseek-ocr\")",
            "parent ModelWeights(\"deepseek-ocr\")",
            "dir ModelDir(\"mine\")",
            "parent ModelConfig(\"mine\")",
            "parent ModelTokenizer(\"mine\")",
            "parent ModelWeights(\"mine\")",
        ]
    );
}

#[test]
fn normalising_a_registry_that_is_fit_changes_nothing() {
    let fs = Recorder::new();
    let mut cfg = AppConfig::default();
    cfg.models.entries.insert("deepseek-ocr".to_string(), entry(Some("/c"), None, None));
    cfg.normalise(&fs).unwrap();
    assert_eq!(ids(&cfg.models.entries), vec!["deepseek-ocr".to_string()]);
    assert!(same_entry(
        cfg.models.entries.get("deepseek-ocr").unwrap(),
        &entry(Some("/c"), None, None)
    ));
    assert_eq!(fs.asked().len(), 4);
}

#[test]
fn normalising_does_not_add_the_default_to_other_models() {
    let fs = Recorder::new();
    let mut entries = ModelEntries::new();
    entries.insert("only".to_string(), entry(None, None, None));
    let mut cfg = AppConfig::default();
    cfg.models = ModelRegistry { active: "only".to_string(), entries };
    cfg.normalise(&fs).unwrap();
    assert_eq!(ids(&cfg.models.entries), vec!["only".to_string()]);
}

#[test]
fn normalising_mends_the_registry_even_if_the_file_system_refuses() {
    let fs = Recorder::refusing("parent ModelTokenizer(\"deepseek-ocr\")");
    let mut cfg = AppConfig::default();
    cfg.models = ModelRegistry { active: "mine".to_string(), entries: ModelEntries::new() };
    let r = cfg.normalise(&fs);
    assert!(matches!(r, Err(ConfigError::Fs(ref e)) if e.message.contains("ModelTokenizer")));
    assert_eq!(ids(&cfg.models.entries), vec!["deepseek-ocr".to_string(), "mine".to_string()]);
    assert_eq!(fs.asked().len(), 3);
}

#[test]
fn the_resources_of_a_model_are_those_of_its_entry() {
    let fs = Recorder::new();
    let mut cfg = AppConfig::default();
    cfg.models.entries.insert("m".to_string(), entry(None, Some("/t"), None));
    let r: ModelResources = cfg.model_resources(&fs, "m").unwrap();
    assert!(is_virtual(&r.config, VirtualPath::ModelConfig("m".to_string())));
    assert!(is_physical(&r.tokenizer, "/t"));
    assert!(is_virtual(&r.weights, VirtualPath::ModelWeights("m".to_string())));
    let active = cfg.active_model_resources(&fs).unwrap();
    assert!(is_virtual(&active.weights, VirtualPath::ModelWeights("deepseek-ocr".to_string())));
    assert!(fs.asked().is_empty());
}

#[test]
fn the_resources_of_an_unknown_model_are_an_error() {
    let fs = Recorder::new();
    let mut cfg = AppConfig::default();
    assert!(matches!(
        cfg.model_resources(&fs, "nope"),
        Err(ConfigError::ModelNotFound(ref id)) if id == "nope"
    ));
    cfg.models.active = "gone".to_string();
    assert!(matches!(
        cfg.active_model_resources(&fs),
        Err(ConfigError::ModelNotFound(ref id)) if id == "gone"
    ));
}

#[test]
fn a_loaded_configuration_is_brought_into_use() {
    let fs = Recorder::new();
    let descriptor = ConfigDescriptor { location: ResourceLocation::Virtual(VirtualPath::ConfigFile) };
    let overrides = ConfigOverrides {
        model_id: Some("m".to_string()),
        model_config: Some(PathBuf::from("/c")),
        inference: InferenceOverride { use_cache: Some(false), ..InferenceOverride::default() },
        ..ConfigOverrides::default()
    };
    let (cfg, descriptor, resources) =
        AppConfig::load_with_overrides(&fs, (AppConfig::default(), descriptor), overrides).unwrap();
    assert_eq!(cfg.models.active, "m");
    assert!(!cfg.inference.use_cache);
    assert!(is_virtual(&descriptor.location, VirtualPath::ConfigFile));
    assert!(is_physical(&resources.config, "/c"));
    assert!(is_virtual(&resources.weights, VirtualPath::ModelWeights("m".to_string())));
    assert_eq!(fs.asked().len(), 8);
}

#[test]
fn bringing_into_use_fails_if_the_file_system_refuses() {
    let fs = Recorder::refusing("dir ModelDir(\"deepseek-ocr\")");
    let descriptor =
        ConfigDescriptor { location: ResourceLocation::Physical(PathBuf::from("/cfg.toml")) };
    let r = AppConfig::load_with_overrides(
        &fs,
        (AppConfig::default(), descriptor),
        ConfigOverrides::default(),
    );
    assert!(matches!(r, Err(ConfigError::Fs(_))));
}

#[test]
fn an_entry_is_duplicated_with_its_paths() {
    let e = entry(Some("/c"), None, Some("/w"));
    assert!(same_entry(&e.duplicate(), &e));
}
