//! The model registry and generation coordinator.
//!
//! [`ModelManager`] owns a cache of loaded engine handles keyed by
//! canonical model id, resolves aliases and the default sentinel,
//! plans lazy loads, and resolves the three-tier generation settings.
//! It is generic over the engine handle type `E`: the embedding
//! program injects the native translation engine (an opaque,
//! reference-counted handle) and performs the blocking load and
//! translate calls itself, on a worker pool, feeding their outcomes
//! back through [`ModelManager::install_translator`].

use vstd::prelude::*;
use vstd::string::{StrSliceExecFns, StringExecFns};

use crate::config::{table_contains, table_get, table_lookup, AppConfig, ModelSpec};
use crate::text::str_eq;

verus! {

/// Compute device the native engine is bound to.
#[derive(Debug, Clone, Copy, PartialEq, Eq, Structural)]
pub enum Device {
    Cpu,
    Cuda,
}

/// Per-request generation overrides; each field may be absent
/// independently of the others.
#[derive(Debug, Clone)]
pub struct GenerationParams {
    /// Target language token, e.g. "fra_Latn".
    pub target_lang: Option<String>,
    /// Beam width of the decoder search.
    pub beam_size: Option<usize>,
    /// Repetition penalty, in hundredths.
    pub repetition_penalty: Option<u32>,
    /// Size of n-grams the decoder must not repeat; zero disables it.
    pub no_repeat_ngram_size: Option<usize>,
}

impl Default for GenerationParams {
    fn default() -> (p: Self)
        ensures
            p.target_lang is None,
            p.beam_size is None,
            p.repetition_penalty is None,
            p.no_repeat_ngram_size is None,
    {
        GenerationParams {
            target_lang: None,
            beam_size: None,
            repetition_penalty: None,
            no_repeat_ngram_size: None,
        }
    }
}

/// Failures of the registry.  `ConfigNotFound` and `NotFound` are
/// caller-input faults (unknown model id); `LoadError` and
/// `InferenceError` are server-side faults carrying the cause the
/// native engine reported.
#[derive(Debug)]
pub enum ModelError {
    /// Native construction of an engine failed.
    LoadError { path: String, cause: String },
    /// The resolved id has no loaded engine (defensive race path).
    NotFound { model_name: String },
    /// Native decoding failed, or its dispatch did not complete.
    InferenceError { cause: String },
    /// The operator never defined this model.
    ConfigNotFound { model_name: String },
}

impl ModelError {
    /// The description [`Self::message`] returns.
    pub open spec fn spec_message(&self) -> Seq<char> {
        match self {
            ModelError::LoadError { path, cause } => "Failed to load model from "@ + path@ + ": "@
                + cause@,
            ModelError::NotFound { model_name } => "Model not found: "@ + model_name@,
            ModelError::InferenceError { cause } => "Inference failed: "@ + cause@,
            ModelError::ConfigNotFound { model_name } => "Model configuration not found for '"@
                + model_name@ + "'"@,
        }
    }

    /// Human-readable description of the failure.
    pub fn message(&self) -> (r: String)
        ensures
            r@ == self.spec_message(),
    {
        match self {
            ModelError::LoadError { path, cause } => {
                let mut s = String::from_str("Failed to load model from ");
                s.append(path.as_str());
                s.append(": ");
                s.append(cause.as_str());
                s
            },
            ModelError::NotFound { model_name } => {
                let mut s = String::from_str("Model not found: ");
                s.append(model_name.as_str());
                s
            },
            ModelError::InferenceError { cause } => {
                let mut s = String::from_str("Inference failed: ");
                s.append(cause.as_str());
                s
            },
            ModelError::ConfigNotFound { model_name } => {
                let mut s = String::from_str("Model configuration not found for '");
                s.append(model_name.as_str());
                s.append("'");
                s
            },
        }
    }
}

/// Fully resolved generation settings for one request.
#[derive(Debug, Clone)]
pub struct EffectiveParams {
    pub target_lang: String,
    pub beam_size: usize,
    /// In hundredths.
    pub repetition_penalty: u32,
    pub no_repeat_ngram_size: usize,
}

/// Everything the embedding program needs to construct one engine:
/// derived from the model's specification and the global defaults.
#[derive(Debug, Clone)]
pub struct LoadRequest {
    /// Canonical id the constructed engine must be installed under.
    pub model_name: String,
    pub path: String,
    pub tokenizer_path: String,
    pub device: Device,
    pub device_indices: Vec<i32>,
}

/// Outcome of planning a load for a requested model name.
#[derive(Debug)]
pub enum LoadPlan {
    /// The cache already holds an engine; nothing to do.
    AlreadyLoaded,
    /// The resolved id is absent from the model table.
    NotConfigured { model_name: String },
    /// Construct an engine as described, then install it.
    Load(LoadRequest),
}

/// Resolved settings plus the per-prompt target prefix batch.
#[derive(Debug, Clone)]
pub struct GenerationPlan {
    pub params: EffectiveParams,
    /// One prefix sequence per prompt, each holding the single
    /// resolved target-language token.
    pub target_prefixes: Vec<Vec<String>>,
}

/// Next step of the generation pipeline for one request.
#[derive(Debug)]
pub enum GenerateDecision {
    /// An engine is loaded: dispatch the batch with this plan.
    Run(GenerationPlan),
    /// Construct and install an engine first, then ask again.
    LoadFirst(LoadRequest),
    /// The request names a model that was never configured.
    Reject(ModelError),
}

/// Canonical id for a requested name: a configured alias resolves to
/// its target; the empty name and the sentinel "default" resolve to
/// the configured default model; any other name is returned unchanged.
pub open spec fn spec_resolve(config: AppConfig, name: Seq<char>) -> Seq<char> {
    match table_get(config.aliases@, name) {
        Some(target) => target@,
        None => if name == "default"@ || name.len() == 0 {
            config.default_model@
        } else {
            name
        },
    }
}

/// The four characters of "cuda", each in either case.
pub open spec fn is_cuda_name(s: Seq<char>) -> bool {
    &&& s.len() == 4
    &&& (s[0] == 'c' || s[0] == 'C')
    &&& (s[1] == 'u' || s[1] == 'U')
    &&& (s[2] == 'd' || s[2] == 'D')
    &&& (s[3] == 'a' || s[3] == 'A')
}

/// Device selection: "cuda" in any letter case selects the GPU, any
/// other name the CPU.
pub open spec fn spec_parse_device(s: Seq<char>) -> Device {
    if is_cuda_name(s) {
        Device::Cuda
    } else {
        Device::Cpu
    }
}

/// Whether the cache holds an engine for the given canonical id.
pub open spec fn spec_is_cached<E>(cache: Seq<(String, E)>, id: Seq<char>) -> bool {
    table_contains(cache, id)
}

/// Whether the model table defines the given canonical id.
pub open spec fn spec_is_configured(config: AppConfig, id: Seq<char>) -> bool {
    table_contains(config.models@, id)
}

/// Whether a request for `name` would have to load an engine first.
pub open spec fn spec_needs_load<E>(
    config: AppConfig,
    cache: Seq<(String, E)>,
    name: Seq<char>,
) -> bool {
    !spec_is_cached(cache, spec_resolve(config, name))
}

/// Tokenizer location of a model: its own, else the model path.
pub open spec fn spec_tokenizer_path(model: ModelSpec) -> Seq<char> {
    match model.tokenizer_path {
        Some(t) => t@,
        None => model.path@,
    }
}

/// Device name for a model: its override, else the global default.
pub open spec fn spec_device_name(config: AppConfig, model: ModelSpec) -> Seq<char> {
    match model.device {
        Some(d) => d@,
        None => config.device@,
    }
}

/// Device indices for a model: its override, else the global default.
pub open spec fn spec_device_indices(config: AppConfig, model: ModelSpec) -> Seq<i32> {
    match model.device_indices {
        Some(d) => d@,
        None => config.device_indices@,
    }
}

/// Three-tier override resolution for one generation setting: the
/// request override wins, else the per-model override, else the
/// global default.
pub open spec fn three_tier<X>(request: Option<X>, model: Option<X>, global: X) -> X {
    match request {
        Some(x) => x,
        None => match model {
            Some(x) => x,
            None => global,
        },
    }
}

/// Target language override of a model, if one is configured.
pub open spec fn model_target_lang(model: Option<ModelSpec>) -> Option<String> {
    match model {
        Some(m) => m.target_lang,
        None => None,
    }
}

/// Beam size override of a model, if one is configured.
pub open spec fn model_beam_size(model: Option<ModelSpec>) -> Option<usize> {
    match model {
        Some(m) => m.beam_size,
        None => None,
    }
}

/// Repetition penalty override of a model, if one is configured.
pub open spec fn model_repetition_penalty(model: Option<ModelSpec>) -> Option<u32> {
    match model {
        Some(m) => m.repetition_penalty,
        None => None,
    }
}

/// N-gram restriction override of a model, if one is configured.
pub open spec fn model_no_repeat_ngram_size(model: Option<ModelSpec>) -> Option<usize> {
    match model {
        Some(m) => m.no_repeat_ngram_size,
        None => None,
    }
}

/// Copies a vector of device indices.
fn copy_indices(v: &Vec<i32>) -> (r: Vec<i32>)
    ensures
        r@ == v@,
{
    let mut r: Vec<i32> = Vec::new();
    let n = v.len();
    let mut i: usize = 0;
    proof {
        assert(r@ =~= v@.subrange(0, 0));
    }
    while i < n
        invariant
            n == v@.len(),
            i <= n,
            r@ == v@.subrange(0, i as int),
        decreases n - i,
    {
        r.push(v[i]);
        proof {
            assert(r@ =~= v@.subrange(0, i as int + 1));
        }
        i += 1;
    }
    proof {
        assert(v@.subrange(0, n as int) =~= v@);
    }
    r
}

/// One target-language prefix sequence per prompt in the batch, each
/// holding exactly the single resolved target-language token.
pub fn build_target_prefixes(target_lang: &str, prompt_count: usize) -> (r: Vec<Vec<String>>)
    ensures
        r@.len() == prompt_count,
        forall|i: int|
            0 <= i < prompt_count ==> (#[trigger] r@[i])@.len() == 1 && r@[i]@[0]@ == target_lang@,
{
    let mut r: Vec<Vec<String>> = Vec::new();
    let mut i: usize = 0;
    while i < prompt_count
        invariant
            i <= prompt_count,
            r@.len() == i,
            forall|j: int|
                0 <= j < i ==> (#[trigger] r@[j])@.len() == 1 && r@[j]@[0]@ == target_lang@,
        decreases prompt_count - i,
    {
        let mut one: Vec<String> = Vec::new();
        one.push(target_lang.to_owned());
        r.push(one);
        i += 1;
    }
    r
}

/// The translated text of each engine result, in order, with the
/// auxiliary score metadata discarded.
pub fn texts_of<M>(results: &Vec<(String, M)>) -> (r: Vec<String>)
    ensures
        r@.len() == results@.len(),
        forall|i: int| 0 <= i < results@.len() ==> (#[trigger] r@[i])@ == results@[i].0@,
{
    let mut r: Vec<String> = Vec::new();
    let n = results.len();
    let mut i: usize = 0;
    while i < n
        invariant
            n == results@.len(),
            i <= n,
            r@.len() == i,
            forall|j: int| 0 <= j < i ==> (#[trigger] r@[j])@ == results@[j].0@,
        decreases n - i,
    {
        r.push(results[i].0.clone());
        i += 1;
    }
    r
}

/// Registry of loaded engines plus the configuration it answers from.
///
/// The cache is an association list from canonical model id to engine
/// handle, read by first match; a newly installed entry stands in
/// front of any entry it shadows, so of two racing first-time loads
/// the last writer wins, as with plain map insertion.
pub struct ModelManager<E> {
    translators: Vec<(String, E)>,
    config: AppConfig,
}

impl<E> ModelManager<E> {
    /// The configuration the registry was built with.
    pub closed spec fn configuration(&self) -> AppConfig {
        self.config
    }

    /// Current cache contents, newest entry first.
    pub closed spec fn cache(&self) -> Seq<(String, E)> {
        self.translators@
    }

    /// A registry with an empty cache.
    pub fn new(config: AppConfig) -> (m: Self)
        ensures
            m.configuration() == config,
            m.cache() == Seq::<(String, E)>::empty(),
    {
        ModelManager { translators: Vec::new(), config }
    }

    /// Canonical id for a requested model name; total, never fails.
    pub fn resolve_model_name(&self, name: &str) -> (r: String)
        ensures
            r@ == spec_resolve(self.configuration(), name@),
            table_get(self.configuration().aliases@, name@) matches Some(target) ==> r@
                == target@,
            table_get(self.configuration().aliases@, name@) is None && (name@ == "default"@
                || name@.len() == 0) ==> r@ == self.configuration().default_model@,
            table_get(self.configuration().aliases@, name@) is None && !(name@ == "default"@
                || name@.len() == 0) ==> r@ == name@,
    {
        if let Some(target) = table_lookup(&self.config.aliases, name) {
            return target.clone();
        }
        if str_eq(name, "default") || name.is_empty() {
            return self.config.default_model.clone();
        }
        name.to_owned()
    }

    /// Parses a configured device name.
    fn parse_device(device: &str) -> (d: Device)
        ensures
            d == spec_parse_device(device@),
    {
        let n = device.unicode_len();
        if n == 4 {
            let c0 = device.get_char(0);
            let c1 = device.get_char(1);
            let c2 = device.get_char(2);
            let c3 = device.get_char(3);
            if (c0 == 'c' || c0 == 'C') && (c1 == 'u' || c1 == 'U') && (c2 == 'd' || c2 == 'D')
                && (c3 == 'a' || c3 == 'A') {
                return Device::Cuda;
            }
        }
        Device::Cpu
    }

    /// Plans the load of the model a name resolves to: nothing when an
    /// engine is already cached; a rejection when the model table does
    /// not define the id; otherwise the full construction request,
    /// with the tokenizer path, device and device indices derived from
    /// the model's specification and the global defaults.
    pub fn plan_load(&self, name: &str) -> (p: LoadPlan)
        ensures
            ({
                let canonical = spec_resolve(self.configuration(), name@);
                let model = table_get(self.configuration().models@, canonical);
                &&& (p is AlreadyLoaded) <==> spec_is_cached(self.cache(), canonical)
                &&& (p is NotConfigured) <==> (!spec_is_cached(self.cache(), canonical)
                    && model is None)
                &&& (p is Load) <==> (!spec_is_cached(self.cache(), canonical) && model is Some)
                &&& match p {
                    LoadPlan::AlreadyLoaded => true,
                    LoadPlan::NotConfigured { model_name } => model_name@ == canonical,
                    LoadPlan::Load(req) => model matches Some(m) && req.model_name@ == canonical
                        && req.path@ == m.path@ && req.tokenizer_path@ == spec_tokenizer_path(m)
                        && req.device == spec_parse_device(
                        spec_device_name(self.configuration(), m),
                    ) && req.device_indices@ == spec_device_indices(self.configuration(), m),
                }
            }),
    {
        let resolved = self.resolve_model_name(name);
        if table_lookup(&self.translators, resolved.as_str()).is_some() {
            return LoadPlan::AlreadyLoaded;
        }
        match table_lookup(&self.config.models, resolved.as_str()) {
            None => LoadPlan::NotConfigured { model_name: resolved },
            Some(model) => {
                let tokenizer_path = match &model.tokenizer_path {
                    Some(t) => t.clone(),
                    None => model.path.clone(),
                };
                let device = match &model.device {
                    Some(d) => Self::parse_device(d.as_str()),
                    None => Self::parse_device(self.config.device.as_str()),
                };
                let device_indices = match &model.device_indices {
                    Some(d) => copy_indices(d),
                    None => copy_indices(&self.config.device_indices),
                };
                LoadPlan::Load(
                    LoadRequest {
                        model_name: resolved,
                        path: model.path.clone(),
                        tokenizer_path,
                        device,
                        device_indices,
                    },
                )
            },
        }
    }

    /// Publishes a freshly constructed engine under its canonical id.
    /// The new entry shadows any earlier one for the same id: when two
    /// first-time loads race, the last writer wins.
    pub fn install_translator(&mut self, canonical: String, translator: E)
        ensures
            final(self).configuration() == old(self).configuration(),
            final(self).cache() == seq![(canonical, translator)] + old(self).cache(),
            spec_is_cached(final(self).cache(), canonical@),
    {
        self.translators.insert(0, (canonical, translator));
        proof {
            assert(self.translators@ =~= seq![(canonical, translator)] + old(self).translators@);
            assert(self.translators@[0] == (canonical, translator));
        }
    }

    /// Fast read-only path: the engine of an already loaded model.
    /// Fails with `NotFound` when the resolved id has no cache entry;
    /// the caller is expected to plan a load and ask again.
    pub fn get_translator(&self, name: &str) -> (r: Result<&E, ModelError>)
        ensures
            ({
                let canonical = spec_resolve(self.configuration(), name@);
                &&& (r is Ok) <==> spec_is_cached(self.cache(), canonical)
                &&& match r {
                    Ok(t) => table_get(self.cache(), canonical) == Some(*t),
                    Err(e) => e matches ModelError::NotFound { model_name } && model_name@
                        == canonical,
                }
            }),
    {
        let resolved = self.resolve_model_name(name);
        match table_lookup(&self.translators, resolved.as_str()) {
            Some(t) => Ok(t),
            None => Err(ModelError::NotFound { model_name: resolved }),
        }
    }

    /// Resolves the effective generation settings for one request:
    /// the request override wins, else the per-model override, else
    /// the global default, independently for each field.
    pub fn effective_params(&self, name: &str, params: &GenerationParams) -> (e: EffectiveParams)
        ensures
            ({
                let config = self.configuration();
                let model = table_get(config.models@, spec_resolve(config, name@));
                &&& e.target_lang == three_tier(
                    params.target_lang,
                    model_target_lang(model),
                    config.target_lang,
                )
                &&& e.beam_size == three_tier(
                    params.beam_size,
                    model_beam_size(model),
                    config.beam_size,
                )
                &&& e.repetition_penalty == three_tier(
                    params.repetition_penalty,
                    model_repetition_penalty(model),
                    config.repetition_penalty,
                )
                &&& e.no_repeat_ngram_size == three_tier(
                    params.no_repeat_ngram_size,
                    model_no_repeat_ngram_size(model),
                    config.no_repeat_ngram_size,
                )
            }),
    {
        let resolved = self.resolve_model_name(name);
        let model = table_lookup(&self.config.models, resolved.as_str());
        let target_lang = match &params.target_lang {
            Some(t) => t.clone(),
            None => match model {
                Some(m) => match &m.target_lang {
                    Some(t) => t.clone(),
                    None => self.config.target_lang.clone(),
                },
                None => self.config.target_lang.clone(),
            },
        };
        let beam_size = match params.beam_size {
            Some(b) => b,
            None => match model {
                Some(m) => match m.beam_size {
                    Some(b) => b,
                    None => self.config.beam_size,
                },
                None => self.config.beam_size,
            },
        };
        let repetition_penalty = match params.repetition_penalty {
            Some(p) => p,
            None => match model {
                Some(m) => match m.repetition_penalty {
                    Some(p) => p,
                    None => self.config.repetition_penalty,
                },
                None => self.config.repetition_penalty,
            },
        };
        let no_repeat_ngram_size = match params.no_repeat_ngram_size {
            Some(s) => s,
            None => match model {
                Some(m) => match m.no_repeat_ngram_size {
                    Some(s) => s,
                    None => self.config.no_repeat_ngram_size,
                },
                None => self.config.no_repeat_ngram_size,
            },
        };
        EffectiveParams { target_lang, beam_size, repetition_penalty, no_repeat_ngram_size }
    }

    /// One step of the generation pipeline for a request: run the
    /// engine now with the fully resolved settings and prefix batch,
    /// load the resolved model first, or reject the request because
    /// its model was never configured.  A rejection is always a
    /// `ConfigNotFound`, never a load or inference fault.
    pub fn next_generate_action(
        &self,
        name: &str,
        prompt_count: usize,
        params: &GenerationParams,
    ) -> (a: GenerateDecision)
        ensures
            ({
                let config = self.configuration();
                let canonical = spec_resolve(config, name@);
                let model = table_get(config.models@, canonical);
                &&& (a is Run) <==> spec_is_cached(self.cache(), canonical)
                &&& (a is Reject) <==> (!spec_is_cached(self.cache(), canonical)
                    && model is None)
                &&& (a is LoadFirst) <==> (!spec_is_cached(self.cache(), canonical)
                    && model is Some)
                &&& match a {
                    GenerateDecision::Run(plan) => {
                        &&& plan.params.target_lang == three_tier(
                            params.target_lang,
                            model_target_lang(model),
                            config.target_lang,
                        )
                        &&& plan.params.beam_size == three_tier(
                            params.beam_size,
                            model_beam_size(model),
                            config.beam_size,
                        )
                        &&& plan.params.repetition_penalty == three_tier(
                            params.repetition_penalty,
                            model_repetition_penalty(model),
                            config.repetition_penalty,
                        )
                        &&& plan.params.no_repeat_ngram_size == three_tier(
                            params.no_repeat_ngram_size,
                            model_no_repeat_ngram_size(model),
                            config.no_repeat_ngram_size,
                        )
                        &&& plan.target_prefixes@.len() == prompt_count
                        &&& forall|i: int|
                            0 <= i < prompt_count ==> (#[trigger] plan.target_prefixes@[i])@.len()
                                == 1 && plan.target_prefixes@[i]@[0]@ == plan.params.target_lang@
                    },
                    GenerateDecision::LoadFirst(req) => model matches Some(m) && req.model_name@
                        == canonical && req.path@ == m.path@ && req.tokenizer_path@
                        == spec_tokenizer_path(m) && req.device == spec_parse_device(
                        spec_device_name(config, m),
                    ) && req.device_indices@ == spec_device_indices(config, m),
                    GenerateDecision::Reject(e) => e matches ModelError::ConfigNotFound {
                        model_name,
                    } && model_name@ == canonical,
                }
            }),
    {
        match self.plan_load(name) {
            LoadPlan::AlreadyLoaded => {
                let eff = self.effective_params(name, params);
                let target_prefixes = build_target_prefixes(eff.target_lang.as_str(), prompt_count);
                GenerateDecision::Run(GenerationPlan { params: eff, target_prefixes })
            },
            LoadPlan::NotConfigured { model_name } => GenerateDecision::Reject(
                ModelError::ConfigNotFound { model_name },
            ),
            LoadPlan::Load(req) => GenerateDecision::LoadFirst(req),
        }
    }
}

/// Law: once an engine is installed for a canonical id, a request for
/// any name resolving to that id needs no further load, however many
/// such requests follow and in whatever order they observe the cache
/// afterwards.
pub proof fn lemma_installed_needs_no_load<E>(
    config: AppConfig,
    cache: Seq<(String, E)>,
    canonical: String,
    translator: E,
    name: Seq<char>,
)
    requires
        spec_resolve(config, name) == canonical@,
    ensures
        !spec_needs_load(config, seq![(canonical, translator)] + cache, name),
{
    let cache1 = seq![(canonical, translator)] + cache;
    assert(cache1[0] == (canonical, translator));
    assert(table_get(cache1, canonical@) == Some(translator));
}

/// Law: a cached canonical id stays cached under any later
/// installation, so loading one model never brings the load path
/// back for another.
pub proof fn lemma_cache_entries_persist<E>(
    cache: Seq<(String, E)>,
    entry: (String, E),
    id: Seq<char>,
)
    requires
        spec_is_cached(cache, id),
    ensures
        spec_is_cached(seq![entry] + cache, id),
{
    let cache1 = seq![entry] + cache;
    assert(cache1[0] == entry);
    if entry.0@ == id {
        assert(table_get(cache1, id) == Some(entry.1));
    } else {
        assert(cache1.drop_first() =~= cache);
        assert(table_get(cache1, id) == table_get(cache, id));
    }
}

} // verus!

