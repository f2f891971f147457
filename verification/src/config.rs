//! Immutable configuration snapshot: server address, global generation
//! defaults, the model table and the alias table.
//!
//! The two tables are association lists looked up by first match; the
//! embedding program builds them once at startup and never mutates them
//! afterwards, so a key never occurs twice in practice and first-match
//! lookup coincides with map lookup.

use vstd::prelude::*;
use vstd::string::StringExecFns;

use crate::text::str_eq;

verus! {

/// First-match lookup in an association list keyed by strings.
pub open spec fn table_get<V>(entries: Seq<(String, V)>, key: Seq<char>) -> Option<V>
    decreases entries.len(),
{
    if entries.len() == 0 {
        None
    } else if entries[0].0@ == key {
        Some(entries[0].1)
    } else {
        table_get(entries.drop_first(), key)
    }
}

/// Whether an association list holds the given key.
pub open spec fn table_contains<V>(entries: Seq<(String, V)>, key: Seq<char>) -> bool {
    table_get(entries, key) is Some
}

/// Finds the first entry with the given key, if any.
pub fn table_lookup<'a, V>(entries: &'a Vec<(String, V)>, key: &str) -> (r: Option<&'a V>)
    ensures
        match r {
            Some(v) => table_get(entries@, key@) == Some(*v),
            None => table_get(entries@, key@) is None,
        },
{
    let n = entries.len();
    let mut i: usize = 0;
    proof {
        assert(entries@.skip(0) =~= entries@);
    }
    while i < n
        invariant
            n == entries@.len(),
            i <= n,
            table_get(entries@, key@) == table_get(entries@.skip(i as int), key@),
        decreases n - i,
    {
        if str_eq(entries[i].0.as_str(), key) {
            proof {
                assert(entries@.skip(i as int)[0] == entries@[i as int]);
            }
            return Some(&entries[i].1);
        }
        proof {
            assert(entries@.skip(i as int).drop_first() =~= entries@.skip(i as int + 1));
        }
        i += 1;
    }
    proof {
        assert(entries@.skip(n as int) =~= Seq::<(String, V)>::empty());
    }
    None
}

/// Command-line switches the embedding program recognises.  The values
/// are collected by the program's argument parser and handed over as
/// plain options.
#[derive(Debug, Clone)]
pub struct Args {
    /// Host to listen on.
    pub host: Option<String>,
    /// Port to listen on.
    pub port: Option<u16>,
    /// Configuration file path.
    pub config: String,
}

/// Address the server listens on.
#[derive(Debug, Clone)]
pub struct ServerConfig {
    pub host: String,
    pub port: u16,
}

impl Default for ServerConfig {
    fn default() -> (c: Self)
        ensures
            c.host@ == "0.0.0.0"@,
            c.port == 8080,
    {
        ServerConfig { host: "0.0.0.0".to_owned(), port: 8080 }
    }
}

/// Static description of one configured model.  Optional fields fall
/// back to the global defaults of [`AppConfig`]; `tokenizer_path` falls
/// back to `path`.
#[derive(Debug, Clone)]
pub struct ModelSpec {
    /// Directory holding the converted model weights.
    pub path: String,
    /// Discriminating tag, e.g. "nllb" or "t5".
    pub model_type: String,
    /// Tokenizer location; the model path when absent.
    pub tokenizer_path: Option<String>,
    /// Per-model target language override.
    pub target_lang: Option<String>,
    /// Per-model device override.
    pub device: Option<String>,
    /// Per-model device index override.
    pub device_indices: Option<Vec<i32>>,
    /// Per-model beam size override.
    pub beam_size: Option<usize>,
    /// Per-model repetition penalty override, in hundredths.
    pub repetition_penalty: Option<u32>,
    /// Per-model n-gram restriction override.
    pub no_repeat_ngram_size: Option<usize>,
}

/// Immutable application configuration, built once at startup.
#[derive(Debug, Clone)]
pub struct AppConfig {
    pub server: ServerConfig,
    /// Model table: canonical id to model description.
    pub models: Vec<(String, ModelSpec)>,
    /// Alias table: alternate name to canonical id.
    pub aliases: Vec<(String, String)>,
    /// Model answering for the empty or sentinel request name.
    pub default_model: String,
    /// Global default target language.
    pub target_lang: String,
    /// Global default device.
    pub device: String,
    /// Global default device indices.
    pub device_indices: Vec<i32>,
    /// Global default beam size.
    pub beam_size: usize,
    /// Global default repetition penalty, in hundredths.
    pub repetition_penalty: u32,
    /// Global default n-gram restriction; zero disables it.
    pub no_repeat_ngram_size: usize,
}

/// Default model id.
pub fn default_model() -> (r: String)
    ensures
        r@ == "nllb"@,
{
    String::from_str("nllb")
}

/// Default target language.
pub fn default_target_lang() -> (r: String)
    ensures
        r@ == "eng_Latn"@,
{
    String::from_str("eng_Latn")
}

/// Default device.
pub fn default_device() -> (r: String)
    ensures
        r@ == "cpu"@,
{
    String::from_str("cpu")
}

/// Default device indices.
pub fn default_device_indices() -> (r: Vec<i32>)
    ensures
        r@ == seq![0i32],
{
    let mut v: Vec<i32> = Vec::new();
    v.push(0);
    proof {
        assert(v@ =~= seq![0i32]);
    }
    v
}

/// Default beam size.
pub fn default_beam_size() -> (r: usize)
    ensures
        r == 5,
{
    5
}

/// Default repetition penalty, in hundredths.
pub fn default_repetition_penalty() -> (r: u32)
    ensures
        r == 120,
{
    120
}

/// Default n-gram restriction (disabled).
pub fn default_no_repeat_ngram_size() -> (r: usize)
    ensures
        r == 0,
{
    0
}

impl Default for AppConfig {
    fn default() -> (c: Self)
        ensures
            c.server.host@ == "0.0.0.0"@,
            c.server.port == 8080,
            c.models@ == Seq::<(String, ModelSpec)>::empty(),
            c.aliases@ == Seq::<(String, String)>::empty(),
            c.default_model@ == "nllb"@,
            c.target_lang@ == "eng_Latn"@,
            c.device@ == "cpu"@,
            c.device_indices@ == seq![0i32],
            c.beam_size == 5,
            c.repetition_penalty == 120,
            c.no_repeat_ngram_size == 0,
    {
        let models: Vec<(String, ModelSpec)> = Vec::new();
        let aliases: Vec<(String, String)> = Vec::new();
        AppConfig {
            server: Default::default(),
            models,
            aliases,
            default_model: default_model(),
            target_lang: default_target_lang(),
            device: default_device(),
            device_indices: default_device_indices(),
            beam_size: default_beam_size(),
            repetition_penalty: default_repetition_penalty(),
            no_repeat_ngram_size: default_no_repeat_ngram_size(),
        }
    }
}

} // verus!
