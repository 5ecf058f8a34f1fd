//! Model registry for the Ollama-compatible API: naming and capabilities of
//! the listed models, and the time-limited cache of the model list.

use vstd::prelude::*;

use crate::circuit_breaker::CircuitBreaker;
use crate::duration;
use crate::text;

verus! {

/// Configuration of the model registry client.
#[derive(Debug, Clone)]
pub struct OllamaModelRegistryConfig {
    /// Base URL of the API.
    pub base_url: String,
    /// Request timeout.
    pub timeout: std::time::Duration,
    /// How long a fetched model list is reused.
    pub cache_ttl: std::time::Duration,
}

impl Default for OllamaModelRegistryConfig {
    fn default() -> (c: Self)
        ensures
            c.base_url@ == "http://localhost:11434"@,
            c.timeout == duration::duration_of_secs(10),
            c.cache_ttl == duration::duration_of_secs(300),
    {
        OllamaModelRegistryConfig {
            base_url: text::owned("http://localhost:11434"),
            timeout: duration::from_secs(10),
            cache_ttl: duration::from_secs(300),
        }
    }
}

/// What a model can do.
/// A model as the backend lists it.
#[derive(Debug, Clone)]
pub struct OllamaModel {
    /// Model id, such as `llama3:8b`.
    pub id: String,
    /// Kind of object (`model`).
    pub object: String,
    /// Owner of the model.
    pub owned_by: String,
}

#[derive(Debug, Clone, PartialEq, Eq)]
pub struct ModelCapabilities {
    /// Text generation.
    pub text_generation: bool,
    /// Chat.
    pub chat: bool,
    /// Embeddings.
    pub embeddings: bool,
    /// Code.
    pub code: bool,
    /// Context length in tokens.
    pub context_length: Option<u32>,
}

/// A model offered by the backend.
#[derive(Debug, Clone, PartialEq, Eq)]
pub struct ModelInfo {
    /// Model id, e.g. `llama3:8b`.
    pub id: String,
    /// Display name, e.g. `Llama3`.
    pub name: String,
    /// Description.
    pub description: Option<String>,
    /// Capabilities.
    pub capabilities: ModelCapabilities,
    /// Variant, e.g. `8B`.
    pub variant: Option<String>,
    /// Whether the model can be used.
    pub available: bool,
}

/// Position of the first `:` in `s`, if any.
pub open spec fn first_colon(s: Seq<char>) -> Option<int>
    decreases s.len(),
{
    if s.len() == 0 {
        None
    } else if s[0] == ':' {
        Some(0)
    } else {
        match first_colon(s.drop_first()) {
            Some(i) => Some(i + 1),
            None => None,
        }
    }
}

/// `name` with its first character uppercased.
pub open spec fn capitalized(name: Seq<char>) -> Seq<char> {
    if name.len() == 0 {
        Seq::empty()
    } else {
        text::unicode_uppercase(seq![name[0]]) + name.drop_first()
    }
}

/// The display name and variant of a model id: the part before the first `:`
/// capitalized, and the part after it uppercased.
pub open spec fn name_and_variant(id: Seq<char>) -> (Seq<char>, Option<Seq<char>>) {
    match first_colon(id) {
        Some(i) => (capitalized(id.take(i)), Some(text::unicode_uppercase(id.skip(i + 1)))),
        None => (capitalized(id), None),
    }
}

/// The context length assumed for a (lowercased) model id.
pub open spec fn context_length_for(id: Seq<char>) -> u32 {
    if text::occurs_in(id, "128k"@) {
        131_072
    } else if text::occurs_in(id, "64k"@) {
        65_536
    } else if text::occurs_in(id, "32k"@) {
        32_768
    } else if text::occurs_in(id, "16k"@) {
        16_384
    } else if text::occurs_in(id, "llama3"@) {
        8_192
    } else if text::occurs_in(id, "llama2"@) {
        4_096
    } else if text::occurs_in(id, "mistral"@) || text::occurs_in(id, "mixtral"@) {
        32_768
    } else if text::occurs_in(id, "phi"@) {
        2_048
    } else if text::occurs_in(id, "gemma"@) {
        8_192
    } else {
        4_096
    }
}

proof fn lemma_first_colon(s: Seq<char>, k: int)
    requires
        0 <= k <= s.len(),
        forall|j: int| 0 <= j < k ==> s[j] != ':',
    ensures
        k == s.len() ==> first_colon(s) is None,
        k < s.len() && s[k] == ':' ==> first_colon(s) == Some(k),
    decreases k,
{
    if k > 0 {
        lemma_first_colon(s.drop_first(), k - 1);
    } else if s.len() > 0 && s[0] != ':' {
    }
}

/// `name` with its first character uppercased.
pub fn format_name(name: &str) -> (r: String)
    ensures
        r@ == capitalized(name@),
{
    let chars = text::chars_of(name);
    if chars.len() == 0 {
        return String::new();
    }
    let mut first: Vec<char> = Vec::new();
    first.push(chars[0]);
    let first_text = text::string_from_chars(first.as_slice());
    let upper = text::to_uppercase(first_text.as_str());
    proof {
        assert(first@ =~= seq![name@[0]]);
    }
    let rest = crate::secret_store::tail(&chars, 1);
    let rest_text = text::string_from_chars(rest.as_slice());
    upper.concat(rest_text.as_str())
}

/// The display name and variant of a model id, e.g. `llama3:8b` gives
/// (`Llama3`, `8B`) and `mistral` gives (`Mistral`, none).
pub fn parse_model_name(model_id: &str) -> (r: (String, Option<String>))
    ensures
        r.0@ == name_and_variant(model_id@).0,
        match (r.1, name_and_variant(model_id@).1) {
            (Some(v), Some(w)) => v@ == w,
            (None, None) => true,
            _ => false,
        },
{
    let chars = text::chars_of(model_id);
    let mut k: usize = 0;
    while k < chars.len() && chars[k] != ':'
        invariant
            k <= chars.len(),
            chars@ == model_id@,
            forall|j: int| 0 <= j < k ==> chars@[j] != ':',
        decreases chars.len() - k,
    {
        k = k + 1;
    }
    proof {
        lemma_first_colon(chars@, k as int);
    }
    if k < chars.len() {
        let mut base: Vec<char> = Vec::new();
        let mut i: usize = 0;
        while i < k
            invariant
                i <= k < chars.len(),
                base@ == chars@.take(i as int),
            decreases k - i,
        {
            base.push(chars[i]);
            proof {
                assert(chars@.take(i + 1) =~= chars@.take(i as int).push(chars@[i as int]));
            }
            i = i + 1;
        }
        let base_text = text::string_from_chars(base.as_slice());
        let variant = crate::secret_store::tail(&chars, k + 1);
        let variant_text = text::string_from_chars(variant.as_slice());
        (format_name(base_text.as_str()), Some(text::to_uppercase(variant_text.as_str())))
    } else {
        (format_name(model_id), None)
    }
}

/// The context length assumed for a model id: an explicit size in the name
/// (`128k`, `64k`, `32k`, `16k`), else the family's usual size, else 4096.
pub fn estimate_context_length(model_id: &str) -> (n: u32)
    ensures
        n == context_length_for(text::unicode_lowercase(model_id@)),
        text::all_ascii(model_id@) ==> n == context_length_for(
            model_id@.map_values(|c: char| text::ascii_lower_char(c)),
        ),
{
    let lower = text::to_lowercase(model_id);
    let id = lower.as_str();
    if text::contains(id, "128k") {
        return 131_072;
    }
    if text::contains(id, "64k") {
        return 65_536;
    }
    if text::contains(id, "32k") {
        return 32_768;
    }
    if text::contains(id, "16k") {
        return 16_384;
    }
    if text::contains(id, "llama3") {
        8_192
    } else if text::contains(id, "llama2") {
        4_096
    } else if text::contains(id, "mistral") || text::contains(id, "mixtral") {
        32_768
    } else if text::contains(id, "phi") {
        2_048
    } else if text::contains(id, "gemma") {
        8_192
    } else {
        4_096
    }
}

/// The model entry for a model listed by the backend.
pub fn convert_model(model: &OllamaModel) -> (m: ModelInfo)
    ensures
        m.id@ == model.id@,
        m.name@ == name_and_variant(model.id@).0,
        match (m.variant, name_and_variant(model.id@).1) {
            (Some(v), Some(w)) => v@ == w,
            (None, None) => true,
            _ => false,
        },
        m.description is None,
        m.available,
        m.capabilities.text_generation,
        m.capabilities.chat,
        m.capabilities.embeddings == text::occurs_in(model.id@, "embed"@),
        m.capabilities.code == (text::occurs_in(model.id@, "code"@) || text::occurs_in(
            model.id@,
            "starcoder"@,
        )),
        m.capabilities.context_length == Some(
            context_length_for(text::unicode_lowercase(model.id@)),
        ),
{
    let model_id = model.id.as_str();
    let (name, variant) = parse_model_name(model_id);
    let context_length = estimate_context_length(model_id);
    ModelInfo {
        id: model.id.clone(),
        name,
        description: None,
        capabilities: ModelCapabilities {
            text_generation: true,
            chat: true,
            embeddings: text::contains(model_id, "embed"),
            code: text::contains(model_id, "code") || text::contains(model_id, "starcoder"),
            context_length: Some(context_length),
        },
        variant,
        available: true,
    }
}

/// The model entries for a listing of the backend, in its order.
pub fn convert_models(listed: &[OllamaModel]) -> (r: Vec<ModelInfo>)
    ensures
        r@.len() == listed@.len(),
        forall|i: int|
            0 <= i < listed@.len() ==> {
                let m = #[trigger] r@[i];
                let id = listed@[i].id@;
                &&& m.id@ == id
                &&& m.name@ == name_and_variant(id).0
                &&& m.available
                &&& m.capabilities.embeddings == text::occurs_in(id, "embed"@)
                &&& m.capabilities.context_length == Some(
                    context_length_for(text::unicode_lowercase(id)),
                )
            },
{
    let mut out: Vec<ModelInfo> = Vec::new();
    let mut i: usize = 0;
    while i < listed.len()
        invariant
            i <= listed@.len(),
            out@.len() == i,
            forall|j: int|
                0 <= j < i ==> {
                    let m = #[trigger] out@[j];
                    let id = listed@[j].id@;
                    &&& m.id@ == id
                    &&& m.name@ == name_and_variant(id).0
                    &&& m.available
                    &&& m.capabilities.embeddings == text::occurs_in(id, "embed"@)
                    &&& m.capabilities.context_length == Some(
                        context_length_for(text::unicode_lowercase(id)),
                    )
                },
        decreases listed@.len() - i,
    {
        let m = convert_model(&listed[i]);
        out.push(m);
        i = i + 1;
    }
    out
}

/// Index of the first model with the given id, if any.
pub open spec fn first_with_id(models: Seq<ModelInfo>, id: Seq<char>) -> Option<int>
    decreases models.len(),
{
    if models.len() == 0 {
        None
    } else if models[0].id@ == id {
        Some(0)
    } else {
        match first_with_id(models.drop_first(), id) {
            Some(i) => Some(i + 1),
            None => None,
        }
    }
}

/// The first listed model with the given id.
pub fn find_model<'a>(models: &'a Vec<ModelInfo>, model_id: &str) -> (r: Option<&'a ModelInfo>)
    ensures
        match first_with_id(models@, model_id@) {
            Some(i) => 0 <= i < models@.len() && r == Some(&models@[i]),
            None => r is None,
        },
{
    let mut i: usize = 0;
    proof {
        assert(models@.skip(0) =~= models@);
    }
    while i < models.len()
        invariant
            i <= models.len(),
            first_with_id(models@, model_id@) == match first_with_id(models@.skip(i as int), model_id@) {
                Some(j) => Some(j + i),
                None => None::<int>,
            },
        decreases models.len() - i,
    {
        proof {
            assert(models@.skip(i as int)[0] == models@[i as int]);
            assert(models@.skip(i as int).drop_first() =~= models@.skip(i + 1));
        }
        if text::str_eq(models[i].id.as_str(), model_id) {
            return Some(&models[i]);
        }
        i = i + 1;
    }
    None
}

/// A model list fetched at some time, reused while younger than the TTL.
pub struct ModelListCache {
    entry: Option<(Vec<ModelInfo>, u64)>,
}

/// Whether a list fetched at `fetched` is still fresh at `now` for `ttl_ms`.
pub open spec fn is_fresh(fetched: u64, now: u64, ttl_ms: u128) -> bool {
    now >= fetched && now - fetched < ttl_ms || now < fetched && 0 < ttl_ms
}

impl ModelListCache {
    /// The cached list and when it was fetched.
    pub closed spec fn spec_entry(self) -> Option<(Seq<ModelInfo>, u64)> {
        match self.entry {
            Some((v, t)) => Some((v@, t)),
            None => None,
        }
    }

    /// An empty cache.
    pub fn new() -> (c: Self)
        ensures
            c.spec_entry() is None,
    {
        ModelListCache { entry: None }
    }

    /// The cached list, if it is younger than `ttl_ms` at `now_ms`.
    pub fn get_at(&self, now_ms: u64, ttl_ms: u128) -> (r: Option<&Vec<ModelInfo>>)
        ensures
            match self.spec_entry() {
                Some((v, t)) => if is_fresh(t, now_ms, ttl_ms) {
                    r matches Some(l) && l@ == v
                } else {
                    r is None
                },
                None => r is None,
            },
    {
        match &self.entry {
            Some((v, t)) => {
                let fresh = if now_ms >= *t {
                    ((now_ms - *t) as u128) < ttl_ms
                } else {
                    0 < ttl_ms
                };
                if fresh {
                    Some(v)
                } else {
                    None
                }
            },
            None => None,
        }
    }

    /// Stores a list fetched at `now_ms`.
    pub fn update_at(&mut self, models: Vec<ModelInfo>, now_ms: u64)
        ensures
            final(self).spec_entry() == Some((models@, now_ms)),
    {
        self.entry = Some((models, now_ms));
    }

    /// Forgets the cached list.
    pub fn clear(&mut self)
        ensures
            final(self).spec_entry() is None,
    {
        self.entry = None;
    }
}

/// A stored list is returned by the next read while it is fresh.
pub proof fn lemma_cache_returns_fresh_list(models: Seq<ModelInfo>, t: u64, now: u64, ttl_ms: u128)
    requires
        now >= t,
        now - t < ttl_ms,
    ensures
        is_fresh(t, now, ttl_ms),
{
}

/// The error text when the registry's circuit breaker is open.
pub open spec fn circuit_open_text() -> Seq<char> {
    "Ollama model registry circuit breaker is open"@
}

/// Fails fast when the registry has a circuit breaker and it is open at
/// `now_ms`; the breaker's state is brought up to `now_ms` either way.
pub fn check_circuit_at(cb: &mut Option<CircuitBreaker>, now_ms: u64) -> (r: Result<(), String>)
    ensures
        match (*old(cb), *final(cb)) {
            (Some(o), Some(f)) => {
                &&& f.spec_state() == crate::circuit_breaker::advanced(o.spec_state(), o.spec_config(), now_ms)
                &&& f.spec_name() == o.spec_name()
                &&& f.spec_config() == o.spec_config()
                &&& (r is Err <==> f.spec_state().state == crate::circuit_breaker::CircuitState::Open)
                &&& r matches Err(m) ==> m@ == circuit_open_text()
            },
            (None, None) => r is Ok,
            _ => false,
        },
{
    match cb {
        Some(b) => {
            if b.is_open_at(now_ms) {
                Err(text::owned("Ollama model registry circuit breaker is open"))
            } else {
                Ok(())
            }
        },
        None => Ok(()),
    }
}

} // verus!
