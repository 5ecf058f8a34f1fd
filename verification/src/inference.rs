//! Decisions of the inference adapters: the messages sent for a
//! conversation, the mapping of engine errors, the circuit-breaker guard
//! around engine calls, and the caching of answers (cache keys, which system
//! prompts give stable answers, and how long answers are kept).

use vstd::prelude::*;

use crate::cache::{cache_key, llm_cache_key_from};
use crate::circuit_breaker::{
    advance_transitions, advanced, after_failure as breaker_after_failure,
    after_success as breaker_after_success, failure_transitions, success_transitions,
    CircuitBreaker, CircuitBreakerError, CircuitState,
};
use crate::error::ApplicationError;
use crate::text;

verus! {

// ------------------------------------------------------------------
// Results and cached answers
// ------------------------------------------------------------------

/// The answer of an inference call.
#[derive(Debug, Clone)]
pub struct InferenceResult {
    /// Generated text.
    pub content: String,
    /// Model that answered.
    pub model: String,
    /// Tokens used, when the engine reports them.
    pub tokens_used: Option<u32>,
    /// Time the call took, in milliseconds.
    pub latency_ms: u64,
}

/// An answer as it is kept in the cache.
#[derive(Debug, Clone)]
pub struct CachedResponse {
    /// Generated text.
    pub content: String,
    /// Model that answered.
    pub model: String,
    /// Tokens used, when the engine reported them.
    pub tokens_used: Option<u32>,
}

impl CachedResponse {
    /// The cached form of an answer.
    pub fn from_result(result: &InferenceResult) -> (c: Self)
        ensures
            c.content@ == result.content@,
            c.model@ == result.model@,
            c.tokens_used == result.tokens_used,
    {
        CachedResponse {
            content: result.content.clone(),
            model: result.model.clone(),
            tokens_used: result.tokens_used,
        }
    }

    /// The answer a cache hit gives: the cached text, model and tokens, with
    /// no latency.
    pub fn to_result(&self) -> (r: InferenceResult)
        ensures
            r.content@ == self.content@,
            r.model@ == self.model@,
            r.tokens_used == self.tokens_used,
            r.latency_ms == 0,
    {
        InferenceResult {
            content: self.content.clone(),
            model: self.model.clone(),
            tokens_used: self.tokens_used,
            latency_ms: 0,
        }
    }
}

/// The answer a cached adapter gives from its cache, given what reading the
/// answer's key returned: the cached answer on a hit while caching is
/// enabled; otherwise none, and the engine is asked. A failed read counts as
/// a miss.
pub fn answer_from_cache(enabled: bool, lookup: Result<Option<CachedResponse>, ApplicationError>) -> (r:
    Option<InferenceResult>)
    ensures
        match (enabled, lookup, r) {
            (true, Ok(Some(c)), Some(x)) => {
                &&& x.content@ == c.content@
                &&& x.model@ == c.model@
                &&& x.tokens_used == c.tokens_used
                &&& x.latency_ms == 0
            },
            (true, Ok(Some(_)), None) => false,
            (_, _, r) => r is None,
        },
{
    if !enabled {
        return None;
    }
    match lookup {
        Ok(Some(c)) => Some(c.to_result()),
        _ => None,
    }
}

/// What a cached adapter stores after the engine answered: the answer's
/// cached form and its time to live in seconds (a day for a stable system
/// prompt, an hour otherwise), or nothing while caching is disabled.
pub fn answer_to_store(enabled: bool, result: &InferenceResult, is_stable: bool) -> (r: Option<
    (CachedResponse, u64),
>)
    ensures
        match r {
            None => !enabled,
            Some((c, t)) => {
                &&& enabled
                &&& c.content@ == result.content@
                &&& c.model@ == result.model@
                &&& c.tokens_used == result.tokens_used
                &&& t == if is_stable {
                    24 * 60 * 60
                } else {
                    60 * 60
                }
            },
        },
{
    if !enabled {
        return None;
    }
    Some((CachedResponse::from_result(result), answer_ttl_secs(is_stable)))
}

// ------------------------------------------------------------------
// Cache keys and lifetimes
// ------------------------------------------------------------------

/// The temperature in cache keys: the default 0.7 with two decimals.
pub open spec fn default_temperature_text() -> Seq<char> {
    "0.70"@
}

/// The cache key of an answer to `input` from `model` at the default
/// temperature.
pub open spec fn answer_key(input: Seq<char>, model: Seq<char>) -> Seq<char> {
    cache_key(
        "llm"@,
        seq![
            vstd::utf8::encode_utf8(input),
            vstd::utf8::encode_utf8(model),
            vstd::utf8::encode_utf8(default_temperature_text()),
        ],
    )
}

/// The cache key of an answer to a plain message.
pub fn message_cache_key(message: &str, model: &str) -> (k: String)
    ensures
        k@ == answer_key(message@, model@),
{
    proof {
        reveal_strlit("0.70");
    }
    llm_cache_key_from(message, model, "0.70")
}

/// The text a system prompt and a message are keyed by: `{system}|{message}`.
pub open spec fn system_input(system: Seq<char>, message: Seq<char>) -> Seq<char> {
    system + "|"@ + message
}

/// The cache key of an answer to a message under a system prompt.
pub fn system_cache_key(system_prompt: &str, message: &str, model: &str) -> (k: String)
    ensures
        k@ == answer_key(system_input(system_prompt@, message@), model@),
{
    let combined = text::owned(system_prompt).concat("|").concat(message);
    proof {
        reveal_strlit("0.70");
    }
    llm_cache_key_from(combined.as_str(), model, "0.70")
}

/// One message of a conversation: its role's name and its text.
#[derive(Debug, Clone, PartialEq, Eq)]
pub struct InferenceMessage {
    /// Role name (`system`, `user`, `assistant`, ...).
    pub role: String,
    /// Text.
    pub content: String,
}

/// The model of a message.
pub open spec fn message_view(m: InferenceMessage) -> (Seq<char>, Seq<char>) {
    (m.role@, m.content@)
}

/// The model of a list of messages.
pub open spec fn messages_view(ms: Seq<InferenceMessage>) -> Seq<(Seq<char>, Seq<char>)> {
    ms.map_values(|m: InferenceMessage| message_view(m))
}

/// The text a conversation is keyed by: `{role}:{content}` for each message,
/// joined by `|`.
pub open spec fn conversation_input(ms: Seq<(Seq<char>, Seq<char>)>) -> Seq<char>
    decreases ms.len(),
{
    if ms.len() == 0 {
        Seq::empty()
    } else if ms.len() == 1 {
        ms[0].0 + ":"@ + ms[0].1
    } else {
        conversation_input(ms.drop_last()) + "|"@ + ms.last().0 + ":"@ + ms.last().1
    }
}

/// The cache key of an answer to a conversation.
pub fn conversation_cache_key(messages: &Vec<InferenceMessage>, model: &str) -> (k: String)
    ensures
        k@ == answer_key(conversation_input(messages_view(messages@)), model@),
{
    let ghost mv = messages_view(messages@);
    let mut input = String::new();
    let mut i: usize = 0;
    while i < messages.len()
        invariant
            i <= messages@.len(),
            mv == messages_view(messages@),
            input@ == conversation_input(mv.take(i as int)),
        decreases messages@.len() - i,
    {
        proof {
            assert(mv.take(i + 1).drop_last() =~= mv.take(i as int));
        }
        if i > 0 {
            input = input.concat("|");
        }
        input = input.concat(messages[i].role.as_str()).concat(":").concat(
            messages[i].content.as_str(),
        );
        proof {
            if i == 0 {
                assert(input@ =~= conversation_input(mv.take(1)));
            }
        }
        i = i + 1;
    }
    proof {
        assert(mv.take(i as int) =~= mv);
        reveal_strlit("0.70");
    }
    llm_cache_key_from(input.as_str(), model, "0.70")
}

/// Key under which the list of available models is cached.
pub open spec fn models_list_key() -> Seq<char> {
    "inference:models:list"@
}

/// The key of the cached list of available models.
pub fn models_list_cache_key() -> (k: String)
    ensures
        k@ == models_list_key(),
{
    text::owned("inference:models:list")
}

/// The pattern of cache keys that belong to a model: `inference:{model}:*`.
pub open spec fn model_pattern(model: Seq<char>) -> Seq<char> {
    "inference:"@ + model + ":*"@
}

/// The pattern invalidated when switching to `model`.
pub fn model_invalidation_pattern(model: &str) -> (p: String)
    ensures
        p@ == model_pattern(model@),
{
    text::owned("inference:").concat(model).concat(":*")
}

/// How long a cached answer lives, in seconds: a day for answers to stable
/// system prompts, an hour otherwise.
pub fn answer_ttl_secs(is_stable: bool) -> (t: u64)
    ensures
        t == if is_stable {
            24 * 60 * 60
        } else {
            60 * 60
        },
{
    if is_stable {
        24 * 60 * 60
    } else {
        60 * 60
    }
}

/// How long the list of available models is cached, in seconds: a day.
pub fn models_list_ttl_secs() -> (t: u64)
    ensures
        t == 24 * 60 * 60,
{
    24 * 60 * 60
}

// ------------------------------------------------------------------
// Stable system prompts
// ------------------------------------------------------------------

/// Words that suggest a deterministic task.
pub open spec fn stable_keywords() -> Seq<Seq<char>> {
    seq![
        "classify"@,
        "extract"@,
        "parse"@,
        "format"@,
        "translate"@,
        "summarize"@,
        "analyze"@,
        "json"@,
        "xml"@,
    ]
}

/// Words that suggest a creative task.
pub open spec fn dynamic_keywords() -> Seq<Seq<char>> {
    seq!["creative"@, "generate"@, "imagine"@, "story"@, "poem"@, "random"@]
}

/// Whether `s` contains one of the words.
pub open spec fn mentions_any(s: Seq<char>, words: Seq<Seq<char>>) -> bool {
    exists|i: int| 0 <= i < words.len() && text::occurs_in(s, #[trigger] words[i])
}

/// Whether a lowercased system prompt suggests stable answers: it names a
/// deterministic task and no creative one.
pub open spec fn stable_prompt(lower: Seq<char>) -> bool {
    mentions_any(lower, stable_keywords()) && !mentions_any(lower, dynamic_keywords())
}

fn mentions_any_exec(s: &str, words: &[&str]) -> (r: bool)
    ensures
        r == mentions_any(s@, words@.map_values(|w: &str| w@)),
{
    let ghost ws = words@.map_values(|w: &str| w@);
    let mut i: usize = 0;
    while i < words.len()
        invariant
            i <= words@.len(),
            ws == words@.map_values(|w: &str| w@),
            forall|j: int| 0 <= j < i ==> !text::occurs_in(s@, #[trigger] ws[j]),
        decreases words@.len() - i,
    {
        if text::contains(s, words[i]) {
            assert(ws[i as int] == words@[i as int]@);
            return true;
        }
        i = i + 1;
    }
    false
}

/// Whether answers under a system prompt can be cached for long: the prompt,
/// lowercased, names a deterministic task (classify, extract, parse, format,
/// translate, summarize, analyze, json, xml) and no creative one (creative,
/// generate, imagine, story, poem, random).
pub fn is_stable_system_prompt(prompt: &str) -> (r: bool)
    ensures
        r == stable_prompt(text::unicode_lowercase(prompt@)),
        text::all_ascii(prompt@) ==> r == stable_prompt(
            prompt@.map_values(|c: char| text::ascii_lower_char(c)),
        ),
{
    let lower = text::to_lowercase(prompt);
    let stable: [&str; 9] = [
        "classify",
        "extract",
        "parse",
        "format",
        "translate",
        "summarize",
        "analyze",
        "json",
        "xml",
    ];
    let dynamic: [&str; 6] = ["creative", "generate", "imagine", "story", "poem", "random"];
    let s = vstd::array::array_as_slice(&stable);
    let d = vstd::array::array_as_slice(&dynamic);
    proof {
        assert(s@.map_values(|w: &str| w@) =~= stable_keywords());
        assert(d@.map_values(|w: &str| w@) =~= dynamic_keywords());
    }
    let has_stable = mentions_any_exec(lower.as_str(), s);
    let has_dynamic = mentions_any_exec(lower.as_str(), d);
    has_stable && !has_dynamic
}

// ------------------------------------------------------------------
// Messages of a conversation
// ------------------------------------------------------------------

/// The system prompt a conversation is answered under: its own, else the
/// adapter's.
pub open spec fn chosen_system_prompt(
    conversation: Option<Seq<char>>,
    adapter: Option<Seq<char>>,
) -> Option<Seq<char>> {
    match conversation {
        Some(s) => Some(s),
        None => adapter,
    }
}

/// The messages sent for a conversation: the chosen system prompt as a
/// `system` message, if there is one, then the conversation's messages.
pub open spec fn context_messages_of(
    conversation_system: Option<Seq<char>>,
    adapter_system: Option<Seq<char>>,
    history: Seq<(Seq<char>, Seq<char>)>,
) -> Seq<(Seq<char>, Seq<char>)> {
    match chosen_system_prompt(conversation_system, adapter_system) {
        Some(s) => seq![("system"@, s)] + history,
        None => history,
    }
}

/// The view of an optional string slice.
pub open spec fn opt_str(o: Option<&str>) -> Option<Seq<char>> {
    match o {
        Some(s) => Some(s@),
        None => None,
    }
}

/// The messages sent for a conversation (see `context_messages_of`).
pub fn context_messages(
    conversation_system_prompt: Option<&str>,
    adapter_system_prompt: Option<&str>,
    history: Vec<InferenceMessage>,
) -> (r: Vec<InferenceMessage>)
    ensures
        messages_view(r@) == context_messages_of(
            opt_str(conversation_system_prompt),
            opt_str(adapter_system_prompt),
            messages_view(history@),
        ),
{
    let system = match conversation_system_prompt {
        Some(s) => Some(s),
        None => adapter_system_prompt,
    };
    match system {
        Some(s) => {
            let mut out: Vec<InferenceMessage> = Vec::new();
            out.push(InferenceMessage { role: text::owned("system"), content: text::owned(s) });
            let ghost first = out@;
            let mut rest = history;
            let ghost hv = rest@;
            out.append(&mut rest);
            proof {
                assert(out@ =~= first + hv);
                assert(messages_view(out@) =~= seq![("system"@, s@)] + messages_view(hv));
            }
            out
        },
        None => history,
    }
}

// ------------------------------------------------------------------
// Engine errors and the circuit breaker
// ------------------------------------------------------------------

/// The failures of an inference engine that the adapter tells apart.
#[derive(Debug, Clone, PartialEq, Eq)]
pub enum InferenceError {
    /// The engine rate-limited the request.
    RateLimited,
    /// The engine could not be reached.
    ConnectionFailed(String),
    /// The request timed out after this many milliseconds.
    Timeout(u64),
    /// Any other failure, with the engine's message.
    Other(String),
}

/// Whether `r` is what an engine failure `e` is reported as.
pub open spec fn maps_engine_error(e: InferenceError, r: ApplicationError) -> bool {
    match e {
        InferenceError::RateLimited => r == ApplicationError::RateLimited,
        InferenceError::ConnectionFailed(m) => r matches ApplicationError::ExternalService(x) && x@
            == "Hailo connection failed: "@ + m@,
        InferenceError::Timeout(ms) => r matches ApplicationError::ExternalService(x) && x@
            == "Inference timeout after "@ + text::decimal(ms as nat) + "ms"@,
        InferenceError::Other(t) => r matches ApplicationError::Inference(x) && x@ == t@,
    }
}

/// Maps an engine failure to the error reported to the application.
pub fn map_inference_error(e: InferenceError) -> (r: ApplicationError)
    ensures
        maps_engine_error(e, r),
{
    match e {
        InferenceError::RateLimited => ApplicationError::RateLimited,
        InferenceError::ConnectionFailed(m) => ApplicationError::ExternalService(
            text::owned("Hailo connection failed: ").concat(m.as_str()),
        ),
        InferenceError::Timeout(ms) => ApplicationError::ExternalService(
            text::owned("Inference timeout after ").concat(text::decimal_text(ms).as_str()).concat(
                "ms",
            ),
        ),
        InferenceError::Other(t) => ApplicationError::Inference(t),
    }
}

/// The message when a call is refused because the circuit is open.
pub open spec fn fast_fail_text() -> Seq<char> {
    "Hailo inference service temporarily unavailable (circuit breaker open)"@
}

/// The message when the breaker refuses a call it was handed.
pub open spec fn breaker_open_text() -> Seq<char> {
    "Hailo inference service temporarily unavailable"@
}

/// Maps the outcome of a guarded engine call to the error reported.
pub fn map_breaker_error(e: CircuitBreakerError<InferenceError>) -> (r: ApplicationError)
    ensures
        match e {
            CircuitBreakerError::CircuitOpen(_) => r matches ApplicationError::ExternalService(x)
                && x@ == breaker_open_text(),
            CircuitBreakerError::ServiceError(inner) => maps_engine_error(inner, r),
        },
{
    match e {
        CircuitBreakerError::CircuitOpen(_) => ApplicationError::ExternalService(
            text::owned("Hailo inference service temporarily unavailable"),
        ),
        CircuitBreakerError::ServiceError(inner) => map_inference_error(inner),
    }
}

/// A word for a breaker's state in logs.
pub open spec fn state_word(s: CircuitState) -> Seq<char> {
    match s {
        CircuitState::Open => "open"@,
        CircuitState::Closed => "closed"@,
        CircuitState::HalfOpen => "half-open"@,
    }
}

/// Describes an adapter's breaker at `now_ms`: `disabled` without one, else
/// its state (brought up to `now_ms`).
pub fn circuit_state_desc_at(cb: &mut Option<CircuitBreaker>, now_ms: u64) -> (d: &'static str)
    ensures
        match (*old(cb), *final(cb)) {
            (Some(o), Some(f)) => {
                &&& f.spec_state() == advanced(o.spec_state(), o.spec_config(), now_ms)
                &&& f.spec_name() == o.spec_name()
                &&& f.spec_config() == o.spec_config()
                &&& d@ == state_word(f.spec_state().state)
            },
            (None, None) => d@ == "disabled"@,
            _ => false,
        },
{
    match cb {
        Some(b) => {
            let s = b.state_at(now_ms);
            match s {
                CircuitState::Open => "open",
                CircuitState::Closed => "closed",
                CircuitState::HalfOpen => "half-open",
            }
        },
        None => "disabled",
    }
}

/// Runs an engine call `f` under the adapter's breaker at `now_ms`.
///
/// Without a breaker `f` is called and its failure mapped. With one, an open
/// circuit fails fast without calling `f`; otherwise the breaker makes the
/// call and records its outcome.
pub fn guarded_call_at<F, T>(cb: &mut Option<CircuitBreaker>, now_ms: u64, f: F) -> (r: Result<
    T,
    ApplicationError,
>) where F: FnOnce() -> Result<T, InferenceError>
    requires
        f.requires(()),
    ensures
        match *old(cb) {
            None => {
                &&& *final(cb) == *old(cb)
                &&& exists|out: Result<T, InferenceError>|
                    #![trigger f.ensures((), out)]
                    {
                        &&& f.ensures((), out)
                        &&& match out {
                            Ok(v) => r == Ok::<T, ApplicationError>(v),
                            Err(e) => r matches Err(x) && maps_engine_error(e, x),
                        }
                    }
            },
            Some(o) => match *final(cb) {
                None => false,
                Some(fb) => {
                    let cfg = o.spec_config();
                    let pre = advanced(o.spec_state(), cfg, now_ms);
                    let stores = o.spec_persistence_path() is Some;
                    let marked = o.spec_unsaved() || (advance_transitions(
                        o.spec_state(),
                        cfg,
                        now_ms,
                    ) && stores);
                    &&& fb.spec_name() == o.spec_name()
                    &&& fb.spec_config() == cfg
                    &&& fb.spec_persistence_path() == o.spec_persistence_path()
                    &&& if pre.state == CircuitState::Open {
                        &&& r matches Err(ApplicationError::ExternalService(x))
                        &&& x@ == fast_fail_text()
                        &&& fb.spec_state() == pre
                        &&& fb.spec_unsaved() == marked
                    } else {
                        exists|out: Result<T, InferenceError>|
                            #![trigger f.ensures((), out)]
                            {
                                &&& f.ensures((), out)
                                &&& match out {
                                    Ok(v) => {
                                        &&& r == Ok::<T, ApplicationError>(v)
                                        &&& fb.spec_state() == breaker_after_success(pre, cfg)
                                        &&& fb.spec_unsaved() == (marked || (success_transitions(
                                            pre,
                                            cfg,
                                        ) && stores))
                                    },
                                    Err(e) => {
                                        &&& r matches Err(x) && maps_engine_error(e, x)
                                        &&& fb.spec_state() == breaker_after_failure(
                                            pre,
                                            cfg,
                                            now_ms,
                                        )
                                        &&& fb.spec_unsaved() == (marked || (failure_transitions(
                                            pre,
                                            cfg,
                                        ) && stores))
                                    },
                                }
                            }
                    }
                },
            },
        },
{
    match cb {
        None => {
            let out = f();
            match out {
                Ok(v) => Ok(v),
                Err(e) => Err(map_inference_error(e)),
            }
        },
        Some(b) => {
            if b.is_open_at(now_ms) {
                return Err(
                    ApplicationError::ExternalService(
                        text::owned(
                            "Hailo inference service temporarily unavailable (circuit breaker open)",
                        ),
                    ),
                );
            }
            match b.call_sync_at(now_ms, f) {
                Ok(v) => Ok(v),
                Err(e) => Err(map_breaker_error(e)),
            }
        },
    }
}

} // verus!
