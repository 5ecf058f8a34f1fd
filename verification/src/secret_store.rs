//! Secret stores: naming of environment variables, Vault paths and error
//! classification, and the chained lookup over several stores.
//!
//! The lookups themselves (environment, Vault over HTTP) are performed by the
//! caller; the functions here decide what to ask and what the answers mean.

use vstd::prelude::*;

use crate::text;

verus! {

/// Errors of secret lookups.
#[derive(Debug, Clone, PartialEq, Eq)]
pub enum SecretStoreError {
    /// The secret does not exist.
    NotFound(String),
    /// The configuration or the secret's form is wrong.
    Configuration(String),
    /// The store could not be reached or answered with an error.
    ExternalService(String),
    /// Authentication with the store failed.
    NotAuthorized(String),
}

// ------------------------------------------------------------------
// Environment variables
// ------------------------------------------------------------------

/// `key` with `/` and `-` replaced by `_`.
pub open spec fn normalized_key(key: Seq<char>) -> Seq<char> {
    key.map_values(|c: char| if c == '/' || c == '-' { '_' } else { c })
}

/// The environment variable that holds the secret `key`.
pub open spec fn env_var_name(prefix: Option<Seq<char>>, key: Seq<char>) -> Seq<char> {
    let name = text::unicode_uppercase(normalized_key(key));
    match prefix {
        Some(p) => p + "_"@ + name,
        None => name,
    }
}

/// The environment variable for `key` when `key` is ASCII: its normalized
/// form with ASCII letters uppercased.
pub open spec fn ascii_env_var_name(prefix: Option<Seq<char>>, key: Seq<char>) -> Seq<char> {
    let name = normalized_key(key).map_values(|c: char| text::ascii_upper_char(c));
    match prefix {
        Some(p) => p + "_"@ + name,
        None => name,
    }
}

/// Secret store that reads from environment variables.
///
/// Keys are uppercased with `/` and `-` replaced by `_`, e.g.
/// `database/password` becomes `DATABASE_PASSWORD`.
#[derive(Debug, Clone)]
pub struct EnvSecretStore {
    /// Optional prefix for all environment variable lookups.
    pub prefix: Option<String>,
}

/// How reading an environment variable went.
#[derive(Debug, Clone, PartialEq, Eq)]
pub enum EnvLookup {
    /// The variable is set to this value.
    Present(String),
    /// The variable is not set.
    NotPresent,
    /// The variable is set but not valid Unicode.
    NotUnicode,
}

impl Default for EnvSecretStore {
    fn default() -> (s: Self)
        ensures
            s.prefix is None,
    {
        EnvSecretStore { prefix: None }
    }
}

impl EnvSecretStore {
    /// A store without prefix.
    pub fn new() -> (s: Self)
        ensures
            s.prefix is None,
    {
        EnvSecretStore { prefix: None }
    }

    /// A store whose variable names start with `prefix` and `_`.
    pub fn with_prefix(prefix: &str) -> (s: Self)
        ensures
            s.prefix matches Some(p) && p@ == prefix@,
    {
        EnvSecretStore { prefix: Some(text::owned(prefix)) }
    }

    /// The prefix as a sequence, if any.
    pub open spec fn spec_prefix(self) -> Option<Seq<char>> {
        match self.prefix {
            Some(p) => Some(p@),
            None => None,
        }
    }

    /// The environment variable that holds the secret `key`.
    pub fn key_to_env_var(&self, key: &str) -> (v: String)
        ensures
            v@ == env_var_name(self.spec_prefix(), key@),
            text::all_ascii(key@) ==> v@ == ascii_env_var_name(self.spec_prefix(), key@),
    {
        let chars = text::chars_of(key);
        let mut out: Vec<char> = Vec::new();
        let mut i: usize = 0;
        while i < chars.len()
            invariant
                i <= chars.len(),
                chars@ == key@,
                out@ == normalized_key(chars@.take(i as int)),
            decreases chars.len() - i,
        {
            let c = chars[i];
            let d = if c == '/' || c == '-' {
                '_'
            } else {
                c
            };
            out.push(d);
            proof {
                assert(normalized_key(chars@.take(i + 1)) =~= normalized_key(chars@.take(i as int)).push(d));
            }
            i = i + 1;
        }
        proof {
            assert(chars@.take(i as int) =~= key@);
        }
        let normalized = text::string_from_chars(out.as_slice());
        proof {
            if text::all_ascii(key@) {
                assert forall|j: int| 0 <= j < normalized@.len() implies (normalized@[j] as u32)
                    < 128 by {
                    assert(normalized@[j] == normalized_key(key@)[j]);
                }
            }
        }
        let upper = text::to_uppercase(normalized.as_str());
        match &self.prefix {
            Some(p) => p.clone().concat("_").concat(upper.as_str()),
            None => upper,
        }
    }

    /// The answer to a lookup of `key` given how reading its variable went.
    pub fn lookup_result(&self, key: &str, lookup: EnvLookup) -> (r: Result<String, SecretStoreError>)
        ensures
            match lookup {
                EnvLookup::Present(v) => r == Ok::<String, SecretStoreError>(v),
                EnvLookup::NotPresent => r matches Err(SecretStoreError::NotFound(m)) && m@
                    == "Secret not found: "@ + key@ + " (env: "@ + env_var_name(
                    self.spec_prefix(),
                    key@,
                ) + ")"@,
                EnvLookup::NotUnicode => r matches Err(SecretStoreError::Configuration(m)) && m@
                    == "Secret contains invalid UTF-8: "@ + env_var_name(self.spec_prefix(), key@),
            },
    {
        match lookup {
            EnvLookup::Present(v) => Ok(v),
            EnvLookup::NotPresent => {
                let var = self.key_to_env_var(key);
                Err(
                    SecretStoreError::NotFound(
                        text::owned("Secret not found: ").concat(key).concat(" (env: ").concat(
                            var.as_str(),
                        ).concat(")"),
                    ),
                )
            },
            EnvLookup::NotUnicode => {
                let var = self.key_to_env_var(key);
                Err(
                    SecretStoreError::Configuration(
                        text::owned("Secret contains invalid UTF-8: ").concat(var.as_str()),
                    ),
                )
            },
        }
    }
}

// ------------------------------------------------------------------
// Vault
// ------------------------------------------------------------------

/// Configuration for the Vault secret store.
#[derive(Debug, Clone)]
pub struct VaultConfig {
    /// Vault server address.
    pub address: String,
    /// Token for authentication.
    pub token: Option<String>,
    /// AppRole role id.
    pub role_id: Option<String>,
    /// AppRole secret id.
    pub secret_id: Option<String>,
    /// Mount path of the KV v2 engine.
    pub mount_path: String,
    /// Vault namespace (enterprise).
    pub namespace: Option<String>,
    /// Request timeout in seconds.
    pub timeout_secs: u64,
}

impl Default for VaultConfig {
    fn default() -> (c: Self)
        ensures
            c.address@ == "http://127.0.0.1:8200"@,
            c.token is None,
            c.role_id is None,
            c.secret_id is None,
            c.mount_path@ == "secret"@,
            c.namespace is None,
            c.timeout_secs == 30,
    {
        VaultConfig {
            address: text::owned("http://127.0.0.1:8200"),
            token: None,
            role_id: None,
            secret_id: None,
            mount_path: text::owned("secret"),
            namespace: None,
            timeout_secs: 30,
        }
    }
}

/// Splits a secret path into (mount, path within the mount): a leading
/// `{mount}/data/` or `{mount}/` is stripped; any other path is used as is
/// under the configured mount.
pub open spec fn split_vault_path(mount: Seq<char>, path: Seq<char>) -> (Seq<char>, Seq<char>) {
    let data_prefix = mount + "/data/"@;
    let mount_prefix = mount + "/"@;
    if text::is_prefix(data_prefix, path) {
        (mount, path.skip(data_prefix.len() as int))
    } else if text::is_prefix(mount_prefix, path) {
        (mount, path.skip(mount_prefix.len() as int))
    } else {
        (mount, path)
    }
}

impl VaultConfig {
    /// A configuration for the server at `address`, otherwise default.
    pub fn new(address: &str) -> (c: Self)
        ensures
            c.address@ == address@,
            c.token is None,
            c.role_id is None,
            c.secret_id is None,
            c.mount_path@ == "secret"@,
            c.namespace is None,
            c.timeout_secs == 30,
    {
        VaultConfig { address: text::owned(address), ..Default::default() }
    }

    /// Sets the token.
    pub fn with_token(self, token: &str) -> (c: Self)
        ensures
            c.token matches Some(t) && t@ == token@,
            c.address == self.address,
            c.role_id == self.role_id,
            c.secret_id == self.secret_id,
            c.mount_path == self.mount_path,
            c.namespace == self.namespace,
            c.timeout_secs == self.timeout_secs,
    {
        VaultConfig { token: Some(text::owned(token)), ..self }
    }

    /// Sets AppRole credentials.
    pub fn with_approle(self, role_id: &str, secret_id: &str) -> (c: Self)
        ensures
            c.role_id matches Some(r) && r@ == role_id@,
            c.secret_id matches Some(s) && s@ == secret_id@,
            c.address == self.address,
            c.token == self.token,
            c.mount_path == self.mount_path,
            c.namespace == self.namespace,
            c.timeout_secs == self.timeout_secs,
    {
        VaultConfig { role_id: Some(text::owned(role_id)), secret_id: Some(text::owned(secret_id)), ..self }
    }

    /// Sets the mount path.
    pub fn with_mount_path(self, path: &str) -> (c: Self)
        ensures
            c.mount_path@ == path@,
            c.address == self.address,
            c.token == self.token,
            c.role_id == self.role_id,
            c.secret_id == self.secret_id,
            c.namespace == self.namespace,
            c.timeout_secs == self.timeout_secs,
    {
        VaultConfig { mount_path: text::owned(path), ..self }
    }

    /// Sets the namespace.
    pub fn with_namespace(self, namespace: &str) -> (c: Self)
        ensures
            c.namespace matches Some(n) && n@ == namespace@,
            c.address == self.address,
            c.token == self.token,
            c.role_id == self.role_id,
            c.secret_id == self.secret_id,
            c.mount_path == self.mount_path,
            c.timeout_secs == self.timeout_secs,
    {
        VaultConfig { namespace: Some(text::owned(namespace)), ..self }
    }

    /// Whether AppRole login is configured (both ids present).
    pub fn uses_approle(&self) -> (r: bool)
        ensures
            r == (self.role_id is Some && self.secret_id is Some),
    {
        self.role_id.is_some() && self.secret_id.is_some()
    }

    /// Splits a secret path into the mount and the path within it.
    pub fn parse_path(&self, path: &str) -> (r: (String, String))
        ensures
            (r.0@, r.1@) == split_vault_path(self.mount_path@, path@),
    {
        let mount = self.mount_path.clone();
        let data_prefix = mount.clone().concat("/data/");
        let mount_prefix = mount.clone().concat("/");
        let chars = text::chars_of(path);
        if text::starts_with(path, data_prefix.as_str()) {
            let n = text::chars_of(data_prefix.as_str()).len();
            let rest = text::string_from_chars(tail(&chars, n).as_slice());
            return (mount, rest);
        }
        if text::starts_with(path, mount_prefix.as_str()) {
            let n = text::chars_of(mount_prefix.as_str()).len();
            let rest = text::string_from_chars(tail(&chars, n).as_slice());
            return (mount, rest);
        }
        (mount, text::owned(path))
    }
}

/// `v` without its first `n` elements.
pub(crate) fn tail(v: &Vec<char>, n: usize) -> (r: Vec<char>)
    requires
        n <= v.len(),
    ensures
        r@ == v@.skip(n as int),
{
    let mut r: Vec<char> = Vec::new();
    let mut i: usize = n;
    while i < v.len()
        invariant
            n <= i <= v.len(),
            r@ == v@.subrange(n as int, i as int),
        decreases v.len() - i,
    {
        r.push(v[i]);
        proof {
            assert(v@.subrange(n as int, i + 1) =~= v@.subrange(n as int, i as int).push(v@[i as int]));
        }
        i = i + 1;
    }
    proof {
        assert(v@.subrange(n as int, v.len() as int) =~= v@.skip(n as int));
    }
    r
}

/// Whether a Vault error message says the secret is missing.
pub open spec fn says_missing(message: Seq<char>) -> bool {
    text::occurs_in(message, "404"@) || text::occurs_in(message, "not found"@)
}

/// The lookup error for a failed Vault read of `key` with the client's message.
pub fn classify_read_error(key: &str, message: &str) -> (e: SecretStoreError)
    ensures
        says_missing(message@) ==> (e matches SecretStoreError::NotFound(m) && m@
            == "Secret not found: "@ + key@),
        !says_missing(message@) ==> (e matches SecretStoreError::ExternalService(m) && m@
            == "Vault read failed: "@ + message@),
{
    if text::contains(message, "404") || text::contains(message, "not found") {
        SecretStoreError::NotFound(text::owned("Secret not found: ").concat(key))
    } else {
        SecretStoreError::ExternalService(text::owned("Vault read failed: ").concat(message))
    }
}

/// The answer to an existence check given the metadata read: present if the
/// read succeeded, absent if it failed with a 404, an error otherwise.
pub fn classify_exists(read: Result<(), String>) -> (r: Result<bool, SecretStoreError>)
    ensures
        match read {
            Ok(()) => r == Ok::<bool, SecretStoreError>(true),
            Err(m) => if text::occurs_in(m@, "404"@) {
                r == Ok::<bool, SecretStoreError>(false)
            } else {
                r matches Err(SecretStoreError::ExternalService(e)) && e@
                    == "Vault metadata check failed: "@ + m@
            },
        },
{
    match read {
        Ok(()) => Ok(true),
        Err(m) => {
            if text::contains(m.as_str(), "404") {
                Ok(false)
            } else {
                Err(
                    SecretStoreError::ExternalService(
                        text::owned("Vault metadata check failed: ").concat(m.as_str()),
                    ),
                )
            }
        },
    }
}

/// Index of the first entry whose key is `k`, if any.
pub open spec fn first_key(entries: Seq<(Seq<char>, Seq<char>)>, k: Seq<char>) -> Option<int>
    decreases entries.len(),
{
    if entries.len() == 0 {
        None
    } else if entries[0].0 == k {
        Some(0)
    } else {
        match first_key(entries.drop_first(), k) {
            Some(i) => Some(i + 1),
            None => None,
        }
    }
}

/// The value a secret entry yields: the one under `value`, else `password`,
/// else `secret`, else the first entry's.
pub open spec fn chosen_value(entries: Seq<(Seq<char>, Seq<char>)>) -> Option<Seq<char>> {
    match first_key(entries, "value"@) {
        Some(i) => Some(entries[i].1),
        None => match first_key(entries, "password"@) {
            Some(i) => Some(entries[i].1),
            None => match first_key(entries, "secret"@) {
                Some(i) => Some(entries[i].1),
                None => if entries.len() > 0 {
                    Some(entries[0].1)
                } else {
                    None
                },
            },
        },
    }
}

/// The entries of a secret as sequences.
pub open spec fn entries_view(entries: Seq<(String, String)>) -> Seq<(Seq<char>, Seq<char>)> {
    entries.map_values(|e: (String, String)| (e.0@, e.1@))
}

proof fn lemma_first_key_in_range(entries: Seq<(Seq<char>, Seq<char>)>, k: Seq<char>)
    ensures
        first_key(entries, k) matches Some(i) ==> 0 <= i < entries.len() && entries[i].0 == k,
    decreases entries.len(),
{
    if entries.len() > 0 {
        lemma_first_key_in_range(entries.drop_first(), k);
    }
}

fn find_key(entries: &Vec<(String, String)>, k: &str) -> (r: Option<usize>)
    ensures
        match r {
            Some(i) => first_key(entries_view(entries@), k@) == Some(i as int) && i < entries@.len(),
            None => first_key(entries_view(entries@), k@) is None,
        },
{
    let ghost ev = entries_view(entries@);
    let mut i: usize = 0;
    proof {
        assert(ev.skip(0) =~= ev);
    }
    while i < entries.len()
        invariant
            i <= entries.len(),
            ev == entries_view(entries@),
            ev.len() == entries.len(),
            first_key(ev, k@) == match first_key(ev.skip(i as int), k@) {
                Some(j) => Some(j + i),
                None => None::<int>,
            },
        decreases entries.len() - i,
    {
        if text::str_eq(entries[i].0.as_str(), k) {
            proof {
                assert(ev.skip(i as int)[0] == ev[i as int]);
            }
            return Some(i);
        }
        proof {
            assert(ev.skip(i as int).drop_first() =~= ev.skip(i + 1));
            assert(ev.skip(i as int)[0] == ev[i as int]);
        }
        i = i + 1;
    }
    proof {
        assert(ev.skip(i as int).len() == 0);
    }
    None
}

/// The value of a Vault secret with the given entries (in the map's order):
/// `value`, `password` or `secret` in that order of preference, else the
/// first entry's; `None` for a secret without entries.
pub fn select_secret_value(entries: &Vec<(String, String)>) -> (r: Option<String>)
    ensures
        match r {
            Some(v) => chosen_value(entries_view(entries@)) == Some(v@),
            None => chosen_value(entries_view(entries@)) is None,
        },
{
    let ghost ev = entries_view(entries@);
    proof {
        lemma_first_key_in_range(ev, "value"@);
        lemma_first_key_in_range(ev, "password"@);
        lemma_first_key_in_range(ev, "secret"@);
    }
    if let Some(i) = find_key(entries, "value") {
        return Some(entries[i].1.clone());
    }
    if let Some(i) = find_key(entries, "password") {
        return Some(entries[i].1.clone());
    }
    if let Some(i) = find_key(entries, "secret") {
        return Some(entries[i].1.clone());
    }
    if entries.len() > 0 {
        Some(entries[0].1.clone())
    } else {
        None
    }
}

// ------------------------------------------------------------------
// Chained stores
// ------------------------------------------------------------------

/// The answer of a chain of stores, asked in order: the first store that has
/// the secret answers; stores that do not have it are skipped; if none has
/// it, the last other error is reported (`Err(Some(e))`), or that no store has
/// it (`Err(None)`) when there was no other error.
pub open spec fn chain_answer<T>(
    outcomes: Seq<Result<T, SecretStoreError>>,
    last_error: Option<SecretStoreError>,
) -> Result<T, Option<SecretStoreError>>
    decreases outcomes.len(),
{
    if outcomes.len() == 0 {
        Err(last_error)
    } else {
        match outcomes[0] {
            Ok(v) => Ok(v),
            Err(e) => match e {
                SecretStoreError::NotFound(_) => chain_answer(outcomes.drop_first(), last_error),
                _ => chain_answer(outcomes.drop_first(), Some(e)),
            },
        }
    }
}

/// The error reported when no store of a chain has `key`.
pub open spec fn chain_not_found(key: Seq<char>) -> Seq<char> {
    "Secret not found in any store: "@ + key
}

/// A lookup across several stores, fed their answers in order.
pub struct ChainedLookup {
    last_error: Option<SecretStoreError>,
}

/// Whether the chain stops at this answer.
pub open spec fn answers<T>(out: Result<T, SecretStoreError>) -> bool {
    out is Ok
}

impl ChainedLookup {
    /// The last error other than not-found seen so far.
    pub closed spec fn spec_last_error(self) -> Option<SecretStoreError> {
        self.last_error
    }

    /// A lookup that has seen no answer.
    pub fn new() -> (l: Self)
        ensures
            l.spec_last_error() is None,
    {
        ChainedLookup { last_error: None }
    }

    /// Takes the next store's answer; returns the secret if this store had it,
    /// after which no further store needs to be asked.
    pub fn record<T>(&mut self, out: Result<T, SecretStoreError>) -> (r: Option<T>)
        ensures
            match out {
                Ok(v) => r == Some(v) && final(self).spec_last_error() == old(self).spec_last_error(),
                Err(e) => r is None && final(self).spec_last_error() == match e {
                    SecretStoreError::NotFound(_) => old(self).spec_last_error(),
                    _ => Some(e),
                },
            },
    {
        match out {
            Ok(v) => Some(v),
            Err(SecretStoreError::NotFound(m)) => None,
            Err(e) => {
                self.last_error = Some(e);
                None
            },
        }
    }

    /// The error to report when no store had the secret `key`.
    pub fn finish(self, key: &str) -> (e: SecretStoreError)
        ensures
            match self.spec_last_error() {
                Some(l) => e == l,
                None => e matches SecretStoreError::NotFound(m) && m@ == chain_not_found(key@),
            },
    {
        match self.last_error {
            Some(e) => e,
            None => SecretStoreError::NotFound(
                text::owned("Secret not found in any store: ").concat(key),
            ),
        }
    }
}

/// The answer of a chain of stores whose answers are `outcomes`, in order.
pub fn resolve_chain<T>(outcomes: Vec<Result<T, SecretStoreError>>, key: &str) -> (r: Result<
    T,
    SecretStoreError,
>)
    ensures
        match chain_answer(outcomes@, None) {
            Ok(v) => r == Ok::<T, SecretStoreError>(v),
            Err(Some(e)) => r == Err::<T, SecretStoreError>(e),
            Err(None) => r matches Err(SecretStoreError::NotFound(m)) && m@ == chain_not_found(key@),
        },
{
    let mut lookup = ChainedLookup::new();
    let ghost all = outcomes@;
    let mut outs = outcomes;
    while outs.len() > 0
        invariant
            all == outcomes@,
            chain_answer(all, None) == chain_answer(outs@, lookup.spec_last_error()),
        decreases outs.len(),
    {
        let ghost before = outs@;
        let ghost last = lookup.spec_last_error();
        let x = outs.remove(0);
        proof {
            assert(before.drop_first() =~= outs@);
            assert(before[0] == x);
        }
        if let Some(v) = lookup.record(x) {
            proof {
                assert(x is Ok);
                assert(chain_answer(before, last) == Ok::<T, Option<SecretStoreError>>(v));
            }
            return Ok(v);
        }
    }
    Err(lookup.finish(key))
}

/// Whether `outs` are the answers of the first `outs.len()` stores of a chain
/// of `count`, asked in order through `ask` (store `i` answers `ask(i)`), and
/// the asking stopped only at the end or at the first store that had the
/// secret.
pub open spec fn asked_in_order<T, F: Fn(usize) -> Result<T, SecretStoreError>>(
    ask: F,
    count: nat,
    outs: Seq<Result<T, SecretStoreError>>,
) -> bool {
    &&& outs.len() <= count
    &&& forall|i: int| 0 <= i < outs.len() ==> call_ensures(ask, (i as usize,), #[trigger] outs[i])
    &&& forall|i: int| 0 <= i < outs.len() - 1 ==> !(#[trigger] outs[i] is Ok)
    &&& outs.len() < count ==> outs.len() > 0 && outs.last() is Ok
}

/// The last error other than not-found among `outs`, or `acc` if none.
pub open spec fn last_other_error<T>(
    outs: Seq<Result<T, SecretStoreError>>,
    acc: Option<SecretStoreError>,
) -> Option<SecretStoreError>
    decreases outs.len(),
{
    if outs.len() == 0 {
        acc
    } else {
        last_other_error(
            outs.drop_first(),
            match outs[0] {
                Err(SecretStoreError::NotFound(_)) => acc,
                Err(e) => Some(e),
                Ok(_) => acc,
            },
        )
    }
}

proof fn lemma_chain_split<T>(
    outs: Seq<Result<T, SecretStoreError>>,
    rest: Seq<Result<T, SecretStoreError>>,
    acc: Option<SecretStoreError>,
)
    requires
        forall|j: int| 0 <= j < outs.len() ==> !(#[trigger] outs[j] is Ok),
    ensures
        chain_answer(outs + rest, acc) == chain_answer(rest, last_other_error(outs, acc)),
    decreases outs.len(),
{
    if outs.len() > 0 {
        let tail = outs.drop_first();
        assert((outs + rest).drop_first() =~= tail + rest);
        assert((outs + rest)[0] == outs[0]);
        assert forall|j: int| 0 <= j < tail.len() implies !(#[trigger] tail[j] is Ok) by {
            assert(tail[j] == outs[j + 1]);
        }
        let next = match outs[0] {
            Err(SecretStoreError::NotFound(_)) => acc,
            Err(e) => Some(e),
            Ok(_) => acc,
        };
        lemma_chain_split(tail, rest, next);
    } else {
        assert(outs + rest =~= rest);
    }
}

proof fn lemma_last_other_error_push<T>(
    outs: Seq<Result<T, SecretStoreError>>,
    o: Result<T, SecretStoreError>,
    acc: Option<SecretStoreError>,
)
    ensures
        last_other_error(outs.push(o), acc) == match o {
            Err(SecretStoreError::NotFound(_)) => last_other_error(outs, acc),
            Err(e) => Some(e),
            Ok(_) => last_other_error(outs, acc),
        },
    decreases outs.len(),
{
    if outs.len() > 0 {
        assert(outs.push(o).drop_first() =~= outs.drop_first().push(o));
        assert(outs.push(o)[0] == outs[0]);
        let next = match outs[0] {
            Err(SecretStoreError::NotFound(_)) => acc,
            Err(e) => Some(e),
            Ok(_) => acc,
        };
        lemma_last_other_error_push(outs.drop_first(), o, next);
    } else {
        let one = outs.push(o);
        assert(one.drop_first() =~= Seq::<Result<T, SecretStoreError>>::empty());
        assert(one[0] == o);
        let next = match o {
            Err(SecretStoreError::NotFound(_)) => acc,
            Err(e) => Some(e),
            Ok(_) => acc,
        };
        assert(last_other_error(one, acc) == last_other_error(one.drop_first(), next));
        assert(outs =~= Seq::<Result<T, SecretStoreError>>::empty());
    }
}

/// Asks the `count` stores of a chain for a secret, in order, through `ask`
/// (store `i` answers `ask(i)`), stopping at the first store that has it: the
/// answer is the chain's answer (see `chain_answer`) over the answers
/// received.
pub fn ask_in_order<T, F: Fn(usize) -> Result<T, SecretStoreError>>(
    count: usize,
    ask: F,
    key: &str,
) -> (r: Result<T, SecretStoreError>)
    requires
        forall|i: usize| i < count ==> call_requires(ask, (i,)),
    ensures
        exists|outs: Seq<Result<T, SecretStoreError>>|
            #[trigger] asked_in_order(ask, count as nat, outs) && match chain_answer(outs, None) {
                Ok(v) => r == Ok::<T, SecretStoreError>(v),
                Err(Some(e)) => r == Err::<T, SecretStoreError>(e),
                Err(None) => r matches Err(SecretStoreError::NotFound(m)) && m@ == chain_not_found(
                    key@,
                ),
            },
{
    let mut lookup = ChainedLookup::new();
    let ghost mut outs: Seq<Result<T, SecretStoreError>> = Seq::empty();
    let mut i: usize = 0;
    while i < count
        invariant
            i <= count,
            forall|j: usize| j < count ==> call_requires(ask, (j,)),
            outs.len() == i,
            forall|j: int| 0 <= j < outs.len() ==> call_ensures(ask, (j as usize,), #[trigger] outs[j]),
            forall|j: int| 0 <= j < outs.len() ==> !(#[trigger] outs[j] is Ok),
            lookup.spec_last_error() == last_other_error(outs, None),
        decreases count - i,
    {
        let out = ask(i);
        let ghost before = outs;
        proof {
            outs = outs.push(out);
            lemma_last_other_error_push(before, out, None);
            assert(outs[i as int] == out);
            assert forall|j: int| 0 <= j < before.len() implies outs[j] == before[j] by {}
        }
        if let Some(v) = lookup.record(out) {
            proof {
                lemma_chain_split(before, seq![out], None);
                assert(before + seq![out] =~= outs);
                assert(asked_in_order(ask, count as nat, outs));
            }
            return Ok(v);
        }
        i = i + 1;
    }
    proof {
        lemma_chain_split(outs, Seq::empty(), None);
        assert(outs + Seq::<Result<T, SecretStoreError>>::empty() =~= outs);
        assert(asked_in_order(ask, count as nat, outs));
    }
    Err(lookup.finish(key))
}

/// Whether a chain of stores is healthy, given each store's health in the
/// chain's order: when at least one of them is.
pub fn any_store_healthy(health: &Vec<bool>) -> (r: bool)
    ensures
        r == health@.contains(true),
{
    let mut i: usize = 0;
    while i < health.len()
        invariant
            i <= health@.len(),
            forall|j: int| 0 <= j < i ==> !health@[j],
        decreases health@.len() - i,
    {
        if health[i] {
            return true;
        }
        i = i + 1;
    }
    false
}

} // verus!
