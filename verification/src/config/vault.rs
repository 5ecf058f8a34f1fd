//! Vault secret store settings: where Vault is, how to log in, and where the
//! application's secrets lie in it.

use vstd::prelude::*;

use crate::config::opt_view;
use crate::secret_store::VaultConfig;
use crate::text;

verus! {

/// Vault configuration as the application file states it.
///
/// The token and the AppRole secret id are credentials; this type has no
/// `Debug` so that they cannot end up in logs.
#[derive(Clone)]
pub struct VaultAppConfig {
    /// Whether secrets are loaded from Vault.
    pub enabled: bool,
    /// Vault server address.
    pub address: String,
    /// Vault token.
    pub token: Option<String>,
    /// AppRole role id.
    pub role_id: Option<String>,
    /// AppRole secret id.
    pub secret_id: Option<String>,
    /// Mount path of the KV v2 engine.
    pub mount_path: String,
    /// Prefix of all secret paths of the application.
    pub secret_prefix: String,
    /// Vault namespace (enterprise).
    pub namespace: Option<String>,
    /// Request timeout, in seconds.
    pub timeout_secs: u64,
    /// Whether environment variables are read when Vault fails.
    pub env_fallback: bool,
    /// Prefix of the fallback environment variables.
    pub env_prefix: Option<String>,
}

/// Default Vault address.
pub fn default_vault_address() -> (s: String)
    ensures
        s@ == "http://127.0.0.1:8200"@,
{
    text::owned("http://127.0.0.1:8200")
}

/// Default KV mount path.
pub fn default_mount_path() -> (s: String)
    ensures
        s@ == "secret"@,
{
    text::owned("secret")
}

/// Default prefix of the application's secret paths.
pub fn default_secret_prefix() -> (s: String)
    ensures
        s@ == "pisovereign"@,
{
    text::owned("pisovereign")
}

/// Default Vault request timeout, in seconds.
pub fn default_timeout_secs() -> (n: u64)
    ensures
        n == 5,
{
    5
}

/// Default prefix of the fallback environment variables.
pub fn default_env_prefix() -> (p: Option<String>)
    ensures
        opt_view(p) == Some("PISOVEREIGN"@),
{
    Some(text::owned("PISOVEREIGN"))
}

impl Default for VaultAppConfig {
    fn default() -> (c: Self)
        ensures
            !c.enabled,
            c.address@ == "http://127.0.0.1:8200"@,
            c.token is None,
            c.role_id is None,
            c.secret_id is None,
            c.mount_path@ == "secret"@,
            c.secret_prefix@ == "pisovereign"@,
            c.namespace is None,
            c.timeout_secs == 5,
            c.env_fallback,
            opt_view(c.env_prefix) == Some("PISOVEREIGN"@),
    {
        VaultAppConfig {
            enabled: false,
            address: default_vault_address(),
            token: None,
            role_id: None,
            secret_id: None,
            mount_path: default_mount_path(),
            secret_prefix: default_secret_prefix(),
            namespace: None,
            timeout_secs: default_timeout_secs(),
            env_fallback: true,
            env_prefix: default_env_prefix(),
        }
    }
}

/// The path of a service's secrets under a prefix.
pub open spec fn secret_path_of(prefix: Seq<char>, service: Seq<char>) -> Seq<char> {
    prefix + "/"@ + service
}

impl VaultAppConfig {
    /// The client configuration: address, mount, timeout and namespace as
    /// given; the token when set; AppRole credentials only when both ids are
    /// set.
    pub fn to_vault_config(&self) -> (c: VaultConfig)
        ensures
            c.address@ == self.address@,
            c.mount_path@ == self.mount_path@,
            c.timeout_secs == self.timeout_secs,
            opt_view(c.token) == opt_view(self.token),
            opt_view(c.namespace) == opt_view(self.namespace),
            (self.role_id is Some && self.secret_id is Some) ==> (opt_view(c.role_id) == opt_view(
                self.role_id,
            ) && opt_view(c.secret_id) == opt_view(self.secret_id)),
            !(self.role_id is Some && self.secret_id is Some) ==> (c.role_id is None
                && c.secret_id is None),
    {
        let mut config = VaultConfig::new(self.address.as_str());
        config.mount_path = self.mount_path.clone();
        config.timeout_secs = self.timeout_secs;
        match &self.token {
            Some(t) => {
                config.token = Some(t.clone());
            },
            None => {},
        }
        match (&self.role_id, &self.secret_id) {
            (Some(r), Some(s)) => {
                config.role_id = Some(r.clone());
                config.secret_id = Some(s.clone());
            },
            _ => {},
        }
        match &self.namespace {
            Some(n) => {
                config.namespace = Some(n.clone());
            },
            None => {},
        }
        config
    }

    /// The path of a service's secrets: `{secret_prefix}/{service}`.
    pub fn secret_path(&self, service: &str) -> (p: String)
        ensures
            p@ == secret_path_of(self.secret_prefix@, service@),
    {
        self.secret_prefix.clone().concat("/").concat(service)
    }
}

} // verus!
