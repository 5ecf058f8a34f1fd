//! Integration settings that the library holds: web search and the TLS
//! settings of the Proton Mail bridge.

use vstd::prelude::*;

use crate::integrations::{
    CalDavConfig, CardDavConfig, ProtonConfig, TlsConfig, TransitConfig, WebSearchConfig,
};
use crate::text;

verus! {

/// Web search configuration (Brave Search with DuckDuckGo fallback).
#[derive(Debug, Clone)]
pub struct WebSearchAppConfig {
    /// Brave Search API key.
    pub api_key: Option<String>,
    /// Maximum results per query.
    pub max_results: u32,
    /// Request timeout, in seconds.
    pub timeout_secs: u64,
    /// Whether DuckDuckGo is used when Brave fails.
    pub fallback_enabled: bool,
    /// Safe search level: `off`, `moderate` or `strict`.
    pub safe_search: String,
    /// Country code for localised results.
    pub country: Option<String>,
    /// Language code for results.
    pub language: Option<String>,
    /// Requests per minute allowed by the API plan.
    pub rate_limit_rpm: Option<u32>,
    /// Cache TTL of search results, in minutes.
    pub cache_ttl_minutes: u32,
}

/// Default maximum results per query.
pub fn default_websearch_max_results() -> (n: u32)
    ensures
        n == 5,
{
    5
}

/// Default web search timeout, in seconds.
pub fn default_websearch_timeout() -> (n: u64)
    ensures
        n == 30,
{
    30
}

/// Default safe search level.
pub fn default_safe_search() -> (s: String)
    ensures
        s@ == "moderate"@,
{
    text::owned("moderate")
}

/// Default cache TTL of search results, in minutes.
pub fn default_websearch_cache_ttl() -> (n: u32)
    ensures
        n == 30,
{
    30
}

impl Default for WebSearchAppConfig {
    fn default() -> (c: Self)
        ensures
            c.api_key is None,
            c.max_results == 5,
            c.timeout_secs == 30,
            c.fallback_enabled,
            c.safe_search@ == "moderate"@,
            c.country is None,
            c.language is None,
            c.rate_limit_rpm is None,
            c.cache_ttl_minutes == 30,
    {
        WebSearchAppConfig {
            api_key: None,
            max_results: default_websearch_max_results(),
            timeout_secs: default_websearch_timeout(),
            fallback_enabled: true,
            safe_search: default_safe_search(),
            country: None,
            language: None,
            rate_limit_rpm: None,
            cache_ttl_minutes: default_websearch_cache_ttl(),
        }
    }
}

/// TLS settings for the connection to the Proton Mail bridge.
impl WebSearchAppConfig {
    /// The search client's settings: these settings laid over the client's
    /// defaults `base`. The API key, result count, timeout, fallback, safe
    /// search level and cache lifetime always replace the defaults; country
    /// and language only when set; a per-minute rate limit becomes a daily
    /// one of 24 hours' worth of minutes.
    pub fn to_websearch_config(&self, base: WebSearchConfig) -> (c: WebSearchConfig)
        requires
            self.rate_limit_rpm matches Some(r) ==> r * 60 * 24 <= u32::MAX,
        ensures
            c.brave_api_key == self.api_key,
            c.max_results == self.max_results,
            c.timeout_secs == self.timeout_secs,
            c.fallback_enabled == self.fallback_enabled,
            c.safe_search == self.safe_search,
            c.cache_ttl_minutes == self.cache_ttl_minutes,
            c.result_country == match self.country {
                Some(v) => v,
                None => base.result_country,
            },
            c.result_language == match self.language {
                Some(v) => v,
                None => base.result_language,
            },
            c.rate_limit_daily == match self.rate_limit_rpm {
                Some(r) => (r * 60 * 24) as u32,
                None => base.rate_limit_daily,
            },
    {
        let mut config = base;
        config.brave_api_key = match &self.api_key {
            Some(k) => Some(k.clone()),
            None => None,
        };
        config.max_results = self.max_results;
        config.timeout_secs = self.timeout_secs;
        config.fallback_enabled = self.fallback_enabled;
        config.safe_search = self.safe_search.clone();
        config.cache_ttl_minutes = self.cache_ttl_minutes;
        match &self.country {
            Some(c) => {
                config.result_country = c.clone();
            },
            None => {},
        }
        match &self.language {
            Some(l) => {
                config.result_language = l.clone();
            },
            None => {},
        }
        match self.rate_limit_rpm {
            Some(rpm) => {
                config.rate_limit_daily = rpm * 60 * 24;
            },
            None => {},
        }
        config
    }
}

#[derive(Debug, Clone, PartialEq, Eq)]
pub struct ProtonTlsAppConfig {
    /// Whether the bridge's certificate is verified.
    pub verify_certificates: bool,
    /// Minimum TLS version.
    pub min_tls_version: String,
    /// Path to a custom CA certificate.
    pub ca_cert_path: Option<String>,
}

/// Minimum TLS version that a configuration file falls back to when it
/// names none.
pub fn default_min_tls() -> (s: String)
    ensures
        s@ == "1.2"@,
{
    text::owned("1.2")
}

impl Default for ProtonTlsAppConfig {
    /// The empty settings: no verification flag set, no version, no CA.
    fn default() -> (c: Self)
        ensures
            !c.verify_certificates,
            c.min_tls_version@.len() == 0,
            c.ca_cert_path is None,
    {
        ProtonTlsAppConfig {
            verify_certificates: false,
            min_tls_version: String::new(),
            ca_cert_path: None,
        }
    }
}

// ------------------------------------------------------------------
// Weather
// ------------------------------------------------------------------

/// Weather service settings. The default location, with its floating-point
/// coordinates, is kept apart from these by the application.
#[derive(Debug, Clone, PartialEq, Eq)]
pub struct WeatherConfig {
    /// Open-Meteo API address.
    pub base_url: String,
    /// Request timeout in seconds.
    pub timeout_secs: u64,
    /// Days of forecast (1 to 16).
    pub forecast_days: u8,
    /// Minutes that results stay cached.
    pub cache_ttl_minutes: u32,
}

/// The default weather API address.
pub fn default_weather_base_url() -> (s: String)
    ensures
        s@ == "https://api.open-meteo.com/v1"@,
{
    text::owned("https://api.open-meteo.com/v1")
}

impl Default for WeatherConfig {
    /// Open-Meteo, 30 seconds timeout, seven days, 30 minutes cached.
    fn default() -> (c: Self)
        ensures
            c.base_url@ == "https://api.open-meteo.com/v1"@,
            c.timeout_secs == 30,
            c.forecast_days == 7,
            c.cache_ttl_minutes == 30,
    {
        WeatherConfig {
            base_url: default_weather_base_url(),
            timeout_secs: 30,
            forecast_days: 7,
            cache_ttl_minutes: 30,
        }
    }
}

// ------------------------------------------------------------------
// CalDAV and CardDAV
// ------------------------------------------------------------------

/// Calendar server settings.
#[derive(Clone, PartialEq, Eq)]
pub struct CalDavAppConfig {
    /// Server address.
    pub server_url: String,
    /// User name.
    pub username: String,
    /// Password.
    pub password: String,
    /// Calendar to use, if not the first one found.
    pub calendar_path: Option<String>,
    /// Whether TLS certificates are checked (default: yes).
    pub verify_certs: bool,
    /// Request timeout in seconds (default: 30).
    pub timeout_secs: u64,
}

/// The default timeout of the calendar and contact servers, in seconds.
pub fn default_dav_timeout() -> (n: u64)
    ensures
        n == 30,
{
    30
}

impl CalDavAppConfig {
    /// The calendar client's settings: the same values.
    pub fn to_caldav_config(&self) -> (c: CalDavConfig)
        ensures
            c == (CalDavConfig {
                server_url: self.server_url,
                username: self.username,
                password: self.password,
                calendar_path: self.calendar_path,
                verify_certs: self.verify_certs,
                timeout_secs: self.timeout_secs,
            }),
    {
        CalDavConfig {
            server_url: self.server_url.clone(),
            username: self.username.clone(),
            password: self.password.clone(),
            calendar_path: copy_opt(&self.calendar_path),
            verify_certs: self.verify_certs,
            timeout_secs: self.timeout_secs,
        }
    }

    /// The password.
    pub fn password_str(&self) -> (p: &str)
        ensures
            p@ == self.password@,
    {
        self.password.as_str()
    }
}

/// Contact server settings.
#[derive(Clone, PartialEq, Eq)]
pub struct CardDavAppConfig {
    /// Server address.
    pub server_url: String,
    /// User name.
    pub username: String,
    /// Password.
    pub password: String,
    /// Address book to use, if not the first one found.
    pub addressbook_path: Option<String>,
    /// Whether TLS certificates are checked (default: yes).
    pub verify_certs: bool,
    /// Request timeout in seconds (default: 30).
    pub timeout_secs: u64,
}

impl CardDavAppConfig {
    /// The contact client's settings: the same values.
    pub fn to_carddav_config(&self) -> (c: CardDavConfig)
        ensures
            c == (CardDavConfig {
                server_url: self.server_url,
                username: self.username,
                password: self.password,
                addressbook_path: self.addressbook_path,
                verify_certs: self.verify_certs,
                timeout_secs: self.timeout_secs,
            }),
    {
        CardDavConfig {
            server_url: self.server_url.clone(),
            username: self.username.clone(),
            password: self.password.clone(),
            addressbook_path: copy_opt(&self.addressbook_path),
            verify_certs: self.verify_certs,
            timeout_secs: self.timeout_secs,
        }
    }

    /// Contact server settings that share the calendar server's address and
    /// credentials, with the address book found on the server.
    pub fn from_caldav(caldav: &CalDavAppConfig) -> (c: Self)
        ensures
            c == (CardDavAppConfig {
                server_url: caldav.server_url,
                username: caldav.username,
                password: caldav.password,
                addressbook_path: None,
                verify_certs: caldav.verify_certs,
                timeout_secs: caldav.timeout_secs,
            }),
    {
        CardDavAppConfig {
            server_url: caldav.server_url.clone(),
            username: caldav.username.clone(),
            password: caldav.password.clone(),
            addressbook_path: None,
            verify_certs: caldav.verify_certs,
            timeout_secs: caldav.timeout_secs,
        }
    }

    /// The password.
    pub fn password_str(&self) -> (p: &str)
        ensures
            p@ == self.password@,
    {
        self.password.as_str()
    }
}

fn copy_opt(o: &Option<String>) -> (r: Option<String>)
    ensures
        r == *o,
{
    match o {
        Some(s) => Some(s.clone()),
        None => None,
    }
}

// ------------------------------------------------------------------
// Proton Mail bridge
// ------------------------------------------------------------------

/// Mail bridge settings.
#[derive(Clone, PartialEq, Eq)]
pub struct ProtonAppConfig {
    /// IMAP host (default: 127.0.0.1).
    pub imap_host: String,
    /// IMAP port (default: 1143).
    pub imap_port: u16,
    /// SMTP host (default: 127.0.0.1).
    pub smtp_host: String,
    /// SMTP port (default: 1025).
    pub smtp_port: u16,
    /// Account address.
    pub email: String,
    /// Bridge password.
    pub password: String,
    /// TLS settings.
    pub tls: ProtonTlsAppConfig,
}

/// The default host of the bridge.
pub fn default_proton_host() -> (s: String)
    ensures
        s@ == "127.0.0.1"@,
{
    text::owned("127.0.0.1")
}

/// The default IMAP port of the bridge.
pub fn default_imap_port() -> (p: u16)
    ensures
        p == 1143,
{
    1143
}

/// The default SMTP port of the bridge.
pub fn default_smtp_port() -> (p: u16)
    ensures
        p == 1025,
{
    1025
}

impl ProtonAppConfig {
    /// The bridge client's settings: the same values, with certificate
    /// checking always stated.
    pub fn to_proton_config(&self) -> (c: ProtonConfig)
        ensures
            c == (ProtonConfig {
                imap_host: self.imap_host,
                imap_port: self.imap_port,
                smtp_host: self.smtp_host,
                smtp_port: self.smtp_port,
                email: self.email,
                password: self.password,
                tls: TlsConfig {
                    verify_certificates: Some(self.tls.verify_certificates),
                    min_tls_version: self.tls.min_tls_version,
                    ca_cert_path: self.tls.ca_cert_path,
                },
            }),
    {
        ProtonConfig {
            imap_host: self.imap_host.clone(),
            imap_port: self.imap_port,
            smtp_host: self.smtp_host.clone(),
            smtp_port: self.smtp_port,
            email: self.email.clone(),
            password: self.password.clone(),
            tls: TlsConfig {
                verify_certificates: Some(self.tls.verify_certificates),
                min_tls_version: self.tls.min_tls_version.clone(),
                ca_cert_path: copy_opt(&self.tls.ca_cert_path),
            },
        }
    }

    /// The password.
    pub fn password_str(&self) -> (p: &str)
        ensures
            p@ == self.password@,
    {
        self.password.as_str()
    }
}

// ------------------------------------------------------------------
// Public transit
// ------------------------------------------------------------------

/// Public transit settings. The home location, with its floating-point
/// coordinates, is kept apart from these by the application.
#[derive(Debug, Clone, PartialEq, Eq)]
pub struct TransitAppConfig {
    /// API address (default: `https://v6.db.transport.rest`).
    pub base_url: String,
    /// Request timeout in seconds (default: 10).
    pub timeout_secs: u64,
    /// Journeys to ask for (default: 3).
    pub max_results: u8,
    /// Minutes that results stay cached (default: 5).
    pub cache_ttl_minutes: u32,
    /// Whether reminders mention connections (default: yes).
    pub include_in_reminders: bool,
    /// Whether buses are used (default: yes).
    pub products_bus: bool,
    /// Whether suburban trains are used (default: yes).
    pub products_suburban: bool,
    /// Whether underground trains are used (default: yes).
    pub products_subway: bool,
    /// Whether trams are used (default: yes).
    pub products_tram: bool,
    /// Whether regional trains are used (default: yes).
    pub products_regional: bool,
    /// Whether long-distance trains are used (default: no).
    pub products_national: bool,
}

/// The default transit API address.
pub fn default_transit_base_url() -> (s: String)
    ensures
        s@ == "https://v6.db.transport.rest"@,
{
    text::owned("https://v6.db.transport.rest")
}

impl Default for TransitAppConfig {
    /// The defaults listed with the fields.
    fn default() -> (c: Self)
        ensures
            c.base_url@ == "https://v6.db.transport.rest"@,
            c.timeout_secs == 10,
            c.max_results == 3,
            c.cache_ttl_minutes == 5,
            c.include_in_reminders,
            c.products_bus,
            c.products_suburban,
            c.products_subway,
            c.products_tram,
            c.products_regional,
            !c.products_national,
    {
        TransitAppConfig {
            base_url: default_transit_base_url(),
            timeout_secs: 10,
            max_results: 3,
            cache_ttl_minutes: 5,
            include_in_reminders: true,
            products_bus: true,
            products_suburban: true,
            products_subway: true,
            products_tram: true,
            products_regional: true,
            products_national: false,
        }
    }
}

impl TransitAppConfig {
    /// The transit client's settings: the same values; high-speed trains are
    /// never used.
    pub fn to_transit_config(&self) -> (c: TransitConfig)
        ensures
            c == (TransitConfig {
                base_url: self.base_url,
                timeout_secs: self.timeout_secs,
                max_results: self.max_results,
                cache_ttl_minutes: self.cache_ttl_minutes,
                include_in_reminders: self.include_in_reminders,
                products_bus: self.products_bus,
                products_suburban: self.products_suburban,
                products_subway: self.products_subway,
                products_tram: self.products_tram,
                products_regional: self.products_regional,
                products_national: self.products_national,
                products_national_express: false,
            }),
    {
        TransitConfig {
            base_url: self.base_url.clone(),
            timeout_secs: self.timeout_secs,
            max_results: self.max_results,
            cache_ttl_minutes: self.cache_ttl_minutes,
            include_in_reminders: self.include_in_reminders,
            products_bus: self.products_bus,
            products_suburban: self.products_suburban,
            products_subway: self.products_subway,
            products_tram: self.products_tram,
            products_regional: self.products_regional,
            products_national: self.products_national,
            products_national_express: false,
        }
    }
}

} // verus!
