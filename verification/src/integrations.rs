//! The integration adapters' decisions: failing fast on an open circuit, how
//! each service's failures are reported, and how weather conditions and
//! search limits are read.

use vstd::prelude::*;

use crate::circuit_breaker::{advanced, CircuitBreaker, CircuitState};
use crate::contacts::ContactError;
use crate::error::ApplicationError;
use crate::text;

verus! {

// ------------------------------------------------------------------
// Failing fast
// ------------------------------------------------------------------

/// Fails fast with `open_message` when the adapter has a breaker that is open
/// at `now_ms`; the breaker's state is brought up to `now_ms` either way.
pub fn guard_circuit_at(cb: &mut Option<CircuitBreaker>, now_ms: u64, open_message: &str) -> (r:
    Result<(), ApplicationError>)
    ensures
        match (*old(cb), *final(cb)) {
            (Some(o), Some(f)) => {
                &&& f.spec_state() == advanced(o.spec_state(), o.spec_config(), now_ms)
                &&& f.spec_name() == o.spec_name()
                &&& f.spec_config() == o.spec_config()
                &&& (r is Err <==> f.spec_state().state == CircuitState::Open)
                &&& r matches Err(e) ==> (e matches ApplicationError::ExternalService(m) && m@
                    == open_message@)
            },
            (None, None) => r is Ok,
            _ => false,
        },
{
    match cb {
        Some(b) => {
            if b.is_open_at(now_ms) {
                Err(ApplicationError::ExternalService(text::owned(open_message)))
            } else {
                Ok(())
            }
        },
        None => Ok(()),
    }
}

// ------------------------------------------------------------------
// Web search
// ------------------------------------------------------------------
/// Settings of the web search client.
#[derive(Debug, Clone, PartialEq, Eq)]
pub struct WebSearchConfig {
    /// API key of the Brave search service; without one only the fallback is used.
    pub brave_api_key: Option<String>,
    /// Results to ask for.
    pub max_results: u32,
    /// Request timeout in seconds.
    pub timeout_secs: u64,
    /// Whether the fallback search service is used when the first fails.
    pub fallback_enabled: bool,
    /// Safe search level (`off`, `moderate`, `strict`).
    pub safe_search: String,
    /// Country of the results.
    pub result_country: String,
    /// Language of the results.
    pub result_language: String,
    /// Requests allowed per day.
    pub rate_limit_daily: u32,
    /// Minutes that results stay cached.
    pub cache_ttl_minutes: u32,
}


/// Failures of the web search client.
#[derive(Debug, Clone, PartialEq, Eq)]
pub enum WebSearchError {
    /// A request failed.
    RequestFailed(String),
    /// The provider could not be reached.
    ConnectionFailed(String),
    /// The provider's rate limit was hit.
    RateLimitExceeded {
        /// When to try again, if the provider said.
        retry_after_secs: Option<u64>,
    },
    /// The answer could not be read.
    ParseError(String),
    /// The client is misconfigured.
    ConfigurationError(String),
    /// Nothing was found.
    NoResults {
        /// The query.
        query: String,
    },
    /// The API key was refused.
    AuthenticationFailed(String),
    /// The provider is unavailable.
    ServiceUnavailable(String),
    /// The query is not valid.
    InvalidQuery(String),
    /// The request timed out.
    Timeout {
        /// The timeout, in seconds.
        timeout_secs: u64,
    },
}

/// Whether `r` is what a web search failure `e` is reported as.
pub open spec fn maps_search_error(e: WebSearchError, r: ApplicationError) -> bool {
    match e {
        WebSearchError::RequestFailed(m) => r matches ApplicationError::ExternalService(x) && x@
            == m@,
        WebSearchError::ConnectionFailed(m) => r matches ApplicationError::ExternalService(x) && x@
            == m@,
        WebSearchError::RateLimitExceeded { .. } => r == ApplicationError::RateLimited,
        WebSearchError::ParseError(m) => r matches ApplicationError::Internal(x) && x@ == m@,
        WebSearchError::ConfigurationError(m) => r matches ApplicationError::Internal(x) && x@
            == m@,
        WebSearchError::NoResults { query } => r matches ApplicationError::NotFound(x) && x@
            == "No search results for: "@ + query@,
        WebSearchError::AuthenticationFailed(m) => r matches ApplicationError::InvalidOperation(x)
            && x@ == "Authentication failed: "@ + m@,
        WebSearchError::ServiceUnavailable(m) => r matches ApplicationError::ExternalService(x)
            && x@ == m@,
        WebSearchError::InvalidQuery(m) => r matches ApplicationError::InvalidOperation(x) && x@
            == m@,
        WebSearchError::Timeout { timeout_secs } => r matches ApplicationError::ExternalService(x)
            && x@ == "Request timed out after "@ + text::decimal(timeout_secs as nat) + "s"@,
    }
}

/// The error reported for a web search failure.
pub fn map_search_error(e: WebSearchError) -> (r: ApplicationError)
    ensures
        maps_search_error(e, r),
{
    match e {
        WebSearchError::RequestFailed(m) => ApplicationError::ExternalService(m),
        WebSearchError::ConnectionFailed(m) => ApplicationError::ExternalService(m),
        WebSearchError::RateLimitExceeded { .. } => ApplicationError::RateLimited,
        WebSearchError::ParseError(m) => ApplicationError::Internal(m),
        WebSearchError::ConfigurationError(m) => ApplicationError::Internal(m),
        WebSearchError::NoResults { query } => ApplicationError::NotFound(
            text::owned("No search results for: ").concat(query.as_str()),
        ),
        WebSearchError::AuthenticationFailed(m) => ApplicationError::InvalidOperation(
            text::owned("Authentication failed: ").concat(m.as_str()),
        ),
        WebSearchError::ServiceUnavailable(m) => ApplicationError::ExternalService(m),
        WebSearchError::InvalidQuery(m) => ApplicationError::InvalidOperation(m),
        WebSearchError::Timeout { timeout_secs } => ApplicationError::ExternalService(
            text::owned("Request timed out after ").concat(
                text::decimal_text(timeout_secs).as_str(),
            ).concat("s"),
        ),
    }
}

/// How many results a search asks for: the requested number, else 5.
pub fn search_result_limit(requested: Option<u32>) -> (n: usize)
    ensures
        n == match requested {
            Some(k) => k as int,
            None => 5,
        },
{
    match requested {
        Some(k) => k as usize,
        None => 5,
    }
}

// ------------------------------------------------------------------
// Weather
// ------------------------------------------------------------------

/// Failures of the weather client.
#[derive(Debug, Clone, PartialEq, Eq)]
pub enum WeatherError {
    /// The service could not be reached.
    ConnectionFailed(String),
    /// A request failed.
    RequestFailed(String),
    /// The answer could not be read.
    ParseError(String),
    /// The service is unavailable.
    ServiceUnavailable(String),
    /// The coordinates are out of range.
    InvalidCoordinates,
    /// The service's rate limit was hit.
    RateLimitExceeded,
}

/// Whether `r` is what a weather failure `e` is reported as.
pub open spec fn maps_weather_error(e: WeatherError, r: ApplicationError) -> bool {
    match e {
        WeatherError::ConnectionFailed(m) => r matches ApplicationError::ExternalService(x) && x@
            == m@,
        WeatherError::RequestFailed(m) => r matches ApplicationError::ExternalService(x) && x@
            == m@,
        WeatherError::ParseError(m) => r matches ApplicationError::Internal(x) && x@ == m@,
        WeatherError::ServiceUnavailable(m) => r matches ApplicationError::Internal(x) && x@ == m@,
        WeatherError::InvalidCoordinates => r matches ApplicationError::InvalidOperation(x) && x@
            == "Invalid coordinates"@,
        WeatherError::RateLimitExceeded => r == ApplicationError::RateLimited,
    }
}

/// The error reported for a weather failure.
pub fn map_weather_error(e: WeatherError) -> (r: ApplicationError)
    ensures
        maps_weather_error(e, r),
{
    match e {
        WeatherError::ConnectionFailed(m) => ApplicationError::ExternalService(m),
        WeatherError::RequestFailed(m) => ApplicationError::ExternalService(m),
        WeatherError::ParseError(m) => ApplicationError::Internal(m),
        WeatherError::ServiceUnavailable(m) => ApplicationError::Internal(m),
        WeatherError::InvalidCoordinates => ApplicationError::InvalidOperation(
            text::owned("Invalid coordinates"),
        ),
        WeatherError::RateLimitExceeded => ApplicationError::RateLimited,
    }
}

/// Weather codes as the weather service reports them.
#[derive(Debug, Clone, Copy, PartialEq, Eq, Structural)]
pub enum WeatherCode {
    /// Clear sky.
    ClearSky,
    /// Mainly clear.
    MainlyClear,
    /// Partly cloudy.
    PartlyCloudy,
    /// Overcast.
    Overcast,
    /// Fog.
    Fog,
    /// Drizzle.
    Drizzle,
    /// Freezing drizzle.
    FreezingDrizzle,
    /// Rain.
    Rain,
    /// Rain showers.
    RainShowers,
    /// Freezing rain.
    FreezingRain,
    /// Snow.
    Snow,
    /// Snow grains.
    SnowGrains,
    /// Snow showers.
    SnowShowers,
    /// Thunderstorm.
    Thunderstorm,
    /// Thunderstorm with hail.
    ThunderstormWithHail,
    /// Anything else.
    Unknown,
}

/// Weather conditions as the assistant reports them.
#[derive(Debug, Clone, Copy, PartialEq, Eq, Structural)]
pub enum WeatherCondition {
    /// Clear sky.
    ClearSky,
    /// Mainly clear.
    MainlyClear,
    /// Partly cloudy.
    PartlyCloudy,
    /// Overcast.
    Overcast,
    /// Fog.
    Fog,
    /// Drizzle.
    Drizzle,
    /// Moderate rain.
    ModerateRain,
    /// Heavy rain.
    HeavyRain,
    /// Snow.
    Snow,
    /// Thunderstorm.
    Thunderstorm,
    /// Unknown.
    Unknown,
}

/// The condition reported for a weather code: freezing drizzle counts as
/// drizzle, rain and showers as moderate rain, freezing rain as heavy rain,
/// all snow as snow, and all thunderstorms as thunderstorm.
pub open spec fn condition_of(c: WeatherCode) -> WeatherCondition {
    match c {
        WeatherCode::ClearSky => WeatherCondition::ClearSky,
        WeatherCode::MainlyClear => WeatherCondition::MainlyClear,
        WeatherCode::PartlyCloudy => WeatherCondition::PartlyCloudy,
        WeatherCode::Overcast => WeatherCondition::Overcast,
        WeatherCode::Fog => WeatherCondition::Fog,
        WeatherCode::Drizzle | WeatherCode::FreezingDrizzle => WeatherCondition::Drizzle,
        WeatherCode::Rain | WeatherCode::RainShowers => WeatherCondition::ModerateRain,
        WeatherCode::FreezingRain => WeatherCondition::HeavyRain,
        WeatherCode::Snow | WeatherCode::SnowGrains | WeatherCode::SnowShowers => WeatherCondition::Snow,
        WeatherCode::Thunderstorm | WeatherCode::ThunderstormWithHail => WeatherCondition::Thunderstorm,
        WeatherCode::Unknown => WeatherCondition::Unknown,
    }
}

/// The condition reported for a weather code (see `condition_of`).
pub fn map_condition(code: WeatherCode) -> (c: WeatherCondition)
    ensures
        c == condition_of(code),
{
    match code {
        WeatherCode::ClearSky => WeatherCondition::ClearSky,
        WeatherCode::MainlyClear => WeatherCondition::MainlyClear,
        WeatherCode::PartlyCloudy => WeatherCondition::PartlyCloudy,
        WeatherCode::Overcast => WeatherCondition::Overcast,
        WeatherCode::Fog => WeatherCondition::Fog,
        WeatherCode::Drizzle | WeatherCode::FreezingDrizzle => WeatherCondition::Drizzle,
        WeatherCode::Rain | WeatherCode::RainShowers => WeatherCondition::ModerateRain,
        WeatherCode::FreezingRain => WeatherCondition::HeavyRain,
        WeatherCode::Snow | WeatherCode::SnowGrains | WeatherCode::SnowShowers => WeatherCondition::Snow,
        WeatherCode::Thunderstorm | WeatherCode::ThunderstormWithHail => WeatherCondition::Thunderstorm,
        WeatherCode::Unknown => WeatherCondition::Unknown,
    }
}

/// The precipitation probability reported for a day: the service's, or 0.
pub fn precipitation_probability(p: Option<u8>) -> (r: u8)
    ensures
        r == match p {
            Some(v) => v,
            None => 0u8,
        },
{
    match p {
        Some(v) => v,
        None => 0,
    }
}

// ------------------------------------------------------------------
// CalDAV tasks
// ------------------------------------------------------------------

/// Failures of the CalDAV client.
#[derive(Debug, Clone, PartialEq, Eq)]
pub enum CalDavError {
    /// The server could not be reached.
    ConnectionFailed(String),
    /// A request failed.
    RequestFailed(String),
    /// The credentials were refused.
    AuthenticationFailed,
    /// The calendar does not exist.
    CalendarNotFound(String),
    /// The event or task does not exist.
    EventNotFound(String),
    /// The answer could not be read.
    ParseError(String),
}

/// Whether `r` is what a CalDAV failure `e` is reported as.
pub open spec fn maps_caldav_error(e: CalDavError, r: ApplicationError) -> bool {
    match e {
        CalDavError::ConnectionFailed(m) => r matches ApplicationError::ExternalService(x) && x@
            == m@,
        CalDavError::RequestFailed(m) => r matches ApplicationError::ExternalService(x) && x@
            == m@,
        CalDavError::AuthenticationFailed => r matches ApplicationError::NotAuthorized(x) && x@
            == "CalDAV authentication failed"@,
        CalDavError::CalendarNotFound(m) => r matches ApplicationError::NotFound(x) && x@ == m@,
        CalDavError::EventNotFound(m) => r matches ApplicationError::NotFound(x) && x@ == m@,
        CalDavError::ParseError(m) => r matches ApplicationError::Internal(x) && x@ == m@,
    }
}

/// The error reported for a CalDAV failure.
pub fn map_caldav_error(e: CalDavError) -> (r: ApplicationError)
    ensures
        maps_caldav_error(e, r),
{
    match e {
        CalDavError::ConnectionFailed(m) => ApplicationError::ExternalService(m),
        CalDavError::RequestFailed(m) => ApplicationError::ExternalService(m),
        CalDavError::AuthenticationFailed => ApplicationError::NotAuthorized(
            text::owned("CalDAV authentication failed"),
        ),
        CalDavError::CalendarNotFound(m) => ApplicationError::NotFound(m),
        CalDavError::EventNotFound(m) => ApplicationError::NotFound(m),
        CalDavError::ParseError(m) => ApplicationError::Internal(m),
    }
}

/// The message when a task is not in the calendar.
pub open spec fn task_not_found_text(id: Seq<char>) -> Seq<char> {
    "Task not found: "@ + id
}

/// The error for a task that is not in the calendar.
pub fn task_not_found(id: &str) -> (e: ApplicationError)
    ensures
        e matches ApplicationError::NotFound(m) && m@ == task_not_found_text(id@),
{
    ApplicationError::NotFound(text::owned("Task not found: ").concat(id))
}

// ------------------------------------------------------------------
// CardDAV contacts
// ------------------------------------------------------------------

/// Failures of the CardDAV client.
#[derive(Debug, Clone, PartialEq, Eq)]
pub enum CardDavError {
    /// The credentials were refused.
    AuthenticationFailed,
    /// The server could not be reached.
    ConnectionFailed(String),
    /// A request timed out.
    Timeout,
    /// The address book does not exist.
    AddressBookNotFound(String),
    /// The contact does not exist.
    ContactNotFound(String),
    /// A vCard could not be read.
    ParseError(String),
    /// The data is not valid.
    InvalidData(String),
    /// A request failed.
    RequestFailed(String),
}

/// Whether `r` is what a CardDAV failure `e` is reported as.
pub open spec fn maps_carddav_error(e: CardDavError, r: ContactError) -> bool {
    match e {
        CardDavError::AuthenticationFailed => r == ContactError::AuthenticationFailed,
        CardDavError::ConnectionFailed(_) => r == ContactError::ServiceUnavailable,
        CardDavError::Timeout => r == ContactError::ServiceUnavailable,
        CardDavError::AddressBookNotFound(m) => r matches ContactError::AddressbookNotFound(x)
            && x@ == m@,
        CardDavError::ContactNotFound(m) => r matches ContactError::ContactNotFound(x) && x@
            == m@,
        CardDavError::ParseError(m) => r matches ContactError::OperationFailed(x) && x@ == m@,
        CardDavError::InvalidData(m) => r matches ContactError::InvalidData(x) && x@ == m@,
        CardDavError::RequestFailed(m) => r matches ContactError::OperationFailed(x) && x@
            == "Request failed: "@ + m@,
    }
}

/// The error reported for a CardDAV failure.
pub fn map_carddav_error(e: CardDavError) -> (r: ContactError)
    ensures
        maps_carddav_error(e, r),
{
    match e {
        CardDavError::AuthenticationFailed => ContactError::AuthenticationFailed,
        CardDavError::ConnectionFailed(_) => ContactError::ServiceUnavailable,
        CardDavError::Timeout => ContactError::ServiceUnavailable,
        CardDavError::AddressBookNotFound(m) => ContactError::AddressbookNotFound(m),
        CardDavError::ContactNotFound(m) => ContactError::ContactNotFound(m),
        CardDavError::ParseError(m) => ContactError::OperationFailed(m),
        CardDavError::InvalidData(m) => ContactError::InvalidData(m),
        CardDavError::RequestFailed(m) => ContactError::OperationFailed(
            text::owned("Request failed: ").concat(m.as_str()),
        ),
    }
}

// ------------------------------------------------------------------
// Proton Mail
// ------------------------------------------------------------------

/// Failures of the Proton Mail bridge client.
#[derive(Debug, Clone, PartialEq, Eq)]
pub enum ProtonError {
    /// The credentials were refused.
    AuthenticationFailed,
    /// The bridge is not running.
    BridgeUnavailable(String),
    /// The bridge could not be reached.
    ConnectionFailed(String),
    /// The mailbox does not exist.
    MailboxNotFound(String),
    /// The message does not exist.
    MessageNotFound(String),
    /// An address is not valid.
    InvalidAddress(String),
    /// Any other failure, with its message.
    Other(String),
}

/// Errors of the email service.
#[derive(Debug, Clone, PartialEq, Eq)]
pub enum EmailError {
    /// The credentials were refused.
    AuthenticationFailed,
    /// The mail service cannot be reached.
    ServiceUnavailable,
    /// A mailbox or message does not exist.
    NotFound(String),
    /// An address is not valid.
    InvalidAddress(String),
    /// The operation failed.
    OperationFailed(String),
}

/// Whether `r` is what a bridge failure `e` is reported as.
pub open spec fn maps_proton_error(e: ProtonError, r: EmailError) -> bool {
    match e {
        ProtonError::AuthenticationFailed => r == EmailError::AuthenticationFailed,
        ProtonError::BridgeUnavailable(_) => r == EmailError::ServiceUnavailable,
        ProtonError::ConnectionFailed(_) => r == EmailError::ServiceUnavailable,
        ProtonError::MailboxNotFound(n) => r matches EmailError::NotFound(x) && x@ == n@,
        ProtonError::MessageNotFound(id) => r matches EmailError::NotFound(x) && x@ == id@,
        ProtonError::InvalidAddress(a) => r matches EmailError::InvalidAddress(x) && x@ == a@,
        ProtonError::Other(m) => r matches EmailError::OperationFailed(x) && x@ == m@,
    }
}

/// The error reported for a bridge failure.
pub fn map_proton_error(e: ProtonError) -> (r: EmailError)
    ensures
        maps_proton_error(e, r),
{
    match e {
        ProtonError::AuthenticationFailed => EmailError::AuthenticationFailed,
        ProtonError::BridgeUnavailable(_) => EmailError::ServiceUnavailable,
        ProtonError::ConnectionFailed(_) => EmailError::ServiceUnavailable,
        ProtonError::MailboxNotFound(n) => EmailError::NotFound(n),
        ProtonError::MessageNotFound(id) => EmailError::NotFound(id),
        ProtonError::InvalidAddress(a) => EmailError::InvalidAddress(a),
        ProtonError::Other(m) => EmailError::OperationFailed(m),
    }
}

/// A message in a mailbox, as the mail bridge reports it.
#[derive(Debug, Clone, PartialEq, Eq)]
pub struct ProtonEmailSummary {
    /// Message id.
    pub id: String,
    /// Sender.
    pub from: String,
    /// Subject.
    pub subject: String,
    /// Start of the body.
    pub snippet: String,
    /// When it arrived, as the bridge writes it.
    pub received_at: String,
    /// Whether it has been read.
    pub is_read: bool,
}

/// A message in a mailbox, as the application shows it.
#[derive(Debug, Clone, PartialEq, Eq)]
pub struct EmailSummary {
    /// Message id.
    pub id: String,
    /// Sender.
    pub from: String,
    /// Subject.
    pub subject: String,
    /// Start of the body.
    pub snippet: String,
    /// When it arrived.
    pub received_at: String,
    /// Whether it has been read.
    pub is_read: bool,
}

/// The application's view of a message: the same fields.
pub fn convert_summary(summary: &ProtonEmailSummary) -> (e: EmailSummary)
    ensures
        e.id == summary.id,
        e.from == summary.from,
        e.subject == summary.subject,
        e.snippet == summary.snippet,
        e.received_at == summary.received_at,
        e.is_read == summary.is_read,
{
    EmailSummary {
        id: summary.id.clone(),
        from: summary.from.clone(),
        subject: summary.subject.clone(),
        snippet: summary.snippet.clone(),
        received_at: summary.received_at.clone(),
        is_read: summary.is_read,
    }
}

/// The application's view of the messages of a mailbox, in their order.
pub fn convert_summaries(listed: &Vec<ProtonEmailSummary>) -> (r: Vec<EmailSummary>)
    ensures
        r@.len() == listed@.len(),
        forall|k: int|
            0 <= k < listed@.len() ==> {
                let e = #[trigger] r@[k];
                let p = listed@[k];
                &&& e.id == p.id
                &&& e.from == p.from
                &&& e.subject == p.subject
                &&& e.snippet == p.snippet
                &&& e.received_at == p.received_at
                &&& e.is_read == p.is_read
            },
{
    let mut out: Vec<EmailSummary> = Vec::new();
    let mut i: usize = 0;
    while i < listed.len()
        invariant
            i <= listed@.len(),
            out@.len() == i,
            forall|k: int|
                0 <= k < i ==> {
                    let e = #[trigger] out@[k];
                    let p = listed@[k];
                    &&& e.id == p.id
                    &&& e.from == p.from
                    &&& e.subject == p.subject
                    &&& e.snippet == p.snippet
                    &&& e.received_at == p.received_at
                    &&& e.is_read == p.is_read
                },
        decreases listed@.len() - i,
    {
        let e = convert_summary(&listed[i]);
        out.push(e);
        i = i + 1;
    }
    out
}

// ------------------------------------------------------------------
// Client settings
// ------------------------------------------------------------------

/// Settings of the CalDAV client.
#[derive(Debug, Clone, PartialEq, Eq)]
pub struct CalDavConfig {
    /// Server address.
    pub server_url: String,
    /// User name.
    pub username: String,
    /// Password.
    pub password: String,
    /// Calendar to use, if not the first one found.
    pub calendar_path: Option<String>,
    /// Whether TLS certificates are checked.
    pub verify_certs: bool,
    /// Request timeout in seconds.
    pub timeout_secs: u64,
}

/// Settings of the CardDAV client.
#[derive(Debug, Clone, PartialEq, Eq)]
pub struct CardDavConfig {
    /// Server address.
    pub server_url: String,
    /// User name.
    pub username: String,
    /// Password.
    pub password: String,
    /// Address book to use, if not the first one found.
    pub addressbook_path: Option<String>,
    /// Whether TLS certificates are checked.
    pub verify_certs: bool,
    /// Request timeout in seconds.
    pub timeout_secs: u64,
}

/// TLS settings of the mail bridge client.
#[derive(Debug, Clone, PartialEq, Eq)]
pub struct TlsConfig {
    /// Whether certificates are checked, if set.
    pub verify_certificates: Option<bool>,
    /// Lowest TLS version accepted.
    pub min_tls_version: String,
    /// Path of an extra CA certificate.
    pub ca_cert_path: Option<String>,
}

/// Settings of the mail bridge client.
#[derive(Debug, Clone, PartialEq, Eq)]
pub struct ProtonConfig {
    /// IMAP host.
    pub imap_host: String,
    /// IMAP port.
    pub imap_port: u16,
    /// SMTP host.
    pub smtp_host: String,
    /// SMTP port.
    pub smtp_port: u16,
    /// Account address.
    pub email: String,
    /// Bridge password.
    pub password: String,
    /// TLS settings.
    pub tls: TlsConfig,
}

/// Settings of the public transit client.
#[derive(Debug, Clone, PartialEq, Eq)]
pub struct TransitConfig {
    /// API address.
    pub base_url: String,
    /// Request timeout in seconds.
    pub timeout_secs: u64,
    /// Journeys to ask for.
    pub max_results: u8,
    /// Minutes that results stay cached.
    pub cache_ttl_minutes: u32,
    /// Whether reminders mention connections.
    pub include_in_reminders: bool,
    /// Whether buses are used.
    pub products_bus: bool,
    /// Whether suburban trains are used.
    pub products_suburban: bool,
    /// Whether underground trains are used.
    pub products_subway: bool,
    /// Whether trams are used.
    pub products_tram: bool,
    /// Whether regional trains are used.
    pub products_regional: bool,
    /// Whether long-distance trains are used.
    pub products_national: bool,
    /// Whether high-speed trains are used.
    pub products_national_express: bool,
}

} // verus!
