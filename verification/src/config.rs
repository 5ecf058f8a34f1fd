//! Application configuration: environment and messenger selection, the
//! per-domain configuration sections, and the rules by which secrets from a
//! secret store are merged into a loaded configuration.

use vstd::prelude::*;

use crate::text;

pub mod cache;
pub mod database;
pub mod integrations;
pub mod memory;
pub mod messenger;
pub mod resilience;
pub mod security;
pub mod server;
pub mod vault;

verus! {

/// Shared default for boolean `true` fields across configuration sections.
pub fn default_true() -> (b: bool)
    ensures
        b,
{
    true
}

// ------------------------------------------------------------------
// Environment
// ------------------------------------------------------------------

/// Application environment (development or production).
///
/// Controls how strictly the security settings are validated.
#[derive(Debug, Clone, Copy, PartialEq, Eq, Structural)]
pub enum Environment {
    /// Development: relaxed security warnings.
    Development,
    /// Production: strict security validation.
    Production,
}

impl Default for Environment {
    fn default() -> (e: Self)
        ensures
            e == Environment::Development,
    {
        Environment::Development
    }
}

/// Display text of an environment.
pub open spec fn environment_text(e: Environment) -> Seq<char> {
    match e {
        Environment::Development => "development"@,
        Environment::Production => "production"@,
    }
}

/// The environment that an already lowercased name stands for, if any.
pub open spec fn environment_named(lower: Seq<char>) -> Option<Environment> {
    if lower == "development"@ || lower == "dev"@ {
        Some(Environment::Development)
    } else if lower == "production"@ || lower == "prod"@ {
        Some(Environment::Production)
    } else {
        None
    }
}

/// The message for a name that is no environment.
pub open spec fn invalid_environment_text(s: Seq<char>) -> Seq<char> {
    "Invalid environment: "@ + s + ". Use 'development' or 'production'"@
}

/// What parsing `s` gives when `lower` is its lowercase form.
pub open spec fn environment_parse_outcome(lower: Seq<char>, s: Seq<char>) -> Result<
    Environment,
    Seq<char>,
> {
    match environment_named(lower) {
        Some(e) => Ok(e),
        None => Err(invalid_environment_text(s)),
    }
}

/// `s` with ASCII letters lowercased.
pub open spec fn ascii_lowered(s: Seq<char>) -> Seq<char> {
    s.map_values(|c: char| text::ascii_lower_char(c))
}

/// The outcome as a `Result` of library values.
pub open spec fn environment_result_view(r: Result<Environment, String>) -> Result<
    Environment,
    Seq<char>,
> {
    match r {
        Ok(e) => Ok(e),
        Err(m) => Err(m@),
    }
}

impl Environment {
    /// Display text: `development` or `production`.
    pub fn to_string(&self) -> (s: String)
        ensures
            s@ == environment_text(*self),
    {
        match self {
            Environment::Development => text::owned("development"),
            Environment::Production => text::owned("production"),
        }
    }

    /// Parses an environment name, ignoring case; `dev` and `prod` are
    /// accepted as short forms.
    pub fn parse(s: &str) -> (r: Result<Environment, String>)
        ensures
            environment_result_view(r) == environment_parse_outcome(
                text::unicode_lowercase(s@),
                s@,
            ),
            text::all_ascii(s@) ==> environment_result_view(r) == environment_parse_outcome(
                ascii_lowered(s@),
                s@,
            ),
    {
        let lower = text::to_lowercase(s);
        let l = lower.as_str();
        proof {
            reveal_strlit("development");
            reveal_strlit("dev");
            reveal_strlit("production");
            reveal_strlit("prod");
        }
        if text::str_eq(l, "development") || text::str_eq(l, "dev") {
            Ok(Environment::Development)
        } else if text::str_eq(l, "production") || text::str_eq(l, "prod") {
            Ok(Environment::Production)
        } else {
            let m = text::owned("Invalid environment: ").concat(s).concat(
                ". Use 'development' or 'production'",
            );
            Err(m)
        }
    }
}

impl std::str::FromStr for Environment {
    type Err = String;

    /// Parses as `Environment::parse` does.
    fn from_str(s: &str) -> (r: Result<Self, String>)
        ensures
            environment_result_view(r) == environment_parse_outcome(
                text::unicode_lowercase(s@),
                s@,
            ),
            text::all_ascii(s@) ==> environment_result_view(r) == environment_parse_outcome(
                ascii_lowered(s@),
                s@,
            ),
    {
        Environment::parse(s)
    }
}

/// Each environment's display text is ASCII and parses back to it.
pub proof fn lemma_environment_text_parses_back(e: Environment)
    ensures
        text::all_ascii(environment_text(e)),
        environment_parse_outcome(ascii_lowered(environment_text(e)), environment_text(e))
            == Ok::<Environment, Seq<char>>(e),
{
    reveal_strlit("development");
    reveal_strlit("dev");
    reveal_strlit("production");
    reveal_strlit("prod");
    let t = environment_text(e);
    assert(ascii_lowered(t) =~= t);
}

// ------------------------------------------------------------------
// Messenger selection
// ------------------------------------------------------------------

/// A messaging platform that messages come from.
#[derive(Debug, Clone, Copy, PartialEq, Eq, Structural)]
pub enum MessengerSource {
    /// WhatsApp Business API.
    WhatsApp,
    /// Signal via signal-cli.
    Signal,
}

impl MessengerSource {
    /// The platform's name as shown to users.
    pub fn display_name(&self) -> (s: &'static str)
        ensures
            s@ == match *self {
                MessengerSource::WhatsApp => "WhatsApp"@,
                MessengerSource::Signal => "Signal"@,
            },
    {
        match self {
            MessengerSource::WhatsApp => "WhatsApp",
            MessengerSource::Signal => "Signal",
        }
    }
}

/// Messenger platform selection: which platform receives and sends messages.
#[derive(Debug, Clone, Copy, PartialEq, Eq, Structural)]
pub enum MessengerSelection {
    /// WhatsApp Business API (the default).
    WhatsApp,
    /// Signal via the signal-cli daemon.
    Signal,
    /// Messenger integration disabled.
    Disabled,
}

impl Default for MessengerSelection {
    fn default() -> (m: Self)
        ensures
            m == MessengerSelection::WhatsApp,
    {
        MessengerSelection::WhatsApp
    }
}

/// Display text of a messenger selection.
pub open spec fn messenger_selection_text(m: MessengerSelection) -> Seq<char> {
    match m {
        MessengerSelection::WhatsApp => "whatsapp"@,
        MessengerSelection::Signal => "signal"@,
        MessengerSelection::Disabled => "none"@,
    }
}

impl MessengerSelection {
    /// Whether a messenger is enabled.
    pub fn is_enabled(&self) -> (r: bool)
        ensures
            r == !(*self is Disabled),
    {
        !matches!(self, MessengerSelection::Disabled)
    }

    /// The message source of the selected platform, if one is enabled.
    pub fn to_source(&self) -> (r: Option<MessengerSource>)
        ensures
            r == match *self {
                MessengerSelection::WhatsApp => Some(MessengerSource::WhatsApp),
                MessengerSelection::Signal => Some(MessengerSource::Signal),
                MessengerSelection::Disabled => None::<MessengerSource>,
            },
    {
        match self {
            MessengerSelection::WhatsApp => Some(MessengerSource::WhatsApp),
            MessengerSelection::Signal => Some(MessengerSource::Signal),
            MessengerSelection::Disabled => None,
        }
    }

    /// Display text: `whatsapp`, `signal` or `none`.
    pub fn to_string(&self) -> (s: String)
        ensures
            s@ == messenger_selection_text(*self),
    {
        match self {
            MessengerSelection::WhatsApp => text::owned("whatsapp"),
            MessengerSelection::Signal => text::owned("signal"),
            MessengerSelection::Disabled => text::owned("none"),
        }
    }
}

// ------------------------------------------------------------------
// Merging secrets from a secret store
// ------------------------------------------------------------------

/// The value a secret store offers for a field, when it offers a usable one:
/// present and non-empty.
pub open spec fn usable_secret(fetched: Option<Seq<char>>) -> Option<Seq<char>> {
    match fetched {
        Some(v) => if v.len() > 0 {
            Some(v)
        } else {
            None
        },
        None => None,
    }
}

/// The view of an optional string.
pub open spec fn opt_view(o: Option<String>) -> Option<Seq<char>> {
    match o {
        Some(s) => Some(s@),
        None => None,
    }
}

/// The view of an optional string slice.
pub open spec fn opt_str_view(o: Option<&str>) -> Option<Seq<char>> {
    match o {
        Some(s) => Some(s@),
        None => None,
    }
}

/// The new value of an optional secret field after resolution: a value that is
/// already there is kept; an absent one takes the store's usable value.
pub fn fill_missing_secret(current: Option<String>, fetched: Option<&str>) -> (r: Option<String>)
    ensures
        current is Some ==> r == current,
        current is None ==> opt_view(r) == usable_secret(opt_str_view(fetched)),
{
    match current {
        Some(v) => Some(v),
        None => match fetched {
            Some(f) => {
                if !f.is_empty() {
                    Some(text::owned(f))
                } else {
                    None
                }
            },
            None => None,
        },
    }
}

/// The new value of a string secret field after resolution: a non-empty value
/// is kept; an empty one takes the store's usable value, or stays empty.
pub fn fill_empty_secret(current: String, fetched: Option<&str>) -> (r: String)
    ensures
        current@.len() > 0 ==> r@ == current@,
        current@.len() == 0 ==> r@ == match usable_secret(opt_str_view(fetched)) {
            Some(v) => v,
            None => current@,
        },
{
    if !current.as_str().is_empty() {
        return current;
    }
    match fetched {
        Some(f) => {
            if !f.is_empty() {
                text::owned(f)
            } else {
                current
            }
        },
        None => current,
    }
}

} // verus!
