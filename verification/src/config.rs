//! The identity of this device: its alias and its listening port.

use vstd::prelude::*;
use vstd::string::*;

verus! {

/// The port a device listens on unless configured otherwise.
pub const DEFAULT_PORT: u16 = 3030;

/// How long a withdrawn advertisement is left to fade before the device
/// advertises itself under a new alias, in milliseconds.
pub const READVERTISE_SETTLE_MS: u64 = 1000;

/// The settings of a device.
#[derive(Debug, PartialEq, Eq)]
pub struct AppConfig {
    pub alias: String,
    pub port: u16,
}

/// Settings as plain values.
pub struct AppConfigView {
    pub alias: Seq<char>,
    pub port: u16,
}

impl View for AppConfig {
    type V = AppConfigView;

    open spec fn view(&self) -> AppConfigView {
        AppConfigView { alias: self.alias@, port: self.port }
    }
}

impl Clone for AppConfig {
    fn clone(&self) -> (copy: AppConfig)
        ensures
            copy@ == self@,
    {
        AppConfig { alias: self.alias.clone(), port: self.port }
    }
}

/// Draws a name from `names::Generator::default()`.  Trusted: the generator
/// picks at random, so only what holds of every draw is claimed.  A name it
/// hands out joins an adjective and a noun by a hyphen, and so is never
/// empty.
#[verifier::external_body]
pub(crate) fn generate_name() -> (name: Option<String>)
    ensures
        name matches Some(n) ==> n@.len() > 0,
{
    names::Generator::default().next()
}

/// The alias a device takes where it has none: the generated name, or
/// `Unknown-User` where none was generated.
pub open spec fn alias_or_fallback(generated: Option<Seq<char>>) -> Seq<char> {
    match generated {
        Some(name) => name,
        None => "Unknown-User"@,
    }
}

/// The alias of fresh settings is empty only where an empty name was
/// generated.
pub proof fn fallback_alias_is_not_empty(generated: Option<Seq<char>>)
    requires
        generated matches Some(name) ==> name.len() > 0,
    ensures
        alias_or_fallback(generated).len() > 0,
{
    reveal_strlit("Unknown-User");
}

/// The view of an optional name.
pub open spec fn name_view(name: Option<String>) -> Option<Seq<char>> {
    match name {
        Some(n) => Some(n@),
        None => None,
    }
}

/// The view of optional settings.
pub open spec fn config_view(config: Option<AppConfig>) -> Option<AppConfigView> {
    match config {
        Some(c) => Some(c@),
        None => None,
    }
}

impl AppConfig {
    /// The settings of a device that has none yet, given the outcome of
    /// generating a name for it.
    pub fn with_generated_alias(generated: Option<String>) -> (c: AppConfig)
        ensures
            c@ == (AppConfigView {
                alias: alias_or_fallback(name_view(generated)),
                port: DEFAULT_PORT,
            }),
    {
        let alias = match generated {
            Some(name) => name,
            None => "Unknown-User".to_owned(),
        };
        AppConfig { alias, port: DEFAULT_PORT }
    }

    /// Whether replacing `self` by `new` changes the alias, so that the
    /// device must advertise itself anew and discovery must be told.
    pub fn alias_differs(&self, new: &AppConfig) -> (b: bool)
        ensures
            b == (self@.alias != new@.alias),
    {
        self.alias != new.alias
    }
}

impl Default for AppConfig {
    /// Fresh settings: a generated alias, which is not empty, and the
    /// default port.
    fn default() -> (c: AppConfig)
        ensures
            c@.port == DEFAULT_PORT,
            c@.alias.len() > 0,
    {
        let generated = generate_name();
        proof {
            fallback_alias_is_not_empty(name_view(generated));
        }
        AppConfig::with_generated_alias(generated)
    }
}

/// The settings a device starts with, given what was read from its settings
/// store, and whether they still have to be written there.  Stored settings
/// are taken as they are; without them the device gets its default port and
/// the generated alias, or `Unknown-User` where none was generated, and
/// these are to be stored.
pub fn initial_config(stored: Option<AppConfig>, generated: Option<String>) -> (r: (
    AppConfig,
    bool,
))
    ensures
        r.0@ == match config_view(stored) {
            Some(c) => c,
            None => (AppConfigView {
                alias: alias_or_fallback(name_view(generated)),
                port: DEFAULT_PORT,
            }),
        },
        r.1 == (stored is None),
{
    match stored {
        Some(c) => (c, false),
        None => (AppConfig::with_generated_alias(generated), true),
    }
}

/// Loads the settings of a device from what its settings store held.
/// Stored settings are taken as they are.  Where the store held nothing
/// usable, the device gets the default port and a generated alias, which is
/// not empty, and the second part of the result says that these settings
/// still have to be stored.
pub fn load_config(stored: Option<AppConfig>) -> (r: (AppConfig, bool))
    ensures
        config_view(stored) is Some ==> r.0@ == config_view(stored)->Some_0,
        stored is None ==> r.0@.port == DEFAULT_PORT && r.0@.alias.len() > 0,
        r.1 == (stored is None),
{
    match stored {
        Some(c) => (c, false),
        None => {
            let generated = generate_name();
            proof {
                fallback_alias_is_not_empty(name_view(generated));
            }
            initial_config(None, generated)
        },
    }
}

} // verus!
