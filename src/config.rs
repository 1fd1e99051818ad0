//! Runtime configuration of the event recorder, read from an INI text.
use ini::Ini;
use vstd::prelude::*;

verus! {

/// Whether a text is INI.
pub uninterp spec fn ini_parses(t: Seq<char>) -> bool;

/// Whether the INI text has a section of this name.
pub uninterp spec fn ini_has_section(t: Seq<char>, name: Seq<char>) -> bool;

/// The first value of `key` in the named section of the INI text.
pub uninterp spec fn ini_value_at(t: Seq<char>, section: Seq<char>, key: Seq<char>) -> Option<
    Seq<char>,
>;

/// The name of the section that holds the recorder's options.
pub const SECTION: &'static str = "general";

/// The default store location, relative to the host's working directory.
pub const DEFAULT_DB_PATH: &'static str = "events.db";

/// Reads a textual yes/no option: only the exact text `yes` means true.
pub fn parse_yesno(val: &String) -> (r: bool)
    ensures
        r == (val@ == "yes"@),
{
    proof {
        reveal_strlit("yes");
    }
    let yes = "yes".to_owned();
    *val == yes
}

/// The characters of an optional text.
pub open spec fn text_of(t: Option<String>) -> Option<Seq<char>> {
    match t {
        Some(s) => Some(s@),
        None => None,
    }
}

/// Why no configuration could be read.
#[derive(Debug, Clone, Copy, PartialEq, Eq, Structural)]
pub enum ConfigError {
    /// The text is not well-formed INI.
    Unreadable,
    /// The text has no `general` section.
    MissingSection,
}

/// All of the runtime configuration for the event recorder.
#[derive(Debug, Clone)]
pub struct Config {
    pub enabled: bool,
    pub db_path: String,
}

impl Config {
    /// The configuration given the raw values of the `enabled` and `db_path`
    /// options, each absent or present.
    pub open spec fn from_values_spec(enabled: Option<Seq<char>>, db_path: Option<Seq<char>>) -> (
        bool,
        Seq<char>,
    ) {
        (
            match enabled {
                Some(v) => v == "yes"@,
                None => true,
            },
            match db_path {
                Some(p) => if p.len() > 0 {
                    p
                } else {
                    "events.db"@
                },
                None => "events.db"@,
            },
        )
    }

    /// Whether this configuration has the given enabled flag and path.
    pub open spec fn is(self, v: (bool, Seq<char>)) -> bool {
        self.enabled == v.0 && self.db_path@ == v.1
    }

    /// Builds the configuration from the raw option values: `enabled` is true
    /// only for `yes`, and true when absent; `db_path` is used when it is
    /// present and not empty, else the default path.
    pub fn from_values(enabled: Option<String>, db_path: Option<String>) -> (r: Config)
        ensures
            r.is(
                Config::from_values_spec(text_of(enabled), text_of(db_path)),
            ),
    {
        proof {
            reveal_strlit("yes");
            reveal_strlit("events.db");
        }
        let enabled = match enabled {
            Some(v) => parse_yesno(&v),
            None => true,
        };
        let db_path = match db_path {
            Some(p) => if p.as_str().is_empty() {
                DEFAULT_DB_PATH.to_owned()
            } else {
                p
            },
            None => DEFAULT_DB_PATH.to_owned(),
        };
        Config { enabled, db_path }
    }
}

impl Default for Config {
    /// The default configuration: enabled, storing into `events.db`.
    fn default() -> (r: Config)
        ensures
            r.is((true, "events.db"@)),
    {
        proof {
            reveal_strlit("events.db");
        }
        Config { enabled: true, db_path: DEFAULT_DB_PATH.to_owned() }
    }
}

/// Relies on `ini::Ini::load_from_str`: whether it parses the text.
#[verifier::external_body]
fn ini_is_valid(text: &str) -> (r: bool)
    ensures
        r == ini_parses(text@),
{
    Ini::load_from_str(text).is_ok()
}

/// Relies on `ini::Ini::load_from_str`, then `Ini::section`: whether the
/// parsed text has the named section.
#[verifier::external_body]
fn ini_section_present(text: &str, name: &str) -> (r: bool)
    ensures
        r == ini_has_section(text@, name@),
{
    match Ini::load_from_str(text) {
        Ok(i) => i.section(Some(name)).is_some(),
        Err(_) => false,
    }
}

/// Relies on `ini::Ini::load_from_str`, then `Ini::section` and
/// `Properties::get`: the first value of a key in the named section.
#[verifier::external_body]
fn ini_value(text: &str, section: &str, key: &str) -> (r: Option<String>)
    ensures
        text_of(r) == ini_value_at(text@, section@, key@),
{
    match Ini::load_from_str(text) {
        Ok(i) => match i.section(Some(section)) {
            Some(p) => match p.get(key) {
                Some(v) => Some(v.to_owned()),
                None => None,
            },
            None => None,
        },
        Err(_) => None,
    }
}

impl Config {
    /// Reads the configuration from INI text: the `general` section's options
    /// `enabled` and `db_path`, each replaced by its default where absent. Fails
    /// when the text is not INI or has no `general` section.
    pub fn from_ini_str(text: &str) -> (r: Result<Config, ConfigError>)
        ensures
            !ini_parses(text@) ==> r == Err::<Config, ConfigError>(ConfigError::Unreadable),
            ini_parses(text@) && !ini_has_section(text@, "general"@) ==> r == Err::<
                Config,
                ConfigError,
            >(ConfigError::MissingSection),
            ini_parses(text@) && ini_has_section(text@, "general"@) ==> (r matches Ok(c) && c.is(
                Config::from_values_spec(
                    ini_value_at(text@, "general"@, "enabled"@),
                    ini_value_at(text@, "general"@, "db_path"@),
                ),
            )),
    {
        if !ini_is_valid(text) {
            return Err(ConfigError::Unreadable);
        }
        if !ini_section_present(text, SECTION) {
            return Err(ConfigError::MissingSection);
        }
        let enabled = ini_value(text, SECTION, "enabled");
        let db_path = ini_value(text, SECTION, "db_path");
        Ok(Config::from_values(enabled, db_path))
    }
}

/// The configuration to run with: the loaded one, or the default where none
/// could be loaded.
pub fn settle(loaded: Result<Config, ConfigError>) -> (r: Config)
    ensures
        match loaded {
            Ok(c) => r == c,
            Err(_) => r.is((true, "events.db"@)),
        },
{
    match loaded {
        Ok(c) => c,
        Err(_) => Config::default(),
    }
}

} // verus!
