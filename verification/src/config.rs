//! The user's configuration: the hostname the system should carry and,
//! optionally, the packages it should hold.

use vstd::prelude::*;
use vstd::string::StringExecFns;
use crate::errors::Error;
use crate::errors::ErrorV;
use crate::script::clone_string_vec;
use crate::script::lookup_spec;
use crate::script::ScriptValue;
use crate::script::ScriptValueV;
use crate::script::ScriptValues;
use crate::text::trim;
use crate::text::trim_spec;

verus! {

/// The mathematical value of a [`Config`].
pub struct ConfigV {
    pub hostname: Seq<char>,
    pub packages: Option<Seq<Seq<char>>>,
}

/// Everything the configuration file can ask of the system.
#[derive(Debug)]
pub struct Config {
    /// The hostname the system should carry. When the configuration file
    /// names none, this is the host's current live hostname, so the
    /// hostname stage then has nothing to change.
    pub hostname: String,
    /// The packages the user explicitly wants installed; dependencies are
    /// pulled in by the package manager itself. Absent means "do not
    /// manage packages this run".
    pub packages: Option<Vec<String>>,
}

/// The sentinel hostname of a [`Config`] built without a file (a
/// configuration read from a file defaults its hostname to the host's
/// live one instead).
pub open spec fn default_hostname_spec() -> Seq<char> {
    "goatOS"@
}

impl View for Config {
    type V = ConfigV;

    open spec fn view(&self) -> ConfigV {
        ConfigV {
            hostname: self.hostname@,
            packages: match self.packages {
                Option::Some(ref l) => Option::Some(l.deep_view()),
                Option::None => Option::None,
            },
        }
    }
}

impl Default for Config {
    /// The configuration that asks nothing: the sentinel hostname, no
    /// managed packages.
    fn default() -> (c: Config)
        ensures
            c@.hostname == default_hostname_spec(),
            c@.packages is None,
    {
        Config { hostname: String::from_str("goatOS"), packages: Option::None }
    }
}

/// The configuration a set of evaluated values denotes, against the
/// hostname file's raw contents. A string bound to `hostname` is taken;
/// anything else defaults to the current live hostname (trimmed as read).
/// A string list bound to `packages` is taken; a list with a non-string
/// member is a type mismatch; anything else means packages are not
/// managed.
pub open spec fn config_from_values_spec(
    values: Seq<(Seq<char>, ScriptValueV)>,
    raw_live_hostname: Seq<char>,
) -> Result<ConfigV, ErrorV> {
    let hostname = match lookup_spec(values, "hostname"@) {
        Option::Some(ScriptValueV::Str(s)) => s,
        _ => trim_spec(raw_live_hostname),
    };
    match lookup_spec(values, "packages"@) {
        Option::Some(ScriptValueV::StrList(l)) => Result::Ok(
            ConfigV { hostname, packages: Option::Some(l) },
        ),
        Option::Some(ScriptValueV::InvalidList) => Result::Err(
            ErrorV::TypeMismatch("packages"@),
        ),
        _ => Result::Ok(ConfigV { hostname, packages: Option::None }),
    }
}

impl Config {
    /// Build the configuration from the values the configuration file
    /// evaluated to. `raw_live_hostname` is the hostname file's raw
    /// contents, whose trimmed value the hostname defaults to when the
    /// configuration names none.
    pub fn from_values(values: &ScriptValues, raw_live_hostname: &str) -> (r: Result<
        Config,
        Error,
    >)
        ensures
            (match config_from_values_spec(values@, raw_live_hostname@) {
                Result::Ok(cv) => r matches Ok(c) && c@ == cv,
                Result::Err(ev) => r matches Err(e) && e@ == ev,
            }),
    {
        let hostname_name = String::from_str("hostname");
        let hostname = match values.get(&hostname_name) {
            Option::Some(ScriptValue::Str(s)) => s.clone(),
            _ => trim(raw_live_hostname),
        };
        let packages_name = String::from_str("packages");
        match values.get(&packages_name) {
            Option::Some(ScriptValue::StrList(l)) => Ok(
                Config { hostname, packages: Option::Some(clone_string_vec(l)) },
            ),
            Option::Some(ScriptValue::InvalidList) => Err(
                Error::TypeMismatch(String::from_str("packages")),
            ),
            _ => Ok(Config { hostname, packages: Option::None }),
        }
    }
}

} // verus!
