//! The service manager descriptor: the data record that tells the engine
//! how to drive one concrete service manager.

use vstd::prelude::*;
use crate::errors::Error;
use crate::errors::ErrorV;
use crate::from_file::FromFile;
use crate::script::required_string;
use crate::script::required_string_spec;
use crate::script::ScriptValueV;
use crate::script::ScriptValues;

verus! {

/// The mathematical value of a [`ServiceManager`].
pub struct ServiceManagerV {
    pub binary_name: Seq<char>,
    pub hostname_reload_command: Seq<char>,
}

/// How to drive one concrete service manager. Immutable once built from its
/// descriptor file.
#[derive(Debug)]
pub struct ServiceManager {
    /// The binary whose presence identifies this service manager on a
    /// host; used for probing, never inside commands.
    pub binary_name: String,
    /// The command that makes a hostname change take effect.
    pub hostname_reload_command: String,
}

impl View for ServiceManager {
    type V = ServiceManagerV;

    open spec fn view(&self) -> ServiceManagerV {
        ServiceManagerV {
            binary_name: self.binary_name@,
            hostname_reload_command: self.hostname_reload_command@,
        }
    }
}

impl FromFile for ServiceManager {
    open spec fn spec_from_values(values: Seq<(Seq<char>, ScriptValueV)>) -> Result<
        ServiceManagerV,
        ErrorV,
    > {
        match required_string_spec(values, "binary_name"@) {
            Result::Err(e) => Result::Err(e),
            Result::Ok(binary_name) => match required_string_spec(
                values,
                "hostname_reload_command"@,
            ) {
                Result::Err(e) => Result::Err(e),
                Result::Ok(hostname_reload_command) => Result::Ok(
                    ServiceManagerV { binary_name, hostname_reload_command },
                ),
            },
        }
    }

    open spec fn spec_binary_name(v: ServiceManagerV) -> Seq<char> {
        v.binary_name
    }

    fn from_values(values: &ScriptValues) -> (r: Result<ServiceManager, Error>) {
        let binary_name = match required_string(values, "binary_name") {
            Ok(s) => s,
            Err(e) => {
                return Err(e);
            },
        };
        let hostname_reload_command = match required_string(values, "hostname_reload_command") {
            Ok(s) => s,
            Err(e) => {
                return Err(e);
            },
        };
        Ok(ServiceManager { binary_name, hostname_reload_command })
    }

    fn get_binary_name(&self) -> (r: &str) {
        self.binary_name.as_str()
    }
}

} // verus!
