//! The package manager descriptor: the data record that tells the engine
//! how to drive one concrete package manager, and the plans it yields for
//! installing and removing packages.

use vstd::prelude::*;
use crate::differ::materialize_spec;
use crate::differ::seq_diff;
use crate::differ::to_install;
use crate::differ::to_remove;
use crate::differ::materialize_command;
use crate::differ::CommandInvocation;
use crate::differ::CommandInvocationV;
use crate::errors::Error;
use crate::errors::ErrorV;
use crate::from_file::FromFile;
use crate::script::optional_list;
use crate::script::optional_list_spec;
use crate::script::required_string;
use crate::script::required_string_spec;
use crate::script::ScriptValueV;
use crate::script::ScriptValues;
use crate::text::split_words_spec;

verus! {

/// The mathematical value of a [`PackageManager`].
pub struct PackageManagerV {
    pub binary_name: Seq<char>,
    pub install_command: Seq<char>,
    pub remove_command: Seq<char>,
    pub full_system_update_command: Seq<char>,
    pub list_explicit_packages_command: Seq<char>,
    pub list_all_packages_command: Seq<char>,
    pub core_packages: Seq<Seq<char>>,
}

/// How to drive one concrete package manager. Immutable once built from its
/// descriptor file.
#[derive(Debug)]
pub struct PackageManager {
    /// The binary whose presence identifies this package manager on a
    /// host. Not used inside commands: some systems expose several
    /// binaries.
    pub binary_name: String,
    /// The install command template; one `{}` placeholder receives the
    /// space-joined package list.
    pub install_command: String,
    /// The removal command template, shaped like `install_command`.
    pub remove_command: String,
    /// The command that updates and upgrades the whole system.
    pub full_system_update_command: String,
    /// The command that lists the explicitly installed packages: those the
    /// user directly asked for.
    pub list_explicit_packages_command: String,
    /// The command that lists every installed package, explicit or pulled
    /// in as a dependency.
    pub list_all_packages_command: String,
    /// Packages this package manager always requires; informational.
    pub core_packages: Vec<String>,
}

impl View for PackageManager {
    type V = PackageManagerV;

    open spec fn view(&self) -> PackageManagerV {
        PackageManagerV {
            binary_name: self.binary_name@,
            install_command: self.install_command@,
            remove_command: self.remove_command@,
            full_system_update_command: self.full_system_update_command@,
            list_explicit_packages_command: self.list_explicit_packages_command@,
            list_all_packages_command: self.list_all_packages_command@,
            core_packages: self.core_packages.deep_view(),
        }
    }
}

impl FromFile for PackageManager {
    open spec fn spec_from_values(values: Seq<(Seq<char>, ScriptValueV)>) -> Result<
        PackageManagerV,
        ErrorV,
    > {
        match required_string_spec(values, "binary_name"@) {
            Result::Err(e) => Result::Err(e),
            Result::Ok(binary_name) => match required_string_spec(values, "install_command"@) {
                Result::Err(e) => Result::Err(e),
                Result::Ok(install_command) => match required_string_spec(
                    values,
                    "remove_command"@,
                ) {
                    Result::Err(e) => Result::Err(e),
                    Result::Ok(remove_command) => match required_string_spec(
                        values,
                        "full_system_update_command"@,
                    ) {
                        Result::Err(e) => Result::Err(e),
                        Result::Ok(full_system_update_command) => match required_string_spec(
                            values,
                            "list_explicit_packages_command"@,
                        ) {
                            Result::Err(e) => Result::Err(e),
                            Result::Ok(list_explicit_packages_command) => match required_string_spec(
                                values,
                                "list_all_packages_command"@,
                            ) {
                                Result::Err(e) => Result::Err(e),
                                Result::Ok(list_all_packages_command) => match optional_list_spec(
                                    values,
                                    "core_packages"@,
                                ) {
                                    Result::Err(e) => Result::Err(e),
                                    Result::Ok(core_packages) => Result::Ok(
                                        PackageManagerV {
                                            binary_name,
                                            install_command,
                                            remove_command,
                                            full_system_update_command,
                                            list_explicit_packages_command,
                                            list_all_packages_command,
                                            core_packages,
                                        },
                                    ),
                                },
                            },
                        },
                    },
                },
            },
        }
    }

    open spec fn spec_binary_name(v: PackageManagerV) -> Seq<char> {
        v.binary_name
    }

    fn from_values(values: &ScriptValues) -> (r: Result<PackageManager, Error>) {
        let binary_name = match required_string(values, "binary_name") {
            Ok(s) => s,
            Err(e) => {
                return Err(e);
            },
        };
        let install_command = match required_string(values, "install_command") {
            Ok(s) => s,
            Err(e) => {
                return Err(e);
            },
        };
        let remove_command = match required_string(values, "remove_command") {
            Ok(s) => s,
            Err(e) => {
                return Err(e);
            },
        };
        let full_system_update_command = match required_string(values, "full_system_update_command")
        {
            Ok(s) => s,
            Err(e) => {
                return Err(e);
            },
        };
        let list_explicit_packages_command = match required_string(
            values,
            "list_explicit_packages_command",
        ) {
            Ok(s) => s,
            Err(e) => {
                return Err(e);
            },
        };
        let list_all_packages_command = match required_string(values, "list_all_packages_command") {
            Ok(s) => s,
            Err(e) => {
                return Err(e);
            },
        };
        let core_packages = match optional_list(values, "core_packages") {
            Ok(l) => l,
            Err(e) => {
                return Err(e);
            },
        };
        Ok(
            PackageManager {
                binary_name,
                install_command,
                remove_command,
                full_system_update_command,
                list_explicit_packages_command,
                list_all_packages_command,
                core_packages,
            },
        )
    }

    fn get_binary_name(&self) -> (r: &str) {
        self.binary_name.as_str()
    }
}

/// The invocation that installs the packages of `desired` missing from
/// `all_installed`: nothing when none are missing, the materialized install
/// command otherwise, or `EmptyCommand` when that command has no words.
pub open spec fn install_plan_spec(
    pm: PackageManagerV,
    desired: Seq<Seq<char>>,
    all_installed: Seq<Seq<char>>,
) -> Result<Option<CommandInvocationV>, ErrorV> {
    let missing = seq_diff(desired, all_installed);
    if missing.len() == 0 {
        Result::Ok(Option::None)
    } else {
        let words = split_words_spec(materialize_spec(pm.install_command, missing));
        if words.len() == 0 {
            Result::Err(ErrorV::EmptyCommand)
        } else {
            Result::Ok(
                Option::Some(
                    (CommandInvocationV { program: words[0], args: words.drop_first() }),
                ),
            )
        }
    }
}

/// The invocation that removes the packages of `currently_explicit` no
/// longer named in `desired_explicit`, shaped like [`install_plan_spec`].
pub open spec fn remove_plan_spec(
    pm: PackageManagerV,
    desired_explicit: Seq<Seq<char>>,
    currently_explicit: Seq<Seq<char>>,
) -> Result<Option<CommandInvocationV>, ErrorV> {
    let unneeded = seq_diff(currently_explicit, desired_explicit);
    if unneeded.len() == 0 {
        Result::Ok(Option::None)
    } else {
        let words = split_words_spec(materialize_spec(pm.remove_command, unneeded));
        if words.len() == 0 {
            Result::Err(ErrorV::EmptyCommand)
        } else {
            Result::Ok(
                Option::Some(
                    (CommandInvocationV { program: words[0], args: words.drop_first() }),
                ),
            )
        }
    }
}

impl PackageManager {
    /// Plan the installation step: which invocation, if any, installs what
    /// `desired` adds over `all_installed`.
    pub fn install_plan(&self, desired: &Vec<String>, all_installed: &Vec<String>) -> (r: Result<
        Option<CommandInvocation>,
        Error,
    >)
        ensures
            (match install_plan_spec(self@, desired.deep_view(), all_installed.deep_view()) {
                Result::Ok(Option::None) => r matches Ok(Option::None),
                Result::Ok(Option::Some(iv)) => r matches Ok(Option::Some(inv)) && inv@ == iv,
                Result::Err(ev) => r matches Err(e) && e@ == ev,
            }),
    {
        let missing = to_install(desired, all_installed);
        if missing.len() == 0 {
            Ok(Option::None)
        } else {
            match materialize_command(self.install_command.as_str(), &missing) {
                Ok(inv) => Ok(Option::Some(inv)),
                Err(e) => Err(e),
            }
        }
    }

    /// Plan the removal step: which invocation, if any, removes what
    /// `currently_explicit` holds beyond `desired_explicit`.
    pub fn remove_plan(&self, desired_explicit: &Vec<String>, currently_explicit: &Vec<String>) -> (r:
        Result<Option<CommandInvocation>, Error>)
        ensures
            (match remove_plan_spec(
                self@,
                desired_explicit.deep_view(),
                currently_explicit.deep_view(),
            ) {
                Result::Ok(Option::None) => r matches Ok(Option::None),
                Result::Ok(Option::Some(iv)) => r matches Ok(Option::Some(inv)) && inv@ == iv,
                Result::Err(ev) => r matches Err(e) && e@ == ev,
            }),
    {
        let unneeded = to_remove(desired_explicit, currently_explicit);
        if unneeded.len() == 0 {
            Ok(Option::None)
        } else {
            match materialize_command(self.remove_command.as_str(), &unneeded) {
                Ok(inv) => Ok(Option::Some(inv)),
                Err(e) => Err(e),
            }
        }
    }
}

} // verus!
