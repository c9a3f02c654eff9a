//! The orchestrator's state and decisions: where the engine's files live,
//! when the cache is reset, what a generated configuration file holds, and
//! the privilege gate synchronization passes through.
//!
//! The load sequence itself — creating directories, reading and writing the
//! cache file, evaluating scripts — happens outside; this module supplies
//! every decision it takes and the record it assembles.

use vstd::prelude::*;
use vstd::string::StringExecFns;
use crate::cache::Cache;
use crate::config::Config;
use crate::errors::Error;
use crate::errors::ErrorV;
use crate::package_manager::PackageManager;
use crate::service_manager::ServiceManager;
use crate::text::trim;
use crate::text::trim_spec;

verus! {

/// The directories the engine works in.
#[derive(Debug)]
pub struct Directories {
    /// The user configuration.
    pub configuration_directory: String,
    /// Cache files.
    pub cache_directory: String,
    /// Package manager descriptor files.
    pub package_manager_configuration_directory: String,
    /// Service manager descriptor files.
    pub service_manager_configuration_directory: String,
}

/// The file names the engine looks for inside its directories.
#[derive(Debug)]
pub struct Files {
    /// The configuration file inside the configuration directory.
    pub config_file: String,
    /// The cache file inside the cache directory.
    pub cache_file: String,
}

/// The whole resolved system: everything one load produced and one
/// synchronization consumes.
#[derive(Debug)]
pub struct Goat {
    pub directories: Directories,
    pub files: Files,
    pub cache: Cache,
    pub package_manager: PackageManager,
    pub service_manager: ServiceManager,
    pub config: Config,
}

impl Goat {
    /// The directories the engine works in, by role.
    pub fn get_directories() -> (r: Directories)
        ensures
            r.configuration_directory@ == "/etc/goat"@,
            r.cache_directory@ == "/var/goat/cache"@,
            r.package_manager_configuration_directory@ == "/var/goat/package_managers"@,
            r.service_manager_configuration_directory@ == "/var/goat/service_managers"@,
    {
        Directories {
            configuration_directory: String::from_str("/etc/goat"),
            cache_directory: String::from_str("/var/goat/cache"),
            package_manager_configuration_directory: String::from_str(
                "/var/goat/package_managers",
            ),
            service_manager_configuration_directory: String::from_str(
                "/var/goat/service_managers",
            ),
        }
    }

    /// The file names the engine looks for, by role.
    pub fn get_files() -> (r: Files)
        ensures
            r.config_file@ == "config.lua"@,
            r.cache_file@ == "cache.json"@,
    {
        Files {
            config_file: String::from_str("config.lua"),
            cache_file: String::from_str("cache.json"),
        }
    }
}

/// Must the cache file be recreated empty before loading? Only on an
/// explicit recache request, or when the file does not exist yet.
pub fn cache_reset_needed(cache_file_exists: bool, recache: bool) -> (r: bool)
    ensures
        r == (recache || !cache_file_exists),
{
    recache || !cache_file_exists
}

/// Must a default configuration file be generated before loading?
/// Exactly when none exists yet: an existing configuration is never
/// overwritten.
pub fn config_generation_needed(config_file_exists: bool) -> (r: bool)
    ensures
        r == !config_file_exists,
{
    !config_file_exists
}

/// One entry of a generated configuration's package list: indented and
/// quoted.
pub open spec fn config_entry_spec(p: Seq<char>) -> Seq<char> {
    "    \""@ + p + "\""@
}

/// The package entries of a generated configuration, joined by a comma and
/// a line break.
pub open spec fn config_entries_spec(ps: Seq<Seq<char>>) -> Seq<char>
    decreases ps.len(),
{
    if ps.len() == 0 {
        Seq::empty()
    } else if ps.len() == 1 {
        config_entry_spec(ps[0])
    } else {
        config_entries_spec(ps.drop_last()) + ",\n"@ + config_entry_spec(ps.last())
    }
}

/// The configuration file generated when none exists: the live hostname
/// (trimmed as read from disk) and the packages currently explicitly
/// installed.
pub open spec fn generated_config_spec(
    raw_live_hostname: Seq<char>,
    explicit_packages: Seq<Seq<char>>,
) -> Seq<char> {
    "hostname=\""@ + trim_spec(raw_live_hostname) + "\"\n\npackages = {\n"@
        + config_entries_spec(explicit_packages) + "\n}\n"@
}

/// Generate the default configuration file's contents from the hostname
/// file's raw contents and the explicitly installed packages.
pub fn generate_system_config(raw_live_hostname: &str, explicit_packages: &Vec<String>) -> (r:
    String)
    ensures
        r@ == generated_config_spec(raw_live_hostname@, explicit_packages.deep_view()),
{
    let mut out = String::from_str("hostname=\"");
    let live = trim(raw_live_hostname);
    out.append(live.as_str());
    out.append("\"\n\npackages = {\n");
    let mut i: usize = 0;
    let ghost header = out@;
    proof {
        assert(explicit_packages.deep_view().take(0) =~= Seq::<Seq<char>>::empty());
    }
    while i < explicit_packages.len()
        invariant
            i <= explicit_packages@.len(),
            explicit_packages.deep_view().len() == explicit_packages@.len(),
            out@ == header + config_entries_spec(explicit_packages.deep_view().take(i as int)),
        decreases explicit_packages@.len() - i,
    {
        let ghost pre = out@;
        let ghost dv = explicit_packages.deep_view();
        if i > 0 {
            out.append(",\n");
        }
        out.append("    \"");
        out.append(explicit_packages[i].as_str());
        out.append("\"");
        proof {
            assert(dv.take(i as int + 1).drop_last() =~= dv.take(i as int));
            assert(dv.take(i as int + 1).last() == dv[i as int]);
            assert(explicit_packages@[i as int]@ == dv[i as int]);
            if i == 0 {
                assert(out@ =~= header + ("    \""@ + dv[0] + "\""@));
            } else {
                assert(out@ =~= pre + ",\n"@ + ("    \""@ + dv[i as int] + "\""@));
                assert(header + (config_entries_spec(dv.take(i as int)) + ",\n"@
                    + config_entry_spec(dv[i as int])) =~= (header + config_entries_spec(
                    dv.take(i as int),
                )) + ",\n"@ + config_entry_spec(dv[i as int]));
            }
        }
        i = i + 1;
    }
    out.append("\n}\n");
    proof {
        assert(explicit_packages.deep_view().take(explicit_packages@.len() as int)
            =~= explicit_packages.deep_view());
        assert(out@ =~= generated_config_spec(
            raw_live_hostname@,
            explicit_packages.deep_view(),
        ));
    }
    out
}

/// Relies on nix::unistd::Uid::effective (geteuid): the effective user id
/// of this process. The value is the host's state, so nothing is promised
/// of it.
#[verifier::external_body]
fn effective_uid() -> nix::unistd::Uid {
    nix::unistd::Uid::effective()
}

/// Relies on nix::unistd::Uid::is_root: whether the id is the privileged
/// user's. Which id this process carries is the host's state, so nothing
/// is promised of the answer.
#[verifier::external_body]
fn uid_is_root(uid: nix::unistd::Uid) -> bool {
    uid.is_root()
}

/// The external user id type the privilege check goes through.
#[verifier::external_type_specification]
#[verifier::external_body]
pub struct ExUid(nix::unistd::Uid);

/// The privilege gate over a known answer: synchronization proceeds
/// exactly for the privileged user, and is otherwise refused with
/// `PermissionDenied`.
pub fn privilege_gate(is_root: bool) -> (r: Result<(), Error>)
    ensures
        is_root ==> r matches Ok(_),
        !is_root ==> (r matches Err(e) && e@ == ErrorV::PermissionDenied),
{
    if is_root {
        Ok(())
    } else {
        Err(Error::PermissionDenied)
    }
}

/// Ask the host for this process's effective user and gate on the answer.
/// Whatever the host answers, a failure is exactly `PermissionDenied`.
pub fn check_sync_privilege() -> (r: Result<(), Error>)
    ensures
        (match r {
            Result::Ok(_) => true,
            Result::Err(e) => e@ == ErrorV::PermissionDenied,
        }),
{
    let uid = effective_uid();
    let root = uid_is_root(uid);
    privilege_gate(root)
}

} // verus!
