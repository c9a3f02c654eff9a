use goat::errors::Error;
use goat::package_manager::PackageManager;
use goat::resolver::load_cached;
use goat::resolver::probe_candidate;
use goat::resolver::program_exists;
use goat::resolver::resolve_action;
use goat::resolver::scan_exhausted;
use goat::resolver::ProbeDecision;
use goat::resolver::ResolveAction;
use goat::script::ScriptValue;
use goat::script::ScriptValues;
use goat::service_manager::ServiceManager;

fn descriptor_values(binary: &str) -> ScriptValues {
    let mut values = ScriptValues::new();
    values.push("binary_name".to_string(), ScriptValue::Str(binary.to_string()));
    values.push("install_command".to_string(), ScriptValue::Str("pm -i {}".to_string()));
    values.push("remove_command".to_string(), ScriptValue::Str("pm -r {}".to_string()));
    values.push("full_system_update_command".to_string(), ScriptValue::Str("pm -u".to_string()));
    values.push("list_explicit_packages_command".to_string(), ScriptValue::Str("pm -qe".to_string()));
    values.push("list_all_packages_command".to_string(), ScriptValue::Str("pm -qa".to_string()));
    values
}

#[test]
fn cache_hit_loads_exactly_the_cached_file() {
    let cached = Some("pacman.conf".to_string());
    match resolve_action(&cached) {
        ResolveAction::LoadCachedFile(name) => assert_eq!(name, "pacman.conf"),
        ResolveAction::EnumerateDirectory => {
            panic!("a cache hit must not enumerate the directory")
        },
    }
}

#[test]
fn empty_cache_enumerates() {
    assert!(matches!(resolve_action(&None), ResolveAction::EnumerateDirectory));
}

#[test]
fn load_cached_never_rewrites_the_cache() {
    let outcome = Ok(descriptor_values("sh"));
    let (pm, to_cache): (PackageManager, Option<String>) = load_cached(outcome).unwrap();
    assert_eq!(pm.binary_name, "sh");
    assert_eq!(to_cache, None);
}

#[test]
fn load_cached_propagates_errors() {
    let outcome: Result<ScriptValues, Error> = Err(Error::NotFound("pacman.conf".to_string()));
    let result: Result<(PackageManager, Option<String>), Error> = load_cached(outcome);
    assert!(matches!(result, Err(Error::NotFound(_))));
}

#[test]
fn probe_accepts_candidate_with_present_binary() {
    // The probe consults the real executable search path: a shell is
    // present on any host these tests run on.
    assert!(program_exists("sh"));
    let decision: ProbeDecision<PackageManager> =
        probe_candidate(Ok(descriptor_values("sh")), "shpm.lua".to_string());
    match decision {
        ProbeDecision::Accept(pm, file_name) => {
            assert_eq!(pm.binary_name, "sh");
            assert_eq!(file_name, "shpm.lua");
        },
        other => panic!("expected the candidate to win, got {:?}", other),
    }
}

#[test]
fn probe_passes_over_candidate_with_absent_binary() {
    let binary = "no-such-binary-anywhere-on-this-host";
    assert!(!program_exists(binary));
    let decision: ProbeDecision<PackageManager> =
        probe_candidate(Ok(descriptor_values(binary)), "ghost.lua".to_string());
    assert!(matches!(decision, ProbeDecision::Continue));
}

#[test]
fn probe_fails_fast_on_parse_error() {
    let incomplete = ScriptValues::new();
    let decision: ProbeDecision<ServiceManager> =
        probe_candidate(Ok(incomplete), "broken.lua".to_string());
    match decision {
        ProbeDecision::Fail(Error::MissingField(name)) => assert_eq!(name, "binary_name"),
        other => panic!("expected the scan to stop on the parse error, got {:?}", other),
    }
}

#[test]
fn exhausted_scan_finds_no_backend() {
    let result: Result<(PackageManager, Option<String>), Error> = scan_exhausted();
    match result {
        Err(Error::NoBackendFound) => {}
        other => panic!("an exhausted scan must find no backend, got {:?}", other),
    }
}

#[test]
fn probe_fails_fast_on_evaluation_error() {
    let outcome: Result<ScriptValues, Error> = Err(Error::EvalError("syntax error".to_string()));
    let decision: ProbeDecision<PackageManager> = probe_candidate(outcome, "bad.lua".to_string());
    assert!(matches!(decision, ProbeDecision::Fail(Error::EvalError(_))));
}
