use goat::errors::Error;
use goat::goat::cache_reset_needed;
use goat::goat::config_generation_needed;
use goat::goat::generate_system_config;
use goat::goat::privilege_gate;
use goat::goat::Goat;

fn strings(words: &[&str]) -> Vec<String> {
    words.iter().map(|w| w.to_string()).collect()
}

#[test]
fn directories_by_role() {
    let directories = Goat::get_directories();
    assert_eq!(directories.configuration_directory, "/etc/goat");
    assert_eq!(directories.cache_directory, "/var/goat/cache");
    assert_eq!(
        directories.package_manager_configuration_directory,
        "/var/goat/package_managers"
    );
    assert_eq!(
        directories.service_manager_configuration_directory,
        "/var/goat/service_managers"
    );
}

#[test]
fn files_by_role() {
    let files = Goat::get_files();
    assert_eq!(files.config_file, "config.lua");
    assert_eq!(files.cache_file, "cache.json");
}

#[test]
fn cache_reset_on_request_or_missing_file() {
    assert!(cache_reset_needed(false, false));
    assert!(cache_reset_needed(true, true));
    assert!(cache_reset_needed(false, true));
    assert!(!cache_reset_needed(true, false));
}

#[test]
fn config_generated_only_when_absent() {
    assert!(config_generation_needed(false));
    assert!(!config_generation_needed(true));
}

#[test]
fn generated_config_embeds_hostname_and_packages() {
    let contents = generate_system_config("box1\n", &strings(&["vim", "git"]));
    assert_eq!(
        contents,
        "hostname=\"box1\"\n\npackages = {\n    \"vim\",\n    \"git\"\n}\n"
    );
}

#[test]
fn generated_config_with_no_packages() {
    let contents = generate_system_config("box1\n", &Vec::new());
    assert_eq!(contents, "hostname=\"box1\"\n\npackages = {\n\n}\n");
}

#[test]
fn privilege_gate_refuses_the_unprivileged() {
    assert!(matches!(privilege_gate(false), Err(Error::PermissionDenied)));
    assert!(privilege_gate(true).is_ok());
}

#[test]
fn error_messages_name_their_subject() {
    assert_eq!(
        Error::MissingField("binary_name".to_string()).message(),
        "missing field: binary_name"
    );
    assert_eq!(
        Error::NotFound("/etc/goat/config.lua".to_string()).message(),
        "not found: /etc/goat/config.lua"
    );
    assert_eq!(
        Error::PermissionDenied.message(),
        "root privileges are required"
    );
    assert_eq!(
        Error::CommandFailed {
            command: "pacman -S vim".to_string(),
            exit_code: 1,
            stderr: "error: target not found".to_string(),
        }
        .message(),
        "command failed: pacman -S vim\nerror: target not found"
    );
}
