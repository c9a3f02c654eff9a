use goat::config::Config;
use goat::errors::Error;
use goat::from_file::FromFile;
use goat::package_manager::PackageManager;
use goat::script::ScriptValue;
use goat::script::ScriptValues;
use goat::service_manager::ServiceManager;

fn strings(words: &[&str]) -> Vec<String> {
    words.iter().map(|w| w.to_string()).collect()
}

fn pacman_values() -> ScriptValues {
    let mut values = ScriptValues::new();
    values.push("binary_name".to_string(), ScriptValue::Str("pacman".to_string()));
    values.push(
        "install_command".to_string(),
        ScriptValue::Str("pacman -S --noconfirm {}".to_string()),
    );
    values.push(
        "remove_command".to_string(),
        ScriptValue::Str("pacman -Rs --noconfirm {}".to_string()),
    );
    values.push(
        "full_system_update_command".to_string(),
        ScriptValue::Str("pacman -Syu".to_string()),
    );
    values.push(
        "list_explicit_packages_command".to_string(),
        ScriptValue::Str("pacman -Qe | cut -d ' ' -f1".to_string()),
    );
    values.push(
        "list_all_packages_command".to_string(),
        ScriptValue::Str("pacman -Q | cut -d ' ' -f1".to_string()),
    );
    values.push(
        "core_packages".to_string(),
        ScriptValue::StrList(strings(&["base", "linux"])),
    );
    values
}

#[test]
fn package_manager_from_values() {
    let pm = PackageManager::from_values(&pacman_values()).unwrap();
    assert_eq!(pm.binary_name, "pacman");
    assert_eq!(pm.install_command, "pacman -S --noconfirm {}");
    assert_eq!(pm.remove_command, "pacman -Rs --noconfirm {}");
    assert_eq!(pm.full_system_update_command, "pacman -Syu");
    assert_eq!(pm.list_explicit_packages_command, "pacman -Qe | cut -d ' ' -f1");
    assert_eq!(pm.list_all_packages_command, "pacman -Q | cut -d ' ' -f1");
    assert_eq!(pm.core_packages, strings(&["base", "linux"]));
    assert_eq!(pm.get_binary_name(), "pacman");
}

#[test]
fn package_manager_missing_field() {
    let mut values = ScriptValues::new();
    values.push("binary_name".to_string(), ScriptValue::Str("apt".to_string()));
    let result = PackageManager::from_values(&values);
    match result {
        Err(Error::MissingField(name)) => assert_eq!(name, "install_command"),
        other => panic!("expected a missing field error, got {:?}", other),
    }
}

#[test]
fn package_manager_type_mismatch() {
    let mut values = pacman_values();
    values.push("x".to_string(), ScriptValue::Other);
    let mut wrong = ScriptValues::new();
    wrong.push("binary_name".to_string(), ScriptValue::StrList(strings(&["pacman"])));
    let result = PackageManager::from_values(&wrong);
    match result {
        Err(Error::TypeMismatch(name)) => assert_eq!(name, "binary_name"),
        other => panic!("expected a type mismatch error, got {:?}", other),
    }
}

#[test]
fn package_manager_core_packages_default_empty() {
    let mut values = ScriptValues::new();
    values.push("binary_name".to_string(), ScriptValue::Str("xbps-install".to_string()));
    values.push("install_command".to_string(), ScriptValue::Str("xbps-install -y {}".to_string()));
    values.push("remove_command".to_string(), ScriptValue::Str("xbps-remove -y {}".to_string()));
    values.push("full_system_update_command".to_string(), ScriptValue::Str("xbps-install -Su".to_string()));
    values.push("list_explicit_packages_command".to_string(), ScriptValue::Str("xbps-query -m".to_string()));
    values.push("list_all_packages_command".to_string(), ScriptValue::Str("xbps-query -l".to_string()));
    let pm = PackageManager::from_values(&values).unwrap();
    assert!(pm.core_packages.is_empty());
}

#[test]
fn package_manager_invalid_core_packages_list() {
    let mut values = pacman_values();
    let mut rebuilt = ScriptValues::new();
    for (name, value) in values.entries.drain(..) {
        if name == "core_packages" {
            rebuilt.push(name, ScriptValue::InvalidList);
        } else {
            rebuilt.push(name, value);
        }
    }
    let result = PackageManager::from_values(&rebuilt);
    match result {
        Err(Error::TypeMismatch(name)) => assert_eq!(name, "core_packages"),
        other => panic!("expected a type mismatch error, got {:?}", other),
    }
}

#[test]
fn service_manager_from_values() {
    let mut values = ScriptValues::new();
    values.push("binary_name".to_string(), ScriptValue::Str("systemctl".to_string()));
    values.push(
        "hostname_reload_command".to_string(),
        ScriptValue::Str("systemctl restart systemd-hostnamed".to_string()),
    );
    let sm = ServiceManager::from_values(&values).unwrap();
    assert_eq!(sm.binary_name, "systemctl");
    assert_eq!(sm.hostname_reload_command, "systemctl restart systemd-hostnamed");
    assert_eq!(sm.get_binary_name(), "systemctl");
}

#[test]
fn service_manager_missing_field() {
    let values = ScriptValues::new();
    let result = ServiceManager::from_values(&values);
    match result {
        Err(Error::MissingField(name)) => assert_eq!(name, "binary_name"),
        other => panic!("expected a missing field error, got {:?}", other),
    }
}

#[test]
fn config_from_values_full() {
    let mut values = ScriptValues::new();
    values.push("hostname".to_string(), ScriptValue::Str("box1".to_string()));
    values.push("packages".to_string(), ScriptValue::StrList(strings(&["vim", "git"])));
    let config = Config::from_values(&values, "host0\n").unwrap();
    assert_eq!(config.hostname, "box1");
    assert_eq!(config.packages, Some(strings(&["vim", "git"])));
}

#[test]
fn config_hostname_defaults_to_live_hostname() {
    let values = ScriptValues::new();
    let config = Config::from_values(&values, "box7\n").unwrap();
    assert_eq!(config.hostname, "box7");
    assert_eq!(config.packages, None);
}

#[test]
fn config_default_sentinel() {
    let config = Config::default();
    assert_eq!(config.hostname, "goatOS");
    assert_eq!(config.packages, None);
}

#[test]
fn config_invalid_package_list() {
    let mut values = ScriptValues::new();
    values.push("packages".to_string(), ScriptValue::InvalidList);
    let result = Config::from_values(&values, "box1\n");
    match result {
        Err(Error::TypeMismatch(name)) => assert_eq!(name, "packages"),
        other => panic!("expected a type mismatch error, got {:?}", other),
    }
}

#[test]
fn config_non_string_hostname_keeps_live_default() {
    let mut values = ScriptValues::new();
    values.push("hostname".to_string(), ScriptValue::StrList(strings(&["box1"])));
    let config = Config::from_values(&values, " box7 \n").unwrap();
    assert_eq!(config.hostname, "box7");
}

#[test]
fn config_non_list_packages_means_unmanaged() {
    let mut values = ScriptValues::new();
    values.push("packages".to_string(), ScriptValue::Str("vim".to_string()));
    let config = Config::from_values(&values, "box1\n").unwrap();
    assert_eq!(config.packages, None);
}
