use goat::config::Config;
use goat::errors::Error;
use goat::package_manager::PackageManager;
use goat::stage::packages_plan;
use goat::stage::stage_order;
use goat::stage::CustomStage;
use goat::stage::Hostname;
use goat::stage::HostnameAction;
use goat::stage::Packages;
use goat::stage::Stage;
use goat::stage::StageResult;

fn strings(words: &[&str]) -> Vec<String> {
    words.iter().map(|w| w.to_string()).collect()
}

fn pacman() -> PackageManager {
    PackageManager {
        binary_name: "pacman".to_string(),
        install_command: "pacman -S {}".to_string(),
        remove_command: "pacman -Rs {}".to_string(),
        full_system_update_command: "pacman -Syu".to_string(),
        list_explicit_packages_command: "pacman -Qe".to_string(),
        list_all_packages_command: "pacman -Q".to_string(),
        core_packages: Vec::new(),
    }
}

#[test]
fn hostname_stage_skips_when_equal() {
    let configured = "box1".to_string();
    let action = Hostname::decide("box1\n", &configured);
    assert!(matches!(action, HostnameAction::Keep));
    assert_eq!(action.stage_result(), StageResult::Skipped);
}

#[test]
fn hostname_stage_writes_when_different() {
    let configured = "box2".to_string();
    let action = Hostname::decide("box1\n", &configured);
    match action {
        HostnameAction::Write(content) => assert_eq!(content, "box2\n"),
        HostnameAction::Keep => panic!("a differing hostname must be written"),
    }
    let action = Hostname::decide("box1\n", &configured);
    assert_eq!(action.stage_result(), StageResult::Done);
}

#[test]
fn hostname_comparison_trims_the_file_contents() {
    let configured = "box1".to_string();
    assert!(matches!(Hostname::decide("  box1 \n", &configured), HostnameAction::Keep));
    assert!(matches!(Hostname::decide("box1", &configured), HostnameAction::Keep));
}

#[test]
fn stage_names() {
    assert_eq!(Stage::Hostname(Hostname {}).name(), "Hostname");
    assert_eq!(Stage::Packages(Packages {}).name(), "Packages");
    let custom = Stage::Custom(CustomStage { path: "/etc/goat/stages/tidy.lua".to_string() });
    assert_eq!(custom.name(), "tidy.lua");
}

#[test]
fn pipeline_order_is_hostname_then_packages() {
    let order = stage_order();
    assert_eq!(order.len(), 2);
    assert_eq!(order[0].name(), "Hostname");
    assert_eq!(order[1].name(), "Packages");
}

#[test]
fn packages_stage_skips_without_a_package_list() {
    let config = Config { hostname: "box1".to_string(), packages: None };
    assert!(Packages::desired_packages(&config).is_none());
    assert_eq!(Packages::stage_result(&config), StageResult::Skipped);
}

#[test]
fn packages_stage_reports_done_when_managing_packages() {
    let managed = Config {
        hostname: "box1".to_string(),
        packages: Some(strings(&["vim"])),
    };
    assert_eq!(Packages::stage_result(&managed), StageResult::Done);
    let zero_work = Config {
        hostname: "box1".to_string(),
        packages: Some(Vec::new()),
    };
    assert_eq!(Packages::stage_result(&zero_work), StageResult::Done);
}

#[test]
fn config_without_hostname_leaves_the_live_one_alone() {
    // A configuration that manages packages but names no hostname adopts
    // the live hostname, so the hostname stage has nothing to write.
    let mut values = goat::script::ScriptValues::new();
    values.push(
        "packages".to_string(),
        goat::script::ScriptValue::StrList(strings(&["vim"])),
    );
    let config = Config::from_values(&values, "box1\n").unwrap();
    assert_eq!(config.hostname, "box1");
    assert!(matches!(
        Hostname::decide("box1\n", &config.hostname),
        HostnameAction::Keep
    ));
}

#[test]
fn packages_stage_plans_install_then_remove() {
    let pm = pacman();
    let desired = strings(&["a", "d"]);
    let all_installed = strings(&["a", "b", "c"]);
    let currently_explicit = strings(&["a", "b"]);
    let plan = packages_plan(&pm, &desired, &all_installed, &currently_explicit).unwrap();
    let install = plan.install.as_ref().expect("d is missing, so install runs");
    assert_eq!(install.program, "pacman");
    assert_eq!(install.args, strings(&["-S", "d"]));
    let remove = plan.remove.as_ref().expect("b is unneeded, so remove runs");
    assert_eq!(remove.program, "pacman");
    assert_eq!(remove.args, strings(&["-Rs", "b"]));
    let ordered = plan.in_order();
    assert_eq!(ordered.len(), 2);
    assert_eq!(ordered[0].args, strings(&["-S", "d"]));
    assert_eq!(ordered[1].args, strings(&["-Rs", "b"]));
}

#[test]
fn packages_stage_zero_work_plans_nothing() {
    let pm = pacman();
    let desired = strings(&["a"]);
    let all_installed = strings(&["a", "b"]);
    let currently_explicit = strings(&["a"]);
    let plan = packages_plan(&pm, &desired, &all_installed, &currently_explicit).unwrap();
    assert!(plan.install.is_none());
    assert!(plan.remove.is_none());
    assert!(plan.in_order().is_empty());
}

#[test]
fn packages_stage_empty_command_fails() {
    let mut pm = pacman();
    pm.install_command = "{}".to_string();
    let desired = strings(&[" "]);
    let none: Vec<String> = Vec::new();
    let result = packages_plan(&pm, &desired, &none, &none);
    assert!(matches!(result, Err(Error::EmptyCommand)));
}

#[test]
fn custom_stage_outcome_follows_the_call() {
    assert_eq!(CustomStage::outcome(Ok(())).unwrap(), StageResult::Done);
    let failed = CustomStage::outcome(Err(Error::EvalError("stage blew up".to_string())));
    assert!(matches!(failed, Err(Error::EvalError(_))));
}

#[test]
fn second_run_decides_no_work() {
    // After a successful run: hostname written, d installed, b removed.
    let pm = pacman();
    let configured = "box2".to_string();
    let desired = strings(&["a", "d"]);
    let all_installed_after = strings(&["a", "c", "d"]);
    let currently_explicit_after = strings(&["a", "d"]);
    assert!(matches!(
        Hostname::decide("box2\n", &configured),
        HostnameAction::Keep
    ));
    let plan = packages_plan(&pm, &desired, &all_installed_after, &currently_explicit_after)
        .unwrap();
    assert!(plan.install.is_none());
    assert!(plan.remove.is_none());
}
