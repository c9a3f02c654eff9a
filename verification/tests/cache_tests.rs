use goat::cache::empty_cache_contents;
use goat::cache::Cache;
use goat::errors::Error;

#[test]
fn round_trip_both_selections() {
    let cache = Cache {
        package_manager_configuration_file: Some("pacman.lua".to_string()),
        service_manager_configuration_file: Some("systemd.lua".to_string()),
    };
    let text = cache.to_json();
    let reloaded = Cache::from_json(&text).unwrap();
    assert_eq!(reloaded, cache);
}

#[test]
fn round_trip_empty_cache() {
    let cache = Cache::default();
    let reloaded = Cache::from_json(&cache.to_json()).unwrap();
    assert_eq!(reloaded, cache);
}

#[test]
fn round_trip_one_selection() {
    let cache = Cache {
        package_manager_configuration_file: Some("xbps.lua".to_string()),
        service_manager_configuration_file: None,
    };
    let reloaded = Cache::from_json(&cache.to_json()).unwrap();
    assert_eq!(reloaded, cache);
}

#[test]
fn round_trip_awkward_characters() {
    let cache = Cache {
        package_manager_configuration_file: Some("we\"ird\\name.lua".to_string()),
        service_manager_configuration_file: None,
    };
    let reloaded = Cache::from_json(&cache.to_json()).unwrap();
    assert_eq!(reloaded, cache);
}

#[test]
fn to_json_exact_shape() {
    let cache = Cache {
        package_manager_configuration_file: Some("pacman.lua".to_string()),
        service_manager_configuration_file: None,
    };
    assert_eq!(
        cache.to_json(),
        "{\"package_manager_configuration_file\":\"pacman.lua\",\"service_manager_configuration_file\":null}"
    );
}

#[test]
fn missing_key_reads_as_none() {
    let cache = Cache::from_json("{\"package_manager_configuration_file\":\"apt.lua\"}").unwrap();
    assert_eq!(
        cache.package_manager_configuration_file,
        Some("apt.lua".to_string())
    );
    assert_eq!(cache.service_manager_configuration_file, None);
}

#[test]
fn missing_other_key_reads_as_none() {
    let cache = Cache::from_json("{\"service_manager_configuration_file\":\"openrc.lua\"}").unwrap();
    assert_eq!(cache.package_manager_configuration_file, None);
    assert_eq!(
        cache.service_manager_configuration_file,
        Some("openrc.lua".to_string())
    );
}

#[test]
fn empty_object_reads_as_empty_cache() {
    let cache = Cache::from_json("{}").unwrap();
    assert_eq!(cache, Cache::default());
}

#[test]
fn empty_cache_file_contents_read_back() {
    let contents = empty_cache_contents();
    assert_eq!(contents, "{}\n");
    let cache = Cache::from_json(&contents).unwrap();
    assert_eq!(cache, Cache::default());
}

#[test]
fn null_values_read_as_none() {
    let cache = Cache::from_json(
        "{\"package_manager_configuration_file\":null,\"service_manager_configuration_file\":null}",
    )
    .unwrap();
    assert_eq!(cache, Cache::default());
}

#[test]
fn whitespace_between_tokens_is_accepted() {
    let cache = Cache::from_json(
        " {\n  \"package_manager_configuration_file\" : \"pacman.lua\" ,\n  \"service_manager_configuration_file\" : null\n}\n",
    )
    .unwrap();
    assert_eq!(
        cache.package_manager_configuration_file,
        Some("pacman.lua".to_string())
    );
    assert_eq!(cache.service_manager_configuration_file, None);
}

#[test]
fn members_in_either_order() {
    let cache = Cache::from_json(
        "{\"service_manager_configuration_file\":\"runit.lua\",\"package_manager_configuration_file\":\"xbps.lua\"}",
    )
    .unwrap();
    assert_eq!(
        cache.package_manager_configuration_file,
        Some("xbps.lua".to_string())
    );
    assert_eq!(
        cache.service_manager_configuration_file,
        Some("runit.lua".to_string())
    );
}

#[test]
fn malformed_json_fails_parse() {
    assert!(matches!(Cache::from_json(""), Err(Error::ParseError(_))));
    assert!(matches!(Cache::from_json("not json"), Err(Error::ParseError(_))));
    assert!(matches!(Cache::from_json("{"), Err(Error::ParseError(_))));
    assert!(matches!(
        Cache::from_json("{\"package_manager_configuration_file\":}"),
        Err(Error::ParseError(_))
    ));
    assert!(matches!(
        Cache::from_json("{\"package_manager_configuration_file\":\"a\""),
        Err(Error::ParseError(_))
    ));
}

#[test]
fn unknown_key_fails_parse() {
    assert!(matches!(
        Cache::from_json("{\"unexpected\":\"value\"}"),
        Err(Error::ParseError(_))
    ));
}

#[test]
fn duplicate_key_fails_parse() {
    assert!(matches!(
        Cache::from_json(
            "{\"package_manager_configuration_file\":\"a\",\"package_manager_configuration_file\":\"b\"}"
        ),
        Err(Error::ParseError(_))
    ));
}

#[test]
fn trailing_garbage_fails_parse() {
    assert!(matches!(Cache::from_json("{} x"), Err(Error::ParseError(_))));
}

#[test]
fn note_selection_updates_and_reports_change() {
    let mut cache = Cache::default();
    let changed = cache.note_package_manager_selection(Some("pacman.lua".to_string()));
    assert!(changed);
    assert_eq!(
        cache.package_manager_configuration_file,
        Some("pacman.lua".to_string())
    );
    assert_eq!(cache.service_manager_configuration_file, None);
    let unchanged = cache.note_service_manager_selection(None);
    assert!(!unchanged);
    assert_eq!(cache.service_manager_configuration_file, None);
    let changed_again = cache.note_service_manager_selection(Some("systemd.lua".to_string()));
    assert!(changed_again);
    assert_eq!(
        cache.service_manager_configuration_file,
        Some("systemd.lua".to_string())
    );
}
