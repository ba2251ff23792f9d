use valet_monitor::monitoring::load_monitoring_settings;
use valet_monitor::settings::SettingsStore;

fn pair(k: &str, v: &str) -> (String, String) {
    (k.to_string(), v.to_string())
}

#[test]
fn store_set_get_delete() {
    let mut store = SettingsStore::new();
    assert!(store.get_setting("alpha").is_none());

    store.set_setting("alpha".to_string(), "1".to_string());
    assert_eq!(store.get_setting("alpha").unwrap(), "1");

    store.set_setting("alpha".to_string(), "2".to_string());
    assert_eq!(store.get_setting("alpha").unwrap(), "2");

    store.set_setting("beta".to_string(), "3".to_string());
    assert_eq!(store.get_setting("alpha").unwrap(), "2");
    assert_eq!(store.get_setting("beta").unwrap(), "3");

    store.delete_setting("alpha");
    assert!(store.get_setting("alpha").is_none());
    assert_eq!(store.get_setting("beta").unwrap(), "3");

    // deleting an absent key changes nothing
    store.delete_setting("gamma");
    assert_eq!(store.get_setting("beta").unwrap(), "3");
}

#[test]
fn from_pairs_later_pairs_override() {
    let pairs = vec![pair("k", "old"), pair("other", "x"), pair("k", "new")];
    let store = SettingsStore::from_pairs(&pairs);
    assert_eq!(store.get_setting("k").unwrap(), "new");
    assert_eq!(store.get_setting("other").unwrap(), "x");
}

#[test]
fn all_entries_reflect_the_map() {
    let mut store = SettingsStore::new();
    store.set_setting("a".to_string(), "1".to_string());
    store.set_setting("b".to_string(), "2".to_string());
    store.set_setting("a".to_string(), "3".to_string());

    let entries = store.all_entries();
    assert_eq!(entries.len(), 2);
    for (k, v) in entries.iter() {
        assert_eq!(store.get_setting(k).unwrap(), v);
    }
}

#[test]
fn load_monitoring_settings_defaults_when_absent() {
    let store = SettingsStore::new();
    let (enabled, interval) = load_monitoring_settings(&store);
    assert_eq!(enabled, true);
    assert_eq!(interval, 30);
}

#[test]
fn load_monitoring_settings_reads_stored_values() {
    let mut store = SettingsStore::new();
    store.set_setting("monitoring_enabled".to_string(), "false".to_string());
    store.set_setting("monitoring_interval_minutes".to_string(), "15".to_string());
    let (enabled, interval) = load_monitoring_settings(&store);
    assert_eq!(enabled, false);
    assert_eq!(interval, 15);
}

#[test]
fn load_monitoring_settings_defaults_on_bad_values() {
    let mut store = SettingsStore::new();
    store.set_setting("monitoring_enabled".to_string(), "yes".to_string());
    store.set_setting("monitoring_interval_minutes".to_string(), "soon".to_string());
    let (enabled, interval) = load_monitoring_settings(&store);
    assert_eq!(enabled, true);
    assert_eq!(interval, 30);
}

#[test]
fn load_monitoring_settings_rejects_zero_interval() {
    let mut store = SettingsStore::new();
    store.set_setting("monitoring_interval_minutes".to_string(), "0".to_string());
    let (_, interval) = load_monitoring_settings(&store);
    assert_eq!(interval, 30);
}
