use nelomai_app::command_records::preferences_response;
use nelomai_app::preferences::{
    AppPreferenceStore, AppPreferences, DnsProvider, PreferencesNotSaved, StoredPreferences,
};

fn stored(preferences: AppPreferences) -> Option<StoredPreferences> {
    Some(StoredPreferences {
        close_to_tray: Some(preferences.close_to_tray),
        dns_provider: Some(preferences.dns_provider),
    })
}

fn addresses(values: &[&str]) -> Vec<[u8; 4]> {
    values
        .iter()
        .map(|value| { let parts: Vec<u8> = value.split('.').map(|part| part.parse().unwrap()).collect(); [parts[0], parts[1], parts[2], parts[3]] })
        .collect()
}

#[test]
fn preferences_default_and_persist_independently() {
    let mut store = AppPreferenceStore::new(None);
    assert!(store.get().close_to_tray);
    assert_eq!(store.get().dns_provider, DnsProvider::Auto);

    store.set_close_to_tray(false, true).unwrap();
    let file = stored(store.set_dns_provider(DnsProvider::Quad9, true).unwrap());
    let restored = AppPreferenceStore::new(file).get();
    assert!(!restored.close_to_tray);
    assert_eq!(restored.dns_provider, DnsProvider::Quad9);

    store.set_close_to_tray(true, true).unwrap();
    assert_eq!(store.get().dns_provider, DnsProvider::Quad9);
}

#[test]
fn legacy_preferences_default_to_automatic_dns() {
    let restored = AppPreferenceStore::new(Some(StoredPreferences {
        close_to_tray: Some(false),
        dns_provider: None,
    }))
    .get();

    assert!(!restored.close_to_tray);
    assert_eq!(restored.dns_provider, DnsProvider::Auto);
}

#[test]
fn automatic_dns_covers_fallbacks_and_manual_modes_stay_with_one_provider() {
    assert_eq!(
        DnsProvider::Auto.servers(),
        addresses(&["8.8.8.8", "77.88.8.8", "9.9.9.9", "8.8.4.4"])
    );
    assert_eq!(
        DnsProvider::Google.servers(),
        addresses(&["8.8.8.8", "8.8.4.4"])
    );
    assert_eq!(
        DnsProvider::Yandex.servers(),
        addresses(&["77.88.8.8", "77.88.8.1"])
    );
    assert_eq!(
        DnsProvider::Quad9.servers(),
        addresses(&["9.9.9.9", "149.112.112.112"])
    );
}

#[test]
fn preferences_that_were_not_saved_are_not_used() {
    let mut store = AppPreferenceStore::new(None);
    assert_eq!(
        store.set_close_to_tray(false, false),
        Err(PreferencesNotSaved)
    );
    assert_eq!(
        store.set_dns_provider(DnsProvider::Google, false),
        Err(PreferencesNotSaved)
    );
    assert_eq!(store.get(), AppPreferences::default());
    assert_eq!(
        store.with_dns_provider(DnsProvider::Google).dns_provider,
        DnsProvider::Google
    );
    let refused = preferences_response(Err(PreferencesNotSaved), true);
    assert_eq!(refused.unwrap_err().code(), "preferences_unavailable");
    let shown = preferences_response(Ok(store.get()), false).unwrap();
    assert!(!shown.close_to_tray_supported);
    assert!(shown.close_to_tray);
}
