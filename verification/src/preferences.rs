//! The preferences of the application.
use vstd::prelude::*;

verus! {

/// Whose name servers are used.
#[derive(Clone, Copy, Debug, PartialEq, Eq, Structural)]
pub enum DnsProvider {
    Auto,
    Google,
    Yandex,
    Quad9,
}

/// The addresses of the name servers of a provider, in their order.
pub open spec fn servers_of(provider: DnsProvider) -> Seq<[u8; 4]> {
    match provider {
        DnsProvider::Auto => seq![[8u8, 8, 8, 8], [77u8, 88, 8, 8], [9u8, 9, 9, 9], [8u8, 8, 4, 4]],
        DnsProvider::Google => seq![[8u8, 8, 8, 8], [8u8, 8, 4, 4]],
        DnsProvider::Yandex => seq![[77u8, 88, 8, 8], [77u8, 88, 8, 1]],
        DnsProvider::Quad9 => seq![[9u8, 9, 9, 9], [149u8, 112, 112, 112]],
    }
}

impl DnsProvider {
    /// The IPv4 addresses of the name servers.
    pub fn servers(self) -> (servers: Vec<[u8; 4]>)
        ensures
            servers@ == servers_of(self),
    {
        let mut servers: Vec<[u8; 4]> = Vec::new();
        match self {
            DnsProvider::Auto => {
                servers.push([8, 8, 8, 8]);
                servers.push([77, 88, 8, 8]);
                servers.push([9, 9, 9, 9]);
                servers.push([8, 8, 4, 4]);
            },
            DnsProvider::Google => {
                servers.push([8, 8, 8, 8]);
                servers.push([8, 8, 4, 4]);
            },
            DnsProvider::Yandex => {
                servers.push([77, 88, 8, 8]);
                servers.push([77, 88, 8, 1]);
            },
            DnsProvider::Quad9 => {
                servers.push([9, 9, 9, 9]);
                servers.push([149, 112, 112, 112]);
            },
        }
        assert(servers@ =~= servers_of(self));
        servers
    }
}

#[derive(Clone, Copy, Debug, PartialEq, Eq, Structural)]
pub struct AppPreferences {
    pub close_to_tray: bool,
    pub dns_provider: DnsProvider,
}

pub open spec fn default_preferences() -> AppPreferences {
    AppPreferences { close_to_tray: true, dns_provider: DnsProvider::Auto }
}

impl Default for AppPreferences {
    fn default() -> (preferences: Self)
        ensures
            preferences == default_preferences(),
    {
        AppPreferences { close_to_tray: true, dns_provider: DnsProvider::Auto }
    }
}

/// Preferences as a file holds them, where some may be missing.
#[derive(Clone, Copy, Debug, PartialEq, Eq, Structural)]
pub struct StoredPreferences {
    pub close_to_tray: Option<bool>,
    pub dns_provider: Option<DnsProvider>,
}

/// The preferences in use. A change is made in two steps: what is to be saved
/// is asked for, and taken over once it was saved.
#[derive(Clone, Copy, Debug, PartialEq, Eq, Structural)]
pub struct AppPreferenceStore {
    pub current: AppPreferences,
}

/// The preferences could not be saved.
#[derive(Clone, Copy, Debug, PartialEq, Eq, Structural)]
pub struct PreferencesNotSaved;

pub open spec fn restored(stored: Option<StoredPreferences>) -> AppPreferences {
    match stored {
        Some(stored) => AppPreferences {
            close_to_tray: match stored.close_to_tray {
                Some(close_to_tray) => close_to_tray,
                None => default_preferences().close_to_tray,
            },
            dns_provider: match stored.dns_provider {
                Some(provider) => provider,
                None => default_preferences().dns_provider,
            },
        },
        None => default_preferences(),
    }
}

impl AppPreferenceStore {
    /// The preferences that a file holds (none where it could not be read);
    /// what is missing has its default.
    pub fn new(stored: Option<StoredPreferences>) -> (store: Self)
        ensures
            store.current == restored(stored),
    {
        let defaults = AppPreferences::default();
        match stored {
            Some(stored) => AppPreferenceStore {
                current: AppPreferences {
                    close_to_tray: match stored.close_to_tray {
                        Some(close_to_tray) => close_to_tray,
                        None => defaults.close_to_tray,
                    },
                    dns_provider: match stored.dns_provider {
                        Some(provider) => provider,
                        None => defaults.dns_provider,
                    },
                },
            },
            None => AppPreferenceStore { current: defaults },
        }
    }

    pub fn get(&self) -> (preferences: AppPreferences)
        ensures
            preferences == self.current,
    {
        self.current
    }

    /// The preferences to save so that closing the window leaves the
    /// application in the tray, or does not.
    pub fn with_close_to_tray(&self, enabled: bool) -> (preferences: AppPreferences)
        ensures
            preferences == (AppPreferences { close_to_tray: enabled, ..self.current }),
    {
        AppPreferences { close_to_tray: enabled, dns_provider: self.current.dns_provider }
    }

    /// The preferences to save so that a provider is used.
    pub fn with_dns_provider(&self, provider: DnsProvider) -> (preferences: AppPreferences)
        ensures
            preferences == (AppPreferences { dns_provider: provider, ..self.current }),
    {
        AppPreferences { close_to_tray: self.current.close_to_tray, dns_provider: provider }
    }

    /// Sets whether closing the window leaves the application in the tray;
    /// `saved` is whether those preferences were saved.
    pub fn set_close_to_tray(&mut self, enabled: bool, saved: bool) -> (result: Result<
        AppPreferences,
        PreferencesNotSaved,
    >)
        ensures
            result == (if saved {
                Ok::<AppPreferences, PreferencesNotSaved>(
                    AppPreferences { close_to_tray: enabled, ..old(self).current },
                )
            } else {
                Err(PreferencesNotSaved)
            }),
            final(self).current == (if saved {
                AppPreferences { close_to_tray: enabled, ..old(self).current }
            } else {
                old(self).current
            }),
    {
        if !saved {
            return Err(PreferencesNotSaved);
        }
        self.current = self.with_close_to_tray(enabled);
        Ok(self.current)
    }

    /// Sets whose name servers are used; `saved` is whether those preferences
    /// were saved.
    pub fn set_dns_provider(&mut self, provider: DnsProvider, saved: bool) -> (result: Result<
        AppPreferences,
        PreferencesNotSaved,
    >)
        ensures
            result == (if saved {
                Ok::<AppPreferences, PreferencesNotSaved>(
                    AppPreferences { dns_provider: provider, ..old(self).current },
                )
            } else {
                Err(PreferencesNotSaved)
            }),
            final(self).current == (if saved {
                AppPreferences { dns_provider: provider, ..old(self).current }
            } else {
                old(self).current
            }),
    {
        if !saved {
            return Err(PreferencesNotSaved);
        }
        self.current = self.with_dns_provider(provider);
        Ok(self.current)
    }
}

/// What was saved is what is in use after the next start.
pub proof fn law_saved_preferences_are_restored(preferences: AppPreferences)
    ensures
        restored(
            Some(
                StoredPreferences {
                    close_to_tray: Some(preferences.close_to_tray),
                    dns_provider: Some(preferences.dns_provider),
                },
            ),
        ) == preferences,
{
}

/// Automatic name servers are the first of every provider, and the second of
/// the first one; every other choice stays with one provider.
pub proof fn law_automatic_servers_cover_every_provider()
    ensures
        servers_of(DnsProvider::Auto) == seq![
            servers_of(DnsProvider::Google)[0],
            servers_of(DnsProvider::Yandex)[0],
            servers_of(DnsProvider::Quad9)[0],
            servers_of(DnsProvider::Google)[1],
        ],
{
    assert(servers_of(DnsProvider::Auto) =~= seq![
        servers_of(DnsProvider::Google)[0],
        servers_of(DnsProvider::Yandex)[0],
        servers_of(DnsProvider::Quad9)[0],
        servers_of(DnsProvider::Google)[1],
    ]);
}

} // verus!
