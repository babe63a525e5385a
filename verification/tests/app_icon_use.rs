use std::sync::{Arc, Mutex};

use keeps_core::application::app_icons::AppIconUseCases;
use keeps_core::domain::app_icons::{DEFAULT_ICON_ID, SELECTED_ICON_SETTING_KEY};
use keeps_core::domain::settings::SettingsRepository;
use keeps_core::error::{AppError, AppResult, PlatformError};
use keeps_core::platform::AppIconSwitch;

#[derive(Default)]
struct FakeSwitch {
    current: Mutex<Option<String>>,
    refuse: bool,
}

impl AppIconSwitch for FakeSwitch {
    fn select(&self, alias: &str, _known: &[String], _fallback: &str) -> AppResult<()> {
        if self.refuse {
            return Err(AppError::Platform(PlatformError::PluginCall {
                reason: "test".into(),
            }));
        }
        *self.current.lock().unwrap() = Some(alias.to_owned());
        Ok(())
    }

    fn current(&self, _known: &[String], _fallback: &str) -> AppResult<Option<String>> {
        Ok(self.current.lock().unwrap().clone())
    }
}

#[derive(Default)]
struct FakeSettings {
    values: Mutex<Vec<(String, String)>>,
}

impl SettingsRepository for FakeSettings {
    fn read(&self, key: &str) -> AppResult<Option<String>> {
        Ok(self
            .values
            .lock()
            .unwrap()
            .iter()
            .find(|(stored, _)| stored == key)
            .map(|(_, value)| value.clone()))
    }

    fn write(&self, key: &str, value: &str) -> AppResult<()> {
        self.values
            .lock()
            .unwrap()
            .push((key.to_owned(), value.to_owned()));
        Ok(())
    }
}

fn fixture(
    refuse: bool,
) -> (
    AppIconUseCases<FakeSwitch, FakeSettings>,
    Arc<FakeSwitch>,
    Arc<FakeSettings>,
) {
    let switch = Arc::new(FakeSwitch {
        refuse,
        ..FakeSwitch::default()
    });
    let settings = Arc::new(FakeSettings::default());
    (
        AppIconUseCases::new(Arc::clone(&switch), Arc::clone(&settings)),
        switch,
        settings,
    )
}

#[test]
fn a_fresh_install_shows_the_icon_the_manifest_enabled() {
    let (icons, _switch, _settings) = fixture(false);
    assert_eq!(icons.catalog().expect("reads").selected_id, DEFAULT_ICON_ID);
}

#[test]
fn choosing_an_icon_switches_it_and_writes_it_down() {
    let (icons, switch, settings) = fixture(false);

    let catalog = icons.select("neon").expect("selects");

    assert_eq!(catalog.selected_id, "neon");
    assert_eq!(*switch.current.lock().unwrap(), Some("Neon".to_owned()));
    assert_eq!(
        settings.read(SELECTED_ICON_SETTING_KEY).expect("reads"),
        Some("neon".to_owned())
    );
}

#[test]
fn what_the_platform_says_wins_over_what_was_written_down() {
    let (icons, switch, settings) = fixture(false);
    settings
        .write(SELECTED_ICON_SETTING_KEY, "amber")
        .expect("writes");
    *switch.current.lock().unwrap() = Some("Paper".to_owned());

    assert_eq!(
        icons.catalog().expect("reads").selected_id,
        "paper",
        "the home screen is the truth, not the note we kept"
    );
}

#[test]
fn a_refused_switch_leaves_the_home_screen_as_it_was() {
    let (icons, switch, _settings) = fixture(true);

    icons.select("neon").expect_err("must fail");

    assert_eq!(
        *switch.current.lock().unwrap(),
        None,
        "the note we keep may be optimistic; the home screen must not be"
    );
}

#[test]
fn an_icon_this_build_does_not_ship_never_reaches_the_platform() {
    let (icons, switch, _settings) = fixture(false);

    icons.select("holographic").expect_err("must refuse");

    assert_eq!(*switch.current.lock().unwrap(), None);
}

#[test]
fn with_nothing_from_the_platform_the_choice_written_down_is_shown() {
    let (icons, _switch, settings) = fixture(false);
    settings
        .write(SELECTED_ICON_SETTING_KEY, "amber")
        .expect("writes");

    let catalog = icons.catalog().expect("reads");

    assert_eq!(catalog.selected_id, "amber");
    assert_eq!(catalog.items.len(), 6);
}
