use keeps_core::application::app_icons::selected_icon_id;
use keeps_core::domain::app_icons::{
    aliases, app_icons, default_alias, id_for_alias, resolve, DEFAULT_ICON_ID,
};
use keeps_core::domain::reminders::{is_device_sound_id, resolve_sound, sound_presets, ResolvedSound};

#[test]
fn the_default_is_one_of_the_icons_the_build_ships() {
    resolve(DEFAULT_ICON_ID).expect("the default has to exist");
}

#[test]
fn ids_and_aliases_are_unique() {
    let icons = app_icons();
    for icon in &icons {
        assert_eq!(
            icons.iter().filter(|other| other.id == icon.id).count(),
            1,
            "two icons cannot share an id"
        );
        assert_eq!(
            icons.iter().filter(|other| other.alias == icon.alias).count(),
            1,
            "two icons cannot share an alias"
        );
    }
}

#[test]
fn an_icon_this_build_does_not_ship_is_refused() {
    let error = resolve("holographic").expect_err("must refuse");
    assert_eq!(error.code(), "validation_invalid");
}

#[test]
fn an_alias_android_does_not_recognise_reads_as_the_default() {
    assert_eq!(id_for_alias(""), DEFAULT_ICON_ID);
    assert_eq!(id_for_alias("Holographic"), DEFAULT_ICON_ID);
}

#[test]
fn every_icon_carries_a_colour_settings_can_show() {
    for icon in app_icons() {
        assert!(
            icon.accent.starts_with('#') && icon.accent.len() == 7,
            "{} needs a six-digit hex accent",
            icon.id
        );
    }
}

#[test]
fn every_alias_leads_back_to_its_icon() {
    for icon in app_icons() {
        assert_eq!(id_for_alias(icon.alias), icon.id);
    }
    assert_eq!(aliases().len(), app_icons().len());
    assert_eq!(default_alias(), "Original");
}

#[test]
fn the_shown_icon_falls_back_from_platform_to_note_to_default() {
    assert_eq!(selected_icon_id(Some("Amber"), Some("neon")), "amber");
    assert_eq!(selected_icon_id(None, Some("neon")), "neon");
    assert_eq!(selected_icon_id(None, Some("holographic")), DEFAULT_ICON_ID);
    assert_eq!(selected_icon_id(None, None), DEFAULT_ICON_ID);
}

#[test]
fn catalog_contains_the_bundled_default() {
    let resolved = resolve_sound("default", None).expect("default resolves");
    let ResolvedSound::Preset(preset) = resolved else {
        panic!("the fallback is a bundled preset");
    };
    assert_eq!(preset.id, "death_and_rebirth");
    assert_eq!(preset.resource_name, "death_and_rebirth");
}

#[test]
fn unknown_sound_is_rejected() {
    let error = resolve_sound("missing", None).expect_err("unknown sound must fail");
    assert_eq!(error.code(), "validation_invalid");
}

#[test]
fn stored_default_uses_the_configured_catalog_entry() {
    let resolved = resolve_sound("default", Some("death_and_rebirth"))
        .expect("configured default resolves");
    let ResolvedSound::Preset(preset) = resolved else {
        panic!("a preset id resolves to a preset");
    };
    assert_eq!(preset.label, "Death & Rebirth");
}

#[test]
fn a_system_sound_id_passes_through_untouched() {
    let resolved = resolve_sound("system:content://media/1", None).expect("system id resolves");
    assert_eq!(
        resolved,
        ResolvedSound::Device {
            id: "system:content://media/1".to_owned()
        }
    );
}

#[test]
fn a_custom_sound_id_passes_through_untouched() {
    let resolved = resolve_sound("custom:beep.ogg", None).expect("custom id resolves");
    assert_eq!(resolved.id(), "custom:beep.ogg");
}

#[test]
fn a_configured_device_default_resolves_for_the_default_selection() {
    let resolved = resolve_sound("default", Some("custom:beep.ogg"))
        .expect("configured device default resolves");
    assert_eq!(resolved.id(), "custom:beep.ogg");
}

#[test]
fn the_build_ships_one_sound_and_knows_a_device_one_by_its_prefix() {
    assert_eq!(sound_presets().len(), 1);
    assert!(is_device_sound_id("system:x"));
    assert!(!is_device_sound_id("sys:x"));
}
