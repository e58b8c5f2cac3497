use reliquary_archiver::platform::RegistryError;
use reliquary_archiver::settings::{
    apply_run_on_start, handle_settings_message, Settings, SettingsAction, SettingsMessage, DEFAULT_OPACITY_BITS,
    DEFAULT_WS_PORT,
};
use reliquary_archiver::ui::ImageFit;
use reliquary_archiver::platform::temp_settings_extension;
use reliquary_archiver::platform::Also;
use reliquary_archiver::ui::{bind_error_message, initial_port, listen_address, PortSource};

#[test]
fn default_settings() {
    let s = Settings::new();
    assert_eq!(s.background_image, "");
    assert_eq!(s.image_fit, ImageFit::Cover);
    assert_eq!(f32::from_bits(s.background_opacity_bits), 0.12f32);
    assert_eq!(s.background_opacity_bits, DEFAULT_OPACITY_BITS);
    assert!(!s.run_on_start && !s.start_minimized && !s.always_update && !s.text_shadow_enabled);
    assert!(!s.minimize_to_tray_on_close && !s.minimize_to_tray_on_minimize);
    assert_eq!(s.ws_port, 23313);
    assert_eq!(DEFAULT_WS_PORT, 23313);
}

#[test]
fn dialog_changes_are_saved() {
    let mut s = Settings::new();
    let mut dragging = false;
    assert!(matches!(
        handle_settings_message(&mut s, &mut dragging, SettingsMessage::BackgroundImageSelected(Some("bg.png".to_string()))),
        SettingsAction::Save
    ));
    assert_eq!(s.background_image, "bg.png");
    // A cancelled pick keeps the image but saves all the same.
    assert!(matches!(handle_settings_message(&mut s, &mut dragging, SettingsMessage::BackgroundImageSelected(None)), SettingsAction::Save));
    assert_eq!(s.background_image, "bg.png");
    handle_settings_message(&mut s, &mut dragging, SettingsMessage::RemoveBackgroundImage);
    assert_eq!(s.background_image, "");
    handle_settings_message(&mut s, &mut dragging, SettingsMessage::ImageFitChanged(ImageFit::Contain));
    assert_eq!(s.image_fit, ImageFit::Contain);
    handle_settings_message(&mut s, &mut dragging, SettingsMessage::OpacityChanged(0.5f32.to_bits()));
    assert_eq!(f32::from_bits(s.background_opacity_bits), 0.5);
    assert!(matches!(handle_settings_message(&mut s, &mut dragging, SettingsMessage::OpacitySliderDrag(true)), SettingsAction::Nothing));
    assert!(dragging);
    handle_settings_message(&mut s, &mut dragging, SettingsMessage::TextShadowToggled(true));
    handle_settings_message(&mut s, &mut dragging, SettingsMessage::AlwaysUpdateToggled(true));
    handle_settings_message(&mut s, &mut dragging, SettingsMessage::MinimizeToTrayOnCloseToggled(true));
    handle_settings_message(&mut s, &mut dragging, SettingsMessage::MinimizeToTrayOnMinimizeToggled(true));
    handle_settings_message(&mut s, &mut dragging, SettingsMessage::StartMinimizedToggled(true));
    assert!(s.text_shadow_enabled && s.always_update && s.minimize_to_tray_on_close);
    assert!(s.minimize_to_tray_on_minimize && s.start_minimized);
    assert!(matches!(handle_settings_message(&mut s, &mut dragging, SettingsMessage::Save), SettingsAction::Save));
    assert!(matches!(handle_settings_message(&mut s, &mut dragging, SettingsMessage::Load("s.json".to_string())), SettingsAction::LoadFrom(p) if p == "s.json"));
    assert!(matches!(handle_settings_message(&mut s, &mut dragging, SettingsMessage::RunOnStartToggled(true)), SettingsAction::SetRunOnStart(true)));
    assert!(!s.run_on_start);
    assert!(matches!(handle_settings_message(&mut s, &mut dragging, SettingsMessage::Activate(Settings::new())), SettingsAction::Nothing));
    assert_eq!(s.image_fit, ImageFit::Cover);
}

#[test]
fn run_on_start_follows_the_registry() {
    let mut s = Settings::new();
    apply_run_on_start(&mut s, true, Ok(()));
    assert!(s.run_on_start);
    apply_run_on_start(&mut s, false, Err(RegistryError::AddFailed));
    assert!(s.run_on_start);
    apply_run_on_start(&mut s, false, Err(RegistryError::RemoveFailed));
    assert!(!s.run_on_start);
    apply_run_on_start(&mut s, true, Err(RegistryError::KeyCreationFailed));
    assert!(!s.run_on_start);
    apply_run_on_start(&mut s, true, Err(RegistryError::PathUnobtainable));
    assert!(!s.run_on_start);
}

#[test]
fn server_ports_and_temporary_files() {
    assert_eq!(initial_port(PortSource::Fixed(4000)), 4000);
    assert_eq!(initial_port(PortSource::Dynamic), 0);
    assert_eq!(
        bind_error_message(true, "os error 98".to_string()),
        "Address already in use, please close any other instances of the application or try another address"
    );
    assert_eq!(bind_error_message(false, "permission denied".to_string()), "permission denied");
    assert_eq!(listen_address(23313), "0.0.0.0:23313");
    assert_eq!(listen_address(0), "0.0.0.0:0");
    assert_eq!(temp_settings_extension(1234, 0), "json.1234.0.tmp");
    assert_ne!(temp_settings_extension(1, 23), temp_settings_extension(12, 3));
}

#[test]
fn also_looks_at_the_value_and_gives_it_back() {
    let seen = std::cell::Cell::new(0u32);
    let v = 41u32.also(|x| seen.set(*x + 1));
    assert_eq!(v, 41);
    assert_eq!(seen.get(), 42);
}
