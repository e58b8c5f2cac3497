//! The user's settings and how the settings dialog changes them.
use vstd::prelude::*;

use crate::platform::RegistryError;
use crate::ui::ImageFit;

verus! {

/// The user's settings. The background opacity (a fraction from 0 to 1) is
/// kept as the bits of its single-precision float.
#[derive(Debug, Clone)]
pub struct Settings {
    /// Path of a custom background image; empty for none.
    pub background_image: String,
    pub image_fit: ImageFit,
    pub background_opacity_bits: u32,
    pub text_shadow_enabled: bool,
    pub always_update: bool,
    pub minimize_to_tray_on_close: bool,
    pub minimize_to_tray_on_minimize: bool,
    pub run_on_start: bool,
    pub start_minimized: bool,
    /// Port of the web socket server (0 picks any free port).
    pub ws_port: u16,
}

/// The abstract value of [`Settings`].
#[verifier::ext_equal]
pub struct SettingsV {
    pub background_image: Seq<char>,
    pub image_fit: ImageFit,
    pub background_opacity_bits: u32,
    pub text_shadow_enabled: bool,
    pub always_update: bool,
    pub minimize_to_tray_on_close: bool,
    pub minimize_to_tray_on_minimize: bool,
    pub run_on_start: bool,
    pub start_minimized: bool,
    pub ws_port: u16,
}

impl View for Settings {
    type V = SettingsV;

    open spec fn view(&self) -> SettingsV {
        SettingsV {
            background_image: self.background_image@,
            image_fit: self.image_fit,
            background_opacity_bits: self.background_opacity_bits,
            text_shadow_enabled: self.text_shadow_enabled,
            always_update: self.always_update,
            minimize_to_tray_on_close: self.minimize_to_tray_on_close,
            minimize_to_tray_on_minimize: self.minimize_to_tray_on_minimize,
            run_on_start: self.run_on_start,
            start_minimized: self.start_minimized,
            ws_port: self.ws_port,
        }
    }
}

/// The bits of the default background opacity, 0.12.
pub const DEFAULT_OPACITY_BITS: u32 = 0x3df5_c28f;

/// The default web socket port.
pub const DEFAULT_WS_PORT: u16 = 23313;

impl Settings {
    /// The settings of a first start: no background image, covering fit,
    /// opacity 0.12, every option off, and the default port.
    pub fn new() -> (r: Settings)
        ensures
            r.background_image@.len() == 0,
            r.image_fit == ImageFit::Cover,
            r.background_opacity_bits == DEFAULT_OPACITY_BITS,
            !r.text_shadow_enabled,
            !r.always_update,
            !r.minimize_to_tray_on_close,
            !r.minimize_to_tray_on_minimize,
            !r.run_on_start,
            !r.start_minimized,
            r.ws_port == DEFAULT_WS_PORT,
    {
        Settings {
            background_image: String::new(),
            image_fit: ImageFit::Cover,
            background_opacity_bits: DEFAULT_OPACITY_BITS,
            text_shadow_enabled: false,
            always_update: false,
            minimize_to_tray_on_close: false,
            minimize_to_tray_on_minimize: false,
            run_on_start: false,
            start_minimized: false,
            ws_port: DEFAULT_WS_PORT,
        }
    }
}

/// Messages of the settings dialog.
#[derive(Debug, Clone)]
pub enum SettingsMessage {
    /// Load the settings from this file.
    Load(String),
    /// Use these settings.
    Activate(Settings),
    /// Save the settings.
    Save,
    /// A background image was picked, or the picker was cancelled.
    BackgroundImageSelected(Option<String>),
    RemoveBackgroundImage,
    ImageFitChanged(ImageFit),
    /// The opacity slider moved, to the float with these bits.
    OpacityChanged(u32),
    /// The opacity slider is being dragged, or was let go.
    OpacitySliderDrag(bool),
    TextShadowToggled(bool),
    AlwaysUpdateToggled(bool),
    MinimizeToTrayOnCloseToggled(bool),
    MinimizeToTrayOnMinimizeToggled(bool),
    RunOnStartToggled(bool),
    StartMinimizedToggled(bool),
}

/// What the caller is to do after a settings message.
#[derive(Debug, Clone)]
pub enum SettingsAction {
    Nothing,
    /// Save the settings.
    Save,
    /// Read the settings from this file, if it exists.
    LoadFrom(String),
    /// Add or remove the start-with-Windows entry, then apply the outcome
    /// with [`apply_run_on_start`] and save.
    SetRunOnStart(bool),
}

/// The settings after a message.
pub open spec fn spec_settings_after(s: SettingsV, msg: SettingsMessage) -> SettingsV {
    match msg {
        SettingsMessage::Activate(n) => n@,
        SettingsMessage::BackgroundImageSelected(Some(p)) => SettingsV { background_image: p@, ..s },
        SettingsMessage::RemoveBackgroundImage => SettingsV { background_image: Seq::empty(), ..s },
        SettingsMessage::ImageFitChanged(f) => SettingsV { image_fit: f, ..s },
        SettingsMessage::OpacityChanged(b) => SettingsV { background_opacity_bits: b, ..s },
        SettingsMessage::TextShadowToggled(b) => SettingsV { text_shadow_enabled: b, ..s },
        SettingsMessage::AlwaysUpdateToggled(b) => SettingsV { always_update: b, ..s },
        SettingsMessage::MinimizeToTrayOnCloseToggled(b) => SettingsV { minimize_to_tray_on_close: b, ..s },
        SettingsMessage::MinimizeToTrayOnMinimizeToggled(b) => SettingsV {
            minimize_to_tray_on_minimize: b,
            ..s
        },
        SettingsMessage::StartMinimizedToggled(b) => SettingsV { start_minimized: b, ..s },
        _ => s,
    }
}

/// Handles a settings message. Loading is left to the caller; activated
/// settings replace the current ones. Every change made in the dialog is
/// saved (a cancelled image pick saves too); dragging the opacity slider is
/// only noted. Switching the start-with-Windows option goes through the
/// registry first.
#[verifier::rlimit(40)]
pub fn handle_settings_message(settings: &mut Settings, opacity_dragging: &mut bool, msg: SettingsMessage) -> (r: SettingsAction)
    ensures
        final(settings)@ == spec_settings_after(old(settings)@, msg),
        *final(opacity_dragging) == match msg {
            SettingsMessage::OpacitySliderDrag(b) => b,
            _ => *old(opacity_dragging),
        },
        match msg {
            SettingsMessage::Load(p) => r matches SettingsAction::LoadFrom(q) && q@ == p@,
            SettingsMessage::Activate(_) => r is Nothing,
            SettingsMessage::OpacitySliderDrag(_) => r is Nothing,
            SettingsMessage::RunOnStartToggled(b) => r matches SettingsAction::SetRunOnStart(c) && c == b,
            _ => r is Save,
        },
{
    match msg {
        SettingsMessage::Load(p) => SettingsAction::LoadFrom(p),
        SettingsMessage::Activate(n) => {
            *settings = n;
            SettingsAction::Nothing
        },
        SettingsMessage::Save => SettingsAction::Save,
        SettingsMessage::BackgroundImageSelected(p) => {
            if let Some(p) = p {
                settings.background_image = p;
            }
            SettingsAction::Save
        },
        SettingsMessage::RemoveBackgroundImage => {
            settings.background_image = String::new();
            SettingsAction::Save
        },
        SettingsMessage::ImageFitChanged(f) => {
            settings.image_fit = f;
            SettingsAction::Save
        },
        SettingsMessage::OpacityChanged(b) => {
            settings.background_opacity_bits = b;
            SettingsAction::Save
        },
        SettingsMessage::OpacitySliderDrag(b) => {
            *opacity_dragging = b;
            SettingsAction::Nothing
        },
        SettingsMessage::TextShadowToggled(b) => {
            settings.text_shadow_enabled = b;
            SettingsAction::Save
        },
        SettingsMessage::AlwaysUpdateToggled(b) => {
            settings.always_update = b;
            SettingsAction::Save
        },
        SettingsMessage::MinimizeToTrayOnCloseToggled(b) => {
            settings.minimize_to_tray_on_close = b;
            SettingsAction::Save
        },
        SettingsMessage::MinimizeToTrayOnMinimizeToggled(b) => {
            settings.minimize_to_tray_on_minimize = b;
            SettingsAction::Save
        },
        SettingsMessage::RunOnStartToggled(b) => SettingsAction::SetRunOnStart(b),
        SettingsMessage::StartMinimizedToggled(b) => {
            settings.start_minimized = b;
            SettingsAction::Save
        },
    }
}

/// The start-with-Windows setting after trying to switch it to `enabled`:
/// switched when the registry change worked, off when removing the entry
/// failed, unchanged after any other failure.
pub fn apply_run_on_start(settings: &mut Settings, enabled: bool, outcome: Result<(), RegistryError>)
    ensures
        final(settings)@ == (SettingsV {
            run_on_start: match outcome {
                Ok(()) => enabled,
                Err(RegistryError::RemoveFailed) => false,
                Err(_) => old(settings).run_on_start,
            },
            ..old(settings)@
        }),
{
    match outcome {
        Ok(()) => {
            settings.run_on_start = enabled;
        },
        Err(RegistryError::RemoveFailed) => {
            settings.run_on_start = false;
        },
        Err(_) => {},
    }
}

} // verus!
