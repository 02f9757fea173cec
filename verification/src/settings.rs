//! Application and per-account settings as the UI sees them.
//!
//! The collaborator stores settings with its own types; the UI works with
//! the plain projections here. Timestamps are carried as Unix seconds.

use vstd::prelude::*;
use vstd::string::StringExecFns;

verus! {

/// The UI theme.
#[derive(Debug, Clone, Copy, PartialEq, Eq, Structural)]
pub enum ThemeMode {
    /// Light theme.
    Light,
    /// Dark theme.
    Dark,
    /// Follow the system setting.
    System,
}

/// The UI language.
#[derive(Debug, Clone, Copy, PartialEq, Eq, Structural)]
pub enum Language {
    /// English.
    English,
    /// Spanish.
    Spanish,
    /// French.
    French,
    /// German.
    German,
    /// Italian.
    Italian,
    /// Portuguese.
    Portuguese,
    /// Russian.
    Russian,
    /// Turkish.
    Turkish,
}

/// Application-wide settings.
#[derive(Debug, Clone, Copy, PartialEq, Eq, Structural)]
pub struct AppSettings {
    /// The chosen theme.
    pub theme_mode: ThemeMode,
    /// The chosen language.
    pub language: Language,
}

/// The light theme.
pub fn theme_mode_light() -> (r: ThemeMode)
    ensures
        r == ThemeMode::Light,
{
    ThemeMode::Light
}

/// The dark theme.
pub fn theme_mode_dark() -> (r: ThemeMode)
    ensures
        r == ThemeMode::Dark,
{
    ThemeMode::Dark
}

/// The system-following theme.
pub fn theme_mode_system() -> (r: ThemeMode)
    ensures
        r == ThemeMode::System,
{
    ThemeMode::System
}

/// The storage token of a theme mode.
pub fn theme_mode_to_string(theme_mode: &ThemeMode) -> (r: String)
    ensures
        theme_mode is Light ==> r@ == "light"@,
        theme_mode is Dark ==> r@ == "dark"@,
        theme_mode is System ==> r@ == "system"@,
{
    match theme_mode {
        ThemeMode::Light => String::from_str("light"),
        ThemeMode::Dark => String::from_str("dark"),
        ThemeMode::System => String::from_str("system"),
    }
}

/// English.
pub fn language_english() -> (r: Language)
    ensures
        r == Language::English,
{
    Language::English
}

/// Spanish.
pub fn language_spanish() -> (r: Language)
    ensures
        r == Language::Spanish,
{
    Language::Spanish
}

/// French.
pub fn language_french() -> (r: Language)
    ensures
        r == Language::French,
{
    Language::French
}

/// German.
pub fn language_german() -> (r: Language)
    ensures
        r == Language::German,
{
    Language::German
}

/// Italian.
pub fn language_italian() -> (r: Language)
    ensures
        r == Language::Italian,
{
    Language::Italian
}

/// Portuguese.
pub fn language_portuguese() -> (r: Language)
    ensures
        r == Language::Portuguese,
{
    Language::Portuguese
}

/// Russian.
pub fn language_russian() -> (r: Language)
    ensures
        r == Language::Russian,
{
    Language::Russian
}

/// Turkish.
pub fn language_turkish() -> (r: Language)
    ensures
        r == Language::Turkish,
{
    Language::Turkish
}

/// The two-letter code of a language.
pub fn language_to_string(language: &Language) -> (r: String)
    ensures
        language is English ==> r@ == "en"@,
        language is Spanish ==> r@ == "es"@,
        language is French ==> r@ == "fr"@,
        language is German ==> r@ == "de"@,
        language is Italian ==> r@ == "it"@,
        language is Portuguese ==> r@ == "pt"@,
        language is Russian ==> r@ == "ru"@,
        language is Turkish ==> r@ == "tr"@,
{
    match language {
        Language::English => String::from_str("en"),
        Language::Spanish => String::from_str("es"),
        Language::French => String::from_str("fr"),
        Language::German => String::from_str("de"),
        Language::Italian => String::from_str("it"),
        Language::Portuguese => String::from_str("pt"),
        Language::Russian => String::from_str("ru"),
        Language::Turkish => String::from_str("tr"),
    }
}

/// The theme stored in the application settings.
pub fn app_settings_theme_mode(app_settings: &AppSettings) -> (r: ThemeMode)
    ensures
        r == app_settings.theme_mode,
{
    app_settings.theme_mode
}

/// The language stored in the application settings.
pub fn app_settings_language(app_settings: &AppSettings) -> (r: Language)
    ensures
        r == app_settings.language,
{
    app_settings.language
}

/// Per-account settings as stored by the collaborator.
#[derive(Debug, Clone, Copy, PartialEq, Eq, Structural)]
pub struct SourceAccountSettings {
    /// Whether notifications are enabled for the account.
    pub notifications_enabled: bool,
    /// When the settings row was created, Unix seconds.
    pub created_at: i64,
    /// When the settings row was last updated, Unix seconds.
    pub updated_at: i64,
}

/// Per-account settings as the UI sees them.
#[derive(Debug, Clone, Copy, PartialEq, Eq, Structural)]
pub struct AccountSettings {
    /// Whether notifications are enabled for the account.
    pub notifications_enabled: bool,
    /// When the settings row was created, Unix seconds.
    pub created_at: i64,
    /// When the settings row was last updated, Unix seconds.
    pub updated_at: i64,
}

impl From<SourceAccountSettings> for AccountSettings {
    fn from(settings: SourceAccountSettings) -> (r: Self) {
        AccountSettings {
            notifications_enabled: settings.notifications_enabled,
            created_at: settings.created_at,
            updated_at: settings.updated_at,
        }
    }
}

impl vstd::std_specs::convert::FromSpecImpl<SourceAccountSettings> for AccountSettings {
    open spec fn obeys_from_spec() -> bool {
        true
    }

    open spec fn from_spec(settings: SourceAccountSettings) -> Self {
        AccountSettings {
            notifications_enabled: settings.notifications_enabled,
            created_at: settings.created_at,
            updated_at: settings.updated_at,
        }
    }
}

} // verus!
