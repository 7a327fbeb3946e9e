//! Window appearance settings: how their text forms are read.

use vstd::prelude::*;
use vstd::string::*;
use crate::text::{ascii_lower, str_eq, to_ascii_lower, trim, trimmed};

verus! {

/// Colour scheme of the window.
#[derive(Debug, Clone, Copy, PartialEq, Eq, Structural)]
pub enum ThemeMode {
    Dark,
    Light,
    System,
}

/// Backdrop material of the window.
#[derive(Debug, Clone, Copy, PartialEq, Eq, Structural)]
pub enum Effect {
    Mica,
    Acrylic,
}

/// The form in which a setting is compared: without white space at its ends,
/// ASCII capitals in lower case.
pub open spec fn normalized(value: Seq<char>) -> Seq<char> {
    ascii_lower(trimmed(value))
}

/// The effect that a setting names, if it names one.
pub open spec fn effect_of(value: Seq<char>) -> Option<Effect> {
    if normalized(value) == "mica"@ {
        Some(Effect::Mica)
    } else if normalized(value) == "acrylic"@ {
        Some(Effect::Acrylic)
    } else {
        None
    }
}

/// The effect in use for a setting: acrylic where it says so, else mica.
pub open spec fn effect_in_use(value: Seq<char>) -> Effect {
    if normalized(value) == "acrylic"@ {
        Effect::Acrylic
    } else {
        Effect::Mica
    }
}

/// The theme in use for a setting: dark or light where it says so, else the
/// system's.
pub open spec fn theme_in_use(value: Seq<char>) -> ThemeMode {
    if normalized(value) == "dark"@ {
        ThemeMode::Dark
    } else if normalized(value) == "light"@ {
        ThemeMode::Light
    } else {
        ThemeMode::System
    }
}

/// The setting that names an effect.
pub open spec fn effect_name(effect: Effect) -> Seq<char> {
    match effect {
        Effect::Mica => "mica"@,
        Effect::Acrylic => "acrylic"@,
    }
}

/// The setting that names a theme.
pub open spec fn theme_name(theme: ThemeMode) -> Seq<char> {
    match theme {
        ThemeMode::Dark => "dark"@,
        ThemeMode::Light => "light"@,
        ThemeMode::System => "system"@,
    }
}

fn normalize(value: &str) -> (r: String)
    ensures
        r@ == normalized(value@),
{
    to_ascii_lower(trim(value))
}

impl Effect {
    /// Reads an effect from its name, whatever the case of its letters.
    pub fn from_str(value: &str) -> (r: Option<Effect>)
        ensures
            r == effect_of(value@),
    {
        let name = normalize(value);
        if str_eq(name.as_str(), "mica") {
            Some(Effect::Mica)
        } else if str_eq(name.as_str(), "acrylic") {
            Some(Effect::Acrylic)
        } else {
            None
        }
    }
}

/// The effect in use for a setting.
pub fn resolve_material_effect(value: &str) -> (r: Effect)
    ensures
        r == effect_in_use(value@),
{
    if str_eq(normalize(value).as_str(), "acrylic") {
        Effect::Acrylic
    } else {
        Effect::Mica
    }
}

/// The canonical name of the effect in use for a setting.
pub fn sanitize_material_effect(value: &str) -> (r: &'static str)
    ensures
        r@ == effect_name(effect_in_use(value@)),
{
    match resolve_material_effect(value) {
        Effect::Acrylic => "acrylic",
        Effect::Mica => "mica",
    }
}

/// The theme in use for a setting.
pub fn resolve_theme_mode(value: &str) -> (r: ThemeMode)
    ensures
        r == theme_in_use(value@),
{
    let name = normalize(value);
    if str_eq(name.as_str(), "dark") {
        ThemeMode::Dark
    } else if str_eq(name.as_str(), "light") {
        ThemeMode::Light
    } else {
        ThemeMode::System
    }
}

/// The canonical name of the theme in use for a setting.
pub fn sanitize_theme_mode(value: &str) -> (r: &'static str)
    ensures
        r@ == theme_name(theme_in_use(value@)),
{
    match resolve_theme_mode(value) {
        ThemeMode::Dark => "dark",
        ThemeMode::Light => "light",
        ThemeMode::System => "system",
    }
}

} // verus!
