//! Reading the device preferences back from their stored names.

use vstd::prelude::*;

use crate::error::{LibraryError, LibraryResult};
use crate::models::preferences::{
    appearance_theme_from_name, grading_mode_from_name, lemma_appearance_theme_name_round_trip,
    lemma_grading_mode_name_round_trip, lemma_motion_preference_name_round_trip,
    lemma_reading_font_name_round_trip, lemma_reading_text_size_name_round_trip,
    lemma_startup_destination_name_round_trip, motion_preference_from_name,
    parse_appearance_theme, parse_grading_mode, parse_motion_preference, parse_reading_font,
    parse_reading_text_size, parse_startup_destination, reading_font_from_name,
    reading_text_size_from_name, startup_destination_from_name, AppearancePreferences,
    DevicePreferences,
};

verus! {

/// The device preferences as they are stored: each choice by its stored name.
#[derive(Clone, Debug, PartialEq, Eq)]
pub struct StoredPreferences {
    pub grading_mode: String,
    pub startup_destination: String,
    pub theme: String,
    pub reading_font: String,
    pub reading_text_size: String,
    pub motion_preference: String,
    pub pretesting_enabled: bool,
    pub mixed_practice_enabled: bool,
}

/// The preferences that stored names read as, when every name is known.
pub open spec fn read_preferences(s: StoredPreferences) -> Option<DevicePreferences> {
    match (
        grading_mode_from_name(s.grading_mode@),
        startup_destination_from_name(s.startup_destination@),
        appearance_theme_from_name(s.theme@),
        reading_font_from_name(s.reading_font@),
        reading_text_size_from_name(s.reading_text_size@),
        motion_preference_from_name(s.motion_preference@),
    ) {
        (Some(g), Some(d), Some(t), Some(f), Some(z), Some(m)) => Some(
            DevicePreferences {
                grading_mode: g,
                startup_destination: d,
                pretesting_enabled: s.pretesting_enabled,
                mixed_practice_enabled: s.mixed_practice_enabled,
                appearance: AppearancePreferences {
                    theme: t,
                    reading_font: f,
                    reading_text_size: z,
                    motion_preference: m,
                },
            },
        ),
        _ => None,
    }
}

/// The result is the error for the device preference called `field` holding `value`.
pub open spec fn preference_error(
    r: LibraryResult<DevicePreferences>,
    field: Seq<char>,
    value: Seq<char>,
) -> bool {
    r matches Err(e) && e matches LibraryError::InvalidDevicePreference { field: f, value: v }
        && f@ == field && v@ == value
}

/// Reads stored preferences, checking the grading mode, the startup screen, the theme,
/// the reading font, the text size and the motion preference in this order.
pub fn device_preferences_from_stored(stored: &StoredPreferences) -> (r: LibraryResult<DevicePreferences>)
    ensures
        r is Ok <==> read_preferences(*stored) is Some,
        r matches Ok(p) ==> read_preferences(*stored) == Some(p),
        grading_mode_from_name(stored.grading_mode@) is None ==> (r matches Err(e)
            && e matches LibraryError::InvalidGradingMode(v) && v@ == stored.grading_mode@),
        grading_mode_from_name(stored.grading_mode@) is Some && startup_destination_from_name(
            stored.startup_destination@,
        ) is None ==> (r matches Err(e) && e matches LibraryError::InvalidStartupDestination(v)
            && v@ == stored.startup_destination@),
        grading_mode_from_name(stored.grading_mode@) is Some && startup_destination_from_name(
            stored.startup_destination@,
        ) is Some && appearance_theme_from_name(stored.theme@) is None ==> preference_error(
            r,
            "appearance theme"@,
            stored.theme@,
        ),
        grading_mode_from_name(stored.grading_mode@) is Some && startup_destination_from_name(
            stored.startup_destination@,
        ) is Some && appearance_theme_from_name(stored.theme@) is Some && reading_font_from_name(
            stored.reading_font@,
        ) is None ==> preference_error(r, "reading font"@, stored.reading_font@),
        grading_mode_from_name(stored.grading_mode@) is Some && startup_destination_from_name(
            stored.startup_destination@,
        ) is Some && appearance_theme_from_name(stored.theme@) is Some && reading_font_from_name(
            stored.reading_font@,
        ) is Some && reading_text_size_from_name(stored.reading_text_size@) is None
            ==> preference_error(r, "reading text size"@, stored.reading_text_size@),
        grading_mode_from_name(stored.grading_mode@) is Some && startup_destination_from_name(
            stored.startup_destination@,
        ) is Some && appearance_theme_from_name(stored.theme@) is Some && reading_font_from_name(
            stored.reading_font@,
        ) is Some && reading_text_size_from_name(stored.reading_text_size@) is Some
            && motion_preference_from_name(stored.motion_preference@) is None ==> preference_error(
            r,
            "motion preference"@,
            stored.motion_preference@,
        ),
{
    let grading_mode = match parse_grading_mode(stored.grading_mode.as_str()) {
        Ok(v) => v,
        Err(e) => {
            return Err(e);
        },
    };
    let startup_destination = match parse_startup_destination(stored.startup_destination.as_str()) {
        Ok(v) => v,
        Err(e) => {
            return Err(e);
        },
    };
    let theme = match parse_appearance_theme(stored.theme.as_str()) {
        Ok(v) => v,
        Err(e) => {
            return Err(e);
        },
    };
    let reading_font = match parse_reading_font(stored.reading_font.as_str()) {
        Ok(v) => v,
        Err(e) => {
            return Err(e);
        },
    };
    let reading_text_size = match parse_reading_text_size(stored.reading_text_size.as_str()) {
        Ok(v) => v,
        Err(e) => {
            return Err(e);
        },
    };
    let motion_preference = match parse_motion_preference(stored.motion_preference.as_str()) {
        Ok(v) => v,
        Err(e) => {
            return Err(e);
        },
    };
    Ok(
        DevicePreferences {
            grading_mode,
            startup_destination,
            pretesting_enabled: stored.pretesting_enabled,
            mixed_practice_enabled: stored.mixed_practice_enabled,
            appearance: AppearancePreferences { theme, reading_font, reading_text_size, motion_preference },
        },
    )
}

/// Preferences stored by their names read back unchanged: whatever is written is what a
/// later read gives.
pub proof fn lemma_stored_preferences_read_back(p: DevicePreferences, s: StoredPreferences)
    requires
        s.grading_mode@ == p.grading_mode.stored_name(),
        s.startup_destination@ == p.startup_destination.stored_name(),
        s.theme@ == p.appearance.theme.stored_name(),
        s.reading_font@ == p.appearance.reading_font.stored_name(),
        s.reading_text_size@ == p.appearance.reading_text_size.stored_name(),
        s.motion_preference@ == p.appearance.motion_preference.stored_name(),
        s.pretesting_enabled == p.pretesting_enabled,
        s.mixed_practice_enabled == p.mixed_practice_enabled,
    ensures
        read_preferences(s) == Some(p),
{
    lemma_grading_mode_name_round_trip(p.grading_mode);
    lemma_startup_destination_name_round_trip(p.startup_destination);
    lemma_appearance_theme_name_round_trip(p.appearance.theme);
    lemma_reading_font_name_round_trip(p.appearance.reading_font);
    lemma_reading_text_size_name_round_trip(p.appearance.reading_text_size);
    lemma_motion_preference_name_round_trip(p.appearance.motion_preference);
}

} // verus!
