//! Device preferences.

use vstd::prelude::*;

use crate::error::{LibraryError, LibraryResult};
use crate::text::str_equals;

verus! {

/// How many grades the study screen offers.
#[derive(Clone, Copy, Debug, PartialEq, Eq, Structural)]
pub enum GradingMode {
    Simple,
    Advanced,
}

impl GradingMode {
    /// The stored name of each value.
    pub open spec fn stored_name(self) -> Seq<char> {
        match self {
            GradingMode::Simple => "simple"@,
            GradingMode::Advanced => "advanced"@,
        }
    }

    /// The stored name of this value.
    pub fn as_str(self) -> (s: &'static str)
        ensures
            s@ == self.stored_name(),
    {
        match self {
            GradingMode::Simple => "simple",
            GradingMode::Advanced => "advanced",
        }
    }
}

/// The value whose stored name is `s`, if any.
pub open spec fn grading_mode_from_name(s: Seq<char>) -> Option<GradingMode> {
    if s == "simple"@ {
        Some(GradingMode::Simple)
    } else if s == "advanced"@ {
        Some(GradingMode::Advanced)
    } else {
        None
    }
}

/// Reads a stored name; any other text is an invalid stored mode.
pub fn parse_grading_mode(value: &str) -> (r: LibraryResult<GradingMode>)
    ensures
        r matches Ok(k) ==> grading_mode_from_name(value@) == Some(k),
        r matches Err(e) ==> (e matches LibraryError::InvalidGradingMode(v) && v@ == value@),
        r is Err <==> grading_mode_from_name(value@) is None,
{
    if str_equals(value, "simple") {
        return Ok(GradingMode::Simple);
    }
    if str_equals(value, "advanced") {
        return Ok(GradingMode::Advanced);
    }
    Err(LibraryError::InvalidGradingMode(value.to_owned()))
}

/// Every value is read back from its own stored name unchanged.
pub proof fn lemma_grading_mode_name_round_trip(k: GradingMode)
    ensures
        grading_mode_from_name(k.stored_name()) == Some(k),
{
    reveal_strlit("simple");
    reveal_strlit("advanced");
    match k {
        GradingMode::Simple => {
        },
        GradingMode::Advanced => {
            assert("advanced"@.len() != "simple"@.len());
        },
    }
}

/// The screen the application opens on.
#[derive(Clone, Copy, Debug, PartialEq, Eq, Structural)]
pub enum StartupDestination {
    Study,
    Library,
}

impl StartupDestination {
    /// The stored name of each value.
    pub open spec fn stored_name(self) -> Seq<char> {
        match self {
            StartupDestination::Study => "study"@,
            StartupDestination::Library => "library"@,
        }
    }

    /// The stored name of this value.
    pub fn as_str(self) -> (s: &'static str)
        ensures
            s@ == self.stored_name(),
    {
        match self {
            StartupDestination::Study => "study",
            StartupDestination::Library => "library",
        }
    }
}

/// The value whose stored name is `s`, if any.
pub open spec fn startup_destination_from_name(s: Seq<char>) -> Option<StartupDestination> {
    if s == "study"@ {
        Some(StartupDestination::Study)
    } else if s == "library"@ {
        Some(StartupDestination::Library)
    } else {
        None
    }
}

/// Reads a stored name; any other text is an invalid stored destination.
pub fn parse_startup_destination(value: &str) -> (r: LibraryResult<StartupDestination>)
    ensures
        r matches Ok(k) ==> startup_destination_from_name(value@) == Some(k),
        r matches Err(e) ==> (e matches LibraryError::InvalidStartupDestination(v) && v@ == value@),
        r is Err <==> startup_destination_from_name(value@) is None,
{
    if str_equals(value, "study") {
        return Ok(StartupDestination::Study);
    }
    if str_equals(value, "library") {
        return Ok(StartupDestination::Library);
    }
    Err(LibraryError::InvalidStartupDestination(value.to_owned()))
}

/// Every value is read back from its own stored name unchanged.
pub proof fn lemma_startup_destination_name_round_trip(k: StartupDestination)
    ensures
        startup_destination_from_name(k.stored_name()) == Some(k),
{
    reveal_strlit("study");
    reveal_strlit("library");
    match k {
        StartupDestination::Study => {
        },
        StartupDestination::Library => {
            assert("library"@.len() != "study"@.len());
        },
    }
}

/// The colour themes of the application.
#[derive(Clone, Copy, Debug, PartialEq, Eq, Structural)]
pub enum AppearanceTheme {
    Aubergine,
    Dracula,
    OneDark,
    TokyoNight,
    CatppuccinMocha,
    Nord,
    GruvboxDark,
    SolarizedDark,
    GithubLight,
    OneLight,
    CatppuccinLatte,
    GruvboxLight,
    SolarizedLight,
    RosePineDawn,
}

impl AppearanceTheme {
    /// The stored name of each value.
    pub open spec fn stored_name(self) -> Seq<char> {
        match self {
            AppearanceTheme::Aubergine => "aubergine"@,
            AppearanceTheme::Dracula => "dracula"@,
            AppearanceTheme::OneDark => "one-dark"@,
            AppearanceTheme::TokyoNight => "tokyo-night"@,
            AppearanceTheme::CatppuccinMocha => "catppuccin-mocha"@,
            AppearanceTheme::Nord => "nord"@,
            AppearanceTheme::GruvboxDark => "gruvbox-dark"@,
            AppearanceTheme::SolarizedDark => "solarized-dark"@,
            AppearanceTheme::GithubLight => "github-light"@,
            AppearanceTheme::OneLight => "one-light"@,
            AppearanceTheme::CatppuccinLatte => "catppuccin-latte"@,
            AppearanceTheme::GruvboxLight => "gruvbox-light"@,
            AppearanceTheme::SolarizedLight => "solarized-light"@,
            AppearanceTheme::RosePineDawn => "rose-pine-dawn"@,
        }
    }

    /// The stored name of this value.
    pub fn as_str(self) -> (s: &'static str)
        ensures
            s@ == self.stored_name(),
    {
        match self {
            AppearanceTheme::Aubergine => "aubergine",
            AppearanceTheme::Dracula => "dracula",
            AppearanceTheme::OneDark => "one-dark",
            AppearanceTheme::TokyoNight => "tokyo-night",
            AppearanceTheme::CatppuccinMocha => "catppuccin-mocha",
            AppearanceTheme::Nord => "nord",
            AppearanceTheme::GruvboxDark => "gruvbox-dark",
            AppearanceTheme::SolarizedDark => "solarized-dark",
            AppearanceTheme::GithubLight => "github-light",
            AppearanceTheme::OneLight => "one-light",
            AppearanceTheme::CatppuccinLatte => "catppuccin-latte",
            AppearanceTheme::GruvboxLight => "gruvbox-light",
            AppearanceTheme::SolarizedLight => "solarized-light",
            AppearanceTheme::RosePineDawn => "rose-pine-dawn",
        }
    }
}

/// The value whose stored name is `s`, if any.
pub open spec fn appearance_theme_from_name(s: Seq<char>) -> Option<AppearanceTheme> {
    if s == "aubergine"@ {
        Some(AppearanceTheme::Aubergine)
    } else if s == "dracula"@ {
        Some(AppearanceTheme::Dracula)
    } else if s == "one-dark"@ {
        Some(AppearanceTheme::OneDark)
    } else if s == "tokyo-night"@ {
        Some(AppearanceTheme::TokyoNight)
    } else if s == "catppuccin-mocha"@ {
        Some(AppearanceTheme::CatppuccinMocha)
    } else if s == "nord"@ {
        Some(AppearanceTheme::Nord)
    } else if s == "gruvbox-dark"@ {
        Some(AppearanceTheme::GruvboxDark)
    } else if s == "solarized-dark"@ {
        Some(AppearanceTheme::SolarizedDark)
    } else if s == "github-light"@ {
        Some(AppearanceTheme::GithubLight)
    } else if s == "one-light"@ {
        Some(AppearanceTheme::OneLight)
    } else if s == "catppuccin-latte"@ {
        Some(AppearanceTheme::CatppuccinLatte)
    } else if s == "gruvbox-light"@ {
        Some(AppearanceTheme::GruvboxLight)
    } else if s == "solarized-light"@ {
        Some(AppearanceTheme::SolarizedLight)
    } else if s == "rose-pine-dawn"@ {
        Some(AppearanceTheme::RosePineDawn)
    } else {
        None
    }
}

/// Reads a stored name; any other text is an invalid stored preference.
pub fn parse_appearance_theme(value: &str) -> (r: LibraryResult<AppearanceTheme>)
    ensures
        r matches Ok(k) ==> appearance_theme_from_name(value@) == Some(k),
        r matches Err(e) ==> (e matches LibraryError::InvalidDevicePreference { field, value: v } && field@ == "appearance theme"@ && v@ == value@),
        r is Err <==> appearance_theme_from_name(value@) is None,
{
    if str_equals(value, "aubergine") {
        return Ok(AppearanceTheme::Aubergine);
    }
    if str_equals(value, "dracula") {
        return Ok(AppearanceTheme::Dracula);
    }
    if str_equals(value, "one-dark") {
        return Ok(AppearanceTheme::OneDark);
    }
    if str_equals(value, "tokyo-night") {
        return Ok(AppearanceTheme::TokyoNight);
    }
    if str_equals(value, "catppuccin-mocha") {
        return Ok(AppearanceTheme::CatppuccinMocha);
    }
    if str_equals(value, "nord") {
        return Ok(AppearanceTheme::Nord);
    }
    if str_equals(value, "gruvbox-dark") {
        return Ok(AppearanceTheme::GruvboxDark);
    }
    if str_equals(value, "solarized-dark") {
        return Ok(AppearanceTheme::SolarizedDark);
    }
    if str_equals(value, "github-light") {
        return Ok(AppearanceTheme::GithubLight);
    }
    if str_equals(value, "one-light") {
        return Ok(AppearanceTheme::OneLight);
    }
    if str_equals(value, "catppuccin-latte") {
        return Ok(AppearanceTheme::CatppuccinLatte);
    }
    if str_equals(value, "gruvbox-light") {
        return Ok(AppearanceTheme::GruvboxLight);
    }
    if str_equals(value, "solarized-light") {
        return Ok(AppearanceTheme::SolarizedLight);
    }
    if str_equals(value, "rose-pine-dawn") {
        return Ok(AppearanceTheme::RosePineDawn);
    }
    Err(LibraryError::InvalidDevicePreference { field: "appearance theme", value: value.to_owned() })
}

/// Every value is read back from its own stored name unchanged.
pub proof fn lemma_appearance_theme_name_round_trip(k: AppearanceTheme)
    ensures
        appearance_theme_from_name(k.stored_name()) == Some(k),
{
    reveal_strlit("aubergine");
    reveal_strlit("dracula");
    reveal_strlit("one-dark");
    reveal_strlit("tokyo-night");
    reveal_strlit("catppuccin-mocha");
    reveal_strlit("nord");
    reveal_strlit("gruvbox-dark");
    reveal_strlit("solarized-dark");
    reveal_strlit("github-light");
    reveal_strlit("one-light");
    reveal_strlit("catppuccin-latte");
    reveal_strlit("gruvbox-light");
    reveal_strlit("solarized-light");
    reveal_strlit("rose-pine-dawn");
    match k {
        AppearanceTheme::Aubergine => {
        },
        AppearanceTheme::Dracula => {
            assert("dracula"@.len() != "aubergine"@.len());
        },
        AppearanceTheme::OneDark => {
            assert("one-dark"@.len() != "aubergine"@.len());
            assert("one-dark"@.len() != "dracula"@.len());
        },
        AppearanceTheme::TokyoNight => {
            assert("tokyo-night"@.len() != "aubergine"@.len());
            assert("tokyo-night"@.len() != "dracula"@.len());
            assert("tokyo-night"@.len() != "one-dark"@.len());
        },
        AppearanceTheme::CatppuccinMocha => {
            assert("catppuccin-mocha"@.len() != "aubergine"@.len());
            assert("catppuccin-mocha"@.len() != "dracula"@.len());
            assert("catppuccin-mocha"@.len() != "one-dark"@.len());
            assert("catppuccin-mocha"@.len() != "tokyo-night"@.len());
        },
        AppearanceTheme::Nord => {
            assert("nord"@.len() != "aubergine"@.len());
            assert("nord"@.len() != "dracula"@.len());
            assert("nord"@.len() != "one-dark"@.len());
            assert("nord"@.len() != "tokyo-night"@.len());
            assert("nord"@.len() != "catppuccin-mocha"@.len());
        },
        AppearanceTheme::GruvboxDark => {
            assert("gruvbox-dark"@.len() != "aubergine"@.len());
            assert("gruvbox-dark"@.len() != "dracula"@.len());
            assert("gruvbox-dark"@.len() != "one-dark"@.len());
            assert("gruvbox-dark"@.len() != "tokyo-night"@.len());
            assert("gruvbox-dark"@.len() != "catppuccin-mocha"@.len());
            assert("gruvbox-dark"@.len() != "nord"@.len());
        },
        AppearanceTheme::SolarizedDark => {
            assert("solarized-dark"@.len() != "aubergine"@.len());
            assert("solarized-dark"@.len() != "dracula"@.len());
            assert("solarized-dark"@.len() != "one-dark"@.len());
            assert("solarized-dark"@.len() != "tokyo-night"@.len());
            assert("solarized-dark"@.len() != "catppuccin-mocha"@.len());
            assert("solarized-dark"@.len() != "nord"@.len());
            assert("solarized-dark"@.len() != "gruvbox-dark"@.len());
        },
        AppearanceTheme::GithubLight => {
            assert("github-light"@.len() != "aubergine"@.len());
            assert("github-light"@.len() != "dracula"@.len());
            assert("github-light"@.len() != "one-dark"@.len());
            assert("github-light"@.len() != "tokyo-night"@.len());
            assert("github-light"@.len() != "catppuccin-mocha"@.len());
            assert("github-light"@.len() != "nord"@.len());
            assert("github-light"@[1] != "gruvbox-dark"@[1]);
            assert("github-light"@.len() != "solarized-dark"@.len());
        },
        AppearanceTheme::OneLight => {
            assert("one-light"@[0] != "aubergine"@[0]);
            assert("one-light"@.len() != "dracula"@.len());
            assert("one-light"@.len() != "one-dark"@.len());
            assert("one-light"@.len() != "tokyo-night"@.len());
            assert("one-light"@.len() != "catppuccin-mocha"@.len());
            assert("one-light"@.len() != "nord"@.len());
            assert("one-light"@.len() != "gruvbox-dark"@.len());
            assert("one-light"@.len() != "solarized-dark"@.len());
            assert("one-light"@.len() != "github-light"@.len());
        },
        AppearanceTheme::CatppuccinLatte => {
            assert("catppuccin-latte"@.len() != "aubergine"@.len());
            assert("catppuccin-latte"@.len() != "dracula"@.len());
            assert("catppuccin-latte"@.len() != "one-dark"@.len());
            assert("catppuccin-latte"@.len() != "tokyo-night"@.len());
            assert("catppuccin-latte"@[11] != "catppuccin-mocha"@[11]);
            assert("catppuccin-latte"@.len() != "nord"@.len());
            assert("catppuccin-latte"@.len() != "gruvbox-dark"@.len());
            assert("catppuccin-latte"@.len() != "solarized-dark"@.len());
            assert("catppuccin-latte"@.len() != "github-light"@.len());
            assert("catppuccin-latte"@.len() != "one-light"@.len());
        },
        AppearanceTheme::GruvboxLight => {
            assert("gruvbox-light"@.len() != "aubergine"@.len());
            assert("gruvbox-light"@.len() != "dracula"@.len());
            assert("gruvbox-light"@.len() != "one-dark"@.len());
            assert("gruvbox-light"@.len() != "tokyo-night"@.len());
            assert("gruvbox-light"@.len() != "catppuccin-mocha"@.len());
            assert("gruvbox-light"@.len() != "nord"@.len());
            assert("gruvbox-light"@.len() != "gruvbox-dark"@.len());
            assert("gruvbox-light"@.len() != "solarized-dark"@.len());
            assert("gruvbox-light"@.len() != "github-light"@.len());
            assert("gruvbox-light"@.len() != "one-light"@.len());
            assert("gruvbox-light"@.len() != "catppuccin-latte"@.len());
        },
        AppearanceTheme::SolarizedLight => {
            assert("solarized-light"@.len() != "aubergine"@.len());
            assert("solarized-light"@.len() != "dracula"@.len());
            assert("solarized-light"@.len() != "one-dark"@.len());
            assert("solarized-light"@.len() != "tokyo-night"@.len());
            assert("solarized-light"@.len() != "catppuccin-mocha"@.len());
            assert("solarized-light"@.len() != "nord"@.len());
            assert("solarized-light"@.len() != "gruvbox-dark"@.len());
            assert("solarized-light"@.len() != "solarized-dark"@.len());
            assert("solarized-light"@.len() != "github-light"@.len());
            assert("solarized-light"@.len() != "one-light"@.len());
            assert("solarized-light"@.len() != "catppuccin-latte"@.len());
            assert("solarized-light"@.len() != "gruvbox-light"@.len());
        },
        AppearanceTheme::RosePineDawn => {
            assert("rose-pine-dawn"@.len() != "aubergine"@.len());
            assert("rose-pine-dawn"@.len() != "dracula"@.len());
            assert("rose-pine-dawn"@.len() != "one-dark"@.len());
            assert("rose-pine-dawn"@.len() != "tokyo-night"@.len());
            assert("rose-pine-dawn"@.len() != "catppuccin-mocha"@.len());
            assert("rose-pine-dawn"@.len() != "nord"@.len());
            assert("rose-pine-dawn"@.len() != "gruvbox-dark"@.len());
            assert("rose-pine-dawn"@[0] != "solarized-dark"@[0]);
            assert("rose-pine-dawn"@.len() != "github-light"@.len());
            assert("rose-pine-dawn"@.len() != "one-light"@.len());
            assert("rose-pine-dawn"@.len() != "catppuccin-latte"@.len());
            assert("rose-pine-dawn"@.len() != "gruvbox-light"@.len());
            assert("rose-pine-dawn"@.len() != "solarized-light"@.len());
        },
    }
}

/// The fonts for study text.
#[derive(Clone, Copy, Debug, PartialEq, Eq, Structural)]
pub enum ReadingFont {
    Inter,
    SystemUi,
    IbmPlexSans,
    SourceSerif4,
    JetBrainsMono,
}

impl ReadingFont {
    /// The stored name of each value.
    pub open spec fn stored_name(self) -> Seq<char> {
        match self {
            ReadingFont::Inter => "inter"@,
            ReadingFont::SystemUi => "system_ui"@,
            ReadingFont::IbmPlexSans => "ibm_plex_sans"@,
            ReadingFont::SourceSerif4 => "source_serif_4"@,
            ReadingFont::JetBrainsMono => "jetbrains_mono"@,
        }
    }

    /// The stored name of this value.
    pub fn as_str(self) -> (s: &'static str)
        ensures
            s@ == self.stored_name(),
    {
        match self {
            ReadingFont::Inter => "inter",
            ReadingFont::SystemUi => "system_ui",
            ReadingFont::IbmPlexSans => "ibm_plex_sans",
            ReadingFont::SourceSerif4 => "source_serif_4",
            ReadingFont::JetBrainsMono => "jetbrains_mono",
        }
    }
}

/// The value whose stored name is `s`, if any.
pub open spec fn reading_font_from_name(s: Seq<char>) -> Option<ReadingFont> {
    if s == "inter"@ {
        Some(ReadingFont::Inter)
    } else if s == "system_ui"@ {
        Some(ReadingFont::SystemUi)
    } else if s == "ibm_plex_sans"@ {
        Some(ReadingFont::IbmPlexSans)
    } else if s == "source_serif_4"@ {
        Some(ReadingFont::SourceSerif4)
    } else if s == "jetbrains_mono"@ {
        Some(ReadingFont::JetBrainsMono)
    } else {
        None
    }
}

/// Reads a stored name; any other text is an invalid stored preference.
pub fn parse_reading_font(value: &str) -> (r: LibraryResult<ReadingFont>)
    ensures
        r matches Ok(k) ==> reading_font_from_name(value@) == Some(k),
        r matches Err(e) ==> (e matches LibraryError::InvalidDevicePreference { field, value: v } && field@ == "reading font"@ && v@ == value@),
        r is Err <==> reading_font_from_name(value@) is None,
{
    if str_equals(value, "inter") {
        return Ok(ReadingFont::Inter);
    }
    if str_equals(value, "system_ui") {
        return Ok(ReadingFont::SystemUi);
    }
    if str_equals(value, "ibm_plex_sans") {
        return Ok(ReadingFont::IbmPlexSans);
    }
    if str_equals(value, "source_serif_4") {
        return Ok(ReadingFont::SourceSerif4);
    }
    if str_equals(value, "jetbrains_mono") {
        return Ok(ReadingFont::JetBrainsMono);
    }
    Err(LibraryError::InvalidDevicePreference { field: "reading font", value: value.to_owned() })
}

/// Every value is read back from its own stored name unchanged.
pub proof fn lemma_reading_font_name_round_trip(k: ReadingFont)
    ensures
        reading_font_from_name(k.stored_name()) == Some(k),
{
    reveal_strlit("inter");
    reveal_strlit("system_ui");
    reveal_strlit("ibm_plex_sans");
    reveal_strlit("source_serif_4");
    reveal_strlit("jetbrains_mono");
    match k {
        ReadingFont::Inter => {
        },
        ReadingFont::SystemUi => {
            assert("system_ui"@.len() != "inter"@.len());
        },
        ReadingFont::IbmPlexSans => {
            assert("ibm_plex_sans"@.len() != "inter"@.len());
            assert("ibm_plex_sans"@.len() != "system_ui"@.len());
        },
        ReadingFont::SourceSerif4 => {
            assert("source_serif_4"@.len() != "inter"@.len());
            assert("source_serif_4"@.len() != "system_ui"@.len());
            assert("source_serif_4"@.len() != "ibm_plex_sans"@.len());
        },
        ReadingFont::JetBrainsMono => {
            assert("jetbrains_mono"@.len() != "inter"@.len());
            assert("jetbrains_mono"@.len() != "system_ui"@.len());
            assert("jetbrains_mono"@.len() != "ibm_plex_sans"@.len());
            assert("jetbrains_mono"@[0] != "source_serif_4"@[0]);
        },
    }
}

/// The sizes of study text.
#[derive(Clone, Copy, Debug, PartialEq, Eq, Structural)]
pub enum ReadingTextSize {
    Small,
    Medium,
    Large,
}

impl ReadingTextSize {
    /// The stored name of each value.
    pub open spec fn stored_name(self) -> Seq<char> {
        match self {
            ReadingTextSize::Small => "small"@,
            ReadingTextSize::Medium => "medium"@,
            ReadingTextSize::Large => "large"@,
        }
    }

    /// The stored name of this value.
    pub fn as_str(self) -> (s: &'static str)
        ensures
            s@ == self.stored_name(),
    {
        match self {
            ReadingTextSize::Small => "small",
            ReadingTextSize::Medium => "medium",
            ReadingTextSize::Large => "large",
        }
    }
}

/// The value whose stored name is `s`, if any.
pub open spec fn reading_text_size_from_name(s: Seq<char>) -> Option<ReadingTextSize> {
    if s == "small"@ {
        Some(ReadingTextSize::Small)
    } else if s == "medium"@ {
        Some(ReadingTextSize::Medium)
    } else if s == "large"@ {
        Some(ReadingTextSize::Large)
    } else {
        None
    }
}

/// Reads a stored name; any other text is an invalid stored preference.
pub fn parse_reading_text_size(value: &str) -> (r: LibraryResult<ReadingTextSize>)
    ensures
        r matches Ok(k) ==> reading_text_size_from_name(value@) == Some(k),
        r matches Err(e) ==> (e matches LibraryError::InvalidDevicePreference { field, value: v } && field@ == "reading text size"@ && v@ == value@),
        r is Err <==> reading_text_size_from_name(value@) is None,
{
    if str_equals(value, "small") {
        return Ok(ReadingTextSize::Small);
    }
    if str_equals(value, "medium") {
        return Ok(ReadingTextSize::Medium);
    }
    if str_equals(value, "large") {
        return Ok(ReadingTextSize::Large);
    }
    Err(LibraryError::InvalidDevicePreference { field: "reading text size", value: value.to_owned() })
}

/// Every value is read back from its own stored name unchanged.
pub proof fn lemma_reading_text_size_name_round_trip(k: ReadingTextSize)
    ensures
        reading_text_size_from_name(k.stored_name()) == Some(k),
{
    reveal_strlit("small");
    reveal_strlit("medium");
    reveal_strlit("large");
    match k {
        ReadingTextSize::Small => {
        },
        ReadingTextSize::Medium => {
            assert("medium"@.len() != "small"@.len());
        },
        ReadingTextSize::Large => {
            assert("large"@[0] != "small"@[0]);
            assert("large"@.len() != "medium"@.len());
        },
    }
}

/// How much the interface animates.
#[derive(Clone, Copy, Debug, PartialEq, Eq, Structural)]
pub enum MotionPreference {
    System,
    Full,
    Reduced,
}

impl MotionPreference {
    /// The stored name of each value.
    pub open spec fn stored_name(self) -> Seq<char> {
        match self {
            MotionPreference::System => "system"@,
            MotionPreference::Full => "full"@,
            MotionPreference::Reduced => "reduced"@,
        }
    }

    /// The stored name of this value.
    pub fn as_str(self) -> (s: &'static str)
        ensures
            s@ == self.stored_name(),
    {
        match self {
            MotionPreference::System => "system",
            MotionPreference::Full => "full",
            MotionPreference::Reduced => "reduced",
        }
    }
}

/// The value whose stored name is `s`, if any.
pub open spec fn motion_preference_from_name(s: Seq<char>) -> Option<MotionPreference> {
    if s == "system"@ {
        Some(MotionPreference::System)
    } else if s == "full"@ {
        Some(MotionPreference::Full)
    } else if s == "reduced"@ {
        Some(MotionPreference::Reduced)
    } else {
        None
    }
}

/// Reads a stored name; any other text is an invalid stored preference.
pub fn parse_motion_preference(value: &str) -> (r: LibraryResult<MotionPreference>)
    ensures
        r matches Ok(k) ==> motion_preference_from_name(value@) == Some(k),
        r matches Err(e) ==> (e matches LibraryError::InvalidDevicePreference { field, value: v } && field@ == "motion preference"@ && v@ == value@),
        r is Err <==> motion_preference_from_name(value@) is None,
{
    if str_equals(value, "system") {
        return Ok(MotionPreference::System);
    }
    if str_equals(value, "full") {
        return Ok(MotionPreference::Full);
    }
    if str_equals(value, "reduced") {
        return Ok(MotionPreference::Reduced);
    }
    Err(LibraryError::InvalidDevicePreference { field: "motion preference", value: value.to_owned() })
}

/// Every value is read back from its own stored name unchanged.
pub proof fn lemma_motion_preference_name_round_trip(k: MotionPreference)
    ensures
        motion_preference_from_name(k.stored_name()) == Some(k),
{
    reveal_strlit("system");
    reveal_strlit("full");
    reveal_strlit("reduced");
    match k {
        MotionPreference::System => {
        },
        MotionPreference::Full => {
            assert("full"@.len() != "system"@.len());
        },
        MotionPreference::Reduced => {
            assert("reduced"@.len() != "system"@.len());
            assert("reduced"@.len() != "full"@.len());
        },
    }
}

/// How the application looks on this device.
#[derive(Clone, Debug, PartialEq, Eq)]
pub struct AppearancePreferences {
    pub theme: AppearanceTheme,
    pub reading_font: ReadingFont,
    pub reading_text_size: ReadingTextSize,
    pub motion_preference: MotionPreference,
}

/// The preferences kept on this device only.
#[derive(Clone, Debug, PartialEq, Eq)]
pub struct DevicePreferences {
    pub grading_mode: GradingMode,
    pub startup_destination: StartupDestination,
    pub pretesting_enabled: bool,
    pub mixed_practice_enabled: bool,
    pub appearance: AppearancePreferences,
}

/// A request to change the grading mode.
#[derive(Clone, Debug, PartialEq, Eq)]
pub struct SetGradingModeInput {
    pub grading_mode: GradingMode,
}

/// A request to change the startup screen.
#[derive(Clone, Debug, PartialEq, Eq)]
pub struct SetStartupDestinationInput {
    pub startup_destination: StartupDestination,
}

/// A request to turn pretesting on or off.
#[derive(Clone, Debug, PartialEq, Eq)]
pub struct SetPretestingEnabledInput {
    pub enabled: bool,
}

/// A request to turn mixed practice on or off.
#[derive(Clone, Debug, PartialEq, Eq)]
pub struct SetMixedPracticeEnabledInput {
    pub enabled: bool,
}

/// A request to change the appearance.
#[derive(Clone, Debug, PartialEq, Eq)]
pub struct SetAppearancePreferencesInput {
    pub appearance: AppearancePreferences,
}

} // verus!
