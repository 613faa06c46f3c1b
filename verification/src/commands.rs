//! The logic behind the commands the user interface calls: the greeting, the
//! saved theme settings, the choice of the subtitle pipeline, and the token
//! server's home in the prepared arguments.

use vstd::prelude::*;
use crate::presets::{is_youtube_video_preset, preset_media, preset_source, PresetId, PresetMedia, PresetSource};
use crate::text::{concat3, owned, replace, replace_all, str_eq, views};

verus! {

/// The greeting for `name`.
pub fn greet(name: &str) -> (r: String)
    ensures
        r@ == "Hello, "@ + name@ + "! You've been greeted from Rust!"@,
{
    concat3("Hello, ", name, "! You've been greeted from Rust!")
}

/// The saved theme mode and color preset; empty until the user picks one.
#[derive(Clone, Debug)]
pub struct ThemeSettings {
    pub mode: String,
    pub preset: String,
}

impl Default for ThemeSettings {
    fn default() -> (r: Self)
        ensures
            r.mode@.len() == 0,
            r.preset@.len() == 0,
    {
        ThemeSettings { mode: String::new(), preset: String::new() }
    }
}

/// The mode the user asked for if it is `light`, `dark` or `system`, else
/// `system`.
pub open spec fn normalized_mode(mode: Seq<char>) -> Seq<char> {
    if mode == "light"@ || mode == "dark"@ || mode == "system"@ {
        mode
    } else {
        "system"@
    }
}

/// The mode shown for a saved mode: `system` while none is saved.
pub open spec fn shown_mode(saved: Seq<char>) -> Seq<char> {
    if saved.len() == 0 {
        "system"@
    } else {
        saved
    }
}

/// The preset used when the asked-for one is not supported: the default if it
/// is supported, else the first supported one, else `crystal`.
pub open spec fn preset_fallback(supported: Seq<Seq<char>>, default: Seq<char>) -> Seq<char> {
    if supported.contains(default) {
        default
    } else if supported.len() > 0 {
        supported[0]
    } else {
        "crystal"@
    }
}

/// `preset` if it is supported, else the fallback.
pub open spec fn chosen_preset(preset: Seq<char>, supported: Seq<Seq<char>>, default: Seq<char>) -> Seq<
    char,
> {
    if supported.contains(preset) {
        preset
    } else {
        preset_fallback(supported, default)
    }
}

/// Whether `supported` holds `name`.
fn contains_name(supported: &Vec<String>, name: &str) -> (r: bool)
    ensures
        r == views(supported@).contains(name@),
{
    let mut i: usize = 0;
    while i < supported.len()
        invariant
            i <= supported@.len(),
            forall|j: int| 0 <= j < i ==> supported@[j]@ != name@,
        decreases supported@.len() - i,
    {
        if str_eq(supported[i].as_str(), name) {
            assert(views(supported@)[i as int] == name@);
            return true;
        }
        i = i + 1;
    }
    assert forall|j: int| 0 <= j < views(supported@).len() implies views(supported@)[j] != name@ by {
        assert(views(supported@)[j] == supported@[j]@);
    }
    false
}

/// The preset used when the asked-for one is not supported: the default if it
/// is supported, else the first supported one, else `crystal`.
pub fn theme_preset_fallback(supported_presets: &Vec<String>, default_preset: &str) -> (r: String)
    ensures
        r@ == preset_fallback(views(supported_presets@), default_preset@),
{
    if contains_name(supported_presets, default_preset) {
        owned(default_preset)
    } else if supported_presets.len() > 0 {
        assert(views(supported_presets@)[0] == supported_presets@[0]@);
        owned(supported_presets[0].as_str())
    } else {
        owned("crystal")
    }
}

impl ThemeSettings {
    /// The saved mode, or `system` while none is saved.
    pub fn get_theme_mode(&self) -> (r: String)
        ensures
            r@ == shown_mode(self.mode@),
    {
        if self.mode.as_str().is_empty() {
            owned("system")
        } else {
            owned(self.mode.as_str())
        }
    }

    /// Saves the mode the user asked for if it is `light`, `dark` or `system`,
    /// else `system`, and returns what was saved.
    pub fn set_theme_mode(&mut self, mode: String) -> (r: String)
        ensures
            r@ == normalized_mode(mode@),
            final(self).mode@ == r@,
            final(self).preset == old(self).preset,
    {
        proof {
            reveal_strlit("system");
        }
        let next_mode = if str_eq(mode.as_str(), "light") || str_eq(mode.as_str(), "dark")
            || str_eq(mode.as_str(), "system") {
            mode
        } else {
            owned("system")
        };
        self.mode = owned(next_mode.as_str());
        next_mode
    }

    /// The saved preset if it is supported, else the fallback.
    pub fn get_theme_preset(&self, supported_presets: &Vec<String>, default_preset: &str) -> (r:
        String)
        ensures
            r@ == chosen_preset(self.preset@, views(supported_presets@), default_preset@),
    {
        if contains_name(supported_presets, self.preset.as_str()) {
            owned(self.preset.as_str())
        } else {
            theme_preset_fallback(supported_presets, default_preset)
        }
    }

    /// Saves the preset the user asked for if it is supported, else the
    /// fallback, and returns what was saved.
    pub fn set_theme_preset(
        &mut self,
        preset: String,
        supported_presets: &Vec<String>,
        default_preset: &str,
    ) -> (r: String)
        ensures
            r@ == chosen_preset(preset@, views(supported_presets@), default_preset@),
            final(self).preset@ == r@,
            final(self).mode == old(self).mode,
    {
        let next_preset = if contains_name(supported_presets, preset.as_str()) {
            preset
        } else {
            theme_preset_fallback(supported_presets, default_preset)
        };
        self.preset = owned(next_preset.as_str());
        next_preset
    }
}

/// What is saved is what is read back: after `set_theme_mode` the mode that
/// `get_theme_mode` returns is the one `set_theme_mode` returned, and it is
/// always `light`, `dark` or `system`.
pub proof fn law_theme_mode_read_back(mode: Seq<char>)
    ensures
        shown_mode(normalized_mode(mode)) == normalized_mode(mode),
        normalized_mode(mode) == "light"@ || normalized_mode(mode) == "dark"@
            || normalized_mode(mode) == "system"@,
        normalized_mode(normalized_mode(mode)) == normalized_mode(mode),
{
    reveal_strlit("system");
    reveal_strlit("light");
    reveal_strlit("dark");
}

/// What is saved is what is read back: after `set_theme_preset`, the preset
/// that `get_theme_preset` returns for the same supported presets and default
/// is the one `set_theme_preset` returned; and a supported preset is saved as
/// it is.
pub proof fn law_theme_preset_read_back(preset: Seq<char>, supported: Seq<Seq<char>>, default: Seq<char>)
    ensures
        chosen_preset(chosen_preset(preset, supported, default), supported, default)
            == chosen_preset(preset, supported, default),
        supported.contains(preset) ==> chosen_preset(preset, supported, default) == preset,
        supported.len() > 0 ==> supported.contains(chosen_preset(preset, supported, default)),
{
    if supported.len() > 0 && !supported.contains(default) {
        assert(supported[0] == supported[0]);
        assert(supported.contains(supported[0]));
    }
}

/// Whether a download goes through the advanced subtitle pipeline: when the
/// user turned it on and the preset downloads a YouTube video.
pub fn uses_subtitle_pipeline(advanced_subtitle_pipeline: bool, preset_id: PresetId) -> (r: bool)
    ensures
        r == (advanced_subtitle_pipeline && preset_source(preset_id) == PresetSource::YouTube
            && preset_media(preset_id) == PresetMedia::Video),
{
    advanced_subtitle_pipeline && is_youtube_video_preset(preset_id)
}

/// The placeholder that prepared arguments hold for the token server's home.
pub const POT_SERVER_HOME_PLACEHOLDER: &'static str = "__QUIVER_POT_SERVER_HOME__";

/// The arguments with the placeholder for the token server's home replaced by
/// `server_home`; unchanged when the home is unknown.
pub fn resolve_pot_server_home_args(args: Vec<String>, server_home: Option<String>) -> (r: Vec<
    String,
>)
    ensures
        match server_home {
            Some(home) => views(r@) == views(args@).map_values(
                |a: Seq<char>| replace_all(a, POT_SERVER_HOME_PLACEHOLDER@, home@),
            ),
            None => r == args,
        },
{
    match server_home {
        None => args,
        Some(home) => {
            proof {
                reveal_strlit("__QUIVER_POT_SERVER_HOME__");
            }
            let mut r: Vec<String> = Vec::new();
            let mut i: usize = 0;
            while i < args.len()
                invariant
                    i <= args@.len(),
                    POT_SERVER_HOME_PLACEHOLDER@.len() > 0,
                    r@.len() == i,
                    forall|j: int|
                        0 <= j < i ==> #[trigger] r@[j]@ == replace_all(
                            args@[j]@,
                            POT_SERVER_HOME_PLACEHOLDER@,
                            home@,
                        ),
                decreases args@.len() - i,
            {
                r.push(replace(args[i].as_str(), POT_SERVER_HOME_PLACEHOLDER, home.as_str()));
                i = i + 1;
            }
            assert(views(r@) =~= views(args@).map_values(
                |a: Seq<char>| replace_all(a, POT_SERVER_HOME_PLACEHOLDER@, home@),
            ));
            r
        },
    }
}

} // verus!
