use vstd::prelude::*;
use crate::mode::{AnalysisMode, parse_mode, mode_name, lemma_mode_name_roundtrip};
use crate::number::{parse_u64, parse_u64_spec, lemma_parse_decimal_roundtrip};
use crate::text::{str_eq, owned, decimal};

verus! {

/// The analysis interval, in seconds, that the configuration gives when it
/// names none.
pub const DEFAULT_RECORDING_INTERVAL: u64 = 300;

/// Per-guild settings.
#[derive(Debug, Clone)]
pub struct GuildSettings {
    pub guild_id: u64,
    pub api_key: Option<String>,
    pub analysis_mode: AnalysisMode,
    pub recording_interval: u64,
}

/// The abstract value of a guild's settings.
pub struct GuildSettingsView {
    pub guild_id: u64,
    pub api_key: Option<Seq<char>>,
    pub analysis_mode: AnalysisMode,
    pub recording_interval: u64,
}

/// The text of an optional string.
pub open spec fn opt_view(o: Option<String>) -> Option<Seq<char>> {
    match o {
        Some(s) => Some(s@),
        None => None,
    }
}

impl View for GuildSettings {
    type V = GuildSettingsView;

    open spec fn view(&self) -> GuildSettingsView {
        GuildSettingsView {
            guild_id: self.guild_id,
            api_key: opt_view(self.api_key),
            analysis_mode: self.analysis_mode,
            recording_interval: self.recording_interval,
        }
    }
}

/// The settings of a guild that has stored none, under a configured default
/// interval.
pub open spec fn default_settings_for(guild_id: u64, default_interval: u64) -> GuildSettingsView {
    GuildSettingsView {
        guild_id,
        api_key: None,
        analysis_mode: AnalysisMode::Debate,
        recording_interval: default_interval,
    }
}

/// The settings built from a stored row: an unknown mode name falls back to
/// `Debate`.
pub open spec fn stored_settings(
    guild_id: u64,
    api_key: Option<Seq<char>>,
    mode_text: Seq<char>,
    recording_interval: u64,
) -> GuildSettingsView {
    GuildSettingsView {
        guild_id,
        api_key,
        analysis_mode: match parse_mode(mode_text) {
            Some(m) => m,
            None => AnalysisMode::Debate,
        },
        recording_interval,
    }
}

/// The settings after setting `key` to the text `value`: `api_key` takes the
/// text; `analysis_mode` takes the mode it names, if any; `recording_interval`
/// takes the number it spells, if any; every other key, and every value that
/// does not parse, leaves the settings as they were.
pub open spec fn updated_settings(
    s: GuildSettingsView,
    key: Seq<char>,
    value: Seq<char>,
) -> GuildSettingsView {
    if key == "api_key"@ {
        GuildSettingsView { api_key: Some(value), ..s }
    } else if key == "analysis_mode"@ {
        match parse_mode(value) {
            Some(m) => GuildSettingsView { analysis_mode: m, ..s },
            None => s,
        }
    } else if key == "recording_interval"@ {
        match parse_u64_spec(value) {
            Some(n) => GuildSettingsView { recording_interval: n, ..s },
            None => s,
        }
    } else {
        s
    }
}

impl Default for GuildSettings {
    /// Settings for guild 0: no key, `Debate`, 300 seconds.
    fn default() -> (r: Self)
        ensures
            r@ == default_settings_for(0, DEFAULT_RECORDING_INTERVAL),
    {
        GuildSettings {
            guild_id: 0,
            api_key: None,
            analysis_mode: AnalysisMode::Debate,
            recording_interval: DEFAULT_RECORDING_INTERVAL,
        }
    }
}

impl GuildSettings {
    /// The settings of `guild_id` before it stores any: no key, `Debate`,
    /// and the configured default interval.
    pub fn for_guild(guild_id: u64, default_interval: u64) -> (r: Self)
        ensures
            r@ == default_settings_for(guild_id, default_interval),
    {
        let mut s = GuildSettings::default();
        s.guild_id = guild_id;
        s.recording_interval = default_interval;
        s
    }

    /// Settings read back from storage; the mode is parsed from its stored
    /// name and falls back to `Debate`.
    pub fn from_stored(
        guild_id: u64,
        api_key: Option<String>,
        mode_text: &str,
        recording_interval: u64,
    ) -> (r: Self)
        ensures
            r@ == stored_settings(guild_id, opt_view(api_key), mode_text@, recording_interval),
    {
        let analysis_mode = match AnalysisMode::from_str(mode_text) {
            Some(m) => m,
            None => AnalysisMode::default(),
        };
        GuildSettings { guild_id, api_key, analysis_mode, recording_interval }
    }

    /// Sets one setting by name from its text.
    pub fn apply_update(&mut self, key: &str, value: &str)
        ensures
            final(self)@ == updated_settings(old(self)@, key@, value@),
    {
        if str_eq(key, "api_key") {
            self.api_key = Some(owned(value));
        } else if str_eq(key, "analysis_mode") {
            if let Some(m) = AnalysisMode::from_str(value) {
                self.analysis_mode = m;
            }
        } else if str_eq(key, "recording_interval") {
            if let Some(n) = parse_u64(value) {
                self.recording_interval = n;
            }
        }
    }
}

/// Setting the mode by its own name stores that mode and nothing else.
pub proof fn lemma_set_mode_by_name(s: GuildSettingsView, m: AnalysisMode)
    ensures
        updated_settings(s, "analysis_mode"@, mode_name(m))
            == (GuildSettingsView { analysis_mode: m, ..s }),
{
    lemma_mode_name_roundtrip(m);
    reveal_strlit("api_key");
    reveal_strlit("analysis_mode");
    assert("analysis_mode"@ != "api_key"@) by {
        assert("analysis_mode"@.len() != "api_key"@.len());
    }
}

/// Setting the interval by its decimal text stores that interval and nothing
/// else.
pub proof fn lemma_set_interval_by_decimal(s: GuildSettingsView, n: u64)
    ensures
        updated_settings(s, "recording_interval"@, decimal(n as nat))
            == (GuildSettingsView { recording_interval: n, ..s }),
{
    lemma_parse_decimal_roundtrip(n);
    reveal_strlit("api_key");
    reveal_strlit("analysis_mode");
    reveal_strlit("recording_interval");
    assert("recording_interval"@ != "api_key"@) by {
        assert("recording_interval"@.len() != "api_key"@.len());
    }
    assert("recording_interval"@ != "analysis_mode"@) by {
        assert("recording_interval"@.len() != "analysis_mode"@.len());
    }
}

/// Storing settings (the mode by its name) and reading them back gives the
/// same settings.
pub proof fn lemma_stored_roundtrip(s: GuildSettingsView)
    ensures
        stored_settings(s.guild_id, s.api_key, mode_name(s.analysis_mode), s.recording_interval)
            == s,
{
    lemma_mode_name_roundtrip(s.analysis_mode);
}

/// No update changes which guild the settings belong to.
pub proof fn lemma_update_keeps_guild(s: GuildSettingsView, key: Seq<char>, value: Seq<char>)
    ensures
        updated_settings(s, key, value).guild_id == s.guild_id,
{
}

/// Setting the API key stores exactly the given text, whatever key was held
/// before, and leaves every other setting as it was.
pub proof fn lemma_set_api_key(s: GuildSettingsView, v: Seq<char>)
    ensures
        updated_settings(s, "api_key"@, v).api_key == Some(v),
        updated_settings(s, "api_key"@, v).guild_id == s.guild_id,
        updated_settings(s, "api_key"@, v).analysis_mode == s.analysis_mode,
        updated_settings(s, "api_key"@, v).recording_interval == s.recording_interval,
{
}

/// Of two API keys set one after the other, the later one is kept.
pub proof fn lemma_api_key_last_write_wins(s: GuildSettingsView, a: Seq<char>, b: Seq<char>)
    ensures
        updated_settings(updated_settings(s, "api_key"@, a), "api_key"@, b)
            == updated_settings(s, "api_key"@, b),
{
}

} // verus!
