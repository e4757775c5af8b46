use vstd::prelude::*;
use crate::number::{parse_u64, parse_u64_spec, lemma_parse_decimal_roundtrip};
use crate::settings::DEFAULT_RECORDING_INTERVAL;
use crate::text::{owned, concat2, concat4, decimal};

verus! {

/// Gemini model identifiers.
pub const GEMINI_FLASH: &'static str = "gemini-2.0-flash";
/// Gemini model identifiers.
pub const GEMINI_PRO: &'static str = "gemini-2.0-pro";
/// Directory for temporary audio files when none is configured.
pub const DEFAULT_TEMP_AUDIO_DIR: &'static str = "temp_audio";

/// Why the configuration could not be loaded.
#[derive(Debug)]
pub enum ConfigError {
    /// A required variable is not set; it holds the variable's name.
    MissingEnvVar(String),
    /// A variable holds an unusable value: its name, then the value.
    InvalidValue(String, String),
}

/// The text shown for a configuration error.
pub open spec fn config_error_text(e: ConfigError) -> Seq<char> {
    match e {
        ConfigError::MissingEnvVar(n) => "Missing required environment variable: "@ + n@,
        ConfigError::InvalidValue(n, v) => "Invalid value for "@ + n@ + ": "@ + v@,
    }
}

impl ConfigError {
    /// The text shown for this error.
    pub fn message(&self) -> (r: String)
        ensures
            r@ == config_error_text(*self),
    {
        match self {
            ConfigError::MissingEnvVar(n) => concat2("Missing required environment variable: ", n.as_str()),
            ConfigError::InvalidValue(n, v) => concat4("Invalid value for ", n.as_str(), ": ", v.as_str()),
        }
    }
}

/// Application configuration.
#[derive(Debug, Clone)]
pub struct Config {
    /// Discord bot token.
    pub discord_token: String,
    /// Gemini API key.
    pub gemini_api_key: String,
    /// Guild to register commands in during development.
    pub guild_id: Option<u64>,
    /// Audio sample rate (Discord uses 48 kHz).
    pub sample_rate: u32,
    /// Audio channels (Discord uses stereo).
    pub channels: u16,
    /// Directory for temporary audio files.
    pub temp_audio_dir: String,
    /// Default analysis interval, in seconds.
    pub default_recording_interval: u64,
}

/// The text of an optional string slice.
pub open spec fn opt_text(o: Option<&str>) -> Option<Seq<char>> {
    match o {
        Some(s) => Some(s@),
        None => None,
    }
}

/// A guild id setting that is present, not empty, and not a number.
pub open spec fn guild_id_invalid(g: Option<Seq<char>>) -> bool {
    g matches Some(t) && t.len() > 0 && parse_u64_spec(t) is None
}

/// The guild id a setting selects: none when absent or empty.
pub open spec fn guild_id_of(g: Option<Seq<char>>) -> Option<u64> {
    match g {
        Some(t) => if t.len() == 0 { None } else { parse_u64_spec(t) },
        None => None,
    }
}

/// The analysis interval a setting selects: its number, else 300.
pub open spec fn interval_of(v: Option<Seq<char>>) -> u64 {
    match v {
        Some(t) => match parse_u64_spec(t) {
            Some(n) => n,
            None => DEFAULT_RECORDING_INTERVAL,
        },
        None => DEFAULT_RECORDING_INTERVAL,
    }
}

impl Config {
    /// Builds the configuration from the values of `DISCORD_TOKEN`,
    /// `GEMINI_API_KEY`, `GUILD_ID`, `TEMP_AUDIO_DIR` and `RECORDING_INTERVAL`
    /// (`None` where a variable is unset). The two keys are required, in
    /// that order; a non-empty guild id must be a number; the directory
    /// defaults to `temp_audio` and the interval, when unset or not a number,
    /// to 300 seconds.
    pub fn from_vars(
        discord_token: Option<&str>,
        gemini_api_key: Option<&str>,
        guild_id: Option<&str>,
        temp_audio_dir: Option<&str>,
        recording_interval: Option<&str>,
    ) -> (r: Result<Config, ConfigError>)
        ensures
            discord_token is None ==> (r matches Err(ConfigError::MissingEnvVar(n)) && n@
                == "DISCORD_TOKEN"@),
            discord_token is Some && gemini_api_key is None ==> (r matches Err(
                ConfigError::MissingEnvVar(n),
            ) && n@ == "GEMINI_API_KEY"@),
            discord_token is Some && gemini_api_key is Some && guild_id_invalid(opt_text(guild_id))
                ==> (r matches Err(ConfigError::InvalidValue(n, v)) && n@ == "GUILD_ID"@ && Some(v@)
                == opt_text(guild_id)),
            discord_token is Some && gemini_api_key is Some && !guild_id_invalid(opt_text(guild_id))
                ==> (r matches Ok(c) && {
                &&& Some(c.discord_token@) == opt_text(discord_token)
                &&& Some(c.gemini_api_key@) == opt_text(gemini_api_key)
                &&& c.guild_id == guild_id_of(opt_text(guild_id))
                &&& c.sample_rate == 48000
                &&& c.channels == 2
                &&& c.temp_audio_dir@ == match opt_text(temp_audio_dir) {
                    Some(d) => d,
                    None => DEFAULT_TEMP_AUDIO_DIR@,
                }
                &&& c.default_recording_interval == interval_of(opt_text(recording_interval))
            }),
    {
        let discord_token = match discord_token {
            Some(t) => owned(t),
            None => return Err(ConfigError::MissingEnvVar(owned("DISCORD_TOKEN"))),
        };
        let gemini_api_key = match gemini_api_key {
            Some(k) => owned(k),
            None => return Err(ConfigError::MissingEnvVar(owned("GEMINI_API_KEY"))),
        };
        let guild_id = match guild_id {
            Some(g) => {
                if g.is_empty() {
                    None
                } else {
                    match parse_u64(g) {
                        Some(n) => Some(n),
                        None => return Err(ConfigError::InvalidValue(owned("GUILD_ID"), owned(g))),
                    }
                }
            },
            None => None,
        };
        let temp_audio_dir = match temp_audio_dir {
            Some(d) => owned(d),
            None => owned(DEFAULT_TEMP_AUDIO_DIR),
        };
        let default_recording_interval = match recording_interval {
            Some(v) => match parse_u64(v) {
                Some(n) => n,
                None => DEFAULT_RECORDING_INTERVAL,
            },
            None => DEFAULT_RECORDING_INTERVAL,
        };
        Ok(
            Config {
                discord_token,
                gemini_api_key,
                guild_id,
                sample_rate: 48000,
                channels: 2,
                temp_audio_dir,
                default_recording_interval,
            },
        )
    }
}

/// Every guild id fits: a `GUILD_ID` holding the decimal text of any 64-bit
/// number is accepted and selects exactly that guild.
pub proof fn lemma_guild_id_decimal(n: u64)
    ensures
        !guild_id_invalid(Some(decimal(n as nat))),
        guild_id_of(Some(decimal(n as nat))) == Some(n),
{
    lemma_parse_decimal_roundtrip(n);
    crate::number::lemma_decimal_digits(n as nat);
}

/// A `RECORDING_INTERVAL` holding the decimal text of any 64-bit number sets
/// exactly that interval; without one the interval is 300 seconds.
pub proof fn lemma_interval_decimal(n: u64)
    ensures
        interval_of(Some(decimal(n as nat))) == n,
        interval_of(None) == 300,
{
    lemma_parse_decimal_roundtrip(n);
}

} // verus!
