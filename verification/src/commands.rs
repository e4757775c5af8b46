use vstd::prelude::*;
use crate::mode::{AnalysisMode, mode_name, parse_mode};
use crate::text::{decimal, push_decimal, owned, concat2, concat3, str_eq};

verus! {

/// The error when a command is used outside a guild.
pub const GUILD_REQUIRED: &'static str = "Must be used in a guild";
/// The error when the guild is not in the cache.
pub const GUILD_NOT_CACHED: &'static str = "Guild not in cache";
/// The error when voice support is not set up.
pub const VOICE_NOT_REGISTERED: &'static str = "Songbird not registered";

/// Reply when the user is not in a voice channel.
pub const JOIN_VOICE_FIRST: &'static str = "ボイスチャットに参加してからコマンドを実行してください。";
/// Reply when the guild is already being analysed.
pub const ALREADY_RUNNING: &'static str = "既に分析を実行中です。";
/// Reply to a stop request when nothing runs.
pub const NOT_RUNNING: &'static str = "分析は実行されていません。";
/// Reply to an analysis request when nothing runs.
pub const NOT_RUNNING_START_FIRST: &'static str = "分析は実行されていません。先に /analyze_start を実行してください。";
/// Notice while the final report is prepared.
pub const STOPPING: &'static str = "🔄 最終レポートを作成して終了します。しばらくお待ちください...";
/// Message once the session has ended.
pub const STOPPED: &'static str = "✅ 分析を終了しました。お疲れ様でした！";
/// Notice when an analysis is started by hand.
pub const ANALYZING_NOW: &'static str = "🔄 手動分析を開始しました...";

/// The kind of value a command option takes.
pub enum ValueKind {
    /// Text, restricted to these choices.
    Text { choices: Vec<&'static str> },
    /// An integer within these bounds.
    Integer { min: i64, max: i64 },
}

/// An option that takes a value.
pub struct ValueOptionSpec {
    pub name: &'static str,
    pub description: &'static str,
    pub required: bool,
    pub kind: ValueKind,
}

/// A subcommand with its one option.
pub struct SubcommandSpec {
    pub name: &'static str,
    pub description: &'static str,
    pub option: ValueOptionSpec,
}

/// A slash command.
pub struct CommandSpec {
    pub name: &'static str,
    pub description: &'static str,
    pub subcommands: Vec<SubcommandSpec>,
}

fn plain_command(name: &'static str, description: &'static str) -> (r: CommandSpec)
    ensures
        r.name == name,
        r.description == description,
        r.subcommands@.len() == 0,
{
    CommandSpec { name, description, subcommands: Vec::new() }
}

/// The analysis commands: `analyze_start`, `analyze_stop`, `analyze_now` and
/// `analyze_debug`, in that order, none with options.
pub fn analyze_commands() -> (r: Vec<CommandSpec>)
    ensures
        r@.len() == 4,
        r@[0].name@ == "analyze_start"@ && r@[0].description@ == "ボイスチャットの分析を開始します"@,
        r@[1].name@ == "analyze_stop"@ && r@[1].description@ == "分析を終了し、ボイスチャットから退出します"@,
        r@[2].name@ == "analyze_now"@ && r@[2].description@ == "すぐにレポートを作成します（分析間隔を待たずに実行）"@,
        r@[3].name@ == "analyze_debug"@ && r@[3].description@ == "Botの権限と状態を確認するデバッグコマンド"@,
        forall|i: int| 0 <= i < 4 ==> (#[trigger] r@[i]).subcommands@.len() == 0,
{
    let mut r: Vec<CommandSpec> = Vec::new();
    r.push(plain_command("analyze_start", "ボイスチャットの分析を開始します"));
    r.push(plain_command("analyze_stop", "分析を終了し、ボイスチャットから退出します"));
    r.push(plain_command("analyze_now", "すぐにレポートを作成します（分析間隔を待たずに実行）"));
    r.push(plain_command("analyze_debug", "Botの権限と状態を確認するデバッグコマンド"));
    r
}

/// The shortest analysis interval a user may set, in seconds.
pub const MIN_INTERVAL_SECS: i64 = 60;
/// The longest analysis interval a user may set, in seconds.
pub const MAX_INTERVAL_SECS: i64 = 3600;

/// The settings command: `settings` with subcommands `set_mode` (required
/// text `mode`, one of `debate` and `summary`) and `set_interval` (required
/// integer `seconds`, 60 to 3600).
pub fn settings_commands() -> (r: Vec<CommandSpec>)
    ensures
        r@.len() == 1,
        r@[0].name@ == "settings"@,
        r@[0].description@ == "Botの設定を変更します"@,
        r@[0].subcommands@.len() == 2,
        ({
            let s = r@[0].subcommands@[0];
            &&& s.name@ == "set_mode"@
            &&& s.description@ == "分析モードを変更します (debate / summary)"@
            &&& s.option.name@ == "mode"@
            &&& s.option.description@ == "分析モード"@
            &&& s.option.required
            &&& s.option.kind matches ValueKind::Text { choices } && choices@.len() == 2
                && choices@[0]@ == "debate"@ && choices@[1]@ == "summary"@
        }),
        ({
            let s = r@[0].subcommands@[1];
            &&& s.name@ == "set_interval"@
            &&& s.description@ == "分析間隔（秒）を変更します"@
            &&& s.option.name@ == "seconds"@
            &&& s.option.description@ == "間隔（秒）"@
            &&& s.option.required
            &&& s.option.kind == (ValueKind::Integer { min: MIN_INTERVAL_SECS, max: MAX_INTERVAL_SECS })
        }),
{
    let mut choices: Vec<&'static str> = Vec::new();
    choices.push("debate");
    choices.push("summary");
    let set_mode = SubcommandSpec {
        name: "set_mode",
        description: "分析モードを変更します (debate / summary)",
        option: ValueOptionSpec {
            name: "mode",
            description: "分析モード",
            required: true,
            kind: ValueKind::Text { choices },
        },
    };
    let set_interval = SubcommandSpec {
        name: "set_interval",
        description: "分析間隔（秒）を変更します",
        option: ValueOptionSpec {
            name: "seconds",
            description: "間隔（秒）",
            required: true,
            kind: ValueKind::Integer { min: MIN_INTERVAL_SECS, max: MAX_INTERVAL_SECS },
        },
    };
    let mut subcommands: Vec<SubcommandSpec> = Vec::new();
    subcommands.push(set_mode);
    subcommands.push(set_interval);
    let mut r: Vec<CommandSpec> = Vec::new();
    r.push(CommandSpec { name: "settings", description: "Botの設定を変更します", subcommands });
    r
}

/// Which handler a command goes to.
#[derive(Debug, Clone, Copy, PartialEq, Eq, Structural)]
pub enum CommandRoute {
    Start,
    Stop,
    Now,
    Settings,
    Debug,
    /// No handler: the command is ignored.
    Ignore,
}

/// The handler for a command, by name.
pub open spec fn route_for(name: Seq<char>) -> CommandRoute {
    if name == "analyze_start"@ {
        CommandRoute::Start
    } else if name == "analyze_stop"@ {
        CommandRoute::Stop
    } else if name == "analyze_now"@ {
        CommandRoute::Now
    } else if name == "settings"@ {
        CommandRoute::Settings
    } else if name == "analyze_debug"@ {
        CommandRoute::Debug
    } else {
        CommandRoute::Ignore
    }
}

/// The handler for a command, by name; unknown commands are ignored.
pub fn route_command(name: &str) -> (r: CommandRoute)
    ensures
        r == route_for(name@),
{
    if str_eq(name, "analyze_start") {
        CommandRoute::Start
    } else if str_eq(name, "analyze_stop") {
        CommandRoute::Stop
    } else if str_eq(name, "analyze_now") {
        CommandRoute::Now
    } else if str_eq(name, "settings") {
        CommandRoute::Settings
    } else if str_eq(name, "analyze_debug") {
        CommandRoute::Debug
    } else {
        CommandRoute::Ignore
    }
}

/// Why `/analyze_start` declines to start, if it does: the user must be in a
/// voice channel, and the guild must not already be analysed.
pub fn start_refusal(in_voice_channel: bool, session_exists: bool) -> (r: Option<&'static str>)
    ensures
        !in_voice_channel ==> r == Some(JOIN_VOICE_FIRST),
        in_voice_channel && session_exists ==> r == Some(ALREADY_RUNNING),
        in_voice_channel && !session_exists ==> r is None,
{
    if !in_voice_channel {
        Some(JOIN_VOICE_FIRST)
    } else if session_exists {
        Some(ALREADY_RUNNING)
    } else {
        None
    }
}

/// The reply once analysis has started in the named channel.
pub fn start_reply(channel_name: Option<&str>) -> (r: String)
    ensures
        r@ == match channel_name {
            Some(n) => n@,
            None => "Unknown"@,
        } + " の分析を開始しました。プライバシー保護のため、録音・分析が行われることを参加者に周知してください。"@,
{
    let name = match channel_name {
        Some(n) => n,
        None => "Unknown",
    };
    concat2(name, " の分析を開始しました。プライバシー保護のため、録音・分析が行われることを参加者に周知してください。")
}

/// The reply to `/analyze_stop` when no session runs, if so.
pub fn stop_refusal(session_exists: bool) -> (r: Option<&'static str>)
    ensures
        r == if session_exists { None } else { Some(NOT_RUNNING) },
{
    if session_exists {
        None
    } else {
        Some(NOT_RUNNING)
    }
}

/// The reply to `/analyze_now` when no session runs, if so.
pub fn now_refusal(session_exists: bool) -> (r: Option<&'static str>)
    ensures
        r == if session_exists { None } else { Some(NOT_RUNNING_START_FIRST) },
{
    if session_exists {
        None
    } else {
        Some(NOT_RUNNING_START_FIRST)
    }
}

/// The message posted when a requested analysis failed with `error`.
pub fn analysis_error_message(error: &str) -> (r: String)
    ensures
        r@ == "⚠️ エラー: "@ + error@,
{
    concat2("⚠️ エラー: ", error)
}

/// The value given to a subcommand's first option.
pub enum OptionValue {
    Text(String),
    Integer(i64),
    /// Any other kind of value.
    Other,
}

/// The first option of a `/settings` invocation, as received.
pub struct SettingsInput {
    /// The option's name.
    pub name: String,
    /// Whether the option is a subcommand.
    pub is_subcommand: bool,
    /// The value of the subcommand's first option, if it has one.
    pub first_value: Option<OptionValue>,
}

/// What a `/settings` invocation does.
pub enum SettingsAction {
    /// Nothing: the input does not have the expected shape.
    Nothing,
    /// Reply with this text and change nothing.
    Reply(String),
    /// Store this mode, then reply with the text.
    SetMode(AnalysisMode, String),
    /// Store this interval in seconds, then confirm it.
    SetInterval(u64),
}

/// The reply when an interval is shorter than allowed.
pub open spec fn too_short_reply() -> Seq<char> {
    "❌ 間隔は最短60秒です。"@
}

/// The reply when an interval is longer than allowed.
pub open spec fn too_long_reply() -> Seq<char> {
    "❌ 間隔は最長3600秒です。"@
}

/// The reply once the mode is changed.
pub open spec fn mode_set_reply(m: AnalysisMode) -> Seq<char> {
    "✅ 分析モードを '"@ + mode_name(m) + "' に変更しました。"@
}

/// Whether `r` is what `/settings` does for a first option named `name`
/// (a subcommand when `is_subcommand`) whose first value is `value`.
pub open spec fn settles(name: Seq<char>, is_subcommand: bool, value: Option<OptionValue>, r: SettingsAction) -> bool {
    if name == "set_mode"@ {
        match (is_subcommand, value) {
            (true, Some(OptionValue::Text(s))) => match parse_mode(s@) {
                Some(m) => r matches SettingsAction::SetMode(m2, t) && m2 == m && t@ == mode_set_reply(m),
                None => r matches SettingsAction::Reply(t) && t@
                    == "❌ モードは 'debate' または 'summary' を指定してください。"@,
            },
            _ => r is Nothing,
        }
    } else if name == "set_interval"@ {
        match (is_subcommand, value) {
            (true, Some(OptionValue::Integer(x))) => if x < MIN_INTERVAL_SECS {
                r matches SettingsAction::Reply(t) && t@ == too_short_reply()
            } else if x > MAX_INTERVAL_SECS {
                r matches SettingsAction::Reply(t) && t@ == too_long_reply()
            } else {
                r == SettingsAction::SetInterval(x as u64)
            },
            _ => r is Nothing,
        }
    } else {
        r matches SettingsAction::Reply(t) && t@ == "不明なサブコマンドです。"@
    }
}

/// Decides what `/settings` does. `input` is its first option, `None` when it
/// has none. `set_mode` with a text value stores the mode it names (in any
/// case) or explains the choices; `set_interval` with an integer stores it
/// when it lies in 60..=3600 seconds and refuses it, saying which bound it
/// breaks, otherwise; any other subcommand is unknown.
pub fn settings_action(input: Option<&SettingsInput>) -> (r: SettingsAction)
    ensures
        input is None ==> (r matches SettingsAction::Reply(t) && t@ == "サブコマンドを指定してください。"@),
        input matches Some(i) ==> settles(i.name@, i.is_subcommand, i.first_value, r),
{
    proof {
        reveal_strlit("set_mode");
        reveal_strlit("set_interval");
        assert("set_mode"@.len() != "set_interval"@.len());
    }
    match input {
        None => SettingsAction::Reply(owned("サブコマンドを指定してください。")),
        Some(i) => {
            if str_eq(i.name.as_str(), "set_mode") {
                if !i.is_subcommand {
                    return SettingsAction::Nothing;
                }
                match &i.first_value {
                    Some(OptionValue::Text(s)) => match AnalysisMode::from_str(s.as_str()) {
                        Some(m) => SettingsAction::SetMode(
                            m,
                            concat3("✅ 分析モードを '", m.as_str(), "' に変更しました。"),
                        ),
                        None => SettingsAction::Reply(
                            owned("❌ モードは 'debate' または 'summary' を指定してください。"),
                        ),
                    },
                    _ => SettingsAction::Nothing,
                }
            } else if str_eq(i.name.as_str(), "set_interval") {
                if !i.is_subcommand {
                    return SettingsAction::Nothing;
                }
                match &i.first_value {
                    Some(OptionValue::Integer(x)) => {
                        let x: i64 = *x;
                        if x < MIN_INTERVAL_SECS {
                            SettingsAction::Reply(owned("❌ 間隔は最短60秒です。"))
                        } else if x > MAX_INTERVAL_SECS {
                            SettingsAction::Reply(owned("❌ 間隔は最長3600秒です。"))
                        } else {
                            SettingsAction::SetInterval(x as u64)
                        }
                    },
                    _ => SettingsAction::Nothing,
                }
            } else {
                SettingsAction::Reply(owned("不明なサブコマンドです。"))
            }
        },
    }
}

/// `/settings` only stores intervals from 60 to 3600 seconds, and only
/// `set_interval` stores one.
pub proof fn lemma_interval_at_least_minimum(
    name: Seq<char>,
    is_subcommand: bool,
    value: Option<OptionValue>,
    r: SettingsAction,
    seconds: u64,
)
    requires
        settles(name, is_subcommand, value, r),
        r == SettingsAction::SetInterval(seconds),
    ensures
        60 <= seconds <= 3600,
        name == "set_interval"@,
{
}

/// What could be learned about the bot's permissions in a voice channel.
pub enum PermissionProbe {
    /// The bot's member record could not be fetched.
    MemberUnavailable,
    /// The guild is not in the cache.
    GuildNotCached,
    /// The channel's permissions could not be computed.
    Unavailable,
    /// The bot's permissions in the channel.
    Granted { connect: bool, speak: bool, administrator: bool },
}

/// `true` or `false`, as shown.
pub open spec fn bool_text(b: bool) -> Seq<char> {
    if b { "true"@ } else { "false"@ }
}

fn bool_str(b: bool) -> (r: &'static str)
    ensures
        r@ == bool_text(b),
{
    if b { "true" } else { "false" }
}

/// The lines that describe a permission probe.
pub open spec fn probe_text(p: PermissionProbe) -> Seq<char> {
    match p {
        PermissionProbe::MemberUnavailable => "Could not fetch Bot Member from API.\n"@,
        PermissionProbe::GuildNotCached => "Guild not in cache.\n"@,
        PermissionProbe::Unavailable => "Could not calculate channel permissions (user_permissions_in failed).\n"@,
        PermissionProbe::Granted { connect, speak, administrator } => "Permissions in channel:\n"@
            + "  - CONNECT: "@ + bool_text(connect) + "\n"@
            + "  - SPEAK: "@ + bool_text(speak) + "\n"@
            + "  - ADMINISTRATOR: "@ + bool_text(administrator) + "\n"@,
    }
}

/// The debug report for `/analyze_debug`: the bot, the guild, and, when the
/// user is in a voice channel, that channel and the bot's permissions there;
/// set in a code block.
pub open spec fn debug_text(
    bot_name: Seq<char>,
    bot_id: u64,
    guild_id: u64,
    voice: Option<(u64, PermissionProbe)>,
) -> Seq<char> {
    "```\n"@ + "Debug Info:\nBot: "@ + bot_name + " ("@ + decimal(bot_id as nat) + ")\nGuild: "@ + decimal(
        guild_id as nat,
    ) + "\n"@ + voice_text(voice) + "\n```"@
}

fn probe_lines(probe: &PermissionProbe) -> (r: String)
    ensures
        r@ == probe_text(*probe),
{
    match probe {
        PermissionProbe::MemberUnavailable => owned("Could not fetch Bot Member from API.\n"),
        PermissionProbe::GuildNotCached => owned("Guild not in cache.\n"),
        PermissionProbe::Unavailable => owned(
            "Could not calculate channel permissions (user_permissions_in failed).\n",
        ),
        PermissionProbe::Granted { connect, speak, administrator } => {
            let mut s = owned("Permissions in channel:\n");
            s.append("  - CONNECT: ");
            s.append(bool_str(*connect));
            s.append("\n");
            s.append("  - SPEAK: ");
            s.append(bool_str(*speak));
            s.append("\n");
            s.append("  - ADMINISTRATOR: ");
            s.append(bool_str(*administrator));
            s.append("\n");
            assert(s@ =~= probe_text(*probe));
            s
        },
    }
}

/// The part of the debug report about the user's voice channel.
pub open spec fn voice_text(voice: Option<(u64, PermissionProbe)>) -> Seq<char> {
    match voice {
        Some((channel, probe)) => "Target Voice Channel: "@ + decimal(channel as nat) + "\n"@ + probe_text(
            probe,
        ),
        None => "User is NOT in a voice channel. Please join one.\n"@,
    }
}

fn voice_lines(voice: &Option<(u64, PermissionProbe)>) -> (r: String)
    ensures
        r@ == voice_text(*voice),
{
    match voice {
        Some((channel, probe)) => {
            let mut s = owned("Target Voice Channel: ");
            push_decimal(&mut s, *channel);
            s.append("\n");
            let p = probe_lines(probe);
            s.append(p.as_str());
            s
        },
        None => owned("User is NOT in a voice channel. Please join one.\n"),
    }
}

/// Builds the debug report for `/analyze_debug`.
pub fn debug_info(bot_name: &str, bot_id: u64, guild_id: u64, voice: Option<(u64, PermissionProbe)>) -> (r:
    String)
    ensures
        r@ == debug_text(bot_name@, bot_id, guild_id, voice),
{
    let mut s = owned("```\n");
    s.append("Debug Info:\nBot: ");
    s.append(bot_name);
    s.append(" (");
    push_decimal(&mut s, bot_id);
    s.append(")\nGuild: ");
    push_decimal(&mut s, guild_id);
    s.append("\n");
    let v = voice_lines(&voice);
    s.append(v.as_str());
    s.append("\n```");
    s
}

} // verus!
