use insight_bot::analyzer::{
    compose_parts, display_name, file_poll_step, file_timeout_error, file_url, generate_url,
    generation_failure, generation_result, plan_uploads, upload_failure, upload_url, AnalyzerError,
    ApiError, Candidate, Content, GenerateResponse, Part, PartRequest, UploadedAudio, DEFAULT_MODEL,
};
use insight_bot::analyzer::prompts::{get_prompt, DEBATE, SUMMARY};
use insight_bot::commands::{
    analysis_error_message, analyze_commands, debug_info, now_refusal, route_command,
    settings_action, settings_commands, start_refusal, start_reply, stop_refusal, CommandRoute,
    OptionValue, PermissionProbe, SettingsAction, SettingsInput, ValueKind, ALREADY_RUNNING,
    JOIN_VOICE_FIRST, NOT_RUNNING, NOT_RUNNING_START_FIRST,
};
use insight_bot::config::{Config, ConfigError};
use insight_bot::mode::AnalysisMode;
use insight_bot::number::parse_u64;
use insight_bot::processor::{AudioProcessor, ProcessorError};
use insight_bot::recorder::{saved_or_no_data, RecorderError, SpeakerVoice, UserAudioBuffer, UserRecorder};
use insight_bot::session::{
    analysis_loop_step, analyzing_message, next_context, plan_report_messages, report_header,
    report_text, report_titles_at, split_bytes, starter_text, stop_steps, thread_name, analysis_steps,
    AnalysisStep, FlushOutcome, LoopAction, LoopStage, ReportMessages, StopStep,
};
use insight_bot::settings::GuildSettings;
use insight_bot::text::{contains_text, decimal_string};
use insight_bot::wav::encode_wav;
use std::collections::HashMap;

// ---- analysis modes ----

#[test]
fn mode_names_round_trip() {
    for m in [AnalysisMode::Debate, AnalysisMode::Summary] {
        assert_eq!(AnalysisMode::from_str(m.as_str()), Some(m));
    }
    assert_eq!(AnalysisMode::Debate.as_str(), "debate");
    assert_eq!(AnalysisMode::Summary.as_str(), "summary");
}

#[test]
fn mode_parsing_ignores_case_and_rejects_others() {
    assert_eq!(AnalysisMode::from_str("DEBATE"), Some(AnalysisMode::Debate));
    assert_eq!(AnalysisMode::from_str("SuMmArY"), Some(AnalysisMode::Summary));
    assert_eq!(AnalysisMode::from_str("debates"), None);
    assert_eq!(AnalysisMode::from_str(""), None);
    assert_eq!(AnalysisMode::from_str(" debate"), None);
    assert_eq!(AnalysisMode::default(), AnalysisMode::Debate);
}

#[test]
fn prompts_are_selected_by_mode() {
    assert_eq!(get_prompt(&AnalysisMode::Debate), DEBATE);
    assert_eq!(get_prompt(&AnalysisMode::Summary), SUMMARY);
}

// ---- numbers ----

#[test]
fn parse_u64_follows_std_parsing() {
    let cases = ["0", "42", "+42", "007", "", "+", "-1", "4 2", "18446744073709551615",
        "18446744073709551616", "99999999999999999999", "x1", "1x"];
    for c in cases {
        assert_eq!(parse_u64(c), c.parse::<u64>().ok(), "input {:?}", c);
    }
}

#[test]
fn decimal_text_parses_back() {
    for n in [0u64, 7, 10, 300, 3600, 1234567890, u64::MAX] {
        let s = decimal_string(n);
        assert_eq!(s, n.to_string());
        assert_eq!(parse_u64(&s), Some(n));
    }
}

#[test]
fn contains_text_finds_runs() {
    assert!(contains_text("error: Quota exceeded for x", "Quota exceeded"));
    assert!(!contains_text("quota exceeded", "Quota exceeded"));
    assert!(contains_text("abc", ""));
    assert!(!contains_text("", "a"));
}

// ---- guild settings ----

#[test]
fn guild_settings_defaults() {
    let d = GuildSettings::default();
    assert_eq!(d.guild_id, 0);
    assert_eq!(d.api_key, None);
    assert_eq!(d.analysis_mode, AnalysisMode::Debate);
    assert_eq!(d.recording_interval, 300);
    let s = GuildSettings::for_guild(12345, 300);
    assert_eq!(s.guild_id, 12345);
    assert_eq!(s.analysis_mode, AnalysisMode::Debate);
    assert_eq!(s.recording_interval, 300);
}

#[test]
fn unset_guild_takes_configured_interval() {
    let c = Config::from_vars(Some("t"), Some("k"), None, None, Some("90")).unwrap();
    let s = GuildSettings::for_guild(7, c.default_recording_interval);
    assert_eq!(s.guild_id, 7);
    assert_eq!(s.api_key, None);
    assert_eq!(s.analysis_mode, AnalysisMode::Debate);
    assert_eq!(s.recording_interval, 90);
}

#[test]
fn guild_settings_updates() {
    let mut s = GuildSettings::for_guild(12345, 300);
    s.apply_update("analysis_mode", AnalysisMode::Summary.as_str());
    assert_eq!(s.analysis_mode, AnalysisMode::Summary);
    s.apply_update("analysis_mode", "chess");
    assert_eq!(s.analysis_mode, AnalysisMode::Summary);
    s.apply_update("recording_interval", &900u64.to_string());
    assert_eq!(s.recording_interval, 900);
    s.apply_update("recording_interval", "soon");
    assert_eq!(s.recording_interval, 900);
    s.apply_update("api_key", "k-1");
    assert_eq!(s.api_key.as_deref(), Some("k-1"));
    s.apply_update("colour", "blue");
    assert_eq!(s.guild_id, 12345);
    assert_eq!(s.api_key.as_deref(), Some("k-1"));
    assert_eq!(s.analysis_mode, AnalysisMode::Summary);
    assert_eq!(s.recording_interval, 900);
}

#[test]
fn stored_settings_round_trip() {
    let s = GuildSettings::from_stored(7, Some("key".to_string()), AnalysisMode::Summary.as_str(), 120);
    assert_eq!(s.guild_id, 7);
    assert_eq!(s.api_key.as_deref(), Some("key"));
    assert_eq!(s.analysis_mode, AnalysisMode::Summary);
    assert_eq!(s.recording_interval, 120);
    let t = GuildSettings::from_stored(7, None, "unknown", 60);
    assert_eq!(t.analysis_mode, AnalysisMode::Debate);
}

// ---- configuration ----

#[test]
fn config_requires_token_then_key() {
    match Config::from_vars(None, None, None, None, None) {
        Err(ConfigError::MissingEnvVar(n)) => assert_eq!(n, "DISCORD_TOKEN"),
        _ => panic!("expected a missing token"),
    }
    match Config::from_vars(Some("t"), None, None, None, None) {
        Err(ConfigError::MissingEnvVar(n)) => assert_eq!(n, "GEMINI_API_KEY"),
        _ => panic!("expected a missing key"),
    }
}

#[test]
fn config_rejects_bad_guild_id() {
    match Config::from_vars(Some("t"), Some("k"), Some("abc"), None, None) {
        Err(e) => {
            assert!(matches!(&e, ConfigError::InvalidValue(n, v) if n == "GUILD_ID" && v == "abc"));
            assert_eq!(e.message(), "Invalid value for GUILD_ID: abc");
        }
        _ => panic!("expected an invalid guild id"),
    }
}

#[test]
fn config_defaults_and_values() {
    let c = Config::from_vars(Some("t"), Some("k"), Some(""), None, Some("soon")).ok().unwrap();
    assert_eq!(c.discord_token, "t");
    assert_eq!(c.gemini_api_key, "k");
    assert_eq!(c.guild_id, None);
    assert_eq!(c.sample_rate, 48000);
    assert_eq!(c.channels, 2);
    assert_eq!(c.temp_audio_dir, "temp_audio");
    assert_eq!(c.default_recording_interval, 300);
    let c = Config::from_vars(Some("t"), Some("k"), Some("42"), Some("/tmp/a"), Some("90")).ok().unwrap();
    assert_eq!(c.guild_id, Some(42));
    assert_eq!(c.temp_audio_dir, "/tmp/a");
    assert_eq!(c.default_recording_interval, 90);
    assert_eq!(ConfigError::MissingEnvVar("X".to_string()).message(),
        "Missing required environment variable: X");
}

// ---- WAV encoding ----

#[test]
fn wav_header_layout() {
    let w = encode_wav(&[1, -2]);
    assert_eq!(w.len(), 48);
    assert_eq!(&w[0..4], b"RIFF");
    assert_eq!(&w[4..8], &40u32.to_le_bytes());
    assert_eq!(&w[8..16], b"WAVEfmt ");
    assert_eq!(&w[16..20], &16u32.to_le_bytes());
    assert_eq!(&w[20..22], &1u16.to_le_bytes());
    assert_eq!(&w[22..24], &1u16.to_le_bytes());
    assert_eq!(&w[24..28], &16000u32.to_le_bytes());
    assert_eq!(&w[28..32], &32000u32.to_le_bytes());
    assert_eq!(&w[32..34], &2u16.to_le_bytes());
    assert_eq!(&w[34..36], &16u16.to_le_bytes());
    assert_eq!(&w[36..40], b"data");
    assert_eq!(&w[40..44], &4u32.to_le_bytes());
    assert_eq!(&w[44..48], &[1, 0, 0xfe, 0xff]);
}

#[test]
fn wav_samples_read_back() {
    let samples: Vec<i16> = vec![0, 1, -1, i16::MAX, i16::MIN, 12345, -300];
    let w = encode_wav(&samples);
    assert_eq!(w.len(), 44 + 2 * samples.len());
    for (i, s) in samples.iter().enumerate() {
        let b = [w[44 + 2 * i], w[45 + 2 * i]];
        assert_eq!(i16::from_le_bytes(b), *s);
    }
    let empty = encode_wav(&[]);
    assert_eq!(empty.len(), 44);
    assert_eq!(&empty[4..8], &36u32.to_le_bytes());
}

// ---- recording ----

#[test]
fn audio_buffer_operations() {
    let mut b = UserAudioBuffer::new();
    assert!(b.is_empty());
    b.add_samples(&[1, 2]);
    b.add_samples(&[3]);
    assert!(!b.is_empty());
    assert_eq!(b.take_samples(), vec![1, 2, 3]);
    assert!(b.is_empty());
}

#[test]
fn recorder_flush_returns_each_users_samples() {
    let mut r = UserRecorder::with_timestamp("dir", 1000);
    r.add_pcm_samples(5, &[1, 2]);
    r.add_pcm_samples(6, &[]);
    r.add_pcm_samples(7, &[9]);
    r.add_pcm_samples(5, &[3]);
    assert_eq!(r.user_count(), 2);
    assert!(r.has_data());
    let mut files = r.flush_at_for_test(2000);
    files.sort_by_key(|f| f.user_id);
    assert_eq!(files.len(), 2);
    assert_eq!(files[0].user_id, 5);
    assert_eq!(files[0].file_name, "1000_5_2000.wav");
    assert_eq!(files[0].wav, encode_wav(&[1, 2, 3]));
    assert_eq!(files[1].file_name, "1000_7_2000.wav");
    assert_eq!(files[1].wav, encode_wav(&[9]));
    assert!(!r.has_data());
    assert_eq!(r.user_count(), 0);
    assert!(r.flush_audio().is_empty());
}

trait FlushAt {
    fn flush_at_for_test(&mut self, t: u64) -> Vec<insight_bot::recorder::PendingAudio>;
}

impl FlushAt for UserRecorder {
    fn flush_at_for_test(&mut self, t: u64) -> Vec<insight_bot::recorder::PendingAudio> {
        self.flush_audio_at(t)
    }
}

#[test]
fn recorder_voice_tick_and_clear() {
    let mut r = UserRecorder::with_timestamp("dir", 1);
    let tick = vec![
        SpeakerVoice { ssrc: 11, decoded_voice: Some(vec![4, 5]) },
        SpeakerVoice { ssrc: 12, decoded_voice: None },
        SpeakerVoice { ssrc: 13, decoded_voice: Some(vec![]) },
    ];
    r.process_voice_tick(&tick);
    assert_eq!(r.user_count(), 1);
    r.clear();
    assert!(!r.has_data());
    assert_eq!(r.user_count(), 0);
    assert_eq!(r.session_timestamp(), 1);
    assert_eq!(r.temp_dir(), "dir");
}

#[test]
fn nothing_saved_is_no_data() {
    assert!(matches!(saved_or_no_data::<u8>(vec![]), Err(RecorderError::NoData)));
    assert_eq!(saved_or_no_data(vec![1u8, 2]).ok(), Some(vec![1, 2]));
}

// ---- audio files ----

#[test]
fn mime_types_by_extension() {
    assert_eq!(AudioProcessor::get_mime_type("a.wav"), "audio/wav");
    assert_eq!(AudioProcessor::get_mime_type("dir/a.flac"), "audio/flac");
    assert_eq!(AudioProcessor::get_mime_type("a.pcm"), "audio/pcm");
    assert_eq!(AudioProcessor::get_mime_type("a.txt"), "audio/ogg");
    assert_eq!(AudioProcessor::get_mime_type("noext"), "audio/ogg");
    assert_eq!(AudioProcessor::get_mime_type(".ogg"), "audio/ogg");
    assert_eq!(AudioProcessor::mime_type_for_extension(Some("mp3")), "audio/mp3");
    assert_eq!(AudioProcessor::mime_type_for_extension(None), "audio/ogg");
}

#[test]
fn opus_needs_conversion() {
    assert!(AudioProcessor::needs_conversion("x.opus"));
    assert!(!AudioProcessor::needs_conversion("x.ogg"));
    assert!(!AudioProcessor::needs_conversion("opus"));
}

#[test]
fn prepare_for_upload_requires_file() {
    assert_eq!(AudioProcessor::prepare_for_upload("a.wav", true).ok(), Some("a.wav".to_string()));
    match AudioProcessor::prepare_for_upload("a.wav", false) {
        Err(ProcessorError::NotFound(p)) => assert_eq!(p, "a.wav"),
        _ => panic!("expected NotFound"),
    }
}

// ---- analysis requests ----

#[test]
fn display_names_fall_back_to_ids() {
    assert_eq!(display_name(Some("Ann"), 3), "Ann");
    assert_eq!(display_name(None, 42), "User_42");
}

#[test]
fn upload_plan() {
    assert!(matches!(plan_uploads(&vec![], &HashMap::new()), Err(AnalyzerError::NoAudioFiles)));
    let mut names = HashMap::new();
    names.insert(1u64, "Ann".to_string());
    let files = vec![(1u64, "t/1.wav".to_string()), (2u64, "t/2.opus".to_string())];
    let plan = plan_uploads(&files, &names).ok().unwrap();
    assert_eq!(plan.len(), 2);
    assert_eq!(plan[0].speaker, "Ann");
    assert_eq!(plan[0].mime_type, "audio/wav");
    assert_eq!(plan[1].speaker, "User_2");
    assert_eq!(plan[1].mime_type, "audio/ogg");
    assert_eq!(plan[1].path, "t/2.opus");
}

fn part_texts(parts: &[PartRequest]) -> Vec<String> {
    parts.iter().map(|p| match p {
        PartRequest::Text { text } => text.clone(),
        PartRequest::FileData { file_data } => format!("<{}|{}>", file_data.file_uri, file_data.mime_type),
    }).collect()
}

#[test]
fn request_parts_order() {
    assert!(matches!(compose_parts(AnalysisMode::Debate, "", &vec![]), Err(AnalyzerError::NoAudioFiles)));
    let up = vec![UploadedAudio {
        speaker: "Ann".to_string(),
        file_uri: "u1".to_string(),
        mime_type: "audio/wav".to_string(),
    }];
    let p = compose_parts(AnalysisMode::Summary, "", &up).ok().unwrap();
    assert_eq!(part_texts(&p), vec![SUMMARY.to_string(), "発言者: Ann".to_string(), "<u1|audio/wav>".to_string()]);
    let p = compose_parts(AnalysisMode::Debate, "before", &up).ok().unwrap();
    assert_eq!(part_texts(&p)[1], "前回の文脈:\nbefore\n---\n今回の議論:");
    assert_eq!(p.len(), 4);
}

#[test]
fn api_urls() {
    assert_eq!(upload_url("K"), "https://generativelanguage.googleapis.com/upload/v1beta/files?key=K");
    assert_eq!(file_url("files/abc", "K"),
        "https://generativelanguage.googleapis.com/v1beta/files/files/abc?key=K");
    assert_eq!(generate_url(DEFAULT_MODEL, "K"),
        "https://generativelanguage.googleapis.com/v1beta/models/gemini-2.0-flash:generateContent?key=K");
}

#[test]
fn file_polling_decisions() {
    assert_eq!(file_poll_step(Some("ACTIVE")).ok(), Some(true));
    assert_eq!(file_poll_step(Some("PROCESSING")).ok(), Some(false));
    assert_eq!(file_poll_step(None).ok(), Some(false));
    match file_poll_step(Some("FAILED")) {
        Err(e) => assert_eq!(e.message(), "API error: File processing failed"),
        _ => panic!("expected failure"),
    }
    assert_eq!(file_timeout_error().message(), "API error: File processing timeout");
    assert_eq!(upload_failure("400 Bad Request").message(), "API error: Upload failed: 400 Bad Request");
}

#[test]
fn generation_failures() {
    assert!(matches!(generation_failure(429, "429 Too Many Requests", ""), AnalyzerError::RateLimitExceeded));
    assert!(matches!(generation_failure(403, "403 Forbidden", "x Quota exceeded y"),
        AnalyzerError::RateLimitExceeded));
    match generation_failure(500, "500 Internal Server Error", "boom") {
        AnalyzerError::Api(m) => assert_eq!(m, "Generation failed: 500 Internal Server Error - boom"),
        _ => panic!("expected an API error"),
    }
}

#[test]
fn generation_results() {
    let ok = GenerateResponse {
        candidates: Some(vec![Candidate { content: Content { parts: vec![
            Part { text: Some("report".to_string()) }, Part { text: Some("more".to_string()) }] } }]),
        error: None,
    };
    assert_eq!(generation_result(ok).ok(), Some("report".to_string()));
    let empty = GenerateResponse { candidates: Some(vec![]), error: None };
    assert_eq!(generation_result(empty).ok(), Some("分析結果を取得できませんでした。".to_string()));
    let no_text = GenerateResponse {
        candidates: Some(vec![Candidate { content: Content { parts: vec![Part { text: None }] } }]),
        error: None,
    };
    assert_eq!(generation_result(no_text).ok(), Some("分析結果を取得できませんでした。".to_string()));
    let err = GenerateResponse { candidates: None, error: Some(ApiError { code: 400, message: "bad".to_string() }) };
    assert!(matches!(generation_result(err), Err(AnalyzerError::Api(m)) if m == "bad"));
}

#[test]
fn analyzer_error_messages() {
    assert_eq!(AnalyzerError::NoAudioFiles.message(), "No audio files provided");
    assert_eq!(AnalyzerError::RateLimitExceeded.message(), "Rate limit exceeded");
    assert_eq!(AnalyzerError::Http("x".to_string()).message(), "HTTP request failed: x");
    assert_eq!(AnalyzerError::Io("y".to_string()).message(), "IO error: y");
}

// ---- reporting ----

#[test]
fn report_texts() {
    assert_eq!(report_text(Ok("r".to_string())), "r");
    assert_eq!(report_text(Err(AnalyzerError::RateLimitExceeded)),
        "⚠️ 分析のリクエスト制限（Quota Limit）に達しました。");
    assert_eq!(report_text(Err(AnalyzerError::NoAudioFiles)),
        "分析中にエラーが発生しました: No audio files provided");
    assert_eq!(report_header(true), "🏁 **最終分析レポート**\n");
    assert_eq!(report_header(false), "📊 **議論分析レポート**\n");
    assert_eq!(starter_text(true, "T"), "🛑 **セッション終了** (T)");
    assert_eq!(starter_text(false, "T"), "📅 **自動分析** (T)");
    assert_eq!(thread_name(true, "T"), "議論分析レポート (最終) T");
    assert_eq!(thread_name(false, "T"), "議論分析レポート T");
    assert_eq!(analyzing_message(AnalysisMode::Summary), "🔄 音声ファイルを分析中... (Mode: summary)");
}

#[test]
fn context_keeps_last_2000_bytes() {
    assert_eq!(next_context("short"), "short");
    let long: String = "a".repeat(1500) + &"b".repeat(1500);
    let c = next_context(&long);
    assert_eq!(c.len(), 2000);
    assert_eq!(c, "a".repeat(500) + &"b".repeat(1500));
    let exact = "x".repeat(2000);
    assert_eq!(next_context(&exact), exact);
}

#[test]
fn pieces_join_back() {
    let bytes: Vec<u8> = (0..4000u32).map(|i| (i % 251) as u8).collect();
    let pieces = split_bytes(&bytes, 1900);
    assert_eq!(pieces.len(), 3);
    assert_eq!(pieces[0].len(), 1900);
    assert_eq!(pieces[1].len(), 1900);
    assert_eq!(pieces[2].len(), 200);
    assert_eq!(pieces.concat(), bytes);
    assert!(split_bytes(&[], 1900).is_empty());
    assert_eq!(split_bytes(&[1, 2, 3], 3), vec![vec![1, 2, 3]]);
}

#[test]
fn report_message_plan() {
    match plan_report_messages("H\n", "body") {
        ReportMessages::Single(m) => assert_eq!(m, "H\nbody"),
        _ => panic!("expected one message"),
    }
    let report = "z".repeat(1998);
    match plan_report_messages("H\n", &report) {
        ReportMessages::Split { header, pieces } => {
            assert_eq!(header, "H\n");
            assert_eq!(pieces.len(), 2);
            assert_eq!(pieces.concat(), report);
            assert_eq!(pieces[0].len(), 1900);
        }
        _ => panic!("expected pieces"),
    }
}

#[test]
fn analysis_loop_alternates() {
    let (s, a) = analysis_loop_step(LoopStage::Idle, true, 300);
    assert_eq!((s, a), (LoopStage::Waited, LoopAction::Sleep(300)));
    let (s, a) = analysis_loop_step(s, true, 300);
    assert_eq!((s, a), (LoopStage::Idle, LoopAction::Analyze));
    assert_eq!(analysis_loop_step(LoopStage::Waited, false, 300).1, LoopAction::Stop);
    assert_eq!(analysis_loop_step(LoopStage::Idle, false, 300).1, LoopAction::Stop);
}

// ---- commands ----

#[test]
fn command_definitions() {
    let a = analyze_commands();
    let names: Vec<&str> = a.iter().map(|c| c.name).collect();
    assert_eq!(names, vec!["analyze_start", "analyze_stop", "analyze_now", "analyze_debug"]);
    let s = settings_commands();
    assert_eq!(s.len(), 1);
    assert_eq!(s[0].name, "settings");
    assert_eq!(s[0].subcommands[0].name, "set_mode");
    assert!(matches!(&s[0].subcommands[0].option.kind, ValueKind::Text { choices } if choices == &vec!["debate", "summary"]));
    assert!(matches!(s[0].subcommands[1].option.kind, ValueKind::Integer { min: 60, max: 3600 }));
}

#[test]
fn command_routing() {
    assert_eq!(route_command("analyze_start"), CommandRoute::Start);
    assert_eq!(route_command("analyze_stop"), CommandRoute::Stop);
    assert_eq!(route_command("analyze_now"), CommandRoute::Now);
    assert_eq!(route_command("settings"), CommandRoute::Settings);
    assert_eq!(route_command("analyze_debug"), CommandRoute::Debug);
    assert_eq!(route_command("other"), CommandRoute::Ignore);
}

#[test]
fn command_gates() {
    assert_eq!(start_refusal(false, true), Some(JOIN_VOICE_FIRST));
    assert_eq!(start_refusal(true, true), Some(ALREADY_RUNNING));
    assert_eq!(start_refusal(true, false), None);
    assert_eq!(stop_refusal(false), Some(NOT_RUNNING));
    assert_eq!(stop_refusal(true), None);
    assert_eq!(now_refusal(false), Some(NOT_RUNNING_START_FIRST));
    assert_eq!(now_refusal(true), None);
    assert!(start_reply(Some("VC")).starts_with("VC の分析を開始しました。"));
    assert!(start_reply(None).starts_with("Unknown の"));
    assert_eq!(analysis_error_message("x"), "⚠️ エラー: x");
}

fn input(name: &str, is_subcommand: bool, v: Option<OptionValue>) -> SettingsInput {
    SettingsInput { name: name.to_string(), is_subcommand, first_value: v }
}

#[test]
fn settings_command_decisions() {
    assert!(matches!(settings_action(None), SettingsAction::Reply(t) if t == "サブコマンドを指定してください。"));
    let i = input("set_mode", true, Some(OptionValue::Text("Summary".to_string())));
    assert!(matches!(settings_action(Some(&i)),
        SettingsAction::SetMode(AnalysisMode::Summary, t) if t == "✅ 分析モードを 'summary' に変更しました。"));
    let i = input("set_mode", true, Some(OptionValue::Text("chess".to_string())));
    assert!(matches!(settings_action(Some(&i)), SettingsAction::Reply(t) if t.starts_with("❌ モードは")));
    let i = input("set_mode", true, Some(OptionValue::Integer(1)));
    assert!(matches!(settings_action(Some(&i)), SettingsAction::Nothing));
    let i = input("set_interval", true, Some(OptionValue::Integer(59)));
    assert!(matches!(settings_action(Some(&i)), SettingsAction::Reply(t) if t == "❌ 間隔は最短60秒です。"));
    let i = input("set_interval", true, Some(OptionValue::Integer(60)));
    assert!(matches!(settings_action(Some(&i)), SettingsAction::SetInterval(60)));
    let i = input("set_interval", true, Some(OptionValue::Integer(3600)));
    assert!(matches!(settings_action(Some(&i)), SettingsAction::SetInterval(3600)));
    let i = input("set_interval", true, Some(OptionValue::Integer(3601)));
    assert!(matches!(settings_action(Some(&i)), SettingsAction::Reply(t) if t == "❌ 間隔は最長3600秒です。"));
    let i = input("set_interval", true, Some(OptionValue::Integer(-1)));
    assert!(matches!(settings_action(Some(&i)), SettingsAction::Reply(t) if t == "❌ 間隔は最短60秒です。"));
    let i = input("set_interval", true, Some(OptionValue::Integer(i64::MIN)));
    assert!(matches!(settings_action(Some(&i)), SettingsAction::Reply(t) if t == "❌ 間隔は最短60秒です。"));
    let i = input("set_interval", false, Some(OptionValue::Integer(90)));
    assert!(matches!(settings_action(Some(&i)), SettingsAction::Nothing));
    let i = input("reset", true, None);
    assert!(matches!(settings_action(Some(&i)), SettingsAction::Reply(t) if t == "不明なサブコマンドです。"));
}

#[test]
fn debug_report_text() {
    let t = debug_info("bot", 1, 2, None);
    assert_eq!(t, "```\nDebug Info:\nBot: bot (1)\nGuild: 2\nUser is NOT in a voice channel. Please join one.\n\n```");
    let t = debug_info("bot", 1, 2, Some((3, PermissionProbe::Granted { connect: true, speak: false, administrator: true })));
    assert_eq!(t, "```\nDebug Info:\nBot: bot (1)\nGuild: 2\nTarget Voice Channel: 3\nPermissions in channel:\n  - CONNECT: true\n  - SPEAK: false\n  - ADMINISTRATOR: true\n\n```");
    let t = debug_info("b", 1, 2, Some((3, PermissionProbe::GuildNotCached)));
    assert!(t.ends_with("Target Voice Channel: 3\nGuild not in cache.\n\n```"));
}

#[test]
fn split_multibyte_report_is_read_lossily() {
    let report = "あ".repeat(700);
    match plan_report_messages("H\n", &report) {
        ReportMessages::Split { pieces, .. } => {
            assert_eq!(pieces.len(), 2);
            assert_eq!(pieces[0], String::from_utf8_lossy(&report.as_bytes()[..1900]));
            assert!(pieces[0].ends_with('\u{FFFD}'));
        }
        _ => panic!("expected pieces"),
    }
}

#[test]
fn report_titles_share_one_stamp() {
    let t = report_titles_at(true, 0).unwrap();
    assert_eq!(t.starter, "🛑 **セッション終了** (1970-01-01 00:00)");
    assert_eq!(t.thread, "議論分析レポート (最終) 1970-01-01 00:00");
    let t = report_titles_at(false, 1431648000 + 3600 + 120).unwrap();
    assert_eq!(t.starter, "📅 **自動分析** (2015-05-15 01:02)");
    assert_eq!(t.thread, "議論分析レポート 2015-05-15 01:02");
    assert!(report_titles_at(false, i64::MAX).is_none());
}

#[test]
fn analysis_run_steps() {
    assert_eq!(analysis_steps(FlushOutcome::Failed), vec![AnalysisStep::ReturnError]);
    assert!(analysis_steps(FlushOutcome::Empty).is_empty());
    assert_eq!(analysis_steps(FlushOutcome::Files), vec![
        AnalysisStep::OpenThread,
        AnalysisStep::PostAnalyzing,
        AnalysisStep::Analyze,
        AnalysisStep::UpdateContext,
        AnalysisStep::PostReport,
        AnalysisStep::RemoveFiles,
    ]);
}

#[test]
fn split_report_on_character_boundaries_joins_back() {
    let report = "abcd".repeat(1000);
    match plan_report_messages("H\n", &report) {
        ReportMessages::Split { header, pieces } => {
            assert_eq!(header, "H\n");
            assert_eq!(pieces.len(), 3);
            assert!(pieces.iter().all(|p| p.len() <= 1900 && !p.is_empty()));
            assert_eq!(pieces.concat(), report);
        }
        _ => panic!("expected pieces"),
    }
}

#[test]
fn stopping_always_leaves() {
    assert_eq!(stop_steps(true), vec![StopStep::StopSession, StopStep::LeaveVoice, StopStep::AnnounceStopped]);
    assert_eq!(stop_steps(false),
        vec![StopStep::StopSession, StopStep::LeaveVoice, StopStep::AnnounceStopped, StopStep::ReturnError]);
}

#[test]
fn from_str_matches_lowercase_name() {
    for s in ["Debate", "SUMMARY", "x", "débat"] {
        if let Some(m) = AnalysisMode::from_str(s) {
            assert_eq!(m.as_str(), s.to_lowercase());
        } else {
            assert!(s.to_lowercase() != "debate" && s.to_lowercase() != "summary");
        }
    }
}

#[test]
fn active_loop_waits_then_analyses() {
    let mut stage = LoopStage::Idle;
    let mut actions = Vec::new();
    for _ in 0..4 {
        let (next, action) = analysis_loop_step(stage, true, 120);
        stage = next;
        actions.push(action);
    }
    assert_eq!(actions, vec![LoopAction::Sleep(120), LoopAction::Analyze, LoopAction::Sleep(120), LoopAction::Analyze]);
}
