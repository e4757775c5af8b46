use insight_bot::analyzer::prompts;
use insight_bot::mode::AnalysisMode;
use insight_bot::processor::AudioProcessor;
use insight_bot::recorder::UserRecorder;
use insight_bot::settings::{GuildSettings, DEFAULT_RECORDING_INTERVAL};
use std::path::Path;

#[test]
fn test_prompt_selection() {
    assert!(prompts::get_prompt(&AnalysisMode::Debate).contains("議論アナリスト"));
    assert!(prompts::get_prompt(&AnalysisMode::Summary).contains("会議の書記"));
}

#[test]
fn test_mime_types() {
    assert_eq!(AudioProcessor::get_mime_type("test.ogg"), "audio/ogg");
    assert_eq!(AudioProcessor::get_mime_type("test.opus"), "audio/ogg");
    assert_eq!(AudioProcessor::get_mime_type("test.mp3"), "audio/mp3");
}

#[test]
fn test_recorder_basic() {
    let mut recorder = UserRecorder::new("temp_audio");

    let user_id: u64 = 12345;
    recorder.add_pcm_samples(user_id, &[100, -100, 200, -200]);
    recorder.add_pcm_samples(user_id, &[300, -300, 400, -400]);

    assert!(recorder.has_data());
    assert_eq!(recorder.user_count(), 1);

    let files = recorder.flush_audio();
    assert_eq!(files.len(), 1);
    assert!(files.iter().any(|f| f.user_id == user_id));

    let file = files.iter().find(|f| f.user_id == user_id).unwrap();
    let path = Path::new(recorder.temp_dir()).join(&file.file_name);
    assert_eq!(path.extension().unwrap(), "wav");
}

#[test]
fn test_database_operations() {
    // Default settings
    let settings = GuildSettings::for_guild(12345, DEFAULT_RECORDING_INTERVAL);
    assert_eq!(settings.guild_id, 12345);
    assert_eq!(settings.analysis_mode, AnalysisMode::Debate);
    assert_eq!(settings.recording_interval, 300);

    // Update, store by name, read back
    let mut updated = settings.clone();
    updated.apply_update("analysis_mode", AnalysisMode::Summary.as_str());
    let settings = GuildSettings::from_stored(
        updated.guild_id,
        updated.api_key.clone(),
        updated.analysis_mode.as_str(),
        updated.recording_interval,
    );
    assert_eq!(settings.analysis_mode, AnalysisMode::Summary);
}
