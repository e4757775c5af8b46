use vstd::prelude::*;
use std::collections::HashMap;
use crate::mode::AnalysisMode;
use crate::processor::{AudioProcessor, extension_of, mime_type_for};
use crate::text::{decimal, push_decimal, owned, concat2, concat3, contains_text, occurs_in, str_eq};

pub mod prompts;

use prompts::{get_prompt, prompt_for};

verus! {

broadcast use vstd::std_specs::hash::group_hash_axioms;

/// Base URL of the generative language API.
pub const GEMINI_API_BASE: &'static str = "https://generativelanguage.googleapis.com/v1beta";
/// Base URL for file uploads.
pub const GEMINI_UPLOAD_BASE: &'static str = "https://generativelanguage.googleapis.com/upload/v1beta";
/// The model used for analysis.
pub const DEFAULT_MODEL: &'static str = "gemini-2.0-flash";
/// How many times an uploaded file's state is checked before giving up.
pub const FILE_POLL_ATTEMPTS: u32 = 30;

/// Why an analysis failed.
#[derive(Debug)]
pub enum AnalyzerError {
    /// The HTTP request failed; the text describes the failure.
    Http(String),
    /// Reading a file failed; the text describes the failure.
    Io(String),
    /// The API answered with an error.
    Api(String),
    /// There was no audio to analyse.
    NoAudioFiles,
    /// The API's request quota is used up.
    RateLimitExceeded,
}

/// The text shown for an analysis error.
pub open spec fn error_text(e: AnalyzerError) -> Seq<char> {
    match e {
        AnalyzerError::Http(m) => "HTTP request failed: "@ + m@,
        AnalyzerError::Io(m) => "IO error: "@ + m@,
        AnalyzerError::Api(m) => "API error: "@ + m@,
        AnalyzerError::NoAudioFiles => "No audio files provided"@,
        AnalyzerError::RateLimitExceeded => "Rate limit exceeded"@,
    }
}

impl AnalyzerError {
    /// The text shown for this error.
    pub fn message(&self) -> (r: String)
        ensures
            r@ == error_text(*self),
    {
        match self {
            AnalyzerError::Http(m) => concat2("HTTP request failed: ", m.as_str()),
            AnalyzerError::Io(m) => concat2("IO error: ", m.as_str()),
            AnalyzerError::Api(m) => concat2("API error: ", m.as_str()),
            AnalyzerError::NoAudioFiles => owned("No audio files provided"),
            AnalyzerError::RateLimitExceeded => owned("Rate limit exceeded"),
        }
    }
}

/// The name shown for a user: the known name, else `User_<id>`.
pub open spec fn user_label(known: Option<Seq<char>>, user_id: u64) -> Seq<char> {
    match known {
        Some(n) => n,
        None => "User_"@ + decimal(user_id as nat),
    }
}

/// The known name of a user in a name map.
pub open spec fn known_name(names: Map<u64, String>, user_id: u64) -> Option<Seq<char>> {
    if names.contains_key(user_id) {
        Some(names[user_id]@)
    } else {
        None
    }
}

/// The name shown for `user_id`: `known`, or `User_<id>` when no name is known.
pub fn display_name(known: Option<&str>, user_id: u64) -> (r: String)
    ensures
        r@ == user_label(
            match known {
                Some(n) => Some(n@),
                None => None,
            },
            user_id,
        ),
{
    match known {
        Some(n) => owned(n),
        None => {
            let mut s = owned("User_");
            push_decimal(&mut s, user_id);
            s
        },
    }
}

/// One audio file to upload, with what is announced for it.
pub struct UploadTask {
    pub user_id: u64,
    pub path: String,
    /// The speaker's display name.
    pub speaker: String,
    pub mime_type: &'static str,
}

/// Plans the uploads for a set of per-user audio files: each file keeps its
/// user and path, gains its speaker's display name (from `user_map`, else
/// `User_<id>`) and the MIME type of its extension. No files is an error.
pub fn plan_uploads(audio_files: &Vec<(u64, String)>, user_map: &HashMap<u64, String>) -> (r: Result<
    Vec<UploadTask>,
    AnalyzerError,
>)
    ensures
        audio_files@.len() == 0 ==> r matches Err(AnalyzerError::NoAudioFiles),
        audio_files@.len() > 0 ==> (r matches Ok(tasks) && {
            &&& tasks@.len() == audio_files@.len()
            &&& forall|i: int| 0 <= i < tasks@.len() ==> {
                let t = #[trigger] tasks@[i];
                let f = audio_files@[i];
                &&& t.user_id == f.0
                &&& t.path@ == f.1@
                &&& t.speaker@ == user_label(known_name(user_map@, f.0), f.0)
                &&& t.mime_type@ == mime_type_for(extension_of(f.1@))
            }
        }),
{
    if audio_files.len() == 0 {
        return Err(AnalyzerError::NoAudioFiles);
    }
    let mut tasks: Vec<UploadTask> = Vec::new();
    let mut i: usize = 0;
    while i < audio_files.len()
        invariant
            i <= audio_files@.len(),
            tasks@.len() == i,
            forall|j: int| 0 <= j < i ==> {
                let t = #[trigger] tasks@[j];
                let f = audio_files@[j];
                &&& t.user_id == f.0
                &&& t.path@ == f.1@
                &&& t.speaker@ == user_label(known_name(user_map@, f.0), f.0)
                &&& t.mime_type@ == mime_type_for(extension_of(f.1@))
            },
        decreases audio_files.len() - i,
    {
        let uid = audio_files[i].0;
        let path = audio_files[i].1.as_str();
        let speaker = match user_map.get(&uid) {
            Some(n) => display_name(Some(n.as_str()), uid),
            None => display_name(None, uid),
        };
        let mime_type = AudioProcessor::get_mime_type(path);
        tasks.push(UploadTask { user_id: uid, path: owned(path), speaker, mime_type });
        i = i + 1;
    }
    Ok(tasks)
}

/// A file the API accepted, with its speaker.
pub struct UploadedAudio {
    pub speaker: String,
    pub file_uri: String,
    pub mime_type: String,
}

/// A reference to an uploaded file inside a request.
pub struct FileData {
    pub file_uri: String,
    pub mime_type: String,
}

/// One part of a generation request: text, or an uploaded file.
pub enum PartRequest {
    Text { text: String },
    FileData { file_data: FileData },
}

/// The abstract value of a request part.
pub enum PartView {
    Text(Seq<char>),
    File(Seq<char>, Seq<char>),
}

/// The abstract value of a request part.
pub open spec fn part_view(p: PartRequest) -> PartView {
    match p {
        PartRequest::Text { text } => PartView::Text(text@),
        PartRequest::FileData { file_data } => PartView::File(file_data.file_uri@, file_data.mime_type@),
    }
}

/// The abstract values of a sequence of request parts.
pub open spec fn parts_view(parts: Seq<PartRequest>) -> Seq<PartView> {
    parts.map_values(|p: PartRequest| part_view(p))
}

/// The text that introduces the previous analysis.
pub open spec fn context_text(context: Seq<char>) -> Seq<char> {
    "前回の文脈:\n"@ + context + "\n---\n今回の議論:"@
}

/// The text that names a speaker before their audio.
pub open spec fn speaker_text(speaker: Seq<char>) -> Seq<char> {
    "発言者: "@ + speaker
}

/// The parts for the uploaded files: for each, the speaker's name, then the
/// file.
pub open spec fn upload_parts(uploaded: Seq<UploadedAudio>) -> Seq<PartView>
    decreases uploaded.len(),
{
    if uploaded.len() == 0 {
        Seq::empty()
    } else {
        let u = uploaded.last();
        upload_parts(uploaded.drop_last()) + seq![
            PartView::Text(speaker_text(u.speaker@)),
            PartView::File(u.file_uri@, u.mime_type@),
        ]
    }
}

/// The parts of an analysis request: the mode's instructions, the previous
/// context when there is one, then each uploaded file with its speaker.
pub open spec fn request_parts(mode: AnalysisMode, context: Seq<char>, uploaded: Seq<UploadedAudio>) -> Seq<
    PartView,
> {
    seq![PartView::Text(prompt_for(mode))] + (if context.len() > 0 {
        seq![PartView::Text(context_text(context))]
    } else {
        Seq::empty()
    }) + upload_parts(uploaded)
}

proof fn lemma_upload_parts(uploaded: Seq<UploadedAudio>)
    ensures
        upload_parts(uploaded).len() == 2 * uploaded.len(),
        forall|i: int| 0 <= i < uploaded.len() ==> {
            &&& upload_parts(uploaded)[2 * i] == PartView::Text(speaker_text((#[trigger] uploaded[i]).speaker@))
            &&& upload_parts(uploaded)[2 * i + 1] == PartView::File(uploaded[i].file_uri@, uploaded[i].mime_type@)
        },
    decreases uploaded.len(),
{
    if uploaded.len() > 0 {
        let init = uploaded.drop_last();
        lemma_upload_parts(init);
        assert forall|i: int| 0 <= i < uploaded.len() implies {
            &&& upload_parts(uploaded)[2 * i] == PartView::Text(speaker_text((#[trigger] uploaded[i]).speaker@))
            &&& upload_parts(uploaded)[2 * i + 1] == PartView::File(uploaded[i].file_uri@, uploaded[i].mime_type@)
        } by {
            if i < uploaded.len() - 1 {
                assert(init[i] == uploaded[i]);
            }
        }
    }
}

/// An analysis request holds the mode's instructions first, then the
/// previous context when there is one, then for every uploaded file, in
/// order, the text naming its speaker followed by the file itself: one pair
/// per file, none left out.
pub proof fn lemma_request_has_every_file(mode: AnalysisMode, context: Seq<char>, uploaded: Seq<UploadedAudio>)
    ensures
        ({
            let parts = request_parts(mode, context, uploaded);
            let offset: int = if context.len() > 0 { 2 } else { 1 };
            &&& parts.len() == offset + 2 * uploaded.len()
            &&& parts[0] == PartView::Text(prompt_for(mode))
            &&& context.len() > 0 ==> parts[1] == PartView::Text(context_text(context))
            &&& forall|i: int| 0 <= i < uploaded.len() ==> {
                &&& parts[offset + 2 * i] == PartView::Text(speaker_text((#[trigger] uploaded[i]).speaker@))
                &&& parts[offset + 2 * i + 1] == PartView::File(uploaded[i].file_uri@, uploaded[i].mime_type@)
            }
        }),
{
    lemma_upload_parts(uploaded);
    let parts = request_parts(mode, context, uploaded);
    let offset: int = if context.len() > 0 { 2 } else { 1 };
    assert forall|i: int| 0 <= i < uploaded.len() implies {
        &&& parts[offset + 2 * i] == PartView::Text(speaker_text((#[trigger] uploaded[i]).speaker@))
        &&& parts[offset + 2 * i + 1] == PartView::File(uploaded[i].file_uri@, uploaded[i].mime_type@)
    } by {
        assert(parts[offset + 2 * i] == upload_parts(uploaded)[2 * i]);
        assert(parts[offset + 2 * i + 1] == upload_parts(uploaded)[2 * i + 1]);
    }
}

/// Builds the parts of an analysis request. With no uploaded file there is
/// nothing to analyse.
pub fn compose_parts(mode: AnalysisMode, context: &str, uploaded: &Vec<UploadedAudio>) -> (r: Result<
    Vec<PartRequest>,
    AnalyzerError,
>)
    ensures
        uploaded@.len() == 0 ==> r matches Err(AnalyzerError::NoAudioFiles),
        uploaded@.len() > 0 ==> (r matches Ok(parts) && parts_view(parts@)
            == request_parts(mode, context@, uploaded@)),
{
    if uploaded.len() == 0 {
        return Err(AnalyzerError::NoAudioFiles);
    }
    let mut parts: Vec<PartRequest> = Vec::new();
    parts.push(PartRequest::Text { text: owned(get_prompt(&mode)) });
    if !context.is_empty() {
        parts.push(PartRequest::Text { text: concat3("前回の文脈:\n", context, "\n---\n今回の議論:") });
    }
    let ghost head = parts_view(parts@);
    assert(head =~= seq![PartView::Text(prompt_for(mode))] + (if context@.len() > 0 {
        seq![PartView::Text(context_text(context@))]
    } else {
        Seq::empty()
    }));
    let mut i: usize = 0;
    while i < uploaded.len()
        invariant
            i <= uploaded@.len(),
            parts_view(parts@) == head + upload_parts(
                uploaded@.take(i as int),
            ),
        decreases uploaded.len() - i,
    {
        let u = &uploaded[i];
        let ghost before = parts@;
        parts.push(PartRequest::Text { text: concat2("発言者: ", u.speaker.as_str()) });
        parts.push(
            PartRequest::FileData {
                file_data: FileData {
                    file_uri: owned(u.file_uri.as_str()),
                    mime_type: owned(u.mime_type.as_str()),
                },
            },
        );
        proof {
            assert(parts_view(parts@) =~= parts_view(before) + seq![
                PartView::Text(speaker_text(u.speaker@)),
                PartView::File(u.file_uri@, u.mime_type@),
            ]);
            assert(uploaded@.take(i + 1).drop_last() =~= uploaded@.take(i as int));
            assert(uploaded@.take(i + 1).last() == *u);
            assert(parts_view(parts@) =~= head + upload_parts(
                uploaded@.take(i + 1),
            ));
        }
        i = i + 1;
    }
    assert(uploaded@.take(uploaded@.len() as int) =~= uploaded@);
    Ok(parts)
}

/// The URL that files are uploaded to.
pub fn upload_url(api_key: &str) -> (r: String)
    ensures
        r@ == GEMINI_UPLOAD_BASE@ + "/files?key="@ + api_key@,
{
    concat3(GEMINI_UPLOAD_BASE, "/files?key=", api_key)
}

/// The URL of an uploaded file.
pub fn file_url(file_name: &str, api_key: &str) -> (r: String)
    ensures
        r@ == GEMINI_API_BASE@ + "/files/"@ + file_name@ + "?key="@ + api_key@,
{
    let mut s = concat3(GEMINI_API_BASE, "/files/", file_name);
    s.append("?key=");
    s.append(api_key);
    s
}

/// The URL that generates content with `model`.
pub fn generate_url(model: &str, api_key: &str) -> (r: String)
    ensures
        r@ == GEMINI_API_BASE@ + "/models/"@ + model@ + ":generateContent?key="@ + api_key@,
{
    let mut s = concat3(GEMINI_API_BASE, "/models/", model);
    s.append(":generateContent?key=");
    s.append(api_key);
    s
}

/// The error for a refused upload; `status` is the HTTP status as shown.
pub fn upload_failure(status: &str) -> (r: AnalyzerError)
    ensures
        r matches AnalyzerError::Api(m) && m@ == "Upload failed: "@ + status@,
{
    AnalyzerError::Api(concat2("Upload failed: ", status))
}

/// What a check of an uploaded file's state means: `state` is `None` when the
/// check itself failed. `Ok(true)`: the file is ready; `Ok(false)`: wait and
/// check again; an error: processing failed.
pub fn file_poll_step(state: Option<&str>) -> (r: Result<bool, AnalyzerError>)
    ensures
        state matches Some(s) && s@ == "ACTIVE"@ ==> r == Ok::<bool, AnalyzerError>(true),
        state matches Some(s) && s@ == "FAILED"@ ==> (r matches Err(AnalyzerError::Api(m)) && m@
            == "File processing failed"@),
        (state matches Some(s) && s@ != "ACTIVE"@ && s@ != "FAILED"@) || state is None ==> r
            == Ok::<bool, AnalyzerError>(false),
{
    proof {
        reveal_strlit("ACTIVE");
        reveal_strlit("FAILED");
        assert("ACTIVE"@[0] != "FAILED"@[0]);
    }
    match state {
        Some(s) => {
            if str_eq(s, "ACTIVE") {
                Ok(true)
            } else if str_eq(s, "FAILED") {
                Err(AnalyzerError::Api(owned("File processing failed")))
            } else {
                Ok(false)
            }
        },
        None => Ok(false),
    }
}

/// The error when a file is still not ready after every check.
pub fn file_timeout_error() -> (r: AnalyzerError)
    ensures
        r matches AnalyzerError::Api(m) && m@ == "File processing timeout"@,
{
    AnalyzerError::Api(owned("File processing timeout"))
}

/// Whether a failed generation means the quota is used up: status 429, or
/// a body that mentions `Quota exceeded`.
pub open spec fn is_rate_limited(status: u16, body: Seq<char>) -> bool {
    status == 429 || occurs_in(body, "Quota exceeded"@)
}

/// The error for a failed generation request, from its status code, the
/// status as shown, and the response body.
pub fn generation_failure(status: u16, status_text: &str, body: &str) -> (r: AnalyzerError)
    ensures
        is_rate_limited(status, body@) ==> r is RateLimitExceeded,
        !is_rate_limited(status, body@) ==> (r matches AnalyzerError::Api(m) && m@ == "Generation failed: "@
            + status_text@ + " - "@ + body@),
{
    if status == 429 || contains_text(body, "Quota exceeded") {
        AnalyzerError::RateLimitExceeded
    } else {
        let mut s = concat3("Generation failed: ", status_text, " - ");
        s.append(body);
        AnalyzerError::Api(s)
    }
}

/// One part of a generated answer.
pub struct Part {
    pub text: Option<String>,
}

/// The content of a generated answer.
pub struct Content {
    pub parts: Vec<Part>,
}

/// One generated answer.
pub struct Candidate {
    pub content: Content,
}

/// An error reported in the body of a response.
pub struct ApiError {
    pub code: i32,
    pub message: String,
}

/// The body of a generation response.
pub struct GenerateResponse {
    pub candidates: Option<Vec<Candidate>>,
    pub error: Option<ApiError>,
}

/// The text shown when an answer carries no text.
pub open spec fn no_result_text() -> Seq<char> {
    "分析結果を取得できませんでした。"@
}

/// The text of the first part of the first answer, if it has text.
pub open spec fn first_text(resp: GenerateResponse) -> Option<Seq<char>> {
    match resp.candidates {
        Some(c) => if c@.len() > 0 && c@[0].content.parts@.len() > 0 {
            match c@[0].content.parts@[0].text {
                Some(t) => Some(t@),
                None => None,
            }
        } else {
            None
        },
        None => None,
    }
}

/// The report in a generation response: an error in the body is an API
/// error; otherwise the first answer's first text, or a fixed notice when
/// there is none.
pub fn generation_result(resp: GenerateResponse) -> (r: Result<String, AnalyzerError>)
    ensures
        resp.error matches Some(e) ==> (r matches Err(AnalyzerError::Api(m)) && m@ == e.message@),
        resp.error is None ==> (r matches Ok(t) && t@ == match first_text(resp) {
            Some(x) => x,
            None => no_result_text(),
        }),
{
    if let Some(e) = resp.error {
        return Err(AnalyzerError::Api(e.message));
    }
    let fallback = owned("分析結果を取得できませんでした。");
    match resp.candidates {
        Some(c) => {
            if c.len() > 0 && c[0].content.parts.len() > 0 {
                match &c[0].content.parts[0].text {
                    Some(t) => Ok(owned(t.as_str())),
                    None => Ok(fallback),
                }
            } else {
                Ok(fallback)
            }
        },
        None => Ok(fallback),
    }
}

} // verus!
