use vstd::prelude::*;
use vstd::utf8::{encode_utf8, decode_utf8, valid_utf8, is_char_boundary, decode_utf8_encode_utf8,
    encode_utf8_decode_utf8};
use vstd::slice::{slice_subrange, slice_to_vec};
use vstd::string::StringSliceAdditionalSpecFns;
use crate::analyzer::{AnalyzerError, error_text};
use crate::mode::{AnalysisMode, mode_name};
use crate::text::{owned, concat2, concat3};

verus! {

/// The longest context, in bytes, carried from one analysis to the next.
pub const CONTEXT_LIMIT: usize = 2000;
/// A report shorter than this, with its header, is posted as one message.
pub const MESSAGE_LIMIT: usize = 2000;
/// The size, in bytes, of each piece of a report posted in pieces.
pub const CHUNK_SIZE: usize = 1900;

/// The bytes of a text in UTF-8.
pub open spec fn utf8_of(s: Seq<char>) -> Seq<u8> {
    encode_utf8(s)
}

/// The context kept from a report: its last `CONTEXT_LIMIT` bytes, or the
/// whole report when it is no longer than that.
pub open spec fn kept_context(report: Seq<u8>) -> Seq<u8> {
    if report.len() > CONTEXT_LIMIT {
        report.subrange(report.len() - CONTEXT_LIMIT, report.len() as int)
    } else {
        report
    }
}

/// Whether the context can be cut out of `report`: the cut falls between two
/// characters (or no cut is needed).
pub open spec fn context_cut_ok(report: &str) -> bool {
    utf8_of(report@).len() > CONTEXT_LIMIT ==> is_char_boundary(
        utf8_of(report@),
        utf8_of(report@).len() - CONTEXT_LIMIT,
    )
}

/// The context to keep for the next analysis: the report's last 2000 bytes,
/// or the whole report when it is shorter. The cut must fall on a character
/// boundary.
pub fn next_context(report: &str) -> (r: String)
    requires
        utf8_of(report@).len() <= usize::MAX,
        context_cut_ok(report),
    ensures
        utf8_of(r@) == kept_context(utf8_of(report@)),
{
    let n = report.len();
    assert(report.spec_bytes() == utf8_of(report@));
    if n > CONTEXT_LIMIT {
        let (_, tail) = report.split_at(n - CONTEXT_LIMIT);
        owned(tail)
    } else {
        owned(report)
    }
}

/// The header of a report message.
pub open spec fn report_header_text(is_final: bool) -> Seq<char> {
    if is_final {
        "🏁 **最終分析レポート**\n"@
    } else {
        "📊 **議論分析レポート**\n"@
    }
}

/// The header of a report message: the final report or a periodic one.
pub fn report_header(is_final: bool) -> (r: &'static str)
    ensures
        r@ == report_header_text(is_final),
{
    if is_final {
        "🏁 **最終分析レポート**\n"
    } else {
        "📊 **議論分析レポート**\n"
    }
}

/// The text that opens a report's thread, stamped with `timestamp`.
pub fn starter_text(is_final: bool, timestamp: &str) -> (r: String)
    ensures
        r@ == starter_for(is_final, timestamp@),
{
    if is_final {
        concat3("🛑 **セッション終了** (", timestamp, ")")
    } else {
        concat3("📅 **自動分析** (", timestamp, ")")
    }
}

/// The name of a report's thread, stamped with `timestamp`.
pub fn thread_name(is_final: bool, timestamp: &str) -> (r: String)
    ensures
        r@ == thread_for(is_final, timestamp@),
{
    if is_final {
        concat2("議論分析レポート (最終) ", timestamp)
    } else {
        concat2("議論分析レポート ", timestamp)
    }
}

/// The notice posted while the audio is being analysed in `mode`.
pub fn analyzing_message(mode: AnalysisMode) -> (r: String)
    ensures
        r@ == "🔄 音声ファイルを分析中... (Mode: "@ + mode_name(mode) + ")"@,
{
    concat3("🔄 音声ファイルを分析中... (Mode: ", mode.as_str(), ")")
}

/// The report posted for an analysis outcome.
pub open spec fn report_for(outcome: Result<String, AnalyzerError>) -> Seq<char> {
    match outcome {
        Ok(r) => r@,
        Err(AnalyzerError::RateLimitExceeded) => "⚠️ 分析のリクエスト制限（Quota Limit）に達しました。"@,
        Err(e) => "分析中にエラーが発生しました: "@ + error_text(e),
    }
}

/// The report to post: the analysis itself, a quota notice, or the error.
pub fn report_text(outcome: Result<String, AnalyzerError>) -> (r: String)
    ensures
        r@ == report_for(outcome),
{
    match outcome {
        Ok(r) => r,
        Err(AnalyzerError::RateLimitExceeded) => owned("⚠️ 分析のリクエスト制限（Quota Limit）に達しました。"),
        Err(e) => {
            let m = e.message();
            concat2("分析中にエラーが発生しました: ", m.as_str())
        },
    }
}

/// The `j`-th piece of `bytes` cut into pieces of `size` bytes.
pub open spec fn piece(bytes: Seq<u8>, size: nat, j: int) -> Seq<u8> {
    let start = j * size;
    let end = if start + size < bytes.len() { start + size } else { bytes.len() as int };
    bytes.subrange(start, end)
}

/// How many pieces of `size` bytes `bytes` is cut into.
pub open spec fn piece_count(len: nat, size: nat) -> nat {
    ((len + size - 1) / size as int) as nat
}

/// Cuts `bytes` into consecutive pieces of `size` bytes; the last piece may
/// be shorter.
pub fn split_bytes(bytes: &[u8], size: usize) -> (r: Vec<Vec<u8>>)
    requires
        size > 0,
    ensures
        r@.len() == piece_count(bytes@.len(), size as nat),
        forall|j: int| 0 <= j < r@.len() ==> (#[trigger] r@[j])@ == piece(bytes@, size as nat, j),
{
    let n = bytes.len();
    let mut out: Vec<Vec<u8>> = Vec::new();
    let mut start: usize = 0;
    proof {
        assert(0 * size == 0) by (nonlinear_arith);
        if n > 0 {
            lemma_piece_count(n as nat, size as nat, 0);
        } else {
            assert(piece_count(0, size as nat) == 0) by (nonlinear_arith)
                requires
                    size > 0,
            ;
        }
    }
    while start < n
        invariant
            n == bytes@.len(),
            size > 0,
            start <= n,
            start < n ==> start == out@.len() * size,
            start < n ==> out@.len() < piece_count(n as nat, size as nat),
            start >= n ==> out@.len() == piece_count(n as nat, size as nat),
            forall|j: int| 0 <= j < out@.len() ==> (#[trigger] out@[j])@ == piece(bytes@, size as nat, j),
        decreases n - start,
    {
        let end: usize = if n - start > size { start + size } else { n };
        let part = slice_to_vec(slice_subrange(bytes, start, end));
        let ghost k = out@.len();
        out.push(part);
        proof {
            assert(part@ == piece(bytes@, size as nat, k as int));
            assert((k + 1) * size == k * size + size) by (nonlinear_arith);
            lemma_piece_count(n as nat, size as nat, k as nat);
        }
        start = end;
    }
    out
}

proof fn lemma_piece_count(n: nat, size: nat, k: nat)
    requires
        size > 0,
        k * size < n,
    ensures
        k < piece_count(n, size),
        (k + 1) * size < n ==> k + 1 < piece_count(n, size),
        (k + 1) * size >= n ==> k + 1 == piece_count(n, size),
{
    assert((k + 1) * size == k * size + size) by (nonlinear_arith);
    let c = (n + size - 1) / size as int;
    assert(c * size <= n + size - 1 && n + size - 1 < c * size + size) by (nonlinear_arith)
        requires
            size > 0,
            c == (n + size - 1) / size as int,
    ;
    assert(k < c) by (nonlinear_arith)
        requires
            k * size < n,
            c * size + size > n + size - 1,
            size > 0,
    ;
    if (k + 1) * size < n {
        assert(k + 1 < c) by (nonlinear_arith)
            requires
                (k + 1) * size < n,
                c * size + size > n + size - 1,
                size > 0,
        ;
    } else {
        assert(k + 1 >= c) by (nonlinear_arith)
            requires
                (k + 1) * size >= n,
                c * size <= n + size - 1,
                k * size < n,
                size > 0,
        ;
    }
}

/// The pieces of a message, joined back together.
pub open spec fn join_pieces(pieces: Seq<Seq<u8>>) -> Seq<u8>
    decreases pieces.len(),
{
    if pieces.len() == 0 {
        Seq::empty()
    } else {
        join_pieces(pieces.drop_last()) + pieces.last()
    }
}

proof fn lemma_join_prefix(bytes: Seq<u8>, size: nat, pieces: Seq<Seq<u8>>, k: nat)
    requires
        size > 0,
        pieces.len() == piece_count(bytes.len(), size),
        forall|j: int| 0 <= j < pieces.len() ==> #[trigger] pieces[j] == piece(bytes, size, j),
        k <= pieces.len(),
    ensures
        k * size <= bytes.len() ==> join_pieces(pieces.take(k as int)) == bytes.take((k * size) as int),
        k * size > bytes.len() ==> join_pieces(pieces.take(k as int)) == bytes,
    decreases k,
{
    if k == 0 {
        assert(pieces.take(0) =~= Seq::<Seq<u8>>::empty());
        assert(0 * size == 0) by (nonlinear_arith);
        assert(bytes.take(0) =~= Seq::<u8>::empty());
    } else {
        let j = (k - 1) as nat;
        lemma_join_prefix(bytes, size, pieces, j);
        assert(pieces.take(k as int).drop_last() =~= pieces.take(j as int));
        assert(pieces.take(k as int).last() == pieces[j as int]);
        assert(k * size == j * size + size) by (nonlinear_arith)
            requires
                j + 1 == k,
        ;
        let c = piece_count(bytes.len(), size);
        assert(c * size <= bytes.len() + size - 1) by (nonlinear_arith)
            requires
                size > 0,
                c == (bytes.len() + size - 1) / size as int,
        ;
        vstd::arithmetic::mul::lemma_mul_inequality(k as int, c as int, size as int);
        assert(j * size < bytes.len());
        if k * size <= bytes.len() {
            assert(bytes.take((j * size) as int) + piece(bytes, size, j as int) =~= bytes.take((k * size) as int));
        } else {
            assert(bytes.take((j * size) as int) + piece(bytes, size, j as int) =~= bytes);
        }
    }
}

/// Joining the pieces of a message gives back the message, byte for byte.
pub proof fn lemma_pieces_join(bytes: Seq<u8>, size: nat, pieces: Seq<Seq<u8>>)
    requires
        size > 0,
        pieces.len() == piece_count(bytes.len(), size),
        forall|j: int| 0 <= j < pieces.len() ==> #[trigger] pieces[j] == piece(bytes, size, j),
    ensures
        join_pieces(pieces) == bytes,
{
    let c = pieces.len();
    lemma_join_prefix(bytes, size, pieces, c);
    assert(pieces.take(c as int) =~= pieces);
    assert(c * size >= bytes.len()) by (nonlinear_arith)
        requires
            size > 0,
            c == (bytes.len() + size - 1) / size as int,
    ;
    if c * size == bytes.len() {
        assert(bytes.take((c * size) as int) =~= bytes);
    }
}

/// What `String::from_utf8_lossy` gives for these bytes.
pub uninterp spec fn utf8_lossy(bytes: Seq<u8>) -> Seq<char>;

/// Text from bytes with `String::from_utf8_lossy`: each invalid sequence
/// becomes U+FFFD. The result is named `utf8_lossy(bytes@)`; the contract
/// also states what the documentation gives for valid UTF-8: the text it
/// encodes, unchanged.
#[verifier::external_body]
fn lossy_text(bytes: &[u8]) -> (r: String)
    ensures
        r@ == utf8_lossy(bytes@),
        valid_utf8(bytes@) ==> r@ == decode_utf8(bytes@),
{
    String::from_utf8_lossy(bytes).into_owned()
}

/// The text of each piece of `bytes` cut into pieces of `size` bytes.
fn piece_texts(bytes: &[u8], size: usize) -> (r: Vec<String>)
    requires
        size > 0,
    ensures
        r@.len() == piece_count(bytes@.len(), size as nat),
        forall|j: int| 0 <= j < r@.len() ==> (#[trigger] r@[j])@ == utf8_lossy(piece(bytes@, size as nat, j)),
        forall|j: int| 0 <= j < r@.len() && valid_utf8(piece(bytes@, size as nat, j)) ==> (#[trigger] r@[j])@
            == decode_utf8(piece(bytes@, size as nat, j)),
{
    let pieces = split_bytes(bytes, size);
    let mut out: Vec<String> = Vec::new();
    let mut i: usize = 0;
    while i < pieces.len()
        invariant
            i <= pieces@.len(),
            pieces@.len() == piece_count(bytes@.len(), size as nat),
            forall|j: int| 0 <= j < pieces@.len() ==> (#[trigger] pieces@[j])@ == piece(bytes@, size as nat, j),
            out@.len() == i,
            forall|j: int| 0 <= j < i ==> (#[trigger] out@[j])@ == utf8_lossy(piece(bytes@, size as nat, j)),
            forall|j: int| 0 <= j < i && valid_utf8(piece(bytes@, size as nat, j)) ==> (#[trigger] out@[j])@
                == decode_utf8(piece(bytes@, size as nat, j)),
        decreases pieces.len() - i,
    {
        let t = lossy_text(pieces[i].as_slice());
        out.push(t);
        i = i + 1;
    }
    out
}

/// Texts joined in order.
pub open spec fn join_texts(texts: Seq<Seq<char>>) -> Seq<char>
    decreases texts.len(),
{
    if texts.len() == 0 {
        Seq::empty()
    } else {
        join_texts(texts.drop_last()) + texts.last()
    }
}

proof fn lemma_encode_concat(a: Seq<char>, b: Seq<char>)
    ensures
        encode_utf8(a + b) == encode_utf8(a) + encode_utf8(b),
    decreases a.len(),
{
    if a.len() == 0 {
        assert(a + b =~= b);
        assert(encode_utf8(a) + encode_utf8(b) =~= encode_utf8(b));
    } else {
        lemma_encode_concat(a.drop_first(), b);
        assert((a + b).drop_first() =~= a.drop_first() + b);
        assert((a + b)[0] == a[0]);
        assert(encode_utf8(a + b) =~= encode_utf8(a) + encode_utf8(b));
    }
}

proof fn lemma_encode_join(texts: Seq<Seq<char>>, pieces: Seq<Seq<u8>>)
    requires
        texts.len() == pieces.len(),
        forall|j: int| 0 <= j < pieces.len() ==> encode_utf8(#[trigger] texts[j]) == pieces[j],
    ensures
        encode_utf8(join_texts(texts)) == join_pieces(pieces),
    decreases texts.len(),
{
    if texts.len() > 0 {
        lemma_encode_join(texts.drop_last(), pieces.drop_last());
        lemma_encode_concat(join_texts(texts.drop_last()), texts.last());
        assert(encode_utf8(texts[texts.len() - 1]) == pieces[pieces.len() - 1]);
    }
}

/// When every piece of a split report is valid UTF-8 (each cut falls between
/// two characters), the pieces' texts joined in order give back the report.
pub proof fn lemma_valid_pieces_give_back_report(report: Seq<char>, texts: Seq<Seq<char>>)
    requires
        texts.len() == piece_count(utf8_of(report).len(), CHUNK_SIZE as nat),
        forall|j: int| 0 <= j < texts.len() ==> valid_utf8(#[trigger] piece(utf8_of(report), CHUNK_SIZE as nat, j)),
        forall|j: int| 0 <= j < texts.len() ==> #[trigger] texts[j] == decode_utf8(
            piece(utf8_of(report), CHUNK_SIZE as nat, j),
        ),
    ensures
        join_texts(texts) == report,
{
    let bytes = utf8_of(report);
    let pieces = Seq::new(texts.len(), |j: int| piece(bytes, CHUNK_SIZE as nat, j));
    assert forall|j: int| 0 <= j < pieces.len() implies encode_utf8(#[trigger] texts[j]) == pieces[j] by {
        assert(valid_utf8(piece(bytes, CHUNK_SIZE as nat, j)));
        decode_utf8_encode_utf8(piece(bytes, CHUNK_SIZE as nat, j));
    }
    lemma_encode_join(texts, pieces);
    lemma_pieces_join(bytes, CHUNK_SIZE as nat, pieces);
    encode_utf8_decode_utf8(join_texts(texts));
    encode_utf8_decode_utf8(report);
}

/// How a report is posted.
pub enum ReportMessages {
    /// One message: header and report together.
    Single(String),
    /// The header alone, then the report in pieces of 1900 bytes, each read
    /// back as text (a character cut in two becomes U+FFFD).
    Split { header: String, pieces: Vec<String> },
}

/// Whether `pieces` are the texts of `report` cut into 1900-byte pieces: one
/// per piece, each the lossy reading of its bytes and, where those bytes are
/// valid UTF-8, exactly the text they encode; so when every cut falls between
/// two characters, the pieces joined in order give back the report.
pub open spec fn report_pieces(report: Seq<char>, pieces: Seq<String>) -> bool {
    let bytes = utf8_of(report);
    &&& pieces.len() == piece_count(bytes.len(), CHUNK_SIZE as nat)
    &&& forall|j: int|
        0 <= j < pieces.len() ==> (#[trigger] pieces[j])@ == utf8_lossy(piece(bytes, CHUNK_SIZE as nat, j))
    &&& forall|j: int|
        0 <= j < pieces.len() && valid_utf8(piece(bytes, CHUNK_SIZE as nat, j)) ==> (#[trigger] pieces[j])@
            == decode_utf8(piece(bytes, CHUNK_SIZE as nat, j))
    &&& (forall|j: int| 0 <= j < pieces.len() ==> valid_utf8(#[trigger] piece(bytes, CHUNK_SIZE as nat, j)))
        ==> join_texts(pieces.map_values(|t: String| t@)) == report
}

/// Decides how to post `report` under `header`: as one message when both
/// together are under 2000 bytes, else the header then 1900-byte pieces.
pub fn plan_report_messages(header: &str, report: &str) -> (r: ReportMessages)
    requires
        utf8_of(report@).len() + utf8_of(header@).len() <= usize::MAX,
    ensures
        utf8_of(report@).len() + utf8_of(header@).len() < MESSAGE_LIMIT ==> (r matches ReportMessages::Single(m)
            && m@ == header@ + report@),
        utf8_of(report@).len() + utf8_of(header@).len() >= MESSAGE_LIMIT ==> (r matches ReportMessages::Split {
            header: h,
            pieces: p,
        } && h@ == header@ && report_pieces(report@, p@)),
{
    if report.len() + header.len() < MESSAGE_LIMIT {
        ReportMessages::Single(concat2(header, report))
    } else {
        let report_bytes = report.as_bytes();
        let pieces = piece_texts(report_bytes, CHUNK_SIZE);
        proof {
            let bytes = utf8_of(report@);
            assert(report_bytes@ == bytes);
            let texts = pieces@.map_values(|t: String| t@);
            if forall|j: int| 0 <= j < pieces@.len() ==> valid_utf8(#[trigger] piece(bytes, CHUNK_SIZE as nat, j)) {
                assert forall|j: int| 0 <= j < texts.len() implies #[trigger] texts[j] == decode_utf8(
                    piece(bytes, CHUNK_SIZE as nat, j),
                ) by {
                    assert(valid_utf8(piece(bytes, CHUNK_SIZE as nat, j)));
                    assert(texts[j] == pieces@[j]@);
                }
                lemma_valid_pieces_give_back_report(report@, texts);
            }
        }
        ReportMessages::Split { header: owned(header), pieces }
    }
}

/// The two titles of a report: the message that opens its thread, and the
/// thread's name.
pub struct ReportTitles {
    pub starter: String,
    pub thread: String,
}

/// The pattern a report's time stamp is written in: year-month-day
/// hour:minute.
pub const REPORT_TIME_FORMAT: &'static str = "%Y-%m-%d %H:%M";

/// What chrono gives for `DateTime::<Utc>::from_timestamp(secs, 0)` formatted
/// with the strftime `pattern`; none when `secs` is out of chrono's range.
pub uninterp spec fn utc_time_text(secs: i64, pattern: Seq<char>) -> Option<Seq<char>>;

/// The UTC time `secs` seconds after the Unix epoch, formatted by chrono with
/// `pattern`; `None` outside chrono's range. The text is named
/// `utc_time_text(secs, pattern@)`. Only the report's own pattern is
/// admitted: chrono panics while formatting with a malformed pattern.
#[verifier::external_body]
fn format_utc_time(secs: i64, pattern: &str) -> (r: Option<String>)
    requires
        pattern@ == REPORT_TIME_FORMAT@,
    ensures
        match r {
            Some(t) => utc_time_text(secs, pattern@) == Some(t@),
            None => utc_time_text(secs, pattern@) is None,
        },
{
    chrono::DateTime::<chrono::Utc>::from_timestamp(secs, 0).map(|t| t.format(pattern).to_string())
}

/// The opening message of a report's thread, stamped with `timestamp`.
pub open spec fn starter_for(is_final: bool, timestamp: Seq<char>) -> Seq<char> {
    (if is_final { "🛑 **セッション終了** ("@ } else { "📅 **自動分析** ("@ }) + timestamp + ")"@
}

/// The name of a report's thread, stamped with `timestamp`.
pub open spec fn thread_for(is_final: bool, timestamp: Seq<char>) -> Seq<char> {
    (if is_final { "議論分析レポート (最終) "@ } else { "議論分析レポート "@ }) + timestamp
}

/// Whether `r` is the titles of a report stamped at `secs`.
pub open spec fn titles_at(is_final: bool, secs: i64, r: Option<ReportTitles>) -> bool {
    match utc_time_text(secs, REPORT_TIME_FORMAT@) {
        Some(ts) => r matches Some(t) && t.starter@ == starter_for(is_final, ts) && t.thread@
            == thread_for(is_final, ts),
        None => r is None,
    }
}

/// The titles of a report stamped with the UTC minute of `secs`, both with
/// the same stamp; `None` when `secs` is outside the range of dates that can
/// be shown.
pub fn report_titles_at(is_final: bool, secs: i64) -> (r: Option<ReportTitles>)
    ensures
        titles_at(is_final, secs, r),
{
    match format_utc_time(secs, REPORT_TIME_FORMAT) {
        Some(ts) => Some(
            ReportTitles { starter: starter_text(is_final, ts.as_str()), thread: thread_name(is_final, ts.as_str()) },
        ),
        None => None,
    }
}

/// What an analysis run finds when it takes out the recorded audio.
#[derive(Debug, Clone, Copy, PartialEq, Eq, Structural)]
pub enum FlushOutcome {
    /// Taking out the audio failed (or nothing was saved).
    Failed,
    /// No audio files.
    Empty,
    /// Audio files to analyse.
    Files,
}

/// One step of an analysis run, after the audio has been taken out.
#[derive(Debug, Clone, Copy, PartialEq, Eq, Structural)]
pub enum AnalysisStep {
    /// Hand the failure back to the caller; nothing is posted.
    ReturnError,
    /// Post the opening message and open the report's thread.
    OpenThread,
    /// Post the notice that analysis is under way.
    PostAnalyzing,
    /// Run the analysis.
    Analyze,
    /// Keep the end of the report as context for the next run.
    UpdateContext,
    /// Post the report.
    PostReport,
    /// Remove the audio files.
    RemoveFiles,
}

/// The steps of an analysis run, in order: after a failed flush only the
/// error is handed back and nothing is posted; with no files nothing
/// happens; otherwise the thread is opened, the analysis run, the context
/// kept, the report posted, and only then the files removed.
pub fn analysis_steps(flush: FlushOutcome) -> (r: Vec<AnalysisStep>)
    ensures
        flush == FlushOutcome::Failed ==> r@ == seq![AnalysisStep::ReturnError],
        flush == FlushOutcome::Empty ==> r@.len() == 0,
        flush == FlushOutcome::Files ==> r@ == seq![
            AnalysisStep::OpenThread,
            AnalysisStep::PostAnalyzing,
            AnalysisStep::Analyze,
            AnalysisStep::UpdateContext,
            AnalysisStep::PostReport,
            AnalysisStep::RemoveFiles,
        ],
{
    let mut r: Vec<AnalysisStep> = Vec::new();
    match flush {
        FlushOutcome::Failed => {
            r.push(AnalysisStep::ReturnError);
        },
        FlushOutcome::Empty => {},
        FlushOutcome::Files => {
            r.push(AnalysisStep::OpenThread);
            r.push(AnalysisStep::PostAnalyzing);
            r.push(AnalysisStep::Analyze);
            r.push(AnalysisStep::UpdateContext);
            r.push(AnalysisStep::PostReport);
            r.push(AnalysisStep::RemoveFiles);
        },
    }
    assert(flush == FlushOutcome::Failed ==> r@ =~= seq![AnalysisStep::ReturnError]);
    assert(flush == FlushOutcome::Files ==> r@ =~= seq![
        AnalysisStep::OpenThread,
        AnalysisStep::PostAnalyzing,
        AnalysisStep::Analyze,
        AnalysisStep::UpdateContext,
        AnalysisStep::PostReport,
        AnalysisStep::RemoveFiles,
    ]);
    r
}

/// One step of ending a session after its final analysis.
#[derive(Debug, Clone, Copy, PartialEq, Eq, Structural)]
pub enum StopStep {
    /// Mark the session inactive and end its analysis loop.
    StopSession,
    /// Leave the voice channel.
    LeaveVoice,
    /// Tell the channel that the session has ended.
    AnnounceStopped,
    /// Hand the final analysis's error back to the caller, to be logged.
    ReturnError,
}

/// The steps that end a session, in order, once its final analysis has run:
/// whether or not that analysis succeeded, the session is stopped, the bot
/// leaves the voice channel and says so; a failed analysis is then reported
/// as the command's error.
pub fn stop_steps(final_analysis_ok: bool) -> (r: Vec<StopStep>)
    ensures
        r@ == seq![StopStep::StopSession, StopStep::LeaveVoice, StopStep::AnnounceStopped] + (
        if final_analysis_ok {
            Seq::<StopStep>::empty()
        } else {
            seq![StopStep::ReturnError]
        }),
{
    let mut r: Vec<StopStep> = Vec::new();
    r.push(StopStep::StopSession);
    r.push(StopStep::LeaveVoice);
    r.push(StopStep::AnnounceStopped);
    if !final_analysis_ok {
        r.push(StopStep::ReturnError);
    }
    assert(r@ =~= seq![StopStep::StopSession, StopStep::LeaveVoice, StopStep::AnnounceStopped] + (
    if final_analysis_ok {
        Seq::<StopStep>::empty()
    } else {
        seq![StopStep::ReturnError]
    }));
    r
}

/// Where the periodic analysis loop stands: about to wait out the interval,
/// or done waiting.
#[derive(Debug, Clone, Copy, PartialEq, Eq, Structural)]
pub enum LoopStage {
    /// About to wait for the next analysis.
    Idle,
    /// The interval has passed.
    Waited,
}

/// What the periodic analysis loop does next.
#[derive(Debug, Clone, Copy, PartialEq, Eq, Structural)]
pub enum LoopAction {
    /// Wait this many seconds.
    Sleep(u64),
    /// Analyse the audio recorded so far.
    Analyze,
    /// Leave the loop: the session is no longer active.
    Stop,
}

/// One step of the periodic analysis loop: an inactive session stops it;
/// an active one waits the guild's interval, then analyses, and again.
pub open spec fn loop_step(stage: LoopStage, is_active: bool, interval: u64) -> (LoopStage, LoopAction) {
    if !is_active {
        (stage, LoopAction::Stop)
    } else {
        match stage {
            LoopStage::Idle => (LoopStage::Waited, LoopAction::Sleep(interval)),
            LoopStage::Waited => (LoopStage::Idle, LoopAction::Analyze),
        }
    }
}

/// The next stage and action of the periodic analysis loop, given whether
/// the session is still active and the guild's interval in seconds.
pub fn analysis_loop_step(stage: LoopStage, is_active: bool, interval: u64) -> (r: (LoopStage, LoopAction))
    ensures
        r == loop_step(stage, is_active, interval),
{
    if !is_active {
        (stage, LoopAction::Stop)
    } else {
        match stage {
            LoopStage::Idle => (LoopStage::Waited, LoopAction::Sleep(interval)),
            LoopStage::Waited => (LoopStage::Idle, LoopAction::Analyze),
        }
    }
}

/// The actions of `n` steps of the loop from `stage`, with the session
/// active throughout and the interval unchanged.
pub open spec fn active_loop_actions(stage: LoopStage, interval: u64, n: nat) -> Seq<LoopAction>
    decreases n,
{
    if n == 0 {
        Seq::empty()
    } else {
        let (next, action) = loop_step(stage, true, interval);
        seq![action] + active_loop_actions(next, interval, (n - 1) as nat)
    }
}

/// While a session stays active, its loop never stops: from a fresh start,
/// every even step waits the guild's interval and every odd step analyses.
pub proof fn lemma_active_loop_alternates(interval: u64, n: nat, k: int)
    requires
        0 <= k < n,
    ensures
        active_loop_actions(LoopStage::Idle, interval, n)[k] == (if k % 2 == 0 {
            LoopAction::Sleep(interval)
        } else {
            LoopAction::Analyze
        }),
{
    lemma_active_loop_from(LoopStage::Idle, interval, n, k);
}

proof fn lemma_active_loop_len(stage: LoopStage, interval: u64, n: nat)
    ensures
        active_loop_actions(stage, interval, n).len() == n,
    decreases n,
{
    if n > 0 {
        let (next, action) = loop_step(stage, true, interval);
        lemma_active_loop_len(next, interval, (n - 1) as nat);
    }
}

proof fn lemma_active_loop_from(stage: LoopStage, interval: u64, n: nat, k: int)
    requires
        0 <= k < n,
    ensures
        active_loop_actions(stage, interval, n)[k] == (if (k % 2 == 0) == (stage == LoopStage::Idle) {
            LoopAction::Sleep(interval)
        } else {
            LoopAction::Analyze
        }),
    decreases n,
{
    let (next, action) = loop_step(stage, true, interval);
    let rest = active_loop_actions(next, interval, (n - 1) as nat);
    assert(active_loop_actions(stage, interval, n) == seq![action] + rest);
    lemma_active_loop_len(next, interval, (n - 1) as nat);
    if k > 0 {
        lemma_active_loop_from(next, interval, (n - 1) as nat, k - 1);
        assert((seq![action] + rest)[k] == rest[k - 1]);
    }
}

/// The error when an analysis is asked for a guild without a session.
pub const SESSION_NOT_FOUND: &'static str = "Session not found";

} // verus!
