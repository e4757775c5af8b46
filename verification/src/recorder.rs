use vstd::prelude::*;
use dashmap::DashMap;
use crate::text::{decimal, push_decimal, owned};
use crate::wav::{encode_wav, wav_file, sample_at, lemma_wav_read_back};

verus! {

/// `dashmap::DashMap`, held opaquely; its contents are named by
/// `buffered_samples`.
#[verifier::external_type_specification]
#[verifier::external_body]
#[verifier::reject_recursive_types(K)]
#[verifier::reject_recursive_types(V)]
#[verifier::reject_recursive_types(S)]
pub struct ExDashMap<K, V, S>(DashMap<K, V, S>);

/// `std::io::Error`, carried opaquely in error values.
#[verifier::external_type_specification]
#[verifier::external_body]
pub struct ExIoError(std::io::Error);

/// Why recorded audio could not be saved.
#[derive(Debug)]
pub enum RecorderError {
    /// Reading or writing a file failed.
    Io(std::io::Error),
    /// No user had any audio to save.
    NoData,
}

/// The samples held for each user by a map of audio buffers.
pub uninterp spec fn buffered_samples(map: DashMap<u64, UserAudioBuffer>) -> Map<u64, Seq<i16>>;

/// No user has buffered samples.
pub open spec fn no_samples() -> Map<u64, Seq<i16>> {
    Map::empty()
}

/// Seconds since the Unix epoch, from `SystemTime::now`.
///
/// The clock is read, so nothing is promised of the value; a clock set
/// before the epoch reads as 0.
#[verifier::external_body]
fn unix_time_secs() -> (r: u64) {
    std::time::SystemTime::now().duration_since(std::time::UNIX_EPOCH).map(|d| d.as_secs()).unwrap_or(0)
}

/// `DashMap::new`: a map with no entries.
#[verifier::external_body]
fn buffers_new() -> (r: DashMap<u64, UserAudioBuffer>)
    ensures
        buffered_samples(r) == no_samples(),
{
    DashMap::new()
}

/// `DashMap::insert`: the entry for `user_id` becomes `buffer`; the previous
/// buffer, if any, is returned.
#[verifier::external_body]
fn buffers_insert(map: &mut DashMap<u64, UserAudioBuffer>, user_id: u64, buffer: UserAudioBuffer) -> (r:
    Option<UserAudioBuffer>)
    ensures
        buffered_samples(*final(map)) == buffered_samples(*old(map)).insert(user_id, buffer.pcm_samples@),
        r is Some <==> buffered_samples(*old(map)).dom().contains(user_id),
        r matches Some(b) ==> b.pcm_samples@ == buffered_samples(*old(map))[user_id],
{
    map.insert(user_id, buffer)
}

/// `DashMap::remove`: takes out the entry for `user_id`, if there is one, and
/// returns it with its key.
#[verifier::external_body]
fn buffers_remove(map: &mut DashMap<u64, UserAudioBuffer>, user_id: u64) -> (r: Option<(u64, UserAudioBuffer)>)
    ensures
        buffered_samples(*final(map)) == buffered_samples(*old(map)).remove(user_id),
        r is Some <==> buffered_samples(*old(map)).dom().contains(user_id),
        r matches Some(e) ==> e.0 == user_id && e.1.pcm_samples@ == buffered_samples(*old(map))[user_id],
{
    map.remove(&user_id)
}

/// `DashMap::iter`, keeping each entry's key: every key once, in no promised
/// order.
#[verifier::external_body]
fn buffer_user_ids(map: &DashMap<u64, UserAudioBuffer>) -> (r: Vec<u64>)
    ensures
        r@.no_duplicates(),
        r@.to_set() == buffered_samples(*map).dom(),
{
    map.iter().map(|e| *e.key()).collect()
}

/// `DashMap::clear`: removes every entry.
#[verifier::external_body]
fn buffers_clear(map: &mut DashMap<u64, UserAudioBuffer>)
    ensures
        buffered_samples(*final(map)) == no_samples(),
{
    map.clear()
}

/// `DashMap::len`: the number of entries.
#[verifier::external_body]
fn buffers_len(map: &DashMap<u64, UserAudioBuffer>) -> (r: usize)
    ensures
        r == buffered_samples(*map).dom().len(),
{
    map.len()
}

/// Audio samples collected for one user.
pub struct UserAudioBuffer {
    /// Decoded PCM samples (mono, 16 kHz).
    pub pcm_samples: Vec<i16>,
    /// When recording started for this user, in seconds since the Unix epoch.
    pub start_time: u64,
}

impl UserAudioBuffer {
    /// An empty buffer, stamped with the current time.
    pub fn new() -> (r: Self)
        ensures
            r.pcm_samples@ == Seq::<i16>::empty(),
    {
        UserAudioBuffer { pcm_samples: Vec::new(), start_time: unix_time_secs() }
    }

    /// Appends `samples` after the samples already held.
    pub fn add_samples(&mut self, samples: &[i16])
        ensures
            final(self).pcm_samples@ == old(self).pcm_samples@ + samples@,
            final(self).start_time == old(self).start_time,
    {
        self.pcm_samples.extend_from_slice(samples);
        assert(self.pcm_samples@ =~= old(self).pcm_samples@ + samples@);
    }

    /// Whether no samples are held.
    pub fn is_empty(&self) -> (r: bool)
        ensures
            r == (self.pcm_samples@.len() == 0),
    {
        self.pcm_samples.len() == 0
    }

    /// Takes out all samples, leaving the buffer empty.
    pub fn take_samples(&mut self) -> (r: Vec<i16>)
        ensures
            r@ == old(self).pcm_samples@,
            final(self).pcm_samples@ == Seq::<i16>::empty(),
            final(self).start_time == old(self).start_time,
    {
        let mut out: Vec<i16> = Vec::new();
        std::mem::swap(&mut out, &mut self.pcm_samples);
        out
    }
}

/// Decoded voice data of one speaker during one voice tick.
pub struct SpeakerVoice {
    /// The speaker's stream source id; it stands in for the user id.
    pub ssrc: u32,
    /// Decoded PCM samples, when the tick carried any.
    pub decoded_voice: Option<Vec<i16>>,
}

/// A WAV file to be written for one user.
pub struct PendingAudio {
    pub user_id: u64,
    /// File name, without directory: `<session>_<user>_<time>.wav`.
    pub file_name: String,
    /// The complete WAV file.
    pub wav: Vec<u8>,
}

/// The abstract state of a recorder.
pub struct RecorderView {
    /// Samples buffered per user since the last flush.
    pub buffers: Map<u64, Seq<i16>>,
    pub temp_dir: Seq<char>,
    pub session_timestamp: u64,
}

/// Per-user audio recorder: collects decoded PCM samples per user and turns
/// them into WAV files.
pub struct UserRecorder {
    user_buffers: DashMap<u64, UserAudioBuffer>,
    temp_dir: String,
    session_timestamp: u64,
}

impl UserRecorder {
    /// Every recorder is consistent: finitely many users, each with samples.
    #[verifier::type_invariant]
    spec fn recorder_inv(self) -> bool {
        recorder_wf(self@)
    }

    /// Takes the map of buffers out, leaving an empty one in its place.
    fn take_buffers(&mut self) -> (r: DashMap<u64, UserAudioBuffer>)
        ensures
            buffered_samples(r) == old(self)@.buffers,
            recorder_wf(old(self)@),
            final(self)@ == (RecorderView { buffers: no_samples(), ..old(self)@ }),
    {
        proof {
            use_type_invariant(&*self);
        }
        let mut map = buffers_new();
        proof {
            assert(buffered_samples(map).dom() =~= Set::<u64>::empty());
        }
        std::mem::swap(&mut map, &mut self.user_buffers);
        map
    }
}

impl View for UserRecorder {
    type V = RecorderView;

    closed spec fn view(&self) -> RecorderView {
        RecorderView {
            buffers: buffered_samples(self.user_buffers),
            temp_dir: self.temp_dir@,
            session_timestamp: self.session_timestamp,
        }
    }
}

/// A recorder's state is consistent: finitely many users, and every user with
/// an entry has samples.
pub open spec fn recorder_wf(v: RecorderView) -> bool {
    &&& v.buffers.dom().finite()
    &&& forall|k: u64| #[trigger] v.buffers.dom().contains(k) ==> v.buffers[k].len() > 0
}

/// The state after adding `samples` for `user_id`: nothing changes for an
/// empty batch; otherwise the samples go after that user's earlier ones.
pub open spec fn with_samples(v: RecorderView, user_id: u64, samples: Seq<i16>) -> RecorderView {
    if samples.len() == 0 {
        v
    } else {
        RecorderView {
            buffers: v.buffers.insert(
                user_id,
                (if v.buffers.dom().contains(user_id) { v.buffers[user_id] } else { Seq::empty() })
                    + samples,
            ),
            ..v
        }
    }
}

/// The samples a speaker entry contributes: its decoded voice, if any.
pub open spec fn voice_samples(e: SpeakerVoice) -> Seq<i16> {
    match e.decoded_voice {
        Some(v) => v@,
        None => Seq::empty(),
    }
}

/// The state after a voice tick: each speaker's decoded samples are added for
/// the user id equal to its source id, in order.
pub open spec fn with_tick(v: RecorderView, speaking: Seq<SpeakerVoice>) -> RecorderView
    decreases speaking.len(),
{
    if speaking.len() == 0 {
        v
    } else {
        let e = speaking.last();
        with_samples(with_tick(v, speaking.drop_last()), e.ssrc as u64, voice_samples(e))
    }
}

/// The samples that speakers of a tick with source id `user_id` carry, in
/// the order the tick lists them.
pub open spec fn samples_from(speaking: Seq<SpeakerVoice>, user_id: u64) -> Seq<i16>
    decreases speaking.len(),
{
    if speaking.len() == 0 {
        Seq::empty()
    } else {
        let e = speaking.last();
        samples_from(speaking.drop_last(), user_id) + (if e.ssrc as u64 == user_id {
            voice_samples(e)
        } else {
            Seq::empty()
        })
    }
}

/// A user's buffer, or nothing when the user has none.
pub open spec fn buffer_or_empty(v: RecorderView, user_id: u64) -> Seq<i16> {
    if v.buffers.dom().contains(user_id) {
        v.buffers[user_id]
    } else {
        Seq::empty()
    }
}

/// A voice tick loses no one's audio: afterwards every user's buffer is the
/// buffer it had, followed by all the samples that the tick's speakers with
/// that user's source id carried, in order; a user has a buffer exactly when
/// it had one or the tick brought samples for it; nothing else changes.
pub proof fn lemma_tick_keeps_every_speaker(v: RecorderView, speaking: Seq<SpeakerVoice>, user_id: u64)
    ensures
        with_tick(v, speaking).buffers.dom().contains(user_id) <==> (v.buffers.dom().contains(user_id)
            || samples_from(speaking, user_id).len() > 0),
        with_tick(v, speaking).buffers.dom().contains(user_id) ==> with_tick(v, speaking).buffers[user_id]
            == buffer_or_empty(v, user_id) + samples_from(speaking, user_id),
        with_tick(v, speaking).temp_dir == v.temp_dir,
        with_tick(v, speaking).session_timestamp == v.session_timestamp,
    decreases speaking.len(),
{
    if speaking.len() > 0 {
        let init = speaking.drop_last();
        let e = speaking.last();
        lemma_tick_keeps_every_speaker(v, init, user_id);
        let w = with_tick(v, init);
        if e.ssrc as u64 == user_id {
            assert(buffer_or_empty(v, user_id) + samples_from(speaking, user_id) =~= buffer_or_empty(v, user_id)
                + samples_from(init, user_id) + voice_samples(e));
        } else {
            assert(samples_from(speaking, user_id) =~= samples_from(init, user_id));
        }
    }
}

/// With distinct speakers in a tick, each speaker's buffer afterwards is its
/// earlier buffer followed by that speaker's samples; so every speaker who
/// brought samples has a buffer, and the users with buffers are those who had
/// one plus those speakers.
pub proof fn lemma_tick_buffers_each_speaker(v: RecorderView, speaking: Seq<SpeakerVoice>, i: int)
    requires
        0 <= i < speaking.len(),
        forall|a: int, b: int|
            0 <= a < speaking.len() && 0 <= b < speaking.len() && a != b ==> (#[trigger] speaking[a]).ssrc
                != (#[trigger] speaking[b]).ssrc,
        voice_samples(speaking[i]).len() > 0,
    ensures
        with_tick(v, speaking).buffers.dom().contains(speaking[i].ssrc as u64),
        with_tick(v, speaking).buffers[speaking[i].ssrc as u64] == buffer_or_empty(v, speaking[i].ssrc as u64)
            + voice_samples(speaking[i]),
{
    let u = speaking[i].ssrc as u64;
    lemma_samples_from_single(speaking, i);
    lemma_tick_keeps_every_speaker(v, speaking, u);
}

proof fn lemma_samples_from_single(speaking: Seq<SpeakerVoice>, i: int)
    requires
        0 <= i < speaking.len(),
        forall|a: int, b: int|
            0 <= a < speaking.len() && 0 <= b < speaking.len() && a != b ==> (#[trigger] speaking[a]).ssrc
                != (#[trigger] speaking[b]).ssrc,
    ensures
        samples_from(speaking, speaking[i].ssrc as u64) == voice_samples(speaking[i]),
    decreases speaking.len(),
{
    let init = speaking.drop_last();
    let e = speaking.last();
    let u = speaking[i].ssrc as u64;
    if i == speaking.len() - 1 {
        lemma_samples_from_absent(init, u);
        assert(samples_from(init, u) + voice_samples(e) =~= voice_samples(e));
    } else {
        assert(init[i] == speaking[i]);
        assert(speaking[speaking.len() - 1].ssrc != speaking[i].ssrc);
        lemma_samples_from_single(init, i);
        assert(samples_from(init, u) + Seq::<i16>::empty() =~= samples_from(init, u));
    }
}

proof fn lemma_samples_from_absent(speaking: Seq<SpeakerVoice>, u: u64)
    requires
        forall|a: int| 0 <= a < speaking.len() ==> (#[trigger] speaking[a]).ssrc as u64 != u,
    ensures
        samples_from(speaking, u) == Seq::<i16>::empty(),
    decreases speaking.len(),
{
    if speaking.len() > 0 {
        let init = speaking.drop_last();
        assert forall|a: int| 0 <= a < init.len() implies (#[trigger] init[a]).ssrc as u64 != u by {
            assert(init[a] == speaking[a]);
        }
        lemma_samples_from_absent(init, u);
        assert(speaking[speaking.len() - 1].ssrc as u64 != u);
        assert(samples_from(init, u) + Seq::<i16>::empty() =~= Seq::<i16>::empty());
    }
}

/// The file name for a user's audio: `<session>_<user>_<time>.wav`.
pub open spec fn audio_file_name(session: u64, user_id: u64, time: u64) -> Seq<char> {
    decimal(session as nat) + "_"@ + decimal(user_id as nat) + "_"@ + decimal(time as nat) + ".wav"@
}

/// The files a flush at `time` produces from state `v`: one per buffered user,
/// no user twice, each named for the user and holding that user's samples.
pub open spec fn flushed_files(v: RecorderView, time: u64, files: Seq<PendingAudio>) -> bool {
    &&& forall|j: int| 0 <= j < files.len() ==> {
        let f = #[trigger] files[j];
        &&& v.buffers.dom().contains(f.user_id)
        &&& f.file_name@ == audio_file_name(v.session_timestamp, f.user_id, time)
        &&& f.wav@ == wav_file(v.buffers[f.user_id])
    }
    &&& forall|k: u64| #[trigger] v.buffers.dom().contains(k) ==> exists|j: int|
        0 <= j < files.len() && (#[trigger] files[j]).user_id == k
    &&& forall|i: int, j: int| 0 <= i < j < files.len() ==> files[i].user_id != files[j].user_id
}

/// The name of the audio file for `user_id`.
fn file_name_for(session: u64, user_id: u64, time: u64) -> (r: String)
    ensures
        r@ == audio_file_name(session, user_id, time),
{
    let mut s = String::new();
    push_decimal(&mut s, session);
    s.append("_");
    push_decimal(&mut s, user_id);
    s.append("_");
    push_decimal(&mut s, time);
    s.append(".wav");
    assert(s@ =~= audio_file_name(session, user_id, time));
    s
}

impl UserRecorder {
    /// A recorder with no audio, writing into `temp_dir`, for a session that
    /// started at `session_timestamp`.
    pub fn with_timestamp(temp_dir: &str, session_timestamp: u64) -> (r: Self)
        ensures
            recorder_wf(r@),
            r@.buffers == Map::<u64, Seq<i16>>::empty(),
            r@.temp_dir == temp_dir@,
            r@.session_timestamp == session_timestamp,
    {
        let r = UserRecorder { user_buffers: buffers_new(), temp_dir: owned(temp_dir), session_timestamp };
        assert(r@.buffers.dom() =~= Set::<u64>::empty());
        r
    }

    /// A recorder with no audio for a session starting now.
    pub fn new(temp_dir: &str) -> (r: Self)
        ensures
            recorder_wf(r@),
            r@.buffers == Map::<u64, Seq<i16>>::empty(),
            r@.temp_dir == temp_dir@,
    {
        UserRecorder::with_timestamp(temp_dir, unix_time_secs())
    }

    /// The directory that audio files are written to.
    pub fn temp_dir(&self) -> (r: &str)
        ensures
            r@ == self@.temp_dir,
    {
        self.temp_dir.as_str()
    }

    /// When the session started, in seconds since the Unix epoch.
    pub fn session_timestamp(&self) -> (r: u64)
        ensures
            r == self@.session_timestamp,
    {
        self.session_timestamp
    }

    /// Adds decoded PCM samples for `user_id`; an empty batch is ignored.
    pub fn add_pcm_samples(&mut self, user_id: u64, samples: &[i16])
        ensures
            recorder_wf(final(self)@),
            final(self)@ == with_samples(old(self)@, user_id, samples@),
    {
        proof {
            use_type_invariant(&*self);
        }
        if samples.len() == 0 {
            return;
        }
        let mut map = self.take_buffers();
        let mut buffer = match buffers_remove(&mut map, user_id) {
            Some(entry) => entry.1,
            None => UserAudioBuffer::new(),
        };
        buffer.add_samples(samples);
        buffers_insert(&mut map, user_id, buffer);
        proof {
            let old_v = old(self)@;
            let expect = with_samples(old_v, user_id, samples@);
            assert(buffered_samples(map) =~= expect.buffers);
            assert(buffered_samples(map).dom() =~= old_v.buffers.dom().insert(user_id));
        }
        self.user_buffers = map;
    }

    /// Adds the decoded voice of every speaker in a voice tick, each under the
    /// user id equal to its source id.
    pub fn process_voice_tick(&mut self, speaking: &Vec<SpeakerVoice>)
        requires
            forall|i: int| 0 <= i < speaking@.len() ==> (#[trigger] speaking@[i]).ssrc != 0,
        ensures
            recorder_wf(final(self)@),
            final(self)@ == with_tick(old(self)@, speaking@),
    {
        proof {
            use_type_invariant(&*self);
        }
        let mut i: usize = 0;
        while i < speaking.len()
            invariant
                i <= speaking@.len(),
                recorder_wf(self@),
                self@ == with_tick(old(self)@, speaking@.take(i as int)),
            decreases speaking.len() - i,
        {
            let e = &speaking[i];
            let user_id: u64 = e.ssrc as u64;
            let ghost before = self@;
            match &e.decoded_voice {
                Some(decoded) => {
                    if decoded.len() != 0 {
                        self.add_pcm_samples(user_id, decoded.as_slice());
                    }
                },
                None => {},
            }
            assert(speaking@.take(i + 1).drop_last() =~= speaking@.take(i as int));
            assert(speaking@.take(i + 1).last() == speaking@[i as int]);
            i = i + 1;
        }
        assert(speaking@.take(speaking@.len() as int) =~= speaking@);
    }

    /// Takes out one user's audio, if buffered, as a WAV file named for a
    /// flush at `current_time`.
    fn take_user_audio(&mut self, user_id: u64, current_time: u64) -> (r: Option<PendingAudio>)
        ensures
            recorder_wf(final(self)@),
            final(self)@ == (RecorderView { buffers: old(self)@.buffers.remove(user_id), ..old(self)@ }),
            r is Some <==> old(self)@.buffers.dom().contains(user_id),
            r matches Some(f) ==> {
                &&& f.user_id == user_id
                &&& f.file_name@ == audio_file_name(old(self)@.session_timestamp, user_id, current_time)
                &&& f.wav@ == wav_file(old(self)@.buffers[user_id])
            },
    {
        let mut map = self.take_buffers();
        let removed = buffers_remove(&mut map, user_id);
        assert(buffered_samples(map).dom() =~= old(self)@.buffers.dom().remove(user_id));
        self.user_buffers = map;
        match removed {
            Some(entry) => {
                let mut buffer = entry.1;
                let samples = buffer.take_samples();
                let file_name = file_name_for(self.session_timestamp, user_id, current_time);
                let wav = encode_wav(samples.as_slice());
                Some(PendingAudio { user_id, file_name, wav })
            },
            None => None,
        }
    }

    /// Takes out every user's audio as a WAV file named for a flush at
    /// `current_time`, leaving the recorder empty.
    pub fn flush_audio_at(&mut self, current_time: u64) -> (r: Vec<PendingAudio>)
        ensures
            recorder_wf(final(self)@),
            final(self)@.buffers == Map::<u64, Seq<i16>>::empty(),
            final(self)@.temp_dir == old(self)@.temp_dir,
            final(self)@.session_timestamp == old(self)@.session_timestamp,
            flushed_files(old(self)@, current_time, r@),
    {
        proof {
            use_type_invariant(&*self);
        }
        let ids = buffer_user_ids(&self.user_buffers);
        let ghost old_v = old(self)@;
        let mut out: Vec<PendingAudio> = Vec::new();
        let mut i: usize = 0;
        while i < ids.len()
            invariant
                ids@.no_duplicates(),
                ids@.to_set() == old_v.buffers.dom(),
                recorder_wf(old_v),
                recorder_wf(self@),
                i <= ids@.len(),
                self@.temp_dir == old_v.temp_dir,
                self@.session_timestamp == old_v.session_timestamp,
                forall|k: u64| #[trigger] self@.buffers.dom().contains(k) ==> old_v.buffers.dom().contains(k)
                    && self@.buffers[k] == old_v.buffers[k],
                forall|j: int| 0 <= j < i ==> !self@.buffers.dom().contains(#[trigger] ids@[j]),
                forall|j: int| i <= j < ids@.len() ==> self@.buffers.dom().contains(#[trigger] ids@[j]),
                out@.len() == i,
                forall|j: int| 0 <= j < i ==> {
                    let f = #[trigger] out@[j];
                    &&& f.user_id == ids@[j]
                    &&& f.file_name@ == audio_file_name(old_v.session_timestamp, f.user_id, current_time)
                    &&& f.wav@ == wav_file(old_v.buffers[f.user_id])
                },
            decreases ids.len() - i,
        {
            proof {
                if i == 0 {
                    assert forall|j: int| 0 <= j < ids@.len() implies self@.buffers.dom().contains(
                        #[trigger] ids@[j]) by {
                        assert(ids@.to_set().contains(ids@[j]));
                    }
                }
            }
            let uid = ids[i];
            let taken = self.take_user_audio(uid, current_time);
            match taken {
                Some(f) => {
                    out.push(f);
                },
                None => {},
            }
            proof {
                assert forall|j: int| i < j < ids@.len() implies self@.buffers.dom().contains(
                    #[trigger] ids@[j]) by {
                    assert(ids@[j] != ids@[i as int]);
                }
            }
            i = i + 1;
        }
        proof {
            assert forall|k: u64| !(#[trigger] self@.buffers.dom().contains(k)) by {
                if self@.buffers.dom().contains(k) {
                    assert(ids@.to_set().contains(k));
                    let j = choose|j: int| 0 <= j < ids@.len() && ids@[j] == k;
                    assert(!self@.buffers.dom().contains(ids@[j]));
                }
            }
            assert(self@.buffers =~= Map::<u64, Seq<i16>>::empty());
            assert forall|k: u64| #[trigger] old_v.buffers.dom().contains(k) implies exists|j: int|
                0 <= j < out@.len() && (#[trigger] out@[j]).user_id == k by {
                assert(ids@.to_set().contains(k));
                let j = choose|j: int| 0 <= j < ids@.len() && ids@[j] == k;
                assert(out@[j].user_id == k);
            }
            assert forall|j: int| 0 <= j < out@.len() implies old_v.buffers.dom().contains(
                (#[trigger] out@[j]).user_id) by {
                assert(ids@.to_set().contains(ids@[j]));
            }
        }
        out
    }

    /// Takes out every user's audio as WAV files named for the current time,
    /// leaving the recorder empty.
    pub fn flush_audio(&mut self) -> (r: Vec<PendingAudio>)
        ensures
            recorder_wf(final(self)@),
            final(self)@.buffers == Map::<u64, Seq<i16>>::empty(),
            final(self)@.temp_dir == old(self)@.temp_dir,
            final(self)@.session_timestamp == old(self)@.session_timestamp,
            exists|t: u64| flushed_files(old(self)@, t, r@),
    {
        proof {
            use_type_invariant(&*self);
        }
        let now = unix_time_secs();
        self.flush_audio_at(now)
    }

    /// Drops all buffered audio without saving it.
    pub fn clear(&mut self)
        ensures
            recorder_wf(final(self)@),
            final(self)@ == (RecorderView { buffers: Map::<u64, Seq<i16>>::empty(), ..old(self)@ }),
    {
        let mut map = self.take_buffers();
        buffers_clear(&mut map);
        assert(buffered_samples(map).dom() =~= Set::<u64>::empty());
        self.user_buffers = map;
    }

    /// Whether any user has buffered audio.
    pub fn has_data(&self) -> (r: bool)
        ensures
            r == (self@.buffers.dom().len() > 0),
    {
        proof {
            use_type_invariant(&*self);
        }
        buffers_len(&self.user_buffers) > 0
    }

    /// The number of users with buffered audio.
    pub fn user_count(&self) -> (r: usize)
        ensures
            r == self@.buffers.dom().len(),
    {
        proof {
            use_type_invariant(&*self);
        }
        buffers_len(&self.user_buffers)
    }
}

/// The outcome of a flush once its files were written: the files that were
/// saved, or `NoData` when none was.
pub fn saved_or_no_data<T>(saved: Vec<T>) -> (r: Result<Vec<T>, RecorderError>)
    ensures
        saved@.len() == 0 ==> r matches Err(RecorderError::NoData),
        saved@.len() > 0 ==> (r matches Ok(v) && v@ == saved@),
{
    if saved.len() == 0 {
        Err(RecorderError::NoData)
    } else {
        Ok(saved)
    }
}

/// Audio added for a user and then flushed comes back in that user's file:
/// reading the file's samples gives exactly the samples added, in order.
pub proof fn lemma_flush_gives_back_samples(v: RecorderView, time: u64, files: Seq<PendingAudio>, j: int)
    requires
        flushed_files(v, time, files),
        0 <= j < files.len(),
    ensures
        files[j].wav@.len() == 44 + 2 * v.buffers[files[j].user_id].len(),
        forall|i: int| 0 <= i < v.buffers[files[j].user_id].len() ==>
            #[trigger] sample_at(files[j].wav@, i) == v.buffers[files[j].user_id][i],
{
    let f = files[j];
    lemma_wav_read_back(v.buffers[f.user_id]);
}

} // verus!
