use vstd::prelude::*;

verus! {

/// Sample rate of the recorded audio, in samples per second.
pub const SAMPLE_RATE: u32 = 16000;
/// Number of audio channels (mono).
pub const CHANNELS: u16 = 1;
/// Bits per sample.
pub const BITS_PER_SAMPLE: u16 = 16;
/// Size of the header that precedes the samples in a WAV file, in bytes.
pub const WAV_HEADER_LEN: usize = 44;

/// Little-endian bytes of a 16-bit value.
pub open spec fn le_u16(x: u16) -> Seq<u8> {
    seq![(x % 256) as u8, (x / 256) as u8]
}

/// Little-endian bytes of a 32-bit value.
pub open spec fn le_u32(x: u32) -> Seq<u8> {
    seq![(x % 256) as u8, ((x / 256) % 256) as u8, ((x / 65536) % 256) as u8, (x / 16777216) as u8]
}

/// Little-endian bytes of a signed 16-bit sample (its two's complement bits).
pub open spec fn le_i16(x: i16) -> Seq<u8> {
    le_u16(x as u16)
}

/// The PCM data: each sample as two little-endian bytes, in order.
pub open spec fn pcm_bytes(samples: Seq<i16>) -> Seq<u8>
    decreases samples.len(),
{
    if samples.len() == 0 {
        Seq::empty()
    } else {
        pcm_bytes(samples.drop_last()) + le_i16(samples.last())
    }
}

/// The size field of the data chunk for `n` samples: `2 * n` taken modulo
/// 2^32, as a 32-bit field holds it.
pub open spec fn data_size_for(n: nat) -> u32 {
    ((2 * n) % 0x1_0000_0000) as u32
}

/// Bytes per second of the recorded format.
pub open spec fn byte_rate() -> u32 {
    (SAMPLE_RATE * CHANNELS as u32 * BITS_PER_SAMPLE as u32 / 8) as u32
}

/// Bytes per sample frame of the recorded format.
pub open spec fn block_align() -> u16 {
    (CHANNELS * BITS_PER_SAMPLE / 8) as u16
}

/// The 44-byte header of a PCM WAV file whose data chunk holds `data_size`
/// bytes.
pub open spec fn wav_header(data_size: u32) -> Seq<u8> {
    seq![0x52u8, 0x49u8, 0x46u8, 0x46u8]  // "RIFF"
    + le_u32(riff_size_for(data_size))
    + seq![0x57u8, 0x41u8, 0x56u8, 0x45u8]  // "WAVE"
    + seq![0x66u8, 0x6du8, 0x74u8, 0x20u8]  // "fmt "
    + le_u32(16)
    + le_u16(1)
    + le_u16(CHANNELS)
    + le_u32(SAMPLE_RATE)
    + le_u32(byte_rate())
    + le_u16(block_align())
    + le_u16(BITS_PER_SAMPLE)
    + seq![0x64u8, 0x61u8, 0x74u8, 0x61u8]  // "data"
    + le_u32(data_size)
}

/// The complete WAV file for `samples`.
pub open spec fn wav_file(samples: Seq<i16>) -> Seq<u8> {
    wav_header(data_size_for(samples.len())) + pcm_bytes(samples)
}

/// The RIFF chunk size field: `36 + data_size`, taken modulo 2^32.
pub open spec fn riff_size_for(data_size: u32) -> u32 {
    ((36 + data_size) % 0x1_0000_0000) as u32
}

/// The sample stored at index `i` of a WAV file's data.
pub open spec fn sample_at(file: Seq<u8>, i: int) -> i16 {
    (((file[44 + 2 * i] as u16) | ((file[44 + 2 * i + 1] as u16) << 8u16)) as u16) as i16
}

fn push_u16(v: &mut Vec<u8>, x: u16)
    ensures
        final(v)@ == old(v)@ + le_u16(x),
{
    let lo: u8 = (x & 0xff) as u8;
    let hi: u8 = (x >> 8) as u8;
    assert(lo == (x % 256) as u8 && hi == (x / 256) as u8) by (bit_vector)
        requires
            lo == (x & 0xff) as u8,
            hi == (x >> 8) as u8,
    ;
    v.push(lo);
    v.push(hi);
    assert(v@ =~= old(v)@ + le_u16(x));
}

fn push_u32(v: &mut Vec<u8>, x: u32)
    ensures
        final(v)@ == old(v)@ + le_u32(x),
{
    let b0: u8 = (x & 0xff) as u8;
    let b1: u8 = ((x >> 8) & 0xff) as u8;
    let b2: u8 = ((x >> 16) & 0xff) as u8;
    let b3: u8 = (x >> 24) as u8;
    assert(b0 == (x % 256) as u8 && b1 == ((x / 256) % 256) as u8 && b2 == ((x / 65536) % 256) as u8
        && b3 == (x / 16777216) as u8) by (bit_vector)
        requires
            b0 == (x & 0xff) as u8,
            b1 == ((x >> 8) & 0xff) as u8,
            b2 == ((x >> 16) & 0xff) as u8,
            b3 == (x >> 24) as u8,
    ;
    v.push(b0);
    v.push(b1);
    v.push(b2);
    v.push(b3);
    assert(v@ =~= old(v)@ + le_u32(x));
}

fn push_tag(v: &mut Vec<u8>, a: u8, b: u8, c: u8, d: u8)
    ensures
        final(v)@ == old(v)@ + seq![a, b, c, d],
{
    v.push(a);
    v.push(b);
    v.push(c);
    v.push(d);
    assert(v@ =~= old(v)@ + seq![a, b, c, d]);
}

/// The bytes of a 16-bit PCM mono WAV file at 16 kHz holding `samples`.
///
/// Sizes that exceed their 32-bit header fields wrap around, as the
/// fields hold them modulo 2^32.
pub fn encode_wav(samples: &[i16]) -> (r: Vec<u8>)
    ensures
        r@ == wav_file(samples@),
{
    let n = samples.len();
    let half: u32 = (n % 0x8000_0000usize) as u32;
    let data_size: u32 = half * 2;
    assert(data_size == data_size_for(n as nat)) by (nonlinear_arith)
        requires
            half == n % 0x8000_0000,
            data_size == half * 2,
    ;
    let riff: u32 = 36u32.wrapping_add(data_size);
    assert(riff == riff_size_for(data_size));
    assert(SAMPLE_RATE * (CHANNELS as u32) * (BITS_PER_SAMPLE as u32) == 256000
        && CHANNELS * BITS_PER_SAMPLE == 16) by (nonlinear_arith)
        requires
            SAMPLE_RATE == 16000,
            CHANNELS == 1,
            BITS_PER_SAMPLE == 16,
    ;
    let rate: u32 = SAMPLE_RATE * CHANNELS as u32 * BITS_PER_SAMPLE as u32 / 8;
    let align: u16 = CHANNELS * BITS_PER_SAMPLE / 8;
    let mut v: Vec<u8> = Vec::new();
    push_tag(&mut v, 0x52, 0x49, 0x46, 0x46);
    push_u32(&mut v, riff);
    push_tag(&mut v, 0x57, 0x41, 0x56, 0x45);
    push_tag(&mut v, 0x66, 0x6d, 0x74, 0x20);
    push_u32(&mut v, 16);
    push_u16(&mut v, 1);
    push_u16(&mut v, CHANNELS);
    push_u32(&mut v, SAMPLE_RATE);
    push_u32(&mut v, rate);
    push_u16(&mut v, align);
    push_u16(&mut v, BITS_PER_SAMPLE);
    push_tag(&mut v, 0x64, 0x61, 0x74, 0x61);
    push_u32(&mut v, data_size);
    assert(v@ =~= wav_header(data_size));
    let ghost header = v@;
    let mut i: usize = 0;
    while i < n
        invariant
            n == samples@.len(),
            i <= n,
            v@ == header + pcm_bytes(samples@.take(i as int)),
        decreases n - i,
    {
        let x = samples[i];
        push_u16(&mut v, #[verifier::truncate] (x as u16));
        assert(samples@.take(i + 1).drop_last() =~= samples@.take(i as int));
        assert(v@ =~= header + pcm_bytes(samples@.take(i + 1)));
        i = i + 1;
    }
    assert(samples@.take(n as int) =~= samples@);
    v
}

proof fn lemma_pcm_len(samples: Seq<i16>)
    ensures
        pcm_bytes(samples).len() == 2 * samples.len(),
    decreases samples.len(),
{
    if samples.len() > 0 {
        lemma_pcm_len(samples.drop_last());
    }
}

proof fn lemma_pcm_index(samples: Seq<i16>, i: int)
    requires
        0 <= i < samples.len(),
    ensures
        pcm_bytes(samples)[2 * i] == le_i16(samples[i])[0],
        pcm_bytes(samples)[2 * i + 1] == le_i16(samples[i])[1],
    decreases samples.len(),
{
    lemma_pcm_len(samples.drop_last());
    if i < samples.len() - 1 {
        lemma_pcm_index(samples.drop_last(), i);
    }
}

/// A WAV file is its 44-byte header followed by two bytes per sample, and
/// reading the data back gives every sample that was written, in order.
pub proof fn lemma_wav_read_back(samples: Seq<i16>)
    ensures
        wav_file(samples).len() == 44 + 2 * samples.len(),
        forall|i: int| 0 <= i < samples.len() ==> #[trigger] sample_at(wav_file(samples), i)
            == samples[i],
{
    lemma_pcm_len(samples);
    assert(wav_header(data_size_for(samples.len())).len() == 44);
    assert forall|i: int| 0 <= i < samples.len() implies #[trigger] sample_at(wav_file(samples), i)
        == samples[i] by {
        lemma_pcm_index(samples, i);
        let f = wav_file(samples);
        let x = samples[i];
        assert(f[44 + 2 * i] == ((x as u16) % 256) as u8);
        assert(f[44 + 2 * i + 1] == ((x as u16) / 256) as u8);
        let b0 = f[44 + 2 * i];
        let b1 = f[44 + 2 * i + 1];
        assert((((b0 as u16) | ((b1 as u16) << 8u16)) as u16) as i16 == x) by (bit_vector)
            requires
                b0 == ((x as u16) % 256) as u8,
                b1 == ((x as u16) / 256) as u8,
        ;
    }
}

/// The number stored little-endian in the four bytes of `file` at `at`.
pub open spec fn u32_field(file: Seq<u8>, at: int) -> int {
    file[at] as int + 256 * (file[at + 1] as int) + 65536 * (file[at + 2] as int) + 16777216 * (
    file[at + 3] as int)
}

proof fn lemma_le_u32_value(x: u32)
    ensures
        u32_field(le_u32(x), 0) == x,
{
    let b0: u32 = x % 256;
    let b1: u32 = (x / 256) % 256;
    let b2: u32 = (x / 65536) % 256;
    let b3: u32 = x / 16777216;
    assert(b0 + 256 * b1 + 65536 * b2 + 16777216 * b3 == x) by (bit_vector)
        requires
            b0 == x % 256,
            b1 == (x / 256) % 256,
            b2 == (x / 65536) % 256,
            b3 == x / 16777216,
    ;
    assert(b3 < 256) by (bit_vector)
        requires
            b3 == x / 16777216,
    ;
    assert(le_u32(x)[0] == b0 && le_u32(x)[1] == b1 && le_u32(x)[2] == b2 && le_u32(x)[3] == b3);
}

/// The size fields of a WAV file agree with the file: whenever its size fits
/// the 32-bit fields, the data chunk's size field (bytes 40..44) is the
/// number of bytes after the header, two per sample, and the RIFF size field
/// (bytes 4..8) is the file's length less 8.
pub proof fn lemma_wav_sizes(samples: Seq<i16>)
    ensures
        2 * samples.len() < 0x1_0000_0000 ==> u32_field(wav_file(samples), 40) == 2 * samples.len()
            && u32_field(wav_file(samples), 40) == wav_file(samples).len() - 44,
        2 * samples.len() + 36 < 0x1_0000_0000 ==> u32_field(wav_file(samples), 4) == wav_file(
            samples,
        ).len() - 8,
{
    lemma_wav_read_back(samples);
    let d = data_size_for(samples.len());
    let f = wav_file(samples);
    let h = wav_header(d);
    assert(h.len() == 44);
    assert(f.subrange(40, 44) =~= le_u32(d));
    assert(f.subrange(4, 8) =~= le_u32(riff_size_for(d)));
    lemma_le_u32_value(d);
    lemma_le_u32_value(riff_size_for(d));
    assert(u32_field(f, 40) == u32_field(f.subrange(40, 44), 0));
    assert(u32_field(f, 4) == u32_field(f.subrange(4, 8), 0));
    if 2 * samples.len() < 0x1_0000_0000 {
        assert(d == 2 * samples.len());
        if 2 * samples.len() + 36 < 0x1_0000_0000 {
            assert(riff_size_for(d) == 36 + 2 * samples.len());
        }
    }
}

} // verus!
