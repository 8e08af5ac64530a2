//! Offline rendering: a song as 16-bit PCM samples, and those samples as a
//! WAVE file.
//!
//! Rendering is this crate's own arithmetic and is proved sample by sample.
//! The file is written by the `hound` crate; what it writes is stated here
//! byte by byte and is taken on trust.

use crate::note::Note;
use crate::player::Song;
use crate::waveform::{generate_sample, quantize, quantized, sample, CYCLE, SAMPLE_RATE};
use vstd::arithmetic::div_mod::{lemma_add_mod_noop, lemma_mod_twice};
use vstd::prelude::*;

verus! {

/// Channels of an exported file: mono.
pub const CHANNELS: u16 = 1;

/// Bits in one exported sample.
pub const BITS_PER_SAMPLE: u16 = 16;

/// The most samples that one exported file holds: with two bytes to a sample
/// and the 36 bytes of header that are counted with them, the length fields
/// of the container reach no further.
pub const MAX_WAV_SAMPLES: u64 = 2_147_483_629;

/// Why a song could not be exported.
#[derive(Debug)]
pub enum ExportError {
    /// The song has more samples than one file holds.
    TooLong,
    /// The encoder failed; its message is kept. No export of a song that
    /// fits ends so.
    Encoder(String),
}

impl ExportError {
    /// The error in words.
    pub open spec fn text(self) -> Seq<char> {
        match self {
            ExportError::TooLong => "the song has more samples than a WAVE file holds"@,
            ExportError::Encoder(message) => message@,
        }
    }

    /// Says the error in words: for a failure of the encoder, its message.
    pub fn message(&self) -> (text: String)
        ensures
            text@ == self.text(),
    {
        match self {
            ExportError::TooLong => "the song has more samples than a WAVE file holds".to_owned(),
            ExportError::Encoder(message) => message.clone(),
        }
    }
}

/// How many samples a tone of `dur` microseconds takes: the duration times
/// the sample rate, rounded down.
pub open spec fn sample_count(dur: int) -> int {
    dur * SAMPLE_RATE / 1_000_000
}

/// Sample number `i` of a note. A tone of `freq` millihertz has advanced
/// `i * freq` ticks by then.
pub open spec fn note_sample(note: Note, i: int) -> i16 {
    quantized(sample(note.wave, i * note.freq), note.vol as int) as i16
}

/// All the samples of a note, each tone starting at phase zero.
pub open spec fn note_samples(note: Note) -> Seq<i16> {
    Seq::new(sample_count(note.dur as int) as nat, |i: int| note_sample(note, i))
}

/// The samples of a run of notes: those of each note in turn, with nothing
/// between them.
pub open spec fn rendered(notes: Seq<Note>) -> Seq<i16>
    decreases notes.len(),
{
    if notes.len() == 0 {
        Seq::empty()
    } else {
        rendered(notes.drop_last()) + note_samples(notes.last())
    }
}

/// How many samples a run of notes takes.
pub open spec fn total_samples(notes: Seq<Note>) -> int
    decreases notes.len(),
{
    if notes.len() == 0 {
        0
    } else {
        total_samples(notes.drop_last()) + sample_count(notes.last().dur as int)
    }
}

/// A run of notes renders to as many samples as its notes take together.
pub proof fn rendered_len(notes: Seq<Note>)
    ensures
        rendered(notes).len() == total_samples(notes),
        total_samples(notes) >= 0,
    decreases notes.len(),
{
    if notes.len() > 0 {
        rendered_len(notes.drop_last());
    }
}

/// Notes are rendered back to back: the samples of two runs of notes, one
/// after the other, are the samples of the first and then those of the
/// second, with nothing between them and nothing carried over.
pub proof fn rendered_back_to_back(first: Seq<Note>, second: Seq<Note>)
    ensures
        rendered(first + second) == rendered(first) + rendered(second),
    decreases second.len(),
{
    if second.len() == 0 {
        assert(first + second =~= first);
        assert(rendered(first) + rendered(second) =~= rendered(first));
    } else {
        rendered_back_to_back(first, second.drop_last());
        assert((first + second).drop_last() =~= first + second.drop_last());
        assert(rendered(first + second) =~= rendered(first) + rendered(second));
    }
}

/// A rest, and any note at no volume, renders to silence: every sample of
/// it is zero.
pub proof fn silence_renders_to_zeros(note: Note, i: int)
    requires
        note.wave is Rest || note.vol == 0,
    ensures
        note_sample(note, i) == 0,
{
    let amp = sample(note.wave, i * note.freq);
    assert(amp * (note.vol as int) * 32_767 == 0) by (nonlinear_arith)
        requires
            amp == 0 || note.vol == 0,
    ;
}

/// The first notes of a run take no more samples than the whole run.
pub proof fn total_samples_of_prefix(notes: Seq<Note>, n: int)
    requires
        0 <= n <= notes.len(),
    ensures
        0 <= total_samples(notes.take(n)) <= total_samples(notes),
    decreases notes.len(),
{
    if n == notes.len() {
        assert(notes.take(n) =~= notes);
        rendered_len(notes);
    } else {
        total_samples_of_prefix(notes.drop_last(), n);
        assert(notes.drop_last().take(n) =~= notes.take(n));
    }
}

/// The two bytes of a 16-bit value, low byte first. A negative value is
/// written in two's complement.
pub open spec fn le16(x: int) -> Seq<u8> {
    seq![(x % 256) as u8, (x / 256 % 256) as u8]
}

/// The four bytes of a 32-bit value, low byte first.
pub open spec fn le32(x: int) -> Seq<u8> {
    seq![
        (x % 256) as u8,
        (x / 256 % 256) as u8,
        (x / 65_536 % 256) as u8,
        (x / 16_777_216 % 256) as u8,
    ]
}

/// The 44 bytes that stand before the samples of a PCM file with `count`
/// samples of 16 bits: the RIFF chunk with the length of all that follows
/// it, the `fmt ` chunk, and the head of the `data` chunk.
pub open spec fn wave_header(channels: u16, sample_rate: u32, bits_per_sample: u16, count: int) -> Seq<
    u8,
> {
    seq![0x52u8, 0x49, 0x46, 0x46] + le32(36 + 2 * count)
        + seq![0x57u8, 0x41, 0x56, 0x45]
        + seq![0x66u8, 0x6d, 0x74, 0x20] + le32(16)
        + le16(1) + le16(channels as int) + le32(sample_rate as int)
        + le32(sample_rate * 2 * channels) + le16(2 * channels) + le16(bits_per_sample as int)
        + seq![0x64u8, 0x61, 0x74, 0x61] + le32(2 * count)
}

/// The samples as bytes, each sample low byte first.
pub open spec fn pcm_bytes(samples: Seq<i16>) -> Seq<u8> {
    Seq::new(
        2 * samples.len(),
        |k: int| if k % 2 == 0 {
            (samples[k / 2] as int % 256) as u8
        } else {
            (samples[k / 2] as int / 256 % 256) as u8
        },
    )
}

/// A PCM WAVE file of 16-bit samples: the header, then the samples.
pub open spec fn wave_file(
    channels: u16,
    sample_rate: u32,
    bits_per_sample: u16,
    samples: Seq<i16>,
) -> Seq<u8> {
    wave_header(channels, sample_rate, bits_per_sample, samples.len() as int) + pcm_bytes(samples)
}

/// A file is 44 bytes longer than its samples, which take two bytes each.
pub proof fn wave_file_len(
    channels: u16,
    sample_rate: u32,
    bits_per_sample: u16,
    samples: Seq<i16>,
)
    ensures
        wave_file(channels, sample_rate, bits_per_sample, samples).len() == 44 + 2 * samples.len(),
{
}

#[verifier::external_type_specification]
#[verifier::external_body]
pub struct ExHoundError(hound::Error);

/// Calls `hound::WavWriter`: `new` on a buffer in memory with an integer
/// sample format, `write_sample` for each sample in order, then `finalize`.
///
/// Trusted: the writer succeeds, and the buffer then holds a PCM file as
/// `wave_file` lays it out. For one channel of 16 bits the writer puts down
/// the 16-byte form of the `fmt ` chunk, so that the header is 44 bytes, and
/// `finalize` fills in the two lengths. The writer fails on a bit depth that
/// it does not write, on a sample too wide for the depth, on a sample short
/// of a whole frame and when its destination fails: 16-bit samples on one
/// channel into memory meet none of these. The bounds keep the writer's
/// 32-bit byte counts from overflowing.
#[verifier::external_body]
fn encode_pcm16(channels: u16, sample_rate: u32, bits_per_sample: u16, samples: &Vec<i16>) -> (r:
    Result<Vec<u8>, hound::Error>)
    requires
        channels == 1,
        bits_per_sample == 16,
        1 <= sample_rate <= 0x7fff_ffff,
        samples@.len() * 2 + 36 <= u32::MAX,
    ensures
        r is Ok,
        r matches Ok(bytes) ==> bytes@ == wave_file(
            channels,
            sample_rate,
            bits_per_sample,
            samples@,
        ),
{
    let sample_format = hound::SampleFormat::Int;
    let spec = hound::WavSpec { channels, sample_rate, bits_per_sample, sample_format };
    let mut buffer = std::io::Cursor::new(Vec::new());
    let mut writer = hound::WavWriter::new(&mut buffer, spec)?;
    for pcm in samples.iter() {
        writer.write_sample(*pcm)?;
    }
    writer.finalize()?;
    Ok(buffer.into_inner())
}

/// Calls the `Display` impl of `hound::Error` for the message of a failure.
/// Nothing is claimed of the text.
#[verifier::external_body]
fn encoder_message(error: &hound::Error) -> String {
    format!("{}", error)
}

/// What an export returns once the encoder has answered: the file as it is,
/// or the encoder's failure as an error of this crate.
pub fn finish_export(encoded: Result<Vec<u8>, hound::Error>) -> (r: Result<Vec<u8>, ExportError>)
    ensures
        match encoded {
            Ok(bytes) => r == Ok::<Vec<u8>, ExportError>(bytes),
            Err(_) => r matches Err(ExportError::Encoder(_)),
        },
{
    match encoded {
        Ok(bytes) => Ok(bytes),
        Err(error) => Err(ExportError::Encoder(encoder_message(&error))),
    }
}

impl Note {
    /// How many samples this note takes.
    pub fn sample_count(&self) -> (n: u64)
        ensures
            n == sample_count(self.dur as int),
    {
        (((self.dur as u128) * 44_100) / 1_000_000) as u64
    }

    /// Appends the samples of this note to `out`.
    pub fn render_into(&self, out: &mut Vec<i16>)
        ensures
            final(out)@ == old(out)@ + note_samples(*self),
    {
        let ghost before = out@;
        let count: u64 = self.sample_count();
        let step: u64 = (self.freq as u64) % CYCLE;
        let mut phase: u64 = 0;
        let mut i: u64 = 0;
        assert(out@ =~= before + Seq::new(0, |k: int| note_sample(*self, k)));
        while i < count
            invariant
                i <= count,
                count == sample_count(self.dur as int),
                step == (self.freq as int) % (CYCLE as int),
                phase == (i * self.freq) % (CYCLE as int),
                out@ == before + Seq::new(i as nat, |k: int| note_sample(*self, k)),
            decreases count - i,
        {
            let amp: i64 = generate_sample(&self.wave, phase);
            let pcm: i16 = quantize(amp, self.vol);
            proof {
                lemma_mod_twice(i * self.freq, CYCLE as int);
                assert(pcm == note_sample(*self, i as int));
                lemma_add_mod_noop(i * self.freq, self.freq as int, CYCLE as int);
                assert((i + 1) * self.freq == i * self.freq + self.freq) by (nonlinear_arith);
            }
            out.push(pcm);
            phase = (phase + step) % CYCLE;
            i = i + 1;
            assert(out@ =~= before + Seq::new(i as nat, |k: int| note_sample(*self, k)));
        }
        assert(out@ =~= before + note_samples(*self));
    }
}

impl Song {
    /// What `export_to_wav` returns for this song: `TooLong` exactly when the
    /// song takes more samples than a file holds; otherwise the file of the
    /// song's samples.
    pub open spec fn wav_export(self, r: Result<Vec<u8>, ExportError>) -> bool {
        if total_samples(self.notes@) > MAX_WAV_SAMPLES {
            r == Err::<Vec<u8>, ExportError>(ExportError::TooLong)
        } else {
            r matches Ok(bytes) && bytes@ == wave_file(
                CHANNELS,
                SAMPLE_RATE,
                BITS_PER_SAMPLE,
                rendered(self.notes@),
            )
        }
    }

    /// How many samples the song takes, if one file holds them.
    pub fn sample_len(&self) -> (n: Option<u64>)
        ensures
            match n {
                Some(n) => n == total_samples(self.notes@) && n <= MAX_WAV_SAMPLES,
                None => total_samples(self.notes@) > MAX_WAV_SAMPLES,
            },
    {
        let mut total: u64 = 0;
        let mut j: usize = 0;
        assert(self.notes@.take(0) =~= Seq::<Note>::empty());
        while j < self.notes.len()
            invariant
                j <= self.notes.len(),
                total == total_samples(self.notes@.take(j as int)),
                total <= MAX_WAV_SAMPLES,
            decreases self.notes.len() - j,
        {
            let count: u64 = self.notes[j].sample_count();
            proof {
                assert(self.notes@.take(j + 1).drop_last() =~= self.notes@.take(j as int));
                total_samples_of_prefix(self.notes@, j + 1);
            }
            if count > MAX_WAV_SAMPLES - total {
                return None;
            }
            total = total + count;
            j = j + 1;
        }
        assert(self.notes@.take(j as int) =~= self.notes@);
        Some(total)
    }

    /// Renders the song to 16-bit samples at `SAMPLE_RATE`.
    pub fn render(&self) -> (pcm: Vec<i16>)
        ensures
            pcm@ == rendered(self.notes@),
    {
        let mut pcm: Vec<i16> = Vec::new();
        let mut j: usize = 0;
        assert(self.notes@.take(0) =~= Seq::<Note>::empty());
        while j < self.notes.len()
            invariant
                j <= self.notes.len(),
                pcm@ == rendered(self.notes@.take(j as int)),
            decreases self.notes.len() - j,
        {
            self.notes[j].render_into(&mut pcm);
            proof {
                assert(self.notes@.take(j + 1).drop_last() =~= self.notes@.take(j as int));
            }
            j = j + 1;
        }
        assert(self.notes@.take(j as int) =~= self.notes@);
        pcm
    }

    /// Exports the song as the bytes of a mono, 16-bit WAVE file at
    /// `SAMPLE_RATE`.
    pub fn export_to_wav(&self) -> (r: Result<Vec<u8>, ExportError>)
        ensures
            self.wav_export(r),
    {
        match self.sample_len() {
            None => Err(ExportError::TooLong),
            Some(_) => {
                let pcm: Vec<i16> = self.render();
                proof {
                    rendered_len(self.notes@);
                }
                let encoded = encode_pcm16(CHANNELS, SAMPLE_RATE, BITS_PER_SAMPLE, &pcm);
                finish_export(encoded)
            },
        }
    }
}

/// Exporting is deterministic: two exports of the same notes give the same
/// result, byte for byte, whatever the tempo written on the songs.
pub proof fn export_is_deterministic(
    first_song: Song,
    second_song: Song,
    first: Result<Vec<u8>, ExportError>,
    second: Result<Vec<u8>, ExportError>,
)
    requires
        first_song.notes@ == second_song.notes@,
        first_song.wav_export(first),
        second_song.wav_export(second),
    ensures
        first is Ok <==> second is Ok,
        first is Ok ==> first->Ok_0@ == second->Ok_0@,
        first is Err ==> first == second,
{
}

} // verus!
