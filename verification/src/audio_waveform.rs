//! Audio waveforms beside movie fingerprints: the FFmpeg invocation that extracts
//! mono 16-bit PCM, the decoding of its output, and the checks of a waveform request.

use vstd::prelude::*;
use crate::markdown::split_lines;
use crate::text::{concat, decimal, push_decimal, push_signed_decimal, signed_decimal, str_chars};

verus! {

broadcast use vstd::string::group_string_axioms;

/// Errors of audio waveform operations.
#[derive(Debug, Clone)]
pub enum AudioWaveformError {
    FfmpegError(String),
    IoError(String),
    InvalidInput(String),
    ProcessingError(String),
}

/// The text of a waveform error.
pub open spec fn audio_error_text(e: AudioWaveformError) -> Seq<char> {
    match e {
        AudioWaveformError::FfmpegError(m) => "AUDIO_WAVEFORM_FFMPEG_ERROR -- "@ + m@,
        AudioWaveformError::IoError(m) => "AUDIO_WAVEFORM_IO_ERROR -- "@ + m@,
        AudioWaveformError::InvalidInput(m) => "AUDIO_WAVEFORM_INVALID_INPUT -- "@ + m@,
        AudioWaveformError::ProcessingError(m) => "AUDIO_WAVEFORM_PROCESSING_ERROR -- "@ + m@,
    }
}

impl AudioWaveformError {
    /// The text of the error.
    pub fn message(&self) -> (r: String)
        ensures
            r@ == audio_error_text(*self),
    {
        match self {
            AudioWaveformError::FfmpegError(m) => concat("AUDIO_WAVEFORM_FFMPEG_ERROR -- ", m.as_str()),
            AudioWaveformError::IoError(m) => concat("AUDIO_WAVEFORM_IO_ERROR -- ", m.as_str()),
            AudioWaveformError::InvalidInput(m) => concat("AUDIO_WAVEFORM_INVALID_INPUT -- ", m.as_str()),
            AudioWaveformError::ProcessingError(m) => concat("AUDIO_WAVEFORM_PROCESSING_ERROR -- ", m.as_str()),
        }
    }
}

/// Views of a string sequence.
pub open spec fn args_view(v: Seq<String>) -> Seq<Seq<char>> {
    v.map_values(|s: String| s@)
}

/// The FFmpeg arguments extracting mono signed 16-bit little-endian PCM at
/// `sample_rate` Hz from a video, written to standard output.
pub open spec fn pcm_args_spec(video: Seq<char>, sample_rate: u32) -> Seq<Seq<char>> {
    seq![
        "-i"@, video, "-vn"@, "-ac"@, "1"@, "-ar"@, decimal(sample_rate as nat), "-f"@, "s16le"@,
        "-acodec"@, "pcm_s16le"@, "-"@,
    ]
}

/// The FFmpeg arguments extracting PCM from `video` at `sample_rate` Hz.
pub fn pcm_args(video: &str, sample_rate: u32) -> (r: Vec<String>)
    ensures
        args_view(r@) == pcm_args_spec(video@, sample_rate),
{
    let mut rate = String::new();
    push_decimal(&mut rate, sample_rate as u64);
    assert(rate@ =~= decimal(sample_rate as nat));
    let mut v: Vec<String> = Vec::new();
    v.push(String::from_str("-i"));
    v.push(String::from_str(video));
    v.push(String::from_str("-vn"));
    v.push(String::from_str("-ac"));
    v.push(String::from_str("1"));
    v.push(String::from_str("-ar"));
    v.push(rate);
    v.push(String::from_str("-f"));
    v.push(String::from_str("s16le"));
    v.push(String::from_str("-acodec"));
    v.push(String::from_str("pcm_s16le"));
    v.push(String::from_str("-"));
    assert(args_view(v@) =~= pcm_args_spec(video@, sample_rate));
    v
}

/// The signed 16-bit sample stored little-endian in `lo`, `hi`.
pub open spec fn sample_le(lo: u8, hi: u8) -> i16 {
    (lo as int + 256 * hi as int) as i16
}

/// The samples of a little-endian PCM stream; a trailing odd byte is ignored.
pub open spec fn pcm_samples(bytes: Seq<u8>) -> Seq<i16> {
    Seq::new(bytes.len() / 2, |i: int| sample_le(bytes[2 * i], bytes[2 * i + 1]))
}

/// Decode the PCM stream FFmpeg wrote: at least one sample is needed.
pub fn decode_pcm(bytes: &[u8]) -> (r: Result<Vec<i16>, AudioWaveformError>)
    ensures
        bytes@.len() < 2 ==> (r matches Err(AudioWaveformError::ProcessingError(m)) && m@
            == "no audio data extracted (possibly no audio track)"@),
        bytes@.len() >= 2 ==> (r matches Ok(v) && v@ == pcm_samples(bytes@)),
{
    let n = bytes.len();
    if n < 2 {
        return Err(AudioWaveformError::ProcessingError(String::from_str("no audio data extracted (possibly no audio track)")));
    }
    let count = n / 2;
    let mut out: Vec<i16> = Vec::new();
    let mut i: usize = 0;
    while i < count
        invariant
            n == bytes@.len(),
            count == n / 2,
            i <= count,
            out@ == pcm_samples(bytes@).take(i as int),
        decreases count - i,
    {
        let lo = bytes[2 * i];
        let hi = bytes[2 * i + 1];
        let word: u16 = (lo as u16) + (hi as u16) * 256;
        let s: i16 = word as i16;
        proof {
            assert(word as int == lo as int + 256 * hi as int);
            assert(s == sample_le(lo, hi));
        }
        out.push(s);
        proof {
            assert(out@ =~= pcm_samples(bytes@).take(i + 1));
        }
        i = i + 1;
    }
    assert(pcm_samples(bytes@).take(count as int) =~= pcm_samples(bytes@));
    Ok(out)
}

/// The first `k` lines of a text joined by "; ".
pub open spec fn first_lines_joined(lines: Seq<Seq<char>>, k: nat) -> Seq<char>
    decreases k,
{
    if k == 0 || lines.len() == 0 {
        Seq::empty()
    } else if k == 1 || lines.len() == 1 {
        lines[0]
    } else {
        lines[0] + "; "@ + first_lines_joined(lines.drop_first(), (k - 1) as nat)
    }
}

/// How the exit status of FFmpeg is shown: "Some(code)", or "None" when it was ended
/// by a signal.
pub open spec fn exit_code_text(code: Option<i32>) -> Seq<char> {
    match code {
        Some(c) => "Some("@ + signed_decimal(c as int) + ")"@,
        None => "None"@,
    }
}

/// The error when FFmpeg failed: its exit status and the first five lines of what it
/// wrote to standard error, joined by "; ".
pub fn ffmpeg_failure(code: Option<i32>, stderr: &str) -> (r: AudioWaveformError)
    ensures
        r matches AudioWaveformError::FfmpegError(m) && m@ == "ffmpeg exited with code "@
            + exit_code_text(code) + ": "@ + first_lines_joined(split_lines(stderr@), 5),
{
    let mut m = String::from_str("ffmpeg exited with code ");
    match code {
        Some(c) => {
            m.append("Some(");
            push_signed_decimal(&mut m, c as i64);
            m.append(")");
        },
        None => {
            m.append("None");
        },
    }
    m.append(": ");
    let chars = str_chars(stderr);
    let lines = crate::markdown::split_text_lines(chars.as_slice());
    let ghost all = split_lines(stderr@);
    let ghost start = m@;
    let k: usize = if lines.len() < 5 {
        lines.len()
    } else {
        5
    };
    let mut i: usize = 0;
    proof {
        lemma_joined_prefix(all, 0);
    }
    while i < k
        invariant
            k <= lines@.len(),
            k <= 5,
            i <= k,
            lines@.len() == all.len(),
            forall|j: int| 0 <= j < lines@.len() ==> #[trigger] lines@[j]@ == all[j],
            m@ == start + first_lines_joined(all, i as nat),
        decreases k - i,
    {
        if i > 0 {
            m.append("; ");
        }
        let s = crate::text::string_from_chars(lines[i].as_slice());
        m.append(s.as_str());
        proof {
            lemma_joined_step(all, i as nat);
        }
        i = i + 1;
    }
    proof {
        lemma_joined_saturates(all, k as nat, 5);
    }
    AudioWaveformError::FfmpegError(m)
}

proof fn lemma_joined_prefix(lines: Seq<Seq<char>>, k: nat)
    ensures
        k == 0 ==> first_lines_joined(lines, k) == Seq::<char>::empty(),
{
}

proof fn lemma_joined_step(lines: Seq<Seq<char>>, i: nat)
    requires
        i < lines.len(),
    ensures
        first_lines_joined(lines, i + 1) == if i == 0 {
            lines[0]
        } else {
            first_lines_joined(lines, i) + "; "@ + lines[i as int]
        },
    decreases i,
{
    if i > 0 {
        lemma_joined_step(lines.drop_first(), (i - 1) as nat);
        if i > 1 {
            assert(first_lines_joined(lines, i + 1) =~= lines[0] + "; "@ + first_lines_joined(
                lines.drop_first(),
                i,
            ));
        }
    }
}

proof fn lemma_joined_saturates(lines: Seq<Seq<char>>, k: nat, cap: nat)
    requires
        k <= cap,
        k == cap || k == lines.len(),
    ensures
        first_lines_joined(lines, k) == first_lines_joined(lines, cap),
    decreases k,
{
    if k < cap && lines.len() > 0 {
        if k > 0 {
            lemma_joined_saturates(lines.drop_first(), (k - 1) as nat, (cap - 1) as nat);
        }
    }
}

/// The error when FFmpeg could not be started: not installed, or another reason.
pub fn ffmpeg_launch_failure(not_found: bool, reason: &str) -> (r: AudioWaveformError)
    ensures
        not_found ==> (r matches AudioWaveformError::FfmpegError(m) && m@
            == "ffmpeg not found \u{2014} install FFmpeg and ensure it is on PATH"@),
        !not_found ==> (r matches AudioWaveformError::FfmpegError(m) && m@ == "failed to run ffmpeg: "@
            + reason@),
{
    if not_found {
        AudioWaveformError::FfmpegError(String::from_str("ffmpeg not found \u{2014} install FFmpeg and ensure it is on PATH"))
    } else {
        AudioWaveformError::FfmpegError(concat("failed to run ffmpeg: ", reason))
    }
}

/// The error for a video file that does not exist.
pub fn video_not_found(path: &str) -> (r: AudioWaveformError)
    ensures
        r matches AudioWaveformError::InvalidInput(m) && m@ == "video file not found: "@ + path@,
{
    AudioWaveformError::InvalidInput(concat("video file not found: ", path))
}

/// What a waveform image is made of.
#[derive(Debug, Clone)]
pub struct AudioWaveformOutput {
    /// Where the waveform image was saved.
    pub waveform_path: String,
    /// Number of PCM samples extracted.
    pub sample_count: usize,
    /// Number of columns of the waveform.
    pub bin_count: usize,
}

/// A waveform to produce: the FFmpeg arguments to run, and the size of the image.
#[derive(Debug, Clone)]
pub struct WaveformJob {
    /// Arguments of the FFmpeg run extracting the audio.
    pub ffmpeg_args: Vec<String>,
    /// Number of waveform columns (the strip width).
    pub columns: usize,
    /// Height of the waveform image.
    pub height: usize,
    /// Where the image goes.
    pub output_path: String,
}

/// Check a waveform request and prepare it: the strip width and the waveform height
/// must be non-zero; the audio is then extracted with the FFmpeg arguments given.
pub fn generate_waveform_image(
    video_path: &str,
    strip_width: usize,
    output_path: &str,
    waveform_height: usize,
    sample_rate: u32,
) -> (r: Result<WaveformJob, AudioWaveformError>)
    ensures
        strip_width == 0 ==> (r matches Err(AudioWaveformError::InvalidInput(m)) && m@
            == "strip_width must be non-zero"@),
        strip_width > 0 && waveform_height == 0 ==> (r matches Err(AudioWaveformError::InvalidInput(m))
            && m@ == "waveform_height must be non-zero"@),
        strip_width > 0 && waveform_height > 0 ==> (r matches Ok(job) && args_view(job.ffmpeg_args@)
            == pcm_args_spec(video_path@, sample_rate) && job.columns == strip_width && job.height
            == waveform_height && job.output_path@ == output_path@),
{
    if strip_width == 0 {
        return Err(AudioWaveformError::InvalidInput(String::from_str("strip_width must be non-zero")));
    }
    if waveform_height == 0 {
        return Err(AudioWaveformError::InvalidInput(String::from_str("waveform_height must be non-zero")));
    }
    Ok(WaveformJob {
        ffmpeg_args: pcm_args(video_path, sample_rate),
        columns: strip_width,
        height: waveform_height,
        output_path: String::from_str(output_path),
    })
}

/// What a finished waveform job reports.
pub fn waveform_output(job: &WaveformJob, sample_count: usize) -> (r: AudioWaveformOutput)
    ensures
        r.waveform_path@ == job.output_path@,
        r.sample_count == sample_count,
        r.bin_count == job.columns,
{
    AudioWaveformOutput {
        waveform_path: job.output_path.clone(),
        sample_count,
        bin_count: job.columns,
    }
}

} // verus!
