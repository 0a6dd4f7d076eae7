use vstd::prelude::*;
use vstd::string::*;

use crate::text::{lossy_text, trim, trimmed_equals, utf8_lossy};

verus! {

#[verifier::external_type_specification]
#[verifier::external_body]
pub struct ExIoError(std::io::Error);

#[verifier::external_type_specification]
#[verifier::external_body]
pub struct ExWavError(hound::Error);

/// Why converting a media file to WAV samples failed.
#[derive(Debug)]
pub enum ConvertError {
    /// Running a media tool or handling a temporary file failed.
    IoError(std::io::Error),
    /// A media tool reported an error; the text says what it reported.
    FfmpegError(String),
    /// The file has no audio stream.
    NoAudioStream,
    /// The input file does not exist.
    InvalidInput,
    /// The converted WAV data could not be read.
    WavReadError(hound::Error),
}

impl From<std::io::Error> for ConvertError {
    fn from(err: std::io::Error) -> Self {
        ConvertError::IoError(err)
    }
}

impl vstd::std_specs::convert::FromSpecImpl<std::io::Error> for ConvertError {
    open spec fn obeys_from_spec() -> bool {
        true
    }

    open spec fn from_spec(v: std::io::Error) -> Self {
        ConvertError::IoError(v)
    }
}

impl From<hound::Error> for ConvertError {
    fn from(err: hound::Error) -> Self {
        ConvertError::WavReadError(err)
    }
}

impl vstd::std_specs::convert::FromSpecImpl<hound::Error> for ConvertError {
    open spec fn obeys_from_spec() -> bool {
        true
    }

    open spec fn from_spec(v: hound::Error) -> Self {
        ConvertError::WavReadError(v)
    }
}

/// The views of a list of strings.
pub open spec fn texts(v: Seq<String>) -> Seq<Seq<char>> {
    v.map_values(|a: String| a@)
}

/// The probe arguments that ask for the type of the first audio stream of
/// `input`, printed bare.
pub open spec fn audio_probe_args_spec(input: Seq<char>) -> Seq<Seq<char>> {
    seq![
        "-v"@,
        "error"@,
        "-select_streams"@,
        "a:0"@,
        "-show_entries"@,
        "stream=codec_type"@,
        "-of"@,
        "default=noprint_wrappers=1:nokey=1"@,
        input,
    ]
}

/// The arguments of `ffprobe` that report whether `input` has an audio stream.
pub fn audio_probe_args(input: &str) -> (args: Vec<String>)
    ensures
        texts(args@) == audio_probe_args_spec(input@),
        args@.len() == 9,
        args@[0]@ == "-v"@ && args@[1]@ == "error"@,
        args@[2]@ == "-select_streams"@ && args@[3]@ == "a:0"@,
        args@[4]@ == "-show_entries"@ && args@[5]@ == "stream=codec_type"@,
        args@[6]@ == "-of"@ && args@[7]@ == "default=noprint_wrappers=1:nokey=1"@,
        args@[8]@ == input@,
{
    let args = vec![
        String::from_str("-v"),
        String::from_str("error"),
        String::from_str("-select_streams"),
        String::from_str("a:0"),
        String::from_str("-show_entries"),
        String::from_str("stream=codec_type"),
        String::from_str("-of"),
        String::from_str("default=noprint_wrappers=1:nokey=1"),
        String::from_str(input),
    ];
    assert(texts(args@) =~= audio_probe_args_spec(input@));
    args
}

/// What the audio probe's exit and output say: a failed probe is an error
/// carrying its error output; otherwise the file has an audio stream exactly
/// when the output, trimmed of white space, is `audio`.
pub fn audio_probe_result(success: bool, stdout: &[u8], stderr: &[u8]) -> (r: Result<
    bool,
    ConvertError,
>)
    ensures
        !success ==> (r matches Err(ConvertError::FfmpegError(m)) && m@ == utf8_lossy(stderr@)),
        success ==> r == Ok::<bool, ConvertError>(trim(utf8_lossy(stdout@)) == "audio"@),
{
    if !success {
        return Err(ConvertError::FfmpegError(lossy_text(stderr)));
    }
    let out = lossy_text(stdout);
    Ok(trimmed_equals(out.as_str(), "audio"))
}

/// The arguments of `ffmpeg` that convert `input` to 16-bit PCM, mono,
/// 16 kHz WAV in `output`, dropping any video and overwriting `output`.
pub open spec fn wav_conversion_args_spec(input: Seq<char>, output: Seq<char>) -> Seq<Seq<char>> {
    seq![
        "-i"@,
        input,
        "-vn"@,
        "-acodec"@,
        "pcm_s16le"@,
        "-ac"@,
        "1"@,
        "-ar"@,
        "16000"@,
        "-y"@,
        output,
    ]
}

/// The arguments of `ffmpeg` for the conversion of `input` into `output`.
pub fn wav_conversion_args(input: &str, output: &str) -> (args: Vec<String>)
    ensures
        texts(args@) == wav_conversion_args_spec(input@, output@),
        args@.len() == 11,
        args@[0]@ == "-i"@ && args@[1]@ == input@,
        args@[2]@ == "-vn"@,
        args@[3]@ == "-acodec"@ && args@[4]@ == "pcm_s16le"@,
        args@[5]@ == "-ac"@ && args@[6]@ == "1"@,
        args@[7]@ == "-ar"@ && args@[8]@ == "16000"@,
        args@[9]@ == "-y"@ && args@[10]@ == output@,
{
    let args = vec![
        String::from_str("-i"),
        String::from_str(input),
        String::from_str("-vn"),
        String::from_str("-acodec"),
        String::from_str("pcm_s16le"),
        String::from_str("-ac"),
        String::from_str("1"),
        String::from_str("-ar"),
        String::from_str("16000"),
        String::from_str("-y"),
        String::from_str(output),
    ];
    assert(texts(args@) =~= wav_conversion_args_spec(input@, output@));
    args
}

/// The 16-bit samples that `hound` reads from the WAV data `bytes`, or `None`
/// where it reports an error.
pub uninterp spec fn wav_i16_samples(bytes: Seq<u8>) -> Option<Seq<i16>>;

/// Reads WAV data held in memory with `hound::WavReader::new` and collects
/// its samples as `i16` through `into_samples`.  Whether it succeeds and which
/// samples it yields are named `wav_i16_samples`; the error itself is opaque.
#[verifier::external_body]
fn read_wav_samples(bytes: &[u8]) -> (r: Result<Vec<i16>, hound::Error>)
    ensures
        r is Ok <==> wav_i16_samples(bytes@) is Some,
        r matches Ok(v) ==> v@ == wav_i16_samples(bytes@)->0,
{
    match hound::WavReader::new(std::io::Cursor::new(bytes)) {
        Ok(reader) => reader.into_samples::<i16>().collect(),
        Err(e) => Err(e),
    }
}

/// Decodes the WAV data of a converted file into its 16-bit samples.
pub fn decode_wav(bytes: &[u8]) -> (r: Result<Vec<i16>, ConvertError>)
    ensures
        r is Ok <==> wav_i16_samples(bytes@) is Some,
        r matches Ok(v) ==> v@ == wav_i16_samples(bytes@)->0,
        r is Err ==> (r matches Err(ConvertError::WavReadError(_))),
{
    match read_wav_samples(bytes) {
        Ok(samples) => Ok(samples),
        Err(e) => Err(ConvertError::WavReadError(e)),
    }
}


/// The text of the error for an `ffmpeg` run that exited unsuccessfully with
/// the exit status written as `status`.
pub open spec fn ffmpeg_failure_text(status: Seq<char>) -> Seq<char> {
    "ffmpeg exited with status: "@ + status
}

/// Where a conversion to WAV stands.
#[derive(Clone, Copy, Debug, PartialEq, Eq, Structural)]
pub enum ConvertPhase {
    CheckingInput,
    ProbingAudio,
    CreatingTempDir,
    Converting,
    ReadingWav,
    Finished,
}

/// What the outside world reports back to a conversion.
pub enum ConvertEvent {
    InputChecked { exists: bool },
    /// The audio probe ran; its exit status was a success or not.
    ProbeFinished { success: bool, stdout: Vec<u8>, stderr: Vec<u8> },
    /// A temporary directory was made; `output` is the WAV file path in it.
    TempDirCreated { output: String },
    /// `ffmpeg` ran; `status` is its exit status written out.
    FfmpegFinished { success: bool, status: String },
    /// The WAV file was read.
    WavRead { bytes: Vec<u8> },
    /// The WAV file could not be opened.
    WavReadFailed { wav_error: hound::Error },
    /// A tool could not be started or a temporary directory could not be made.
    IoFailed { io_error: std::io::Error },
}

/// What a conversion asks the outside world to do next.
pub enum ConvertAction {
    /// Check that the input file exists.
    CheckInput { path: String },
    /// Run `ffprobe` with these arguments.
    RunProbe { args: Vec<String> },
    /// Make a temporary directory for the WAV file.
    CreateTempDir,
    /// Run `ffmpeg` with these arguments.
    RunFfmpeg { args: Vec<String> },
    /// Read the WAV file.
    ReadWav { path: String },
    /// The conversion is over, with these samples or this error.
    Finish(Result<Vec<i16>, ConvertError>),
}

/// The decisions of converting one media file to 16 kHz mono WAV samples.
pub struct WavConversion {
    pub phase: ConvertPhase,
    pub input: String,
    pub output: String,
}

/// Whether `event` answers the action that `phase` waits for.
pub open spec fn convert_expects(phase: ConvertPhase, event: ConvertEvent) -> bool {
    match phase {
        ConvertPhase::CheckingInput => event is InputChecked,
        ConvertPhase::ProbingAudio => event is ProbeFinished || event is IoFailed,
        ConvertPhase::CreatingTempDir => event is TempDirCreated || event is IoFailed,
        ConvertPhase::Converting => event is FfmpegFinished || event is IoFailed,
        ConvertPhase::ReadingWav => event is WavRead || event is WavReadFailed,
        ConvertPhase::Finished => false,
    }
}

impl WavConversion {
    /// Starts converting `input`: first check that it exists.
    pub fn start(input: String) -> (res: (WavConversion, ConvertAction))
        ensures
            res.0.phase == ConvertPhase::CheckingInput,
            res.0.input@ == input@,
            res.1 matches ConvertAction::CheckInput { path } && path@ == input@,
    {
        let path = input.clone();
        (
            WavConversion { phase: ConvertPhase::CheckingInput, input, output: String::new() },
            ConvertAction::CheckInput { path },
        )
    }

    fn finish(self, outcome: Result<Vec<i16>, ConvertError>) -> (res: (WavConversion, ConvertAction))
        ensures
            res.0.phase == ConvertPhase::Finished,
            res.0.input@ == self.input@,
            res.1 == ConvertAction::Finish(outcome),
    {
        (WavConversion { phase: ConvertPhase::Finished, ..self }, ConvertAction::Finish(outcome))
    }

    /// Takes the answer to the last action and decides the next one.
    pub fn step(self, event: ConvertEvent) -> (res: (WavConversion, ConvertAction))
        requires
            convert_expects(self.phase, event),
        ensures
            res.0.input@ == self.input@,
            res.0.phase == convert_next_phase(self.phase, event),
            match event {
                ConvertEvent::InputChecked { exists } => if exists {
                    &&& res.0.phase == ConvertPhase::ProbingAudio
                    &&& res.1 matches ConvertAction::RunProbe { args } && texts(args@)
                        == audio_probe_args_spec(self.input@)
                } else {
                    &&& res.0.phase == ConvertPhase::Finished
                    &&& res.1 matches ConvertAction::Finish(Err(ConvertError::InvalidInput))
                },
                ConvertEvent::ProbeFinished { success, stdout, stderr } => if !success {
                    &&& res.0.phase == ConvertPhase::Finished
                    &&& res.1 matches ConvertAction::Finish(Err(ConvertError::FfmpegError(m)))
                    &&& m@ == utf8_lossy(stderr@)
                } else if trim(utf8_lossy(stdout@)) == "audio"@ {
                    &&& res.0.phase == ConvertPhase::CreatingTempDir
                    &&& res.1 is CreateTempDir
                } else {
                    &&& res.0.phase == ConvertPhase::Finished
                    &&& res.1 matches ConvertAction::Finish(Err(ConvertError::NoAudioStream))
                },
                ConvertEvent::TempDirCreated { output } => {
                    &&& res.0.phase == ConvertPhase::Converting
                    &&& res.0.output@ == output@
                    &&& res.1 matches ConvertAction::RunFfmpeg { args } && texts(args@)
                        == wav_conversion_args_spec(self.input@, output@)
                },
                ConvertEvent::FfmpegFinished { success, status } => if success {
                    &&& res.0.phase == ConvertPhase::ReadingWav
                    &&& res.1 matches ConvertAction::ReadWav { path } && path@ == self.output@
                } else {
                    &&& res.0.phase == ConvertPhase::Finished
                    &&& res.1 matches ConvertAction::Finish(Err(ConvertError::FfmpegError(m)))
                    &&& m@ == ffmpeg_failure_text(status@)
                },
                ConvertEvent::WavRead { bytes } => {
                    &&& res.0.phase == ConvertPhase::Finished
                    &&& res.1 matches ConvertAction::Finish(r)
                    &&& (r is Ok <==> wav_i16_samples(bytes@) is Some)
                    &&& (r matches Ok(v) ==> v@ == wav_i16_samples(bytes@)->0)
                    &&& (r is Err ==> (r matches Err(ConvertError::WavReadError(_))))
                },
                ConvertEvent::WavReadFailed { wav_error } => {
                    &&& res.0.phase == ConvertPhase::Finished
                    &&& res.1 == ConvertAction::Finish(Err(ConvertError::WavReadError(wav_error)))
                },
                ConvertEvent::IoFailed { io_error } => {
                    &&& res.0.phase == ConvertPhase::Finished
                    &&& res.1 == ConvertAction::Finish(Err(ConvertError::IoError(io_error)))
                },
            },
    {
        match event {
            ConvertEvent::InputChecked { exists } => {
                if exists {
                    let args = audio_probe_args(self.input.as_str());
                    (WavConversion { phase: ConvertPhase::ProbingAudio, ..self }, ConvertAction::RunProbe { args })
                } else {
                    self.finish(Err(ConvertError::InvalidInput))
                }
            },
            ConvertEvent::ProbeFinished { success, stdout, stderr } => {
                match audio_probe_result(success, stdout.as_slice(), stderr.as_slice()) {
                    Err(e) => self.finish(Err(e)),
                    Ok(has_audio) => {
                        if has_audio {
                            (
                                WavConversion { phase: ConvertPhase::CreatingTempDir, ..self },
                                ConvertAction::CreateTempDir,
                            )
                        } else {
                            self.finish(Err(ConvertError::NoAudioStream))
                        }
                    },
                }
            },
            ConvertEvent::TempDirCreated { output } => {
                let args = wav_conversion_args(self.input.as_str(), output.as_str());
                (
                    WavConversion { phase: ConvertPhase::Converting, input: self.input, output },
                    ConvertAction::RunFfmpeg { args },
                )
            },
            ConvertEvent::FfmpegFinished { success, status } => {
                if success {
                    let path = self.output.clone();
                    (WavConversion { phase: ConvertPhase::ReadingWav, ..self }, ConvertAction::ReadWav { path })
                } else {
                    let mut m = String::from_str("ffmpeg exited with status: ");
                    m.append(status.as_str());
                    self.finish(Err(ConvertError::FfmpegError(m)))
                }
            },
            ConvertEvent::WavRead { bytes } => {
                let r = decode_wav(bytes.as_slice());
                self.finish(r)
            },
            ConvertEvent::WavReadFailed { wav_error } => self.finish(Err(ConvertError::WavReadError(wav_error))),
            ConvertEvent::IoFailed { io_error } => self.finish(Err(ConvertError::IoError(io_error))),
        }
    }
}

/// Whatever the file names, `ffmpeg` is asked to read the input (and no video
/// from it) and to write, over any existing output, 16-bit little-endian PCM
/// with one channel at 16000 samples per second: `-ac` is followed by `1`,
/// `-ar` by `16000`, `-acodec` by `pcm_s16le`; the input follows `-i` and the
/// output comes last.
pub proof fn lemma_conversion_asks_for_16khz_mono_pcm(input: Seq<char>, output: Seq<char>)
    ensures
        wav_conversion_args_spec(input, output).len() == 11,
        wav_conversion_args_spec(input, output)[0] == "-i"@,
        wav_conversion_args_spec(input, output)[1] == input,
        wav_conversion_args_spec(input, output)[2] == "-vn"@,
        wav_conversion_args_spec(input, output)[3] == "-acodec"@,
        wav_conversion_args_spec(input, output)[4] == "pcm_s16le"@,
        wav_conversion_args_spec(input, output)[5] == "-ac"@,
        wav_conversion_args_spec(input, output)[6] == "1"@,
        wav_conversion_args_spec(input, output)[7] == "-ar"@,
        wav_conversion_args_spec(input, output)[8] == "16000"@,
        wav_conversion_args_spec(input, output)[9] == "-y"@,
        wav_conversion_args_spec(input, output)[10] == output,
{
}

/// Whatever the file is called, the audio probe asks, quietly except for
/// errors, for the codec type of the first audio stream of exactly that file,
/// printed bare; the file comes last.
pub proof fn lemma_audio_probe_asks_for_first_audio_stream(input: Seq<char>)
    ensures
        audio_probe_args_spec(input).len() == 9,
        audio_probe_args_spec(input)[0] == "-v"@,
        audio_probe_args_spec(input)[1] == "error"@,
        audio_probe_args_spec(input)[2] == "-select_streams"@,
        audio_probe_args_spec(input)[3] == "a:0"@,
        audio_probe_args_spec(input)[4] == "-show_entries"@,
        audio_probe_args_spec(input)[5] == "stream=codec_type"@,
        audio_probe_args_spec(input)[6] == "-of"@,
        audio_probe_args_spec(input)[7] == "default=noprint_wrappers=1:nokey=1"@,
        audio_probe_args_spec(input)[8] == input,
{
}

/// The `ffprobe` arguments that check whether the media tools can read `path`
/// at all, without looking for an audio stream.
pub open spec fn format_probe_args_spec(path: Seq<char>) -> Seq<Seq<char>> {
    seq!["-v"@, "quiet"@, "-show_format"@, path]
}

/// The next step of a compatibility check.
pub enum CompatibilityStep {
    /// The check is over with this answer.
    Decided(bool),
    /// Find out whether `ffprobe` can be run at all; `path` is the file's text.
    CheckTools { path: String },
    /// Run `ffprobe` with these arguments; the file is compatible exactly when
    /// it runs and exits successfully.
    RunProbe { args: Vec<String> },
}

/// First step of a compatibility check: a missing file, or one whose path is
/// not text, is not compatible.
pub fn compatibility_start(exists: bool, path: Option<String>) -> (step: CompatibilityStep)
    ensures
        !exists ==> (step matches CompatibilityStep::Decided(false)),
        exists && path is None ==> (step matches CompatibilityStep::Decided(false)),
        exists && path is Some ==> (step matches CompatibilityStep::CheckTools { path: p } && p@
            == path->0@),
{
    if !exists {
        return CompatibilityStep::Decided(false);
    }
    match path {
        Some(p) => CompatibilityStep::CheckTools { path: p },
        None => CompatibilityStep::Decided(false),
    }
}

/// Second step of a compatibility check: without the tools the file is not
/// compatible; with them, probe its format.
pub fn compatibility_after_tools(path: String, available: bool) -> (step: CompatibilityStep)
    ensures
        !available ==> (step matches CompatibilityStep::Decided(false)),
        available ==> (step matches CompatibilityStep::RunProbe { args } && texts(args@)
            == format_probe_args_spec(path@)),
        available ==> (step matches CompatibilityStep::RunProbe { args } && args@.len() == 4
            && args@[0]@ == "-v"@ && args@[1]@ == "quiet"@ && args@[2]@ == "-show_format"@
            && args@[3]@ == path@),
{
    if !available {
        return CompatibilityStep::Decided(false);
    }
    let args = vec![
        String::from_str("-v"),
        String::from_str("quiet"),
        String::from_str("-show_format"),
        path,
    ];
    assert(texts(args@) =~= format_probe_args_spec(path@));
    CompatibilityStep::RunProbe { args }
}

/// The answer of the format probe: compatible exactly when the probe could be
/// run and exited successfully.
pub fn probe_verdict(ran: bool, exited_successfully: bool) -> (compatible: bool)
    ensures
        compatible == (ran && exited_successfully),
{
    ran && exited_successfully
}

/// The phase that follows `phase` on `event`.
pub open spec fn convert_next_phase(phase: ConvertPhase, event: ConvertEvent) -> ConvertPhase {
    match event {
        ConvertEvent::InputChecked { exists } => if exists {
            ConvertPhase::ProbingAudio
        } else {
            ConvertPhase::Finished
        },
        ConvertEvent::ProbeFinished { success, stdout, .. } => if success && trim(
            utf8_lossy(stdout@),
        ) == "audio"@ {
            ConvertPhase::CreatingTempDir
        } else {
            ConvertPhase::Finished
        },
        ConvertEvent::TempDirCreated { .. } => ConvertPhase::Converting,
        ConvertEvent::FfmpegFinished { success, .. } => if success {
            ConvertPhase::ReadingWav
        } else {
            ConvertPhase::Finished
        },
        _ => ConvertPhase::Finished,
    }
}

/// `ffmpeg` runs on a file only after the file was found to exist and the
/// probe found an audio stream in it: the phases that lead to the conversion
/// are entered only on those answers.
pub proof fn lemma_conversion_only_after_audio_found(phase: ConvertPhase, event: ConvertEvent)
    requires
        convert_expects(phase, event),
    ensures
        convert_next_phase(phase, event) == ConvertPhase::ProbingAudio ==> (event matches ConvertEvent::InputChecked { exists } && exists),
        convert_next_phase(phase, event) == ConvertPhase::CreatingTempDir ==> {
            &&& phase == ConvertPhase::ProbingAudio
            &&& event matches ConvertEvent::ProbeFinished { success, stdout, .. } && success && trim(
                utf8_lossy(stdout@),
            ) == "audio"@
        },
        convert_next_phase(phase, event) == ConvertPhase::Converting ==> phase
            == ConvertPhase::CreatingTempDir,
        convert_next_phase(phase, event) == ConvertPhase::ReadingWav ==> phase
            == ConvertPhase::Converting && (event matches ConvertEvent::FfmpegFinished { success, .. }
            && success),
{
}

} // verus!
