use vstd::prelude::*;
use vstd::string::*;

use crate::segment::Segment;
use crate::stage::TaskStage;
use crate::text::{i32_to_decimal, push_decimal, decimal, signed_decimal};

verus! {

/// Why the processing of a downloaded file failed.  These failures are
/// recorded as the `Failed` stage of the task.
#[derive(Debug)]
pub enum ProcessingFailure {
    /// The compatibility probe itself could not be run; `detail` says why.
    CompatibilityCheckFailed { detail: String },
    /// The probe ran and the media tools cannot read the file.
    NotCompatible,
    /// Conversion to WAV failed; `detail` describes the conversion error.
    ConversionFailed { detail: String },
    /// The inference job could not be started or did not return.
    InferenceSpawnFailed,
    /// The speech recogniser reported an error.
    InferenceFailed,
}

/// Why a queued task could not be processed.
#[derive(Debug)]
pub enum TaskError {
    /// The message body is not the four bytes of a task id.
    WrongLength { len: usize },
    /// The object could not be fetched from the bucket.
    DownloadFailed { task_id: i32, bucket: String },
    /// The local file for the download could not be created.
    TempFileFailed { path: String },
    /// The downloaded body could not be read.
    BodyReadFailed,
    /// Writing the download to the local file failed.
    WriteFailed { path: String },
    /// Flushing the local file failed.
    FlushFailed { path: String },
    /// Processing the downloaded file failed (recorded as the `Failed` stage).
    Processing(ProcessingFailure),
    /// The segments could not be stored; `detail` says why.
    StoreFailed { detail: String },
}

/// The text of a processing failure, which becomes the context of the task's
/// `Failed` stage.
pub open spec fn failure_message(f: ProcessingFailure) -> Seq<char> {
    match f {
        ProcessingFailure::CompatibilityCheckFailed { detail } =>
            "Failed to check if file is ffmpeg compatible: "@ + detail@,
        ProcessingFailure::NotCompatible => "File is not ffmpeg compatible"@,
        ProcessingFailure::ConversionFailed { detail } => detail@,
        ProcessingFailure::InferenceSpawnFailed => "Failed to spawn inference task"@,
        ProcessingFailure::InferenceFailed => "Failed to execute inference"@,
    }
}

/// The text of a task error.
pub open spec fn task_error_message(e: TaskError) -> Seq<char> {
    match e {
        TaskError::WrongLength { len } => "Failed to convert Vec<u8> to [u8; 4]: Byte vector has wrong length: "@
            + decimal(len as nat),
        TaskError::DownloadFailed { task_id, bucket } => "Failed to download object "@
            + signed_decimal(task_id as int) + " from S3 bucket '"@ + bucket@ + "'"@,
        TaskError::TempFileFailed { path } => "Failed to create temporary file at '"@ + path@ + "'"@,
        TaskError::BodyReadFailed => "Failed to read chunk from S3 response body"@,
        TaskError::WriteFailed { path } => "Failed to write data to temporary file '"@ + path@
            + "'"@,
        TaskError::FlushFailed { path } => "Failed to flush temporary file '"@ + path@ + "'"@,
        TaskError::Processing(f) => failure_message(f),
        TaskError::StoreFailed { detail } => detail@,
    }
}

impl ProcessingFailure {
    pub fn message(&self) -> (m: String)
        ensures
            m@ == failure_message(*self),
    {
        match self {
            ProcessingFailure::CompatibilityCheckFailed { detail } => {
                let mut m = String::from_str("Failed to check if file is ffmpeg compatible: ");
                m.append(detail.as_str());
                m
            },
            ProcessingFailure::NotCompatible => String::from_str("File is not ffmpeg compatible"),
            ProcessingFailure::ConversionFailed { detail } => detail.clone(),
            ProcessingFailure::InferenceSpawnFailed => String::from_str(
                "Failed to spawn inference task",
            ),
            ProcessingFailure::InferenceFailed => String::from_str("Failed to execute inference"),
        }
    }
}

impl TaskError {
    pub fn message(&self) -> (m: String)
        ensures
            m@ == task_error_message(*self),
    {
        match self {
            TaskError::WrongLength { len } => {
                let mut m = String::from_str(
                    "Failed to convert Vec<u8> to [u8; 4]: Byte vector has wrong length: ",
                );
                push_decimal(&mut m, *len as u64);
                m
            },
            TaskError::DownloadFailed { task_id, bucket } => {
                let mut m = String::from_str("Failed to download object ");
                m.append(i32_to_decimal(*task_id).as_str());
                m.append(" from S3 bucket '");
                m.append(bucket.as_str());
                m.append("'");
                m
            },
            TaskError::TempFileFailed { path } => {
                let mut m = String::from_str("Failed to create temporary file at '");
                m.append(path.as_str());
                m.append("'");
                m
            },
            TaskError::BodyReadFailed => String::from_str(
                "Failed to read chunk from S3 response body",
            ),
            TaskError::WriteFailed { path } => {
                let mut m = String::from_str("Failed to write data to temporary file '");
                m.append(path.as_str());
                m.append("'");
                m
            },
            TaskError::FlushFailed { path } => {
                let mut m = String::from_str("Failed to flush temporary file '");
                m.append(path.as_str());
                m.append("'");
                m
            },
            TaskError::Processing(f) => f.message(),
            TaskError::StoreFailed { detail } => detail.clone(),
        }
    }
}

/// The signed 32-bit integer whose little-endian bytes are `b`.
pub open spec fn le_i32_value(b: Seq<u8>) -> int {
    let u = b[0] as int + 256 * (b[1] as int) + 65536 * (b[2] as int) + 16777216 * (b[3] as int);
    if u >= 0x8000_0000 {
        u - 0x1_0000_0000
    } else {
        u
    }
}

/// Reads the task id from a queue message: the message must be exactly the
/// four little-endian bytes of an `i32`.
pub fn decode_task_id(content: &[u8]) -> (r: Result<i32, TaskError>)
    ensures
        r is Ok <==> content@.len() == 4,
        r matches Ok(id) ==> id as int == le_i32_value(content@),
        r matches Err(e) ==> e == (TaskError::WrongLength { len: content@.len() as usize }),
{
    if content.len() != 4 {
        return Err(TaskError::WrongLength { len: content.len() });
    }
    let u: u32 = content[0] as u32 + 256 * (content[1] as u32) + 65536 * (content[2] as u32)
        + 16777216 * (content[3] as u32);
    let id: i32 = if u < 0x8000_0000 {
        u as i32
    } else {
        (u as i64 - 0x1_0000_0000) as i32
    };
    Ok(id)
}

/// The queue message that announces task `task_id`: the four little-endian
/// bytes of the id, as `i32::to_le_bytes` lays them out.
pub open spec fn task_message_bytes(task_id: i32) -> Seq<u8> {
    let u: int = if task_id >= 0 {
        task_id as int
    } else {
        task_id as int + 0x1_0000_0000
    };
    let q1 = u / 256;
    let q2 = q1 / 256;
    seq![(u % 256) as u8, (q1 % 256) as u8, (q2 % 256) as u8, (q2 / 256) as u8]
}

/// Reading back the message of a task gives its id.
pub proof fn lemma_task_message_roundtrip(task_id: i32)
    ensures
        task_message_bytes(task_id).len() == 4,
        le_i32_value(task_message_bytes(task_id)) == task_id as int,
{
    let u: int = if task_id >= 0 {
        task_id as int
    } else {
        task_id as int + 0x1_0000_0000
    };
    assert(0 <= u < 0x1_0000_0000);
    let q1 = u / 256;
    let q2 = q1 / 256;
    let q3 = q2 / 256;
    vstd::arithmetic::div_mod::lemma_fundamental_div_mod(u, 256);
    vstd::arithmetic::div_mod::lemma_fundamental_div_mod(q1, 256);
    vstd::arithmetic::div_mod::lemma_fundamental_div_mod(q2, 256);
    vstd::arithmetic::div_mod::lemma_mod_bound(u, 256);
    vstd::arithmetic::div_mod::lemma_mod_bound(q1, 256);
    vstd::arithmetic::div_mod::lemma_mod_bound(q2, 256);
    assert(u == 256 * q1 + u % 256);
    assert(q1 == 256 * q2 + q1 % 256);
    assert(q2 == 256 * q3 + q2 % 256);
    assert(0 <= q1 && 0 <= q2 && 0 <= q3);
    assert(q3 < 256);
    let b = task_message_bytes(task_id);
    assert(b[0] as int == u % 256);
    assert(b[1] as int == q1 % 256);
    assert(b[2] as int == q2 % 256);
    assert(b[3] as int == q3);
    assert(b[0] as int + 256 * (b[1] as int) + 65536 * (b[2] as int) + 16777216 * (b[3] as int)
        == u);
}

/// `le_i32_value` is what `i32::from_le_bytes` computes: the byte at position
/// `k` supplies bits `8k` to `8k + 7` of the 32-bit pattern, which is then
/// read as a two's-complement `i32`.
pub proof fn lemma_le_i32_value_is_from_le_bytes(b0: u8, b1: u8, b2: u8, b3: u8)
    ensures
        le_i32_value(seq![b0, b1, b2, b3]) == ((b0 as u32 | (b1 as u32) << 8u32 | (b2 as u32)
            << 16u32 | (b3 as u32) << 24u32) as i32) as int,
{
    let w: u32 = b0 as u32 | (b1 as u32) << 8u32 | (b2 as u32) << 16u32 | (b3 as u32) << 24u32;
    assert(w == b0 as u32 | (b1 as u32) << 8u32 | (b2 as u32) << 16u32 | (b3 as u32) << 24u32);
    assert(w as int == b0 as int + 256 * (b1 as int) + 65536 * (b2 as int) + 16777216 * (
    b3 as int)) by (bit_vector)
        requires
            w == b0 as u32 | (b1 as u32) << 8u32 | (b2 as u32) << 16u32 | (b3 as u32) << 24u32,
    ;
    assert((w as i32) as int == if w >= 0x8000_0000u32 {
        w as int - 0x1_0000_0000
    } else {
        w as int
    }) by (bit_vector);
    let b = seq![b0, b1, b2, b3];
    assert(b[0] == b0 && b[1] == b1 && b[2] == b2 && b[3] == b3);
}

/// The message of a task is `i32::to_le_bytes` of its id: byte `k` holds bits
/// `8k` to `8k + 7` of the id's two's-complement pattern.
pub proof fn lemma_task_message_is_to_le_bytes(task_id: i32)
    ensures
        task_message_bytes(task_id) == seq![
            (task_id as u32) as u8,
            ((task_id as u32) >> 8u32) as u8,
            ((task_id as u32) >> 16u32) as u8,
            ((task_id as u32) >> 24u32) as u8,
        ],
{
    let w: u32 = task_id as u32;
    assert(w == task_id as u32);
    assert(w as int == if task_id >= 0 {
        task_id as int
    } else {
        task_id as int + 0x1_0000_0000
    }) by (bit_vector)
        requires
            w == task_id as u32,
    ;
    assert((w % 256) as u8 == w as u8) by (bit_vector);
    assert(((w / 256) % 256) as u8 == (w >> 8u32) as u8) by (bit_vector);
    assert((((w / 256) / 256) % 256) as u8 == (w >> 16u32) as u8) by (bit_vector);
    assert((((w / 256) / 256) / 256) as u8 == (w >> 24u32) as u8) by (bit_vector);
    let u = w as int;
    assert(u / 256 == (w / 256) as int);
    assert((u / 256) / 256 == ((w / 256) / 256) as int);
    assert(u % 256 == (w % 256) as int);
    assert((u / 256) % 256 == ((w / 256) % 256) as int);
    assert(((u / 256) / 256) % 256 == (((w / 256) / 256) % 256) as int);
    assert(((u / 256) / 256) / 256 == (((w / 256) / 256) / 256) as int);
    assert(task_message_bytes(task_id) =~= seq![
        (task_id as u32) as u8,
        ((task_id as u32) >> 8u32) as u8,
        ((task_id as u32) >> 16u32) as u8,
        ((task_id as u32) >> 24u32) as u8,
    ]);
}

/// The message that announces task `task_id` on the work queue.
pub fn task_message(task_id: i32) -> (m: Vec<u8>)
    ensures
        m@ == task_message_bytes(task_id),
{
    let u: u32 = if task_id >= 0 {
        task_id as u32
    } else {
        (task_id as i64 + 0x1_0000_0000) as u32
    };
    let q1 = u / 256;
    let q2 = q1 / 256;
    let m = vec![(u % 256) as u8, (q1 % 256) as u8, (q2 % 256) as u8, (q2 / 256) as u8];
    assert(m@ =~= task_message_bytes(task_id));
    m
}

/// The name of the work queue that tasks are announced on and taken from.
pub fn work_queue() -> (q: &'static str)
    ensures
        q@ == "subtitles-task-queue"@,
{
    "subtitles-task-queue"
}

/// The name of the stored object that holds a task's media: its id in decimal.
pub open spec fn object_key(task_id: i32) -> Seq<char> {
    signed_decimal(task_id as int)
}

/// The local file that a task's media is downloaded to.
pub open spec fn download_path(task_id: i32) -> Seq<char> {
    "temp/"@ + signed_decimal(task_id as int)
}

/// The local file that a task's media is downloaded to.
pub fn task_file_path(task_id: i32) -> (p: String)
    ensures
        p@ == download_path(task_id),
{
    let mut p = String::from_str("temp/");
    p.append(i32_to_decimal(task_id).as_str());
    p
}

/// Where the processing of one task stands.
#[derive(Clone, Copy, Debug, PartialEq, Eq, Structural)]
pub enum TaskPhase {
    /// The `Processing` stage is being recorded.
    RecordingStart,
    /// The media is being downloaded to a local file.
    Downloading,
    /// The media tools are asked whether they can read the file.
    CheckingCompatibility,
    /// The file is being converted to 16 kHz mono WAV samples.
    Converting,
    /// The samples are being transcribed.
    Transcribing,
    /// The segments are being stored.
    Storing,
    /// The `Failed` stage is being recorded.
    RecordingFailure,
    /// The `Success` stage is being recorded.
    RecordingSuccess,
    /// Processing is over.
    Finished,
}

/// What the outside world reports back to a task run.
pub enum TaskEvent {
    /// The requested stage update was attempted (its own failure is ignored).
    StageRecorded,
    DownloadFailed,
    TempFileFailed,
    BodyReadFailed,
    WriteFailed,
    FlushFailed,
    /// The media is in the local file.
    Saved,
    CompatibilityChecked { compatible: bool },
    CompatibilityCheckFailed { detail: String },
    Converted { samples: Vec<i16> },
    ConversionFailed { detail: String },
    Transcribed { segments: Vec<Segment> },
    InferenceSpawnFailed,
    InferenceFailed,
    Stored,
    StoreFailed { detail: String },
}

/// What a task run asks the outside world to do next.
pub enum TaskAction {
    /// Record the stage of the task, with a context text.
    RecordStage { task_id: i32, stage: TaskStage, context: String },
    /// Download object `key` of `bucket` into the local file `path`.
    Download { bucket: String, key: String, path: String },
    /// Ask the media tools whether they can read the file.
    CheckCompatibility { path: String },
    /// Convert the file to WAV samples.
    ConvertToWav { path: String },
    /// Transcribe the samples.
    Transcribe { samples: Vec<i16> },
    /// Store the segments of the task.
    StoreSegments { task_id: i32, segments: Vec<Segment> },
    /// Processing is over, with this outcome.
    Finish(Result<(), TaskError>),
}

/// The decisions of processing one queued task.
pub struct TaskRun {
    pub phase: TaskPhase,
    pub task_id: i32,
    pub bucket: String,
    pub failure: Option<ProcessingFailure>,
}

/// Whether `event` answers the action that `phase` waits for.
pub open spec fn task_expects(phase: TaskPhase, event: TaskEvent) -> bool {
    match phase {
        TaskPhase::RecordingStart | TaskPhase::RecordingFailure | TaskPhase::RecordingSuccess =>
            event is StageRecorded,
        TaskPhase::Downloading => event is DownloadFailed || event is TempFileFailed
            || event is BodyReadFailed || event is WriteFailed || event is FlushFailed
            || event is Saved,
        TaskPhase::CheckingCompatibility => event is CompatibilityChecked
            || event is CompatibilityCheckFailed,
        TaskPhase::Converting => event is Converted || event is ConversionFailed,
        TaskPhase::Transcribing => event is Transcribed || event is InferenceSpawnFailed
            || event is InferenceFailed,
        TaskPhase::Storing => event is Stored || event is StoreFailed,
        TaskPhase::Finished => false,
    }
}

/// The phase that follows `phase` on `event`.
pub open spec fn task_next_phase(phase: TaskPhase, event: TaskEvent) -> TaskPhase {
    match event {
        TaskEvent::StageRecorded => match phase {
            TaskPhase::RecordingStart => TaskPhase::Downloading,
            _ => TaskPhase::Finished,
        },
        TaskEvent::Saved => TaskPhase::CheckingCompatibility,
        TaskEvent::CompatibilityChecked { compatible } => if compatible {
            TaskPhase::Converting
        } else {
            TaskPhase::RecordingFailure
        },
        TaskEvent::CompatibilityCheckFailed { .. } => TaskPhase::RecordingFailure,
        TaskEvent::Converted { .. } => TaskPhase::Transcribing,
        TaskEvent::ConversionFailed { .. } => TaskPhase::RecordingFailure,
        TaskEvent::Transcribed { .. } => TaskPhase::Storing,
        TaskEvent::InferenceSpawnFailed => TaskPhase::RecordingFailure,
        TaskEvent::InferenceFailed => TaskPhase::RecordingFailure,
        TaskEvent::Stored => TaskPhase::RecordingSuccess,
        _ => TaskPhase::Finished,
    }
}

/// The processing failure that `event` reports, if it reports one.
pub open spec fn event_failure(event: TaskEvent) -> Option<ProcessingFailure> {
    match event {
        TaskEvent::CompatibilityChecked { compatible } => if compatible {
            None
        } else {
            Some(ProcessingFailure::NotCompatible)
        },
        TaskEvent::CompatibilityCheckFailed { detail } => Some(
            ProcessingFailure::CompatibilityCheckFailed { detail },
        ),
        TaskEvent::ConversionFailed { detail } => Some(ProcessingFailure::ConversionFailed { detail }),
        TaskEvent::InferenceSpawnFailed => Some(ProcessingFailure::InferenceSpawnFailed),
        TaskEvent::InferenceFailed => Some(ProcessingFailure::InferenceFailed),
        _ => None,
    }
}

/// The order in which phases are passed: a run only moves forward.
pub open spec fn phase_rank(phase: TaskPhase) -> nat {
    match phase {
        TaskPhase::RecordingStart => 0,
        TaskPhase::Downloading => 1,
        TaskPhase::CheckingCompatibility => 2,
        TaskPhase::Converting => 3,
        TaskPhase::Transcribing => 4,
        TaskPhase::Storing => 5,
        TaskPhase::RecordingFailure => 6,
        TaskPhase::RecordingSuccess => 6,
        TaskPhase::Finished => 7,
    }
}

impl TaskRun {
    pub open spec fn well_formed(&self) -> bool {
        (self.phase == TaskPhase::RecordingFailure) == (self.failure is Some)
    }

    /// Starts processing a message taken from the queue: it must hold a task
    /// id; the first action records the `Processing` stage.
    pub fn start(bucket: String, content: Vec<u8>) -> (res: (TaskRun, TaskAction))
        ensures
            res.0.well_formed(),
            res.0.bucket@ == bucket@,
            content@.len() == 4 ==> {
                &&& res.0.phase == TaskPhase::RecordingStart
                &&& res.0.task_id as int == le_i32_value(content@)
                &&& res.1 matches TaskAction::RecordStage { task_id, stage, context }
                    && task_id == res.0.task_id && stage == TaskStage::Processing && context@
                    == "Processing audio"@
            },
            content@.len() != 4 ==> {
                &&& res.0.phase == TaskPhase::Finished
                &&& res.1 matches TaskAction::Finish(Err(e)) && e == TaskError::WrongLength {
                    len: content@.len() as usize,
                }
            },
    {
        match decode_task_id(content.as_slice()) {
            Ok(task_id) => {
                let run = TaskRun { phase: TaskPhase::RecordingStart, task_id, bucket, failure: None };
                (
                    run,
                    TaskAction::RecordStage {
                        task_id,
                        stage: TaskStage::Processing,
                        context: String::from_str("Processing audio"),
                    },
                )
            },
            Err(e) => {
                let run = TaskRun { phase: TaskPhase::Finished, task_id: 0, bucket, failure: None };
                (run, TaskAction::Finish(Err(e)))
            },
        }
    }

    fn fail_processing(self, failure: ProcessingFailure) -> (res: (TaskRun, TaskAction))
        ensures
            res.0.phase == TaskPhase::RecordingFailure,
            res.0.task_id == self.task_id,
            res.0.bucket@ == self.bucket@,
            res.0.failure == Some(failure),
            res.1 matches TaskAction::RecordStage { task_id, stage, context } && task_id
                == self.task_id && stage == TaskStage::Failed && context@ == failure_message(
                failure,
            ),
    {
        let context = failure.message();
        let task_id = self.task_id;
        (
            TaskRun { phase: TaskPhase::RecordingFailure, failure: Some(failure), ..self },
            TaskAction::RecordStage { task_id, stage: TaskStage::Failed, context },
        )
    }

    fn finish(self, outcome: Result<(), TaskError>) -> (res: (TaskRun, TaskAction))
        ensures
            res.0.phase == TaskPhase::Finished,
            res.0.task_id == self.task_id,
            res.0.bucket@ == self.bucket@,
            res.0.failure is None,
            res.1 == TaskAction::Finish(outcome),
    {
        (TaskRun { phase: TaskPhase::Finished, failure: None, ..self }, TaskAction::Finish(outcome))
    }

    /// Takes the answer to the last action and decides the next one.
    pub fn step(self, event: TaskEvent) -> (res: (TaskRun, TaskAction))
        requires
            self.well_formed(),
            task_expects(self.phase, event),
        ensures
            res.0.well_formed(),
            res.0.phase == task_next_phase(self.phase, event),
            res.0.task_id == self.task_id,
            res.0.bucket@ == self.bucket@,
            (res.1 matches TaskAction::Finish(Ok(_))) <==> (self.phase == TaskPhase::RecordingSuccess),
            event_failure(event) matches Some(f) ==> {
                &&& res.0.failure == Some(f)
                &&& res.1 matches TaskAction::RecordStage { task_id, stage, context } && task_id
                    == self.task_id && stage == TaskStage::Failed && context@ == failure_message(f)
            },
            match event {
                TaskEvent::StageRecorded => match self.phase {
                    TaskPhase::RecordingStart => res.1 matches TaskAction::Download {
                        bucket,
                        key,
                        path,
                    } && bucket@ == self.bucket@ && key@ == object_key(self.task_id) && path@
                        == download_path(self.task_id),
                    TaskPhase::RecordingFailure => res.1 matches TaskAction::Finish(Err(e)) && e
                        == TaskError::Processing(self.failure->0),
                    _ => res.1 == TaskAction::Finish(Ok(())),
                },
                TaskEvent::DownloadFailed => res.1 matches TaskAction::Finish(
                    Err(TaskError::DownloadFailed { task_id, bucket }),
                ) && task_id == self.task_id && bucket@ == self.bucket@,
                TaskEvent::TempFileFailed => res.1 matches TaskAction::Finish(
                    Err(TaskError::TempFileFailed { path }),
                ) && path@ == download_path(self.task_id),
                TaskEvent::BodyReadFailed => res.1 == TaskAction::Finish(
                    Err(TaskError::BodyReadFailed),
                ),
                TaskEvent::WriteFailed => res.1 matches TaskAction::Finish(
                    Err(TaskError::WriteFailed { path }),
                ) && path@ == download_path(self.task_id),
                TaskEvent::FlushFailed => res.1 matches TaskAction::Finish(
                    Err(TaskError::FlushFailed { path }),
                ) && path@ == download_path(self.task_id),
                TaskEvent::Saved => res.1 matches TaskAction::CheckCompatibility { path } && path@
                    == download_path(self.task_id),
                TaskEvent::CompatibilityChecked { compatible } => compatible ==> (res.1 matches TaskAction::ConvertToWav {
                    path,
                } && path@ == download_path(self.task_id)),
                TaskEvent::Converted { samples } => res.1 == TaskAction::Transcribe { samples },
                TaskEvent::Transcribed { segments } => res.1 == TaskAction::StoreSegments {
                    task_id: self.task_id,
                    segments,
                },
                TaskEvent::Stored => res.1 matches TaskAction::RecordStage {
                    task_id,
                    stage,
                    context,
                } && task_id == self.task_id && stage == TaskStage::Success && context@
                    == "Success"@,
                TaskEvent::StoreFailed { detail } => res.1 matches TaskAction::Finish(
                    Err(TaskError::StoreFailed { detail: d }),
                ) && d@ == detail@,
                _ => true,
            },
    {
        match event {
            TaskEvent::StageRecorded => match self.phase {
                TaskPhase::RecordingStart => {
                    let key = i32_to_decimal(self.task_id);
                    let path = task_file_path(self.task_id);
                    let bucket = self.bucket.clone();
                    (
                        TaskRun { phase: TaskPhase::Downloading, ..self },
                        TaskAction::Download { bucket, key, path },
                    )
                },
                TaskPhase::RecordingFailure => {
                    let mut run = self;
                    let failure = run.failure.take();
                    match failure {
                        Some(f) => run.finish(Err(TaskError::Processing(f))),
                        None => run.finish(Ok(())),
                    }
                },
                _ => self.finish(Ok(())),
            },
            TaskEvent::DownloadFailed => {
                let task_id = self.task_id;
                let bucket = self.bucket.clone();
                self.finish(Err(TaskError::DownloadFailed { task_id, bucket }))
            },
            TaskEvent::TempFileFailed => {
                let path = task_file_path(self.task_id);
                self.finish(Err(TaskError::TempFileFailed { path }))
            },
            TaskEvent::BodyReadFailed => self.finish(Err(TaskError::BodyReadFailed)),
            TaskEvent::WriteFailed => {
                let path = task_file_path(self.task_id);
                self.finish(Err(TaskError::WriteFailed { path }))
            },
            TaskEvent::FlushFailed => {
                let path = task_file_path(self.task_id);
                self.finish(Err(TaskError::FlushFailed { path }))
            },
            TaskEvent::Saved => {
                let path = task_file_path(self.task_id);
                (
                    TaskRun { phase: TaskPhase::CheckingCompatibility, ..self },
                    TaskAction::CheckCompatibility { path },
                )
            },
            TaskEvent::CompatibilityChecked { compatible } => {
                if compatible {
                    let path = task_file_path(self.task_id);
                    (
                        TaskRun { phase: TaskPhase::Converting, ..self },
                        TaskAction::ConvertToWav { path },
                    )
                } else {
                    self.fail_processing(ProcessingFailure::NotCompatible)
                }
            },
            TaskEvent::CompatibilityCheckFailed { detail } => self.fail_processing(
                ProcessingFailure::CompatibilityCheckFailed { detail },
            ),
            TaskEvent::Converted { samples } => (
                TaskRun { phase: TaskPhase::Transcribing, ..self },
                TaskAction::Transcribe { samples },
            ),
            TaskEvent::ConversionFailed { detail } => self.fail_processing(
                ProcessingFailure::ConversionFailed { detail },
            ),
            TaskEvent::Transcribed { segments } => {
                let task_id = self.task_id;
                (
                    TaskRun { phase: TaskPhase::Storing, ..self },
                    TaskAction::StoreSegments { task_id, segments },
                )
            },
            TaskEvent::InferenceSpawnFailed => self.fail_processing(
                ProcessingFailure::InferenceSpawnFailed,
            ),
            TaskEvent::InferenceFailed => self.fail_processing(ProcessingFailure::InferenceFailed),
            TaskEvent::Stored => {
                let task_id = self.task_id;
                (
                    TaskRun { phase: TaskPhase::RecordingSuccess, ..self },
                    TaskAction::RecordStage {
                        task_id,
                        stage: TaskStage::Success,
                        context: String::from_str("Success"),
                    },
                )
            },
            TaskEvent::StoreFailed { detail } => self.finish(
                Err(TaskError::StoreFailed { detail }),
            ),
        }
    }
}

/// How a delivery from the work queue is settled.
#[derive(Clone, Copy, Debug, PartialEq, Eq, Structural)]
pub enum Delivery {
    /// Acknowledge the delivery (not the ones before it).
    Ack { delivery_tag: u64, multiple: bool },
    /// Reject the delivery; with `requeue` it goes back on the queue.
    Nack { delivery_tag: u64, multiple: bool, requeue: bool },
}

/// Settles a delivery by the outcome of processing it: a processed task is
/// acknowledged; a failed one is rejected and goes back on the queue, so that
/// failed tasks return to the queue.
pub fn settle_delivery(delivery_tag: u64, outcome: &Result<(), TaskError>) -> (d: Delivery)
    ensures
        outcome is Ok ==> d == (Delivery::Ack { delivery_tag, multiple: false }),
        outcome is Err ==> d == (Delivery::Nack { delivery_tag, multiple: false, requeue: true }),
{
    match outcome {
        Ok(_) => Delivery::Ack { delivery_tag, multiple: false },
        Err(_) => Delivery::Nack { delivery_tag, multiple: false, requeue: true },
    }
}

/// A task run never moves back: every step leads to a later phase.
pub proof fn lemma_task_run_moves_forward(phase: TaskPhase, event: TaskEvent)
    requires
        task_expects(phase, event),
    ensures
        phase_rank(task_next_phase(phase, event)) > phase_rank(phase),
{
}

/// A task is reported processed only after its segments were stored: the
/// phase in which a run can finish successfully is entered only from the
/// storing phase, on the event that the segments were stored.
pub proof fn lemma_success_only_after_segments_stored(phase: TaskPhase, event: TaskEvent)
    requires
        task_expects(phase, event),
        task_next_phase(phase, event) == TaskPhase::RecordingSuccess,
    ensures
        phase == TaskPhase::Storing,
        (event is Stored),
{
}

/// Each phase of a run is entered only from the phase before it, on the answer
/// that lets the work go on: the file is checked only once saved, converted
/// only when found compatible, transcribed only when converted, its segments
/// stored only when transcribed, and success recorded only once they are
/// stored.
pub proof fn lemma_task_phases_entered_in_order(phase: TaskPhase, event: TaskEvent)
    requires
        task_expects(phase, event),
    ensures
        task_next_phase(phase, event) == TaskPhase::Downloading ==> phase
            == TaskPhase::RecordingStart && (event is StageRecorded),
        task_next_phase(phase, event) == TaskPhase::CheckingCompatibility ==> phase
            == TaskPhase::Downloading && (event is Saved),
        task_next_phase(phase, event) == TaskPhase::Converting ==> phase
            == TaskPhase::CheckingCompatibility && (event matches TaskEvent::CompatibilityChecked {
            compatible,
        } && compatible),
        task_next_phase(phase, event) == TaskPhase::Transcribing ==> phase == TaskPhase::Converting
            && (event is Converted),
        task_next_phase(phase, event) == TaskPhase::Storing ==> phase == TaskPhase::Transcribing
            && (event is Transcribed),
        task_next_phase(phase, event) == TaskPhase::RecordingSuccess ==> phase
            == TaskPhase::Storing && (event is Stored),
{
}

/// Every way in which processing the downloaded file can fail is a
/// processing failure: the run goes on to record the `Failed` stage, with the
/// failure's own text as context.  A failed conversion is recorded with the
/// conversion error's description.
pub proof fn lemma_processing_failures_are_recorded(phase: TaskPhase, event: TaskEvent)
    requires
        task_expects(phase, event),
    ensures
        event matches TaskEvent::ConversionFailed { detail } ==> task_next_phase(phase, event)
            == TaskPhase::RecordingFailure && event_failure(event) == Some(
            (ProcessingFailure::ConversionFailed { detail }),
        ) && failure_message(event_failure(event)->0) == detail@,
        event matches TaskEvent::CompatibilityCheckFailed { detail } ==> task_next_phase(
            phase,
            event,
        ) == TaskPhase::RecordingFailure && event_failure(event) == Some(
            (ProcessingFailure::CompatibilityCheckFailed { detail }),
        ) && failure_message(event_failure(event)->0)
            == "Failed to check if file is ffmpeg compatible: "@ + detail@,
        event matches TaskEvent::CompatibilityChecked { compatible } ==> (!compatible
            <==> task_next_phase(phase, event) == TaskPhase::RecordingFailure) && (!compatible
            ==> event_failure(event) == Some(ProcessingFailure::NotCompatible) && failure_message(
            event_failure(event)->0,
        ) == "File is not ffmpeg compatible"@),
        (event is InferenceSpawnFailed) ==> task_next_phase(phase, event)
            == TaskPhase::RecordingFailure && event_failure(event) == Some(
            ProcessingFailure::InferenceSpawnFailed,
        ) && failure_message(event_failure(event)->0) == "Failed to spawn inference task"@,
        (event is InferenceFailed) ==> task_next_phase(phase, event)
            == TaskPhase::RecordingFailure && event_failure(event) == Some(
            ProcessingFailure::InferenceFailed,
        ) && failure_message(event_failure(event)->0) == "Failed to execute inference"@,
{
}

/// A processing failure always leads to recording the `Failed` stage, and
/// only a processing failure does.
pub proof fn lemma_failure_recorded(phase: TaskPhase, event: TaskEvent)
    requires
        task_expects(phase, event),
    ensures
        (task_next_phase(phase, event) == TaskPhase::RecordingFailure) <==> event_failure(
            event,
        ) is Some,
{
}

} // verus!
