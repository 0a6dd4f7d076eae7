use vstd::prelude::*;
use vstd::string::*;

use crate::consumer::{
    download_path, object_key, task_file_path, task_message, task_message_bytes,
};
use crate::stage::TaskStage;
use crate::text::{i32_to_decimal, signed_decimal};

verus! {

/// HTTP status 400.
pub const BAD_REQUEST: u16 = 400;

/// HTTP status 500.
pub const INTERNAL_SERVER_ERROR: u16 = 500;

/// An error answer of the upload endpoint: an HTTP status code, a message and
/// optional details.
#[derive(Debug)]
pub struct ErrorReply {
    pub status: u16,
    pub message: String,
    pub details: Option<String>,
}

/// The answer of the upload endpoint when a task was submitted.
#[derive(Debug)]
pub struct SuccessReply {
    pub task_id: String,
    pub message: String,
}

/// The text that an optional string stands for, if any.
pub open spec fn opt_text(s: Option<String>) -> Option<Seq<char>> {
    match s {
        Some(t) => Some(t@),
        None => None,
    }
}

impl ErrorReply {
    /// An error answer with the given status, message and details.
    pub fn with_details(status: u16, message: String, details: String) -> (e: Self)
        ensures
            e.status == status,
            e.message@ == message@,
            opt_text(e.details) == Some(details@),
    {
        ErrorReply { status, message, details: Some(details) }
    }

    /// The answer for an unexpected failure: status 500, the message
    /// `Internal server error`, and the failure's description as details.
    pub fn internal_error(details: String) -> (e: Self)
        ensures
            e.status == INTERNAL_SERVER_ERROR,
            e.message@ == "Internal server error"@,
            opt_text(e.details) == Some(details@),
    {
        ErrorReply {
            status: INTERNAL_SERVER_ERROR,
            message: String::from_str("Internal server error"),
            details: Some(details),
        }
    }
}

/// Where the handling of one upload request stands.
#[derive(Clone, Copy, Debug, PartialEq, Eq, Structural)]
pub enum FormPhase {
    /// The task row is being written; the database gives its id.
    RecordingTask,
    /// The temporary file is being created.
    CreatingFile,
    /// The next field of the form is awaited.
    AwaitingField,
    /// The next chunk of the current field is awaited.
    AwaitingChunk,
    /// A chunk is being written to the temporary file.
    Writing,
    /// The temporary file is being flushed at the end of a field.
    Flushing,
    /// A chunk could not be read: the file is flushed and removed, errors ignored.
    CleaningAfterChunkError,
    /// The `TransferingS3` stage is being recorded.
    MarkingTransfer,
    /// The file is being transferred to the object store.
    Uploading,
    /// The transfer failed: the file is removed, errors ignored.
    CleaningAfterUploadError,
    /// The file is being removed after its transfer.
    Removing,
    /// The `FindingWorker` stage is being recorded.
    MarkingQueued,
    /// The task is being put on the work queue.
    Publishing,
    /// The `Failed` stage is being recorded before the error is answered.
    RecordingFailure,
    /// The answer has been given.
    Replied,
}

/// What the outside world reports back to the handling of an upload request.
pub enum FormEvent {
    /// The task row was written under this id.
    TaskRecorded { task_id: i32 },
    TaskRecordFailed { detail: String },
    FileCreated,
    FileCreateFailed { detail: String },
    /// The form has another field.
    FieldStarted,
    /// The form has no more fields.
    FieldsDone,
    FieldFailed { detail: String },
    /// The current field yielded a chunk.
    ChunkReceived { bytes: Vec<u8> },
    /// The current field has no more chunks.
    FieldEnded,
    ChunkFailed { detail: String },
    ChunkWritten,
    WriteFailed { detail: String },
    Flushed,
    FlushFailed { detail: String },
    /// The clean-up after a failure was done (its own failures are ignored).
    CleanedUp,
    /// The requested stage update was attempted (its own failure is ignored).
    StageRecorded,
    Uploaded,
    UploadFailed { detail: String },
    Removed,
    RemoveFailed { detail: String },
    Published,
    PublishFailed { detail: String },
}

/// What the handling of an upload request asks the outside world to do next.
pub enum FormAction {
    /// Write a new task row with this stage and context; report its id.
    RecordTask { stage: TaskStage, context: String },
    /// Create the temporary file at `path`.
    CreateFile { path: String },
    /// Read the next field of the form.
    NextField,
    /// Read the next chunk of the current field.
    NextChunk,
    /// Write these bytes to the temporary file.
    WriteChunk { bytes: Vec<u8> },
    /// Flush the temporary file.
    Flush,
    /// Flush and remove the temporary file, ignoring failures.
    FlushAndRemove { path: String },
    /// Record the stage of the task, with a context text.
    RecordStage { task_id: i32, stage: TaskStage, context: String },
    /// Transfer the file at `path` to the object store under `key`.
    Upload { key: String, path: String },
    /// Remove the temporary file, ignoring failures.
    RemoveQuietly { path: String },
    /// Remove the temporary file.
    Remove { path: String },
    /// Put `message` on the work queue `queue`.
    Publish { queue: String, message: Vec<u8> },
    /// Answer the request.
    Reply(Result<SuccessReply, ErrorReply>),
}

/// The decisions of handling one upload request.
pub struct FormUpload {
    pub phase: FormPhase,
    pub task_id: i32,
    pub path: String,
    pub pending: Option<ErrorReply>,
}

/// Whether `event` answers the action that `phase` waits for.
pub open spec fn form_expects(phase: FormPhase, event: FormEvent) -> bool {
    match phase {
        FormPhase::RecordingTask => event is TaskRecorded || event is TaskRecordFailed,
        FormPhase::CreatingFile => event is FileCreated || event is FileCreateFailed,
        FormPhase::AwaitingField => event is FieldStarted || event is FieldsDone
            || event is FieldFailed,
        FormPhase::AwaitingChunk => event is ChunkReceived || event is FieldEnded
            || event is ChunkFailed,
        FormPhase::Writing => event is ChunkWritten || event is WriteFailed,
        FormPhase::Flushing => event is Flushed || event is FlushFailed,
        FormPhase::CleaningAfterChunkError | FormPhase::CleaningAfterUploadError =>
            event is CleanedUp,
        FormPhase::MarkingTransfer | FormPhase::MarkingQueued | FormPhase::RecordingFailure =>
            event is StageRecorded,
        FormPhase::Uploading => event is Uploaded || event is UploadFailed,
        FormPhase::Removing => event is Removed || event is RemoveFailed,
        FormPhase::Publishing => event is Published || event is PublishFailed,
        FormPhase::Replied => false,
    }
}

/// The phase that follows `phase` on `event`.
pub open spec fn form_next_phase(phase: FormPhase, event: FormEvent) -> FormPhase {
    match event {
        FormEvent::TaskRecorded { .. } => FormPhase::CreatingFile,
        FormEvent::TaskRecordFailed { .. } => FormPhase::Replied,
        FormEvent::FileCreated => FormPhase::AwaitingField,
        FormEvent::FieldStarted => FormPhase::AwaitingChunk,
        FormEvent::FieldsDone => FormPhase::MarkingTransfer,
        FormEvent::ChunkReceived { .. } => FormPhase::Writing,
        FormEvent::FieldEnded => FormPhase::Flushing,
        FormEvent::ChunkFailed { .. } => FormPhase::CleaningAfterChunkError,
        FormEvent::ChunkWritten => FormPhase::AwaitingChunk,
        FormEvent::Flushed => FormPhase::AwaitingField,
        FormEvent::CleanedUp => FormPhase::RecordingFailure,
        FormEvent::StageRecorded => match phase {
            FormPhase::MarkingTransfer => FormPhase::Uploading,
            FormPhase::MarkingQueued => FormPhase::Publishing,
            _ => FormPhase::Replied,
        },
        FormEvent::Uploaded => FormPhase::Removing,
        FormEvent::UploadFailed { .. } => FormPhase::CleaningAfterUploadError,
        FormEvent::Removed => FormPhase::MarkingQueued,
        FormEvent::Published => FormPhase::Replied,
        _ => FormPhase::RecordingFailure,
    }
}

/// The order in which phases are passed: handling only moves forward.
pub open spec fn form_rank(phase: FormPhase) -> nat {
    match phase {
        FormPhase::RecordingTask => 0,
        FormPhase::CreatingFile => 1,
        FormPhase::AwaitingField => 2,
        FormPhase::AwaitingChunk => 2,
        FormPhase::Writing => 2,
        FormPhase::Flushing => 2,
        FormPhase::MarkingTransfer => 3,
        FormPhase::Uploading => 4,
        FormPhase::Removing => 5,
        FormPhase::MarkingQueued => 6,
        FormPhase::Publishing => 7,
        FormPhase::CleaningAfterChunkError => 8,
        FormPhase::CleaningAfterUploadError => 8,
        FormPhase::RecordingFailure => 9,
        FormPhase::Replied => 10,
    }
}

/// Whether `action` answers with `status`, `message` and `details`.
pub open spec fn replies_error(
    action: FormAction,
    status: u16,
    message: Seq<char>,
    details: Seq<char>,
) -> bool {
    action matches FormAction::Reply(Err(e)) && e.status == status && e.message@ == message
        && opt_text(e.details) == Some(details)
}

/// Whether `reply` is held with `status`, `message` and `details`.
pub open spec fn holds_error(
    pending: Option<ErrorReply>,
    status: u16,
    message: Seq<char>,
    details: Seq<char>,
) -> bool {
    pending matches Some(e) && e.status == status && e.message@ == message && opt_text(e.details)
        == Some(details)
}

/// Whether `action` records the `Failed` stage of task `task_id` with
/// `message` as its context.
pub open spec fn records_failure(action: FormAction, task_id: i32, message: Seq<char>) -> bool {
    action matches FormAction::RecordStage { task_id: t, stage, context } && t == task_id && stage
        == TaskStage::Failed && context@ == message
}

impl FormUpload {
    pub open spec fn well_formed(&self) -> bool {
        &&& (self.phase != FormPhase::RecordingTask && self.phase != FormPhase::Replied)
            ==> self.path@ == download_path(self.task_id)
        &&& (self.phase == FormPhase::CleaningAfterChunkError || self.phase
            == FormPhase::CleaningAfterUploadError || self.phase == FormPhase::RecordingFailure)
            == (self.pending is Some)
    }

    /// Starts handling an upload: first write the task row, in the
    /// `UploadingFile` stage.
    pub fn start() -> (res: (FormUpload, FormAction))
        ensures
            res.0.well_formed(),
            res.0.phase == FormPhase::RecordingTask,
            res.1 matches FormAction::RecordTask { stage, context } && stage
                == TaskStage::UploadingFile && context@ == "Receiving file"@,
    {
        (
            FormUpload { phase: FormPhase::RecordingTask, task_id: 0, path: String::new(), pending: None },
            FormAction::RecordTask {
                stage: TaskStage::UploadingFile,
                context: String::from_str("Receiving file"),
            },
        )
    }

    fn go(self, phase: FormPhase, action: FormAction) -> (res: (FormUpload, FormAction))
        requires
            self.well_formed(),
            self.phase != FormPhase::RecordingTask,
            self.phase != FormPhase::Replied,
            phase != FormPhase::CleaningAfterChunkError,
            phase != FormPhase::CleaningAfterUploadError,
            phase != FormPhase::RecordingFailure,
            phase != FormPhase::RecordingTask,
            self.pending is None,
        ensures
            res.0.well_formed(),
            res.0.phase == phase,
            res.0.task_id == self.task_id,
            res.0.path@ == self.path@,
            res.1 == action,
    {
        (FormUpload { phase, ..self }, action)
    }

    /// Holds `reply` and records the task as failed before answering it.
    fn fail(self, reply: ErrorReply) -> (res: (FormUpload, FormAction))
        requires
            self.well_formed(),
            self.phase != FormPhase::RecordingTask,
            self.phase != FormPhase::Replied,
        ensures
            res.0.well_formed(),
            res.0.phase == FormPhase::RecordingFailure,
            res.0.task_id == self.task_id,
            res.0.pending == Some(reply),
            records_failure(res.1, self.task_id, reply.message@),
    {
        let context = reply.message.clone();
        let task_id = self.task_id;
        (
            FormUpload { phase: FormPhase::RecordingFailure, pending: Some(reply), ..self },
            FormAction::RecordStage { task_id, stage: TaskStage::Failed, context },
        )
    }

    /// Holds `reply` while the clean-up `action` runs in `phase`.
    fn clean_up(self, phase: FormPhase, reply: ErrorReply, action: FormAction) -> (res: (
        FormUpload,
        FormAction,
    ))
        requires
            self.well_formed(),
            self.phase != FormPhase::RecordingTask,
            self.phase != FormPhase::Replied,
            phase == FormPhase::CleaningAfterChunkError || phase
                == FormPhase::CleaningAfterUploadError,
        ensures
            res.0.well_formed(),
            res.0.phase == phase,
            res.0.task_id == self.task_id,
            res.0.pending == Some(reply),
            res.1 == action,
    {
        (FormUpload { phase, pending: Some(reply), ..self }, action)
    }

    /// Takes the answer to the last action and decides the next one.
    pub fn step(self, event: FormEvent) -> (res: (FormUpload, FormAction))
        requires
            self.well_formed(),
            form_expects(self.phase, event),
        ensures
            res.0.well_formed(),
            res.0.phase == form_next_phase(self.phase, event),
            self.phase != FormPhase::RecordingTask ==> res.0.task_id == self.task_id,
            (res.1 matches FormAction::Reply(Ok(_))) <==> (event is Published),
            match event {
                FormEvent::TaskRecorded { task_id } => {
                    &&& res.0.task_id == task_id
                    &&& res.1 matches FormAction::CreateFile { path } && path@ == download_path(
                        task_id,
                    )
                },
                FormEvent::TaskRecordFailed { detail } => replies_error(
                    res.1,
                    INTERNAL_SERVER_ERROR,
                    "Failed to record task"@,
                    detail@,
                ),
                FormEvent::FileCreated => res.1 is NextField,
                FormEvent::FileCreateFailed { detail } => holds_error(
                    res.0.pending,
                    INTERNAL_SERVER_ERROR,
                    "Failed to create temporary file"@,
                    detail@,
                ) && records_failure(res.1, self.task_id, "Failed to create temporary file"@),
                FormEvent::FieldStarted => res.1 is NextChunk,
                FormEvent::FieldsDone => res.1 matches FormAction::RecordStage {
                    task_id,
                    stage,
                    context,
                } && task_id == self.task_id && stage == TaskStage::TransferingS3 && context@
                    == "Transferring file to object storage"@,
                FormEvent::FieldFailed { detail } => holds_error(
                    res.0.pending,
                    BAD_REQUEST,
                    "Failed to read multipart field"@,
                    detail@,
                ) && records_failure(res.1, self.task_id, "Failed to read multipart field"@),
                FormEvent::ChunkReceived { bytes } => res.1 == FormAction::WriteChunk { bytes },
                FormEvent::FieldEnded => res.1 is Flush,
                FormEvent::ChunkFailed { detail } => {
                    &&& res.1 matches FormAction::FlushAndRemove { path } && path@ == download_path(
                        self.task_id,
                    )
                    &&& holds_error(res.0.pending, BAD_REQUEST, "Failed to read file chunk"@, detail@)
                },
                FormEvent::ChunkWritten => res.1 is NextChunk,
                FormEvent::WriteFailed { detail } => holds_error(
                    res.0.pending,
                    INTERNAL_SERVER_ERROR,
                    "Failed to write file chunk"@,
                    detail@,
                ) && records_failure(res.1, self.task_id, "Failed to write file chunk"@),
                FormEvent::Flushed => res.1 is NextField,
                FormEvent::FlushFailed { detail } => holds_error(
                    res.0.pending,
                    INTERNAL_SERVER_ERROR,
                    "Failed to flush file buffer"@,
                    detail@,
                ) && records_failure(res.1, self.task_id, "Failed to flush file buffer"@),
                FormEvent::CleanedUp => {
                    &&& res.0.pending == self.pending
                    &&& records_failure(res.1, self.task_id, self.pending->0.message@)
                },
                FormEvent::StageRecorded => match self.phase {
                    FormPhase::MarkingTransfer => res.1 matches FormAction::Upload { key, path }
                        && key@ == object_key(self.task_id) && path@ == download_path(
                        self.task_id,
                    ),
                    FormPhase::MarkingQueued => res.1 matches FormAction::Publish {
                        queue,
                        message,
                    } && queue@ == "subtitles-task-queue"@ && message@ == task_message_bytes(
                        self.task_id,
                    ),
                    _ => res.1 matches FormAction::Reply(Err(e)) && e == self.pending->0,
                },
                FormEvent::Uploaded => res.1 matches FormAction::Remove { path } && path@
                    == download_path(self.task_id),
                FormEvent::UploadFailed { detail } => {
                    &&& res.1 matches FormAction::RemoveQuietly { path } && path@ == download_path(
                        self.task_id,
                    )
                    &&& holds_error(
                        res.0.pending,
                        INTERNAL_SERVER_ERROR,
                        "Internal server error"@,
                        detail@,
                    )
                },
                FormEvent::Removed => res.1 matches FormAction::RecordStage {
                    task_id,
                    stage,
                    context,
                } && task_id == self.task_id && stage == TaskStage::FindingWorker && context@
                    == "Waiting for a worker"@,
                FormEvent::RemoveFailed { detail } => holds_error(
                    res.0.pending,
                    INTERNAL_SERVER_ERROR,
                    "Failed to remove temporary file"@,
                    detail@,
                ) && records_failure(res.1, self.task_id, "Failed to remove temporary file"@),
                FormEvent::Published => res.1 matches FormAction::Reply(Ok(r)) && r.task_id@
                    == signed_decimal(self.task_id as int) && r.message@
                    == "Task submitted successfully"@,
                FormEvent::PublishFailed { detail } => holds_error(
                    res.0.pending,
                    INTERNAL_SERVER_ERROR,
                    "Internal server error"@,
                    detail@,
                ) && records_failure(res.1, self.task_id, "Internal server error"@),
            },
    {
        match event {
            FormEvent::TaskRecorded { task_id } => {
                let path = task_file_path(task_id);
                let p = path.clone();
                (
                    FormUpload { phase: FormPhase::CreatingFile, task_id, path, pending: None },
                    FormAction::CreateFile { path: p },
                )
            },
            FormEvent::TaskRecordFailed { detail } => {
                let reply = ErrorReply::with_details(
                    INTERNAL_SERVER_ERROR,
                    String::from_str("Failed to record task"),
                    detail,
                );
                (
                    FormUpload { phase: FormPhase::Replied, pending: None, ..self },
                    FormAction::Reply(Err(reply)),
                )
            },
            FormEvent::FileCreated => self.go(FormPhase::AwaitingField, FormAction::NextField),
            FormEvent::FileCreateFailed { detail } => self.fail(
                ErrorReply::with_details(
                    INTERNAL_SERVER_ERROR,
                    String::from_str("Failed to create temporary file"),
                    detail,
                ),
            ),
            FormEvent::FieldStarted => self.go(FormPhase::AwaitingChunk, FormAction::NextChunk),
            FormEvent::FieldsDone => {
                let task_id = self.task_id;
                self.go(
                    FormPhase::MarkingTransfer,
                    FormAction::RecordStage {
                        task_id,
                        stage: TaskStage::TransferingS3,
                        context: String::from_str("Transferring file to object storage"),
                    },
                )
            },
            FormEvent::FieldFailed { detail } => self.fail(
                ErrorReply::with_details(
                    BAD_REQUEST,
                    String::from_str("Failed to read multipart field"),
                    detail,
                ),
            ),
            FormEvent::ChunkReceived { bytes } => self.go(
                FormPhase::Writing,
                FormAction::WriteChunk { bytes },
            ),
            FormEvent::FieldEnded => self.go(FormPhase::Flushing, FormAction::Flush),
            FormEvent::ChunkFailed { detail } => {
                let reply = ErrorReply::with_details(
                    BAD_REQUEST,
                    String::from_str("Failed to read file chunk"),
                    detail,
                );
                let path = self.path.clone();
                self.clean_up(
                    FormPhase::CleaningAfterChunkError,
                    reply,
                    FormAction::FlushAndRemove { path },
                )
            },
            FormEvent::ChunkWritten => self.go(FormPhase::AwaitingChunk, FormAction::NextChunk),
            FormEvent::WriteFailed { detail } => self.fail(
                ErrorReply::with_details(
                    INTERNAL_SERVER_ERROR,
                    String::from_str("Failed to write file chunk"),
                    detail,
                ),
            ),
            FormEvent::Flushed => self.go(FormPhase::AwaitingField, FormAction::NextField),
            FormEvent::FlushFailed { detail } => self.fail(
                ErrorReply::with_details(
                    INTERNAL_SERVER_ERROR,
                    String::from_str("Failed to flush file buffer"),
                    detail,
                ),
            ),
            FormEvent::CleanedUp => {
                let mut job = self;
                let pending = job.pending.take();
                let reply = match pending {
                    Some(e) => e,
                    None => ErrorReply::internal_error(String::new()),
                };
                let context = reply.message.clone();
                let task_id = job.task_id;
                (
                    FormUpload { phase: FormPhase::RecordingFailure, pending: Some(reply), ..job },
                    FormAction::RecordStage { task_id, stage: TaskStage::Failed, context },
                )
            },
            FormEvent::StageRecorded => match self.phase {
                FormPhase::MarkingTransfer => {
                    let key = i32_to_decimal(self.task_id);
                    let path = self.path.clone();
                    self.go(FormPhase::Uploading, FormAction::Upload { key, path })
                },
                FormPhase::MarkingQueued => {
                    let message = task_message(self.task_id);
                    let queue = String::from_str(crate::consumer::work_queue());
                    self.go(FormPhase::Publishing, FormAction::Publish { queue, message })
                },
                _ => {
                    let mut job = self;
                    let pending = job.pending.take();
                    let reply = match pending {
                        Some(e) => e,
                        None => ErrorReply::internal_error(String::new()),
                    };
                    (
                        FormUpload { phase: FormPhase::Replied, ..job },
                        FormAction::Reply(Err(reply)),
                    )
                },
            },
            FormEvent::Uploaded => {
                let path = self.path.clone();
                self.go(FormPhase::Removing, FormAction::Remove { path })
            },
            FormEvent::UploadFailed { detail } => {
                let reply = ErrorReply::internal_error(detail);
                let path = self.path.clone();
                self.clean_up(
                    FormPhase::CleaningAfterUploadError,
                    reply,
                    FormAction::RemoveQuietly { path },
                )
            },
            FormEvent::Removed => {
                let task_id = self.task_id;
                self.go(
                    FormPhase::MarkingQueued,
                    FormAction::RecordStage {
                        task_id,
                        stage: TaskStage::FindingWorker,
                        context: String::from_str("Waiting for a worker"),
                    },
                )
            },
            FormEvent::RemoveFailed { detail } => self.fail(
                ErrorReply::with_details(
                    INTERNAL_SERVER_ERROR,
                    String::from_str("Failed to remove temporary file"),
                    detail,
                ),
            ),
            FormEvent::Published => {
                let reply = SuccessReply {
                    task_id: i32_to_decimal(self.task_id),
                    message: String::from_str("Task submitted successfully"),
                };
                self.go(FormPhase::Replied, FormAction::Reply(Ok(reply)))
            },
            FormEvent::PublishFailed { detail } => self.fail(ErrorReply::internal_error(detail)),
        }
    }
}

/// The phases in which the form is read and written to the temporary file;
/// they repeat once for each field and chunk.
pub open spec fn reading_form(phase: FormPhase) -> bool {
    phase == FormPhase::AwaitingField || phase == FormPhase::AwaitingChunk || phase
        == FormPhase::Writing || phase == FormPhase::Flushing
}

/// Handling only moves forward: apart from the repeated reading of the form,
/// every step leads to a later phase.
pub proof fn lemma_form_moves_forward(phase: FormPhase, event: FormEvent)
    requires
        form_expects(phase, event),
    ensures
        form_rank(form_next_phase(phase, event)) > form_rank(phase) || (reading_form(phase)
            && reading_form(form_next_phase(phase, event))),
{
}

/// The task row is written first: handling goes on past the first phase only
/// once the database has given the task its id.
pub proof fn lemma_task_recorded_first(phase: FormPhase, event: FormEvent)
    requires
        form_expects(phase, event),
        phase == FormPhase::RecordingTask,
        form_next_phase(phase, event) != FormPhase::Replied,
    ensures
        (event is TaskRecorded),
{
}

/// A task is announced only after its row was written, its file reached the
/// object store, its temporary copy was removed and its `FindingWorker` stage
/// was recorded: each of these phases is entered only from the one before,
/// on its success.
pub proof fn lemma_published_only_after_recorded_and_stored(phase: FormPhase, event: FormEvent)
    requires
        form_expects(phase, event),
    ensures
        form_next_phase(phase, event) == FormPhase::MarkingTransfer ==> phase
            == FormPhase::AwaitingField && (event is FieldsDone),
        form_next_phase(phase, event) == FormPhase::Uploading ==> phase
            == FormPhase::MarkingTransfer,
        form_next_phase(phase, event) == FormPhase::Removing ==> phase == FormPhase::Uploading
            && (event is Uploaded),
        form_next_phase(phase, event) == FormPhase::MarkingQueued ==> phase == FormPhase::Removing
            && (event is Removed),
        form_next_phase(phase, event) == FormPhase::Publishing ==> phase
            == FormPhase::MarkingQueued,
        (event is Published) ==> phase == FormPhase::Publishing,
        form_rank(FormPhase::RecordingTask) < form_rank(FormPhase::Publishing),
{
}

/// Once the temporary file exists, a failure to read a chunk or to transfer
/// the file leads to its removal before the error is answered.
pub proof fn lemma_temp_file_removed_on_read_or_transfer_failure(phase: FormPhase, event: FormEvent)
    requires
        form_expects(phase, event),
        (event is ChunkFailed) || (event is UploadFailed),
    ensures
        form_next_phase(phase, event) == FormPhase::CleaningAfterChunkError || form_next_phase(
            phase,
            event,
        ) == FormPhase::CleaningAfterUploadError,
{
}

} // verus!
