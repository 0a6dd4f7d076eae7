use subtitles::producer::{
    ErrorReply, FormAction, FormEvent, FormPhase, FormUpload, BAD_REQUEST, INTERNAL_SERVER_ERROR,
};
use subtitles::segment::{segment_rows, segments_from_rows, NewSegment, Segment, SegmentRow};
use subtitles::stage::TaskStage;

#[test]
fn error_replies() {
    let e = ErrorReply::with_details(BAD_REQUEST, "bad".to_string(), "why".to_string());
    assert_eq!(e.status, 400);
    assert_eq!(e.message, "bad");
    assert_eq!(e.details.as_deref(), Some("why"));
    let e = ErrorReply::internal_error("boom".to_string());
    assert_eq!(e.status, 500);
    assert_eq!(e.message, "Internal server error");
    assert_eq!(e.details.as_deref(), Some("boom"));
}

fn recorded(id: i32) -> FormUpload {
    let (job, action) = FormUpload::start();
    match action {
        FormAction::RecordTask { stage, context } => {
            assert_eq!(stage, TaskStage::UploadingFile);
            assert_eq!(context, "Receiving file");
        }
        _ => panic!("expected the task to be recorded"),
    }
    let (job, action) = job.step(FormEvent::TaskRecorded { task_id: id });
    assert!(matches!(action, FormAction::CreateFile { ref path } if path == &format!("temp/{}", id)));
    job
}

fn expect_stage(action: FormAction, id: i32, expected: TaskStage) -> String {
    match action {
        FormAction::RecordStage { task_id, stage, context } => {
            assert_eq!(task_id, id);
            assert_eq!(stage, expected);
            context
        }
        _ => panic!("expected a stage update"),
    }
}

#[test]
fn form_upload_records_task_uploads_and_publishes_its_id() {
    let job = recorded(42);
    let (job, action) = job.step(FormEvent::FileCreated);
    assert!(matches!(action, FormAction::NextField));
    let (job, action) = job.step(FormEvent::FieldStarted);
    assert!(matches!(action, FormAction::NextChunk));
    let (job, action) = job.step(FormEvent::ChunkReceived { bytes: vec![1, 2, 3] });
    assert!(matches!(action, FormAction::WriteChunk { ref bytes } if bytes == &vec![1, 2, 3]));
    let (job, action) = job.step(FormEvent::ChunkWritten);
    assert!(matches!(action, FormAction::NextChunk));
    let (job, action) = job.step(FormEvent::FieldEnded);
    assert!(matches!(action, FormAction::Flush));
    let (job, action) = job.step(FormEvent::Flushed);
    assert!(matches!(action, FormAction::NextField));
    let (job, action) = job.step(FormEvent::FieldsDone);
    assert_eq!(
        expect_stage(action, 42, TaskStage::TransferingS3),
        "Transferring file to object storage"
    );
    let (job, action) = job.step(FormEvent::StageRecorded);
    assert!(matches!(action, FormAction::Upload { ref key, ref path } if key == "42" && path == "temp/42"));
    let (job, action) = job.step(FormEvent::Uploaded);
    assert!(matches!(action, FormAction::Remove { ref path } if path == "temp/42"));
    let (job, action) = job.step(FormEvent::Removed);
    assert_eq!(expect_stage(action, 42, TaskStage::FindingWorker), "Waiting for a worker");
    let (job, action) = job.step(FormEvent::StageRecorded);
    match action {
        FormAction::Publish { queue, message } => {
            assert_eq!(queue, "subtitles-task-queue");
            assert_eq!(message, 42i32.to_le_bytes().to_vec());
        }
        _ => panic!("expected the task to be published"),
    }
    let (job, action) = job.step(FormEvent::Published);
    assert_eq!(job.phase, FormPhase::Replied);
    match action {
        FormAction::Reply(Ok(r)) => {
            assert_eq!(r.task_id, "42");
            assert_eq!(r.message, "Task submitted successfully");
        }
        _ => panic!("expected success"),
    }
}

#[test]
fn task_record_failure_answers_internal_error() {
    let (job, _) = FormUpload::start();
    let (job, action) = job.step(FormEvent::TaskRecordFailed { detail: "db down".to_string() });
    assert_eq!(job.phase, FormPhase::Replied);
    assert!(matches!(action, FormAction::Reply(Err(ref e)) if e.status == 500 && e.message == "Failed to record task"));
}

#[test]
fn chunk_failure_removes_the_file_marks_failed_then_answers_bad_request() {
    let job = recorded(7);
    let (job, _) = job.step(FormEvent::FileCreated);
    let (job, _) = job.step(FormEvent::FieldStarted);
    let (job, action) = job.step(FormEvent::ChunkFailed { detail: "reset".to_string() });
    assert!(matches!(action, FormAction::FlushAndRemove { ref path } if path == "temp/7"));
    let (job, action) = job.step(FormEvent::CleanedUp);
    assert_eq!(expect_stage(action, 7, TaskStage::Failed), "Failed to read file chunk");
    let (_, action) = job.step(FormEvent::StageRecorded);
    match action {
        FormAction::Reply(Err(e)) => {
            assert_eq!(e.status, BAD_REQUEST);
            assert_eq!(e.message, "Failed to read file chunk");
            assert_eq!(e.details.as_deref(), Some("reset"));
        }
        _ => panic!("expected an error"),
    }
}

#[test]
fn upload_failure_removes_the_file_marks_failed_then_answers_internal_error() {
    let job = recorded(8);
    let (job, _) = job.step(FormEvent::FileCreated);
    let (job, _) = job.step(FormEvent::FieldsDone);
    let (job, _) = job.step(FormEvent::StageRecorded);
    let (job, action) = job.step(FormEvent::UploadFailed { detail: "no bucket".to_string() });
    assert!(matches!(action, FormAction::RemoveQuietly { ref path } if path == "temp/8"));
    let (job, action) = job.step(FormEvent::CleanedUp);
    assert_eq!(expect_stage(action, 8, TaskStage::Failed), "Internal server error");
    let (_, action) = job.step(FormEvent::StageRecorded);
    match action {
        FormAction::Reply(Err(e)) => {
            assert_eq!(e.status, INTERNAL_SERVER_ERROR);
            assert_eq!(e.message, "Internal server error");
            assert_eq!(e.details.as_deref(), Some("no bucket"));
        }
        _ => panic!("expected an error"),
    }
}

#[test]
fn other_form_failures() {
    let job = recorded(1);
    let (job, action) = job.step(FormEvent::FileCreateFailed { detail: "denied".to_string() });
    assert_eq!(expect_stage(action, 1, TaskStage::Failed), "Failed to create temporary file");
    let (_, action) = job.step(FormEvent::StageRecorded);
    assert!(matches!(action, FormAction::Reply(Err(ref e)) if e.status == 500 && e.message == "Failed to create temporary file"));

    let job = recorded(2);
    let (job, _) = job.step(FormEvent::FileCreated);
    let (job, action) = job.step(FormEvent::FieldFailed { detail: "x".to_string() });
    assert_eq!(expect_stage(action, 2, TaskStage::Failed), "Failed to read multipart field");
    let (_, action) = job.step(FormEvent::StageRecorded);
    assert!(matches!(action, FormAction::Reply(Err(ref e)) if e.status == 400 && e.message == "Failed to read multipart field"));

    let job = recorded(3);
    let (job, _) = job.step(FormEvent::FileCreated);
    let (job, _) = job.step(FormEvent::FieldsDone);
    let (job, _) = job.step(FormEvent::StageRecorded);
    let (job, _) = job.step(FormEvent::Uploaded);
    let (job, action) = job.step(FormEvent::RemoveFailed { detail: "busy".to_string() });
    assert_eq!(expect_stage(action, 3, TaskStage::Failed), "Failed to remove temporary file");
    let (_, action) = job.step(FormEvent::StageRecorded);
    assert!(matches!(action, FormAction::Reply(Err(ref e)) if e.status == 500 && e.message == "Failed to remove temporary file"));
}

#[test]
fn segments_round_trip_through_rows() {
    let segments = vec![
        Segment::new("one".to_string(), 0, 10),
        Segment::new("two".to_string(), 10, 25),
    ];
    let rows = segment_rows(3, segments);
    assert_eq!(rows.len(), 2);
    assert_eq!(rows[0].task_id, 3);
    assert_eq!(rows[0].text, "one");
    assert_eq!(rows[1].start_timestamp, 10);
    assert_eq!(rows[1].end_timestamp, 25);
    let read: Vec<SegmentRow> = rows
        .into_iter()
        .enumerate()
        .map(|(i, r)| SegmentRow {
            id: 100 + i as i32,
            task_id: r.task_id,
            text: r.text,
            start_timestamp: r.start_timestamp,
            end_timestamp: r.end_timestamp,
        })
        .collect();
    let back = segments_from_rows(read);
    assert_eq!(back.len(), 2);
    assert_eq!(back[0].text, "one");
    assert_eq!(back[0].start_timestamp, 0);
    assert_eq!(back[1].text, "two");
    assert_eq!(back[1].end_timestamp, 25);
}

#[test]
fn new_segment_row_copies_the_segment() {
    let row = NewSegment::new(9, Segment::new("x".to_string(), -1, 2));
    assert_eq!(row.task_id, 9);
    assert_eq!(row.text, "x");
    assert_eq!(row.start_timestamp, -1);
    assert_eq!(row.end_timestamp, 2);
}
