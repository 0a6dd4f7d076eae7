use subtitles::consumer::{
    decode_task_id, settle_delivery, task_file_path, Delivery, ProcessingFailure, TaskAction,
    TaskError, TaskEvent, TaskPhase, TaskRun,
};
use subtitles::segment::Segment;
use subtitles::stage::TaskStage;

fn started(id: i32) -> TaskRun {
    let (run, action) = TaskRun::start("media".to_string(), id.to_le_bytes().to_vec());
    match action {
        TaskAction::RecordStage { task_id, stage, context } => {
            assert_eq!(task_id, id);
            assert_eq!(stage, TaskStage::Processing);
            assert_eq!(context, "Processing audio");
        }
        _ => panic!("expected the Processing stage"),
    }
    run
}

#[test]
fn task_id_is_four_little_endian_bytes() {
    assert_eq!(decode_task_id(&[1, 0, 0, 0]).unwrap(), 1);
    assert_eq!(decode_task_id(&[0x39, 0x30, 0, 0]).unwrap(), 12345);
    assert_eq!(decode_task_id(&[0xff, 0xff, 0xff, 0xff]).unwrap(), -1);
    assert_eq!(decode_task_id(&[0, 0, 0, 0x80]).unwrap(), i32::MIN);
    assert_eq!(decode_task_id(&i32::MAX.to_le_bytes()).unwrap(), i32::MAX);
}

#[test]
fn message_of_wrong_length_is_refused() {
    let e = decode_task_id(&[1, 2, 3]).err().unwrap();
    assert_eq!(
        e.message(),
        "Failed to convert Vec<u8> to [u8; 4]: Byte vector has wrong length: 3"
    );
    let uuid_sized = [7u8; 16];
    assert!(decode_task_id(&uuid_sized).is_err());
}

#[test]
fn download_path_and_messages() {
    assert_eq!(task_file_path(42), "temp/42");
    assert_eq!(task_file_path(-5), "temp/-5");
    let e = TaskError::DownloadFailed { task_id: 42, bucket: "media".to_string() };
    assert_eq!(e.message(), "Failed to download object 42 from S3 bucket 'media'");
    let e = TaskError::TempFileFailed { path: "temp/42".to_string() };
    assert_eq!(e.message(), "Failed to create temporary file at 'temp/42'");
    let e = TaskError::WriteFailed { path: "temp/42".to_string() };
    assert_eq!(e.message(), "Failed to write data to temporary file 'temp/42'");
    let e = TaskError::FlushFailed { path: "temp/42".to_string() };
    assert_eq!(e.message(), "Failed to flush temporary file 'temp/42'");
    assert_eq!(TaskError::BodyReadFailed.message(), "Failed to read chunk from S3 response body");
}

#[test]
fn successful_task_stores_segments_then_records_success() {
    let run = started(42);
    let (run, action) = run.step(TaskEvent::StageRecorded);
    match action {
        TaskAction::Download { bucket, key, path } => {
            assert_eq!(bucket, "media");
            assert_eq!(key, "42");
            assert_eq!(path, "temp/42");
        }
        _ => panic!("expected the download"),
    }
    let (run, action) = run.step(TaskEvent::Saved);
    assert!(matches!(action, TaskAction::CheckCompatibility { ref path } if path == "temp/42"));
    let (run, action) = run.step(TaskEvent::CompatibilityChecked { compatible: true });
    assert!(matches!(action, TaskAction::ConvertToWav { ref path } if path == "temp/42"));
    let (run, action) = run.step(TaskEvent::Converted { samples: vec![1, -2, 3] });
    assert!(matches!(action, TaskAction::Transcribe { ref samples } if samples == &vec![1, -2, 3]));
    let segments = vec![Segment::new("hello".to_string(), 0, 150)];
    let (run, action) = run.step(TaskEvent::Transcribed { segments });
    match action {
        TaskAction::StoreSegments { task_id, segments } => {
            assert_eq!(task_id, 42);
            assert_eq!(segments.len(), 1);
            assert_eq!(segments[0].text, "hello");
            assert_eq!(segments[0].end_timestamp, 150);
        }
        _ => panic!("expected the segments to be stored"),
    }
    let (run, action) = run.step(TaskEvent::Stored);
    match action {
        TaskAction::RecordStage { task_id, stage, context } => {
            assert_eq!(task_id, 42);
            assert_eq!(stage, TaskStage::Success);
            assert_eq!(context, "Success");
        }
        _ => panic!("expected the Success stage"),
    }
    let (run, action) = run.step(TaskEvent::StageRecorded);
    assert_eq!(run.phase, TaskPhase::Finished);
    let outcome = match action {
        TaskAction::Finish(outcome) => outcome,
        _ => panic!("expected the end"),
    };
    assert!(outcome.is_ok());
    assert_eq!(settle_delivery(9, &outcome), Delivery::Ack { delivery_tag: 9, multiple: false });
}

#[test]
fn incompatible_file_records_failed_stage() {
    let run = started(7);
    let (run, _) = run.step(TaskEvent::StageRecorded);
    let (run, _) = run.step(TaskEvent::Saved);
    let (run, action) = run.step(TaskEvent::CompatibilityChecked { compatible: false });
    assert_eq!(run.phase, TaskPhase::RecordingFailure);
    match action {
        TaskAction::RecordStage { task_id, stage, context } => {
            assert_eq!(task_id, 7);
            assert_eq!(stage, TaskStage::Failed);
            assert_eq!(context, "File is not ffmpeg compatible");
        }
        _ => panic!("expected the Failed stage"),
    }
    let (_, action) = run.step(TaskEvent::StageRecorded);
    let outcome = match action {
        TaskAction::Finish(outcome) => outcome,
        _ => panic!("expected the end"),
    };
    match &outcome {
        Err(TaskError::Processing(ProcessingFailure::NotCompatible)) => {}
        _ => panic!("expected the processing failure"),
    }
    assert_eq!(
        settle_delivery(3, &outcome),
        Delivery::Nack { delivery_tag: 3, multiple: false, requeue: true }
    );
}

#[test]
fn processing_failure_messages() {
    let f = ProcessingFailure::CompatibilityCheckFailed { detail: "task panicked".to_string() };
    assert_eq!(f.message(), "Failed to check if file is ffmpeg compatible: task panicked");
    assert_eq!(ProcessingFailure::InferenceSpawnFailed.message(), "Failed to spawn inference task");
    assert_eq!(ProcessingFailure::InferenceFailed.message(), "Failed to execute inference");
    let f = ProcessingFailure::ConversionFailed { detail: "NoAudioStream".to_string() };
    assert_eq!(f.message(), "NoAudioStream");
}

#[test]
fn inference_failure_records_failed_stage() {
    let run = started(8);
    let (run, _) = run.step(TaskEvent::StageRecorded);
    let (run, _) = run.step(TaskEvent::Saved);
    let (run, _) = run.step(TaskEvent::CompatibilityChecked { compatible: true });
    let (run, _) = run.step(TaskEvent::Converted { samples: vec![] });
    let (_, action) = run.step(TaskEvent::InferenceFailed);
    match action {
        TaskAction::RecordStage { stage, context, .. } => {
            assert_eq!(stage, TaskStage::Failed);
            assert_eq!(context, "Failed to execute inference");
        }
        _ => panic!("expected the Failed stage"),
    }
}

#[test]
fn store_failure_ends_without_recording_a_stage() {
    let run = started(5);
    let (run, _) = run.step(TaskEvent::StageRecorded);
    let (run, _) = run.step(TaskEvent::Saved);
    let (run, _) = run.step(TaskEvent::CompatibilityChecked { compatible: true });
    let (run, _) = run.step(TaskEvent::Converted { samples: vec![0] });
    let (run, _) = run.step(TaskEvent::Transcribed { segments: vec![] });
    let (run, action) = run.step(TaskEvent::StoreFailed { detail: "db down".to_string() });
    assert_eq!(run.phase, TaskPhase::Finished);
    match action {
        TaskAction::Finish(Err(e)) => assert_eq!(e.message(), "db down"),
        _ => panic!("expected a failure"),
    }
}

#[test]
fn download_failure_ends_the_task() {
    let run = started(11);
    let (run, _) = run.step(TaskEvent::StageRecorded);
    let (run, action) = run.step(TaskEvent::DownloadFailed);
    assert_eq!(run.phase, TaskPhase::Finished);
    match action {
        TaskAction::Finish(Err(e)) => {
            assert_eq!(e.message(), "Failed to download object 11 from S3 bucket 'media'")
        }
        _ => panic!("expected a failure"),
    }
}

#[test]
fn short_message_ends_before_any_stage_update() {
    let (run, action) = TaskRun::start("media".to_string(), vec![1, 2]);
    assert_eq!(run.phase, TaskPhase::Finished);
    assert!(matches!(action, TaskAction::Finish(Err(TaskError::WrongLength { len: 2 }))));
}
