use subtitles::consumer::{decode_task_id, task_message, work_queue, TaskAction, TaskEvent, TaskRun};
use subtitles::producer::{FormAction, FormEvent, FormUpload};
use subtitles::segment::Segment;
use subtitles::status::{StatusAction, StatusEvent, StatusPhase, StatusQuery, NOT_FOUND};

#[test]
fn task_message_is_the_little_endian_id() {
    for id in [0, 1, 42, 255, 256, 65536, -1, -42, i32::MIN, i32::MAX] {
        assert_eq!(task_message(id), id.to_le_bytes().to_vec());
        assert_eq!(decode_task_id(&task_message(id)).unwrap(), id);
    }
    assert_eq!(work_queue(), "subtitles-task-queue");
}

#[test]
fn consumer_downloads_what_the_producer_uploaded() {
    let (job, _) = FormUpload::start();
    let (job, _) = job.step(FormEvent::TaskRecorded { task_id: 1234 });
    let (job, _) = job.step(FormEvent::FileCreated);
    let (job, _) = job.step(FormEvent::FieldsDone);
    let (job, action) = job.step(FormEvent::StageRecorded);
    let uploaded_key = match action {
        FormAction::Upload { key, .. } => key,
        _ => panic!("expected the upload"),
    };
    let (job, _) = job.step(FormEvent::Uploaded);
    let (job, _) = job.step(FormEvent::Removed);
    let (_, action) = job.step(FormEvent::StageRecorded);
    let message = match action {
        FormAction::Publish { message, .. } => message,
        _ => panic!("expected the publication"),
    };

    let (run, _) = TaskRun::start(subtitles::upload::bucket().to_string(), message);
    assert_eq!(run.task_id, 1234);
    let (_, action) = run.step(TaskEvent::StageRecorded);
    match action {
        TaskAction::Download { bucket, key, .. } => {
            assert_eq!(bucket, subtitles::upload::bucket());
            assert_eq!(key, uploaded_key);
        }
        _ => panic!("expected the download"),
    }
}

#[test]
fn status_of_a_task_in_progress() {
    let (q, action) = StatusQuery::start("42");
    assert!(matches!(action, StatusAction::LoadTask { task_id: 42 }));
    let (q, action) = q.step(StatusEvent::TaskFound {
        stage: "Processing".to_string(),
        context: "Processing audio".to_string(),
    });
    assert_eq!(q.phase, StatusPhase::Replied);
    match action {
        StatusAction::Reply(Ok(s)) => {
            assert_eq!(s.task_id, 42);
            assert_eq!(s.stage, "Processing");
            assert_eq!(s.context, "Processing audio");
            assert!(s.segments.is_empty());
        }
        _ => panic!("expected a status"),
    }
}

#[test]
fn status_of_a_succeeded_task_carries_its_segments() {
    let (q, _) = StatusQuery::start("+7");
    assert_eq!(q.task_id, 7);
    let (q, action) = q.step(StatusEvent::TaskFound {
        stage: "Success".to_string(),
        context: "Success".to_string(),
    });
    assert!(matches!(action, StatusAction::LoadSegments { task_id: 7 }));
    let (_, action) = q.step(StatusEvent::SegmentsLoaded {
        segments: vec![Segment::new("hi".to_string(), 0, 40)],
    });
    match action {
        StatusAction::Reply(Ok(s)) => {
            assert_eq!(s.stage, "Success");
            assert_eq!(s.segments.len(), 1);
            assert_eq!(s.segments[0].text, "hi");
        }
        _ => panic!("expected a status"),
    }
}

#[test]
fn status_errors() {
    for bad in ["", "abc", "4 2", "-", "+", "2147483648", "0x10"] {
        let (q, action) = StatusQuery::start(bad);
        assert_eq!(q.phase, StatusPhase::Replied);
        assert!(matches!(action, StatusAction::Reply(Err(ref e)) if e.status == 400 && e.message == "Invalid task id"));
    }
    let (q, _) = StatusQuery::start("-2147483648");
    assert_eq!(q.task_id, i32::MIN);
    let (q, _) = StatusQuery::start("5");
    let (_, action) = q.step(StatusEvent::TaskMissing);
    assert!(matches!(action, StatusAction::Reply(Err(ref e)) if e.status == NOT_FOUND && e.details.as_deref() == Some("5")));
    let (q, _) = StatusQuery::start("5");
    let (_, action) = q.step(StatusEvent::TaskLoadFailed { detail: "db".to_string() });
    assert!(matches!(action, StatusAction::Reply(Err(ref e)) if e.status == 500 && e.message == "Internal server error"));
}
