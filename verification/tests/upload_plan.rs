use subtitles::upload::{
    bucket, plan_chunks, ChunkPlan, ChunkRange, MultipartUpload, UploadAction, UploadError,
    UploadEvent, UploadPhase, CHUNK_SIZE, MAX_CHUNKS,
};

#[test]
fn empty_file_is_refused() {
    assert_eq!(plan_chunks(0), Err(UploadError::EmptyFile));
}

#[test]
fn file_of_one_byte_is_one_chunk() {
    let plan = plan_chunks(1).unwrap();
    assert_eq!(plan, ChunkPlan { file_size: 1, chunk_count: 1, last_chunk_size: 1 });
    assert_eq!(
        plan.chunk(0),
        ChunkRange { index: 0, offset: 0, length: 1, part_number: 1 }
    );
}

#[test]
fn file_of_exactly_one_chunk() {
    let plan = plan_chunks(CHUNK_SIZE).unwrap();
    assert_eq!(plan.chunk_count, 1);
    assert_eq!(plan.last_chunk_size, 5242880);
}

#[test]
fn file_one_byte_over_a_chunk() {
    let plan = plan_chunks(CHUNK_SIZE + 1).unwrap();
    assert_eq!(plan.chunk_count, 2);
    assert_eq!(plan.chunk(0), ChunkRange { index: 0, offset: 0, length: 5242880, part_number: 1 });
    assert_eq!(plan.chunk(1), ChunkRange { index: 1, offset: 5242880, length: 1, part_number: 2 });
}

#[test]
fn chunks_cover_the_file_end_to_end() {
    for size in [1u64, 1000, CHUNK_SIZE - 1, CHUNK_SIZE, 3 * CHUNK_SIZE + 17, 7 * CHUNK_SIZE] {
        let plan = plan_chunks(size).unwrap();
        let mut next = 0u64;
        for i in 0..plan.chunk_count {
            let c = plan.chunk(i);
            assert_eq!(c.offset, next);
            assert!(c.length > 0 && c.length <= CHUNK_SIZE);
            assert_eq!(c.part_number as u64, i + 1);
            next = c.offset + c.length;
        }
        assert_eq!(next, size);
    }
}

#[test]
fn largest_file_within_the_part_limit() {
    let plan = plan_chunks(MAX_CHUNKS * CHUNK_SIZE).unwrap();
    assert_eq!(plan.chunk_count, 10000);
    assert_eq!(
        plan_chunks(MAX_CHUNKS * CHUNK_SIZE + 1),
        Err(UploadError::TooManyChunks { chunk_count: 10001 })
    );
}

#[test]
fn upload_error_messages() {
    assert_eq!(UploadError::CreateFailed.message(), "Failed to create multipart upload");
    assert_eq!(UploadError::MissingUploadId.message(), "Missing upload id from S3 response");
    assert_eq!(UploadError::MetadataFailed.message(), "Failed to read file metadata");
    assert_eq!(
        UploadError::EmptyFile.message(),
        "File size is zero - cannot upload empty file"
    );
    assert_eq!(
        UploadError::TooManyChunks { chunk_count: 10001 }.message(),
        "File requires 10001 chunks, exceeding maximum of 10000 chunks. Try increasing chunk size."
    );
    assert_eq!(
        UploadError::ChunkReadFailed { chunk_index: 3 }.message(),
        "Failed to read chunk 3 from file"
    );
    assert_eq!(
        UploadError::PartUploadFailed { part_number: 4 }.message(),
        "Failed to upload part 4 to S3"
    );
    assert_eq!(UploadError::CompleteFailed.message(), "Failed to complete multipart upload");
}

#[test]
fn multipart_upload_of_two_parts() {
    assert_eq!(bucket(), "test");
    let (job, action) = MultipartUpload::start("key-1".to_string());
    match action {
        UploadAction::CreateUpload { bucket, key } => {
            assert_eq!(bucket, "test");
            assert_eq!(key, "key-1");
        }
        _ => panic!("expected the upload to be opened"),
    }
    let (job, action) = job.step(UploadEvent::Created { upload_id: Some("u-9".to_string()) });
    assert!(matches!(action, UploadAction::ReadFileSize));
    assert_eq!(job.upload_id, "u-9");
    let (job, action) = job.step(UploadEvent::SizeRead { file_size: CHUNK_SIZE + 10 });
    match action {
        UploadAction::SendPart { chunk } => {
            assert_eq!(chunk, ChunkRange { index: 0, offset: 0, length: CHUNK_SIZE, part_number: 1 })
        }
        _ => panic!("expected the first part"),
    }
    let (job, action) = job.step(UploadEvent::PartUploaded { e_tag: Some("etag-a".to_string()) });
    match action {
        UploadAction::SendPart { chunk } => {
            assert_eq!(chunk, ChunkRange { index: 1, offset: CHUNK_SIZE, length: 10, part_number: 2 })
        }
        _ => panic!("expected the second part"),
    }
    let (job, action) = job.step(UploadEvent::PartUploaded { e_tag: None });
    assert_eq!(job.phase, UploadPhase::AwaitingComplete);
    match action {
        UploadAction::Complete { parts } => {
            assert_eq!(parts.len(), 2);
            assert_eq!(parts[0].e_tag, "etag-a");
            assert_eq!(parts[0].part_number, 1);
            assert_eq!(parts[1].e_tag, "");
            assert_eq!(parts[1].part_number, 2);
        }
        _ => panic!("expected completion"),
    }
    let (job, action) = job.step(UploadEvent::Completed);
    assert_eq!(job.phase, UploadPhase::Finished);
    assert!(matches!(action, UploadAction::Finish(Ok(()))));
}

#[test]
fn multipart_upload_failures() {
    let (job, _) = MultipartUpload::start("k".to_string());
    let (_, action) = job.step(UploadEvent::Created { upload_id: None });
    assert!(matches!(action, UploadAction::Finish(Err(UploadError::MissingUploadId))));

    let (job, _) = MultipartUpload::start("k".to_string());
    let (job, _) = job.step(UploadEvent::Created { upload_id: Some("u".to_string()) });
    let (_, action) = job.step(UploadEvent::SizeRead { file_size: 0 });
    assert!(matches!(action, UploadAction::Finish(Err(UploadError::EmptyFile))));

    let (job, _) = MultipartUpload::start("k".to_string());
    let (job, _) = job.step(UploadEvent::Created { upload_id: Some("u".to_string()) });
    let (job, _) = job.step(UploadEvent::SizeRead { file_size: 3 * CHUNK_SIZE });
    let (job, _) = job.step(UploadEvent::PartUploaded { e_tag: None });
    let (_, action) = job.step(UploadEvent::PartFailed);
    assert!(matches!(
        action,
        UploadAction::Finish(Err(UploadError::PartUploadFailed { part_number: 2 }))
    ));
}
