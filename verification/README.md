# subtitles

The verified core of a distributed subtitle generation system: a producer
service accepts media uploads and stores them in an S3-compatible object store
with a multipart upload, and worker services take task ids from a RabbitMQ
queue, convert the media to 16 kHz mono WAV, transcribe it with Whisper and
store timed text segments in PostgreSQL.

- `src/` is the library, verified with Verus: task stages and their stored
  text, segments and their table rows, decimal and trimmed-text helpers, the
  plan of a multipart upload, the decoding of queue messages, and the
  decisions of the upload handler (which records the task, stores its file
  under the task id and announces the id on the work queue), the multipart
  upload, the WAV conversion, the processing of a task and the status query, each written as a step function from state and
  event to next state and action.
- `app/` runs those decisions against the real services (axum, aws-sdk-s3,
  amqprs, diesel, whisper-rs, ffmpeg): `subtitles producer` or
  `subtitles consumer`.
- `tests/` exercises the library on concrete values.
