use vstd::prelude::*;
use vstd::string::*;

use crate::text::{decimal, push_decimal};

verus! {

/// Size of every part of a multipart upload but the last: 5 MiB.
pub const CHUNK_SIZE: u64 = 1024 * 1024 * 5;

/// Largest number of parts that one multipart upload may have.
pub const MAX_CHUNKS: u64 = 10000;

/// Number of parts needed for a file of `size` bytes.
pub open spec fn chunk_count_for(size: nat) -> nat {
    if size % (CHUNK_SIZE as nat) == 0 {
        size / (CHUNK_SIZE as nat)
    } else {
        size / (CHUNK_SIZE as nat) + 1
    }
}

/// Length of the last part of a file of `size` bytes.
pub open spec fn last_chunk_len_for(size: nat) -> nat {
    if size % (CHUNK_SIZE as nat) == 0 {
        CHUNK_SIZE as nat
    } else {
        size % (CHUNK_SIZE as nat)
    }
}

/// Byte offset at which part `index` (counted from zero) starts.
pub open spec fn chunk_offset_for(index: nat) -> nat {
    index * (CHUNK_SIZE as nat)
}

/// Length of part `index` of a file of `size` bytes.
pub open spec fn chunk_len_for(size: nat, index: nat) -> nat {
    if index + 1 == chunk_count_for(size) {
        last_chunk_len_for(size)
    } else {
        CHUNK_SIZE as nat
    }
}

/// Why a multipart upload did not complete.
#[derive(Debug, PartialEq, Eq)]
pub enum UploadError {
    /// The request that opens the multipart upload failed.
    CreateFailed,
    /// The storage answered without an upload id.
    MissingUploadId,
    /// The size of the local file could not be read.
    MetadataFailed,
    /// The file is empty.
    EmptyFile,
    /// The file needs more parts than a multipart upload allows.
    TooManyChunks { chunk_count: u64 },
    /// The part starting at chunk `chunk_index` could not be read from the file.
    ChunkReadFailed { chunk_index: u64 },
    /// Sending part `part_number` failed.
    PartUploadFailed { part_number: i32 },
    /// The request that completes the multipart upload failed.
    CompleteFailed,
}

/// How a file is cut into the parts of a multipart upload.
#[derive(Clone, Copy, Debug, PartialEq, Eq)]
pub struct ChunkPlan {
    pub file_size: u64,
    pub chunk_count: u64,
    pub last_chunk_size: u64,
}

/// One part to send: where it lies in the file and its part number.
#[derive(Clone, Copy, Debug, PartialEq, Eq)]
pub struct ChunkRange {
    pub index: u64,
    pub offset: u64,
    pub length: u64,
    pub part_number: i32,
}

impl ChunkPlan {
    /// The plan describes a non-empty file within the part limit.
    pub open spec fn well_formed(self) -> bool {
        &&& self.file_size > 0
        &&& self.chunk_count == chunk_count_for(self.file_size as nat)
        &&& self.last_chunk_size == last_chunk_len_for(self.file_size as nat)
        &&& self.chunk_count <= MAX_CHUNKS
    }

    /// Part `index` of this plan.
    pub open spec fn spec_chunk(self, index: nat) -> ChunkRange {
        ChunkRange {
            index: index as u64,
            offset: chunk_offset_for(index) as u64,
            length: chunk_len_for(self.file_size as nat, index) as u64,
            part_number: (index + 1) as i32,
        }
    }

    /// The range and part number of part `index`.
    pub fn chunk(&self, index: u64) -> (c: ChunkRange)
        requires
            self.well_formed(),
            index < self.chunk_count,
        ensures
            c == self.spec_chunk(index as nat),
            c.offset == chunk_offset_for(index as nat),
            c.length == chunk_len_for(self.file_size as nat, index as nat),
            c.part_number == index + 1,
    {
        proof {
            lemma_chunks_tile_file(self.file_size as nat);
        }
        let length = if self.chunk_count - 1 == index {
            self.last_chunk_size
        } else {
            CHUNK_SIZE
        };
        let part_number: i32 = (index as i32) + 1;
        assert(index * CHUNK_SIZE <= MAX_CHUNKS * CHUNK_SIZE) by (nonlinear_arith)
            requires
                index <= MAX_CHUNKS,
        ;
        ChunkRange { index, offset: index * CHUNK_SIZE, length, part_number }
    }
}

/// The plan for a file of `file_size` bytes, or why there is none.
pub open spec fn plan_chunks_spec(file_size: u64) -> Result<ChunkPlan, UploadError> {
    if file_size == 0 {
        Err(UploadError::EmptyFile)
    } else if chunk_count_for(file_size as nat) > MAX_CHUNKS {
        Err(UploadError::TooManyChunks { chunk_count: chunk_count_for(file_size as nat) as u64 })
    } else {
        Ok(
            ChunkPlan {
                file_size,
                chunk_count: chunk_count_for(file_size as nat) as u64,
                last_chunk_size: last_chunk_len_for(file_size as nat) as u64,
            },
        )
    }
}

/// Cuts a file of `file_size` bytes into parts of `CHUNK_SIZE` bytes, the last
/// one holding the rest.  An empty file, or one that needs more than
/// `MAX_CHUNKS` parts, is refused.
pub fn plan_chunks(file_size: u64) -> (r: Result<ChunkPlan, UploadError>)
    ensures
        (r == Err::<ChunkPlan, UploadError>(UploadError::EmptyFile)) <==> file_size == 0,
        (r == Err::<ChunkPlan, UploadError>(
            UploadError::TooManyChunks { chunk_count: chunk_count_for(file_size as nat) as u64 },
        )) <==> (file_size > 0 && chunk_count_for(file_size as nat) > MAX_CHUNKS),
        r is Ok <==> (file_size > 0 && chunk_count_for(file_size as nat) <= MAX_CHUNKS),
        r matches Ok(plan) ==> plan.well_formed() && plan.file_size == file_size,
        r == plan_chunks_spec(file_size),
{
    proof {
        vstd::arithmetic::div_mod::lemma_fundamental_div_mod(file_size as int, CHUNK_SIZE as int);
    }
    assert(file_size / CHUNK_SIZE < u64::MAX) by (nonlinear_arith)
        requires
            CHUNK_SIZE == 5242880,
            file_size <= u64::MAX,
    ;
    let mut chunk_count = file_size / CHUNK_SIZE + 1;
    let mut size_of_last_chunk = file_size % CHUNK_SIZE;
    if size_of_last_chunk == 0 {
        size_of_last_chunk = CHUNK_SIZE;
        chunk_count = chunk_count - 1;
    }
    if file_size == 0 {
        return Err(UploadError::EmptyFile);
    }
    if chunk_count > MAX_CHUNKS {
        return Err(UploadError::TooManyChunks { chunk_count });
    }
    Ok(ChunkPlan { file_size, chunk_count, last_chunk_size: size_of_last_chunk })
}

/// The parts of a non-empty file lie end to end: each is between one byte and
/// `CHUNK_SIZE` long, each starts where the one before it ends, the first
/// starts at zero and the last ends at the end of the file.
pub proof fn lemma_chunks_tile_file(size: nat)
    requires
        size > 0,
    ensures
        chunk_count_for(size) >= 1,
        (chunk_count_for(size) - 1) * (CHUNK_SIZE as nat) + last_chunk_len_for(size) == size,
        chunk_offset_for(0) == 0,
        forall|i: nat|
            i < chunk_count_for(size) ==> 0 < #[trigger] chunk_len_for(size, i) <= CHUNK_SIZE,
        forall|i: nat|
            i + 1 < chunk_count_for(size) ==> #[trigger] chunk_len_for(size, i) == CHUNK_SIZE,
        forall|i: nat|
            i + 1 < chunk_count_for(size) ==> #[trigger] chunk_offset_for(i) + chunk_len_for(size, i)
                == chunk_offset_for(i + 1),
        chunk_offset_for((chunk_count_for(size) - 1) as nat) + chunk_len_for(
            size,
            (chunk_count_for(size) - 1) as nat,
        ) == size,
{
    let c = CHUNK_SIZE as int;
    vstd::arithmetic::div_mod::lemma_fundamental_div_mod(size as int, c);
    let q = size as int / c;
    let r = size as int % c;
    assert(size == c * q + r);
    assert(0 <= r < c);
    assert(q >= 0);
    assert forall|i: nat| i + 1 < chunk_count_for(size) implies #[trigger] chunk_offset_for(i)
        + chunk_len_for(size, i) == chunk_offset_for(i + 1) by {
        assert((i + 1) * c == i * c + c) by (nonlinear_arith);
    }
    let n = chunk_count_for(size);
    if r == 0 {
        if q == 0 {
            assert(c * q == 0) by (nonlinear_arith)
                requires
                    q == 0,
            ;
        }
        assert(q >= 1);
        assert((q - 1) * c + c == c * q) by (nonlinear_arith);
    } else {
        assert(q * c == c * q) by (nonlinear_arith);
    }
    assert(((n - 1) as nat) * c == (n - 1) * c);
}


/// The object-store bucket that uploads go to.
pub fn bucket() -> (b: &'static str)
    ensures
        b@ == "test"@,
{
    "test"
}

/// The text of an upload error.
pub open spec fn upload_error_message(e: UploadError) -> Seq<char> {
    match e {
        UploadError::CreateFailed => "Failed to create multipart upload"@,
        UploadError::MissingUploadId => "Missing upload id from S3 response"@,
        UploadError::MetadataFailed => "Failed to read file metadata"@,
        UploadError::EmptyFile => "File size is zero - cannot upload empty file"@,
        UploadError::TooManyChunks { chunk_count } => "File requires "@ + decimal(chunk_count as nat)
            + " chunks, exceeding maximum of "@ + decimal(MAX_CHUNKS as nat)
            + " chunks. Try increasing chunk size."@,
        UploadError::ChunkReadFailed { chunk_index } => "Failed to read chunk "@ + decimal(
            chunk_index as nat,
        ) + " from file"@,
        UploadError::PartUploadFailed { part_number } => if part_number >= 0 {
            "Failed to upload part "@ + decimal(part_number as nat) + " to S3"@
        } else {
            "Failed to upload part -"@ + decimal((-part_number) as nat) + " to S3"@
        },
        UploadError::CompleteFailed => "Failed to complete multipart upload"@,
    }
}

impl UploadError {
    /// The message that reports this error.
    pub fn message(&self) -> (m: String)
        ensures
            m@ == upload_error_message(*self),
    {
        match self {
            UploadError::CreateFailed => String::from_str("Failed to create multipart upload"),
            UploadError::MissingUploadId => String::from_str("Missing upload id from S3 response"),
            UploadError::MetadataFailed => String::from_str("Failed to read file metadata"),
            UploadError::EmptyFile => String::from_str("File size is zero - cannot upload empty file"),
            UploadError::TooManyChunks { chunk_count } => {
                let mut m = String::from_str("File requires ");
                push_decimal(&mut m, *chunk_count);
                m.append(" chunks, exceeding maximum of ");
                push_decimal(&mut m, MAX_CHUNKS);
                m.append(" chunks. Try increasing chunk size.");
                m
            },
            UploadError::ChunkReadFailed { chunk_index } => {
                let mut m = String::from_str("Failed to read chunk ");
                push_decimal(&mut m, *chunk_index);
                m.append(" from file");
                m
            },
            UploadError::PartUploadFailed { part_number } => {
                let n = *part_number;
                let mut m = if n >= 0 {
                    String::from_str("Failed to upload part ")
                } else {
                    String::from_str("Failed to upload part -")
                };
                let magnitude: u64 = if n >= 0 {
                    n as u64
                } else {
                    (-(n as i64)) as u64
                };
                push_decimal(&mut m, magnitude);
                m.append(" to S3");
                m
            },
            UploadError::CompleteFailed => String::from_str("Failed to complete multipart upload"),
        }
    }
}

/// A part that the store accepted: its entity tag and its part number.
#[derive(Debug)]
pub struct CompletedPart {
    pub e_tag: String,
    pub part_number: i32,
}

/// Where a multipart upload stands.
#[derive(Clone, Copy, Debug, PartialEq, Eq, Structural)]
pub enum UploadPhase {
    AwaitingCreate,
    AwaitingSize,
    SendingParts,
    AwaitingComplete,
    Finished,
}

/// What the outside world reports back to a multipart upload.
pub enum UploadEvent {
    /// The upload was opened; the store may or may not have returned an id.
    Created { upload_id: Option<String> },
    CreateFailed,
    SizeRead { file_size: u64 },
    SizeFailed,
    /// The current chunk could not be read from the file.
    ChunkReadFailed,
    /// The current part was stored; the store may have returned an entity tag.
    PartUploaded { e_tag: Option<String> },
    PartFailed,
    Completed,
    CompleteFailed,
}

/// What a multipart upload asks the outside world to do next.
pub enum UploadAction {
    /// Open a multipart upload of `key` in `bucket`.
    CreateUpload { bucket: String, key: String },
    /// Read the size of the local file.
    ReadFileSize,
    /// Read this chunk of the file and send it as a part.
    SendPart { chunk: ChunkRange },
    /// Complete the upload with these parts.
    Complete { parts: Vec<CompletedPart> },
    /// The upload is over, with this outcome.
    Finish(Result<(), UploadError>),
}

/// The decisions of a multipart upload of one local file under one key.
pub struct MultipartUpload {
    pub phase: UploadPhase,
    pub key: String,
    pub upload_id: String,
    pub plan: ChunkPlan,
    pub next_chunk: u64,
    pub parts: Vec<CompletedPart>,
}

/// The parts hold part numbers 1, 2, ... in order.
pub open spec fn parts_numbered(parts: Seq<CompletedPart>) -> bool {
    forall|i: int| 0 <= i < parts.len() ==> #[trigger] parts[i].part_number == i + 1
}

/// The text that an optional entity tag stands for; a missing tag is empty.
pub open spec fn e_tag_text(e_tag: Option<String>) -> Seq<char> {
    match e_tag {
        Some(t) => t@,
        None => Seq::empty(),
    }
}

impl MultipartUpload {
    pub open spec fn well_formed(&self) -> bool {
        match self.phase {
            UploadPhase::SendingParts => {
                &&& self.plan.well_formed()
                &&& self.next_chunk < self.plan.chunk_count
                &&& self.parts@.len() == self.next_chunk
                &&& parts_numbered(self.parts@)
            },
            _ => true,
        }
    }

    /// Whether `event` answers the action that this phase waits for.
    pub open spec fn expects(&self, event: UploadEvent) -> bool {
        match self.phase {
            UploadPhase::AwaitingCreate => event is Created || event is CreateFailed,
            UploadPhase::AwaitingSize => event is SizeRead || event is SizeFailed,
            UploadPhase::SendingParts => event is ChunkReadFailed || event is PartUploaded
                || event is PartFailed,
            UploadPhase::AwaitingComplete => event is Completed || event is CompleteFailed,
            UploadPhase::Finished => false,
        }
    }

    /// Starts the upload of an object under `key`: the first action opens the
    /// multipart upload in the bucket.
    pub fn start(key: String) -> (res: (MultipartUpload, UploadAction))
        ensures
            res.0.phase == UploadPhase::AwaitingCreate,
            res.0.key@ == key@,
            res.0.well_formed(),
            res.1 matches UploadAction::CreateUpload { bucket, key: k } && bucket@ == "test"@
                && k@ == key@,
    {
        let k = key.clone();
        let job = MultipartUpload {
            phase: UploadPhase::AwaitingCreate,
            key,
            upload_id: String::new(),
            plan: ChunkPlan { file_size: 0, chunk_count: 0, last_chunk_size: 0 },
            next_chunk: 0,
            parts: Vec::new(),
        };
        (job, UploadAction::CreateUpload { bucket: String::from_str(bucket()), key: k })
    }

    fn finish(self, e: UploadError) -> (res: (MultipartUpload, UploadAction))
        ensures
            res.0.phase == UploadPhase::Finished,
            res.0.key@ == self.key@,
            res.1 == UploadAction::Finish(Err(e)),
    {
        (MultipartUpload { phase: UploadPhase::Finished, ..self }, UploadAction::Finish(Err(e)))
    }

    /// Takes the answer to the last action and decides the next one.
    pub fn step(self, event: UploadEvent) -> (res: (MultipartUpload, UploadAction))
        requires
            self.well_formed(),
            self.expects(event),
        ensures
            res.0.well_formed(),
            res.0.key@ == self.key@,
            match event {
                UploadEvent::Created { upload_id: Some(id) } => {
                    &&& res.0.phase == UploadPhase::AwaitingSize
                    &&& res.0.upload_id@ == id@
                    &&& res.1 is ReadFileSize
                },
                UploadEvent::Created { upload_id: None } => res.0.phase == UploadPhase::Finished
                    && res.1 == UploadAction::Finish(Err(UploadError::MissingUploadId)),
                UploadEvent::CreateFailed => res.0.phase == UploadPhase::Finished && res.1
                    == UploadAction::Finish(Err(UploadError::CreateFailed)),
                UploadEvent::SizeRead { file_size } => match plan_chunks_spec(file_size) {
                    Err(e) => res.0.phase == UploadPhase::Finished && res.1 == UploadAction::Finish(
                        Err(e),
                    ),
                    Ok(plan) => {
                        &&& res.0.phase == UploadPhase::SendingParts
                        &&& res.0.upload_id@ == self.upload_id@
                        &&& res.0.plan == plan
                        &&& res.0.next_chunk == 0
                        &&& res.1 == UploadAction::SendPart { chunk: plan.spec_chunk(0) }
                    },
                },
                UploadEvent::SizeFailed => res.0.phase == UploadPhase::Finished && res.1
                    == UploadAction::Finish(Err(UploadError::MetadataFailed)),
                UploadEvent::ChunkReadFailed => res.0.phase == UploadPhase::Finished && res.1
                    == UploadAction::Finish(
                    Err(UploadError::ChunkReadFailed { chunk_index: self.next_chunk }),
                ),
                UploadEvent::PartFailed => res.0.phase == UploadPhase::Finished && res.1
                    == UploadAction::Finish(
                    Err(UploadError::PartUploadFailed { part_number: (self.next_chunk + 1) as i32 }),
                ),
                UploadEvent::PartUploaded { e_tag } => {
                    let sent = self.parts@.len();
                    if self.next_chunk + 1 == self.plan.chunk_count {
                        &&& res.0.phase == UploadPhase::AwaitingComplete
                        &&& res.0.upload_id@ == self.upload_id@
                        &&& res.1 matches UploadAction::Complete { parts } && {
                            &&& parts@.len() == self.plan.chunk_count
                            &&& parts@.take(sent as int) == self.parts@
                            &&& parts@[sent as int].e_tag@ == e_tag_text(e_tag)
                            &&& parts_numbered(parts@)
                        }
                    } else {
                        &&& res.0.phase == UploadPhase::SendingParts
                        &&& res.0.upload_id@ == self.upload_id@
                        &&& res.0.plan == self.plan
                        &&& res.0.next_chunk == self.next_chunk + 1
                        &&& res.0.parts@.take(sent as int) == self.parts@
                        &&& res.0.parts@[sent as int].e_tag@ == e_tag_text(e_tag)
                        &&& res.1 == UploadAction::SendPart {
                            chunk: self.plan.spec_chunk((self.next_chunk + 1) as nat),
                        }
                    }
                },
                UploadEvent::Completed => res.0.phase == UploadPhase::Finished && res.1
                    == UploadAction::Finish(Ok(())),
                UploadEvent::CompleteFailed => res.0.phase == UploadPhase::Finished && res.1
                    == UploadAction::Finish(Err(UploadError::CompleteFailed)),
            },
    {
        match event {
            UploadEvent::Created { upload_id } => match upload_id {
                Some(id) => {
                    (
                        MultipartUpload { phase: UploadPhase::AwaitingSize, upload_id: id, ..self },
                        UploadAction::ReadFileSize,
                    )
                },
                None => self.finish(UploadError::MissingUploadId),
            },
            UploadEvent::CreateFailed => self.finish(UploadError::CreateFailed),
            UploadEvent::SizeRead { file_size } => match plan_chunks(file_size) {
                Err(e) => self.finish(e),
                Ok(plan) => {
                    proof {
                        lemma_chunks_tile_file(file_size as nat);
                    }
                    let first = plan.chunk(0);
                    (
                        MultipartUpload {
                            phase: UploadPhase::SendingParts,
                            plan,
                            next_chunk: 0,
                            parts: Vec::new(),
                            ..self
                        },
                        UploadAction::SendPart { chunk: first },
                    )
                },
            },
            UploadEvent::SizeFailed => self.finish(UploadError::MetadataFailed),
            UploadEvent::ChunkReadFailed => {
                let chunk_index = self.next_chunk;
                self.finish(UploadError::ChunkReadFailed { chunk_index })
            },
            UploadEvent::PartFailed => {
                let part_number = self.plan.chunk(self.next_chunk).part_number;
                self.finish(UploadError::PartUploadFailed { part_number })
            },
            UploadEvent::PartUploaded { e_tag } => {
                let part_number = self.plan.chunk(self.next_chunk).part_number;
                let tag = match e_tag {
                    Some(t) => t,
                    None => String::new(),
                };
                let mut parts = self.parts;
                let ghost before = parts@;
                parts.push(CompletedPart { e_tag: tag, part_number });
                assert(parts@.take(before.len() as int) =~= before);
                assert(parts_numbered(parts@)) by {
                    assert forall|i: int| 0 <= i < parts@.len() implies #[trigger] parts@[i].part_number
                        == i + 1 by {
                        if i < before.len() {
                            assert(parts@[i] == before[i]);
                        }
                    }
                }
                let next = self.next_chunk + 1;
                if next == self.plan.chunk_count {
                    (
                        MultipartUpload {
                            phase: UploadPhase::AwaitingComplete,
                            key: self.key,
                            upload_id: self.upload_id,
                            plan: self.plan,
                            next_chunk: next,
                            parts: Vec::new(),
                        },
                        UploadAction::Complete { parts },
                    )
                } else {
                    let chunk = self.plan.chunk(next);
                    (
                        MultipartUpload {
                            phase: UploadPhase::SendingParts,
                            key: self.key,
                            upload_id: self.upload_id,
                            plan: self.plan,
                            next_chunk: next,
                            parts,
                        },
                        UploadAction::SendPart { chunk },
                    )
                }
            },
            UploadEvent::Completed => (
                MultipartUpload { phase: UploadPhase::Finished, ..self },
                UploadAction::Finish(Ok(())),
            ),
            UploadEvent::CompleteFailed => self.finish(UploadError::CompleteFailed),
        }
    }
}

} // verus!
