use vstd::prelude::*;

verus! {

/// A piece of transcribed text with its start and end timestamps, in the
/// units that the recogniser reports (hundredths of a second).
#[derive(Debug)]
pub struct Segment {
    pub text: String,
    pub start_timestamp: i64,
    pub end_timestamp: i64,
}

/// The mathematical value of a segment.
pub struct SegmentView {
    pub text: Seq<char>,
    pub start_timestamp: i64,
    pub end_timestamp: i64,
}

impl View for Segment {
    type V = SegmentView;

    open spec fn view(&self) -> SegmentView {
        SegmentView {
            text: self.text@,
            start_timestamp: self.start_timestamp,
            end_timestamp: self.end_timestamp,
        }
    }
}

impl Segment {
    pub fn new(text: String, start_timestamp: i64, end_timestamp: i64) -> (s: Self)
        ensures
            s.text@ == text@,
            s.start_timestamp == start_timestamp,
            s.end_timestamp == end_timestamp,
    {
        Segment { text, start_timestamp, end_timestamp }
    }
}

/// The key of a row of the task table.
#[derive(Debug, Clone, Copy, PartialEq, Eq)]
pub struct Task {
    pub id: i32,
}

/// A row of the segment table as it is read back: it carries the id that the
/// database gave it and the task it belongs to.
#[derive(Debug)]
pub struct SegmentRow {
    pub id: i32,
    pub task_id: i32,
    pub text: String,
    pub start_timestamp: i64,
    pub end_timestamp: i64,
}

/// A row of the segment table before it is inserted.
#[derive(Debug)]
pub struct NewSegment {
    pub task_id: i32,
    pub text: String,
    pub start_timestamp: i64,
    pub end_timestamp: i64,
}

/// The mathematical value of a row to insert.
pub struct NewSegmentView {
    pub task_id: i32,
    pub text: Seq<char>,
    pub start_timestamp: i64,
    pub end_timestamp: i64,
}

/// The mathematical value of a row read back.
pub struct SegmentRowView {
    pub id: i32,
    pub task_id: i32,
    pub text: Seq<char>,
    pub start_timestamp: i64,
    pub end_timestamp: i64,
}

impl View for NewSegment {
    type V = NewSegmentView;

    open spec fn view(&self) -> NewSegmentView {
        NewSegmentView {
            task_id: self.task_id,
            text: self.text@,
            start_timestamp: self.start_timestamp,
            end_timestamp: self.end_timestamp,
        }
    }
}

impl View for SegmentRow {
    type V = SegmentRowView;

    open spec fn view(&self) -> SegmentRowView {
        SegmentRowView {
            id: self.id,
            task_id: self.task_id,
            text: self.text@,
            start_timestamp: self.start_timestamp,
            end_timestamp: self.end_timestamp,
        }
    }
}

/// The row that stores `segment` for task `task_id`.
pub open spec fn new_segment_row(task_id: i32, segment: SegmentView) -> NewSegmentView {
    NewSegmentView {
        task_id,
        text: segment.text,
        start_timestamp: segment.start_timestamp,
        end_timestamp: segment.end_timestamp,
    }
}

/// The row that the database holds after inserting `row` under the id `id`.
pub open spec fn inserted_row(id: i32, row: NewSegmentView) -> SegmentRowView {
    SegmentRowView {
        id,
        task_id: row.task_id,
        text: row.text,
        start_timestamp: row.start_timestamp,
        end_timestamp: row.end_timestamp,
    }
}

/// The segment that a row read back stands for.
pub open spec fn segment_of_row(row: SegmentRowView) -> SegmentView {
    SegmentView {
        text: row.text,
        start_timestamp: row.start_timestamp,
        end_timestamp: row.end_timestamp,
    }
}

impl NewSegment {
    pub fn new(task_id: i32, segment: Segment) -> (row: Self)
        ensures
            row@ == new_segment_row(task_id, segment@),
            row.task_id == task_id,
            row.text@ == segment.text@,
            row.start_timestamp == segment.start_timestamp,
            row.end_timestamp == segment.end_timestamp,
    {
        NewSegment {
            task_id,
            text: segment.text,
            start_timestamp: segment.start_timestamp,
            end_timestamp: segment.end_timestamp,
        }
    }
}

/// The rows that store `segments` for task `task_id`, in the same order.
pub fn segment_rows(task_id: i32, segments: Vec<Segment>) -> (rows: Vec<NewSegment>)
    ensures
        rows@.len() == segments@.len(),
        forall|i: int|
            0 <= i < rows@.len() ==> #[trigger] rows@[i]@ == new_segment_row(task_id, segments@[i]@),
        forall|i: int|
            0 <= i < rows@.len() ==> {
                &&& (#[trigger] rows@[i]).task_id == task_id
                &&& rows@[i].text@ == segments@[i].text@
                &&& rows@[i].start_timestamp == segments@[i].start_timestamp
                &&& rows@[i].end_timestamp == segments@[i].end_timestamp
            },
{
    let mut segments = segments;
    let ghost original = segments@;
    let mut reversed: Vec<NewSegment> = Vec::new();
    while segments.len() > 0
        invariant
            segments@ == original.take(segments@.len() as int),
            segments@.len() <= original.len(),
            reversed@.len() + segments@.len() == original.len(),
            forall|i: int|
                0 <= i < reversed@.len() ==> #[trigger] reversed@[i]@ == new_segment_row(
                    task_id,
                    original[original.len() - 1 - i]@,
                ),
        decreases segments@.len(),
    {
        let segment = segments.pop().unwrap();
        assert(segments@ =~= original.take(segments@.len() as int));
        reversed.push(NewSegment::new(task_id, segment));
    }
    let mut rows: Vec<NewSegment> = Vec::new();
    let n = reversed.len();
    while reversed.len() > 0
        invariant
            reversed@.len() + rows@.len() == n,
            n == original.len(),
            forall|i: int|
                0 <= i < reversed@.len() ==> #[trigger] reversed@[i]@ == new_segment_row(
                    task_id,
                    original[original.len() - 1 - i]@,
                ),
            forall|i: int|
                0 <= i < rows@.len() ==> #[trigger] rows@[i]@ == new_segment_row(
                    task_id,
                    original[i]@,
                ),
        decreases reversed@.len(),
    {
        let row = reversed.pop().unwrap();
        rows.push(row);
    }
    assert forall|i: int| 0 <= i < rows@.len() implies {
        &&& (#[trigger] rows@[i]).task_id == task_id
        &&& rows@[i].text@ == original[i].text@
        &&& rows@[i].start_timestamp == original[i].start_timestamp
        &&& rows@[i].end_timestamp == original[i].end_timestamp
    } by {
        assert(rows@[i]@ == new_segment_row(task_id, original[i]@));
    }
    rows
}

/// The segments that rows read back stand for, in the same order.
pub fn segments_from_rows(rows: Vec<SegmentRow>) -> (segments: Vec<Segment>)
    ensures
        segments@.len() == rows@.len(),
        forall|i: int|
            0 <= i < segments@.len() ==> #[trigger] segments@[i]@ == segment_of_row(rows@[i]@),
        forall|i: int|
            0 <= i < segments@.len() ==> {
                &&& (#[trigger] segments@[i]).text@ == rows@[i].text@
                &&& segments@[i].start_timestamp == rows@[i].start_timestamp
                &&& segments@[i].end_timestamp == rows@[i].end_timestamp
            },
{
    let mut rows = rows;
    let ghost original = rows@;
    let mut reversed: Vec<Segment> = Vec::new();
    while rows.len() > 0
        invariant
            rows@ == original.take(rows@.len() as int),
            rows@.len() <= original.len(),
            reversed@.len() + rows@.len() == original.len(),
            forall|i: int|
                0 <= i < reversed@.len() ==> #[trigger] reversed@[i]@ == segment_of_row(
                    original[original.len() - 1 - i]@,
                ),
        decreases rows@.len(),
    {
        let row = rows.pop().unwrap();
        assert(rows@ =~= original.take(rows@.len() as int));
        reversed.push(Segment::new(row.text, row.start_timestamp, row.end_timestamp));
    }
    let mut segments: Vec<Segment> = Vec::new();
    let n = reversed.len();
    while reversed.len() > 0
        invariant
            reversed@.len() + segments@.len() == n,
            n == original.len(),
            forall|i: int|
                0 <= i < reversed@.len() ==> #[trigger] reversed@[i]@ == segment_of_row(
                    original[original.len() - 1 - i]@,
                ),
            forall|i: int|
                0 <= i < segments@.len() ==> #[trigger] segments@[i]@ == segment_of_row(
                    original[i]@,
                ),
        decreases reversed@.len(),
    {
        let segment = reversed.pop().unwrap();
        segments.push(segment);
    }
    assert forall|i: int| 0 <= i < segments@.len() implies {
        &&& (#[trigger] segments@[i]).text@ == original[i].text@
        &&& segments@[i].start_timestamp == original[i].start_timestamp
        &&& segments@[i].end_timestamp == original[i].end_timestamp
    } by {
        assert(segments@[i]@ == segment_of_row(original[i]@));
    }
    segments
}

/// The row stored for a segment holds, column by column, the task id and the
/// segment's own text, start and end.
pub proof fn lemma_new_segment_row_columns(task_id: i32, segment: SegmentView)
    ensures
        new_segment_row(task_id, segment).task_id == task_id,
        new_segment_row(task_id, segment).text == segment.text,
        new_segment_row(task_id, segment).start_timestamp == segment.start_timestamp,
        new_segment_row(task_id, segment).end_timestamp == segment.end_timestamp,
{
}

/// The segment read from a row holds, field by field, the row's text, start
/// and end.
pub proof fn lemma_segment_of_row_fields(row: SegmentRowView)
    ensures
        segment_of_row(row).text == row.text,
        segment_of_row(row).start_timestamp == row.start_timestamp,
        segment_of_row(row).end_timestamp == row.end_timestamp,
{
}

/// Storing a segment and reading its row back gives the same segment,
/// whatever id the database assigned to the row.
pub proof fn lemma_segment_store_load_roundtrip(task_id: i32, id: i32, segment: SegmentView)
    ensures
        segment_of_row(inserted_row(id, new_segment_row(task_id, segment))) == segment,
        inserted_row(id, new_segment_row(task_id, segment)).task_id == task_id,
{
}

} // verus!
