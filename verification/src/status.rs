use vstd::prelude::*;
use vstd::string::*;

use crate::producer::{opt_text, ErrorReply, INTERNAL_SERVER_ERROR, BAD_REQUEST};
use crate::segment::Segment;
use crate::stage::{stage_from_name, TaskStage};
use crate::text::{decimal, digit_char, i32_to_decimal, signed_decimal};

verus! {

/// HTTP status 404.
pub const NOT_FOUND: u16 = 404;

/// Whether `c` is an ASCII decimal digit.
pub open spec fn is_digit(c: char) -> bool {
    '0' <= c && c <= '9'
}

/// The value of a string of decimal digits.
pub open spec fn digits_value(s: Seq<char>) -> int
    decreases s.len(),
{
    if s.len() == 0 {
        0
    } else {
        digits_value(s.drop_last()) * 10 + (s.last() as int - '0' as int)
    }
}

/// The `i32` that `str::parse::<i32>` reads from `s`: an optional `+` or `-`
/// followed by one or more decimal digits, whose value fits an `i32`.
pub open spec fn i32_text_value(s: Seq<char>) -> Option<i32> {
    let signed = s.len() > 0 && (s[0] == '-' || s[0] == '+');
    let negative = s.len() > 0 && s[0] == '-';
    let body = if signed {
        s.drop_first()
    } else {
        s
    };
    let v = if negative {
        -digits_value(body)
    } else {
        digits_value(body)
    };
    if body.len() == 0 || !(forall|i: int| 0 <= i < body.len() ==> is_digit(#[trigger] body[i])) {
        None
    } else if i32::MIN <= v <= i32::MAX {
        Some(v as i32)
    } else {
        None
    }
}

/// The character for `d` is the decimal digit whose value is `d`.
pub proof fn lemma_digit_char_value(d: nat)
    requires
        d < 10,
    ensures
        is_digit(digit_char(d)),
        digit_char(d) as int - '0' as int == d,
{
    if d == 0 {
    } else if d == 1 {
    } else if d == 2 {
    } else if d == 3 {
    } else if d == 4 {
    } else if d == 5 {
    } else if d == 6 {
    } else if d == 7 {
    } else if d == 8 {
    } else {
    }
}

/// The decimal notation of `n` is a non-empty string of digits whose value
/// is `n`.
pub proof fn lemma_decimal_reads_back(n: nat)
    ensures
        decimal(n).len() > 0,
        forall|i: int| 0 <= i < decimal(n).len() ==> is_digit(#[trigger] decimal(n)[i]),
        digits_value(decimal(n)) == n,
    decreases n,
{
    if n < 10 {
        lemma_digit_char_value(n);
        let s = decimal(n);
        assert(s.drop_last() =~= Seq::<char>::empty());
        assert(digits_value(Seq::<char>::empty()) == 0);
        assert(digits_value(s) == digits_value(s.drop_last()) * 10 + (s.last() as int - '0' as int));
    } else {
        lemma_decimal_reads_back(n / 10);
        lemma_digit_char_value(n % 10);
        let t = decimal(n / 10);
        let s = decimal(n);
        assert(s == t.push(digit_char(n % 10)));
        assert(s.drop_last() =~= t);
        assert forall|i: int| 0 <= i < s.len() implies is_digit(#[trigger] s[i]) by {
            if i < t.len() {
                assert(s[i] == t[i]);
            }
        }
        vstd::arithmetic::div_mod::lemma_fundamental_div_mod(n as int, 10);
        let q = n as int / 10;
        assert(q * 10 == 10 * q) by (nonlinear_arith);
        assert(digits_value(s) == digits_value(t) * 10 + (s.last() as int - '0' as int));
    }
}

/// The decimal text that `i32_to_decimal` writes for `n` reads back as `n`
/// with `str::parse::<i32>`; so different ids have different texts.
pub proof fn lemma_signed_decimal_parses_back(n: i32)
    ensures
        i32_text_value(signed_decimal(n as int)) == Some(n),
{
    if n < 0 {
        let m: nat = (-(n as int)) as nat;
        lemma_decimal_reads_back(m);
        let s = signed_decimal(n as int);
        assert(s == seq!['-'] + decimal(m));
        assert(s[0] == '-');
        assert(s.drop_first() =~= decimal(m));
    } else {
        let m: nat = n as nat;
        lemma_decimal_reads_back(m);
        let s = signed_decimal(n as int);
        assert(s == decimal(m));
        assert(is_digit(s[0]));
    }
}

/// Different `i32` values have different decimal texts.
pub proof fn lemma_signed_decimal_injective(a: i32, b: i32)
    requires
        signed_decimal(a as int) == signed_decimal(b as int),
    ensures
        a == b,
{
    lemma_signed_decimal_parses_back(a);
    lemma_signed_decimal_parses_back(b);
}

/// Calls `str::parse::<i32>`.  Its documentation: an optional sign followed by
/// digits only, in range; anything else is an error.  That is `i32_text_value`.
#[verifier::external_body]
fn parse_i32(s: &str) -> (r: Option<i32>)
    ensures
        r == i32_text_value(s@),
{
    match s.parse::<i32>() {
        Ok(n) => Some(n),
        Err(_) => None,
    }
}

/// What the status endpoint answers for a task: its id, the stored text of its
/// stage, the stored context, and its segments once it has succeeded.
#[derive(Debug)]
pub struct TaskStatus {
    pub task_id: i32,
    pub stage: String,
    pub context: String,
    pub segments: Vec<Segment>,
}

/// Where a status query stands.
#[derive(Clone, Copy, Debug, PartialEq, Eq, Structural)]
pub enum StatusPhase {
    LoadingTask,
    LoadingSegments,
    Replied,
}

/// What the outside world reports back to a status query.
pub enum StatusEvent {
    /// The task row holds this stage text and context.
    TaskFound { stage: String, context: String },
    /// There is no task with this id.
    TaskMissing,
    TaskLoadFailed { detail: String },
    /// These are the stored segments of the task.
    SegmentsLoaded { segments: Vec<Segment> },
    SegmentsLoadFailed { detail: String },
}

/// What a status query asks the outside world to do next.
pub enum StatusAction {
    /// Read the stage and context of task `task_id`.
    LoadTask { task_id: i32 },
    /// Read the stored segments of task `task_id`.
    LoadSegments { task_id: i32 },
    /// Answer the query.
    Reply(Result<TaskStatus, ErrorReply>),
}

/// The decisions of answering one status query.
pub struct StatusQuery {
    pub phase: StatusPhase,
    pub task_id: i32,
    pub stage: String,
    pub context: String,
}

/// Whether `event` answers the action that `phase` waits for.
pub open spec fn status_expects(phase: StatusPhase, event: StatusEvent) -> bool {
    match phase {
        StatusPhase::LoadingTask => event is TaskFound || event is TaskMissing
            || event is TaskLoadFailed,
        StatusPhase::LoadingSegments => event is SegmentsLoaded || event is SegmentsLoadFailed,
        StatusPhase::Replied => false,
    }
}

/// Whether `action` answers with `status`, `message` and `details`.
pub open spec fn status_error(action: StatusAction, status: u16, message: Seq<char>, details: Seq<char>) -> bool {
    action matches StatusAction::Reply(Err(e)) && e.status == status && e.message@ == message
        && opt_text(e.details) == Some(details)
}

impl StatusQuery {
    /// Starts answering a query for the task named by `id_text`: text that is
    /// not an `i32` is answered with 400; otherwise the task is read.
    pub fn start(id_text: &str) -> (res: (StatusQuery, StatusAction))
        ensures
            i32_text_value(id_text@) matches Some(id) ==> {
                &&& res.0.phase == StatusPhase::LoadingTask
                &&& res.0.task_id == id
                &&& res.1 == (StatusAction::LoadTask { task_id: id })
            },
            i32_text_value(id_text@) is None ==> {
                &&& res.0.phase == StatusPhase::Replied
                &&& status_error(res.1, BAD_REQUEST, "Invalid task id"@, id_text@)
            },
    {
        match parse_i32(id_text) {
            Some(task_id) => (
                StatusQuery {
                    phase: StatusPhase::LoadingTask,
                    task_id,
                    stage: String::new(),
                    context: String::new(),
                },
                StatusAction::LoadTask { task_id },
            ),
            None => (
                StatusQuery {
                    phase: StatusPhase::Replied,
                    task_id: 0,
                    stage: String::new(),
                    context: String::new(),
                },
                StatusAction::Reply(
                    Err(
                        ErrorReply::with_details(
                            BAD_REQUEST,
                            String::from_str("Invalid task id"),
                            String::from_str(id_text),
                        ),
                    ),
                ),
            ),
        }
    }

    /// Takes the answer to the last action and decides the next one.  The
    /// segments are read, and answered, only for a task whose stage is
    /// `Success`.
    pub fn step(self, event: StatusEvent) -> (res: (StatusQuery, StatusAction))
        requires
            status_expects(self.phase, event),
        ensures
            res.0.task_id == self.task_id,
            match event {
                StatusEvent::TaskFound { stage, context } => if stage_from_name(stage@)
                    == TaskStage::Success {
                    &&& res.0.phase == StatusPhase::LoadingSegments
                    &&& res.0.stage@ == stage@
                    &&& res.0.context@ == context@
                    &&& res.1 == (StatusAction::LoadSegments { task_id: self.task_id })
                } else {
                    &&& res.0.phase == StatusPhase::Replied
                    &&& res.1 matches StatusAction::Reply(Ok(r)) && r.task_id == self.task_id
                        && r.stage@ == stage@ && r.context@ == context@ && r.segments@.len() == 0
                },
                StatusEvent::TaskMissing => res.0.phase == StatusPhase::Replied && status_error(
                    res.1,
                    NOT_FOUND,
                    "Task not found"@,
                    signed_decimal(self.task_id as int),
                ),
                StatusEvent::TaskLoadFailed { detail } => res.0.phase == StatusPhase::Replied
                    && status_error(res.1, INTERNAL_SERVER_ERROR, "Internal server error"@, detail@),
                StatusEvent::SegmentsLoaded { segments } => {
                    &&& res.0.phase == StatusPhase::Replied
                    &&& res.1 matches StatusAction::Reply(Ok(r)) && r.task_id == self.task_id
                        && r.stage@ == self.stage@ && r.context@ == self.context@ && r.segments
                        == segments
                },
                StatusEvent::SegmentsLoadFailed { detail } => res.0.phase == StatusPhase::Replied
                    && status_error(res.1, INTERNAL_SERVER_ERROR, "Internal server error"@, detail@),
            },
    {
        let task_id = self.task_id;
        match event {
            StatusEvent::TaskFound { stage, context } => {
                if TaskStage::parse(stage.as_str()) == TaskStage::Success {
                    (
                        StatusQuery { phase: StatusPhase::LoadingSegments, task_id, stage, context },
                        StatusAction::LoadSegments { task_id },
                    )
                } else {
                    let status = TaskStatus { task_id, stage, context, segments: Vec::new() };
                    (
                        StatusQuery { phase: StatusPhase::Replied, ..self },
                        StatusAction::Reply(Ok(status)),
                    )
                }
            },
            StatusEvent::TaskMissing => {
                let reply = ErrorReply::with_details(
                    NOT_FOUND,
                    String::from_str("Task not found"),
                    i32_to_decimal(task_id),
                );
                (StatusQuery { phase: StatusPhase::Replied, ..self }, StatusAction::Reply(Err(reply)))
            },
            StatusEvent::TaskLoadFailed { detail } => {
                let reply = ErrorReply::internal_error(detail);
                (StatusQuery { phase: StatusPhase::Replied, ..self }, StatusAction::Reply(Err(reply)))
            },
            StatusEvent::SegmentsLoaded { segments } => {
                let status = TaskStatus {
                    task_id,
                    stage: self.stage,
                    context: self.context,
                    segments,
                };
                (
                    StatusQuery {
                        phase: StatusPhase::Replied,
                        task_id,
                        stage: String::new(),
                        context: String::new(),
                    },
                    StatusAction::Reply(Ok(status)),
                )
            },
            StatusEvent::SegmentsLoadFailed { detail } => {
                let reply = ErrorReply::internal_error(detail);
                (StatusQuery { phase: StatusPhase::Replied, ..self }, StatusAction::Reply(Err(reply)))
            },
        }
    }
}

} // verus!
