use vstd::prelude::*;
use vstd::string::*;

use crate::text::same_text;

verus! {

/// The stage a transcription task has reached.  It is stored as text in the
/// `stage` column of the task table.
#[derive(Clone, Copy, Debug, PartialEq, Eq, Structural)]
pub enum TaskStage {
    Unknown,
    UploadingFile,
    TransferingS3,
    FindingWorker,
    Processing,
    Failed,
    Success,
}

/// The text under which a stage is stored and displayed.
pub open spec fn stage_name(stage: TaskStage) -> Seq<char> {
    match stage {
        TaskStage::Unknown => "Unknown"@,
        TaskStage::UploadingFile => "UploadingFile"@,
        TaskStage::TransferingS3 => "TransferingS3"@,
        TaskStage::FindingWorker => "FindingWorker"@,
        TaskStage::Processing => "Processing"@,
        TaskStage::Failed => "Failed"@,
        TaskStage::Success => "Success"@,
    }
}

/// Reads a stage from its text; any text that names no stage is `Unknown`.
pub open spec fn stage_from_name(s: Seq<char>) -> TaskStage {
    if s == "UploadingFile"@ {
        TaskStage::UploadingFile
    } else if s == "TransferingS3"@ {
        TaskStage::TransferingS3
    } else if s == "FindingWorker"@ {
        TaskStage::FindingWorker
    } else if s == "Processing"@ {
        TaskStage::Processing
    } else if s == "Failed"@ {
        TaskStage::Failed
    } else if s == "Success"@ {
        TaskStage::Success
    } else {
        TaskStage::Unknown
    }
}

impl Default for TaskStage {
    fn default() -> (stage: Self)
        ensures
            stage == TaskStage::Unknown,
    {
        TaskStage::Unknown
    }
}

impl TaskStage {
    /// The stage's text as a string slice.
    pub fn name(&self) -> (s: &'static str)
        ensures
            s@ == stage_name(*self),
    {
        match self {
            TaskStage::Unknown => "Unknown",
            TaskStage::UploadingFile => "UploadingFile",
            TaskStage::TransferingS3 => "TransferingS3",
            TaskStage::FindingWorker => "FindingWorker",
            TaskStage::Processing => "Processing",
            TaskStage::Failed => "Failed",
            TaskStage::Success => "Success",
        }
    }

    /// The stage's text as an owned string.
    pub fn to_string(&self) -> (s: String)
        ensures
            s@ == stage_name(*self),
    {
        String::from_str(self.name())
    }

    /// Reads a stage from its text; unrecognised text gives `Unknown`.
    pub fn parse(s: &str) -> (stage: TaskStage)
        ensures
            stage == stage_from_name(s@),
    {
        if same_text(s, "UploadingFile") {
            TaskStage::UploadingFile
        } else if same_text(s, "TransferingS3") {
            TaskStage::TransferingS3
        } else if same_text(s, "FindingWorker") {
            TaskStage::FindingWorker
        } else if same_text(s, "Processing") {
            TaskStage::Processing
        } else if same_text(s, "Failed") {
            TaskStage::Failed
        } else if same_text(s, "Success") {
            TaskStage::Success
        } else {
            TaskStage::Unknown
        }
    }
}

impl std::str::FromStr for TaskStage {
    type Err = ();

    fn from_str(s: &str) -> (r: Result<Self, ()>)
        ensures
            r == Ok::<TaskStage, ()>(stage_from_name(s@)),
    {
        Ok(TaskStage::parse(s))
    }
}

/// Reading back the text of a stage gives the same stage.
pub proof fn lemma_stage_name_roundtrip(stage: TaskStage)
    ensures
        stage_from_name(stage_name(stage)) == stage,
{
    reveal_strlit("Unknown");
    reveal_strlit("UploadingFile");
    reveal_strlit("TransferingS3");
    reveal_strlit("FindingWorker");
    reveal_strlit("Processing");
    reveal_strlit("Failed");
    reveal_strlit("Success");
    assert("Unknown"@ != "Success"@) by {
        assert("Unknown"@[0] != "Success"@[0]);
    }
    assert("UploadingFile"@ != "TransferingS3"@) by {
        assert("UploadingFile"@[0] != "TransferingS3"@[0]);
    }
    assert("UploadingFile"@ != "FindingWorker"@) by {
        assert("UploadingFile"@[0] != "FindingWorker"@[0]);
    }
    assert("TransferingS3"@ != "FindingWorker"@) by {
        assert("TransferingS3"@[0] != "FindingWorker"@[0]);
    }
    assert("Unknown"@.len() == 7);
    assert("UploadingFile"@.len() == 13);
    assert("TransferingS3"@.len() == 13);
    assert("FindingWorker"@.len() == 13);
    assert("Processing"@.len() == 10);
    assert("Failed"@.len() == 6);
    assert("Success"@.len() == 7);
}

/// Every stage's text fits the twenty characters of the `stage` column.
pub proof fn lemma_stage_name_fits_column(stage: TaskStage)
    ensures
        0 < stage_name(stage).len() <= 20,
{
    reveal_strlit("Unknown");
    reveal_strlit("UploadingFile");
    reveal_strlit("TransferingS3");
    reveal_strlit("FindingWorker");
    reveal_strlit("Processing");
    reveal_strlit("Failed");
    reveal_strlit("Success");
}

} // verus!
