use vstd::prelude::*;

use crate::segment::Segment;

verus! {

#[verifier::external_type_specification]
#[verifier::external_body]
pub struct ExAnyhowError(anyhow::Error);

/// A speech recogniser: it turns 16 kHz mono 16-bit samples into timed
/// segments of text, or reports why it could not.
pub trait SubtitleInference {
    fn execute(&self, sample: &Vec<i16>) -> Result<Vec<Segment>, anyhow::Error>;
}

} // verus!
