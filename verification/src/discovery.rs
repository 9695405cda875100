//! Discovery of the interrupt-capable GPIO controller device.
//!
//! The operating system exposes a row of numbered character-device
//! candidates. Each is probed in turn — opened and asked for its controller
//! label — and the first whose label names a supported board's controller
//! wins. The probing itself is I/O; its outcomes reach this module as plain
//! values, one per candidate, and the selection rule over them is verified.

use vstd::prelude::*;
use vstd::string::StringExecFns;

use crate::Error;

verus! {

/// Upper bound on the numbered candidate nodes a discovery scan visits.
pub const MAX_CANDIDATES: usize = 8;

/// Outcome of probing one numbered candidate device node.
#[derive(Debug, Clone, PartialEq, Eq)]
pub enum CandidateProbe {
    /// The node does not exist; the scan moves on.
    Absent,
    /// The node opened and the controller-info query returned this label.
    Labeled(String),
    /// Opening or querying the node failed; carries the OS error code.
    Failed(i32),
}

/// Controller labels of the supported boards.
pub open spec fn spec_label_accepted(label: Seq<char>) -> bool {
    label == "pinctrl-bcm2835"@ || label == "pinctrl-bcm2711"@
}

/// Whether a controller label names a supported board.
pub fn label_accepted(label: &String) -> (r: bool)
    ensures
        r == spec_label_accepted(label@),
{
    let older = String::from_str("pinctrl-bcm2835");
    let newer = String::from_str("pinctrl-bcm2711");
    *label == older || *label == newer
}

/// The index the scan selects from position `i` on: the first candidate
/// whose label is accepted. A candidate that failed to answer stops the
/// scan with its I/O error; an exhausted row is an unknown chip.
pub open spec fn spec_find_driver(candidates: Seq<CandidateProbe>, i: int) -> Result<u8, Error>
    decreases candidates.len() - i,
{
    if i < 0 || i >= candidates.len() {
        Err(Error::UnknownSoC)
    } else {
        match candidates[i] {
            CandidateProbe::Absent => spec_find_driver(candidates, i + 1),
            CandidateProbe::Labeled(label) => if spec_label_accepted(label@) {
                Ok(i as u8)
            } else {
                spec_find_driver(candidates, i + 1)
            },
            CandidateProbe::Failed(code) => Err(Error::Io(code)),
        }
    }
}

/// Selects the controller device: the first candidate of the row whose
/// label names a supported board. The scan is bounded by the row it is
/// handed, so it always terminates.
pub fn find_driver(candidates: &Vec<CandidateProbe>) -> (r: Result<u8, Error>)
    requires
        candidates@.len() <= MAX_CANDIDATES,
    ensures
        r == spec_find_driver(candidates@, 0),
{
    let mut i: usize = 0;
    while i < candidates.len()
        invariant
            candidates@.len() <= MAX_CANDIDATES,
            i <= candidates@.len(),
            spec_find_driver(candidates@, 0) == spec_find_driver(candidates@, i as int),
        decreases candidates@.len() - i,
    {
        match &candidates[i] {
            CandidateProbe::Absent => {},
            CandidateProbe::Labeled(label) => {
                if label_accepted(label) {
                    return Ok(i as u8);
                }
            },
            CandidateProbe::Failed(code) => {
                return Err(Error::Io(*code));
            },
        }
        i += 1;
    }
    Err(Error::UnknownSoC)
}

/// Law: a scan over a full candidate row in which no probe carries an
/// accepted label — every node absent or labeled for some other chip —
/// selects nothing and reports the chip unknown.
pub proof fn lemma_no_match_is_unknown(candidates: Seq<CandidateProbe>)
    requires
        forall|j: int|
            0 <= j < candidates.len() ==> match #[trigger] candidates[j] {
                CandidateProbe::Absent => true,
                CandidateProbe::Labeled(label) => !spec_label_accepted(label@),
                CandidateProbe::Failed(code) => false,
            },
    ensures
        spec_find_driver(candidates, 0) == Err::<u8, Error>(Error::UnknownSoC),
{
    lemma_no_match_from(candidates, 0);
}

/// Induction step for `lemma_no_match_is_unknown`.
proof fn lemma_no_match_from(candidates: Seq<CandidateProbe>, i: int)
    requires
        0 <= i,
        forall|j: int|
            0 <= j < candidates.len() ==> match #[trigger] candidates[j] {
                CandidateProbe::Absent => true,
                CandidateProbe::Labeled(label) => !spec_label_accepted(label@),
                CandidateProbe::Failed(code) => false,
            },
    ensures
        spec_find_driver(candidates, i) == Err::<u8, Error>(Error::UnknownSoC),
    decreases candidates.len() - i,
{
    if i < candidates.len() {
        lemma_no_match_from(candidates, i + 1);
    }
}

} // verus!
