//! The stages a job application goes through, and their text form.

use vstd::prelude::*;
use crate::text::same_text;

verus! {

/// Where a job application stands.
#[derive(Clone, Copy, Debug, PartialEq, Eq, Structural)]
pub enum ApplicationStatus {
    Applied,
    Interview,
    Offer,
    Rejected,
    Accepted,
}

/// The text a status is shown, selected and stored as: the variant's name.
pub open spec fn status_text(status: ApplicationStatus) -> Seq<char> {
    match status {
        ApplicationStatus::Applied => "Applied"@,
        ApplicationStatus::Interview => "Interview"@,
        ApplicationStatus::Offer => "Offer"@,
        ApplicationStatus::Rejected => "Rejected"@,
        ApplicationStatus::Accepted => "Accepted"@,
    }
}

/// The status a text stands for; any text that names no status reads as `Applied`.
pub open spec fn status_from_text(text: Seq<char>) -> ApplicationStatus {
    if text == "Interview"@ {
        ApplicationStatus::Interview
    } else if text == "Offer"@ {
        ApplicationStatus::Offer
    } else if text == "Rejected"@ {
        ApplicationStatus::Rejected
    } else if text == "Accepted"@ {
        ApplicationStatus::Accepted
    } else {
        ApplicationStatus::Applied
    }
}

impl ApplicationStatus {
    /// The status's name, as it is shown in the table and stored in the database.
    pub fn label(&self) -> (text: &'static str)
        ensures
            text@ == status_text(*self),
    {
        match self {
            ApplicationStatus::Applied => "Applied",
            ApplicationStatus::Interview => "Interview",
            ApplicationStatus::Offer => "Offer",
            ApplicationStatus::Rejected => "Rejected",
            ApplicationStatus::Accepted => "Accepted",
        }
    }
}

/// Reads a status from its name; an unknown name gives `Applied`.
pub fn parse_status(text: &str) -> (status: ApplicationStatus)
    ensures
        status == status_from_text(text@),
{
    if same_text(text, "Interview") {
        ApplicationStatus::Interview
    } else if same_text(text, "Offer") {
        ApplicationStatus::Offer
    } else if same_text(text, "Rejected") {
        ApplicationStatus::Rejected
    } else if same_text(text, "Accepted") {
        ApplicationStatus::Accepted
    } else {
        ApplicationStatus::Applied
    }
}

/// Reading back the name of a status gives that status.
pub proof fn lemma_status_text_round_trip(status: ApplicationStatus)
    ensures
        status_from_text(status_text(status)) == status,
{
    reveal_strlit("Applied");
    reveal_strlit("Interview");
    reveal_strlit("Offer");
    reveal_strlit("Rejected");
    reveal_strlit("Accepted");
    let names = seq!["Applied"@, "Interview"@, "Offer"@, "Rejected"@, "Accepted"@];
    assert forall|i: int, j: int| 0 <= i < j < 5 implies names[i] != names[j] by {
        if names[i].len() == names[j].len() {
            assert(names[i][0] != names[j][0]);
        }
    }
}

/// Distinct statuses have distinct names.
pub proof fn lemma_status_text_injective(a: ApplicationStatus, b: ApplicationStatus)
    ensures
        status_text(a) == status_text(b) <==> a == b,
{
    lemma_status_text_round_trip(a);
    lemma_status_text_round_trip(b);
}

} // verus!
