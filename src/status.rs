use vstd::prelude::*;
use vstd::string::StringExecFns;

use crate::icon::Icon;

verus! {

/// One affected package: a summary line and the link to its advisory.
#[derive(Debug, Clone, PartialEq, Eq)]
pub struct Update {
    pub text: String,
    pub link: String,
}

/// What the last completed check found.
#[derive(Debug, Clone, PartialEq, Eq)]
pub enum Status {
    UpToDate,
    MissingUpdates(Vec<Update>),
    Error(String),
}

/// What a run of the advisory check hands back: the affected packages in
/// the order the check listed them, or the reason it failed.
pub type Outcome = Result<Vec<Update>, String>;

pub open spec fn classify_spec(o: Outcome) -> Status {
    match o {
        Ok(updates) => if updates@.len() == 0 {
            Status::UpToDate
        } else {
            Status::MissingUpdates(updates)
        },
        Err(message) => Status::Error(message),
    }
}

/// The packages listed for a status: those of `MissingUpdates`, else none.
pub open spec fn listed_updates(s: Status) -> Seq<Update> {
    match s {
        Status::MissingUpdates(u) => u@,
        _ => Seq::empty(),
    }
}

pub open spec fn up_to_date_text() -> Seq<char> {
    "No missing security updates"@
}

pub open spec fn missing_text() -> Seq<char> {
    "Security updates are available"@
}

pub open spec fn error_prefix() -> Seq<char> {
    "Error: "@
}

/// The summary line shown for a status; a list of packages that is empty
/// reads as all clear.
pub open spec fn status_text(s: Status) -> Seq<char> {
    match s {
        Status::UpToDate => up_to_date_text(),
        Status::MissingUpdates(u) => if u@.len() == 0 {
            up_to_date_text()
        } else {
            missing_text()
        },
        Status::Error(m) => error_prefix() + m@,
    }
}

pub open spec fn status_icon(s: Status) -> Icon {
    match s {
        Status::UpToDate => Icon::Check,
        Status::MissingUpdates(u) => if u@.len() == 0 {
            Icon::Check
        } else {
            Icon::Alert
        },
        Status::Error(_) => Icon::Cross,
    }
}

/// Turns what the check handed back into the status to show.
pub fn classify(outcome: Outcome) -> (r: Status)
    ensures
        r == classify_spec(outcome),
{
    match outcome {
        Ok(updates) => {
            if updates.len() == 0 {
                Status::UpToDate
            } else {
                Status::MissingUpdates(updates)
            }
        },
        Err(message) => Status::Error(message),
    }
}

impl Status {
    pub fn text(&self) -> (r: String)
        ensures
            r@ == status_text(*self),
    {
        match self {
            Status::UpToDate => {
                proof {
                    reveal_strlit("No missing security updates");
                }
                "No missing security updates".to_string()
            },
            Status::MissingUpdates(u) => {
                if u.len() == 0 {
                    "No missing security updates".to_string()
                } else {
                    "Security updates are available".to_string()
                }
            },
            Status::Error(m) => {
                let mut t = "Error: ".to_string();
                t.append(m.as_str());
                t
            },
        }
    }

    pub fn icon(&self) -> (r: Icon)
        ensures
            r == status_icon(*self),
    {
        match self {
            Status::UpToDate => Icon::Check,
            Status::MissingUpdates(u) => {
                if u.len() == 0 {
                    Icon::Check
                } else {
                    Icon::Alert
                }
            },
            Status::Error(_) => Icon::Cross,
        }
    }

    /// The packages to list under the status line, one entry each, in the
    /// order the check gave them; none unless updates are missing.
    pub fn updates(&self) -> (r: &[Update])
        ensures
            r@ == listed_updates(*self),
    {
        match self {
            Status::MissingUpdates(u) => u.as_slice(),
            _ => &[],
        }
    }
}

/// Every outcome of a check gets exactly one of the three statuses, with a
/// summary line that is never empty and the icon that belongs to it: no
/// packages gives all clear, some packages give an alert listing them in
/// the check's order, and a failure gives an error carrying its message.
pub proof fn lemma_classification_total(o: Outcome)
    ensures
        status_text(classify_spec(o)).len() > 0,
        o matches Ok(u) ==> if u@.len() == 0 {
            classify_spec(o) == Status::UpToDate && status_icon(classify_spec(o)) == Icon::Check
        } else {
            classify_spec(o) == Status::MissingUpdates(u) && listed_updates(classify_spec(o))
                == u@ && status_icon(classify_spec(o)) == Icon::Alert
        },
        o matches Err(m) ==> classify_spec(o) == Status::Error(m) && status_icon(
            classify_spec(o),
        ) == Icon::Cross,
{
    reveal_strlit("No missing security updates");
    reveal_strlit("Security updates are available");
    reveal_strlit("Error: ");
}

/// The summary line and icon that the tray shows for a status.
pub fn present(s: &Status) -> (r: (String, Icon))
    ensures
        r.0@ == status_text(*s),
        r.1 == status_icon(*s),
{
    (s.text(), s.icon())
}

} // verus!
