//! The save dialog: what it shows, and what its outcome means to the caller.

use vstd::prelude::*;

verus! {

/// How the native save picker is set up: its title, and the one file-type
/// filter it is restricted to.
#[derive(Clone, Debug, PartialEq, Eq)]
pub struct SaveDialog {
    pub title: String,
    pub filter_name: String,
    pub extension: String,
}

/// What a `SaveDialog` stands for.
pub struct SaveDialogText {
    pub title: Seq<char>,
    pub filter_name: Seq<char>,
    pub extension: Seq<char>,
}

impl View for SaveDialog {
    type V = SaveDialogText;

    open spec fn view(&self) -> SaveDialogText {
        SaveDialogText {
            title: self.title@,
            filter_name: self.filter_name@,
            extension: self.extension@,
        }
    }
}

/// The picker for saving a report.
pub open spec fn save_dialog_text() -> SaveDialogText {
    SaveDialogText {
        title: "PDF speichern unter..."@,
        filter_name: "PDF Files"@,
        extension: "pdf"@,
    }
}

/// Sets up the picker for saving a report.
pub fn save_dialog() -> (dialog: SaveDialog)
    ensures
        dialog@ == save_dialog_text(),
{
    SaveDialog {
        title: "PDF speichern unter...".to_owned(),
        filter_name: "PDF Files".to_owned(),
        extension: "pdf".to_owned(),
    }
}

/// How the dialog ended.
#[derive(Clone, Debug, PartialEq, Eq)]
pub enum DialogOutcome {
    /// The user chose this path.
    Chosen(String),
    /// The user closed the dialog without choosing.
    Cancelled,
    /// The dialog went away without reporting anything.
    Lost,
}

/// What the dialog reports to its caller: the chosen path; nothing at all,
/// and no error, when the user cancelled; and an error only when the dialog's
/// answer was lost.
pub fn dialog_report(outcome: DialogOutcome) -> (report: Result<Option<String>, String>)
    ensures
        match outcome {
            DialogOutcome::Chosen(path) => report == Ok::<Option<String>, String>(Some(path)),
            DialogOutcome::Cancelled => report == Ok::<Option<String>, String>(None),
            DialogOutcome::Lost => report is Err && report->Err_0@ == "Dialog error"@,
        },
{
    match outcome {
        DialogOutcome::Chosen(path) => Ok(Some(path)),
        DialogOutcome::Cancelled => Ok(None),
        DialogOutcome::Lost => Err("Dialog error".to_owned()),
    }
}

} // verus!
