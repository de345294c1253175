//! Handing a document to the platform's default viewer.

use vstd::prelude::*;
use crate::command::{slice_texts, CommandLine, Invocation};

verus! {

/// The platform that the shell runs on.
#[derive(Clone, Copy, Debug, PartialEq, Eq, Structural)]
pub enum Platform {
    Windows,
    MacOs,
    Linux,
    /// A platform for which no opener is known.
    Other,
}

/// The command line that opens `path` with the default handler of its file
/// type on `platform`, where the platform has one.
pub open spec fn viewer_line(platform: Platform, path: Seq<char>) -> Option<CommandLine> {
    match platform {
        Platform::Windows => Some(
            CommandLine { program: "cmd"@, args: seq!["/C"@, "start"@, ""@, path] },
        ),
        Platform::MacOs => Some(CommandLine { program: "open"@, args: seq![path] }),
        Platform::Linux => Some(CommandLine { program: "xdg-open"@, args: seq![path] }),
        Platform::Other => None,
    }
}

/// The view of an optional invocation.
pub open spec fn invocation_view(invocation: Option<Invocation>) -> Option<CommandLine> {
    match invocation {
        Some(invocation) => Some(invocation@),
        None => None,
    }
}

/// Composes the command that opens the document at `path`. The path is passed
/// on as it is, as one argument.
pub fn viewer_command(platform: Platform, path: &str) -> (invocation: Option<Invocation>)
    ensures
        invocation_view(invocation) == viewer_line(platform, path@),
{
    match platform {
        Platform::Windows => {
            let args: Vec<&str> = vec!["/C", "start", "", path];
            assert(slice_texts(args@) =~= seq!["/C"@, "start"@, ""@, path@]);
            Some(Invocation::new("cmd", &args))
        },
        Platform::MacOs => {
            let args: Vec<&str> = vec![path];
            assert(slice_texts(args@) =~= seq![path@]);
            Some(Invocation::new("open", &args))
        },
        Platform::Linux => {
            let args: Vec<&str> = vec![path];
            assert(slice_texts(args@) =~= seq![path@]);
            Some(Invocation::new("xdg-open", &args))
        },
        Platform::Other => None,
    }
}

/// What the shell saw when it carried out the command of `viewer_command`.
#[derive(Clone, Debug, PartialEq, Eq)]
pub enum Attempt {
    /// There was no command to carry out.
    NothingToRun,
    /// The opener could not be started; the text is the system's reason.
    SpawnFailed(String),
    /// The opener ran and ended with this exit code, or without one.
    Exited(Option<i32>),
}

/// What became of the attempt to open the document.
#[derive(Clone, Debug, PartialEq, Eq)]
pub enum Launch {
    /// The opener handed the document to a viewer.
    Started,
    /// The opener could not be started; the text says why.
    Refused(String),
    /// The opener ran, and found nothing that opens the document.
    NoHandler,
    /// The platform has no opener.
    NoOpener,
}

/// What is reported when the opener cannot be started and the system gives no
/// reason.
pub open spec fn refusal_text() -> Seq<char> {
    "The document viewer could not be started"@
}

/// What is reported when nothing opens the document.
pub open spec fn no_handler_text() -> Seq<char> {
    "No application is available to open the document"@
}

/// What is reported on a platform without an opener.
pub open spec fn no_opener_text() -> Seq<char> {
    "Opening documents is not supported on this platform"@
}

/// None of the three failure texts is empty.
pub proof fn lemma_failure_texts_are_not_empty()
    ensures
        refusal_text().len() > 0,
        no_handler_text().len() > 0,
        no_opener_text().len() > 0,
{
    reveal_strlit("The document viewer could not be started");
    reveal_strlit("No application is available to open the document");
    reveal_strlit("Opening documents is not supported on this platform");
}

/// The reason that a refusal carries: the system's own, or the stock text
/// where the system gave none.
pub open spec fn refusal_reason(given: Seq<char>) -> Seq<char> {
    if given.len() == 0 {
        refusal_text()
    } else {
        given
    }
}

/// Judges an attempt. Only an opener that ran and ended with exit code zero
/// counts as started; with nothing to run there is no opener.
pub fn judge(attempt: Attempt) -> (launch: Launch)
    ensures
        match attempt {
            Attempt::NothingToRun => launch == Launch::NoOpener,
            Attempt::SpawnFailed(reason) => launch is Refused && launch->Refused_0@
                == refusal_reason(reason@),
            Attempt::Exited(code) => launch == if code == Some(0i32) {
                Launch::Started
            } else {
                Launch::NoHandler
            },
        },
{
    match attempt {
        Attempt::NothingToRun => Launch::NoOpener,
        Attempt::SpawnFailed(reason) => {
            if reason.as_str().is_empty() {
                Launch::Refused("The document viewer could not be started".to_owned())
            } else {
                Launch::Refused(reason)
            }
        },
        Attempt::Exited(Some(code)) => {
            if code == 0 {
                Launch::Started
            } else {
                Launch::NoHandler
            }
        },
        Attempt::Exited(None) => Launch::NoHandler,
    }
}

/// What opening a document reports: success only when a viewer was started,
/// and otherwise a failure with its reason. A failure is never turned into a
/// success.
pub fn open_report(launch: Launch) -> (report: Result<(), String>)
    ensures
        launch is Started ==> report == Ok::<(), String>(()),
        launch is Refused ==> report == Err::<(), String>(launch->Refused_0),
        launch is NoHandler ==> report is Err && report->Err_0@ == no_handler_text(),
        launch is NoOpener ==> report is Err && report->Err_0@ == no_opener_text(),
{
    match launch {
        Launch::Started => Ok(()),
        Launch::Refused(reason) => Err(reason),
        Launch::NoHandler => Err("No application is available to open the document".to_owned()),
        Launch::NoOpener => Err("Opening documents is not supported on this platform".to_owned()),
    }
}

/// What opening a document reports for an attempt: success exactly when the
/// opener ran and ended with exit code zero, and otherwise a failure whose
/// text is not empty.
pub fn open_outcome(attempt: Attempt) -> (report: Result<(), String>)
    ensures
        report is Ok <==> attempt == Attempt::Exited(Some(0i32)),
        report is Err ==> report->Err_0@.len() > 0,
        attempt is NothingToRun ==> report is Err && report->Err_0@ == no_opener_text(),
        attempt is SpawnFailed ==> report is Err && report->Err_0@ == refusal_reason(
            attempt->SpawnFailed_0@,
        ),
        attempt is Exited && attempt != Attempt::Exited(Some(0i32)) ==> report is Err
            && report->Err_0@ == no_handler_text(),
{
    proof {
        lemma_failure_texts_are_not_empty();
    }
    open_report(judge(attempt))
}

} // verus!
