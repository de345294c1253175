//! Supervision of the backend service: how it is launched, how long the shell
//! waits for it, and what its health probe means.
//!
//! The service is convenience infrastructure. Nothing here is fatal and
//! nothing is retried: a launch that fails is noted and otherwise ignored, and
//! a probe that cannot be made counts as an unhealthy service.

use vstd::prelude::*;
use vstd::utf8::*;
use crate::command::{slice_texts, CommandLine, Invocation};
use crate::text::same_text;

verus! {

/// Seconds that a start waits after issuing the launch, to let the service
/// finish initialising. A pause, not a readiness check.
pub const WARM_UP_SECONDS: u64 = 2;

/// The command line that launches the service on its local address and port.
pub open spec fn launch_line() -> CommandLine {
    CommandLine {
        program: "python"@,
        args: seq![
            "-m"@,
            "uvicorn"@,
            "backend.main:app"@,
            "--host"@,
            "127.0.0.1"@,
            "--port"@,
            "8000"@,
        ],
    }
}

/// The command line of the health probe: it prints the status code of one
/// request to the service's health endpoint, and nothing else.
pub open spec fn probe_line() -> CommandLine {
    CommandLine {
        program: "curl"@,
        args: seq![
            "-s"@,
            "-o"@,
            "/dev/null"@,
            "-w"@,
            "%{http_code}"@,
            "http://localhost:8000/health"@,
        ],
    }
}

/// Composes the command that launches the service.
pub fn launch_command() -> (invocation: Invocation)
    ensures
        invocation@ == launch_line(),
{
    let args: Vec<&str> = vec![
        "-m",
        "uvicorn",
        "backend.main:app",
        "--host",
        "127.0.0.1",
        "--port",
        "8000",
    ];
    assert(slice_texts(args@) =~= launch_line().args);
    Invocation::new("python", &args)
}

/// Composes the command that probes the service's health endpoint.
pub fn probe_command() -> (invocation: Invocation)
    ensures
        invocation@ == probe_line(),
{
    let args: Vec<&str> = vec![
        "-s",
        "-o",
        "/dev/null",
        "-w",
        "%{http_code}",
        "http://localhost:8000/health",
    ];
    assert(slice_texts(args@) =~= probe_line().args);
    Invocation::new("curl", &args)
}

/// How far the supervisor has come. There is no way back, and no phase that
/// says the service was seen healthy: health is only ever the last probe.
#[derive(Clone, Copy, Debug, PartialEq, Eq, Structural)]
pub enum Phase {
    NotStarted,
    StartRequested,
}

/// What a start asks of the shell: launch the service in the background, then
/// pause the caller.
#[derive(Clone, Debug, PartialEq, Eq)]
pub struct StartPlan {
    pub launch: Invocation,
    pub pause_seconds: u64,
}

/// The supervisor of the backend service.
#[derive(Clone, Copy, Debug, PartialEq, Eq)]
pub struct Supervisor {
    phase: Phase,
}

impl Supervisor {
    pub closed spec fn spec_phase(&self) -> Phase {
        self.phase
    }

    /// A supervisor that has not been asked to start the service.
    pub fn new() -> (supervisor: Supervisor)
        ensures
            supervisor.spec_phase() == Phase::NotStarted,
    {
        Supervisor { phase: Phase::NotStarted }
    }

    #[verifier::when_used_as_spec(spec_phase)]
    pub fn phase(&self) -> (phase: Phase)
        ensures
            phase == self.spec_phase(),
    {
        self.phase
    }

    /// Requests a start. The plan is the same in every phase: a supervisor
    /// that was started before asks for another launch all the same.
    pub fn start(&mut self) -> (plan: StartPlan)
        ensures
            final(self).spec_phase() == Phase::StartRequested,
            plan.launch@ == launch_line(),
            plan.pause_seconds == WARM_UP_SECONDS,
    {
        self.phase = Phase::StartRequested;
        StartPlan { launch: launch_command(), pause_seconds: WARM_UP_SECONDS }
    }
}

/// What a start reports to its caller once the pause is over. `launched`
/// says whether the launch succeeded, as far as that is known by then. It does
/// not enter into the report, which is a success in every case: a failed launch
/// is not surfaced.
pub fn start_report(launched: Option<bool>) -> (report: Result<String, String>)
    ensures
        report is Ok,
        report->Ok_0@ == "Backend started"@,
{
    Ok("Backend started".to_owned())
}

/// The diagnostic that is printed when the launch fails with `error`.
pub fn launch_failure_notice(error: &str) -> (notice: String)
    ensures
        notice@ == "Failed to start backend: "@ + error@,
{
    let mut notice = "Failed to start backend: ".to_owned();
    notice.append(error);
    notice
}

/// What running the health probe gave.
#[derive(Clone, Debug, PartialEq, Eq)]
pub enum ProbeOutcome {
    /// The probe ran and printed these bytes.
    Printed(Vec<u8>),
    /// The probe could not be run.
    Failed,
}

/// The bytes that the probe prints for a service that is ready: the status
/// code 200, in ASCII digits.
pub open spec fn ready_status() -> Seq<u8> {
    seq![0x32u8, 0x30u8, 0x30u8]
}

/// Whether a probe with this outcome found the service healthy.
pub open spec fn is_healthy(outcome: ProbeOutcome) -> bool {
    match outcome {
        ProbeOutcome::Printed(bytes) => bytes@ == ready_status(),
        ProbeOutcome::Failed => false,
    }
}

/// Decodes `bytes` with `String::from_utf8_lossy`. Taken on trust from its
/// documentation: well-formed UTF-8 is decoded as it stands, and anything else
/// yields a text that holds the replacement character U+FFFD.
#[verifier::external_body]
fn lossy_text(bytes: &[u8]) -> (text: String)
    ensures
        valid_utf8(bytes@) ==> text@ == decode_utf8(bytes@),
        !valid_utf8(bytes@) ==> text@.contains('\u{FFFD}'),
{
    String::from_utf8_lossy(bytes).into_owned()
}

/// The text "200" is the ready status, and the ready status is its encoding.
pub proof fn lemma_ready_status_text()
    ensures
        "200"@ == seq!['2', '0', '0'],
        encode_utf8("200"@) == ready_status(),
{
    reveal_strlit("200");
    assert("200"@ =~= seq!['2', '0', '0']);
    assert(is_ascii_chars("200"@));
    is_ascii_chars_encode_utf8("200"@);
    assert(encode_utf8("200"@) =~= ready_status());
}

/// Whether the probe's output says that the service is ready: whether it is
/// exactly the status code 200.
pub fn reads_ready(stdout: &[u8]) -> (ready: bool)
    ensures
        ready == (stdout@ == ready_status()),
{
    let text = lossy_text(stdout);
    proof {
        lemma_ready_status_text();
        if stdout@ == ready_status() {
            encode_utf8_valid_utf8("200"@);
            encode_utf8_decode_utf8("200"@);
        }
        if text@ == "200"@ {
            if !valid_utf8(stdout@) {
                let at = choose|i: int| 0 <= i < text@.len() && text@[i] == '\u{FFFD}';
                assert(text@[at] == '\u{FFFD}');
            }
            decode_utf8_encode_utf8(stdout@);
        }
    }
    same_text(text.as_str(), "200")
}

/// What a health check reports for the outcome of its probe. It never fails:
/// a probe that could not be run is an unhealthy service.
pub fn health_report(outcome: &ProbeOutcome) -> (report: Result<bool, String>)
    ensures
        report == Ok::<bool, String>(is_healthy(*outcome)),
{
    match outcome {
        ProbeOutcome::Printed(bytes) => Ok(reads_ready(bytes.as_slice())),
        ProbeOutcome::Failed => Ok(false),
    }
}

} // verus!
