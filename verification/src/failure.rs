//! How a step of outside work that failed is reported.

use vstd::prelude::*;

use crate::text::joined;

verus! {

/// A step of outside work whose failure is reported with its reason.
#[derive(Clone, Copy, Debug, PartialEq, Eq, Structural)]
pub enum Step {
    WriteConfig,
    CreateContextDir,
    SerializeMeta,
    WriteMeta,
    RemoveContextDir,
    FindPort,
    GetPort,
    WriteWslScript,
    StartWslForwarder,
    StartSshTunnel,
    CheckSshTunnel,
}

/// What stands before the reason in the report of a failed step.
pub open spec fn report_of(step: Step) -> Seq<char> {
    match step {
        Step::WriteConfig => "Failed to write Docker config: "@,
        Step::CreateContextDir => "Failed to create context directory: "@,
        Step::SerializeMeta => "Failed to serialize context metadata: "@,
        Step::WriteMeta => "Failed to write context metadata: "@,
        Step::RemoveContextDir => "Failed to remove context directory: "@,
        Step::FindPort => "Failed to find available port: "@,
        Step::GetPort => "Failed to get port: "@,
        Step::WriteWslScript => "Failed to write WSL proxy script: "@,
        Step::StartWslForwarder => "Failed to start WSL Docker forwarder: "@,
        Step::StartSshTunnel => "Failed to start SSH tunnel: "@,
        Step::CheckSshTunnel => "Failed to check SSH tunnel status: "@,
    }
}

/// The report of a step that failed for `reason`.
pub fn failure(step: Step, reason: &str) -> (report: String)
    ensures
        report@ == report_of(step) + reason@,
{
    let before = match step {
        Step::WriteConfig => "Failed to write Docker config: ",
        Step::CreateContextDir => "Failed to create context directory: ",
        Step::SerializeMeta => "Failed to serialize context metadata: ",
        Step::WriteMeta => "Failed to write context metadata: ",
        Step::RemoveContextDir => "Failed to remove context directory: ",
        Step::FindPort => "Failed to find available port: ",
        Step::GetPort => "Failed to get port: ",
        Step::WriteWslScript => "Failed to write WSL proxy script: ",
        Step::StartWslForwarder => "Failed to start WSL Docker forwarder: ",
        Step::StartSshTunnel => "Failed to start SSH tunnel: ",
        Step::CheckSshTunnel => "Failed to check SSH tunnel status: ",
    };
    joined(before, reason)
}

// ---- laws ----

/// Each step is reported in its own words: the report names the work that failed, and no two steps
/// share one.
pub proof fn law_reports(a: Step, b: Step)
    ensures
        report_of(Step::WriteConfig) == "Failed to write Docker config: "@,
        report_of(Step::CreateContextDir) == "Failed to create context directory: "@,
        report_of(Step::SerializeMeta) == "Failed to serialize context metadata: "@,
        report_of(Step::WriteMeta) == "Failed to write context metadata: "@,
        report_of(Step::RemoveContextDir) == "Failed to remove context directory: "@,
        report_of(Step::FindPort) == "Failed to find available port: "@,
        report_of(Step::GetPort) == "Failed to get port: "@,
        report_of(Step::WriteWslScript) == "Failed to write WSL proxy script: "@,
        report_of(Step::StartWslForwarder) == "Failed to start WSL Docker forwarder: "@,
        report_of(Step::StartSshTunnel) == "Failed to start SSH tunnel: "@,
        report_of(Step::CheckSshTunnel) == "Failed to check SSH tunnel status: "@,
        a != b ==> report_of(a) != report_of(b),
{
    reveal_strlit("Failed to write Docker config: ");
    reveal_strlit("Failed to create context directory: ");
    reveal_strlit("Failed to serialize context metadata: ");
    reveal_strlit("Failed to write context metadata: ");
    reveal_strlit("Failed to remove context directory: ");
    reveal_strlit("Failed to find available port: ");
    reveal_strlit("Failed to get port: ");
    reveal_strlit("Failed to write WSL proxy script: ");
    reveal_strlit("Failed to start WSL Docker forwarder: ");
    reveal_strlit("Failed to start SSH tunnel: ");
    reveal_strlit("Failed to check SSH tunnel status: ");
    if a != b {
        assert(report_of(a).len() != report_of(b).len() || report_of(a)[10] != report_of(b)[10]
            || report_of(a)[16] != report_of(b)[16]);
    }
}

} // verus!
