use docker_native_manager::failure::{failure, Step};

#[test]
fn failed_steps_are_reported_with_their_reason() {
    let reports = [
        (Step::WriteConfig, "Failed to write Docker config: why"),
        (Step::CreateContextDir, "Failed to create context directory: why"),
        (Step::SerializeMeta, "Failed to serialize context metadata: why"),
        (Step::WriteMeta, "Failed to write context metadata: why"),
        (Step::RemoveContextDir, "Failed to remove context directory: why"),
        (Step::FindPort, "Failed to find available port: why"),
        (Step::GetPort, "Failed to get port: why"),
        (Step::WriteWslScript, "Failed to write WSL proxy script: why"),
        (Step::StartWslForwarder, "Failed to start WSL Docker forwarder: why"),
        (Step::StartSshTunnel, "Failed to start SSH tunnel: why"),
        (Step::CheckSshTunnel, "Failed to check SSH tunnel status: why"),
    ];
    for (step, report) in reports {
        assert_eq!(failure(step, "why"), report);
    }
}
