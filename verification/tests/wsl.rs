use docker_native_manager::wsl::{
    loopback_addr, keep_wsl_forwarder, run_wsl, start_wsl_forwarder, stop_wsl_forwarder,
    try_connect_wsl, try_wsl_docker, write_wsl_script, wsl_path, ForwarderAction, ForwarderEvent,
    ForwarderFound, ForwarderPhase, ForwarderSpawn, WslAction, WslEvent, WslForwarder, WslPhase,
    WslProbe, FORWARDER_TIMEOUT, PORT_TIMEOUT, SCRIPT_NAME,
};

#[test]
fn the_script_binds_the_port() {
    let script = write_wsl_script(2375);
    assert!(script.starts_with("import socket, threading, sys, os\n\ndef forward(a, b):\n    try:\n"));
    assert!(script.contains("\ns.bind(('127.0.0.1', 2375))\ns.listen(5)\nsys.stdout.write('R')\n"));
    assert!(script.ends_with("args=(d, c), daemon=True).start()\n"));
    assert_eq!(script.lines().count(), 29);
    assert_eq!(SCRIPT_NAME, "docker_nm_wsl_proxy.py");
}

#[test]
fn windows_paths_are_known_to_linux() {
    let cases = [
        ("C:\\Users\\me\\a.py", "/mnt/c/Users/me/a.py"),
        ("D:\\tmp\\a.py", "/mnt/d/tmp/a.py"),
        ("E:\\a", "/mnt/e/a"),
        ("F:\\a", "F:/a"),
        ("c:\\a", "c:/a"),
        ("C:\\D:\\E:\\C:", "/mnt/c//mnt/d//mnt/e/C:"),
        ("/tmp/a", "/tmp/a"),
    ];
    for (windows, linux) in cases {
        assert_eq!(wsl_path(windows), linux);
    }
}

#[test]
fn programs_are_tried_in_turn() {
    assert_eq!(run_wsl(0), Some("wsl.exe"));
    assert_eq!(run_wsl(1), Some("C:\\Windows\\System32\\wsl.exe"));
    assert_eq!(run_wsl(2), None);
}

#[test]
fn the_search_for_a_daemon() {
    assert_eq!(try_wsl_docker(true), WslProbe::Settled(true));
    let mut probe = try_wsl_docker(false);
    assert_eq!(probe.args(), ["docker", "version", "--format", "{{.Server.Version}}"]);
    probe.step(false);
    assert_eq!(probe.args()[..2], ["python3", "-c"]);
    assert_eq!(
        probe.args()[2],
        "import socket;s=socket.socket(socket.AF_UNIX);s.settimeout(2);s.connect('/var/run/docker.sock');s.close()"
    );
    for (version, socket) in [(true, true), (true, false), (false, true), (false, false)] {
        let mut probe = try_wsl_docker(false);
        probe.step(version);
        probe.step(socket);
        assert_eq!(probe, WslProbe::Settled(version || socket));
        assert!(probe.args().is_empty());
    }
}

fn reading() -> docker_native_manager::wsl::ForwarderStart {
    let (mut start, _) = start_wsl_forwarder(2375);
    start.step(ForwarderEvent::Written(Ok("C:\\a.py".to_string())));
    start.step(ForwarderEvent::Spawned(ForwarderSpawn::Started));
    start
}

fn failed(kill: bool, error: &str) -> ForwarderAction {
    ForwarderAction::Fail { kill, error: error.to_string() }
}

#[test]
fn a_forwarder_becomes_ready() {
    let (mut start, first) = start_wsl_forwarder(2375);
    assert_eq!(first, ForwarderAction::Write(write_wsl_script(2375)));
    assert_eq!(
        start.step(ForwarderEvent::Written(Ok("C:\\a.py".to_string()))),
        ForwarderAction::Spawn(vec!["python3".to_string(), "/mnt/c/a.py".to_string()])
    );
    assert_eq!(
        start.step(ForwarderEvent::Spawned(ForwarderSpawn::Started)),
        ForwarderAction::Read
    );
    assert_eq!(start.step(ForwarderEvent::Read(Some(b'x'))), ForwarderAction::ReadClock);
    assert_eq!(
        start.step(ForwarderEvent::Elapsed(FORWARDER_TIMEOUT)),
        ForwarderAction::Sleep(200)
    );
    assert_eq!(start.step(ForwarderEvent::Slept), ForwarderAction::Read);
    assert_eq!(start.step(ForwarderEvent::Read(Some(b'R'))), ForwarderAction::Succeed);
    assert_eq!(start.phase, ForwarderPhase::Ended);
    assert_eq!(start.step(ForwarderEvent::Slept), ForwarderAction::Ignore);
}

#[test]
fn a_forwarder_fails() {
    let (mut start, _) = start_wsl_forwarder(1);
    assert_eq!(
        start.step(ForwarderEvent::Written(Err("full".to_string()))),
        failed(false, "Failed to write WSL proxy script: full")
    );

    let (mut start, _) = start_wsl_forwarder(1);
    start.step(ForwarderEvent::Written(Ok("a".to_string())));
    assert_eq!(
        start.step(ForwarderEvent::Spawned(ForwarderSpawn::Failed("no wsl".to_string()))),
        failed(false, "Failed to start WSL Docker forwarder: no wsl")
    );

    let (mut start, _) = start_wsl_forwarder(1);
    start.step(ForwarderEvent::Written(Ok("a".to_string())));
    assert_eq!(
        start.step(ForwarderEvent::Spawned(ForwarderSpawn::NoStdout)),
        failed(false, "No stdout from WSL forwarder")
    );

    assert_eq!(
        reading().step(ForwarderEvent::Read(None)),
        failed(true, "WSL forwarder failed to send ready signal.")
    );

    let mut start = reading();
    start.step(ForwarderEvent::Read(Some(0)));
    assert_eq!(
        start.step(ForwarderEvent::Elapsed(10_000_000_001)),
        failed(true, "WSL Docker forwarder timed out.")
    );
}

#[test]
fn a_reachable_forwarder_is_used() {
    let (mut attempt, first) = try_connect_wsl();
    assert_eq!(first, WslAction::Detect);
    assert_eq!(attempt.step(WslEvent::Detected(true)), WslAction::Examine);
    let found = ForwarderFound::Present { addr: "127.0.0.1:9".to_string(), reachable: true };
    assert_eq!(
        attempt.step(WslEvent::Examined(found)),
        WslAction::Use("127.0.0.1:9".to_string())
    );
    assert_eq!(attempt.phase, WslPhase::Ended);
}

#[test]
fn a_forwarder_is_started_anew() {
    let addr = "127.0.0.1:2375".to_string();
    let (mut attempt, _) = try_connect_wsl();
    attempt.step(WslEvent::Detected(true));
    let found = ForwarderFound::Present { addr: "127.0.0.1:9".to_string(), reachable: false };
    assert_eq!(attempt.step(WslEvent::Examined(found)), WslAction::Stop);
    assert_eq!(attempt.step(WslEvent::Stopped), WslAction::FindPort);
    assert_eq!(attempt.step(WslEvent::PortFound(Some(2375))), WslAction::Start(2375));
    assert_eq!(attempt.step(WslEvent::Started(true)), WslAction::Keep(addr.clone()));
    assert_eq!(attempt.step(WslEvent::Kept), WslAction::Probe(addr.clone()));
    assert_eq!(attempt.step(WslEvent::Probed(false)), WslAction::ReadClock);
    assert_eq!(attempt.step(WslEvent::Elapsed(PORT_TIMEOUT)), WslAction::Sleep(100));
    assert_eq!(attempt.step(WslEvent::Slept), WslAction::Probe(addr.clone()));
    assert_eq!(attempt.step(WslEvent::Probed(true)), WslAction::Use(addr.clone()));
    assert_eq!(loopback_addr(2375), addr);
}

#[test]
fn an_attempt_is_given_up() {
    let (mut attempt, _) = try_connect_wsl();
    assert_eq!(attempt.step(WslEvent::Detected(false)), WslAction::GiveUp);
    assert_eq!(attempt.step(WslEvent::Slept), WslAction::Ignore);

    let (mut attempt, _) = try_connect_wsl();
    attempt.step(WslEvent::Detected(true));
    assert_eq!(attempt.step(WslEvent::Examined(ForwarderFound::Unavailable)), WslAction::GiveUp);

    let (mut attempt, _) = try_connect_wsl();
    attempt.step(WslEvent::Detected(true));
    assert_eq!(attempt.step(WslEvent::Examined(ForwarderFound::Absent)), WslAction::Stop);
    attempt.step(WslEvent::Stopped);
    assert_eq!(attempt.step(WslEvent::PortFound(None)), WslAction::GiveUp);

    let (mut attempt, _) = try_connect_wsl();
    attempt.step(WslEvent::Detected(true));
    attempt.step(WslEvent::Examined(ForwarderFound::Absent));
    attempt.step(WslEvent::Stopped);
    attempt.step(WslEvent::PortFound(Some(1)));
    assert_eq!(attempt.step(WslEvent::Started(false)), WslAction::GiveUp);

    let (mut attempt, _) = try_connect_wsl();
    attempt.step(WslEvent::Detected(true));
    attempt.step(WslEvent::Examined(ForwarderFound::Absent));
    attempt.step(WslEvent::Stopped);
    attempt.step(WslEvent::PortFound(Some(1)));
    attempt.step(WslEvent::Started(true));
    attempt.step(WslEvent::Kept);
    attempt.step(WslEvent::Probed(false));
    assert_eq!(attempt.step(WslEvent::Elapsed(5_000_000_001)), WslAction::GiveUp);
}

#[test]
fn a_forwarder_is_kept_and_stopped() {
    let mut forwarder: Option<WslForwarder<u32>> = None;
    assert_eq!(stop_wsl_forwarder(&mut forwarder), None);
    keep_wsl_forwarder(&mut forwarder, 7, "127.0.0.1:1");
    assert_eq!(forwarder.as_ref().unwrap().addr, "127.0.0.1:1");
    assert_eq!(stop_wsl_forwarder(&mut forwarder), Some(7));
    assert!(forwarder.is_none());
}
