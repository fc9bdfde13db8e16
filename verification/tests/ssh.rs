use docker_native_manager::paths::Platform;
use docker_native_manager::ssh::{
    cleanup_addr, exit_error, is_tunnel_ready, keep_ssh_tunnel, ssh_args, start_ssh_tunnel_raw,
    stop_ssh_tunnel, ChildStatus, ReadyProbe, SshTunnel, TunnelAction, TunnelEvent, TunnelPhase,
    TunnelStart, TUNNEL_TIMEOUT,
};

fn waiting() -> TunnelStart {
    let (mut start, _) = start_ssh_tunnel_raw(Platform::Unix, "ssh://me@there", "/tmp/s.sock");
    start.step(TunnelEvent::Cleared);
    start.step(TunnelEvent::Spawned(Ok(())));
    start
}

fn failed(kill: bool, error: &str) -> TunnelAction {
    TunnelAction::Fail { kill, remove: Some("/tmp/s.sock".to_string()), error: error.to_string() }
}

#[test]
fn the_arguments_of_ssh() {
    let options = [
        "-N",
        "-o",
        "StrictHostKeyChecking=accept-new",
        "-o",
        "ConnectTimeout=10",
        "-o",
        "ServerAliveInterval=30",
        "-o",
        "ServerAliveCountMax=3",
        "-o",
        "ExitOnForwardFailure=yes",
        "-L",
        "/tmp/s.sock:/var/run/docker.sock",
    ];
    let cases: [(&str, &[&str]); 7] = [
        ("ssh://me@there", &["me@there"]),
        ("ssh://me@there:2222", &["-p", "2222", "me@there"]),
        ("ssh://there", &["there"]),
        ("ssh://there:22", &["-p", "22", "there"]),
        ("ssh://ssh://me@there", &["me@there"]),
        ("me:pw@a@b:c:1", &["-p", "1", "me:pw@a@b:c"]),
        ("me:pw@there", &["me:pw@there"]),
    ];
    for (url, destination) in cases {
        let args = ssh_args(url, "/tmp/s.sock");
        assert_eq!(args[..13], options);
        assert_eq!(args[13..], *destination, "{}", url);
    }
}

#[test]
fn the_exit_of_ssh_is_explained() {
    let denied = " Permission denied (password).\n";
    assert_eq!(
        exit_error("exit status: 255", denied),
        "SSH authentication failed. Check your SSH key configuration.\n\nDetails: Permission denied (password)."
    );
    assert_eq!(
        exit_error("exit status: 255", "no publickey, Connection refused"),
        "SSH authentication failed. Check your SSH key configuration.\n\nDetails: no publickey, Connection refused"
    );
    for reason in ["Connection refused", "Connection timed out"] {
        assert_eq!(
            exit_error("exit status: 255", &format!("{}\r\n", reason)),
            format!("Cannot reach remote host. Check hostname/IP and SSH port.\n\nDetails: {}", reason)
        );
    }
    assert_eq!(
        exit_error("exit status: 1", "odd\n"),
        "SSH tunnel exited (code exit status: 1): odd"
    );
    assert_eq!(
        exit_error("exit status: 1", " \n\t"),
        "SSH tunnel exited with code exit status: 1. Check SSH connectivity."
    );
}

#[test]
fn a_tunnel_comes_up() {
    let (mut start, first) = start_ssh_tunnel_raw(Platform::Unix, "ssh://me@there", "/tmp/s.sock");
    assert_eq!(first, TunnelAction::Clear("/tmp/s.sock".to_string()));
    assert_eq!(
        start.step(TunnelEvent::Cleared),
        TunnelAction::Spawn(ssh_args("ssh://me@there", "/tmp/s.sock"))
    );
    let probe = TunnelAction::Probe(ReadyProbe::FileExists("/tmp/s.sock".to_string()));
    assert_eq!(start.step(TunnelEvent::Spawned(Ok(()))), probe);
    assert_eq!(start.step(TunnelEvent::Probed(false)), TunnelAction::Inspect);
    assert_eq!(start.step(TunnelEvent::Inspected(ChildStatus::Running)), TunnelAction::ReadClock);
    assert_eq!(start.step(TunnelEvent::Elapsed(TUNNEL_TIMEOUT)), TunnelAction::Sleep(200));
    assert_eq!(start.step(TunnelEvent::Slept), probe);
    assert_eq!(start.step(TunnelEvent::Probed(true)), TunnelAction::Sleep(500));
    assert_eq!(start.step(TunnelEvent::Slept), TunnelAction::Succeed("/tmp/s.sock".to_string()));
    assert_eq!(start.phase, TunnelPhase::Ended);
}

#[test]
fn a_tunnel_cannot_be_spawned() {
    let (mut start, _) = start_ssh_tunnel_raw(Platform::Unix, "ssh://me@there", "/tmp/s.sock");
    start.step(TunnelEvent::Cleared);
    assert_eq!(
        start.step(TunnelEvent::Spawned(Err("no ssh".to_string()))),
        TunnelAction::Fail {
            kill: false,
            remove: None,
            error: "Failed to start SSH tunnel: no ssh".to_string()
        }
    );
}

#[test]
fn a_tunnel_times_out() {
    let mut start = waiting();
    start.step(TunnelEvent::Probed(false));
    start.step(TunnelEvent::Inspected(ChildStatus::Running));
    assert_eq!(
        start.step(TunnelEvent::Elapsed(15_000_000_001)),
        failed(true, "SSH tunnel timed out.")
    );
}

#[test]
fn a_tunnel_exits() {
    let mut start = waiting();
    start.step(TunnelEvent::Probed(false));
    let exited = ChildStatus::Exited { status: "exit status: 1".to_string(), stderr: String::new() };
    assert_eq!(
        start.step(TunnelEvent::Inspected(exited)),
        failed(false, "SSH tunnel exited with code exit status: 1. Check SSH connectivity.")
    );
    assert_eq!(start.step(TunnelEvent::Slept), TunnelAction::Ignore);
}

#[test]
fn a_tunnel_cannot_be_watched() {
    let mut start = waiting();
    start.step(TunnelEvent::Probed(false));
    assert_eq!(
        start.step(TunnelEvent::Inspected(ChildStatus::Unknown("lost".to_string()))),
        failed(false, "Failed to check SSH tunnel status: lost")
    );
}

#[test]
fn the_system_decides_what_a_tunnel_is() {
    assert_eq!(is_tunnel_ready(Platform::Unix, "/s"), ReadyProbe::FileExists("/s".to_string()));
    assert_eq!(
        is_tunnel_ready(Platform::Windows, "127.0.0.1:1"),
        ReadyProbe::TcpConnects("127.0.0.1:1".to_string())
    );
    assert_eq!(cleanup_addr(Platform::Unix, "/s"), Some("/s".to_string()));
    assert_eq!(cleanup_addr(Platform::Windows, "127.0.0.1:1"), None);
}

#[test]
fn a_tunnel_is_kept_and_stopped() {
    let mut tunnel: Option<SshTunnel<u32>> = None;
    assert!(stop_ssh_tunnel(&mut tunnel, Platform::Unix).is_none());
    keep_ssh_tunnel(&mut tunnel, 7, "/s");
    assert_eq!(tunnel.as_ref().unwrap().local_addr, "/s");
    let shutdown = stop_ssh_tunnel(&mut tunnel, Platform::Unix).unwrap();
    assert_eq!(shutdown.child, 7);
    assert_eq!(shutdown.remove, Some("/s".to_string()));
    assert!(tunnel.is_none());
}

#[test]
fn a_leftover_file_is_removed_before_all_else() {
    let (mut start, _) = start_ssh_tunnel_raw(Platform::Unix, "ssh://me@there", "/tmp/s.sock");
    assert_eq!(start.step(TunnelEvent::Spawned(Ok(()))), TunnelAction::Ignore);
    assert_eq!(start.step(TunnelEvent::Probed(true)), TunnelAction::Ignore);
    assert_eq!(start.phase, TunnelPhase::Clearing);

    let (start, first) = start_ssh_tunnel_raw(Platform::Windows, "ssh://me@there", "127.0.0.1:1");
    assert_eq!(first, TunnelAction::Spawn(ssh_args("ssh://me@there", "127.0.0.1:1")));
    assert_eq!(start.phase, TunnelPhase::Spawning);
}
