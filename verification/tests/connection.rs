use docker_native_manager::connection::{
    build_local_addr, connect_via_addr, connect_with_fallback, get_docker, route, written_host,
    DockerAction, DockerEvent, DockerPhase, GetDocker, Inspection, LocalAddr, Route, Target,
    TunnelFound,
};
use docker_native_manager::paths::Platform;
use docker_native_manager::ssh::ChildStatus;

fn begun(platform: Platform) -> GetDocker {
    get_docker(platform, false).0
}

fn wrote(host: &str) -> DockerEvent {
    DockerEvent::Inspected(Inspection::Succeeded(host.as_bytes().to_vec()))
}

fn tunnel(child: ChildStatus, up: bool) -> DockerEvent {
    DockerEvent::Examined(TunnelFound::Present { addr: "/s".to_string(), child, up })
}

#[test]
fn routes() {
    let cases = [
        ("", Route::Fallback),
        ("unix:///var/run/docker.sock", Route::Fallback),
        ("/var/run/docker.sock", Route::Fallback),
        ("ssh://me@there:22", Route::Tunnel("ssh://me@there:22".to_string())),
        ("tcp://there:2375", Route::Http("there:2375".to_string())),
        ("tcp://tcp://there", Route::Http("there".to_string())),
        ("npipe:////./pipe/docker_engine", Route::Fallback),
        ("http://there", Route::Fallback),
        ("SSH://there", Route::Fallback),
    ];
    for (host, expected) in cases {
        assert_eq!(route(Platform::Unix, host), expected);
    }
    assert_eq!(
        route(Platform::Windows, "npipe:////./pipe/docker_engine"),
        Route::NamedPipe("npipe:////./pipe/docker_engine".to_string())
    );
}

#[test]
fn the_host_is_what_docker_wrote() {
    assert_eq!(written_host(b" tcp://h\xc3\xb6st \r\n"), "tcp://h\u{f6}st");
    assert_eq!(written_host(b"a\xffb\n"), "a\u{fffd}b");
    assert_eq!(written_host(b""), "");
}

#[test]
fn docker_stopped_on_purpose() {
    let (way, action) = get_docker(Platform::Unix, true);
    assert_eq!(action, DockerAction::Refuse("Docker is intentionally stopped".to_string()));
    assert!(matches!(way.phase, DockerPhase::Ended));
}

#[test]
fn docker_is_asked_first() {
    let (_, action) = get_docker(Platform::Unix, false);
    let args = ["context", "inspect", "--format", "{{.Endpoints.docker.Host}}"];
    assert_eq!(action, DockerAction::Inspect(args.iter().map(|a| a.to_string()).collect()));
}

#[test]
fn the_local_daemon() {
    for event in [wrote("unix:///s\n"), wrote(""), DockerEvent::Inspected(Inspection::Failed)] {
        let mut way = begun(Platform::Unix);
        assert_eq!(way.step(event), DockerAction::StopTunnel);
        assert_eq!(
            way.step(DockerEvent::TunnelStopped),
            DockerAction::Connect(Target::LocalDefaults)
        );
    }
}

#[test]
fn the_local_daemon_on_windows() {
    for (wsl, target) in [
        (Some("127.0.0.1:9".to_string()), Target::Http("127.0.0.1:9".to_string())),
        (None, Target::LocalDefaults),
    ] {
        let mut way = begun(Platform::Windows);
        way.step(wrote(""));
        assert_eq!(way.step(DockerEvent::TunnelStopped), DockerAction::TryWsl);
        assert_eq!(way.step(DockerEvent::WslTried(wsl)), DockerAction::Connect(target));
    }
}

#[test]
fn the_files_are_asked_where_there_is_no_program() {
    for (endpoint, target) in [
        (Some("tcp://there:1".to_string()), Target::Http("there:1".to_string())),
        (None, Target::LocalDefaults),
    ] {
        let mut way = begun(Platform::Unix);
        assert_eq!(
            way.step(DockerEvent::Inspected(Inspection::NotFound)),
            DockerAction::LookUp
        );
        assert_eq!(way.step(DockerEvent::LookedUp(endpoint)), DockerAction::StopTunnel);
        assert_eq!(way.step(DockerEvent::TunnelStopped), DockerAction::Connect(target));
    }
}

#[test]
fn a_named_pipe() {
    let mut way = begun(Platform::Windows);
    assert_eq!(way.step(wrote("npipe:////./pipe/d")), DockerAction::StopTunnel);
    assert_eq!(
        way.step(DockerEvent::TunnelStopped),
        DockerAction::Connect(Target::NamedPipe("npipe:////./pipe/d".to_string()))
    );
}

#[test]
fn a_usable_tunnel_is_used() {
    let mut way = begun(Platform::Unix);
    assert_eq!(way.step(wrote("ssh://me@there")), DockerAction::ExamineTunnel);
    assert_eq!(
        way.step(tunnel(ChildStatus::Running, true)),
        DockerAction::Connect(Target::Socket("/s".to_string()))
    );
}

#[test]
fn an_unusable_tunnel_is_replaced() {
    let exited = ChildStatus::Exited { status: "0".to_string(), stderr: String::new() };
    for found in [
        DockerEvent::Examined(TunnelFound::Absent),
        tunnel(ChildStatus::Running, false),
        tunnel(exited, true),
        tunnel(ChildStatus::Unknown("?".to_string()), true),
    ] {
        let mut way = begun(Platform::Unix);
        way.step(wrote("ssh://me@there"));
        assert_eq!(way.step(found), DockerAction::StopTunnel);
        assert_eq!(
            way.step(DockerEvent::TunnelStopped),
            DockerAction::StartTunnel("ssh://me@there".to_string())
        );
        assert_eq!(
            way.step(DockerEvent::TunnelStarted(Ok("/new".to_string()))),
            DockerAction::KeepTunnel("/new".to_string())
        );
        assert_eq!(
            way.step(DockerEvent::TunnelKept),
            DockerAction::Connect(Target::Socket("/new".to_string()))
        );
    }
}

#[test]
fn a_tunnel_that_does_not_start_is_reported() {
    let mut way = begun(Platform::Unix);
    way.step(wrote("ssh://me@there"));
    way.step(DockerEvent::Examined(TunnelFound::Absent));
    way.step(DockerEvent::TunnelStopped);
    assert_eq!(way.step(DockerEvent::TunnelStopped), DockerAction::Ignore);
    assert_eq!(
        way.step(DockerEvent::TunnelStarted(Err("SSH tunnel timed out.".to_string()))),
        DockerAction::Refuse("SSH tunnel timed out.".to_string())
    );
    assert_eq!(way.step(DockerEvent::TunnelKept), DockerAction::Ignore);
}

#[test]
fn targets() {
    assert_eq!(connect_via_addr(Platform::Unix, "/s"), Target::Socket("/s".to_string()));
    assert_eq!(connect_via_addr(Platform::Windows, "h:1"), Target::Http("h:1".to_string()));
    assert_eq!(connect_with_fallback(Some("h:1".to_string())), Target::Http("h:1".to_string()));
    assert_eq!(connect_with_fallback(None), Target::LocalDefaults);
}

#[test]
fn the_local_end_of_a_tunnel() {
    match build_local_addr(Platform::Unix, "/tmp", 4711, 1_700_000_012_345, None) {
        LocalAddr::Socket(path) => {
            assert_eq!(path.parts, ["/tmp", "docker-nm-ssh-4711-12345.sock"]);
        }
        other => panic!("{:?}", other),
    }
    for (port, expected) in [(Some(80), "127.0.0.1:80"), (None, "127.0.0.1:23456")] {
        match build_local_addr(Platform::Windows, "C:\\tmp", 1, 2, port) {
            LocalAddr::Tcp(addr) => assert_eq!(addr, expected),
            other => panic!("{:?}", other),
        }
    }
}
