//! The connection to the Docker daemon of the current context.

use vstd::prelude::*;

use crate::paths::{DockerPath, Platform};
use crate::ssh::ChildStatus;
use crate::text::{
    decimal, decimal_of, from_utf8_lossy, joined, law_without_leading_keeps, lossy_text, push_text,
    starts_with, text_in, texts, trim, trim_start_matches, trimmed, without_leading,
};
use crate::wsl::{loopback_addr, loopback_addr_of};

verus! {

/// How long a request to the daemon may take, in seconds.
pub const REQUEST_TIMEOUT: u64 = 120;

/// The port of a tunnel where no free port was found.
pub const DEFAULT_PORT: u16 = 23456;

/// The local end of a tunnel.
#[derive(Debug)]
pub enum LocalAddr {
    /// A socket file at this path.
    Socket(DockerPath),
    /// A TCP address.
    Tcp(String),
}

/// How a host is reached.
#[derive(Debug, PartialEq, Eq)]
pub enum Route {
    /// As the daemon on this machine.
    Fallback,
    /// Through an SSH tunnel to this URL.
    Tunnel(String),
    /// Through this named pipe.
    NamedPipe(String),
    /// By HTTP at this address.
    Http(String),
}

/// What a client is made for.
#[derive(Debug, PartialEq, Eq)]
pub enum Target {
    /// The daemon on this machine, where it is by default.
    LocalDefaults,
    /// The socket file at this path.
    Socket(String),
    /// HTTP at this address.
    Http(String),
    /// This named pipe.
    NamedPipe(String),
}

/// What came of asking the `docker` program for the host of the current context.
#[derive(Debug)]
pub enum Inspection {
    /// It succeeded and wrote this.
    Succeeded(Vec<u8>),
    /// There is no such program.
    NotFound,
    /// It failed, or could not be run.
    Failed,
}

/// What was found of the tunnel that was started before.
#[derive(Debug)]
pub enum TunnelFound {
    /// There is none.
    Absent,
    /// There is one at this address, whose process does so, and which is up or not.
    Present { addr: String, child: ChildStatus, up: bool },
}

/// Where the way to a connection stands: what it waits to hear of.
#[derive(Debug)]
pub enum DockerPhase {
    Inspecting,
    LookingUp,
    Stopping(Route),
    Examining(String),
    Dropping(String),
    Starting,
    Keeping(String),
    TryingWsl,
    Ended,
}

/// What the way to a connection hears.
#[derive(Debug)]
pub enum DockerEvent {
    /// What came of asking the `docker` program.
    Inspected(Inspection),
    /// The host that the files of the current context record, if any.
    LookedUp(Option<String>),
    /// The tunnel, if there was one, is stopped.
    TunnelStopped,
    /// What was found of the tunnel.
    Examined(TunnelFound),
    /// The tunnel was started at this address, or could not be, for this reason.
    TunnelStarted(Result<String, String>),
    /// The tunnel is kept.
    TunnelKept,
    /// The address at which the daemon inside WSL is reached, if it is.
    WslTried(Option<String>),
}

/// What the way to a connection asks for.
#[derive(Debug, PartialEq, Eq)]
pub enum DockerAction {
    /// Run the `docker` program with these arguments.
    Inspect(Vec<String>),
    /// See which host the files of the current context record.
    LookUp,
    /// Stop the tunnel, if there is one.
    StopTunnel,
    /// See what there is of a tunnel.
    ExamineTunnel,
    /// Start a tunnel to this URL.
    StartTunnel(String),
    /// Keep the tunnel that was started, under this address.
    KeepTunnel(String),
    /// See whether the daemon inside WSL can be reached.
    TryWsl,
    /// Nothing more than to make the client.
    Connect(Target),
    /// Nothing more than to report this error.
    Refuse(String),
    /// Nothing: what was heard is not what was asked.
    Ignore,
}

/// The way to a connection.
#[derive(Debug)]
pub struct GetDocker {
    pub platform: Platform,
    pub phase: DockerPhase,
}

// ---- models ----

/// What a `LocalAddr` is.
pub ghost enum LocalEnd {
    Socket(Seq<Seq<char>>),
    Tcp(Seq<char>),
}

impl View for LocalAddr {
    type V = LocalEnd;

    open spec fn view(&self) -> LocalEnd {
        match *self {
            LocalAddr::Socket(path) => LocalEnd::Socket(path@),
            LocalAddr::Tcp(addr) => LocalEnd::Tcp(addr@),
        }
    }
}

/// What a `Route` is.
pub ghost enum Way {
    Fallback,
    Tunnel(Seq<char>),
    NamedPipe(Seq<char>),
    Http(Seq<char>),
}

impl View for Route {
    type V = Way;

    open spec fn view(&self) -> Way {
        match *self {
            Route::Fallback => Way::Fallback,
            Route::Tunnel(url) => Way::Tunnel(url@),
            Route::NamedPipe(path) => Way::NamedPipe(path@),
            Route::Http(addr) => Way::Http(addr@),
        }
    }
}

/// What a `Target` is.
pub ghost enum Goal {
    LocalDefaults,
    Socket(Seq<char>),
    Http(Seq<char>),
    NamedPipe(Seq<char>),
}

impl View for Target {
    type V = Goal;

    open spec fn view(&self) -> Goal {
        match *self {
            Target::LocalDefaults => Goal::LocalDefaults,
            Target::Socket(path) => Goal::Socket(path@),
            Target::Http(addr) => Goal::Http(addr@),
            Target::NamedPipe(path) => Goal::NamedPipe(path@),
        }
    }
}

/// What a `DockerPhase` is.
pub ghost enum DockerStage {
    Inspecting,
    LookingUp,
    Stopping(Way),
    Examining(Seq<char>),
    Dropping(Seq<char>),
    Starting,
    Keeping(Seq<char>),
    TryingWsl,
    Ended,
}

impl View for DockerPhase {
    type V = DockerStage;

    open spec fn view(&self) -> DockerStage {
        match *self {
            DockerPhase::Inspecting => DockerStage::Inspecting,
            DockerPhase::LookingUp => DockerStage::LookingUp,
            DockerPhase::Stopping(route) => DockerStage::Stopping(route@),
            DockerPhase::Examining(url) => DockerStage::Examining(url@),
            DockerPhase::Dropping(url) => DockerStage::Dropping(url@),
            DockerPhase::Starting => DockerStage::Starting,
            DockerPhase::Keeping(addr) => DockerStage::Keeping(addr@),
            DockerPhase::TryingWsl => DockerStage::TryingWsl,
            DockerPhase::Ended => DockerStage::Ended,
        }
    }
}

/// What a `DockerAction` asks.
pub ghost enum DockerAsk {
    Inspect(Seq<Seq<char>>),
    LookUp,
    StopTunnel,
    ExamineTunnel,
    StartTunnel(Seq<char>),
    KeepTunnel(Seq<char>),
    TryWsl,
    Connect(Goal),
    Refuse(Seq<char>),
    Ignore,
}

impl View for DockerAction {
    type V = DockerAsk;

    open spec fn view(&self) -> DockerAsk {
        match *self {
            DockerAction::Inspect(args) => DockerAsk::Inspect(texts(args@)),
            DockerAction::LookUp => DockerAsk::LookUp,
            DockerAction::StopTunnel => DockerAsk::StopTunnel,
            DockerAction::ExamineTunnel => DockerAsk::ExamineTunnel,
            DockerAction::StartTunnel(url) => DockerAsk::StartTunnel(url@),
            DockerAction::KeepTunnel(addr) => DockerAsk::KeepTunnel(addr@),
            DockerAction::TryWsl => DockerAsk::TryWsl,
            DockerAction::Connect(target) => DockerAsk::Connect(target@),
            DockerAction::Refuse(error) => DockerAsk::Refuse(error@),
            DockerAction::Ignore => DockerAsk::Ignore,
        }
    }
}

/// The name of the socket file of a tunnel that the process `pid` makes so many milliseconds after
/// the epoch.
pub open spec fn socket_name_of(pid: u32, millis: u128) -> Seq<char> {
    "docker-nm-ssh-"@ + decimal_of(pid as nat) + "-"@ + decimal_of(millis as nat % 100000)
        + ".sock"@
}

/// The local end of a new tunnel.
pub open spec fn local_end_of(
    platform: Platform,
    temp_dir: Seq<char>,
    pid: u32,
    millis: u128,
    port: Option<u16>,
) -> LocalEnd {
    match platform {
        Platform::Unix => LocalEnd::Socket(seq![temp_dir, socket_name_of(pid, millis)]),
        Platform::Windows => LocalEnd::Tcp(
            loopback_addr_of(
                match port {
                    Some(p) => p,
                    None => DEFAULT_PORT,
                },
            ),
        ),
    }
}

/// How the host `host` is reached.
pub open spec fn route_of(platform: Platform, host: Seq<char>) -> Way {
    if "unix://"@.is_prefix_of(host) || "/"@.is_prefix_of(host) {
        Way::Fallback
    } else if "ssh://"@.is_prefix_of(host) {
        Way::Tunnel(host)
    } else if "npipe://"@.is_prefix_of(host) && platform == Platform::Windows {
        Way::NamedPipe(host)
    } else if "tcp://"@.is_prefix_of(host) {
        Way::Http(without_leading(host, "tcp://"@))
    } else {
        Way::Fallback
    }
}

/// What a client for a tunnel at `addr` is made for.
pub open spec fn goal_at(platform: Platform, addr: Seq<char>) -> Goal {
    match platform {
        Platform::Unix => Goal::Socket(addr),
        Platform::Windows => Goal::Http(addr),
    }
}

/// What a client for the daemon on this machine is made for, given the address at which the daemon
/// inside WSL is reached, if it is.
pub open spec fn fallback_goal(wsl: Option<Seq<char>>) -> Goal {
    match wsl {
        Some(addr) => Goal::Http(addr),
        None => Goal::LocalDefaults,
    }
}

/// The arguments that ask the `docker` program for the host of the current context.
pub open spec fn inspect_args_of() -> Seq<Seq<char>> {
    seq!["context"@, "inspect"@, "--format"@, "{{.Endpoints.docker.Host}}"@]
}

/// Whether a tunnel can be used as it is.
pub open spec fn tunnel_usable(found: TunnelFound) -> bool {
    found matches TunnelFound::Present { child, up, .. } && child is Running && up
}

/// Where the way to a connection stands once it knows the host, and what it then asks.
pub open spec fn docker_routed(platform: Platform, host: Seq<char>) -> (DockerStage, DockerAsk) {
    match route_of(platform, host) {
        Way::Tunnel(url) => (DockerStage::Examining(url), DockerAsk::ExamineTunnel),
        way => (DockerStage::Stopping(way), DockerAsk::StopTunnel),
    }
}

/// The way to a connection with its end reached.
pub open spec fn docker_connected(goal: Goal) -> (DockerStage, DockerAsk) {
    (DockerStage::Ended, DockerAsk::Connect(goal))
}

/// Where the way to a connection begins, and what it asks first.
pub open spec fn docker_begin(stopped: bool) -> (DockerStage, DockerAsk) {
    if stopped {
        (DockerStage::Ended, DockerAsk::Refuse("Docker is intentionally stopped"@))
    } else {
        (DockerStage::Inspecting, DockerAsk::Inspect(inspect_args_of()))
    }
}

/// Where the way to a connection stands once it has heard an event, and what it then asks.
pub open spec fn docker_step(platform: Platform, stage: DockerStage, event: DockerEvent) -> (
    DockerStage,
    DockerAsk,
) {
    match (stage, event) {
        (DockerStage::Inspecting, DockerEvent::Inspected(inspection)) => match inspection {
            Inspection::Succeeded(stdout) => docker_routed(
                platform,
                trimmed(lossy_text(stdout@)),
            ),
            Inspection::NotFound => (DockerStage::LookingUp, DockerAsk::LookUp),
            Inspection::Failed => docker_routed(platform, Seq::empty()),
        },
        (DockerStage::LookingUp, DockerEvent::LookedUp(endpoint)) => docker_routed(
            platform,
            match endpoint {
                Some(host) => host@,
                None => Seq::empty(),
            },
        ),
        (DockerStage::Stopping(way), DockerEvent::TunnelStopped) => match way {
            Way::NamedPipe(path) => docker_connected(Goal::NamedPipe(path)),
            Way::Http(addr) => docker_connected(Goal::Http(addr)),
            _ => match platform {
                Platform::Windows => (DockerStage::TryingWsl, DockerAsk::TryWsl),
                Platform::Unix => docker_connected(fallback_goal(None)),
            },
        },
        (DockerStage::Examining(url), DockerEvent::Examined(found)) => match found {
            TunnelFound::Present { addr, .. } => if tunnel_usable(found) {
                docker_connected(goal_at(platform, addr@))
            } else {
                (DockerStage::Dropping(url), DockerAsk::StopTunnel)
            },
            TunnelFound::Absent => (DockerStage::Dropping(url), DockerAsk::StopTunnel),
        },
        (DockerStage::Dropping(url), DockerEvent::TunnelStopped) => (
            DockerStage::Starting,
            DockerAsk::StartTunnel(url),
        ),
        (DockerStage::Starting, DockerEvent::TunnelStarted(started)) => match started {
            Ok(addr) => (DockerStage::Keeping(addr@), DockerAsk::KeepTunnel(addr@)),
            Err(error) => (DockerStage::Ended, DockerAsk::Refuse(error@)),
        },
        (DockerStage::Keeping(addr), DockerEvent::TunnelKept) => docker_connected(
            goal_at(platform, addr),
        ),
        (DockerStage::TryingWsl, DockerEvent::WslTried(wsl)) => docker_connected(
            fallback_goal(text_in(wsl)),
        ),
        _ => (stage, DockerAsk::Ignore),
    }
}

// ---- functions ----

/// The local end of a new tunnel, given the directory for temporary files, the id of this process,
/// the time since the epoch in milliseconds, and a free port, if one was found.
///
/// A file that is found there is removed by the start of the tunnel, before anything else.
pub fn build_local_addr(
    platform: Platform,
    temp_dir: &str,
    pid: u32,
    millis: u128,
    port: Option<u16>,
) -> (addr: LocalAddr)
    ensures
        addr@ == local_end_of(platform, temp_dir@, pid, millis, port),
{
    match platform {
        Platform::Unix => {
            let mut name = joined("docker-nm-ssh-", decimal(pid).as_str());
            name.append("-");
            name.append(decimal((millis % 100000) as u32).as_str());
            name.append(".sock");
            let mut parts: Vec<String> = Vec::new();
            push_text(&mut parts, temp_dir);
            push_text(&mut parts, name.as_str());
            let path = DockerPath { parts };
            assert(path@ =~= seq![temp_dir@, socket_name_of(pid, millis)]);
            LocalAddr::Socket(path)
        },
        Platform::Windows => LocalAddr::Tcp(loopback_addr(port.unwrap_or(DEFAULT_PORT))),
    }
}

/// How the host `host` is reached.
pub fn route(platform: Platform, host: &str) -> (route: Route)
    ensures
        route@ == route_of(platform, host@),
{
    if starts_with(host, "unix://") || starts_with(host, "/") {
        Route::Fallback
    } else if starts_with(host, "ssh://") {
        Route::Tunnel(host.to_owned())
    } else if starts_with(host, "npipe://") && platform == Platform::Windows {
        Route::NamedPipe(host.to_owned())
    } else if starts_with(host, "tcp://") {
        Route::Http(trim_start_matches(host, "tcp://").to_owned())
    } else {
        Route::Fallback
    }
}

/// What a client for a tunnel at `addr` is made for.
pub fn connect_via_addr(platform: Platform, addr: &str) -> (target: Target)
    ensures
        target@ == goal_at(platform, addr@),
{
    match platform {
        Platform::Unix => Target::Socket(addr.to_owned()),
        Platform::Windows => Target::Http(addr.to_owned()),
    }
}

/// What a client for the daemon on this machine is made for, given the address at which the daemon
/// inside WSL is reached, if it is.
pub fn connect_with_fallback(wsl: Option<String>) -> (target: Target)
    ensures
        target@ == fallback_goal(text_in(wsl)),
{
    match wsl {
        Some(addr) => Target::Http(addr),
        None => Target::LocalDefaults,
    }
}

/// The host that the `docker` program wrote.
pub fn written_host(stdout: &[u8]) -> (host: String)
    ensures
        host@ == trimmed(lossy_text(stdout@)),
        vstd::utf8::valid_utf8(stdout@) ==> host@ == trimmed(vstd::utf8::decode_utf8(stdout@)),
{
    let text = from_utf8_lossy(stdout);
    trim(text.as_str()).to_owned()
}

/// Begins the way to a connection, given whether Docker was stopped on purpose.
pub fn get_docker(platform: Platform, stopped: bool) -> (begun: (GetDocker, DockerAction))
    ensures
        begun.0.platform == platform,
        (begun.0.phase@, begun.1@) == docker_begin(stopped),
{
    if stopped {
        return (
            GetDocker { platform, phase: DockerPhase::Ended },
            DockerAction::Refuse("Docker is intentionally stopped".to_owned()),
        );
    }
    let mut args: Vec<String> = Vec::new();
    push_text(&mut args, "context");
    push_text(&mut args, "inspect");
    push_text(&mut args, "--format");
    push_text(&mut args, "{{.Endpoints.docker.Host}}");
    assert(texts(args@) =~= inspect_args_of());
    (GetDocker { platform, phase: DockerPhase::Inspecting }, DockerAction::Inspect(args))
}

impl GetDocker {
    /// Goes on with the host known.
    fn routed(&mut self, host: &str) -> (action: DockerAction)
        ensures
            final(self).platform == old(self).platform,
            (final(self).phase@, action@) == docker_routed(old(self).platform, host@),
    {
        match route(self.platform, host) {
            Route::Tunnel(url) => {
                self.phase = DockerPhase::Examining(url);
                DockerAction::ExamineTunnel
            },
            other => {
                self.phase = DockerPhase::Stopping(other);
                DockerAction::StopTunnel
            },
        }
    }

    /// Hears an event and asks for what comes next.
    pub fn step(&mut self, event: DockerEvent) -> (action: DockerAction)
        ensures
            final(self).platform == old(self).platform,
            (final(self).phase@, action@) == docker_step(
                old(self).platform,
                old(self).phase@,
                event,
            ),
            event matches DockerEvent::Inspected(Inspection::Succeeded(stdout)) ==> (old(
                self,
            ).phase@ is Inspecting && vstd::utf8::valid_utf8(stdout@) ==> trimmed(
                lossy_text(stdout@),
            ) == trimmed(vstd::utf8::decode_utf8(stdout@)) && (final(self).phase@, action@)
                == docker_routed(
                old(self).platform,
                trimmed(vstd::utf8::decode_utf8(stdout@)),
            )),
            old(self).phase matches DockerPhase::Examining(url) ==> (event matches
                DockerEvent::Examined(TunnelFound::Present { addr, child, up }) ==> if child
                is Running && up {
                match old(self).platform {
                    Platform::Unix => action matches DockerAction::Connect(Target::Socket(at)) && at@
                        == addr@,
                    Platform::Windows => action matches DockerAction::Connect(Target::Http(at))
                        && at@ == addr@,
                }
            } else {
                action is StopTunnel && (final(self).phase matches DockerPhase::Dropping(to) && to@
                    == url@)
            }),
            old(self).phase matches DockerPhase::Examining(url) ==> (event matches
                DockerEvent::Examined(TunnelFound::Absent) ==> action is StopTunnel && (
            final(self).phase matches DockerPhase::Dropping(to) && to@ == url@)),
            old(self).phase matches DockerPhase::Dropping(url) ==> (event is TunnelStopped ==> (
            action matches DockerAction::StartTunnel(to) && to@ == url@)),
    {
        let mut phase = DockerPhase::Ended;
        std::mem::swap(&mut phase, &mut self.phase);
        match (phase, event) {
            (DockerPhase::Inspecting, DockerEvent::Inspected(inspection)) => match inspection {
                Inspection::Succeeded(stdout) => {
                    self.routed(written_host(stdout.as_slice()).as_str())
                },
                Inspection::NotFound => {
                    self.phase = DockerPhase::LookingUp;
                    DockerAction::LookUp
                },
                Inspection::Failed => self.routed(String::new().as_str()),
            },
            (DockerPhase::LookingUp, DockerEvent::LookedUp(endpoint)) => match endpoint {
                Some(host) => self.routed(host.as_str()),
                None => self.routed(String::new().as_str()),
            },
            (DockerPhase::Stopping(route), DockerEvent::TunnelStopped) => match route {
                Route::NamedPipe(path) => DockerAction::Connect(Target::NamedPipe(path)),
                Route::Http(addr) => DockerAction::Connect(Target::Http(addr)),
                _ => match self.platform {
                    Platform::Windows => {
                        self.phase = DockerPhase::TryingWsl;
                        DockerAction::TryWsl
                    },
                    Platform::Unix => DockerAction::Connect(connect_with_fallback(None)),
                },
            },
            (DockerPhase::Examining(url), DockerEvent::Examined(found)) => match found {
                TunnelFound::Present { addr, child: ChildStatus::Running, up: true } => {
                    DockerAction::Connect(connect_via_addr(self.platform, addr.as_str()))
                },
                _ => {
                    self.phase = DockerPhase::Dropping(url);
                    DockerAction::StopTunnel
                },
            },
            (DockerPhase::Dropping(url), DockerEvent::TunnelStopped) => {
                self.phase = DockerPhase::Starting;
                DockerAction::StartTunnel(url)
            },
            (DockerPhase::Starting, DockerEvent::TunnelStarted(started)) => match started {
                Ok(addr) => {
                    self.phase = DockerPhase::Keeping(addr.clone());
                    DockerAction::KeepTunnel(addr)
                },
                Err(error) => DockerAction::Refuse(error),
            },
            (DockerPhase::Keeping(addr), DockerEvent::TunnelKept) => DockerAction::Connect(
                connect_via_addr(self.platform, addr.as_str()),
            ),
            (DockerPhase::TryingWsl, DockerEvent::WslTried(wsl)) => DockerAction::Connect(
                connect_with_fallback(wsl),
            ),
            (other, _) => {
                self.phase = other;
                DockerAction::Ignore
            },
        }
    }
}

// ---- laws ----

/// A tunnel whose process is not running, or whose local end is not up, is stopped, and then one is
/// started to the same URL; the client is made for the address of the new one, and without a new one
/// the request is refused. A tunnel that runs and is up is used at its own address.
pub proof fn law_dead_tunnel_is_replaced(
    platform: Platform,
    url: Seq<char>,
    addr: String,
    child: ChildStatus,
    up: bool,
    new_addr: String,
    error: String,
)
    ensures
        ({
            let examined = docker_step(
                platform,
                DockerStage::Examining(url),
                DockerEvent::Examined(TunnelFound::Present { addr, child, up }),
            );
            let stopped = docker_step(platform, examined.0, DockerEvent::TunnelStopped);
            let started = docker_step(
                platform,
                stopped.0,
                DockerEvent::TunnelStarted(Ok(new_addr)),
            );
            let kept = docker_step(platform, started.0, DockerEvent::TunnelKept);
            let failed = docker_step(platform, stopped.0, DockerEvent::TunnelStarted(Err(error)));
            if child is Running && up {
                examined.0 is Ended && examined.1 == DockerAsk::Connect(
                    match platform {
                        Platform::Unix => Goal::Socket(addr@),
                        Platform::Windows => Goal::Http(addr@),
                    },
                )
            } else {
                &&& examined.1 is StopTunnel
                &&& stopped.1 == DockerAsk::StartTunnel(url)
                &&& started == (
                    DockerStage::Keeping(new_addr@),
                    DockerAsk::KeepTunnel(new_addr@),
                )
                &&& kept.0 is Ended
                &&& kept.1 == DockerAsk::Connect(
                    match platform {
                        Platform::Unix => Goal::Socket(new_addr@),
                        Platform::Windows => Goal::Http(new_addr@),
                    },
                )
                &&& failed.0 is Ended
                &&& failed.1 == DockerAsk::Refuse(error@)
            }
        }),
        docker_step(
            platform,
            DockerStage::Examining(url),
            DockerEvent::Examined(TunnelFound::Absent),
        ) == (DockerStage::Dropping(url), DockerAsk::StopTunnel),
        docker_step(platform, DockerStage::Dropping(url), DockerEvent::TunnelStopped) == (
            DockerStage::Starting,
            DockerAsk::StartTunnel(url),
        ),
{
}

/// The scheme of the host decides what is done: for SSH a tunnel is looked for; for anything else the
/// tunnel is stopped, and the client is then made for the named pipe, for the TCP address, or for the
/// daemon on this machine, which on Windows is first looked for inside WSL.
pub proof fn law_host_decides(platform: Platform, host: String)
    ensures
        ({
            let known = docker_step(
                platform,
                DockerStage::LookingUp,
                DockerEvent::LookedUp(Some(host)),
            );
            let after = docker_step(platform, known.0, DockerEvent::TunnelStopped);
            if "ssh://"@.is_prefix_of(host@) {
                known == (DockerStage::Examining(host@), DockerAsk::ExamineTunnel)
            } else {
                &&& known == (
                    DockerStage::Stopping(route_of(platform, host@)),
                    DockerAsk::StopTunnel,
                )
                &&& if "npipe://"@.is_prefix_of(host@) && platform is Windows {
                    after == (DockerStage::Ended, DockerAsk::Connect(Goal::NamedPipe(host@)))
                } else if "tcp://"@.is_prefix_of(host@) {
                    after == (
                        DockerStage::Ended,
                        DockerAsk::Connect(Goal::Http(without_leading(host@, "tcp://"@))),
                    )
                } else if platform is Windows {
                    after == (DockerStage::TryingWsl, DockerAsk::TryWsl)
                } else {
                    after == (DockerStage::Ended, DockerAsk::Connect(Goal::LocalDefaults))
                }
            }
        }),
{
    law_scheme_decides(platform, host@);
}

/// The address of a TCP host is all that stands behind its scheme.
pub proof fn law_tcp_address_is_the_rest(platform: Platform, addr: Seq<char>)
    requires
        !"tcp://"@.is_prefix_of(addr),
    ensures
        route_of(platform, "tcp://"@ + addr) == Way::Http(addr),
        docker_step(platform, DockerStage::Stopping(Way::Http(addr)), DockerEvent::TunnelStopped)
            == (DockerStage::Ended, DockerAsk::Connect(Goal::Http(addr))),
{
    let host = "tcp://"@ + addr;
    assert(host.subrange(0, "tcp://"@.len() as int) =~= "tcp://"@);
    reveal_strlit("tcp://");
    law_scheme_decides(platform, host);
    law_without_leading_keeps(addr, "tcp://"@);
}

/// A tunnel goes to the host as it is written, and so does a named pipe; the daemon on this machine is
/// taken where the host has no scheme that says otherwise, a path and a socket URL among them.
pub proof fn law_routes_keep_the_host(platform: Platform, host: Seq<char>)
    ensures
        "ssh://"@.is_prefix_of(host) ==> route_of(platform, host) == Way::Tunnel(host),
        "npipe://"@.is_prefix_of(host) ==> route_of(platform, host) == match platform {
            Platform::Windows => Way::NamedPipe(host),
            Platform::Unix => Way::Fallback,
        },
        "tcp://"@.is_prefix_of(host) ==> route_of(platform, host) == Way::Http(
            without_leading(host, "tcp://"@),
        ),
        !"ssh://"@.is_prefix_of(host) && !"npipe://"@.is_prefix_of(host) && !"tcp://"@.is_prefix_of(
            host,
        ) ==> route_of(platform, host) is Fallback,
        "unix://"@.is_prefix_of(host) || "/"@.is_prefix_of(host) ==> route_of(platform, host)
            is Fallback,
{
    law_scheme_decides(platform, host);
    reveal_strlit("ssh://");
    reveal_strlit("npipe://");
    reveal_strlit("tcp://");
    assert forall|p: Seq<char>| p.len() > 0 && #[trigger] p.is_prefix_of(host) implies host.len() > 0
        && host[0] == p[0] by {
        assert(host.subrange(0, p.len() as int)[0] == host[0]);
    }
}

/// What the `docker` program wrote counts as the host without the white space around it, just as a
/// host from the files of the context does; the files are asked only where there is no such program,
/// and without a host, as after a failure, the daemon on this machine is taken.
pub proof fn law_host_is_what_was_written(platform: Platform, stdout: Vec<u8>, host: String)
    ensures
        host@ == trimmed(lossy_text(stdout@)) ==> docker_step(
            platform,
            DockerStage::Inspecting,
            DockerEvent::Inspected(Inspection::Succeeded(stdout)),
        ) == docker_step(platform, DockerStage::LookingUp, DockerEvent::LookedUp(Some(host))),
        docker_step(
            platform,
            DockerStage::Inspecting,
            DockerEvent::Inspected(Inspection::Succeeded(stdout)),
        ) == if "ssh://"@.is_prefix_of(trimmed(lossy_text(stdout@))) {
            (
                DockerStage::Examining(trimmed(lossy_text(stdout@))),
                DockerAsk::ExamineTunnel,
            )
        } else {
            (
                DockerStage::Stopping(route_of(platform, trimmed(lossy_text(stdout@)))),
                DockerAsk::StopTunnel,
            )
        },
        docker_step(
            platform,
            DockerStage::Inspecting,
            DockerEvent::Inspected(Inspection::NotFound),
        ) == (DockerStage::LookingUp, DockerAsk::LookUp),
        docker_step(
            platform,
            DockerStage::Inspecting,
            DockerEvent::Inspected(Inspection::Failed),
        ) == (DockerStage::Stopping(Way::Fallback), DockerAsk::StopTunnel),
        docker_step(platform, DockerStage::LookingUp, DockerEvent::LookedUp(None)) == (
            DockerStage::Stopping(Way::Fallback),
            DockerAsk::StopTunnel,
        ),
        docker_step(platform, DockerStage::Stopping(Way::Fallback), DockerEvent::TunnelStopped).1
            == match platform {
            Platform::Windows => DockerAsk::TryWsl,
            Platform::Unix => DockerAsk::Connect(Goal::LocalDefaults),
        },
{
    law_scheme_decides(platform, Seq::empty());
    law_routes_keep_the_host(platform, trimmed(lossy_text(stdout@)));
    law_scheme_decides(platform, trimmed(lossy_text(stdout@)));
}

/// Once the tunnel is stopped, a named pipe and an address are connected to as they are; anything else
/// is the daemon on this machine, looked for inside WSL on Windows alone.
pub proof fn law_after_the_stop(platform: Platform, path: Seq<char>)
    ensures
        docker_step(
            platform,
            DockerStage::Stopping(Way::NamedPipe(path)),
            DockerEvent::TunnelStopped,
        ) == (DockerStage::Ended, DockerAsk::Connect(Goal::NamedPipe(path))),
        docker_step(platform, DockerStage::Stopping(Way::Http(path)), DockerEvent::TunnelStopped)
            == (DockerStage::Ended, DockerAsk::Connect(Goal::Http(path))),
        docker_step(
            Platform::Windows,
            DockerStage::Stopping(Way::Fallback),
            DockerEvent::TunnelStopped,
        ) == (DockerStage::TryingWsl, DockerAsk::TryWsl),
        docker_step(
            Platform::Unix,
            DockerStage::Stopping(Way::Fallback),
            DockerEvent::TunnelStopped,
        ) == (DockerStage::Ended, DockerAsk::Connect(Goal::LocalDefaults)),
{
}

/// What was found of WSL is used where it was found, and the daemon on this machine otherwise.
pub proof fn law_wsl_is_used_where_found(platform: Platform, addr: String)
    ensures
        docker_step(platform, DockerStage::TryingWsl, DockerEvent::WslTried(Some(addr))) == (
            DockerStage::Ended,
            DockerAsk::Connect(Goal::Http(addr@)),
        ),
        docker_step(platform, DockerStage::TryingWsl, DockerEvent::WslTried(None)) == (
            DockerStage::Ended,
            DockerAsk::Connect(Goal::LocalDefaults),
        ),
        fallback_goal(Some(addr@)) == Goal::Http(addr@),
        fallback_goal(None) is LocalDefaults,
        goal_at(Platform::Unix, addr@) == Goal::Socket(addr@),
        goal_at(Platform::Windows, addr@) == Goal::Http(addr@),
{
}

/// What answers no question changes nothing, and every answer to a question leads on.
pub proof fn law_unasked_is_ignored(platform: Platform, stage: DockerStage, event: DockerEvent)
    ensures
        ({
            let (next, ask) = docker_step(platform, stage, event);
            let answers = {
                ||| stage is Inspecting && event is Inspected
                ||| stage is LookingUp && event is LookedUp
                ||| stage is Stopping && event is TunnelStopped
                ||| stage is Examining && event is Examined
                ||| stage is Dropping && event is TunnelStopped
                ||| stage is Starting && event is TunnelStarted
                ||| stage is Keeping && event is TunnelKept
                ||| stage is TryingWsl && event is WslTried
            };
            &&& ask is Ignore <==> !answers
            &&& ask is Ignore ==> next == stage
            &&& !(ask is Inspect)
            &&& ask is Connect || ask is Refuse ==> next is Ended
        }),
{
}

/// The way begins with the question for the host of the current context, and with a refusal where
/// Docker was stopped on purpose.
pub proof fn law_beginning()
    ensures
        docker_begin(true) == (
            DockerStage::Ended,
            DockerAsk::Refuse("Docker is intentionally stopped"@),
        ),
        docker_begin(false) == (
            DockerStage::Inspecting,
            DockerAsk::Inspect(
                seq!["context"@, "inspect"@, "--format"@, "{{.Endpoints.docker.Host}}"@],
            ),
        ),
        REQUEST_TIMEOUT == 120,
{
}

/// The local end of a tunnel is a socket file in the directory for temporary files, named by the id of
/// the process and the last five digits of the time, or, on Windows, the port that was found free on
/// this machine, and a fixed one where none was.
pub proof fn law_local_end(temp_dir: Seq<char>, pid: u32, millis: u128, port: u16)
    ensures
        local_end_of(Platform::Unix, temp_dir, pid, millis, Some(port)) == LocalEnd::Socket(
            seq![
                temp_dir,
                "docker-nm-ssh-"@ + decimal_of(pid as nat) + "-"@ + decimal_of(
                    millis as nat % 100000,
                ) + ".sock"@,
            ],
        ),
        local_end_of(Platform::Unix, temp_dir, pid, millis, None) == local_end_of(
            Platform::Unix,
            temp_dir,
            pid,
            millis,
            Some(port),
        ),
        local_end_of(Platform::Windows, temp_dir, pid, millis, Some(port)) == LocalEnd::Tcp(
            "127.0.0.1:"@ + decimal_of(port as nat),
        ),
        local_end_of(Platform::Windows, temp_dir, pid, millis, None) == LocalEnd::Tcp(
            "127.0.0.1:"@ + decimal_of(23456),
        ),
{
}

/// What is modelled of an address, a route, a target, a phase and an action is what they hold.
pub proof fn law_models_hold_the_fields(
    path: DockerPath,
    text: String,
    route: Route,
    target: Target,
    args: Vec<String>,
)
    ensures
        LocalAddr::Socket(path)@ == LocalEnd::Socket(path@),
        LocalAddr::Tcp(text)@ == LocalEnd::Tcp(text@),
        Route::Fallback@ == Way::Fallback,
        Route::Tunnel(text)@ == Way::Tunnel(text@),
        Route::NamedPipe(text)@ == Way::NamedPipe(text@),
        Route::Http(text)@ == Way::Http(text@),
        Target::LocalDefaults@ == Goal::LocalDefaults,
        Target::Socket(text)@ == Goal::Socket(text@),
        Target::Http(text)@ == Goal::Http(text@),
        Target::NamedPipe(text)@ == Goal::NamedPipe(text@),
        DockerPhase::Inspecting@ == DockerStage::Inspecting,
        DockerPhase::LookingUp@ == DockerStage::LookingUp,
        DockerPhase::Stopping(route)@ == DockerStage::Stopping(route@),
        DockerPhase::Examining(text)@ == DockerStage::Examining(text@),
        DockerPhase::Dropping(text)@ == DockerStage::Dropping(text@),
        DockerPhase::Starting@ == DockerStage::Starting,
        DockerPhase::Keeping(text)@ == DockerStage::Keeping(text@),
        DockerPhase::TryingWsl@ == DockerStage::TryingWsl,
        DockerPhase::Ended@ == DockerStage::Ended,
        DockerAction::Inspect(args)@ == DockerAsk::Inspect(texts(args@)),
        DockerAction::LookUp@ == DockerAsk::LookUp,
        DockerAction::StopTunnel@ == DockerAsk::StopTunnel,
        DockerAction::ExamineTunnel@ == DockerAsk::ExamineTunnel,
        DockerAction::StartTunnel(text)@ == DockerAsk::StartTunnel(text@),
        DockerAction::KeepTunnel(text)@ == DockerAsk::KeepTunnel(text@),
        DockerAction::TryWsl@ == DockerAsk::TryWsl,
        DockerAction::Connect(target)@ == DockerAsk::Connect(target@),
        DockerAction::Refuse(text)@ == DockerAsk::Refuse(text@),
        DockerAction::Ignore@ == DockerAsk::Ignore,
{
}

/// What the outside answers on the way to a connection, whenever it is asked.
pub ghost struct DockerWorld {
    pub inspection: Inspection,
    pub endpoint: Option<String>,
    pub tunnel: TunnelFound,
    pub started: Result<String, String>,
    pub wsl: Option<String>,
}

/// The answer to what is asked.
pub open spec fn docker_answer(world: DockerWorld, ask: DockerAsk) -> DockerEvent {
    match ask {
        DockerAsk::Inspect(_) => DockerEvent::Inspected(world.inspection),
        DockerAsk::LookUp => DockerEvent::LookedUp(world.endpoint),
        DockerAsk::StopTunnel => DockerEvent::TunnelStopped,
        DockerAsk::ExamineTunnel => DockerEvent::Examined(world.tunnel),
        DockerAsk::StartTunnel(_) => DockerEvent::TunnelStarted(world.started),
        DockerAsk::TryWsl => DockerEvent::WslTried(world.wsl),
        _ => DockerEvent::TunnelKept,
    }
}

/// All that is asked from a point on the way, in order, over at most so many steps.
pub open spec fn docker_run(
    platform: Platform,
    world: DockerWorld,
    at: (DockerStage, DockerAsk),
    steps: nat,
) -> Seq<DockerAsk>
    decreases steps,
{
    if steps == 0 || at.0 is Ended {
        seq![at.1]
    } else {
        seq![at.1] + docker_run(
            platform,
            world,
            docker_step(platform, at.0, docker_answer(world, at.1)),
            (steps - 1) as nat,
        )
    }
}

/// The host of the current context.
pub open spec fn host_in(world: DockerWorld) -> Seq<char> {
    match world.inspection {
        Inspection::Succeeded(stdout) => trimmed(lossy_text(stdout@)),
        Inspection::NotFound => match world.endpoint {
            Some(host) => host@,
            None => Seq::empty(),
        },
        Inspection::Failed => Seq::empty(),
    }
}

/// All that is asked once the host is known.
pub open spec fn asks_for_host(platform: Platform, world: DockerWorld) -> Seq<DockerAsk> {
    match route_of(platform, host_in(world)) {
        Way::Tunnel(url) => if tunnel_usable(world.tunnel) {
            seq![
                DockerAsk::ExamineTunnel,
                DockerAsk::Connect(goal_at(platform, world.tunnel->addr@)),
            ]
        } else {
            seq![
                DockerAsk::ExamineTunnel,
                DockerAsk::StopTunnel,
                DockerAsk::StartTunnel(url),
            ] + match world.started {
                Ok(addr) => seq![
                    DockerAsk::KeepTunnel(addr@),
                    DockerAsk::Connect(goal_at(platform, addr@)),
                ],
                Err(error) => seq![DockerAsk::Refuse(error@)],
            }
        },
        Way::NamedPipe(path) => seq![
            DockerAsk::StopTunnel,
            DockerAsk::Connect(Goal::NamedPipe(path)),
        ],
        Way::Http(addr) => seq![DockerAsk::StopTunnel, DockerAsk::Connect(Goal::Http(addr))],
        Way::Fallback => match platform {
            Platform::Windows => seq![
                DockerAsk::StopTunnel,
                DockerAsk::TryWsl,
                DockerAsk::Connect(fallback_goal(text_in(world.wsl))),
            ],
            Platform::Unix => seq![
                DockerAsk::StopTunnel,
                DockerAsk::Connect(Goal::LocalDefaults),
            ],
        },
    }
}

/// All that is asked on the whole way.
pub open spec fn docker_asks(platform: Platform, stopped: bool, world: DockerWorld) -> Seq<
    DockerAsk,
> {
    if stopped {
        seq![DockerAsk::Refuse("Docker is intentionally stopped"@)]
    } else if world.inspection is NotFound {
        seq![DockerAsk::Inspect(inspect_args_of()), DockerAsk::LookUp] + asks_for_host(
            platform,
            world,
        )
    } else {
        seq![DockerAsk::Inspect(inspect_args_of())] + asks_for_host(platform, world)
    }
}

/// The way to a connection asks for exactly this, whatever the outside answers, and comes to its end
/// in at most seven steps.
pub proof fn law_the_whole_way(
    platform: Platform,
    stopped: bool,
    world: DockerWorld,
    steps: nat,
)
    requires
        steps >= 7,
    ensures
        docker_run(platform, world, docker_begin(stopped), steps) == docker_asks(
            platform,
            stopped,
            world,
        ),
{
    reveal_with_fuel(docker_run, 8);
    assert(docker_run(platform, world, docker_begin(stopped), steps) =~= docker_asks(
        platform,
        stopped,
        world,
    ));
}

/// Where Docker was stopped on purpose, nothing is asked: the request is refused.
pub proof fn law_stopped_is_refused(platform: Platform, world: DockerWorld)
    ensures
        docker_asks(platform, true, world) == seq![
            DockerAsk::Refuse("Docker is intentionally stopped"@),
        ],
{
}

/// The way ends with a connection or a refusal, and has neither before its end.
pub proof fn law_one_end(platform: Platform, stopped: bool, world: DockerWorld)
    ensures
        ({
            let asks = docker_asks(platform, stopped, world);
            &&& asks.len() > 0
            &&& asks.last() is Connect || asks.last() is Refuse
            &&& forall|i: int|
                0 <= i < asks.len() - 1 ==> !(#[trigger] asks[i] is Connect) && !(asks[i] is Refuse)
        }),
{
}

/// There is never a second tunnel: one is started only for a host that is reached through a tunnel,
/// where none is usable, and only once the one before is stopped.
pub proof fn law_one_tunnel(platform: Platform, stopped: bool, world: DockerWorld, i: int)
    requires
        0 <= i < docker_asks(platform, stopped, world).len(),
        docker_asks(platform, stopped, world)[i] is StartTunnel,
    ensures
        docker_asks(platform, stopped, world)[i] == DockerAsk::StartTunnel(host_in(world)),
        "ssh://"@.is_prefix_of(host_in(world)),
        !tunnel_usable(world.tunnel),
        i > 0,
        docker_asks(platform, stopped, world)[i - 1] is StopTunnel,
{
}

/// A usable tunnel is used as it is: it is neither stopped nor started anew.
pub proof fn law_usable_tunnel_is_kept(platform: Platform, world: DockerWorld)
    requires
        route_of(platform, host_in(world)) is Tunnel,
        tunnel_usable(world.tunnel),
    ensures
        !docker_asks(platform, false, world).contains(DockerAsk::StopTunnel),
        docker_asks(platform, false, world).last() == DockerAsk::Connect(
            goal_at(platform, world.tunnel->addr@),
        ),
{
}

/// For a host that is not reached through a tunnel, the tunnel is stopped before the client is made.
pub proof fn law_tunnel_is_stopped(platform: Platform, world: DockerWorld)
    requires
        !(route_of(platform, host_in(world)) is Tunnel),
    ensures
        docker_asks(platform, false, world).contains(DockerAsk::StopTunnel),
        docker_asks(platform, false, world).last() is Connect,
{
    let asks = docker_asks(platform, false, world);
    if world.inspection is NotFound {
        assert(asks[2] == DockerAsk::StopTunnel);
    } else {
        assert(asks[1] == DockerAsk::StopTunnel);
    }
}

/// The scheme of a host decides how it is reached, and a host without a known scheme is taken for
/// the daemon on this machine.
pub proof fn law_scheme_decides(platform: Platform, host: Seq<char>)
    ensures
        route_of(platform, host) is Tunnel <==> "ssh://"@.is_prefix_of(host),
        route_of(platform, host) is NamedPipe <==> "npipe://"@.is_prefix_of(host) && platform
            == Platform::Windows,
        route_of(platform, host) is Http <==> "tcp://"@.is_prefix_of(host),
        host.len() == 0 ==> route_of(platform, host) is Fallback,
{
    reveal_strlit("unix://");
    reveal_strlit("/");
    reveal_strlit("ssh://");
    reveal_strlit("npipe://");
    reveal_strlit("tcp://");
    assert forall|p: Seq<char>| p.len() > 0 && #[trigger] p.is_prefix_of(host) implies host.len() > 0
        && host[0] == p[0] by {
        assert(host.subrange(0, p.len() as int)[0] == host[0]);
    }
}

/// On the whole way to an SSH host, a tunnel that was found with its process not running, or with its
/// local end not up, is stopped, one is started to that host right after, and no client is ever made
/// for anything but the address of the one that was started.
pub proof fn law_dead_tunnel_is_never_used(
    platform: Platform,
    world: DockerWorld,
    addr: String,
    child: ChildStatus,
    up: bool,
    steps: nat,
)
    requires
        steps >= 7,
        "ssh://"@.is_prefix_of(host_in(world)),
        world.tunnel == (TunnelFound::Present { addr, child, up }),
        !(child is Running) || !up,
    ensures
        ({
            let asks = docker_run(platform, world, docker_begin(false), steps);
            &&& exists|i: int|
                0 < i < asks.len() && #[trigger] asks[i] == DockerAsk::StartTunnel(host_in(world))
                    && asks[i - 1] is StopTunnel
            &&& forall|i: int|
                0 <= i < asks.len() ==> (#[trigger] asks[i] matches DockerAsk::Connect(goal) ==> (
                world.started matches Ok(started) && goal == match platform {
                    Platform::Unix => Goal::Socket(started@),
                    Platform::Windows => Goal::Http(started@),
                }))
        }),
{
    law_the_whole_way(platform, false, world, steps);
    law_scheme_decides(platform, host_in(world));
    let asks = docker_asks(platform, false, world);
    if world.inspection is NotFound {
        assert(asks[4] == DockerAsk::StartTunnel(host_in(world)));
    } else {
        assert(asks[3] == DockerAsk::StartTunnel(host_in(world)));
    }
}

} // verus!
