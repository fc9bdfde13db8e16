//! The SSH tunnel through which a remote Docker daemon is reached.

use vstd::prelude::*;

use crate::failure::{failure, report_of, Step};
use crate::paths::Platform;
use crate::text::{
    contains, find, joined, law_occurs, law_without_leading, law_without_leading_keeps, occurs_in,
    push_text, rfind, text_in, texts, trim, trim_start_matches, trimmed, without_leading,
};

verus! {

/// How long the tunnel may take to come up, in nanoseconds.
pub const TUNNEL_TIMEOUT: u128 = 15_000_000_000;

/// How long to wait between two looks at the tunnel, in milliseconds.
pub const TUNNEL_PAUSE: u64 = 200;

/// How long to let the tunnel settle once it is up, in milliseconds.
pub const TUNNEL_SETTLE: u64 = 500;

/// What is known of a child process.
#[derive(Debug)]
pub enum ChildStatus {
    /// It runs.
    Running,
    /// It has exited with this status, and wrote this to its standard error.
    Exited { status: String, stderr: String },
    /// Its status could not be had, for this reason.
    Unknown(String),
}

/// How to see that the tunnel is up.
#[derive(Debug, PartialEq, Eq)]
pub enum ReadyProbe {
    /// There is a file at this path.
    FileExists(String),
    /// A TCP connection to this address succeeds.
    TcpConnects(String),
}

/// A tunnel that was started, and the address at which it is reached.
pub struct SshTunnel<C> {
    pub child: C,
    pub local_addr: String,
}

/// What is left to do to a tunnel that was taken down: to kill and reap its process, and then to
/// remove its socket file, if it has one.
pub struct TunnelShutdown<C> {
    pub child: C,
    pub remove: Option<String>,
}

/// Where the start of a tunnel stands: what it waits to hear of.
#[derive(Clone, Copy, Debug, PartialEq, Eq, Structural)]
pub enum TunnelPhase {
    Clearing,
    Spawning,
    Probing,
    Inspecting,
    Timing,
    Pausing,
    Settling,
    Ended,
}

/// What the start of a tunnel hears.
#[derive(Debug)]
pub enum TunnelEvent {
    /// The file is removed, if it was there and could be.
    Cleared,
    /// The process was spawned, or could not be, for this reason.
    Spawned(Result<(), String>),
    /// Whether the tunnel is up.
    Probed(bool),
    /// The status of the process.
    Inspected(ChildStatus),
    /// The time since the process was spawned, in nanoseconds.
    Elapsed(u128),
    /// The pause is over.
    Slept,
}

/// What the start of a tunnel asks for.
#[derive(Debug, PartialEq, Eq)]
pub enum TunnelAction {
    /// Remove this file, if it is there: a socket left over from another tunnel would look like one
    /// that is up.
    Clear(String),
    /// Spawn `ssh` with these arguments.
    Spawn(Vec<String>),
    /// See whether the tunnel is up.
    Probe(ReadyProbe),
    /// See how the process does.
    Inspect,
    /// See how much time has passed since the process was spawned.
    ReadClock,
    /// Pause for so many milliseconds.
    Sleep(u64),
    /// Nothing more: the tunnel is up at this address.
    Succeed(String),
    /// Nothing more than to clean up and report this error: to kill and reap the process if `kill`
    /// says so, and to remove the file `remove`, if there is one.
    Fail { kill: bool, remove: Option<String>, error: String },
    /// Nothing: what was heard is not what was asked.
    Ignore,
}

/// The start of a tunnel.
#[derive(Debug)]
pub struct TunnelStart {
    pub platform: Platform,
    pub ssh_url: String,
    pub local_addr: String,
    pub phase: TunnelPhase,
}

// ---- models ----

/// What a `ReadyProbe` asks.
pub ghost enum Probe {
    FileExists(Seq<char>),
    TcpConnects(Seq<char>),
}

impl View for ReadyProbe {
    type V = Probe;

    open spec fn view(&self) -> Probe {
        match *self {
            ReadyProbe::FileExists(path) => Probe::FileExists(path@),
            ReadyProbe::TcpConnects(addr) => Probe::TcpConnects(addr@),
        }
    }
}

/// What a `TunnelAction` asks.
pub ghost enum TunnelAsk {
    Clear(Seq<char>),
    Spawn(Seq<Seq<char>>),
    Probe(Probe),
    Inspect,
    ReadClock,
    Sleep(u64),
    Succeed(Seq<char>),
    Fail { kill: bool, remove: Option<Seq<char>>, error: Seq<char> },
    Ignore,
}

impl View for TunnelAction {
    type V = TunnelAsk;

    open spec fn view(&self) -> TunnelAsk {
        match *self {
            TunnelAction::Clear(file) => TunnelAsk::Clear(file@),
            TunnelAction::Spawn(args) => TunnelAsk::Spawn(texts(args@)),
            TunnelAction::Probe(probe) => TunnelAsk::Probe(probe@),
            TunnelAction::Inspect => TunnelAsk::Inspect,
            TunnelAction::ReadClock => TunnelAsk::ReadClock,
            TunnelAction::Sleep(millis) => TunnelAsk::Sleep(millis),
            TunnelAction::Succeed(addr) => TunnelAsk::Succeed(addr@),
            TunnelAction::Fail { kill, remove, error } => TunnelAsk::Fail {
                kill,
                remove: text_in(remove),
                error: error@,
            },
            TunnelAction::Ignore => TunnelAsk::Ignore,
        }
    }
}

/// What is asked to see that the tunnel at `addr` is up: on Unix the address is a socket file.
pub open spec fn probe_of(platform: Platform, addr: Seq<char>) -> Probe {
    match platform {
        Platform::Unix => Probe::FileExists(addr),
        Platform::Windows => Probe::TcpConnects(addr),
    }
}

/// The file that a tunnel at `addr` leaves behind.
pub open spec fn leftover_of(platform: Platform, addr: Seq<char>) -> Option<Seq<char>> {
    match platform {
        Platform::Unix => Some(addr),
        Platform::Windows => None,
    }
}

/// The arguments of `ssh` that name the host, and the port if there is one, of `user@host:port`
/// or `host:port`.
pub open spec fn destination_of(target: Seq<char>) -> Seq<Seq<char>> {
    match target.index_of_first('@') {
        Some(at) => {
            let user = target.take(at);
            let rest = target.skip(at + 1);
            match rest.index_of_last(':') {
                Some(colon) => seq![
                    "-p"@,
                    rest.skip(colon + 1),
                    user + "@"@ + rest.take(colon),
                ],
                None => seq![user + "@"@ + rest],
            }
        },
        None => match target.index_of_last(':') {
            Some(colon) => seq!["-p"@, target.skip(colon + 1), target.take(colon)],
            None => seq![target],
        },
    }
}

/// The arguments of `ssh` that do not depend on the tunnel.
pub open spec fn ssh_options() -> Seq<Seq<char>> {
    seq![
        "-N"@,
        "-o"@,
        "StrictHostKeyChecking=accept-new"@,
        "-o"@,
        "ConnectTimeout=10"@,
        "-o"@,
        "ServerAliveInterval=30"@,
        "-o"@,
        "ServerAliveCountMax=3"@,
        "-o"@,
        "ExitOnForwardFailure=yes"@,
    ]
}

/// The arguments of `ssh` for a tunnel from `local_addr` to the Docker socket of the host that
/// `ssh_url` names.
pub open spec fn ssh_args_of(ssh_url: Seq<char>, local_addr: Seq<char>) -> Seq<Seq<char>> {
    ssh_options() + seq!["-L"@, local_addr + ":/var/run/docker.sock"@] + destination_of(
        without_leading(ssh_url, "ssh://"@),
    )
}

/// The error for a process that exited with `status` and wrote `stderr`.
pub open spec fn exit_error_of(status: Seq<char>, stderr: Seq<char>) -> Seq<char> {
    if occurs_in(stderr, "Permission denied"@) || occurs_in(stderr, "publickey"@) {
        "SSH authentication failed. Check your SSH key configuration.\n\nDetails: "@ + trimmed(
            stderr,
        )
    } else if occurs_in(stderr, "Connection refused"@) || occurs_in(
        stderr,
        "Connection timed out"@,
    ) {
        "Cannot reach remote host. Check hostname/IP and SSH port.\n\nDetails: "@ + trimmed(stderr)
    } else if trimmed(stderr).len() > 0 {
        "SSH tunnel exited (code "@ + status + "): "@ + trimmed(stderr)
    } else {
        "SSH tunnel exited with code "@ + status + ". Check SSH connectivity."@
    }
}

/// What a failed start asks for.
pub open spec fn tunnel_failure(
    platform: Platform,
    addr: Seq<char>,
    kill: bool,
    error: Seq<char>,
) -> TunnelAsk {
    TunnelAsk::Fail { kill, remove: leftover_of(platform, addr), error }
}

/// Where the start of a tunnel from `addr` to the host that `url` names begins, and what it asks first:
/// that a file left over at `addr` be removed, where the tunnel has a file.
pub open spec fn tunnel_begin(platform: Platform, url: Seq<char>, addr: Seq<char>) -> (
    TunnelPhase,
    TunnelAsk,
) {
    match leftover_of(platform, addr) {
        Some(file) => (TunnelPhase::Clearing, TunnelAsk::Clear(file)),
        None => (TunnelPhase::Spawning, TunnelAsk::Spawn(ssh_args_of(url, addr))),
    }
}

/// Where the start of a tunnel from `addr` to the host that `url` names stands once it has heard an
/// event, and what it then asks.
pub open spec fn tunnel_step(
    platform: Platform,
    url: Seq<char>,
    addr: Seq<char>,
    phase: TunnelPhase,
    event: TunnelEvent,
) -> (TunnelPhase, TunnelAsk) {
    match (phase, event) {
        (TunnelPhase::Clearing, TunnelEvent::Cleared) => (
            TunnelPhase::Spawning,
            TunnelAsk::Spawn(ssh_args_of(url, addr)),
        ),
        (TunnelPhase::Spawning, TunnelEvent::Spawned(Ok(_))) => (
            TunnelPhase::Probing,
            TunnelAsk::Probe(probe_of(platform, addr)),
        ),
        (TunnelPhase::Spawning, TunnelEvent::Spawned(Err(reason))) => (
            TunnelPhase::Ended,
            TunnelAsk::Fail {
                kill: false,
                remove: None,
                error: report_of(Step::StartSshTunnel) + reason@,
            },
        ),
        (TunnelPhase::Probing, TunnelEvent::Probed(up)) => if up {
            (TunnelPhase::Settling, TunnelAsk::Sleep(TUNNEL_SETTLE))
        } else {
            (TunnelPhase::Inspecting, TunnelAsk::Inspect)
        },
        (TunnelPhase::Inspecting, TunnelEvent::Inspected(status)) => match status {
            ChildStatus::Running => (TunnelPhase::Timing, TunnelAsk::ReadClock),
            ChildStatus::Exited { status, stderr } => (
                TunnelPhase::Ended,
                tunnel_failure(platform, addr, false, exit_error_of(status@, stderr@)),
            ),
            ChildStatus::Unknown(reason) => (
                TunnelPhase::Ended,
                tunnel_failure(
                    platform,
                    addr,
                    false,
                    report_of(Step::CheckSshTunnel) + reason@,
                ),
            ),
        },
        (TunnelPhase::Timing, TunnelEvent::Elapsed(nanos)) => if nanos > TUNNEL_TIMEOUT {
            (
                TunnelPhase::Ended,
                tunnel_failure(platform, addr, true, "SSH tunnel timed out."@),
            )
        } else {
            (TunnelPhase::Pausing, TunnelAsk::Sleep(TUNNEL_PAUSE))
        },
        (TunnelPhase::Pausing, TunnelEvent::Slept) => (
            TunnelPhase::Probing,
            TunnelAsk::Probe(probe_of(platform, addr)),
        ),
        (TunnelPhase::Settling, TunnelEvent::Slept) => (
            TunnelPhase::Ended,
            TunnelAsk::Succeed(addr),
        ),
        _ => (phase, TunnelAsk::Ignore),
    }
}

// ---- functions ----

/// How to see that the tunnel at `addr` is up.
pub fn is_tunnel_ready(platform: Platform, addr: &str) -> (probe: ReadyProbe)
    ensures
        probe@ == probe_of(platform, addr@),
{
    match platform {
        Platform::Unix => ReadyProbe::FileExists(addr.to_owned()),
        Platform::Windows => ReadyProbe::TcpConnects(addr.to_owned()),
    }
}

/// The file to remove once the tunnel at `addr` is gone.
pub fn cleanup_addr(platform: Platform, addr: &str) -> (file: Option<String>)
    ensures
        text_in(file) == leftover_of(platform, addr@),
{
    match platform {
        Platform::Unix => Some(addr.to_owned()),
        Platform::Windows => None,
    }
}

/// Adds the arguments that name the host, and the port if there is one.
fn push_destination(args: &mut Vec<String>, target: &str)
    ensures
        texts(final(args)@) == texts(old(args)@) + destination_of(target@),
{
    let ghost before = texts(args@);
    let end = target.unicode_len();
    match find(target, '@') {
        Some(at) => {
            let user = target.substring_char(0, at);
            let rest = target.substring_char(at + 1, end);
            assert(user@ == target@.take(at as int));
            assert(rest@ == target@.skip(at + 1));
            let login = joined(user, "@");
            match rfind(rest, ':') {
                Some(colon) => {
                    let rest_end = rest.unicode_len();
                    let host = rest.substring_char(0, colon);
                    let port = rest.substring_char(colon + 1, rest_end);
                    assert(host@ == rest@.take(colon as int));
                    assert(port@ == rest@.skip(colon + 1));
                    push_text(args, "-p");
                    push_text(args, port);
                    push_text(args, joined(login.as_str(), host).as_str());
                },
                None => {
                    push_text(args, joined(login.as_str(), rest).as_str());
                },
            }
        },
        None => match rfind(target, ':') {
            Some(colon) => {
                let host = target.substring_char(0, colon);
                let port = target.substring_char(colon + 1, end);
                assert(host@ == target@.take(colon as int));
                assert(port@ == target@.skip(colon + 1));
                push_text(args, "-p");
                push_text(args, port);
                push_text(args, host);
            },
            None => {
                push_text(args, target);
            },
        },
    }
    assert(texts(args@) =~= before + destination_of(target@));
}

/// The arguments of `ssh` for a tunnel from `local_addr` to the Docker socket of the host that
/// `ssh_url` names.
pub fn ssh_args(ssh_url: &str, local_addr: &str) -> (args: Vec<String>)
    ensures
        texts(args@) == ssh_args_of(ssh_url@, local_addr@),
{
    let target = trim_start_matches(ssh_url, "ssh://");
    let forward = joined(local_addr, ":/var/run/docker.sock");
    let mut args: Vec<String> = Vec::new();
    push_text(&mut args, "-N");
    push_text(&mut args, "-o");
    push_text(&mut args, "StrictHostKeyChecking=accept-new");
    push_text(&mut args, "-o");
    push_text(&mut args, "ConnectTimeout=10");
    push_text(&mut args, "-o");
    push_text(&mut args, "ServerAliveInterval=30");
    push_text(&mut args, "-o");
    push_text(&mut args, "ServerAliveCountMax=3");
    push_text(&mut args, "-o");
    push_text(&mut args, "ExitOnForwardFailure=yes");
    assert(texts(args@) =~= ssh_options());
    push_text(&mut args, "-L");
    push_text(&mut args, forward.as_str());
    push_destination(&mut args, target);
    assert(texts(args@) =~= ssh_args_of(ssh_url@, local_addr@));
    args
}

/// The error for a process that exited with `status` and wrote `stderr`.
pub fn exit_error(status: &str, stderr: &str) -> (error: String)
    ensures
        error@ == exit_error_of(status@, stderr@),
{
    let details = trim(stderr);
    if contains(stderr, "Permission denied") || contains(stderr, "publickey") {
        return joined(
            "SSH authentication failed. Check your SSH key configuration.\n\nDetails: ",
            details,
        );
    }
    if contains(stderr, "Connection refused") || contains(stderr, "Connection timed out") {
        return joined(
            "Cannot reach remote host. Check hostname/IP and SSH port.\n\nDetails: ",
            details,
        );
    }
    if !details.is_empty() {
        let mut error = joined("SSH tunnel exited (code ", status);
        error.append("): ");
        error.append(details);
        return error;
    }
    let mut error = joined("SSH tunnel exited with code ", status);
    error.append(". Check SSH connectivity.");
    error
}

/// Begins the start of a tunnel from `local_addr` to the host that `ssh_url` names.
pub fn start_ssh_tunnel_raw(platform: Platform, ssh_url: &str, local_addr: &str) -> (begun: (
    TunnelStart,
    TunnelAction,
))
    ensures
        begun.0.platform == platform,
        begun.0.ssh_url@ == ssh_url@,
        begun.0.local_addr@ == local_addr@,
        (begun.0.phase, begun.1@) == tunnel_begin(platform, ssh_url@, local_addr@),
{
    let mut start = TunnelStart {
        platform,
        ssh_url: ssh_url.to_owned(),
        local_addr: local_addr.to_owned(),
        phase: TunnelPhase::Clearing,
    };
    match cleanup_addr(platform, local_addr) {
        Some(file) => (start, TunnelAction::Clear(file)),
        None => {
            start.phase = TunnelPhase::Spawning;
            (start, TunnelAction::Spawn(ssh_args(ssh_url, local_addr)))
        },
    }
}

impl TunnelStart {
    /// Ends the start with an error.
    fn fail(&mut self, kill: bool, error: String) -> (action: TunnelAction)
        ensures
            final(self).platform == old(self).platform,
            final(self).ssh_url@ == old(self).ssh_url@,
            final(self).local_addr@ == old(self).local_addr@,
            final(self).phase == TunnelPhase::Ended,
            action@ == tunnel_failure(old(self).platform, old(self).local_addr@, kill, error@),
    {
        self.phase = TunnelPhase::Ended;
        TunnelAction::Fail {
            kill,
            remove: cleanup_addr(self.platform, self.local_addr.as_str()),
            error,
        }
    }

    /// Hears an event and asks for what comes next.
    pub fn step(&mut self, event: TunnelEvent) -> (action: TunnelAction)
        ensures
            final(self).platform == old(self).platform,
            final(self).ssh_url@ == old(self).ssh_url@,
            final(self).local_addr@ == old(self).local_addr@,
            (final(self).phase, action@) == tunnel_step(
                old(self).platform,
                old(self).ssh_url@,
                old(self).local_addr@,
                old(self).phase,
                event,
            ),
    {
        match (self.phase, event) {
            (TunnelPhase::Clearing, TunnelEvent::Cleared) => {
                self.phase = TunnelPhase::Spawning;
                TunnelAction::Spawn(ssh_args(self.ssh_url.as_str(), self.local_addr.as_str()))
            },
            (TunnelPhase::Spawning, TunnelEvent::Spawned(Ok(_))) => {
                self.phase = TunnelPhase::Probing;
                TunnelAction::Probe(is_tunnel_ready(self.platform, self.local_addr.as_str()))
            },
            (TunnelPhase::Spawning, TunnelEvent::Spawned(Err(reason))) => {
                self.phase = TunnelPhase::Ended;
                TunnelAction::Fail {
                    kill: false,
                    remove: None,
                    error: failure(Step::StartSshTunnel, reason.as_str()),
                }
            },
            (TunnelPhase::Probing, TunnelEvent::Probed(up)) => if up {
                self.phase = TunnelPhase::Settling;
                TunnelAction::Sleep(TUNNEL_SETTLE)
            } else {
                self.phase = TunnelPhase::Inspecting;
                TunnelAction::Inspect
            },
            (TunnelPhase::Inspecting, TunnelEvent::Inspected(status)) => match status {
                ChildStatus::Running => {
                    self.phase = TunnelPhase::Timing;
                    TunnelAction::ReadClock
                },
                ChildStatus::Exited { status, stderr } => {
                    self.fail(false, exit_error(status.as_str(), stderr.as_str()))
                },
                ChildStatus::Unknown(reason) => {
                    self.fail(false, failure(Step::CheckSshTunnel, reason.as_str()))
                },
            },
            (TunnelPhase::Timing, TunnelEvent::Elapsed(nanos)) => if nanos > TUNNEL_TIMEOUT {
                self.fail(true, "SSH tunnel timed out.".to_owned())
            } else {
                self.phase = TunnelPhase::Pausing;
                TunnelAction::Sleep(TUNNEL_PAUSE)
            },
            (TunnelPhase::Pausing, TunnelEvent::Slept) => {
                self.phase = TunnelPhase::Probing;
                TunnelAction::Probe(is_tunnel_ready(self.platform, self.local_addr.as_str()))
            },
            (TunnelPhase::Settling, TunnelEvent::Slept) => {
                self.phase = TunnelPhase::Ended;
                TunnelAction::Succeed(self.local_addr.clone())
            },
            _ => TunnelAction::Ignore,
        }
    }
}

/// Takes down the tunnel, if there is one.
pub fn stop_ssh_tunnel<C>(tunnel: &mut Option<SshTunnel<C>>, platform: Platform) -> (shutdown:
    Option<TunnelShutdown<C>>)
    ensures
        *final(tunnel) is None,
        match *old(tunnel) {
            Some(t) => shutdown matches Some(s) && s.child == t.child && text_in(s.remove)
                == leftover_of(platform, t.local_addr@),
            None => shutdown is None,
        },
{
    match tunnel.take() {
        Some(t) => {
            let remove = cleanup_addr(platform, t.local_addr.as_str());
            Some(TunnelShutdown { child: t.child, remove })
        },
        None => None,
    }
}

/// Keeps a tunnel that was started.
pub fn keep_ssh_tunnel<C>(tunnel: &mut Option<SshTunnel<C>>, child: C, local_addr: &str)
    ensures
        *final(tunnel) matches Some(t) && t.child == child && t.local_addr@ == local_addr@,
{
    *tunnel = Some(SshTunnel { child, local_addr: local_addr.to_owned() });
}

// ---- laws ----

/// Where the start of a tunnel stands once it has heard all these events, one after the other.
pub open spec fn tunnel_after(
    platform: Platform,
    url: Seq<char>,
    addr: Seq<char>,
    events: Seq<TunnelEvent>,
) -> TunnelPhase
    decreases events.len(),
{
    if events.len() == 0 {
        tunnel_begin(platform, url, addr).0
    } else {
        tunnel_step(
            platform,
            url,
            addr,
            tunnel_after(platform, url, addr, events.drop_last()),
            events.last(),
        ).0
    }
}

/// On Unix the first that is asked is to remove the file at the local address. Until it is heard that
/// this was done, nothing else is asked, whatever else is heard: no process is spawned, and no file
/// that was left over is taken for a tunnel that is up.
pub proof fn law_leftover_is_removed_first(
    url: Seq<char>,
    addr: Seq<char>,
    events: Seq<TunnelEvent>,
    event: TunnelEvent,
)
    requires
        forall|i: int| 0 <= i < events.len() ==> !(#[trigger] events[i] is Cleared),
    ensures
        tunnel_begin(Platform::Unix, url, addr).1 == TunnelAsk::Clear(addr),
        tunnel_after(Platform::Unix, url, addr, events) == TunnelPhase::Clearing,
        tunnel_step(
            Platform::Unix,
            url,
            addr,
            tunnel_after(Platform::Unix, url, addr, events),
            event,
        ).1 == if event is Cleared {
            TunnelAsk::Spawn(ssh_args_of(url, addr))
        } else {
            TunnelAsk::Ignore
        },
    decreases events.len(),
{
    if events.len() > 0 {
        law_leftover_is_removed_first(url, addr, events.drop_last(), event);
        assert(!(events[events.len() - 1] is Cleared));
    }
}

/// One round of waiting for the tunnel: what is found, in the order in which it is asked.
pub ghost struct TunnelRound {
    pub up: bool,
    pub child: ChildStatus,
    pub nanos: u128,
}

/// Whether a round leaves the start waiting.
pub open spec fn tunnel_waits(round: TunnelRound) -> bool {
    !round.up && round.child is Running && round.nanos <= TUNNEL_TIMEOUT
}

/// What the start of a tunnel ends with over these rounds, one step after another; nothing, if it
/// still waits after the last.
pub open spec fn tunnel_end(platform: Platform, url: Seq<char>, addr: Seq<char>, rounds: Seq<TunnelRound>) -> Option<
    TunnelAsk,
>
    decreases rounds.len(),
{
    if rounds.len() == 0 {
        None
    } else {
        let round = rounds.first();
        let (probed, _) = tunnel_step(
            platform,
            url,
            addr,
            TunnelPhase::Probing,
            TunnelEvent::Probed(round.up),
        );
        if probed == TunnelPhase::Settling {
            Some(tunnel_step(platform, url, addr, probed, TunnelEvent::Slept).1)
        } else {
            let (inspected, failed) = tunnel_step(
                platform,
                url,
                addr,
                probed,
                TunnelEvent::Inspected(round.child),
            );
            if inspected == TunnelPhase::Ended {
                Some(failed)
            } else {
                let (timed, late) = tunnel_step(
                    platform,
                    url,
                    addr,
                    inspected,
                    TunnelEvent::Elapsed(round.nanos),
                );
                if timed == TunnelPhase::Ended {
                    Some(late)
                } else if tunnel_step(platform, url, addr, timed, TunnelEvent::Slept).0
                    == TunnelPhase::Probing {
                    tunnel_end(platform, url, addr, rounds.drop_first())
                } else {
                    None
                }
            }
        }
    }
}

/// The start of a tunnel succeeds exactly when some round finds it up and every round before leaves
/// it waiting; then it is reached at its local address.
pub proof fn law_tunnel_succeeds(platform: Platform, url: Seq<char>, addr: Seq<char>, rounds: Seq<TunnelRound>)
    ensures
        tunnel_end(platform, url, addr, rounds) matches Some(TunnelAsk::Succeed(_)) <==> (exists|k: int|
            0 <= k < rounds.len() && #[trigger] rounds[k].up && forall|j: int|
                0 <= j < k ==> tunnel_waits(#[trigger] rounds[j])),
        tunnel_end(platform, url, addr, rounds) matches Some(TunnelAsk::Succeed(at)) ==> at == addr,
    decreases rounds.len(),
{
    if rounds.len() > 0 {
        let rest = rounds.drop_first();
        law_tunnel_succeeds(platform, url, addr, rest);
        assert forall|j: int| 0 <= j < rest.len() implies #[trigger] rest[j] == rounds[j + 1] by {
        }
        if rounds[0].up {
            assert(tunnel_end(platform, url, addr, rounds) == Some(TunnelAsk::Succeed(addr)));
        } else if tunnel_waits(rounds[0]) {
            assert(tunnel_end(platform, url, addr, rounds) == tunnel_end(platform, url, addr, rest));
            if exists|k: int|
                0 <= k < rest.len() && #[trigger] rest[k].up && forall|j: int|
                    0 <= j < k ==> tunnel_waits(#[trigger] rest[j]) {
                let k = choose|k: int|
                    0 <= k < rest.len() && #[trigger] rest[k].up && forall|j: int|
                        0 <= j < k ==> tunnel_waits(#[trigger] rest[j]);
                assert forall|j: int| 0 <= j < k + 1 implies tunnel_waits(#[trigger] rounds[j]) by {
                    if j > 0 {
                        assert(rest[j - 1] == rounds[j]);
                    }
                }
                assert(rounds[k + 1].up);
            }
            if exists|k: int|
                0 <= k < rounds.len() && #[trigger] rounds[k].up && forall|j: int|
                    0 <= j < k ==> tunnel_waits(#[trigger] rounds[j]) {
                let k = choose|k: int|
                    0 <= k < rounds.len() && #[trigger] rounds[k].up && forall|j: int|
                        0 <= j < k ==> tunnel_waits(#[trigger] rounds[j]);
                assert(rest[k - 1].up);
            }
        } else {
            assert(forall|k: int|
                0 <= k < rounds.len() && #[trigger] rounds[k].up ==> k > 0 && !tunnel_waits(
                    rounds[0],
                ));
        }
    }
}

/// Whether round `k` ends the start with a failure: the tunnel is not up, every round before leaves
/// the start waiting, and the process does not run or the time is over.
pub open spec fn tunnel_fails_at(rounds: Seq<TunnelRound>, k: int) -> bool {
    &&& 0 <= k < rounds.len()
    &&& !rounds[k].up
    &&& !tunnel_waits(rounds[k])
    &&& forall|j: int| 0 <= j < k ==> tunnel_waits(#[trigger] rounds[j])
}

/// A start that fails removes what the tunnel leaves behind, and kills the process exactly when the
/// process still runs, with the time over.
pub proof fn law_failed_tunnel_is_cleaned_up(
    platform: Platform,
    url: Seq<char>,
    addr: Seq<char>,
    rounds: Seq<TunnelRound>,
)
    ensures
        tunnel_end(platform, url, addr, rounds) matches Some(TunnelAsk::Fail { kill, remove, error })
            ==> {
            &&& remove == leftover_of(platform, addr)
            &&& exists|k: int| #[trigger]
                tunnel_fails_at(rounds, k) && kill == (rounds[k].child is Running)
        },
    decreases rounds.len(),
{
    if rounds.len() > 0 {
        let rest = rounds.drop_first();
        law_failed_tunnel_is_cleaned_up(platform, url, addr, rest);
        if tunnel_waits(rounds[0]) {
            if let Some(TunnelAsk::Fail { kill, remove, error }) = tunnel_end(
                platform,
                url,
                addr,
                rest,
            ) {
                let k = choose|k: int| #[trigger]
                    tunnel_fails_at(rest, k) && kill == (rest[k].child is Running);
                assert forall|j: int| 0 <= j < k + 1 implies tunnel_waits(#[trigger] rounds[j]) by {
                    if j > 0 {
                        assert(rest[j - 1] == rounds[j]);
                    }
                }
                assert(rest[k] == rounds[k + 1]);
                assert(tunnel_fails_at(rounds, k + 1));
            }
        } else if !rounds[0].up {
            assert(tunnel_fails_at(rounds, 0));
        }
    }
}

/// The start of a tunnel does not outlast its time: once a round finds the time over, it has ended.
pub proof fn law_tunnel_ends(
    platform: Platform,
    url: Seq<char>,
    addr: Seq<char>,
    rounds: Seq<TunnelRound>,
    k: int,
)
    requires
        0 <= k < rounds.len(),
        rounds[k].nanos > TUNNEL_TIMEOUT,
    ensures
        tunnel_end(platform, url, addr, rounds) is Some,
    decreases rounds.len(),
{
    if tunnel_waits(rounds[0]) {
        law_tunnel_ends(platform, url, addr, rounds.drop_first(), k - 1);
    }
}

/// What ends the start of a tunnel is a success or a failure, and nothing is asked after it.
pub proof fn law_nothing_after_the_end(
    platform: Platform,
    url: Seq<char>,
    addr: Seq<char>,
    phase: TunnelPhase,
    event: TunnelEvent,
)
    ensures
        ({
            let (next, ask) = tunnel_step(platform, url, addr, phase, event);
            if phase == TunnelPhase::Ended {
                next == TunnelPhase::Ended && ask is Ignore
            } else {
                next == TunnelPhase::Ended <==> (ask is Succeed || ask is Fail)
            }
        }),
{
}

/// Whether `user@host:port` or `host:port` names a port.
pub open spec fn names_port(target: Seq<char>) -> bool {
    match target.index_of_first('@') {
        Some(at) => target.skip(at + 1).contains(':'),
        None => target.contains(':'),
    }
}

/// The host and the port handed to `ssh` are the whole target: without a port it is the target
/// itself, and with one the two joined by the colon are. The port is what follows the last colon.
pub proof fn law_destination_is_the_target(target: Seq<char>)
    ensures
        names_port(target) ==> {
            let args = destination_of(target);
            &&& args.len() == 3
            &&& args[0] == "-p"@
            &&& args[2] + seq![':'] + args[1] == target
            &&& !args[1].contains(':')
        },
        !names_port(target) ==> destination_of(target) == seq![target],
{
    match target.index_of_first('@') {
        Some(at) => {
            let user = target.take(at);
            let rest = target.skip(at + 1);
            lemma_user_and_rest(target, at);
            rest.index_of_last_ensures(':');
            if let Some(colon) = rest.index_of_last(':') {
                lemma_split_at_colon(rest, colon);
                lemma_prefixed_split(user + "@"@, rest.take(colon), rest.skip(colon + 1));
            }
        },
        None => {
            target.index_of_last_ensures(':');
            if let Some(colon) = target.index_of_last(':') {
                lemma_split_at_colon(target, colon);
            }
        },
    }
}

/// What stands before the first `@`, that sign, and what stands behind it are the whole.
proof fn lemma_user_and_rest(s: Seq<char>, at: int)
    requires
        s.index_of_first('@') == Some(at),
    ensures
        s == s.take(at) + "@"@ + s.skip(at + 1),
{
    reveal_strlit("@");
    s.index_of_first_ensures('@');
    assert(s =~= s.take(at) + "@"@ + s.skip(at + 1));
}

/// What stands before the last colon, the colon, and what stands behind it are the whole; behind it
/// stands no other colon.
proof fn lemma_split_at_colon(s: Seq<char>, colon: int)
    requires
        s.index_of_last(':') == Some(colon),
    ensures
        s == s.take(colon) + seq![':'] + s.skip(colon + 1),
        !s.skip(colon + 1).contains(':'),
{
    s.index_of_last_ensures(':');
    assert(s =~= s.take(colon) + seq![':'] + s.skip(colon + 1));
    let behind = s.skip(colon + 1);
    if behind.contains(':') {
        let k = choose|k: int| 0 <= k < behind.len() && behind[k] == ':';
        assert(s[colon + 1 + k] == ':');
    }
}

/// A text before a host and a port is a text before the host.
proof fn lemma_prefixed_split(login: Seq<char>, host: Seq<char>, port: Seq<char>)
    ensures
        login + (host + seq![':'] + port) == (login + host) + seq![':'] + port,
{
    assert(login + (host + seq![':'] + port) =~= (login + host) + seq![':'] + port);
}

/// A target names a port exactly when a colon stands in it behind the user, if it has one: behind the
/// first `@`, or anywhere where there is none.
proof fn lemma_names_port(target: Seq<char>)
    ensures
        names_port(target) <==> exists|c: int|
            0 <= c < target.len() && #[trigger] target[c] == ':' && (target.contains('@')
                ==> target.take(c).contains('@')),
{
    target.index_of_first_ensures('@');
    match target.index_of_first('@') {
        Some(at) => {
            let rest = target.skip(at + 1);
            if names_port(target) {
                let k = choose|k: int| 0 <= k < rest.len() && rest[k] == ':';
                let c = at + 1 + k;
                assert(target[c] == ':');
                assert(target.take(c)[at] == '@');
            }
            if exists|c: int|
                0 <= c < target.len() && #[trigger] target[c] == ':' && (target.contains('@')
                    ==> target.take(c).contains('@')) {
                let c = choose|c: int|
                    0 <= c < target.len() && #[trigger] target[c] == ':' && (target.contains('@')
                        ==> target.take(c).contains('@'));
                assert(target[at] == '@');
                let k = choose|k: int| 0 <= k < target.take(c).len() && target.take(c)[k] == '@';
                assert(target[k] == '@');
                assert(at <= k);
                assert(rest[c - at - 1] == ':');
            }
        },
        None => {
            assert(!target.contains('@'));
        },
    }
}

/// `ssh` is spawned for the whole of what stands behind the scheme of the URL: behind its options and
/// the forwarding from the local address to the socket of the remote daemon, its arguments name either
/// that target itself or, with the port split off at the last colon, the port and the rest of it. A
/// port is split off exactly when a colon stands behind the user, if there is one.
pub proof fn law_whole_target_is_named(target: Seq<char>, addr: Seq<char>)
    requires
        !"ssh://"@.is_prefix_of(target),
    ensures
        ({
            let args = ssh_args_of("ssh://"@ + target, addr);
            let with_port = exists|c: int|
                0 <= c < target.len() && #[trigger] target[c] == ':' && (target.contains('@')
                    ==> target.take(c).contains('@'));
            &&& args.len() >= 13
            &&& args[11] == "-L"@
            &&& args[12] == addr + ":/var/run/docker.sock"@
            &&& !with_port ==> args.len() == 14 && args[13] == target
            &&& with_port ==> args.len() == 16 && args[13] == "-p"@ && args[15] + ":"@ + args[14]
                == target && !args[14].contains(':')
            &&& ssh_args_of(target, addr) == args
        }),
{
    law_without_leading_keeps(target, "ssh://"@);
    reveal_strlit("ssh://");
    reveal_strlit(":");
    law_destination_is_the_target(target);
    lemma_names_port(target);
    let args = ssh_args_of("ssh://"@ + target, addr);
    let named = destination_of(target);
    assert(":"@ =~= seq![':']);
    assert(args.skip(13) =~= named);
    assert(forall|i: int| 0 <= i < named.len() ==> args[13 + i] == #[trigger] named[i]);
    if names_port(target) {
        assert(args[13] == named[0] && args[14] == named[1] && args[15] == named[2]);
    } else {
        assert(args[13] == named[0]);
    }
}

/// However often the scheme stands before a target, the arguments are the same; they begin with the
/// same options for every target and every address.
pub proof fn law_ssh_options(url: Seq<char>, addr: Seq<char>)
    ensures
        ssh_args_of("ssh://"@ + url, addr) == ssh_args_of(url, addr),
        ssh_args_of(url, addr).len() >= 13,
        ssh_args_of(url, addr).take(13) == seq![
            "-N"@,
            "-o"@,
            "StrictHostKeyChecking=accept-new"@,
            "-o"@,
            "ConnectTimeout=10"@,
            "-o"@,
            "ServerAliveInterval=30"@,
            "-o"@,
            "ServerAliveCountMax=3"@,
            "-o"@,
            "ExitOnForwardFailure=yes"@,
            "-L"@,
            addr + ":/var/run/docker.sock"@,
        ],
{
    reveal_strlit("ssh://");
    law_without_leading(url, "ssh://"@);
}

/// The process is spawned with the arguments for the URL and the address that the start was given,
/// and only then: on Unix once a file left over at the address is removed, on Windows at once.
pub proof fn law_spawned_once_clear(
    platform: Platform,
    url: Seq<char>,
    addr: Seq<char>,
    phase: TunnelPhase,
    event: TunnelEvent,
)
    ensures
        tunnel_begin(Platform::Unix, url, addr) == (TunnelPhase::Clearing, TunnelAsk::Clear(addr)),
        tunnel_begin(Platform::Windows, url, addr) == (
            TunnelPhase::Spawning,
            TunnelAsk::Spawn(ssh_args_of(url, addr)),
        ),
        ({
            let (next, ask) = tunnel_step(platform, url, addr, phase, event);
            &&& ask is Spawn <==> phase is Clearing && event is Cleared
            &&& ask matches TunnelAsk::Spawn(args) ==> next is Spawning && args == ssh_args_of(
                url,
                addr,
            )
            &&& !(ask is Clear)
        }),
{
}

/// Whether the tunnel is up is looked at once the process is spawned and after every pause, by the
/// socket file on Unix and by a connection on Windows; while it is not up, the process is looked at,
/// and while that runs, the clock. Once it is up, the tunnel settles for half a second and is then
/// there at its address; before its time of fifteen seconds is over, the next look comes after a fifth
/// of a second.
pub proof fn law_tunnel_is_waited_for(
    platform: Platform,
    url: Seq<char>,
    addr: Seq<char>,
    phase: TunnelPhase,
    event: TunnelEvent,
)
    ensures
        ({
            let (next, ask) = tunnel_step(platform, url, addr, phase, event);
            &&& ask is Probe <==> (phase is Spawning && (event matches TunnelEvent::Spawned(spawned)
                && spawned is Ok)) || (phase is Pausing && event is Slept)
            &&& ask is Probe ==> next is Probing && ask == TunnelAsk::Probe(
                match platform {
                    Platform::Unix => Probe::FileExists(addr),
                    Platform::Windows => Probe::TcpConnects(addr),
                },
            )
            &&& ask is Inspect <==> phase is Probing && event == TunnelEvent::Probed(false)
            &&& ask is Inspect ==> next is Inspecting
            &&& ask is ReadClock <==> phase is Inspecting && event == TunnelEvent::Inspected(
                ChildStatus::Running,
            )
            &&& ask is ReadClock ==> next is Timing
            &&& ask is Sleep <==> (phase is Probing && event == TunnelEvent::Probed(true)) || (
            phase is Timing && (event matches TunnelEvent::Elapsed(nanos) && nanos
                <= 15_000_000_000))
            &&& ask is Sleep && event is Probed ==> ask == TunnelAsk::Sleep(500) && next is Settling
            &&& ask is Sleep && event is Elapsed ==> ask == TunnelAsk::Sleep(200) && next is Pausing
            &&& ask is Succeed <==> phase is Settling && event is Slept
            &&& ask matches TunnelAsk::Succeed(at) ==> next is Ended && at == addr
        }),
{
}

/// The start fails exactly when the process could not be spawned, has exited or has no known status,
/// or its time is over. The process is killed exactly in the last case; the socket file is removed on
/// Unix unless there never was a process; the report gives the reason.
pub proof fn law_tunnel_fails(
    platform: Platform,
    url: Seq<char>,
    addr: Seq<char>,
    phase: TunnelPhase,
    event: TunnelEvent,
)
    ensures
        ({
            let (next, ask) = tunnel_step(platform, url, addr, phase, event);
            let file = match platform {
                Platform::Unix => Some(addr),
                Platform::Windows => None,
            };
            &&& ask is Fail <==> (phase is Spawning && (event matches TunnelEvent::Spawned(spawned)
                && spawned is Err)) || (phase is Inspecting && event is Inspected && event
                != TunnelEvent::Inspected(ChildStatus::Running)) || (phase is Timing && (
            event matches TunnelEvent::Elapsed(nanos) && nanos > 15_000_000_000))
            &&& ask matches TunnelAsk::Fail { kill, remove, error } ==> {
                &&& next is Ended
                &&& kill <==> event is Elapsed
                &&& remove == if event is Spawned {
                    None
                } else {
                    file
                }
                &&& event matches TunnelEvent::Spawned(Err(reason)) ==> error
                    == "Failed to start SSH tunnel: "@ + reason@
                &&& event matches TunnelEvent::Inspected(ChildStatus::Unknown(reason)) ==> error
                    == "Failed to check SSH tunnel status: "@ + reason@
                &&& event matches TunnelEvent::Inspected(ChildStatus::Exited { status, stderr })
                    ==> error == exit_error_of(status@, stderr@)
                &&& event is Elapsed ==> error == "SSH tunnel timed out."@
            }
            &&& ask is Ignore ==> next == phase
        }),
{
}

/// The report of a process that exited tells by what it wrote why it did, if it says, and gives all of
/// it but the white space around it; where it wrote nothing, the report gives the status.
pub proof fn law_exit_is_explained(
    status: Seq<char>,
    before: Seq<char>,
    after: Seq<char>,
    stderr: Seq<char>,
)
    ensures
        exit_error_of(status, before + "Permission denied"@ + after)
            == "SSH authentication failed. Check your SSH key configuration.\n\nDetails: "@ + trimmed(
            before + "Permission denied"@ + after,
        ),
        exit_error_of(status, before + "publickey"@ + after)
            == "SSH authentication failed. Check your SSH key configuration.\n\nDetails: "@ + trimmed(
            before + "publickey"@ + after,
        ),
        ({
            let denied = (exists|a: Seq<char>, b: Seq<char>|
                stderr == #[trigger] (a + "Permission denied"@ + b)) || (exists|
                a: Seq<char>,
                b: Seq<char>,
            |
                stderr == #[trigger] (a + "publickey"@ + b));
            let unreachable_host = (exists|a: Seq<char>, b: Seq<char>|
                stderr == #[trigger] (a + "Connection refused"@ + b)) || (exists|
                a: Seq<char>,
                b: Seq<char>,
            |
                stderr == #[trigger] (a + "Connection timed out"@ + b));
            &&& denied ==> exit_error_of(status, stderr)
                == "SSH authentication failed. Check your SSH key configuration.\n\nDetails: "@
                + trimmed(stderr)
            &&& !denied && unreachable_host ==> exit_error_of(status, stderr)
                == "Cannot reach remote host. Check hostname/IP and SSH port.\n\nDetails: "@ + trimmed(
                stderr,
            )
            &&& !denied && !unreachable_host && trimmed(stderr).len() > 0 ==> exit_error_of(
                status,
                stderr,
            ) == "SSH tunnel exited (code "@ + status + "): "@ + trimmed(stderr)
            &&& !denied && !unreachable_host && trimmed(stderr).len() == 0 ==> exit_error_of(
                status,
                stderr,
            ) == "SSH tunnel exited with code "@ + status + ". Check SSH connectivity."@
        }),
{
    law_occurs(before + "Permission denied"@ + after, "Permission denied"@);
    law_occurs(before + "publickey"@ + after, "publickey"@);
    law_occurs(stderr, "Permission denied"@);
    law_occurs(stderr, "publickey"@);
    law_occurs(stderr, "Connection refused"@);
    law_occurs(stderr, "Connection timed out"@);
}

/// A tunnel leaves its socket file behind on Unix, and nothing on Windows; it is up on Unix once that
/// file is there, and on Windows once a connection succeeds.
pub proof fn law_tunnel_and_its_file(addr: Seq<char>)
    ensures
        leftover_of(Platform::Unix, addr) == Some(addr),
        leftover_of(Platform::Windows, addr) is None,
        probe_of(Platform::Unix, addr) == Probe::FileExists(addr),
        probe_of(Platform::Windows, addr) == Probe::TcpConnects(addr),
{
}

/// What is modelled of a probe and of an action is what they hold.
pub proof fn law_models_hold_the_fields(
    text: String,
    args: Vec<String>,
    probe: ReadyProbe,
    millis: u64,
    kill: bool,
    remove: Option<String>,
)
    ensures
        ReadyProbe::FileExists(text)@ == Probe::FileExists(text@),
        ReadyProbe::TcpConnects(text)@ == Probe::TcpConnects(text@),
        TunnelAction::Clear(text)@ == TunnelAsk::Clear(text@),
        TunnelAction::Spawn(args)@ == TunnelAsk::Spawn(texts(args@)),
        TunnelAction::Probe(probe)@ == TunnelAsk::Probe(probe@),
        TunnelAction::Inspect@ == TunnelAsk::Inspect,
        TunnelAction::ReadClock@ == TunnelAsk::ReadClock,
        TunnelAction::Sleep(millis)@ == TunnelAsk::Sleep(millis),
        TunnelAction::Succeed(text)@ == TunnelAsk::Succeed(text@),
        (TunnelAction::Fail { kill, remove, error: text })@ == (TunnelAsk::Fail {
            kill,
            remove: text_in(remove),
            error: text@,
        }),
        TunnelAction::Ignore@ == TunnelAsk::Ignore,
{
}

} // verus!
