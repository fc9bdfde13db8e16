//! The Docker daemon inside the Windows Subsystem for Linux, reached through a forwarder.

use vstd::prelude::*;

use crate::failure::{failure, report_of, Step};
use crate::text::{
    char_replaced, decimal, decimal_of, first_at, first_replaced, forward_slashes, joined,
    law_decimal_reads_back, number_of, occurs_at, occurs_in, push_text, replace_first, texts,
};

verus! {

/// How long the forwarder may take to say that it is ready, in nanoseconds.
pub const FORWARDER_TIMEOUT: u128 = 10_000_000_000;

/// How long to wait between two reads from the forwarder, in milliseconds.
pub const FORWARDER_PAUSE: u64 = 200;

/// How long the port of the forwarder may take to open, in nanoseconds.
pub const PORT_TIMEOUT: u128 = 5_000_000_000;

/// How long to wait between two looks at the port, in milliseconds.
pub const PORT_PAUSE: u64 = 100;

/// The byte with which the forwarder says that it is ready: the letter `R`.
pub const READY: u8 = 0x52;

/// The forwarder's script up to the port.
pub const SCRIPT_BEFORE_PORT: &'static str = "import socket, threading, sys, os

def forward(a, b):
    try:
        while True:
            d = a.recv(4096)
            if not d:
                break
            b.sendall(d)
    except:
        pass
    finally:
        try: a.close()
        except: pass
        try: b.close()
        except: pass

s = socket.socket()
s.setsockopt(socket.SOL_SOCKET, socket.SO_REUSEADDR, 1)
s.bind(('127.0.0.1', ";

/// The forwarder's script after the port.
pub const SCRIPT_AFTER_PORT: &'static str = "))
s.listen(5)
sys.stdout.write('R')
sys.stdout.flush()
while True:
    c, _ = s.accept()
    d = socket.socket(socket.AF_UNIX)
    d.connect('/var/run/docker.sock')
    threading.Thread(target=forward, args=(c, d), daemon=True).start()
    threading.Thread(target=forward, args=(d, c), daemon=True).start()
";

/// The name of the script file in the directory for temporary files.
pub const SCRIPT_NAME: &'static str = "docker_nm_wsl_proxy.py";

/// The search for a Docker daemon: what it waits to hear of, or whether it found one.
#[derive(Clone, Copy, Debug, PartialEq, Eq, Structural)]
pub enum WslProbe {
    /// Whether `docker version` succeeds.
    Version,
    /// Whether the Docker socket accepts a connection.
    Socket,
    /// The search is over.
    Settled(bool),
}

/// A forwarder that was started, and the address at which it is reached.
pub struct WslForwarder<C> {
    pub child: C,
    pub addr: String,
}

/// Where the start of a forwarder stands: what it waits to hear of.
#[derive(Clone, Copy, Debug, PartialEq, Eq, Structural)]
pub enum ForwarderPhase {
    Writing,
    Spawning,
    Reading,
    Timing,
    Pausing,
    Ended,
}

/// How the spawn of the forwarder went.
#[derive(Debug)]
pub enum ForwarderSpawn {
    /// The process runs, and its standard output can be read.
    Started,
    /// The process runs without a standard output.
    NoStdout,
    /// The process could not be spawned, for this reason.
    Failed(String),
}

/// What the start of a forwarder hears.
#[derive(Debug)]
pub enum ForwarderEvent {
    /// The script was written to this path, or could not be, for this reason.
    Written(Result<String, String>),
    /// How the spawn went.
    Spawned(ForwarderSpawn),
    /// The byte that was read, or nothing if reading failed.
    Read(Option<u8>),
    /// The time since the process was spawned, in nanoseconds.
    Elapsed(u128),
    /// The pause is over.
    Slept,
}

/// What the start of a forwarder asks for.
#[derive(Debug, PartialEq, Eq)]
pub enum ForwarderAction {
    /// Write this script.
    Write(String),
    /// Spawn the WSL program with these arguments.
    Spawn(Vec<String>),
    /// Read one byte from the standard output of the process.
    Read,
    /// See how much time has passed since the process was spawned.
    ReadClock,
    /// Pause for so many milliseconds.
    Sleep(u64),
    /// Nothing more: the forwarder is ready.
    Succeed,
    /// Nothing more than to kill and reap the process, if `kill` says so, and report this error.
    Fail { kill: bool, error: String },
    /// Nothing: what was heard is not what was asked.
    Ignore,
}

/// The start of a forwarder.
#[derive(Debug)]
pub struct ForwarderStart {
    pub phase: ForwarderPhase,
}

/// Where the attempt to connect stands: what it waits to hear of.
#[derive(Clone, Copy, Debug, PartialEq, Eq, Structural)]
pub enum WslPhase {
    Detecting,
    Examining,
    Stopping,
    FindingPort,
    Starting(u16),
    Keeping(u16),
    Probing(u16),
    Timing(u16),
    Pausing(u16),
    Ended,
}

/// What was found of the forwarder that was started before.
#[derive(Debug)]
pub enum ForwarderFound {
    /// It cannot be looked at.
    Unavailable,
    /// There is none.
    Absent,
    /// There is one at this address, and a TCP connection to it succeeds or does not.
    Present { addr: String, reachable: bool },
}

/// What the attempt to connect hears.
#[derive(Debug)]
pub enum WslEvent {
    /// Whether there is a Docker daemon.
    Detected(bool),
    /// What was found of the forwarder.
    Examined(ForwarderFound),
    /// The forwarder, if there was one, is stopped.
    Stopped,
    /// A free port, if one was found.
    PortFound(Option<u16>),
    /// Whether the forwarder was started.
    Started(bool),
    /// The forwarder is kept.
    Kept,
    /// Whether a TCP connection to the forwarder succeeds.
    Probed(bool),
    /// The time since the forwarder was kept, in nanoseconds.
    Elapsed(u128),
    /// The pause is over.
    Slept,
}

/// What the attempt to connect asks for.
#[derive(Debug, PartialEq, Eq)]
pub enum WslAction {
    /// See whether there is a Docker daemon.
    Detect,
    /// See what there is of a forwarder.
    Examine,
    /// Stop the forwarder, if there is one.
    Stop,
    /// Find a free port.
    FindPort,
    /// Start a forwarder on this port.
    Start(u16),
    /// Keep the forwarder that was started, under this address.
    Keep(String),
    /// See whether a TCP connection to this address succeeds.
    Probe(String),
    /// See how much time has passed since the forwarder was kept.
    ReadClock,
    /// Pause for so many milliseconds.
    Sleep(u64),
    /// Nothing more: Docker is reached at this address.
    Use(String),
    /// Nothing more: Docker is not reached here.
    GiveUp,
    /// Nothing: what was heard is not what was asked.
    Ignore,
}

/// The attempt to connect to the Docker daemon.
#[derive(Debug)]
pub struct WslConnect {
    pub phase: WslPhase,
}

// ---- models ----

/// The forwarder's script for `port`.
pub open spec fn script_for(port: u16) -> Seq<char> {
    SCRIPT_BEFORE_PORT@ + decimal_of(port as nat) + SCRIPT_AFTER_PORT@
}

/// The path by which Linux knows the Windows path `path`: with slashes, and with the drive `C`, `D`
/// or `E` below `/mnt`.
pub open spec fn wsl_path_of(path: Seq<char>) -> Seq<char> {
    let slashed = char_replaced(path, '\\', '/');
    let c = first_replaced(slashed, "C:"@, "/mnt/c"@);
    let d = first_replaced(c, "D:"@, "/mnt/d"@);
    first_replaced(d, "E:"@, "/mnt/e"@)
}

/// The address of `port` on this machine.
pub open spec fn loopback_addr_of(port: u16) -> Seq<char> {
    "127.0.0.1:"@ + decimal_of(port as nat)
}

/// The WSL program to try once so many were tried in vain.
pub open spec fn wsl_program_of(failed: nat) -> Option<Seq<char>> {
    if failed == 0 {
        Some("wsl.exe"@)
    } else if failed == 1 {
        Some("C:\\Windows\\System32\\wsl.exe"@)
    } else {
        None
    }
}

/// What the WSL program is run with for a step of the search.
pub open spec fn probe_args_of(probe: WslProbe) -> Seq<Seq<char>> {
    match probe {
        WslProbe::Version => seq!["docker"@, "version"@, "--format"@, "{{.Server.Version}}"@],
        WslProbe::Socket => seq![
            "python3"@,
            "-c"@,
            "import socket;s=socket.socket(socket.AF_UNIX);s.settimeout(2);s.connect('/var/run/docker.sock');s.close()"@,
        ],
        WslProbe::Settled(_) => Seq::empty(),
    }
}

/// Where the search stands once it has heard whether the program it ran succeeded.
pub open spec fn probe_step(probe: WslProbe, success: bool) -> WslProbe {
    match probe {
        WslProbe::Version => if success {
            WslProbe::Settled(true)
        } else {
            WslProbe::Socket
        },
        WslProbe::Socket => WslProbe::Settled(success),
        WslProbe::Settled(found) => WslProbe::Settled(found),
    }
}

/// What a `ForwarderAction` asks.
pub ghost enum ForwarderAsk {
    Write(Seq<char>),
    Spawn(Seq<Seq<char>>),
    Read,
    ReadClock,
    Sleep(u64),
    Succeed,
    Fail { kill: bool, error: Seq<char> },
    Ignore,
}

impl View for ForwarderAction {
    type V = ForwarderAsk;

    open spec fn view(&self) -> ForwarderAsk {
        match *self {
            ForwarderAction::Write(script) => ForwarderAsk::Write(script@),
            ForwarderAction::Spawn(args) => ForwarderAsk::Spawn(texts(args@)),
            ForwarderAction::Read => ForwarderAsk::Read,
            ForwarderAction::ReadClock => ForwarderAsk::ReadClock,
            ForwarderAction::Sleep(millis) => ForwarderAsk::Sleep(millis),
            ForwarderAction::Succeed => ForwarderAsk::Succeed,
            ForwarderAction::Fail { kill, error } => ForwarderAsk::Fail { kill, error: error@ },
            ForwarderAction::Ignore => ForwarderAsk::Ignore,
        }
    }
}

/// A start that ends with an error.
pub open spec fn forwarder_failure(kill: bool, error: Seq<char>) -> (ForwarderPhase, ForwarderAsk) {
    (ForwarderPhase::Ended, ForwarderAsk::Fail { kill, error })
}

/// Where the start of a forwarder stands once it has heard an event, and what it then asks.
pub open spec fn forwarder_step(phase: ForwarderPhase, event: ForwarderEvent) -> (
    ForwarderPhase,
    ForwarderAsk,
) {
    match (phase, event) {
        (ForwarderPhase::Writing, ForwarderEvent::Written(written)) => match written {
            Ok(path) => (
                ForwarderPhase::Spawning,
                ForwarderAsk::Spawn(seq!["python3"@, wsl_path_of(path@)]),
            ),
            Err(reason) => forwarder_failure(false, report_of(Step::WriteWslScript) + reason@),
        },
        (ForwarderPhase::Spawning, ForwarderEvent::Spawned(spawn)) => match spawn {
            ForwarderSpawn::Started => (ForwarderPhase::Reading, ForwarderAsk::Read),
            ForwarderSpawn::NoStdout => forwarder_failure(false, "No stdout from WSL forwarder"@),
            ForwarderSpawn::Failed(reason) => forwarder_failure(
                false,
                report_of(Step::StartWslForwarder) + reason@,
            ),
        },
        (ForwarderPhase::Reading, ForwarderEvent::Read(byte)) => match byte {
            Some(b) => if b == READY {
                (ForwarderPhase::Ended, ForwarderAsk::Succeed)
            } else {
                (ForwarderPhase::Timing, ForwarderAsk::ReadClock)
            },
            None => forwarder_failure(true, "WSL forwarder failed to send ready signal."@),
        },
        (ForwarderPhase::Timing, ForwarderEvent::Elapsed(nanos)) => if nanos > FORWARDER_TIMEOUT {
            forwarder_failure(true, "WSL Docker forwarder timed out."@)
        } else {
            (ForwarderPhase::Pausing, ForwarderAsk::Sleep(FORWARDER_PAUSE))
        },
        (ForwarderPhase::Pausing, ForwarderEvent::Slept) => (
            ForwarderPhase::Reading,
            ForwarderAsk::Read,
        ),
        _ => (phase, ForwarderAsk::Ignore),
    }
}

/// What a `WslAction` asks.
pub ghost enum WslAsk {
    Detect,
    Examine,
    Stop,
    FindPort,
    Start(u16),
    Keep(Seq<char>),
    Probe(Seq<char>),
    ReadClock,
    Sleep(u64),
    Use(Seq<char>),
    GiveUp,
    Ignore,
}

impl View for WslAction {
    type V = WslAsk;

    open spec fn view(&self) -> WslAsk {
        match *self {
            WslAction::Detect => WslAsk::Detect,
            WslAction::Examine => WslAsk::Examine,
            WslAction::Stop => WslAsk::Stop,
            WslAction::FindPort => WslAsk::FindPort,
            WslAction::Start(port) => WslAsk::Start(port),
            WslAction::Keep(addr) => WslAsk::Keep(addr@),
            WslAction::Probe(addr) => WslAsk::Probe(addr@),
            WslAction::ReadClock => WslAsk::ReadClock,
            WslAction::Sleep(millis) => WslAsk::Sleep(millis),
            WslAction::Use(addr) => WslAsk::Use(addr@),
            WslAction::GiveUp => WslAsk::GiveUp,
            WslAction::Ignore => WslAsk::Ignore,
        }
    }
}

/// Where the attempt to connect stands once it has heard an event, and what it then asks.
pub open spec fn wsl_step(phase: WslPhase, event: WslEvent) -> (WslPhase, WslAsk) {
    match (phase, event) {
        (WslPhase::Detecting, WslEvent::Detected(found)) => if found {
            (WslPhase::Examining, WslAsk::Examine)
        } else {
            (WslPhase::Ended, WslAsk::GiveUp)
        },
        (WslPhase::Examining, WslEvent::Examined(forwarder)) => match forwarder {
            ForwarderFound::Unavailable => (WslPhase::Ended, WslAsk::GiveUp),
            ForwarderFound::Absent => (WslPhase::Stopping, WslAsk::Stop),
            ForwarderFound::Present { addr, reachable } => if reachable {
                (WslPhase::Ended, WslAsk::Use(addr@))
            } else {
                (WslPhase::Stopping, WslAsk::Stop)
            },
        },
        (WslPhase::Stopping, WslEvent::Stopped) => (WslPhase::FindingPort, WslAsk::FindPort),
        (WslPhase::FindingPort, WslEvent::PortFound(found)) => match found {
            Some(port) => (WslPhase::Starting(port), WslAsk::Start(port)),
            None => (WslPhase::Ended, WslAsk::GiveUp),
        },
        (WslPhase::Starting(port), WslEvent::Started(started)) => if started {
            (WslPhase::Keeping(port), WslAsk::Keep(loopback_addr_of(port)))
        } else {
            (WslPhase::Ended, WslAsk::GiveUp)
        },
        (WslPhase::Keeping(port), WslEvent::Kept) => (
            WslPhase::Probing(port),
            WslAsk::Probe(loopback_addr_of(port)),
        ),
        (WslPhase::Probing(port), WslEvent::Probed(open)) => if open {
            (WslPhase::Ended, WslAsk::Use(loopback_addr_of(port)))
        } else {
            (WslPhase::Timing(port), WslAsk::ReadClock)
        },
        (WslPhase::Timing(port), WslEvent::Elapsed(nanos)) => if nanos > PORT_TIMEOUT {
            (WslPhase::Ended, WslAsk::GiveUp)
        } else {
            (WslPhase::Pausing(port), WslAsk::Sleep(PORT_PAUSE))
        },
        (WslPhase::Pausing(port), WslEvent::Slept) => (
            WslPhase::Probing(port),
            WslAsk::Probe(loopback_addr_of(port)),
        ),
        _ => (phase, WslAsk::Ignore),
    }
}

// ---- functions ----

/// The forwarder's script for `port`.
pub fn write_wsl_script(port: u16) -> (script: String)
    ensures
        script@ == script_for(port),
{
    let mut script = joined(SCRIPT_BEFORE_PORT, decimal(port as u32).as_str());
    script.append(SCRIPT_AFTER_PORT);
    script
}

/// The path by which Linux knows the Windows path `path`.
pub fn wsl_path(path: &str) -> (linux: String)
    ensures
        linux@ == wsl_path_of(path@),
{
    let slashed = forward_slashes(path);
    let c = replace_first(slashed.as_str(), "C:", "/mnt/c");
    let d = replace_first(c.as_str(), "D:", "/mnt/d");
    replace_first(d.as_str(), "E:", "/mnt/e")
}

/// The address of `port` on this machine.
pub fn loopback_addr(port: u16) -> (addr: String)
    ensures
        addr@ == loopback_addr_of(port),
        addr@ == "127.0.0.1:"@ + decimal_of(port as nat),
        number_of(addr@.skip("127.0.0.1:"@.len() as int)) == port,
{
    proof {
        law_address_is_the_port(port);
    }
    joined("127.0.0.1:", decimal(port as u32).as_str())
}

/// The WSL program to run, given how many were tried in vain.
pub fn run_wsl(failed: usize) -> (program: Option<&'static str>)
    ensures
        match program {
            Some(p) => wsl_program_of(failed as nat) == Some(p@),
            None => wsl_program_of(failed as nat) is None,
        },
{
    match failed {
        0 => Some("wsl.exe"),
        1 => Some("C:\\Windows\\System32\\wsl.exe"),
        _ => None,
    }
}

/// Begins the search for a Docker daemon, given whether one was found before.
pub fn try_wsl_docker(detected: bool) -> (probe: WslProbe)
    ensures
        probe == (if detected {
            WslProbe::Settled(true)
        } else {
            WslProbe::Version
        }),
{
    if detected {
        WslProbe::Settled(true)
    } else {
        WslProbe::Version
    }
}

impl WslProbe {
    /// What to run the WSL program with.
    pub fn args(&self) -> (args: Vec<String>)
        ensures
            texts(args@) == probe_args_of(*self),
    {
        let mut args: Vec<String> = Vec::new();
        match self {
            WslProbe::Version => {
                push_text(&mut args, "docker");
                push_text(&mut args, "version");
                push_text(&mut args, "--format");
                push_text(&mut args, "{{.Server.Version}}");
            },
            WslProbe::Socket => {
                push_text(&mut args, "python3");
                push_text(&mut args, "-c");
                push_text(
                    &mut args,
                    "import socket;s=socket.socket(socket.AF_UNIX);s.settimeout(2);s.connect('/var/run/docker.sock');s.close()",
                );
            },
            WslProbe::Settled(_) => {},
        }
        assert(texts(args@) =~= probe_args_of(*self));
        args
    }

    /// Hears whether the program that was run succeeded.
    pub fn step(&mut self, success: bool)
        ensures
            *final(self) == probe_step(*old(self), success),
    {
        *self = match *self {
            WslProbe::Version => if success {
                WslProbe::Settled(true)
            } else {
                WslProbe::Socket
            },
            WslProbe::Socket => WslProbe::Settled(success),
            WslProbe::Settled(found) => WslProbe::Settled(found),
        };
    }
}

/// Begins the start of a forwarder on `port`.
pub fn start_wsl_forwarder(port: u16) -> (begun: (ForwarderStart, ForwarderAction))
    ensures
        begun.0.phase == ForwarderPhase::Writing,
        begun.1@ == ForwarderAsk::Write(script_for(port)),
{
    (
        ForwarderStart { phase: ForwarderPhase::Writing },
        ForwarderAction::Write(write_wsl_script(port)),
    )
}

impl ForwarderStart {
    /// Ends the start with an error.
    fn fail(&mut self, kill: bool, error: String) -> (action: ForwarderAction)
        ensures
            (final(self).phase, action@) == forwarder_failure(kill, error@),
    {
        self.phase = ForwarderPhase::Ended;
        ForwarderAction::Fail { kill, error }
    }

    /// Hears an event and asks for what comes next.
    pub fn step(&mut self, event: ForwarderEvent) -> (action: ForwarderAction)
        ensures
            (final(self).phase, action@) == forwarder_step(old(self).phase, event),
    {
        match (self.phase, event) {
            (ForwarderPhase::Writing, ForwarderEvent::Written(written)) => match written {
                Ok(path) => {
                    self.phase = ForwarderPhase::Spawning;
                    let mut args: Vec<String> = Vec::new();
                    push_text(&mut args, "python3");
                    push_text(&mut args, wsl_path(path.as_str()).as_str());
                    assert(texts(args@) =~= seq!["python3"@, wsl_path_of(path@)]);
                    ForwarderAction::Spawn(args)
                },
                Err(reason) => self.fail(false, failure(Step::WriteWslScript, reason.as_str())),
            },
            (ForwarderPhase::Spawning, ForwarderEvent::Spawned(spawn)) => match spawn {
                ForwarderSpawn::Started => {
                    self.phase = ForwarderPhase::Reading;
                    ForwarderAction::Read
                },
                ForwarderSpawn::NoStdout => {
                    self.fail(false, "No stdout from WSL forwarder".to_owned())
                },
                ForwarderSpawn::Failed(reason) => {
                    self.fail(false, failure(Step::StartWslForwarder, reason.as_str()))
                },
            },
            (ForwarderPhase::Reading, ForwarderEvent::Read(byte)) => match byte {
                Some(b) => if b == READY {
                    self.phase = ForwarderPhase::Ended;
                    ForwarderAction::Succeed
                } else {
                    self.phase = ForwarderPhase::Timing;
                    ForwarderAction::ReadClock
                },
                None => {
                    self.fail(true, "WSL forwarder failed to send ready signal.".to_owned())
                },
            },
            (ForwarderPhase::Timing, ForwarderEvent::Elapsed(nanos)) => if nanos
                > FORWARDER_TIMEOUT {
                self.fail(true, "WSL Docker forwarder timed out.".to_owned())
            } else {
                self.phase = ForwarderPhase::Pausing;
                ForwarderAction::Sleep(FORWARDER_PAUSE)
            },
            (ForwarderPhase::Pausing, ForwarderEvent::Slept) => {
                self.phase = ForwarderPhase::Reading;
                ForwarderAction::Read
            },
            _ => ForwarderAction::Ignore,
        }
    }
}

/// Begins the attempt to connect to the Docker daemon.
pub fn try_connect_wsl() -> (begun: (WslConnect, WslAction))
    ensures
        begun.0.phase == WslPhase::Detecting,
        begun.1@ == WslAsk::Detect,
{
    (WslConnect { phase: WslPhase::Detecting }, WslAction::Detect)
}

impl WslConnect {
    /// Goes on to a phase with an action.
    fn go(&mut self, phase: WslPhase, action: WslAction) -> (asked: WslAction)
        ensures
            final(self).phase == phase,
            asked == action,
    {
        self.phase = phase;
        action
    }

    /// Hears an event and asks for what comes next.
    pub fn step(&mut self, event: WslEvent) -> (action: WslAction)
        ensures
            (final(self).phase, action@) == wsl_step(old(self).phase, event),
    {
        match (self.phase, event) {
            (WslPhase::Detecting, WslEvent::Detected(found)) => if found {
                self.go(WslPhase::Examining, WslAction::Examine)
            } else {
                self.go(WslPhase::Ended, WslAction::GiveUp)
            },
            (WslPhase::Examining, WslEvent::Examined(forwarder)) => match forwarder {
                ForwarderFound::Unavailable => self.go(WslPhase::Ended, WslAction::GiveUp),
                ForwarderFound::Absent => self.go(WslPhase::Stopping, WslAction::Stop),
                ForwarderFound::Present { addr, reachable } => if reachable {
                    self.go(WslPhase::Ended, WslAction::Use(addr))
                } else {
                    self.go(WslPhase::Stopping, WslAction::Stop)
                },
            },
            (WslPhase::Stopping, WslEvent::Stopped) => self.go(
                WslPhase::FindingPort,
                WslAction::FindPort,
            ),
            (WslPhase::FindingPort, WslEvent::PortFound(found)) => match found {
                Some(port) => self.go(WslPhase::Starting(port), WslAction::Start(port)),
                None => self.go(WslPhase::Ended, WslAction::GiveUp),
            },
            (WslPhase::Starting(port), WslEvent::Started(started)) => if started {
                self.go(WslPhase::Keeping(port), WslAction::Keep(loopback_addr(port)))
            } else {
                self.go(WslPhase::Ended, WslAction::GiveUp)
            },
            (WslPhase::Keeping(port), WslEvent::Kept) => self.go(
                WslPhase::Probing(port),
                WslAction::Probe(loopback_addr(port)),
            ),
            (WslPhase::Probing(port), WslEvent::Probed(open)) => if open {
                self.go(WslPhase::Ended, WslAction::Use(loopback_addr(port)))
            } else {
                self.go(WslPhase::Timing(port), WslAction::ReadClock)
            },
            (WslPhase::Timing(port), WslEvent::Elapsed(nanos)) => if nanos > PORT_TIMEOUT {
                self.go(WslPhase::Ended, WslAction::GiveUp)
            } else {
                self.go(WslPhase::Pausing(port), WslAction::Sleep(PORT_PAUSE))
            },
            (WslPhase::Pausing(port), WslEvent::Slept) => self.go(
                WslPhase::Probing(port),
                WslAction::Probe(loopback_addr(port)),
            ),
            _ => WslAction::Ignore,
        }
    }
}

/// Takes down the forwarder, if there is one: what it gives back is the process to kill and reap.
pub fn stop_wsl_forwarder<C>(forwarder: &mut Option<WslForwarder<C>>) -> (child: Option<C>)
    ensures
        *final(forwarder) is None,
        match *old(forwarder) {
            Some(f) => child == Some(f.child),
            None => child is None,
        },
{
    match forwarder.take() {
        Some(f) => Some(f.child),
        None => None,
    }
}

/// Keeps a forwarder that was started.
pub fn keep_wsl_forwarder<C>(forwarder: &mut Option<WslForwarder<C>>, child: C, addr: &str)
    ensures
        *final(forwarder) matches Some(f) && f.child == child && f.addr@ == addr@,
{
    *forwarder = Some(WslForwarder { child, addr: addr.to_owned() });
}

// ---- laws ----

/// The search finds a daemon exactly when one was found before, or `docker version` succeeds, or the
/// socket accepts a connection; it is over after two runs at most.
pub proof fn law_search(detected: bool, version: bool, socket: bool)
    ensures
        ({
            let begun = if detected {
                WslProbe::Settled(true)
            } else {
                WslProbe::Version
            };
            probe_step(probe_step(begun, version), socket) == WslProbe::Settled(
                detected || version || socket,
            )
        }),
{
}

/// One round of waiting for the forwarder: the byte that is read, if any, and the time.
pub ghost struct ForwarderRound {
    pub byte: Option<u8>,
    pub nanos: u128,
}

/// Whether a round leaves the start waiting.
pub open spec fn forwarder_waits(round: ForwarderRound) -> bool {
    round.byte is Some && round.byte != Some(READY) && round.nanos <= FORWARDER_TIMEOUT
}

/// What the start of a forwarder ends with over these rounds, one step after another; nothing, if it
/// still waits after the last.
pub open spec fn forwarder_end(rounds: Seq<ForwarderRound>) -> Option<ForwarderAsk>
    decreases rounds.len(),
{
    if rounds.len() == 0 {
        None
    } else {
        let round = rounds.first();
        let (read, said) = forwarder_step(
            ForwarderPhase::Reading,
            ForwarderEvent::Read(round.byte),
        );
        if read == ForwarderPhase::Ended {
            Some(said)
        } else {
            let (timed, late) = forwarder_step(read, ForwarderEvent::Elapsed(round.nanos));
            if timed == ForwarderPhase::Ended {
                Some(late)
            } else if forwarder_step(timed, ForwarderEvent::Slept).0 == ForwarderPhase::Reading {
                forwarder_end(rounds.drop_first())
            } else {
                None
            }
        }
    }
}

/// The start of a forwarder succeeds exactly when it says that it is ready and every round before
/// leaves the start waiting.
pub proof fn law_forwarder_succeeds(rounds: Seq<ForwarderRound>)
    ensures
        forwarder_end(rounds) == Some(ForwarderAsk::Succeed) <==> (exists|k: int|
            0 <= k < rounds.len() && #[trigger] rounds[k].byte == Some(READY) && forall|j: int|
                0 <= j < k ==> forwarder_waits(#[trigger] rounds[j])),
    decreases rounds.len(),
{
    if rounds.len() > 0 {
        let rest = rounds.drop_first();
        law_forwarder_succeeds(rest);
        if rounds[0].byte != Some(READY) && forwarder_waits(rounds[0]) {
            assert(forwarder_end(rounds) == forwarder_end(rest));
            if exists|k: int|
                0 <= k < rest.len() && #[trigger] rest[k].byte == Some(READY) && forall|j: int|
                    0 <= j < k ==> forwarder_waits(#[trigger] rest[j]) {
                let k = choose|k: int|
                    0 <= k < rest.len() && #[trigger] rest[k].byte == Some(READY) && forall|j: int|
                        0 <= j < k ==> forwarder_waits(#[trigger] rest[j]);
                assert forall|j: int| 0 <= j < k + 1 implies forwarder_waits(
                    #[trigger] rounds[j],
                ) by {
                    if j > 0 {
                        assert(rest[j - 1] == rounds[j]);
                    }
                }
                assert(rounds[k + 1].byte == Some(READY));
            }
            if exists|k: int|
                0 <= k < rounds.len() && #[trigger] rounds[k].byte == Some(READY) && forall|j: int|
                    0 <= j < k ==> forwarder_waits(#[trigger] rounds[j]) {
                let k = choose|k: int|
                    0 <= k < rounds.len() && #[trigger] rounds[k].byte == Some(READY)
                        && forall|j: int| 0 <= j < k ==> forwarder_waits(#[trigger] rounds[j]);
                assert forall|j: int| 0 <= j < k - 1 implies forwarder_waits(#[trigger] rest[j]) by {
                    assert(rest[j] == rounds[j + 1]);
                }
                assert(rest[k - 1].byte == Some(READY));
            }
        }
    }
}

/// A forwarder that fails while it is waited for is killed.
pub proof fn law_failed_forwarder_is_killed(rounds: Seq<ForwarderRound>)
    ensures
        forwarder_end(rounds) matches Some(ForwarderAsk::Fail { kill, error }) ==> kill,
    decreases rounds.len(),
{
    if rounds.len() > 0 {
        law_failed_forwarder_is_killed(rounds.drop_first());
    }
}

/// The start of a forwarder does not outlast its time: once a round finds the time over, it has
/// ended.
pub proof fn law_forwarder_ends(rounds: Seq<ForwarderRound>, k: int)
    requires
        0 <= k < rounds.len(),
        rounds[k].nanos > FORWARDER_TIMEOUT,
    ensures
        forwarder_end(rounds) is Some,
    decreases rounds.len(),
{
    if forwarder_waits(rounds[0]) {
        law_forwarder_ends(rounds.drop_first(), k - 1);
    }
}

/// One round of waiting for the port of the forwarder.
pub ghost struct PortRound {
    pub open: bool,
    pub nanos: u128,
}

/// What the attempt to connect ends with over these rounds of waiting for `port`, one step after
/// another; nothing, if it still waits after the last.
pub open spec fn port_end(port: u16, rounds: Seq<PortRound>) -> Option<WslAsk>
    decreases rounds.len(),
{
    if rounds.len() == 0 {
        None
    } else {
        let round = rounds.first();
        let (probed, used) = wsl_step(WslPhase::Probing(port), WslEvent::Probed(round.open));
        if probed == WslPhase::Ended {
            Some(used)
        } else {
            let (timed, late) = wsl_step(probed, WslEvent::Elapsed(round.nanos));
            if timed == WslPhase::Ended {
                Some(late)
            } else if wsl_step(timed, WslEvent::Slept).0 == WslPhase::Probing(port) {
                port_end(port, rounds.drop_first())
            } else {
                None
            }
        }
    }
}

/// Once the time is over the attempt has ended, and it ends with the address of the forwarder or
/// with giving up. With the port open in some round and the time not over before, it is the address.
pub proof fn law_port_is_waited_for(port: u16, rounds: Seq<PortRound>, k: int)
    requires
        0 <= k < rounds.len(),
    ensures
        rounds[k].nanos > PORT_TIMEOUT ==> port_end(port, rounds) is Some,
        port_end(port, rounds) matches Some(end) ==> end == WslAsk::Use(loopback_addr_of(port))
            || end == WslAsk::GiveUp,
        rounds[k].open && (forall|j: int|
            0 <= j < k ==> (#[trigger] rounds[j]).nanos <= PORT_TIMEOUT) ==> port_end(port, rounds)
            == Some(WslAsk::Use(loopback_addr_of(port))),
    decreases rounds.len(),
{
    let rest = rounds.drop_first();
    if k > 0 {
        law_port_is_waited_for(port, rest, k - 1);
        assert(rest[k - 1] == rounds[k]);
        if forall|j: int| 0 <= j < k ==> (#[trigger] rounds[j]).nanos <= PORT_TIMEOUT {
            assert(rounds[0].nanos <= PORT_TIMEOUT);
            assert forall|j: int| 0 <= j < k - 1 implies (#[trigger] rest[j]).nanos
                <= PORT_TIMEOUT by {
                assert(rest[j] == rounds[j + 1]);
            }
        }
    } else if rest.len() > 0 {
        law_port_is_waited_for(port, rest, 0);
    }
}

/// What the outside answers to the attempt to connect before the port is waited for.
pub ghost struct WslWorld {
    pub detected: bool,
    pub forwarder: ForwarderFound,
    pub port: Option<u16>,
    pub started: bool,
}

/// The answer to what is asked.
pub open spec fn wsl_answer(world: WslWorld, ask: WslAsk) -> WslEvent {
    match ask {
        WslAsk::Detect => WslEvent::Detected(world.detected),
        WslAsk::Examine => WslEvent::Examined(world.forwarder),
        WslAsk::Stop => WslEvent::Stopped,
        WslAsk::FindPort => WslEvent::PortFound(world.port),
        WslAsk::Start(_) => WslEvent::Started(world.started),
        _ => WslEvent::Kept,
    }
}

/// All that is asked from a point on, in order, over at most so many steps, until the port is waited
/// for or the attempt ends.
pub open spec fn wsl_run(world: WslWorld, at: (WslPhase, WslAsk), steps: nat) -> Seq<WslAsk>
    decreases steps,
{
    if steps == 0 || at.0 is Ended || at.0 is Probing {
        seq![at.1]
    } else {
        seq![at.1] + wsl_run(world, wsl_step(at.0, wsl_answer(world, at.1)), (steps - 1) as nat)
    }
}

/// Whether the forwarder that was started before can be used as it is.
pub open spec fn forwarder_usable(found: ForwarderFound) -> bool {
    found matches ForwarderFound::Present { reachable, .. } && reachable
}

/// All that the attempt to connect asks until the port is waited for or the attempt ends.
pub open spec fn wsl_asks(world: WslWorld) -> Seq<WslAsk> {
    if !world.detected {
        seq![WslAsk::Detect, WslAsk::GiveUp]
    } else if world.forwarder is Unavailable {
        seq![WslAsk::Detect, WslAsk::Examine, WslAsk::GiveUp]
    } else if forwarder_usable(world.forwarder) {
        seq![WslAsk::Detect, WslAsk::Examine, WslAsk::Use(world.forwarder->addr@)]
    } else {
        seq![WslAsk::Detect, WslAsk::Examine, WslAsk::Stop, WslAsk::FindPort] + match world.port {
            None => seq![WslAsk::GiveUp],
            Some(port) => if world.started {
                seq![
                    WslAsk::Start(port),
                    WslAsk::Keep(loopback_addr_of(port)),
                    WslAsk::Probe(loopback_addr_of(port)),
                ]
            } else {
                seq![WslAsk::Start(port), WslAsk::GiveUp]
            },
        }
    }
}

/// The attempt to connect asks for exactly this, whatever the outside answers: a forwarder that can
/// be reached is used as it is, and another is started only once the one before is stopped.
pub proof fn law_the_attempt(world: WslWorld, steps: nat)
    requires
        steps >= 6,
    ensures
        wsl_run(world, (WslPhase::Detecting, WslAsk::Detect), steps) == wsl_asks(world),
{
    reveal_with_fuel(wsl_run, 7);
    assert(wsl_run(world, (WslPhase::Detecting, WslAsk::Detect), steps) =~= wsl_asks(world));
}

/// A Windows path on one of the drives `C`, `D` and `E`, in which neither of the other two is named,
/// is known to Linux as the same path with slashes below the directory of that drive.
pub proof fn law_drive_paths(rest: Seq<char>)
    ensures
        ({
            let slashed = char_replaced(rest, '\\', '/');
            let names_c = occurs_in(slashed, "C:"@);
            let names_d = occurs_in(slashed, "D:"@);
            let names_e = occurs_in(slashed, "E:"@);
            &&& !names_d && !names_e ==> wsl_path_of("C:"@ + rest) == "/mnt/c"@ + slashed
            &&& !names_c && !names_e ==> wsl_path_of("D:"@ + rest) == "/mnt/d"@ + slashed
            &&& !names_c && !names_d ==> wsl_path_of("E:"@ + rest) == "/mnt/e"@ + slashed
        }),
{
    reveal_strlit("C:");
    reveal_strlit("D:");
    reveal_strlit("E:");
    reveal_strlit("/mnt/c");
    reveal_strlit("/mnt/d");
    reveal_strlit("/mnt/e");
    let slashed = char_replaced(rest, '\\', '/');
    assert(char_replaced("C:"@ + rest, '\\', '/') =~= "C:"@ + slashed);
    assert(char_replaced("D:"@ + rest, '\\', '/') =~= "D:"@ + slashed);
    assert(char_replaced("E:"@ + rest, '\\', '/') =~= "E:"@ + slashed);
    lemma_replaced_at_start("C:"@, slashed, "/mnt/c"@);
    lemma_replaced_at_start("D:"@, slashed, "/mnt/d"@);
    lemma_replaced_at_start("E:"@, slashed, "/mnt/e"@);
    if !occurs_in(slashed, "C:"@) {
        lemma_not_replaced("D:"@, slashed, "C:"@, "/mnt/c"@);
        lemma_not_replaced("E:"@, slashed, "C:"@, "/mnt/c"@);
    }
    if !occurs_in(slashed, "D:"@) {
        lemma_not_replaced("/mnt/c"@, slashed, "D:"@, "/mnt/d"@);
        lemma_not_replaced("E:"@, slashed, "D:"@, "/mnt/d"@);
    }
    if !occurs_in(slashed, "E:"@) {
        lemma_not_replaced("/mnt/c"@, slashed, "E:"@, "/mnt/e"@);
        lemma_not_replaced("/mnt/d"@, slashed, "E:"@, "/mnt/e"@);
    }
}

/// What stands at the start is replaced there.
proof fn lemma_replaced_at_start(pattern: Seq<char>, rest: Seq<char>, with: Seq<char>)
    ensures
        first_replaced(pattern + rest, pattern, with) == with + rest,
{
    let s = pattern + rest;
    assert(s.subrange(0, pattern.len() as int) =~= pattern);
    assert(first_at(s, pattern, 0));
    let i = choose|i: int| first_at(s, pattern, i);
    assert(i == 0);
    assert(s.take(0) + with + s.skip(pattern.len() as int) =~= with + rest);
}

/// What stands neither in `rest` nor begins in `start` is not replaced.
proof fn lemma_not_replaced(start: Seq<char>, rest: Seq<char>, pattern: Seq<char>, with: Seq<char>)
    requires
        pattern.len() > 0,
        !start.contains(pattern[0]),
        !occurs_in(rest, pattern),
    ensures
        first_replaced(start + rest, pattern, with) == start + rest,
{
    let s = start + rest;
    assert forall|i: int| !first_at(s, pattern, i) by {
        if occurs_at(s, pattern, i) {
            assert(s.subrange(i, i + pattern.len())[0] == s[i]);
            if i < start.len() {
                assert(start[i] == pattern[0]);
            } else {
                assert(rest.subrange(i - start.len(), i - start.len() + pattern.len()) =~= s.subrange(
                    i,
                    i + pattern.len(),
                ));
                assert(occurs_at(rest, pattern, i - start.len()));
            }
        }
    }
}

/// The address of a port on this machine is the loopback address and the port: its digits, read as a
/// number, are the port itself, whatever the port, and they are the digits that the script binds.
pub proof fn law_address_is_the_port(port: u16)
    ensures
        ({
            let addr = loopback_addr_of(port);
            let digits = addr.skip("127.0.0.1:"@.len() as int);
            &&& addr == "127.0.0.1:"@ + digits
            &&& digits == decimal_of(port as nat)
            &&& number_of(digits) == port
            &&& digits.len() > 0
            &&& forall|i: int| 0 <= i < digits.len() ==> '0' <= #[trigger] digits[i] <= '9'
            &&& digits.len() > 1 ==> digits.first() != '0'
            &&& script_for(port) == SCRIPT_BEFORE_PORT@ + digits + SCRIPT_AFTER_PORT@
        }),
{
    let addr = loopback_addr_of(port);
    assert(addr.skip("127.0.0.1:"@.len() as int) =~= decimal_of(port as nat));
    law_decimal_reads_back(port as nat);
}

/// Different ports have different addresses, and different scripts.
pub proof fn law_ports_differ(a: u16, b: u16)
    requires
        a != b,
    ensures
        loopback_addr_of(a) != loopback_addr_of(b),
        script_for(a) != script_for(b),
{
    law_address_is_the_port(a);
    law_address_is_the_port(b);
    if script_for(a) == script_for(b) {
        let before = SCRIPT_BEFORE_PORT@.len() as int;
        let after = script_for(a).len() - SCRIPT_AFTER_PORT@.len();
        assert(script_for(a).subrange(before, after) =~= decimal_of(a as nat));
        assert(script_for(b).subrange(before, after) =~= decimal_of(b as nat));
    }
}

/// The forwarder is started on the port that was found, and from then on what is kept, probed and used
/// is the address of that same port: the loopback address and digits that, read as a number, are the
/// port.
pub proof fn law_forwarder_is_reached_at_its_port(port: u16)
    ensures
        wsl_step(WslPhase::FindingPort, WslEvent::PortFound(Some(port))) == (
            WslPhase::Starting(port),
            WslAsk::Start(port),
        ),
        ({
            let kept = wsl_step(WslPhase::Starting(port), WslEvent::Started(true));
            let probed = wsl_step(kept.0, WslEvent::Kept);
            let used = wsl_step(probed.0, WslEvent::Probed(true));
            let closed = wsl_step(probed.0, WslEvent::Probed(false));
            let waited = wsl_step(closed.0, WslEvent::Elapsed(0));
            let again = wsl_step(waited.0, WslEvent::Slept);
            &&& kept.1 matches WslAsk::Keep(addr)
            &&& probed.1 == WslAsk::Probe(addr)
            &&& used == (WslPhase::Ended, WslAsk::Use(addr))
            &&& again.1 == WslAsk::Probe(addr)
            &&& again.0 == probed.0
            &&& "127.0.0.1:"@.is_prefix_of(addr)
            &&& number_of(addr.skip("127.0.0.1:"@.len() as int)) == port
            &&& addr == "127.0.0.1:"@ + decimal_of(port as nat)
        }),
{
    law_address_is_the_port(port);
    assert(loopback_addr_of(port).subrange(0, "127.0.0.1:"@.len() as int) =~= "127.0.0.1:"@);
}

/// The forwarder listens at the port on this machine only, says that it is ready once it does, and
/// carries bytes both ways between what connects to it and the socket of the daemon.
pub proof fn law_script(port: u16)
    ensures
        script_for(port) == "import socket, threading, sys, os

def forward(a, b):
    try:
        while True:
            d = a.recv(4096)
            if not d:
                break
            b.sendall(d)
    except:
        pass
    finally:
        try: a.close()
        except: pass
        try: b.close()
        except: pass

s = socket.socket()
s.setsockopt(socket.SOL_SOCKET, socket.SO_REUSEADDR, 1)
s.bind(('127.0.0.1', "@ + decimal_of(port as nat) + "))
s.listen(5)
sys.stdout.write('R')
sys.stdout.flush()
while True:
    c, _ = s.accept()
    d = socket.socket(socket.AF_UNIX)
    d.connect('/var/run/docker.sock')
    threading.Thread(target=forward, args=(c, d), daemon=True).start()
    threading.Thread(target=forward, args=(d, c), daemon=True).start()
"@,
        SCRIPT_NAME@ == "docker_nm_wsl_proxy.py"@,
{
}

/// A path is known to Linux with a slash for every backslash; in what comes of that the first `C:`,
/// then the first `D:` and then the first `E:` stand for the directory of that drive.
pub proof fn law_drives_in_turn(path: Seq<char>)
    ensures
        wsl_path_of(path) == first_replaced(
            first_replaced(
                first_replaced(char_replaced(path, '\\', '/'), "C:"@, "/mnt/c"@),
                "D:"@,
                "/mnt/d"@,
            ),
            "E:"@,
            "/mnt/e"@,
        ),
{
}

/// A path on none of the drives `C`, `D` and `E` only has its backslashes turned.
pub proof fn law_other_paths(path: Seq<char>, i: int)
    requires
        !occurs_in(char_replaced(path, '\\', '/'), "C:"@),
        !occurs_in(char_replaced(path, '\\', '/'), "D:"@),
        !occurs_in(char_replaced(path, '\\', '/'), "E:"@),
    ensures
        wsl_path_of(path).len() == path.len(),
        0 <= i < path.len() ==> wsl_path_of(path)[i] == if path[i] == '\\' {
            '/'
        } else {
            path[i]
        },
{
    let slashed = char_replaced(path, '\\', '/');
    assert(Seq::<char>::empty() + slashed =~= slashed);
    reveal_strlit("C:");
    reveal_strlit("D:");
    reveal_strlit("E:");
    lemma_not_replaced(Seq::empty(), slashed, "C:"@, "/mnt/c"@);
    lemma_not_replaced(Seq::empty(), slashed, "D:"@, "/mnt/d"@);
    lemma_not_replaced(Seq::empty(), slashed, "E:"@, "/mnt/e"@);
}

/// The WSL program is tried by its name and then by its path, and no third time.
pub proof fn law_programs(failed: nat)
    ensures
        wsl_program_of(0) == Some("wsl.exe"@),
        wsl_program_of(1) == Some("C:\\Windows\\System32\\wsl.exe"@),
        failed > 1 ==> wsl_program_of(failed) is None,
{
}

/// A search that is over asks for no program; before, `docker version` is run and then, where that
/// failed, a connection to the socket. Success ends the search at once, and failure of the second run
/// ends it with nothing found.
pub proof fn law_search_runs(found: bool, success: bool)
    ensures
        probe_args_of(WslProbe::Version) == seq![
            "docker"@,
            "version"@,
            "--format"@,
            "{{.Server.Version}}"@,
        ],
        probe_args_of(WslProbe::Socket) == seq![
            "python3"@,
            "-c"@,
            "import socket;s=socket.socket(socket.AF_UNIX);s.settimeout(2);s.connect('/var/run/docker.sock');s.close()"@,
        ],
        probe_args_of(WslProbe::Settled(found)).len() == 0,
        probe_step(WslProbe::Version, true) == WslProbe::Settled(true),
        probe_step(WslProbe::Version, false) == WslProbe::Socket,
        probe_step(WslProbe::Socket, success) == WslProbe::Settled(success),
        probe_step(WslProbe::Settled(found), success) == WslProbe::Settled(found),
{
}

/// The forwarder is spawned exactly when its script was written, by Linux's path of where it was; a
/// byte is read once it runs and after every pause; it is ready exactly when the byte is `R`. Any other
/// byte has the clock read, and within ten seconds the next read comes after a fifth of a second.
pub proof fn law_forwarder_is_waited_for(phase: ForwarderPhase, event: ForwarderEvent)
    ensures
        ({
            let (next, ask) = forwarder_step(phase, event);
            &&& ask is Spawn <==> phase is Writing && (event matches ForwarderEvent::Written(written)
                && written is Ok)
            &&& ask matches ForwarderAsk::Spawn(args) ==> next is Spawning && (event matches
                ForwarderEvent::Written(Ok(path)) ==> args == seq!["python3"@, wsl_path_of(path@)])
            &&& ask is Read <==> (phase is Spawning && event == ForwarderEvent::Spawned(
                ForwarderSpawn::Started,
            )) || (phase is Pausing && event is Slept)
            &&& ask is Read ==> next is Reading
            &&& ask is Succeed <==> phase is Reading && (event matches ForwarderEvent::Read(Some(b))
                && b == 'R' as u8)
            &&& ask is Succeed ==> next is Ended
            &&& ask is ReadClock <==> phase is Reading && (event matches ForwarderEvent::Read(
                Some(b),
            ) && b != 'R' as u8)
            &&& ask is ReadClock ==> next is Timing
            &&& ask is Sleep <==> phase is Timing && (event matches ForwarderEvent::Elapsed(nanos)
                && nanos <= 10_000_000_000)
            &&& ask is Sleep ==> ask == ForwarderAsk::Sleep(200) && next is Pausing
            &&& !(ask is Write)
        }),
{
}

/// The start of a forwarder fails exactly when its script could not be written, it could not be
/// spawned or has no output, nothing could be read, or its time is over. The process is killed exactly
/// in the last two cases; the report gives the reason.
pub proof fn law_forwarder_fails(phase: ForwarderPhase, event: ForwarderEvent)
    ensures
        ({
            let (next, ask) = forwarder_step(phase, event);
            &&& ask is Fail <==> (phase is Writing && (event matches ForwarderEvent::Written(written)
                && written is Err)) || (phase is Spawning && (event matches ForwarderEvent::Spawned(
                spawn,
            ) && !(spawn is Started))) || (phase is Reading && (event matches ForwarderEvent::Read(
                byte,
            ) && byte is None)) || (phase is Timing && (event matches ForwarderEvent::Elapsed(nanos)
                && nanos > 10_000_000_000))
            &&& ask matches ForwarderAsk::Fail { kill, error } ==> {
                &&& next is Ended
                &&& kill <==> event is Read || event is Elapsed
                &&& event matches ForwarderEvent::Written(Err(reason)) ==> error
                    == "Failed to write WSL proxy script: "@ + reason@
                &&& event matches ForwarderEvent::Spawned(ForwarderSpawn::Failed(reason)) ==> error
                    == "Failed to start WSL Docker forwarder: "@ + reason@
                &&& event == ForwarderEvent::Spawned(ForwarderSpawn::NoStdout) ==> error
                    == "No stdout from WSL forwarder"@
                &&& event is Read ==> error == "WSL forwarder failed to send ready signal."@
                &&& event is Elapsed ==> error == "WSL Docker forwarder timed out."@
            }
            &&& ask is Ignore ==> next == phase
        }),
{
}

/// The attempt examines the forwarder exactly when a daemon was found. A forwarder that is there and
/// can be reached is used at its own address; one that is not there or cannot be reached is stopped,
/// and only then is a port found and another started. Without a daemon, a look at the forwarder, a
/// port, a start or an open port in time, the attempt gives up.
pub proof fn law_attempt_goes_on(phase: WslPhase, event: WslEvent)
    ensures
        ({
            let (next, ask) = wsl_step(phase, event);
            &&& ask is Examine <==> phase is Detecting && event == WslEvent::Detected(true)
            &&& ask is Examine ==> next is Examining
            &&& ask is Stop <==> phase is Examining && (event matches WslEvent::Examined(found) && (
            found is Absent || (found matches ForwarderFound::Present { reachable, .. }
                && !reachable)))
            &&& ask is Stop ==> next is Stopping
            &&& ask is FindPort <==> phase is Stopping && event is Stopped
            &&& ask is FindPort ==> next is FindingPort
            &&& ask is Start <==> phase is FindingPort && (event matches WslEvent::PortFound(found)
                && found is Some)
            &&& ask matches WslAsk::Start(port) ==> next == WslPhase::Starting(port) && event
                == WslEvent::PortFound(Some(port))
            &&& ask is Keep <==> phase is Starting && event == WslEvent::Started(true)
            &&& ask is Keep ==> next == WslPhase::Keeping(phase->Starting_0)
            &&& ask is Probe <==> (phase is Keeping && event is Kept) || (phase is Pausing
                && event is Slept)
            &&& ask is Probe && phase is Keeping ==> next == WslPhase::Probing(phase->Keeping_0)
            &&& ask is Probe && phase is Pausing ==> next == WslPhase::Probing(phase->Pausing_0)
            &&& ask is Use <==> (phase is Probing && event == WslEvent::Probed(true)) || (
            phase is Examining && (event matches WslEvent::Examined(ForwarderFound::Present {
                reachable,
                ..
            }) && reachable))
            &&& ask matches WslAsk::Use(at) ==> next is Ended && (event matches WslEvent::Examined(
                ForwarderFound::Present { addr, .. },
            ) ==> at == addr@)
            &&& !(ask is Detect)
        }),
{
}

/// While the port is not open the clock is read, and within five seconds the next look comes after a
/// tenth of a second, at the same port. The attempt gives up exactly where something is missing or the
/// time is over; what was not asked changes nothing.
pub proof fn law_attempt_gives_up(phase: WslPhase, event: WslEvent)
    ensures
        ({
            let (next, ask) = wsl_step(phase, event);
            &&& ask is ReadClock <==> phase is Probing && event == WslEvent::Probed(false)
            &&& ask is ReadClock ==> next == WslPhase::Timing(phase->Probing_0)
            &&& ask is Sleep <==> phase is Timing && (event matches WslEvent::Elapsed(nanos) && nanos
                <= 5_000_000_000)
            &&& ask is Sleep ==> ask == WslAsk::Sleep(100) && next == WslPhase::Pausing(
                phase->Timing_0,
            )
            &&& ask is GiveUp <==> (phase is Detecting && event == WslEvent::Detected(false)) || (
            phase is Examining && event == WslEvent::Examined(ForwarderFound::Unavailable)) || (
            phase is FindingPort && event == WslEvent::PortFound(None)) || (phase is Starting && event
                == WslEvent::Started(false)) || (phase is Timing && (event matches
                WslEvent::Elapsed(nanos) && nanos > 5_000_000_000))
            &&& ask is GiveUp ==> next is Ended
            &&& ask is Ignore ==> next == phase
        }),
{
}

/// What is modelled of an action is what it holds.
pub proof fn law_models_hold_the_fields(
    text: String,
    args: Vec<String>,
    millis: u64,
    kill: bool,
    port: u16,
)
    ensures
        ForwarderAction::Write(text)@ == ForwarderAsk::Write(text@),
        ForwarderAction::Spawn(args)@ == ForwarderAsk::Spawn(texts(args@)),
        ForwarderAction::Read@ == ForwarderAsk::Read,
        ForwarderAction::ReadClock@ == ForwarderAsk::ReadClock,
        ForwarderAction::Sleep(millis)@ == ForwarderAsk::Sleep(millis),
        ForwarderAction::Succeed@ == ForwarderAsk::Succeed,
        (ForwarderAction::Fail { kill, error: text })@ == (ForwarderAsk::Fail { kill, error: text@ }),
        ForwarderAction::Ignore@ == ForwarderAsk::Ignore,
        WslAction::Detect@ == WslAsk::Detect,
        WslAction::Examine@ == WslAsk::Examine,
        WslAction::Stop@ == WslAsk::Stop,
        WslAction::FindPort@ == WslAsk::FindPort,
        WslAction::Start(port)@ == WslAsk::Start(port),
        WslAction::Keep(text)@ == WslAsk::Keep(text@),
        WslAction::Probe(text)@ == WslAsk::Probe(text@),
        WslAction::ReadClock@ == WslAsk::ReadClock,
        WslAction::Sleep(millis)@ == WslAsk::Sleep(millis),
        WslAction::Use(text)@ == WslAsk::Use(text@),
        WslAction::GiveUp@ == WslAsk::GiveUp,
        WslAction::Ignore@ == WslAsk::Ignore,
{
}

} // verus!
