//! Isolation settings of tab processes: sandbox, resource limits, the
//! messages exchanged with a tab process, and the state kept for a running
//! tab process: its status, how many navigations it served, and what the
//! outcome of checking on it means.
use vstd::prelude::*;
use crate::text::{decimal, decimal_string};
use crate::types::{ProcessId, TabId};

verus! {

/// Navigations after which a tab process is recycled, by default.
pub const DEFAULT_RECYCLE_THRESHOLD: u32 = 100;

/// Errors of process isolation.
#[derive(Debug, Clone, PartialEq, Eq)]
pub enum ProcessIsolationError {
    SpawnFailed(String),
    IpcFailed(String),
    ProcessCrashed(String),
    ProcessNotFound(TabId),
    InvalidMessage(String),
    SandboxError(String),
    ResourceLimitExceeded(String),
    /// An I/O error, by its message.
    IoError(String),
}

/// Sandbox configuration of a tab process.
#[derive(Debug, Clone, PartialEq, Eq)]
pub struct SandboxConfig {
    /// Restrict file access.
    pub filesystem_sandbox: bool,
    /// Restrict network access.
    pub network_sandbox: bool,
    /// Hosts reachable under the network sandbox.
    pub allowed_hosts: Vec<String>,
    pub gpu_isolation: bool,
    /// Memory limit in bytes (0 = unlimited).
    pub memory_limit_bytes: u64,
    /// CPU time limit in milliseconds (0 = unlimited).
    pub cpu_time_limit_ms: u64,
    /// Every restriction on.
    pub strict_mode: bool,
}

impl Default for SandboxConfig {
    /// File sandbox and GPU isolation on, network allowed, 512 MiB of
    /// memory, unlimited CPU time.
    fn default() -> (c: Self)
        ensures
            c.filesystem_sandbox,
            !c.network_sandbox,
            c.allowed_hosts@.len() == 0,
            c.gpu_isolation,
            c.memory_limit_bytes == 512 * 1024 * 1024,
            c.cpu_time_limit_ms == 0,
            !c.strict_mode,
    {
        SandboxConfig {
            filesystem_sandbox: true,
            network_sandbox: false,
            allowed_hosts: Vec::new(),
            gpu_isolation: true,
            memory_limit_bytes: 512 * 1024 * 1024,
            cpu_time_limit_ms: 0,
            strict_mode: false,
        }
    }
}

impl SandboxConfig {
    /// Every restriction on: no network, 256 MiB, 30 s of CPU time.
    pub fn strict() -> (c: SandboxConfig)
        ensures
            c.filesystem_sandbox,
            c.network_sandbox,
            c.allowed_hosts@.len() == 0,
            c.gpu_isolation,
            c.memory_limit_bytes == 256 * 1024 * 1024,
            c.cpu_time_limit_ms == 30000,
            c.strict_mode,
    {
        SandboxConfig {
            filesystem_sandbox: true,
            network_sandbox: true,
            allowed_hosts: Vec::new(),
            gpu_isolation: true,
            memory_limit_bytes: 256 * 1024 * 1024,
            cpu_time_limit_ms: 30000,
            strict_mode: true,
        }
    }

    /// No restriction and no limit.
    pub fn permissive() -> (c: SandboxConfig)
        ensures
            !c.filesystem_sandbox,
            !c.network_sandbox,
            c.allowed_hosts@.len() == 0,
            !c.gpu_isolation,
            c.memory_limit_bytes == 0,
            c.cpu_time_limit_ms == 0,
            !c.strict_mode,
    {
        SandboxConfig {
            filesystem_sandbox: false,
            network_sandbox: false,
            allowed_hosts: Vec::new(),
            gpu_isolation: false,
            memory_limit_bytes: 0,
            cpu_time_limit_ms: 0,
            strict_mode: false,
        }
    }

    /// The configuration with one more allowed host.
    pub fn allow_host(self, host: String) -> (c: SandboxConfig)
        ensures
            c.allowed_hosts@ == self.allowed_hosts@.push(host),
            c.filesystem_sandbox == self.filesystem_sandbox,
            c.network_sandbox == self.network_sandbox,
            c.gpu_isolation == self.gpu_isolation,
            c.memory_limit_bytes == self.memory_limit_bytes,
            c.cpu_time_limit_ms == self.cpu_time_limit_ms,
            c.strict_mode == self.strict_mode,
    {
        let mut c = self;
        c.allowed_hosts.push(host);
        c
    }

    /// The configuration with this memory limit.
    pub fn with_memory_limit(self, bytes: u64) -> (c: SandboxConfig)
        ensures
            c == (SandboxConfig { memory_limit_bytes: bytes, ..self }),
    {
        SandboxConfig { memory_limit_bytes: bytes, ..self }
    }

    /// The configuration with this CPU time limit.
    pub fn with_cpu_limit(self, milliseconds: u64) -> (c: SandboxConfig)
        ensures
            c == (SandboxConfig { cpu_time_limit_ms: milliseconds, ..self }),
    {
        SandboxConfig { cpu_time_limit_ms: milliseconds, ..self }
    }
}

/// Resource limits of a tab process.
#[derive(Debug, Clone, Copy, PartialEq, Eq)]
pub struct ResourceLimits {
    pub max_memory_bytes: u64,
    /// Percentage of one CPU (0-100).
    pub max_cpu_percent: u8,
    pub max_file_descriptors: u32,
    pub max_threads: u32,
}

impl Default for ResourceLimits {
    /// 512 MiB, 80 % CPU, 256 file descriptors, 16 threads.
    fn default() -> (l: Self)
        ensures
            l == (ResourceLimits {
                max_memory_bytes: 536870912u64,
                max_cpu_percent: 80,
                max_file_descriptors: 256,
                max_threads: 16,
            }),
    {
        ResourceLimits {
            max_memory_bytes: 512 * 1024 * 1024,
            max_cpu_percent: 80,
            max_file_descriptors: 256,
            max_threads: 16,
        }
    }
}

/// Messages between the main process and a tab process.
#[derive(Debug, Clone, PartialEq, Eq)]
pub enum TabMessage {
    Navigate { url: String },
    ExecuteScript { script: String },
    GetContent,
    GetTitle,
    Stop,
    Reload { ignore_cache: bool },
    GoBack,
    GoForward,
    Ping,
    Shutdown,
    ContentResponse { content: String },
    TitleResponse { title: String },
    NavigationComplete { url: String, success: bool },
    Error { message: String },
    Pong,
    Ready,
}

/// Status of a tab process.
#[derive(Debug, Clone, Copy, PartialEq, Eq, Structural)]
pub enum ProcessStatus {
    Starting,
    Running,
    Suspended,
    Crashed,
    Terminated,
}

/// Whether a process that served `navigation_count` navigations is due for
/// recycling under `threshold`.
pub fn recycle_due(navigation_count: u32, threshold: u32) -> (b: bool)
    ensures
        b == (navigation_count >= threshold),
{
    navigation_count >= threshold
}

/// "true" or "false".
pub open spec fn bool_text(b: bool) -> Seq<char> {
    if b {
        "true"@
    } else {
        "false"@
    }
}

fn bool_string(b: bool) -> (s: String)
    ensures
        s@ == bool_text(b),
{
    if b {
        String::from_str("true")
    } else {
        String::from_str("false")
    }
}

/// The environment a tab process is started with, which carries its
/// sandbox settings: file, network, GPU and strict flags, then the memory
/// limit in bytes.
pub open spec fn sandbox_environment(c: SandboxConfig) -> Seq<(Seq<char>, Seq<char>)> {
    seq![
        ("SANDBOX_FILESYSTEM"@, bool_text(c.filesystem_sandbox)),
        ("SANDBOX_NETWORK"@, bool_text(c.network_sandbox)),
        ("SANDBOX_GPU"@, bool_text(c.gpu_isolation)),
        ("SANDBOX_STRICT"@, bool_text(c.strict_mode)),
        ("MEMORY_LIMIT"@, decimal(c.memory_limit_bytes as nat)),
    ]
}

/// Pairs of texts as pairs of character sequences.
pub open spec fn pairs_view(v: Seq<(String, String)>) -> Seq<(Seq<char>, Seq<char>)> {
    v.map_values(|e: (String, String)| (e.0@, e.1@))
}

impl SandboxConfig {
    /// The environment variables, in order, that pass these settings to a
    /// tab process.
    pub fn environment(&self) -> (v: Vec<(String, String)>)
        ensures
            pairs_view(v@) == sandbox_environment(*self),
    {
        let mut v: Vec<(String, String)> = Vec::new();
        v.push((String::from_str("SANDBOX_FILESYSTEM"), bool_string(self.filesystem_sandbox)));
        v.push((String::from_str("SANDBOX_NETWORK"), bool_string(self.network_sandbox)));
        v.push((String::from_str("SANDBOX_GPU"), bool_string(self.gpu_isolation)));
        v.push((String::from_str("SANDBOX_STRICT"), bool_string(self.strict_mode)));
        v.push((String::from_str("MEMORY_LIMIT"), decimal_string(self.memory_limit_bytes)));
        proof {
            assert(pairs_view(v@) =~= sandbox_environment(*self));
        }
        v
    }
}

/// What checking on a tab process without waiting found.
#[derive(Debug, Clone, Copy, PartialEq, Eq, Structural)]
pub enum WaitOutcome {
    /// It still runs.
    Running,
    /// It has exited.
    Exited,
    /// The check itself failed.
    Failed,
    /// There is no process left to check.
    Gone,
}

/// What is known of a tab process besides its handles: the tab it serves,
/// its process id, its settings, its status and how many navigations it
/// served.
#[derive(Debug, Clone, PartialEq, Eq)]
pub struct TabProcessState {
    pub tab_id: TabId,
    pub process_id: Option<ProcessId>,
    pub sandbox_config: SandboxConfig,
    pub resource_limits: ResourceLimits,
    pub status: ProcessStatus,
    pub navigation_count: u32,
}

/// The status after a check on the process found `outcome`: an exit
/// terminates it, a failed check counts as a crash, and with no process
/// left the status stays.
pub open spec fn status_after(status: ProcessStatus, outcome: WaitOutcome) -> ProcessStatus {
    match outcome {
        WaitOutcome::Running => status,
        WaitOutcome::Exited => ProcessStatus::Terminated,
        WaitOutcome::Failed => ProcessStatus::Crashed,
        WaitOutcome::Gone => status,
    }
}

impl TabProcessState {
    /// A process just started for a tab: starting, no navigation served.
    pub fn new(
        tab_id: TabId,
        process_id: Option<ProcessId>,
        sandbox_config: SandboxConfig,
        resource_limits: ResourceLimits,
    ) -> (s: Self)
        ensures
            s == (TabProcessState {
                tab_id,
                process_id,
                sandbox_config,
                resource_limits,
                status: ProcessStatus::Starting,
                navigation_count: 0,
            }),
    {
        TabProcessState {
            tab_id,
            process_id,
            sandbox_config,
            resource_limits,
            status: ProcessStatus::Starting,
            navigation_count: 0,
        }
    }

    /// Count one more navigation; the new count.
    pub fn increment_navigation_count(&mut self) -> (n: u32)
        requires
            old(self).navigation_count < u32::MAX,
        ensures
            n == old(self).navigation_count + 1,
            *final(self) == (TabProcessState { navigation_count: n, ..*old(self) }),
    {
        self.navigation_count = self.navigation_count + 1;
        self.navigation_count
    }

    /// Whether the process is due for recycling under `threshold`.
    pub fn should_recycle(&self, threshold: u32) -> (b: bool)
        ensures
            b == (self.navigation_count >= threshold),
    {
        recycle_due(self.navigation_count, threshold)
    }

    /// Record a status.
    pub fn set_status(&mut self, status: ProcessStatus)
        ensures
            *final(self) == (TabProcessState { status, ..*old(self) }),
    {
        self.status = status;
    }

    /// Take in what a check on the process found; whether it still runs.
    pub fn observe_wait(&mut self, outcome: WaitOutcome) -> (alive: bool)
        ensures
            alive == (outcome == WaitOutcome::Running),
            *final(self) == (TabProcessState {
                status: status_after(old(self).status, outcome),
                ..*old(self)
            }),
    {
        match outcome {
            WaitOutcome::Running => true,
            WaitOutcome::Exited => {
                self.status = ProcessStatus::Terminated;
                false
            },
            WaitOutcome::Failed => {
                self.status = ProcessStatus::Crashed;
                false
            },
            WaitOutcome::Gone => false,
        }
    }

    /// Take in what a check found; whether the process counts as crashed:
    /// it does not run and its status is crashed.
    pub fn check_crashed(&mut self, outcome: WaitOutcome) -> (crashed: bool)
        ensures
            *final(self) == (TabProcessState {
                status: status_after(old(self).status, outcome),
                ..*old(self)
            }),
            crashed == (outcome != WaitOutcome::Running && status_after(old(self).status, outcome)
                == ProcessStatus::Crashed),
    {
        let alive = self.observe_wait(outcome);
        !alive && self.status == ProcessStatus::Crashed
    }
}

} // verus!
