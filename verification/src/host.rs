//! The application host and its lifecycle.
//!
//! The host is built once, carries the fixed capability list and the
//! command table, and walks a two-step lifecycle: `NotRunning` when
//! configured, `Running` once boot succeeds, `Terminated` when the run
//! loop returns or boot fails.  A fatal boot failure terminates the host
//! with a non-zero exit code and a fixed diagnostic, before it ever runs.

use vstd::prelude::*;
use crate::capability::Capability;
use crate::capability::spec_capability_list;
use crate::capability::capability_list;
use crate::commands::spec_ping_name;
use crate::commands::spec_pong;
use crate::commands::command_table;
use crate::commands::ping;

verus! {

/// Lifecycle phase of the host.
#[derive(Clone, Copy, Debug, PartialEq, Eq, Structural)]
pub enum Phase {
    /// Configured, boot not yet attempted.
    NotRunning,
    /// Boot succeeded; the run loop owns the process.
    Running,
    /// The run loop returned, or boot failed fatally.
    Terminated,
}

/// What the surrounding process reports about booting the host: either the
/// platform host and every capability module initialized, or one of them
/// failed.
#[derive(Clone, Copy, Debug, PartialEq, Eq, Structural)]
pub enum BootEvent {
    Initialized,
    InitFailed,
}

/// The only recognized failure: a fatal boot failure.  It is never
/// recovered from; the process aborts with this diagnostic.
pub struct BootFailure {
    pub message: String,
}

/// The sole error a command invocation can surface: the requested name is
/// not in the command table.
#[derive(Clone, Copy, Debug, PartialEq, Eq, Structural)]
pub enum InvokeError {
    UnknownCommand,
}

/// The fixed diagnostic printed on a fatal boot failure.
pub open spec fn spec_diagnostic() -> Seq<char> {
    "error while running tauri application"@
}

/// The transitions the lifecycle allows: a configured host either starts
/// running or dies at boot, a running host only terminates, and a
/// terminated host stays terminated.
pub open spec fn lifecycle_step(pre: Phase, post: Phase) -> bool {
    ||| pre == post
    ||| (pre == Phase::NotRunning && post == Phase::Running)
    ||| (pre == Phase::NotRunning && post == Phase::Terminated)
    ||| (pre == Phase::Running && post == Phase::Terminated)
}

/// The application host: the fixed capability list, the command table, and
/// the lifecycle phase.  Process-wide: one host per process, built once.
pub struct Host {
    capabilities: Vec<Capability>,
    commands: Vec<String>,
    phase: Phase,
    exit_code: i32,
}

impl Host {
    /// The attached capability modules, in attachment order.
    pub closed spec fn spec_capabilities(&self) -> Seq<Capability> {
        self.capabilities@
    }

    /// The names in the command table, in registration order.
    pub closed spec fn spec_commands(&self) -> Seq<String> {
        self.commands@
    }

    /// The lifecycle phase.
    pub closed spec fn spec_phase(&self) -> Phase {
        self.phase
    }

    /// The process exit code, meaningful once the host is `Terminated`:
    /// zero for a normal shutdown, non-zero for a fatal boot failure.
    pub closed spec fn spec_exit_code(&self) -> int {
        self.exit_code as int
    }

    /// Well-formedness: the capability list and the command table are
    /// exactly the compiled-in configuration.
    pub open spec fn wf(&self) -> bool {
        &&& self.spec_capabilities() == spec_capability_list()
        &&& self.spec_commands().len() == 1
        &&& self.spec_commands()[0]@ == spec_ping_name()
    }

    /// Builds the configured host: the eight capability modules in their
    /// fixed order, the one-entry command table, and the `NotRunning`
    /// phase.  Takes no input, so every process start configures the same
    /// host.
    pub fn configure() -> (h: Host)
        ensures
            h.wf(),
            h.spec_phase() == Phase::NotRunning,
            h.spec_capabilities().len() == 8,
    {
        Host {
            capabilities: capability_list(),
            commands: command_table(),
            phase: Phase::NotRunning,
            exit_code: 0,
        }
    }

    /// Applies the outcome of booting the platform host.  On success the
    /// host is `Running` and the caller enters the run loop.  On failure
    /// the host is `Terminated` at once — it never runs — with a non-zero
    /// exit code and the fixed, non-empty diagnostic.
    pub fn start(&mut self, event: BootEvent) -> (r: Result<(), BootFailure>)
        requires
            old(self).wf(),
            old(self).spec_phase() == Phase::NotRunning,
        ensures
            final(self).wf(),
            final(self).spec_capabilities() == old(self).spec_capabilities(),
            final(self).spec_commands() == old(self).spec_commands(),
            lifecycle_step(old(self).spec_phase(), final(self).spec_phase()),
            event == BootEvent::Initialized ==> r is Ok && final(self).spec_phase() == Phase::Running,
            event == BootEvent::InitFailed ==> {
                &&& r is Err
                &&& r->Err_0.message@ == spec_diagnostic()
                &&& r->Err_0.message@.len() > 0
                &&& final(self).spec_phase() == Phase::Terminated
                &&& final(self).spec_exit_code() != 0
            },
    {
        match event {
            BootEvent::Initialized => {
                self.phase = Phase::Running;
                Ok(())
            },
            BootEvent::InitFailed => {
                self.phase = Phase::Terminated;
                self.exit_code = 1;
                let message: String = "error while running tauri application".to_owned();
                proof {
                    reveal_strlit("error while running tauri application");
                }
                Err(BootFailure { message })
            },
        }
    }

    /// The run loop has returned: the user closed the last window, or the
    /// platform shut the host down.  The host terminates with a success
    /// exit code.
    pub fn shutdown(&mut self)
        requires
            old(self).wf(),
            old(self).spec_phase() == Phase::Running,
        ensures
            final(self).wf(),
            final(self).spec_capabilities() == old(self).spec_capabilities(),
            final(self).spec_commands() == old(self).spec_commands(),
            lifecycle_step(old(self).spec_phase(), final(self).spec_phase()),
            final(self).spec_phase() == Phase::Terminated,
            final(self).spec_exit_code() == 0,
    {
        self.phase = Phase::Terminated;
        self.exit_code = 0;
    }

    /// Dispatches a remote command by name.  `ping` — the sole entry in
    /// the command table — returns the constant text `pong`; any other
    /// name is unknown.
    pub fn invoke(&self, name: &str) -> (r: Result<&'static str, InvokeError>)
        requires
            self.wf(),
        ensures
            r is Ok <==> name@ == spec_ping_name(),
            name@ == spec_ping_name() ==> r->Ok_0@ == spec_pong(),
            name@ != spec_ping_name() ==> r->Err_0 == InvokeError::UnknownCommand,
    {
        let requested: String = name.to_owned();
        let registered: &String = &self.commands[0];
        if requested == *registered {
            Ok(ping())
        } else {
            Err(InvokeError::UnknownCommand)
        }
    }

    /// The attached capability modules.
    pub fn capabilities(&self) -> (caps: &Vec<Capability>)
        ensures
            caps@ == self.spec_capabilities(),
    {
        &self.capabilities
    }

    /// The command table.
    pub fn commands(&self) -> (names: &Vec<String>)
        ensures
            names@ == self.spec_commands(),
    {
        &self.commands
    }

    /// The lifecycle phase.
    pub fn phase(&self) -> (p: Phase)
        ensures
            p == self.spec_phase(),
    {
        self.phase
    }

    /// The process exit code; meaningful once the host is `Terminated`.
    pub fn exit_code(&self) -> (c: i32)
        ensures
            c as int == self.spec_exit_code(),
    {
        self.exit_code
    }
}

/// Deterministic configuration: any two configured hosts attach the same
/// capability modules — eight of them, in the same order — and register
/// command tables with the same names.
pub proof fn lemma_configure_deterministic(a: Host, b: Host)
    requires
        a.wf(),
        b.wf(),
    ensures
        a.spec_capabilities() == b.spec_capabilities(),
        a.spec_capabilities().len() == 8,
        a.spec_commands().len() == b.spec_commands().len(),
        forall|i: int|
            0 <= i < a.spec_commands().len() ==> a.spec_commands()[i]@ == b.spec_commands()[i]@,
{
}

/// A terminated host stays terminated: no lifecycle step leaves
/// `Terminated`.
pub proof fn lemma_terminated_is_final(pre: Phase, post: Phase)
    requires
        lifecycle_step(pre, post),
        pre == Phase::Terminated,
    ensures
        post == Phase::Terminated,
{
}

} // verus!
