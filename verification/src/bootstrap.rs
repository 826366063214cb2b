//! Application bootstrap: a strictly linear startup sequence. The host
//! application is created, a diagnostic logging facility is attached when —
//! and only when — the build is a debug build, the panel command is
//! registered, and control passes to the host event loop. The only error
//! path in the whole system is a failed logging attachment, which aborts
//! startup before any command is registered.

use vstd::prelude::*;

use crate::platform::PanelInvoker;
use crate::platform::PanelOutcome;
use crate::platform::panel_outcome;
use crate::registry::CommandRegistry;
use crate::registry::Operation;
use crate::registry::lookup_in;

verus! {

/// Severity threshold for the diagnostic logging facility.
#[derive(Clone, Copy, PartialEq, Eq, Structural, Debug)]
pub enum LogLevel {
    Error,
    Warn,
    Info,
    Debug,
    Trace,
}

/// How the logging facility is to be configured when it is attached. In a
/// debug build it emits messages at informational severity and above.
#[derive(Clone, Copy, PartialEq, Eq, Structural, Debug)]
pub struct LogConfig {
    pub level: LogLevel,
}

/// What became of the logging facility during setup, reported back by the
/// host that performed the attachment.
#[derive(Clone, Copy, PartialEq, Eq, Structural, Debug)]
pub enum LoggingOutcome {
    /// The facility was attached successfully.
    Attached,
    /// The host failed to attach the facility: fatal.
    AttachFailed,
    /// Release build: no attachment was requested.
    NotRequested,
}

/// The fatal startup failures. Any of them aborts the process with a
/// descriptive message; there is no recovery or retry.
#[derive(Clone, Copy, PartialEq, Eq, Structural, Debug)]
pub enum StartupError {
    /// The host application object could not be constructed.
    AppConstruction,
    /// The logging facility could not be attached in a debug build.
    LoggingInit,
    /// The host event loop failed to start or tore down abnormally.
    EventLoop,
}

impl StartupError {
    /// The descriptive message the process aborts with.
    pub open spec fn describe_spec(&self) -> Seq<char> {
        match *self {
            StartupError::AppConstruction => "error while building the application"@,
            StartupError::LoggingInit => "error while attaching the logging facility"@,
            StartupError::EventLoop => "error while running tauri application"@,
        }
    }

    /// The descriptive message the process aborts with.
    pub fn describe(&self) -> (s: String)
        ensures
            s@ == self.describe_spec(),
    {
        match *self {
            StartupError::AppConstruction => "error while building the application".to_owned(),
            StartupError::LoggingInit => "error while attaching the logging facility".to_owned(),
            StartupError::EventLoop => "error while running tauri application".to_owned(),
        }
    }
}

/// Where in its linear lifecycle the application stands:
/// configure → (conditionally) attach logging → register commands → run.
#[derive(Clone, Copy, PartialEq, Eq, Structural, Debug)]
pub enum Phase {
    /// The application object exists; nothing is configured yet.
    Created,
    /// Setup finished: logging decided, commands registered.
    Ready,
    /// The host event loop has taken over.
    Running,
    /// Setup failed; the process is about to abort.
    Failed,
}

/// The fixed name under which the panel operation is registered.
pub open spec fn emoji_picker_name() -> Seq<char> {
    "open_emoji_picker"@
}

/// The fixed name under which the panel operation is registered, as the UI
/// layer spells it when invoking the command.
pub fn emoji_picker_command_name() -> (s: String)
    ensures
        s@ == emoji_picker_name(),
{
    "open_emoji_picker".to_owned()
}

/// The one and only state the registry may reach: a single entry mapping the
/// fixed command name to the panel operation.
pub open spec fn registered_commands() -> Seq<(Seq<char>, Operation)> {
    seq![(emoji_picker_name(), Operation::OpenCharacterPicker)]
}

/// The application through its startup sequence. The host framework around
/// it — window lifecycle, command dispatch plumbing, the event loop — is a
/// black box; this state records every decision the bootstrap makes.
pub struct Bootstrap {
    /// Whether this is a debug build, fixed at startup.
    pub debug: bool,
    /// Whether the logging facility was attached.
    pub logging_attached: bool,
    /// The command registry the host dispatches UI requests through.
    pub registry: CommandRegistry,
    /// Where in the linear lifecycle the application stands.
    pub phase: Phase,
}

impl Bootstrap {
    /// Invariant over the whole lifecycle. In particular the registry is
    /// never partially populated: it is empty until setup succeeds, and from
    /// then on holds exactly the one panel command; and a logging facility
    /// is attached exactly in debug builds, never after a failure.
    pub open spec fn wf(&self) -> bool {
        match self.phase {
            Phase::Created => self.registry@ == Seq::<(Seq<char>, Operation)>::empty()
                && !self.logging_attached,
            Phase::Ready | Phase::Running => self.registry@ == registered_commands()
                && self.logging_attached == self.debug,
            Phase::Failed => self.registry@ == Seq::<(Seq<char>, Operation)>::empty()
                && !self.logging_attached,
        }
    }

    /// Step 1 of startup: the application object with default configuration.
    /// Nothing is attached or registered yet.
    pub fn create(debug: bool) -> (b: Bootstrap)
        ensures
            b.wf(),
            b.phase == Phase::Created,
            b.debug == debug,
            !b.logging_attached,
            b.registry@ == Seq::<(Seq<char>, Operation)>::empty(),
    {
        Bootstrap { debug, logging_attached: false, registry: CommandRegistry::new(), phase: Phase::Created }
    }

    /// Steps 2–4 of startup: whether — and how — the logging facility is to
    /// be attached. A configuration is requested exactly in debug builds,
    /// always at informational severity.
    pub fn logging_request(&self) -> (r: Option<LogConfig>)
        requires
            self.phase == Phase::Created,
        ensures
            r is Some <==> self.debug,
            self.debug ==> r == Some(LogConfig { level: LogLevel::Info }),
    {
        if self.debug {
            Some(LogConfig { level: LogLevel::Info })
        } else {
            None
        }
    }

    /// Step 5 of startup, once the host has reported what became of the
    /// logging facility: on failure, abort before any command is registered;
    /// otherwise register the panel command under its fixed name, exactly
    /// once, and become ready to run. Debug and release builds populate the
    /// registry identically.
    pub fn finish_setup(&mut self, logging: LoggingOutcome) -> (r: Result<(), StartupError>)
        requires
            old(self).wf(),
            old(self).phase == Phase::Created,
            (logging == LoggingOutcome::NotRequested) <==> !old(self).debug,
        ensures
            final(self).wf(),
            final(self).debug == old(self).debug,
            logging == LoggingOutcome::AttachFailed ==> r == Err::<(), StartupError>(
                StartupError::LoggingInit,
            ) && final(self).phase == Phase::Failed && final(self).registry@ == Seq::<
                (Seq<char>, Operation),
            >::empty() && !final(self).logging_attached,
            logging != LoggingOutcome::AttachFailed ==> r == Ok::<(), StartupError>(())
                && final(self).phase == Phase::Ready && final(self).registry@
                == registered_commands() && final(self).logging_attached == old(self).debug,
    {
        match logging {
            LoggingOutcome::AttachFailed => {
                self.phase = Phase::Failed;
                Err(StartupError::LoggingInit)
            },
            LoggingOutcome::Attached | LoggingOutcome::NotRequested => {
                self.logging_attached = matches!(logging, LoggingOutcome::Attached);
                self.registry.register(
                    emoji_picker_command_name(),
                    Operation::OpenCharacterPicker,
                );
                self.phase = Phase::Ready;
                proof {
                    assert(self.registry@ =~= registered_commands());
                }
                Ok(())
            },
        }
    }

    /// Step 6 of startup: control passes to the host event loop, which
    /// blocks until the application is terminated from outside. Everything
    /// decided during setup stays as it is.
    pub fn start_event_loop(&mut self)
        requires
            old(self).wf(),
            old(self).phase == Phase::Ready,
        ensures
            final(self).wf(),
            final(self).phase == Phase::Running,
            final(self).debug == old(self).debug,
            final(self).logging_attached == old(self).logging_attached,
            final(self).registry@ == old(self).registry@,
    {
        self.phase = Phase::Running;
    }

    /// Delivery of a named command from the UI layer: the host resolves the
    /// name through the registry and, when it names the panel operation,
    /// triggers the invoker. Unknown names dispatch nothing; the invoker is
    /// left exactly as it was either way.
    pub fn dispatch(&self, name: &String, invoker: &mut PanelInvoker) -> (r: Option<PanelOutcome>)
        ensures
            *final(invoker) == *old(invoker),
            lookup_in(self.registry@, name@) is Some ==> r == Some(
                panel_outcome(old(invoker).platform),
            ),
            lookup_in(self.registry@, name@) is None ==> r is None,
    {
        match self.registry.lookup(name) {
            Some(Operation::OpenCharacterPicker) => Some(invoker.invoke()),
            None => None,
        }
    }
}

/// After a successful setup the registry holds exactly one entry: the fixed
/// command name, mapped to the panel operation — and that name resolves to
/// it.
pub proof fn lemma_setup_registers_picker(b: Bootstrap)
    requires
        b.wf(),
        b.phase == Phase::Ready || b.phase == Phase::Running,
    ensures
        b.registry@.len() == 1,
        b.registry@[0] == (emoji_picker_name(), Operation::OpenCharacterPicker),
        lookup_in(b.registry@, emoji_picker_name()) == Some(Operation::OpenCharacterPicker),
{
}

/// Debug and release builds that complete setup hold identical command
/// registries: the logging branch has no bearing on what is registered.
pub proof fn lemma_branches_register_identically(debug_build: Bootstrap, release_build: Bootstrap)
    requires
        debug_build.wf(),
        release_build.wf(),
        debug_build.phase == Phase::Ready || debug_build.phase == Phase::Running,
        release_build.phase == Phase::Ready || release_build.phase == Phase::Running,
    ensures
        debug_build.registry@ == release_build.registry@,
{
}

/// The logging decision is settled before the registry is populated: as soon
/// as any command is registered, a logging facility is attached if and only
/// if the build is a debug build.
pub proof fn lemma_logging_settled_before_registration(b: Bootstrap)
    requires
        b.wf(),
        b.registry@.len() > 0,
    ensures
        b.logging_attached == b.debug,
        b.phase == Phase::Ready || b.phase == Phase::Running,
{
}

/// The registry is never observed partially populated: in every reachable
/// state it is either still empty or holds exactly the one panel command. In
/// particular a failed setup leaves it empty.
pub proof fn lemma_registry_never_partial(b: Bootstrap)
    requires
        b.wf(),
    ensures
        b.registry@ == Seq::<(Seq<char>, Operation)>::empty() || b.registry@
            == registered_commands(),
        b.phase == Phase::Failed ==> b.registry@ == Seq::<(Seq<char>, Operation)>::empty(),
{
}

} // verus!
