use vstd::prelude::*;

use crate::container::{run_args, run_command, start_args, start_command, ContainerSpec};
use crate::env::{
    backend_env, choose_storage_root, credential_configured, credential_ok, default_env, overrides_of,
    parse_dotenv, storage_choice, EnvVars, StorageRoot,
};
use crate::select::{first_layout, opt_seq, resolve_backend_paths, runtime_candidates, Layout, LayoutCheck};
use crate::status::{
    engine_entries, log_docker_output, log_entry, may_enter, phase_rank, Phase, StartupState,
};
use crate::text::{split_lines, utf8_lossy};
use crate::text::push_decimal;

verus! {

/// The port on which the backend server listens.
pub const BACKEND_PORT: u16 = 3001;

/// How many times the vector database's port is tried before going on.
pub const QDRANT_WAIT_ATTEMPTS: u32 = 20;

/// How many times the backend's port is tried before giving up.
pub const BACKEND_WAIT_ATTEMPTS: u32 = 60;

/// The pause between two tries of a port, in milliseconds.
pub const WAIT_DELAY_MS: u64 = 500;

/// While the built-in extractor runs, the message is updated after every
/// this many entries.
pub const PROGRESS_EVERY: u64 = 500;

/// Where the startup sequence stands: what it has asked for and waits on.
#[derive(Clone, Copy, Debug, PartialEq, Eq, Structural)]
pub enum Stage {
    /// Not begun; waits for `Event::Start`.
    Begin,
    /// Whether the vector database is already reachable.
    QdrantCheck,
    /// The engine starting the stopped container.
    QdrantStart,
    /// The engine creating the container.
    QdrantCreate,
    /// A try of the vector database's port (`sleeping` false), or the pause
    /// after a failed one; `attempts` counts the failed tries.
    QdrantWait { attempts: u32, sleeping: bool },
    /// Where the dependency archive and its destination stand.
    ArchiveCheck,
    /// The native extraction tool.
    FastExtract,
    /// Opening the archive for the built-in extractor.
    OpenArchive,
    /// The built-in extractor writing entry number `entry` of `total`.
    Extracting { entry: u64, total: u64 },
    /// The candidate layouts of the backend.
    Locate,
    /// The override file of the chosen layout.
    ReadOverrides { layout: Layout },
    /// The storage directory.
    Storage { layout: Layout },
    /// The places where the runtime may be.
    Runtimes { layout: Layout },
    /// The version query of runtime candidate `index`.
    CheckRuntime { layout: Layout, index: usize },
    /// Spawning the backend with runtime candidate `index`.
    Spawning { layout: Layout, index: usize },
    /// A try of the backend's port, or the pause after a failed one.
    BackendWait { attempts: u32, sleeping: bool },
    /// The end: the backend answered (`ready`) or the wait ran out.
    Finished { ready: bool },
}

/// What the sequence asks its driver to do next.
pub enum Action {
    /// Begin the sequence; answer with `Event::Start`.
    Start,
    /// Try once to connect to the port on the loopback address; answer
    /// with `Event::Connected`.
    Connect { port: u16 },
    /// Pause; answer with `Event::Slept`.
    Sleep { ms: u64 },
    /// Run the container engine with these arguments, capturing its output;
    /// answer with `Event::EngineRan` or `Event::EngineFailed`.
    Engine { args: Vec<String> },
    /// Look for the dependency archive among the resources, resolve the
    /// backend's resource directory, and see whether the archive's
    /// destination exists; answer with `Event::ArchiveState`.
    CheckArchive,
    /// Run the native extraction tool on the archive; answer with
    /// `Event::ToolExited` or `Event::ToolFailed`.
    FastExtract,
    /// Open the archive; answer with `Event::ArchiveOpened` or
    /// `Event::ArchiveFailed`.
    OpenArchive,
    /// Write out entry `index` of the open archive; answer with
    /// `Event::EntryDone` or `Event::ArchiveFailed`.
    ExtractEntry { index: u64 },
    /// Check the candidate layouts of the backend, in order of priority;
    /// answer with `Event::Layouts`.
    LocateBackend,
    /// Read the override file of the layout; answer with
    /// `Event::OverridesRead`.
    ReadOverrides { layout: Layout },
    /// Make the storage directory; answer with `Event::StorageReady`.
    PrepareStorage { layout: Layout, root: StorageRoot },
    /// Gather the runtime's possible places; answer with
    /// `Event::RuntimeHints`.
    FindRuntimes,
    /// Run the program with a version query; answer with
    /// `Event::RuntimeChecked`.
    CheckRuntime { program: String },
    /// Spawn the backend's entry file of the layout with the program, in
    /// the layout's directory, with exactly this environment over the
    /// inherited one; answer with `Event::Spawned`.
    Spawn { program: String, layout: Layout, env: EnvVars },
    /// Nothing more to do.
    Finish,
}

/// What the driver reports back.
pub enum Event {
    Start,
    Connected(bool),
    Slept,
    EngineRan { success: bool, stdout: Vec<u8>, stderr: Vec<u8> },
    EngineFailed { error: String },
    ArchiveState { archive_found: bool, backend_dir_error: Option<String>, extracted: bool },
    ToolExited { success: bool, status: String },
    ToolFailed { error: String },
    ArchiveOpened { total: u64 },
    ArchiveFailed { error: String },
    /// `written` is false where the entry's name was unsafe and it was skipped.
    EntryDone { written: bool },
    Layouts { candidates: Vec<LayoutCheck> },
    /// `text` is `None` where the file could not be read.
    OverridesRead { text: Option<String>, has_manifest: bool, has_parent: bool, has_app_data: bool },
    /// `path` is the storage root made of the chosen `StorageRoot`.
    StorageReady { path: String, failure: Option<String> },
    RuntimeHints {
        bundled: Option<String>,
        program_files: Option<String>,
        program_files_x86: Option<String>,
        local_app_data: Option<String>,
    },
    RuntimeChecked { ok: bool },
    Spawned { failure: Option<String> },
}

/// The phase that the status shows at each stage.
pub open spec fn phase_of(s: Stage) -> Phase {
    match s {
        Stage::Begin => Phase::Initializing,
        Stage::QdrantCheck | Stage::QdrantStart | Stage::QdrantCreate => Phase::Qdrant,
        Stage::QdrantWait { .. } | Stage::ArchiveCheck => Phase::QdrantWait,
        Stage::FastExtract | Stage::OpenArchive | Stage::Extracting { .. } => Phase::Unpacking,
        Stage::BackendWait { .. } => Phase::BackendWait,
        Stage::Finished { ready } => if ready { Phase::Ready } else { Phase::Timeout },
        _ => Phase::BackendStarting,
    }
}

/// The startup sequence: vector database, its wait, the dependency archive,
/// the backend, and the backend's wait, each step tolerant of failure. It
/// decides; its driver does the outside work that each `Action` names and
/// answers with an `Event`.
pub struct Sequencer {
    pub state: StartupState,
    pub stage: Stage,
    pub container: ContainerSpec,
    pub overrides: EnvVars,
    pub env: EnvVars,
    pub storage: StorageRoot,
    pub runtimes: Vec<String>,
}

/// The stage that `e` leads to from `s`; an event that does not answer what
/// the stage waits on leaves it where it is.
pub open spec fn next_stage(s: Sequencer, e: Event) -> Stage {
    match (s.stage, e) {
        (Stage::Begin, Event::Start) => Stage::QdrantCheck,
        (Stage::QdrantCheck, Event::Connected(up)) => if up {
            Stage::QdrantWait { attempts: 0, sleeping: false }
        } else {
            Stage::QdrantStart
        },
        (Stage::QdrantStart, Event::EngineRan { success, .. }) => if success {
            Stage::QdrantWait { attempts: 0, sleeping: false }
        } else {
            Stage::QdrantCreate
        },
        (Stage::QdrantStart, Event::EngineFailed { .. }) => Stage::QdrantWait {
            attempts: 0,
            sleeping: false,
        },
        (Stage::QdrantCreate, Event::EngineRan { .. }) => Stage::QdrantWait {
            attempts: 0,
            sleeping: false,
        },
        (Stage::QdrantCreate, Event::EngineFailed { .. }) => Stage::QdrantWait {
            attempts: 0,
            sleeping: false,
        },
        (Stage::QdrantWait { attempts, sleeping: false }, Event::Connected(up)) => if up {
            Stage::ArchiveCheck
        } else {
            Stage::QdrantWait { attempts: (attempts + 1) as u32, sleeping: true }
        },
        (Stage::QdrantWait { attempts, sleeping: true }, Event::Slept) => if attempts
            < QDRANT_WAIT_ATTEMPTS {
            Stage::QdrantWait { attempts, sleeping: false }
        } else {
            Stage::ArchiveCheck
        },
        (Stage::ArchiveCheck, Event::ArchiveState { archive_found, backend_dir_error, extracted }) => {
            if archive_found && backend_dir_error is None && !extracted {
                Stage::FastExtract
            } else {
                Stage::Locate
            }
        },
        (Stage::FastExtract, Event::ToolExited { success, .. }) => if success {
            Stage::Locate
        } else {
            Stage::OpenArchive
        },
        (Stage::FastExtract, Event::ToolFailed { .. }) => Stage::OpenArchive,
        (Stage::OpenArchive, Event::ArchiveOpened { total }) => if total > 0 {
            Stage::Extracting { entry: 0, total }
        } else {
            Stage::Locate
        },
        (Stage::OpenArchive, Event::ArchiveFailed { .. }) => Stage::Locate,
        (Stage::Extracting { entry, total }, Event::EntryDone { .. }) => if entry + 1 < total {
            Stage::Extracting { entry: (entry + 1) as u64, total }
        } else {
            Stage::Locate
        },
        (Stage::Extracting { .. }, Event::ArchiveFailed { .. }) => Stage::Locate,
        (Stage::Locate, Event::Layouts { candidates }) => match first_layout(candidates@) {
            Some(layout) => Stage::ReadOverrides { layout },
            None => Stage::BackendWait { attempts: 0, sleeping: false },
        },
        (Stage::ReadOverrides { layout }, Event::OverridesRead { .. }) => Stage::Storage { layout },
        (Stage::Storage { layout }, Event::StorageReady { .. }) => Stage::Runtimes { layout },
        (Stage::Runtimes { layout }, Event::RuntimeHints { .. }) => Stage::CheckRuntime {
            layout,
            index: 0,
        },
        (Stage::CheckRuntime { layout, index }, Event::RuntimeChecked { ok }) => if ok {
            Stage::Spawning { layout, index }
        } else if index + 1 < s.runtimes.len() {
            Stage::CheckRuntime { layout, index: (index + 1) as usize }
        } else {
            Stage::BackendWait { attempts: 0, sleeping: false }
        },
        (Stage::Spawning { .. }, Event::Spawned { .. }) => Stage::BackendWait {
            attempts: 0,
            sleeping: false,
        },
        (Stage::BackendWait { attempts, sleeping: false }, Event::Connected(up)) => if up {
            Stage::Finished { ready: true }
        } else {
            Stage::BackendWait { attempts: (attempts + 1) as u32, sleeping: true }
        },
        (Stage::BackendWait { attempts, sleeping: true }, Event::Slept) => if attempts
            < BACKEND_WAIT_ATTEMPTS {
            Stage::BackendWait { attempts, sleeping: false }
        } else {
            Stage::Finished { ready: false }
        },
        _ => s.stage,
    }
}

/// Whether `a` is what the sequence asks for at its current stage.
pub open spec fn asks(s: Sequencer, a: Action) -> bool {
    match s.stage {
        Stage::Begin => a is Start,
        Stage::QdrantCheck => a == Action::Connect { port: s.container.port },
        Stage::QdrantStart => a matches Action::Engine { args } && args.deep_view() == start_args(
            s.container,
        ),
        Stage::QdrantCreate => a matches Action::Engine { args } && args.deep_view() == run_args(
            s.container,
        ),
        Stage::QdrantWait { sleeping, .. } => if sleeping {
            a == Action::Sleep { ms: WAIT_DELAY_MS }
        } else {
            a == Action::Connect { port: s.container.port }
        },
        Stage::ArchiveCheck => a is CheckArchive,
        Stage::FastExtract => a is FastExtract,
        Stage::OpenArchive => a is OpenArchive,
        Stage::Extracting { entry, .. } => a == Action::ExtractEntry { index: entry },
        Stage::Locate => a is LocateBackend,
        Stage::ReadOverrides { layout } => a == Action::ReadOverrides { layout },
        Stage::Storage { layout } => a == Action::PrepareStorage { layout, root: s.storage },
        Stage::Runtimes { .. } => a is FindRuntimes,
        Stage::CheckRuntime { index, .. } => a matches Action::CheckRuntime { program } && program@
            == s.runtimes[index as int]@,
        Stage::Spawning { layout, index } => a matches Action::Spawn { program, layout: l, env }
            && program@ == s.runtimes[index as int]@ && l == layout && env@ == s.env@,
        Stage::BackendWait { sleeping, .. } => if sleeping {
            a == Action::Sleep { ms: WAIT_DELAY_MS }
        } else {
            a == Action::Connect { port: BACKEND_PORT }
        },
        Stage::Finished { .. } => a is Finish,
    }
}

/// `a`, then `n` in decimal, then `b`.
fn text_with(a: &str, n: u64, b: &str) -> (r: String)
    ensures
        r@ == a@ + crate::text::decimal(n as nat) + b@,
{
    let mut s = String::from_str(a);
    push_decimal(&mut s, n);
    s.append(b);
    s
}

/// `a`, then `m`.
fn text_after(a: &str, m: &str) -> (r: String)
    ensures
        r@ == a@ + m@,
{
    let mut s = String::from_str(a);
    s.append(m);
    s
}

/// `a`, then `m`, then `b`.
fn text_around(a: &str, m: &str, b: &str) -> (r: String)
    ensures
        r@ == a@ + m@ + b@,
{
    let mut s = String::from_str(a);
    s.append(m);
    s.append(b);
    s
}

impl Sequencer {
    /// The stage's bounds, and the phase that it shows.
    pub open spec fn wf(&self) -> bool {
        &&& self.state.phase == phase_of(self.stage)
        &&& match self.stage {
            Stage::QdrantWait { attempts, sleeping } => attempts <= QDRANT_WAIT_ATTEMPTS && (
            !sleeping ==> attempts < QDRANT_WAIT_ATTEMPTS),
            Stage::BackendWait { attempts, sleeping } => attempts <= BACKEND_WAIT_ATTEMPTS && (
            !sleeping ==> attempts < BACKEND_WAIT_ATTEMPTS),
            Stage::Extracting { entry, total } => entry < total,
            Stage::CheckRuntime { index, .. } => index < self.runtimes.len(),
            Stage::Spawning { index, .. } => index < self.runtimes.len(),
            _ => true,
        }
    }

    /// A sequence that has not begun, for `container`.
    pub fn new(container: ContainerSpec) -> (r: Sequencer)
        ensures
            r.wf(),
            r.stage == Stage::Begin,
            r.state.phase == Phase::Initializing,
            r.state.message@ == "Starting up..."@,
            r.state.logs@.len() == 0,
            r.container == container,
            r.overrides@ == Map::<Seq<char>, Seq<char>>::empty(),
            r.env@ == Map::<Seq<char>, Seq<char>>::empty(),
            r.storage == StorageRoot::InBackend,
            r.runtimes@.len() == 0,
    {
        Sequencer {
            state: StartupState::new(),
            stage: Stage::Begin,
            container,
            overrides: EnvVars::new(),
            env: EnvVars::new(),
            storage: StorageRoot::InBackend,
            runtimes: Vec::new(),
        }
    }

    /// What the sequence asks for at its current stage.
    pub fn pending(&self) -> (a: Action)
        requires
            self.wf(),
        ensures
            asks(*self, a),
    {
        match self.stage {
            Stage::Begin => Action::Start,
            Stage::QdrantCheck => Action::Connect { port: self.container.port },
            Stage::QdrantStart => Action::Engine { args: start_command(&self.container) },
            Stage::QdrantCreate => Action::Engine { args: run_command(&self.container) },
            Stage::QdrantWait { sleeping, .. } => if sleeping {
                Action::Sleep { ms: WAIT_DELAY_MS }
            } else {
                Action::Connect { port: self.container.port }
            },
            Stage::ArchiveCheck => Action::CheckArchive,
            Stage::FastExtract => Action::FastExtract,
            Stage::OpenArchive => Action::OpenArchive,
            Stage::Extracting { entry, .. } => Action::ExtractEntry { index: entry },
            Stage::Locate => Action::LocateBackend,
            Stage::ReadOverrides { layout } => Action::ReadOverrides { layout },
            Stage::Storage { layout } => Action::PrepareStorage {
                layout,
                root: self.storage.duplicate(),
            },
            Stage::Runtimes { .. } => Action::FindRuntimes,
            Stage::CheckRuntime { index, .. } => Action::CheckRuntime {
                program: self.runtimes[index].clone(),
            },
            Stage::Spawning { layout, index } => {
                let mut env = EnvVars::new();
                env.extend(&self.env);
                assert(env@ =~= self.env@);
                Action::Spawn { program: self.runtimes[index].clone(), layout, env }
            },
            Stage::BackendWait { sleeping, .. } => if sleeping {
                Action::Sleep { ms: WAIT_DELAY_MS }
            } else {
                Action::Connect { port: BACKEND_PORT }
            },
            Stage::Finished { .. } => Action::Finish,
        }
    }
}

/// Whether `a` and `b` hold the same container, overrides, storage root,
/// environment and runtime candidates.
pub open spec fn same_data(a: Sequencer, b: Sequencer) -> bool {
    &&& b.container == a.container
    &&& b.overrides@ == a.overrides@
    &&& b.storage == a.storage
    &&& b.env@ == a.env@
    &&& b.runtimes@ == a.runtimes@
}

impl Sequencer {
    /// Starts the wait for the vector database's port.
    fn enter_qdrant_wait(&mut self, ms: u64)
        requires
            old(self).wf(),
            phase_rank(old(self).state.phase) <= 2,
        ensures
            final(self).wf(),
            final(self).stage == (Stage::QdrantWait { attempts: 0, sleeping: false }),
            final(self).state.message@ == qdrant_wait_message(old(self).container),
            final(self).state.logs_view() == old(self).state.logs_view() + line(
                ms as nat,
                qdrant_wait_message(old(self).container),
            ),
            same_data(*old(self), *final(self)),
    {
        let m = text_with("Waiting for Qdrant on port ", self.container.port as u64, "...");
        self.enter(Phase::QdrantWait, m.as_str(), ms);
        self.stage = Stage::QdrantWait { attempts: 0, sleeping: false };
    }

    /// Starts the backend step.
    fn enter_backend(&mut self, ms: u64)
        requires
            old(self).wf(),
            phase_rank(old(self).state.phase) <= 4,
        ensures
            final(self).wf(),
            final(self).stage == Stage::Locate,
            final(self).state.message@ == backend_message(),
            final(self).state.logs_view() == old(self).state.logs_view() + line(
                ms as nat,
                backend_message(),
            ),
            same_data(*old(self), *final(self)),
    {
        self.enter(Phase::BackendStarting, "Starting Node.js backend server...", ms);
        self.stage = Stage::Locate;
    }

    /// Starts the wait for the backend's port.
    fn enter_backend_wait(&mut self, ms: u64)
        requires
            old(self).wf(),
            phase_rank(old(self).state.phase) <= 5,
        ensures
            final(self).wf(),
            final(self).stage == (Stage::BackendWait { attempts: 0, sleeping: false }),
            final(self).state.message@ == backend_wait_message(),
            final(self).state.logs_view() == old(self).state.logs_view() + line(
                ms as nat,
                backend_wait_message(),
            ),
            same_data(*old(self), *final(self)),
    {
        self.enter(Phase::BackendWait, "Waiting for backend on port 3001...", ms);
        self.stage = Stage::BackendWait { attempts: 0, sleeping: false };
    }

    /// Enters `phase` with `msg`.
    fn enter(&mut self, phase: Phase, msg: &str, ms: u64)
        requires
            may_enter(old(self).state.phase, phase),
        ensures
            final(self).stage == old(self).stage,
            final(self).state.phase == phase,
            final(self).state.message@ == msg@,
            final(self).state.logs_view() == old(self).state.logs_view() + line(ms as nat, msg@),
            same_data(*old(self), *final(self)),
    {
        self.state.set_phase(phase, msg, ms);
        assert(self.state.logs_view() =~= old(self).state.logs_view() + line(ms as nat, msg@));
    }

    /// Logs the output of an engine command.
    fn log_output(&mut self, stdout: &[u8], stderr: &[u8], ms: u64)
        ensures
            final(self).stage == old(self).stage,
            final(self).state.phase == old(self).state.phase,
            final(self).state.message@ == old(self).state.message@,
            final(self).state.logs_view() == old(self).state.logs_view() + output_lines(
                ms as nat,
                stdout@,
                stderr@,
            ),
            same_data(*old(self), *final(self)),
    {
        log_docker_output(stdout, stderr, &mut self.state, ms);
        assert(self.state.logs_view() =~= old(self).state.logs_view() + output_lines(
            ms as nat,
            stdout@,
            stderr@,
        ));
    }

    /// Appends `msg` to the log.
    fn note(&mut self, msg: &str, ms: u64)
        ensures
            final(self).stage == old(self).stage,
            final(self).state.phase == old(self).state.phase,
            final(self).state.message@ == old(self).state.message@,
            final(self).state.logs_view() == old(self).state.logs_view() + line(ms as nat, msg@),
            same_data(*old(self), *final(self)),
    {
        self.state.add_log(msg, ms);
        assert(self.state.logs_view() =~= old(self).state.logs_view() + line(ms as nat, msg@));
    }
}

/// One log line, `m` stamped with `ms`.
pub open spec fn line(ms: nat, m: Seq<char>) -> Seq<Seq<char>> {
    seq![log_entry(ms, m)]
}

/// The message of the wait for the vector database.
pub open spec fn qdrant_wait_message(c: ContainerSpec) -> Seq<char> {
    "Waiting for Qdrant on port "@ + crate::text::decimal(c.port as nat) + "..."@
}

/// The message of the backend step.
pub open spec fn backend_message() -> Seq<char> {
    "Starting Node.js backend server..."@
}

/// The message of the wait for the backend.
pub open spec fn backend_wait_message() -> Seq<char> {
    "Waiting for backend on port 3001..."@
}

/// The message while the built-in extractor runs, after `entry` of `total`.
pub open spec fn progress_message(entry: nat, total: nat) -> Seq<char> {
    "Extracting dependencies... ("@ + crate::text::decimal(entry) + "/"@ + crate::text::decimal(
        total,
    ) + " files)"@
}

/// Whether the built-in extractor reports progress after writing `entry`.
pub open spec fn reports_progress(entry: u64, written: bool) -> bool {
    written && entry % PROGRESS_EVERY == 0 && entry > 0
}

/// The lines that an engine command's output adds to the log.
pub open spec fn output_lines(ms: nat, stdout: Seq<u8>, stderr: Seq<u8>) -> Seq<Seq<char>> {
    engine_entries(ms, split_lines(utf8_lossy(stdout))) + engine_entries(
        ms,
        split_lines(utf8_lossy(stderr)),
    )
}

/// The message that a phase is entered with at this step, if one is.
pub open spec fn entered_message(s: Sequencer, e: Event) -> Option<Seq<char>> {
    match (s.stage, e) {
        (Stage::Begin, Event::Start) => Some("Starting Qdrant vector database..."@),
        (Stage::QdrantCheck, Event::Connected(up)) => if up {
            Some(qdrant_wait_message(s.container))
        } else {
            None
        },
        (Stage::QdrantStart, Event::EngineRan { success, .. }) => if success {
            Some(qdrant_wait_message(s.container))
        } else {
            None
        },
        (Stage::QdrantStart, Event::EngineFailed { .. }) => Some(qdrant_wait_message(s.container)),
        (Stage::QdrantCreate, Event::EngineRan { .. }) => Some(qdrant_wait_message(s.container)),
        (Stage::QdrantCreate, Event::EngineFailed { .. }) => Some(qdrant_wait_message(s.container)),
        (Stage::ArchiveCheck, Event::ArchiveState { archive_found, backend_dir_error, extracted }) => {
            if archive_found && backend_dir_error is None && !extracted {
                Some("First launch: extracting dependencies (~30s)..."@)
            } else {
                Some(backend_message())
            }
        },
        (Stage::FastExtract, Event::ToolExited { success, .. }) => if success {
            Some(backend_message())
        } else {
            None
        },
        (Stage::OpenArchive, Event::ArchiveOpened { total }) => if total > 0 {
            None
        } else {
            Some(backend_message())
        },
        (Stage::OpenArchive, Event::ArchiveFailed { .. }) => Some(backend_message()),
        (Stage::Extracting { entry, total }, Event::EntryDone { written }) => if entry + 1
            >= total {
            Some(backend_message())
        } else if reports_progress(entry, written) {
            Some(progress_message(entry as nat, total as nat))
        } else {
            None
        },
        (Stage::Extracting { .. }, Event::ArchiveFailed { .. }) => Some(backend_message()),
        (Stage::Locate, Event::Layouts { candidates }) => if first_layout(candidates@) is None {
            Some(backend_wait_message())
        } else {
            None
        },
        (Stage::CheckRuntime { index, .. }, Event::RuntimeChecked { ok }) => if !ok && index + 1
            >= s.runtimes.len() {
            Some(backend_wait_message())
        } else {
            None
        },
        (Stage::Spawning { .. }, Event::Spawned { .. }) => Some(backend_wait_message()),
        (Stage::BackendWait { sleeping: false, .. }, Event::Connected(up)) => if up {
            Some("\u{2713} Backend is ready!"@)
        } else {
            None
        },
        (Stage::BackendWait { attempts, sleeping: true }, Event::Slept) => if attempts
            < BACKEND_WAIT_ATTEMPTS {
            None
        } else {
            Some("\u{26A0} Backend did not start in 30s \u{2014} check backend.log"@)
        },
        _ => None,
    }
}

/// The lines that this step adds to the log, in order. `env` is the
/// environment as the step leaves it.
pub open spec fn added_lines(
    s: Sequencer,
    e: Event,
    ms: nat,
    env: Map<Seq<char>, Seq<char>>,
) -> Seq<Seq<char>> {
    let wait_q = line(ms, qdrant_wait_message(s.container));
    let to_backend = line(ms, backend_message());
    let wait_b = line(ms, backend_wait_message());
    match (s.stage, e) {
        (Stage::Begin, Event::Start) => line(ms, "Starting Qdrant vector database..."@),
        (Stage::QdrantCheck, Event::Connected(up)) => if up {
            line(
                ms,
                "\u{2713} Qdrant already reachable on 127.0.0.1:6333 (reusing existing instance)"@,
            ) + wait_q
        } else {
            Seq::empty()
        },
        (Stage::QdrantStart, Event::EngineRan { success, stdout, stderr }) => output_lines(
            ms,
            stdout@,
            stderr@,
        ) + if success {
            line(ms, "\u{2713} Qdrant container started: "@ + s.container.name@) + wait_q
        } else {
            line(ms, "Creating Qdrant container: "@ + s.container.name@)
        },
        (Stage::QdrantStart, Event::EngineFailed { error }) => line(
            ms,
            "\u{26A0} docker start failed: "@ + error@
                + " \u{2014} ensure Docker Desktop is running"@,
        ) + wait_q,
        (Stage::QdrantCreate, Event::EngineRan { success, stdout, stderr }) => output_lines(
            ms,
            stdout@,
            stderr@,
        ) + if success {
            line(ms, "\u{2713} Qdrant container created and started"@)
        } else {
            line(
                ms,
                "\u{26A0} Failed to create Qdrant container \u{2014} ensure Docker Desktop is running"@,
            )
        } + wait_q,
        (Stage::QdrantCreate, Event::EngineFailed { error }) => line(
            ms,
            "\u{26A0} docker run failed: "@ + error@,
        ) + wait_q,
        (Stage::QdrantWait { sleeping: false, .. }, Event::Connected(up)) => if up {
            line(ms, "\u{2713} Qdrant is ready"@)
        } else {
            Seq::empty()
        },
        (Stage::QdrantWait { attempts, sleeping: true }, Event::Slept) => if attempts
            < QDRANT_WAIT_ATTEMPTS {
            Seq::empty()
        } else {
            line(ms, "\u{26A0} Qdrant not ready after 10s \u{2014} vector search may be unavailable"@)
        },
        (Stage::ArchiveCheck, Event::ArchiveState { archive_found, backend_dir_error, extracted }) => {
            if !archive_found {
                line(ms, "node_modules.zip not found \u{2014} running in dev mode"@) + to_backend
            } else if backend_dir_error is Some {
                line(
                    ms,
                    "\u{26A0} Could not resolve backend resource dir: "@ + backend_dir_error->0@,
                ) + to_backend
            } else if extracted {
                line(ms, "node_modules already extracted \u{2014} skipping"@) + to_backend
            } else {
                line(ms, "First launch: extracting dependencies (~30s)..."@)
            }
        },
        (Stage::FastExtract, Event::ToolExited { success, status }) => if success {
            line(ms, "\u{2713} node_modules extracted via PowerShell"@) + to_backend
        } else {
            line(
                ms,
                "PowerShell exited "@ + status@ + " \u{2014} falling back to built-in extractor"@,
            )
        },
        (Stage::FastExtract, Event::ToolFailed { error }) => line(
            ms,
            "PowerShell unavailable ("@ + error@ + ") \u{2014} using built-in extractor"@,
        ),
        (Stage::OpenArchive, Event::ArchiveOpened { total }) => if total > 0 {
            Seq::empty()
        } else {
            line(ms, "\u{2713} node_modules extracted"@) + to_backend
        },
        (Stage::OpenArchive, Event::ArchiveFailed { error }) => line(
            ms,
            "\u{26A0} Extraction failed: "@ + error@,
        ) + to_backend,
        (Stage::Extracting { entry, total }, Event::EntryDone { written }) => (if reports_progress(
            entry,
            written,
        ) {
            line(ms, progress_message(entry as nat, total as nat))
        } else {
            Seq::empty()
        }) + if entry + 1 < total {
            Seq::empty()
        } else {
            line(ms, "\u{2713} node_modules extracted"@) + to_backend
        },
        (Stage::Extracting { .. }, Event::ArchiveFailed { error }) => line(
            ms,
            "\u{26A0} Extraction failed: "@ + error@,
        ) + to_backend,
        (Stage::Locate, Event::Layouts { candidates }) => if first_layout(candidates@) is None {
            line(ms, "\u{26A0} Backend entry point not found (expected backend/dist/server.js)"@)
                + wait_b
        } else {
            Seq::empty()
        },
        (Stage::Storage { .. }, Event::StorageReady { failure, .. }) => (match failure {
            Some(f) => line(ms, "\u{26A0} Could not create storage dir: "@ + f@),
            None => Seq::empty(),
        }) + if credential_ok(env) {
            line(ms, "\u{2713} GROQ_API_KEY loaded from .env"@)
        } else {
            line(ms, "\u{26A0} GROQ_API_KEY missing or placeholder \u{2014} AI chat will be disabled"@)
        },
        (Stage::CheckRuntime { index, .. }, Event::RuntimeChecked { ok }) => if ok {
            line(ms, "Using Node: "@ + s.runtimes[index as int]@)
        } else if index + 1 < s.runtimes.len() {
            Seq::empty()
        } else {
            line(ms, runtime_missing_message()) + wait_b
        },
        (Stage::Spawning { .. }, Event::Spawned { failure }) => (match failure {
            None => line(ms, "\u{2713} Backend process spawned"@),
            Some(f) => line(ms, "\u{26A0} Failed to spawn backend: "@ + f@),
        }) + wait_b,
        (Stage::BackendWait { sleeping: false, .. }, Event::Connected(up)) => if up {
            line(ms, "\u{2713} Backend is ready!"@)
        } else {
            Seq::empty()
        },
        (Stage::BackendWait { attempts, sleeping: true }, Event::Slept) => if attempts
            < BACKEND_WAIT_ATTEMPTS {
            Seq::empty()
        } else {
            line(ms, "\u{26A0} Backend did not start in 30s \u{2014} check backend.log"@)
        },
        _ => Seq::empty(),
    }
}

/// The line logged when no runtime candidate passes its version query.
pub open spec fn runtime_missing_message() -> Seq<char> {
    "\u{26A0} Node.js not found in PATH or common locations \u{2014} install Node.js first"@
}

/// The overrides that the step leaves: those of the override file's text
/// where this step read it (none where it could not be read), else the
/// ones held before.
pub open spec fn next_overrides(s: Sequencer, e: Event) -> Map<Seq<char>, Seq<char>> {
    match (s.stage, e) {
        (Stage::ReadOverrides { .. }, Event::OverridesRead { text, .. }) => match text {
            Some(t) => overrides_of(t@),
            None => Map::empty(),
        },
        _ => s.overrides@,
    }
}

/// The backend's environment that the step leaves: where this step made the
/// storage root, the defaults with that root, then every override over
/// them; else the one held before.
pub open spec fn next_env(s: Sequencer, e: Event) -> Map<Seq<char>, Seq<char>> {
    match (s.stage, e) {
        (Stage::Storage { .. }, Event::StorageReady { path, .. }) => default_env(
            path@,
        ).union_prefer_right(s.overrides@),
        _ => s.env@,
    }
}

/// The runtime candidates that the step leaves.
pub open spec fn next_runtimes(s: Sequencer, e: Event) -> Seq<Seq<char>> {
    match (s.stage, e) {
        (
            Stage::Runtimes { .. },
            Event::RuntimeHints { bundled, program_files, program_files_x86, local_app_data },
        ) => opt_seq(bundled) + seq!["node"@] + opt_seq(program_files) + opt_seq(
            program_files_x86,
        ) + opt_seq(local_app_data),
        _ => s.runtimes.deep_view(),
    }
}

/// Whether `r` is the storage root that the step leaves: where this step
/// read the override file, the choice that `storage_choice` describes for
/// the overrides read; else the one held before.
pub open spec fn next_storage_ok(s: Sequencer, e: Event, ov: Map<Seq<char>, Seq<char>>, r: StorageRoot) -> bool {
    match (s.stage, e) {
        (
            Stage::ReadOverrides { .. },
            Event::OverridesRead { has_manifest, has_parent, has_app_data, .. },
        ) => storage_choice(ov, has_manifest, has_parent, has_app_data, r),
        _ => r == s.storage,
    }
}

/// What one step does: the stage moves as `next_stage` says and the phase
/// only forward; the log gains exactly `added_lines`; the message is that
/// of the phase entered, if any; and the overrides, the storage root, the
/// backend's environment and the runtime candidates are those that the
/// step reads or builds.
pub open spec fn stepped(old: Sequencer, new: Sequencer, event: Event, ms: nat) -> bool {
    &&& new.stage == next_stage(old, event)
    &&& may_enter(old.state.phase, new.state.phase)
    &&& new.state.logs_view() == old.state.logs_view() + added_lines(old, event, ms, new.env@)
    &&& new.state.message@ == match entered_message(old, event) {
        Some(m) => m,
        None => old.state.message@,
    }
    &&& new.container == old.container
    &&& new.overrides@ == next_overrides(old, event)
    &&& next_storage_ok(old, event, new.overrides@, new.storage)
    &&& new.env@ == next_env(old, event)
    &&& new.runtimes.deep_view() == next_runtimes(old, event)
}

/// The stages up to the check of the dependency archive.
pub open spec fn is_early(s: Stage) -> bool {
    match s {
        Stage::Begin | Stage::QdrantCheck | Stage::QdrantStart | Stage::QdrantCreate
        | Stage::QdrantWait { .. } | Stage::ArchiveCheck => true,
        _ => false,
    }
}

impl Sequencer {
    /// Takes the driver's answer `event`, at `elapsed_ms` after the start,
    /// logs what came of it, moves on, and returns what to do next. Every
    /// failure is logged and the sequence goes on; only the last step
    /// branches, into `ready` or `timeout`.
    pub fn step(&mut self, event: Event, elapsed_ms: u64) -> (a: Action)
        requires
            old(self).wf(),
        ensures
            final(self).wf(),
            stepped(*old(self), *final(self), event, elapsed_ms as nat),
            asks(*final(self), a),
    {
        if self.stage_is_early() {
            self.step_early(event, elapsed_ms);
        } else {
            self.step_late(event, elapsed_ms);
        }
        self.pending()
    }

    fn stage_is_early(&self) -> (r: bool)
        ensures
            r == is_early(self.stage),
    {
        match self.stage {
            Stage::Begin | Stage::QdrantCheck | Stage::QdrantStart | Stage::QdrantCreate
            | Stage::QdrantWait { .. } | Stage::ArchiveCheck => true,
            _ => false,
        }
    }

    fn step_early(&mut self, event: Event, ms: u64)
        requires
            old(self).wf(),
            is_early(old(self).stage),
        ensures
            final(self).wf(),
            stepped(*old(self), *final(self), event, ms as nat),
    {
        let ghost ev = event;
        match (self.stage, event) {
            (Stage::Begin, Event::Start) => {
                self.enter(Phase::Qdrant, "Starting Qdrant vector database...", ms);
                self.stage = Stage::QdrantCheck;
            },
            (Stage::QdrantCheck, Event::Connected(up)) => {
                if up {
                    self.note("\u{2713} Qdrant already reachable on 127.0.0.1:6333 (reusing existing instance)", ms);
                    self.enter_qdrant_wait(ms);
                } else {
                    self.stage = Stage::QdrantStart;
                }
            },
            (Stage::QdrantStart, Event::EngineRan { success, stdout, stderr }) => {
                self.log_output(stdout.as_slice(), stderr.as_slice(), ms);
                if success {
                    let m = text_after("\u{2713} Qdrant container started: ", self.container.name.as_str());
                    self.note(m.as_str(), ms);
                    self.enter_qdrant_wait(ms);
                } else {
                    let m = text_after("Creating Qdrant container: ", self.container.name.as_str());
                    self.note(m.as_str(), ms);
                    self.stage = Stage::QdrantCreate;
                }
            },
            (Stage::QdrantStart, Event::EngineFailed { error }) => {
                let m = text_around("\u{26A0} docker start failed: ", error.as_str(), " \u{2014} ensure Docker Desktop is running");
                self.note(m.as_str(), ms);
                self.enter_qdrant_wait(ms);
            },
            (Stage::QdrantCreate, Event::EngineRan { success, stdout, stderr }) => {
                self.log_output(stdout.as_slice(), stderr.as_slice(), ms);
                if success {
                    self.note("\u{2713} Qdrant container created and started", ms);
                } else {
                    self.note("\u{26A0} Failed to create Qdrant container \u{2014} ensure Docker Desktop is running", ms);
                }
                self.enter_qdrant_wait(ms);
            },
            (Stage::QdrantCreate, Event::EngineFailed { error }) => {
                let m = text_after("\u{26A0} docker run failed: ", error.as_str());
                self.note(m.as_str(), ms);
                self.enter_qdrant_wait(ms);
            },
            (Stage::QdrantWait { attempts, sleeping: false }, Event::Connected(up)) => {
                if up {
                    self.note("\u{2713} Qdrant is ready", ms);
                    self.stage = Stage::ArchiveCheck;
                } else {
                    self.stage = Stage::QdrantWait { attempts: attempts + 1, sleeping: true };
                }
            },
            (Stage::QdrantWait { attempts, sleeping: true }, Event::Slept) => {
                if attempts < QDRANT_WAIT_ATTEMPTS {
                    self.stage = Stage::QdrantWait { attempts, sleeping: false };
                } else {
                    self.note("\u{26A0} Qdrant not ready after 10s \u{2014} vector search may be unavailable", ms);
                    self.stage = Stage::ArchiveCheck;
                }
            },
            (Stage::ArchiveCheck, Event::ArchiveState { archive_found, backend_dir_error, extracted }) => {
                if !archive_found {
                    self.note("node_modules.zip not found \u{2014} running in dev mode", ms);
                    self.enter_backend(ms);
                } else if let Some(e) = backend_dir_error {
                    let m = text_after("\u{26A0} Could not resolve backend resource dir: ", e.as_str());
                    self.note(m.as_str(), ms);
                    self.enter_backend(ms);
                } else if extracted {
                    self.note("node_modules already extracted \u{2014} skipping", ms);
                    self.enter_backend(ms);
                } else {
                    self.enter(Phase::Unpacking, "First launch: extracting dependencies (~30s)...", ms);
                    self.stage = Stage::FastExtract;
                }
            },
            _ => {
            },
        }
        assert(self.state.logs_view() =~= old(self).state.logs_view() + added_lines(
            *old(self),
            ev,
            ms as nat,
            self.env@,
        ));
    }
}


impl Sequencer {
    fn step_late(&mut self, event: Event, ms: u64)
        requires
            old(self).wf(),
            !is_early(old(self).stage),
        ensures
            final(self).wf(),
            stepped(*old(self), *final(self), event, ms as nat),
    {
        let ghost ev = event;
        match (self.stage, event) {
            (Stage::FastExtract, Event::ToolExited { success, status }) => {
                if success {
                    self.note("\u{2713} node_modules extracted via PowerShell", ms);
                    self.enter_backend(ms);
                } else {
                    let m = text_around("PowerShell exited ", status.as_str(), " \u{2014} falling back to built-in extractor");
                    self.note(m.as_str(), ms);
                    self.stage = Stage::OpenArchive;
                }
            },
            (Stage::FastExtract, Event::ToolFailed { error }) => {
                let m = text_around("PowerShell unavailable (", error.as_str(), ") \u{2014} using built-in extractor");
                self.note(m.as_str(), ms);
                self.stage = Stage::OpenArchive;
            },
            (Stage::OpenArchive, Event::ArchiveOpened { total }) => {
                if total > 0 {
                    self.stage = Stage::Extracting { entry: 0, total };
                } else {
                    self.note("\u{2713} node_modules extracted", ms);
                    self.enter_backend(ms);
                }
            },
            (Stage::OpenArchive, Event::ArchiveFailed { error }) => {
                self.fail_extraction(error, ms);
            },
            (Stage::Extracting { entry, total }, Event::EntryDone { written }) => {
                if written && entry % PROGRESS_EVERY == 0 && entry > 0 {
                    let mut m = text_with("Extracting dependencies... (", entry, "/");
                    push_decimal(&mut m, total);
                    m.append(" files)");
                    self.enter(Phase::Unpacking, m.as_str(), ms);
                }
                if entry + 1 < total {
                    self.stage = Stage::Extracting { entry: entry + 1, total };
                } else {
                    self.note("\u{2713} node_modules extracted", ms);
                    self.enter_backend(ms);
                }
            },
            (Stage::Extracting { .. }, Event::ArchiveFailed { error }) => {
                self.fail_extraction(error, ms);
            },
            (Stage::Locate, Event::Layouts { candidates }) => {
                match resolve_backend_paths(&candidates) {
                    Some(layout) => {
                        self.stage = Stage::ReadOverrides { layout };
                    },
                    None => {
                        self.note("\u{26A0} Backend entry point not found (expected backend/dist/server.js)", ms);
                        self.enter_backend_wait(ms);
                    },
                }
            },
            (Stage::ReadOverrides { layout }, Event::OverridesRead { text, has_manifest, has_parent, has_app_data }) => {
                self.overrides = match text {
                    Some(t) => parse_dotenv(t.as_str()),
                    None => EnvVars::new(),
                };
                self.storage = choose_storage_root(&self.overrides, has_manifest, has_parent, has_app_data);
                self.stage = Stage::Storage { layout };
            },
            (Stage::Storage { layout }, Event::StorageReady { path, failure }) => {
                if let Some(e) = failure {
                    let m = text_after("\u{26A0} Could not create storage dir: ", e.as_str());
                    self.note(m.as_str(), ms);
                }
                self.env = backend_env(path.as_str(), &self.overrides);
                if credential_configured(&self.env) {
                    self.note("\u{2713} GROQ_API_KEY loaded from .env", ms);
                } else {
                    self.note("\u{26A0} GROQ_API_KEY missing or placeholder \u{2014} AI chat will be disabled", ms);
                }
                self.stage = Stage::Runtimes { layout };
            },
            (Stage::Runtimes { layout }, Event::RuntimeHints { bundled, program_files, program_files_x86, local_app_data }) => {
                self.runtimes = runtime_candidates(bundled, program_files, program_files_x86, local_app_data);
                proof {
                    crate::select::lemma_runtime_candidates_len(bundled, program_files, program_files_x86, local_app_data, self.runtimes.deep_view());
                }
                self.stage = Stage::CheckRuntime { layout, index: 0 };
            },
            (Stage::CheckRuntime { layout, index }, Event::RuntimeChecked { ok }) => {
                if ok {
                    let m = text_after("Using Node: ", self.runtimes[index].as_str());
                    self.note(m.as_str(), ms);
                    self.stage = Stage::Spawning { layout, index };
                } else if index + 1 < self.runtimes.len() {
                    self.stage = Stage::CheckRuntime { layout, index: index + 1 };
                } else {
                    self.note("\u{26A0} Node.js not found in PATH or common locations \u{2014} install Node.js first", ms);
                    self.enter_backend_wait(ms);
                }
            },
            (Stage::Spawning { .. }, Event::Spawned { failure }) => {
                match failure {
                    None => self.note("\u{2713} Backend process spawned", ms),
                    Some(e) => {
                        let m = text_after("\u{26A0} Failed to spawn backend: ", e.as_str());
                        self.note(m.as_str(), ms);
                    },
                }
                self.enter_backend_wait(ms);
            },
            (Stage::BackendWait { attempts, sleeping: false }, Event::Connected(up)) => {
                if up {
                    self.enter(Phase::Ready, "\u{2713} Backend is ready!", ms);
                    self.stage = Stage::Finished { ready: true };
                } else {
                    self.stage = Stage::BackendWait { attempts: attempts + 1, sleeping: true };
                }
            },
            (Stage::BackendWait { attempts, sleeping: true }, Event::Slept) => {
                if attempts < BACKEND_WAIT_ATTEMPTS {
                    self.stage = Stage::BackendWait { attempts, sleeping: false };
                } else {
                    self.enter(Phase::Timeout, "\u{26A0} Backend did not start in 30s \u{2014} check backend.log", ms);
                    self.stage = Stage::Finished { ready: false };
                }
            },
            _ => {},
        }
        assert(self.state.logs_view() =~= old(self).state.logs_view() + added_lines(
            *old(self),
            ev,
            ms as nat,
            self.env@,
        ));
    }

    /// Logs a failure of the built-in extractor and goes on to the backend.
    fn fail_extraction(&mut self, error: String, ms: u64)
        requires
            old(self).wf(),
            phase_rank(old(self).state.phase) <= 4,
        ensures
            final(self).wf(),
            final(self).stage == Stage::Locate,
            final(self).state.message@ == backend_message(),
            final(self).state.logs_view() == old(self).state.logs_view() + line(
                ms as nat,
                "\u{26A0} Extraction failed: "@ + error@,
            ) + line(ms as nat, backend_message()),
            same_data(*old(self), *final(self)),
    {
        let m = text_after("\u{26A0} Extraction failed: ", error.as_str());
        self.note(m.as_str(), ms);
        self.enter_backend(ms);
    }
}


/// Where the vector database already answers on its port, the sequence
/// goes straight to waiting for it: no engine command follows, however
/// often the check is made.
pub proof fn law_reachable_service_is_reused(s: Sequencer)
    requires
        s.stage == Stage::QdrantCheck,
    ensures
        next_stage(s, Event::Connected(true)) == (Stage::QdrantWait { attempts: 0, sleeping: false }),
        forall|a: Action| asks(s, a) ==> a == (Action::Connect { port: s.container.port }),
{
}

/// Where the archive's destination already exists, nothing is extracted:
/// the sequence goes on to the backend, whatever else was found.
pub proof fn law_extracted_archive_is_skipped(
    s: Sequencer,
    archive_found: bool,
    backend_dir_error: Option<String>,
)
    requires
        s.stage == Stage::ArchiveCheck,
    ensures
        next_stage(
            s,
            Event::ArchiveState { archive_found, backend_dir_error, extracted: true },
        ) == Stage::Locate,
{
}

/// A port wait ends as soon as a try connects, and never makes more tries
/// than its budget: a try is asked for only while fewer tries than the
/// budget have failed, and the pause after the last failed try ends the
/// wait.
pub proof fn law_port_wait_is_bounded(s: Sequencer, e: Event)
    requires
        s.wf(),
    ensures
        s.stage matches Stage::QdrantWait { sleeping: false, .. } ==> next_stage(
            s,
            Event::Connected(true),
        ) == Stage::ArchiveCheck,
        s.stage matches Stage::BackendWait { sleeping: false, .. } ==> next_stage(
            s,
            Event::Connected(true),
        ) == (Stage::Finished { ready: true }),
        s.stage matches Stage::QdrantWait { attempts, sleeping: false } ==> attempts
            < QDRANT_WAIT_ATTEMPTS,
        s.stage matches Stage::BackendWait { attempts, sleeping: false } ==> attempts
            < BACKEND_WAIT_ATTEMPTS,
        s.stage == (Stage::QdrantWait { attempts: QDRANT_WAIT_ATTEMPTS, sleeping: true })
            ==> next_stage(s, Event::Slept) == Stage::ArchiveCheck,
        s.stage == (Stage::BackendWait { attempts: BACKEND_WAIT_ATTEMPTS, sleeping: true })
            ==> next_stage(s, Event::Slept) == (Stage::Finished { ready: false }),
        next_stage(s, e) matches Stage::QdrantWait { attempts, .. } ==> attempts
            <= QDRANT_WAIT_ATTEMPTS,
        next_stage(s, e) matches Stage::BackendWait { attempts, .. } ==> attempts
            <= BACKEND_WAIT_ATTEMPTS,
{
}

/// Where no runtime candidate passes its version query, the backend step
/// ends without a process and the sequence still waits for the backend,
/// and ends in `timeout` once that wait runs out.
pub proof fn law_missing_runtime_reaches_timeout(s: Sequencer, layout: Layout)
    requires
        s.wf(),
        s.stage == (Stage::CheckRuntime { layout, index: (s.runtimes.len() - 1) as usize }),
    ensures
        next_stage(s, Event::RuntimeChecked { ok: false }) == (Stage::BackendWait {
            attempts: 0,
            sleeping: false,
        }),
        phase_of(Stage::BackendWait { attempts: 0, sleeping: false }) == Phase::BackendWait,
        phase_of(Stage::Finished { ready: false }) == Phase::Timeout,
{
}


/// An override that sets the credential to the empty string reaches the
/// backend's environment as empty, even over a non-empty value held before,
/// and the credential is then reported as missing.
pub proof fn law_empty_credential_override(s: Sequencer, path: String, failure: Option<String>, ms: nat)
    requires
        s.stage matches Stage::Storage { .. },
        s.overrides@.contains_key("GROQ_API_KEY"@),
        s.overrides@["GROQ_API_KEY"@] == Seq::<char>::empty(),
    ensures
        ({
            let e = Event::StorageReady { path, failure };
            let env = next_env(s, e);
            &&& env["GROQ_API_KEY"@] == Seq::<char>::empty()
            &&& !credential_ok(env)
            &&& added_lines(s, e, ms, env).last() == log_entry(
                ms,
                "\u{26A0} GROQ_API_KEY missing or placeholder \u{2014} AI chat will be disabled"@,
            )
        }),
{
}

} // verus!
