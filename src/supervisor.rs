use vstd::prelude::*;
use vstd::string::StringExecFns;
use crate::error::{not_found_text, startup_timeout_text, SupervisionError};
use crate::resolver::{candidate_spec, check_entry_point, entry_point_candidate, entry_point_rel, DeploymentMode};
use crate::status::{
    initial_model, option_string_view, PythonProcessStatus, StatusModel, StatusStore, BACKEND_PORT,
};
use crate::waiter::{ReadinessWaiter, WaitTimeout};

verus! {

/// How long the worker has to open its port once spawned.
pub const READY_TIMEOUT_SECS: u64 = 30;

pub open spec fn loopback_host_spec() -> Seq<char> {
    "127.0.0.1"@
}

/// The host on which the worker is expected to listen.
pub fn loopback_host() -> (r: &'static str)
    ensures
        r@ == loopback_host_spec(),
{
    "127.0.0.1"
}

/// Where a supervision run stands. `Ready` and `Failed` are terminal.
#[derive(Clone, Copy, Debug, PartialEq, Eq, Structural)]
pub enum Phase {
    Idle,
    CheckingInterpreter,
    ResolvingPath,
    CheckingPath,
    Launching,
    WaitingForPort,
    Ready,
    Failed,
}

impl Phase {
    pub open spec fn is_terminal(self) -> bool {
        self is Ready || self is Failed
    }
}

/// The lifecycle notifications sent to observers.
#[derive(Clone, Copy, Debug, PartialEq, Eq, Structural)]
pub enum Notification {
    BackendReady,
    BackendError,
}

impl Notification {
    pub open spec fn name_spec(self) -> Seq<char> {
        match self {
            Notification::BackendReady => "backend-ready"@,
            Notification::BackendError => "backend-error"@,
        }
    }

    /// The event name under which observers receive the notification.
    pub fn event_name(&self) -> (r: &'static str)
        ensures
            r@ == self.name_spec(),
    {
        match self {
            Notification::BackendReady => "backend-ready",
            Notification::BackendError => "backend-error",
        }
    }
}

/// The work the caller performs next, reporting its result through the
/// matching `on_...` method.
pub enum SupervisorAction {
    /// Run the interpreter's version check; report to `on_interpreter_checked`.
    CheckInterpreter,
    /// Look up the application data directory; report to `on_app_data_dir`.
    LocateAppDataDir,
    /// Test whether this path exists; report to `on_entry_point_checked`.
    CheckExists(String),
    /// Spawn the interpreter on this entry point; report to `on_spawned`.
    Launch(String),
    /// Run this wait; report to `on_port_waited`.
    WaitForPort(ReadinessWaiter),
    /// Send this notification carrying this record; the run is over.
    Notify(Notification, PythonProcessStatus),
    /// Nothing is left to do.
    Halt,
}

/// The decisions of one supervision run, as a state machine driven by the
/// results of the work it asks for.
pub struct Supervisor {
    mode: DeploymentMode,
    phase: Phase,
    entry_point: String,
}

pub ghost struct SupervisorModel {
    pub mode: DeploymentMode,
    pub phase: Phase,
    /// The entry point, once resolved.
    pub entry_point: Seq<char>,
}

impl SupervisorModel {
    pub open spec fn with_phase(self, phase: Phase) -> SupervisorModel {
        SupervisorModel { phase, ..self }
    }
}

impl View for Supervisor {
    type V = SupervisorModel;

    closed spec fn view(&self) -> SupervisorModel {
        SupervisorModel { mode: self.mode, phase: self.phase, entry_point: self.entry_point@ }
    }
}

/// A store that was settled keeps its record; one that changes goes from an
/// unsettled record to a settled one.
pub open spec fn write_once_step(before: StatusModel, after: StatusModel) -> bool {
    &&& before.is_settled() ==> after == before
    &&& after != before ==> !before.is_settled() && after.is_settled()
}

/// The terminal failure with `message`: written and announced if the store
/// was not settled yet, else nothing written and nothing announced.
pub open spec fn failure_outcome(
    before: StatusModel,
    after: StatusModel,
    r: SupervisorAction,
    message: Seq<char>,
) -> bool {
    if before.is_settled() {
        after == before && r is Halt
    } else {
        &&& after == (StatusModel { running: false, port: before.port, error: Some(message) })
        &&& r is Notify
        &&& r->Notify_0 == Notification::BackendError
        &&& r->Notify_1@ == after
    }
}

/// The terminal success: written and announced if the store was not settled
/// yet, else nothing written and nothing announced.
pub open spec fn success_outcome(before: StatusModel, after: StatusModel, r: SupervisorAction) -> bool {
    if before.is_settled() {
        after == before && r is Halt
    } else {
        &&& after == (StatusModel { running: true, port: BACKEND_PORT, error: None })
        &&& r is Notify
        &&& r->Notify_0 == Notification::BackendReady
        &&& r->Notify_1@ == after
    }
}

/// A notification goes out exactly when the store was written, carries the
/// record just written, and is `BackendReady` exactly when that record says
/// the worker is running.
pub open spec fn announced_with_write(before: StatusModel, after: StatusModel, r: SupervisorAction) -> bool {
    &&& write_once_step(before, after)
    &&& r is Notify <==> after != before
    &&& r is Notify ==> r->Notify_1@ == after && (r->Notify_0 == Notification::BackendReady <==> after.running)
}

impl Supervisor {
    /// A run that has not started.
    pub fn new(mode: DeploymentMode) -> (r: Supervisor)
        ensures
            r@ == (SupervisorModel { mode, phase: Phase::Idle, entry_point: Seq::empty() }),
    {
        Supervisor { mode, phase: Phase::Idle, entry_point: String::new() }
    }

    pub fn phase(&self) -> (r: Phase)
        ensures
            r == self@.phase,
    {
        self.phase
    }

    pub fn mode(&self) -> (r: DeploymentMode)
        ensures
            r == self@.mode,
    {
        self.mode
    }

    /// Starts the run: the first step checks the interpreter.
    pub fn start(&mut self) -> (r: SupervisorAction)
        ensures
            old(self)@.phase is Idle ==> final(self)@ == old(self)@.with_phase(Phase::CheckingInterpreter)
                && r is CheckInterpreter,
            !(old(self)@.phase is Idle) ==> final(self)@ == old(self)@ && r is Halt,
    {
        if self.phase != Phase::Idle {
            return SupervisorAction::Halt;
        }
        self.phase = Phase::CheckingInterpreter;
        SupervisorAction::CheckInterpreter
    }

    fn fail(&mut self, store: &mut StatusStore, error: SupervisionError) -> (r: SupervisorAction)
        ensures
            final(self)@ == old(self)@.with_phase(Phase::Failed),
            failure_outcome(old(store)@, final(store)@, r, error.message_spec()),
    {
        self.phase = Phase::Failed;
        let message = error.message();
        if store.record_failure(message) {
            SupervisorAction::Notify(Notification::BackendError, store.get_status())
        } else {
            SupervisorAction::Halt
        }
    }

    fn resolve(&mut self, store: &mut StatusStore, app_data_dir: Option<String>) -> (r: SupervisorAction)
        ensures
            match candidate_spec(old(self)@.mode, option_string_view(app_data_dir)) {
                Some(p) => final(self)@ == (SupervisorModel {
                    phase: Phase::CheckingPath,
                    entry_point: p,
                    ..old(self)@
                }) && r is CheckExists && r->CheckExists_0@ == p && final(store)@ == old(store)@,
                None => final(self)@ == old(self)@.with_phase(Phase::Failed) && failure_outcome(
                    old(store)@,
                    final(store)@,
                    r,
                    SupervisionError::AppDirUnavailable.message_spec(),
                ),
            },
    {
        match entry_point_candidate(self.mode, app_data_dir) {
            Ok(path) => {
                self.phase = Phase::CheckingPath;
                self.entry_point = path.clone();
                SupervisorAction::CheckExists(path)
            },
            Err(e) => self.fail(store, e),
        }
    }

    /// The interpreter check came back `available` or not. Without it the
    /// run fails; with it, development mode checks its fixed entry point and
    /// packaged mode asks for the application data directory.
    pub fn on_interpreter_checked(&mut self, store: &mut StatusStore, available: bool) -> (r: SupervisorAction)
        ensures
            !(old(self)@.phase is CheckingInterpreter) ==> final(self)@ == old(self)@
                && final(store)@ == old(store)@ && r is Halt,
            old(self)@.phase is CheckingInterpreter && !available ==> final(self)@
                == old(self)@.with_phase(Phase::Failed) && failure_outcome(
                old(store)@,
                final(store)@,
                r,
                SupervisionError::InterpreterMissing.message_spec(),
            ),
            old(self)@.phase is CheckingInterpreter && available && old(self)@.mode is Packaged
                ==> final(self)@ == old(self)@.with_phase(Phase::ResolvingPath) && r is LocateAppDataDir
                && final(store)@ == old(store)@,
            old(self)@.phase is CheckingInterpreter && available && old(self)@.mode is Development
                ==> final(self)@ == (SupervisorModel {
                phase: Phase::CheckingPath,
                entry_point: entry_point_rel(),
                ..old(self)@
            }) && r is CheckExists && r->CheckExists_0@ == entry_point_rel() && final(store)@ == old(store)@,
            announced_with_write(old(store)@, final(store)@, r),
    {
        if self.phase != Phase::CheckingInterpreter {
            return SupervisorAction::Halt;
        }
        if !available {
            return self.fail(store, SupervisionError::InterpreterMissing);
        }
        match self.mode {
            DeploymentMode::Packaged => {
                self.phase = Phase::ResolvingPath;
                SupervisorAction::LocateAppDataDir
            },
            DeploymentMode::Development => self.resolve(store, None),
        }
    }

    /// The application data directory, if one could be resolved. The entry
    /// point is joined under it; without one the run fails.
    pub fn on_app_data_dir(&mut self, store: &mut StatusStore, app_data_dir: Option<String>) -> (r: SupervisorAction)
        ensures
            !(old(self)@.phase is ResolvingPath) ==> final(self)@ == old(self)@
                && final(store)@ == old(store)@ && r is Halt,
            old(self)@.phase is ResolvingPath ==> match candidate_spec(
                old(self)@.mode,
                option_string_view(app_data_dir),
            ) {
                Some(p) => final(self)@ == (SupervisorModel {
                    phase: Phase::CheckingPath,
                    entry_point: p,
                    ..old(self)@
                }) && r is CheckExists && r->CheckExists_0@ == p && final(store)@ == old(store)@,
                None => final(self)@ == old(self)@.with_phase(Phase::Failed) && failure_outcome(
                    old(store)@,
                    final(store)@,
                    r,
                    SupervisionError::AppDirUnavailable.message_spec(),
                ),
            },
            announced_with_write(old(store)@, final(store)@, r),
    {
        if self.phase != Phase::ResolvingPath {
            return SupervisorAction::Halt;
        }
        self.resolve(store, app_data_dir)
    }

    /// Whether the entry point `exists`. If so the worker is launched on it;
    /// if not the run fails, naming the path.
    pub fn on_entry_point_checked(&mut self, store: &mut StatusStore, exists: bool) -> (r: SupervisorAction)
        ensures
            !(old(self)@.phase is CheckingPath) ==> final(self)@ == old(self)@
                && final(store)@ == old(store)@ && r is Halt,
            old(self)@.phase is CheckingPath && exists ==> final(self)@ == old(self)@.with_phase(Phase::Launching)
                && r is Launch && r->Launch_0@ == old(self)@.entry_point && final(store)@ == old(store)@,
            old(self)@.phase is CheckingPath && !exists ==> final(self)@ == old(self)@.with_phase(Phase::Failed)
                && failure_outcome(
                old(store)@,
                final(store)@,
                r,
                not_found_text(old(self)@.mode, old(self)@.entry_point),
            ),
            announced_with_write(old(store)@, final(store)@, r),
    {
        if self.phase != Phase::CheckingPath {
            return SupervisorAction::Halt;
        }
        match check_entry_point(self.mode, self.entry_point.clone(), exists) {
            Ok(path) => {
                self.phase = Phase::Launching;
                SupervisorAction::Launch(path)
            },
            Err(e) => self.fail(store, e),
        }
    }

    /// The result of spawning the worker. Once spawned, the run waits for the
    /// worker's port; a spawn failure ends the run with the system's text.
    pub fn on_spawned(&mut self, store: &mut StatusStore, spawned: Result<(), String>) -> (r: SupervisorAction)
        ensures
            !(old(self)@.phase is Launching) ==> final(self)@ == old(self)@
                && final(store)@ == old(store)@ && r is Halt,
            old(self)@.phase is Launching && spawned is Ok ==> final(self)@ == old(self)@.with_phase(
                Phase::WaitingForPort,
            ) && r is WaitForPort && r->WaitForPort_0.host@ == loopback_host_spec()
                && r->WaitForPort_0.port == BACKEND_PORT && r->WaitForPort_0.timeout_secs
                == READY_TIMEOUT_SECS && final(store)@ == old(store)@,
            old(self)@.phase is Launching && spawned is Err ==> final(self)@ == old(self)@.with_phase(Phase::Failed)
                && failure_outcome(old(store)@, final(store)@, r, spawned->Err_0@),
            announced_with_write(old(store)@, final(store)@, r),
    {
        if self.phase != Phase::Launching {
            return SupervisorAction::Halt;
        }
        match spawned {
            Ok(()) => {
                self.phase = Phase::WaitingForPort;
                let waiter = ReadinessWaiter::new(
                    String::from_str(loopback_host()),
                    BACKEND_PORT,
                    READY_TIMEOUT_SECS,
                );
                SupervisorAction::WaitForPort(waiter)
            },
            Err(reason) => self.fail(store, SupervisionError::SpawnFailed { reason }),
        }
    }

    /// The result of the wait for the worker's port: the run ends ready, or
    /// failed with the timeout's text.
    pub fn on_port_waited(&mut self, store: &mut StatusStore, waited: Result<(), WaitTimeout>) -> (r: SupervisorAction)
        ensures
            !(old(self)@.phase is WaitingForPort) ==> final(self)@ == old(self)@
                && final(store)@ == old(store)@ && r is Halt,
            old(self)@.phase is WaitingForPort && waited is Ok ==> final(self)@ == old(self)@.with_phase(Phase::Ready)
                && success_outcome(old(store)@, final(store)@, r),
            old(self)@.phase is WaitingForPort && waited is Err ==> final(self)@ == old(self)@.with_phase(Phase::Failed)
                && failure_outcome(
                old(store)@,
                final(store)@,
                r,
                startup_timeout_text(waited->Err_0.host@, waited->Err_0.port),
            ),
            announced_with_write(old(store)@, final(store)@, r),
    {
        if self.phase != Phase::WaitingForPort {
            return SupervisorAction::Halt;
        }
        match waited {
            Ok(()) => {
                self.phase = Phase::Ready;
                if store.record_ready(BACKEND_PORT) {
                    SupervisorAction::Notify(Notification::BackendReady, store.get_status())
                } else {
                    SupervisorAction::Halt
                }
            },
            Err(t) => self.fail(store, SupervisionError::ReadinessTimeout(t)),
        }
    }
}

/// Whether the record changes between the `i`-th and the next one.
pub open spec fn writes_at(stores: Seq<StatusModel>, i: int) -> bool {
    stores[i] != stores[i + 1]
}

/// Whether each record of `stores` follows from the one before it by a step
/// of a supervision run.
pub open spec fn is_write_once_run(stores: Seq<StatusModel>) -> bool {
    forall|i: int| 0 <= i < stores.len() - 1 ==> #[trigger] step_at(stores, i)
}

pub open spec fn step_at(stores: Seq<StatusModel>, i: int) -> bool {
    write_once_step(stores[i], stores[i + 1])
}

proof fn lemma_settled_stays(stores: Seq<StatusModel>, k: int, m: int)
    requires
        is_write_once_run(stores),
        0 <= k <= m < stores.len(),
        stores[k].is_settled(),
    ensures
        stores[m] == stores[k],
    decreases m - k,
{
    if m > k {
        lemma_settled_stays(stores, k, m - 1);
        assert(step_at(stores, m - 1));
    }
}

proof fn lemma_unsettled_is_initial(port: u16, stores: Seq<StatusModel>, k: int)
    requires
        is_write_once_run(stores),
        0 <= k < stores.len(),
        stores[0] == initial_model(port),
        !stores[k].is_settled(),
    ensures
        stores[k] == initial_model(port),
    decreases k,
{
    if k > 0 {
        assert(step_at(stores, k - 1));
        if !stores[k - 1].is_settled() {
            lemma_unsettled_is_initial(port, stores, k - 1);
        }
    }
}

proof fn lemma_settled_was_written(port: u16, stores: Seq<StatusModel>, m: int)
    requires
        is_write_once_run(stores),
        0 <= m < stores.len(),
        stores[0] == initial_model(port),
        stores[m].is_settled(),
    ensures
        exists|i: int| 0 <= i < m && #[trigger] writes_at(stores, i),
    decreases m,
{
    if m > 0 {
        if stores[m - 1].is_settled() {
            lemma_settled_was_written(port, stores, m - 1);
        } else {
            assert(writes_at(stores, m - 1));
        }
    }
}

/// Over a supervision run, each step of which is one of the `Supervisor`'s
/// (see `announced_with_write`), the store goes from the initial record
/// through at most one write, which settles it as a success or a failure; a
/// run whose last record is settled took exactly one write.
pub proof fn lemma_single_terminal_write(port: u16, stores: Seq<StatusModel>)
    requires
        stores.len() > 0,
        stores[0] == initial_model(port),
        is_write_once_run(stores),
    ensures
        forall|i: int, j: int|
            0 <= i < j < stores.len() - 1 && #[trigger] writes_at(stores, i) ==> !#[trigger] writes_at(stores, j),
        forall|i: int|
            0 <= i < stores.len() - 1 && #[trigger] writes_at(stores, i) ==> stores[i] == initial_model(port)
                && stores[i + 1].is_settled(),
        stores.last().is_settled() ==> exists|i: int| 0 <= i < stores.len() - 1 && #[trigger] writes_at(stores, i),
{
    assert forall|i: int| 0 <= i < stores.len() - 1 && #[trigger] writes_at(stores, i) implies stores[i]
        == initial_model(port) && stores[i + 1].is_settled() by {
        assert(step_at(stores, i));
        lemma_unsettled_is_initial(port, stores, i);
    }
    assert forall|i: int, j: int|
        0 <= i < j < stores.len() - 1 && #[trigger] writes_at(stores, i) implies !#[trigger] writes_at(stores, j) by {
        assert(step_at(stores, i));
        lemma_settled_stays(stores, i + 1, j);
        lemma_settled_stays(stores, i + 1, j + 1);
    }
    if stores.last().is_settled() {
        lemma_settled_was_written(port, stores, stores.len() - 1);
    }
}

} // verus!
