use vstd::prelude::*;

verus! {

/// The port the worker is expected to bind on the loopback interface.
pub const BACKEND_PORT: u16 = 5001;

/// The record of a supervision run that observers read.
pub struct PythonProcessStatus {
    /// True only once the worker has been confirmed reachable.
    pub running: bool,
    /// The TCP port the worker is expected to bind.
    pub port: u16,
    /// Set on every failure path.
    pub error: Option<String>,
}

/// What a status record holds, as plain values.
pub ghost struct StatusModel {
    pub running: bool,
    pub port: u16,
    pub error: Option<Seq<char>>,
}

pub open spec fn option_string_view(o: Option<String>) -> Option<Seq<char>> {
    match o {
        Some(s) => Some(s@),
        None => None,
    }
}

/// The record a supervision run starts from.
pub open spec fn initial_model(port: u16) -> StatusModel {
    StatusModel { running: false, port, error: None }
}

impl StatusModel {
    /// A record that a terminal write has produced: success or failure.
    pub open spec fn is_settled(self) -> bool {
        self.running || self.error is Some
    }
}

impl View for PythonProcessStatus {
    type V = StatusModel;

    open spec fn view(&self) -> StatusModel {
        StatusModel { running: self.running, port: self.port, error: option_string_view(self.error) }
    }
}

fn copy_error(e: &Option<String>) -> (r: Option<String>)
    ensures
        option_string_view(r) == option_string_view(*e),
{
    match e {
        Some(s) => Some(s.clone()),
        None => None,
    }
}

impl PythonProcessStatus {
    /// The idle record: not running, no error.
    pub fn initial(port: u16) -> (r: PythonProcessStatus)
        ensures
            r@ == initial_model(port),
    {
        PythonProcessStatus { running: false, port, error: None }
    }

    /// An independent copy holding the same values.
    pub fn snapshot(&self) -> (r: PythonProcessStatus)
        ensures
            r@ == self@,
    {
        PythonProcessStatus { running: self.running, port: self.port, error: copy_error(&self.error) }
    }
}

/// The single status record of an application run. Starting from the idle
/// record, it takes at most one terminal write; after that it never changes.
/// Readers and the supervisor share it behind one lock, so that no reader
/// sees a record half written.
pub struct StatusStore {
    status: PythonProcessStatus,
}

impl View for StatusStore {
    type V = StatusModel;

    closed spec fn view(&self) -> StatusModel {
        self.status@
    }
}

impl StatusStore {
    /// A store holding the idle record for the configured port.
    pub fn new(port: u16) -> (r: StatusStore)
        ensures
            r@ == initial_model(port),
    {
        StatusStore { status: PythonProcessStatus::initial(port) }
    }

    /// Whether the terminal write has happened.
    pub fn is_settled(&self) -> (r: bool)
        ensures
            r == self@.is_settled(),
    {
        self.status.running || self.status.error.is_some()
    }

    /// A snapshot of the current record. Reading changes nothing, so two
    /// reads with no write between them return equal records.
    pub fn get_status(&self) -> (r: PythonProcessStatus)
        ensures
            r@ == self@,
    {
        self.status.snapshot()
    }

    /// The terminal success write: running on `port`, no error. Refused,
    /// leaving the record as it is, once a terminal write has happened.
    pub fn record_ready(&mut self, port: u16) -> (written: bool)
        ensures
            written == !old(self)@.is_settled(),
            written ==> final(self)@ == (StatusModel { running: true, port, error: None }),
            !written ==> final(self)@ == old(self)@,
    {
        if self.is_settled() {
            return false;
        }
        self.status = PythonProcessStatus { running: true, port, error: None };
        true
    }

    /// The terminal failure write: not running, with `message` as the error.
    /// Refused, leaving the record as it is, once a terminal write has happened.
    pub fn record_failure(&mut self, message: String) -> (written: bool)
        ensures
            written == !old(self)@.is_settled(),
            written ==> final(self)@ == (StatusModel {
                running: false,
                port: old(self)@.port,
                error: Some(message@),
            }),
            !written ==> final(self)@ == old(self)@,
    {
        if self.is_settled() {
            return false;
        }
        self.status.running = false;
        self.status.error = Some(message);
        true
    }
}

} // verus!
