//! Bringing one path into existence, one decision at a time.
//!
//! An [`Ensure`] is the run of a single ensure-exists operation. It never acts
//! itself: [`Ensure::request`] says what the host has to do next, the host does
//! it and reports with a [`Reply`], and [`Ensure::advance`] decides from the
//! reply how the run goes on and what is written to the log.

use vstd::prelude::*;
use crate::log::{log_error, log_info, LogLevel, LogLine, LogRecord};
use crate::path::{parent, parent_of};

verus! {

/// What is to exist at the end of a run.
#[derive(Clone, Copy, Debug, PartialEq, Eq, Structural)]
pub enum Kind {
    /// A directory, created with all the directories above it.
    Directory,
    /// A file, created empty.
    File,
    /// A SQLite database file, created by connecting to it.
    Database,
}

/// Where a run stands: which request is waiting for its reply.
#[derive(Clone, Copy, Debug, PartialEq, Eq, Structural)]
pub enum Phase {
    /// Does the target exist already?
    ProbeTarget,
    /// Does the directory that will hold the target exist?
    ProbeParent,
    /// The directory that will hold the target is being created.
    CreateParent,
    /// The target is being created.
    CreateTarget,
    /// Nothing is left to do.
    Done,
}

/// What the host is asked to do.
#[derive(Debug, PartialEq, Eq)]
pub enum Request {
    /// Report whether anything exists at `path`: [`Reply::Present`] or
    /// [`Reply::Absent`].
    Probe { path: String },
    /// Create the directory `path` and every missing directory above it.
    CreateDirAll { path: String },
    /// Create an empty file at `path`.
    CreateFile { path: String },
    /// Open a connection to the database at `uri`, then release it.
    Connect { uri: String },
    /// Nothing: the run is over.
    Finished,
}

/// A request as contracts see it.
pub enum RequestModel {
    Probe { path: Seq<char> },
    CreateDirAll { path: Seq<char> },
    CreateFile { path: Seq<char> },
    Connect { uri: Seq<char> },
    Finished,
}

impl View for Request {
    type V = RequestModel;

    open spec fn view(&self) -> RequestModel {
        match self {
            Request::Probe { path } => RequestModel::Probe { path: path@ },
            Request::CreateDirAll { path } => RequestModel::CreateDirAll { path: path@ },
            Request::CreateFile { path } => RequestModel::CreateFile { path: path@ },
            Request::Connect { uri } => RequestModel::Connect { uri: uri@ },
            Request::Finished => RequestModel::Finished,
        }
    }
}

/// What the host reports once it has carried out a request.
#[derive(Debug, PartialEq, Eq)]
pub enum Reply {
    /// Answer to a probe: something exists at the path.
    Present,
    /// Answer to a probe: nothing exists at the path.
    Absent,
    /// Answer to a creation or a connection: it was done.
    Succeeded,
    /// Answer to a creation or a connection: it failed, for the reason given.
    Failed(String),
}

/// A reply as contracts see it.
pub enum ReplyModel {
    Present,
    Absent,
    Succeeded,
    Failed(Seq<char>),
}

impl View for Reply {
    type V = ReplyModel;

    open spec fn view(&self) -> ReplyModel {
        match self {
            Reply::Present => ReplyModel::Present,
            Reply::Absent => ReplyModel::Absent,
            Reply::Succeeded => ReplyModel::Succeeded,
            Reply::Failed(reason) => ReplyModel::Failed(reason@),
        }
    }
}

impl ReplyModel {
    /// Whether this is an answer to a probe.
    pub open spec fn is_finding(self) -> bool {
        self is Present || self is Absent
    }

    /// Whether this is an answer to a creation or a connection.
    pub open spec fn is_outcome(self) -> bool {
        self is Succeeded || self is Failed
    }
}

/// The connection string under which the database file at `path` is opened
/// for reading and writing, and created if it is missing.
pub open spec fn sqlite_uri_of(path: Seq<char>) -> Seq<char> {
    "sqlite://"@ + path + "?mode=rwc"@
}

/// How the message of a success begins.
pub open spec fn created_prefix(kind: Kind) -> Seq<char> {
    match kind {
        Kind::Directory => "Created directory: "@,
        Kind::File => "Created file: "@,
        Kind::Database => "Created SQLite database: "@,
    }
}

/// How the message of a failure begins.
pub open spec fn failed_prefix(kind: Kind) -> Seq<char> {
    match kind {
        Kind::Directory => "Failed to create directory "@,
        Kind::File => "Failed to create file "@,
        Kind::Database => "Failed to create SQLite database "@,
    }
}

/// The log line for the outcome of creating `path`: an error that names the
/// path and the reason for a failure, a piece of information for anything
/// else.
pub open spec fn outcome_line(kind: Kind, path: Seq<char>, outcome: ReplyModel) -> LogLine {
    match outcome {
        ReplyModel::Failed(reason) => LogLine {
            level: LogLevel::Error,
            message: failed_prefix(kind) + path + ": "@ + reason,
        },
        _ => LogLine { level: LogLevel::Info, message: created_prefix(kind) + path },
    }
}

/// The request that brings `path` into existence as a `kind`.
pub open spec fn creation_of(kind: Kind, path: Seq<char>) -> RequestModel {
    match kind {
        Kind::Directory => RequestModel::CreateDirAll { path },
        Kind::File => RequestModel::CreateFile { path },
        Kind::Database => RequestModel::Connect { uri: sqlite_uri_of(path) },
    }
}

/// A run as contracts see it.
pub struct EnsureModel {
    pub kind: Kind,
    pub path: Seq<char>,
    pub phase: Phase,
}

impl EnsureModel {
    /// The run that has yet to ask its first question.
    pub open spec fn start(kind: Kind, path: Seq<char>) -> EnsureModel {
        EnsureModel { kind, path, phase: Phase::ProbeTarget }
    }

    /// Whether the target lies in a directory that the run looks after: a
    /// directory is created together with those above it, so only files and
    /// databases that have a parent do.
    pub open spec fn tends_parent(self) -> bool {
        self.kind != Kind::Directory && parent_of(self.path) is Some
    }

    /// A run deals with a parent directory only where it looks after one.
    pub open spec fn wf(self) -> bool {
        (self.phase == Phase::ProbeParent || self.phase == Phase::CreateParent)
            ==> self.tends_parent()
    }

    /// The request that is waiting for its reply.
    pub open spec fn request(self) -> RequestModel {
        match self.phase {
            Phase::ProbeTarget => RequestModel::Probe { path: self.path },
            Phase::ProbeParent => RequestModel::Probe { path: parent_of(self.path).unwrap() },
            Phase::CreateParent => RequestModel::CreateDirAll {
                path: parent_of(self.path).unwrap(),
            },
            Phase::CreateTarget => creation_of(self.kind, self.path),
            Phase::Done => RequestModel::Finished,
        }
    }

    /// Whether `reply` answers the request that is waiting.
    pub open spec fn expects(self, reply: ReplyModel) -> bool {
        match self.phase {
            Phase::ProbeTarget | Phase::ProbeParent => reply.is_finding(),
            Phase::CreateParent | Phase::CreateTarget => reply.is_outcome(),
            Phase::Done => false,
        }
    }

    /// The phase that follows once `reply` has come in.
    ///
    /// A target that is present ends the run. One that is absent is created,
    /// after its parent where the run looks after one: the parent is probed,
    /// and created if it is absent. Whether or not the parent could be
    /// created, the target is tried next, and its outcome ends the run. A
    /// reply that does not answer the waiting request changes nothing.
    pub open spec fn next_phase(self, reply: ReplyModel) -> Phase {
        if !self.expects(reply) {
            self.phase
        } else {
            match self.phase {
                Phase::ProbeTarget => if reply is Present {
                    Phase::Done
                } else if self.tends_parent() {
                    Phase::ProbeParent
                } else {
                    Phase::CreateTarget
                },
                Phase::ProbeParent => if reply is Present {
                    Phase::CreateTarget
                } else {
                    Phase::CreateParent
                },
                Phase::CreateParent => Phase::CreateTarget,
                _ => Phase::Done,
            }
        }
    }

    /// What is written to the log once `reply` has come in: the outcome of a
    /// creation, and nothing for a probe or for a reply that was not waited
    /// for.
    pub open spec fn logged(self, reply: ReplyModel) -> Option<LogLine> {
        if !self.expects(reply) {
            None
        } else {
            match self.phase {
                Phase::CreateParent => Some(
                    outcome_line(Kind::Directory, parent_of(self.path).unwrap(), reply),
                ),
                Phase::CreateTarget => Some(outcome_line(self.kind, self.path, reply)),
                _ => None,
            }
        }
    }

    /// The run after `reply` has come in.
    pub open spec fn advance(self, reply: ReplyModel) -> EnsureModel {
        EnsureModel { kind: self.kind, path: self.path, phase: self.next_phase(reply) }
    }

    /// The run after the replies of `script` have come in, one after the
    /// other.
    pub open spec fn after(self, script: Seq<ReplyModel>) -> EnsureModel
        decreases script.len(),
    {
        if script.len() == 0 {
            self
        } else {
            self.advance(script[0]).after(script.skip(1))
        }
    }

    /// The requests that the run makes while the replies of `script` come in:
    /// the one that is waiting, then the one that follows each reply.
    pub open spec fn requests_of(self, script: Seq<ReplyModel>) -> Seq<RequestModel>
        decreases script.len(),
    {
        if script.len() == 0 {
            seq![self.request()]
        } else {
            seq![self.request()] + self.advance(script[0]).requests_of(script.skip(1))
        }
    }

    /// Everything that is written to the log while the replies of `script`
    /// come in, in order.
    pub open spec fn log_of(self, script: Seq<ReplyModel>) -> Seq<LogLine>
        decreases script.len(),
    {
        if script.len() == 0 {
            Seq::empty()
        } else {
            let rest = self.advance(script[0]).log_of(script.skip(1));
            match self.logged(script[0]) {
                Some(line) => seq![line] + rest,
                None => rest,
            }
        }
    }

    /// How many requests the run may still make at most.
    pub open spec fn requests_left(self) -> nat {
        match self.phase {
            Phase::ProbeTarget => 4,
            Phase::ProbeParent => 3,
            Phase::CreateParent => 2,
            Phase::CreateTarget => 1,
            Phase::Done => 0,
        }
    }
}

/// The run of one ensure-exists operation on one path.
#[derive(Debug)]
pub struct Ensure {
    kind: Kind,
    path: String,
    phase: Phase,
}

impl View for Ensure {
    type V = EnsureModel;

    closed spec fn view(&self) -> EnsureModel {
        EnsureModel { kind: self.kind, path: self.path@, phase: self.phase }
    }
}

/// The connection string for the database file at `path`.
pub fn sqlite_uri(path: &str) -> (uri: String)
    ensures
        uri@ == sqlite_uri_of(path@),
{
    let mut uri = String::from_str("sqlite://");
    uri.append(path);
    uri.append("?mode=rwc");
    uri
}

/// The log record for the outcome of creating `path`.
pub fn outcome_record(kind: Kind, path: &str, outcome: &Reply) -> (record: LogRecord)
    ensures
        record@ == outcome_line(kind, path@, outcome@),
{
    match outcome {
        Reply::Failed(reason) => {
            let mut message = String::from_str(
                match kind {
                    Kind::Directory => "Failed to create directory ",
                    Kind::File => "Failed to create file ",
                    Kind::Database => "Failed to create SQLite database ",
                },
            );
            message.append(path);
            message.append(": ");
            message.append(reason.as_str());
            log_error(message.as_str())
        },
        _ => {
            let mut message = String::from_str(
                match kind {
                    Kind::Directory => "Created directory: ",
                    Kind::File => "Created file: ",
                    Kind::Database => "Created SQLite database: ",
                },
            );
            message.append(path);
            log_info(message.as_str())
        },
    }
}

impl Ensure {
    #[verifier::type_invariant]
    spec fn inv(self) -> bool {
        self@.wf()
    }

    /// A run that will see to it that `path` exists as a `kind`.
    pub fn new(kind: Kind, path: &str) -> (run: Ensure)
        ensures
            run@ == EnsureModel::start(kind, path@),
    {
        Ensure { kind, path: String::from_str(path), phase: Phase::ProbeTarget }
    }

    /// What is to exist at the end.
    pub fn kind(&self) -> (kind: Kind)
        ensures
            kind == self@.kind,
    {
        self.kind
    }

    /// The path that is to exist at the end.
    pub fn path(&self) -> (path: &str)
        ensures
            path@ == self@.path,
    {
        self.path.as_str()
    }

    /// Where the run stands.
    pub fn phase(&self) -> (phase: Phase)
        ensures
            phase == self@.phase,
    {
        self.phase
    }

    /// Whether nothing is left to do.
    pub fn is_done(&self) -> (done: bool)
        ensures
            done == (self@.phase == Phase::Done),
    {
        match self.phase {
            Phase::Done => true,
            _ => false,
        }
    }

    /// What the host has to do next.
    pub fn request(&self) -> (request: Request)
        ensures
            request@ == self@.request(),
            self@.wf(),
    {
        proof {
            use_type_invariant(self);
        }
        match self.phase {
            Phase::ProbeTarget => Request::Probe { path: self.path.clone() },
            Phase::ProbeParent => match parent(self.path.as_str()) {
                Some(dir) => Request::Probe { path: dir },
                None => Request::Finished,
            },
            Phase::CreateParent => match parent(self.path.as_str()) {
                Some(dir) => Request::CreateDirAll { path: dir },
                None => Request::Finished,
            },
            Phase::CreateTarget => match self.kind {
                Kind::Directory => Request::CreateDirAll { path: self.path.clone() },
                Kind::File => Request::CreateFile { path: self.path.clone() },
                Kind::Database => Request::Connect { uri: sqlite_uri(self.path.as_str()) },
            },
            Phase::Done => Request::Finished,
        }
    }

    /// Takes the host's reply to the waiting request and decides how the run
    /// goes on. Returns the run in its next phase and what is to be logged.
    pub fn advance(self, reply: &Reply) -> (step: (Ensure, Option<LogRecord>))
        ensures
            step.0@ == self@.advance(reply@),
            step.1.deep_view() == self@.logged(reply@),
            self@.wf(),
    {
        proof {
            use_type_invariant(&self);
        }
        let finding = match reply {
            Reply::Present | Reply::Absent => true,
            _ => false,
        };
        let present = match reply {
            Reply::Present => true,
            _ => false,
        };
        match self.phase {
            Phase::ProbeTarget => {
                if !finding {
                    (self, None)
                } else if present {
                    (Ensure { kind: self.kind, path: self.path, phase: Phase::Done }, None)
                } else {
                    let tends_parent = match self.kind {
                        Kind::Directory => false,
                        _ => parent(self.path.as_str()).is_some(),
                    };
                    let phase = if tends_parent {
                        Phase::ProbeParent
                    } else {
                        Phase::CreateTarget
                    };
                    (Ensure { kind: self.kind, path: self.path, phase }, None)
                }
            },
            Phase::ProbeParent => {
                if !finding {
                    (self, None)
                } else {
                    let phase = if present {
                        Phase::CreateTarget
                    } else {
                        Phase::CreateParent
                    };
                    (Ensure { kind: self.kind, path: self.path, phase }, None)
                }
            },
            Phase::CreateParent => {
                if finding {
                    (self, None)
                } else {
                    let record = match parent(self.path.as_str()) {
                        Some(dir) => Some(outcome_record(Kind::Directory, dir.as_str(), reply)),
                        None => None,
                    };
                    let next = Ensure {
                        kind: self.kind,
                        path: self.path,
                        phase: Phase::CreateTarget,
                    };
                    (next, record)
                }
            },
            Phase::CreateTarget => {
                if finding {
                    (self, None)
                } else {
                    let record = outcome_record(self.kind, self.path.as_str(), reply);
                    (Ensure { kind: self.kind, path: self.path, phase: Phase::Done }, Some(record))
                }
            },
            Phase::Done => (self, None),
        }
    }
}

/// A run that ensures the directory `path` exists.
pub fn ensure_dir(path: &str) -> (run: Ensure)
    ensures
        run@ == EnsureModel::start(Kind::Directory, path@),
{
    Ensure::new(Kind::Directory, path)
}

/// A run that ensures the file `path` exists, in a directory that exists.
pub fn ensure_file(path: &str) -> (run: Ensure)
    ensures
        run@ == EnsureModel::start(Kind::File, path@),
{
    Ensure::new(Kind::File, path)
}

/// A run that ensures the SQLite database file `path` exists, in a directory
/// that exists.
pub fn ensure_sqlite(path: &str) -> (run: Ensure)
    ensures
        run@ == EnsureModel::start(Kind::Database, path@),
{
    Ensure::new(Kind::Database, path)
}

/// A run starts well formed and stays so, with its target unchanged,
/// whatever the host replies.
pub proof fn lemma_advance_keeps_wf(run: EnsureModel, reply: ReplyModel)
    requires
        run.wf(),
    ensures
        EnsureModel::start(run.kind, run.path).wf(),
        run.advance(reply).wf(),
        run.advance(reply).kind == run.kind,
        run.advance(reply).path == run.path,
{
}

/// Every reply that answers the waiting request brings the run closer to its
/// end, so that a run is over after four requests at most. A reply that does
/// not answer it leaves the run where it is and nothing in the log.
pub proof fn lemma_advance_makes_progress(run: EnsureModel, reply: ReplyModel)
    ensures
        run.expects(reply) ==> run.advance(reply).requests_left() < run.requests_left(),
        !run.expects(reply) ==> run.advance(reply) == run && run.logged(reply) is None,
        run.requests_left() == 0 <==> run.request() is Finished,
{
}

/// Taking a script in is taking its first reply in, then the rest.
proof fn lemma_first_reply(run: EnsureModel, reply: ReplyModel, rest: Seq<ReplyModel>)
    ensures
        run.after(seq![reply] + rest) == run.advance(reply).after(rest),
        run.requests_of(seq![reply] + rest) == seq![run.request()] + run.advance(
            reply,
        ).requests_of(rest),
        run.log_of(seq![reply] + rest) == match run.logged(reply) {
            Some(line) => seq![line] + run.advance(reply).log_of(rest),
            None => run.advance(reply).log_of(rest),
        },
{
    let script = seq![reply] + rest;
    assert(script[0] == reply);
    assert(script.skip(1) =~= rest);
}

/// A run that is over stays over: it asks for nothing and logs nothing,
/// whatever comes in.
pub proof fn lemma_done_is_final(run: EnsureModel, script: Seq<ReplyModel>)
    requires
        run.phase == Phase::Done,
    ensures
        run.request() is Finished,
        run.after(script) == run,
        run.log_of(script) == Seq::<LogLine>::empty(),
    decreases script.len(),
{
    if script.len() > 0 {
        lemma_done_is_final(run.advance(script[0]), script.skip(1));
    }
}

/// Ensuring what exists already changes nothing: a run whose target is found
/// present asks the one question, then is over without a creation and
/// without a line in the log, whatever the host replies from then on.
pub proof fn lemma_present_target_is_left_alone(
    kind: Kind,
    path: Seq<char>,
    script: Seq<ReplyModel>,
)
    requires
        script.len() > 0,
        script[0] is Present,
    ensures
        EnsureModel::start(kind, path).request() == (RequestModel::Probe { path }),
        EnsureModel::start(kind, path).after(script).phase == Phase::Done,
        EnsureModel::start(kind, path).after(script).request() is Finished,
        EnsureModel::start(kind, path).log_of(script) == Seq::<LogLine>::empty(),
{
    let run = EnsureModel::start(kind, path);
    lemma_done_is_final(run.advance(script[0]), script.skip(1));
}

/// An absent target without a parent to look after, so every directory, is
/// probed and then created; the outcome is logged and the run is over.
pub proof fn lemma_absent_target_is_created(kind: Kind, path: Seq<char>, outcome: ReplyModel)
    requires
        !EnsureModel::start(kind, path).tends_parent(),
        outcome.is_outcome(),
    ensures
        EnsureModel::start(kind, path).requests_of(seq![ReplyModel::Absent, outcome]) == seq![
            RequestModel::Probe { path },
            creation_of(kind, path),
            RequestModel::Finished,
        ],
        EnsureModel::start(kind, path).log_of(seq![ReplyModel::Absent, outcome]) == seq![
            outcome_line(kind, path, outcome),
        ],
{
    let run = EnsureModel::start(kind, path);
    let probed = run.advance(ReplyModel::Absent);
    let created = probed.advance(outcome);
    let empty = Seq::<ReplyModel>::empty();
    lemma_first_reply(run, ReplyModel::Absent, seq![outcome]);
    lemma_first_reply(probed, outcome, empty);
    assert(seq![ReplyModel::Absent] + seq![outcome] =~= seq![ReplyModel::Absent, outcome]);
    assert(seq![outcome] + empty =~= seq![outcome]);
    assert(run.requests_of(seq![ReplyModel::Absent, outcome]) =~= seq![
        RequestModel::Probe { path },
        creation_of(kind, path),
        RequestModel::Finished,
    ]);
    assert(run.log_of(seq![ReplyModel::Absent, outcome]) =~= seq![
        outcome_line(kind, path, outcome),
    ]);
}

/// An absent file or database in a directory that exists is probed, its
/// directory is probed, and it is created; the outcome is logged and the run
/// is over.
pub proof fn lemma_absent_child_of_present_parent(
    kind: Kind,
    path: Seq<char>,
    outcome: ReplyModel,
)
    requires
        EnsureModel::start(kind, path).tends_parent(),
        outcome.is_outcome(),
    ensures
        EnsureModel::start(kind, path).requests_of(
            seq![ReplyModel::Absent, ReplyModel::Present, outcome],
        ) == seq![
            RequestModel::Probe { path },
            RequestModel::Probe { path: parent_of(path).unwrap() },
            creation_of(kind, path),
            RequestModel::Finished,
        ],
        EnsureModel::start(kind, path).log_of(
            seq![ReplyModel::Absent, ReplyModel::Present, outcome],
        ) == seq![outcome_line(kind, path, outcome)],
{
    let run = EnsureModel::start(kind, path);
    let probed = run.advance(ReplyModel::Absent);
    let found = probed.advance(ReplyModel::Present);
    let empty = Seq::<ReplyModel>::empty();
    let script = seq![ReplyModel::Absent, ReplyModel::Present, outcome];
    lemma_first_reply(run, ReplyModel::Absent, seq![ReplyModel::Present, outcome]);
    lemma_first_reply(probed, ReplyModel::Present, seq![outcome]);
    lemma_first_reply(found, outcome, empty);
    assert(seq![ReplyModel::Absent] + seq![ReplyModel::Present, outcome] =~= script);
    assert(seq![ReplyModel::Present] + seq![outcome] =~= seq![ReplyModel::Present, outcome]);
    assert(seq![outcome] + empty =~= seq![outcome]);
    assert(run.requests_of(script) =~= seq![
        RequestModel::Probe { path },
        RequestModel::Probe { path: parent_of(path).unwrap() },
        creation_of(kind, path),
        RequestModel::Finished,
    ]);
    assert(run.log_of(script) =~= seq![outcome_line(kind, path, outcome)]);
}

/// An absent file or database in a directory that is absent too: the
/// directory is created first, then the target, whether or not the directory
/// could be created; both outcomes are logged, in that order.
pub proof fn lemma_absent_child_of_absent_parent(
    kind: Kind,
    path: Seq<char>,
    parent_outcome: ReplyModel,
    outcome: ReplyModel,
)
    requires
        EnsureModel::start(kind, path).tends_parent(),
        parent_outcome.is_outcome(),
        outcome.is_outcome(),
    ensures
        EnsureModel::start(kind, path).requests_of(
            seq![ReplyModel::Absent, ReplyModel::Absent, parent_outcome, outcome],
        ) == seq![
            RequestModel::Probe { path },
            RequestModel::Probe { path: parent_of(path).unwrap() },
            RequestModel::CreateDirAll { path: parent_of(path).unwrap() },
            creation_of(kind, path),
            RequestModel::Finished,
        ],
        EnsureModel::start(kind, path).log_of(
            seq![ReplyModel::Absent, ReplyModel::Absent, parent_outcome, outcome],
        ) == seq![
            outcome_line(Kind::Directory, parent_of(path).unwrap(), parent_outcome),
            outcome_line(kind, path, outcome),
        ],
{
    let run = EnsureModel::start(kind, path);
    let probed = run.advance(ReplyModel::Absent);
    let missed = probed.advance(ReplyModel::Absent);
    let housed = missed.advance(parent_outcome);
    let empty = Seq::<ReplyModel>::empty();
    let script = seq![ReplyModel::Absent, ReplyModel::Absent, parent_outcome, outcome];
    lemma_first_reply(run, ReplyModel::Absent, seq![ReplyModel::Absent, parent_outcome, outcome]);
    lemma_first_reply(probed, ReplyModel::Absent, seq![parent_outcome, outcome]);
    lemma_first_reply(missed, parent_outcome, seq![outcome]);
    lemma_first_reply(housed, outcome, empty);
    assert(seq![ReplyModel::Absent] + seq![ReplyModel::Absent, parent_outcome, outcome]
        =~= script);
    assert(seq![ReplyModel::Absent] + seq![parent_outcome, outcome] =~= seq![
        ReplyModel::Absent,
        parent_outcome,
        outcome,
    ]);
    assert(seq![parent_outcome] + seq![outcome] =~= seq![parent_outcome, outcome]);
    assert(seq![outcome] + empty =~= seq![outcome]);
    assert(run.requests_of(script) =~= seq![
        RequestModel::Probe { path },
        RequestModel::Probe { path: parent_of(path).unwrap() },
        RequestModel::CreateDirAll { path: parent_of(path).unwrap() },
        creation_of(kind, path),
        RequestModel::Finished,
    ]);
    assert(run.log_of(script) =~= seq![
        outcome_line(Kind::Directory, parent_of(path).unwrap(), parent_outcome),
        outcome_line(kind, path, outcome),
    ]);
}

/// A failure is logged as an error and anything else as information.
pub proof fn lemma_outcome_level(kind: Kind, path: Seq<char>, outcome: ReplyModel)
    ensures
        outcome_line(kind, path, outcome).level == LogLevel::Error <==> outcome is Failed,
        outcome_line(kind, path, outcome).level == LogLevel::Info <==> !(outcome is Failed),
{
}

} // verus!
