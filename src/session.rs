use crate::direction::DirectionEnd;
use vstd::prelude::*;
use vstd::string::StringSliceAdditionalSpecFns;

verus! {

/// The path separator, `/`.
pub const SLASH: u8 = 0x2f;

/// One of the two named pipes of a session.
#[derive(Clone, Copy, PartialEq, Eq, Debug, Structural)]
pub enum PipeName {
    /// `in`: reserved for traffic towards local readers.
    In,
    /// `out`: what local writers put there goes to the connection.
    Out,
}

/// Where a session stands.
#[derive(Clone, Copy, PartialEq, Eq, Debug, Structural)]
pub enum Stage {
    CreatingDirectory,
    CreatingPipe(PipeName),
    Connecting,
    Relaying,
    Finished,
}

/// Why a session failed.
#[derive(Debug)]
pub enum RelayError {
    /// The pipe directory could not be created.
    Directory(String),
    /// A pipe could not be created.
    PipeCreation(PipeName, String),
    /// The connection could not be opened.
    Connect(String),
    /// Reading during the relay failed.
    Read(String),
    /// Writing during the relay failed.
    Write(String),
}

/// What came of the last action a session asked for.
#[derive(Debug)]
pub enum Event {
    /// It succeeded.
    Done,
    /// The pipe to be created is already there, as a FIFO.
    FifoExists,
    /// It failed, with the system's message.
    Failed(String),
    /// The relay is over, for this reason.
    Ended(DirectionEnd),
}

/// What a session asks its runner to do next.
#[derive(Debug)]
pub enum Action {
    /// Create this directory and any missing parents.
    CreateDirectory(Vec<u8>),
    /// Create a named pipe at this path with these permission bits.
    CreatePipe(Vec<u8>, u32),
    /// Open a TCP connection to this host and port.
    Connect(String, u16),
    /// Relay between the connection and the pipe at this path.
    Relay(Vec<u8>),
    /// The session is over, with this result.
    Finish(Result<(), RelayError>),
    /// Nothing: the session was already over.
    Nothing,
}

/// A session as the model sees it.
pub struct ServerView {
    pub hostname: Seq<char>,
    pub port: u16,
    pub prefix: Seq<u8>,
    pub username: Seq<char>,
    pub stage: Stage,
}

/// `base` and `name` joined as paths are: an absolute `name` replaces
/// `base`; otherwise one separator stands between them unless `base` is
/// empty or already ends with one.
pub open spec fn join_path(base: Seq<u8>, name: Seq<u8>) -> Seq<u8> {
    if name.len() > 0 && name[0] == SLASH {
        name
    } else if base.len() == 0 || base.last() == SLASH {
        base + name
    } else {
        base + seq![SLASH] + name
    }
}

/// The file name of a pipe.
pub open spec fn pipe_file_name(p: PipeName) -> Seq<u8> {
    match p {
        PipeName::In => seq![0x69u8, 0x6eu8],
        PipeName::Out => seq![0x6fu8, 0x75u8, 0x74u8],
    }
}

/// `s` holds a NUL byte, which no path given to the system may hold.
pub open spec fn has_nul(s: Seq<u8>) -> bool {
    exists|i: int| 0 <= i < s.len() && s[i] == 0
}

/// The stage a session moves to on an event. Preparation runs directory,
/// `in`, `out`, then the connection is opened, then the relay runs; a pipe
/// found already in place as a FIFO counts as created. A failure ends the
/// session, and so does the end of the relay. An event that answers no
/// action of the current stage leaves it as it is.
pub open spec fn next_stage(s: Stage, ev: Event) -> Stage {
    match s {
        Stage::CreatingDirectory => match ev {
            Event::Done => Stage::CreatingPipe(PipeName::In),
            Event::Failed(_) => Stage::Finished,
            _ => s,
        },
        Stage::CreatingPipe(p) => match ev {
            Event::Done | Event::FifoExists => match p {
                PipeName::In => Stage::CreatingPipe(PipeName::Out),
                PipeName::Out => Stage::Connecting,
            },
            Event::Failed(_) => Stage::Finished,
            _ => s,
        },
        Stage::Connecting => match ev {
            Event::Done => Stage::Relaying,
            Event::Failed(_) => Stage::Finished,
            _ => s,
        },
        Stage::Relaying => match ev {
            Event::Ended(_) => Stage::Finished,
            _ => s,
        },
        Stage::Finished => s,
    }
}

/// The result with which an event ends a session, if it does.
pub open spec fn outcome(s: Stage, ev: Event) -> Option<Result<(), RelayError>> {
    match (s, ev) {
        (Stage::CreatingDirectory, Event::Failed(d)) => Some(Err(RelayError::Directory(d))),
        (Stage::CreatingPipe(p), Event::Failed(d)) => Some(Err(RelayError::PipeCreation(p, d))),
        (Stage::Connecting, Event::Failed(d)) => Some(Err(RelayError::Connect(d))),
        (Stage::Relaying, Event::Ended(e)) => Some(
            match e {
                DirectionEnd::Closed => Ok(()),
                DirectionEnd::ReadFailed(d) => Err(RelayError::Read(d)),
                DirectionEnd::WriteFailed(d) => Err(RelayError::Write(d)),
            },
        ),
        _ => None,
    }
}

/// The stage reached from `s` through the events `evs`, in order.
pub open spec fn stage_after(s: Stage, evs: Seq<Event>) -> Stage
    decreases evs.len(),
{
    if evs.len() == 0 {
        s
    } else {
        stage_after(next_stage(s, evs[0]), evs.drop_first())
    }
}

/// `a` is the action that a session in state `v` waits on.
pub open spec fn is_pending_action(v: ServerView, a: Action) -> bool {
    match v.stage {
        Stage::CreatingDirectory => a is CreateDirectory && a->CreateDirectory_0@ == v.prefix,
        Stage::CreatingPipe(p) => {
            &&& a is CreatePipe
            &&& a->CreatePipe_0@ == join_path(v.prefix, pipe_file_name(p))
            &&& a->CreatePipe_1 == 0o700
        },
        Stage::Connecting => {
            &&& a is Connect
            &&& a->Connect_0@ == v.hostname
            &&& a->Connect_1 == v.port
        },
        Stage::Relaying => a is Relay && a->Relay_0@ == join_path(v.prefix, pipe_file_name(PipeName::Out)),
        Stage::Finished => a is Nothing,
    }
}

/// Once a session has finished, no event moves it again.
pub proof fn lemma_finished_is_final(evs: Seq<Event>)
    ensures
        stage_after(Stage::Finished, evs) == Stage::Finished,
    decreases evs.len(),
{
    if evs.len() > 0 {
        lemma_finished_is_final(evs.drop_first());
    }
}

/// Pipes already in place as FIFOs are taken as they are: finding one moves
/// preparation on exactly as creating it would, without ending the session,
/// and a directory that already holds both pipes leads on to connecting.
pub proof fn lemma_existing_fifos_accepted(p: PipeName)
    ensures
        next_stage(Stage::CreatingPipe(p), Event::FifoExists) == next_stage(
            Stage::CreatingPipe(p),
            Event::Done,
        ),
        outcome(Stage::CreatingPipe(p), Event::FifoExists) is None,
        stage_after(Stage::CreatingDirectory, seq![Event::Done, Event::FifoExists, Event::FifoExists])
            == Stage::Connecting,
{
    reveal_with_fuel(stage_after, 4);
}

/// A pipe that cannot be created ends the session with a pipe creation
/// error, and no later event moves it out of the finished stage: the stage
/// that asks for a connection is never reached.
pub proof fn lemma_pipe_failure_prevents_connect(p: PipeName, detail: String, later: Seq<Event>)
    ensures
        outcome(Stage::CreatingPipe(p), Event::Failed(detail)) == Some(
            Err::<(), RelayError>(RelayError::PipeCreation(p, detail)),
        ),
        forall|i: int|
            0 <= i <= later.len() ==> stage_after(
                next_stage(Stage::CreatingPipe(p), Event::Failed(detail)),
                #[trigger] later.take(i),
            ) == Stage::Finished,
{
    assert forall|i: int| 0 <= i <= later.len() implies stage_after(
        next_stage(Stage::CreatingPipe(p), Event::Failed(detail)),
        #[trigger] later.take(i),
    ) == Stage::Finished by {
        lemma_finished_is_final(later.take(i));
    }
}

/// Setup runs in order: the directory, then `in`, then `out`, and only then
/// the connection. Each of these stages is entered from the one before it
/// alone, on that step's success.
pub proof fn lemma_setup_order(s: Stage, ev: Event)
    ensures
        next_stage(s, ev) == Stage::CreatingPipe(PipeName::In) && s != Stage::CreatingPipe(
            PipeName::In,
        ) ==> s == Stage::CreatingDirectory && ev is Done,
        next_stage(s, ev) == Stage::CreatingPipe(PipeName::Out) && s != Stage::CreatingPipe(
            PipeName::Out,
        ) ==> s == Stage::CreatingPipe(PipeName::In) && (ev is Done || ev is FifoExists),
        next_stage(s, ev) == Stage::Connecting && s != Stage::Connecting ==> s
            == Stage::CreatingPipe(PipeName::Out) && (ev is Done || ev is FifoExists),
        next_stage(s, ev) == Stage::Relaying && s != Stage::Relaying ==> s == Stage::Connecting
            && ev is Done,
{
}

/// Relies on libc::S_IRWXU: read, write and execute for the owner alone.
#[verifier::external_body]
fn owner_only_mode() -> (r: u32)
    ensures
        r == 0o700,
{
    libc::S_IRWXU
}

/// Appends the bytes of `s` to `v`.
fn append_bytes(v: &mut Vec<u8>, s: &[u8])
    ensures
        final(v)@ == old(v)@ + s@,
{
    let mut i: usize = 0;
    while i < s.len()
        invariant
            i <= s@.len(),
            v@ == old(v)@ + s@.take(i as int),
        decreases s@.len() - i,
    {
        v.push(s[i]);
        i = i + 1;
        assert(v@ =~= old(v)@ + s@.take(i as int));
    }
    assert(s@.take(i as int) =~= s@);
}

/// The path of `name` under `base`.
pub fn join(base: &[u8], name: &[u8]) -> (r: Vec<u8>)
    ensures
        r@ == join_path(base@, name@),
{
    let mut r: Vec<u8> = Vec::new();
    if !(name.len() > 0 && name[0] == SLASH) {
        append_bytes(&mut r, base);
        if base.len() > 0 && base[base.len() - 1] != SLASH {
            r.push(SLASH);
        }
    }
    append_bytes(&mut r, name);
    assert(r@ =~= join_path(base@, name@));
    r
}

/// Whether `s` holds a NUL byte.
pub fn contains_nul(s: &[u8]) -> (r: bool)
    ensures
        r == has_nul(s@),
{
    let mut i: usize = 0;
    while i < s.len()
        invariant
            i <= s@.len(),
            forall|j: int| 0 <= j < i ==> s@[j] != 0,
        decreases s@.len() - i,
    {
        if s[i] == 0 {
            return true;
        }
        i = i + 1;
    }
    false
}

/// The file name of a pipe, as bytes.
fn file_name(p: PipeName) -> (r: Vec<u8>)
    ensures
        r@ == pipe_file_name(p),
{
    let mut r: Vec<u8> = Vec::new();
    match p {
        PipeName::In => {
            r.push(0x69);
            r.push(0x6e);
        },
        PipeName::Out => {
            r.push(0x6f);
            r.push(0x75);
            r.push(0x74);
        },
    }
    assert(r@ =~= pipe_file_name(p));
    r
}

/// One relay session: the target it serves and the stage it stands at. Its
/// pipes live in the directory named after the host under the base
/// directory. It performs no I/O itself: it names the next action, and is
/// told what came of it.
pub struct Server {
    hostname: String,
    port: u16,
    prefix: Vec<u8>,
    username: String,
    stage: Stage,
}

impl View for Server {
    type V = ServerView;

    closed spec fn view(&self) -> ServerView {
        ServerView {
            hostname: self.hostname@,
            port: self.port,
            prefix: self.prefix@,
            username: self.username@,
            stage: self.stage,
        }
    }
}

impl Server {
    /// The pipe directory's path holds no NUL byte.
    pub open spec fn wf(&self) -> bool {
        !has_nul(self@.prefix)
    }

    /// A session for `hostname:port` under the identity `username`, with its
    /// pipes in `path/hostname`. A pipe directory whose path holds a NUL byte
    /// is refused as a pipe creation error before anything touches the
    /// system. The session starts by asking for its directory.
    pub fn new(hostname: &str, port: u16, username: &str, path: &str) -> (r: Result<
        Server,
        RelayError,
    >)
        ensures
            r is Err <==> has_nul(join_path(path.spec_bytes(), hostname.spec_bytes())),
            r is Err ==> r->Err_0 is PipeCreation && r->Err_0->PipeCreation_0 == PipeName::In,
            r is Ok ==> {
                &&& r->Ok_0.wf()
                &&& r->Ok_0@.hostname == hostname@
                &&& r->Ok_0@.port == port
                &&& r->Ok_0@.prefix == join_path(path.spec_bytes(), hostname.spec_bytes())
                &&& r->Ok_0@.username == username@
                &&& r->Ok_0@.stage == Stage::CreatingDirectory
            },
    {
        let prefix = join(path.as_bytes(), hostname.as_bytes());
        if contains_nul(prefix.as_slice()) {
            return Err(RelayError::PipeCreation(PipeName::In, "path contains a NUL byte".to_owned()));
        }
        Ok(
            Server {
                hostname: hostname.to_owned(),
                port,
                prefix,
                username: username.to_owned(),
                stage: Stage::CreatingDirectory,
            },
        )
    }

    /// The remote host.
    pub fn hostname(&self) -> (r: &String)
        ensures
            r@ == self@.hostname,
    {
        &self.hostname
    }

    /// The remote port.
    pub fn port(&self) -> (r: u16)
        ensures
            r == self@.port,
    {
        self.port
    }

    /// The identity the session was made for.
    pub fn username(&self) -> (r: &String)
        ensures
            r@ == self@.username,
    {
        &self.username
    }

    /// The directory that holds the pipes.
    pub fn prefix(&self) -> (r: &Vec<u8>)
        ensures
            r@ == self@.prefix,
    {
        &self.prefix
    }

    /// Where the session stands.
    pub fn stage(&self) -> (r: Stage)
        ensures
            r == self@.stage,
    {
        self.stage
    }

    /// The path of one of the session's pipes.
    pub fn pipe_path(&self, p: PipeName) -> (r: Vec<u8>)
        ensures
            r@ == join_path(self@.prefix, pipe_file_name(p)),
    {
        let name = file_name(p);
        join(self.prefix.as_slice(), name.as_slice())
    }

    /// The action the session waits on at its current stage.
    pub fn pending_action(&self) -> (a: Action)
        ensures
            is_pending_action(self@, a),
    {
        match self.stage {
            Stage::CreatingDirectory => Action::CreateDirectory(self.prefix.clone()),
            Stage::CreatingPipe(p) => Action::CreatePipe(self.pipe_path(p), owner_only_mode()),
            Stage::Connecting => Action::Connect(self.hostname.clone(), self.port),
            Stage::Relaying => Action::Relay(self.pipe_path(PipeName::Out)),
            Stage::Finished => Action::Nothing,
        }
    }

    /// Takes what came of the pending action and returns the next one: the
    /// session's result where the event ends it, else the action of the
    /// stage it moved to.
    pub fn step(&mut self, ev: Event) -> (a: Action)
        requires
            old(self).wf(),
        ensures
            final(self).wf(),
            final(self)@ == (ServerView { stage: next_stage(old(self)@.stage, ev), ..old(self)@ }),
            match outcome(old(self)@.stage, ev) {
                Some(res) => a == Action::Finish(res),
                None => is_pending_action(final(self)@, a),
            },
    {
        let stage = self.stage;
        match (stage, ev) {
            (Stage::CreatingDirectory, Event::Done) => {
                self.stage = Stage::CreatingPipe(PipeName::In);
            },
            (Stage::CreatingDirectory, Event::Failed(d)) => {
                self.stage = Stage::Finished;
                return Action::Finish(Err(RelayError::Directory(d)));
            },
            (Stage::CreatingPipe(p), Event::Done) | (Stage::CreatingPipe(p), Event::FifoExists) => {
                self.stage =
                match p {
                    PipeName::In => Stage::CreatingPipe(PipeName::Out),
                    PipeName::Out => Stage::Connecting,
                };
            },
            (Stage::CreatingPipe(p), Event::Failed(d)) => {
                self.stage = Stage::Finished;
                return Action::Finish(Err(RelayError::PipeCreation(p, d)));
            },
            (Stage::Connecting, Event::Done) => {
                self.stage = Stage::Relaying;
            },
            (Stage::Connecting, Event::Failed(d)) => {
                self.stage = Stage::Finished;
                return Action::Finish(Err(RelayError::Connect(d)));
            },
            (Stage::Relaying, Event::Ended(e)) => {
                self.stage = Stage::Finished;
                let res = match e {
                    DirectionEnd::Closed => Ok(()),
                    DirectionEnd::ReadFailed(d) => Err(RelayError::Read(d)),
                    DirectionEnd::WriteFailed(d) => Err(RelayError::Write(d)),
                };
                return Action::Finish(res);
            },
            _ => {},
        }
        self.pending_action()
    }
}

} // verus!
