//! The local control channel: short text commands with which an operator
//! pauses, resumes or triggers the periodic job of a running process.
//!
//! One request is read per connection, at most [`MAX_REQUEST_BYTES`] bytes of
//! it, and answered with `ok` or `error`. The request has to be one of the
//! names of the vocabulary, byte for byte. What a command does to the state of
//! the supervised job is stated by [`effect`], what is answered by
//! [`directive_for`]; listening, reading and writing are left to the caller.
use crate::task::guarded_cell;
use crate::task::guarded_state;
use crate::task::state_mut;
use crate::task::wake;
use crate::task::PausableFutureSupervisor;
use crate::task::PausableState;
use std::sync::Mutex;
use std::sync::MutexGuard;
use std::task::Waker;
use vstd::prelude::*;
use vstd::slice::slice_subrange;
use vstd::string::StringSliceAdditionalSpecFns;
use vstd::utf8::is_ascii_chars_encode_utf8;

verus! {

/// The most bytes of one request that are looked at.
pub const MAX_REQUEST_BYTES: usize = 1024;

/// The commands of the control channel.
#[derive(Clone, Copy, Debug, PartialEq, Eq, Structural)]
pub enum Command {
    /// Run the indexing job once, out of band, and pause the periodic one.
    Index,
    /// Pause the periodic job.
    Pause,
    /// Resume the periodic job.
    Resume,
    /// Load the configuration from disk again.
    ReloadConfig,
}

/// The two answers of the control channel.
#[derive(Clone, Copy, Debug, PartialEq, Eq, Structural)]
pub enum Response {
    /// The command was understood; written as `ok`.
    Accepted,
    /// The command is not part of the vocabulary; written as `error`.
    Refused,
}

/// One line of the vocabulary: the word on the wire and what it means.
#[derive(Clone, Copy, Debug)]
pub struct CommandEntry {
    pub name: &'static str,
    pub command: Command,
}

/// What the listener has to do for one request.
#[derive(Clone, Copy, Debug, PartialEq, Eq, Structural)]
pub enum Directive {
    /// Write the response; nothing else is to be done.
    Reply(Response),
    /// Start the indexing job once, without waiting for it, then answer.
    TriggerIndexing,
    /// Load the configuration again, then answer if that went well.
    ReloadConfiguration,
}

/// Why the control channel cannot start.
#[derive(Clone, Copy, Debug, PartialEq, Eq, Structural)]
pub enum StartupError {
    /// No socket path is configured.
    SocketPathMissing,
    /// Something other than a leftover socket occupies the path, or it
    /// cannot be removed.
    CleanupFailed,
}

impl StartupError {
    /// The text of the error.
    pub open spec fn text(self) -> Seq<char> {
        match self {
            StartupError::SocketPathMissing => "cli_unix_socket is not set"@,
            StartupError::CleanupFailed => "cli_unix_socket could not be cleared"@,
        }
    }

    /// The text under which the error is reported.
    pub fn describe(&self) -> (text: &'static str)
        ensures
            text@ == self.text(),
    {
        match self {
            StartupError::SocketPathMissing => "cli_unix_socket is not set",
            StartupError::CleanupFailed => "cli_unix_socket could not be cleared",
        }
    }
}

/// How the removal of a leftover socket file ended.
#[derive(Clone, Copy, Debug, PartialEq, Eq, Structural)]
pub enum CleanupOutcome {
    /// A leftover file was removed.
    Removed,
    /// There was nothing at the path.
    NotFound,
    /// The removal failed for any other reason.
    Failed,
}

/// The vocabulary of the control channel, in the order in which it is searched.
pub open spec fn standard_vocabulary() -> Seq<CommandEntry> {
    seq![
        CommandEntry { name: "index", command: Command::Index },
        CommandEntry { name: "pause", command: Command::Pause },
        CommandEntry { name: "resume", command: Command::Resume },
        CommandEntry { name: "reload_config", command: Command::ReloadConfig },
    ]
}

/// The command of the first entry of `table` whose name, as UTF-8, is `word`.
pub open spec fn lookup(table: Seq<CommandEntry>, word: Seq<u8>) -> Option<Command>
    decreases table.len(),
{
    if table.len() == 0 {
        None
    } else if table[0].name.spec_bytes() == word {
        Some(table[0].command)
    } else {
        lookup(table.drop_first(), word)
    }
}

/// The part of a request that is looked at: its first `MAX_REQUEST_BYTES` bytes.
pub open spec fn frame(request: Seq<u8>) -> Seq<u8> {
    if request.len() > MAX_REQUEST_BYTES {
        request.subrange(0, MAX_REQUEST_BYTES as int)
    } else {
        request
    }
}

/// The command that a request stands for under the standard vocabulary.
pub open spec fn decode(request: Seq<u8>) -> Option<Command> {
    lookup(standard_vocabulary(), frame(request))
}

/// The state of the supervised job after a decoded request.
pub open spec fn effect(command: Option<Command>, state: PausableState) -> PausableState {
    match command {
        Some(Command::Index) => state.after_pause(),
        Some(Command::Pause) => state.after_pause(),
        Some(Command::Resume) => state.after_resume(),
        Some(Command::ReloadConfig) => state,
        None => state,
    }
}

/// The waker that has to be invoked after a decoded request.
pub open spec fn woken_by(command: Option<Command>, state: PausableState) -> Option<Waker> {
    match command {
        Some(Command::Resume) => state.resume_handle(),
        _ => None,
    }
}

/// What the listener has to do after a decoded request.
pub open spec fn directive_for(command: Option<Command>) -> Directive {
    match command {
        Some(Command::Index) => Directive::TriggerIndexing,
        Some(Command::Pause) => Directive::Reply(Response::Accepted),
        Some(Command::Resume) => Directive::Reply(Response::Accepted),
        Some(Command::ReloadConfig) => Directive::ReloadConfiguration,
        None => Directive::Reply(Response::Refused),
    }
}

/// The answer to a directive whose work ended well (`succeeded`) or not.
/// `None` means that the channel stops instead of answering.
pub open spec fn answer_to(directive: Directive, succeeded: bool) -> Option<Response> {
    match directive {
        Directive::Reply(response) => Some(response),
        Directive::TriggerIndexing => Some(Response::Accepted),
        Directive::ReloadConfiguration => if succeeded {
            Some(Response::Accepted)
        } else {
            None
        },
    }
}

impl Response {
    /// The text of the response.
    pub open spec fn text(self) -> Seq<char> {
        match self {
            Response::Accepted => "ok"@,
            Response::Refused => "error"@,
        }
    }

    /// The text that is written back to the client.
    pub fn as_str(&self) -> (text: &'static str)
        ensures
            text@ == self.text(),
    {
        match self {
            Response::Accepted => "ok",
            Response::Refused => "error",
        }
    }
}

impl Directive {
    /// The response to write once the work of the directive is done;
    /// see [`answer_to`].
    pub fn reply_after(&self, succeeded: bool) -> (response: Option<Response>)
        ensures
            response == answer_to(*self, succeeded),
    {
        match self {
            Directive::Reply(response) => Some(*response),
            Directive::TriggerIndexing => Some(Response::Accepted),
            Directive::ReloadConfiguration => if succeeded {
                Some(Response::Accepted)
            } else {
                None
            },
        }
    }
}

/// The vocabulary as a table.
pub fn vocabulary() -> (table: Vec<CommandEntry>)
    ensures
        table@ == standard_vocabulary(),
{
    let mut table: Vec<CommandEntry> = Vec::new();
    table.push(CommandEntry { name: "index", command: Command::Index });
    table.push(CommandEntry { name: "pause", command: Command::Pause });
    table.push(CommandEntry { name: "resume", command: Command::Resume });
    table.push(CommandEntry { name: "reload_config", command: Command::ReloadConfig });
    assert(table@ =~= standard_vocabulary());
    table
}

/// Whether two byte strings are equal.
pub fn bytes_equal(left: &[u8], right: &[u8]) -> (equal: bool)
    ensures
        equal == (left@ == right@),
{
    if left.len() != right.len() {
        return false;
    }
    let mut i: usize = 0;
    while i < left.len()
        invariant
            left@.len() == right@.len(),
            i <= left@.len(),
            forall|j: int| 0 <= j < i ==> left@[j] == right@[j],
        decreases left@.len() - i,
    {
        if left[i] != right[i] {
            return false;
        }
        i += 1;
    }
    assert(left@ =~= right@);
    true
}

/// Looks a word up in a table; see [`lookup`].
pub fn find_command(table: &Vec<CommandEntry>, word: &[u8]) -> (found: Option<Command>)
    ensures
        found == lookup(table@, word@),
{
    let mut i: usize = 0;
    assert(table@.skip(0) =~= table@);
    while i < table.len()
        invariant
            i <= table@.len(),
            lookup(table@, word@) == lookup(table@.skip(i as int), word@),
        decreases table@.len() - i,
    {
        let entry = &table[i];
        proof {
            let rest = table@.skip(i as int);
            assert(rest[0] == table@[i as int]);
            assert(rest.drop_first() =~= table@.skip(i + 1));
        }
        if bytes_equal(entry.name.as_bytes(), word) {
            return Some(entry.command);
        }
        i += 1;
    }
    assert(table@.skip(i as int).len() == 0);
    None
}

/// The command that a request stands for, if any; see [`decode`].
pub fn decode_command(request: &[u8]) -> (command: Option<Command>)
    ensures
        command == decode(request@),
{
    let table = vocabulary();
    if request.len() > MAX_REQUEST_BYTES {
        find_command(&table, slice_subrange(request, 0, MAX_REQUEST_BYTES))
    } else {
        find_command(&table, request)
    }
}

/// Carries a decoded request out on the state of the supervised job. The
/// second component is the waker to invoke once the state is released.
pub fn execute(command: Option<Command>, state: &mut PausableState) -> (done: (
    Directive,
    Option<Waker>,
))
    ensures
        *final(state) == effect(command, *old(state)),
        done.0 == directive_for(command),
        done.1 == woken_by(command, *old(state)),
{
    match command {
        Some(Command::Index) => {
            state.pause();
            (Directive::TriggerIndexing, None)
        },
        Some(Command::Pause) => {
            state.pause();
            (Directive::Reply(Response::Accepted), None)
        },
        Some(Command::Resume) => {
            let woken = state.resume();
            (Directive::Reply(Response::Accepted), woken)
        },
        Some(Command::ReloadConfig) => (Directive::ReloadConfiguration, None),
        None => (Directive::Reply(Response::Refused), None),
    }
}

/// The socket path to listen on.
pub fn socket_path(configured: &Option<String>) -> (path: Result<&String, StartupError>)
    ensures
        match *configured {
            Some(p) => path == Ok::<&String, StartupError>(&p),
            None => path == Err::<&String, StartupError>(StartupError::SocketPathMissing),
        },
{
    match configured {
        Some(path) => Ok(path),
        None => Err(StartupError::SocketPathMissing),
    }
}

/// Whether the listener may bind after the cleanup of its path: a path at
/// which nothing was found is as good as one that was cleared, every other
/// failure is final.
pub fn after_cleanup(outcome: CleanupOutcome) -> (ready: Result<(), StartupError>)
    ensures
        ready is Ok <==> outcome != CleanupOutcome::Failed,
        ready is Err ==> ready == Err::<(), StartupError>(StartupError::CleanupFailed),
{
    match outcome {
        CleanupOutcome::Removed => Ok(()),
        CleanupOutcome::NotFound => Ok(()),
        CleanupOutcome::Failed => Err(StartupError::CleanupFailed),
    }
}

/// The control channel of one supervised periodic job.
pub struct ControlChannel {
    supervisor: PausableFutureSupervisor,
}

impl ControlChannel {
    /// The cell of the supervised job.
    pub closed spec fn cell(self) -> Mutex<PausableState> {
        self.supervisor.cell()
    }

    /// A control channel for the job behind `supervisor`.
    pub fn new(supervisor: PausableFutureSupervisor) -> (channel: Self)
        ensures
            channel.cell() == supervisor.cell(),
    {
        Self { supervisor }
    }

    /// Handles one request: decodes it, carries it out on the state of the
    /// supervised job while holding its cell, and says what the listener has
    /// to do. The state that the guard of the cell holds when it is given up
    /// is the [`effect`] of the request on the state that it held when it was
    /// taken.
    pub fn handle(&mut self, request: &[u8]) -> (directive: Directive)
        ensures
            directive == directive_for(decode(request@)),
            final(self).cell() == old(self).cell(),
            exists|held: MutexGuard<PausableState>, left: MutexGuard<PausableState>|
                {
                    &&& guarded_cell(held) == old(self).cell()
                    &&& guarded_cell(left) == old(self).cell()
                    &&& #[trigger] guarded_state(left) == effect(
                        decode(request@),
                        #[trigger] guarded_state(held),
                    )
                },
    {
        let command = decode_command(request);
        let (directive, woken) = {
            let mut guard = self.supervisor.lock();
            let ghost held = guard;
            let done = execute(command, state_mut(&mut guard));
            assert(guarded_state(guard) == effect(command, guarded_state(held)));
            done
        };
        if let Some(waker) = woken {
            wake(waker);
        }
        directive
    }
}

/// The UTF-8 bytes of the four words of the vocabulary: as many bytes as
/// characters, and the first byte of each.
proof fn lemma_words()
    ensures
        "index".spec_bytes().len() == 5,
        "pause".spec_bytes().len() == 5,
        "resume".spec_bytes().len() == 6,
        "reload_config".spec_bytes().len() == 13,
        "index".spec_bytes()[0] == 0x69u8,
        "pause".spec_bytes()[0] == 0x70u8,
{
    reveal_strlit("index");
    reveal_strlit("pause");
    reveal_strlit("resume");
    reveal_strlit("reload_config");
    is_ascii_chars_encode_utf8("index"@);
    is_ascii_chars_encode_utf8("pause"@);
    is_ascii_chars_encode_utf8("resume"@);
    is_ascii_chars_encode_utf8("reload_config"@);
    assert("index"@[0] as u8 == "index".spec_bytes()[0]);
    assert("pause"@[0] as u8 == "pause".spec_bytes()[0]);
}

/// What [`lookup`] finds in the standard vocabulary, word by word.
proof fn lemma_standard_lookup(word: Seq<u8>)
    ensures
        lookup(standard_vocabulary(), word) == if word == "index".spec_bytes() {
            Some(Command::Index)
        } else if word == "pause".spec_bytes() {
            Some(Command::Pause)
        } else if word == "resume".spec_bytes() {
            Some(Command::Resume)
        } else if word == "reload_config".spec_bytes() {
            Some(Command::ReloadConfig)
        } else {
            None::<Command>
        },
{
    let t0 = standard_vocabulary();
    let t1 = t0.drop_first();
    let t2 = t1.drop_first();
    let t3 = t2.drop_first();
    let t4 = t3.drop_first();
    assert(t4.len() == 0);
    assert(lookup(t4, word) is None);
    assert(t3[0] == t0[3]);
    assert(t2[0] == t0[2]);
    assert(t1[0] == t0[1]);
    assert(lookup(t3, word) == if word == "reload_config".spec_bytes() {
        Some(Command::ReloadConfig)
    } else {
        None::<Command>
    });
    assert(lookup(t2, word) == if word == "resume".spec_bytes() {
        Some(Command::Resume)
    } else {
        lookup(t3, word)
    });
    assert(lookup(t1, word) == if word == "pause".spec_bytes() {
        Some(Command::Pause)
    } else {
        lookup(t2, word)
    });
}

/// Each word of the vocabulary, sent as a request, stands for its own command.
pub proof fn law_vocabulary_is_understood()
    ensures
        decode("index".spec_bytes()) == Some(Command::Index),
        decode("pause".spec_bytes()) == Some(Command::Pause),
        decode("resume".spec_bytes()) == Some(Command::Resume),
        decode("reload_config".spec_bytes()) == Some(Command::ReloadConfig),
{
    lemma_words();
    lemma_standard_lookup("index".spec_bytes());
    lemma_standard_lookup("pause".spec_bytes());
    lemma_standard_lookup("resume".spec_bytes());
    lemma_standard_lookup("reload_config".spec_bytes());
}

/// A request is refused exactly when the part of it that is looked at is
/// none of the four words; a request of more than `MAX_REQUEST_BYTES` bytes
/// is always refused.
pub proof fn law_refused_requests(request: Seq<u8>)
    ensures
        decode(request) is None <==> {
            &&& frame(request) != "index".spec_bytes()
            &&& frame(request) != "pause".spec_bytes()
            &&& frame(request) != "resume".spec_bytes()
            &&& frame(request) != "reload_config".spec_bytes()
        },
        request.len() > MAX_REQUEST_BYTES ==> decode(request) is None,
{
    lemma_words();
    lemma_standard_lookup(frame(request));
}

/// `pause` and then `resume` are both answered with `ok`. If the job was
/// checked for progress between the two, or had been suspended before, it is
/// left running. If it was running and was not checked in between, the pause
/// request is still pending afterwards.
pub proof fn law_pause_then_resume(state: PausableState, check: Waker)
    ensures
        answer_to(directive_for(decode("pause".spec_bytes())), true) == Some(Response::Accepted),
        answer_to(directive_for(decode("resume".spec_bytes())), true) == Some(Response::Accepted),
        effect(
            decode("resume".spec_bytes()),
            effect(decode("pause".spec_bytes()), state).after_poll(check),
        ) == PausableState::Running,
        state is Paused ==> effect(
            decode("resume".spec_bytes()),
            effect(decode("pause".spec_bytes()), state),
        ) == PausableState::Running,
        !(state is Paused) ==> effect(
            decode("resume".spec_bytes()),
            effect(decode("pause".spec_bytes()), state),
        ) == PausableState::PausePending,
{
    law_vocabulary_is_understood();
}

/// A request that is not understood is answered with `error`, wakes nobody
/// and leaves the state of the supervised job as it was.
pub proof fn law_unknown_command_changes_nothing(request: Seq<u8>, state: PausableState)
    requires
        decode(request) is None,
    ensures
        directive_for(decode(request)) == Directive::Reply(Response::Refused),
        effect(decode(request), state) == state,
        woken_by(decode(request), state) is None,
{
}

} // verus!
