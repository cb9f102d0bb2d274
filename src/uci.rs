use vstd::prelude::*;

use vampirc_uci::{parse_one, Serializable, UciMessage};

use crate::screen::{safe_to_parse, safe_to_parse_line};
use crate::settings::EngineSettings;
use crate::{ENGINE_AUTHOR, ENGINE_NAME};

verus! {

/// An inbound protocol command, told apart as far as the dispatcher needs it.
#[derive(Debug, PartialEq, Eq)]
pub enum Command {
    Uci,
    Debug(bool),
    IsReady,
    Register,
    Position,
    SetOption { name: String, value: Option<String> },
    UciNewGame,
    Stop,
    PonderHit,
    Quit,
    Go,
    /// A line that is no known command; it carries the raw text.
    Unrecognized(String),
    /// A message that only an engine sends, seen on the input side.
    EngineBound,
}

/// The command that the protocol grammar reads from one input line.
pub uninterp spec fn command_of(line: Seq<char>) -> Command;

/// Relies on `vampirc_uci::parse_one`, which maps a line to one message and
/// depends on the line alone; engine-bound messages are told apart here.
/// Its handlers for some messages (`go`, `info`, `position`, ...) can panic
/// on lines the grammar admits, so it is handed only lines whose first word
/// starts with a keyword whose handler cannot panic (`safe_to_parse`); a line
/// the grammar rejects comes back as an unknown message.
#[verifier::external_body]
fn parse_command(line: &str) -> (r: Command)
    requires
        safe_to_parse(line@),
    ensures
        r == command_of(line@),
{
    match parse_one(line) {
        UciMessage::Uci => Command::Uci,
        UciMessage::Debug(on) => Command::Debug(on),
        UciMessage::IsReady => Command::IsReady,
        UciMessage::Register { .. } => Command::Register,
        UciMessage::Position { .. } => Command::Position,
        UciMessage::SetOption { name, value } => Command::SetOption { name, value },
        UciMessage::UciNewGame => Command::UciNewGame,
        UciMessage::Stop => Command::Stop,
        UciMessage::PonderHit => Command::PonderHit,
        UciMessage::Quit => Command::Quit,
        UciMessage::Go { .. } => Command::Go,
        UciMessage::Unknown(text, _) => Command::Unrecognized(text),
        _ => Command::EngineBound,
    }
}

/// An outbound protocol message.
#[derive(Debug, PartialEq, Eq)]
pub enum Reply {
    /// The engine's identification: its name and its author.
    Id { name: String, author: String },
    /// Acknowledges the handshake request.
    UciOk,
    /// Acknowledges a readiness check.
    ReadyOk,
    /// Any other outbound line, such as a search result, written as it is.
    Text(String),
}

/// The mathematical value of a `Reply`.
pub enum ReplyModel {
    Id { name: Seq<char>, author: Seq<char> },
    UciOk,
    ReadyOk,
    Text(Seq<char>),
}

impl View for Reply {
    type V = ReplyModel;

    open spec fn view(&self) -> ReplyModel {
        match self {
            Reply::Id { name, author } => ReplyModel::Id { name: name@, author: author@ },
            Reply::UciOk => ReplyModel::UciOk,
            Reply::ReadyOk => ReplyModel::ReadyOk,
            Reply::Text(t) => ReplyModel::Text(t@),
        }
    }
}

/// One line of protocol text, in the shape the serializer takes it.
enum ProtocolLine {
    IdName(String),
    IdAuthor(String),
    UciOk,
    ReadyOk,
}

/// The canonical text of one protocol line.
spec fn protocol_line_text(line: ProtocolLine) -> Seq<char> {
    match line {
        ProtocolLine::IdName(n) => "id name "@ + n@,
        ProtocolLine::IdAuthor(a) => "id author "@ + a@,
        ProtocolLine::UciOk => "uciok"@,
        ProtocolLine::ReadyOk => "readyok"@,
    }
}

/// Relies on `Serializable::serialize` of `vampirc_uci::UciMessage`, which writes
/// `id name <n>`, `id author <a>`, `uciok` and `readyok` for these messages.
#[verifier::external_body]
fn serialize_line(line: ProtocolLine) -> (r: String)
    ensures
        r@ == protocol_line_text(line),
{
    let message = match line {
        ProtocolLine::IdName(name) => UciMessage::Id { name: Some(name), author: None },
        ProtocolLine::IdAuthor(author) => UciMessage::Id { name: None, author: Some(author) },
        ProtocolLine::UciOk => UciMessage::UciOk,
        ProtocolLine::ReadyOk => UciMessage::ReadyOk,
    };
    message.serialize()
}

/// The lines of text that a reply is written as, in order.
pub open spec fn reply_text(r: ReplyModel) -> Seq<Seq<char>> {
    match r {
        ReplyModel::Id { name, author } => seq!["id name "@ + name, "id author "@ + author],
        ReplyModel::UciOk => seq!["uciok"@],
        ReplyModel::ReadyOk => seq!["readyok"@],
        ReplyModel::Text(t) => seq![t],
    }
}

impl Reply {
    /// Renders the reply as protocol text, one string per output line.
    pub fn render(&self) -> (r: Vec<String>)
        ensures
            r@.len() == reply_text(self@).len(),
            forall|i: int| 0 <= i < r@.len() ==> #[trigger] r@[i]@ == reply_text(self@)[i],
    {
        let mut out: Vec<String> = Vec::new();
        match self {
            Reply::Id { name, author } => {
                out.push(serialize_line(ProtocolLine::IdName(name.clone())));
                out.push(serialize_line(ProtocolLine::IdAuthor(author.clone())));
            },
            Reply::UciOk => {
                out.push(serialize_line(ProtocolLine::UciOk));
            },
            Reply::ReadyOk => {
                out.push(serialize_line(ProtocolLine::ReadyOk));
            },
            Reply::Text(t) => {
                out.push(t.clone());
            },
        }
        out
    }
}

/// The views of a sequence of replies.
pub open spec fn reply_models(s: Seq<Reply>) -> Seq<ReplyModel> {
    s.map_values(|r: Reply| r@)
}

/// The outbound conduit: replies wait here, first in first out, until the
/// output side takes them.
pub struct UciWriter {
    queue: Vec<Reply>,
}

impl View for UciWriter {
    type V = Seq<ReplyModel>;

    /// The replies waiting to be written, oldest first.
    closed spec fn view(&self) -> Seq<ReplyModel> {
        reply_models(self.queue@)
    }
}

impl UciWriter {
    /// A writer with nothing queued.
    pub fn new() -> (r: UciWriter)
        ensures
            r@ == Seq::<ReplyModel>::empty(),
    {
        let w = UciWriter { queue: Vec::new() };
        assert(w@ =~= Seq::<ReplyModel>::empty());
        w
    }

    /// Queues one reply after everything queued before it.
    pub fn queue_message_one(&mut self, msg: Reply)
        ensures
            final(self)@ == old(self)@.push(msg@),
    {
        self.queue.push(msg);
        assert(self@ =~= old(self)@.push(msg@));
    }

    /// Queues a batch of replies, in their order, after everything queued before.
    pub fn queue_message_many(&mut self, msg_list: Vec<Reply>)
        ensures
            final(self)@ == old(self)@ + reply_models(msg_list@),
    {
        let ghost batch = msg_list@;
        let mut msg_list = msg_list;
        self.queue.append(&mut msg_list);
        assert(self@ =~= old(self)@ + reply_models(batch));
    }

    /// Takes the oldest queued reply, if any.
    pub fn next_message(&mut self) -> (r: Option<Reply>)
        ensures
            old(self)@.len() == 0 ==> r is None && final(self)@ == old(self)@,
            old(self)@.len() > 0 ==> r is Some && r.unwrap()@ == old(self)@[0]
                && final(self)@ == old(self)@.drop_first(),
    {
        if self.queue.len() == 0 {
            None
        } else {
            let m = self.queue.remove(0);
            assert(self@ =~= old(self)@.drop_first());
            Some(m)
        }
    }

    /// The number of replies waiting.
    pub fn pending(&self) -> (r: usize)
        ensures
            r == self@.len(),
    {
        self.queue.len()
    }
}

impl Default for UciWriter {
    fn default() -> (r: UciWriter)
        ensures
            r@ == Seq::<ReplyModel>::empty(),
    {
        UciWriter::new()
    }
}

/// Where the dispatcher stands.
#[derive(Debug, Clone, Copy, PartialEq, Eq, Structural)]
pub enum ServiceState {
    /// Reading and routing input lines.
    Running,
    /// Suspended until the readiness work item signals completion.
    AwaitingReady,
    /// Shut down: no further line is routed.
    Terminated,
}

/// A job handed to the game logic, with whether its submitter waits on a
/// completion signal for it.
#[derive(Debug, PartialEq, Eq)]
pub struct IncomingMessage {
    pub message: Command,
    pub handler: bool,
}

/// What the dispatcher is built from.
pub struct UciArguments {
    pub engine_settings: EngineSettings,
}

/// The dispatcher: routes each input command to the settings, the work
/// queue or the writer.
pub struct UciService {
    pub engine_settings: EngineSettings,
    pub writer: UciWriter,
    pub work_queue: Vec<IncomingMessage>,
    pub state: ServiceState,
}

/// The replies that a handshake request is answered with.
pub open spec fn handshake_replies() -> Seq<ReplyModel> {
    seq![ReplyModel::Id { name: ENGINE_NAME@, author: ENGINE_AUTHOR@ }, ReplyModel::UciOk]
}

/// The replies that a command produces at once.
pub open spec fn immediate_replies(cmd: Command) -> Seq<ReplyModel> {
    match cmd {
        Command::Uci => handshake_replies(),
        _ => Seq::empty(),
    }
}

/// The debug flag after a command.
pub open spec fn debug_after(debug: bool, cmd: Command) -> bool {
    match cmd {
        Command::Debug(on) => on,
        _ => debug,
    }
}

/// The option mapping after a command.
pub open spec fn options_after(
    options: Map<Seq<char>, Seq<char>>,
    cmd: Command,
) -> Map<Seq<char>, Seq<char>> {
    match cmd {
        Command::SetOption { name, value: Some(v) } => options.insert(name@, v@),
        _ => options,
    }
}

/// The work item that a readiness check hands to the game logic.
pub open spec fn ready_job() -> IncomingMessage {
    IncomingMessage { message: Command::IsReady, handler: true }
}

/// The work queue after a command.
pub open spec fn work_after(work: Seq<IncomingMessage>, cmd: Command) -> Seq<IncomingMessage> {
    match cmd {
        Command::IsReady => work.push(ready_job()),
        _ => work,
    }
}

/// The dispatcher's state after a command routed while running.
pub open spec fn state_after(cmd: Command) -> ServiceState {
    match cmd {
        Command::IsReady => ServiceState::AwaitingReady,
        Command::Quit => ServiceState::Terminated,
        _ => ServiceState::Running,
    }
}

/// `t` is the dispatcher `s` after routing `cmd`.
pub open spec fn routed(s: UciService, t: UciService, cmd: Command) -> bool {
    &&& t.wf()
    &&& t.writer@ == s.writer@ + immediate_replies(cmd)
    &&& t.engine_settings.debug_on() == debug_after(s.engine_settings.debug_on(), cmd)
    &&& t.engine_settings@ == options_after(s.engine_settings@, cmd)
    &&& t.work_queue@ == work_after(s.work_queue@, cmd)
    &&& t.state == state_after(cmd)
}

/// `t` is the dispatcher `s` after it was handed the input line `line`, and
/// `r` tells whether the line was routed: only a running dispatcher routes.
/// A line that is not handed to the parser is routed as unrecognized, with
/// its text.
pub open spec fn line_handled(s: UciService, t: UciService, line: Seq<char>, r: bool) -> bool {
    &&& r == (s.state == ServiceState::Running)
    &&& r && safe_to_parse(line) ==> routed(s, t, command_of(line))
    &&& r && !safe_to_parse(line) ==> exists|text: String|
        text@ == line && routed(s, t, Command::Unrecognized(text))
    &&& !r ==> t == s
}

/// `t` is the dispatcher `s` after its input stream closed.
pub open spec fn input_ended(s: UciService, t: UciService) -> bool {
    &&& t.wf()
    &&& t.state == ServiceState::Terminated
    &&& t.writer@ == s.writer@
    &&& t.engine_settings == s.engine_settings
    &&& t.work_queue@ == s.work_queue@
}

/// The debug value a line sets when routed: the value of a debug command
/// handed to the parser, and none for any other line.
pub open spec fn line_debug(line: Seq<char>) -> Option<bool> {
    if safe_to_parse(line) {
        match command_of(line) {
            Command::Debug(on) => Some(on),
            _ => None,
        }
    } else {
        None
    }
}

/// `t` is the dispatcher `s` after the readiness signal resolved, `fired`
/// telling whether it was fired or abandoned.
pub open spec fn ready_resolved(s: UciService, t: UciService, fired: bool) -> bool {
    &&& t.wf()
    &&& t.writer@ == (if fired { s.writer@.push(ReplyModel::ReadyOk) } else { s.writer@ })
    &&& t.engine_settings.debug_on() == s.engine_settings.debug_on()
    &&& t.engine_settings@ == s.engine_settings@
    &&& t.work_queue@ == s.work_queue@
    &&& t.state == ServiceState::Running
}

impl UciService {
    /// The dispatcher is well formed when its settings are.
    pub open spec fn wf(&self) -> bool {
        self.engine_settings.wf()
    }

    /// A running dispatcher over the given settings, with nothing queued.
    pub fn new(args: UciArguments) -> (r: UciService)
        requires
            args.engine_settings.wf(),
        ensures
            r.wf(),
            r.state == ServiceState::Running,
            r.engine_settings == args.engine_settings,
            r.writer@ == Seq::<ReplyModel>::empty(),
            r.work_queue@ == Seq::<IncomingMessage>::empty(),
    {
        UciService {
            engine_settings: args.engine_settings,
            writer: UciWriter::new(),
            work_queue: Vec::new(),
            state: ServiceState::Running,
        }
    }

    /// Routes one command while running.
    pub fn handle_command(&mut self, cmd: Command)
        requires
            old(self).wf(),
            old(self).state == ServiceState::Running,
        ensures
            routed(*old(self), *final(self), cmd),
    {
        match cmd {
            Command::Uci => {
                let mut replies: Vec<Reply> = Vec::new();
                replies.push(Reply::Id { name: ENGINE_NAME.to_owned(), author: ENGINE_AUTHOR.to_owned() });
                replies.push(Reply::UciOk);
                self.writer.queue_message_many(replies);
                assert(immediate_replies(cmd) =~= handshake_replies());
            },
            Command::Debug(on) => {
                self.engine_settings.set_debug(on);
            },
            Command::IsReady => {
                self.work_queue.push(IncomingMessage { message: Command::IsReady, handler: true });
                self.state = ServiceState::AwaitingReady;
            },
            Command::SetOption { name, value } => {
                match value {
                    Some(v) => {
                        self.engine_settings.set_option(name, v);
                    },
                    None => {},
                }
            },
            Command::Quit => {
                self.state = ServiceState::Terminated;
            },
            _ => {},
        }
        assert(self.writer@ =~= old(self).writer@ + immediate_replies(cmd));
    }

    /// Reads and routes one input line; lines that arrive while the
    /// dispatcher is not running are not routed. A line whose first word is
    /// not one the parser is handed is routed as unrecognized; under the
    /// routing table every such command is dropped anyway. Returns whether
    /// the line was routed.
    pub fn handle_line(&mut self, line: &str) -> (r: bool)
        requires
            old(self).wf(),
        ensures
            line_handled(*old(self), *final(self), line@, r),
    {
        if self.state != ServiceState::Running {
            return false;
        }
        if safe_to_parse_line(line) {
            let cmd = parse_command(line);
            self.handle_command(cmd);
        } else {
            let text = line.to_owned();
            let ghost raw = text;
            self.handle_command(Command::Unrecognized(text));
            assert(raw@ == line@ && routed(*old(self), *self, Command::Unrecognized(raw)));
        }
        true
    }

    /// Resumes after the readiness work item resolved: a fired signal is
    /// acknowledged with `readyok`, an abandoned one with nothing.
    pub fn complete_ready(&mut self, fired: bool)
        requires
            old(self).wf(),
        ensures
            old(self).state == ServiceState::AwaitingReady ==> ready_resolved(
                *old(self),
                *final(self),
                fired,
            ),
            old(self).state != ServiceState::AwaitingReady ==> *final(self) == *old(self),
    {
        if self.state == ServiceState::AwaitingReady {
            if fired {
                self.writer.queue_message_one(Reply::ReadyOk);
            }
            self.state = ServiceState::Running;
        }
    }

    /// The input stream closed: the dispatcher shuts down as on `quit`.
    pub fn end_of_input(&mut self)
        requires
            old(self).wf(),
        ensures
            input_ended(*old(self), *final(self)),
    {
        self.state = ServiceState::Terminated;
    }

    /// Takes the oldest job from the work queue, if any.
    pub fn next_work(&mut self) -> (r: Option<IncomingMessage>)
        requires
            old(self).wf(),
        ensures
            final(self).wf(),
            final(self).state == old(self).state,
            final(self).writer@ == old(self).writer@,
            final(self).engine_settings == old(self).engine_settings,
            old(self).work_queue@.len() == 0 ==> r is None && final(self).work_queue@
                == old(self).work_queue@,
            old(self).work_queue@.len() > 0 ==> r == Some(old(self).work_queue@[0])
                && final(self).work_queue@ == old(self).work_queue@.drop_first(),
    {
        if self.work_queue.len() == 0 {
            None
        } else {
            let job = self.work_queue.remove(0);
            assert(self.work_queue@ =~= old(self).work_queue@.drop_first());
            Some(job)
        }
    }
}

} // verus!
