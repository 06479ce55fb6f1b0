//! The request protocol shared by every endpoint: take the slot, run the
//! adapter commands one at a time, give the slot back, report the outcome.
//!
//! The program around the library performs each command; these functions
//! decide what to run next and what to answer.
use vstd::prelude::*;
use crate::gate::{Gate, GateHandle, GateView, admits, after_enter, after_release};
use crate::response::{
    Failure, Outcome, OutcomeView, Payload, PayloadView, option_view, waited_message, waited_text,
};

verus! {

/// How long the connectivity probe may take, in seconds.
pub const PROBE_TIMEOUT_SECS: u64 = 2;

/// One call to an endpoint.
pub enum Request {
    /// Hold the slot for the given number of seconds.
    Delay(u64),
    DeviceName,
    Connectivity,
    RadioOn,
    RadioOff,
    RadioStatus,
    Connect { ssid: String, password: String },
    Disconnect,
    Networks,
    CurrentSsid,
}

/// One adapter operation for the program around the library to perform.
pub enum Command {
    Wait(u64),
    DeviceName,
    /// Probe the internet connection, giving up after the given seconds.
    CheckOnline(u64),
    RadioOn,
    RadioOff,
    RadioStatus,
    Join { ssid: String, password: String },
    Leave,
    Scan,
    ActiveSsid,
}

/// What an adapter operation came back with.
pub enum Reply {
    /// The operation failed.
    Failed,
    /// The operation completed and has nothing to report.
    Finished,
    /// A name, such as the device name.
    Text(String),
    /// A yes or no answer: online, radio enabled, network joined.
    Flag(bool),
    /// Scanned networks: name and whether the network is open.
    Networks(Vec<(String, bool)>),
    /// The network the adapter is associated with, if any.
    Current(Option<String>),
}

/// An admitted request that waits for the reply to its current command.
/// It owns the slot's handle until the request is answered.
pub struct Session {
    request: Request,
    handle: GateHandle,
    joining: bool,
}

/// What to do next: run a command for a session, or answer the client.
pub enum Step {
    Run(Session, Command),
    Respond(Outcome),
}

pub ghost enum RequestView {
    Delay(u64),
    DeviceName,
    Connectivity,
    RadioOn,
    RadioOff,
    RadioStatus,
    Connect { ssid: Seq<char>, password: Seq<char> },
    Disconnect,
    Networks,
    CurrentSsid,
}

pub ghost enum CommandView {
    Wait(u64),
    DeviceName,
    CheckOnline(u64),
    RadioOn,
    RadioOff,
    RadioStatus,
    Join { ssid: Seq<char>, password: Seq<char> },
    Leave,
    Scan,
    ActiveSsid,
}

pub ghost enum ReplyView {
    Failed,
    Finished,
    Text(Seq<char>),
    Flag(bool),
    Networks(Seq<(Seq<char>, bool)>),
    Current(Option<Seq<char>>),
}

/// The request a session serves, and whether its network join has begun.
pub ghost struct SessionView {
    pub request: RequestView,
    pub joining: bool,
}

pub ghost enum StepView {
    Run(SessionView, CommandView),
    Respond(OutcomeView),
}

impl View for Request {
    type V = RequestView;

    open spec fn view(&self) -> RequestView {
        match self {
            Request::Delay(n) => RequestView::Delay(*n),
            Request::DeviceName => RequestView::DeviceName,
            Request::Connectivity => RequestView::Connectivity,
            Request::RadioOn => RequestView::RadioOn,
            Request::RadioOff => RequestView::RadioOff,
            Request::RadioStatus => RequestView::RadioStatus,
            Request::Connect { ssid, password } => RequestView::Connect {
                ssid: ssid@,
                password: password@,
            },
            Request::Disconnect => RequestView::Disconnect,
            Request::Networks => RequestView::Networks,
            Request::CurrentSsid => RequestView::CurrentSsid,
        }
    }
}

impl View for Command {
    type V = CommandView;

    open spec fn view(&self) -> CommandView {
        match self {
            Command::Wait(n) => CommandView::Wait(*n),
            Command::DeviceName => CommandView::DeviceName,
            Command::CheckOnline(t) => CommandView::CheckOnline(*t),
            Command::RadioOn => CommandView::RadioOn,
            Command::RadioOff => CommandView::RadioOff,
            Command::RadioStatus => CommandView::RadioStatus,
            Command::Join { ssid, password } => CommandView::Join {
                ssid: ssid@,
                password: password@,
            },
            Command::Leave => CommandView::Leave,
            Command::Scan => CommandView::Scan,
            Command::ActiveSsid => CommandView::ActiveSsid,
        }
    }
}

impl View for Reply {
    type V = ReplyView;

    open spec fn view(&self) -> ReplyView {
        match self {
            Reply::Failed => ReplyView::Failed,
            Reply::Finished => ReplyView::Finished,
            Reply::Text(t) => ReplyView::Text(t@),
            Reply::Flag(b) => ReplyView::Flag(*b),
            Reply::Networks(l) => ReplyView::Networks(l.deep_view()),
            Reply::Current(c) => ReplyView::Current(option_view(*c)),
        }
    }
}

impl View for Session {
    type V = SessionView;

    closed spec fn view(&self) -> SessionView {
        SessionView { request: self.request@, joining: self.joining }
    }
}

impl View for Step {
    type V = StepView;

    open spec fn view(&self) -> StepView {
        match self {
            Step::Run(s, c) => StepView::Run(s@, c@),
            Step::Respond(o) => StepView::Respond(o@),
        }
    }
}

/// The command that serves a request; a connection first asks whether the
/// radio is on.
pub open spec fn command_for(req: RequestView) -> CommandView {
    match req {
        RequestView::Delay(n) => CommandView::Wait(n),
        RequestView::DeviceName => CommandView::DeviceName,
        RequestView::Connectivity => CommandView::CheckOnline(PROBE_TIMEOUT_SECS),
        RequestView::RadioOn => CommandView::RadioOn,
        RequestView::RadioOff => CommandView::RadioOff,
        RequestView::RadioStatus => CommandView::RadioStatus,
        RequestView::Connect { .. } => CommandView::RadioStatus,
        RequestView::Disconnect => CommandView::Leave,
        RequestView::Networks => CommandView::Scan,
        RequestView::CurrentSsid => CommandView::ActiveSsid,
    }
}

/// A connection request names a network and a password, both non-empty.
pub open spec fn well_formed(req: RequestView) -> bool {
    match req {
        RequestView::Connect { ssid, password } => ssid.len() > 0 && password.len() > 0,
        _ => true,
    }
}

/// The first step of an admitted request.
pub open spec fn first_step(req: RequestView) -> StepView {
    if well_formed(req) {
        StepView::Run(SessionView { request: req, joining: false }, command_for(req))
    } else {
        StepView::Respond(OutcomeView::DomainFailure(Failure::InvalidInput))
    }
}

/// A successful outcome carrying a status word and its flag.
pub open spec fn status(text: Seq<char>, flag: bool) -> OutcomeView {
    OutcomeView::Success(PayloadView::Status { text, flag })
}

/// The outcome of a request whose last command came back with `reply`.
/// A wait always succeeds; a failed connectivity probe means offline; a reply
/// of the wrong kind, or a failure, is a failed command.
pub open spec fn outcome_of(req: RequestView, reply: ReplyView) -> OutcomeView {
    match req {
        RequestView::Delay(n) => status(waited_text(n), true),
        RequestView::Connectivity => match reply {
            ReplyView::Flag(true) => status("online"@, true),
            _ => status("offline"@, false),
        },
        _ => match (req, reply) {
            (RequestView::DeviceName, ReplyView::Text(t)) => status(t, true),
            (RequestView::RadioOn, ReplyView::Finished) => status("on"@, true),
            (RequestView::RadioOff, ReplyView::Finished) => status("off"@, true),
            (RequestView::RadioStatus, ReplyView::Flag(true)) => status("enabled"@, true),
            (RequestView::RadioStatus, ReplyView::Flag(false)) => status("disabled"@, false),
            (RequestView::Connect { .. }, ReplyView::Flag(true)) => status("connected"@, true),
            (RequestView::Connect { .. }, ReplyView::Flag(false)) => status(
                "did not connect"@,
                false,
            ),
            (RequestView::Disconnect, ReplyView::Finished) => status("disconnected"@, true),
            (RequestView::Networks, ReplyView::Networks(l)) => OutcomeView::Success(
                PayloadView::Networks(l),
            ),
            (RequestView::CurrentSsid, ReplyView::Current(c)) => OutcomeView::Success(
                PayloadView::Current(c),
            ),
            _ => OutcomeView::DomainFailure(Failure::CommandFailed),
        },
    }
}

/// The step after the session's current command came back with `reply`.
/// A connection joins the network only once the radio is reported on.
pub open spec fn next_step(s: SessionView, reply: ReplyView) -> StepView {
    match s.request {
        RequestView::Connect { ssid, password } if !s.joining => match reply {
            ReplyView::Flag(true) => StepView::Run(
                SessionView { request: s.request, joining: true },
                CommandView::Join { ssid, password },
            ),
            ReplyView::Flag(false) => StepView::Respond(
                OutcomeView::DomainFailure(Failure::RadioDisabled),
            ),
            _ => StepView::Respond(OutcomeView::DomainFailure(Failure::CommandFailed)),
        },
        _ => StepView::Respond(outcome_of(s.request, reply)),
    }
}

/// The slot after a step: it is given back once the request is answered.
pub open spec fn settle(g: GateView, s: StepView) -> GateView {
    match s {
        StepView::Respond(_) => after_release(g),
        StepView::Run(..) => g,
    }
}

/// A request arriving at slot `g`: turned away as busy when the slot is held,
/// otherwise admitted and taken to its first step.
pub open spec fn begin_spec(g: GateView, req: RequestView) -> (GateView, StepView) {
    if admits(g) {
        let s = first_step(req);
        (settle(after_enter(g), s), s)
    } else {
        (g, StepView::Respond(OutcomeView::Busy))
    }
}

/// A session at slot `g` receiving the reply to its command.
pub open spec fn advance_spec(g: GateView, s: SessionView, reply: ReplyView) -> (
    GateView,
    StepView,
) {
    let t = next_step(s, reply);
    (settle(g, t), t)
}

fn copy_text(s: &String) -> (r: String)
    ensures
        r@ == s@,
{
    s.clone()
}

fn command_of(req: &Request) -> (r: Command)
    ensures
        r@ == command_for(req@),
{
    match req {
        Request::Delay(n) => Command::Wait(*n),
        Request::DeviceName => Command::DeviceName,
        Request::Connectivity => Command::CheckOnline(PROBE_TIMEOUT_SECS),
        Request::RadioOn => Command::RadioOn,
        Request::RadioOff => Command::RadioOff,
        Request::RadioStatus => Command::RadioStatus,
        Request::Connect { .. } => Command::RadioStatus,
        Request::Disconnect => Command::Leave,
        Request::Networks => Command::Scan,
        Request::CurrentSsid => Command::ActiveSsid,
    }
}

fn status_outcome(text: &str, flag: bool) -> (r: Outcome)
    ensures
        r@ == status(text@, flag),
{
    Outcome::Success(Payload::Status { text: text.to_string(), flag })
}

/// The outcome of a request whose last command came back with `reply`.
pub fn outcome(req: &Request, reply: Reply) -> (r: Outcome)
    ensures
        r@ == outcome_of(req@, reply@),
{
    match req {
        Request::Delay(n) => Outcome::Success(
            Payload::Status { text: waited_message(*n), flag: true },
        ),
        Request::Connectivity => match reply {
            Reply::Flag(true) => status_outcome("online", true),
            _ => status_outcome("offline", false),
        },
        Request::DeviceName => match reply {
            Reply::Text(t) => Outcome::Success(Payload::Status { text: t, flag: true }),
            _ => Outcome::DomainFailure(Failure::CommandFailed),
        },
        Request::RadioOn => match reply {
            Reply::Finished => status_outcome("on", true),
            _ => Outcome::DomainFailure(Failure::CommandFailed),
        },
        Request::RadioOff => match reply {
            Reply::Finished => status_outcome("off", true),
            _ => Outcome::DomainFailure(Failure::CommandFailed),
        },
        Request::RadioStatus => match reply {
            Reply::Flag(true) => status_outcome("enabled", true),
            Reply::Flag(false) => status_outcome("disabled", false),
            _ => Outcome::DomainFailure(Failure::CommandFailed),
        },
        Request::Connect { .. } => match reply {
            Reply::Flag(true) => status_outcome("connected", true),
            Reply::Flag(false) => status_outcome("did not connect", false),
            _ => Outcome::DomainFailure(Failure::CommandFailed),
        },
        Request::Disconnect => match reply {
            Reply::Finished => status_outcome("disconnected", true),
            _ => Outcome::DomainFailure(Failure::CommandFailed),
        },
        Request::Networks => match reply {
            Reply::Networks(l) => Outcome::Success(Payload::Networks(l)),
            _ => Outcome::DomainFailure(Failure::CommandFailed),
        },
        Request::CurrentSsid => match reply {
            Reply::Current(c) => Outcome::Success(Payload::Current(c)),
            _ => Outcome::DomainFailure(Failure::CommandFailed),
        },
    }
}

/// Takes a new request at the slot. When the slot is held the answer is
/// `Busy` at once and nothing else happens, whatever the request holds.
/// Otherwise the request is admitted; a malformed connection request is then
/// answered as invalid and the slot given back, and any other request gets
/// its first command to run.
pub fn begin(gate: &mut Gate, request: Request) -> (r: Step)
    ensures
        (final(gate)@, r@) == begin_spec(old(gate)@, request@),
{
    match gate.try_enter() {
        None => Step::Respond(Outcome::Busy),
        Some(handle) => {
            let valid = match &request {
                Request::Connect { ssid, password } => !ssid.as_str().is_empty() && !password.as_str().is_empty(),
                _ => true,
            };
            if valid {
                let command = command_of(&request);
                Step::Run(Session { request, handle, joining: false }, command)
            } else {
                gate.release(handle);
                Step::Respond(Outcome::DomainFailure(Failure::InvalidInput))
            }
        },
    }
}

/// Hands a session the reply to its command. Either the session goes on with
/// its next command, still holding the slot, or the request is answered and
/// the slot given back, whether the operation succeeded or failed.
pub fn advance(gate: &mut Gate, session: Session, reply: Reply) -> (r: Step)
    ensures
        (final(gate)@, r@) == advance_spec(old(gate)@, session@, reply@),
{
    let Session { request, handle, joining } = session;
    let join = match &request {
        Request::Connect { ssid, password } => {
            if joining {
                None
            } else {
                match &reply {
                    Reply::Flag(true) => Some(
                        Command::Join { ssid: copy_text(ssid), password: copy_text(password) },
                    ),
                    Reply::Flag(false) => {
                        gate.release(handle);
                        return Step::Respond(Outcome::DomainFailure(Failure::RadioDisabled));
                    },
                    _ => {
                        gate.release(handle);
                        return Step::Respond(Outcome::DomainFailure(Failure::CommandFailed));
                    },
                }
            }
        },
        _ => None,
    };
    match join {
        Some(command) => Step::Run(Session { request, handle, joining: true }, command),
        None => {
            gate.release(handle);
            Step::Respond(outcome(&request, reply))
        },
    }
}

} // verus!
