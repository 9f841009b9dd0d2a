//! One composite operation on the control and data connections, as a state
//! machine. The caller performs each `Action` that the exchange hands out and
//! reports how it went; the exchange decides what comes next. A transfer's
//! completion reply is only read once the data connection has been drained
//! or written and closed, because the plans place that step after the data
//! step.
use vstd::prelude::*;
use vstd::utf8::{decode_utf8, valid_utf8};

use crate::address::{
    decode_extended_passive_mode_socket, decode_passive_mode_ip, extended_port, passive_address,
    passive_error_text, IpAddress, SocketAddress,
};
use crate::error::{Error, Feature};
use crate::reply::{
    contains_kind, is_accepted, is_reply_line, parse_reply_expecting, reply_message, summary_text,
};
use crate::status_code::{code_prefix_value, kind_of, StatusCode, StatusCodeKind};
use crate::text::{lines_of, string_from_utf8, text_lines};

verus! {

/// How data connections are obtained.
#[derive(Clone, Copy, Debug, PartialEq, Eq, Structural)]
pub enum ClientMode {
    /// `PASV`: the server names an IPv4 address and port.
    Passive,
    /// `EPSV`: the server names a port on the host of the control connection.
    ExtendedPassive,
    /// The client would listen and the server connect; not provided.
    Active,
}

/// One step of a composite operation.
#[derive(Debug)]
pub enum Step {
    /// Write this command line, read one reply and accept it for `expected`.
    Command { line: String, expected: Vec<StatusCodeKind> },
    /// Read one reply and accept it for `expected`.
    Reply { expected: Vec<StatusCodeKind> },
    /// Ask for a data connection (`PASV` or `EPSV`, after the mode) and open it.
    OpenData,
    /// Read the data connection to its end, then close it.
    Receive,
    /// Write these bytes on the data connection, then close it.
    Transmit(Vec<u8>),
}

/// A step, with its text and bytes as sequences.
pub ghost enum StepView {
    Command(Seq<char>, Seq<StatusCodeKind>),
    Reply(Seq<StatusCodeKind>),
    OpenData,
    Receive,
    Transmit(Seq<u8>),
}

impl View for Step {
    type V = StepView;

    open spec fn view(&self) -> StepView {
        match self {
            Step::Command { line, expected } => StepView::Command(line@, expected@),
            Step::Reply { expected } => StepView::Reply(expected@),
            Step::OpenData => StepView::OpenData,
            Step::Receive => StepView::Receive,
            Step::Transmit(data) => StepView::Transmit(data@),
        }
    }
}

/// What a finished operation gives back.
#[derive(Clone, Copy, Debug, PartialEq, Eq, Structural)]
pub enum Yield {
    /// Nothing.
    Nothing,
    /// The message of the first reply (the greeting).
    FirstMessage,
    /// The message of the last reply.
    LastMessage,
    /// The bytes read from the data connection.
    Bytes,
    /// The bytes read from the data connection, as text.
    Text,
    /// The bytes read from the data connection, as text cut into lines.
    Names,
}

/// The value of a finished operation.
#[derive(Debug)]
pub enum Outcome {
    Done,
    Message(String),
    Bytes(Vec<u8>),
    Text(String),
    Names(Vec<String>),
}

pub ghost enum OutcomeView {
    Done,
    Message(Seq<char>),
    Bytes(Seq<u8>),
    Text(Seq<char>),
    Names(Seq<Seq<char>>),
}

impl View for Outcome {
    type V = OutcomeView;

    open spec fn view(&self) -> OutcomeView {
        match self {
            Outcome::Done => OutcomeView::Done,
            Outcome::Message(m) => OutcomeView::Message(m@),
            Outcome::Bytes(b) => OutcomeView::Bytes(b@),
            Outcome::Text(t) => OutcomeView::Text(t@),
            Outcome::Names(n) => OutcomeView::Names(n@.map_values(|s: String| s@)),
        }
    }
}

pub ghost enum ErrorView {
    UnexpectedStatusCode(Seq<char>),
    SerializationFailed(Seq<char>),
    InvalidSocketPassiveMode(Seq<char>),
    InvalidReply(Seq<char>),
    NotImplemented(Feature),
}

impl View for Error {
    type V = ErrorView;

    open spec fn view(&self) -> ErrorView {
        match self {
            Error::UnexpectedStatusCode(t) => ErrorView::UnexpectedStatusCode(t@),
            Error::SerializationFailed(t) => ErrorView::SerializationFailed(t@),
            Error::InvalidSocketPassiveMode(t) => ErrorView::InvalidSocketPassiveMode(t@),
            Error::InvalidReply(t) => ErrorView::InvalidReply(t@),
            Error::NotImplemented(f) => ErrorView::NotImplemented(*f),
        }
    }
}

/// What the caller is asked to do next.
#[derive(Debug)]
pub enum Action {
    /// Write this line on the control connection, then read one reply line
    /// and hand it to `on_reply`.
    Send(String),
    /// Read one reply line from the control connection and hand it to `on_reply`.
    /// Each reply is one line: continuation lines of a multi-line reply are
    /// not gathered.
    Read,
    /// Open a data connection to this address, then call `on_connected`.
    Connect(SocketAddress),
    /// Read the data connection to its end, close it, and hand the bytes to
    /// `on_received`.
    Receive,
    /// Write these bytes on the data connection, close it, then call
    /// `on_transmitted`.
    Transmit(Vec<u8>),
    /// The operation is over.
    Finish(Result<Outcome, Error>),
}

pub ghost enum ActionView {
    Send(Seq<char>),
    Read,
    Connect(SocketAddress),
    Receive,
    Transmit(Seq<u8>),
    Finish(Result<OutcomeView, ErrorView>),
}

impl View for Action {
    type V = ActionView;

    open spec fn view(&self) -> ActionView {
        match self {
            Action::Send(l) => ActionView::Send(l@),
            Action::Read => ActionView::Read,
            Action::Connect(a) => ActionView::Connect(*a),
            Action::Receive => ActionView::Receive,
            Action::Transmit(d) => ActionView::Transmit(d@),
            Action::Finish(Ok(o)) => ActionView::Finish(Ok(o@)),
            Action::Finish(Err(e)) => ActionView::Finish(Err(e@)),
        }
    }
}

/// What an exchange waits for.
#[derive(Clone, Copy, Debug, PartialEq, Eq, Structural)]
pub enum Awaiting {
    /// `start` has not been called.
    Start,
    /// A reply line, for `on_reply`.
    Reply,
    /// The data connection to be open, for `on_connected`.
    Connection,
    /// The bytes of the data connection, for `on_received`.
    Data,
    /// The payload to be written, for `on_transmitted`.
    Transmitted,
    /// Nothing: the operation is over.
    Nothing,
}

/// The state of an exchange.
pub ghost struct ExchangeView {
    pub steps: Seq<StepView>,
    pub yields: Yield,
    pub mode: ClientMode,
    pub peer: IpAddress,
    pub next: nat,
    pub awaiting: Awaiting,
    pub received: Seq<u8>,
    pub first_message: Option<Seq<char>>,
    pub last_message: Option<Seq<char>>,
    /// The last reply handed over was accepted only because its code is
    /// positive: its kind is not one that the step expected.
    pub lenient: bool,
}

/// The line that asks for a data connection in a passive mode.
pub open spec fn data_request_line(mode: ClientMode) -> Seq<char> {
    if mode == ClientMode::Passive {
        "PASV\r\n"@
    } else {
        "EPSV\r\n"@
    }
}

/// The reply kind that grants a data connection in a passive mode.
pub open spec fn data_request_kinds(mode: ClientMode) -> Seq<StatusCodeKind> {
    if mode == ClientMode::Passive {
        seq![StatusCodeKind::EnteredPassiveMode]
    } else {
        seq![StatusCodeKind::EnteredExtendedPassiveMode]
    }
}

/// The address that the reply message to the data request gives.
pub open spec fn data_address(mode: ClientMode, peer: IpAddress, message: Seq<char>) -> Option<
    SocketAddress,
> {
    if mode == ClientMode::Passive {
        passive_address(message)
    } else {
        match extended_port(message) {
            Some(port) => Some(SocketAddress { ip: peer, port }),
            None => None,
        }
    }
}

/// The kinds that the reply awaited in the current step is accepted for.
pub open spec fn expected_now(ex: ExchangeView) -> Seq<StatusCodeKind> {
    match ex.steps[ex.next as int] {
        StepView::Command(_, kinds) => kinds,
        StepView::Reply(kinds) => kinds,
        _ => data_request_kinds(ex.mode),
    }
}

pub open spec fn listing_error_text() -> Seq<char> {
    "Invalid ASCII returned on server directory listing."@
}

pub open spec fn name_listing_error_text() -> Seq<char> {
    "Invalid ASCII returned on server directory name listing."@
}

pub open spec fn message_or_empty(m: Option<Seq<char>>) -> Seq<char> {
    match m {
        Some(s) => s,
        None => Seq::empty(),
    }
}

/// The result of an exchange whose steps are all done.
pub open spec fn final_result(ex: ExchangeView) -> Result<OutcomeView, ErrorView> {
    match ex.yields {
        Yield::Nothing => Ok(OutcomeView::Done),
        Yield::FirstMessage => Ok(OutcomeView::Message(message_or_empty(ex.first_message))),
        Yield::LastMessage => Ok(OutcomeView::Message(message_or_empty(ex.last_message))),
        Yield::Bytes => Ok(OutcomeView::Bytes(ex.received)),
        Yield::Text => if valid_utf8(ex.received) {
            Ok(OutcomeView::Text(decode_utf8(ex.received)))
        } else {
            Err(ErrorView::SerializationFailed(listing_error_text()))
        },
        Yield::Names => if valid_utf8(ex.received) {
            Ok(OutcomeView::Names(text_lines(decode_utf8(ex.received))))
        } else {
            Err(ErrorView::SerializationFailed(name_listing_error_text()))
        },
    }
}

pub open spec fn finished(ex: ExchangeView, r: Result<OutcomeView, ErrorView>) -> (
    ExchangeView,
    ActionView,
) {
    (ExchangeView { awaiting: Awaiting::Nothing, ..ex }, ActionView::Finish(r))
}

/// Begin the step at `ex.next`, or finish when there is none.
pub open spec fn enter(ex: ExchangeView) -> (ExchangeView, ActionView) {
    if ex.next >= ex.steps.len() {
        finished(ex, final_result(ex))
    } else {
        match ex.steps[ex.next as int] {
            StepView::Command(line, _) => (
                ExchangeView { awaiting: Awaiting::Reply, ..ex },
                ActionView::Send(line),
            ),
            StepView::Reply(_) => (ExchangeView { awaiting: Awaiting::Reply, ..ex }, ActionView::Read),
            StepView::OpenData => if ex.mode == ClientMode::Active {
                finished(ex, Err(ErrorView::NotImplemented(Feature::ActiveMode)))
            } else {
                (
                    ExchangeView { awaiting: Awaiting::Reply, ..ex },
                    ActionView::Send(data_request_line(ex.mode)),
                )
            },
            StepView::Receive => (
                ExchangeView { awaiting: Awaiting::Data, ..ex },
                ActionView::Receive,
            ),
            StepView::Transmit(data) => (
                ExchangeView { awaiting: Awaiting::Transmitted, ..ex },
                ActionView::Transmit(data),
            ),
        }
    }
}

/// Move past the current step.
pub open spec fn advance(ex: ExchangeView) -> (ExchangeView, ActionView) {
    enter(ExchangeView { next: ex.next + 1, ..ex })
}

/// What a reply line does to an exchange that waits for one.
pub open spec fn after_reply(ex: ExchangeView, line: Seq<char>) -> (ExchangeView, ActionView) {
    if !is_reply_line(line) {
        finished(ExchangeView { lenient: false, ..ex }, Err(ErrorView::InvalidReply(line)))
    } else {
        let code = code_prefix_value(line) as u16;
        let message = reply_message(line);
        let status = StatusCode { kind: kind_of(code), code };
        let expected = expected_now(ex);
        if !is_accepted(status, expected) {
            finished(
                ExchangeView { lenient: false, ..ex },
                Err(ErrorView::UnexpectedStatusCode(summary_text(code, message, expected))),
            )
        } else if ex.steps[ex.next as int] is OpenData {
            match data_address(ex.mode, ex.peer, message) {
                Some(addr) => (
                    ExchangeView {
                        awaiting: Awaiting::Connection,
                        lenient: !expected.contains(status.kind),
                        ..ex
                    },
                    ActionView::Connect(addr),
                ),
                None => finished(
                    ExchangeView { lenient: !expected.contains(status.kind), ..ex },
                    Err(ErrorView::InvalidSocketPassiveMode(passive_error_text(message))),
                ),
            }
        } else {
            advance(
                ExchangeView {
                    first_message: if ex.first_message is None {
                        Some(message)
                    } else {
                        ex.first_message
                    },
                    last_message: Some(message),
                    lenient: !expected.contains(status.kind),
                    ..ex
                },
            )
        }
    }
}

/// What the bytes of the data connection do to an exchange that waits for them.
pub open spec fn after_received(ex: ExchangeView, data: Seq<u8>) -> (ExchangeView, ActionView) {
    advance(ExchangeView { received: data, ..ex })
}

/// A fresh exchange over `steps`.
pub open spec fn fresh(
    steps: Seq<StepView>,
    yields: Yield,
    mode: ClientMode,
    peer: IpAddress,
) -> ExchangeView {
    ExchangeView {
        steps,
        yields,
        mode,
        peer,
        next: 0,
        awaiting: Awaiting::Start,
        received: Seq::empty(),
        first_message: None,
        last_message: None,
        lenient: false,
    }
}

/// A composite operation in progress.
pub struct Exchange {
    steps: Vec<Step>,
    yields: Yield,
    mode: ClientMode,
    peer: IpAddress,
    next: usize,
    awaiting: Awaiting,
    received: Vec<u8>,
    first_message: Option<String>,
    last_message: Option<String>,
    lenient: bool,
}

pub open spec fn opt_view(m: Option<String>) -> Option<Seq<char>> {
    match m {
        Some(s) => Some(s@),
        None => None,
    }
}

impl View for Exchange {
    type V = ExchangeView;

    closed spec fn view(&self) -> ExchangeView {
        ExchangeView {
            steps: self.steps@.map_values(|s: Step| s@),
            yields: self.yields,
            mode: self.mode,
            peer: self.peer,
            next: self.next as nat,
            awaiting: self.awaiting,
            received: self.received@,
            first_message: opt_view(self.first_message),
            last_message: opt_view(self.last_message),
            lenient: self.lenient,
        }
    }
}

/// The state is one that the exchange's methods can be in.
pub open spec fn consistent(ex: ExchangeView) -> bool {
    &&& ex.next <= ex.steps.len()
    &&& (ex.awaiting == Awaiting::Start ==> ex.next == 0)
    &&& (ex.awaiting == Awaiting::Reply ==> ex.next < ex.steps.len() && (
    ex.steps[ex.next as int] is Command || ex.steps[ex.next as int] is Reply || (
    ex.steps[ex.next as int] is OpenData && ex.mode != ClientMode::Active)))
    &&& (ex.awaiting == Awaiting::Connection ==> ex.next < ex.steps.len()
        && ex.steps[ex.next as int] is OpenData)
    &&& (ex.awaiting == Awaiting::Data ==> ex.next < ex.steps.len()
        && ex.steps[ex.next as int] is Receive)
    &&& (ex.awaiting == Awaiting::Transmitted ==> ex.next < ex.steps.len()
        && ex.steps[ex.next as int] is Transmit)
}

impl Exchange {
    /// A fresh exchange over `steps`, for a client in `mode` whose control
    /// connection leads to `peer`.
    pub fn new(steps: Vec<Step>, yields: Yield, mode: ClientMode, peer: IpAddress) -> (r: Exchange)
        ensures
            r@ == fresh(steps@.map_values(|s: Step| s@), yields, mode, peer),
            consistent(r@),
    {
        let r = Exchange {
            steps,
            yields,
            mode,
            peer,
            next: 0,
            awaiting: Awaiting::Start,
            received: Vec::new(),
            first_message: None,
            last_message: None,
            lenient: false,
        };
        assert(r@.received =~= Seq::<u8>::empty());
        r
    }

    /// Whether the last reply handed to `on_reply` was accepted only because
    /// its code is positive, its kind not being one that the step expected.
    /// A caller may want to log such replies.
    pub fn last_reply_lenient(&self) -> (r: bool)
        ensures
            r == self@.lenient,
    {
        self.lenient
    }

    /// What the exchange waits for.
    pub fn awaiting(&self) -> (r: Awaiting)
        ensures
            r == self@.awaiting,
    {
        self.awaiting
    }

    fn finish(&mut self, r: Result<Outcome, Error>) -> (a: Action)
        ensures
            final(self)@ == (ExchangeView { awaiting: Awaiting::Nothing, ..old(self)@ }),
            a == Action::Finish(r),
    {
        self.awaiting = Awaiting::Nothing;
        Action::Finish(r)
    }

    fn final_outcome(&mut self) -> (r: Result<Outcome, Error>)
        requires
            old(self).next >= old(self).steps.len(),
        ensures
            final(self)@ == (ExchangeView { awaiting: final(self)@.awaiting, ..old(self)@ }),
            final(self)@.awaiting == old(self)@.awaiting,
            match r {
                Ok(o) => final_result(old(self)@) == Ok::<OutcomeView, ErrorView>(o@),
                Err(e) => final_result(old(self)@) == Err::<OutcomeView, ErrorView>(e@),
            },
    {
        match self.yields {
            Yield::Nothing => Ok(Outcome::Done),
            Yield::FirstMessage => Ok(Outcome::Message(take_message(&self.first_message))),
            Yield::LastMessage => Ok(Outcome::Message(take_message(&self.last_message))),
            Yield::Bytes => Ok(Outcome::Bytes(self.received.clone())),
            Yield::Text => match string_from_utf8(self.received.clone()) {
                Some(t) => Ok(Outcome::Text(t)),
                None => Err(
                    Error::SerializationFailed(
                        String::from_str("Invalid ASCII returned on server directory listing."),
                    ),
                ),
            },
            Yield::Names => match string_from_utf8(self.received.clone()) {
                Some(t) => {
                    let names = lines_of(t.as_str());
                    Ok(Outcome::Names(names))
                },
                None => Err(
                    Error::SerializationFailed(
                        String::from_str(
                            "Invalid ASCII returned on server directory name listing.",
                        ),
                    ),
                ),
            },
        }
    }

    /// Begin the step at `next`.
    fn enter(&mut self) -> (a: Action)
        requires
            old(self).next <= old(self).steps.len(),
        ensures
            (final(self)@, a@) == enter(old(self)@),
    {
        if self.next >= self.steps.len() {
            let r = self.final_outcome();
            return self.finish(r);
        }
        match &self.steps[self.next] {
            Step::Command { line, expected: _ } => {
                let l = line.clone();
                self.awaiting = Awaiting::Reply;
                Action::Send(l)
            },
            Step::Reply { expected: _ } => {
                self.awaiting = Awaiting::Reply;
                Action::Read
            },
            Step::OpenData => match self.mode {
                ClientMode::Active => self.finish(Err(Error::NotImplemented(Feature::ActiveMode))),
                ClientMode::Passive => {
                    self.awaiting = Awaiting::Reply;
                    Action::Send(String::from_str("PASV\r\n"))
                },
                ClientMode::ExtendedPassive => {
                    self.awaiting = Awaiting::Reply;
                    Action::Send(String::from_str("EPSV\r\n"))
                },
            },
            Step::Receive => {
                self.awaiting = Awaiting::Data;
                Action::Receive
            },
            Step::Transmit(data) => {
                let d = data.clone();
                self.awaiting = Awaiting::Transmitted;
                Action::Transmit(d)
            },
        }
    }

    /// The kinds that the awaited reply is accepted for.
    fn expected_now(&self) -> (r: Vec<StatusCodeKind>)
        requires
            self.next < self.steps.len(),
        ensures
            r@ == expected_now(self@),
    {
        match &self.steps[self.next] {
            Step::Command { line: _, expected } => expected.clone(),
            Step::Reply { expected } => expected.clone(),
            _ => match self.mode {
                ClientMode::Passive => vec![StatusCodeKind::EnteredPassiveMode],
                _ => vec![StatusCodeKind::EnteredExtendedPassiveMode],
            },
        }
    }

    /// Hand over the reply line that the last action read.
    pub fn on_reply(&mut self, line: &str) -> (a: Action)
        requires
            old(self)@.awaiting == Awaiting::Reply,
            consistent(old(self)@),
        ensures
            (final(self)@, a@) == after_reply(old(self)@, line@),
            consistent(final(self)@),
    {
        self.lenient = false;
        let expected = self.expected_now();
        let response = match parse_reply_expecting(line, expected) {
            Ok(r) => r,
            Err(e) => return self.finish(Err(e)),
        };
        let lenient = !contains_kind(&self.expected_now(), response.status_code.kind);
        self.lenient = lenient;
        if let Step::OpenData = &self.steps[self.next] {
            let decoded = match self.mode {
                ClientMode::Passive => decode_passive_mode_ip(response.message.as_str()),
                _ => decode_extended_passive_mode_socket(response.message.as_str(), self.peer),
            };
            match decoded {
                Ok(addr) => {
                    self.awaiting = Awaiting::Connection;
                    Action::Connect(addr)
                },
                Err(e) => self.finish(Err(e)),
            }
        } else {
            if self.first_message.is_none() {
                self.first_message = Some(response.message.clone());
            }
            self.last_message = Some(response.message);
            assert(self@.next == self.next as nat);
        assert(self.next < self.steps.len());
            self.next = self.next + 1;
            self.enter()
        }
    }

    /// Report that the data connection is open.
    pub fn on_connected(&mut self) -> (a: Action)
        requires
            old(self)@.awaiting == Awaiting::Connection,
            consistent(old(self)@),
        ensures
            (final(self)@, a@) == advance(old(self)@),
            consistent(final(self)@),
    {
        assert(self@.next == self.next as nat);
        assert(self.next < self.steps.len());
        self.next = self.next + 1;
        self.enter()
    }

    /// Hand over the bytes read from the data connection, which is now closed.
    pub fn on_received(&mut self, data: Vec<u8>) -> (a: Action)
        requires
            old(self)@.awaiting == Awaiting::Data,
            consistent(old(self)@),
        ensures
            (final(self)@, a@) == after_received(old(self)@, data@),
            consistent(final(self)@),
    {
        self.received = data;
        assert(self@.next == self.next as nat);
        assert(self.next < self.steps.len());
        self.next = self.next + 1;
        self.enter()
    }

    /// Report that the payload is written and the data connection closed.
    pub fn on_transmitted(&mut self) -> (a: Action)
        requires
            old(self)@.awaiting == Awaiting::Transmitted,
            consistent(old(self)@),
        ensures
            (final(self)@, a@) == advance(old(self)@),
            consistent(final(self)@),
    {
        assert(self@.next == self.next as nat);
        assert(self.next < self.steps.len());
        self.next = self.next + 1;
        self.enter()
    }

    /// Take the first action.
    pub fn start(&mut self) -> (a: Action)
        requires
            old(self)@.awaiting == Awaiting::Start,
            consistent(old(self)@),
        ensures
            (final(self)@, a@) == enter(old(self)@),
            consistent(final(self)@),
    {
        self.enter()
    }
}

fn take_message(m: &Option<String>) -> (r: String)
    ensures
        r@ == message_or_empty(opt_view(*m)),
{
    match m {
        Some(s) => s.clone(),
        None => String::new(),
    }
}

} // verus!
