//! The client session and its operations. Each operation is a plan of steps
//! run by an `Exchange`; the contracts below give each plan exactly: the
//! lines written, the reply kinds accepted, and where the data connection
//! comes in.
use vstd::prelude::*;

pub use crate::exchange::ClientMode;
pub use crate::reply::ServerResponse;

use crate::address::IpAddress;
use crate::error::{Error, Feature};
use crate::exchange::{
    advance, after_received, after_reply, consistent, enter, expected_now, fresh, ActionView,
    Awaiting, ErrorView, Exchange, ExchangeView, OutcomeView, Step, StepView, Yield,
};
use crate::reply::{is_accepted, is_reply_line, reply_message, summary_text};
use crate::status_code::{code_prefix_value, kind_of, StatusCode, StatusCodeKind};

verus! {

/// A command line without argument: `VERB\r\n`.
pub open spec fn command_line(cmd: Seq<char>) -> Seq<char> {
    cmd + "\r\n"@
}

/// A command line with one argument: `VERB ARGUMENT\r\n`.
pub open spec fn unary_command_line(cmd: Seq<char>, arg: Seq<char>) -> Seq<char> {
    cmd + " "@ + arg + "\r\n"@
}

/// The preliminary replies that a transfer command is accepted for.
pub open spec fn transfer_kinds() -> Seq<StatusCodeKind> {
    seq![StatusCodeKind::TransferStarted, StatusCodeKind::TransferAboutToStart]
}

/// The completion reply of most transfers.
pub open spec fn completion_kinds() -> Seq<StatusCodeKind> {
    seq![StatusCodeKind::RequestActionCompleted]
}

/// A download: open the data connection, send the command, drain the data
/// connection, and only then read the completion reply.
pub open spec fn download(command: StepView) -> Seq<StepView> {
    seq![StepView::OpenData, command, StepView::Receive, StepView::Reply(completion_kinds())]
}

/// An upload: open the data connection, send the command, write the payload
/// and close the data connection, and only then read the completion reply.
pub open spec fn upload(command: StepView, data: Seq<u8>, completion: Seq<StatusCodeKind>) -> Seq<
    StepView,
> {
    seq![StepView::OpenData, command, StepView::Transmit(data), StepView::Reply(completion)]
}

/// Render a command without argument.
pub fn write_command(cmd: &str) -> (r: String)
    ensures
        r@ == command_line(cmd@),
{
    let mut s = String::from_str(cmd);
    s.append("\r\n");
    s
}

/// Render a command with one argument.
pub fn write_unary_command(cmd: &str, arg: &str) -> (r: String)
    ensures
        r@ == unary_command_line(cmd@, arg@),
{
    let mut s = String::from_str(cmd);
    s.append(" ");
    s.append(arg);
    s.append("\r\n");
    s
}

/// The step that sends a command without argument and accepts its reply
/// for `valid_statuses`.
pub fn write_command_expecting(cmd: &str, valid_statuses: Vec<StatusCodeKind>) -> (r: Step)
    ensures
        r@ == StepView::Command(command_line(cmd@), valid_statuses@),
{
    Step::Command { line: write_command(cmd), expected: valid_statuses }
}

/// The step that sends a command with one argument and accepts its reply
/// for `valid_statuses`.
pub fn write_unary_command_expecting(
    cmd: &str,
    arg: &str,
    valid_statuses: Vec<StatusCodeKind>,
) -> (r: Step)
    ensures
        r@ == StepView::Command(unary_command_line(cmd@, arg@), valid_statuses@),
{
    Step::Command { line: write_unary_command(cmd, arg), expected: valid_statuses }
}

fn only(k: StatusCodeKind) -> (r: Vec<StatusCodeKind>)
    ensures
        r@ == seq![k],
{
    let r = vec![k];
    assert(r@ =~= seq![k]);
    r
}

fn transfer_statuses() -> (r: Vec<StatusCodeKind>)
    ensures
        r@ == transfer_kinds(),
{
    vec![StatusCodeKind::TransferStarted, StatusCodeKind::TransferAboutToStart]
}

fn completion_statuses() -> (r: Vec<StatusCodeKind>)
    ensures
        r@ == completion_kinds(),
{
    only(StatusCodeKind::RequestActionCompleted)
}

pub open spec fn step_views(steps: Seq<Step>) -> Seq<StepView> {
    steps.map_values(|s: Step| s@)
}

fn one_step(a: Step) -> (r: Vec<Step>)
    ensures
        step_views(r@) == seq![a@],
{
    let r = vec![a];
    assert(step_views(r@) =~= seq![a@]);
    r
}

fn two_steps(a: Step, b: Step) -> (r: Vec<Step>)
    ensures
        step_views(r@) == seq![a@, b@],
{
    let r = vec![a, b];
    assert(step_views(r@) =~= seq![a@, b@]);
    r
}

fn three_steps(a: Step, b: Step, c: Step) -> (r: Vec<Step>)
    ensures
        step_views(r@) == seq![a@, b@, c@],
{
    let r = vec![a, b, c];
    assert(step_views(r@) =~= seq![a@, b@, c@]);
    r
}

fn four_steps(a: Step, b: Step, c: Step, d: Step) -> (r: Vec<Step>)
    ensures
        step_views(r@) == seq![a@, b@, c@, d@],
{
    let r = vec![a, b, c, d];
    assert(step_views(r@) =~= seq![a@, b@, c@, d@]);
    r
}

/// The session state that outlives single operations.
pub ghost struct ClientView {
    pub mode: ClientMode,
    pub peer: IpAddress,
    pub welcome: Option<Seq<char>>,
}

/// A logged-in session: the data-connection mode, the address of the server
/// at the other end of the control connection, and the greeting it sent.
pub struct Client {
    mode: ClientMode,
    peer: IpAddress,
    welcome_string: Option<String>,
}

impl View for Client {
    type V = ClientView;

    closed spec fn view(&self) -> ClientView {
        ClientView {
            mode: self.mode,
            peer: self.peer,
            welcome: match self.welcome_string {
                Some(w) => Some(w@),
                None => None,
            },
        }
    }
}

/// A fresh exchange of this client over `steps`.
pub open spec fn plan(c: ClientView, steps: Seq<StepView>, yields: Yield) -> ExchangeView {
    fresh(steps, yields, c.mode, c.peer)
}

/// The exchange of `PWD`.
pub open spec fn pwd_plan(c: ClientView) -> ExchangeView {
    plan(
        c,
        seq![StepView::Command(command_line("PWD"@), seq![StatusCodeKind::PathCreated])],
        Yield::LastMessage,
    )
}

/// The answer to `PWD` that a reply line gives.
pub open spec fn pwd_answer(line: Seq<char>) -> ActionView {
    let code = code_prefix_value(line) as u16;
    let message = reply_message(line);
    let expected = seq![StatusCodeKind::PathCreated];
    if !is_reply_line(line) {
        ActionView::Finish(Err(ErrorView::InvalidReply(line)))
    } else if !is_accepted(StatusCode { kind: kind_of(code), code }, expected) {
        ActionView::Finish(
            Err(
                ErrorView::UnexpectedStatusCode(
                    summary_text(code, message, expected),
                ),
            ),
        )
    } else {
        ActionView::Finish(Ok(OutcomeView::Message(message)))
    }
}

/// Asking twice for the working directory gives the same path when the
/// server answers the same way: the exchange writes `PWD` and nothing else,
/// `Client::pwd` leaves the client as it was, and what the exchange returns
/// depends on the reply line alone, whatever the client's mode and peer.
pub proof fn lemma_pwd_repeatable(c1: ClientView, c2: ClientView, line: Seq<char>)
    ensures
        enter(pwd_plan(c1)).1 == ActionView::Send(command_line("PWD"@)),
        after_reply(enter(pwd_plan(c1)).0, line).1 == pwd_answer(line),
        after_reply(enter(pwd_plan(c1)).0, line).1 == after_reply(enter(pwd_plan(c2)).0, line).1,
{
}

/// In a download, the completion reply is read only after the data
/// connection has been drained: while the data step is pending the exchange
/// waits for the received bytes and nothing else, and once they are handed
/// over its next action reads the completion reply.
pub proof fn lemma_download_order(command: StepView, ex: ExchangeView, data: Seq<u8>)
    requires
        ex.steps == download(command),
        consistent(ex),
        ex.next == 2,
        ex.awaiting != Awaiting::Nothing,
    ensures
        ex.awaiting == Awaiting::Data,
        after_received(ex, data).1 == ActionView::Read,
        after_received(ex, data).0.awaiting == Awaiting::Reply,
        after_received(ex, data).0.received == data,
        expected_now(after_received(ex, data).0) == completion_kinds(),
{
}

/// In an upload, the completion reply is read only after the payload has
/// been written and the data connection closed: while the data step is
/// pending the exchange waits for that report and nothing else, and once it
/// comes its next action reads the completion reply.
pub proof fn lemma_upload_order(
    command: StepView,
    payload: Seq<u8>,
    completion: Seq<StatusCodeKind>,
    ex: ExchangeView,
)
    requires
        ex.steps == upload(command, payload, completion),
        consistent(ex),
        ex.next == 2,
        ex.awaiting != Awaiting::Nothing,
    ensures
        ex.awaiting == Awaiting::Transmitted,
        advance(ex).1 == ActionView::Read,
        advance(ex).0.awaiting == Awaiting::Reply,
        expected_now(advance(ex).0) == completion,
{
}

impl Client {
    /// A session over a control connection to `peer` whose greeting was
    /// `welcome`. Data connections use extended passive mode until
    /// `set_mode` says otherwise.
    pub fn new(peer: IpAddress, welcome: String) -> (r: Client)
        ensures
            r@ == (ClientView {
                mode: ClientMode::ExtendedPassive,
                peer,
                welcome: Some(welcome@),
            }),
    {
        Client { mode: ClientMode::ExtendedPassive, peer, welcome_string: Some(welcome) }
    }

    /// The exchange that opens a session: read the greeting, which must be
    /// `ReadyForNewUser` (or positive), then log in. It yields the greeting's
    /// message.
    pub fn handshake(peer: IpAddress, user: &str, password: &str) -> (r: Exchange)
        ensures
            r@ == fresh(
                seq![
                    StepView::Reply(seq![StatusCodeKind::ReadyForNewUser]),
                    StepView::Command(
                        unary_command_line("USER"@, user@),
                        seq![StatusCodeKind::PasswordRequired],
                    ),
                    StepView::Command(
                        unary_command_line("PASS"@, password@),
                        seq![StatusCodeKind::UserLoggedIn],
                    ),
                ],
                Yield::FirstMessage,
                ClientMode::ExtendedPassive,
                peer,
            ),
    {
        let steps = three_steps(
            Step::Reply { expected: only(StatusCodeKind::ReadyForNewUser) },
            write_unary_command_expecting("USER", user, only(StatusCodeKind::PasswordRequired)),
            write_unary_command_expecting("PASS", password, only(StatusCodeKind::UserLoggedIn)),
        );
        Exchange::new(steps, Yield::FirstMessage, ClientMode::ExtendedPassive, peer)
    }

    /// Set the mode for data connections.
    pub fn set_mode(&mut self, mode: ClientMode)
        ensures
            final(self)@ == (ClientView { mode, ..old(self)@ }),
    {
        self.mode = mode
    }

    /// The mode for data connections.
    pub fn mode(&self) -> (r: ClientMode)
        ensures
            r == self@.mode,
    {
        self.mode
    }

    /// The address of the server at the other end of the control connection.
    pub fn peer(&self) -> (r: IpAddress)
        ensures
            r == self@.peer,
    {
        self.peer
    }

    /// The greeting that the server sent when the session was opened.
    pub fn get_welcome(&self) -> (r: Option<&String>)
        ensures
            match r {
                Some(w) => self@.welcome == Some(w@),
                None => self@.welcome is None,
            },
    {
        self.welcome_string.as_ref()
    }

    fn exchange(&self, steps: Vec<Step>, yields: Yield) -> (r: Exchange)
        ensures
            r@ == plan(self@, step_views(steps@), yields),
    {
        Exchange::new(steps, yields, self.mode, self.peer)
    }

    /// Log in: `USER`, then `PASS`.
    pub fn login(&self, user: &str, password: &str) -> (r: Exchange)
        ensures
            r@ == plan(
                self@,
                seq![
                    StepView::Command(
                        unary_command_line("USER"@, user@),
                        seq![StatusCodeKind::PasswordRequired],
                    ),
                    StepView::Command(
                        unary_command_line("PASS"@, password@),
                        seq![StatusCodeKind::UserLoggedIn],
                    ),
                ],
                Yield::Nothing,
            ),
    {
        let steps = two_steps(
            write_unary_command_expecting("USER", user, only(StatusCodeKind::PasswordRequired)),
            write_unary_command_expecting("PASS", password, only(StatusCodeKind::UserLoggedIn)),
        );
        self.exchange(steps, Yield::Nothing)
    }

    /// Log out: `QUIT`.
    pub fn logout(&self) -> (r: Exchange)
        ensures
            r@ == plan(
                self@,
                seq![
                    StepView::Command(
                        command_line("QUIT"@),
                        seq![StatusCodeKind::ClosingControlConnection],
                    ),
                ],
                Yield::Nothing,
            ),
    {
        let steps = one_step(
            write_command_expecting("QUIT", only(StatusCodeKind::ClosingControlConnection)),
        );
        self.exchange(steps, Yield::Nothing)
    }

    /// Change the working directory: `CWD dir`.
    pub fn cwd(&self, dir: &str) -> (r: Exchange)
        ensures
            r@ == plan(
                self@,
                seq![
                    StepView::Command(
                        unary_command_line("CWD"@, dir@),
                        seq![StatusCodeKind::RequestFileActionCompleted],
                    ),
                ],
                Yield::Nothing,
            ),
    {
        let steps = one_step(
            write_unary_command_expecting(
                "CWD",
                dir,
                only(StatusCodeKind::RequestFileActionCompleted),
            ),
        );
        self.exchange(steps, Yield::Nothing)
    }

    /// Go up to the parent directory: `CDUP`.
    pub fn cdup(&self) -> (r: Exchange)
        ensures
            r@ == plan(
                self@,
                seq![
                    StepView::Command(
                        command_line("CDUP"@),
                        seq![StatusCodeKind::RequestFileActionCompleted],
                    ),
                ],
                Yield::Nothing,
            ),
    {
        let steps = one_step(
            write_command_expecting("CDUP", only(StatusCodeKind::RequestFileActionCompleted)),
        );
        self.exchange(steps, Yield::Nothing)
    }

    /// Ask the server for help: `HELP`.
    pub fn help(&self) -> (r: Exchange)
        ensures
            r@ == plan(
                self@,
                seq![
                    StepView::Command(
                        command_line("HELP"@),
                        seq![StatusCodeKind::SystemStatus, StatusCodeKind::HelpMessage],
                    ),
                ],
                Yield::Nothing,
            ),
    {
        let steps = one_step(
            write_command_expecting(
                "HELP",
                vec![StatusCodeKind::SystemStatus, StatusCodeKind::HelpMessage],
            ),
        );
        self.exchange(steps, Yield::Nothing)
    }

    /// Do nothing but get an answer: `NOOP`.
    pub fn noop(&self) -> (r: Exchange)
        ensures
            r@ == plan(
                self@,
                seq![StepView::Command(command_line("NOOP"@), seq![StatusCodeKind::CommandOk])],
                Yield::Nothing,
            ),
    {
        let steps = one_step(write_command_expecting("NOOP", only(StatusCodeKind::CommandOk)));
        self.exchange(steps, Yield::Nothing)
    }

    /// Transfer as ASCII text: `TYPE A`.
    pub fn ascii(&self) -> (r: Exchange)
        ensures
            r@ == plan(
                self@,
                seq![
                    StepView::Command(
                        unary_command_line("TYPE"@, "A"@),
                        seq![StatusCodeKind::CommandOk],
                    ),
                ],
                Yield::Nothing,
            ),
    {
        let steps = one_step(
            write_unary_command_expecting("TYPE", "A", only(StatusCodeKind::CommandOk)),
        );
        self.exchange(steps, Yield::Nothing)
    }

    /// Transfer as raw bytes: `TYPE I`.
    pub fn binary(&self) -> (r: Exchange)
        ensures
            r@ == plan(
                self@,
                seq![
                    StepView::Command(
                        unary_command_line("TYPE"@, "I"@),
                        seq![StatusCodeKind::CommandOk],
                    ),
                ],
                Yield::Nothing,
            ),
    {
        let steps = one_step(
            write_unary_command_expecting("TYPE", "I", only(StatusCodeKind::CommandOk)),
        );
        self.exchange(steps, Yield::Nothing)
    }

    /// The server's status: `STAT`; yields the reply's message.
    pub fn status(&self) -> (r: Exchange)
        ensures
            r@ == plan(
                self@,
                seq![StepView::Command(command_line("STAT"@), seq![StatusCodeKind::SystemStatus])],
                Yield::LastMessage,
            ),
    {
        let steps = one_step(write_command_expecting("STAT", only(StatusCodeKind::SystemStatus)));
        self.exchange(steps, Yield::LastMessage)
    }

    /// List a path in the server's own format: `LIST path`; yields the text.
    pub fn list(&self, path: &str) -> (r: Exchange)
        ensures
            r@ == plan(
                self@,
                download(StepView::Command(unary_command_line("LIST"@, path@), transfer_kinds())),
                Yield::Text,
            ),
    {
        let steps = four_steps(
            Step::OpenData,
            write_unary_command_expecting("LIST", path, transfer_statuses()),
            Step::Receive,
            Step::Reply { expected: completion_statuses() },
        );
        self.exchange(steps, Yield::Text)
    }

    /// List the names under a path: `NLST path`; yields one name per line.
    pub fn list_names(&self, path: &str) -> (r: Exchange)
        ensures
            r@ == plan(
                self@,
                download(StepView::Command(unary_command_line("NLST"@, path@), transfer_kinds())),
                Yield::Names,
            ),
    {
        let steps = four_steps(
            Step::OpenData,
            write_unary_command_expecting("NLST", path, transfer_statuses()),
            Step::Receive,
            Step::Reply { expected: completion_statuses() },
        );
        self.exchange(steps, Yield::Names)
    }

    /// Download a file: `RETR path`; yields its bytes.
    pub fn retrieve_file(&self, path: &str) -> (r: Exchange)
        ensures
            r@ == plan(
                self@,
                download(
                    StepView::Command(
                        unary_command_line("RETR"@, path@),
                        seq![StatusCodeKind::TransferAboutToStart, StatusCodeKind::TransferStarted],
                    ),
                ),
                Yield::Bytes,
            ),
    {
        let steps = four_steps(
            Step::OpenData,
            write_unary_command_expecting(
                "RETR",
                path,
                vec![StatusCodeKind::TransferAboutToStart, StatusCodeKind::TransferStarted],
            ),
            Step::Receive,
            Step::Reply { expected: completion_statuses() },
        );
        self.exchange(steps, Yield::Bytes)
    }

    /// Store a file: `STOR path`, then the bytes.
    pub fn store(&self, path: &str, data: Vec<u8>) -> (r: Exchange)
        ensures
            r@ == plan(
                self@,
                upload(
                    StepView::Command(unary_command_line("STOR"@, path@), transfer_kinds()),
                    data@,
                    completion_kinds(),
                ),
                Yield::Nothing,
            ),
    {
        let steps = four_steps(
            Step::OpenData,
            write_unary_command_expecting("STOR", path, transfer_statuses()),
            Step::Transmit(data),
            Step::Reply { expected: completion_statuses() },
        );
        self.exchange(steps, Yield::Nothing)
    }

    /// Store a file under a name that the server picks: `STOU`, then the
    /// bytes; yields the completion reply's message, which names the file.
    pub fn store_unique(&self, data: Vec<u8>) -> (r: Exchange)
        ensures
            r@ == plan(
                self@,
                upload(
                    StepView::Command(command_line("STOU"@), transfer_kinds()),
                    data@,
                    completion_kinds(),
                ),
                Yield::LastMessage,
            ),
    {
        let steps = four_steps(
            Step::OpenData,
            write_command_expecting("STOU", transfer_statuses()),
            Step::Transmit(data),
            Step::Reply { expected: completion_statuses() },
        );
        self.exchange(steps, Yield::LastMessage)
    }

    /// Append to a file, or create it: `APPE path`, then the bytes.
    pub fn append(&self, path: &str, data: Vec<u8>) -> (r: Exchange)
        ensures
            r@ == plan(
                self@,
                upload(
                    StepView::Command(unary_command_line("APPE"@, path@), transfer_kinds()),
                    data@,
                    seq![
                        StatusCodeKind::RequestActionCompleted,
                        StatusCodeKind::RequestFileActionCompleted,
                    ],
                ),
                Yield::Nothing,
            ),
    {
        let steps = four_steps(
            Step::OpenData,
            write_unary_command_expecting("APPE", path, transfer_statuses()),
            Step::Transmit(data),
            Step::Reply {
                expected: vec![
                    StatusCodeKind::RequestActionCompleted,
                    StatusCodeKind::RequestFileActionCompleted,
                ],
            },
        );
        self.exchange(steps, Yield::Nothing)
    }

    /// Restarting a transfer is not provided.
    pub fn restart(&self) -> (r: Result<(), Error>)
        ensures
            r matches Err(Error::NotImplemented(Feature::Restart)),
    {
        Err(Error::NotImplemented(Feature::Restart))
    }

    /// Aborting a transfer is not provided.
    pub fn abort(&self) -> (r: Result<(), Error>)
        ensures
            r matches Err(Error::NotImplemented(Feature::Abort)),
    {
        Err(Error::NotImplemented(Feature::Abort))
    }

    /// Allocating space on the server is not provided.
    pub fn allocate(&self, logical_size: usize, logical_page_size: Option<usize>) -> (r: Result<
        (),
        Error,
    >)
        ensures
            r matches Err(Error::NotImplemented(Feature::Allocate)),
    {
        Err(Error::NotImplemented(Feature::Allocate))
    }

    /// Rename a file: `RNFR from`, then `RNTO to`.
    pub fn rename_file(&self, path_from: &str, path_to: &str) -> (r: Exchange)
        ensures
            r@ == plan(
                self@,
                seq![
                    StepView::Command(
                        unary_command_line("RNFR"@, path_from@),
                        seq![StatusCodeKind::RequestActionPending],
                    ),
                    StepView::Command(
                        unary_command_line("RNTO"@, path_to@),
                        seq![StatusCodeKind::RequestFileActionCompleted],
                    ),
                ],
                Yield::Nothing,
            ),
    {
        let steps = two_steps(
            write_unary_command_expecting(
                "RNFR",
                path_from,
                only(StatusCodeKind::RequestActionPending),
            ),
            write_unary_command_expecting(
                "RNTO",
                path_to,
                only(StatusCodeKind::RequestFileActionCompleted),
            ),
        );
        self.exchange(steps, Yield::Nothing)
    }

    /// Remove a directory: `RMD dir`.
    pub fn remove_directory(&self, dir_path: &str) -> (r: Exchange)
        ensures
            r@ == plan(
                self@,
                seq![
                    StepView::Command(
                        unary_command_line("RMD"@, dir_path@),
                        seq![StatusCodeKind::RequestFileActionCompleted],
                    ),
                ],
                Yield::Nothing,
            ),
    {
        let steps = one_step(
            write_unary_command_expecting(
                "RMD",
                dir_path,
                only(StatusCodeKind::RequestFileActionCompleted),
            ),
        );
        self.exchange(steps, Yield::Nothing)
    }

    /// Make a directory: `MKD dir`.
    pub fn make_directory(&self, dir_path: &str) -> (r: Exchange)
        ensures
            r@ == plan(
                self@,
                seq![
                    StepView::Command(
                        unary_command_line("MKD"@, dir_path@),
                        seq![StatusCodeKind::PathCreated],
                    ),
                ],
                Yield::Nothing,
            ),
    {
        let steps = one_step(
            write_unary_command_expecting("MKD", dir_path, only(StatusCodeKind::PathCreated)),
        );
        self.exchange(steps, Yield::Nothing)
    }

    /// The working directory: `PWD`; yields the reply's message.
    pub fn pwd(&self) -> (r: Exchange)
        ensures
            r@ == pwd_plan(self@),
    {
        let steps = one_step(write_command_expecting("PWD", only(StatusCodeKind::PathCreated)));
        self.exchange(steps, Yield::LastMessage)
    }

    /// Services specific to the server: `SITE`; yields the reply's message.
    pub fn site_parameters(&self) -> (r: Exchange)
        ensures
            r@ == plan(
                self@,
                seq![
                    StepView::Command(
                        command_line("SITE"@),
                        seq![StatusCodeKind::CommandOk, StatusCodeKind::FeatureNotImplemented],
                    ),
                ],
                Yield::LastMessage,
            ),
    {
        let steps = one_step(
            write_command_expecting(
                "SITE",
                vec![StatusCodeKind::CommandOk, StatusCodeKind::FeatureNotImplemented],
            ),
        );
        self.exchange(steps, Yield::LastMessage)
    }

    /// The server's operating system: `SYST`; yields the reply's message.
    pub fn system(&self) -> (r: Exchange)
        ensures
            r@ == plan(
                self@,
                seq![
                    StepView::Command(command_line("SYST"@), seq![StatusCodeKind::NameSystemType]),
                ],
                Yield::LastMessage,
            ),
    {
        let steps = one_step(write_command_expecting("SYST", only(StatusCodeKind::NameSystemType)));
        self.exchange(steps, Yield::LastMessage)
    }

    /// Delete a file: `DELE path`.
    pub fn delete_file(&self, dir_path: &str) -> (r: Exchange)
        ensures
            r@ == plan(
                self@,
                seq![
                    StepView::Command(
                        unary_command_line("DELE"@, dir_path@),
                        seq![StatusCodeKind::RequestFileActionCompleted],
                    ),
                ],
                Yield::Nothing,
            ),
    {
        let steps = one_step(
            write_unary_command_expecting(
                "DELE",
                dir_path,
                only(StatusCodeKind::RequestFileActionCompleted),
            ),
        );
        self.exchange(steps, Yield::Nothing)
    }
}

} // verus!
