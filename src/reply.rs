//! One server reply: its status code and message, and whether a command
//! accepts it.
use vstd::prelude::*;

use crate::error::Error;
use crate::status_code::{
    code_prefix_value, has_code_prefix, is_negative, is_positive, kind_of, StatusCode,
    StatusCodeKind,
};
use crate::text::{chars_of, decimal_text, push_decimal, string_of, trim_bounds, trimmed};

verus! {

/// The name of a kind, as diagnostics print it.
pub open spec fn kind_name(k: StatusCodeKind) -> Seq<char> {
    match k {
        StatusCodeKind::TransferStarted => "TransferStarted"@,
        StatusCodeKind::TransferAboutToStart => "TransferAboutToStart"@,
        StatusCodeKind::CommandOk => "CommandOk"@,
        StatusCodeKind::FeatureNotImplemented => "FeatureNotImplemented"@,
        StatusCodeKind::SystemStatus => "SystemStatus"@,
        StatusCodeKind::HelpMessage => "HelpMessage"@,
        StatusCodeKind::NameSystemType => "NameSystemType"@,
        StatusCodeKind::ReadyForNewUser => "ReadyForNewUser"@,
        StatusCodeKind::ClosingControlConnection => "ClosingControlConnection"@,
        StatusCodeKind::RequestActionCompleted => "RequestActionCompleted"@,
        StatusCodeKind::UserLoggedIn => "UserLoggedIn"@,
        StatusCodeKind::EnteredPassiveMode => "EnteredPassiveMode"@,
        StatusCodeKind::EnteredExtendedPassiveMode => "EnteredExtendedPassiveMode"@,
        StatusCodeKind::RequestFileActionCompleted => "RequestFileActionCompleted"@,
        StatusCodeKind::PathCreated => "PathCreated"@,
        StatusCodeKind::PasswordRequired => "PasswordRequired"@,
        StatusCodeKind::RequestActionPending => "RequestActionPending"@,
        StatusCodeKind::CommandUnrecognized => "CommandUnrecognized"@,
        StatusCodeKind::SecurityMechanismNotImplemented => "SecurityMechanismNotImplemented"@,
        StatusCodeKind::RequestActionDenied => "RequestActionDenied"@,
        StatusCodeKind::FileNameNotAllowed => "FileNameNotAllowed"@,
        StatusCodeKind::Unknown => "Unknown"@,
    }
}

/// The names of a list of kinds, separated by ", ".
pub open spec fn kind_list_text(ks: Seq<StatusCodeKind>) -> Seq<char>
    decreases ks.len(),
{
    if ks.len() == 0 {
        Seq::empty()
    } else if ks.len() == 1 {
        kind_name(ks[0])
    } else {
        kind_list_text(ks.drop_last()) + ", "@ + kind_name(ks.last())
    }
}

/// The diagnostic text for a reply that none of the expected kinds matched:
/// `Got <code>: <message>, expected [<kinds>]`.
pub open spec fn summary_text(code: u16, message: Seq<char>, expected: Seq<StatusCodeKind>) -> Seq<
    char,
> {
    "Got "@ + decimal_text(code as nat) + ": "@ + message + ", expected ["@ + kind_list_text(
        expected,
    ) + "]"@
}

/// A reply line: three ASCII digits, then a space or hyphen separator, or
/// the end of the line (nothing more, or the line terminator).
pub open spec fn is_reply_line(text: Seq<char>) -> bool {
    &&& has_code_prefix(text)
    &&& (text.len() == 3 || text[3] == ' ' || text[3] == '-' || text[3] == '\r' || text[3]
        == '\n')
}

/// The message of a reply line: the text after the code and its separator,
/// without surrounding white space.
pub open spec fn reply_message(text: Seq<char>) -> Seq<char> {
    if text.len() > 3 {
        trimmed(text.skip(4))
    } else {
        Seq::empty()
    }
}

/// A reply is accepted when its kind is expected or, failing that, when its
/// code is positive.
pub open spec fn is_accepted(status: StatusCode, expected: Seq<StatusCodeKind>) -> bool {
    expected.contains(status.kind) || is_positive(status.code)
}

impl StatusCodeKind {
    /// The name of this kind.
    pub fn name(&self) -> (r: &'static str)
        ensures
            r@ == kind_name(*self),
    {
        match self {
            StatusCodeKind::TransferStarted => "TransferStarted",
            StatusCodeKind::TransferAboutToStart => "TransferAboutToStart",
            StatusCodeKind::CommandOk => "CommandOk",
            StatusCodeKind::FeatureNotImplemented => "FeatureNotImplemented",
            StatusCodeKind::SystemStatus => "SystemStatus",
            StatusCodeKind::HelpMessage => "HelpMessage",
            StatusCodeKind::NameSystemType => "NameSystemType",
            StatusCodeKind::ReadyForNewUser => "ReadyForNewUser",
            StatusCodeKind::ClosingControlConnection => "ClosingControlConnection",
            StatusCodeKind::RequestActionCompleted => "RequestActionCompleted",
            StatusCodeKind::UserLoggedIn => "UserLoggedIn",
            StatusCodeKind::EnteredPassiveMode => "EnteredPassiveMode",
            StatusCodeKind::EnteredExtendedPassiveMode => "EnteredExtendedPassiveMode",
            StatusCodeKind::RequestFileActionCompleted => "RequestFileActionCompleted",
            StatusCodeKind::PathCreated => "PathCreated",
            StatusCodeKind::PasswordRequired => "PasswordRequired",
            StatusCodeKind::RequestActionPending => "RequestActionPending",
            StatusCodeKind::CommandUnrecognized => "CommandUnrecognized",
            StatusCodeKind::SecurityMechanismNotImplemented => "SecurityMechanismNotImplemented",
            StatusCodeKind::RequestActionDenied => "RequestActionDenied",
            StatusCodeKind::FileNameNotAllowed => "FileNameNotAllowed",
            StatusCodeKind::Unknown => "Unknown",
        }
    }
}

/// Whether `k` is one of `ks`.
pub fn contains_kind(ks: &Vec<StatusCodeKind>, k: StatusCodeKind) -> (r: bool)
    ensures
        r == ks@.contains(k),
{
    let mut i: usize = 0;
    while i < ks.len()
        invariant
            i <= ks@.len(),
            forall|j: int| 0 <= j < i ==> ks@[j] != k,
        decreases ks.len() - i,
    {
        if ks[i] == k {
            return true;
        }
        i = i + 1;
    }
    false
}

/// A server reply: the status code and the text after it.
#[derive(Debug)]
pub struct ServerResponse {
    pub message: String,
    pub status_code: StatusCode,
}

impl ServerResponse {
    /// Parse one reply line: the code is its first three characters, and the
    /// message is what follows the separator after them, with surrounding
    /// white space removed. A line that does not start with three ASCII
    /// digits and a separator (space or hyphen) or the end of the line is an
    /// `InvalidReply` error.
    ///
    /// One line is one reply: the continuation lines of a multi-line reply
    /// (`123-...`) are not gathered, so a server that sends them where a
    /// single line is expected leaves the replies that follow out of step.
    pub fn parse(text: &str) -> (r: Result<ServerResponse, Error>)
        ensures
            r is Ok <==> is_reply_line(text@),
            r matches Ok(resp) ==> {
                &&& resp.status_code.code == code_prefix_value(text@)
                &&& resp.status_code.kind == kind_of(resp.status_code.code)
                &&& resp.message@ == reply_message(text@)
            },
            r matches Err(e) ==> e matches Error::InvalidReply(line) && line@ == text@,
    {
        let status_code = match StatusCode::parse(text) {
            None => return Err(Error::InvalidReply(text.to_owned())),
            Some(s) => s,
        };
        let cs = chars_of(text);
        if cs.len() == 3 {
            return Ok(ServerResponse { message: String::new(), status_code });
        }
        let sep = cs[3];
        if !(sep == ' ' || sep == '-' || sep == '\r' || sep == '\n') {
            return Err(Error::InvalidReply(text.to_owned()));
        }
        let (a, b) = trim_bounds(&cs, 4);
        let message = string_of(&cs, a, b);
        proof {
            assert(cs@.subrange(4, cs@.len() as int) =~= text@.skip(4));
        }
        Ok(ServerResponse { message, status_code })
    }

    /// Whether the reply is negative (`400 ..= 599`).
    pub fn is_failure_status(&self) -> (r: bool)
        ensures
            r == is_negative(self.status_code.code),
    {
        self.status_code.is_failure()
    }

    /// The diagnostic text for this reply when `expected` were the kinds
    /// looked for.
    pub fn summarize_error(&self, expected: Vec<StatusCodeKind>) -> (r: String)
        ensures
            r@ == summary_text(self.status_code.code, self.message@, expected@),
    {
        let mut s = String::from_str("Got ");
        push_decimal(&mut s, self.status_code.code);
        s.append(": ");
        s.append(self.message.as_str());
        s.append(", expected [");
        let mut i: usize = 0;
        while i < expected.len()
            invariant
                i <= expected@.len(),
                s@ == "Got "@ + decimal_text(self.status_code.code as nat) + ": "@ + self.message@
                    + ", expected ["@ + kind_list_text(expected@.take(i as int)),
            decreases expected.len() - i,
        {
            proof {
                assert(expected@.take(i + 1).drop_last() =~= expected@.take(i as int));
            }
            if i > 0 {
                s.append(", ");
            }
            s.append(expected[i].name());
            i = i + 1;
            proof {
                if i == 1 {
                    assert(kind_list_text(expected@.take(0)) =~= Seq::<char>::empty());
                }
            }
            assert(s@ =~= "Got "@ + decimal_text(self.status_code.code as nat) + ": "@
                + self.message@ + ", expected ["@ + kind_list_text(expected@.take(i as int)));
        }
        assert(expected@.take(i as int) =~= expected@);
        s.append("]");
        s
    }

    /// Accept this reply for a command that expects one of `expected`: it
    /// is kept when its kind is expected or its code is positive, and turned
    /// into an `UnexpectedStatusCode` error otherwise.
    pub fn expecting(self, expected: Vec<StatusCodeKind>) -> (r: Result<ServerResponse, Error>)
        ensures
            r is Ok <==> is_accepted(self.status_code, expected@),
            r matches Ok(resp) ==> resp == self,
            r matches Err(e) ==> e matches Error::UnexpectedStatusCode(text) && text@
                == summary_text(self.status_code.code, self.message@, expected@),
    {
        if contains_kind(&expected, self.status_code.kind) || self.status_code.is_valid() {
            Ok(self)
        } else {
            Err(Error::UnexpectedStatusCode(self.summarize_error(expected)))
        }
    }
}

impl PartialEq for ServerResponse {
    fn eq(&self, other: &ServerResponse) -> (r: bool)
        ensures
            r == (self.message@ == other.message@ && self.status_code.code
                == other.status_code.code),
    {
        self.message == other.message && self.status_code == other.status_code
    }
}

impl vstd::std_specs::cmp::PartialEqSpecImpl for ServerResponse {
    open spec fn obeys_eq_spec() -> bool {
        true
    }

    open spec fn eq_spec(&self, other: &ServerResponse) -> bool {
        self.message@ == other.message@ && self.status_code.code == other.status_code.code
    }
}

/// Parse a reply line and accept it for a command that expects one of
/// `expected`.
pub fn parse_reply_expecting(line: &str, expected: Vec<StatusCodeKind>) -> (r: Result<
    ServerResponse,
    Error,
>)
    ensures
        !is_reply_line(line@) ==> (r matches Err(e) && e matches Error::InvalidReply(t) && t@
            == line@),
        is_reply_line(line@) ==> ({
            let code = code_prefix_value(line@) as u16;
            let message = reply_message(line@);
            let status = StatusCode { kind: kind_of(code), code };
            &&& r is Ok <==> is_accepted(status, expected@)
            &&& r matches Ok(resp) ==> resp.status_code == status && resp.message@ == message
            &&& r matches Err(e) ==> e matches Error::UnexpectedStatusCode(t) && t@ == summary_text(
                code,
                message,
                expected@,
            )
        }),
{
    match ServerResponse::parse(line) {
        Ok(response) => response.expecting(expected),
        Err(e) => Err(e),
    }
}

} // verus!
