//! Three-digit reply codes and the closed set of reply kinds they denote.
use vstd::prelude::*;

use crate::text::{ascii_digit_value, digit_of, is_ascii_digit, is_digit_char};

verus! {

/// The meaning of a reply code, as far as the client's command table needs it.
#[derive(Clone, Copy, Debug, PartialEq, Eq, Structural)]
pub enum StatusCodeKind {
    /// Status code 125
    TransferStarted,
    /// Status code 150
    TransferAboutToStart,
    /// Status code 200
    CommandOk,
    /// Status code 202
    FeatureNotImplemented,
    /// Status code 211
    SystemStatus,
    /// Status code 214
    HelpMessage,
    /// Status code 215
    NameSystemType,
    /// Status code 220
    ReadyForNewUser,
    /// Status code 221
    ClosingControlConnection,
    /// Status code 226
    RequestActionCompleted,
    /// Status code 230
    UserLoggedIn,
    /// Status code 227
    EnteredPassiveMode,
    /// Status code 229
    EnteredExtendedPassiveMode,
    /// Status code 250
    RequestFileActionCompleted,
    /// Status code 257
    PathCreated,
    /// Status code 331
    PasswordRequired,
    /// Status code 350
    RequestActionPending,
    /// Status code 500
    CommandUnrecognized,
    /// Status code 504
    SecurityMechanismNotImplemented,
    /// Status code 550
    RequestActionDenied,
    /// Status code 553
    FileNameNotAllowed,
    /// Any code outside the table.
    Unknown,
}

/// The kind that a numeric reply code denotes.
pub open spec fn kind_of(code: u16) -> StatusCodeKind {
    match code {
        125 => StatusCodeKind::TransferStarted,
        150 => StatusCodeKind::TransferAboutToStart,
        200 => StatusCodeKind::CommandOk,
        202 => StatusCodeKind::FeatureNotImplemented,
        211 => StatusCodeKind::SystemStatus,
        214 => StatusCodeKind::HelpMessage,
        215 => StatusCodeKind::NameSystemType,
        220 => StatusCodeKind::ReadyForNewUser,
        221 => StatusCodeKind::ClosingControlConnection,
        226 => StatusCodeKind::RequestActionCompleted,
        227 => StatusCodeKind::EnteredPassiveMode,
        229 => StatusCodeKind::EnteredExtendedPassiveMode,
        230 => StatusCodeKind::UserLoggedIn,
        250 => StatusCodeKind::RequestFileActionCompleted,
        257 => StatusCodeKind::PathCreated,
        331 => StatusCodeKind::PasswordRequired,
        350 => StatusCodeKind::RequestActionPending,
        500 => StatusCodeKind::CommandUnrecognized,
        504 => StatusCodeKind::SecurityMechanismNotImplemented,
        550 => StatusCodeKind::RequestActionDenied,
        553 => StatusCodeKind::FileNameNotAllowed,
        _ => StatusCodeKind::Unknown,
    }
}

/// The code that stands for a kind in the table; `None` for `Unknown`.
pub open spec fn code_of(kind: StatusCodeKind) -> Option<u16> {
    match kind {
        StatusCodeKind::TransferStarted => Some(125u16),
        StatusCodeKind::TransferAboutToStart => Some(150u16),
        StatusCodeKind::CommandOk => Some(200u16),
        StatusCodeKind::FeatureNotImplemented => Some(202u16),
        StatusCodeKind::SystemStatus => Some(211u16),
        StatusCodeKind::HelpMessage => Some(214u16),
        StatusCodeKind::NameSystemType => Some(215u16),
        StatusCodeKind::ReadyForNewUser => Some(220u16),
        StatusCodeKind::ClosingControlConnection => Some(221u16),
        StatusCodeKind::RequestActionCompleted => Some(226u16),
        StatusCodeKind::EnteredPassiveMode => Some(227u16),
        StatusCodeKind::EnteredExtendedPassiveMode => Some(229u16),
        StatusCodeKind::UserLoggedIn => Some(230u16),
        StatusCodeKind::RequestFileActionCompleted => Some(250u16),
        StatusCodeKind::PathCreated => Some(257u16),
        StatusCodeKind::PasswordRequired => Some(331u16),
        StatusCodeKind::RequestActionPending => Some(350u16),
        StatusCodeKind::CommandUnrecognized => Some(500u16),
        StatusCodeKind::SecurityMechanismNotImplemented => Some(504u16),
        StatusCodeKind::RequestActionDenied => Some(550u16),
        StatusCodeKind::FileNameNotAllowed => Some(553u16),
        StatusCodeKind::Unknown => None,
    }
}

impl From<u16> for StatusCodeKind {
    fn from(code: u16) -> (kind: StatusCodeKind)
        ensures
            kind == kind_of(code),
    {
        match code {
            125 => StatusCodeKind::TransferStarted,
            150 => StatusCodeKind::TransferAboutToStart,
            200 => StatusCodeKind::CommandOk,
            202 => StatusCodeKind::FeatureNotImplemented,
            211 => StatusCodeKind::SystemStatus,
            214 => StatusCodeKind::HelpMessage,
            215 => StatusCodeKind::NameSystemType,
            220 => StatusCodeKind::ReadyForNewUser,
            221 => StatusCodeKind::ClosingControlConnection,
            226 => StatusCodeKind::RequestActionCompleted,
            227 => StatusCodeKind::EnteredPassiveMode,
            229 => StatusCodeKind::EnteredExtendedPassiveMode,
            230 => StatusCodeKind::UserLoggedIn,
            250 => StatusCodeKind::RequestFileActionCompleted,
            257 => StatusCodeKind::PathCreated,
            331 => StatusCodeKind::PasswordRequired,
            350 => StatusCodeKind::RequestActionPending,
            500 => StatusCodeKind::CommandUnrecognized,
            504 => StatusCodeKind::SecurityMechanismNotImplemented,
            550 => StatusCodeKind::RequestActionDenied,
            553 => StatusCodeKind::FileNameNotAllowed,
            _ => StatusCodeKind::Unknown,
        }
    }
}

impl vstd::std_specs::convert::FromSpecImpl<u16> for StatusCodeKind {
    open spec fn obeys_from_spec() -> bool {
        true
    }

    open spec fn from_spec(code: u16) -> StatusCodeKind {
        kind_of(code)
    }
}

/// Classification is total: a code that the table lists gets the one kind
/// listed for it, and a code that the table does not list gets `Unknown`.
pub proof fn lemma_classify_total(code: u16)
    ensures
        code_of(kind_of(code)) == Some(code) || (kind_of(code) == StatusCodeKind::Unknown
            && forall|k: StatusCodeKind| code_of(k) != Some(code)),
        forall|k: StatusCodeKind| code_of(k) == Some(code) ==> kind_of(code) == k,
{
    assert forall|k: StatusCodeKind| code_of(k) == Some(code) implies kind_of(code) == k by {
        match k {
            _ => {},
        }
    }
}

/// A positive reply: `200 <= code <= 399`.
pub open spec fn is_positive(code: u16) -> bool {
    200 <= code <= 399
}

/// A negative reply: `400 <= code <= 599`.
pub open spec fn is_negative(code: u16) -> bool {
    400 <= code <= 599
}

/// The positive and negative ranges are disjoint, and the preliminary
/// (`1xx`), `0xx` and `6xx` and higher codes belong to neither.
pub proof fn lemma_status_ranges(code: u16)
    ensures
        !(is_positive(code) && is_negative(code)),
        code < 200 ==> !is_positive(code) && !is_negative(code),
        code >= 600 ==> !is_positive(code) && !is_negative(code),
        200 <= code < 600 ==> is_positive(code) || is_negative(code),
{
}

/// A reply code with the kind it denotes.
#[derive(Clone, Copy, Debug)]
pub struct StatusCode {
    pub kind: StatusCodeKind,
    pub code: u16,
}

/// The first three characters of a reply line read as a decimal number.
pub open spec fn code_prefix_value(text: Seq<char>) -> int
    recommends
        text.len() >= 3,
{
    ascii_digit_value(text[0]) * 100 + ascii_digit_value(text[1]) * 10 + ascii_digit_value(text[2])
}

/// A reply line starts with three ASCII digits.
pub open spec fn has_code_prefix(text: Seq<char>) -> bool {
    text.len() >= 3 && is_ascii_digit(text[0]) && is_ascii_digit(text[1]) && is_ascii_digit(
        text[2],
    )
}

impl StatusCode {
    /// The kind field is the one that the code denotes.
    pub open spec fn wf(&self) -> bool {
        self.kind == kind_of(self.code)
    }

    /// Read the status code at the start of a reply line. `None` when the
    /// line does not start with three ASCII digits.
    pub fn parse(text: &str) -> (r: Option<StatusCode>)
        ensures
            r is Some <==> has_code_prefix(text@),
            r matches Some(s) ==> s.wf() && s.code == code_prefix_value(text@),
    {
        if text.unicode_len() < 3 {
            return None;
        }
        let c0 = text.get_char(0);
        let c1 = text.get_char(1);
        let c2 = text.get_char(2);
        if !(is_digit_char(c0) && is_digit_char(c1) && is_digit_char(c2)) {
            return None;
        }
        let code: u16 = digit_of(c0) as u16 * 100 + digit_of(c1) as u16 * 10 + digit_of(c2) as u16;
        let kind = StatusCodeKind::from(code);
        Some(StatusCode { kind, code })
    }

    /// Whether the reply is positive (`200 ..= 399`).
    pub fn is_valid(&self) -> (r: bool)
        ensures
            r == is_positive(self.code),
    {
        self.code >= 200 && self.code <= 399
    }

    /// Whether the reply is negative (`400 ..= 599`).
    pub fn is_failure(&self) -> (r: bool)
        ensures
            r == is_negative(self.code),
    {
        self.code >= 400 && self.code <= 599
    }
}

impl PartialEq for StatusCode {
    fn eq(&self, other: &StatusCode) -> (r: bool)
        ensures
            r == (self.code == other.code),
    {
        self.code == other.code
    }
}

impl vstd::std_specs::cmp::PartialEqSpecImpl for StatusCode {
    open spec fn obeys_eq_spec() -> bool {
        true
    }

    open spec fn eq_spec(&self, other: &StatusCode) -> bool {
        self.code == other.code
    }
}

} // verus!
