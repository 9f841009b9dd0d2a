use ftp_client::client::{write_command, write_unary_command};
use ftp_client::error::Error;
use ftp_client::reply::{parse_reply_expecting, ServerResponse};
use ftp_client::status_code::{StatusCode, StatusCodeKind};
use ftp_client::text::lines_of;

#[test]
fn classify_known_codes() {
    let table: Vec<(u16, StatusCodeKind)> = vec![
        (125, StatusCodeKind::TransferStarted),
        (150, StatusCodeKind::TransferAboutToStart),
        (200, StatusCodeKind::CommandOk),
        (202, StatusCodeKind::FeatureNotImplemented),
        (211, StatusCodeKind::SystemStatus),
        (214, StatusCodeKind::HelpMessage),
        (215, StatusCodeKind::NameSystemType),
        (220, StatusCodeKind::ReadyForNewUser),
        (221, StatusCodeKind::ClosingControlConnection),
        (226, StatusCodeKind::RequestActionCompleted),
        (227, StatusCodeKind::EnteredPassiveMode),
        (229, StatusCodeKind::EnteredExtendedPassiveMode),
        (230, StatusCodeKind::UserLoggedIn),
        (250, StatusCodeKind::RequestFileActionCompleted),
        (257, StatusCodeKind::PathCreated),
        (331, StatusCodeKind::PasswordRequired),
        (350, StatusCodeKind::RequestActionPending),
        (500, StatusCodeKind::CommandUnrecognized),
        (504, StatusCodeKind::SecurityMechanismNotImplemented),
        (550, StatusCodeKind::RequestActionDenied),
        (553, StatusCodeKind::FileNameNotAllowed),
    ];
    for (code, kind) in table {
        assert_eq!(StatusCodeKind::from(code), kind);
    }
}

#[test]
fn classify_unmapped_codes_are_unknown() {
    for code in [0u16, 1, 99, 100, 201, 299, 421, 530, 551, 599, 600, 999, 65535] {
        assert_eq!(StatusCodeKind::from(code), StatusCodeKind::Unknown);
    }
    // Deterministic: the same code twice gives the same kind.
    assert_eq!(StatusCodeKind::from(421), StatusCodeKind::from(421));
}

#[test]
fn status_code_parse_reads_three_digits() {
    let s = StatusCode::parse("331 need password\r\n").unwrap();
    assert_eq!(s.code, 331);
    assert_eq!(s.kind, StatusCodeKind::PasswordRequired);
    let s = StatusCode::parse("999-odd").unwrap();
    assert_eq!(s.code, 999);
    assert_eq!(s.kind, StatusCodeKind::Unknown);
    assert!(StatusCode::parse("22").is_none());
    assert!(StatusCode::parse("2x0 ready").is_none());
    assert!(StatusCode::parse("").is_none());
}

#[test]
fn status_code_equality_is_by_code() {
    let a = StatusCode::parse("226 done").unwrap();
    let b = StatusCode::parse("226 other text").unwrap();
    let c = StatusCode::parse("250 done").unwrap();
    assert!(a == b);
    assert!(a != c);
}

#[test]
fn positive_and_failure_ranges() {
    let cases: Vec<(u16, bool, bool)> = vec![
        (0, false, false),
        (99, false, false),
        (150, false, false),
        (199, false, false),
        (200, true, false),
        (226, true, false),
        (398, true, false),
        (399, true, false),
        (400, false, true),
        (450, false, true),
        (598, false, true),
        (599, false, true),
        (600, false, false),
        (999, false, false),
    ];
    for (code, positive, failure) in cases {
        let s = StatusCode { kind: StatusCodeKind::from(code), code };
        assert_eq!(s.is_valid(), positive, "positive {}", code);
        assert_eq!(s.is_failure(), failure, "failure {}", code);
        assert!(!(s.is_valid() && s.is_failure()));
    }
}

#[test]
fn parse_reply_line() {
    let r = ServerResponse::parse("220 ready\r\n").unwrap();
    assert_eq!(r.status_code.code, 220);
    assert_eq!(r.status_code.kind, StatusCodeKind::ReadyForNewUser);
    assert_eq!(r.message, "ready");
    assert!(!r.is_failure_status());
}

#[test]
fn parse_reply_trims_white_space() {
    let r = ServerResponse::parse("257 \t \"/pub\" is current\u{a0} \r\n").unwrap();
    assert_eq!(r.status_code.kind, StatusCodeKind::PathCreated);
    assert_eq!(r.message, "\"/pub\" is current");
    let r = ServerResponse::parse("200").unwrap();
    assert_eq!(r.message, "");
    let r = ServerResponse::parse("230-multi line").unwrap();
    assert_eq!(r.status_code.code, 230);
    assert_eq!(r.message, "multi line");
    let r = ServerResponse::parse("220-Welcome\r\n").unwrap();
    assert_eq!(r.status_code.kind, StatusCodeKind::ReadyForNewUser);
    assert_eq!(r.message, "Welcome");
    let r = ServerResponse::parse("200\r\n").unwrap();
    assert_eq!(r.status_code.code, 200);
    assert_eq!(r.message, "");
    let r = ServerResponse::parse("220-x").unwrap();
    assert_eq!(r.message, "x");
}

#[test]
fn reply_without_separator_is_an_error() {
    match ServerResponse::parse("220x") {
        Err(Error::InvalidReply(line)) => assert_eq!(line, "220x"),
        other => panic!("unexpected {:?}", other),
    }
    assert!(matches!(ServerResponse::parse("2200 ready"), Err(Error::InvalidReply(_))));
    assert!(matches!(
        parse_reply_expecting("220x", vec![StatusCodeKind::ReadyForNewUser]),
        Err(Error::InvalidReply(_))
    ));
}

#[test]
fn parse_reply_failure_status() {
    let r = ServerResponse::parse("550 Not Found").unwrap();
    assert!(r.is_failure_status());
    assert_eq!(r.status_code.kind, StatusCodeKind::RequestActionDenied);
}

#[test]
fn malformed_reply_is_an_error() {
    match ServerResponse::parse("hello") {
        Err(Error::InvalidReply(line)) => assert_eq!(line, "hello"),
        other => panic!("unexpected {:?}", other),
    }
    assert!(matches!(ServerResponse::parse("12"), Err(Error::InvalidReply(_))));
}

#[test]
fn summarize_error_text() {
    let r = ServerResponse::parse("550 Not Found").unwrap();
    assert_eq!(
        r.summarize_error(vec![StatusCodeKind::RequestActionCompleted]),
        "Got 550: Not Found, expected [RequestActionCompleted]"
    );
    assert_eq!(
        r.summarize_error(vec![StatusCodeKind::TransferStarted, StatusCodeKind::TransferAboutToStart]),
        "Got 550: Not Found, expected [TransferStarted, TransferAboutToStart]"
    );
    let r = ServerResponse::parse("007 odd").unwrap();
    assert_eq!(r.summarize_error(vec![]), "Got 7: odd, expected []");
}

#[test]
fn expected_kind_is_accepted() {
    let r = ServerResponse::parse("331 need password").unwrap();
    let r = r.expecting(vec![StatusCodeKind::PasswordRequired]).unwrap();
    assert_eq!(r.status_code.code, 331);
}

#[test]
fn positive_code_is_accepted_liberally() {
    let r = ServerResponse::parse("200 fine").unwrap();
    let r = r.expecting(vec![StatusCodeKind::PathCreated]).unwrap();
    assert_eq!(r.message, "fine");
}

#[test]
fn preliminary_code_needs_to_be_expected() {
    let r = ServerResponse::parse("150 opening").unwrap();
    assert!(matches!(
        r.expecting(vec![StatusCodeKind::RequestActionCompleted]),
        Err(Error::UnexpectedStatusCode(_))
    ));
    let r = ServerResponse::parse("150 opening").unwrap();
    assert!(r.expecting(vec![StatusCodeKind::TransferAboutToStart]).is_ok());
}

#[test]
fn negative_code_is_rejected() {
    match parse_reply_expecting("550 Not Found\r\n", vec![StatusCodeKind::RequestActionCompleted]) {
        Err(Error::UnexpectedStatusCode(t)) => {
            assert_eq!(t, "Got 550: Not Found, expected [RequestActionCompleted]")
        }
        other => panic!("unexpected {:?}", other),
    }
    assert!(matches!(
        parse_reply_expecting("x", vec![StatusCodeKind::CommandOk]),
        Err(Error::InvalidReply(_))
    ));
}

#[test]
fn command_lines() {
    assert_eq!(write_command("PWD"), "PWD\r\n");
    assert_eq!(write_unary_command("CWD", "/pub"), "CWD /pub\r\n");
    assert_eq!(write_unary_command("NLST", ""), "NLST \r\n");
}

#[test]
fn lines_of_listing() {
    assert_eq!(lines_of("a.txt\r\nb.txt\r\n"), vec!["a.txt".to_string(), "b.txt".to_string()]);
    assert_eq!(lines_of("a\n\nb"), vec!["a".to_string(), "".to_string(), "b".to_string()]);
    assert_eq!(lines_of("only"), vec!["only".to_string()]);
    assert_eq!(lines_of("x\r"), vec!["x\r".to_string()]);
    assert_eq!(lines_of("\n"), vec!["".to_string()]);
    assert!(lines_of("").is_empty());
}
