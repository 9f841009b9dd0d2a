use ftp_client::address::{IpAddress, SocketAddress};
use ftp_client::client::Client;
use ftp_client::error::{Error, Feature};
use ftp_client::exchange::{Action, Awaiting, ClientMode, Exchange, Outcome};

fn local() -> IpAddress {
    IpAddress::V4(127, 0, 0, 1)
}

fn expect_send(a: Action, line: &str) {
    match a {
        Action::Send(l) => assert_eq!(l, line),
        other => panic!("expected Send({:?}), got {:?}", line, other),
    }
}

fn finished(a: Action) -> Result<Outcome, Error> {
    match a {
        Action::Finish(r) => r,
        other => panic!("expected Finish, got {:?}", other),
    }
}

/// Run an exchange of control commands only, answering each with the next line.
fn run_control(mut ex: Exchange, replies: &[&str]) -> Result<Outcome, Error> {
    let mut a = ex.start();
    for line in replies {
        match a {
            Action::Send(_) | Action::Read => {}
            other => panic!("unexpected {:?}", other),
        }
        a = ex.on_reply(line);
    }
    finished(a)
}

#[test]
fn connect_then_list_names() {
    let mut hs = Client::handshake(local(), "user", "secret");
    assert_eq!(hs.awaiting(), Awaiting::Start);
    assert!(matches!(hs.start(), Action::Read));
    expect_send(hs.on_reply("220 ready\r\n"), "USER user\r\n");
    expect_send(hs.on_reply("331 need password\r\n"), "PASS secret\r\n");
    let welcome = match finished(hs.on_reply("230 logged in\r\n")) {
        Ok(Outcome::Message(m)) => m,
        other => panic!("unexpected {:?}", other),
    };
    assert_eq!(welcome, "ready");
    assert_eq!(hs.awaiting(), Awaiting::Nothing);

    let mut client = Client::new(local(), welcome);
    assert_eq!(client.get_welcome(), Some(&"ready".to_string()));
    client.set_mode(ClientMode::Passive);
    let mut ex = client.list_names("/");
    expect_send(ex.start(), "PASV\r\n");
    match ex.on_reply("227 Entering Passive Mode (127,0,0,1,19,136).\r\n") {
        Action::Connect(addr) => {
            assert_eq!(addr, SocketAddress { ip: IpAddress::V4(127, 0, 0, 1), port: 5000 })
        }
        other => panic!("unexpected {:?}", other),
    }
    expect_send(ex.on_connected(), "NLST /\r\n");
    assert!(matches!(ex.on_reply("150 opening data connection\r\n"), Action::Receive));
    assert_eq!(ex.awaiting(), Awaiting::Data);
    assert!(matches!(ex.on_received(b"a.txt\r\nb.txt\r\n".to_vec()), Action::Read));
    match finished(ex.on_reply("226 done\r\n")) {
        Ok(Outcome::Names(names)) => {
            assert_eq!(names, vec!["a.txt".to_string(), "b.txt".to_string()])
        }
        other => panic!("unexpected {:?}", other),
    }
}

#[test]
fn login_fails_on_bad_password() {
    let client = Client::new(local(), "hi".to_string());
    let r = run_control(client.login("u", "p"), &["331 need password", "530 Login incorrect"]);
    match r {
        Err(Error::UnexpectedStatusCode(t)) => {
            assert_eq!(t, "Got 530: Login incorrect, expected [UserLoggedIn]")
        }
        other => panic!("unexpected {:?}", other),
    }
}

#[test]
fn login_stops_after_failed_user() {
    let client = Client::new(local(), "hi".to_string());
    let mut ex = client.login("u", "p");
    expect_send(ex.start(), "USER u\r\n");
    assert!(matches!(finished(ex.on_reply("500 what")), Err(Error::UnexpectedStatusCode(_))));
    assert_eq!(ex.awaiting(), Awaiting::Nothing);
}

#[test]
fn retrieve_with_failed_completion_is_an_error() {
    let client = Client::new(IpAddress::V4(10, 0, 0, 2), "hi".to_string());
    let mut ex = client.retrieve_file("/readme.txt");
    expect_send(ex.start(), "EPSV\r\n");
    match ex.on_reply("229 Entering Extended Passive Mode (|||6446|)") {
        Action::Connect(addr) => {
            assert_eq!(addr, SocketAddress { ip: IpAddress::V4(10, 0, 0, 2), port: 6446 })
        }
        other => panic!("unexpected {:?}", other),
    }
    expect_send(ex.on_connected(), "RETR /readme.txt\r\n");
    assert!(matches!(ex.on_reply("125 go"), Action::Receive));
    assert!(matches!(ex.on_received(b"partial".to_vec()), Action::Read));
    match finished(ex.on_reply("550 Not Found")) {
        Err(Error::UnexpectedStatusCode(t)) => {
            assert_eq!(t, "Got 550: Not Found, expected [RequestActionCompleted]")
        }
        other => panic!("unexpected {:?}", other),
    }
}

#[test]
fn retrieve_returns_bytes() {
    let client = Client::new(local(), "hi".to_string());
    let mut ex = client.retrieve_file("f");
    expect_send(ex.start(), "EPSV\r\n");
    assert!(matches!(ex.on_reply("229 (|||2121|)"), Action::Connect(_)));
    expect_send(ex.on_connected(), "RETR f\r\n");
    assert!(matches!(ex.on_reply("150 ok"), Action::Receive));
    assert!(matches!(ex.on_received(vec![0, 159, 255]), Action::Read));
    match finished(ex.on_reply("226 done")) {
        Ok(Outcome::Bytes(b)) => assert_eq!(b, vec![0u8, 159, 255]),
        other => panic!("unexpected {:?}", other),
    }
}

#[test]
fn pwd_twice_gives_the_same_path() {
    let client = Client::new(local(), "hi".to_string());
    let first = run_control(client.pwd(), &["257 \"/pub\" is the current directory"]);
    let second = run_control(client.pwd(), &["257 \"/pub\" is the current directory"]);
    match (first, second) {
        (Ok(Outcome::Message(a)), Ok(Outcome::Message(b))) => {
            assert_eq!(a, "\"/pub\" is the current directory");
            assert_eq!(a, b);
        }
        other => panic!("unexpected {:?}", other),
    }
}

#[test]
fn pwd_sends_only_pwd() {
    let client = Client::new(local(), "hi".to_string());
    let mut ex = client.pwd();
    expect_send(ex.start(), "PWD\r\n");
}

#[test]
fn control_commands_send_their_lines() {
    let client = Client::new(local(), "hi".to_string());
    let cases: Vec<(Exchange, &str)> = vec![
        (client.logout(), "QUIT\r\n"),
        (client.cwd("/pub"), "CWD /pub\r\n"),
        (client.cdup(), "CDUP\r\n"),
        (client.help(), "HELP\r\n"),
        (client.noop(), "NOOP\r\n"),
        (client.ascii(), "TYPE A\r\n"),
        (client.binary(), "TYPE I\r\n"),
        (client.status(), "STAT\r\n"),
        (client.remove_directory("d"), "RMD d\r\n"),
        (client.make_directory("d"), "MKD d\r\n"),
        (client.site_parameters(), "SITE\r\n"),
        (client.system(), "SYST\r\n"),
        (client.delete_file("f"), "DELE f\r\n"),
        (client.rename_file("a", "b"), "RNFR a\r\n"),
    ];
    for (mut ex, line) in cases {
        expect_send(ex.start(), line);
    }
}

#[test]
fn rename_sends_both_names() {
    let client = Client::new(local(), "hi".to_string());
    let mut ex = client.rename_file("old", "new");
    expect_send(ex.start(), "RNFR old\r\n");
    expect_send(ex.on_reply("350 pending"), "RNTO new\r\n");
    assert!(matches!(finished(ex.on_reply("250 renamed")), Ok(Outcome::Done)));
}

#[test]
fn system_and_status_return_messages() {
    let client = Client::new(local(), "hi".to_string());
    match run_control(client.system(), &["215 UNIX Type: L8"]) {
        Ok(Outcome::Message(m)) => assert_eq!(m, "UNIX Type: L8"),
        other => panic!("unexpected {:?}", other),
    }
    match run_control(client.status(), &["211 all fine"]) {
        Ok(Outcome::Message(m)) => assert_eq!(m, "all fine"),
        other => panic!("unexpected {:?}", other),
    }
    assert!(matches!(run_control(client.noop(), &["200 ok"]), Ok(Outcome::Done)));
}

#[test]
fn malformed_reply_ends_the_exchange() {
    let client = Client::new(local(), "hi".to_string());
    match run_control(client.noop(), &["garbage"]) {
        Err(Error::InvalidReply(l)) => assert_eq!(l, "garbage"),
        other => panic!("unexpected {:?}", other),
    }
}

#[test]
fn store_writes_then_reads_completion() {
    let client = Client::new(local(), "hi".to_string());
    let mut ex = client.store("/upload/readyou.txt", b"Some data for you".to_vec());
    expect_send(ex.start(), "EPSV\r\n");
    assert!(matches!(ex.on_reply("229 (|||40000|)"), Action::Connect(_)));
    expect_send(ex.on_connected(), "STOR /upload/readyou.txt\r\n");
    match ex.on_reply("150 ok") {
        Action::Transmit(d) => assert_eq!(d, b"Some data for you".to_vec()),
        other => panic!("unexpected {:?}", other),
    }
    assert_eq!(ex.awaiting(), Awaiting::Transmitted);
    assert!(matches!(ex.on_transmitted(), Action::Read));
    assert!(matches!(finished(ex.on_reply("226 stored")), Ok(Outcome::Done)));
}

#[test]
fn store_unique_returns_the_server_name() {
    let client = Client::new(local(), "hi".to_string());
    let mut ex = client.store_unique(b"DATA".to_vec());
    expect_send(ex.start(), "EPSV\r\n");
    assert!(matches!(ex.on_reply("229 (|||40000|)"), Action::Connect(_)));
    expect_send(ex.on_connected(), "STOU\r\n");
    assert!(matches!(ex.on_reply("150 FILE: x1"), Action::Transmit(_)));
    assert!(matches!(ex.on_transmitted(), Action::Read));
    match finished(ex.on_reply("226 Transfer complete (unique file name:x1)")) {
        Ok(Outcome::Message(m)) => assert_eq!(m, "Transfer complete (unique file name:x1)"),
        other => panic!("unexpected {:?}", other),
    }
}

#[test]
fn append_accepts_file_action_completed() {
    let client = Client::new(local(), "hi".to_string());
    let mut ex = client.append("readyou.txt", b"more".to_vec());
    expect_send(ex.start(), "EPSV\r\n");
    assert!(matches!(ex.on_reply("229 (|||40000|)"), Action::Connect(_)));
    expect_send(ex.on_connected(), "APPE readyou.txt\r\n");
    assert!(matches!(ex.on_reply("125 go"), Action::Transmit(_)));
    assert!(matches!(ex.on_transmitted(), Action::Read));
    assert!(matches!(finished(ex.on_reply("250 appended")), Ok(Outcome::Done)));
}

#[test]
fn list_returns_text() {
    let client = Client::new(local(), "hi".to_string());
    let mut ex = client.list("/pub");
    expect_send(ex.start(), "EPSV\r\n");
    assert!(matches!(ex.on_reply("229 (|||40000|)"), Action::Connect(_)));
    expect_send(ex.on_connected(), "LIST /pub\r\n");
    assert!(matches!(ex.on_reply("150 ok"), Action::Receive));
    assert!(matches!(ex.on_received("drwx é\r\n".as_bytes().to_vec()), Action::Read));
    match finished(ex.on_reply("226 done")) {
        Ok(Outcome::Text(t)) => assert_eq!(t, "drwx é\r\n"),
        other => panic!("unexpected {:?}", other),
    }
}

#[test]
fn listing_that_is_not_text_is_a_serialization_error() {
    let client = Client::new(local(), "hi".to_string());
    let mut ex = client.list("/pub");
    ex.start();
    ex.on_reply("229 (|||40000|)");
    ex.on_connected();
    ex.on_reply("150 ok");
    ex.on_received(vec![0xff, 0xfe]);
    match finished(ex.on_reply("226 done")) {
        Err(Error::SerializationFailed(t)) => {
            assert_eq!(t, "Invalid ASCII returned on server directory listing.")
        }
        other => panic!("unexpected {:?}", other),
    }
    let mut ex = client.list_names("/pub");
    ex.start();
    ex.on_reply("229 (|||40000|)");
    ex.on_connected();
    ex.on_reply("150 ok");
    ex.on_received(vec![0xc3]);
    match finished(ex.on_reply("226 done")) {
        Err(Error::SerializationFailed(t)) => {
            assert_eq!(t, "Invalid ASCII returned on server directory name listing.")
        }
        other => panic!("unexpected {:?}", other),
    }
}

#[test]
fn empty_name_listing() {
    let client = Client::new(local(), "hi".to_string());
    let mut ex = client.list_names("");
    expect_send(ex.start(), "EPSV\r\n");
    ex.on_reply("229 (|||40000|)");
    expect_send(ex.on_connected(), "NLST \r\n");
    ex.on_reply("150 ok");
    ex.on_received(Vec::new());
    match finished(ex.on_reply("226 done")) {
        Ok(Outcome::Names(n)) => assert!(n.is_empty()),
        other => panic!("unexpected {:?}", other),
    }
}

#[test]
fn transfer_command_rejected() {
    let client = Client::new(local(), "hi".to_string());
    let mut ex = client.retrieve_file("missing");
    ex.start();
    ex.on_reply("229 (|||40000|)");
    ex.on_connected();
    match finished(ex.on_reply("550 No such file")) {
        Err(Error::UnexpectedStatusCode(t)) => assert_eq!(
            t,
            "Got 550: No such file, expected [TransferAboutToStart, TransferStarted]"
        ),
        other => panic!("unexpected {:?}", other),
    }
}

#[test]
fn data_request_refused_or_unreadable() {
    let mut client = Client::new(local(), "hi".to_string());
    client.set_mode(ClientMode::Passive);
    let mut ex = client.list("/");
    expect_send(ex.start(), "PASV\r\n");
    assert!(matches!(finished(ex.on_reply("500 no")), Err(Error::UnexpectedStatusCode(_))));
    let mut ex = client.list("/");
    ex.start();
    assert!(matches!(
        finished(ex.on_reply("227 Entering Passive Mode 1,2,3")),
        Err(Error::InvalidSocketPassiveMode(_))
    ));
}

#[test]
fn active_mode_is_not_implemented() {
    let mut client = Client::new(local(), "hi".to_string());
    client.set_mode(ClientMode::Active);
    assert_eq!(client.mode(), ClientMode::Active);
    let mut ex = client.retrieve_file("f");
    assert!(matches!(
        finished(ex.start()),
        Err(Error::NotImplemented(Feature::ActiveMode))
    ));
    assert_eq!(ex.awaiting(), Awaiting::Nothing);
}

#[test]
fn unprovided_features() {
    let client = Client::new(local(), "hi".to_string());
    assert!(matches!(client.restart(), Err(Error::NotImplemented(Feature::Restart))));
    assert!(matches!(client.abort(), Err(Error::NotImplemented(Feature::Abort))));
    assert!(matches!(
        client.allocate(1024, Some(512)),
        Err(Error::NotImplemented(Feature::Allocate))
    ));
}

#[test]
fn new_client_defaults() {
    let client = Client::new(IpAddress::V6(0xfe80), "welcome".to_string());
    assert_eq!(client.mode(), ClientMode::ExtendedPassive);
    assert_eq!(client.peer(), IpAddress::V6(0xfe80));
}

#[test]
fn lenient_acceptance_is_reported() {
    let client = Client::new(local(), "hi".to_string());
    let mut ex = client.pwd();
    assert!(!ex.last_reply_lenient());
    ex.start();
    match ex.on_reply("200 \"/pub\"") {
        Action::Finish(Ok(Outcome::Message(m))) => assert_eq!(m, "\"/pub\""),
        other => panic!("unexpected {:?}", other),
    }
    assert!(ex.last_reply_lenient());
    let mut ex = client.pwd();
    ex.start();
    ex.on_reply("257 \"/pub\"");
    assert!(!ex.last_reply_lenient());

    let mut ex = client.login("u", "p");
    ex.start();
    expect_send(ex.on_reply("200 fine"), "PASS p\r\n");
    assert!(ex.last_reply_lenient());
    assert!(matches!(finished(ex.on_reply("530 no")), Err(Error::UnexpectedStatusCode(_))));
    assert!(!ex.last_reply_lenient());
}

#[test]
fn greeting_with_hyphen_separator() {
    let mut hs = Client::handshake(local(), "u", "p");
    hs.start();
    expect_send(hs.on_reply("220-Welcome to the server\r\n"), "USER u\r\n");
    expect_send(hs.on_reply("331 need password\r\n"), "PASS p\r\n");
    match finished(hs.on_reply("230 logged in\r\n")) {
        Ok(Outcome::Message(m)) => assert_eq!(m, "Welcome to the server"),
        other => panic!("unexpected {:?}", other),
    }
}
