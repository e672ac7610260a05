use pipe_relay::direction::{Direction, DirectionEnd, Next, ReadEvent, Way};
use pipe_relay::lines::{line_text, LineBuffer};
use pipe_relay::session::{contains_nul, join, Action, Event, PipeName, RelayError, Server, Stage};

fn server() -> Server {
    match Server::new("irc.example.test", 6667, "testnick", "/tmp/irc") {
        Ok(s) => s,
        Err(e) => panic!("unexpected error {:?}", e),
    }
}

fn expect_pipe(a: Action, path: &[u8]) {
    match a {
        Action::CreatePipe(p, mode) => {
            assert_eq!(p, path.to_vec());
            assert_eq!(mode, 0o700);
        }
        other => panic!("expected a pipe, got {:?}", other),
    }
}

fn expect_connect(a: Action) {
    match a {
        Action::Connect(host, port) => {
            assert_eq!(host, "irc.example.test");
            assert_eq!(port, 6667);
        }
        other => panic!("expected a connect, got {:?}", other),
    }
}

#[test]
fn prepare_names_pipes_under_host_directory() {
    let mut s = server();
    assert_eq!(s.prefix().clone(), b"/tmp/irc/irc.example.test".to_vec());
    assert_eq!(s.hostname().as_str(), "irc.example.test");
    assert_eq!(s.port(), 6667);
    assert_eq!(s.username().as_str(), "testnick");
    assert_eq!(s.stage(), Stage::CreatingDirectory);
    match s.pending_action() {
        Action::CreateDirectory(p) => assert_eq!(p, b"/tmp/irc/irc.example.test".to_vec()),
        other => panic!("expected a directory, got {:?}", other),
    }
    expect_pipe(s.step(Event::Done), b"/tmp/irc/irc.example.test/in");
    expect_pipe(s.step(Event::Done), b"/tmp/irc/irc.example.test/out");
    expect_connect(s.step(Event::Done));
    match s.step(Event::Done) {
        Action::Relay(p) => assert_eq!(p, b"/tmp/irc/irc.example.test/out".to_vec()),
        other => panic!("expected the relay, got {:?}", other),
    }
    assert_eq!(s.stage(), Stage::Relaying);
}

#[test]
fn ping_line_goes_out_whole() {
    let mut d = Direction::new(Way::PipeToSocket);
    let got = d.on_read(ReadEvent::Data(b"PING server\n".to_vec()));
    assert_eq!(got.lines, vec![b"PING server\n".to_vec()]);
    assert!(matches!(got.next, Next::Read));
}

#[test]
fn existing_fifos_are_accepted() {
    let mut s = server();
    s.step(Event::Done);
    expect_pipe(s.step(Event::FifoExists), b"/tmp/irc/irc.example.test/out");
    expect_connect(s.step(Event::FifoExists));
    assert_eq!(s.stage(), Stage::Connecting);
}

#[test]
fn pipe_failure_stops_before_connecting() {
    let mut s = server();
    s.step(Event::Done);
    match s.step(Event::Failed("Permission denied".to_string())) {
        Action::Finish(Err(RelayError::PipeCreation(PipeName::In, d))) => {
            assert_eq!(d, "Permission denied")
        }
        other => panic!("expected a pipe error, got {:?}", other),
    }
    assert!(matches!(s.step(Event::Done), Action::Nothing));
    assert!(matches!(s.step(Event::FifoExists), Action::Nothing));
    assert_eq!(s.stage(), Stage::Finished);
}

#[test]
fn out_pipe_failure_names_out() {
    let mut s = server();
    s.step(Event::Done);
    s.step(Event::Done);
    match s.step(Event::Failed("File exists".to_string())) {
        Action::Finish(Err(RelayError::PipeCreation(PipeName::Out, d))) => {
            assert_eq!(d, "File exists")
        }
        other => panic!("expected a pipe error, got {:?}", other),
    }
}

#[test]
fn directory_failure_is_reported() {
    let mut s = server();
    match s.step(Event::Failed("Read-only file system".to_string())) {
        Action::Finish(Err(RelayError::Directory(d))) => assert_eq!(d, "Read-only file system"),
        other => panic!("expected a directory error, got {:?}", other),
    }
    assert_eq!(s.stage(), Stage::Finished);
}

#[test]
fn unreachable_host_gives_connect_error() {
    let mut s = server();
    s.step(Event::Done);
    s.step(Event::Done);
    s.step(Event::Done);
    match s.step(Event::Failed("Connection refused".to_string())) {
        Action::Finish(Err(RelayError::Connect(d))) => assert_eq!(d, "Connection refused"),
        other => panic!("expected a connect error, got {:?}", other),
    }
    assert!(matches!(s.step(Event::Done), Action::Nothing));
    assert_eq!(s.stage(), Stage::Finished);
}

#[test]
fn relay_end_decides_the_result() {
    let mut s = server();
    for _ in 0..4 {
        s.step(Event::Done);
    }
    assert!(matches!(s.step(Event::Ended(DirectionEnd::Closed)), Action::Finish(Ok(()))));

    let mut s = server();
    for _ in 0..4 {
        s.step(Event::Done);
    }
    match s.step(Event::Ended(DirectionEnd::WriteFailed("Broken pipe".to_string()))) {
        Action::Finish(Err(RelayError::Write(d))) => assert_eq!(d, "Broken pipe"),
        other => panic!("expected a write error, got {:?}", other),
    }

    let mut s = server();
    for _ in 0..4 {
        s.step(Event::Done);
    }
    match s.step(Event::Ended(DirectionEnd::ReadFailed("reset".to_string()))) {
        Action::Finish(Err(RelayError::Read(d))) => assert_eq!(d, "reset"),
        other => panic!("expected a read error, got {:?}", other),
    }
}

#[test]
fn unrelated_event_leaves_stage() {
    let mut s = server();
    match s.step(Event::FifoExists) {
        Action::CreateDirectory(p) => assert_eq!(p, b"/tmp/irc/irc.example.test".to_vec()),
        other => panic!("expected a directory, got {:?}", other),
    }
    assert_eq!(s.stage(), Stage::CreatingDirectory);
    s.step(Event::Done);
    s.step(Event::Done);
    s.step(Event::Done);
    s.step(Event::Done);
    assert!(matches!(s.step(Event::Done), Action::Relay(_)));
    assert_eq!(s.stage(), Stage::Relaying);
}

#[test]
fn nul_in_path_is_refused() {
    match Server::new("irc\0host", 6667, "testnick", "/tmp/irc") {
        Err(RelayError::PipeCreation(PipeName::In, _)) => {}
        Err(e) => panic!("unexpected error {:?}", e),
        Ok(_) => panic!("a NUL byte was accepted"),
    }
    assert!(Server::new("irc.example.test", 1, "n", "/tmp/\0").is_err());
}

#[test]
fn paths_join_like_std() {
    assert_eq!(join(b"/tmp/irc", b"host"), b"/tmp/irc/host".to_vec());
    assert_eq!(join(b"/tmp/irc/", b"host"), b"/tmp/irc/host".to_vec());
    assert_eq!(join(b"", b"host"), b"host".to_vec());
    assert_eq!(join(b"/tmp/irc", b"/abs"), b"/abs".to_vec());
    assert_eq!(join(b"/tmp/irc", b""), b"/tmp/irc/".to_vec());
    let mut s = match Server::new("h", 1, "n", "base/") {
        Ok(s) => s,
        Err(e) => panic!("unexpected error {:?}", e),
    };
    assert_eq!(s.prefix().clone(), b"base/h".to_vec());
    assert_eq!(s.pipe_path(PipeName::In), b"base/h/in".to_vec());
    expect_pipe(s.step(Event::Done), b"base/h/in");
}

#[test]
fn nul_detection() {
    assert!(contains_nul(b"a\0b"));
    assert!(contains_nul(b"\0"));
    assert!(!contains_nul(b""));
    assert!(!contains_nul(b"/tmp/irc"));
}

#[test]
fn chunked_reads_keep_lines() {
    let mut b = LineBuffer::new();
    assert!(b.is_empty());
    assert_eq!(b.push(b"PI"), Vec::<Vec<u8>>::new());
    assert!(!b.is_empty());
    assert_eq!(b.push(b"NG a\nPRIV"), vec![b"PING a\n".to_vec()]);
    assert_eq!(
        b.push(b"MSG #c :hi\n\nJOIN #d\n"),
        vec![b"PRIVMSG #c :hi\n".to_vec(), b"\n".to_vec(), b"JOIN #d\n".to_vec()]
    );
    assert!(b.is_empty());
    assert_eq!(b.push(b"QUIT"), Vec::<Vec<u8>>::new());
    assert_eq!(b.take_rest(), Some(b"QUIT".to_vec()));
    assert_eq!(b.take_rest(), None);
}

#[test]
fn whole_and_split_reads_agree() {
    let stream: &[u8] = b"one\ntwo\nthree\nfour";
    let mut whole = LineBuffer::new();
    let all = whole.push(stream);
    for cut in 0..=stream.len() {
        let mut b = LineBuffer::new();
        let mut got = b.push(&stream[..cut]);
        got.extend(b.push(&stream[cut..]));
        assert_eq!(got, all);
        assert_eq!(b.take_rest(), Some(b"four".to_vec()));
    }
}

#[test]
fn line_text_drops_delimiters() {
    assert_eq!(line_text(b"PING :x\r\n"), b"PING :x".to_vec());
    assert_eq!(line_text(b"PING :x\n"), b"PING :x".to_vec());
    assert_eq!(line_text(b"PING :x"), b"PING :x".to_vec());
    assert_eq!(line_text(b"\r\n"), b"".to_vec());
    assert_eq!(line_text(b"a\r"), b"a\r".to_vec());
    assert_eq!(line_text(b""), b"".to_vec());
}

#[test]
fn inbound_ends_cleanly_on_eof() {
    let mut d = Direction::new(Way::SocketToOutput);
    assert_eq!(d.way(), Way::SocketToOutput);
    let got = d.on_read(ReadEvent::Data(b":srv 001 nick :hi\r\n:srv NOTICE".to_vec()));
    assert_eq!(got.lines, vec![b":srv 001 nick :hi\r\n".to_vec()]);
    let got = d.on_read(ReadEvent::Empty);
    assert_eq!(got.lines, vec![b":srv NOTICE".to_vec()]);
    assert!(matches!(got.next, Next::Stop(DirectionEnd::Closed)));
    assert!(d.is_stopped());
    let again = d.on_read(ReadEvent::Data(b"late\n".to_vec()));
    assert!(again.lines.is_empty());
    assert!(matches!(again.next, Next::Halted));
}

#[test]
fn outbound_waits_for_writer_on_empty_read() {
    let mut d = Direction::new(Way::PipeToSocket);
    let got = d.on_read(ReadEvent::Empty);
    assert!(got.lines.is_empty());
    assert!(matches!(got.next, Next::AwaitWriter));
    d.on_read(ReadEvent::Data(b"NICK x".to_vec()));
    let got = d.on_read(ReadEvent::Empty);
    assert_eq!(got.lines, vec![b"NICK x".to_vec()]);
    assert!(matches!(got.next, Next::AwaitWriter));
    assert!(!d.is_stopped());
}

#[test]
fn direction_failures_stop_it() {
    let mut d = Direction::new(Way::PipeToSocket);
    d.on_read(ReadEvent::Data(b"partial".to_vec()));
    match d.on_write_failed("Broken pipe".to_string()) {
        Next::Stop(DirectionEnd::WriteFailed(m)) => assert_eq!(m, "Broken pipe"),
        other => panic!("expected a write failure, got {:?}", other),
    }
    assert!(matches!(d.on_write_failed("again".to_string()), Next::Halted));

    let mut d = Direction::new(Way::SocketToOutput);
    match d.on_read(ReadEvent::Failed("reset".to_string())).next {
        Next::Stop(DirectionEnd::ReadFailed(m)) => assert_eq!(m, "reset"),
        other => panic!("expected a read failure, got {:?}", other),
    }
    assert!(matches!(d.on_read(ReadEvent::Empty).next, Next::Halted));
}

#[test]
fn directions_do_not_share_state() {
    let mut out = Direction::new(Way::PipeToSocket);
    let mut inb = Direction::new(Way::SocketToOutput);
    let a = out.on_read(ReadEvent::Data(b"PRIVMSG #c :ab".to_vec()));
    let b = inb.on_read(ReadEvent::Data(b":x PING :1\n:x PI".to_vec()));
    let c = out.on_read(ReadEvent::Data(b"c\n".to_vec()));
    let d = inb.on_read(ReadEvent::Data(b"NG :2\n".to_vec()));
    assert!(a.lines.is_empty());
    assert_eq!(b.lines, vec![b":x PING :1\n".to_vec()]);
    assert_eq!(c.lines, vec![b"PRIVMSG #c :abc\n".to_vec()]);
    assert_eq!(d.lines, vec![b":x PING :2\n".to_vec()]);
    let e = inb.on_read(ReadEvent::Empty);
    assert!(matches!(e.next, Next::Stop(DirectionEnd::Closed)));
    let f = out.on_read(ReadEvent::Data(b"QUIT\n".to_vec()));
    assert_eq!(f.lines, vec![b"QUIT\n".to_vec()]);
    assert!(matches!(f.next, Next::Read));
}
