use ftp::mock::test_users;
use ftp::{parse_command, Action, Config, Effect, Outcome, Session, Step};
use std::sync::Arc;

fn text(step: &Step) -> String {
    step.replies.iter().map(|m| m.encode()).collect()
}

/// Sends one command line, answers each effect with `respond`, and returns what the
/// session writes back and whether it asked to close the connection.
fn exchange(
    session: &mut Session,
    line: &[u8],
    mut respond: impl FnMut(&Effect) -> Outcome,
) -> (String, bool) {
    let n = line.len().min(4);
    let cmd = match parse_command(&line[..n]) {
        Err(reply) => return (reply.encode(), false),
        Ok(cmd) => cmd,
    };
    let mut step = session.command(cmd, &line[n..]);
    let mut out = text(&step);
    loop {
        match step.action {
            Action::ReadCommand => return (out, false),
            Action::Close => return (out, true),
            Action::Perform(effect) => {
                let outcome = respond(&effect);
                assert!(session.expects(&outcome));
                step = session.resume(outcome);
                out.push_str(&text(&step));
            }
        }
    }
}

/// Sends a command that needs no effect.
fn send(session: &mut Session, line: &[u8]) -> String {
    exchange(session, line, |e| panic!("unexpected effect {}", describe(e))).0
}

fn describe(effect: &Effect) -> String {
    match effect {
        Effect::CheckDirectory(p) => format!("is-dir {}", p),
        Effect::CheckExists(p) => format!("exists {}", p),
        Effect::CreateDirectory(p) => format!("mkdir {}", p),
        Effect::RemoveDirectory(p) => format!("rmdir {}", p),
        Effect::ListDirectory(p) => format!("list {}", p),
        Effect::Connect(e) => format!(
            "connect {}.{}.{}.{}:{}",
            e.host.0, e.host.1, e.host.2, e.host.3, e.port
        ),
        Effect::Send(t) => format!("send {:?}", t),
    }
}

fn session() -> Session {
    Session::new(Arc::new(Config::new(test_users())), ".".to_string())
}

#[test]
fn cwd_into_directories_then_pwd() {
    let mut s = session();
    let mut asked = Vec::new();
    let (out, _) = exchange(&mut s, b"CWD sub\r\n", |e| {
        asked.push(describe(e));
        Outcome::Answer(true)
    });
    assert_eq!(out, "200 Changed directory.\r\n");
    let (out, _) = exchange(&mut s, b"XCWD deeper\r\n", |e| {
        asked.push(describe(e));
        Outcome::Answer(true)
    });
    assert_eq!(out, "200 Changed directory.\r\n");
    assert_eq!(asked, vec!["is-dir ./sub", "is-dir ./sub/deeper"]);
    assert_eq!(send(&mut s, b"PWD\r\n"), "200 ./sub/deeper\r\n");
    assert_eq!(send(&mut s, b"XPWD\r\n"), "200 ./sub/deeper\r\n");
}

#[test]
fn cwd_to_absolute_path() {
    let mut s = session();
    let (out, _) = exchange(&mut s, b"CWD /tmp\r\n", |_| Outcome::Answer(true));
    assert_eq!(out, "200 Changed directory.\r\n");
    assert_eq!(send(&mut s, b"PWD\r\n"), "200 /tmp\r\n");
}

#[test]
fn cwd_into_non_directory_keeps_path() {
    let mut s = session();
    let (out, _) = exchange(&mut s, b"CWD file.txt\r\n", |_| Outcome::Answer(false));
    assert_eq!(out, "501 Path is not a directory.\r\n");
    assert_eq!(send(&mut s, b"PWD\r\n"), "200 .\r\n");
}

#[test]
fn mkd_twice_replies_257_both_times() {
    let mut s = session();
    let mut created = false;
    let mut asked = Vec::new();
    for _ in 0..2 {
        let (out, _) = exchange(&mut s, b"MKD new\r\n", |e| {
            asked.push(describe(e));
            match e {
                Effect::CheckExists(_) => Outcome::Answer(created),
                Effect::CreateDirectory(_) => {
                    created = true;
                    Outcome::Finished(Ok(()))
                }
                _ => panic!("unexpected effect"),
            }
        });
        assert_eq!(out, "257 Successfully created \"./new\".\r\n");
    }
    assert_eq!(asked, vec!["exists ./new", "mkdir ./new", "exists ./new"]);
}

#[test]
fn mkd_failure_is_reported() {
    let mut s = session();
    let (out, _) = exchange(&mut s, b"XMKD locked\r\n", |e| match e {
        Effect::CheckExists(_) => Outcome::Answer(false),
        _ => Outcome::Finished(Err("Permission denied (os error 13)".to_string())),
    });
    assert_eq!(
        out,
        "550 Error creating \"./locked\": Permission denied (os error 13).\r\n"
    );
}

#[test]
fn rmd_of_missing_path() {
    let mut s = session();
    let (out, _) = exchange(&mut s, b"RMD gone\r\n", |_| Outcome::Answer(false));
    assert_eq!(
        out,
        "550 Error removing \"./gone\": No such file or directory.\r\n"
    );
}

#[test]
fn rmd_success_and_failure() {
    let mut s = session();
    let (out, _) = exchange(&mut s, b"XRMD empty\r\n", |e| match e {
        Effect::CheckExists(_) => Outcome::Answer(true),
        Effect::RemoveDirectory(p) => {
            assert_eq!(p, "./empty");
            Outcome::Finished(Ok(()))
        }
        _ => panic!("unexpected effect"),
    });
    assert_eq!(out, "250 Successfully deleted \"./empty\".\r\n");
    let (out, _) = exchange(&mut s, b"RMD full\r\n", |e| match e {
        Effect::CheckExists(_) => Outcome::Answer(true),
        _ => Outcome::Finished(Err("Directory not empty (os error 39)".to_string())),
    });
    assert_eq!(
        out,
        "450 Error deleting \"./full\": Directory not empty (os error 39).\r\n"
    );
}

#[test]
fn type_validation() {
    let mut s = session();
    assert_eq!(send(&mut s, b"TYPE L 8\r\n"), "200 Type is now Local byte.\r\n");
    assert_eq!(send(&mut s, b"TYPE L 7\r\n"), "504 Only 8-bit bytes are supported.\r\n");
    assert_eq!(send(&mut s, b"TYPE X\r\n"), "504 Unknown TYPE: X.\r\n");
    assert_eq!(send(&mut s, b"TYPE\r\n"), "501 Missing argument.\r\n");
    assert_eq!(send(&mut s, b"TYPE a\r\n"), "200 Type is now ASCII.\r\n");
    assert_eq!(send(&mut s, b"TYPE E\r\n"), "200 Type is now EBCDIC.\r\n");
    assert_eq!(send(&mut s, b"type i\r\n"), "200 Type is now Image.\r\n");
    assert_eq!(send(&mut s, b"TYPE L8\r\n"), "200 Type is now Local byte.\r\n");
}

#[test]
fn structure_and_mode() {
    let mut s = session();
    assert_eq!(send(&mut s, b"STRU R\r\n"), "200 Structure is now Record.\r\n");
    assert_eq!(send(&mut s, b"STRU p\r\n"), "200 Structure is now Page.\r\n");
    assert_eq!(send(&mut s, b"STRU F\r\n"), "200 Structure is now File.\r\n");
    assert_eq!(send(&mut s, b"STRU Q\r\n"), "504 Unknown STRUcture: Q.\r\n");
    assert_eq!(send(&mut s, b"STRU\r\n"), "501 Missing argument.\r\n");
    assert_eq!(send(&mut s, b"MODE B\r\n"), "200 Transfer mode is now Block.\r\n");
    assert_eq!(send(&mut s, b"MODE c\r\n"), "200 Transfer mode is now Compressed.\r\n");
    assert_eq!(send(&mut s, b"MODE s\r\n"), "200 Transfer mode is now Stream.\r\n");
    assert_eq!(send(&mut s, b"MODE Z\r\n"), "504 Unknown transfer mode: Z.\r\n");
    assert_eq!(send(&mut s, b"MODE \r\n"), "501 Missing argument.\r\n");
}

#[test]
fn opts_and_noop() {
    let mut s = session();
    assert_eq!(send(&mut s, b"OPTS UTF8 ON\r\n"), "200 Ok, UTF-8 enabled.\r\n");
    assert_eq!(send(&mut s, b"opts utf8 on\r\n"), "200 Ok, UTF-8 enabled.\r\n");
    assert_eq!(send(&mut s, b"OPTS UTF8 OFF\r\n"), "502 Unknown option.\r\n");
    assert_eq!(send(&mut s, b"NOOP\r\n"), "200 NOOP\r\n");
}

#[test]
fn quit_ends_the_session() {
    let mut s = session();
    let (out, close) = exchange(&mut s, b"QUIT\r\n", |_| panic!("unexpected effect"));
    assert_eq!(out, "221 Goodbye!\r\n");
    assert!(close);
    let (out, close) = exchange(&mut s, b"NOOP\r\n", |_| panic!("unexpected effect"));
    assert_eq!(out, "");
    assert!(close);
    let (out, close) = exchange(&mut s, b"USER a\r\n", |_| panic!("unexpected effect"));
    assert_eq!(out, "");
    assert!(close);
}

#[test]
fn unrecognized_tokens_change_nothing() {
    let mut s = session();
    assert_eq!(send(&mut s, b"TYPE I\r\n"), "200 Type is now Image.\r\n");
    assert_eq!(send(&mut s, b"XYZZ\r\n"), "500 Command not recognized.\r\n");
    assert_eq!(send(&mut s, b"XYZZ something\r\n"), "500 Command not recognized.\r\n");
    assert_eq!(send(&mut s, b"AB\r\n"), "500 Command not recognized.\r\n");
    assert_eq!(send(&mut s, b"PWD\n"), "500 Command not recognized.\r\n");
    assert_eq!(send(&mut s, b"PWD\r\n"), "200 .\r\n");
    // The data type chosen before is still in force: TYPE L 7 fails and leaves it.
    assert_eq!(send(&mut s, b"TYPE L 7\r\n"), "504 Only 8-bit bytes are supported.\r\n");
}

#[test]
fn invalid_utf8_token() {
    let mut s = session();
    assert_eq!(send(&mut s, b"\xff\xfeAB\r\n"), "502 Command was not valid UTF-8.\r\n");
}

#[test]
fn invalid_utf8_argument() {
    let mut s = session();
    assert_eq!(send(&mut s, b"USER \xff\r\n"), "501 Argument was not valid UTF-8.\r\n");
    assert_eq!(send(&mut s, b"QQQQ \xff\r\n"), "500 Command not recognized.\r\n");
}

#[test]
fn unimplemented_commands() {
    let mut s = session();
    for line in [&b"RETR a\r\n"[..], b"STOR b\r\n", b"LIST\r\n", b"PASV\r\n", b"SYST\r\n", b"DELE x\r\n"] {
        assert_eq!(send(&mut s, line), "502 Command not implemented.\r\n");
    }
}

#[test]
fn port_opens_data_connection() {
    let mut s = session();
    let mut asked = Vec::new();
    let (out, _) = exchange(&mut s, b"PORT 127,0,0,1,4,1\r\n", |e| {
        asked.push(describe(e));
        Outcome::Finished(Ok(()))
    });
    assert_eq!(out, "200 Changed port.\r\n");
    assert_eq!(asked, vec!["connect 127.0.0.1:1025"]);
}

#[test]
fn port_failure_and_bad_arguments() {
    let mut s = session();
    let (out, _) = exchange(&mut s, b"PORT 10,0,0,2,255,255\r\n", |e| {
        assert_eq!(describe(e), "connect 10.0.0.2:65535");
        Outcome::Finished(Err("Connection refused (os error 111)".to_string()))
    });
    assert_eq!(
        out,
        "425 Cannot open data connection: Connection refused (os error 111).\r\n"
    );
    let bad = "501 Invalid PORT argument: expected h1,h2,h3,h4,p1,p2.\r\n";
    assert_eq!(send(&mut s, b"PORT 127,0,0,1,4\r\n"), bad);
    assert_eq!(send(&mut s, b"PORT 256,0,0,1,4,1\r\n"), bad);
    assert_eq!(send(&mut s, b"PORT 127,0,0,01,4,1\r\n"), bad);
    assert_eq!(send(&mut s, b"PORT 127,0,0,1,4,256\r\n"), bad);
    assert_eq!(send(&mut s, b"PORT 127,0,x,1,4,1\r\n"), bad);
    assert_eq!(send(&mut s, b"PORT\r\n"), bad);
}

#[test]
fn nlst_without_data_connection() {
    let mut s = session();
    let (out, _) = exchange(&mut s, b"NLST\r\n", |e| {
        assert_eq!(describe(e), "list ./");
        Outcome::Listing(Ok(vec![Some("a".to_string())]))
    });
    assert_eq!(out, "150 Connecting to data port.\r\n425 No data connection\r\n");
}

#[test]
fn nlst_sends_names_over_data_connection() {
    let mut s = session();
    let (out, _) = exchange(&mut s, b"PORT 127,0,0,1,4,1\r\n", |_| Outcome::Finished(Ok(())));
    assert_eq!(out, "200 Changed port.\r\n");
    let mut sent = Vec::new();
    let (out, _) = exchange(&mut s, b"NLST sub\r\n", |e| match e {
        Effect::ListDirectory(p) => {
            assert_eq!(p, "./sub");
            Outcome::Listing(Ok(vec![Some("one".to_string()), None, Some("two".to_string())]))
        }
        Effect::Send(t) => {
            sent.push(t.clone());
            Outcome::Finished(Ok(()))
        }
        _ => panic!("unexpected effect"),
    });
    assert_eq!(out, "150 Connecting to data port.\r\n226 Closing connection\r\n");
    assert_eq!(sent, vec!["one\r\nInvalid UTF-8.\r\ntwo\r\n".to_string()]);
    // The data connection is used once.
    let (out, _) = exchange(&mut s, b"NLST sub\r\n", |_| Outcome::Listing(Ok(vec![])));
    assert_eq!(out, "150 Connecting to data port.\r\n425 No data connection\r\n");
}

#[test]
fn nlst_empty_listing_and_errors() {
    let mut s = session();
    exchange(&mut s, b"PORT 127,0,0,1,4,1\r\n", |_| Outcome::Finished(Ok(())));
    let (out, _) = exchange(&mut s, b"NLST\r\n", |e| match e {
        Effect::ListDirectory(_) => Outcome::Listing(Ok(vec![])),
        Effect::Send(t) => {
            assert_eq!(t, "\r\n");
            Outcome::Finished(Err("Broken pipe (os error 32)".to_string()))
        }
        _ => panic!("unexpected effect"),
    });
    assert_eq!(
        out,
        "150 Connecting to data port.\r\n425 Data connection failed: Broken pipe (os error 32).\r\n"
    );
    let (out, _) = exchange(&mut s, b"NLST nowhere\r\n", |_| {
        Outcome::Listing(Err("No such file or directory (os error 2)".to_string()))
    });
    assert_eq!(
        out,
        "550 Error listing \"./nowhere\": No such file or directory (os error 2).\r\n"
    );
}

#[test]
fn waiting_session_expects_matching_outcome() {
    let mut s = session();
    assert!(!s.is_waiting());
    let step = s.command(parse_command(b"CWD ").unwrap(), b"sub\r\n");
    assert!(matches!(step.action, Action::Perform(Effect::CheckDirectory(_))));
    assert!(s.is_waiting());
    assert!(s.expects(&Outcome::Answer(true)));
    assert!(!s.expects(&Outcome::Finished(Ok(()))));
    let step = s.resume(Outcome::Answer(true));
    assert_eq!(text(&step), "200 Changed directory.\r\n");
    assert!(!s.is_waiting());
}
