use ftp::mock::test_users;
use ftp::{greeting, parse_command, Config, Session};
use std::sync::Arc;

/// Sends one command line to the session and returns what it writes back.
fn send(session: &mut Session, line: &[u8]) -> String {
    let n = line.len().min(4);
    match parse_command(&line[..n]) {
        Err(reply) => reply.encode(),
        Ok(cmd) => {
            let step = session.command(cmd, &line[n..]);
            step.replies.iter().map(|m| m.encode()).collect()
        }
    }
}

/// A session rooted at `.`, greeted and logged in as `a`.
fn logged_in() -> Session {
    let mut session = Session::new(Arc::new(Config::new(test_users())), ".".to_string());
    let greeting: String = greeting().iter().map(|m| m.encode()).collect();
    assert_eq!(greeting, "220 Server ready for new user.\r\n332 Enter username.\r\n");
    assert_eq!(send(&mut session, b"USER a\r\n"), "331 Username Ok. Password needed.\r\n");
    assert_eq!(send(&mut session, b"PASS a\r\n"), "230 Logged in.\r\n");
    session
}

#[test]
fn simple_pwd() {
    let mut server = logged_in();
    assert_eq!(send(&mut server, b"PWD\r\n"), "200 .\r\n");
    assert_eq!(send(&mut server, b"QUIT\r\n"), "221 Goodbye!\r\n");
}

#[test]
fn ignores_args() {
    let mut server = logged_in();
    assert_eq!(send(&mut server, b"PWD abc123\r\n"), "200 .\r\n");
    assert_eq!(send(&mut server, b"QUIT\r\n"), "221 Goodbye!\r\n");
}
