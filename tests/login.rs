use ftp::mock::test_users;
use ftp::{greeting, parse_command, Action, Config, Session, Users};
use std::sync::Arc;

fn send(session: &mut Session, line: &[u8]) -> String {
    let n = line.len().min(4);
    match parse_command(&line[..n]) {
        Err(reply) => reply.encode(),
        Ok(cmd) => {
            let step = session.command(cmd, &line[n..]);
            assert!(matches!(step.action, Action::ReadCommand));
            step.replies.iter().map(|m| m.encode()).collect()
        }
    }
}

fn fresh() -> Session {
    Session::new(Arc::new(Config::new(test_users())), ".".to_string())
}

#[test]
fn greeting_comes_first() {
    let replies = greeting();
    assert_eq!(replies.len(), 2);
    assert_eq!(replies[0].encode(), "220 Server ready for new user.\r\n");
    assert_eq!(replies[1].encode(), "332 Enter username.\r\n");
}

#[test]
fn login_succeeds() {
    let mut session = fresh();
    assert_eq!(send(&mut session, b"USER a\r\n"), "331 Username Ok. Password needed.\r\n");
    assert_eq!(send(&mut session, b"PASS a\r\n"), "230 Logged in.\r\n");
}

#[test]
fn lower_case_commands_are_accepted() {
    let mut session = fresh();
    assert_eq!(send(&mut session, b"user b\r\n"), "331 Username Ok. Password needed.\r\n");
    assert_eq!(send(&mut session, b"pass b\n"), "230 Logged in.\r\n");
}

#[test]
fn wrong_password_keeps_the_user_name() {
    let mut session = fresh();
    assert_eq!(send(&mut session, b"USER a\r\n"), "331 Username Ok. Password needed.\r\n");
    assert_eq!(send(&mut session, b"PASS wrong\r\n"), "530 Incorrect password.\r\n");
    assert_eq!(send(&mut session, b"PASS a\r\n"), "230 Logged in.\r\n");
}

#[test]
fn arguments_are_trimmed_of_unicode_white_space() {
    let mut session = fresh();
    let line = "USER\u{a0}\tb\u{3000}\r\n";
    assert_eq!(send(&mut session, line.as_bytes()), "331 Username Ok. Password needed.\r\n");
    assert_eq!(send(&mut session, "PASS \u{2003}b \r\n".as_bytes()), "230 Logged in.\r\n");
}

#[test]
fn password_of_another_user_is_refused() {
    let mut session = fresh();
    assert_eq!(send(&mut session, b"USER a\r\n"), "331 Username Ok. Password needed.\r\n");
    assert_eq!(send(&mut session, b"PASS b\r\n"), "530 Incorrect password.\r\n");
}

#[test]
fn unknown_user() {
    let mut session = fresh();
    assert_eq!(send(&mut session, b"USER nosuchuser\r\n"), "530 User does not exist.\r\n");
    assert_eq!(send(&mut session, b"PASS a\r\n"), "503 Expected `USER`.\r\n");
}

#[test]
fn password_before_user() {
    let mut session = fresh();
    assert_eq!(send(&mut session, b"PASS a\r\n"), "503 Expected `USER`.\r\n");
}

#[test]
fn empty_user_name() {
    let mut session = fresh();
    assert_eq!(send(&mut session, b"USER   \r\n"), "501 Username may not be empty.\r\n");
}

#[test]
fn configured_users_can_log_in() {
    let mut users = Users::new();
    users.insert("carol".to_string(), "first".to_string());
    users.insert("carol".to_string(), "second".to_string());
    let mut session = Session::new(Arc::new(Config::new(users)), "/".to_string());
    assert_eq!(send(&mut session, b"USER carol\r\n"), "331 Username Ok. Password needed.\r\n");
    assert_eq!(send(&mut session, b"PASS first\r\n"), "530 Incorrect password.\r\n");
    assert_eq!(send(&mut session, b"PASS second\r\n"), "230 Logged in.\r\n");
    assert_eq!(send(&mut session, b"USER a\r\n"), "530 User does not exist.\r\n");
}

#[test]
fn test_users_have_their_names_as_passwords() {
    let users = test_users();
    assert_eq!(users.password(&"a".to_string()).map(|p| p.as_str()), Some("a"));
    assert_eq!(users.password(&"b".to_string()).map(|p| p.as_str()), Some("b"));
    assert_eq!(users.password(&"c".to_string()), None);
}
