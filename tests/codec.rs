use ftp::command::Command;
use ftp::data::{DataStructure, DataType, LogicalByteLength, PageType, TransferMode};
use ftp::port::parse_port;
use ftp::text::split;
use ftp::{decode_reply, parse_command, Code, Message};

#[test]
fn single_line_reply() {
    let m = Message::new(Code::CommandOk, "NOOP".to_string());
    assert_eq!(m.encode(), "200 NOOP\r\n");
    let m = Message::new(Code::RestartMarkerReply, String::new());
    assert_eq!(m.encode(), "110 \r\n");
}

#[test]
fn multi_line_reply() {
    let m = Message::new(Code::SystemStatus, "first\n2 starts with a digit\nlast".to_string());
    assert_eq!(m.encode(), "211-first\r\n  2 starts with a digit\r\n211 last\r\n");
    let m = Message::new(Code::HelpMessage, "9 lives\n".to_string());
    assert_eq!(m.encode(), "214-  9 lives\r\n214 \r\n");
}

#[test]
fn code_values() {
    assert_eq!(Code::CommandOk.value(), 200);
    assert_eq!(Code::FileNameNotAllowed.value(), 553);
    assert_eq!(Code::RestartMarkerReply.value(), 110);
    assert_eq!(Code::from_bytes(*b"200"), Some(Code::CommandOk));
    assert_eq!(Code::from_bytes(*b"530"), Some(Code::NotLoggedIn));
    assert_eq!(Code::from_bytes(*b"221"), Some(Code::ServiceClosing));
    assert_eq!(Code::from_bytes(*b"201"), None);
    assert_eq!(Code::from_bytes(*b"2x0"), None);
}

#[test]
fn decode_single_line() {
    let r = decode_reply(b"230 Logged in.\r\n332 next").unwrap();
    assert_eq!(&r.code, b"230");
    assert_eq!(r.separator, b' ');
    assert_eq!(r.text, b"Logged in.\r\n");
    assert_eq!(r.length, 16);
    assert!(decode_reply(b"230 Logged").is_none());
    assert!(decode_reply(b"23").is_none());
}

#[test]
fn decode_multi_line() {
    let input = b"211-first\r\n211-not the end\r\n  211 indented\r\n211 last\r\nrest";
    let r = decode_reply(input).unwrap();
    assert_eq!(&r.code, b"211");
    assert_eq!(r.separator, b'-');
    assert_eq!(r.text, b"first\r\n211-not the end\r\n  211 indented\r\n211 last\r\n");
    assert_eq!(r.length, input.len() - 4);
    assert!(decode_reply(b"211-first\r\n211-more\r\n").is_none());
}

#[test]
fn decode_round_trips_encode() {
    let m = Message::new(Code::SystemStatus, "one\n2\nthree".to_string());
    let wire = m.encode();
    let r = decode_reply(wire.as_bytes()).unwrap();
    assert_eq!(r.length, wire.len());
    assert_eq!(Code::from_bytes(r.code), Some(Code::SystemStatus));
}

#[test]
fn command_tokens() {
    assert!(matches!(parse_command(b"USER"), Ok(Some(Command::UserName))));
    assert!(matches!(parse_command(b"cwd "), Ok(Some(Command::ChangeWorkingDirectory))));
    assert!(matches!(parse_command(b"MKD\r"), Ok(Some(Command::MakeDirectory))));
    assert!(matches!(parse_command(b"xrmd"), Ok(Some(Command::RemoveDirectory))));
    assert!(matches!(parse_command(b"QUIT"), Ok(Some(Command::Logout))));
    assert!(matches!(parse_command(b"XYZZ"), Ok(None)));
    assert_eq!(parse_command(b"AB\r\n").err().unwrap().encode(), "500 Command not recognized.\r\n");
    assert_eq!(parse_command(b"ABC").err().unwrap().encode(), "500 Command not recognized.\r\n");
    assert_eq!(parse_command(b" A \n").err().unwrap().encode(), "500 Command not recognized.\r\n");
    assert_eq!(
        parse_command(b"\xc3\x28AB").err().unwrap().encode(),
        "502 Command was not valid UTF-8.\r\n"
    );
}

#[test]
fn port_arguments() {
    let e = parse_port("192,168,1,20,19,137").unwrap();
    assert_eq!(e.host, (192, 168, 1, 20));
    assert_eq!(e.port, 19 * 256 + 137);
    let e = parse_port("0,0,0,0,000,007").unwrap();
    assert_eq!(e.host, (0, 0, 0, 0));
    assert_eq!(e.port, 7);
    assert!(parse_port("1.2,3,4,5,6").is_none());
    assert!(parse_port("1,2,3,4,5,6,7").is_none());
    assert!(parse_port("1,2,3,4,5,").is_none());
    assert!(parse_port("").is_none());
}

#[test]
fn text_helpers() {
    assert_eq!(split("a,,b", ','), vec!["a", "", "b"]);
    assert_eq!(split("", ','), vec![""]);
}

#[test]
fn parameter_names() {
    assert_eq!(DataType::Ascii.name(), "ASCII");
    assert_eq!(DataType::Local(LogicalByteLength { bits: 8 }).name(), "Local byte");
    assert_eq!(DataStructure::Record.name(), "Record");
    assert_eq!(TransferMode::Compressed.name(), "Compressed");
    assert_eq!(PageType::Last.code(), 0);
    assert_eq!(PageType::AccessControlled.code(), 3);
}
