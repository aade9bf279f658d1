//! Reply codes and the replies that the server sends on the control connection.
use crate::text::{split, split_on, lemma_split_on_len};
use vstd::prelude::*;
use vstd::string::*;

verus! {

/// A three-digit reply code. The first digit groups the codes: 1 preliminary, 2 success,
/// 3 more input needed, 4 transient failure, 5 permanent failure.
#[derive(Clone, Copy, Debug, PartialEq, Eq, Structural)]
pub enum Code {
    /// 110: Restart marker reply.
    RestartMarkerReply,
    /// 120: Service ready in a number of minutes.
    ServiceReadyInNNNMinutes,
    /// 125: Data connection already open; transfer starting.
    DataConnectionAlreadyOpen,
    /// 150: File status okay; about to open data connection.
    FileStatusOk,
    /// 200: Command okay.
    CommandOk,
    /// 202: Command not implemented, superfluous at this site.
    CommandNotImplementedSuperfluousAtThisSite,
    /// 211: System status, or system help reply.
    SystemStatus,
    /// 212: Directory status.
    DirectoryStatus,
    /// 213: File status.
    FileStatus,
    /// 214: Help message.
    HelpMessage,
    /// 215: Name of the system type.
    SystemTypeName,
    /// 220: Service ready for new user.
    ServiceReadyForNewUser,
    /// 221: Service closing control connection.
    ServiceClosing,
    /// 225: Data connection open; no transfer in progress.
    DataConnectionOpen,
    /// 226: Closing data connection; requested action successful.
    ClosingDataConnection,
    /// 227: Entering passive mode.
    EnteringPassiveMode,
    /// 230: User logged in, proceed.
    UserLoggedIn,
    /// 250: Requested file action okay, completed.
    RequestedFileActionComplete,
    /// 257: Path name created.
    PathNameCreated,
    /// 331: User name okay, need password.
    UserNameOkPasswordNeeded,
    /// 332: Need account for login.
    NeedAccountForLogin,
    /// 350: Requested file action pending further information.
    RequestPendingMoreInformation,
    /// 421: Service not available, closing control connection.
    ServiceNotAvailable,
    /// 425: Can't open data connection.
    CannotOpenDataConnection,
    /// 426: Connection closed; transfer aborted.
    ConnectionClosed,
    /// 450: Requested file action not taken.
    ActionNotTaken,
    /// 451: Requested action aborted: local error in processing.
    ActionAborted,
    /// 452: Requested action not taken: insufficient storage space.
    ActionNotTakenInsufficientStorage,
    /// 500: Syntax error, command unrecognized.
    CommandUnrecognized,
    /// 501: Syntax error in parameters or arguments.
    InvalidParametersOrArguments,
    /// 502: Command not implemented.
    CommandNotImplemented,
    /// 503: Bad sequence of commands.
    BadSequenceOfCommands,
    /// 504: Command not implemented for that parameter.
    CommandNotImplementedForThatParameter,
    /// 530: Not logged in.
    NotLoggedIn,
    /// 532: Need account for storing files.
    NeedAccountForStoringFiles,
    /// 550: Requested action not taken: file unavailable.
    FileUnavailable,
    /// 551: Requested action aborted: page type unknown.
    PageTypeUnknown,
    /// 552: Requested file action aborted: exceeded storage allocation.
    ExceededStorageAllocation,
    /// 553: Requested action not taken: file name not allowed.
    FileNameNotAllowed,
}

/// The three ASCII digits that spell `v` in decimal.
pub open spec fn digits_of(v: u16) -> Seq<u8> {
    seq![(48 + v / 100) as u8, (48 + (v / 10) % 10) as u8, (48 + v % 10) as u8]
}

impl Code {
    /// The numeric value of the code.
    pub open spec fn spec_value(self) -> u16 {
        match self {
            Code::RestartMarkerReply => 110,
            Code::ServiceReadyInNNNMinutes => 120,
            Code::DataConnectionAlreadyOpen => 125,
            Code::FileStatusOk => 150,
            Code::CommandOk => 200,
            Code::CommandNotImplementedSuperfluousAtThisSite => 202,
            Code::SystemStatus => 211,
            Code::DirectoryStatus => 212,
            Code::FileStatus => 213,
            Code::HelpMessage => 214,
            Code::SystemTypeName => 215,
            Code::ServiceReadyForNewUser => 220,
            Code::ServiceClosing => 221,
            Code::DataConnectionOpen => 225,
            Code::ClosingDataConnection => 226,
            Code::EnteringPassiveMode => 227,
            Code::UserLoggedIn => 230,
            Code::RequestedFileActionComplete => 250,
            Code::PathNameCreated => 257,
            Code::UserNameOkPasswordNeeded => 331,
            Code::NeedAccountForLogin => 332,
            Code::RequestPendingMoreInformation => 350,
            Code::ServiceNotAvailable => 421,
            Code::CannotOpenDataConnection => 425,
            Code::ConnectionClosed => 426,
            Code::ActionNotTaken => 450,
            Code::ActionAborted => 451,
            Code::ActionNotTakenInsufficientStorage => 452,
            Code::CommandUnrecognized => 500,
            Code::InvalidParametersOrArguments => 501,
            Code::CommandNotImplemented => 502,
            Code::BadSequenceOfCommands => 503,
            Code::CommandNotImplementedForThatParameter => 504,
            Code::NotLoggedIn => 530,
            Code::NeedAccountForStoringFiles => 532,
            Code::FileUnavailable => 550,
            Code::PageTypeUnknown => 551,
            Code::ExceededStorageAllocation => 552,
            Code::FileNameNotAllowed => 553,
        }
    }

    /// The code as it is written on the wire: three ASCII digits.
    pub open spec fn spec_digits(self) -> Seq<u8> {
        digits_of(self.spec_value())
    }

    /// The numeric value of the code.
    pub fn value(&self) -> (r: u16)
        ensures
            r == self.spec_value(),
    {
        match self {
            Code::RestartMarkerReply => 110,
            Code::ServiceReadyInNNNMinutes => 120,
            Code::DataConnectionAlreadyOpen => 125,
            Code::FileStatusOk => 150,
            Code::CommandOk => 200,
            Code::CommandNotImplementedSuperfluousAtThisSite => 202,
            Code::SystemStatus => 211,
            Code::DirectoryStatus => 212,
            Code::FileStatus => 213,
            Code::HelpMessage => 214,
            Code::SystemTypeName => 215,
            Code::ServiceReadyForNewUser => 220,
            Code::ServiceClosing => 221,
            Code::DataConnectionOpen => 225,
            Code::ClosingDataConnection => 226,
            Code::EnteringPassiveMode => 227,
            Code::UserLoggedIn => 230,
            Code::RequestedFileActionComplete => 250,
            Code::PathNameCreated => 257,
            Code::UserNameOkPasswordNeeded => 331,
            Code::NeedAccountForLogin => 332,
            Code::RequestPendingMoreInformation => 350,
            Code::ServiceNotAvailable => 421,
            Code::CannotOpenDataConnection => 425,
            Code::ConnectionClosed => 426,
            Code::ActionNotTaken => 450,
            Code::ActionAborted => 451,
            Code::ActionNotTakenInsufficientStorage => 452,
            Code::CommandUnrecognized => 500,
            Code::InvalidParametersOrArguments => 501,
            Code::CommandNotImplemented => 502,
            Code::BadSequenceOfCommands => 503,
            Code::CommandNotImplementedForThatParameter => 504,
            Code::NotLoggedIn => 530,
            Code::NeedAccountForStoringFiles => 532,
            Code::FileUnavailable => 550,
            Code::PageTypeUnknown => 551,
            Code::ExceededStorageAllocation => 552,
            Code::FileNameNotAllowed => 553,
        }
    }

    /// The code whose numeric value is `v`, if there is one.
    fn from_value(v: u16) -> (r: Option<Code>)
        ensures
            r matches Some(c) ==> c.spec_value() == v,
            r is None ==> forall|c: Code| #[trigger] c.spec_value() != v,
    {
        match v {
            110 => Some(Code::RestartMarkerReply),
            120 => Some(Code::ServiceReadyInNNNMinutes),
            125 => Some(Code::DataConnectionAlreadyOpen),
            150 => Some(Code::FileStatusOk),
            200 => Some(Code::CommandOk),
            202 => Some(Code::CommandNotImplementedSuperfluousAtThisSite),
            211 => Some(Code::SystemStatus),
            212 => Some(Code::DirectoryStatus),
            213 => Some(Code::FileStatus),
            214 => Some(Code::HelpMessage),
            215 => Some(Code::SystemTypeName),
            220 => Some(Code::ServiceReadyForNewUser),
            221 => Some(Code::ServiceClosing),
            225 => Some(Code::DataConnectionOpen),
            226 => Some(Code::ClosingDataConnection),
            227 => Some(Code::EnteringPassiveMode),
            230 => Some(Code::UserLoggedIn),
            250 => Some(Code::RequestedFileActionComplete),
            257 => Some(Code::PathNameCreated),
            331 => Some(Code::UserNameOkPasswordNeeded),
            332 => Some(Code::NeedAccountForLogin),
            350 => Some(Code::RequestPendingMoreInformation),
            421 => Some(Code::ServiceNotAvailable),
            425 => Some(Code::CannotOpenDataConnection),
            426 => Some(Code::ConnectionClosed),
            450 => Some(Code::ActionNotTaken),
            451 => Some(Code::ActionAborted),
            452 => Some(Code::ActionNotTakenInsufficientStorage),
            500 => Some(Code::CommandUnrecognized),
            501 => Some(Code::InvalidParametersOrArguments),
            502 => Some(Code::CommandNotImplemented),
            503 => Some(Code::BadSequenceOfCommands),
            504 => Some(Code::CommandNotImplementedForThatParameter),
            530 => Some(Code::NotLoggedIn),
            532 => Some(Code::NeedAccountForStoringFiles),
            550 => Some(Code::FileUnavailable),
            551 => Some(Code::PageTypeUnknown),
            552 => Some(Code::ExceededStorageAllocation),
            553 => Some(Code::FileNameNotAllowed),
            _ => None,
        }
    }

    /// Every code has three decimal digits.
    pub proof fn lemma_three_digits(self)
        ensures
            100 <= self.spec_value() < 1000,
    {
    }

    /// The code spelled by three ASCII digits; `None` for bytes that spell no known code.
    pub fn from_bytes(s: [u8; 3]) -> (r: Option<Code>)
        ensures
            r matches Some(c) ==> c.spec_digits() == s@,
            r is None ==> forall|c: Code| #[trigger] c.spec_digits() != s@,
    {
        let d0 = s[0];
        let d1 = s[1];
        let d2 = s[2];
        if d0 < 48 || d0 > 57 || d1 < 48 || d1 > 57 || d2 < 48 || d2 > 57 {
            assert forall|c: Code| #[trigger] c.spec_digits() != s@ by {
                c.lemma_three_digits();
                lemma_digits_of(c.spec_value(), s@);
            }
            return None;
        }
        let v: u16 = (d0 - 48) as u16 * 100 + (d1 - 48) as u16 * 10 + (d2 - 48) as u16;
        let r = Code::from_value(v);
        assert forall|c: Code| #[trigger] c.spec_digits() == s@ <==> c.spec_value() == v by {
            c.lemma_three_digits();
            lemma_digits_of(c.spec_value(), s@);
        }
        r
    }
}

/// Three bytes spell a three-digit number exactly when they are its decimal digits.
proof fn lemma_digits_of(w: u16, s: Seq<u8>)
    requires
        100 <= w < 1000,
        s.len() == 3,
    ensures
        digits_of(w) == s <==> (48 <= s[0] <= 57 && 48 <= s[1] <= 57 && 48 <= s[2] <= 57 && w
            == 100 * (s[0] - 48) + 10 * (s[1] - 48) + (s[2] - 48)),
{
    let a = w / 100;
    let b = (w / 10) % 10;
    let c = w % 10;
    assert(w == 100 * a + 10 * b + c && 1 <= a <= 9 && 0 <= b <= 9 && 0 <= c <= 9) by {
        assert(w == 10 * (w / 10) + w % 10);
        assert(w / 10 == 10 * ((w / 10) / 10) + (w / 10) % 10);
        assert((w / 10) / 10 == w / 100);
    }
    if digits_of(w) == s {
        assert(digits_of(w)[0] == s[0] && digits_of(w)[1] == s[1] && digits_of(w)[2] == s[2]);
    }
    if 48 <= s[0] <= 57 && 48 <= s[1] <= 57 && 48 <= s[2] <= 57 && w == 100 * (s[0] - 48) + 10 * (
    s[1] - 48) + (s[2] - 48) {
        assert(a == s[0] - 48 && b == s[1] - 48 && c == s[2] - 48);
        assert(digits_of(w) =~= s);
    }
}

/// A reply: a code and human-readable text, which may span several lines.
#[derive(Debug)]
pub struct Message {
    pub code: Code,
    pub text: String,
}

/// A reply, as the contracts see it.
pub struct MessageView {
    pub code: Code,
    pub text: Seq<char>,
}

impl View for Message {
    type V = MessageView;

    open spec fn view(&self) -> MessageView {
        MessageView { code: self.code, text: self.text@ }
    }
}

/// The reply that `code` and `text` make.
pub open spec fn reply(code: Code, text: Seq<char>) -> MessageView {
    MessageView { code, text }
}

/// The line terminator of the protocol.
pub open spec fn crlf() -> Seq<char> {
    seq!['\r', '\n']
}

pub open spec fn is_ascii_digit(c: char) -> bool {
    '0' <= c <= '9'
}

/// The code as text: its three digits.
pub open spec fn code_chars(code: Code) -> Seq<char> {
    code.spec_digits().map_values(|b: u8| b as char)
}

/// Two spaces before a continuation line that begins with a digit, so that it cannot be
/// taken for the line that ends the reply.
pub open spec fn indent(line: Seq<char>) -> Seq<char> {
    if line.len() > 0 && is_ascii_digit(line[0]) {
        seq![' ', ' ']
    } else {
        Seq::empty()
    }
}

/// The continuation lines of a multi-line reply, each ended by the line terminator.
pub open spec fn continuation(lines: Seq<Seq<char>>) -> Seq<char>
    decreases lines.len(),
{
    if lines.len() == 0 {
        Seq::empty()
    } else {
        continuation(lines.drop_last()) + indent(lines.last()) + lines.last() + crlf()
    }
}

/// The wire form of a reply. A one-line text gives `"<code> <text>\r\n"`. A text of several
/// lines gives `"<code>-"`, then each line but the last followed by the terminator (indented
/// when it begins with a digit), then `"<code> <last line>\r\n"`.
pub open spec fn encode_spec(code: Code, text: Seq<char>) -> Seq<char> {
    let lines = split_on(text, '\n');
    if lines.len() <= 1 {
        code_chars(code) + seq![' '] + text + crlf()
    } else {
        code_chars(code) + seq!['-'] + continuation(lines.drop_last()) + code_chars(code) + seq![' ']
            + lines.last() + crlf()
    }
}

/// The decimal digit `d` as text.
fn digit_text(d: u16) -> (r: &'static str)
    requires
        d < 10,
    ensures
        r@ == seq![((48 + d) as u8) as char],
{
    match d {
        0 => {
            proof { reveal_strlit("0"); }
            "0"
        },
        1 => {
            proof { reveal_strlit("1"); }
            "1"
        },
        2 => {
            proof { reveal_strlit("2"); }
            "2"
        },
        3 => {
            proof { reveal_strlit("3"); }
            "3"
        },
        4 => {
            proof { reveal_strlit("4"); }
            "4"
        },
        5 => {
            proof { reveal_strlit("5"); }
            "5"
        },
        6 => {
            proof { reveal_strlit("6"); }
            "6"
        },
        7 => {
            proof { reveal_strlit("7"); }
            "7"
        },
        8 => {
            proof { reveal_strlit("8"); }
            "8"
        },
        _ => {
            proof { reveal_strlit("9"); }
            "9"
        },
    }
}

/// The code as text.
pub fn code_text(code: Code) -> (r: String)
    ensures
        r@ == code_chars(code),
{
    let v = code.value();
    proof {
        code.lemma_three_digits();
    }
    let mut r = String::new();
    r.append(digit_text(v / 100));
    r.append(digit_text((v / 10) % 10));
    r.append(digit_text(v % 10));
    assert(r@ =~= code_chars(code));
    r
}

/// Whether a line begins with an ASCII digit.
fn starts_with_digit(line: &str) -> (r: bool)
    ensures
        r == (line@.len() > 0 && is_ascii_digit(line@[0])),
{
    if line.unicode_len() == 0 {
        return false;
    }
    let c = line.get_char(0);
    '0' <= c && c <= '9'
}

impl Message {
    pub fn new(code: Code, text: String) -> (r: Message)
        ensures
            r@ == reply(code, text@),
    {
        Message { code, text }
    }

    /// The reply as it is written on the control connection.
    pub fn encode(&self) -> (r: String)
        ensures
            r@ == encode_spec(self.code, self.text@),
    {
        proof {
            reveal_strlit(" ");
            reveal_strlit("-");
            reveal_strlit("  ");
            reveal_strlit("\r\n");
        }
        let code = code_text(self.code);
        let lines = split(self.text.as_str(), '\n');
        let ghost views = lines@.map_values(|p: &str| p@);
        proof {
            lemma_split_on_len(self.text@, '\n');
        }
        let mut out = code.clone();
        if lines.len() <= 1 {
            out.append(" ");
            out.append(self.text.as_str());
            out.append("\r\n");
            return out;
        }
        out.append("-");
        let last = lines.len() - 1;
        let mut i: usize = 0;
        assert(views.subrange(0, 0) =~= Seq::<Seq<char>>::empty());
        while i < last
            invariant
                last == lines@.len() - 1,
                views == lines@.map_values(|p: &str| p@),
                0 <= i <= last,
                out@ == code@ + seq!['-'] + continuation(views.subrange(0, i as int)),
            decreases last - i,
        {
            let line = lines[i];
            let ghost before = out@;
            proof {
                reveal_strlit("  ");
                reveal_strlit("\r\n");
            }
            if starts_with_digit(line) {
                out.append("  ");
            }
            out.append(line);
            out.append("\r\n");
            proof {
                let done = views.subrange(0, i + 1);
                assert(done.drop_last() =~= views.subrange(0, i as int));
                assert(done.last() == line@);
                assert(out@ =~= before + indent(line@) + line@ + crlf());
            }
            i = i + 1;
        }
        out.append(code.as_str());
        out.append(" ");
        out.append(lines[last]);
        out.append("\r\n");
        proof {
            assert(views.subrange(0, last as int) =~= views.drop_last());
        }
        out
    }
}

/// A reply as a client reads it from the control connection.
#[derive(Debug)]
pub struct ReceivedReply {
    /// The three bytes of the code, which need not be digits.
    pub code: [u8; 3],
    /// The byte after the code: `-` opens a multi-line reply.
    pub separator: u8,
    /// Everything after the separator up to the end of the reply, line terminators included.
    pub text: Vec<u8>,
    /// How many bytes of the input the reply takes.
    pub length: usize,
}

/// The end (one past the line feed) of the line that holds position `i`.
pub open spec fn line_end(b: Seq<u8>, i: int) -> Option<int>
    decreases b.len() - i,
{
    if i < 0 || i >= b.len() {
        None
    } else if b[i] == 10 {
        Some(i + 1)
    } else {
        line_end(b, i + 1)
    }
}

/// Whether the line that begins at `start` ends a multi-line reply: it begins with the
/// reply's code followed by a space.
pub open spec fn ends_reply(b: Seq<u8>, start: int) -> bool {
    b[start] == b[0] && b[start + 1] == b[1] && b[start + 2] == b[2] && b[start + 3] == 32
}

/// The end of a multi-line reply, scanning from position `i` of the line that begins at
/// `start`: the end of the first complete line that ends the reply.
pub open spec fn multi_line_end(b: Seq<u8>, start: int, i: int) -> Option<int>
    decreases b.len() - i,
{
    if i < 0 || i >= b.len() {
        None
    } else if b[i] == 10 {
        if i + 1 - start >= 4 && ends_reply(b, start) {
            Some(i + 1)
        } else {
            multi_line_end(b, i + 1, i + 1)
        }
    } else {
        multi_line_end(b, start, i + 1)
    }
}

/// How many bytes the first reply in `b` takes: three bytes of code, a separator, and the
/// rest of that line; after a `-` separator, also the lines up to and including the first
/// one that begins with the same code and a space. `None` when `b` does not hold all of it.
pub open spec fn reply_length(b: Seq<u8>) -> Option<int> {
    if b.len() < 4 {
        None
    } else {
        match line_end(b, 4) {
            None => None,
            Some(e) => if b[3] == 45 {
                multi_line_end(b, e, e)
            } else {
                Some(e)
            },
        }
    }
}

/// Reads the first reply in `input`; `None` when more input is needed.
pub fn decode_reply(input: &[u8]) -> (r: Option<ReceivedReply>)
    ensures
        match reply_length(input@) {
            None => r is None,
            Some(n) => r matches Some(m) && m.code@ == input@.subrange(0, 3) && m.separator
                == input@[3] && m.text@ == input@.subrange(4, n) && m.length == n,
        },
{
    let len = input.len();
    if len < 4 {
        return None;
    }
    let mut i: usize = 4;
    while i < len && input[i] != 10
        invariant
            len == input@.len(),
            4 <= i <= len,
            line_end(input@, i as int) == line_end(input@, 4),
        decreases len - i,
    {
        i = i + 1;
    }
    if i == len {
        return None;
    }
    let mut end: usize = i + 1;
    if input[3] == 45 {
        let mut start: usize = end;
        let mut j: usize = end;
        let mut found = false;
        while j < len
            invariant_except_break
                !found,
                multi_line_end(input@, start as int, j as int) == multi_line_end(
                    input@,
                    end as int,
                    end as int,
                ),
            invariant
                len == input@.len(),
                4 <= start <= j <= len,
            ensures
                found ==> multi_line_end(input@, end as int, end as int) == Some(j as int),
                !found ==> multi_line_end(input@, end as int, end as int) == None::<int>,
            decreases len - j,
        {
            if input[j] == 10 {
                if j + 1 - start >= 4 && input[start] == input[0] && input[start + 1] == input[1]
                    && input[start + 2] == input[2] && input[start + 3] == 32 {
                    j = j + 1;
                    found = true;
                    break;
                }
                start = j + 1;
            }
            j = j + 1;
        }
        if !found {
            return None;
        }
        end = j;
    }
    let mut text: Vec<u8> = Vec::new();
    let mut k: usize = 4;
    while k < end
        invariant
            4 <= k <= end <= len == input@.len(),
            text@ == input@.subrange(4, k as int),
        decreases end - k,
    {
        text.push(input[k]);
        assert(text@ =~= input@.subrange(4, k + 1));
        k = k + 1;
    }
    Some(ReceivedReply { code: [input[0], input[1], input[2]], separator: input[3], text, length: end })
}

} // verus!
