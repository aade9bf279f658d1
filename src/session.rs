//! One session on a control connection: its state, and what each command does to it.
//!
//! A session never touches the file system or the network itself. A command that needs
//! them hands back an [`Effect`]; whoever runs the session performs it and hands the
//! [`Outcome`] to [`Session::resume`].
use crate::command::Command;
use crate::data::{DataStructure, DataType, LogicalByteLength, TransferMode};
use crate::port::{parse_port, port_argument, DataEndpoint};
use crate::response::{crlf, reply, Code, Message, MessageView};
use crate::text::{
    joined_path, join_path, quote_path, quoted_path, text_from_bytes, trim, trim_chars,
};
use crate::users::Config;
use std::sync::Arc;
use vstd::prelude::*;
use vstd::string::*;
use vstd::utf8::*;

verus! {

/// Work that only the world outside the session can do.
pub enum Effect {
    /// Whether the path names an existing directory; answered by [`Outcome::Answer`].
    CheckDirectory(String),
    /// Whether anything exists at the path; answered by [`Outcome::Answer`].
    CheckExists(String),
    /// Create a directory at the path; answered by [`Outcome::Finished`].
    CreateDirectory(String),
    /// Remove the directory at the path; answered by [`Outcome::Finished`].
    RemoveDirectory(String),
    /// The names of the entries of the directory; answered by [`Outcome::Listing`].
    ListDirectory(String),
    /// Open a data connection to the endpoint, in place of any that is open; answered by
    /// [`Outcome::Finished`]. On failure an open data connection stays as it was.
    Connect(DataEndpoint),
    /// Write the payload on the open data connection, then shut it down and drop it;
    /// answered by [`Outcome::Finished`].
    Send(String),
}

/// What came of an [`Effect`].
pub enum Outcome {
    Answer(bool),
    /// `Err` holds the text of the error.
    Finished(Result<(), String>),
    /// The entries' names (`None` for a name that is not valid UTF-8), or the text of the error.
    Listing(Result<Vec<Option<String>>, String>),
}

/// What the session asks for after a step.
pub enum Action {
    /// Read the next command.
    ReadCommand,
    /// Perform the effect, and hand its outcome to [`Session::resume`].
    Perform(Effect),
    /// Close the connection.
    Close,
}

/// The replies to send, in order, and what to do once they are sent.
pub struct Step {
    pub replies: Vec<Message>,
    pub action: Action,
}

/// What a session waits for while an effect is performed.
enum Pending {
    ChangeDirectory(String),
    MakeDirectory(String),
    CreateDirectory(String),
    RemoveDirectory(String),
    DeleteDirectory(String),
    NameList(String),
    Connect(DataEndpoint),
    Send,
}

pub enum EffectView {
    CheckDirectory(Seq<char>),
    CheckExists(Seq<char>),
    CreateDirectory(Seq<char>),
    RemoveDirectory(Seq<char>),
    ListDirectory(Seq<char>),
    Connect(DataEndpoint),
    Send(Seq<char>),
}

pub enum OutcomeView {
    Answer(bool),
    Finished(Result<(), Seq<char>>),
    Listing(Result<Seq<Option<Seq<char>>>, Seq<char>>),
}

pub enum ActionView {
    ReadCommand,
    Perform(EffectView),
    Close,
}

pub struct StepView {
    pub replies: Seq<MessageView>,
    pub action: ActionView,
}

/// The step of a command that waits for an effect: the command in progress and the path
/// it works on.
pub enum PendingView {
    ChangeDirectory(Seq<char>),
    MakeDirectory(Seq<char>),
    CreateDirectory(Seq<char>),
    RemoveDirectory(Seq<char>),
    DeleteDirectory(Seq<char>),
    NameList(Seq<char>),
    Connect(DataEndpoint),
    Send,
}

/// The state of a session.
pub struct SessionView {
    /// The credential store: user names and their passwords.
    pub users: Map<Seq<char>, Seq<char>>,
    /// The working directory.
    pub path: Seq<char>,
    /// The user name last accepted by `USER`.
    pub username: Option<Seq<char>>,
    /// Whether `PASS` has accepted the password of that user.
    pub logged_in: bool,
    pub data_type: DataType,
    pub data_structure: DataStructure,
    pub transfer_mode: TransferMode,
    /// The endpoint of the open data connection, if one is open.
    pub data_connection: Option<DataEndpoint>,
    /// The command that waits for an effect, if one does.
    pub pending: Option<PendingView>,
    /// Whether `QUIT` has ended the session.
    pub closed: bool,
}

impl View for Effect {
    type V = EffectView;

    open spec fn view(&self) -> EffectView {
        match self {
            Effect::CheckDirectory(p) => EffectView::CheckDirectory(p@),
            Effect::CheckExists(p) => EffectView::CheckExists(p@),
            Effect::CreateDirectory(p) => EffectView::CreateDirectory(p@),
            Effect::RemoveDirectory(p) => EffectView::RemoveDirectory(p@),
            Effect::ListDirectory(p) => EffectView::ListDirectory(p@),
            Effect::Connect(e) => EffectView::Connect(*e),
            Effect::Send(t) => EffectView::Send(t@),
        }
    }
}

pub open spec fn names_view(names: Seq<Option<String>>) -> Seq<Option<Seq<char>>> {
    names.map_values(
        |n: Option<String>|
            match n {
                Some(t) => Some(t@),
                None => None,
            },
    )
}

impl View for Outcome {
    type V = OutcomeView;

    open spec fn view(&self) -> OutcomeView {
        match self {
            Outcome::Answer(b) => OutcomeView::Answer(*b),
            Outcome::Finished(Ok(())) => OutcomeView::Finished(Ok(())),
            Outcome::Finished(Err(e)) => OutcomeView::Finished(Err(e@)),
            Outcome::Listing(Ok(names)) => OutcomeView::Listing(Ok(names_view(names@))),
            Outcome::Listing(Err(e)) => OutcomeView::Listing(Err(e@)),
        }
    }
}

impl View for Action {
    type V = ActionView;

    open spec fn view(&self) -> ActionView {
        match self {
            Action::ReadCommand => ActionView::ReadCommand,
            Action::Perform(e) => ActionView::Perform(e@),
            Action::Close => ActionView::Close,
        }
    }
}

impl View for Step {
    type V = StepView;

    open spec fn view(&self) -> StepView {
        StepView { replies: self.replies@.map_values(|m: Message| m@), action: self.action@ }
    }
}

impl View for Pending {
    type V = PendingView;

    closed spec fn view(&self) -> PendingView {
        match self {
            Pending::ChangeDirectory(p) => PendingView::ChangeDirectory(p@),
            Pending::MakeDirectory(p) => PendingView::MakeDirectory(p@),
            Pending::CreateDirectory(p) => PendingView::CreateDirectory(p@),
            Pending::RemoveDirectory(p) => PendingView::RemoveDirectory(p@),
            Pending::DeleteDirectory(p) => PendingView::DeleteDirectory(p@),
            Pending::NameList(p) => PendingView::NameList(p@),
            Pending::Connect(e) => PendingView::Connect(*e),
            Pending::Send => PendingView::Send,
        }
    }
}

/// Whether `o` is the kind of outcome that the effect awaited in `p` has.
pub open spec fn accepts(p: PendingView, o: OutcomeView) -> bool {
    match p {
        PendingView::ChangeDirectory(_) | PendingView::MakeDirectory(_)
        | PendingView::RemoveDirectory(_) => o is Answer,
        PendingView::NameList(_) => o is Listing,
        _ => o is Finished,
    }
}

// ---------------------------------------------------------------------------------------
// What each command does, over the model.

/// A step that replies and reads the next command, leaving `s` as the new state.
pub open spec fn answer(s: SessionView, code: Code, text: Seq<char>) -> (SessionView, StepView) {
    (s, StepView { replies: seq![reply(code, text)], action: ActionView::ReadCommand })
}

/// A step that asks for `effect` and waits for its outcome in `pending`.
pub open spec fn perform(s: SessionView, pending: PendingView, effect: EffectView) -> (
    SessionView,
    StepView,
) {
    (
        SessionView { pending: Some(pending), ..s },
        StepView { replies: Seq::empty(), action: ActionView::Perform(effect) },
    )
}

/// The state of a new session.
pub open spec fn initial(users: Map<Seq<char>, Seq<char>>, root: Seq<char>) -> SessionView {
    SessionView {
        users,
        path: root,
        username: None,
        logged_in: false,
        data_type: DataType::Ascii,
        data_structure: DataStructure::File,
        transfer_mode: TransferMode::Stream,
        data_connection: None,
        pending: None,
        closed: false,
    }
}

/// The replies that greet a new connection.
pub open spec fn greeting_spec() -> Seq<MessageView> {
    seq![
        reply(Code::ServiceReadyForNewUser, "Server ready for new user."@),
        reply(Code::NeedAccountForLogin, "Enter username."@),
    ]
}

pub open spec fn user_spec(s: SessionView, arg: Seq<char>) -> (SessionView, StepView) {
    if arg.len() == 0 {
        answer(s, Code::InvalidParametersOrArguments, "Username may not be empty."@)
    } else if !s.users.contains_key(arg) {
        answer(s, Code::NotLoggedIn, "User does not exist."@)
    } else {
        answer(
            SessionView { username: Some(arg), logged_in: false, ..s },
            Code::UserNameOkPasswordNeeded,
            "Username Ok. Password needed."@,
        )
    }
}

/// A wrong password leaves the session as it was, the user name included: the client may
/// try another password without sending `USER` again.
pub open spec fn pass_spec(s: SessionView, arg: Seq<char>) -> (SessionView, StepView) {
    match s.username {
        None => answer(s, Code::BadSequenceOfCommands, "Expected `USER`."@),
        Some(name) => if s.users.contains_key(name) && s.users[name] == arg {
            answer(SessionView { logged_in: true, ..s }, Code::UserLoggedIn, "Logged in."@)
        } else {
            answer(s, Code::NotLoggedIn, "Incorrect password."@)
        },
    }
}

pub open spec fn data_type_of(c: char) -> Option<DataType> {
    match c {
        'A' | 'a' => Some(DataType::Ascii),
        'E' | 'e' => Some(DataType::Ebcdic),
        'I' | 'i' => Some(DataType::Image),
        'L' => Some(DataType::Local(LogicalByteLength { bits: 8 })),
        _ => None,
    }
}

pub open spec fn data_structure_of(c: char) -> Option<DataStructure> {
    match c {
        'F' | 'f' => Some(DataStructure::File),
        'R' | 'r' => Some(DataStructure::Record),
        'P' | 'p' => Some(DataStructure::Page),
        _ => None,
    }
}

pub open spec fn transfer_mode_of(c: char) -> Option<TransferMode> {
    match c {
        'S' | 's' => Some(TransferMode::Stream),
        'B' | 'b' => Some(TransferMode::Block),
        'C' | 'c' => Some(TransferMode::Compressed),
        _ => None,
    }
}

/// `TYPE`: the first letter selects the type; the local type also needs the byte size 8.
pub open spec fn type_spec(s: SessionView, arg: Seq<char>) -> (SessionView, StepView) {
    if arg.len() == 0 {
        answer(s, Code::InvalidParametersOrArguments, "Missing argument."@)
    } else if arg[0] == 'L' && trim_chars(arg.drop_first()) != seq!['8'] {
        answer(s, Code::CommandNotImplementedForThatParameter, "Only 8-bit bytes are supported."@)
    } else {
        match data_type_of(arg[0]) {
            None => answer(
                s,
                Code::CommandNotImplementedForThatParameter,
                "Unknown TYPE: "@ + seq![arg[0]] + "."@,
            ),
            Some(t) => answer(
                SessionView { data_type: t, ..s },
                Code::CommandOk,
                "Type is now "@ + t.spec_name() + "."@,
            ),
        }
    }
}

/// `STRU`: the first letter selects the structure.
pub open spec fn stru_spec(s: SessionView, arg: Seq<char>) -> (SessionView, StepView) {
    if arg.len() == 0 {
        answer(s, Code::InvalidParametersOrArguments, "Missing argument."@)
    } else {
        match data_structure_of(arg[0]) {
            None => answer(
                s,
                Code::CommandNotImplementedForThatParameter,
                "Unknown STRUcture: "@ + seq![arg[0]] + "."@,
            ),
            Some(t) => answer(
                SessionView { data_structure: t, ..s },
                Code::CommandOk,
                "Structure is now "@ + t.spec_name() + "."@,
            ),
        }
    }
}

/// `MODE`: the first letter selects the mode.
pub open spec fn mode_spec(s: SessionView, arg: Seq<char>) -> (SessionView, StepView) {
    if arg.len() == 0 {
        answer(s, Code::InvalidParametersOrArguments, "Missing argument."@)
    } else {
        match transfer_mode_of(arg[0]) {
            None => answer(
                s,
                Code::CommandNotImplementedForThatParameter,
                "Unknown transfer mode: "@ + seq![arg[0]] + "."@,
            ),
            Some(t) => answer(
                SessionView { transfer_mode: t, ..s },
                Code::CommandOk,
                "Transfer mode is now "@ + t.spec_name() + "."@,
            ),
        }
    }
}

pub open spec fn ascii_lower(c: char) -> char {
    if 'A' <= c <= 'Z' {
        ((c as u8) + 32) as u8 as char
    } else {
        c
    }
}

/// `OPTS`: only `UTF8 ON`, in any case, is known.
pub open spec fn opts_spec(s: SessionView, arg: Seq<char>) -> (SessionView, StepView) {
    if arg.map_values(|c: char| ascii_lower(c)) == "utf8 on"@ {
        answer(s, Code::CommandOk, "Ok, UTF-8 enabled."@)
    } else {
        answer(s, Code::CommandNotImplemented, "Unknown option."@)
    }
}

pub open spec fn port_spec(s: SessionView, arg: Seq<char>) -> (SessionView, StepView) {
    match port_argument(arg) {
        None => answer(
            s,
            Code::InvalidParametersOrArguments,
            "Invalid PORT argument: expected h1,h2,h3,h4,p1,p2."@,
        ),
        Some(e) => perform(s, PendingView::Connect(e), EffectView::Connect(e)),
    }
}

/// What a command does with its argument (the rest of its line, trimmed). A token that
/// names no command gets `500`; the commands this server does not carry out (`ACCT`,
/// `CDUP`, `RETR`, `STOR`, `LIST` and the like) all get `502`. A closed session does nothing.
pub open spec fn command_spec(s: SessionView, cmd: Option<Command>, arg: Seq<char>) -> (
    SessionView,
    StepView,
) {
    if s.closed {
        (s, StepView { replies: Seq::empty(), action: ActionView::Close })
    } else {
        match cmd {
            None => answer(s, Code::CommandUnrecognized, "Command not recognized."@),
            Some(c) => match c {
                Command::UserName => user_spec(s, arg),
                Command::Password => pass_spec(s, arg),
                Command::ChangeWorkingDirectory => {
                    let p = joined_path(s.path, arg);
                    perform(s, PendingView::ChangeDirectory(p), EffectView::CheckDirectory(p))
                },
                Command::Logout => (
                    SessionView { closed: true, ..s },
                    StepView {
                        replies: seq![reply(Code::ServiceClosing, "Goodbye!"@)],
                        action: ActionView::Close,
                    },
                ),
                Command::DataPort => port_spec(s, arg),
                Command::RepresentationType => type_spec(s, arg),
                Command::FileStructure => stru_spec(s, arg),
                Command::Mode => mode_spec(s, arg),
                Command::RemoveDirectory => {
                    let p = joined_path(s.path, arg);
                    perform(s, PendingView::RemoveDirectory(p), EffectView::CheckExists(p))
                },
                Command::MakeDirectory => {
                    let p = joined_path(s.path, arg);
                    perform(s, PendingView::MakeDirectory(p), EffectView::CheckExists(p))
                },
                Command::PrintWorkingDirectory => answer(s, Code::CommandOk, s.path),
                Command::NameList => {
                    let p = joined_path(s.path, arg);
                    perform(s, PendingView::NameList(p), EffectView::ListDirectory(p))
                },
                Command::Noop => answer(s, Code::CommandOk, "NOOP"@),
                Command::Options => opts_spec(s, arg),
                _ => answer(s, Code::CommandNotImplemented, "Command not implemented."@),
            },
        }
    }
}

/// What a command does with the bytes of the rest of its line.
pub open spec fn line_spec(s: SessionView, cmd: Option<Command>, line: Seq<u8>) -> (
    SessionView,
    StepView,
) {
    if valid_utf8(line) {
        command_spec(s, cmd, trim_chars(decode_utf8(line)))
    } else if s.closed || cmd is None {
        command_spec(s, cmd, Seq::empty())
    } else {
        answer(s, Code::InvalidParametersOrArguments, "Argument was not valid UTF-8."@)
    }
}

/// The name shown for a directory entry.
pub open spec fn entry_name(name: Option<Seq<char>>) -> Seq<char> {
    match name {
        Some(t) => t,
        None => "Invalid UTF-8."@,
    }
}

/// The entries' names, separated by line terminators.
pub open spec fn join_names(names: Seq<Option<Seq<char>>>) -> Seq<char>
    decreases names.len(),
{
    if names.len() == 0 {
        Seq::empty()
    } else if names.len() == 1 {
        entry_name(names[0])
    } else {
        join_names(names.drop_last()) + crlf() + entry_name(names.last())
    }
}

/// `t`, ended by a line terminator.
pub open spec fn with_crlf(t: Seq<char>) -> Seq<char> {
    if t.len() >= 2 && t.subrange(t.len() - 2, t.len() as int) == crlf() {
        t
    } else {
        t + crlf()
    }
}

/// What the outcome of the awaited effect does.
pub open spec fn resume_spec(s: SessionView, o: OutcomeView) -> (SessionView, StepView) {
    let t = SessionView { pending: None, ..s };
    match s.pending {
        Some(PendingView::ChangeDirectory(p)) => if o == OutcomeView::Answer(true) {
            answer(SessionView { path: p, ..t }, Code::CommandOk, "Changed directory."@)
        } else {
            answer(t, Code::InvalidParametersOrArguments, "Path is not a directory."@)
        },
        Some(PendingView::MakeDirectory(p)) => if o == OutcomeView::Answer(true) {
            answer(t, Code::PathNameCreated, "Successfully created "@ + quoted_path(p) + "."@)
        } else {
            perform(t, PendingView::CreateDirectory(p), EffectView::CreateDirectory(p))
        },
        Some(PendingView::CreateDirectory(p)) => match o {
            OutcomeView::Finished(Err(e)) => answer(
                t,
                Code::FileUnavailable,
                "Error creating "@ + quoted_path(p) + ": "@ + e + "."@,
            ),
            _ => answer(t, Code::PathNameCreated, "Successfully created "@ + quoted_path(p) + "."@),
        },
        Some(PendingView::RemoveDirectory(p)) => if o == OutcomeView::Answer(true) {
            perform(t, PendingView::DeleteDirectory(p), EffectView::RemoveDirectory(p))
        } else {
            answer(
                t,
                Code::FileUnavailable,
                "Error removing "@ + quoted_path(p) + ": No such file or directory."@,
            )
        },
        Some(PendingView::DeleteDirectory(p)) => match o {
            OutcomeView::Finished(Err(e)) => answer(
                t,
                Code::ActionNotTaken,
                "Error deleting "@ + quoted_path(p) + ": "@ + e + "."@,
            ),
            _ => answer(
                t,
                Code::RequestedFileActionComplete,
                "Successfully deleted "@ + quoted_path(p) + "."@,
            ),
        },
        Some(PendingView::NameList(p)) => match o {
            OutcomeView::Listing(Ok(names)) => {
                let opening = reply(Code::FileStatusOk, "Connecting to data port."@);
                match s.data_connection {
                    None => (
                        t,
                        StepView {
                            replies: seq![
                                opening,
                                reply(Code::CannotOpenDataConnection, "No data connection"@),
                            ],
                            action: ActionView::ReadCommand,
                        },
                    ),
                    Some(_) => (
                        SessionView { data_connection: None, pending: Some(PendingView::Send), ..s },
                        StepView {
                            replies: seq![opening],
                            action: ActionView::Perform(
                                EffectView::Send(with_crlf(join_names(names))),
                            ),
                        },
                    ),
                }
            },
            OutcomeView::Listing(Err(e)) => answer(
                t,
                Code::FileUnavailable,
                "Error listing "@ + quoted_path(p) + ": "@ + e + "."@,
            ),
            _ => answer(t, Code::FileUnavailable, "Error listing "@ + quoted_path(p) + "."@),
        },
        Some(PendingView::Connect(e)) => match o {
            OutcomeView::Finished(Err(m)) => answer(
                t,
                Code::CannotOpenDataConnection,
                "Cannot open data connection: "@ + m + "."@,
            ),
            _ => answer(SessionView { data_connection: Some(e), ..t }, Code::CommandOk, "Changed port."@),
        },
        Some(PendingView::Send) => match o {
            OutcomeView::Finished(Err(m)) => answer(
                t,
                Code::CannotOpenDataConnection,
                "Data connection failed: "@ + m + "."@,
            ),
            _ => answer(t, Code::ClosingDataConnection, "Closing connection"@),
        },
        None => (s, StepView { replies: Seq::empty(), action: ActionView::ReadCommand }),
    }
}

// ---------------------------------------------------------------------------------------
// The session itself.

/// The state of one control connection.
pub struct Session {
    config: Arc<Config>,
    path: String,
    username: Option<String>,
    logged_in: bool,
    data_type: DataType,
    data_structure: DataStructure,
    transfer_mode: TransferMode,
    data_connection: Option<DataEndpoint>,
    pending: Option<Pending>,
    closed: bool,
}

impl View for Session {
    type V = SessionView;

    closed spec fn view(&self) -> SessionView {
        SessionView {
            users: self.config@,
            path: self.path@,
            username: match self.username {
                Some(u) => Some(u@),
                None => None,
            },
            logged_in: self.logged_in,
            data_type: self.data_type,
            data_structure: self.data_structure,
            transfer_mode: self.transfer_mode,
            data_connection: self.data_connection,
            pending: match self.pending {
                Some(p) => Some(p@),
                None => None,
            },
            closed: self.closed,
        }
    }
}

/// A step that sends one reply and reads the next command.
fn answer_step(code: Code, text: String) -> (r: Step)
    ensures
        r@ == (StepView { replies: seq![reply(code, text@)], action: ActionView::ReadCommand }),
{
    let r = Step { replies: vec![Message::new(code, text)], action: Action::ReadCommand };
    assert(r@.replies =~= seq![reply(code, text@)]);
    r
}

/// A step that asks for an effect.
fn perform_step(effect: Effect) -> (r: Step)
    ensures
        r@ == (StepView { replies: Seq::empty(), action: ActionView::Perform(effect@) }),
{
    let r = Step { replies: Vec::new(), action: Action::Perform(effect) };
    assert(r@.replies =~= Seq::<MessageView>::empty());
    r
}

/// The replies that greet a new connection, before any command is read.
pub fn greeting() -> (r: Vec<Message>)
    ensures
        r@.map_values(|m: Message| m@) == greeting_spec(),
{
    let r = vec![
        Message::new(Code::ServiceReadyForNewUser, String::from_str("Server ready for new user.")),
        Message::new(Code::NeedAccountForLogin, String::from_str("Enter username.")),
    ];
    assert(r@.map_values(|m: Message| m@) =~= greeting_spec());
    r
}

fn data_type_from(c: char) -> (r: Option<DataType>)
    ensures
        r == data_type_of(c),
{
    match c {
        'A' | 'a' => Some(DataType::Ascii),
        'E' | 'e' => Some(DataType::Ebcdic),
        'I' | 'i' => Some(DataType::Image),
        'L' => Some(DataType::Local(LogicalByteLength { bits: 8 })),
        _ => None,
    }
}

fn data_structure_from(c: char) -> (r: Option<DataStructure>)
    ensures
        r == data_structure_of(c),
{
    match c {
        'F' | 'f' => Some(DataStructure::File),
        'R' | 'r' => Some(DataStructure::Record),
        'P' | 'p' => Some(DataStructure::Page),
        _ => None,
    }
}

fn transfer_mode_from(c: char) -> (r: Option<TransferMode>)
    ensures
        r == transfer_mode_of(c),
{
    match c {
        'S' | 's' => Some(TransferMode::Stream),
        'B' | 'b' => Some(TransferMode::Block),
        'C' | 'c' => Some(TransferMode::Compressed),
        _ => None,
    }
}

fn to_lower(c: char) -> (r: char)
    ensures
        r == ascii_lower(c),
{
    if 'A' <= c && c <= 'Z' {
        ((c as u8) + 32) as char
    } else {
        c
    }
}

/// Whether `arg` reads `utf8 on`, in any case.
fn is_utf8_on(arg: &str) -> (r: bool)
    ensures
        r == (arg@.map_values(|c: char| ascii_lower(c)) == "utf8 on"@),
{
    let expected = "utf8 on";
    proof {
        reveal_strlit("utf8 on");
    }
    let n = arg.unicode_len();
    if n != 7 {
        assert(arg@.map_values(|c: char| ascii_lower(c)).len() != expected@.len());
        return false;
    }
    let mut i: usize = 0;
    while i < 7
        invariant
            n == 7 == arg@.len() == expected@.len(),
            expected@ == "utf8 on"@,
            i <= 7,
            forall|j: int| 0 <= j < i ==> ascii_lower(#[trigger] arg@[j]) == expected@[j],
        decreases 7 - i,
    {
        if to_lower(arg.get_char(i)) != expected.get_char(i) {
            assert(arg@.map_values(|c: char| ascii_lower(c))[i as int] != expected@[i as int]);
            return false;
        }
        i = i + 1;
    }
    assert(arg@.map_values(|c: char| ascii_lower(c)) =~= expected@);
    true
}

/// The first character of a non-empty argument, as text.
fn first_char<'a>(arg: &'a str) -> (r: &'a str)
    requires
        arg@.len() > 0,
    ensures
        r@ == seq![arg@[0]],
{
    let r = arg.substring_char(0, 1);
    assert(r@ =~= seq![arg@[0]]);
    r
}

/// `text` between `before` and `after`.
fn enclose(before: &str, text: &str, after: &str) -> (r: String)
    ensures
        r@ == before@ + text@ + after@,
{
    String::from_str(before).concat(text).concat(after)
}

/// The payload of a name listing: the names, separated and ended by line terminators.
fn listing_payload(names: &Vec<Option<String>>) -> (r: String)
    ensures
        r@ == with_crlf(join_names(names_view(names@))),
{
    proof {
        reveal_strlit("\r\n");
        reveal_strlit("Invalid UTF-8.");
    }
    let ghost all = names_view(names@);
    let mut out = String::new();
    let mut i: usize = 0;
    assert(all.subrange(0, 0).len() == 0);
    while i < names.len()
        invariant
            all == names_view(names@),
            i <= names@.len(),
            out@ == join_names(all.subrange(0, i as int)),
        decreases names@.len() - i,
    {
        proof {
            reveal_strlit("\r\n");
            reveal_strlit("Invalid UTF-8.");
        }
        let ghost before = out@;
        if i > 0 {
            out.append("\r\n");
        }
        match &names[i] {
            Some(name) => out.append(name.as_str()),
            None => out.append("Invalid UTF-8."),
        }
        proof {
            let done = all.subrange(0, i + 1);
            assert(done.drop_last() =~= all.subrange(0, i as int));
            assert(done.last() == all[i as int]);
            if i == 0 {
                assert(out@ =~= entry_name(all[0]));
            } else {
                assert(out@ =~= before + crlf() + entry_name(all[i as int]));
            }
        }
        i = i + 1;
    }
    assert(all.subrange(0, names@.len() as int) =~= all);
    let n = out.as_str().unicode_len();
    if n >= 2 && out.as_str().get_char(n - 2) == '\r' && out.as_str().get_char(n - 1) == '\n' {
        assert(out@.subrange(n - 2, n as int) =~= crlf());
        out
    } else {
        proof {
            if n >= 2 {
                let tail = out@.subrange(n - 2, n as int);
                assert(tail[0] == out@[n - 2] && tail[1] == out@[n - 1]);
            }
        }
        out.concat("\r\n")
    }
}

impl Session {
    /// A session whose working directory is `root`.
    pub fn new(config: Arc<Config>, root: String) -> (r: Session)
        ensures
            r@ == initial(config@, root@),
    {
        Session {
            config,
            path: root,
            username: None,
            logged_in: false,
            data_type: DataType::Ascii,
            data_structure: DataStructure::File,
            transfer_mode: TransferMode::Stream,
            data_connection: None,
            pending: None,
            closed: false,
        }
    }

    fn user(&mut self, arg: &str) -> (r: Step)
        ensures
            (final(self)@, r@) == user_spec(old(self)@, arg@),
    {
        if arg.unicode_len() == 0 {
            return answer_step(
                Code::InvalidParametersOrArguments,
                String::from_str("Username may not be empty."),
            );
        }
        let name = arg.to_owned();
        if self.config.users().password(&name).is_none() {
            return answer_step(Code::NotLoggedIn, String::from_str("User does not exist."));
        }
        self.username = Some(name);
        self.logged_in = false;
        answer_step(Code::UserNameOkPasswordNeeded, String::from_str("Username Ok. Password needed."))
    }

    fn pass(&mut self, arg: &str) -> (r: Step)
        ensures
            (final(self)@, r@) == pass_spec(old(self)@, arg@),
    {
        let given = arg.to_owned();
        let matches = match &self.username {
            None => {
                return answer_step(Code::BadSequenceOfCommands, String::from_str("Expected `USER`."));
            },
            Some(name) => match self.config.users().password(name) {
                Some(password) => *password == given,
                None => false,
            },
        };
        if matches {
            self.logged_in = true;
            answer_step(Code::UserLoggedIn, String::from_str("Logged in."))
        } else {
            answer_step(Code::NotLoggedIn, String::from_str("Incorrect password."))
        }
    }

    fn type_cmd(&mut self, arg: &str) -> (r: Step)
        ensures
            (final(self)@, r@) == type_spec(old(self)@, arg@),
    {
        let n = arg.unicode_len();
        if n == 0 {
            return answer_step(Code::InvalidParametersOrArguments, String::from_str("Missing argument."));
        }
        let c = arg.get_char(0);
        if c == 'L' {
            let size = trim(arg.substring_char(1, n));
            assert(arg@.subrange(1, n as int) =~= arg@.drop_first());
            if !(size.unicode_len() == 1 && size.get_char(0) == '8') {
                return answer_step(
                    Code::CommandNotImplementedForThatParameter,
                    String::from_str("Only 8-bit bytes are supported."),
                );
            }
            assert(size@ =~= seq!['8']);
        }
        match data_type_from(c) {
            None => answer_step(
                Code::CommandNotImplementedForThatParameter,
                enclose("Unknown TYPE: ", first_char(arg), "."),
            ),
            Some(t) => {
                self.data_type = t;
                answer_step(Code::CommandOk, enclose("Type is now ", t.name(), "."))
            },
        }
    }

    fn stru(&mut self, arg: &str) -> (r: Step)
        ensures
            (final(self)@, r@) == stru_spec(old(self)@, arg@),
    {
        if arg.unicode_len() == 0 {
            return answer_step(Code::InvalidParametersOrArguments, String::from_str("Missing argument."));
        }
        match data_structure_from(arg.get_char(0)) {
            None => answer_step(
                Code::CommandNotImplementedForThatParameter,
                enclose("Unknown STRUcture: ", first_char(arg), "."),
            ),
            Some(t) => {
                self.data_structure = t;
                answer_step(Code::CommandOk, enclose("Structure is now ", t.name(), "."))
            },
        }
    }

    fn mode(&mut self, arg: &str) -> (r: Step)
        ensures
            (final(self)@, r@) == mode_spec(old(self)@, arg@),
    {
        if arg.unicode_len() == 0 {
            return answer_step(Code::InvalidParametersOrArguments, String::from_str("Missing argument."));
        }
        match transfer_mode_from(arg.get_char(0)) {
            None => answer_step(
                Code::CommandNotImplementedForThatParameter,
                enclose("Unknown transfer mode: ", first_char(arg), "."),
            ),
            Some(t) => {
                self.transfer_mode = t;
                answer_step(Code::CommandOk, enclose("Transfer mode is now ", t.name(), "."))
            },
        }
    }

    fn opts(&mut self, arg: &str) -> (r: Step)
        ensures
            (final(self)@, r@) == opts_spec(old(self)@, arg@),
    {
        if is_utf8_on(arg) {
            answer_step(Code::CommandOk, String::from_str("Ok, UTF-8 enabled."))
        } else {
            answer_step(Code::CommandNotImplemented, String::from_str("Unknown option."))
        }
    }

    fn port(&mut self, arg: &str) -> (r: Step)
        ensures
            (final(self)@, r@) == port_spec(old(self)@, arg@),
    {
        match parse_port(arg) {
            None => answer_step(
                Code::InvalidParametersOrArguments,
                String::from_str("Invalid PORT argument: expected h1,h2,h3,h4,p1,p2."),
            ),
            Some(endpoint) => {
                self.pending = Some(Pending::Connect(endpoint));
                perform_step(Effect::Connect(endpoint))
            },
        }
    }

    /// Handles a command whose argument, the rest of its line, has been trimmed.
    pub fn execute(&mut self, cmd: Option<Command>, arg: &str) -> (r: Step)
        ensures
            (final(self)@, r@) == command_spec(old(self)@, cmd, arg@),
    {
        if self.closed {
            let r = Step { replies: Vec::new(), action: Action::Close };
            assert(r@.replies =~= Seq::<MessageView>::empty());
            return r;
        }
        let cmd = match cmd {
            None => {
                return answer_step(Code::CommandUnrecognized, String::from_str("Command not recognized."));
            },
            Some(c) => c,
        };
        match cmd {
            Command::UserName => self.user(arg),
            Command::Password => self.pass(arg),
            Command::ChangeWorkingDirectory => {
                let p = join_path(self.path.as_str(), arg);
                self.pending = Some(Pending::ChangeDirectory(p.clone()));
                perform_step(Effect::CheckDirectory(p))
            },
            Command::Logout => {
                self.closed = true;
                let r = Step {
                    replies: vec![Message::new(Code::ServiceClosing, String::from_str("Goodbye!"))],
                    action: Action::Close,
                };
                assert(r@.replies =~= seq![reply(Code::ServiceClosing, "Goodbye!"@)]);
                r
            },
            Command::DataPort => self.port(arg),
            Command::RepresentationType => self.type_cmd(arg),
            Command::FileStructure => self.stru(arg),
            Command::Mode => self.mode(arg),
            Command::RemoveDirectory => {
                let p = join_path(self.path.as_str(), arg);
                self.pending = Some(Pending::RemoveDirectory(p.clone()));
                perform_step(Effect::CheckExists(p))
            },
            Command::MakeDirectory => {
                let p = join_path(self.path.as_str(), arg);
                self.pending = Some(Pending::MakeDirectory(p.clone()));
                perform_step(Effect::CheckExists(p))
            },
            Command::PrintWorkingDirectory => answer_step(Code::CommandOk, self.path.clone()),
            Command::NameList => {
                let p = join_path(self.path.as_str(), arg);
                self.pending = Some(Pending::NameList(p.clone()));
                perform_step(Effect::ListDirectory(p))
            },
            Command::Noop => answer_step(Code::CommandOk, String::from_str("NOOP")),
            Command::Options => self.opts(arg),
            _ => answer_step(Code::CommandNotImplemented, String::from_str("Command not implemented.")),
        }
    }

    /// Handles a command given the bytes of the rest of its line, line terminator included.
    pub fn command(&mut self, cmd: Option<Command>, line: &[u8]) -> (r: Step)
        ensures
            (final(self)@, r@) == line_spec(old(self)@, cmd, line@),
    {
        match text_from_bytes(line) {
            Some(text) => {
                proof {
                    broadcast use vstd::utf8::encode_utf8_decode_utf8;
                    assert(decode_utf8(line@) == text@);
                }
                self.execute(cmd, trim(text))
            },
            None => {
                if self.closed || cmd.is_none() {
                    proof {
                        reveal_strlit("");
                    }
                    self.execute(cmd, "")
                } else {
                    answer_step(
                        Code::InvalidParametersOrArguments,
                        String::from_str("Argument was not valid UTF-8."),
                    )
                }
            },
        }
    }

    /// Whether the session waits for the outcome of an effect.
    pub fn is_waiting(&self) -> (r: bool)
        ensures
            r == self@.pending is Some,
    {
        self.pending.is_some()
    }

    /// Whether `outcome` answers the effect that the session waits for.
    pub fn expects(&self, outcome: &Outcome) -> (r: bool)
        ensures
            r == (self@.pending matches Some(p) && accepts(p, outcome@)),
    {
        match (&self.pending, outcome) {
            (Some(Pending::ChangeDirectory(_)), Outcome::Answer(_)) => true,
            (Some(Pending::MakeDirectory(_)), Outcome::Answer(_)) => true,
            (Some(Pending::RemoveDirectory(_)), Outcome::Answer(_)) => true,
            (Some(Pending::NameList(_)), Outcome::Listing(_)) => true,
            (Some(Pending::CreateDirectory(_)), Outcome::Finished(_)) => true,
            (Some(Pending::DeleteDirectory(_)), Outcome::Finished(_)) => true,
            (Some(Pending::Connect(_)), Outcome::Finished(_)) => true,
            (Some(Pending::Send), Outcome::Finished(_)) => true,
            _ => false,
        }
    }

    /// Goes on with the command that waits, given the outcome of its effect.
    pub fn resume(&mut self, outcome: Outcome) -> (r: Step)
        requires
            old(self)@.pending matches Some(p) && accepts(p, outcome@),
        ensures
            (final(self)@, r@) == resume_spec(old(self)@, outcome@),
    {
        let pending = self.pending.take();
        match pending {
            Some(Pending::ChangeDirectory(p)) => match outcome {
                Outcome::Answer(true) => {
                    self.path = p;
                    answer_step(Code::CommandOk, String::from_str("Changed directory."))
                },
                _ => answer_step(
                    Code::InvalidParametersOrArguments,
                    String::from_str("Path is not a directory."),
                ),
            },
            Some(Pending::MakeDirectory(p)) => match outcome {
                Outcome::Answer(true) => answer_step(
                    Code::PathNameCreated,
                    enclose("Successfully created ", quote_path(p.as_str()).as_str(), "."),
                ),
                _ => {
                    self.pending = Some(Pending::CreateDirectory(p.clone()));
                    perform_step(Effect::CreateDirectory(p))
                },
            },
            Some(Pending::CreateDirectory(p)) => match outcome {
                Outcome::Finished(Err(e)) => answer_step(
                    Code::FileUnavailable,
                    enclose("Error creating ", quote_path(p.as_str()).as_str(), ": ").concat(
                        e.as_str(),
                    ).concat("."),
                ),
                _ => answer_step(
                    Code::PathNameCreated,
                    enclose("Successfully created ", quote_path(p.as_str()).as_str(), "."),
                ),
            },
            Some(Pending::RemoveDirectory(p)) => match outcome {
                Outcome::Answer(true) => {
                    self.pending = Some(Pending::DeleteDirectory(p.clone()));
                    perform_step(Effect::RemoveDirectory(p))
                },
                _ => answer_step(
                    Code::FileUnavailable,
                    enclose(
                        "Error removing ",
                        quote_path(p.as_str()).as_str(),
                        ": No such file or directory.",
                    ),
                ),
            },
            Some(Pending::DeleteDirectory(p)) => match outcome {
                Outcome::Finished(Err(e)) => answer_step(
                    Code::ActionNotTaken,
                    enclose("Error deleting ", quote_path(p.as_str()).as_str(), ": ").concat(
                        e.as_str(),
                    ).concat("."),
                ),
                _ => answer_step(
                    Code::RequestedFileActionComplete,
                    enclose("Successfully deleted ", quote_path(p.as_str()).as_str(), "."),
                ),
            },
            Some(Pending::NameList(p)) => match outcome {
                Outcome::Listing(Ok(names)) => {
                    let opening = Message::new(
                        Code::FileStatusOk,
                        String::from_str("Connecting to data port."),
                    );
                    if self.data_connection.is_none() {
                        let r = Step {
                            replies: vec![
                                opening,
                                Message::new(
                                    Code::CannotOpenDataConnection,
                                    String::from_str("No data connection"),
                                ),
                            ],
                            action: Action::ReadCommand,
                        };
                        assert(r@.replies =~= seq![
                            reply(Code::FileStatusOk, "Connecting to data port."@),
                            reply(Code::CannotOpenDataConnection, "No data connection"@),
                        ]);
                        r
                    } else {
                        let payload = listing_payload(&names);
                        self.data_connection = None;
                        self.pending = Some(Pending::Send);
                        let r = Step { replies: vec![opening], action: Action::Perform(Effect::Send(payload)) };
                        assert(r@.replies =~= seq![reply(Code::FileStatusOk, "Connecting to data port."@)]);
                        r
                    }
                },
                Outcome::Listing(Err(e)) => answer_step(
                    Code::FileUnavailable,
                    enclose("Error listing ", quote_path(p.as_str()).as_str(), ": ").concat(
                        e.as_str(),
                    ).concat("."),
                ),
                _ => answer_step(
                    Code::FileUnavailable,
                    enclose("Error listing ", quote_path(p.as_str()).as_str(), "."),
                ),
            },
            Some(Pending::Connect(endpoint)) => match outcome {
                Outcome::Finished(Err(e)) => answer_step(
                    Code::CannotOpenDataConnection,
                    enclose("Cannot open data connection: ", e.as_str(), "."),
                ),
                _ => {
                    self.data_connection = Some(endpoint);
                    answer_step(Code::CommandOk, String::from_str("Changed port."))
                },
            },
            Some(Pending::Send) => match outcome {
                Outcome::Finished(Err(e)) => answer_step(
                    Code::CannotOpenDataConnection,
                    enclose("Data connection failed: ", e.as_str(), "."),
                ),
                _ => answer_step(Code::ClosingDataConnection, String::from_str("Closing connection")),
            },
            None => {
                let r = Step { replies: Vec::new(), action: Action::ReadCommand };
                assert(r@.replies =~= Seq::<MessageView>::empty());
                r
            },
        }
    }
}

} // verus!
