//! The commands of the protocol and how their four-byte tokens are read.
use crate::response::{reply, Code, Message, MessageView};
use crate::text::{text_from_bytes, trim, trim_chars};
use vstd::prelude::*;
use vstd::string::*;
use vstd::utf8::*;

verus! {

/// A command of the protocol. A command is sent as a four-byte token, upper or lower case;
/// a three-letter command is followed by a space or by the carriage return of its line.
#[derive(Clone, Copy, Debug, PartialEq, Eq, Structural)]
pub enum Command {
    /// `USER`: names the user who is logging in.
    UserName,
    /// `PASS`: the password of the named user.
    Password,
    /// `ACCT`: the user's account.
    Account,
    /// `CWD` or `XCWD`: changes the working directory.
    ChangeWorkingDirectory,
    /// `CDUP`: changes to the parent directory.
    ChangeToParentDirectory,
    /// `SMNT`: mounts a different file system structure.
    StructureMount,
    /// `REIN`: ends the user's session but keeps the connection.
    Reinitialize,
    /// `QUIT`: ends the session and closes the connection.
    Logout,
    /// `PORT`: the address and port for active-mode data connections.
    DataPort,
    /// `PASV`: asks the server to listen for a data connection.
    Passive,
    /// `TYPE`: selects the data type.
    RepresentationType,
    /// `STRU`: selects the file structure.
    FileStructure,
    /// `MODE`: selects the transfer mode.
    Mode,
    /// `RETR`: sends a file to the client.
    Retrieve,
    /// `STOR`: stores a file from the client.
    Store,
    /// `STOU`: stores a file under a unique name.
    StoreUnique,
    /// `APPE`: appends to a file.
    Append,
    /// `ALLO`: reserves storage.
    Allocate,
    /// `REST`: the restart marker for the next transfer.
    Restart,
    /// `RNFR`: the file to rename.
    RenameFrom,
    /// `RNTO`: the new name of the file.
    RenameTo,
    /// `ABOR`: aborts the transfer in progress.
    Abort,
    /// `DELE`: deletes a file.
    Delete,
    /// `RMD` or `XRMD`: removes a directory.
    RemoveDirectory,
    /// `MKD` or `XMKD`: creates a directory.
    MakeDirectory,
    /// `PWD` or `XPWD`: reports the working directory.
    PrintWorkingDirectory,
    /// `LIST`: lists files with their details.
    List,
    /// `NLST`: lists the names in a directory.
    NameList,
    /// `SITE`: site-specific services.
    SiteParameters,
    /// `SYST`: the server's operating system.
    System,
    /// `STAT`: the status of the server or a transfer.
    Status,
    /// `HELP`: help on the commands.
    Help,
    /// `NOOP`: does nothing.
    Noop,
    /// `OPTS`: sets an option of a command.
    Options,
}

/// `b` with an ASCII lower-case letter made upper case.
pub open spec fn ascii_upper(b: u8) -> u8 {
    if 97 <= b <= 122 {
        (b - 32) as u8
    } else {
        b
    }
}

/// The command that an upper-case token names.
pub open spec fn command_of(a: u8, b: u8, c: u8, d: u8) -> Option<Command> {
    match (a as char, b as char, c as char, d as char) {
        ('U', 'S', 'E', 'R') => Some(Command::UserName),
        ('P', 'A', 'S', 'S') => Some(Command::Password),
        ('A', 'C', 'C', 'T') => Some(Command::Account),
        ('X', 'C', 'W', 'D') => Some(Command::ChangeWorkingDirectory),
        ('C', 'W', 'D', ' ') => Some(Command::ChangeWorkingDirectory),
        ('C', 'D', 'U', 'P') => Some(Command::ChangeToParentDirectory),
        ('S', 'M', 'N', 'T') => Some(Command::StructureMount),
        ('R', 'E', 'I', 'N') => Some(Command::Reinitialize),
        ('Q', 'U', 'I', 'T') => Some(Command::Logout),
        ('P', 'O', 'R', 'T') => Some(Command::DataPort),
        ('P', 'A', 'S', 'V') => Some(Command::Passive),
        ('T', 'Y', 'P', 'E') => Some(Command::RepresentationType),
        ('S', 'T', 'R', 'U') => Some(Command::FileStructure),
        ('M', 'O', 'D', 'E') => Some(Command::Mode),
        ('R', 'E', 'T', 'R') => Some(Command::Retrieve),
        ('S', 'T', 'O', 'R') => Some(Command::Store),
        ('S', 'T', 'O', 'U') => Some(Command::StoreUnique),
        ('A', 'P', 'P', 'E') => Some(Command::Append),
        ('A', 'L', 'L', 'O') => Some(Command::Allocate),
        ('R', 'E', 'S', 'T') => Some(Command::Restart),
        ('R', 'N', 'F', 'R') => Some(Command::RenameFrom),
        ('R', 'N', 'T', 'O') => Some(Command::RenameTo),
        ('A', 'B', 'O', 'R') => Some(Command::Abort),
        ('D', 'E', 'L', 'E') => Some(Command::Delete),
        ('X', 'R', 'M', 'D') => Some(Command::RemoveDirectory),
        ('R', 'M', 'D', ' ') => Some(Command::RemoveDirectory),
        ('R', 'M', 'D', '\r') => Some(Command::RemoveDirectory),
        ('X', 'M', 'K', 'D') => Some(Command::MakeDirectory),
        ('M', 'K', 'D', ' ') => Some(Command::MakeDirectory),
        ('M', 'K', 'D', '\r') => Some(Command::MakeDirectory),
        ('X', 'P', 'W', 'D') => Some(Command::PrintWorkingDirectory),
        ('P', 'W', 'D', '\r') => Some(Command::PrintWorkingDirectory),
        ('P', 'W', 'D', ' ') => Some(Command::PrintWorkingDirectory),
        ('L', 'I', 'S', 'T') => Some(Command::List),
        ('N', 'L', 'S', 'T') => Some(Command::NameList),
        ('S', 'I', 'T', 'E') => Some(Command::SiteParameters),
        ('S', 'Y', 'S', 'T') => Some(Command::System),
        ('S', 'T', 'A', 'T') => Some(Command::Status),
        ('H', 'E', 'L', 'P') => Some(Command::Help),
        ('N', 'O', 'O', 'P') => Some(Command::Noop),
        ('O', 'P', 'T', 'S') => Some(Command::Options),
        _ => None,
    }
}

/// What a token read from the control connection calls for: a reply sent at once, without
/// reading the rest of the line (`Err`), or the rest of the line to be read and handled as
/// the command named, if any (`Ok`).
pub open spec fn token_spec(t: Seq<u8>) -> Result<Option<Command>, MessageView> {
    if !valid_utf8(t) {
        Err(reply(Code::CommandNotImplemented, "Command was not valid UTF-8."@))
    } else if t.len() < 4 || encode_utf8(trim_chars(decode_utf8(t))).len() < 3 {
        Err(reply(Code::CommandUnrecognized, "Command not recognized."@))
    } else {
        Ok(command_of(ascii_upper(t[0]), ascii_upper(t[1]), ascii_upper(t[2]), ascii_upper(t[3])))
    }
}

fn to_upper(b: u8) -> (r: u8)
    ensures
        r == ascii_upper(b),
{
    if 97 <= b && b <= 122 {
        b - 32
    } else {
        b
    }
}

impl Command {
    /// The command that an upper-case token names.
    pub fn lookup(a: u8, b: u8, c: u8, d: u8) -> (r: Option<Command>)
        ensures
            r == command_of(a, b, c, d),
    {
        match (a as char, b as char, c as char, d as char) {
            ('U', 'S', 'E', 'R') => Some(Command::UserName),
            ('P', 'A', 'S', 'S') => Some(Command::Password),
            ('A', 'C', 'C', 'T') => Some(Command::Account),
            ('X', 'C', 'W', 'D') => Some(Command::ChangeWorkingDirectory),
            ('C', 'W', 'D', ' ') => Some(Command::ChangeWorkingDirectory),
            ('C', 'D', 'U', 'P') => Some(Command::ChangeToParentDirectory),
            ('S', 'M', 'N', 'T') => Some(Command::StructureMount),
            ('R', 'E', 'I', 'N') => Some(Command::Reinitialize),
            ('Q', 'U', 'I', 'T') => Some(Command::Logout),
            ('P', 'O', 'R', 'T') => Some(Command::DataPort),
            ('P', 'A', 'S', 'V') => Some(Command::Passive),
            ('T', 'Y', 'P', 'E') => Some(Command::RepresentationType),
            ('S', 'T', 'R', 'U') => Some(Command::FileStructure),
            ('M', 'O', 'D', 'E') => Some(Command::Mode),
            ('R', 'E', 'T', 'R') => Some(Command::Retrieve),
            ('S', 'T', 'O', 'R') => Some(Command::Store),
            ('S', 'T', 'O', 'U') => Some(Command::StoreUnique),
            ('A', 'P', 'P', 'E') => Some(Command::Append),
            ('A', 'L', 'L', 'O') => Some(Command::Allocate),
            ('R', 'E', 'S', 'T') => Some(Command::Restart),
            ('R', 'N', 'F', 'R') => Some(Command::RenameFrom),
            ('R', 'N', 'T', 'O') => Some(Command::RenameTo),
            ('A', 'B', 'O', 'R') => Some(Command::Abort),
            ('D', 'E', 'L', 'E') => Some(Command::Delete),
            ('X', 'R', 'M', 'D') => Some(Command::RemoveDirectory),
            ('R', 'M', 'D', ' ') => Some(Command::RemoveDirectory),
            ('R', 'M', 'D', '\r') => Some(Command::RemoveDirectory),
            ('X', 'M', 'K', 'D') => Some(Command::MakeDirectory),
            ('M', 'K', 'D', ' ') => Some(Command::MakeDirectory),
            ('M', 'K', 'D', '\r') => Some(Command::MakeDirectory),
            ('X', 'P', 'W', 'D') => Some(Command::PrintWorkingDirectory),
            ('P', 'W', 'D', '\r') => Some(Command::PrintWorkingDirectory),
            ('P', 'W', 'D', ' ') => Some(Command::PrintWorkingDirectory),
            ('L', 'I', 'S', 'T') => Some(Command::List),
            ('N', 'L', 'S', 'T') => Some(Command::NameList),
            ('S', 'I', 'T', 'E') => Some(Command::SiteParameters),
            ('S', 'Y', 'S', 'T') => Some(Command::System),
            ('S', 'T', 'A', 'T') => Some(Command::Status),
            ('H', 'E', 'L', 'P') => Some(Command::Help),
            ('N', 'O', 'O', 'P') => Some(Command::Noop),
            ('O', 'P', 'T', 'S') => Some(Command::Options),
            _ => None,
        }
    }
}

/// Reads the token that begins a command: the bytes received for it, at most four. Fewer
/// than four bytes, or fewer than three once white space is trimmed, name no command.
pub fn parse_command(token: &[u8]) -> (r: Result<Option<Command>, Message>)
    requires
        token@.len() <= 4,
    ensures
        r matches Ok(c) ==> token_spec(token@) == Ok::<Option<Command>, MessageView>(c),
        r matches Err(m) ==> token_spec(token@) == Err::<Option<Command>, MessageView>(m@),
{
    let text = match text_from_bytes(token) {
        Some(text) => text,
        None => {
            return Err(
                Message::new(
                    Code::CommandNotImplemented,
                    String::from_str("Command was not valid UTF-8."),
                ),
            );
        },
    };
    proof {
        broadcast use vstd::utf8::encode_utf8_decode_utf8;
        assert(decode_utf8(token@) == text@);
    }
    let trimmed = trim(text);
    if token.len() < 4 || trimmed.as_bytes().len() < 3 {
        return Err(
            Message::new(Code::CommandUnrecognized, String::from_str("Command not recognized.")),
        );
    }
    Ok(
        Command::lookup(
            to_upper(token[0]),
            to_upper(token[1]),
            to_upper(token[2]),
            to_upper(token[3]),
        ),
    )
}

} // verus!
