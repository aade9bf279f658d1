//! What holds of sessions over runs of several commands.
use crate::command::{ascii_upper, command_of, token_spec, Command};
use crate::data::DataType;
use crate::response::{reply, Code, MessageView};
use crate::session::{
    command_spec, initial, line_spec, resume_spec, ActionView, EffectView, OutcomeView, PendingView,
    SessionView, StepView,
};
use crate::text::{joined_path, quoted_path};
use vstd::prelude::*;
use vstd::utf8::*;

verus! {

/// The step that sends one reply and reads the next command.
pub open spec fn replies_once(code: Code, text: Seq<char>) -> StepView {
    StepView { replies: seq![reply(code, text)], action: ActionView::ReadCommand }
}

/// The state reached by a run of `CWD` commands, each into a path that is a directory.
pub open spec fn after_cwds(s: SessionView, args: Seq<Seq<char>>) -> SessionView
    decreases args.len(),
{
    if args.len() == 0 {
        s
    } else {
        let t = after_cwds(s, args.drop_last());
        let asked = command_spec(t, Some(Command::ChangeWorkingDirectory), args.last()).0;
        resume_spec(asked, OutcomeView::Answer(true)).0
    }
}

/// The path reached from `base` by joining each argument in turn.
pub open spec fn walk(base: Seq<char>, args: Seq<Seq<char>>) -> Seq<char>
    decreases args.len(),
{
    if args.len() == 0 {
        base
    } else {
        joined_path(walk(base, args.drop_last()), args.last())
    }
}

/// `CWD` asks whether the joined path is a directory; when it is, the session moves there,
/// replies `200`, and is otherwise unchanged.
pub proof fn lemma_cwd_into_directory(s: SessionView, arg: Seq<char>)
    requires
        !s.closed,
        s.pending is None,
    ensures
        ({
            let p = joined_path(s.path, arg);
            let (t, asked) = command_spec(s, Some(Command::ChangeWorkingDirectory), arg);
            &&& asked == (StepView {
                replies: Seq::empty(),
                action: ActionView::Perform(EffectView::CheckDirectory(p)),
            })
            &&& resume_spec(t, OutcomeView::Answer(true)) == (
                SessionView { path: p, ..s },
                replies_once(Code::CommandOk, "Changed directory."@),
            )
        }),
{
}

/// `CWD` into a path that is not a directory replies `501` and leaves the session,
/// its working directory included, exactly as it was.
pub proof fn lemma_cwd_into_non_directory(s: SessionView, arg: Seq<char>)
    requires
        !s.closed,
        s.pending is None,
    ensures
        ({
            let (t, _) = command_spec(s, Some(Command::ChangeWorkingDirectory), arg);
            resume_spec(t, OutcomeView::Answer(false)) == (
                s,
                replies_once(Code::InvalidParametersOrArguments, "Path is not a directory."@),
            )
        }),
{
    let (t, _) = command_spec(s, Some(Command::ChangeWorkingDirectory), arg);
    assert(SessionView { pending: None, ..t } == s);
}

/// After any run of `CWD` commands into existing directories, `PWD`, whatever its argument,
/// reports the path reached.
pub proof fn lemma_pwd_reports_path_reached(
    s: SessionView,
    args: Seq<Seq<char>>,
    pwd_arg: Seq<char>,
)
    requires
        !s.closed,
        s.pending is None,
    ensures
        after_cwds(s, args) == (SessionView { path: walk(s.path, args), ..s }),
        command_spec(after_cwds(s, args), Some(Command::PrintWorkingDirectory), pwd_arg) == (
            after_cwds(s, args),
            replies_once(Code::CommandOk, walk(s.path, args)),
        ),
    decreases args.len(),
{
    if args.len() > 0 {
        lemma_pwd_reports_path_reached(s, args.drop_last(), pwd_arg);
        lemma_cwd_into_directory(after_cwds(s, args.drop_last()), args.last());
    }
}

/// `MKD` never fails on a path that exists: it replies `257` and creates nothing. On a path
/// that does not exist it asks for the directory to be created, and replies `257` once it is.
/// Either way the session ends as it began, so a second `MKD` of the same path, which then
/// exists, replies `257` again.
pub proof fn lemma_mkd_idempotent(s: SessionView, arg: Seq<char>)
    requires
        !s.closed,
        s.pending is None,
    ensures
        ({
            let p = joined_path(s.path, arg);
            let created = replies_once(
                Code::PathNameCreated,
                "Successfully created "@ + quoted_path(p) + "."@,
            );
            let (t, asked) = command_spec(s, Some(Command::MakeDirectory), arg);
            let (u, create) = resume_spec(t, OutcomeView::Answer(false));
            &&& asked.action == ActionView::Perform(EffectView::CheckExists(p))
            &&& resume_spec(t, OutcomeView::Answer(true)) == (s, created)
            &&& create.action == ActionView::Perform(EffectView::CreateDirectory(p))
            &&& resume_spec(u, OutcomeView::Finished(Ok(()))) == (s, created)
        }),
{
    let (t, _) = command_spec(s, Some(Command::MakeDirectory), arg);
    assert(SessionView { pending: None, ..t } == s);
}

/// `MKD` run to its end against a file system whose existing paths are `existing`, on which
/// creating a directory succeeds: the state reached, the paths that exist afterwards, and
/// the replies sent.
pub open spec fn mkd_against(s: SessionView, existing: Set<Seq<char>>, arg: Seq<char>) -> (
    SessionView,
    Set<Seq<char>>,
    Seq<MessageView>,
) {
    let p = joined_path(s.path, arg);
    let (t, _) = command_spec(s, Some(Command::MakeDirectory), arg);
    if existing.contains(p) {
        let (u, step) = resume_spec(t, OutcomeView::Answer(true));
        (u, existing, step.replies)
    } else {
        let (u, _) = resume_spec(t, OutcomeView::Answer(false));
        let (v, step) = resume_spec(u, OutcomeView::Finished(Ok(())));
        (v, existing.insert(p), step.replies)
    }
}

/// Issuing `MKD` twice for the same path: both reply `257`, the second creates nothing, and
/// the session is left as it was.
pub proof fn lemma_mkd_twice(s: SessionView, existing: Set<Seq<char>>, arg: Seq<char>)
    requires
        !s.closed,
        s.pending is None,
    ensures
        ({
            let p = joined_path(s.path, arg);
            let (t, after_first, first) = mkd_against(s, existing, arg);
            let (u, after_second, second) = mkd_against(t, after_first, arg);
            &&& first == seq![
                reply(Code::PathNameCreated, "Successfully created "@ + quoted_path(p) + "."@),
            ]
            &&& second == first
            &&& after_first == existing.insert(p)
            &&& after_second == after_first
            &&& t == s
            &&& u == s
        }),
{
    lemma_mkd_idempotent(s, arg);
    let p = joined_path(s.path, arg);
    let (_, after_first, _) = mkd_against(s, existing, arg);
    if existing.contains(p) {
        assert(existing.insert(p) =~= existing);
    }
    assert(after_first.contains(p));
    assert(after_first.insert(p) =~= after_first);
}

/// After a wrong password the user name stays: the right password, sent without `USER`
/// again, logs the user in.
pub proof fn lemma_password_retry(s: SessionView, wrong: Seq<char>, right: Seq<char>)
    requires
        !s.closed,
        s.username matches Some(name) && s.users.contains_key(name) && s.users[name] == right,
        wrong != right,
    ensures
        command_spec(s, Some(Command::Password), wrong) == (
            s,
            replies_once(Code::NotLoggedIn, "Incorrect password."@),
        ),
        command_spec(s, Some(Command::Password), right) == (
            SessionView { logged_in: true, ..s },
            replies_once(Code::UserLoggedIn, "Logged in."@),
        ),
{
}

/// `QUIT` replies `221` and closes the connection; after it no command is handled: whatever
/// follows gets no reply and changes nothing.
pub proof fn lemma_quit_ends_session(s: SessionView, arg: Seq<char>)
    requires
        !s.closed,
    ensures
        ({
            let (t, step) = command_spec(s, Some(Command::Logout), arg);
            &&& step == (StepView {
                replies: seq![reply(Code::ServiceClosing, "Goodbye!"@)],
                action: ActionView::Close,
            })
            &&& t == (SessionView { closed: true, ..s })
            &&& forall|cmd: Option<Command>, later: Seq<char>| #[trigger]
                command_spec(t, cmd, later) == (t, StepView {
                    replies: Seq::empty(),
                    action: ActionView::Close,
                })
            &&& forall|cmd: Option<Command>, line: Seq<u8>| #[trigger]
                line_spec(t, cmd, line) == (t, StepView {
                    replies: Seq::empty(),
                    action: ActionView::Close,
                })
        }),
{
}

/// A four-byte token of valid UTF-8 that names no command gets the reply `500` and leaves
/// the session as it was: either at once, or after the rest of its line is read.
pub proof fn lemma_unrecognized_token(s: SessionView, token: Seq<u8>, line: Seq<u8>)
    requires
        !s.closed,
        token.len() == 4,
        valid_utf8(token),
        command_of(
            ascii_upper(token[0]),
            ascii_upper(token[1]),
            ascii_upper(token[2]),
            ascii_upper(token[3]),
        ) is None,
    ensures
        token_spec(token) == Err::<Option<Command>, MessageView>(
            reply(Code::CommandUnrecognized, "Command not recognized."@),
        ) || (token_spec(token) == Ok::<Option<Command>, MessageView>(None) && line_spec(
            s,
            None,
            line,
        ) == (s, replies_once(Code::CommandUnrecognized, "Command not recognized."@))),
{
}

/// The session's invariant: the local type has 8-bit bytes, the only size supported.
pub open spec fn well_formed(s: SessionView) -> bool {
    s.data_type matches DataType::Local(l) ==> l.bits == 8
}

/// A new session is well formed.
pub proof fn lemma_new_session_well_formed(users: Map<Seq<char>, Seq<char>>, root: Seq<char>)
    ensures
        well_formed(initial(users, root)),
{
}

/// Every command, and every outcome of an effect, keeps the session well formed.
pub proof fn lemma_steps_keep_well_formed(s: SessionView, cmd: Option<Command>, arg: Seq<char>, line: Seq<u8>, o: OutcomeView)
    requires
        well_formed(s),
    ensures
        well_formed(command_spec(s, cmd, arg).0),
        well_formed(line_spec(s, cmd, line).0),
        well_formed(resume_spec(s, o).0),
{
}

} // verus!
