//! Obtaining credentials, step by step.
//!
//! Credentials come from the backing file or, where that cannot be read, from
//! two lines of input, which are then written to the file for the next time.
//! Reading, asking and writing are done by the caller: a session says what is
//! to be done next, takes what came of it, and decides how to go on. So one
//! set of rules serves a caller that blocks and one that suspends.

use vstd::prelude::*;
use crate::lines::lines;
use crate::record::{outcome_view, Credentials, CredentialsError, CredentialsView};
use crate::store::{
    file_text, lemma_written_credentials_read_back, name_view, parse_credentials,
    render_credentials, resolve_path, resolved_path, stored_credentials, survives_storage,
    DEFAULT_CREDENTIALS_FILE,
};

verus! {

/// What is shown before the username is read.
pub const USERNAME_PROMPT: &'static str = "username: ";

/// What is shown before the password is read.
pub const PASSWORD_PROMPT: &'static str = "password: ";

/// How far a session has come. Each state but the last waits for one thing
/// to be done, and holds what is needed to go on from there.
pub enum State {
    /// The backing file is being read.
    ReadingFile { path: String },
    /// The file could not be read; the username is being asked for.
    PromptingUsername { path: String },
    /// The username was given; the password is being asked for.
    PromptingPassword { path: String, username: String },
    /// Both were given and are being written to the backing file.
    WritingFile { path: String, credentials: Credentials },
    /// The session is over, with this outcome.
    Finished { outcome: Result<Credentials, CredentialsError> },
}

/// What the caller is to do next.
pub enum Action {
    /// Read the whole file at `path` as text.
    ReadFile { path: String },
    /// Show `text`, then read one line of input.
    Prompt { text: String },
    /// Write `contents` to the file at `path`, replacing what it held.
    WriteFile { path: String, contents: String },
    /// Hand `outcome` back: there is nothing more to do.
    Return { outcome: Result<Credentials, CredentialsError> },
}

/// What came of an action.
pub enum Event {
    /// The file was read and held `contents`.
    FileRead { contents: String },
    /// The file could not be read, for whatever reason.
    FileUnreadable,
    /// A line of input was read: `text`, without the line feed that ended it.
    InputLine { text: String },
    /// The input ended, or could not be read, before a line had been taken.
    InputClosed,
    /// The file was written (`saved`) or could not be.
    WriteDone { saved: bool },
}

/// The model of a `State`.
pub enum StateView {
    ReadingFile { path: Seq<char> },
    PromptingUsername { path: Seq<char> },
    PromptingPassword { path: Seq<char>, username: Seq<char> },
    WritingFile { path: Seq<char>, credentials: CredentialsView },
    Finished { outcome: Result<CredentialsView, CredentialsError> },
}

/// The model of an `Action`.
pub enum ActionView {
    ReadFile { path: Seq<char> },
    Prompt { text: Seq<char> },
    WriteFile { path: Seq<char>, contents: Seq<char> },
    Return { outcome: Result<CredentialsView, CredentialsError> },
}

/// The model of an `Event`.
pub enum EventView {
    FileRead { contents: Seq<char> },
    FileUnreadable,
    InputLine { text: Seq<char> },
    InputClosed,
    WriteDone { saved: bool },
}

impl View for State {
    type V = StateView;

    open spec fn view(&self) -> StateView {
        match *self {
            State::ReadingFile { path } => StateView::ReadingFile { path: path@ },
            State::PromptingUsername { path } => StateView::PromptingUsername { path: path@ },
            State::PromptingPassword { path, username } => StateView::PromptingPassword {
                path: path@,
                username: username@,
            },
            State::WritingFile { path, credentials } => StateView::WritingFile {
                path: path@,
                credentials: credentials@,
            },
            State::Finished { outcome } => StateView::Finished { outcome: outcome_view(outcome) },
        }
    }
}

impl View for Action {
    type V = ActionView;

    open spec fn view(&self) -> ActionView {
        match *self {
            Action::ReadFile { path } => ActionView::ReadFile { path: path@ },
            Action::Prompt { text } => ActionView::Prompt { text: text@ },
            Action::WriteFile { path, contents } => ActionView::WriteFile {
                path: path@,
                contents: contents@,
            },
            Action::Return { outcome } => ActionView::Return { outcome: outcome_view(outcome) },
        }
    }
}

impl View for Event {
    type V = EventView;

    open spec fn view(&self) -> EventView {
        match *self {
            Event::FileRead { contents } => EventView::FileRead { contents: contents@ },
            Event::FileUnreadable => EventView::FileUnreadable,
            Event::InputLine { text } => EventView::InputLine { text: text@ },
            Event::InputClosed => EventView::InputClosed,
            Event::WriteDone { saved } => EventView::WriteDone { saved },
        }
    }
}

/// The state in which a session for the file at `path` starts.
pub open spec fn initial_state(path: Seq<char>) -> StateView {
    StateView::ReadingFile { path }
}

/// What `state` waits for to be done.
pub open spec fn pending_action(state: StateView) -> ActionView {
    match state {
        StateView::ReadingFile { path } => ActionView::ReadFile { path },
        StateView::PromptingUsername { .. } => ActionView::Prompt { text: USERNAME_PROMPT@ },
        StateView::PromptingPassword { .. } => ActionView::Prompt { text: PASSWORD_PROMPT@ },
        StateView::WritingFile { path, credentials } => ActionView::WriteFile {
            path,
            contents: file_text(credentials),
        },
        StateView::Finished { outcome } => ActionView::Return { outcome },
    }
}

/// Whether `event` is something that can come of the action that `state`
/// waits for.
pub open spec fn awaits(state: StateView, event: EventView) -> bool {
    match state {
        StateView::ReadingFile { .. } => event is FileRead || event is FileUnreadable,
        StateView::PromptingUsername { .. } | StateView::PromptingPassword { .. } => event
            is InputLine || event is InputClosed,
        StateView::WritingFile { .. } => event is WriteDone,
        StateView::Finished { .. } => false,
    }
}

/// The state that follows `state` on `event`.
///
/// A file that was read decides the outcome by what it holds. One that could
/// not be read leads to the two prompts, and a line of input answers each.
/// Input that ends at a prompt ends the session with an error. Once the
/// credentials were handed to be written they are the outcome, whether the
/// file was written or not. An event that `state` does not wait for changes
/// nothing.
pub open spec fn next_state(state: StateView, event: EventView) -> StateView {
    match (state, event) {
        (StateView::ReadingFile { .. }, EventView::FileRead { contents }) => StateView::Finished {
            outcome: stored_credentials(contents),
        },
        (StateView::ReadingFile { path }, EventView::FileUnreadable) => StateView::PromptingUsername {
            path,
        },
        (
            StateView::PromptingUsername { path },
            EventView::InputLine { text },
        ) => StateView::PromptingPassword { path, username: text },
        (StateView::PromptingPassword { path, username }, EventView::InputLine { text }) => {
            StateView::WritingFile {
                path,
                credentials: CredentialsView { username, password: text },
            }
        },
        (StateView::PromptingUsername { .. }, EventView::InputClosed)
        | (StateView::PromptingPassword { .. }, EventView::InputClosed) => StateView::Finished {
            outcome: Err(CredentialsError::InputStreamClosed),
        },
        (StateView::WritingFile { credentials, .. }, EventView::WriteDone { .. }) => {
            StateView::Finished { outcome: Ok(credentials) }
        },
        _ => state,
    }
}

/// The most events that `state` can still wait for before the session is
/// over.
pub open spec fn steps_left(state: StateView) -> nat {
    match state {
        StateView::ReadingFile { .. } => 4,
        StateView::PromptingUsername { .. } => 3,
        StateView::PromptingPassword { .. } => 2,
        StateView::WritingFile { .. } => 1,
        StateView::Finished { .. } => 0,
    }
}

impl State {
    /// What this state waits for to be done.
    pub fn action(&self) -> (action: Action)
        ensures
            action@ == pending_action(self@),
    {
        match self {
            State::ReadingFile { path } => Action::ReadFile { path: path.clone() },
            State::PromptingUsername { .. } => Action::Prompt { text: USERNAME_PROMPT.to_string() },
            State::PromptingPassword { .. } => Action::Prompt { text: PASSWORD_PROMPT.to_string() },
            State::WritingFile { path, credentials } => Action::WriteFile {
                path: path.clone(),
                contents: render_credentials(credentials),
            },
            State::Finished { outcome } => Action::Return {
                outcome: match outcome {
                    Ok(credentials) => Ok(credentials.clone()),
                    Err(error) => Err(*error),
                },
            },
        }
    }
}

/// Starts a session for the file named, or for the default file: the state
/// it starts in, and the first thing to do, which is to read that file.
pub fn begin(file_name: Option<&str>) -> (start: (State, Action))
    ensures
        start.0@ == initial_state(resolved_path(name_view(file_name))),
        start.1@ == pending_action(start.0@),
{
    let state = State::ReadingFile { path: resolve_path(file_name).to_string() };
    let action = state.action();
    (state, action)
}

/// Takes what came of the last action: the state that follows, and what is
/// to be done next.
pub fn step(state: State, event: Event) -> (next: (State, Action))
    ensures
        next.0@ == next_state(state@, event@),
        next.1@ == pending_action(next.0@),
        awaits(state@, event@) ==> steps_left(next.0@) < steps_left(state@),
        !awaits(state@, event@) ==> next.0@ == state@,
{
    let next = match state {
        State::ReadingFile { path } => match event {
            Event::FileRead { contents } => State::Finished {
                outcome: parse_credentials(contents.as_str()),
            },
            Event::FileUnreadable => State::PromptingUsername { path },
            _ => State::ReadingFile { path },
        },
        State::PromptingUsername { path } => match event {
            Event::InputLine { text } => State::PromptingPassword { path, username: text },
            Event::InputClosed => State::Finished {
                outcome: Err(CredentialsError::InputStreamClosed),
            },
            _ => State::PromptingUsername { path },
        },
        State::PromptingPassword { path, username } => match event {
            Event::InputLine { text } => State::WritingFile {
                path,
                credentials: Credentials { username, password: text },
            },
            Event::InputClosed => State::Finished {
                outcome: Err(CredentialsError::InputStreamClosed),
            },
            _ => State::PromptingPassword { path, username },
        },
        State::WritingFile { path, credentials } => match event {
            Event::WriteDone { .. } => State::Finished { outcome: Ok(credentials) },
            _ => State::WritingFile { path, credentials },
        },
        State::Finished { outcome } => State::Finished { outcome },
    };
    let action = next.action();
    (next, action)
}

/// The state that a session is in after `events`, taken in order from
/// `state`.
pub open spec fn run(state: StateView, events: Seq<EventView>) -> StateView
    decreases events.len(),
{
    if events.len() == 0 {
        state
    } else {
        run(next_state(state, events[0]), events.drop_first())
    }
}

/// Whether each of `events` is one that the state it meets waits for, from
/// `state` on: what a caller sees who does what it is told and reports it.
pub open spec fn in_turn(state: StateView, events: Seq<EventView>) -> bool
    decreases events.len(),
{
    events.len() == 0 || (awaits(state, events[0]) && in_turn(
        next_state(state, events[0]),
        events.drop_first(),
    ))
}

/// A session is over after at most four events: a state waits for no more
/// events in turn than `steps_left` says, and is finished when it has met
/// that many.
pub proof fn lemma_session_ends(state: StateView, events: Seq<EventView>)
    requires
        in_turn(state, events),
    ensures
        events.len() + steps_left(run(state, events)) <= steps_left(state),
        steps_left(state) <= 4,
        events.len() == steps_left(state) ==> run(state, events) is Finished,
    decreases events.len(),
{
    if events.len() > 0 {
        lemma_session_ends(next_state(state, events[0]), events.drop_first());
    }
}

/// Every session that is over went one of four ways, and its outcome is the
/// one that belongs to that way:
/// the file was read, and what it holds is the outcome;
/// the file could not be read and the input ended at the first prompt, or at
/// the second, which is an error;
/// or the file could not be read, both lines were given, and they are the
/// outcome whatever came of writing them.
pub proof fn lemma_finished_sessions(path: Seq<char>, events: Seq<EventView>)
    requires
        in_turn(initial_state(path), events),
        run(initial_state(path), events) is Finished,
    ensures
        ({
            let outcome = run(initial_state(path), events)->outcome;
            ||| {
                &&& events.len() == 1
                &&& events[0] matches EventView::FileRead { contents }
                &&& outcome == stored_credentials(contents)
            }
            ||| {
                &&& events.len() == 2
                &&& events[0] is FileUnreadable
                &&& events[1] is InputClosed
                &&& outcome == Err::<CredentialsView, _>(CredentialsError::InputStreamClosed)
            }
            ||| {
                &&& events.len() == 3
                &&& events[0] is FileUnreadable
                &&& events[1] is InputLine
                &&& events[2] is InputClosed
                &&& outcome == Err::<CredentialsView, _>(CredentialsError::InputStreamClosed)
            }
            ||| {
                &&& events.len() == 4
                &&& events[0] is FileUnreadable
                &&& events[1] matches EventView::InputLine { text: username }
                &&& events[2] matches EventView::InputLine { text: password }
                &&& events[3] is WriteDone
                &&& outcome == Ok::<_, CredentialsError>(CredentialsView { username, password })
            }
        }),
{
    reveal_with_fuel(run, 6);
    reveal_with_fuel(in_turn, 6);
    lemma_session_ends(initial_state(path), events);
}

/// A backing file that can be read settles the session at once, with no
/// prompt: its first two lines are the credentials, and with fewer than two
/// the session fails.
pub proof fn lemma_readable_file_settles(path: Seq<char>, contents: Seq<char>)
    ensures
        pending_action(initial_state(path)) == (ActionView::ReadFile { path }),
        pending_action(run(initial_state(path), seq![EventView::FileRead { contents }])) == (
        ActionView::Return {
            outcome: if lines(contents).len() >= 2 {
                Ok(CredentialsView { username: lines(contents)[0], password: lines(contents)[1] })
            } else {
                Err(CredentialsError::MalformedCredentialsFile)
            },
        }),
{
    reveal_with_fuel(run, 2);
}

/// Where the file cannot be read, the two lines of input are the credentials:
/// the username is asked for first, then the password; then the file at the
/// same path is to be written with the username, a line feed and the
/// password; and the session ends well whether that file was written or not.
pub proof fn lemma_prompted_credentials_are_returned(
    path: Seq<char>,
    username: Seq<char>,
    password: Seq<char>,
    saved: bool,
)
    ensures
        ({
            let unreadable = seq![EventView::FileUnreadable];
            let named = unreadable.push(EventView::InputLine { text: username });
            let given = named.push(EventView::InputLine { text: password });
            let written = given.push(EventView::WriteDone { saved });
            let start = initial_state(path);
            let credentials = CredentialsView { username, password };
            &&& pending_action(run(start, unreadable)) == (ActionView::Prompt {
                text: USERNAME_PROMPT@,
            })
            &&& pending_action(run(start, named)) == (ActionView::Prompt { text: PASSWORD_PROMPT@ })
            &&& pending_action(run(start, given)) == (ActionView::WriteFile {
                path,
                contents: username + seq!['\n'] + password,
            })
            &&& pending_action(run(start, written)) == (ActionView::Return {
                outcome: Ok(credentials),
            })
        }),
{
    reveal_with_fuel(run, 6);
    let unreadable = seq![EventView::FileUnreadable];
    let named = unreadable.push(EventView::InputLine { text: username });
    let given = named.push(EventView::InputLine { text: password });
    let written = given.push(EventView::WriteDone { saved });
    // What is left of the longest run after its first two events.
    assert(written.drop_first().drop_first() =~= seq![
        EventView::InputLine { text: password },
        EventView::WriteDone { saved },
    ]);
}

/// Credentials that were given at the prompts and written are found by the
/// next session in the file, which then asks for nothing, exactly when they
/// survive storage.
pub proof fn lemma_next_session_reads_back(path: Seq<char>, credentials: CredentialsView)
    ensures
        run(
            initial_state(path),
            seq![EventView::FileRead { contents: file_text(credentials) }],
        ) == (StateView::Finished { outcome: Ok(credentials) }) <==> survives_storage(credentials),
{
    reveal_with_fuel(run, 2);
    lemma_written_credentials_read_back(credentials);
}

/// A session for no named file is a session for the default file.
pub proof fn lemma_default_file()
    ensures
        initial_state(resolved_path(None)) == initial_state(
            resolved_path(Some(DEFAULT_CREDENTIALS_FILE@)),
        ),
        pending_action(initial_state(resolved_path(None))) == (ActionView::ReadFile {
            path: DEFAULT_CREDENTIALS_FILE@,
        }),
{
}

} // verus!
