//! The edit session.
//!
//! A session owns one temporary file, launches the resolved editor command
//! through a shell against it, waits for the editor to exit, and harvests the
//! result.  The file, terminal and subprocess work itself is outside work;
//! the session is modelled as a state machine whose every decision is made
//! here: the host performs the action the machine asks for and reports back
//! an event, until the machine declares the session done.

use vstd::prelude::*;

verus! {

/// How an edit session can fail.
#[derive(Debug, Clone, Copy, PartialEq, Eq)]
pub enum EditError {
    /// The temporary file could not be created, written, or read back.
    TempFile,
    /// The controlling terminal device could not be opened or duplicated.
    TerminalDevice,
    /// The shell that runs the editor command could not be spawned.
    EditorLaunch,
    /// The editor exited abnormally; the exit code is carried when known.
    EditorExit { code: Option<i32> },
    /// The edited file ended up empty, which means the user aborted.
    EmptyResult,
}

/// The character for one decimal digit.
pub open spec fn digit_char(d: nat) -> char {
    if d == 0 {
        '0'
    } else if d == 1 {
        '1'
    } else if d == 2 {
        '2'
    } else if d == 3 {
        '3'
    } else if d == 4 {
        '4'
    } else if d == 5 {
        '5'
    } else if d == 6 {
        '6'
    } else if d == 7 {
        '7'
    } else if d == 8 {
        '8'
    } else {
        '9'
    }
}

/// The decimal digits of `n`, most significant first.
pub open spec fn dec_digits(n: nat) -> Seq<char>
    decreases n,
{
    if n < 10 {
        seq![digit_char(n)]
    } else {
        dec_digits(n / 10) + seq![digit_char(n % 10)]
    }
}

/// The decimal text of a possibly negative number.
pub open spec fn int_text(c: int) -> Seq<char> {
    if c < 0 {
        seq!['-'] + dec_digits((-c) as nat)
    } else {
        dec_digits(c as nat)
    }
}

/// The text an optional exit code is reported as: the code's decimal value
/// when the editor returned one, the word `None` when a signal killed it.
pub open spec fn exit_code_text(code: Option<i32>) -> Seq<char> {
    match code {
        Some(c) => "Some("@ + int_text(c as int) + ")"@,
        None => "None"@,
    }
}

/// The human-readable description of a session failure.
pub open spec fn message_of(e: EditError) -> Seq<char> {
    match e {
        EditError::TempFile => "temporary file error"@,
        EditError::TerminalDevice => "could not open the terminal device"@,
        EditError::EditorLaunch => "could not launch the editor shell"@,
        EditError::EditorExit { code } => "Editor failed with exit code: "@ + exit_code_text(
            code,
        ),
        EditError::EmptyResult => "aborting due to empty message"@,
    }
}

impl EditError {
    /// Describe this failure for the user, naming the exit code when the
    /// editor returned one.
    pub fn message(&self) -> (r: String)
        ensures
            r@ == message_of(*self),
    {
        match self {
            EditError::TempFile => "temporary file error".to_owned(),
            EditError::TerminalDevice => "could not open the terminal device".to_owned(),
            EditError::EditorLaunch => "could not launch the editor shell".to_owned(),
            EditError::EditorExit { code } => {
                let mut r = "Editor failed with exit code: ".to_owned();
                let ghost head = r@;
                match code {
                    Some(c) => {
                        r.append("Some(");
                        push_signed(&mut r, *c);
                        r.append(")");
                        proof {
                            assert(r@ =~= head + exit_code_text(Some(*c)));
                        }
                    },
                    None => {
                        r.append("None");
                    },
                }
                r
            },
            EditError::EmptyResult => "aborting due to empty message".to_owned(),
        }
    }
}

/// Append the decimal digits of `n` to `out`.
fn push_decimal(out: &mut String, n: u64)
    ensures
        final(out)@ == old(out)@ + dec_digits(n as nat),
    decreases n,
{
    let ghost entry = out@;
    if n >= 10 {
        push_decimal(out, n / 10);
    }
    let ghost mid = out@;
    let d = n % 10;
    if d == 0 {
        out.append("0");
    } else if d == 1 {
        out.append("1");
    } else if d == 2 {
        out.append("2");
    } else if d == 3 {
        out.append("3");
    } else if d == 4 {
        out.append("4");
    } else if d == 5 {
        out.append("5");
    } else if d == 6 {
        out.append("6");
    } else if d == 7 {
        out.append("7");
    } else if d == 8 {
        out.append("8");
    } else {
        out.append("9");
    }
    proof {
        reveal_strlit("0");
        reveal_strlit("1");
        reveal_strlit("2");
        reveal_strlit("3");
        reveal_strlit("4");
        reveal_strlit("5");
        reveal_strlit("6");
        reveal_strlit("7");
        reveal_strlit("8");
        reveal_strlit("9");
        assert(out@ =~= mid + seq![digit_char((n % 10) as nat)]);
        assert(out@ =~= entry + dec_digits(n as nat));
    }
}

/// Append the decimal text of `c` to `out`.
fn push_signed(out: &mut String, c: i32)
    ensures
        final(out)@ == old(out)@ + int_text(c as int),
{
    let ghost entry = out@;
    if c < 0 {
        out.append("-");
        proof {
            reveal_strlit("-");
            assert("-"@ =~= seq!['-']);
        }
        let wide: i64 = -(c as i64);
        push_decimal(out, wide as u64);
        proof {
            assert(out@ =~= entry + int_text(c as int));
        }
    } else {
        push_decimal(out, c as u64);
    }
}

/// The temp-file suffix that an extension hint denotes: the hint itself when
/// it already starts with the separator, otherwise the hint with a leading
/// `.` prepended.
pub open spec fn normalized_suffix(ext: Seq<char>) -> Seq<char> {
    if ext.len() > 0 && ext[0] == '.' {
        ext
    } else {
        seq!['.'] + ext
    }
}

/// Normalize an extension hint into a temp-file suffix that begins with `.`.
pub fn normalize_suffix(extension: &str) -> (r: String)
    ensures
        r@ == normalized_suffix(extension@),
{
    let n = extension.unicode_len();
    if n > 0 && extension.get_char(0) == '.' {
        extension.to_owned()
    } else {
        let mut r = ".".to_owned();
        r.append(extension);
        proof {
            reveal_strlit(".");
            assert("."@ =~= seq!['.']);
        }
        r
    }
}

/// The shell command line that runs an editor on a file: the editor command
/// string, one space, and the file path.  The shell does its own word
/// splitting of the editor part.
pub open spec fn composed_command(editor: Seq<char>, path: Seq<char>) -> Seq<char> {
    editor + seq![' '] + path
}

/// Build the shell command line that runs `editor` on the file at `path`.
pub fn compose_command(editor: &str, path: &str) -> (r: String)
    ensures
        r@ == composed_command(editor@, path@),
{
    let mut r = editor.to_owned();
    r.append(" ");
    r.append(path);
    proof {
        reveal_strlit(" ");
        assert(" "@ =~= seq![' ']);
    }
    r
}

/// A session's state, waiting for the host to report on the last action.
///
/// The strings inside are plain values: the temp-file path as the host named
/// it, the resolved editor command, and the composed shell command line.
#[derive(Debug)]
pub enum SessionState {
    /// Waiting for the temporary file to be created.
    Creating { initial: String, editor: String, redirect: bool },
    /// Waiting for the initial content to be written and flushed.
    Writing { path: String, editor: String, redirect: bool },
    /// Waiting for the temp-file path to be made absolute.
    Resolving { path: String, editor: String, redirect: bool },
    /// Waiting for the controlling terminal device to be opened.
    OpeningTerminal { command: String },
    /// Waiting for the launched editor to exit.
    AwaitingExit,
    /// Waiting for the edited file's content to be read back.
    Reading,
    /// Waiting for the temporary file to be removed, the outcome already
    /// decided.
    Cleaning { outcome: Result<String, EditError> },
    /// The session is over.
    Done { outcome: Result<String, EditError> },
}

/// What the host reports after performing an action.
#[derive(Debug)]
pub enum SessionEvent {
    /// The temporary file exists at `path`.
    Created { path: String },
    /// The temporary file could not be created.
    CreateFailed,
    /// The initial content was written and flushed.
    Written,
    /// The initial content could not be written.
    WriteFailed,
    /// The attempt to make the path absolute: `None` when it failed, in
    /// which case the session keeps the original path.
    PathResolved { absolute: Option<String> },
    /// The terminal device is open and duplicated for each stream.
    TerminalOpened,
    /// The terminal device could not be opened or duplicated.
    TerminalFailed,
    /// The shell could not be spawned.
    LaunchFailed,
    /// The editor exited; the exit code is `None` when it was killed by a
    /// signal.
    Exited { code: Option<i32> },
    /// The edited file's content.
    ContentRead { text: String },
    /// The edited file could not be read back.
    ReadFailed,
    /// The temporary file was removed (best effort; the host reports this
    /// even when removal itself failed).
    Removed,
}

/// What the session asks the host to do next.
#[derive(Debug)]
pub enum SessionAction {
    /// Create a fresh temporary file from this prefix and suffix.
    CreateTempFile { prefix: String, suffix: String },
    /// Write this content to the temporary file and flush it.
    WriteInitial { content: String },
    /// Make the temporary file's path absolute.
    ResolvePath,
    /// Open the controlling terminal device, read/write, and duplicate it
    /// for the editor's three standard streams.
    OpenTerminal,
    /// Run this command line through a shell; with `redirect`, wire the
    /// child's standard streams to the opened terminal device, otherwise
    /// let it inherit the host's streams.
    Launch { command: String, redirect: bool },
    /// Read the edited file's content back as text.
    ReadBack,
    /// Remove the temporary file (best effort).
    RemoveFile,
    /// Nothing is left to do; the state carries the outcome.
    Finish,
}

/// The mathematical shape of a session state.
pub enum StateModel {
    Creating { initial: Seq<char>, editor: Seq<char>, redirect: bool },
    Writing { path: Seq<char>, editor: Seq<char>, redirect: bool },
    Resolving { path: Seq<char>, editor: Seq<char>, redirect: bool },
    OpeningTerminal { command: Seq<char> },
    AwaitingExit,
    Reading,
    Cleaning { outcome: Result<Seq<char>, EditError> },
    Done { outcome: Result<Seq<char>, EditError> },
}

/// The mathematical shape of an event.
pub enum EventModel {
    Created { path: Seq<char> },
    CreateFailed,
    Written,
    WriteFailed,
    PathResolved { absolute: Option<Seq<char>> },
    TerminalOpened,
    TerminalFailed,
    LaunchFailed,
    Exited { code: Option<i32> },
    ContentRead { text: Seq<char> },
    ReadFailed,
    Removed,
}

/// The mathematical shape of an action.
pub enum ActionModel {
    CreateTempFile { prefix: Seq<char>, suffix: Seq<char> },
    WriteInitial { content: Seq<char> },
    ResolvePath,
    OpenTerminal,
    Launch { command: Seq<char>, redirect: bool },
    ReadBack,
    RemoveFile,
    Finish,
}

impl View for SessionState {
    type V = StateModel;

    open spec fn view(&self) -> StateModel {
        match self {
            SessionState::Creating { initial, editor, redirect } => StateModel::Creating {
                initial: initial@,
                editor: editor@,
                redirect: *redirect,
            },
            SessionState::Writing { path, editor, redirect } => StateModel::Writing {
                path: path@,
                editor: editor@,
                redirect: *redirect,
            },
            SessionState::Resolving { path, editor, redirect } => StateModel::Resolving {
                path: path@,
                editor: editor@,
                redirect: *redirect,
            },
            SessionState::OpeningTerminal { command } => StateModel::OpeningTerminal {
                command: command@,
            },
            SessionState::AwaitingExit => StateModel::AwaitingExit,
            SessionState::Reading => StateModel::Reading,
            SessionState::Cleaning { outcome } => StateModel::Cleaning {
                outcome: outcome_model(outcome),
            },
            SessionState::Done { outcome } => StateModel::Done { outcome: outcome_model(outcome) },
        }
    }
}

impl View for SessionEvent {
    type V = EventModel;

    open spec fn view(&self) -> EventModel {
        match self {
            SessionEvent::Created { path } => EventModel::Created { path: path@ },
            SessionEvent::CreateFailed => EventModel::CreateFailed,
            SessionEvent::Written => EventModel::Written,
            SessionEvent::WriteFailed => EventModel::WriteFailed,
            SessionEvent::PathResolved { absolute } => EventModel::PathResolved {
                absolute: opt_model(absolute),
            },
            SessionEvent::TerminalOpened => EventModel::TerminalOpened,
            SessionEvent::TerminalFailed => EventModel::TerminalFailed,
            SessionEvent::LaunchFailed => EventModel::LaunchFailed,
            SessionEvent::Exited { code } => EventModel::Exited { code: *code },
            SessionEvent::ContentRead { text } => EventModel::ContentRead { text: text@ },
            SessionEvent::ReadFailed => EventModel::ReadFailed,
            SessionEvent::Removed => EventModel::Removed,
        }
    }
}

impl View for SessionAction {
    type V = ActionModel;

    open spec fn view(&self) -> ActionModel {
        match self {
            SessionAction::CreateTempFile { prefix, suffix } => ActionModel::CreateTempFile {
                prefix: prefix@,
                suffix: suffix@,
            },
            SessionAction::WriteInitial { content } => ActionModel::WriteInitial {
                content: content@,
            },
            SessionAction::ResolvePath => ActionModel::ResolvePath,
            SessionAction::OpenTerminal => ActionModel::OpenTerminal,
            SessionAction::Launch { command, redirect } => ActionModel::Launch {
                command: command@,
                redirect: *redirect,
            },
            SessionAction::ReadBack => ActionModel::ReadBack,
            SessionAction::RemoveFile => ActionModel::RemoveFile,
            SessionAction::Finish => ActionModel::Finish,
        }
    }
}

/// The view of a session outcome.
pub open spec fn outcome_model(o: &Result<String, EditError>) -> Result<Seq<char>, EditError> {
    match o {
        Ok(s) => Ok(s@),
        Err(e) => Err(*e),
    }
}

/// The view of an optional owned string.
pub open spec fn opt_model(o: &Option<String>) -> Option<Seq<char>> {
    match o {
        Some(s) => Some(s@),
        None => None,
    }
}

/// The prefix of every temporary file this crate creates.
pub open spec fn temp_prefix() -> Seq<char> {
    "editin-"@
}

/// The session's transition relation: from a state and the event the host
/// reports, to the next state and the next action, or `None` when the event
/// is not an answer to the state's pending action.
pub open spec fn step_model(s: StateModel, e: EventModel) -> Option<(StateModel, ActionModel)> {
    match (s, e) {
        (StateModel::Creating { initial, editor, redirect }, EventModel::Created { path }) => if initial.len()
            > 0 {
            Some(
                (
                    StateModel::Writing { path, editor, redirect },
                    ActionModel::WriteInitial { content: initial },
                ),
            )
        } else {
            Some((StateModel::Resolving { path, editor, redirect }, ActionModel::ResolvePath))
        },
        (StateModel::Creating { .. }, EventModel::CreateFailed) => Some(
            (StateModel::Done { outcome: Err(EditError::TempFile) }, ActionModel::Finish),
        ),
        (StateModel::Writing { path, editor, redirect }, EventModel::Written) => Some(
            (StateModel::Resolving { path, editor, redirect }, ActionModel::ResolvePath),
        ),
        (StateModel::Writing { .. }, EventModel::WriteFailed) => Some(
            (StateModel::Cleaning { outcome: Err(EditError::TempFile) }, ActionModel::RemoveFile),
        ),
        (
            StateModel::Resolving { path, editor, redirect },
            EventModel::PathResolved { absolute },
        ) => {
            let target = match absolute {
                Some(a) => a,
                None => path,
            };
            let command = composed_command(editor, target);
            if redirect {
                Some((StateModel::OpeningTerminal { command }, ActionModel::OpenTerminal))
            } else {
                Some(
                    (
                        StateModel::AwaitingExit,
                        ActionModel::Launch { command, redirect: false },
                    ),
                )
            }
        },
        (StateModel::OpeningTerminal { command }, EventModel::TerminalOpened) => Some(
            (StateModel::AwaitingExit, ActionModel::Launch { command, redirect: true }),
        ),
        (StateModel::OpeningTerminal { .. }, EventModel::TerminalFailed) => Some(
            (
                StateModel::Cleaning { outcome: Err(EditError::TerminalDevice) },
                ActionModel::RemoveFile,
            ),
        ),
        (StateModel::AwaitingExit, EventModel::LaunchFailed) => Some(
            (
                StateModel::Cleaning { outcome: Err(EditError::EditorLaunch) },
                ActionModel::RemoveFile,
            ),
        ),
        (StateModel::AwaitingExit, EventModel::Exited { code }) => if code == Some(0i32) {
            Some((StateModel::Reading, ActionModel::ReadBack))
        } else {
            Some(
                (
                    StateModel::Cleaning { outcome: Err(EditError::EditorExit { code }) },
                    ActionModel::RemoveFile,
                ),
            )
        },
        (StateModel::Reading, EventModel::ContentRead { text }) => if text.len() == 0 {
            Some(
                (
                    StateModel::Cleaning { outcome: Err(EditError::EmptyResult) },
                    ActionModel::RemoveFile,
                ),
            )
        } else {
            Some((StateModel::Cleaning { outcome: Ok(text) }, ActionModel::RemoveFile))
        },
        (StateModel::Reading, EventModel::ReadFailed) => Some(
            (StateModel::Cleaning { outcome: Err(EditError::TempFile) }, ActionModel::RemoveFile),
        ),
        (StateModel::Cleaning { outcome }, EventModel::Removed) => Some(
            (StateModel::Done { outcome }, ActionModel::Finish),
        ),
        _ => None,
    }
}

/// Begin an edit session.
///
/// The returned state waits for the host to create the temporary file that
/// the returned action describes: a process-specific prefix and the
/// normalized suffix for `extension_hint`.  `stdout_is_terminal` says
/// whether the host's own standard output is attached to an interactive
/// terminal; when it is not, the session will later ask for the terminal
/// device so the editor stays interactive.
pub fn start_session(
    initial: String,
    extension_hint: &str,
    editor: String,
    stdout_is_terminal: bool,
) -> (r: (SessionState, SessionAction))
    ensures
        r.0@ == (StateModel::Creating {
            initial: initial@,
            editor: editor@,
            redirect: !stdout_is_terminal,
        }),
        r.1@ == (ActionModel::CreateTempFile {
            prefix: temp_prefix(),
            suffix: normalized_suffix(extension_hint@),
        }),
{
    let suffix = normalize_suffix(extension_hint);
    let prefix = "editin-".to_owned();
    let state = SessionState::Creating { initial, editor, redirect: !stdout_is_terminal };
    let action = SessionAction::CreateTempFile { prefix, suffix };
    (state, action)
}

/// Advance the session by one transition.
///
/// Returns the next state and the next action exactly as the transition
/// relation dictates, and `None` when the event does not answer the state's
/// pending action.
pub fn step(state: SessionState, event: SessionEvent) -> (r: Option<(SessionState, SessionAction)>)
    ensures
        match r {
            Some(p) => step_model(state@, event@) == Some((p.0@, p.1@)),
            None => step_model(state@, event@) is None,
        },
{
    match (state, event) {
        (SessionState::Creating { initial, editor, redirect }, SessionEvent::Created { path }) => {
            if !initial.as_str().is_empty() {
                Some(
                    (
                        SessionState::Writing { path, editor, redirect },
                        SessionAction::WriteInitial { content: initial },
                    ),
                )
            } else {
                Some(
                    (
                        SessionState::Resolving { path, editor, redirect },
                        SessionAction::ResolvePath,
                    ),
                )
            }
        },
        (SessionState::Creating { .. }, SessionEvent::CreateFailed) => Some(
            (
                SessionState::Done { outcome: Err(EditError::TempFile) },
                SessionAction::Finish,
            ),
        ),
        (SessionState::Writing { path, editor, redirect }, SessionEvent::Written) => Some(
            (SessionState::Resolving { path, editor, redirect }, SessionAction::ResolvePath),
        ),
        (SessionState::Writing { .. }, SessionEvent::WriteFailed) => Some(
            (
                SessionState::Cleaning { outcome: Err(EditError::TempFile) },
                SessionAction::RemoveFile,
            ),
        ),
        (
            SessionState::Resolving { path, editor, redirect },
            SessionEvent::PathResolved { absolute },
        ) => {
            let target = match absolute {
                Some(a) => a,
                None => path,
            };
            let command = compose_command(editor.as_str(), target.as_str());
            if redirect {
                Some(
                    (
                        SessionState::OpeningTerminal { command },
                        SessionAction::OpenTerminal,
                    ),
                )
            } else {
                Some(
                    (
                        SessionState::AwaitingExit,
                        SessionAction::Launch { command, redirect: false },
                    ),
                )
            }
        },
        (SessionState::OpeningTerminal { command }, SessionEvent::TerminalOpened) => Some(
            (
                SessionState::AwaitingExit,
                SessionAction::Launch { command, redirect: true },
            ),
        ),
        (SessionState::OpeningTerminal { .. }, SessionEvent::TerminalFailed) => Some(
            (
                SessionState::Cleaning { outcome: Err(EditError::TerminalDevice) },
                SessionAction::RemoveFile,
            ),
        ),
        (SessionState::AwaitingExit, SessionEvent::LaunchFailed) => Some(
            (
                SessionState::Cleaning { outcome: Err(EditError::EditorLaunch) },
                SessionAction::RemoveFile,
            ),
        ),
        (SessionState::AwaitingExit, SessionEvent::Exited { code }) => {
            let success = match code {
                Some(c) => c == 0,
                None => false,
            };
            if success {
                Some((SessionState::Reading, SessionAction::ReadBack))
            } else {
                Some(
                    (
                        SessionState::Cleaning { outcome: Err(EditError::EditorExit { code }) },
                        SessionAction::RemoveFile,
                    ),
                )
            }
        },
        (SessionState::Reading, SessionEvent::ContentRead { text }) => {
            if text.as_str().is_empty() {
                Some(
                    (
                        SessionState::Cleaning { outcome: Err(EditError::EmptyResult) },
                        SessionAction::RemoveFile,
                    ),
                )
            } else {
                Some(
                    (
                        SessionState::Cleaning { outcome: Ok(text) },
                        SessionAction::RemoveFile,
                    ),
                )
            }
        },
        (SessionState::Reading, SessionEvent::ReadFailed) => Some(
            (
                SessionState::Cleaning { outcome: Err(EditError::TempFile) },
                SessionAction::RemoveFile,
            ),
        ),
        (SessionState::Cleaning { outcome }, SessionEvent::Removed) => Some(
            (SessionState::Done { outcome }, SessionAction::Finish),
        ),
        (_, _) => None,
    }
}

/// The state a run of the machine ends in after consuming `events` one by
/// one, or `None` when some event did not answer the pending action.
pub open spec fn run_outcome(s: StateModel, events: Seq<EventModel>) -> Option<StateModel>
    decreases events.len(),
{
    if events.len() == 0 {
        Some(s)
    } else {
        match step_model(s, events.first()) {
            Some(p) => run_outcome(p.0, events.drop_first()),
            None => None,
        }
    }
}

/// Whether a run of the machine over `events` ever asks the host to remove
/// the temporary file.
pub open spec fn remove_issued(s: StateModel, events: Seq<EventModel>) -> bool
    decreases events.len(),
{
    events.len() > 0 && match step_model(s, events.first()) {
        Some(p) => p.1 is RemoveFile || remove_issued(p.0, events.drop_first()),
        None => false,
    }
}

/// The states in which the temporary file exists and its removal has not
/// been asked for yet.
pub open spec fn file_pending(s: StateModel) -> bool {
    s is Writing || s is Resolving || s is OpeningTerminal || s is AwaitingExit || s is Reading
}

/// From any state where the temporary file exists and has not been released,
/// no run of the machine reaches the terminal state without asking the host
/// to remove the file on the way.
pub proof fn lemma_no_exit_while_file_pending(s: StateModel, events: Seq<EventModel>)
    requires
        file_pending(s),
        run_outcome(s, events) matches Some(d) && d is Done,
    ensures
        remove_issued(s, events),
    decreases events.len(),
{
    if events.len() > 0 {
        let p = step_model(s, events.first()).unwrap();
        if !(p.1 is RemoveFile) {
            lemma_no_exit_while_file_pending(p.0, events.drop_first());
        }
    }
}

/// A whole session never leaks its temporary file: a run from the initial
/// state that ends in the terminal state either had the file's creation fail
/// — so no file ever existed — or asked the host to remove the file.
pub proof fn lemma_session_never_leaks_file(s: StateModel, events: Seq<EventModel>)
    requires
        s is Creating,
        run_outcome(s, events) matches Some(d) && d is Done,
    ensures
        remove_issued(s, events) || (events.len() > 0 && events.first() is CreateFailed),
{
    if events.len() > 0 && !(events.first() is CreateFailed) {
        let p = step_model(s, events.first()).unwrap();
        lemma_no_exit_while_file_pending(p.0, events.drop_first());
    }
}

/// A session only ends once its temporary file is gone: every transition
/// into the terminal state starts from the cleanup state — whose own entry
/// asks for the file's removal — except the one where creating the file
/// failed and no file ever existed.
pub proof fn lemma_done_only_after_cleanup(s: StateModel, e: EventModel)
    requires
        step_model(s, e) matches Some(p) && p.0 is Done,
    ensures
        s is Cleaning || (s is Creating && e is CreateFailed),
{
}

/// Whatever the outcome, entering the cleanup state asks the host to remove
/// the temporary file.
pub proof fn lemma_cleanup_removes_file(s: StateModel, e: EventModel)
    requires
        step_model(s, e) matches Some(p) && p.0 is Cleaning,
    ensures
        step_model(s, e) matches Some(p) && p.1 is RemoveFile,
{
}

/// The cleanup never loses the decided outcome: the terminal state reached
/// from the cleanup state carries the cleanup state's own outcome.
pub proof fn lemma_cleanup_keeps_outcome(outcome: Result<Seq<char>, EditError>)
    ensures
        step_model(StateModel::Cleaning { outcome }, EventModel::Removed) == Some(
            (StateModel::Done { outcome }, ActionModel::Finish),
        ),
{
}

} // verus!
