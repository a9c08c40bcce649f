//! One edit session, as a state machine.
//!
//! A session stages the seed text in a temporary file, launches the editor on
//! it, waits for the editor to exit, and collects what the file then holds.
//! The file, the child process and the waiting belong to the caller. The
//! session decides: it tells the caller which step to perform next
//! ([`SessionAction`]), is told how the step went ([`SessionEvent`]), and ends
//! by handing out the edited text or the reason for the failure.

use vstd::prelude::*;

verus! {

/// `std::io::Error`, declared so that a session can carry the cause of a
/// failed step from the event to the result. Nothing is claimed of it and
/// nothing in here reads it.
#[verifier::external_type_specification]
#[verifier::external_body]
pub struct ExIoError(std::io::Error);

/// How far a session has come.
#[derive(Debug, Clone, Copy, PartialEq, Eq, Structural)]
pub enum Phase {
    /// The session exists; the seed text is not yet in a file.
    Created,
    /// The temporary file holds the seed text.
    Staged,
    /// The editor is running.
    Launched,
    /// The editor has exited and reported success.
    Exited,
    /// The text was collected and handed out.
    Done,
    /// The session has failed. Nothing more will be attempted.
    Failed,
}

/// One argument of the editor's command line.
#[derive(Debug, Clone, PartialEq, Eq)]
pub enum LaunchArgument {
    /// A word of the editor command, passed on as it is.
    Word(String),
    /// The path of the temporary file that holds the text.
    StagedFile,
}

/// Why a session failed.
#[derive(Debug)]
pub enum SessionError {
    /// The editor command has no words, so there is no program to start.
    EmptyCommand,
    /// The temporary file could not be created, written or read back, or
    /// waiting for the editor failed.
    Io(std::io::Error),
    /// The editor could not be started.
    Spawn(std::io::Error),
    /// The editor ran and did not report success.
    NonSuccessExit {
        /// The exit status as the operating system reported it, for display.
        status: String,
    },
    /// The session was told of a step that it had not asked for.
    UnexpectedEvent,
}

/// What the caller reports back to the session.
#[derive(Debug)]
pub enum SessionEvent {
    /// The temporary file was created and holds the seed text.
    Staged,
    /// The editor was started.
    Launched,
    /// The editor has exited.
    Exited {
        /// Whether the editor reported success.
        success: bool,
        /// The exit status, for display.
        status: String,
    },
    /// The temporary file was read back; this is its content.
    Collected(String),
    /// The step that the session asked for failed.
    Failed(std::io::Error),
}

/// What the session asks the caller to do next.
#[derive(Debug)]
pub enum SessionAction {
    /// Create a uniquely named temporary file whose name ends in `suffix`
    /// and write `contents` into it.
    Stage { suffix: String, contents: String },
    /// Start `program` with `arguments`, in this order, sharing the caller's
    /// standard input, output and error.
    Launch { program: String, arguments: Vec<LaunchArgument> },
    /// Wait until the editor has exited.
    Wait,
    /// Read the whole temporary file as text.
    Collect,
    /// The session is over: release the temporary file, if one was staged,
    /// and hand this result to whoever asked for the edit.
    Finish(Result<String, SessionError>),
}

/// The mathematical value of a [`LaunchArgument`].
pub enum ArgumentModel {
    Word(Seq<char>),
    StagedFile,
}

/// The mathematical value of a [`SessionError`].
pub enum ErrorModel {
    EmptyCommand,
    Io(std::io::Error),
    Spawn(std::io::Error),
    NonSuccessExit { status: Seq<char> },
    UnexpectedEvent,
}

/// The mathematical value of a [`SessionEvent`].
pub enum EventModel {
    Staged,
    Launched,
    Exited { success: bool, status: Seq<char> },
    Collected(Seq<char>),
    Failed(std::io::Error),
}

/// The mathematical value of a [`SessionAction`].
pub enum ActionModel {
    Stage { suffix: Seq<char>, contents: Seq<char> },
    Launch { program: Seq<char>, arguments: Seq<ArgumentModel> },
    Wait,
    Collect,
    Finish(Result<Seq<char>, ErrorModel>),
}

impl View for LaunchArgument {
    type V = ArgumentModel;

    open spec fn view(&self) -> ArgumentModel {
        match self {
            LaunchArgument::Word(word) => ArgumentModel::Word(word@),
            LaunchArgument::StagedFile => ArgumentModel::StagedFile,
        }
    }
}

impl View for SessionError {
    type V = ErrorModel;

    open spec fn view(&self) -> ErrorModel {
        match self {
            SessionError::EmptyCommand => ErrorModel::EmptyCommand,
            SessionError::Io(cause) => ErrorModel::Io(*cause),
            SessionError::Spawn(cause) => ErrorModel::Spawn(*cause),
            SessionError::NonSuccessExit { status } => ErrorModel::NonSuccessExit {
                status: status@,
            },
            SessionError::UnexpectedEvent => ErrorModel::UnexpectedEvent,
        }
    }
}

impl ErrorModel {
    /// The text of an error that the session words itself. An
    /// operating-system error brings its own text, so `Io` and `Spawn` have
    /// none here.
    pub open spec fn message(self) -> Option<Seq<char>> {
        match self {
            ErrorModel::EmptyCommand => Some("editor command is empty"@),
            ErrorModel::NonSuccessExit { status } => Some("editor exited with status "@ + status),
            ErrorModel::UnexpectedEvent => Some("editor session was told of a step it had not asked for"@),
            ErrorModel::Io(_) | ErrorModel::Spawn(_) => None,
        }
    }
}

impl SessionError {
    /// Renders the error for display, where the session words it itself.
    pub fn message(&self) -> (text: Option<String>)
        ensures
            text.deep_view() == self@.message(),
    {
        match self {
            SessionError::EmptyCommand => Some("editor command is empty".to_string()),
            SessionError::NonSuccessExit { status } => {
                let mut text = "editor exited with status ".to_string();
                text.append(status.as_str());
                Some(text)
            },
            SessionError::UnexpectedEvent => Some(
                "editor session was told of a step it had not asked for".to_string(),
            ),
            SessionError::Io(_) | SessionError::Spawn(_) => None,
        }
    }
}

impl View for SessionEvent {
    type V = EventModel;

    open spec fn view(&self) -> EventModel {
        match self {
            SessionEvent::Staged => EventModel::Staged,
            SessionEvent::Launched => EventModel::Launched,
            SessionEvent::Exited { success, status } => EventModel::Exited {
                success: *success,
                status: status@,
            },
            SessionEvent::Collected(text) => EventModel::Collected(text@),
            SessionEvent::Failed(cause) => EventModel::Failed(*cause),
        }
    }
}

impl View for SessionAction {
    type V = ActionModel;

    open spec fn view(&self) -> ActionModel {
        match self {
            SessionAction::Stage { suffix, contents } => ActionModel::Stage {
                suffix: suffix@,
                contents: contents@,
            },
            SessionAction::Launch { program, arguments } => ActionModel::Launch {
                program: program@,
                arguments: arguments@.map_values(|argument: LaunchArgument| argument@),
            },
            SessionAction::Wait => ActionModel::Wait,
            SessionAction::Collect => ActionModel::Collect,
            SessionAction::Finish(Ok(text)) => ActionModel::Finish(Ok(text@)),
            SessionAction::Finish(Err(error)) => ActionModel::Finish(Err(error@)),
        }
    }
}

/// The words of `command` after the first, which names the program.
pub open spec fn words_after_program(command: Seq<Seq<char>>) -> Seq<Seq<char>> {
    if command.len() == 0 {
        command
    } else {
        command.skip(1)
    }
}

/// The arguments that the editor is started with: the words of `command`
/// after the first, in their order, and the staged file's path last.
pub open spec fn launch_arguments(command: Seq<Seq<char>>) -> Seq<ArgumentModel> {
    words_after_program(command).map_values(|word: Seq<char>| ArgumentModel::Word(word)).push(
        ArgumentModel::StagedFile,
    )
}

/// Builds the editor's arguments from the words of its command.
pub fn build_launch_arguments(command: &Vec<String>) -> (arguments: Vec<LaunchArgument>)
    ensures
        arguments@.map_values(|argument: LaunchArgument| argument@) == launch_arguments(
            command.deep_view(),
        ),
{
    let mut arguments: Vec<LaunchArgument> = Vec::new();
    let mut next: usize = 1;
    while next < command.len()
        invariant
            next >= 1,
            arguments.len() == next - 1,
            next <= command.len() || next == 1,
            forall|i: int|
                0 <= i < arguments.len() ==> (#[trigger] arguments[i])@ == ArgumentModel::Word(
                    command[i + 1]@,
                ),
        decreases command.len() - next,
    {
        arguments.push(LaunchArgument::Word(command[next].clone()));
        next += 1;
    }
    arguments.push(LaunchArgument::StagedFile);
    arguments
}

/// The mathematical value of an [`EditSession`].
pub struct SessionModel {
    /// How far the session has come.
    pub phase: Phase,
    /// The words of the editor command.
    pub command: Seq<Seq<char>>,
}

impl SessionModel {
    /// The same session in another phase.
    pub open spec fn at(self, phase: Phase) -> SessionModel {
        SessionModel { phase, command: self.command }
    }

    /// Whether the session is over.
    pub open spec fn ended(self) -> bool {
        self.phase == Phase::Done || self.phase == Phase::Failed
    }

    /// A session that is still to launch its editor has a program to launch.
    pub open spec fn well_formed(self) -> bool {
        (self.phase == Phase::Created || self.phase == Phase::Staged) ==> self.command.len() > 0
    }
}

/// The suffix of the temporary file's name: editors that highlight by file
/// extension then treat the text as Markdown.
pub open spec fn staged_file_suffix() -> Seq<char> {
    ".md"@
}

/// What a session hands out once the file was read back: the text as it
/// stands. A file left empty gives the empty text, not an error and not a
/// separate "nothing written" answer.
pub open spec fn collected_result(text: Seq<char>) -> Result<Seq<char>, ErrorModel> {
    Ok(text)
}

/// The error that a failed step gives, by the phase in which the step was
/// asked for: a failure to start the editor is told apart from the failures
/// on the temporary file and of the wait.
pub open spec fn failure_in(phase: Phase, cause: std::io::Error) -> ErrorModel {
    if phase == Phase::Staged {
        ErrorModel::Spawn(cause)
    } else {
        ErrorModel::Io(cause)
    }
}

/// How a session begins. With an empty command it fails at once, before
/// anything is staged; otherwise it asks for the seed text to be staged.
pub open spec fn begin(seed: Seq<char>, command: Seq<Seq<char>>) -> (SessionModel, ActionModel) {
    if command.len() == 0 {
        (
            SessionModel { phase: Phase::Failed, command },
            ActionModel::Finish(Err(ErrorModel::EmptyCommand)),
        )
    } else {
        (
            SessionModel { phase: Phase::Created, command },
            ActionModel::Stage { suffix: staged_file_suffix(), contents: seed },
        )
    }
}

/// The transition function: the session after `event`, and what it asks for
/// next.
///
/// Each phase awaits the outcome of one step. The outcome that reports the
/// step done moves the session on; `Failed`, or an exit without success, ends
/// it with the error; any other event ends it with `UnexpectedEvent`. A
/// session that is over stays as it is.
pub open spec fn advance(session: SessionModel, event: EventModel) -> (SessionModel, ActionModel) {
    match (session.phase, event) {
        (Phase::Done, _) | (Phase::Failed, _) => (
            session,
            ActionModel::Finish(Err(ErrorModel::UnexpectedEvent)),
        ),
        (phase, EventModel::Failed(cause)) => (
            session.at(Phase::Failed),
            ActionModel::Finish(Err(failure_in(phase, cause))),
        ),
        (Phase::Created, EventModel::Staged) => (
            session.at(Phase::Staged),
            ActionModel::Launch {
                program: session.command[0],
                arguments: launch_arguments(session.command),
            },
        ),
        (Phase::Staged, EventModel::Launched) => (session.at(Phase::Launched), ActionModel::Wait),
        (Phase::Launched, EventModel::Exited { success, status }) => if success {
            (session.at(Phase::Exited), ActionModel::Collect)
        } else {
            (
                session.at(Phase::Failed),
                ActionModel::Finish(Err(ErrorModel::NonSuccessExit { status })),
            )
        },
        (Phase::Exited, EventModel::Collected(text)) => (
            session.at(Phase::Done),
            ActionModel::Finish(collected_result(text)),
        ),
        _ => (session.at(Phase::Failed), ActionModel::Finish(Err(ErrorModel::UnexpectedEvent))),
    }
}

/// One edit session: the phase it has reached and the editor command it runs.
#[derive(Debug)]
pub struct EditSession {
    phase: Phase,
    command: Vec<String>,
}

impl View for EditSession {
    type V = SessionModel;

    closed spec fn view(&self) -> SessionModel {
        SessionModel { phase: self.phase, command: self.command.deep_view() }
    }
}

impl EditSession {
    #[verifier::type_invariant]
    spec fn holds_program(&self) -> bool {
        self@.well_formed()
    }

    /// How far the session has come.
    pub fn phase(&self) -> (phase: Phase)
        ensures
            phase == self@.phase,
    {
        self.phase
    }

    /// Begins a session that edits `seed` with `command`, and says what to
    /// do first.
    pub fn start(seed: String, command: Vec<String>) -> (begun: (EditSession, SessionAction))
        ensures
            (begun.0@, begun.1@) == begin(seed@, command.deep_view()),
    {
        if command.len() == 0 {
            (
                EditSession { phase: Phase::Failed, command },
                SessionAction::Finish(Err(SessionError::EmptyCommand)),
            )
        } else {
            (
                EditSession { phase: Phase::Created, command },
                SessionAction::Stage { suffix: ".md".to_string(), contents: seed },
            )
        }
    }

    /// Takes in the outcome of the step that the session last asked for, and
    /// says what to do next.
    pub fn step(&mut self, event: SessionEvent) -> (action: SessionAction)
        ensures
            (final(self)@, action@) == advance(old(self)@, event@),
    {
        proof {
            use_type_invariant(&*self);
        }
        match (self.phase, event) {
            (Phase::Done, _) | (Phase::Failed, _) => SessionAction::Finish(
                Err(SessionError::UnexpectedEvent),
            ),
            (Phase::Staged, SessionEvent::Failed(cause)) => {
                self.phase = Phase::Failed;
                SessionAction::Finish(Err(SessionError::Spawn(cause)))
            },
            (_, SessionEvent::Failed(cause)) => {
                self.phase = Phase::Failed;
                SessionAction::Finish(Err(SessionError::Io(cause)))
            },
            (Phase::Created, SessionEvent::Staged) => {
                let program = self.command[0].clone();
                let arguments = build_launch_arguments(&self.command);
                self.phase = Phase::Staged;
                SessionAction::Launch { program, arguments }
            },
            (Phase::Staged, SessionEvent::Launched) => {
                self.phase = Phase::Launched;
                SessionAction::Wait
            },
            (Phase::Launched, SessionEvent::Exited { success, status }) => {
                if success {
                    self.phase = Phase::Exited;
                    SessionAction::Collect
                } else {
                    self.phase = Phase::Failed;
                    SessionAction::Finish(Err(SessionError::NonSuccessExit { status }))
                }
            },
            (Phase::Exited, SessionEvent::Collected(text)) => {
                self.phase = Phase::Done;
                SessionAction::Finish(Ok(text))
            },
            _ => {
                self.phase = Phase::Failed;
                SessionAction::Finish(Err(SessionError::UnexpectedEvent))
            },
        }
    }
}

} // verus!
