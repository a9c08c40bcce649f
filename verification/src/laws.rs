//! What holds of every resolution and of every session.

use crate::error::EditorError;
use crate::resolve::{command_of, configured_value, resolved_command};
use crate::session::{
    advance, begin, launch_arguments, staged_file_suffix, ActionModel, ArgumentModel, ErrorModel,
    EventModel, Phase, SessionModel,
};
use crate::shell_words::shlex_split;
use vstd::prelude::*;

verus! {

/// Where `VISUAL` is set, it alone decides: whatever `EDITOR` holds, set or
/// not, the outcome is that of splitting the value of `VISUAL`.
pub proof fn lemma_visual_takes_precedence(
    visual: Seq<char>,
    editor: Option<Seq<char>>,
    other: Option<Seq<char>>,
)
    ensures
        resolved_command(Some(visual), editor) == resolved_command(Some(visual), other),
        resolved_command(Some(visual), editor) == command_of(shlex_split(visual)),
{
}

/// Where `VISUAL` is not set, `EDITOR` decides in its place.
pub proof fn lemma_editor_is_the_fallback(editor: Seq<char>)
    ensures
        resolved_command(None, Some(editor)) == command_of(shlex_split(editor)),
{
}

/// Resolution fails with `MissingEditor` exactly where neither value is set.
pub proof fn lemma_missing_editor_iff_unset(visual: Option<Seq<char>>, editor: Option<Seq<char>>)
    ensures
        resolved_command(visual, editor) == Err::<Seq<Seq<char>>, EditorError>(
            EditorError::MissingEditor,
        ) <==> visual is None && editor is None,
{
}

/// A resolved command is never empty, and is the words of the configured
/// value, all of them and in their order.
pub proof fn lemma_resolved_command_has_a_program(
    visual: Option<Seq<char>>,
    editor: Option<Seq<char>>,
)
    ensures
        resolved_command(visual, editor) matches Ok(command) ==> {
            &&& command.len() > 0
            &&& configured_value(visual, editor) matches Some(value)
            &&& shlex_split(value) == Some(command)
        },
{
}

/// A session starts in a state that has a program to launch, or has ended,
/// and every event keeps it so.
pub proof fn lemma_well_formed_throughout(
    seed: Seq<char>,
    command: Seq<Seq<char>>,
    session: SessionModel,
    event: EventModel,
)
    ensures
        begin(seed, command).0.well_formed(),
        session.well_formed() ==> advance(session, event).0.well_formed(),
        advance(session, event).0.command == session.command,
{
}

/// An empty command fails the session at once: nothing is staged.
pub proof fn lemma_empty_command_fails_at_once(seed: Seq<char>, command: Seq<Seq<char>>)
    ensures
        command.len() == 0 <==> begin(seed, command).1 == ActionModel::Finish(
            Err(ErrorModel::EmptyCommand),
        ),
        command.len() == 0 <==> begin(seed, command).0.ended(),
        command.len() > 0 ==> begin(seed, command).1 == (ActionModel::Stage {
            suffix: staged_file_suffix(),
            contents: seed,
        }),
{
}

/// The editor is started as the first word of the command, with the other
/// words as its arguments, each as it stands and in its place, and the
/// staged file's path as one more argument after them.
pub proof fn lemma_launch_arguments(command: Seq<Seq<char>>)
    requires
        command.len() > 0,
    ensures
        launch_arguments(command).len() == command.len(),
        launch_arguments(command).last() == ArgumentModel::StagedFile,
        forall|i: int|
            1 <= i < command.len() ==> #[trigger] launch_arguments(command)[i - 1]
                == ArgumentModel::Word(command[i]),
        forall|i: int|
            0 <= i < command.len() - 1 ==> !(#[trigger] launch_arguments(command)[i]
                is StagedFile),
{
}

/// A session in which every step goes well hands out the text that was read
/// back, whatever it is: the empty text too is a result and no error.
pub proof fn lemma_clean_session_returns_collected_text(
    seed: Seq<char>,
    command: Seq<Seq<char>>,
    status: Seq<char>,
    text: Seq<char>,
)
    requires
        command.len() > 0,
    ensures
        ({
            let (created, first) = begin(seed, command);
            let (staged, second) = advance(created, EventModel::Staged);
            let (launched, third) = advance(staged, EventModel::Launched);
            let (exited, fourth) = advance(
                launched,
                EventModel::Exited { success: true, status },
            );
            let (done, last) = advance(exited, EventModel::Collected(text));
            &&& first == ActionModel::Stage { suffix: staged_file_suffix(), contents: seed }
            &&& second == ActionModel::Launch {
                program: command[0],
                arguments: launch_arguments(command),
            }
            &&& third == ActionModel::Wait
            &&& fourth == ActionModel::Collect
            &&& last == ActionModel::Finish(Ok(text))
            &&& done.phase == Phase::Done
        }),
{
}

/// A step that fails ends the session with the cause: as `Spawn` where the
/// editor was to be started, as `Io` in every other phase.
pub proof fn lemma_failed_step_ends_session(session: SessionModel, cause: std::io::Error)
    requires
        !session.ended(),
    ensures
        advance(session, EventModel::Failed(cause)).0.phase == Phase::Failed,
        advance(session, EventModel::Failed(cause)).1 == ActionModel::Finish(
            Err(
                if session.phase == Phase::Staged {
                    ErrorModel::Spawn(cause)
                } else {
                    ErrorModel::Io(cause)
                },
            ),
        ),
{
}

/// An editor that exits without success ends the session with its exit
/// status, and the file is not read.
pub proof fn lemma_unsuccessful_exit_ends_session(session: SessionModel, status: Seq<char>)
    requires
        session.phase == Phase::Launched,
    ensures
        advance(session, EventModel::Exited { success: false, status }) == (
            session.at(Phase::Failed),
            ActionModel::Finish(Err(ErrorModel::NonSuccessExit { status })),
        ),
{
}

/// The file is read back only after the editor has exited with success, and
/// the editor is launched only after the seed text was staged. No event makes
/// a session stage a second file.
pub proof fn lemma_steps_in_order(session: SessionModel, event: EventModel)
    ensures
        advance(session, event).1 is Collect ==> session.phase == Phase::Launched && event
            matches EventModel::Exited { success: true, .. },
        advance(session, event).1 is Wait ==> session.phase == Phase::Staged && event
            is Launched,
        advance(session, event).1 is Launch ==> session.phase == Phase::Created && event
            is Staged,
        !(advance(session, event).1 is Stage),
{
}

/// The number of steps that a session in `phase` still has before it.
pub open spec fn steps_ahead(phase: Phase) -> nat {
    match phase {
        Phase::Created => 4,
        Phase::Staged => 3,
        Phase::Launched => 2,
        Phase::Exited => 1,
        Phase::Done | Phase::Failed => 0,
    }
}

/// No step is tried twice: every event takes a running session forward, so
/// that it ends after four events at most. It ends exactly when it hands out
/// its result.
pub proof fn lemma_every_event_moves_on(session: SessionModel, event: EventModel)
    requires
        !session.ended(),
    ensures
        steps_ahead(advance(session, event).0.phase) < steps_ahead(session.phase),
        advance(session, event).0.ended() <==> advance(session, event).1 is Finish,
        advance(session, event).0.phase == Phase::Done <==> advance(session, event).1
            matches ActionModel::Finish(Ok(_)),
{
}

/// A session that has ended stays as it is, whether it succeeded or failed:
/// it takes no further event and asks for no further step.
pub proof fn lemma_ended_session_is_final(session: SessionModel, event: EventModel)
    requires
        session.ended(),
    ensures
        advance(session, event) == (
            session,
            ActionModel::Finish(Err(ErrorModel::UnexpectedEvent)),
        ),
{
}

} // verus!
