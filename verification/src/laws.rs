//! What holds of the engine for every command tree.

use vstd::prelude::*;
use crate::ast::{
    AndOr, CompoundCommand, CompoundCommandKind, ListableCommand, PipeableCommand, Redirect,
    SimpleCommand, TopLevelCommand, TopLevelWord,
};
use crate::engine::{
    dispatch, enter, leave, lemma_engine_goes_forward, listable_plan, negates, settle, simple_plan,
    start, ActionView, JobView, Place,
};
use crate::launcher::{bindings_of, launchable, Stream};
use crate::registry::Builtin;
use crate::resolver::{resolve_command, resolve_word, ExecutableView, RedirectsView};
use crate::status::{succeeded, ExecuteError, ExitStatus, Outcome};

verus! {

/// What arriving at operand `item` of the only command of a sequence leads
/// to when nothing stands behind that operand: its job, or at once the
/// error that it fails with as the result of the sequence.
pub open spec fn last_operand(command: ListableCommand, item: int) -> ActionView {
    match listable_plan(command) {
        Ok(job) => ActionView::Run(Place { command: 0, item }, job),
        Err(e) => ActionView::Done(Err(e)),
    }
}

/// A sequence without commands reports `Empty`.
pub proof fn law_empty_sequence(commands: Seq<TopLevelCommand>)
    requires
        commands.len() == 0,
    ensures
        start(commands) == ActionView::Done(Err(ExecuteError::Empty)),
{
}

/// `first && second`, as the only command of a sequence. When `first`
/// reports anything but a success, the sequence is done with that report
/// and no job is ever handed out for `second`. When `first` reports a
/// success, `second` is next, and what `second` reports is the result.
pub proof fn law_and(
    commands: Seq<TopLevelCommand>,
    first: ListableCommand,
    second: ListableCommand,
    first_report: Outcome,
    second_report: Outcome,
)
    requires
        commands.len() == 1,
        commands[0].list().first == first,
        commands[0].list().rest@ == seq![AndOr::And(second)],
    ensures
        start(commands) == last_operand(first, 0),
        !succeeded(first_report) ==> leave(commands, 0, 0, first_report) == ActionView::Done(
            first_report,
        ),
        succeeded(first_report) ==> leave(commands, 0, 0, first_report) == last_operand(second, 1),
        leave(commands, 0, 1, second_report) == ActionView::Done(second_report),
{
    assert(commands[0].list().item(1) == second);
    assert(enter(commands, 0, 1) == last_operand(second, 1));
}

/// `first || second`, as the only command of a sequence. When `first`
/// reports a success, the sequence is done with that report and no job is
/// ever handed out for `second`. When `first` reports a failure or ends in
/// an error, be it before any job of its own, `second` is next, and what
/// `second` reports is the result.
pub proof fn law_or(
    commands: Seq<TopLevelCommand>,
    first: ListableCommand,
    second: ListableCommand,
    first_report: Outcome,
    second_report: Outcome,
)
    requires
        commands.len() == 1,
        commands[0].list().first == first,
        commands[0].list().rest@ == seq![AndOr::Or(second)],
    ensures
        start(commands) == match listable_plan(first) {
            Ok(job) => ActionView::Run(Place { command: 0, item: 0 }, job),
            Err(_) => last_operand(second, 1),
        },
        succeeded(first_report) ==> leave(commands, 0, 0, first_report) == ActionView::Done(
            first_report,
        ),
        !succeeded(first_report) ==> leave(commands, 0, 0, first_report) == last_operand(second, 1),
        leave(commands, 0, 1, second_report) == ActionView::Done(second_report),
{
    assert(commands[0].list().item(1) == second);
    assert(enter(commands, 0, 1) == last_operand(second, 1));
}

/// Behind any operand of any sequence: `&&` lets the list go on exactly
/// after a success, `||` exactly after anything else; where the list does
/// not go on, none of its later operands is ever reached, and the next
/// command starts or the sequence is done with the report at hand.
pub proof fn law_short_circuit(commands: Seq<TopLevelCommand>, at: Place, report: Outcome)
    requires
        at.within(commands),
        at.item + 1 < commands[at.command].list().items(),
    ensures
        ({
            let link = commands[at.command].list().rest@[at.item];
            let on = match link {
                AndOr::And(_) => succeeded(report),
                AndOr::Or(_) => !succeeded(report),
            };
            leave(commands, at.command, at.item, report) == if on {
                enter(commands, at.command, at.item + 1)
            } else if at.command + 1 < commands.len() {
                enter(commands, at.command + 1, 0)
            } else {
                ActionView::Done(report)
            }
        }),
{
}

/// No command is ever carried out twice: the job that follows the job of
/// one operand belongs to a later operand of the sequence.
pub proof fn law_engine_moves_forward(commands: Seq<TopLevelCommand>, at: Place, report: Outcome)
    requires
        at.within(commands),
    ensures
        leave(commands, at.command, at.item, report) matches ActionView::Run(next, _) ==> next.within(
            commands,
        ) && at.before(next),
{
    lemma_engine_goes_forward(commands, at.command, at.item, Some(report));
}

/// A pipeline of one stage is planned as that stage is when it stands
/// alone, and reports what the stage reports; with `!` in front, a success
/// becomes the raw status 1 and every other status the raw status 0, while
/// an error stays the error it is.
pub proof fn law_one_stage_pipeline(
    pipeline: ListableCommand,
    stage: PipeableCommand,
    outcome: Outcome,
)
    requires
        pipeline matches ListableCommand::Pipe(_, stages) && stages@ == seq![stage],
    ensures
        listable_plan(pipeline) == listable_plan(ListableCommand::Single(stage)),
        !negates(pipeline) ==> settle(negates(pipeline), outcome) == outcome,
        negates(pipeline) ==> settle(negates(pipeline), outcome) == match outcome {
            Ok(status) => Ok(
                if status.raw == 0 {
                    ExitStatus { raw: 1 }
                } else {
                    ExitStatus { raw: 0 }
                },
            ),
            Err(e) => Err(e),
        },
        settle(negates(ListableCommand::Single(stage)), outcome) == outcome,
{
}

/// A pipeline of two or more stages is `Unsupported`, whatever the stages
/// are.
pub proof fn law_long_pipeline(pipeline: ListableCommand)
    requires
        pipeline matches ListableCommand::Pipe(_, stages) && stages@.len() >= 2,
    ensures
        listable_plan(pipeline) == Err::<JobView, ExecuteError>(ExecuteError::Unsupported("Pipe")),
{
}

/// A command whose name is that of a built-in command is carried out by
/// that built-in command, and never started as an outside program.
pub proof fn law_builtin_preempts(command: SimpleCommand, builtin: Builtin)
    requires
        resolve_command(command) matches Ok(executable) && executable.command
            == builtin.spec_name()@,
    ensures
        simple_plan(command) == Ok::<JobView, ExecuteError>(
            JobView::Builtin(builtin, resolve_command(command)->Ok_0.args),
        ),
{
    builtin.lemma_named_by_name();
}

/// An outside program is started only for a name that the table of
/// built-in commands does not hold.
pub proof fn law_spawn_only_outside_table(executable: ExecutableView)
    ensures
        dispatch(executable) is Spawn <==> Builtin::named(executable.command) is None,
        dispatch(executable) !is Subshell,
{
}

/// A subshell is one job for the shell, whatever its commands are: the
/// shell itself carries out none of them, be it a `cd`, and so none of
/// them can change the shell.
pub proof fn law_subshell_is_one_job(
    commands: Seq<TopLevelCommand>,
    at: Place,
    subshell: CompoundCommand,
)
    requires
        at.within(commands),
        at.operand(commands) == ListableCommand::Single(PipeableCommand::Compound(subshell)),
        subshell.kind is Subshell,
        subshell.io@.len() == 0,
    ensures
        enter(commands, at.command, at.item) == ActionView::Run(
            at,
            JobView::Subshell(subshell.kind->Subshell_0@),
        ),
{
}

/// `> path` as the only redirection of a program binds one file, and binds
/// it to standard output: standard error and standard input are left as
/// they are.
pub proof fn law_output_redirection(target: TopLevelWord, path: Seq<char>)
    requires
        resolve_word(target) == Ok::<Seq<char>, ExecuteError>(path),
    ensures
        RedirectsView::empty().with(Redirect::Write(None, target)) matches Ok(redirects) && {
            &&& launchable(redirects)
            &&& bindings_of(redirects) == seq![(Stream::Stdout, path)]
        },
{
    let redirects = RedirectsView::empty().with(Redirect::Write(None, target))->Ok_0;
    assert(redirects.write =~= seq![(1u16, path)]);
    assert(redirects.read =~= Seq::empty());
    assert(bindings_of(redirects) =~= seq![(Stream::Stdout, path)]);
}

} // verus!
