//! The execution engine: which command runs next, and what the whole
//! sequence reports.
//!
//! The engine itself starts no process. It hands out one [`Job`] at a time;
//! whoever drives it carries the job out and hands back how it ended, and
//! the engine answers with the next job or with the final result.

use vstd::prelude::*;
use crate::ast::{
    AndOr, AndOrList, Command, CompoundCommandKind, ListableCommand, PipeableCommand,
    RedirectOrCmdWord, SimpleCommand, TopLevelCommand,
};
use crate::registry::Builtin;
use crate::resolver::{
    lemma_resolve_items_fails_early, parse_toplevel_word, resolve_command, resolve_items, texts,
    Executable, ExecutableView, Redirects, Resolved,
};
use crate::status::{succeeded, ExecuteError, Outcome};

verus! {

/// One piece of work for the operating system.
#[derive(Debug)]
pub enum Job<'a> {
    /// Call a built-in command, inside the shell, with these arguments.
    Builtin(Builtin, Vec<String>),
    /// Start an outside program and wait for it.
    Spawn(Executable),
    /// Run these commands in a copy of the shell and wait for it.
    Subshell(&'a Vec<TopLevelCommand>),
}

pub enum JobView {
    Builtin(Builtin, Seq<Seq<char>>),
    Spawn(ExecutableView),
    Subshell(Seq<TopLevelCommand>),
}

impl<'a> View for Job<'a> {
    type V = JobView;

    open spec fn view(&self) -> JobView {
        match self {
            Job::Builtin(builtin, args) => JobView::Builtin(*builtin, texts(args@)),
            Job::Spawn(executable) => JobView::Spawn(executable@),
            Job::Subshell(commands) => JobView::Subshell(commands@),
        }
    }
}

/// What is to be done about one command: the job to carry out, or the error
/// it fails with before anything runs.
pub type Plan = Result<JobView, ExecuteError>;

/// Who carries out a resolved command: the built-in command of that name if
/// the table has one, an outside program otherwise. A built-in command
/// takes the arguments and no redirections.
pub open spec fn dispatch(executable: ExecutableView) -> JobView {
    match Builtin::named(executable.command) {
        Some(builtin) => JobView::Builtin(builtin, executable.args),
        None => JobView::Spawn(executable),
    }
}

/// The plan for a simple command.
pub open spec fn simple_plan(command: SimpleCommand) -> Plan {
    match resolve_command(command) {
        Ok(executable) => Ok(dispatch(executable)),
        Err(e) => Err(e),
    }
}

/// The feature name under which a compound command with redirections of
/// its own is refused.
pub open spec fn compound_io_feature() -> &'static str {
    "Compound command io"
}

/// The feature name under which a compound command other than a subshell is
/// refused.
pub open spec fn compound_feature(kind: CompoundCommandKind) -> &'static str {
    match kind {
        CompoundCommandKind::Subshell(_) => "",
        CompoundCommandKind::Brace => "Compound command Brace",
        CompoundCommandKind::While => "Compound command While",
        CompoundCommandKind::Until => "Compound command Until",
        CompoundCommandKind::If => "Compound command If",
        CompoundCommandKind::For => "Compound command For",
        CompoundCommandKind::Case => "Compound command Case",
    }
}

/// The plan for one stage of a pipeline: a simple command is resolved and
/// dispatched; a subshell without redirections of its own runs as a
/// subshell; everything else is `Unsupported`.
pub open spec fn single_plan(command: PipeableCommand) -> Plan {
    match command {
        PipeableCommand::Simple(simple) => simple_plan(simple),
        PipeableCommand::Compound(compound) => if compound.io@.len() > 0 {
            Err(ExecuteError::Unsupported(compound_io_feature()))
        } else {
            match compound.kind {
                CompoundCommandKind::Subshell(commands) => Ok(JobView::Subshell(commands@)),
                kind => Err(ExecuteError::Unsupported(compound_feature(kind))),
            }
        },
        PipeableCommand::FunctionDef(_) => Err(ExecuteError::Unsupported("Function definition")),
    }
}

/// The plan for the stages of a pipeline: none is a `StaticError`, one is
/// planned as if it stood alone, more than one is `Unsupported`.
pub open spec fn pipe_plan(stages: Seq<PipeableCommand>) -> Plan {
    if stages.len() == 0 {
        Err(ExecuteError::StaticError("Invalid empty pipe command"))
    } else if stages.len() == 1 {
        single_plan(stages[0])
    } else {
        Err(ExecuteError::Unsupported("Pipe"))
    }
}

/// The plan for one operand of an AND-OR list.
pub open spec fn listable_plan(command: ListableCommand) -> Plan {
    match command {
        ListableCommand::Pipe(_, stages) => pipe_plan(stages@),
        ListableCommand::Single(single) => single_plan(single),
    }
}

/// Whether the status of the command is to be turned round.
pub open spec fn negates(command: ListableCommand) -> bool {
    command matches ListableCommand::Pipe(negate, _) && negate
}

/// What a command reports, given how its job ended: an exit status is
/// turned round where the command asks for it, an error stays as it is.
pub open spec fn settle(negate: bool, outcome: Outcome) -> Outcome {
    match outcome {
        Ok(status) => if negate {
            Ok(status.negated())
        } else {
            Ok(status)
        },
        Err(e) => Err(e),
    }
}

/// Whether an AND-OR list goes on behind a command that reported `status`:
/// behind `&&` after a success, behind `||` after a failure or an error.
pub open spec fn goes_on(link: AndOr, status: Outcome) -> bool {
    match link {
        AndOr::And(_) => succeeded(status),
        AndOr::Or(_) => !succeeded(status),
    }
}

/// A place in a sequence of commands: the command, and the operand of its
/// AND-OR list.
#[derive(Clone, Copy, Debug, PartialEq, Eq, Structural)]
pub struct Cursor {
    pub command: usize,
    pub item: usize,
}

/// A place in a sequence of commands, as a pair of numbers.
pub struct Place {
    pub command: int,
    pub item: int,
}

impl Place {
    /// Whether the place is that of an operand of `commands`.
    pub open spec fn within(self, commands: Seq<TopLevelCommand>) -> bool {
        &&& 0 <= self.command < commands.len()
        &&& 0 <= self.item < commands[self.command].list().items()
    }

    /// Whether this place comes before `other` in the sequence.
    pub open spec fn before(self, other: Place) -> bool {
        self.command < other.command || (self.command == other.command && self.item < other.item)
    }

    /// The operand at the place.
    pub open spec fn operand(self, commands: Seq<TopLevelCommand>) -> ListableCommand {
        commands[self.command].list().item(self.item)
    }
}

impl View for Cursor {
    type V = Place;

    open spec fn view(&self) -> Place {
        Place { command: self.command as int, item: self.item as int }
    }
}

impl Cursor {
    /// Tells whether the cursor points at an operand of `commands`, as
    /// every cursor does that the engine has handed out for them.
    pub fn points_into(&self, commands: &Vec<TopLevelCommand>) -> (inside: bool)
        ensures
            inside == self@.within(commands@),
    {
        if self.command < commands.len() {
            let list = list_of(&commands[self.command]);
            self.item <= list.rest.len()
        } else {
            false
        }
    }
}

/// What the engine asks for next.
#[derive(Debug)]
pub enum Action<'a> {
    /// Carry out the job of the command under the cursor, then come back
    /// with the cursor and the result.
    Run(Cursor, Job<'a>),
    /// Nothing is left to do: this is what the sequence reports.
    Done(Outcome),
}

pub enum ActionView {
    Run(Place, JobView),
    Done(Outcome),
}

impl<'a> View for Action<'a> {
    type V = ActionView;

    open spec fn view(&self) -> ActionView {
        match self {
            Action::Run(at, job) => ActionView::Run(at@, job@),
            Action::Done(outcome) => ActionView::Done(*outcome),
        }
    }
}

/// What happens when the engine arrives at operand `item` of command
/// `command`: a command with a job waits for it; one that fails at once has
/// reported its error, and the engine moves on from there. (Outside the
/// sequence there is nothing to arrive at; the value there is of no use.)
pub open spec fn enter(commands: Seq<TopLevelCommand>, command: int, item: int) -> ActionView
    decreases commands.len() - command, commands[command].list().items() - item, 1int,
{
    if 0 <= command < commands.len() && 0 <= item < commands[command].list().items() {
        match listable_plan(commands[command].list().item(item)) {
            Ok(job) => ActionView::Run(Place { command, item }, job),
            Err(e) => leave(commands, command, item, Err(e)),
        }
    } else {
        ActionView::Done(Err(ExecuteError::Empty))
    }
}

/// What happens once operand `item` of command `command` has reported
/// `status`. The list goes on with its next operand where the operator in
/// between allows it. Otherwise the list ends there, whatever follows in
/// it, and `status` is what the command reports: the next command starts,
/// or, after the last one, the sequence reports `status`.
pub open spec fn leave(
    commands: Seq<TopLevelCommand>,
    command: int,
    item: int,
    status: Outcome,
) -> ActionView
    decreases commands.len() - command, commands[command].list().items() - item, 0int,
{
    if 0 <= command < commands.len() && 0 <= item < commands[command].list().items() {
        let list = commands[command].list();
        if item + 1 < list.items() && goes_on(list.rest@[item], status) {
            enter(commands, command, item + 1)
        } else if command + 1 < commands.len() {
            enter(commands, command + 1, 0)
        } else {
            ActionView::Done(status)
        }
    } else {
        ActionView::Done(status)
    }
}

/// Where the engine stands at an operand: at its arrival there while
/// `finished` is `None`, at its report otherwise.
pub open spec fn proceed(
    commands: Seq<TopLevelCommand>,
    command: int,
    item: int,
    finished: Option<Outcome>,
) -> ActionView {
    match finished {
        None => enter(commands, command, item),
        Some(status) => leave(commands, command, item, status),
    }
}

/// The first thing to do for a sequence of commands. An empty sequence
/// reports `Empty`.
pub open spec fn start(commands: Seq<TopLevelCommand>) -> ActionView {
    if commands.len() == 0 {
        ActionView::Done(Err(ExecuteError::Empty))
    } else {
        enter(commands, 0, 0)
    }
}

/// The next thing to do when the job of the command under `at` has ended
/// with `outcome`.
pub open spec fn after(commands: Seq<TopLevelCommand>, at: Place, outcome: Outcome) -> ActionView {
    leave(commands, at.command, at.item, settle(negates(at.operand(commands)), outcome))
}

/// Looks the command name up among the built-in commands. A miss is
/// `NotAnInner`: the command is then an outside program.
pub fn run_internal(command: &str) -> (r: Result<Builtin, ExecuteError>)
    ensures
        match r {
            Ok(builtin) => Builtin::named(command@) == Some(builtin),
            Err(e) => Builtin::named(command@) is None && e == ExecuteError::NotAnInner,
        },
{
    match Builtin::lookup(command) {
        Some(builtin) => Ok(builtin),
        None => Err(ExecuteError::NotAnInner),
    }
}

/// Decides who carries out a resolved command.
pub fn run<'a>(executable: Executable) -> (job: Job<'a>)
    ensures
        job@ == dispatch(executable@),
{
    match run_internal(executable.command.as_str()) {
        Ok(builtin) => Job::Builtin(builtin, executable.args),
        Err(_) => Job::Spawn(executable),
    }
}

/// Resolves a simple command and decides who carries it out.
pub fn execute_simple<'a>(command: &SimpleCommand) -> (r: Result<Job<'a>, ExecuteError>)
    ensures
        match r {
            Ok(job) => simple_plan(*command) == Ok::<JobView, ExecuteError>(job@),
            Err(e) => simple_plan(*command) == Err::<JobView, ExecuteError>(e),
        },
{
    if command.redirects_or_env_vars.len() > 0 {
        return Err(ExecuteError::Unsupported("environment variables or redirects"));
    }
    let words = &command.redirects_or_cmd_words;
    let mut args: Vec<String> = Vec::new();
    let mut redirects = Redirects::new();
    let mut i: usize = 0;
    assert(words@.take(0) =~= Seq::empty());
    assert(texts(args@) =~= Seq::empty());
    while i < words.len()
        invariant
            i <= words.len(),
            command.redirects_or_env_vars@.len() == 0,
            *words == command.redirects_or_cmd_words,
            resolve_items(words@.take(i as int)) == Ok::<Resolved, ExecuteError>(
                Resolved { words: texts(args@), redirects: redirects@ },
            ),
        decreases words.len() - i,
    {
        assert(words@.take(i + 1).drop_last() =~= words@.take(i as int));
        assert(words@.take(i + 1).last() == words@[i as int]);
        let ghost before = texts(args@);
        match &words[i] {
            RedirectOrCmdWord::CmdWord(word) => match parse_toplevel_word(word) {
                Ok(text) => {
                    args.push(text);
                    assert(texts(args@) =~= before.push(text@));
                },
                Err(e) => {
                    proof {
                        assert(resolve_items(words@.take(i + 1)) == Err::<Resolved, ExecuteError>(e));
                        lemma_resolve_items_fails_early(words@, i + 1);
                    }
                    return Err(e);
                },
            },
            RedirectOrCmdWord::Redirect(redirect) => match redirects.parse(redirect) {
                Ok(_) => {},
                Err(e) => {
                    proof {
                        assert(resolve_items(words@.take(i + 1)) == Err::<Resolved, ExecuteError>(e));
                        lemma_resolve_items_fails_early(words@, i + 1);
                    }
                    return Err(e);
                },
            },
        }
        i += 1;
    }
    assert(words@.take(i as int) =~= words@);
    if args.len() == 0 {
        return Err(ExecuteError::StaticError("Empty command"));
    }
    let executable = Executable::from(args, redirects);
    Ok(run(executable))
}

/// Plans one stage of a pipeline.
pub fn execute_single<'a>(command: &'a PipeableCommand) -> (r: Result<Job<'a>, ExecuteError>)
    ensures
        match r {
            Ok(job) => single_plan(*command) == Ok::<JobView, ExecuteError>(job@),
            Err(e) => single_plan(*command) == Err::<JobView, ExecuteError>(e),
        },
{
    match command {
        PipeableCommand::Simple(command) => execute_simple(command),
        PipeableCommand::Compound(command) => {
            if command.io.len() > 0 {
                return Err(ExecuteError::Unsupported("Compound command io"));
            }
            match &command.kind {
                CompoundCommandKind::Subshell(commands) => Ok(Job::Subshell(commands)),
                CompoundCommandKind::Brace => Err(
                    ExecuteError::Unsupported("Compound command Brace"),
                ),
                CompoundCommandKind::While => Err(
                    ExecuteError::Unsupported("Compound command While"),
                ),
                CompoundCommandKind::Until => Err(
                    ExecuteError::Unsupported("Compound command Until"),
                ),
                CompoundCommandKind::If => Err(ExecuteError::Unsupported("Compound command If")),
                CompoundCommandKind::For => Err(ExecuteError::Unsupported("Compound command For")),
                CompoundCommandKind::Case => Err(
                    ExecuteError::Unsupported("Compound command Case"),
                ),
            }
        },
        PipeableCommand::FunctionDef(_) => Err(ExecuteError::Unsupported("Function definition")),
    }
}

/// Plans the stages of a pipeline.
pub fn execute_pipe<'a>(commands: &'a Vec<PipeableCommand>) -> (r: Result<Job<'a>, ExecuteError>)
    ensures
        match r {
            Ok(job) => pipe_plan(commands@) == Ok::<JobView, ExecuteError>(job@),
            Err(e) => pipe_plan(commands@) == Err::<JobView, ExecuteError>(e),
        },
{
    if commands.len() == 0 {
        return Err(ExecuteError::StaticError("Invalid empty pipe command"));
    }
    if commands.len() == 1 {
        return execute_single(&commands[0]);
    }
    Err(ExecuteError::Unsupported("Pipe"))
}

/// Plans one operand of an AND-OR list.
pub fn execute_listable<'a>(command: &'a ListableCommand) -> (r: Result<Job<'a>, ExecuteError>)
    ensures
        match r {
            Ok(job) => listable_plan(*command) == Ok::<JobView, ExecuteError>(job@),
            Err(e) => listable_plan(*command) == Err::<JobView, ExecuteError>(e),
        },
{
    match command {
        ListableCommand::Pipe(_, commands) => execute_pipe(commands),
        ListableCommand::Single(command) => execute_single(command),
    }
}

/// What an operand of an AND-OR list reports when its job has ended with
/// `outcome`.
pub fn report(command: &ListableCommand, outcome: Outcome) -> (status: Outcome)
    ensures
        status == settle(negates(*command), outcome),
{
    match command {
        ListableCommand::Pipe(negate_last, _) => {
            let status = outcome?;
            if *negate_last {
                Ok(status.negate())
            } else {
                Ok(status)
            }
        },
        ListableCommand::Single(_) => outcome,
    }
}

/// The AND-OR list of a command.
fn list_of<'a>(command: &'a TopLevelCommand) -> (list: &'a AndOrList)
    ensures
        *list == command.list(),
{
    match &command.0 {
        Command::List(list) => list,
        Command::Job(list) => list,
    }
}

/// The operand at a position of an AND-OR list.
fn item_of<'a>(list: &'a AndOrList, item: usize) -> (command: &'a ListableCommand)
    requires
        item < list.items(),
    ensures
        *command == list.item(item as int),
{
    if item == 0 {
        &list.first
    } else {
        match &list.rest[item - 1] {
            AndOr::And(command) => command,
            AndOr::Or(command) => command,
        }
    }
}

/// Whether the list goes on behind a command that reported `status`.
fn continues(link: &AndOr, status: &Outcome) -> (on: bool)
    ensures
        on == goes_on(*link, *status),
{
    let success = match status {
        Ok(exit_status) => exit_status.success(),
        Err(_) => false,
    };
    match link {
        AndOr::And(_) => success,
        AndOr::Or(_) => !success,
    }
}

/// Walks on from a place in the sequence: from the arrival at the operand
/// under `at` where `finished` is `None`, from its report otherwise.
fn walk<'a>(commands: &'a Vec<TopLevelCommand>, at: Cursor, finished: Option<Outcome>) -> (action:
    Action<'a>)
    requires
        at@.within(commands@),
    ensures
        action@ == proceed(commands@, at.command as int, at.item as int, finished),
{
    let ghost goal = proceed(commands@, at.command as int, at.item as int, finished);
    let mut command: usize = at.command;
    let mut item: usize = at.item;
    let mut pending: Option<Outcome> = finished;
    loop
        invariant
            command < commands.len(),
            item < commands@[command as int].list().items(),
            goal == proceed(commands@, command as int, item as int, pending),
            goal == proceed(commands@, at.command as int, at.item as int, finished),
        decreases
                commands.len() - command,
                commands@[command as int].list().items() - item,
                if pending is None {
                    1int
                } else {
                    0int
                },
    {
        let list = list_of(&commands[command]);
        match pending {
            None => match execute_listable(item_of(list, item)) {
                Ok(job) => {
                    return Action::Run(Cursor { command, item }, job);
                },
                Err(e) => {
                    pending = Some(Err(e));
                },
            },
            Some(status) => {
                if item < list.rest.len() && continues(&list.rest[item], &status) {
                    item = item + 1;
                    pending = None;
                } else if command + 1 < commands.len() {
                    command = command + 1;
                    item = 0;
                    pending = None;
                } else {
                    return Action::Done(status);
                }
            },
        }
    }
}

/// Starts a sequence of commands: the first job to carry out, or the
/// result if there is none to carry out.
pub fn execute<'a>(commands: &'a Vec<TopLevelCommand>) -> (action: Action<'a>)
    ensures
        action@ == start(commands@),
        commands@.len() == 0 ==> action@ == ActionView::Done(Err(ExecuteError::Empty)),
        action@ matches ActionView::Run(next, _) ==> next.within(commands@),
{
    if commands.len() == 0 {
        return Action::Done(Err(ExecuteError::Empty));
    }
    execute_toplevel_command(commands, 0)
}

/// Starts one command of the sequence. What the commands before it have
/// reported plays no part.
pub fn execute_toplevel_command<'a>(commands: &'a Vec<TopLevelCommand>, command: usize) -> (action:
    Action<'a>)
    requires
        command < commands.len(),
    ensures
        action@ == enter(commands@, command as int, 0),
        action@ matches ActionView::Run(next, _) ==> next.within(commands@),
{
    proof {
        lemma_engine_goes_forward(commands@, command as int, 0, None);
    }
    walk(commands, Cursor { command, item: 0 }, None)
}

/// Goes on behind the operand under `at`, which has reported `status`.
pub fn execute_list<'a>(commands: &'a Vec<TopLevelCommand>, at: Cursor, status: Outcome) -> (action:
    Action<'a>)
    requires
        at@.within(commands@),
    ensures
        action@ == leave(commands@, at.command as int, at.item as int, status),
        action@ matches ActionView::Run(next, _) ==> next.within(commands@),
{
    proof {
        lemma_engine_goes_forward(commands@, at.command as int, at.item as int, Some(status));
    }
    walk(commands, at, Some(status))
}

/// Takes the result of the job that was handed out for the command under
/// `at`, and answers with the next job or with the result of the sequence.
pub fn resume<'a>(commands: &'a Vec<TopLevelCommand>, at: Cursor, outcome: Outcome) -> (action:
    Action<'a>)
    requires
        at@.within(commands@),
    ensures
        action@ == after(commands@, at@, outcome),
        action@ matches ActionView::Run(next, _) ==> next.within(commands@),
{
    let list = list_of(&commands[at.command]);
    let status = report(item_of(list, at.item), outcome);
    execute_list(commands, at, status)
}

/// From any place the engine goes forward only: a job that it hands out
/// belongs to an operand of the sequence, and to no earlier one than the
/// operand it stands at; after a report, to a later one.
pub proof fn lemma_engine_goes_forward(
    commands: Seq<TopLevelCommand>,
    command: int,
    item: int,
    finished: Option<Outcome>,
)
    ensures
        proceed(commands, command, item, finished) matches ActionView::Run(next, _) ==> {
            let at = Place { command, item };
            &&& next.within(commands)
            &&& at == next || at.before(next)
            &&& finished is Some ==> at.before(next)
        },
    decreases
            commands.len() - command,
            commands[command].list().items() - item,
            if finished is None {
                1int
            } else {
                0int
            },
{
    if 0 <= command < commands.len() && 0 <= item < commands[command].list().items() {
        let list = commands[command].list();
        match finished {
            None => match listable_plan(list.item(item)) {
                Ok(_) => {},
                Err(e) => lemma_engine_goes_forward(commands, command, item, Some(Err(e))),
            },
            Some(status) => {
                if item + 1 < list.items() && goes_on(list.rest@[item], status) {
                    lemma_engine_goes_forward(commands, command, item + 1, None);
                } else if command + 1 < commands.len() {
                    lemma_engine_goes_forward(commands, command + 1, 0, None);
                }
            },
        }
    }
}

} // verus!
