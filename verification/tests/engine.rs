use rush::ast::{
    AndOr, AndOrList, Command, ComplexWord, CompoundCommand, CompoundCommandKind, ListableCommand,
    PipeableCommand, Redirect, RedirectOrCmdWord, RedirectOrEnvVar, SimpleCommand, SimpleWord,
    TopLevelCommand, TopLevelWord, Word,
};
use rush::engine::{
    execute, execute_list, execute_listable, execute_pipe, execute_simple, execute_single,
    execute_toplevel_command, report, resume, run, run_internal, Action, Cursor, Job,
};
use rush::registry::Builtin;
use rush::resolver::{Executable, Redirects};
use rush::status::{ExecuteError, ExitStatus};
use rush::util::basename::basename;

fn lit(text: &str) -> TopLevelWord {
    TopLevelWord(ComplexWord::Single(Word::Simple(SimpleWord::Literal(text.to_string()))))
}

fn simple(words: &[&str]) -> PipeableCommand {
    PipeableCommand::Simple(SimpleCommand {
        redirects_or_env_vars: vec![],
        redirects_or_cmd_words: words.iter().map(|w| RedirectOrCmdWord::CmdWord(lit(w))).collect(),
    })
}

fn single(words: &[&str]) -> ListableCommand {
    ListableCommand::Single(simple(words))
}

fn list(first: ListableCommand, rest: Vec<AndOr>) -> TopLevelCommand {
    TopLevelCommand(Command::List(AndOrList { first, rest }))
}

/// Drives the engine as a shell would, with `true` and `false` played by
/// fixed statuses, and notes the names of the programs that were started.
fn drive(commands: &Vec<TopLevelCommand>, started: &mut Vec<String>) -> Result<ExitStatus, ExecuteError> {
    let mut action = execute(commands);
    loop {
        match action {
            Action::Done(result) => return result,
            Action::Run(at, job) => {
                let outcome = match job {
                    Job::Builtin(Builtin::Basename, args) => {
                        let args: Vec<&str> = args.iter().map(|a| a.as_str()).collect();
                        Ok(basename(&args).status)
                    }
                    Job::Builtin(_, _) => Ok(ExitStatus::from_raw(0)),
                    Job::Spawn(executable) => {
                        started.push(executable.command.clone());
                        match executable.command.as_str() {
                            "true" => Ok(ExitStatus::from_raw(0)),
                            "false" => Ok(ExitStatus::from_raw(256)),
                            _ => Err(ExecuteError::IoError(std::io::Error::from(
                                std::io::ErrorKind::NotFound,
                            ))),
                        }
                    }
                    Job::Subshell(inner) => {
                        let mut inner_started = Vec::new();
                        let result = drive(inner, &mut inner_started);
                        started.extend(inner_started);
                        let code = rush::subshell::subshell_exit_code(&result);
                        rush::subshell::execute_subshell(rush::subshell::WaitOutcome::Exited(code))
                    }
                };
                action = resume(commands, at, outcome);
            }
        }
    }
}

#[test]
fn empty_sequence_reports_empty() {
    let commands: Vec<TopLevelCommand> = vec![];
    assert!(matches!(execute(&commands), Action::Done(Err(ExecuteError::Empty))));
    let mut started = vec![];
    assert!(matches!(drive(&commands, &mut started), Err(ExecuteError::Empty)));
}

#[test]
fn false_or_true_succeeds() {
    let commands = vec![list(single(&["false"]), vec![AndOr::Or(single(&["true"]))])];
    let mut started = vec![];
    let status = drive(&commands, &mut started).unwrap();
    assert!(status.success());
    assert_eq!(started, vec!["false".to_string(), "true".to_string()]);
}

#[test]
fn true_and_false_fails() {
    let commands = vec![list(single(&["true"]), vec![AndOr::And(single(&["false"]))])];
    let mut started = vec![];
    let status = drive(&commands, &mut started).unwrap();
    assert!(!status.success());
    assert_eq!(status.into_raw(), 256);
    assert_eq!(started, vec!["true".to_string(), "false".to_string()]);
}

#[test]
fn basename_is_a_builtin_and_prints_bin() {
    let commands = vec![list(single(&["basename", "/usr/bin"]), vec![])];
    match execute(&commands) {
        Action::Run(at, Job::Builtin(Builtin::Basename, args)) => {
            assert_eq!(at, Cursor { command: 0, item: 0 });
            assert_eq!(args, vec!["/usr/bin".to_string()]);
            let args: Vec<&str> = args.iter().map(|a| a.as_str()).collect();
            let out = basename(&args);
            assert_eq!(out.out, vec!["bin".to_string()]);
            assert_eq!(out.err, None);
            assert!(out.status.success());
            assert!(matches!(resume(&commands, at, Ok(out.status)), Action::Done(Ok(s)) if s.success()));
        }
        other => panic!("{:?}", other),
    }
}

#[test]
fn and_stops_after_failure() {
    let commands = vec![list(single(&["false"]), vec![AndOr::And(single(&["true"]))])];
    let mut started = vec![];
    let status = drive(&commands, &mut started).unwrap();
    assert_eq!(status.into_raw(), 256);
    assert_eq!(started, vec!["false".to_string()]);
}

#[test]
fn and_stops_after_error() {
    let commands = vec![list(single(&["missing"]), vec![AndOr::And(single(&["true"]))])];
    let mut started = vec![];
    assert!(matches!(drive(&commands, &mut started), Err(ExecuteError::IoError(_))));
    assert_eq!(started, vec!["missing".to_string()]);
}

#[test]
fn or_stops_after_success() {
    let commands = vec![list(single(&["true"]), vec![AndOr::Or(single(&["false"]))])];
    let mut started = vec![];
    let status = drive(&commands, &mut started).unwrap();
    assert!(status.success());
    assert_eq!(started, vec!["true".to_string()]);
}

#[test]
fn or_goes_on_after_error() {
    let commands = vec![list(single(&["missing"]), vec![AndOr::Or(single(&["true"]))])];
    let mut started = vec![];
    assert!(drive(&commands, &mut started).unwrap().success());
    assert_eq!(started, vec!["missing".to_string(), "true".to_string()]);
}

#[test]
fn or_goes_on_after_an_error_before_any_job() {
    let unsupported = ListableCommand::Pipe(false, vec![simple(&["a"]), simple(&["b"])]);
    let commands = vec![list(unsupported, vec![AndOr::Or(single(&["true"]))])];
    match execute(&commands) {
        Action::Run(at, Job::Spawn(executable)) => {
            assert_eq!(at, Cursor { command: 0, item: 1 });
            assert_eq!(executable.command, "true");
        }
        other => panic!("{:?}", other),
    }
}

#[test]
fn a_chain_that_breaks_skips_every_later_operand() {
    // false && a || b: the list ends at the `&&`, and `b` is not reached.
    let commands = vec![list(
        single(&["false"]),
        vec![AndOr::And(single(&["a"])), AndOr::Or(single(&["b"]))],
    )];
    let mut started = vec![];
    let status = drive(&commands, &mut started).unwrap();
    assert_eq!(status.into_raw(), 256);
    assert_eq!(started, vec!["false".to_string()]);
}

#[test]
fn a_sequence_reports_its_last_command() {
    let commands = vec![
        list(single(&["false"]), vec![]),
        list(single(&["missing"]), vec![]),
        list(single(&["true"]), vec![]),
    ];
    let mut started = vec![];
    assert!(drive(&commands, &mut started).unwrap().success());
    assert_eq!(started.len(), 3);

    let commands = vec![list(single(&["true"]), vec![]), list(single(&["false"]), vec![])];
    let mut started = vec![];
    assert_eq!(drive(&commands, &mut started).unwrap().into_raw(), 256);
}

#[test]
fn a_job_is_run_like_a_list() {
    let commands = vec![TopLevelCommand(Command::Job(AndOrList {
        first: single(&["true"]),
        rest: vec![],
    }))];
    let mut started = vec![];
    assert!(drive(&commands, &mut started).unwrap().success());
    assert_eq!(started, vec!["true".to_string()]);
}

#[test]
fn one_stage_pipeline_is_the_command_itself() {
    let piped = vec![list(ListableCommand::Pipe(false, vec![simple(&["false"])]), vec![])];
    let bare = vec![list(single(&["false"]), vec![])];
    let mut a = vec![];
    let mut b = vec![];
    assert_eq!(drive(&piped, &mut a).unwrap(), drive(&bare, &mut b).unwrap());
    assert_eq!(a, b);
}

#[test]
fn negation_swaps_zero_and_one() {
    let commands = vec![list(ListableCommand::Pipe(true, vec![simple(&["false"])]), vec![])];
    let mut started = vec![];
    assert_eq!(drive(&commands, &mut started).unwrap().into_raw(), 0);

    let commands = vec![list(ListableCommand::Pipe(true, vec![simple(&["true"])]), vec![])];
    assert_eq!(drive(&commands, &mut started).unwrap().into_raw(), 1);

    let commands = vec![list(ListableCommand::Pipe(true, vec![simple(&["missing"])]), vec![])];
    assert!(matches!(drive(&commands, &mut started), Err(ExecuteError::IoError(_))));
}

#[test]
fn report_turns_a_status_round_only_where_asked() {
    let negated = ListableCommand::Pipe(true, vec![simple(&["x"])]);
    let plain = ListableCommand::Pipe(false, vec![simple(&["x"])]);
    let bare = single(&["x"]);
    assert_eq!(report(&negated, Ok(ExitStatus::from_raw(0))).unwrap().into_raw(), 1);
    assert_eq!(report(&negated, Ok(ExitStatus::from_raw(7))).unwrap().into_raw(), 0);
    assert_eq!(report(&plain, Ok(ExitStatus::from_raw(7))).unwrap().into_raw(), 7);
    assert_eq!(report(&bare, Ok(ExitStatus::from_raw(7))).unwrap().into_raw(), 7);
    assert!(matches!(report(&negated, Err(ExecuteError::Empty)), Err(ExecuteError::Empty)));
}

#[test]
fn long_pipelines_are_unsupported() {
    let stages = vec![simple(&["true"]), simple(&["true"])];
    assert!(matches!(execute_pipe(&stages), Err(ExecuteError::Unsupported("Pipe"))));
    let stages = vec![simple(&["a"]), PipeableCommand::FunctionDef("f".to_string()), simple(&["c"])];
    assert!(matches!(execute_pipe(&stages), Err(ExecuteError::Unsupported("Pipe"))));
    let commands = vec![list(ListableCommand::Pipe(true, stages), vec![])];
    let mut started = vec![];
    assert!(matches!(drive(&commands, &mut started), Err(ExecuteError::Unsupported("Pipe"))));
    assert!(started.is_empty());
}

#[test]
fn empty_pipeline_is_a_static_error() {
    let stages: Vec<PipeableCommand> = vec![];
    assert!(matches!(
        execute_pipe(&stages),
        Err(ExecuteError::StaticError("Invalid empty pipe command"))
    ));
    let listable = ListableCommand::Pipe(false, vec![]);
    assert!(matches!(execute_listable(&listable), Err(ExecuteError::StaticError(_))));
}

#[test]
fn compound_commands_other_than_subshells_are_unsupported() {
    let kinds = vec![
        (CompoundCommandKind::Brace, "Compound command Brace"),
        (CompoundCommandKind::While, "Compound command While"),
        (CompoundCommandKind::Until, "Compound command Until"),
        (CompoundCommandKind::If, "Compound command If"),
        (CompoundCommandKind::For, "Compound command For"),
        (CompoundCommandKind::Case, "Compound command Case"),
    ];
    for (kind, name) in kinds {
        let command = PipeableCommand::Compound(CompoundCommand { kind, io: vec![] });
        match execute_single(&command) {
            Err(ExecuteError::Unsupported(feature)) => assert_eq!(feature, name),
            other => panic!("{:?}", other),
        }
    }
    let function = PipeableCommand::FunctionDef("f".to_string());
    assert!(matches!(
        execute_single(&function),
        Err(ExecuteError::Unsupported("Function definition"))
    ));
}

#[test]
fn subshell_with_redirections_is_unsupported() {
    let command = PipeableCommand::Compound(CompoundCommand {
        kind: CompoundCommandKind::Subshell(vec![list(single(&["true"]), vec![])]),
        io: vec![Redirect::Write(None, lit("out.txt"))],
    });
    assert!(matches!(
        execute_single(&command),
        Err(ExecuteError::Unsupported("Compound command io"))
    ));
}

#[test]
fn subshell_is_handed_out_with_its_commands() {
    let inner = vec![list(single(&["cd", "/tmp"]), vec![])];
    let command = PipeableCommand::Compound(CompoundCommand {
        kind: CompoundCommandKind::Subshell(inner),
        io: vec![],
    });
    match execute_single(&command) {
        Ok(Job::Subshell(commands)) => {
            assert_eq!(commands.len(), 1);
            assert!(matches!(
                execute(commands),
                Action::Run(Cursor { command: 0, item: 0 }, Job::Builtin(Builtin::Cd, _))
            ));
        }
        other => panic!("{:?}", other),
    }
}

#[test]
fn subshell_reports_what_its_commands_report() {
    let inner = vec![list(single(&["true"]), vec![AndOr::And(single(&["false"]))])];
    let commands = vec![list(
        ListableCommand::Single(PipeableCommand::Compound(CompoundCommand {
            kind: CompoundCommandKind::Subshell(inner),
            io: vec![],
        })),
        vec![AndOr::Or(single(&["true"]))],
    )];
    let mut started = vec![];
    assert!(drive(&commands, &mut started).unwrap().success());
    assert_eq!(started, vec!["true".to_string(), "false".to_string(), "true".to_string()]);
}

#[test]
fn builtins_come_before_outside_programs() {
    for (name, builtin) in [
        ("cd", Builtin::Cd),
        ("pwd", Builtin::Pwd),
        ("basename", Builtin::Basename),
        ("dirname", Builtin::Dirname),
        ("exit", Builtin::Exit),
        ("exec", Builtin::Exec),
    ] {
        assert_eq!(Builtin::lookup(name), Some(builtin));
        assert_eq!(builtin.name(), name);
        assert!(matches!(run_internal(name), Ok(b) if b == builtin));
        let executable = Executable::from(vec![name.to_string(), "x".to_string()], Redirects::new());
        match run(executable) {
            Job::Builtin(found, args) => {
                assert_eq!(found, builtin);
                assert_eq!(args, vec!["x".to_string()]);
            }
            other => panic!("{:?}", other),
        }
    }
    assert!(matches!(run_internal("ls"), Err(ExecuteError::NotAnInner)));
    assert!(matches!(run_internal("Pwd"), Err(ExecuteError::NotAnInner)));
    assert!(matches!(run_internal(""), Err(ExecuteError::NotAnInner)));
    let executable = Executable::from(vec!["ls".to_string(), "-l".to_string()], Redirects::new());
    match run(executable) {
        Job::Spawn(executable) => {
            assert_eq!(executable.command, "ls");
            assert_eq!(executable.args, vec!["-l".to_string()]);
        }
        other => panic!("{:?}", other),
    }
}

#[test]
fn simple_command_resolves_words_and_redirections() {
    let command = SimpleCommand {
        redirects_or_env_vars: vec![],
        redirects_or_cmd_words: vec![
            RedirectOrCmdWord::CmdWord(lit("sort")),
            RedirectOrCmdWord::Redirect(Redirect::Read(None, lit("in.txt"))),
            RedirectOrCmdWord::CmdWord(TopLevelWord(ComplexWord::Single(Word::SingleQuoted(
                "a b".to_string(),
            )))),
            RedirectOrCmdWord::Redirect(Redirect::Write(Some(2), lit("err.txt"))),
            RedirectOrCmdWord::CmdWord(TopLevelWord(ComplexWord::Single(Word::Simple(
                SimpleWord::Escaped("x".to_string()),
            )))),
            RedirectOrCmdWord::Redirect(Redirect::Append(None, lit("out.txt"))),
        ],
    };
    match execute_simple(&command) {
        Ok(Job::Spawn(executable)) => {
            assert_eq!(executable.command, "sort");
            assert_eq!(executable.args, vec!["a b".to_string(), "x".to_string()]);
            assert_eq!(executable.redirects.read, vec![(0u16, "in.txt".to_string())]);
            assert_eq!(
                executable.redirects.write,
                vec![(2u16, "err.txt".to_string()), (1u16, "out.txt".to_string())]
            );
        }
        other => panic!("{:?}", other),
    }
}

#[test]
fn simple_command_fails_at_its_first_unresolved_word() {
    let command = SimpleCommand {
        redirects_or_env_vars: vec![],
        redirects_or_cmd_words: vec![
            RedirectOrCmdWord::CmdWord(lit("echo")),
            RedirectOrCmdWord::CmdWord(TopLevelWord(ComplexWord::Single(Word::Simple(
                SimpleWord::Star,
            )))),
            RedirectOrCmdWord::CmdWord(TopLevelWord(ComplexWord::Single(Word::Simple(
                SimpleWord::Tilde,
            )))),
        ],
    };
    assert!(matches!(execute_simple(&command), Err(ExecuteError::Unsupported("*"))));

    let command = SimpleCommand {
        redirects_or_env_vars: vec![],
        redirects_or_cmd_words: vec![
            RedirectOrCmdWord::CmdWord(lit("echo")),
            RedirectOrCmdWord::Redirect(Redirect::Heredoc(None, lit("EOF"))),
            RedirectOrCmdWord::CmdWord(TopLevelWord(ComplexWord::Single(Word::Simple(
                SimpleWord::Star,
            )))),
        ],
    };
    assert!(matches!(execute_simple(&command), Err(ExecuteError::Unsupported("Heredoc"))));
}

#[test]
fn simple_command_with_a_prefix_is_unsupported() {
    let command = SimpleCommand {
        redirects_or_env_vars: vec![RedirectOrEnvVar::EnvVar("A".to_string(), Some(lit("1")))],
        redirects_or_cmd_words: vec![RedirectOrCmdWord::CmdWord(lit("env"))],
    };
    assert!(matches!(
        execute_simple(&command),
        Err(ExecuteError::Unsupported("environment variables or redirects"))
    ));
    let command = SimpleCommand {
        redirects_or_env_vars: vec![RedirectOrEnvVar::Redirect(Redirect::Write(None, lit("o")))],
        redirects_or_cmd_words: vec![RedirectOrCmdWord::CmdWord(lit("env"))],
    };
    assert!(matches!(execute_simple(&command), Err(ExecuteError::Unsupported(_))));
}

#[test]
fn simple_command_without_a_word_is_a_static_error() {
    let command = SimpleCommand { redirects_or_env_vars: vec![], redirects_or_cmd_words: vec![] };
    assert!(matches!(execute_simple(&command), Err(ExecuteError::StaticError("Empty command"))));
    let command = SimpleCommand {
        redirects_or_env_vars: vec![],
        redirects_or_cmd_words: vec![RedirectOrCmdWord::Redirect(Redirect::Write(None, lit("o")))],
    };
    assert!(matches!(execute_simple(&command), Err(ExecuteError::StaticError("Empty command"))));
}

#[test]
fn stepping_by_hand() {
    let commands = vec![
        list(single(&["a"]), vec![AndOr::And(single(&["b"])), AndOr::Or(single(&["c"]))]),
        list(single(&["d"]), vec![]),
    ];
    let at = |command, item| Cursor { command, item };
    let ok = || Ok(ExitStatus::from_raw(0));
    let bad = || Ok(ExitStatus::from_raw(3));
    assert!(matches!(execute_toplevel_command(&commands, 1), Action::Run(c, _) if c == at(1, 0)));
    assert!(matches!(execute_list(&commands, at(0, 0), ok()), Action::Run(c, _) if c == at(0, 1)));
    assert!(matches!(execute_list(&commands, at(0, 0), bad()), Action::Run(c, _) if c == at(1, 0)));
    assert!(matches!(execute_list(&commands, at(0, 1), bad()), Action::Run(c, _) if c == at(0, 2)));
    assert!(matches!(execute_list(&commands, at(0, 1), ok()), Action::Run(c, _) if c == at(1, 0)));
    assert!(matches!(execute_list(&commands, at(0, 2), bad()), Action::Run(c, _) if c == at(1, 0)));
    assert!(matches!(resume(&commands, at(1, 0), bad()), Action::Done(Ok(s)) if s.into_raw() == 3));
}
