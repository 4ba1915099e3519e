use rush::status::ExitStatus;
use rush::util::cd::{cd_destination, cd_directory, cd_finish, Destination};
use rush::util::exit::{exit, exit_from, Exit};
use rush::util::pwd::pwd;
use rush::util::exec::{exec, Replace};

#[test]
fn cd_reads_its_arguments() {
    assert!(matches!(cd_destination(&[]), Ok(Destination::Home)));
    assert!(matches!(cd_destination(&["~"]), Ok(Destination::Home)));
    assert!(matches!(cd_destination(&["-"]), Ok(Destination::Previous)));
    assert!(matches!(cd_destination(&["~root"]), Ok(Destination::UserHome(name)) if name == "root"));
    assert!(matches!(cd_destination(&["/etc"]), Ok(Destination::Path(path)) if path == "/etc"));
    assert!(matches!(cd_destination(&["../.."]), Ok(Destination::Path(path)) if path == "../.."));
    assert!(matches!(cd_destination(&[""]), Ok(Destination::Path(path)) if path == ""));
    let refused = cd_destination(&["/etc", "/usr"]).unwrap_err();
    assert_eq!(refused.err, Some("Too many arguments".to_string()));
    assert_eq!(refused.status, ExitStatus::from_raw(1));
    assert!(refused.out.is_empty());
}

#[test]
fn cd_names_the_directory() {
    assert_eq!(cd_directory(Destination::Home, Some("/etc".to_string())).unwrap(), "/etc");
    assert_eq!(cd_directory(Destination::Previous, Some("/usr".to_string())).unwrap(), "/usr");
    assert_eq!(
        cd_directory(Destination::UserHome("root".to_string()), Some("/root".to_string())).unwrap(),
        "/root"
    );
    assert_eq!(cd_directory(Destination::Path("/bin".to_string()), None).unwrap(), "/bin");
    assert_eq!(
        cd_directory(Destination::Path("/bin".to_string()), Some("/x".to_string())).unwrap(),
        "/bin"
    );

    let refused = cd_directory(Destination::Home, None).unwrap_err();
    assert_eq!(refused.err, Some("Can't find HOME in ENV".to_string()));
    assert_eq!(refused.status.into_raw(), 2);
    let refused = cd_directory(Destination::Previous, None).unwrap_err();
    assert_eq!(refused.err, Some("Can't find OLDPWD in ENV".to_string()));
    assert_eq!(refused.status.into_raw(), 3);
    let refused = cd_directory(Destination::UserHome("nobody".to_string()), None).unwrap_err();
    assert_eq!(refused.err, Some("Couldn't find home dir for user nobody".to_string()));
    assert_eq!(refused.status.into_raw(), 4);
}

#[test]
fn cd_notes_where_it_came_from() {
    let finish = cd_finish("/etc".to_string(), Ok("/usr".to_string()));
    assert_eq!(finish.oldpwd, Some("/etc".to_string()));
    assert_eq!(finish.pwd, Some("/usr".to_string()));
    assert!(finish.report.status.success());
    assert_eq!(finish.report.err, None);

    // `cd -` then leads back to where the move started.
    let back = cd_destination(&["-"]).unwrap();
    assert_eq!(cd_directory(back, finish.oldpwd).unwrap(), "/etc");
}

#[test]
fn cd_that_fails_sets_nothing() {
    let finish = cd_finish("/etc".to_string(), Err("No such file or directory".to_string()));
    assert_eq!(finish.oldpwd, None);
    assert_eq!(finish.pwd, None);
    assert!(!finish.report.status.success());
    assert_eq!(finish.report.status.into_raw(), 5);
    assert_eq!(finish.report.err, Some("No such file or directory\n".to_string()));
}

#[test]
fn exit_decides_by_its_arguments() {
    assert!(matches!(exit(&[]), Exit::Leave(0)));
    assert!(matches!(exit(&["123"]), Exit::Leave(123)));
    assert!(matches!(exit(&["-4"]), Exit::Leave(-4)));
    assert!(matches!(exit(&["+4"]), Exit::Leave(4)));
    match exit(&["123", "123"]) {
        Exit::Stay(report) => {
            assert_eq!(report.status, ExitStatus::from_raw(1));
            assert_eq!(report.err, Some("Too many arguments".to_string()));
        }
        other => panic!("{:?}", other),
    }
    for bad in ["wrong args", "", " 1", "99999999999", "1.5"] {
        match exit(&[bad]) {
            Exit::Stay(report) => {
                assert_eq!(report.status, ExitStatus::from_raw(2));
                assert_eq!(report.err, Some("Expected argument to be an integer".to_string()));
            }
            other => panic!("{:?}", other),
        }
    }
}

#[test]
fn exit_from_takes_the_number_it_is_given() {
    assert!(matches!(exit_from(&["x"], Some(7)), Exit::Leave(7)));
    assert!(matches!(exit_from(&["7"], None), Exit::Stay(_)));
    assert!(matches!(exit_from(&[], Some(7)), Exit::Leave(0)));
    assert!(matches!(exit_from(&["1", "2"], Some(7)), Exit::Stay(_)));
}

#[test]
fn pwd_prints_the_directory() {
    let report = pwd(&[], Ok("/usr".to_string()));
    assert_eq!(report.out, vec!["/usr".to_string()]);
    assert_eq!(report.err, None);
    assert!(report.status.success());

    let report = pwd(&["home"], Ok("/usr".to_string()));
    assert!(report.out.is_empty());
    assert_eq!(report.err, Some("Too many arguments".to_string()));
    assert_eq!(report.status.into_raw(), 1);

    let report = pwd(&[], Err("gone".to_string()));
    assert!(report.out.is_empty());
    assert_eq!(report.err, Some("gone".to_string()));
    assert_eq!(report.status.into_raw(), 2);
}

#[test]
fn exec_needs_a_program() {
    assert!(matches!(exec(&[]), Replace::Stay(status) if status == ExitStatus::from_raw(1)));
    match exec(&["ls", "-l", "/"]) {
        Replace::With(program, args) => {
            assert_eq!(program, "ls");
            assert_eq!(args, vec!["-l".to_string(), "/".to_string()]);
        }
        other => panic!("{:?}", other),
    }
    match exec(&["ls"]) {
        Replace::With(program, args) => {
            assert_eq!(program, "ls");
            assert!(args.is_empty());
        }
        other => panic!("{:?}", other),
    }
}

#[test]
fn test_exit_err() {
    assert!(matches!(exit(&["123", "123"]), Exit::Stay(report) if report.status == ExitStatus::from_raw(1)));
    assert!(matches!(exit(&["wrong args"]), Exit::Stay(report) if report.status == ExitStatus::from_raw(2)));
}

#[test]
fn test_exec_err() {
    assert!(matches!(exec(&[]), Replace::Stay(status) if status == ExitStatus::from_raw(1)));
}

#[test]
fn test_pwd() {
    assert!(pwd(&[], Ok("/".to_string())).status.success());
    assert!(pwd(&[], Ok("/usr".to_string())).status.success());
    assert!(!pwd(&["home"], Ok("/usr".to_string())).status.success());
}
