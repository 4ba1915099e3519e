use rush::util::dirname::{dirname, dirname_from, dirname_one};

#[test]
fn test_dirname_one() {
    assert_eq!("/", dirname_one("/tmp").unwrap().trim());
    assert_eq!("/usr", dirname_one("/usr/bin").unwrap().trim());
    assert_eq!("/usr", dirname_one("/usr/bin/").unwrap().trim());
    assert_eq!("/tmp", dirname_one("/tmp/file.txt").unwrap().trim());
    assert_eq!(".", dirname_one("file.txt").unwrap().trim());
    assert_eq!(".", dirname_one("./file.txt").unwrap().trim());
    assert_eq!(".", dirname_one(".").unwrap().trim());

    let err = dirname_one("/");
    assert!(err.is_err());
}

#[test]
fn dirname_test_basename() {
    assert!(dirname(&["/tmp"]).status.success());
    assert!(dirname(&["/tmp", "/usr/bin"]).status.success());

    assert!(!dirname(&["/", "/usr/bin"]).status.success());
    assert!(!dirname(&["/usr/bin", "/"]).status.success());
}

#[test]
fn dirname_reports_lines_up_to_first_failure() {
    let report = dirname(&["/usr/bin", "/", "/tmp"]);
    assert_eq!(report.out, vec!["/usr".to_string()]);
    assert_eq!(report.err, Some("/ has no parent directory\n".to_string()));
    assert_eq!(report.status.into_raw(), 1);
}

#[test]
fn dirname_from_takes_the_parent_it_is_given() {
    assert_eq!(dirname_from("a/b", Some("a".to_string())), Ok("a".to_string()));
    assert_eq!(dirname_from("plain", Some("other".to_string())), Ok(".".to_string()));
    assert_eq!(dirname_from("/", None), Err("/ has no parent directory\n".to_string()));
}
