use twyg::output::Output;
use twyg::output::STDERR;
use twyg::output::STDOUT;
use twyg::output::stderr;
use twyg::output::stdout;

#[test]
fn test_output_default() {
    assert_eq!(Output::default(), Output::Stdout);
}

#[test]
fn test_output_file() {
    let output = Output::file("/var/log/app.log");
    assert!(output.is_file());
    assert_eq!(output.file_path().unwrap(), "/var/log/app.log");
}

#[test]
fn test_output_is_file() {
    assert!(!Output::Stdout.is_file());
    assert!(!Output::Stderr.is_file());
    assert!(Output::File(String::from("/tmp/test.log")).is_file());
}

#[test]
fn test_output_file_path() {
    assert_eq!(Output::Stdout.file_path(), None);
    assert_eq!(Output::Stderr.file_path(), None);

    let path = String::from("/tmp/test.log");
    let output = Output::File(path.clone());
    assert_eq!(output.file_path(), Some(path.as_str()));
}

#[test]
fn test_output_display() {
    assert_eq!(Output::Stdout.display_string(), "stdout");
    assert_eq!(Output::Stderr.display_string(), "stderr");
    assert_eq!(Output::File(String::from("/tmp/test.log")).display_string(), "file:/tmp/test.log");
}

#[test]
fn test_output_from_str() {
    assert_eq!("stdout".parse::<Output>().unwrap(), Output::Stdout);
    assert_eq!("stderr".parse::<Output>().unwrap(), Output::Stderr);
    assert_eq!("STDOUT".parse::<Output>().unwrap(), Output::Stdout);
    assert_eq!("STDERR".parse::<Output>().unwrap(), Output::Stderr);
}

#[test]
fn test_output_from_str_file() {
    let result = "/tmp/test.log".parse::<Output>().unwrap();
    assert_eq!(result, Output::File(String::from("/tmp/test.log")));

    let result = "file:/var/log/app.log".parse::<Output>().unwrap();
    assert_eq!(result, Output::File(String::from("/var/log/app.log")));
}

#[test]
fn test_output_eq() {
    assert_eq!(Output::Stdout, Output::Stdout);
    assert_ne!(Output::Stdout, Output::Stderr);
    assert_eq!(
        Output::File(String::from("/tmp/a.log")),
        Output::File(String::from("/tmp/a.log"))
    );
    assert_ne!(
        Output::File(String::from("/tmp/a.log")),
        Output::File(String::from("/tmp/b.log"))
    );
}

#[test]
fn test_output_clone() {
    let output = Output::File(String::from("/tmp/test.log"));
    let cloned = output.clone();
    assert_eq!(output, cloned);
}

#[test]
fn test_output_as_str() {
    assert_eq!(Output::Stdout.as_str(), "stdout");
    assert_eq!(Output::Stderr.as_str(), "stderr");
    assert_eq!(Output::File(String::from("/tmp/test.log")).as_str(), "file");
}

#[test]
fn test_compat_constants() {
    assert_eq!(STDOUT, "stdout");
    assert_eq!(STDERR, "stderr");
}

#[test]
fn test_compat_functions() {
    assert_eq!(stdout().unwrap(), "stdout");
    assert_eq!(stderr().unwrap(), "stderr");
}

#[test]
fn test_output_parse_is_stderr() {
    assert!("stderr".parse::<Output>().unwrap().is_stderr());
    assert!(!"stdout".parse::<Output>().unwrap().is_stderr());
    assert!(!"/tmp/test.log".parse::<Output>().unwrap().is_stderr());
}

#[test]
fn test_output_parse_mixed_case_file_prefix() {
    // The `file:` prefix is matched case-sensitively; anything else is taken
    // as a plain file path.
    let result = "FILE:/tmp/x.log".parse::<Output>().unwrap();
    assert_eq!(result, Output::File(String::from("FILE:/tmp/x.log")));
}
