use mechanix_lockscreen::auth::pin::enforce::{
    book_lists, io_failure, service_dirs, service_path, validate_content, validate_service_file,
    ConfigError, ServiceSearch, PIN_FILE,
};

#[test]
fn accepts_full_module_path() {
    let content =
        "auth required /usr/lib64/security/pam_pwdfile.so pwdfile=/etc/mechanix/pin.passwd\n";
    assert!(validate_content(content).is_ok());
}

#[test]
fn book_lists_matches_user_line_only() {
    let book = "# comment\nmecha:$6$salt$hash\nother:$6$x$y\n";
    assert!(book_lists(book, "mecha"));
    assert!(book_lists(book, "other"));
    assert!(!book_lists(book, "nobody"));
    assert!(!book_lists("mechaX:$6$a$b\n", "mecha"));
    assert!(!book_lists("", "mecha"));
}

fn rejection(content: &str) -> String {
    match validate_content(content) {
        Err(ConfigError::Invalid(m)) => m,
        other => panic!("expected a rejection, got {other:?}"),
    }
}

#[test]
fn accepted_config_names_pin_file() {
    let content = "# PIN unlock\n\n  auth\trequired pam_pwdfile.so pwdfile=/etc/mechanix/pin.passwd  \r\n# end\n";
    let cfg = validate_content(content).unwrap();
    assert_eq!(cfg.pwdfile, PIN_FILE);
    assert_eq!(cfg.path, "/etc/mechanix/pin.passwd");
}

#[test]
fn rejects_each_fault() {
    assert_eq!(rejection(""), "no active stack lines");
    assert_eq!(rejection("# only a comment\n   \n"), "no active stack lines");
    assert_eq!(rejection("auth\n"), "line without control: 'auth'");
    assert_eq!(rejection("  auth required \n"), "line without module: 'auth required'");
    assert_eq!(
        rejection("account required pam_pwdfile.so pwdfile=/etc/mechanix/pin.passwd"),
        "only 'auth' stack lines are enforced, found 'account'"
    );
    assert_eq!(
        rejection("auth sufficient pam_pwdfile.so pwdfile=/etc/mechanix/pin.passwd"),
        "control must be 'required', found 'sufficient'"
    );
    assert_eq!(
        rejection("auth required /lib/security/pam_unix.so pwdfile=/etc/mechanix/pin.passwd"),
        "module must be pam_pwdfile.so, found '/lib/security/pam_unix.so'"
    );
    assert_eq!(
        rejection("auth required pam_pwdfile.so"),
        "expected exactly one argument (pwdfile=), found []"
    );
    assert_eq!(
        rejection("auth required pam_pwdfile.so pwdfile=/etc/mechanix/pin.passwd debug"),
        "expected exactly one argument (pwdfile=), found [\"pwdfile=/etc/mechanix/pin.passwd\", \"debug\"]"
    );
    assert_eq!(
        rejection("auth required pam_pwdfile.so file=/etc/mechanix/pin.passwd"),
        "expected 'pwdfile=…' argument, found 'file=/etc/mechanix/pin.passwd'"
    );
    assert_eq!(
        rejection("auth required pam_pwdfile.so pwdfile=/tmp/pins"),
        "pwdfile must be /etc/mechanix/pin.passwd, found '/tmp/pins'"
    );
    assert_eq!(
        rejection(
            "auth required pam_pwdfile.so pwdfile=/etc/mechanix/pin.passwd\nauth required pam_pwdfile.so pwdfile=/etc/mechanix/pin.passwd\n"
        ),
        "more than one active stack line"
    );
}

#[test]
fn first_fault_wins() {
    assert_eq!(
        rejection("auth sufficient x\nanother line\n"),
        "control must be 'required', found 'sufficient'"
    );
    assert_eq!(rejection("auth\nauth\n"), "line without control: 'auth'");
}

#[test]
fn module_basename_ends_at_last_slash() {
    assert!(validate_content("auth required pam_pwdfile.so pwdfile=/etc/mechanix/pin.passwd").is_ok());
    assert_eq!(
        rejection("auth required /pam_pwdfile.so/ pwdfile=/etc/mechanix/pin.passwd"),
        "module must be pam_pwdfile.so, found '/pam_pwdfile.so/'"
    );
}

#[test]
fn error_messages() {
    assert_eq!(
        ConfigError::NotFound.message(),
        "PAM service 'mechanix-lockscreen' not found in /etc/pam.d, /usr/lib/pam.d"
    );
    assert_eq!(
        ConfigError::Invalid("bad".to_string()).message(),
        "PAM service 'mechanix-lockscreen' rejected: bad"
    );
    assert_eq!(
        ConfigError::Io("gone".to_string()).message(),
        "PAM service unreadable: gone"
    );
}

#[test]
fn service_file_paths_and_errors() {
    assert_eq!(service_dirs(), vec!["/etc/pam.d", "/usr/lib/pam.d"]);
    assert_eq!(service_path("/etc/pam.d"), "/etc/pam.d/mechanix-lockscreen");
    assert_eq!(service_path("/etc/pam.d/"), "/etc/pam.d/mechanix-lockscreen");
    assert_eq!(service_path(""), "mechanix-lockscreen");
    assert_eq!(
        validate_service_file("/etc/pam.d/mechanix-lockscreen", ""),
        Err(ConfigError::Invalid(
            "no active stack lines (/etc/pam.d/mechanix-lockscreen)".to_string()
        ))
    );
    assert!(validate_service_file(
        "/p",
        "auth required pam_pwdfile.so pwdfile=/etc/mechanix/pin.passwd"
    )
    .is_ok());
    assert_eq!(
        io_failure("/etc/pam.d/mechanix-lockscreen", "No such file or directory (os error 2)"),
        ConfigError::Io(
            "/etc/pam.d/mechanix-lockscreen: No such file or directory (os error 2)".to_string()
        )
    );
}

#[test]
fn book_lists_handles_crlf_and_last_line() {
    assert!(book_lists("mecha:$6$a$b", "mecha"));
    assert!(book_lists("x:1\r\nmecha:2\r\n", "mecha"));
    assert!(!book_lists(" mecha:1\n", "mecha"));
}

#[test]
fn blank_and_comment_lines_leave_the_verdict() {
    let line = "auth required pam_pwdfile.so pwdfile=/etc/mechanix/pin.passwd";
    let padded = format!("# header\n\n   \n{line}\n\t# trailing note\n");
    assert_eq!(validate_content(line), validate_content(&padded));
    assert!(validate_content(&padded).is_ok());
    let bad = "auth sufficient pam_pwdfile.so pwdfile=/etc/mechanix/pin.passwd";
    let bad_padded = format!("\n# x\n{bad}\n#y\n");
    assert_eq!(validate_content(bad), validate_content(&bad_padded));
    assert!(validate_content(&bad_padded).is_err());
}

#[test]
fn crlf_line_endings_leave_the_verdict() {
    let line = "auth required pam_pwdfile.so pwdfile=/etc/mechanix/pin.passwd";
    let crlf = format!("# header\r\n\r\n{line}\r\n");
    assert_eq!(validate_content(line), validate_content(&crlf));
}

#[test]
fn service_search_first_readable_file_decides() {
    let good = "auth required pam_pwdfile.so pwdfile=/etc/mechanix/pin.passwd\n";
    let mut search = ServiceSearch::new();
    assert!(search.visit("/etc/pam.d/x", Err("gone")).is_none());
    let decided = search.visit("/usr/lib/pam.d/x", Ok(good)).unwrap();
    assert_eq!(decided.unwrap().pwdfile, PIN_FILE);

    let mut search = ServiceSearch::new();
    let decided = search.visit("/etc/pam.d/x", Ok("")).unwrap();
    assert_eq!(
        decided,
        Err(ConfigError::Invalid("no active stack lines (/etc/pam.d/x)".to_string()))
    );

    let mut search = ServiceSearch::new();
    assert!(search.visit("/etc/pam.d/x", Err("gone")).is_none());
    assert!(search.visit("/usr/lib/pam.d/x", Err("denied")).is_none());
    assert_eq!(search.finish(), ConfigError::Io("/usr/lib/pam.d/x: denied".to_string()));

    assert_eq!(ServiceSearch::new().finish(), ConfigError::NotFound);
}
