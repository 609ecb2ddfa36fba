use noteworthy::intern_error::Error;

#[test]
fn every_failure_has_its_line() {
    assert_eq!(Error::PlaceholderError.to_string(), "[!ERR!] ! Placeholder error !");
    assert_eq!(
        Error::CrosstermError(String::from("no tty")).to_string(),
        "[ERR] Crossterm : no tty"
    );
    assert_eq!(
        Error::SQLiteError(String::from("no such table: objects")).to_string(),
        "[ERR] SQLite : no such table: objects"
    );
    assert_eq!(
        Error::OutOfBoundsError(12).to_string(),
        "[ERR] Internal : Failed to retrieve index 12 from struct"
    );
    assert_eq!(Error::WalkBackError.to_string(), "[ERR] Internal : Cannot walk back any more");
    assert_eq!(
        Error::HexToRGBError(String::from("#zzz")).to_string(),
        "[ERR] Internal : Color could not be converted to RGB"
    );
    assert_eq!(
        Error::ConfigparserError(String::from("bad key")).to_string(),
        "[ERR] Configparser : bad key"
    );
    assert_eq!(Error::SSHError(String::from("refused")).to_string(), "[ERR] SSH2 : refused");
    assert_eq!(
        Error::NoDBConnectionError.to_string(),
        "[ERR] Internal : DB Connection not initialized, cannot populate DBBlock"
    );
    assert_eq!(
        Error::VecAccessError(0).to_string(),
        "[ERR] Internal : Couldn't access item at index 0"
    );
    assert_eq!(
        Error::VecRemoveError(305).to_string(),
        "[ERR] Internal : Couldn't remove selected item at index 305"
    );
    assert_eq!(Error::GlobErr.to_string(), "[ERR] Internal : Glob error");
    assert_eq!(Error::JSONParseErr.to_string(), "[ERR] Internal : Save data read failure");
}

#[test]
fn an_input_failure_becomes_a_crossterm_error_with_its_text() {
    let io = std::io::Error::new(std::io::ErrorKind::PermissionDenied, "permission denied");
    let text = io.to_string();
    assert_eq!(Error::from_io(io), Error::CrosstermError(text));
}

#[test]
fn duplicate_copies_the_failure() {
    let all = vec![
        Error::PlaceholderError,
        Error::CrosstermError(String::from("a")),
        Error::SQLiteError(String::from("b")),
        Error::OutOfBoundsError(1),
        Error::WalkBackError,
        Error::HexToRGBError(String::from("c")),
        Error::ConfigparserError(String::from("d")),
        Error::SSHError(String::from("e")),
        Error::NoDBConnectionError,
        Error::VecAccessError(2),
        Error::VecRemoveError(3),
        Error::GlobErr,
        Error::JSONParseErr,
    ];
    for e in &all {
        assert_eq!(&e.duplicate(), e);
    }
}
