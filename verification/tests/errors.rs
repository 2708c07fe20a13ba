use shexec::decimal::i32_to_string;
use shexec::error::BuiltinError;
use shexec::error::CommandError;
use shexec::error::LockError;
use shexec::error::ShellError;
use shexec::fdplan::dup_slot;
use shexec::fdplan::close_slot;
use shexec::fdplan::FdBinding;
use shexec::fdplan::FdTable;

#[test]
fn decimal_rendering_is_exact() {
    assert_eq!(i32_to_string(0), "0");
    assert_eq!(i32_to_string(7), "7");
    assert_eq!(i32_to_string(999), "999");
    assert_eq!(i32_to_string(-45), "-45");
    assert_eq!(i32_to_string(i32::MAX), "2147483647");
    assert_eq!(i32_to_string(i32::MIN), "-2147483648");
}

#[test]
fn command_error_displays_match_their_formats() {
    assert_eq!(
        CommandError::StartRealCommand("no such file".to_string()).display(),
        "no such file"
    );
    assert_eq!(
        CommandError::RealCommandStatus("gone".to_string()).display(),
        "could not get exit status: gone"
    );
    assert_eq!(
        CommandError::DupFd { err: "EBADF".to_string(), fd: 7 }.display(),
        "could not duplicate fd 7: EBADF"
    );
    assert_eq!(CommandError::InvalidFd(-3).display(), "bad fd number (-3)");
    assert_eq!(CommandError::Pipe("EMFILE".to_string()).display(), "EMFILE");
    assert_eq!(CommandError::PipeIo("EIO".to_string()).display(), "EIO");
    assert_eq!(
        CommandError::FdAsFile {
            err: "denied".to_string(),
            fd: 5,
            filename: "/etc/x".to_string(),
        }
        .display(),
        "could not set up fd 5 as file /etc/x: denied"
    );
}

#[test]
fn builtin_error_displays_show_cause_unchanged() {
    assert_eq!(BuiltinError::Clap("bad flag".to_string()).display(), "bad flag");
    assert_eq!(BuiltinError::Io("eof".to_string()).display(), "eof");
    assert_eq!(BuiltinError::Nix("eintr".to_string()).display(), "eintr");
    assert_eq!(
        BuiltinError::Lock(LockError { msg: "poisoned".to_string() }).display(),
        "poisoned"
    );
    assert_eq!(BuiltinError::Other("downstream".to_string()).display(), "downstream");
    assert_eq!(
        CommandError::Builtin(BuiltinError::Io("eof".to_string())).display(),
        "eof"
    );
}

#[test]
fn shell_error_prepends_command_name() {
    let e = ShellError::Command {
        err: CommandError::StartRealCommand("missing".to_string()),
        cmdname: "foo".to_string(),
    };
    assert_eq!(e.display(), "foo: missing");
}

#[test]
fn attach_is_the_single_annotation_point() {
    let e = ShellError::attach(CommandError::Pipe("full".to_string()), "mk".to_string());
    assert_eq!(
        e,
        ShellError::Command { err: CommandError::Pipe("full".to_string()), cmdname: "mk".to_string() }
    );
}

#[test]
fn from_lock_error_wraps_as_lock() {
    let e = BuiltinError::from(LockError { msg: "held".to_string() });
    assert_eq!(e, BuiltinError::Lock(LockError { msg: "held".to_string() }));
}

#[test]
fn from_io_and_from_nix_keep_the_report() {
    let io = std::io::Error::new(std::io::ErrorKind::Other, "iofail");
    let e = BuiltinError::from_io(&io);
    assert_eq!(e, BuiltinError::Io(io.to_string()));
    let n = BuiltinError::from_nix(nix::errno::Errno::EBADF);
    assert_eq!(n, BuiltinError::Nix(nix::errno::Errno::EBADF.to_string()));
}

#[test]
fn fd_table_duplication_and_closing() {
    let mut t = FdTable::new();
    // An untouched table inherits everything.
    assert_eq!(t.binding(0), FdBinding::Bound(0));
    assert_eq!(t.binding(42), FdBinding::Bound(42));
    // dst becomes an alias of what src references now.
    assert!(dup_slot(&mut t, 7, 0).is_ok());
    assert_eq!(t.binding(0), FdBinding::Bound(7));
    // A later duplication follows the chain as it stands.
    assert!(dup_slot(&mut t, 0, 2).is_ok());
    assert_eq!(t.binding(2), FdBinding::Bound(7));
    close_slot(&mut t, 7);
    assert_eq!(t.binding(7), FdBinding::Closed);
    // Duplicating from a closed slot fails like dup2 of a closed descriptor.
    match dup_slot(&mut t, 7, 3) {
        Err(CommandError::DupFd { err, fd }) => {
            assert_eq!(fd, 3);
            assert_eq!(err, "bad file descriptor");
        }
        other => panic!("expected DupFd, got {:?}", other),
    }
    // An unrepresentable destination is rejected before anything else.
    assert_eq!(dup_slot(&mut t, 1, 999), Err(CommandError::InvalidFd(999)));
    assert_eq!(dup_slot(&mut t, 1, -1), Err(CommandError::InvalidFd(-1)));
}

#[test]
fn clap_parse_failure_enters_the_taxonomy_as_text() {
    let parse = clap::Command::new("tool")
        .arg(clap::Arg::new("n").long("n"))
        .try_get_matches_from(vec!["tool", "--bogus"]);
    let err = parse.unwrap_err();
    let wrapped = BuiltinError::Clap(err.to_string());
    assert_eq!(wrapped.display(), err.to_string());
    assert_eq!(
        CommandError::Builtin(wrapped.clone()).display(),
        err.to_string()
    );
    let top = ShellError::Command {
        err: CommandError::Builtin(wrapped),
        cmdname: "tool".to_string(),
    };
    assert_eq!(top.display(), format!("tool: {}", err));
}
