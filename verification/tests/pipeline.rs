use shexec::command::BuiltinRegistry;
use shexec::command::EnvEntry;
use shexec::command::Command;
use shexec::command::ExitStatus;
use shexec::command::Pipeline;
use shexec::error::BuiltinError;
use shexec::error::CommandError;
use shexec::error::ShellError;
use shexec::exec::run_pipeline;
use shexec::fdplan::FdAction;
use shexec::fdplan::FdBinding;
use shexec::fdplan::FdTable;
use shexec::fdplan::OpenMode;
use shexec::resources::Resources;

/// A fingerprint of the process's descriptor occupancy: the number the next
/// duplicated descriptor receives. Any leaked descriptor raises it.
fn fd_fingerprint() -> i32 {
    let f = nix::fcntl::open(
        "/dev/null",
        nix::fcntl::OFlag::O_RDONLY,
        nix::sys::stat::Mode::empty(),
    )
    .unwrap();
    let d = nix::fcntl::fcntl(&f, nix::fcntl::FcntlArg::F_DUPFD(0)).unwrap();
    nix::unistd::close(d).unwrap();
    d
}

fn external(program: &str, args: &[&str], redirects: Vec<FdAction>) -> Command {
    Command::External {
        program: program.to_string(),
        args: args.iter().map(|a| a.to_string()).collect(),
        env: vec![],
        redirects,
    }
}

fn file_exists(path: &str) -> bool {
    nix::fcntl::open(path, nix::fcntl::OFlag::O_RDONLY, nix::sys::stat::Mode::empty()).is_ok()
}

fn remove_file(path: &str) {
    let _ = nix::unistd::unlink(path);
}

struct NoBuiltins;

impl BuiltinRegistry for NoBuiltins {
    fn run_builtin(
        &self,
        _name: &String,
        _args: &Vec<String>,
        _fds: &FdTable,
    ) -> Option<Result<ExitStatus, BuiltinError>> {
        None
    }
}

/// Answers for the names "ok" (success), "code3" (exit code 3), "fail" (an I/O
/// builtin error) and "probe" (succeeds only if its stream bindings are wired).
struct TestBuiltins;

impl BuiltinRegistry for TestBuiltins {
    fn run_builtin(
        &self,
        name: &String,
        _args: &Vec<String>,
        fds: &FdTable,
    ) -> Option<Result<ExitStatus, BuiltinError>> {
        match name.as_str() {
            "ok" => Some(Ok(ExitStatus::Success(0))),
            "code3" => Some(Ok(ExitStatus::Success(3))),
            "fail" => Some(Err(BuiltinError::Io("boom".to_string()))),
            "probe" => {
                let wired = matches!(fds.binding(0), FdBinding::Bound(_))
                    && matches!(fds.binding(1), FdBinding::Bound(_));
                if wired {
                    Some(Ok(ExitStatus::Success(0)))
                } else {
                    Some(Ok(ExitStatus::Success(1)))
                }
            }
            _ => None,
        }
    }
}

#[test]
fn three_stage_pipeline_two_endpoints_no_fds_kept() {
    let before = fd_fingerprint();
    let mut res = Resources::new();
    let p = Pipeline {
        stages: vec![
            external("/bin/true", &[], vec![]),
            external("/bin/true", &[], vec![]),
            external("/bin/true", &[], vec![]),
        ],
    };
    let out = run_pipeline(&NoBuiltins, &p, &mut res).unwrap();
    assert_eq!(out.pipes_created, 2);
    assert_eq!(out.statuses.len(), 3);
    let after = fd_fingerprint();
    assert_eq!(before, after);
}

#[test]
fn invalid_fd_destination_fails_before_spawn() {
    let marker = "/tmp/shexec_invalid_fd_marker";
    remove_file(marker);
    let mut res = Resources::new();
    let p = Pipeline {
        stages: vec![external(
            "/bin/touch",
            &[marker],
            vec![FdAction::DuplicateFd { src: 1, dst: 999 }],
        )],
    };
    let err = run_pipeline(&NoBuiltins, &p, &mut res).unwrap_err();
    let ShellError::Command { err, cmdname } = err;
    assert_eq!(err, CommandError::InvalidFd(999));
    assert_eq!(cmdname, "/bin/touch");
    // No process was spawned for the stage: its side effect never happened.
    assert!(!file_exists(marker));
}

#[test]
fn invalid_fd_error_display() {
    let e = ShellError::Command {
        err: CommandError::InvalidFd(999),
        cmdname: "redir".to_string(),
    };
    assert_eq!(e.display(), "redir: bad fd number (999)");
}

#[test]
fn false_then_true_reports_second_stage() {
    let mut res = Resources::new();
    let p = Pipeline {
        stages: vec![
            external("/bin/false", &[], vec![]),
            external("/bin/true", &[], vec![]),
        ],
    };
    let out = run_pipeline(&NoBuiltins, &p, &mut res).unwrap();
    assert_eq!(out.statuses.len(), 2);
    assert_eq!(out.statuses[0], ExitStatus::Success(1));
    assert_eq!(out.statuses[1], ExitStatus::Success(0));
    assert_eq!(*out.result(), ExitStatus::Success(0));
}

#[test]
fn middle_stage_setup_failure_waits_and_reports() {
    let marker = "/tmp/shexec_stage3_marker";
    remove_file(marker);
    let before = fd_fingerprint();
    let mut res = Resources::new();
    let p = Pipeline {
        stages: vec![
            external("/bin/sleep", &["0"], vec![]),
            external(
                "/bin/true",
                &[],
                vec![FdAction::DuplicateFd { src: 1, dst: 999 }],
            ),
            external("/bin/touch", &[marker], vec![]),
        ],
    };
    let err = run_pipeline(&NoBuiltins, &p, &mut res).unwrap_err();
    let ShellError::Command { err, cmdname } = err;
    assert_eq!(err, CommandError::InvalidFd(999));
    assert_eq!(cmdname, "/bin/true");
    // Stage 3 never launched.
    assert!(!file_exists(marker));
    // All descriptors were closed again.
    let after = fd_fingerprint();
    assert_eq!(before, after);
}

#[test]
fn spawn_failure_surfaces_os_error_text() {
    let mut res = Resources::new();
    let p = Pipeline {
        stages: vec![external("foo-shexec-no-such-program", &[], vec![])],
    };
    let err = run_pipeline(&NoBuiltins, &p, &mut res).unwrap_err();
    let display = err.display();
    let expected = format!(
        "foo-shexec-no-such-program: {}",
        nix::errno::Errno::ENOENT
    );
    assert_eq!(display, expected);
    let ShellError::Command { err, .. } = err;
    assert!(matches!(err, CommandError::StartRealCommand(_)));
}

#[test]
fn random_pipelines_leave_fd_count_unchanged() {
    let mut seed: u64 = 0x9e3779b97f4a7c15;
    let mut next = || {
        seed = seed.wrapping_mul(6364136223846793005).wrapping_add(1442695040888963407);
        (seed >> 33) as usize
    };
    let before = fd_fingerprint();
    for round in 0..8 {
        let width = 1 + next() % 3;
        let mut stages = Vec::new();
        for s in 0..width {
            let mut redirects = Vec::new();
            match next() % 4 {
                0 => {}
                1 => redirects.push(FdAction::DuplicateFd { src: 1, dst: 2 }),
                2 => redirects.push(FdAction::OpenFileAsFd {
                    path: format!("/tmp/shexec_rand_{}_{}", round, s),
                    mode: OpenMode::Write,
                    dst: 2,
                }),
                _ => redirects.push(FdAction::DuplicateFd { src: 1, dst: 999 }),
            }
            stages.push(external("/bin/true", &[], redirects));
        }
        let mut res = Resources::new();
        let _ = run_pipeline(&NoBuiltins, &Pipeline { stages }, &mut res);
        assert_eq!(fd_fingerprint(), before, "round {round} leaked a descriptor");
    }
    for round in 0..8 {
        for s in 0..3 {
            remove_file(&format!("/tmp/shexec_rand_{}_{}", round, s));
        }
    }
}

#[test]
fn pipeline_output_reaches_file_through_redirection() {
    let outfile = "/tmp/shexec_wiring_out";
    remove_file(outfile);
    let mut res = Resources::new();
    let p = Pipeline {
        stages: vec![
            external("/bin/echo", &["hi"], vec![]),
            external(
                "/bin/cat",
                &[],
                vec![FdAction::OpenFileAsFd {
                    path: outfile.to_string(),
                    mode: OpenMode::Write,
                    dst: 1,
                }],
            ),
        ],
    };
    let out = run_pipeline(&NoBuiltins, &p, &mut res).unwrap();
    assert_eq!(*out.result(), ExitStatus::Success(0));
    let f = nix::fcntl::open(outfile, nix::fcntl::OFlag::O_RDONLY, nix::sys::stat::Mode::empty())
        .unwrap();
    let mut buf = [0u8; 16];
    let n = nix::unistd::read(&f, &mut buf).unwrap();
    assert_eq!(&buf[..n], b"hi\n");
    remove_file(outfile);
}

#[test]
fn builtin_stage_gets_wired_stream_bindings() {
    let mut res = Resources::new();
    let p = Pipeline {
        stages: vec![
            external("/bin/echo", &["x"], vec![]),
            Command::Builtin {
                name: "probe".to_string(),
                args: vec![],
                redirects: vec![],
            },
            external("/bin/cat", &[], vec![]),
        ],
    };
    let out = run_pipeline(&TestBuiltins, &p, &mut res).unwrap();
    // The middle builtin saw both its stdin and stdout bound to pipe ends.
    assert_eq!(out.statuses[1], ExitStatus::Success(0));
}

#[test]
fn builtin_failure_becomes_failed_status_and_pipeline_continues() {
    let mut res = Resources::new();
    let p = Pipeline {
        stages: vec![
            Command::Builtin {
                name: "fail".to_string(),
                args: vec![],
                redirects: vec![],
            },
            Command::Builtin {
                name: "code3".to_string(),
                args: vec![],
                redirects: vec![],
            },
        ],
    };
    let out = run_pipeline(&TestBuiltins, &p, &mut res).unwrap();
    match &out.statuses[0] {
        ExitStatus::Failed(e) => assert_eq!(e.display(), "fail: boom"),
        other => panic!("expected a failed status, got {:?}", other),
    }
    assert_eq!(*out.result(), ExitStatus::Success(3));
}

#[test]
fn unknown_builtin_aborts_with_annotated_error() {
    let mut res = Resources::new();
    let p = Pipeline {
        stages: vec![Command::Builtin {
            name: "nosuch".to_string(),
            args: vec![],
            redirects: vec![],
        }],
    };
    let err = run_pipeline(&TestBuiltins, &p, &mut res).unwrap_err();
    assert_eq!(err.display(), "nosuch: unknown builtin");
}

#[test]
fn signaled_stage_is_reported_as_signaled() {
    let mut res = Resources::new();
    let p = Pipeline {
        stages: vec![external("/bin/sh", &["-c", "kill -TERM $$"], vec![])],
    };
    let out = run_pipeline(&NoBuiltins, &p, &mut res).unwrap();
    assert_eq!(*out.result(), ExitStatus::Signaled(libc_sigterm()));
}

fn libc_sigterm() -> i32 {
    nix::sys::signal::Signal::SIGTERM as i32
}

#[test]
fn open_failure_is_fd_as_file_and_leaks_nothing() {
    let before = fd_fingerprint();
    let mut res = Resources::new();
    let p = Pipeline {
        stages: vec![external(
            "/bin/true",
            &[],
            vec![FdAction::OpenFileAsFd {
                path: "/nonexistent-dir-shexec/out".to_string(),
                mode: OpenMode::Write,
                dst: 1,
            }],
        )],
    };
    let err = run_pipeline(&NoBuiltins, &p, &mut res).unwrap_err();
    let ShellError::Command { err, .. } = err;
    match err {
        CommandError::FdAsFile { fd, filename, .. } => {
            assert_eq!(fd, 1);
            assert_eq!(filename, "/nonexistent-dir-shexec/out");
        }
        other => panic!("expected FdAsFile, got {:?}", other),
    }
    assert_eq!(fd_fingerprint(), before);
}

#[test]
fn single_stage_reads_and_writes_redirected_files() {
    let infile = "/tmp/shexec_redirect_in";
    let outfile = "/tmp/shexec_redirect_out";
    remove_file(outfile);
    // Prepare the input file through the library's own open mode.
    {
        let mut res = Resources::new();
        let p = Pipeline {
            stages: vec![external(
                "/bin/echo",
                &["payload"],
                vec![FdAction::OpenFileAsFd {
                    path: infile.to_string(),
                    mode: OpenMode::Write,
                    dst: 1,
                }],
            )],
        };
        assert_eq!(*run_pipeline(&NoBuiltins, &p, &mut res).unwrap().result(), ExitStatus::Success(0));
    }
    let mut res = Resources::new();
    let p = Pipeline {
        stages: vec![external(
            "/bin/cat",
            &[],
            vec![
                FdAction::OpenFileAsFd {
                    path: infile.to_string(),
                    mode: OpenMode::Read,
                    dst: 0,
                },
                FdAction::OpenFileAsFd {
                    path: outfile.to_string(),
                    mode: OpenMode::Write,
                    dst: 1,
                },
            ],
        )],
    };
    let out = run_pipeline(&NoBuiltins, &p, &mut res).unwrap();
    assert_eq!(*out.result(), ExitStatus::Success(0));
    assert_eq!(out.pipes_created, 0);
    let f = nix::fcntl::open(outfile, nix::fcntl::OFlag::O_RDONLY, nix::sys::stat::Mode::empty())
        .unwrap();
    let mut buf = [0u8; 32];
    let n = nix::unistd::read(&f, &mut buf).unwrap();
    assert_eq!(&buf[..n], b"payload\n");
    remove_file(infile);
    remove_file(outfile);
}

#[test]
fn builtin_file_redirection_is_bound_and_released() {
    struct SeeFd;
    impl BuiltinRegistry for SeeFd {
        fn run_builtin(
            &self,
            name: &String,
            _args: &Vec<String>,
            fds: &FdTable,
        ) -> Option<Result<ExitStatus, BuiltinError>> {
            if name == "seefd" {
                // Binding 5 must reference a real opened descriptor.
                match fds.binding(5) {
                    FdBinding::Bound(fd) if fd != 5 => Some(Ok(ExitStatus::Success(0))),
                    _ => Some(Ok(ExitStatus::Success(1))),
                }
            } else {
                None
            }
        }
    }
    let before = fd_fingerprint();
    let tmp = "/tmp/shexec_builtin_redirect";
    let mut res = Resources::new();
    let p = Pipeline {
        stages: vec![Command::Builtin {
            name: "seefd".to_string(),
            args: vec![],
            redirects: vec![FdAction::OpenFileAsFd {
                path: tmp.to_string(),
                mode: OpenMode::Write,
                dst: 5,
            }],
        }],
    };
    let out = run_pipeline(&SeeFd, &p, &mut res).unwrap();
    assert_eq!(*out.result(), ExitStatus::Success(0));
    // The opened descriptor was released after the stage.
    assert_eq!(fd_fingerprint(), before);
    remove_file(tmp);
}

#[test]
fn child_receives_exactly_the_given_environment() {
    let outfile = "/tmp/shexec_env_out";
    remove_file(outfile);
    let mut res = Resources::new();
    let p = Pipeline {
        stages: vec![Command::External {
            program: "/bin/sh".to_string(),
            args: vec!["-c".to_string(), "printf %s \"$FOO\"".to_string()],
            env: vec![EnvEntry { name: "FOO".to_string(), value: "bar".to_string() }],
            redirects: vec![FdAction::OpenFileAsFd {
                path: outfile.to_string(),
                mode: OpenMode::Write,
                dst: 1,
            }],
        }],
    };
    let out = run_pipeline(&NoBuiltins, &p, &mut res).unwrap();
    assert_eq!(*out.result(), ExitStatus::Success(0));
    let f = nix::fcntl::open(outfile, nix::fcntl::OFlag::O_RDONLY, nix::sys::stat::Mode::empty())
        .unwrap();
    let mut buf = [0u8; 8];
    let n = nix::unistd::read(&f, &mut buf).unwrap();
    assert_eq!(&buf[..n], b"bar");
    remove_file(outfile);
}

#[test]
fn nul_byte_in_a_command_string_is_rejected_not_truncated() {
    let mut res = Resources::new();
    let p = Pipeline {
        stages: vec![external("/bin/true\0x", &[], vec![])],
    };
    let err = run_pipeline(&NoBuiltins, &p, &mut res).unwrap_err();
    let ShellError::Command { err, .. } = err;
    match err {
        CommandError::StartRealCommand(msg) => {
            assert_eq!(msg, "nul byte inside a command string")
        }
        other => panic!("expected StartRealCommand, got {:?}", other),
    }
}

#[test]
fn builtin_duplication_from_closed_slot_fails_setup() {
    let mut res = Resources::new();
    let p = Pipeline {
        stages: vec![Command::Builtin {
            name: "ok".to_string(),
            args: vec![],
            redirects: vec![
                FdAction::ClosePipeEnd { fd: 5 },
                FdAction::DuplicateFd { src: 5, dst: 1 },
            ],
        }],
    };
    let err = run_pipeline(&TestBuiltins, &p, &mut res).unwrap_err();
    let ShellError::Command { err, cmdname } = err;
    assert_eq!(cmdname, "ok");
    match err {
        CommandError::DupFd { err, fd } => {
            assert_eq!(fd, 1);
            assert_eq!(err, "bad file descriptor");
        }
        other => panic!("expected DupFd, got {:?}", other),
    }
}
