use duct::{
    cmd, false_cmd, finish, path_to_exe, read_text, sh, suppress_broken_pipe_errors, true_cmd,
    Context, Endpoint, Error, ExitStatus, Expression, IoValue, Output, Plan, SpawnRequest,
};
use std::io;

fn spawns(p: &Plan) -> Vec<&SpawnRequest> {
    match p {
        Plan::Spawn(req) => vec![req],
        Plan::Pipe(_, l, r) | Plan::Then(l, r) => {
            let mut v = spawns(l);
            v.extend(spawns(r));
            v
        }
        Plan::Feed(_, _, inner) => spawns(inner),
    }
}

fn statuses(codes: &[i32]) -> Vec<ExitStatus> {
    codes.iter().map(|c| ExitStatus::from_code(*c)).collect()
}

/// Finishes `e` as if its commands exited with `codes` and wrote `stdout`.
fn run_with(e: &Expression, codes: &[i32], stdout: &[u8], stderr: &[u8]) -> Result<Output, Error> {
    finish(e, None, &statuses(codes), Vec::new(), stdout.to_vec(), stderr.to_vec())
}

fn argv(req: &SpawnRequest) -> Vec<&str> {
    req.argv.iter().map(|s| s.as_str()).collect()
}

#[test]
fn test_cmd() {
    let e = cmd(&path_to_exe("echo"), vec!["hi".to_string()]).stdout_capture();
    let (plan, _) = e.plan(&Context::root());
    assert_eq!(argv(spawns(&plan)[0]), vec!["target/debug/echo", "hi"]);
    let output = run_with(&e, &[0], b"hi\n", b"").unwrap();
    assert_eq!("hi", read_text(output.stdout).unwrap());
}

#[test]
fn test_sh() {
    let e = sh("echo hi");
    let (plan, _) = e.plan(&Context::root());
    assert_eq!(argv(spawns(&plan)[0]), vec!["/bin/sh", "-c", "echo hi"]);
    let output = run_with(&e.stdout_capture(), &[0], b"hi\n", b"").unwrap();
    assert_eq!("hi", read_text(output.stdout).unwrap());
}

#[test]
fn test_error() {
    let result = run_with(&false_cmd(), &[1], b"", b"");
    if let Err(Error::Status(output)) = result {
        // Check that the status is non-zero.
        assert!(!output.status.success());
    } else {
        panic!("Expected a status error.");
    }
}

#[test]
fn test_unchecked() {
    let unchecked_false = false_cmd().unchecked();
    let e = unchecked_false
        .clone()
        .then(cmd(&path_to_exe("echo"), vec!["waa".to_string()]))
        .then(unchecked_false)
        .stdout_capture();
    let output = run_with(&e, &[1, 0, 1], b"waa\n", b"").unwrap();
    // The value of the exit code is preserved.
    assert_eq!(1, output.status.code().unwrap());
    assert_eq!("waa", String::from_utf8_lossy(&output.stdout).trim());
}

#[test]
fn test_unchecked_in_pipe() {
    let status = |c: &str| cmd(&path_to_exe("status"), vec![c.to_string()]);
    let zero = status("0");
    let one = status("1");
    let two = status("2");

    // Right takes precedence over left.
    let e = one.clone().pipe(two.clone()).unchecked();
    let output = run_with(&e, &[1, 2], b"", b"").unwrap();
    assert_eq!(2, output.status.code().unwrap());

    // Except that checked on the left takes precedence over unchecked on the right.
    let e = one.clone().pipe(two.clone().unchecked()).unchecked();
    let output = run_with(&e, &[1, 2], b"", b"").unwrap();
    assert_eq!(1, output.status.code().unwrap());

    // Right takes precedence over the left again if they're both unchecked.
    let e = one.clone().unchecked().pipe(two.unchecked()).unchecked();
    let output = run_with(&e, &[1, 2], b"", b"").unwrap();
    assert_eq!(2, output.status.code().unwrap());

    // Except that if the right is a success, the left takes precedence.
    let e = one.clone().unchecked().pipe(zero.clone().unchecked()).unchecked();
    let output = run_with(&e, &[1, 0], b"", b"").unwrap();
    assert_eq!(1, output.status.code().unwrap());

    // Even if the right is checked.
    let e = one.unchecked().pipe(zero).unchecked();
    let output = run_with(&e, &[1, 0], b"", b"").unwrap();
    assert_eq!(1, output.status.code().unwrap());
}

#[test]
fn test_pipe() {
    let e = sh("echo xxx").pipe(cmd(&path_to_exe("x_to_y"), vec![])).stdout_capture();
    let (plan, slots) = e.plan(&Context::root());
    assert_eq!(slots, 1);
    let reqs = spawns(&plan);
    assert!(matches!(reqs[0].context.stdout, Endpoint::PipeWrite(0)));
    assert!(matches!(reqs[1].context.stdin, Endpoint::PipeRead(0)));
    assert!(matches!(reqs[1].context.stdout, Endpoint::CaptureStdout));
    let output = run_with(&e, &[0, 0], b"yyy", b"").unwrap();
    assert_eq!("yyy", read_text(output.stdout).unwrap());

    // Check that errors on either side are propagated.
    match run_with(&true_cmd().pipe(false_cmd()), &[0, 1], b"", b"") {
        Err(Error::Status(output)) => {
            assert!(output.status.code().unwrap() == 1);
        }
        _ => panic!("should never get here"),
    }

    match run_with(&false_cmd().pipe(true_cmd()), &[1, 0], b"", b"") {
        Err(Error::Status(output)) => {
            assert!(output.status.code().unwrap() == 1);
        }
        _ => panic!("should never get here"),
    }
}

#[test]
fn test_then() {
    let e = true_cmd().then(sh("echo lo")).stdout_capture();
    let output = run_with(&e, &[0, 0], b"lo\n", b"").unwrap();
    assert_eq!("lo", read_text(output.stdout).unwrap());

    // Check that errors on either side are propagated.
    match run_with(&true_cmd().then(false_cmd()), &[0, 1], b"", b"") {
        Err(Error::Status(output)) => {
            assert!(output.status.code().unwrap() == 1);
        }
        _ => panic!("should never get here"),
    }

    match run_with(&false_cmd().then(true_cmd()), &[1, 0], b"", b"") {
        Err(Error::Status(output)) => {
            assert!(output.status.code().unwrap() == 1);
        }
        _ => panic!("should never get here"),
    }
}

#[test]
fn test_input() {
    let e = cmd(&path_to_exe("x_to_y"), vec![]).input(b"xxx".to_vec());
    let (plan, slots) = e.plan(&Context::root());
    assert_eq!(slots, 1);
    match &plan {
        Plan::Feed(0, bytes, inner) => {
            assert_eq!(bytes, b"xxx");
            assert!(matches!(spawns(inner)[0].context.stdin, Endpoint::Input(0)));
        }
        _ => panic!("expected a feed"),
    }
    let output = run_with(&e.stdout_capture(), &[0], b"yyy", b"").unwrap();
    assert_eq!("yyy", read_text(output.stdout).unwrap());
}

#[test]
fn test_null() {
    let e = cmd(&path_to_exe("cat"), vec![])
        .stdin_null()
        .stdout_null()
        .stderr_null()
        .stdout_capture();
    let (plan, _) = e.plan(&Context::root());
    let req = spawns(&plan)[0];
    assert!(matches!(req.context.stdin, Endpoint::Null));
    assert!(matches!(req.context.stdout, Endpoint::Null));
    assert!(matches!(req.context.stderr, Endpoint::Null));
    let output = run_with(&e, &[0], b"", b"").unwrap();
    assert_eq!("", read_text(output.stdout).unwrap());
}

#[test]
fn test_swapping() {
    let e = sh("echo hi").stdout_to_stderr().stderr_capture();
    let (plan, _) = e.plan(&Context::root());
    assert!(matches!(spawns(&plan)[0].context.stdout, Endpoint::CaptureStderr));
    let output = run_with(&e, &[0], b"", b"hi\n").unwrap();
    let stderr = std::str::from_utf8(&output.stderr).unwrap().trim();
    assert_eq!("hi", stderr);

    let e = sh("echo hi>&2").stderr_to_stdout().stdout_capture();
    let (plan, _) = e.plan(&Context::root());
    assert!(matches!(spawns(&plan)[0].context.stderr, Endpoint::CaptureStdout));
    let output = run_with(&e, &[0], b"hi\n", b"").unwrap();
    assert_eq!("hi", read_text(output.stdout).unwrap());
}

#[test]
fn test_ergonomics() {
    let mystr = "owned string".to_owned();
    let mypathbuf = std::path::Path::new("a/b/c").to_owned();
    let myvec = vec![1, 2, 3];
    // These are nonsense expressions. We just want to make sure they build.
    let _ = sh("true").stdin(&*mystr).input(myvec.clone()).stdout(mypathbuf.to_str().unwrap());
    let _ = sh("true").stdin(&mystr).input(myvec).stdout(&mypathbuf.to_string_lossy());
}

#[test]
fn test_capture_both() {
    let e = sh("echo hi").then(sh("echo lo>&2")).stdout_capture().stderr_capture();
    let (plan, _) = e.plan(&Context::root());
    for req in spawns(&plan) {
        assert!(matches!(req.context.stdout, Endpoint::CaptureStdout));
        assert!(matches!(req.context.stderr, Endpoint::CaptureStderr));
    }
    let output = run_with(&e, &[0, 0], b"hi\r\n", b"lo\n").unwrap();
    assert_eq!("hi", std::str::from_utf8(&output.stdout).unwrap().trim());
    assert_eq!("lo", std::str::from_utf8(&output.stderr).unwrap().trim());
}

#[test]
fn test_env() {
    let e = cmd(&path_to_exe("print_env"), vec!["foo".to_string()]).env("foo", "bar");
    let (plan, _) = e.plan(&Context::root());
    let ctx = &spawns(&plan)[0].context;
    assert!(!ctx.env_cleared);
    assert_eq!(ctx.env, vec![("foo".to_string(), "bar".to_string())]);
}

#[test]
fn test_full_env() {
    let var_name = "test_env_remove_var";
    let clean_env = vec![("HOME".to_string(), "/home/x".to_string())];
    let clean_child = cmd(&path_to_exe("print_env"), vec![var_name.to_string()]).full_env(clean_env.clone());
    // An outer env() call should be suppressed.
    let dirty_child = clean_child.env(var_name, "junk2");
    let (plan, _) = dirty_child.plan(&Context::root());
    let ctx = &spawns(&plan)[0].context;
    assert!(ctx.env_cleared);
    assert_eq!(ctx.env, clean_env);
    assert!(ctx.env.iter().all(|(k, _)| k != var_name));
}

#[test]
fn test_dir_override() {
    let e = cmd(&path_to_exe("pwd"), vec![]).dir("/tmp").dir("/ignored");
    let (plan, _) = e.plan(&Context::root());
    assert_eq!(spawns(&plan)[0].context.dir.as_deref(), Some("/tmp"));
}

#[test]
fn test_broken_pipe() {
    // If the input writing thread fills up its pipe buffer, writing will block. If the process
    // on the other end of the pipe exits while writer is waiting, the write will return an
    // error. We need to swallow that error, rather than returning it.
    let myvec = vec![0; 1_000_000];
    let e = true_cmd().input(myvec);
    let (plan, _) = e.plan(&Context::root());
    assert!(matches!(&plan, Plan::Feed(0, bytes, _) if bytes.len() == 1_000_000));
    let feed = suppress_broken_pipe_errors(Err(io::Error::new(io::ErrorKind::BrokenPipe, "")));
    finish(&e, None, &statuses(&[0]), vec![feed], Vec::new(), Vec::new()).unwrap();
}

#[test]
fn test_suppress_broken_pipe() {
    let broken_pipe_error = Err(io::Error::new(io::ErrorKind::BrokenPipe, ""));
    assert!(suppress_broken_pipe_errors(broken_pipe_error).is_ok());

    let other_error = Err(io::Error::new(io::ErrorKind::Other, ""));
    assert!(suppress_broken_pipe_errors(other_error).is_err());
}

#[test]
fn test_silly() {
    // A silly test, purely for coverage.
    IoValue::Null.try_clone().unwrap();
}

#[test]
fn stream_error_beats_status() {
    let results = vec![Ok(()), Err(io::Error::new(io::ErrorKind::Other, "first")), Err(io::Error::new(io::ErrorKind::Other, "second"))];
    match finish(&false_cmd(), None, &statuses(&[1]), results, Vec::new(), Vec::new()) {
        Err(Error::Io(e)) => assert_eq!(e.to_string(), "first"),
        _ => panic!("expected the first stream error"),
    }
}

#[test]
fn spawn_error_beats_everything() {
    let results = vec![Err(io::Error::new(io::ErrorKind::Other, "stream"))];
    let spawn = Some(io::Error::new(io::ErrorKind::NotFound, "missing"));
    match finish(&false_cmd(), spawn, &statuses(&[1]), results, Vec::new(), Vec::new()) {
        Err(Error::Spawn(e)) => assert_eq!(e.kind(), io::ErrorKind::NotFound),
        _ => panic!("expected the spawn error"),
    }
}

#[test]
fn read_strips_one_newline() {
    assert_eq!(read_text(b"a\n\n".to_vec()).unwrap(), "a\n");
    assert_eq!(read_text(b"a\r\n".to_vec()).unwrap(), "a");
    assert_eq!(read_text(b"a\r".to_vec()).unwrap(), "a\r");
    assert_eq!(read_text(Vec::new()).unwrap(), "");
    assert!(matches!(read_text(vec![0xff, 0xfe, b'\n']), Err(Error::InvalidUtf8)));
}

#[test]
fn successes_report_the_right_status() {
    let out = run_with(&true_cmd().then(true_cmd()), &[0, 0], b"", b"").unwrap();
    assert_eq!(out.status.code(), Some(0));
    let out = run_with(&true_cmd().pipe(true_cmd()), &[0, 0], b"", b"").unwrap();
    assert_eq!(out.status.code(), Some(0));
}

#[test]
fn signal_exit_is_fatal() {
    let e = true_cmd();
    let r = finish(&e, None, &vec![ExitStatus { code: None }], Vec::new(), Vec::new(), Vec::new());
    assert!(matches!(r, Err(Error::Status(_))));
    let r = finish(&e.unchecked(), None, &vec![ExitStatus { code: None }], Vec::new(), Vec::new(), Vec::new());
    assert_eq!(r.unwrap().status.code(), None);
}

#[test]
fn pipe_ends_clone_independently() {
    let (reader, writer) = os_pipe::pipe().unwrap();
    let r = IoValue::Reader(reader).try_clone().unwrap();
    let w = IoValue::Writer(writer).try_clone().unwrap();
    assert!(matches!(r, IoValue::Reader(_)));
    assert!(matches!(w, IoValue::Writer(_)));
    match IoValue::Path("out.txt".to_string()).try_clone().unwrap() {
        IoValue::Path(p) => assert_eq!(p, "out.txt"),
        _ => panic!("expected a path"),
    }
}
