use std::io::Read;

use parallel_invocation::protocol::{
    get_caller_arn, Action, Edition, Notice, Outcome, RunNext, TextNext, ToolError,
};
use parallel_invocation::setup::{ensure_function, ensure_role, SetupRun};
use parallel_invocation::teardown::{delete_function, delete_role, TeardownRun};
use parallel_invocation::trial::TrialRun;

fn ok() -> Outcome {
    Outcome::Exited { success: true, stdout: vec![] }
}

fn fail() -> Outcome {
    Outcome::Exited { success: false, stdout: vec![] }
}

fn printed(text: &str, success: bool) -> Outcome {
    Outcome::Exited { success, stdout: text.as_bytes().to_vec() }
}

fn aws_args(a: &Action) -> Vec<String> {
    match a {
        Action::Run(c) | Action::Capture(c) => {
            let skip = if c.program == "cmd" { 2 } else { 0 };
            c.args[skip..].to_vec()
        }
        _ => panic!("not a command"),
    }
}

fn is_capture(a: &Action) -> bool {
    matches!(a, Action::Capture(_))
}

fn is_run(a: &Action) -> bool {
    matches!(a, Action::Run(_))
}

fn log_message(a: &Action) -> (String, String) {
    match a {
        Action::Notify(Notice::Log(e)) => {
            assert_eq!(e.level, "info");
            (e.scope.clone(), e.message.clone())
        }
        _ => panic!("not a log record"),
    }
}

fn line(a: &Action) -> String {
    match a {
        Action::Notify(Notice::Line(l)) => l.clone(),
        _ => panic!("not a line"),
    }
}

fn act_text(n: TextNext) -> Action {
    match n {
        TextNext::Act(a) => a,
        TextNext::Resolved(_) => panic!("resolved early"),
    }
}

fn act(n: RunNext) -> Action {
    match n {
        RunNext::Act(a) => a,
        RunNext::Finished(_) => panic!("finished early"),
    }
}

#[test]
fn caller_arn_is_trimmed_output() {
    assert_eq!(get_caller_arn(true, b"arn:aws:iam::1:user/me\r\n".to_vec()).ok().unwrap(), "arn:aws:iam::1:user/me");
    assert!(matches!(get_caller_arn(true, vec![0xfe]), Err(ToolError::Utf8(_))));
}

#[test]
fn failed_caller_identity_is_an_error() {
    match get_caller_arn(false, Vec::new()) {
        Err(ToolError::CommandFailed { program, args }) => {
            assert_eq!(program, "aws");
            assert_eq!(args, ["sts", "get-caller-identity", "--query", "Arn", "--output", "text"]);
        }
        _ => panic!("expected a command failure"),
    }
    assert!(get_caller_arn(false, b"arn:aws:iam::1:user/me\n".to_vec()).is_err());
}

#[test]
fn existing_role_is_reused_tool() {
    let (mut m, first) = ensure_role(Edition::Tool, "t".to_string(), "me".to_string());
    assert!(is_capture(&first));
    assert_eq!(aws_args(&first)[0..2], ["iam".to_string(), "get-role".to_string()]);
    let a = act_text(m.step(printed("  arn:aws:iam::1:role/test-parallel-invocation-role\n", true)));
    assert_eq!(log_message(&a), ("role".to_string(), "既存のロールを使用する。".to_string()));
    match m.step(Outcome::Done) {
        TextNext::Resolved(Ok(arn)) => assert_eq!(arn, "arn:aws:iam::1:role/test-parallel-invocation-role"),
        _ => panic!("expected the ARN"),
    }
    assert!(matches!(m.step(Outcome::Done), TextNext::Resolved(Err(ToolError::OutOfOrder))));
}

#[test]
fn existing_role_is_reused_tester() {
    let (mut m, first) = ensure_role(Edition::Tester, String::new(), String::new());
    match &first {
        Action::Capture(c) => assert_eq!(c.program, "aws"),
        _ => panic!(),
    }
    match m.step(printed("arn:x\n", true)) {
        TextNext::Resolved(Ok(arn)) => assert_eq!(arn, "arn:x"),
        _ => panic!("expected the ARN"),
    }
}

#[test]
fn missing_role_is_created_and_reread() {
    let (mut m, _) = ensure_role(Edition::Tool, "2024-01-01T00:00:00Z".to_string(), "arn:me".to_string());
    let a = act_text(m.step(printed("", false)));
    assert_eq!(
        log_message(&a),
        ("role".to_string(), "ロール 'test-parallel-invocation-role' を作成する。".to_string())
    );
    let create = act_text(m.step(Outcome::Done));
    assert!(is_run(&create));
    let args = aws_args(&create);
    assert_eq!(args[1], "create-role");
    assert_eq!(args[args.len() - 2], "Key=CreatedAt,Value=2024-01-01T00:00:00Z");
    assert_eq!(args[args.len() - 1], "Key=CreatedBy,Value=arn:me");
    let attach = act_text(m.step(ok()));
    assert_eq!(aws_args(&attach)[1], "attach-role-policy");
    let reread = act_text(m.step(ok()));
    assert!(is_capture(&reread));
    match m.step(printed("arn:new\n", true)) {
        TextNext::Resolved(Ok(arn)) => assert_eq!(arn, "arn:new"),
        _ => panic!("expected the ARN"),
    }
}

#[test]
fn failed_second_role_lookup_is_an_error() {
    let (mut m, _) = ensure_role(Edition::Tool, "t".to_string(), "me".to_string());
    act_text(m.step(fail()));
    act_text(m.step(Outcome::Done));
    act_text(m.step(ok()));
    let reread = act_text(m.step(ok()));
    let expected = aws_args(&reread);
    match m.step(printed("", false)) {
        TextNext::Resolved(Err(ToolError::CommandFailed { program, args })) => {
            assert_eq!(program, "aws");
            assert_eq!(args, expected);
            assert_eq!(args[1], "get-role");
        }
        _ => panic!("expected a command failure"),
    }
}

#[test]
fn failed_role_creation_names_the_command() {
    let (mut m, _) = ensure_role(Edition::Tester, String::new(), String::new());
    let create = act_text(m.step(fail()));
    let expected = aws_args(&create);
    match m.step(fail()) {
        TextNext::Resolved(Err(ToolError::CommandFailed { program, args })) => {
            assert_eq!(program, "aws");
            assert_eq!(args, expected);
        }
        _ => panic!("expected a command failure"),
    }
}

#[test]
fn role_lookup_that_cannot_start() {
    let (mut m, _) = ensure_role(Edition::Tool, String::new(), String::new());
    let e = std::io::Error::new(std::io::ErrorKind::NotFound, "cmd missing");
    assert!(matches!(m.step(Outcome::Failed(e)), TextNext::Resolved(Err(ToolError::Io(_)))));
}

#[test]
fn existing_function_is_reused() {
    let (mut m, first) = ensure_function(Edition::Tool, "arn:r".into(), "t".into(), "me".into());
    assert_eq!(aws_args(&first)[1], "get-function");
    let a = act(m.step(ok()));
    assert_eq!(log_message(&a), ("function".to_string(), "既存の関数を使用する。".to_string()));
    assert!(matches!(m.step(Outcome::Done), RunNext::Finished(Ok(()))));

    let (mut t, _) = ensure_function(Edition::Tester, "arn:r".into(), String::new(), String::new());
    assert_eq!(line(&act(t.step(ok()))), "[setup] function already exists, skipping.");
    assert!(matches!(t.step(Outcome::Done), RunNext::Finished(Ok(()))));
}

#[test]
fn missing_function_is_created_from_the_archive() {
    let (mut m, _) = ensure_function(Edition::Tool, "arn:r".into(), "t0".into(), "me".into());
    let a = act(m.step(fail()));
    assert_eq!(
        log_message(&a),
        ("function".to_string(), "関数 'test-parallel-invocation' を作成する。".to_string())
    );
    assert!(matches!(act(m.step(Outcome::Done)), Action::ReadHandler));
    let source = b"def handler(e, c):\n    return 1\n".to_vec();
    let archive = match act(m.step(Outcome::Read(source.clone()))) {
        Action::WriteArchive(b) => b,
        _ => panic!("expected the archive"),
    };
    let mut zip = zip::ZipArchive::new(std::io::Cursor::new(archive)).unwrap();
    let mut back = Vec::new();
    zip.by_name("handler.py").unwrap().read_to_end(&mut back).unwrap();
    assert_eq!(back, source);
    let create = act(m.step(Outcome::Wrote("/w/handler.zip".into())));
    let args = aws_args(&create);
    assert_eq!(args[1], "create-function");
    assert!(args.contains(&"fileb:///w/handler.zip".to_string()));
    assert!(args.contains(&"arn:r".to_string()));
    assert_eq!(args.last().unwrap(), "Project=test-parallel-invocation,CreatedAt=t0,CreatedBy=me");
    let a = act(m.step(ok()));
    assert_eq!(log_message(&a).1, "関数がアクティブになるまで待機中。");
    let wait = act(m.step(Outcome::Done));
    assert_eq!(aws_args(&wait)[1..3], ["wait".to_string(), "function-active".to_string()]);
    assert!(matches!(m.step(ok()), RunNext::Finished(Ok(()))));
}

#[test]
fn failed_wait_stops_function_setup() {
    let (mut m, _) = ensure_function(Edition::Tester, "arn:r".into(), String::new(), String::new());
    assert!(matches!(act(m.step(fail())), Action::ReadHandler));
    assert!(matches!(act(m.step(Outcome::Read(b"x".to_vec()))), Action::WriteArchive(_)));
    act(m.step(Outcome::Wrote("h.zip".into())));
    act(m.step(ok()));
    match m.step(fail()) {
        RunNext::Finished(Err(ToolError::CommandFailed { args, .. })) => {
            assert_eq!(args[1], "wait");
        }
        _ => panic!("expected a command failure"),
    }
}

#[test]
fn unreadable_handler_stops_function_setup() {
    let (mut m, _) = ensure_function(Edition::Tester, "arn:r".into(), String::new(), String::new());
    act(m.step(fail()));
    let e = std::io::Error::new(std::io::ErrorKind::NotFound, "handler.py");
    assert!(matches!(m.step(Outcome::Failed(e)), RunNext::Finished(Err(ToolError::Io(_)))));
}

#[test]
fn tool_setup_runs_through() {
    let (mut s, first) = SetupRun::start(Edition::Tool, 1725029869);
    assert_eq!(aws_args(&first)[0..2], ["sts".to_string(), "get-caller-identity".to_string()]);
    let a = act(s.step(printed("arn:aws:iam::1:user/me\n", true)));
    assert_eq!(log_message(&a), ("setup".to_string(), "実行者: arn:aws:iam::1:user/me".to_string()));
    let lookup = act(s.step(Outcome::Done));
    assert_eq!(aws_args(&lookup)[1], "get-role");
    act(s.step(printed("", false)));
    let create = act(s.step(Outcome::Done));
    let args = aws_args(&create);
    assert_eq!(args[args.len() - 2], "Key=CreatedAt,Value=2024-08-30T14:57:49Z");
    assert_eq!(args[args.len() - 1], "Key=CreatedBy,Value=arn:aws:iam::1:user/me");
    act(s.step(ok()));
    act(s.step(ok()));
    let a = act(s.step(printed("arn:role\n", true)));
    assert_eq!(log_message(&a).1, "IAM ロール: arn:role");
    let a = act(s.step(Outcome::Done));
    assert_eq!(log_message(&a).1, "IAM ロールの反映を待機中 (10s)。");
    assert!(matches!(act(s.step(Outcome::Done)), Action::Sleep(10)));
    let lookup = act(s.step(Outcome::Done));
    assert_eq!(aws_args(&lookup)[1], "get-function");
    act(s.step(ok()));
    let a = act(s.step(Outcome::Done));
    assert_eq!(log_message(&a).1, "Lambda 関数 'test-parallel-invocation' の準備完了。");
    assert!(matches!(s.step(Outcome::Done), RunNext::Finished(Ok(()))));
}

#[test]
fn tester_setup_runs_through() {
    let (mut s, first) = SetupRun::start(Edition::Tester, 0);
    assert_eq!(aws_args(&first)[1], "get-role");
    assert_eq!(line(&act(s.step(printed("arn:r\n", true)))), "[setup] IAM role: arn:r");
    assert!(matches!(act(s.step(Outcome::Done)), Action::Sleep(10)));
    act(s.step(Outcome::Done));
    act(s.step(ok()));
    assert_eq!(line(&act(s.step(Outcome::Done))), "[setup] Lambda function 'test-parallel-invocation' ready.");
    assert!(matches!(s.step(Outcome::Done), RunNext::Finished(Ok(()))));
}

#[test]
fn setup_stops_when_caller_identity_fails() {
    let (mut s, first) = SetupRun::start(Edition::Tool, 0);
    let expected = aws_args(&first);
    match s.step(printed("", false)) {
        RunNext::Finished(Err(ToolError::CommandFailed { program, args })) => {
            assert_eq!(program, "aws");
            assert_eq!(args, expected);
        }
        _ => panic!("expected a command failure"),
    }
}

#[test]
fn setup_stops_on_undecodable_caller() {
    let (mut s, _) = SetupRun::start(Edition::Tool, 0);
    assert!(matches!(
        s.step(Outcome::Exited { success: true, stdout: vec![0xff] }),
        RunNext::Finished(Err(ToolError::Utf8(_)))
    ));
}

#[test]
fn teardown_skips_what_is_gone() {
    let (mut t, first) = TeardownRun::start(Edition::Tool);
    assert_eq!(aws_args(&first)[1], "delete-function");
    let a = act(t.step(fail()));
    assert_eq!(
        log_message(&a),
        ("function".to_string(), "関数 'test-parallel-invocation' はスキップ（削除済みまたはエラー）。".to_string())
    );
    let detach = act(t.step(Outcome::Done));
    assert_eq!(aws_args(&detach)[1], "detach-role-policy");
    let e = std::io::Error::new(std::io::ErrorKind::Other, "gone");
    let delete = act(t.step(Outcome::Failed(e)));
    assert_eq!(aws_args(&delete)[1], "delete-role");
    let a = act(t.step(ok()));
    assert_eq!(log_message(&a).1, "ロール 'test-parallel-invocation-role' を削除した。");
    let a = act(t.step(Outcome::Done));
    assert_eq!(log_message(&a), ("teardown".to_string(), "完了。".to_string()));
    assert!(matches!(t.step(Outcome::Done), RunNext::Finished(Ok(()))));
}

#[test]
fn tester_teardown_lines() {
    let (mut t, first) = TeardownRun::start(Edition::Tester);
    match &first {
        Action::Run(c) => assert_eq!(c.program, "cmd"),
        _ => panic!(),
    }
    assert_eq!(line(&act(t.step(ok()))), "[teardown] deleted function 'test-parallel-invocation'");
    act(t.step(Outcome::Done));
    act(t.step(ok()));
    assert_eq!(line(&act(t.step(fail()))), "[teardown] skip role (already gone or error)");
    assert_eq!(line(&act(t.step(Outcome::Done))), "[teardown] done.");
    assert!(matches!(t.step(Outcome::Done), RunNext::Finished(Ok(()))));
}

#[test]
fn single_removals() {
    let (mut f, a) = delete_function(Edition::Tester);
    assert_eq!(aws_args(&a)[1], "delete-function");
    assert_eq!(line(&act(f.step(fail()))), "[teardown] skip function (already gone or error)");
    assert!(matches!(f.step(Outcome::Done), RunNext::Finished(Ok(()))));
    let (mut r, a) = delete_role(Edition::Tool);
    assert_eq!(aws_args(&a)[1], "detach-role-policy");
    assert!(matches!(r.step(Outcome::Done), RunNext::Finished(Err(ToolError::OutOfOrder))));
}

#[test]
fn trial_runs_two_batches() {
    let (mut t, first) = TrialRun::start(Edition::Tool);
    assert_eq!(log_message(&first), ("test".to_string(), "フェーズ1: 同時実行数制限なし。".to_string()));
    assert!(matches!(act(t.step(Outcome::Done)), Action::InvokeBatch));
    assert_eq!(log_message(&act(t.step(Outcome::Done))).1, "フェーズ2: 同時実行数 = 1。");
    let limit = act(t.step(Outcome::Done));
    assert_eq!(
        aws_args(&limit),
        vec![
            "lambda",
            "put-function-concurrency",
            "--function-name",
            "test-parallel-invocation",
            "--reserved-concurrent-executions",
            "1"
        ]
    );
    match &limit {
        Action::Run(c) => assert_eq!(c.env[0].0, "AWS_MAX_ATTEMPTS"),
        _ => panic!(),
    }
    assert!(matches!(act(t.step(ok())), Action::InvokeBatch));
    let release = act(t.step(Outcome::Done));
    assert_eq!(aws_args(&release)[1], "delete-function-concurrency");
    assert_eq!(log_message(&act(t.step(ok()))).1, "同時実行数制限を解除した。");
    assert!(matches!(t.step(Outcome::Done), RunNext::Finished(Ok(()))));
}

#[test]
fn trial_stops_when_limit_fails() {
    let (mut t, first) = TrialRun::start(Edition::Tester);
    assert_eq!(line(&first), "=== 並列呼び出し可能（制限なし）===");
    act(t.step(Outcome::Done));
    assert_eq!(line(&act(t.step(Outcome::Done))), "\n=== 並列呼び出し不可（同時実行数 = 1）===");
    act(t.step(Outcome::Done));
    match t.step(fail()) {
        RunNext::Finished(Err(ToolError::CommandFailed { args, .. })) => {
            assert_eq!(args[1], "put-function-concurrency")
        }
        _ => panic!("expected a command failure"),
    }
}

#[test]
fn tester_reread_keeps_output_whatever_the_status() {
    let (mut m, _) = ensure_role(Edition::Tester, String::new(), String::new());
    act_text(m.step(fail()));
    act_text(m.step(ok()));
    let reread = act_text(m.step(ok()));
    assert!(is_capture(&reread));
    match m.step(printed(" arn:tester\n", false)) {
        TextNext::Resolved(Ok(arn)) => assert_eq!(arn, "arn:tester"),
        _ => panic!("expected the printed ARN"),
    }
}
