use parallel_invocation::command::{
    aws_command, function_create, role_create, Launcher, CommandSpec, POLICY_ARN, ROLE_NAME,
    TRUST_POLICY,
};
use parallel_invocation::invocation::{
    invocation_command, output_file_name, payload_file_name, payload_text,
};
use parallel_invocation::protocol::{run, Outcome, ToolError};

fn strings(v: &[&str]) -> Vec<String> {
    v.iter().map(|s| s.to_string()).collect()
}

fn args_of(c: &CommandSpec) -> Vec<&str> {
    c.args.iter().map(|s| s.as_str()).collect()
}

#[test]
fn shell_launch_prefixes_cmd() {
    let c = aws_command(Launcher::Shell, strings(&["sts", "get-caller-identity"]));
    assert_eq!(c.program, "cmd");
    assert_eq!(args_of(&c), vec!["/c", "aws", "sts", "get-caller-identity"]);
    assert!(c.env.is_empty());
}

#[test]
fn retry_free_launch_sets_max_attempts() {
    let c = aws_command(Launcher::ShellNoRetry, strings(&["lambda", "invoke"]));
    assert_eq!(c.program, "cmd");
    assert_eq!(args_of(&c), vec!["/c", "aws", "lambda", "invoke"]);
    assert_eq!(c.env, vec![("AWS_MAX_ATTEMPTS".to_string(), "1".to_string())]);
}

#[test]
fn direct_launch_runs_aws() {
    let c = aws_command(Launcher::Direct, strings(&["iam", "get-role"]));
    assert_eq!(c.program, "aws");
    assert_eq!(args_of(&c), vec!["iam", "get-role"]);
}

#[test]
fn tagged_role_creation() {
    let c = role_create(Launcher::Shell, Some(("2024-08-30T14:57:49Z", "arn:aws:iam::1:user/u")));
    assert_eq!(
        args_of(&c),
        vec![
            "/c",
            "aws",
            "iam",
            "create-role",
            "--role-name",
            ROLE_NAME,
            "--assume-role-policy-document",
            TRUST_POLICY,
            "--tags",
            "Key=Project,Value=test-parallel-invocation",
            "Key=CreatedAt,Value=2024-08-30T14:57:49Z",
            "Key=CreatedBy,Value=arn:aws:iam::1:user/u",
        ]
    );
    assert!(TRUST_POLICY.contains("lambda.amazonaws.com"));
    assert!(POLICY_ARN.ends_with("AWSLambdaBasicExecutionRole"));
}

#[test]
fn untagged_role_creation() {
    let c = role_create(Launcher::Direct, None);
    assert_eq!(c.program, "aws");
    assert_eq!(args_of(&c).len(), 6);
}

#[test]
fn function_creation_arguments() {
    let c = function_create(Launcher::Shell, "arn:role", "C:\\x\\handler.zip", Some(("t0", "me")));
    assert_eq!(
        args_of(&c),
        vec![
            "/c",
            "aws",
            "lambda",
            "create-function",
            "--function-name",
            "test-parallel-invocation",
            "--runtime",
            "python3.12",
            "--role",
            "arn:role",
            "--handler",
            "handler.handler",
            "--zip-file",
            "fileb://C:\\x\\handler.zip",
            "--timeout",
            "30",
            "--tags",
            "Project=test-parallel-invocation,CreatedAt=t0,CreatedBy=me",
        ]
    );
    let plain = function_create(Launcher::Direct, "arn:role", "/tmp/h.zip", None);
    assert_eq!(args_of(&plain).len(), 14);
}

#[test]
fn invocation_files_and_payload() {
    assert_eq!(payload_file_name(3), "lambda_payload_3.json");
    assert_eq!(output_file_name(4), "lambda_out_4.json");
    assert_eq!(payload_text(2), "{\"sleep\": 3, \"id\": 2}");
    let c = invocation_command("/tmp/lambda_payload_0.json", "/tmp/lambda_out_0.json");
    assert_eq!(
        args_of(&c),
        vec![
            "/c",
            "aws",
            "lambda",
            "invoke",
            "--function-name",
            "test-parallel-invocation",
            "--payload",
            "fileb:///tmp/lambda_payload_0.json",
            "/tmp/lambda_out_0.json",
        ]
    );
    assert_eq!(c.env.len(), 1);
}

#[test]
fn run_judges_exit_status() {
    let args = strings(&["lambda", "wait"]);
    assert!(run(args.clone(), Outcome::Exited { success: true, stdout: vec![] }).is_ok());
    match run(args.clone(), Outcome::Exited { success: false, stdout: vec![] }) {
        Err(ToolError::CommandFailed { program, args: a }) => {
            assert_eq!(program, "aws");
            assert_eq!(a, args);
        }
        _ => panic!("expected a command failure"),
    }
    let e = std::io::Error::new(std::io::ErrorKind::NotFound, "no cmd");
    match run(args.clone(), Outcome::Failed(e)) {
        Err(ToolError::Io(e)) => assert_eq!(e.kind(), std::io::ErrorKind::NotFound),
        _ => panic!("expected an I/O failure"),
    }
    assert!(matches!(run(args, Outcome::Done), Err(ToolError::OutOfOrder)));
}
