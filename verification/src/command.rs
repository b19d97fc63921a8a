use vstd::prelude::*;

verus! {

/// The Lambda function that the tools provision, invoke and remove.
pub const FUNCTION_NAME: &'static str = "test-parallel-invocation";

/// The execution role of that function.
pub const ROLE_NAME: &'static str = "test-parallel-invocation-role";

/// Value of the `Project` tag on every created resource.
pub const PROJECT: &'static str = "test-parallel-invocation";

/// The managed policy attached to the execution role.
pub const POLICY_ARN: &'static str = "arn:aws:iam::aws:policy/service-role/AWSLambdaBasicExecutionRole";

/// The trust policy that lets Lambda assume the execution role.
pub const TRUST_POLICY: &'static str = "{\"Version\":\"2012-10-17\",\"Statement\":[{\"Effect\":\"Allow\",\"Principal\":{\"Service\":\"lambda.amazonaws.com\"},\"Action\":\"sts:AssumeRole\"}]}";

/// How the AWS CLI is started.
#[derive(Clone, Copy, PartialEq, Eq, Structural, Debug)]
pub enum Launcher {
    /// Through the Windows shell: `cmd /c aws ...`.
    Shell,
    /// Through the Windows shell, with the CLI's retries switched off
    /// (`AWS_MAX_ATTEMPTS=1`).
    ShellNoRetry,
    /// The `aws` executable itself.
    Direct,
}

/// A process to start: program, arguments and extra environment.
pub struct CommandSpec {
    pub program: String,
    pub args: Vec<String>,
    pub env: Vec<(String, String)>,
}

/// The model of a `CommandSpec`.
#[verifier::ext_equal]
pub struct CommandLine {
    pub program: Seq<char>,
    pub args: Seq<Seq<char>>,
    pub env: Seq<(Seq<char>, Seq<char>)>,
}

impl View for CommandSpec {
    type V = CommandLine;

    open spec fn view(&self) -> CommandLine {
        CommandLine { program: self.program@, args: self.args.deep_view(), env: self.env.deep_view() }
    }
}

/// The command line that runs the AWS CLI with `aws_args` through `launcher`.
pub open spec fn launch(launcher: Launcher, aws_args: Seq<Seq<char>>) -> CommandLine {
    match launcher {
        Launcher::Shell => CommandLine {
            program: "cmd"@,
            args: seq!["/c"@, "aws"@] + aws_args,
            env: seq![],
        },
        Launcher::ShellNoRetry => CommandLine {
            program: "cmd"@,
            args: seq!["/c"@, "aws"@] + aws_args,
            env: seq![("AWS_MAX_ATTEMPTS"@, "1"@)],
        },
        Launcher::Direct => CommandLine { program: "aws"@, args: aws_args, env: seq![] },
    }
}

/// Owned copies of `list`.
pub fn words(list: &[&str]) -> (v: Vec<String>)
    ensures
        v.deep_view() == list@.map_values(|s: &str| s@),
{
    let mut v: Vec<String> = Vec::new();
    let mut i: usize = 0;
    while i < list.len()
        invariant
            i <= list@.len(),
            v.deep_view() == list@.take(i as int).map_values(|s: &str| s@),
        decreases list@.len() - i,
    {
        let ghost before = v.deep_view();
        let w = String::from_str(list[i]);
        v.push(w);
        assert(v.deep_view() =~= before.push(list@[i as int]@));
        assert(list@.take(i + 1).map_values(|s: &str| s@) =~= list@.take(i as int).map_values(
            |s: &str| s@,
        ).push(list@[i as int]@));
        i += 1;
    }
    assert(list@.take(list@.len() as int) =~= list@);
    v
}

/// The process that runs the AWS CLI with `aws_args` through `launcher`.
pub fn aws_command(launcher: Launcher, aws_args: Vec<String>) -> (c: CommandSpec)
    ensures
        c@ == launch(launcher, aws_args.deep_view()),
{
    match launcher {
        Launcher::Direct => {
            let c = CommandSpec { program: String::from_str("aws"), args: aws_args, env: Vec::new() };
            assert(c@ =~= launch(launcher, c@.args));
            c
        },
        _ => {
            let mut args = words(&["/c", "aws"]);
            let ghost head = args.deep_view();
            let ghost tail = aws_args.deep_view();
            let mut rest = aws_args;
            args.append(&mut rest);
            assert(args.deep_view() =~= head + tail);
            let mut env: Vec<(String, String)> = Vec::new();
            if launcher == Launcher::ShellNoRetry {
                env.push((String::from_str("AWS_MAX_ATTEMPTS"), String::from_str("1")));
            }
            let c = CommandSpec { program: String::from_str("cmd"), args, env };
            assert(c@ =~= launch(launcher, tail));
            c
        },
    }
}

/// `words` followed by the owned `extra`.
fn words_then(list: &[&str], extra: Vec<String>) -> (v: Vec<String>)
    ensures
        v.deep_view() == list@.map_values(|s: &str| s@) + extra.deep_view(),
{
    let mut v = words(list);
    let ghost head = v.deep_view();
    let mut rest = extra;
    let ghost tail = rest.deep_view();
    v.append(&mut rest);
    assert(v.deep_view() =~= head + tail);
    v
}

/// `aws sts get-caller-identity`, printing the caller's ARN.
pub open spec fn caller_identity_args() -> Seq<Seq<char>> {
    seq!["sts"@, "get-caller-identity"@, "--query"@, "Arn"@, "--output"@, "text"@]
}

/// `aws iam get-role`, printing the role's ARN.
pub open spec fn role_lookup_args() -> Seq<Seq<char>> {
    seq!["iam"@, "get-role"@, "--role-name"@, ROLE_NAME@, "--query"@, "Role.Arn"@, "--output"@, "text"@]
}

/// `aws iam create-role` with the Lambda trust policy, tagged with the
/// project and, when `tags` holds them, creation time and creator.
pub open spec fn role_create_args(tags: Option<(Seq<char>, Seq<char>)>) -> Seq<Seq<char>> {
    let base = seq![
        "iam"@,
        "create-role"@,
        "--role-name"@,
        ROLE_NAME@,
        "--assume-role-policy-document"@,
        TRUST_POLICY@,
    ];
    match tags {
        Some((at, by)) => base + seq![
            "--tags"@,
            "Key=Project,Value="@ + PROJECT@,
            "Key=CreatedAt,Value="@ + at,
            "Key=CreatedBy,Value="@ + by,
        ],
        None => base,
    }
}

/// `aws iam attach-role-policy` with the basic execution policy.
pub open spec fn policy_attach_args() -> Seq<Seq<char>> {
    seq!["iam"@, "attach-role-policy"@, "--role-name"@, ROLE_NAME@, "--policy-arn"@, POLICY_ARN@]
}

/// `aws iam detach-role-policy` of the basic execution policy.
pub open spec fn policy_detach_args() -> Seq<Seq<char>> {
    seq!["iam"@, "detach-role-policy"@, "--role-name"@, ROLE_NAME@, "--policy-arn"@, POLICY_ARN@]
}

/// `aws iam delete-role`.
pub open spec fn role_delete_args() -> Seq<Seq<char>> {
    seq!["iam"@, "delete-role"@, "--role-name"@, ROLE_NAME@]
}

/// `aws lambda get-function`.
pub open spec fn function_lookup_args() -> Seq<Seq<char>> {
    seq!["lambda"@, "get-function"@, "--function-name"@, FUNCTION_NAME@]
}

/// `aws lambda create-function` for the Python handler in the archive at
/// `archive_path`, run as `role_arn`, tagged (when `tags` holds creation
/// time and creator) with project, creation time and creator.
pub open spec fn function_create_args(
    role_arn: Seq<char>,
    archive_path: Seq<char>,
    tags: Option<(Seq<char>, Seq<char>)>,
) -> Seq<Seq<char>> {
    let base = seq![
        "lambda"@,
        "create-function"@,
        "--function-name"@,
        FUNCTION_NAME@,
        "--runtime"@,
        "python3.12"@,
        "--role"@,
        role_arn,
        "--handler"@,
        "handler.handler"@,
        "--zip-file"@,
        "fileb://"@ + archive_path,
        "--timeout"@,
        "30"@,
    ];
    match tags {
        Some((at, by)) => base + seq![
            "--tags"@,
            "Project="@ + PROJECT@ + ",CreatedAt="@ + at + ",CreatedBy="@ + by,
        ],
        None => base,
    }
}

/// `aws lambda wait function-active`.
pub open spec fn function_wait_args() -> Seq<Seq<char>> {
    seq!["lambda"@, "wait"@, "function-active"@, "--function-name"@, FUNCTION_NAME@]
}

/// `aws lambda delete-function`.
pub open spec fn function_delete_args() -> Seq<Seq<char>> {
    seq!["lambda"@, "delete-function"@, "--function-name"@, FUNCTION_NAME@]
}

/// `aws lambda put-function-concurrency` reserving a single execution.
pub open spec fn concurrency_limit_args() -> Seq<Seq<char>> {
    seq![
        "lambda"@,
        "put-function-concurrency"@,
        "--function-name"@,
        FUNCTION_NAME@,
        "--reserved-concurrent-executions"@,
        "1"@,
    ]
}

/// `aws lambda delete-function-concurrency`.
pub open spec fn concurrency_release_args() -> Seq<Seq<char>> {
    seq!["lambda"@, "delete-function-concurrency"@, "--function-name"@, FUNCTION_NAME@]
}

/// `aws lambda invoke` with the payload file at `payload_path`, writing the
/// response to `output_path`.
pub open spec fn invoke_args(payload_path: Seq<char>, output_path: Seq<char>) -> Seq<Seq<char>> {
    seq![
        "lambda"@,
        "invoke"@,
        "--function-name"@,
        FUNCTION_NAME@,
        "--payload"@,
        "fileb://"@ + payload_path,
        output_path,
    ]
}

/// The arguments of the `caller identity` command, owned.
pub fn caller_identity_words() -> (c: Vec<String>)
    ensures
        c.deep_view() == caller_identity_args(),
{
    let c = words_then(
        &["sts", "get-caller-identity", "--query", "Arn", "--output", "text"],
        Vec::new(),
    );
    assert(c.deep_view() =~= caller_identity_args());
    c
}

/// The `caller identity` command, launched through `launcher`.
pub fn caller_identity(launcher: Launcher) -> (c: CommandSpec)
    ensures
        c@ == launch(launcher, caller_identity_args()),
{
    aws_command(launcher, caller_identity_words())
}

/// The arguments of the `role lookup` command, owned.
pub fn role_lookup_words() -> (c: Vec<String>)
    ensures
        c.deep_view() == role_lookup_args(),
{
    let c = words_then(
        &["iam", "get-role", "--role-name", ROLE_NAME, "--query", "Role.Arn", "--output", "text"],
        Vec::new(),
    );
    assert(c.deep_view() =~= role_lookup_args());
    c
}

/// The `role lookup` command, launched through `launcher`.
pub fn role_lookup(launcher: Launcher) -> (c: CommandSpec)
    ensures
        c@ == launch(launcher, role_lookup_args()),
{
    aws_command(launcher, role_lookup_words())
}

/// The models of optional creation tags.
pub open spec fn tag_views(tags: Option<(&str, &str)>) -> Option<(Seq<char>, Seq<char>)> {
    match tags {
        Some((at, by)) => Some((at@, by@)),
        None => None,
    }
}

/// `prefix` followed by `value`, owned.
fn tagged(prefix: &str, value: &str) -> (s: String)
    ensures
        s@ == prefix@ + value@,
{
    let mut s = String::from_str(prefix);
    s.append(value);
    s
}

/// The arguments of the `role create` command, owned.
pub fn role_create_words(tags: Option<(&str, &str)>) -> (c: Vec<String>)
    ensures
        c.deep_view() == role_create_args(tag_views(tags)),
{
    let base = [
        "iam",
        "create-role",
        "--role-name",
        ROLE_NAME,
        "--assume-role-policy-document",
        TRUST_POLICY,
    ];
    match tags {
        Some((at, by)) => {
            let extra = vec![
                String::from_str("--tags"),
                tagged("Key=Project,Value=", PROJECT),
                tagged("Key=CreatedAt,Value=", at),
                tagged("Key=CreatedBy,Value=", by),
            ];
            let c = words_then(&base, extra);
            assert(c.deep_view() =~= role_create_args(Some((at@, by@))));
            c
        },
        None => {
            let c = words_then(&base, Vec::new());
            assert(c.deep_view() =~= role_create_args(None));
            c
        },
    }
}

/// The `role create` command, launched through `launcher`.
pub fn role_create(launcher: Launcher, tags: Option<(&str, &str)>) -> (c: CommandSpec)
    ensures
        c@ == launch(launcher, role_create_args(tag_views(tags))),
{
    aws_command(launcher, role_create_words(tags))
}

/// The arguments of the `policy attach` command, owned.
pub fn policy_attach_words() -> (c: Vec<String>)
    ensures
        c.deep_view() == policy_attach_args(),
{
    let c = words_then(
        &["iam", "attach-role-policy", "--role-name", ROLE_NAME, "--policy-arn", POLICY_ARN],
        Vec::new(),
    );
    assert(c.deep_view() =~= policy_attach_args());
    c
}

/// The `policy attach` command, launched through `launcher`.
pub fn policy_attach(launcher: Launcher) -> (c: CommandSpec)
    ensures
        c@ == launch(launcher, policy_attach_args()),
{
    aws_command(launcher, policy_attach_words())
}

/// The arguments of the `policy detach` command, owned.
pub fn policy_detach_words() -> (c: Vec<String>)
    ensures
        c.deep_view() == policy_detach_args(),
{
    let c = words_then(
        &["iam", "detach-role-policy", "--role-name", ROLE_NAME, "--policy-arn", POLICY_ARN],
        Vec::new(),
    );
    assert(c.deep_view() =~= policy_detach_args());
    c
}

/// The `policy detach` command, launched through `launcher`.
pub fn policy_detach(launcher: Launcher) -> (c: CommandSpec)
    ensures
        c@ == launch(launcher, policy_detach_args()),
{
    aws_command(launcher, policy_detach_words())
}

/// The arguments of the `role delete` command, owned.
pub fn role_delete_words() -> (c: Vec<String>)
    ensures
        c.deep_view() == role_delete_args(),
{
    let c = words_then(&["iam", "delete-role", "--role-name", ROLE_NAME], Vec::new());
    assert(c.deep_view() =~= role_delete_args());
    c
}

/// The `role delete` command, launched through `launcher`.
pub fn role_delete(launcher: Launcher) -> (c: CommandSpec)
    ensures
        c@ == launch(launcher, role_delete_args()),
{
    aws_command(launcher, role_delete_words())
}

/// The arguments of the `function lookup` command, owned.
pub fn function_lookup_words() -> (c: Vec<String>)
    ensures
        c.deep_view() == function_lookup_args(),
{
    let c = words_then(
        &["lambda", "get-function", "--function-name", FUNCTION_NAME],
        Vec::new(),
    );
    assert(c.deep_view() =~= function_lookup_args());
    c
}

/// The `function lookup` command, launched through `launcher`.
pub fn function_lookup(launcher: Launcher) -> (c: CommandSpec)
    ensures
        c@ == launch(launcher, function_lookup_args()),
{
    aws_command(launcher, function_lookup_words())
}

/// The arguments of the `function create` command, owned.
pub fn function_create_words(role_arn: &str, archive_path: &str, tags: Option<(&str, &str)>) -> (c:
    Vec<String>)
    ensures
        c.deep_view() == function_create_args(role_arn@, archive_path@, tag_views(tags)),
{
    let mut extra = vec![
        String::from_str(role_arn),
        String::from_str("--handler"),
        String::from_str("handler.handler"),
        String::from_str("--zip-file"),
        tagged("fileb://", archive_path),
        String::from_str("--timeout"),
        String::from_str("30"),
    ];
    let list = [
        "lambda",
        "create-function",
        "--function-name",
        FUNCTION_NAME,
        "--runtime",
        "python3.12",
        "--role",
    ];
    match tags {
        Some((at, by)) => {
            let mut label = tagged("Project=", PROJECT);
            label.append(",CreatedAt=");
            label.append(at);
            label.append(",CreatedBy=");
            label.append(by);
            extra.push(String::from_str("--tags"));
            extra.push(label);
            let c = words_then(&list, extra);
            assert(c.deep_view() =~= function_create_args(role_arn@, archive_path@, Some((at@, by@))));
            c
        },
        None => {
            let c = words_then(&list, extra);
            assert(c.deep_view() =~= function_create_args(role_arn@, archive_path@, None));
            c
        },
    }
}

/// The `function create` command, launched through `launcher`.
pub fn function_create(
    launcher: Launcher,
    role_arn: &str,
    archive_path: &str,
    tags: Option<(&str, &str)>,
) -> (c: CommandSpec)
    ensures
        c@ == launch(launcher, function_create_args(role_arn@, archive_path@, tag_views(tags))),
{
    aws_command(launcher, function_create_words(role_arn, archive_path, tags))
}

/// The arguments of the `function wait` command, owned.
pub fn function_wait_words() -> (c: Vec<String>)
    ensures
        c.deep_view() == function_wait_args(),
{
    let c = words_then(
        &["lambda", "wait", "function-active", "--function-name", FUNCTION_NAME],
        Vec::new(),
    );
    assert(c.deep_view() =~= function_wait_args());
    c
}

/// The `function wait` command, launched through `launcher`.
pub fn function_wait(launcher: Launcher) -> (c: CommandSpec)
    ensures
        c@ == launch(launcher, function_wait_args()),
{
    aws_command(launcher, function_wait_words())
}

/// The arguments of the `function delete` command, owned.
pub fn function_delete_words() -> (c: Vec<String>)
    ensures
        c.deep_view() == function_delete_args(),
{
    let c = words_then(
        &["lambda", "delete-function", "--function-name", FUNCTION_NAME],
        Vec::new(),
    );
    assert(c.deep_view() =~= function_delete_args());
    c
}

/// The `function delete` command, launched through `launcher`.
pub fn function_delete(launcher: Launcher) -> (c: CommandSpec)
    ensures
        c@ == launch(launcher, function_delete_args()),
{
    aws_command(launcher, function_delete_words())
}

/// The arguments of the `concurrency limit` command, owned.
pub fn concurrency_limit_words() -> (c: Vec<String>)
    ensures
        c.deep_view() == concurrency_limit_args(),
{
    let c = words_then(
        &[
            "lambda",
            "put-function-concurrency",
            "--function-name",
            FUNCTION_NAME,
            "--reserved-concurrent-executions",
            "1",
        ],
        Vec::new(),
    );
    assert(c.deep_view() =~= concurrency_limit_args());
    c
}

/// The `concurrency limit` command, launched through `launcher`.
pub fn concurrency_limit(launcher: Launcher) -> (c: CommandSpec)
    ensures
        c@ == launch(launcher, concurrency_limit_args()),
{
    aws_command(launcher, concurrency_limit_words())
}

/// The arguments of the `concurrency release` command, owned.
pub fn concurrency_release_words() -> (c: Vec<String>)
    ensures
        c.deep_view() == concurrency_release_args(),
{
    let c = words_then(
        &["lambda", "delete-function-concurrency", "--function-name", FUNCTION_NAME],
        Vec::new(),
    );
    assert(c.deep_view() =~= concurrency_release_args());
    c
}

/// The `concurrency release` command, launched through `launcher`.
pub fn concurrency_release(launcher: Launcher) -> (c: CommandSpec)
    ensures
        c@ == launch(launcher, concurrency_release_args()),
{
    aws_command(launcher, concurrency_release_words())
}

/// The arguments of the `invoke` command, owned.
pub fn invoke_words(payload_path: &str, output_path: &str) -> (c: Vec<String>)
    ensures
        c.deep_view() == invoke_args(payload_path@, output_path@),
{
    let extra = vec![tagged("fileb://", payload_path), String::from_str(output_path)];
    let c = words_then(
        &["lambda", "invoke", "--function-name", FUNCTION_NAME, "--payload"],
        extra,
    );
    assert(c.deep_view() =~= invoke_args(payload_path@, output_path@));
    c
}

/// The `invoke` command, launched through `launcher`.
pub fn invoke(launcher: Launcher, payload_path: &str, output_path: &str) -> (c: CommandSpec)
    ensures
        c@ == launch(launcher, invoke_args(payload_path@, output_path@)),
{
    aws_command(launcher, invoke_words(payload_path, output_path))
}

} // verus!
