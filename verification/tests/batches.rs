use parallel_invocation::invocation::{
    batch_opening, batch_report, invocation_summary, ordered_by_index, tester_invocation_text,
    InvocationRecord, PARALLEL,
};
use parallel_invocation::protocol::{Edition, Notice};

fn rec(index: usize, text: &str, elapsed: &str) -> InvocationRecord {
    InvocationRecord { index, text: text.to_string(), elapsed: elapsed.to_string() }
}

fn message(n: &Notice) -> String {
    match n {
        Notice::Log(e) => e.message.clone(),
        Notice::Line(l) => l.clone(),
    }
}

#[test]
fn opening_lines() {
    assert_eq!(PARALLEL, 5);
    assert_eq!(message(&batch_opening(Edition::Tool)), "5 件を並列リクエスト中 (sleep=3s)。");
    assert_eq!(message(&batch_opening(Edition::Tester)), "  5 並列リクエスト (sleep=3s) ...");
}

#[test]
fn summaries_of_invocations() {
    assert_eq!(invocation_summary(false, Some(b"{\"statusCode\":200}".to_vec())), "スロットリング");
    assert_eq!(invocation_summary(true, Some(b"{\"statusCode\":200}".to_vec())), "成功");
    assert_eq!(invocation_summary(true, None), "");
    assert_eq!(tester_invocation_text(None, "exit code: 254"), "(exit: exit code: 254)");
    assert_eq!(tester_invocation_text(Some(Some(b"{}".to_vec())), "x"), "{}");
    assert_eq!(tester_invocation_text(Some(None), "x"), "");
}

#[test]
fn ordering_by_number() {
    let out = ordered_by_index(vec![
        rec(3, "c", "1s"),
        rec(0, "a", "1s"),
        rec(4, "d", "1s"),
        rec(1, "b", "1s"),
        rec(2, "x", "1s"),
    ]);
    let idx: Vec<usize> = out.iter().map(|r| r.index).collect();
    assert_eq!(idx, vec![0, 1, 2, 3, 4]);
    assert_eq!(out[2].text, "x");
}

#[test]
fn ordering_is_stable() {
    let out = ordered_by_index(vec![rec(1, "first", ""), rec(0, "z", ""), rec(1, "second", ""), rec(1, "third", "")]);
    let texts: Vec<&str> = out.iter().map(|r| r.text.as_str()).collect();
    assert_eq!(texts, vec!["z", "first", "second", "third"]);
    assert!(ordered_by_index(vec![]).is_empty());
}

#[test]
fn tool_report() {
    let report = batch_report(
        Edition::Tool,
        vec![rec(1, "スロットリング", "512.30ms"), rec(0, "成功", "3.21s")],
        "3.25s",
    );
    let lines: Vec<String> = report.iter().map(message).collect();
    assert_eq!(lines, vec!["[0] 成功 (3.21s)", "[1] スロットリング (512.30ms)", "合計経過時間: 3.25s"]);
    match &report[0] {
        Notice::Log(e) => {
            assert_eq!(e.scope, "invoke");
            assert_eq!(e.level, "info");
        }
        _ => panic!("expected a log record"),
    }
}

#[test]
fn tester_report() {
    let report = batch_report(Edition::Tester, vec![rec(2, "{}", "9s"), rec(0, "(exit: 1)", "1s")], "3.02s");
    let lines: Vec<String> = report.iter().map(message).collect();
    assert_eq!(lines, vec!["  [0] (exit: 1)", "  [2] {}", "  elapsed: 3.02s"]);
}
