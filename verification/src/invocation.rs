use vstd::prelude::*;

use crate::command::{invoke, invoke_args, launch, CommandSpec, Launcher};
use crate::protocol::{info, info_notice, line_notice, Edition, Notice, NoticeView};
use crate::text::{
    all_white_space, chars_of, contains, decimal, decimal_text, lemma_decimal_injective,
    lemma_frame_injective, lemma_trim_idempotent, lemma_trim_ignores_padding, occurs_within, prefix,
    response_text, response_text_of, trim, trimmed_bounds,
};

verus! {

/// Longest response excerpt that a summary quotes.
pub const EXCERPT_LIMIT: usize = 80;

/// The label of a throttled invocation.
pub open spec fn throttled_label() -> Seq<char> {
    "スロットリング"@
}

/// The label of a successful invocation.
pub open spec fn success_label() -> Seq<char> {
    "成功"@
}

/// The response shows that the invocation was throttled.
pub open spec fn shows_throttling(t: Seq<char>) -> bool {
    contains(t, "TooManyRequestsException"@) || contains(t, "Rate exceeded"@)
}

/// The response carries an HTTP 200 status code.
pub open spec fn shows_success(t: Seq<char>) -> bool {
    contains(t, "\"statusCode\":200"@) || contains(t, "\"statusCode\": 200"@)
}

/// What `summarize` makes of a response body: throttling first, then
/// success, otherwise the first characters of the trimmed body.
pub open spec fn summary_of(body: Seq<char>) -> Seq<char> {
    let t = trim(body);
    if shows_throttling(t) {
        throttled_label()
    } else if shows_success(t) {
        success_label()
    } else {
        prefix(t, EXCERPT_LIMIT as nat)
    }
}

/// Summarises the body of a Lambda invocation response as the throttling
/// label, the success label, or its first `EXCERPT_LIMIT` characters once
/// trimmed.
pub fn summarize(body: &str) -> (s: String)
    ensures
        s@ == summary_of(body@),
{
    let chars = chars_of(body);
    let (from, to) = trimmed_bounds(&chars);
    let ghost t = body@.subrange(from as int, to as int);
    let throttled = occurs_within(&chars, from, to, &chars_of("TooManyRequestsException"))
        || occurs_within(&chars, from, to, &chars_of("Rate exceeded"));
    if throttled {
        return String::from_str("スロットリング");
    }
    let succeeded = occurs_within(&chars, from, to, &chars_of("\"statusCode\":200"))
        || occurs_within(&chars, from, to, &chars_of("\"statusCode\": 200"));
    if succeeded {
        return String::from_str("成功");
    }
    let end = if to - from <= EXCERPT_LIMIT {
        to
    } else {
        from + EXCERPT_LIMIT
    };
    let excerpt = String::from_str(body.substring_char(from, end));
    assert(excerpt@ =~= prefix(t, EXCERPT_LIMIT as nat));
    excerpt
}

/// White space around a response body never changes its summary.
pub proof fn summary_ignores_surrounding_white_space(body: Seq<char>)
    ensures
        summary_of(trim(body)) == summary_of(body),
{
    lemma_trim_idempotent(body);
}

/// White space padding on either side of a body leaves its summary as it is.
pub proof fn summary_ignores_white_space_padding(p: Seq<char>, body: Seq<char>, q: Seq<char>)
    requires
        all_white_space(p),
        all_white_space(q),
    ensures
        summary_of(p + body + q) == summary_of(body),
{
    lemma_trim_ignores_padding(p, body, q);
}

/// What a summary says, in terms of the trimmed body alone: throttling when
/// it mentions `TooManyRequestsException` or `Rate exceeded`; otherwise
/// success when it holds `"statusCode":200` or `"statusCode": 200`;
/// otherwise its own first 80 characters (all of it when shorter).
pub proof fn summary_by_markers(body: Seq<char>)
    ensures
        ({
            let t = trim(body);
            let throttled = contains(t, "TooManyRequestsException"@) || contains(
                t,
                "Rate exceeded"@,
            );
            let ok = contains(t, "\"statusCode\":200"@) || contains(t, "\"statusCode\": 200"@);
            &&& throttled ==> summary_of(body) == "スロットリング"@
            &&& !throttled && ok ==> summary_of(body) == "成功"@
            &&& !throttled && !ok ==> summary_of(body) == if t.len() <= 80 {
                t
            } else {
                t.take(80)
            }
        }),
{
}

/// An invocation whose CLI call did not succeed is recorded as throttled,
/// whatever response file there is or is not.
pub proof fn failed_call_is_throttled(response: Option<Seq<u8>>)
    ensures
        invocation_summary_of(false, response) == "スロットリング"@,
{
}

/// A summary is one of the two labels or an excerpt of at most
/// `EXCERPT_LIMIT` characters that the trimmed body starts with; throttling
/// outranks success.
pub proof fn summary_shape(body: Seq<char>)
    ensures
        shows_throttling(trim(body)) ==> summary_of(body) == throttled_label(),
        !shows_throttling(trim(body)) && shows_success(trim(body)) ==> summary_of(body)
            == success_label(),
        !shows_throttling(trim(body)) && !shows_success(trim(body)) ==> {
            &&& summary_of(body).len() <= EXCERPT_LIMIT
            &&& trim(body).take(summary_of(body).len() as int) == summary_of(body)
        },
{
    let t = trim(body);
    if !shows_throttling(t) && !shows_success(t) {
        if t.len() <= EXCERPT_LIMIT {
            assert(t.take(t.len() as int) =~= t);
        }
    }
}

/// How many invocations one batch makes at once.
pub const PARALLEL: usize = 5;

/// The file that holds the payload of invocation `i`.
pub open spec fn payload_file_name_of(i: nat) -> Seq<char> {
    "lambda_payload_"@ + decimal(i) + ".json"@
}

/// The file that receives the response of invocation `i`.
pub open spec fn output_file_name_of(i: nat) -> Seq<char> {
    "lambda_out_"@ + decimal(i) + ".json"@
}

/// The payload of invocation `i`: sleep three seconds, and say which call
/// this is.
pub open spec fn payload_of(i: nat) -> Seq<char> {
    "{\"sleep\": 3, \"id\": "@ + decimal(i) + "}"@
}

/// Each invocation has payload and response files of its own.
pub proof fn invocation_files_are_distinct(i: nat, j: nat)
    requires
        i != j,
    ensures
        payload_file_name_of(i) != payload_file_name_of(j),
        output_file_name_of(i) != output_file_name_of(j),
        payload_of(i) != payload_of(j),
        payload_file_name_of(i) != output_file_name_of(j),
{
    if payload_file_name_of(i) == payload_file_name_of(j) {
        lemma_frame_injective("lambda_payload_"@, decimal(i), decimal(j), ".json"@);
        lemma_decimal_injective(i, j);
    }
    if output_file_name_of(i) == output_file_name_of(j) {
        lemma_frame_injective("lambda_out_"@, decimal(i), decimal(j), ".json"@);
        lemma_decimal_injective(i, j);
    }
    if payload_of(i) == payload_of(j) {
        lemma_frame_injective("{\"sleep\": 3, \"id\": "@, decimal(i), decimal(j), "}"@);
        lemma_decimal_injective(i, j);
    }
    reveal_strlit("lambda_payload_");
    reveal_strlit("lambda_out_");
    assert(payload_file_name_of(i)[7] != output_file_name_of(j)[7]);
}

fn surround(before: &str, middle: &str, after: &str) -> (s: String)
    ensures
        s@ == before@ + middle@ + after@,
{
    let mut s = String::from_str(before);
    s.append(middle);
    s.append(after);
    s
}

/// The payload file name of invocation `i`.
pub fn payload_file_name(i: usize) -> (s: String)
    ensures
        s@ == payload_file_name_of(i as nat),
{
    surround("lambda_payload_", decimal_text(i).as_str(), ".json")
}

/// The response file name of invocation `i`.
pub fn output_file_name(i: usize) -> (s: String)
    ensures
        s@ == output_file_name_of(i as nat),
{
    surround("lambda_out_", decimal_text(i).as_str(), ".json")
}

/// The payload of invocation `i`.
pub fn payload_text(i: usize) -> (s: String)
    ensures
        s@ == payload_of(i as nat),
{
    surround("{\"sleep\": 3, \"id\": ", decimal_text(i).as_str(), "}")
}

/// The command of one invocation: retries off, payload from `payload_path`,
/// response to `output_path`.
pub fn invocation_command(payload_path: &str, output_path: &str) -> (c: CommandSpec)
    ensures
        c@ == launch(Launcher::ShellNoRetry, invoke_args(payload_path@, output_path@)),
{
    invoke(Launcher::ShellNoRetry, payload_path, output_path)
}

/// Told when a batch starts.
pub open spec fn batch_opening_of(edition: Edition) -> NoticeView {
    match edition {
        Edition::Tool => info(
            "invoke"@,
            decimal(PARALLEL as nat) + " 件を並列リクエスト中 (sleep=3s)。"@,
        ),
        Edition::Tester => NoticeView::Line(
            "  "@ + decimal(PARALLEL as nat) + " 並列リクエスト (sleep=3s) ..."@,
        ),
    }
}

/// The notice that opens a batch.
pub fn batch_opening(edition: Edition) -> (n: Notice)
    ensures
        n@ == batch_opening_of(edition),
{
    let count = decimal_text(PARALLEL);
    match edition {
        Edition::Tool => {
            let mut m = count;
            m.append(" 件を並列リクエスト中 (sleep=3s)。");
            info_notice("invoke", m)
        },
        Edition::Tester => line_notice(
            surround("  ", count.as_str(), " 並列リクエスト (sleep=3s) ..."),
        ),
    }
}

/// What the tool records of one invocation: the summary of its response when
/// the CLI succeeded, throttling otherwise.
pub open spec fn invocation_summary_of(cli_succeeded: bool, response: Option<Seq<u8>>) -> Seq<char> {
    if cli_succeeded {
        summary_of(response_text_of(response))
    } else {
        throttled_label()
    }
}

/// Summarises one invocation from the CLI's success and the response file
/// (`None` when it could not be read).
pub fn invocation_summary(cli_succeeded: bool, response: Option<Vec<u8>>) -> (s: String)
    ensures
        s@ == invocation_summary_of(
            cli_succeeded,
            match response {
                Some(b) => Some(b@),
                None => None,
            },
        ),
{
    if cli_succeeded {
        let body = response_text(response);
        summarize(body.as_str())
    } else {
        String::from_str("スロットリング")
    }
}

/// What the tester records of one invocation: the response text when the
/// response file exists (`Some`, holding its bytes if it could be read), the
/// CLI's exit status otherwise.
pub open spec fn tester_text_of(response: Option<Option<Seq<u8>>>, status: Seq<char>) -> Seq<char> {
    match response {
        Some(r) => response_text_of(r),
        None => "(exit: "@ + status + ")"@,
    }
}

/// The tester's record of one invocation.
pub fn tester_invocation_text(response: Option<Option<Vec<u8>>>, status: &str) -> (s: String)
    ensures
        s@ == tester_text_of(
            match response {
                Some(Some(b)) => Some(Some(b@)),
                Some(None) => Some(None),
                None => None,
            },
            status@,
        ),
{
    match response {
        Some(r) => response_text(r),
        None => surround("(exit: ", status, ")"),
    }
}

/// One finished invocation: its number, what was recorded of it, and how long
/// it took as printed.
pub struct InvocationRecord {
    pub index: usize,
    pub text: String,
    pub elapsed: String,
}

/// The model of an `InvocationRecord`.
pub struct RecordView {
    pub index: usize,
    pub text: Seq<char>,
    pub elapsed: Seq<char>,
}

impl View for InvocationRecord {
    type V = RecordView;

    open spec fn view(&self) -> RecordView {
        RecordView { index: self.index, text: self.text@, elapsed: self.elapsed@ }
    }
}

/// The models of `records`.
pub open spec fn record_views(records: Seq<InvocationRecord>) -> Seq<RecordView> {
    records.map_values(|r: InvocationRecord| r@)
}

/// The records come in order of their numbers.
pub open spec fn sorted_by_index(s: Seq<RecordView>) -> bool {
    forall|i: int, j: int| 0 <= i < j < s.len() ==> s[i].index <= s[j].index
}

/// The records numbered `k`, in the order they come.
pub open spec fn with_index(s: Seq<RecordView>, k: usize) -> Seq<RecordView>
    decreases s.len(),
{
    if s.len() == 0 {
        Seq::empty()
    } else if s.last().index == k {
        with_index(s.drop_last(), k).push(s.last())
    } else {
        with_index(s.drop_last(), k)
    }
}

/// `ordered` holds the records of `s` (the same multiset) sorted by number,
/// records with the same number keeping their order (a stable sort).
pub open spec fn is_index_order(ordered: Seq<RecordView>, s: Seq<RecordView>) -> bool {
    &&& sorted_by_index(ordered)
    &&& ordered.to_multiset() == s.to_multiset()
    &&& forall|k: usize| #[trigger] with_index(ordered, k) == with_index(s, k)
}

proof fn lemma_with_index_add(a: Seq<RecordView>, b: Seq<RecordView>, k: usize)
    ensures
        with_index(a + b, k) == with_index(a, k) + with_index(b, k),
    decreases b.len(),
{
    if b.len() == 0 {
        assert(a + b =~= a);
        assert(with_index(a, k) + with_index(b, k) =~= with_index(a, k));
    } else {
        lemma_with_index_add(a, b.drop_last(), k);
        assert((a + b).drop_last() =~= a + b.drop_last());
        if b.last().index == k {
            assert(with_index(a, k) + with_index(b, k) =~= (with_index(a, k) + with_index(
                b.drop_last(),
                k,
            )).push(b.last()));
        }
    }
}

proof fn lemma_with_index_absent(s: Seq<RecordView>, k: usize)
    requires
        forall|i: int| 0 <= i < s.len() ==> s[i].index != k,
    ensures
        with_index(s, k) == Seq::<RecordView>::empty(),
    decreases s.len(),
{
    if s.len() > 0 {
        lemma_with_index_absent(s.drop_last(), k);
    }
}

proof fn lemma_with_index_single(x: RecordView, k: usize)
    ensures
        with_index(seq![x], k) == (if x.index == k {
            seq![x]
        } else {
            Seq::<RecordView>::empty()
        }),
{
    assert(seq![x].drop_last() =~= Seq::<RecordView>::empty());
    assert(with_index(Seq::<RecordView>::empty(), k) == Seq::<RecordView>::empty());
    assert(Seq::<RecordView>::empty().push(x) =~= seq![x]);
}

/// Inserting `x` into sorted records just before the first one with a larger
/// number keeps them sorted and puts `x` last among those numbered like it.
proof fn lemma_insert_in_order(
    before: Seq<RecordView>,
    p: int,
    x: RecordView,
    earlier: Seq<RecordView>,
)
    requires
        0 <= p <= before.len(),
        sorted_by_index(before),
        p > 0 ==> before[p - 1].index <= x.index,
        forall|j: int| p <= j < before.len() ==> before[j].index > x.index,
        forall|k: usize| #[trigger] with_index(before, k) == with_index(earlier, k),
    ensures
        sorted_by_index(before.insert(p, x)),
        forall|k: usize| #[trigger]
            with_index(before.insert(p, x), k) == with_index(earlier + seq![x], k),
{
    let a = before.take(p);
    let b = before.skip(p);
    let after = before.insert(p, x);
    assert(after =~= a + seq![x] + b);
    assert(before =~= a + b);
    assert forall|i: int, j: int| 0 <= i < j < after.len() implies after[i].index
        <= after[j].index by {
        if j < p {
        } else if j == p {
            if i < p {
                assert(before[i].index <= before[p - 1].index);
            }
        } else if i < p {
            assert(before[i].index <= before[j - 1].index);
        } else if i == p {
        } else {
        }
    }
    assert forall|k: usize| #[trigger]
        with_index(after, k) == with_index(earlier + seq![x], k) by {
        lemma_with_index_add(a + seq![x], b, k);
        lemma_with_index_add(a, seq![x], k);
        lemma_with_index_add(a, b, k);
        lemma_with_index_add(earlier, seq![x], k);
        lemma_with_index_single(x, k);
        if x.index == k {
            assert(forall|j: int| 0 <= j < b.len() ==> b[j].index > x.index);
            lemma_with_index_absent(b, k);
            assert(with_index(b, k) + with_index(seq![x], k) =~= with_index(seq![x], k));
            assert(with_index(a, k) + with_index(b, k) =~= with_index(a, k));
        } else {
            assert(with_index(a, k) + with_index(seq![x], k) =~= with_index(a, k));
            assert(with_index(earlier, k) + with_index(seq![x], k) =~= with_index(earlier, k));
        }
    }
}

proof fn lemma_with_index_nonempty(s: Seq<RecordView>, k: usize)
    ensures
        with_index(s, k).len() > 0 <==> exists|i: int| 0 <= i < s.len() && s[i].index == k,
    decreases s.len(),
{
    if s.len() > 0 {
        lemma_with_index_nonempty(s.drop_last(), k);
        if exists|i: int| 0 <= i < s.len() && s[i].index == k {
            let i = choose|i: int| 0 <= i < s.len() && s[i].index == k;
            if i < s.len() - 1 {
                assert(s.drop_last()[i].index == k);
            }
        }
        if exists|i: int| 0 <= i < s.drop_last().len() && s.drop_last()[i].index == k {
            let i = choose|i: int| 0 <= i < s.drop_last().len() && s.drop_last()[i].index == k;
            assert(s[i].index == k);
        }
    }
}

proof fn lemma_sorted_has_max_last(s: Seq<RecordView>, k: usize)
    requires
        sorted_by_index(s),
        with_index(s, k).len() > 0,
    ensures
        s.len() > 0,
        s.last().index >= k,
{
    lemma_with_index_nonempty(s, k);
    let i = choose|i: int| 0 <= i < s.len() && s[i].index == k;
    if i < s.len() - 1 {
        assert(s[i].index <= s[s.len() - 1].index);
    }
}

/// The stable order by number is unique: two orderings of the same records
/// are the same sequence, so what `ordered_by_index` and `batch_report`
/// produce is determined by the records they are given.
pub proof fn index_order_is_unique(o1: Seq<RecordView>, o2: Seq<RecordView>, s: Seq<RecordView>)
    requires
        is_index_order(o1, s),
        is_index_order(o2, s),
    ensures
        o1 == o2,
{
    lemma_same_groups_same_order(o1, o2);
}

proof fn lemma_same_groups_same_order(o1: Seq<RecordView>, o2: Seq<RecordView>)
    requires
        sorted_by_index(o1),
        sorted_by_index(o2),
        forall|k: usize| #[trigger] with_index(o1, k) == with_index(o2, k),
    ensures
        o1 == o2,
    decreases o1.len(),
{
    if o1.len() == 0 && o2.len() == 0 {
        assert(o1 =~= o2);
    } else if o1.len() == 0 {
        let b = o2.last();
        assert(with_index(o2, b.index).len() > 0);
        assert(with_index(o1, b.index) == with_index(o2, b.index));
    } else if o2.len() == 0 {
        let a = o1.last();
        assert(with_index(o1, a.index).len() > 0);
        assert(with_index(o1, a.index) == with_index(o2, a.index));
    } else {
        let a = o1.last();
        let b = o2.last();
        assert(with_index(o1, a.index) == with_index(o2, a.index));
        assert(with_index(o1, b.index) == with_index(o2, b.index));
        lemma_sorted_has_max_last(o2, a.index);
        lemma_sorted_has_max_last(o1, b.index);
        let m = a.index;
        assert(b.index == m);
        assert(with_index(o1, m) == with_index(o1.drop_last(), m).push(a));
        assert(with_index(o2, m) == with_index(o2.drop_last(), m).push(b));
        assert(a == with_index(o1, m).last());
        assert(b == with_index(o2, m).last());
        assert(with_index(o1.drop_last(), m) =~= with_index(o1, m).drop_last());
        assert(with_index(o2.drop_last(), m) =~= with_index(o2, m).drop_last());
        assert forall|k: usize| #[trigger]
            with_index(o1.drop_last(), k) == with_index(o2.drop_last(), k) by {
            assert(with_index(o1, k) == with_index(o2, k));
        }
        lemma_same_groups_same_order(o1.drop_last(), o2.drop_last());
        assert(o1 =~= o1.drop_last().push(a));
        assert(o2 =~= o2.drop_last().push(b));
    }
}

/// Sorts finished invocations by number, keeping the order of equal numbers.
pub fn ordered_by_index(records: Vec<InvocationRecord>) -> (out: Vec<InvocationRecord>)
    ensures
        is_index_order(record_views(out@), record_views(records@)),
{
    let ghost orig = record_views(records@);
    let mut rest = records;
    let mut out: Vec<InvocationRecord> = Vec::new();
    let ghost mut done: int = 0;
    assert(record_views(out@) =~= orig.take(0));
    while rest.len() > 0
        invariant
            0 <= done <= orig.len(),
            record_views(rest@) == orig.skip(done),
            sorted_by_index(record_views(out@)),
            record_views(out@).to_multiset() == orig.take(done).to_multiset(),
            forall|k: usize| #[trigger]
                with_index(record_views(out@), k) == with_index(orig.take(done), k),
        decreases rest.len(),
    {
        let ghost rest_before = record_views(rest@);
        let x = rest.remove(0);
        let ghost xv = x@;
        proof {
            assert(rest_before[0] == xv);
            assert(record_views(rest@) =~= rest_before.drop_first());
            assert(orig.skip(done).drop_first() =~= orig.skip(done + 1));
            assert(orig[done] == xv) by {
                assert(orig.skip(done)[0] == orig[done]);
            }
        }
        let mut p = out.len();
        while p > 0 && out[p - 1].index > x.index
            invariant
                p <= out@.len(),
                forall|j: int| p <= j < out@.len() ==> out@[j].index > x.index,
            decreases p,
        {
            p -= 1;
        }
        let ghost before = record_views(out@);
        proof {
            if p > 0 {
                assert(before[p - 1].index <= xv.index);
            }
        }
        out.insert(p, x);
        proof {
            lemma_insert_in_order(before, p as int, xv, orig.take(done));
            assert(record_views(out@) =~= before.insert(p as int, xv));
            assert(orig.take(done + 1) =~= orig.take(done) + seq![xv]);
            assert(orig.take(done + 1) =~= orig.take(done).push(xv));
            vstd::seq_lib::to_multiset_insert(before, p as int, xv);
            vstd::seq_lib::to_multiset_build(orig.take(done), xv);
            done = done + 1;
        }
    }
    proof {
        assert(orig.take(done) =~= orig);
    }
    out
}

/// The line that reports one invocation.
pub open spec fn record_line(edition: Edition, r: RecordView) -> NoticeView {
    match edition {
        Edition::Tool => info(
            "invoke"@,
            "["@ + decimal(r.index as nat) + "] "@ + r.text + " ("@ + r.elapsed + ")"@,
        ),
        Edition::Tester => NoticeView::Line("  ["@ + decimal(r.index as nat) + "] "@ + r.text),
    }
}

/// The line that reports how long the whole batch took.
pub open spec fn total_line(edition: Edition, total: Seq<char>) -> NoticeView {
    match edition {
        Edition::Tool => info("invoke"@, "合計経過時間: "@ + total),
        Edition::Tester => NoticeView::Line("  elapsed: "@ + total),
    }
}

fn record_notice(edition: Edition, r: &InvocationRecord) -> (n: Notice)
    ensures
        n@ == record_line(edition, r@),
{
    let number = decimal_text(r.index);
    match edition {
        Edition::Tool => {
            let mut m = surround("[", number.as_str(), "] ");
            m.append(r.text.as_str());
            m.append(" (");
            m.append(r.elapsed.as_str());
            m.append(")");
            info_notice("invoke", m)
        },
        Edition::Tester => {
            let mut m = surround("  [", number.as_str(), "] ");
            m.append(r.text.as_str());
            line_notice(m)
        },
    }
}

/// Reports a finished batch: one line per invocation in order of number,
/// then the total time.
pub fn batch_report(edition: Edition, records: Vec<InvocationRecord>, total: &str) -> (report: Vec<
    Notice,
>)
    ensures
        exists|ordered: Seq<RecordView>|
            {
                &&& is_index_order(ordered, record_views(records@))
                &&& report@.len() == ordered.len() + 1
                &&& forall|i: int|
                    0 <= i < ordered.len() ==> #[trigger] report@[i]@ == record_line(
                        edition,
                        ordered[i],
                    )
                &&& report@[ordered.len() as int]@ == total_line(edition, total@)
            },
{
    let ghost given = record_views(records@);
    let ordered = ordered_by_index(records);
    let ghost ov = record_views(ordered@);
    let mut report: Vec<Notice> = Vec::new();
    let mut i: usize = 0;
    while i < ordered.len()
        invariant
            i <= ordered@.len(),
            ov == record_views(ordered@),
            report@.len() == i,
            forall|j: int| 0 <= j < i ==> #[trigger] report@[j]@ == record_line(edition, ov[j]),
        decreases ordered@.len() - i,
    {
        report.push(record_notice(edition, &ordered[i]));
        i += 1;
    }
    let last = match edition {
        Edition::Tool => {
            let mut m = String::from_str("合計経過時間: ");
            m.append(total);
            info_notice("invoke", m)
        },
        Edition::Tester => {
            let mut m = String::from_str("  elapsed: ");
            m.append(total);
            line_notice(m)
        },
    };
    report.push(last);
    assert(is_index_order(ov, given));
    report
}

} // verus!
