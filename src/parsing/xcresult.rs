//! Reduces a result-bundle document to a flat list of test cases.
//!
//! Scalars in the document are wrapped as `{"_value": ...}` and collections
//! as `{"_values": [...]}`. Run summaries hold testable summaries (one per
//! suite), which hold a tree of test items: a node without a `subtests`
//! member is a test case, the others are groups. Missing or malformed parts
//! count as absent.
use crate::json::{as_items, as_text, field, find_key, get_field, key_index, Json};
use crate::models::run::{TestCase, TestCaseView, TestStatus};
use crate::parsing::text::{
    chars_of, millis_of, rounded_millis, run_end, same_text, saturate_i64, scan_run, CharClass,
};
use vstd::prelude::*;

verus! {

pub open spec fn field_of(o: Option<Json>, key: Seq<char>) -> Option<Json> {
    match o {
        Some(j) => field(j, key),
        None => None,
    }
}

/// The text in the `_value` wrapper of member `key`.
pub open spec fn value_text(j: Json, key: Seq<char>) -> Option<Seq<char>> {
    as_text(field_of(field(j, key), "_value"@))
}

/// The items in the `_values` wrapper of member `key`; none when absent.
pub open spec fn values_of(j: Json, key: Seq<char>) -> Seq<Json> {
    match as_items(field_of(field(j, key), "_values"@)) {
        Some(v) => v,
        None => Seq::empty(),
    }
}

pub open spec fn status_of(t: Option<Seq<char>>) -> TestStatus {
    if t == Some("Success"@) {
        TestStatus::Passed
    } else if t == Some("Failure"@) {
        TestStatus::Failed
    } else {
        TestStatus::Skipped
    }
}

/// A duration written `<digits>`, `<digits>.<digits>`, `<digits>.` or
/// `.<digits>` seconds, in milliseconds rounded to the nearest; any other
/// text gives none.
pub open spec fn duration_millis(t: Seq<char>) -> Option<i64> {
    let p = run_end(t, 0, CharClass::Digit);
    if p == t.len() {
        if p > 0 {
            Some(saturate_i64(rounded_millis(t, Seq::empty())))
        } else {
            None
        }
    } else if t[p] == '.' {
        let q = run_end(t, p + 1, CharClass::Digit);
        if q == t.len() && (p > 0 || q > p + 1) {
            Some(saturate_i64(rounded_millis(t.subrange(0, p), t.subrange(p + 1, q))))
        } else {
            None
        }
    } else {
        None
    }
}

/// The message of the first failure summary of a test item.
pub open spec fn first_failure(item: Json) -> Option<Seq<char>> {
    let v = values_of(item, "failureSummaries"@);
    if v.len() > 0 {
        value_text(v[0], "message"@)
    } else {
        None
    }
}

/// The record of a test item itself: one for a named item without
/// subtests, none otherwise.
pub open spec fn own_case(item: Json, suite: Seq<char>, run_id: Seq<char>) -> Seq<TestCaseView> {
    match value_text(item, "name"@) {
        None => Seq::empty(),
        Some(name) => if field(item, "subtests"@) is Some {
            Seq::empty()
        } else {
            let status = status_of(value_text(item, "testStatus"@));
            seq![
                TestCaseView {
                    id: None,
                    run_id: run_id,
                    suite_name: suite,
                    test_name: name,
                    status: status,
                    duration_ms: match value_text(item, "duration"@) {
                        Some(t) => duration_millis(t),
                        None => None,
                    },
                    failure_message: if status == TestStatus::Failed {
                        first_failure(item)
                    } else {
                        None
                    },
                    file_path: None,
                    line_number: None,
                },
            ]
        },
    }
}

/// Every test case in the tree under `item`, depth first, in document order.
pub open spec fn item_cases(item: Json, suite: Seq<char>, run_id: Seq<char>) -> Seq<TestCaseView>
    decreases item,
{
    own_case(item, suite, run_id) + match item {
        Json::Object(es) => {
            let i = key_index(es@, "subtests"@);
            if 0 <= i < es@.len() {
                match es@[i].1 {
                    Json::Object(ws) => {
                        let k = key_index(ws@, "_values"@);
                        if 0 <= k < ws@.len() {
                            match ws@[k].1 {
                                Json::Array(v) => items_cases(v, v@.len() as int, suite, run_id),
                                _ => Seq::empty(),
                            }
                        } else {
                            Seq::empty()
                        }
                    },
                    _ => Seq::empty(),
                }
            } else {
                Seq::empty()
            }
        },
        _ => Seq::empty(),
    }
}

/// The test cases under the first `n` items of `v`.
pub open spec fn items_cases(v: Vec<Json>, n: int, suite: Seq<char>, run_id: Seq<char>) -> Seq<
    TestCaseView,
>
    decreases v, n,
{
    if n <= 0 || n > v@.len() {
        Seq::empty()
    } else {
        items_cases(v, n - 1, suite, run_id) + item_cases(v@[n - 1], suite, run_id)
    }
}

pub open spec fn views(cs: Seq<TestCase>) -> Seq<TestCaseView> {
    cs.map_values(|c: TestCase| c@)
}

fn value_text_of<'a>(j: &'a Json, key: &str) -> (r: Option<&'a String>)
    ensures
        match r {
            Some(s) => value_text(*j, key@) == Some(s@),
            None => value_text(*j, key@) is None,
        },
{
    match get_field(j, key) {
        Some(w) => match get_field(w, "_value") {
            Some(Json::Str(s)) => Some(s),
            _ => None,
        },
        None => None,
    }
}

fn values_in<'a>(j: &'a Json, key: &str) -> (r: Option<&'a Vec<Json>>)
    ensures
        match r {
            Some(v) => values_of(*j, key@) == v@,
            None => values_of(*j, key@) == Seq::<Json>::empty(),
        },
{
    match get_field(j, key) {
        Some(w) => match get_field(w, "_values") {
            Some(Json::Array(v)) => Some(v),
            _ => None,
        },
        None => None,
    }
}

/// Reads a duration in seconds as milliseconds (see `duration_millis`).
pub fn parse_duration(t: &str) -> (r: Option<i64>)
    ensures
        r == duration_millis(t@),
{
    let s = chars_of(t);
    let n = s.len();
    let p = scan_run(&s, 0, CharClass::Digit);
    if p == n {
        if p > 0 {
            let r = millis_of(&s, 0, p, p, p);
            assert(s@.subrange(0, p as int) =~= t@);
            assert(s@.subrange(p as int, p as int) =~= Seq::<char>::empty());
            Some(r)
        } else {
            None
        }
    } else if s[p] == '.' {
        let q = scan_run(&s, p + 1, CharClass::Digit);
        if q == n && (p > 0 || q > p + 1) {
            Some(millis_of(&s, 0, p, p + 1, q))
        } else {
            None
        }
    } else {
        None
    }
}

fn first_failure_of(item: &Json) -> (r: Option<String>)
    ensures
        match r {
            Some(s) => first_failure(*item) == Some(s@),
            None => first_failure(*item) is None,
        },
{
    match values_in(item, "failureSummaries") {
        Some(v) => {
            if v.len() > 0 {
                match value_text_of(&v[0], "message") {
                    Some(m) => Some(m.clone()),
                    None => None,
                }
            } else {
                None
            }
        },
        None => None,
    }
}

fn status_from(t: Option<&String>) -> (r: TestStatus)
    ensures
        r == status_of(
            match t {
                Some(s) => Some(s@),
                None => None,
            },
        ),
{
    match t {
        Some(s) => {
            if same_text(s.as_str(), "Success") {
                TestStatus::Passed
            } else if same_text(s.as_str(), "Failure") {
                TestStatus::Failed
            } else {
                TestStatus::Skipped
            }
        },
        None => TestStatus::Skipped,
    }
}

/// Appends the record of `item` itself, if it is a test case.
fn push_own_case(item: &Json, cases: &mut Vec<TestCase>, run_id: &str, suite_name: &str)
    ensures
        views(final(cases)@) == views(old(cases)@) + own_case(*item, suite_name@, run_id@),
{
    proof {
        assert(views(old(cases)@) + Seq::<TestCaseView>::empty() =~= views(old(cases)@));
    }
    let name = match value_text_of(item, "name") {
        Some(n) => n,
        None => return ,
    };
    if get_field(item, "subtests").is_some() {
        return ;
    }
    let status = status_from(value_text_of(item, "testStatus"));
    let duration_ms = match value_text_of(item, "duration") {
        Some(t) => parse_duration(t.as_str()),
        None => None,
    };
    let failure_message = if status == TestStatus::Failed {
        first_failure_of(item)
    } else {
        None
    };
    let case = TestCase {
        id: None,
        run_id: String::from_str(run_id),
        suite_name: String::from_str(suite_name),
        test_name: name.clone(),
        status,
        duration_ms,
        failure_message,
        file_path: None,
        line_number: None,
    };
    let ghost before = cases@;
    cases.push(case);
    proof {
        assert(views(cases@) =~= views(before).push(case@));
        assert(own_case(*item, suite_name@, run_id@) =~= seq![case@]);
    }
}

proof fn lemma_nested_smaller(item: Json, i: int, k: int, n: int)
    requires
        item is Object,
        0 <= i < item->Object_0@.len(),
        item->Object_0@[i].1 is Object,
        0 <= k < item->Object_0@[i].1->Object_0@.len(),
        item->Object_0@[i].1->Object_0@[k].1 is Array,
        0 <= n < item->Object_0@[i].1->Object_0@[k].1->Array_0@.len(),
    ensures
        decreases_to!(item => item->Object_0@[i].1->Object_0@[k].1->Array_0@[n]),
{
    broadcast use vstd::std_specs::vec::axiom_vec_index_decreases;

    let es = item->Object_0;
    let ws = es[i].1->Object_0;
    let v = ws[k].1->Array_0;
    assert(decreases_to!(item => es));
    assert(decreases_to!(es => es[i]));
    assert(decreases_to!(es[i] => es[i].1));
    assert(decreases_to!(es[i].1 => ws));
    assert(decreases_to!(ws => ws[k]));
    assert(decreases_to!(ws[k] => ws[k].1));
    assert(decreases_to!(ws[k].1 => v));
    assert(decreases_to!(v => v[n]));
}

/// Appends every test case in the tree under `item`, depth first and in
/// document order, each filed under `suite_name`.
pub fn extract_test_items(item: &Json, cases: &mut Vec<TestCase>, run_id: &str, suite_name: &str)
    ensures
        views(final(cases)@) == views(old(cases)@) + item_cases(*item, suite_name@, run_id@),
    decreases *item,
{
    push_own_case(item, cases, run_id, suite_name);
    let ghost mid = cases@;
    proof {
        assert(views(mid) + Seq::<TestCaseView>::empty() =~= views(mid));
    }
    match item {
        Json::Object(es) => {
            match find_key(es, "subtests") {
                Some(i) => {
                    match &es[i].1 {
                        Json::Object(ws) => {
                            match find_key(ws, "_values") {
                                Some(k) => {
                                    match &ws[k].1 {
                                        Json::Array(v) => {
                                            let mut n: usize = 0;
                                            while n < v.len()
                                                invariant
                                                    n <= v@.len(),
                                                    *item is Object,
                                                    item->Object_0 == *es,
                                                    i < es@.len(),
                                                    es@[i as int].1 is Object,
                                                    es@[i as int].1->Object_0 == *ws,
                                                    k < ws@.len(),
                                                    ws@[k as int].1 is Array,
                                                    ws@[k as int].1->Array_0 == *v,
                                                    views(cases@) == views(mid) + items_cases(
                                                        *v,
                                                        n as int,
                                                        suite_name@,
                                                        run_id@,
                                                    ),
                                                decreases v@.len() - n,
                                            {
                                                proof {
                                                    lemma_nested_smaller(*item, i as int, k as int, n as int);
                                                }
                                                extract_test_items(&v[n], cases, run_id, suite_name);
                                                n = n + 1;
                                                proof {
                                                    assert(views(cases@) =~= views(mid)
                                                        + items_cases(
                                                        *v,
                                                        n as int,
                                                        suite_name@,
                                                        run_id@,
                                                    ));
                                                }
                                            }
                                        },
                                        _ => {},
                                    }
                                },
                                None => {},
                            }
                        },
                        _ => {},
                    }
                },
                None => {},
            }
        },
        _ => {},
    }
    proof {
        assert(views(cases@) =~= views(old(cases)@) + item_cases(*item, suite_name@, run_id@));
    }
}

/// The test cases under each of `items`, in order.
pub open spec fn list_cases(items: Seq<Json>, suite: Seq<char>, run_id: Seq<char>) -> Seq<
    TestCaseView,
>
    decreases items.len(),
{
    if items.len() == 0 {
        Seq::empty()
    } else {
        list_cases(items.drop_last(), suite, run_id) + item_cases(items.last(), suite, run_id)
    }
}

/// The suite a testable summary names, "Unknown" when it names none.
pub open spec fn testable_suite(t: Json) -> Seq<char> {
    match value_text(t, "targetName"@) {
        Some(n) => n,
        None => "Unknown"@,
    }
}

pub open spec fn testable_cases(t: Json, run_id: Seq<char>) -> Seq<TestCaseView> {
    list_cases(values_of(t, "tests"@), testable_suite(t), run_id)
}

pub open spec fn testables_cases(ts: Seq<Json>, run_id: Seq<char>) -> Seq<TestCaseView>
    decreases ts.len(),
{
    if ts.len() == 0 {
        Seq::empty()
    } else {
        testables_cases(ts.drop_last(), run_id) + testable_cases(ts.last(), run_id)
    }
}

pub open spec fn summaries_cases(ss: Seq<Json>, run_id: Seq<char>) -> Seq<TestCaseView>
    decreases ss.len(),
{
    if ss.len() == 0 {
        Seq::empty()
    } else {
        summaries_cases(ss.drop_last(), run_id) + testables_cases(
            values_of(ss.last(), "testableSummaries"@),
            run_id,
        )
    }
}

/// Every test case of a result-bundle document, in document order.
pub open spec fn document_cases(doc: Json, run_id: Seq<char>) -> Seq<TestCaseView> {
    summaries_cases(values_of(doc, "testPlanRunSummaries"@), run_id)
}

/// Appends the test cases of one testable summary, filed under the suite it
/// names ("Unknown" when it names none).
pub fn extract_from_testable(testable: &Json, cases: &mut Vec<TestCase>, run_id: &str)
    ensures
        views(final(cases)@) == views(old(cases)@) + testable_cases(*testable, run_id@),
{
    let suite = match value_text_of(testable, "targetName") {
        Some(n) => n.clone(),
        None => String::from_str("Unknown"),
    };
    let ghost start = cases@;
    let tests = match values_in(testable, "tests") {
        Some(v) => v,
        None => {
            assert(views(start) + Seq::<TestCaseView>::empty() =~= views(start));
            return ;
        },
    };
    let mut n: usize = 0;
    assert(views(start) + Seq::<TestCaseView>::empty() =~= views(start));
    while n < tests.len()
        invariant
            n <= tests@.len(),
            suite@ == testable_suite(*testable),
            tests@ == values_of(*testable, "tests"@),
            views(cases@) == views(start) + list_cases(
                tests@.subrange(0, n as int),
                suite@,
                run_id@,
            ),
        decreases tests@.len() - n,
    {
        extract_test_items(&tests[n], cases, run_id, suite.as_str());
        proof {
            let s = tests@.subrange(0, n + 1);
            assert(s.drop_last() =~= tests@.subrange(0, n as int));
        }
        n = n + 1;
        proof {
            assert(views(cases@) =~= views(start) + list_cases(
                tests@.subrange(0, n as int),
                suite@,
                run_id@,
            ));
        }
    }
    assert(tests@.subrange(0, n as int) =~= tests@);
}

/// Appends every test case of a result-bundle document, in document order:
/// run summaries, then their testable summaries, then each test tree depth
/// first.
pub fn extract_test_cases(value: &Json, cases: &mut Vec<TestCase>, run_id: &str)
    ensures
        views(final(cases)@) == views(old(cases)@) + document_cases(*value, run_id@),
{
    let ghost start = cases@;
    assert(views(start) + Seq::<TestCaseView>::empty() =~= views(start));
    let summaries = match values_in(value, "testPlanRunSummaries") {
        Some(v) => v,
        None => {
            return ;
        },
    };
    let mut n: usize = 0;
    while n < summaries.len()
        invariant
            n <= summaries@.len(),
            summaries@ == values_of(*value, "testPlanRunSummaries"@),
            views(cases@) == views(start) + summaries_cases(
                summaries@.subrange(0, n as int),
                run_id@,
            ),
        decreases summaries@.len() - n,
    {
        let ghost before = cases@;
        let ghost ts_spec = values_of(summaries@[n as int], "testableSummaries"@);
        match values_in(&summaries[n], "testableSummaries") {
            Some(ts) => {
                let mut m: usize = 0;
                assert(views(before) + Seq::<TestCaseView>::empty() =~= views(before));
                while m < ts.len()
                    invariant
                        m <= ts@.len(),
                        ts@ == ts_spec,
                        views(cases@) == views(before) + testables_cases(
                            ts@.subrange(0, m as int),
                            run_id@,
                        ),
                    decreases ts@.len() - m,
                {
                    extract_from_testable(&ts[m], cases, run_id);
                    proof {
                        assert(ts@.subrange(0, m + 1).drop_last() =~= ts@.subrange(0, m as int));
                    }
                    m = m + 1;
                    proof {
                        assert(views(cases@) =~= views(before) + testables_cases(
                            ts@.subrange(0, m as int),
                            run_id@,
                        ));
                    }
                }
                assert(ts@.subrange(0, m as int) =~= ts@);
            },
            None => {
                assert(views(before) + Seq::<TestCaseView>::empty() =~= views(before));
            },
        }
        proof {
            assert(summaries@.subrange(0, n + 1).drop_last() =~= summaries@.subrange(0, n as int));
        }
        n = n + 1;
        proof {
            assert(views(cases@) =~= views(start) + summaries_cases(
                summaries@.subrange(0, n as int),
                run_id@,
            ));
        }
    }
    assert(summaries@.subrange(0, n as int) =~= summaries@);
}

/// The test cases of a result-bundle document, in document order, with an
/// empty run identifier.
pub fn parse_xcresult_json(doc: &Json) -> (r: Vec<TestCase>)
    ensures
        views(r@) == document_cases(*doc, Seq::empty()),
{
    let mut cases: Vec<TestCase> = Vec::new();
    extract_test_cases(doc, &mut cases, "");
    proof {
        reveal_strlit("");
        assert(""@ =~= Seq::<char>::empty());
    }
    assert(views(Seq::<TestCase>::empty()) =~= Seq::<TestCaseView>::empty());
    assert(views(cases@) =~= document_cases(*doc, Seq::empty()));
    cases
}

} // verus!
