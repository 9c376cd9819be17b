//! Recognises the build tool's per-test lines:
//! `Test Case '-[<Suite> <Method>]' passed (<seconds> seconds).`
use crate::models::run::{EventView, TestRunEvent};
use crate::parsing::text::{
    all_in_class, captured_event, chars_of, digit_value, digits_value, event_of, finish_at, finish_match,
    in_class, lemma_run_end, literal_at, occurs_at, rounded_millis, run_end,
    scan_run, CharClass, Captured, Captures,
};
use vstd::prelude::*;

verus! {

pub open spec fn build_prefix() -> Seq<char> {
    "Test Case '-["@
}

/// A build-tool test-case line that starts at position `i` of `s`.
///
/// The suite is the maximal run of non-space characters after the prefix,
/// then comes a run of spaces; the method and the closing `]'` make up the
/// next non-space run.
pub open spec fn build_match_at(s: Seq<char>, i: int) -> Option<Captured> {
    if !occurs_at(s, i, build_prefix()) {
        None
    } else {
        let a = i + build_prefix().len();
        let b = run_end(s, a, CharClass::NonSpace);
        let c = run_end(s, b, CharClass::Space);
        let d = run_end(s, c, CharClass::NonSpace);
        if b == a || c == b || d - c < 3 || s[d - 2] != ']' || s[d - 1] != '\'' {
            None
        } else {
            finish_at(s, d, " seconds)."@, a, b, c, d - 2)
        }
    }
}

/// The leftmost build-tool test-case line in `s` at or after `i`.
pub open spec fn build_search(s: Seq<char>, i: int) -> Option<Captured>
    decreases s.len() + 1 - i,
{
    if i < 0 || i > s.len() {
        None
    } else {
        match build_match_at(s, i) {
            Some(m) => Some(m),
            None => build_search(s, i + 1),
        }
    }
}

fn match_at(s: &Vec<char>, i: usize) -> (r: Option<Captures>)
    requires
        i <= s@.len(),
    ensures
        r matches Some(c) ==> {
            &&& c.suite_start <= c.suite_end <= s@.len()
            &&& c.name_start <= c.name_end <= s@.len()
            &&& c.whole_start <= c.whole_end <= s@.len()
            &&& c.frac_start <= c.frac_end <= s@.len()
        },
        match build_match_at(s@, i as int) {
            None => r is None,
            Some(m) => r matches Some(c) && c@ == m,
        },
{
    if !literal_at(s, i, "Test Case '-[") {
        return None;
    }
    proof {
        reveal_strlit("Test Case '-[");
    }
    let n = s.len();
    assert(i + 13 <= n);
    let a = i + 13;
    let b = scan_run(s, a, CharClass::NonSpace);
    let c = scan_run(s, b, CharClass::Space);
    let d = scan_run(s, c, CharClass::NonSpace);
    if b == a || c == b || d - c < 3 || s[d - 2] != ']' || s[d - 1] != '\'' {
        return None;
    }
    finish_match(s, d, " seconds).", a, b, c, d - 2)
}

/// Classifies one line of build-tool output: the leftmost test-case
/// completion in it becomes a `TestCompleted` event, with the duration
/// rounded to the nearest millisecond; any other line gives `None`.
pub fn parse_line(line: &str) -> (r: Option<TestRunEvent>)
    ensures
        match build_search(line@, 0) {
            None => r is None,
            Some(m) => r matches Some(e) && e@ == captured_event(line@, m),
        },
{
    let s = chars_of(line);
    let n = s.len();
    let mut i: usize = 0;
    while i < n
        invariant
            n == s@.len(),
            s@ == line@,
            i <= n,
            build_search(line@, 0) == build_search(line@, i as int),
        decreases n - i,
    {
        match match_at(&s, i) {
            Some(c) => {
                return Some(event_of(line, &s, &c));
            },
            None => {},
        }
        i = i + 1;
    }
    proof {
        reveal_strlit("Test Case '-[");
        assert(build_match_at(line@, n as int) is None);
        assert(build_search(line@, n + 1) is None);
    }
    None
}

} // verus!

verus! {

/// A build-tool line for a test that passed in 0.001 seconds is recognised
/// with its suite and method, status "passed" and a duration of 1 ms.
pub proof fn law_build_line_passed(suite: Seq<char>, name: Seq<char>)
    requires
        suite.len() > 0,
        name.len() > 0,
        all_in_class(suite, CharClass::NonSpace),
        all_in_class(name, CharClass::NonSpace),
    ensures
        ({
            let line = build_prefix() + suite + seq![' '] + name + "]' passed (0.001 seconds)."@;
            build_search(line, 0) matches Some(m) && captured_event(line, m)
                == EventView::TestCompleted {
                name: name,
                suite: suite,
                status: "passed"@,
                duration_ms: 1,
            }
        }),
{
    reveal_strlit("Test Case '-[");
    reveal_strlit("]' passed (0.001 seconds).");
    reveal_strlit(" passed (");
    reveal_strlit(" seconds).");
    reveal_strlit("passed");
    let tail = "]' passed (0.001 seconds)."@;
    let line = build_prefix() + suite + seq![' '] + name + tail;
    let ns = suite.len() as int;
    let nm = name.len() as int;
    let a: int = 13;
    let b = 13 + ns;
    let c = 14 + ns;
    let d = 16 + ns + nm;
    let e = d + 9;
    assert(line.len() == 40 + ns + nm);
    assert forall|t: int| 0 <= t < 13 implies line[t] == build_prefix()[t] by {}
    assert forall|t: int| a <= t < b implies line[t] == suite[t - a] by {}
    assert(line[b] == ' ');
    assert forall|t: int| c <= t < c + nm implies line[t] == name[t - c] by {}
    assert forall|t: int| c + nm <= t < line.len() implies line[t] == tail[t - c - nm] by {}
    assert(line.subrange(0, 13) =~= build_prefix());
    assert forall|t: int| a <= t < b implies in_class(CharClass::NonSpace, #[trigger] line[t]) by {
        assert(in_class(CharClass::NonSpace, suite[t - a]));
    }
    lemma_run_end(line, a, b, CharClass::NonSpace);
    lemma_run_end(line, b, c, CharClass::Space);
    assert forall|t: int| c <= t < d implies in_class(CharClass::NonSpace, #[trigger] line[t]) by {
        if t < c + nm {
            assert(in_class(CharClass::NonSpace, name[t - c]));
        }
    }
    lemma_run_end(line, c, d, CharClass::NonSpace);
    assert(line.subrange(d, d + 9) =~= " passed ("@);
    lemma_run_end(line, e, e + 1, CharClass::Digit);
    lemma_run_end(line, e + 2, e + 5, CharClass::Digit);
    assert(line.subrange(e + 5, e + 15) =~= " seconds)."@);
    let m = build_match_at(line, 0)->0;
    assert(build_match_at(line, 0) is Some);
    assert(line.subrange(c, d - 2) =~= name);
    assert(line.subrange(a, b) =~= suite);
    let w = line.subrange(e, e + 1);
    let f = line.subrange(e + 2, e + 5);
    assert(w =~= seq!['0']);
    assert(w.drop_last() =~= Seq::<char>::empty());
    assert(digits_value(Seq::<char>::empty()) == 0);
    assert(w.last() == '0');
    assert(digit_value('0') == 0);
    assert(digits_value(w) == 0);
    assert(f =~= seq!['0', '0', '1']);
    assert(rounded_millis(w, f) == 1);
}

} // verus!

verus! {

proof fn lemma_build_search_none(s: Seq<char>, i: int)
    requires
        forall|j: int| 0 <= j <= s.len() ==> (#[trigger] build_match_at(s, j)) is None,
    ensures
        build_search(s, i) is None,
    decreases s.len() + 1 - i,
{
    if 0 <= i <= s.len() {
        lemma_build_search_none(s, i + 1);
    }
}

/// A line in which the build-tool grammar matches at no position is not
/// classified; the empty line is such a line.
pub proof fn law_build_unmatched_line(s: Seq<char>)
    requires
        forall|j: int| 0 <= j <= s.len() ==> (#[trigger] build_match_at(s, j)) is None,
    ensures
        build_search(s, 0) is None,
        build_search(Seq::empty(), 0) is None,
{
    lemma_build_search_none(s, 0);
    reveal_strlit("Test Case '-[");
    assert(build_match_at(Seq::empty(), 0) is None);
    lemma_build_search_none(Seq::empty(), 0);
}

} // verus!
